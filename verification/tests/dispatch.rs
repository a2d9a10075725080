use email_serve::dispatch::{DispatchResponse, ResponseBody, conclude_dispatch, prepare_dispatch};
use email_serve::message::MessageRequest;
use email_serve::transport::{AddressError, to_transport_message, valid_address};
use email_serve::message::build_message;

fn text_request(form: &str, to: &str, reply_to: Option<&str>) -> MessageRequest {
    MessageRequest::Text {
        form: form.to_string(),
        to: to.to_string(),
        reply_to: reply_to.map(|s| s.to_string()),
        subject: "hi".to_string(),
        body: "hello".to_string(),
    }
}

#[test]
fn malformed_payload_rejected() {
    let r = prepare_dispatch(Err("missing field `type`".to_string()));
    match r {
        Err(DispatchResponse { status, body: ResponseBody::Failure(d) }) => {
            assert_eq!(status, 400);
            assert_eq!(d, "missing field `type`");
        },
        _ => panic!("a parse failure must be rejected with an error body"),
    }
}

#[test]
fn invalid_from_address_rejected() {
    let r = prepare_dispatch(Ok(text_request("not an address", "b@x.com", None)));
    match r {
        Err(DispatchResponse { status, body: ResponseBody::Failure(d) }) => {
            assert_eq!(status, 400);
            assert_eq!(d, "invalid from address");
        },
        _ => panic!("a bad from address must be rejected"),
    }
}

#[test]
fn invalid_reply_to_address_rejected() {
    let r = prepare_dispatch(Ok(text_request("a@x.com", "b@x.com", Some("@@"))));
    match r {
        Err(DispatchResponse { status, body: ResponseBody::Failure(d) }) => {
            assert_eq!(status, 400);
            assert_eq!(d, "invalid replyTo address");
        },
        _ => panic!("a bad reply-to address must be rejected"),
    }
}

#[test]
fn invalid_to_address_rejected() {
    let r = prepare_dispatch(Ok(text_request("a@x.com", "no at sign", None)));
    match r {
        Err(DispatchResponse { status, body: ResponseBody::Failure(d) }) => {
            assert_eq!(status, 400);
            assert_eq!(d, "invalid to address");
        },
        _ => panic!("a bad to address must be rejected"),
    }
}

#[test]
fn well_formed_text_request_accepted() {
    // The request of the form {type: "text", config: {form, to, subject, body}},
    // against a transport that accepts every send.
    let prepared = prepare_dispatch(Ok(text_request("a@x.com", "b@x.com", None)));
    let _message = match prepared {
        Ok(m) => m,
        Err(_) => panic!("a well-formed request must reach the transport"),
    };
    let r = conclude_dispatch(Ok(()));
    assert_eq!(r.status, 200);
    assert!(matches!(r.body, ResponseBody::Success));
}

#[test]
fn first_bad_address_named() {
    let m = build_message("bad", "also bad", None, "hi", "b".to_string());
    match to_transport_message(&m) {
        Err(e) => assert_eq!(e, AddressError::BadFrom),
        Ok(_) => panic!("two bad addresses cannot build"),
    }
}

#[test]
fn valid_text_request_prepared() {
    let r = prepare_dispatch(Ok(text_request("a@x.com", "b@x.com", Some("c@x.com"))));
    assert!(r.is_ok());
}

#[test]
fn valid_html_request_prepared() {
    let r = prepare_dispatch(Ok(MessageRequest::Html {
        form: "a@x.com".to_string(),
        to: "b@x.com".to_string(),
        reply_to: None,
        subject: "hi".to_string(),
        spare: "fallback".to_string(),
        title: "T".to_string(),
        content: "C".to_string(),
    }));
    assert!(r.is_ok());
}

#[test]
fn send_success_concluded() {
    let r = conclude_dispatch(Ok(()));
    assert_eq!(r.status, 200);
    assert!(matches!(r.body, ResponseBody::Success));
}

#[test]
fn auth_rejection_reported_with_success_status() {
    let r = conclude_dispatch(Err("authentication failed: invalid credentials".to_string()));
    assert_eq!(r.status, 200);
    assert!(
        matches!(r.body, ResponseBody::Failure(ref d) if d == "authentication failed: invalid credentials")
    );
}

#[test]
fn each_request_reaches_one_outcome() {
    for i in 0..16 {
        let parsed = if i % 3 == 0 {
            Err(format!("broken payload {}", i))
        } else if i % 3 == 1 {
            Ok(text_request("nope", "b@x.com", None))
        } else {
            Ok(text_request("a@x.com", "b@x.com", None))
        };
        let prepared = prepare_dispatch(parsed);
        let response = match prepared {
            Err(resp) => resp,
            Ok(_msg) => {
                let sent = if i % 2 == 0 { Ok(()) } else { Err("relay refused".to_string()) };
                conclude_dispatch(sent)
            },
        };
        assert!(response.status == 200 || response.status == 400);
        match response.body {
            ResponseBody::Success => assert_eq!(response.status, 200),
            ResponseBody::Failure(d) => assert!(!d.is_empty()),
        }
    }
}

#[test]
fn success_body_json_exact() {
    let r = conclude_dispatch(Ok(()));
    assert_eq!(r.body_json(), "{\"message\":\"成功\"}");
}

#[test]
fn failure_body_json_escapes() {
    let r = conclude_dispatch(Err("say \"hi\"\\now\n".to_string()));
    assert_eq!(r.body_json(), "{\"err\":\"say \\\"hi\\\"\\\\now\\n\"}");
}

#[test]
fn failure_body_json_control_char() {
    let r = conclude_dispatch(Err("\u{1}\u{1f}".to_string()));
    assert_eq!(r.body_json(), "{\"err\":\"\\u0001\\u001f\"}");
}

#[test]
fn address_validity() {
    assert!(valid_address("a@x.com"));
    assert!(valid_address("Name <a@x.com>"));
    assert!(!valid_address(""));
    assert!(!valid_address("no at sign"));
}
