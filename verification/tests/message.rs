use email_serve::message::{EmailMessage, MessageBody, build_message, build_message_html, render_html_page};

const PAGE_BEFORE_TITLE: &str = "<!DOCTYPE html>\n        <html lang=\"en\">\n        <head>\n            <meta charset=\"UTF-8\">\n            <meta name=\"viewport\" content=\"width=device-width, initial-scale=1.0\">\n            <title>";
const PAGE_BEFORE_HEADING: &str = "</title>\n        </head>\n        <body>\n            <div style=\"display: flex; flex-direction: column; align-items: center;\">\n                <h2 style=\"font-family: Arial, Helvetica, sans-serif;\">";
const PAGE_BEFORE_CONTENT: &str = "</h2>\n                <h4 style=\"font-family: Arial, Helvetica, sans-serif;\">";
const PAGE_AFTER_CONTENT: &str = "</h4>\n            </div>\n        </body>\n        </html>\n      ";

fn expected_page(title: &str, content: &str) -> String {
    format!(
        "{}{}{}{}{}{}{}",
        PAGE_BEFORE_TITLE, title, PAGE_BEFORE_HEADING, title, PAGE_BEFORE_CONTENT, content,
        PAGE_AFTER_CONTENT,
    )
}

#[test]
fn text_message_fields() {
    let m = build_message("a@x.com", "b@x.com", None, "hi", "hello".to_string());
    assert_eq!(m.from, "a@x.com");
    assert_eq!(m.to, "b@x.com");
    assert_eq!(m.subject, "hi");
    assert!(m.reply_to.is_none());
    assert!(matches!(m.body, MessageBody::Plain(ref b) if b == "hello"));
}

#[test]
fn text_message_reply_to_present() {
    let m = build_message("a@x.com", "b@x.com", Some("c@x.com"), "hi", "hello".to_string());
    assert_eq!(m.reply_to.as_deref(), Some("c@x.com"));
}

#[test]
fn text_message_reply_to_absent() {
    let m = build_message("a@x.com", "b@x.com", None, "hi", "hello".to_string());
    assert!(m.reply_to.is_none());
}

#[test]
fn render_html_page_exact() {
    let got = render_html_page("Greetings", "Welcome aboard");
    assert_eq!(got, expected_page("Greetings", "Welcome aboard"));
}

#[test]
fn render_html_page_empty_values() {
    let got = render_html_page("", "");
    assert_eq!(got, expected_page("", ""));
}

#[test]
fn html_message_two_parts_in_order() {
    let m: EmailMessage = build_message_html(
        "a@x.com",
        "b@x.com",
        Some("c@x.com"),
        "hi",
        "fallback text".to_string(),
        "The Title",
        "The Content",
    );
    assert_eq!(m.from, "a@x.com");
    assert_eq!(m.to, "b@x.com");
    assert_eq!(m.reply_to.as_deref(), Some("c@x.com"));
    assert_eq!(m.subject, "hi");
    match m.body {
        MessageBody::Alternative { ref plain, ref html } => {
            assert_eq!(plain, "fallback text");
            assert_eq!(html, &expected_page("The Title", "The Content"));
            assert!(html.matches("The Title").count() >= 2);
            assert!(html.matches("The Content").count() >= 1);
        },
        MessageBody::Plain(_) => panic!("expected an alternative body"),
    }
}

#[test]
fn html_message_reply_to_absent() {
    let m = build_message_html(
        "a@x.com",
        "b@x.com",
        None,
        "hi",
        "spare".to_string(),
        "t",
        "c",
    );
    assert!(m.reply_to.is_none());
}
