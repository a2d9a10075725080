//! The per-request dispatch decisions: what to answer on a parse failure,
//! which message to hand the transport, and what to answer for each send
//! outcome.

use vstd::prelude::*;
use vstd::string::{StrSliceExecFns, StringExecFns};
use crate::message::{EmailMessage, MessageRequest, build_message, build_message_html};
use crate::transport::{AddressError, mailbox_ok, to_transport_message};

verus! {

/// `String::push` appends one character; the standard library documents no
/// more and no less.
pub assume_specification[ String::push ](s: &mut String, c: char)
    ensures
        final(s)@ == old(s)@ + seq![c],
;

/// The HTTP status every outcome but a malformed request answers with.
pub const STATUS_OK: u16 = 200;

/// The HTTP status a malformed request answers with.
pub const STATUS_BAD_REQUEST: u16 = 400;

/// What the response body carries: the success marker, or an error
/// description.
#[derive(Debug, Clone)]
pub enum ResponseBody {
    Success,
    Failure(String),
}

/// A response to one request: the HTTP status and what the body carries.
#[derive(Debug, Clone)]
pub struct DispatchResponse {
    pub status: u16,
    pub body: ResponseBody,
}

/// One of the sixteen lowercase hex digits.
pub open spec fn hex_digit(n: int) -> char {
    if n == 0 {
        '0'
    } else if n == 1 {
        '1'
    } else if n == 2 {
        '2'
    } else if n == 3 {
        '3'
    } else if n == 4 {
        '4'
    } else if n == 5 {
        '5'
    } else if n == 6 {
        '6'
    } else if n == 7 {
        '7'
    } else if n == 8 {
        '8'
    } else if n == 9 {
        '9'
    } else if n == 10 {
        'a'
    } else if n == 11 {
        'b'
    } else if n == 12 {
        'c'
    } else if n == 13 {
        'd'
    } else if n == 14 {
        'e'
    } else {
        'f'
    }
}

fn hex_char(n: u8) -> (c: char)
    requires
        n < 16,
    ensures
        c == hex_digit(n as int),
{
    match n {
        0 => '0',
        1 => '1',
        2 => '2',
        3 => '3',
        4 => '4',
        5 => '5',
        6 => '6',
        7 => '7',
        8 => '8',
        9 => '9',
        10 => 'a',
        11 => 'b',
        12 => 'c',
        13 => 'd',
        14 => 'e',
        _ => 'f',
    }
}

/// How one character stands inside a JSON string literal: the two-character
/// escapes for the quote, the backslash and the common control characters,
/// the \u00XX escape for the other control characters, and the character
/// itself otherwise.
pub open spec fn json_escaped_char(c: char) -> Seq<char> {
    if c == '"' {
        "\\\""@
    } else if c == '\\' {
        "\\\\"@
    } else if c == '\n' {
        "\\n"@
    } else if c == '\r' {
        "\\r"@
    } else if c == '\t' {
        "\\t"@
    } else if (c as u32) < 32 {
        "\\u00"@ + seq![hex_digit((c as u32) as int / 16)] + seq![hex_digit((c as u32) as int % 16)]
    } else {
        seq![c]
    }
}

/// A string as it stands inside a JSON string literal, every character
/// escaped as JSON asks.
pub open spec fn json_escaped(s: Seq<char>) -> Seq<char>
    decreases s.len(),
{
    if s.len() == 0 {
        Seq::empty()
    } else {
        json_escaped(s.drop_last()) + json_escaped_char(s.last())
    }
}

/// Escapes a string for embedding inside a JSON string literal.
pub fn json_escape(s: &str) -> (r: String)
    ensures
        r@ == json_escaped(s@),
{
    let n = s.unicode_len();
    let mut out = String::new();
    let mut i: usize = 0;
    while i < n
        invariant
            i <= n,
            n == s@.len(),
            out@ == json_escaped(s@.subrange(0, i as int)),
        decreases n - i,
    {
        let c = s.get_char(i);
        proof {
            assert(s@.subrange(0, i + 1).drop_last() =~= s@.subrange(0, i as int));
            assert(s@.subrange(0, i + 1).last() == s@[i as int]);
        }
        if c == '"' {
            out.append("\\\"");
        } else if c == '\\' {
            out.append("\\\\");
        } else if c == '\n' {
            out.append("\\n");
        } else if c == '\r' {
            out.append("\\r");
        } else if c == '\t' {
            out.append("\\t");
        } else {
            let v = c as u32;
            if v < 32 {
                out.append("\\u00");
                out.push(hex_char((v / 16) as u8));
                out.push(hex_char((v % 16) as u8));
            } else {
                out.push(c);
            }
        }
        i = i + 1;
    }
    proof {
        assert(s@.subrange(0, n as int) =~= s@);
    }
    out
}

/// The exact JSON text a response body answers with: the fixed success
/// marker object (its value is the CJK word for success), or an object
/// carrying the escaped error description under the error key.
pub open spec fn response_json(b: ResponseBody) -> Seq<char> {
    match b {
        ResponseBody::Success => "{\"message\":\"\u{6210}\u{529f}\"}"@,
        ResponseBody::Failure(d) => "{\"err\":\""@ + json_escaped(d@) + "\"}"@,
    }
}

impl DispatchResponse {
    /// Renders the response body as its JSON text.
    pub fn body_json(&self) -> (r: String)
        ensures
            r@ == response_json(self.body),
    {
        match &self.body {
            ResponseBody::Success => "{\"message\":\"\u{6210}\u{529f}\"}".to_owned(),
            ResponseBody::Failure(d) => {
                let mut out = "{\"err\":\"".to_owned();
                out.append(json_escape(d.as_str()).as_str());
                out.append("\"}");
                out
            },
        }
    }
}

/// Whether every address a request supplies is one lettre accepts.
pub open spec fn request_addresses_ok(req: MessageRequest) -> bool {
    match req {
        MessageRequest::Html { form, to, reply_to, .. } => {
            &&& mailbox_ok(form@)
            &&& mailbox_ok(to@)
            &&& match reply_to {
                Some(s) => mailbox_ok(s@),
                None => true,
            }
        },
        MessageRequest::Text { form, to, reply_to, .. } => {
            &&& mailbox_ok(form@)
            &&& mailbox_ok(to@)
            &&& match reply_to {
                Some(s) => mailbox_ok(s@),
                None => true,
            }
        },
    }
}

/// The first address of a request lettre rejects, in the order From, To,
/// Reply-To. Meaningful only when `request_addresses_ok` fails.
pub open spec fn request_address_error(req: MessageRequest) -> AddressError {
    match req {
        MessageRequest::Html { form, to, .. } => if !mailbox_ok(form@) {
            AddressError::BadFrom
        } else if !mailbox_ok(to@) {
            AddressError::BadTo
        } else {
            AddressError::BadReplyTo
        },
        MessageRequest::Text { form, to, .. } => if !mailbox_ok(form@) {
            AddressError::BadFrom
        } else if !mailbox_ok(to@) {
            AddressError::BadTo
        } else {
            AddressError::BadReplyTo
        },
    }
}

/// Decides the first half of a dispatch. A payload that did not decode is
/// rejected with the client-error status and its parse error, and nothing is
/// handed to the transport; so is a request with an address lettre rejects.
/// Every other request becomes a transport-ready message.
pub fn prepare_dispatch(parsed: Result<MessageRequest, String>) -> (r: Result<
    lettre::Message,
    DispatchResponse,
>)
    ensures
        parsed matches Err(e) ==> (r matches Err(resp) && resp.status == STATUS_BAD_REQUEST && (
        resp.body matches ResponseBody::Failure(d) && d@ == e@)),
        parsed matches Ok(req) ==> (r is Ok <==> request_addresses_ok(req)),
        parsed matches Ok(req) ==> (!request_addresses_ok(req) ==> (r matches Err(resp)
            && resp.status == STATUS_BAD_REQUEST && (resp.body matches ResponseBody::Failure(d)
            && d@ == request_address_error(req).spec_describe()))),
{
    let req = match parsed {
        Err(e) => {
            return Err(
                DispatchResponse { status: STATUS_BAD_REQUEST, body: ResponseBody::Failure(e) },
            );
        },
        Ok(req) => req,
    };
    let m: EmailMessage = match req {
        MessageRequest::Text { form, to, reply_to, subject, body } => {
            let rt = match &reply_to {
                Some(s) => Some(s.as_str()),
                None => None,
            };
            build_message(form.as_str(), to.as_str(), rt, subject.as_str(), body)
        },
        MessageRequest::Html { form, to, reply_to, subject, spare, title, content } => {
            let rt = match &reply_to {
                Some(s) => Some(s.as_str()),
                None => None,
            };
            build_message_html(
                form.as_str(),
                to.as_str(),
                rt,
                subject.as_str(),
                spare,
                title.as_str(),
                content.as_str(),
            )
        },
    };
    match to_transport_message(&m) {
        Ok(msg) => Ok(msg),
        Err(ae) => Err(
            DispatchResponse {
                status: STATUS_BAD_REQUEST,
                body: ResponseBody::Failure(ae.describe()),
            },
        ),
    }
}

/// Decides the answer for a send outcome. Success answers the success status
/// with the success marker; a transport failure answers the same success
/// status, with the error description only in the body.
pub fn conclude_dispatch(sent: Result<(), String>) -> (r: DispatchResponse)
    ensures
        sent is Ok ==> r.status == STATUS_OK && r.body is Success,
        sent matches Err(e) ==> (r.status == STATUS_OK && (
        r.body matches ResponseBody::Failure(d) && d@ == e@)),
{
    match sent {
        Ok(_) => DispatchResponse { status: STATUS_OK, body: ResponseBody::Success },
        Err(e) => DispatchResponse { status: STATUS_OK, body: ResponseBody::Failure(e) },
    }
}

} // verus!
