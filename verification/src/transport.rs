//! The bridge from the verified message model to lettre's transport-ready
//! `Message`: address validation and message assembly.

use vstd::prelude::*;
use crate::message::{EmailMessage, MessageBody};

verus! {

#[verifier::external_type_specification]
#[verifier::external_body]
pub struct ExMailbox(lettre::message::Mailbox);

#[verifier::external_type_specification]
#[verifier::external_body]
pub struct ExLettreMessage(lettre::Message);

/// Whether lettre's mailbox grammar accepts the string: the parse is a
/// function of the characters alone.
pub uninterp spec fn mailbox_ok(s: Seq<char>) -> bool;

/// Relies on lettre's `Mailbox` `FromStr` parser (a pure parser over the
/// input string): it returns `Ok` exactly on strings its grammar accepts.
#[verifier::external_body]
fn parse_mailbox(s: &str) -> (r: Option<lettre::message::Mailbox>)
    ensures
        r is Some <==> mailbox_ok(s@),
{
    s.parse::<lettre::message::Mailbox>().ok()
}

/// Reports whether lettre accepts the string as a mail address.
pub fn valid_address(s: &str) -> (b: bool)
    ensures
        b == mailbox_ok(s@),
{
    parse_mailbox(s).is_some()
}

/// Relies on lettre's `MessageBuilder` (`from`, `to`, `reply_to`, `subject`,
/// `body`): with one From and one To mailbox set, `build` cannot fail, since
/// the envelope gets a recipient and exactly one originator.
#[verifier::external_body]
fn lettre_text_message(
    from: lettre::message::Mailbox,
    to: lettre::message::Mailbox,
    reply_to: Option<lettre::message::Mailbox>,
    subject: &str,
    body: String,
) -> lettre::Message {
    let b = lettre::Message::builder().from(from).to(to).subject(subject);
    let b = match reply_to {
        Some(m) => b.reply_to(m),
        None => b,
    };
    b.body(body).expect("a message with From and To set builds")
}

/// Relies on lettre's `MessageBuilder` and `MultiPart::alternative`: the two
/// single parts keep the order they are attached in, and with one From and
/// one To mailbox set, `multipart` cannot fail.
#[verifier::external_body]
fn lettre_html_message(
    from: lettre::message::Mailbox,
    to: lettre::message::Mailbox,
    reply_to: Option<lettre::message::Mailbox>,
    subject: &str,
    plain: String,
    html: String,
) -> lettre::Message {
    let b = lettre::Message::builder().from(from).to(to).subject(subject);
    let b = match reply_to {
        Some(m) => b.reply_to(m),
        None => b,
    };
    let text = lettre::message::SinglePart::builder()
        .header(lettre::message::header::ContentType::TEXT_PLAIN).body(plain);
    let page = lettre::message::SinglePart::builder()
        .header(lettre::message::header::ContentType::TEXT_HTML).body(html);
    b.multipart(lettre::message::MultiPart::alternative().singlepart(text).singlepart(page))
        .expect("a message with From and To set builds")
}

/// Which address of a message failed to parse.
#[derive(Debug, Clone, Copy, PartialEq, Eq, Structural)]
pub enum AddressError {
    BadFrom,
    BadTo,
    BadReplyTo,
}

impl AddressError {
    /// The description of the failed address, for the response body.
    pub open spec fn spec_describe(self) -> Seq<char> {
        match self {
            AddressError::BadFrom => "invalid from address"@,
            AddressError::BadTo => "invalid to address"@,
            AddressError::BadReplyTo => "invalid replyTo address"@,
        }
    }

    /// Describes the failed address for the response body.
    pub fn describe(&self) -> (r: String)
        ensures
            r@ == self.spec_describe(),
    {
        match self {
            AddressError::BadFrom => "invalid from address".to_owned(),
            AddressError::BadTo => "invalid to address".to_owned(),
            AddressError::BadReplyTo => "invalid replyTo address".to_owned(),
        }
    }
}

/// Whether every address a message carries is one lettre accepts.
pub open spec fn addresses_ok(m: EmailMessage) -> bool {
    &&& mailbox_ok(m.from@)
    &&& mailbox_ok(m.to@)
    &&& match m.reply_to {
        Some(s) => mailbox_ok(s@),
        None => true,
    }
}

/// Assembles the transport-ready lettre `Message` for a model message.
/// Succeeds exactly when every supplied address parses; the first failing
/// address, in the order From, To, Reply-To, names the error.
pub fn to_transport_message(m: &EmailMessage) -> (r: Result<
    lettre::Message,
    AddressError,
>)
    ensures
        r is Ok <==> addresses_ok(*m),
        !mailbox_ok(m.from@) ==> (r matches Err(e) && e == AddressError::BadFrom),
        mailbox_ok(m.from@) && !mailbox_ok(m.to@) ==> (r matches Err(e) && e
            == AddressError::BadTo),
        mailbox_ok(m.from@) && mailbox_ok(m.to@) && (m.reply_to matches Some(s)
            && !mailbox_ok(s@)) ==> (r matches Err(e) && e == AddressError::BadReplyTo),
{
    let from = match parse_mailbox(m.from.as_str()) {
        Some(x) => x,
        None => {
            return Err(AddressError::BadFrom);
        },
    };
    let to = match parse_mailbox(m.to.as_str()) {
        Some(x) => x,
        None => {
            return Err(AddressError::BadTo);
        },
    };
    let reply = match &m.reply_to {
        Some(s) => match parse_mailbox(s.as_str()) {
            Some(x) => Some(x),
            None => {
                return Err(AddressError::BadReplyTo);
            },
        },
        None => None,
    };
    match &m.body {
        MessageBody::Plain(b) => Ok(
            lettre_text_message(from, to, reply, m.subject.as_str(), b.clone()),
        ),
        MessageBody::Alternative { plain, html } => Ok(
            lettre_html_message(from, to, reply, m.subject.as_str(), plain.clone(), html.clone()),
        ),
    }
}

} // verus!
