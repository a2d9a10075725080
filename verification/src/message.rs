//! The message model: decoded requests and the transport-ready message they
//! become, with the fixed HTML page template.

use vstd::prelude::*;
use vstd::string::StringExecFns;

verus! {

/// A send request, already decoded from the wire: either an HTML mail with a
/// plain-text fallback, or a plain-text mail.
#[derive(Debug, Clone)]
pub enum MessageRequest {
    Html {
        form: String,
        to: String,
        reply_to: Option<String>,
        subject: String,
        spare: String,
        title: String,
        content: String,
    },
    Text {
        form: String,
        to: String,
        reply_to: Option<String>,
        subject: String,
        body: String,
    },
}

/// The body of a constructed message: a single plain-text body, or a
/// multi-part alternative body whose parts stand in fixed order, the
/// plain-text fallback first and the HTML rendering second.
#[derive(Debug, Clone)]
pub enum MessageBody {
    Plain(String),
    Alternative { plain: String, html: String },
}

/// A transport-ready message: the header set (From, To, Subject, and Reply-To
/// only when supplied) and the body.
#[derive(Debug, Clone)]
pub struct EmailMessage {
    pub from: String,
    pub to: String,
    pub reply_to: Option<String>,
    pub subject: String,
    pub body: MessageBody,
}

/// The page template up to the document title.
pub open spec fn page_before_title() -> Seq<char> {
    "<!DOCTYPE html>\n        <html lang=\"en\">\n        <head>\n            <meta charset=\"UTF-8\">\n            <meta name=\"viewport\" content=\"width=device-width, initial-scale=1.0\">\n            <title>"@
}

/// The page template between the document title and the heading.
pub open spec fn page_before_heading() -> Seq<char> {
    "</title>\n        </head>\n        <body>\n            <div style=\"display: flex; flex-direction: column; align-items: center;\">\n                <h2 style=\"font-family: Arial, Helvetica, sans-serif;\">"@
}

/// The page template between the heading and the sub-heading.
pub open spec fn page_before_content() -> Seq<char> {
    "</h2>\n                <h4 style=\"font-family: Arial, Helvetica, sans-serif;\">"@
}

/// The page template after the sub-heading.
pub open spec fn page_after_content() -> Seq<char> {
    "</h4>\n            </div>\n        </body>\n        </html>\n      "@
}

/// The rendered HTML page: the fixed template with the title interpolated
/// into both the document title and a heading, and the content interpolated
/// into a sub-heading.
pub open spec fn html_page(title: Seq<char>, content: Seq<char>) -> Seq<char> {
    page_before_title() + title + page_before_heading() + title + page_before_content() + content
        + page_after_content()
}

/// Renders the fixed HTML page for an HTML mail.
pub fn render_html_page(title: &str, content: &str) -> (r: String)
    ensures
        r@ == html_page(title@, content@),
{
    let mut s = String::new();
    s.append("<!DOCTYPE html>\n        <html lang=\"en\">\n        <head>\n            <meta charset=\"UTF-8\">\n            <meta name=\"viewport\" content=\"width=device-width, initial-scale=1.0\">\n            <title>");
    s.append(title);
    s.append("</title>\n        </head>\n        <body>\n            <div style=\"display: flex; flex-direction: column; align-items: center;\">\n                <h2 style=\"font-family: Arial, Helvetica, sans-serif;\">");
    s.append(title);
    s.append("</h2>\n                <h4 style=\"font-family: Arial, Helvetica, sans-serif;\">");
    s.append(content);
    s.append("</h4>\n            </div>\n        </body>\n        </html>\n      ");
    s
}

/// Holds when `r` is the message a text request with these fields builds:
/// the three fixed headers, Reply-To exactly when supplied, and the plain
/// body verbatim.
pub open spec fn text_message_built(
    r: EmailMessage,
    form: Seq<char>,
    to: Seq<char>,
    reply_to: Option<Seq<char>>,
    subject: Seq<char>,
    body: Seq<char>,
) -> bool {
    &&& r.from@ == form
    &&& r.to@ == to
    &&& r.subject@ == subject
    &&& match reply_to {
        Some(s) => r.reply_to matches Some(t) && t@ == s,
        None => r.reply_to is None,
    }
    &&& r.body matches MessageBody::Plain(b) && b@ == body
}

/// Holds when `r` is the message an HTML request with these fields builds:
/// the three fixed headers, Reply-To exactly when supplied, and a two-part
/// alternative body of the fallback text and the rendered page.
pub open spec fn html_message_built(
    r: EmailMessage,
    form: Seq<char>,
    to: Seq<char>,
    reply_to: Option<Seq<char>>,
    subject: Seq<char>,
    spare: Seq<char>,
    title: Seq<char>,
    content: Seq<char>,
) -> bool {
    &&& r.from@ == form
    &&& r.to@ == to
    &&& r.subject@ == subject
    &&& match reply_to {
        Some(s) => r.reply_to matches Some(t) && t@ == s,
        None => r.reply_to is None,
    }
    &&& r.body matches MessageBody::Alternative { plain, html } && plain@ == spare && html@
        == html_page(title, content)
}

/// Builds the message for a text request: headers From, To, Subject, the
/// Reply-To header only when supplied, and the plain body verbatim.
pub fn build_message(
    form: &str,
    to: &str,
    reply_to: Option<&str>,
    subject: &str,
    body: String,
) -> (r: EmailMessage)
    ensures
        text_message_built(r, form@, to@, reply_to.deep_view(), subject@, body@),
{
    let rt = match reply_to {
        Some(s) => Some(s.to_owned()),
        None => None,
    };
    EmailMessage {
        from: form.to_owned(),
        to: to.to_owned(),
        reply_to: rt,
        subject: subject.to_owned(),
        body: MessageBody::Plain(body),
    }
}

/// Builds the message for an HTML request: headers as for a text request, and
/// an alternative body of exactly two parts in fixed order, the supplied
/// fallback text first and the rendered page second.
pub fn build_message_html(
    form: &str,
    to: &str,
    reply_to: Option<&str>,
    subject: &str,
    spare: String,
    title: &str,
    content: &str,
) -> (r: EmailMessage)
    ensures
        html_message_built(
            r,
            form@,
            to@,
            reply_to.deep_view(),
            subject@,
            spare@,
            title@,
            content@,
        ),
{
    let html = render_html_page(title, content);
    let rt = match reply_to {
        Some(s) => Some(s.to_owned()),
        None => None,
    };
    EmailMessage {
        from: form.to_owned(),
        to: to.to_owned(),
        reply_to: rt,
        subject: subject.to_owned(),
        body: MessageBody::Alternative { plain: spare, html },
    }
}

/// The names of the headers a message carries: the three fixed ones, and
/// Reply-To only when the message has one.
pub open spec fn header_names(m: EmailMessage) -> Set<Seq<char>> {
    if m.reply_to is Some {
        set!["From"@, "To"@, "Subject"@, "Reply-To"@]
    } else {
        set!["From"@, "To"@, "Subject"@]
    }
}

/// The parts of a body, in transport order, each as its content type and its
/// text.
pub open spec fn body_parts(b: MessageBody) -> Seq<(Seq<char>, Seq<char>)> {
    match b {
        MessageBody::Plain(t) => seq![("text/plain"@, t@)],
        MessageBody::Alternative { plain, html } => seq![
            ("text/plain"@, plain@),
            ("text/html"@, html@),
        ],
    }
}

/// Law: a message built from a text request carries exactly the headers
/// From, To and Subject, with Reply-To added exactly when the request
/// supplied one, and a single plain-text body equal to the input body.
pub proof fn lemma_text_message_headers(
    r: EmailMessage,
    form: Seq<char>,
    to: Seq<char>,
    reply_to: Option<Seq<char>>,
    subject: Seq<char>,
    body: Seq<char>,
)
    requires
        text_message_built(r, form, to, reply_to, subject, body),
    ensures
        reply_to is Some ==> header_names(r) == set!["From"@, "To"@, "Subject"@, "Reply-To"@],
        reply_to is None ==> header_names(r) == set!["From"@, "To"@, "Subject"@],
        body_parts(r.body) == seq![("text/plain"@, body)],
{
}

/// Law: the rendered page holds the title at two distinct places, the
/// document title and the heading, and the content at one, the sub-heading.
pub proof fn lemma_html_page_occurrences(title: Seq<char>, content: Seq<char>)
    ensures
        ({
            let h = html_page(title, content);
            let t1 = page_before_title().len() as int;
            let t2 = t1 + title.len() + page_before_heading().len();
            let c1 = t2 + title.len() + page_before_content().len();
            &&& t1 < t2
            &&& h.subrange(t1, t1 + title.len()) == title
            &&& h.subrange(t2, t2 + title.len()) == title
            &&& h.subrange(c1, c1 + content.len()) == content
        }),
{
    reveal_strlit(
        "</title>\n        </head>\n        <body>\n            <div style=\"display: flex; flex-direction: column; align-items: center;\">\n                <h2 style=\"font-family: Arial, Helvetica, sans-serif;\">",
    );
    let h = html_page(title, content);
    let t1 = page_before_title().len() as int;
    let t2 = t1 + title.len() + page_before_heading().len();
    let c1 = t2 + title.len() + page_before_content().len();
    assert(h.subrange(t1, t1 + title.len()) =~= title);
    assert(h.subrange(t2, t2 + title.len()) =~= title);
    assert(h.subrange(c1, c1 + content.len()) =~= content);
}

/// Law: a message built from an HTML request has exactly two body parts in
/// fixed order, plain-text first and HTML second; the plain part equals the
/// supplied fallback verbatim; the HTML part holds the title at two distinct
/// places and the content at one.
pub proof fn lemma_html_message_parts(
    r: EmailMessage,
    form: Seq<char>,
    to: Seq<char>,
    reply_to: Option<Seq<char>>,
    subject: Seq<char>,
    spare: Seq<char>,
    title: Seq<char>,
    content: Seq<char>,
)
    requires
        html_message_built(r, form, to, reply_to, subject, spare, title, content),
    ensures
        body_parts(r.body).len() == 2,
        body_parts(r.body)[0] == ("text/plain"@, spare),
        body_parts(r.body)[1].0 == "text/html"@,
        ({
            let h = body_parts(r.body)[1].1;
            let t1 = page_before_title().len() as int;
            let t2 = t1 + title.len() + page_before_heading().len();
            let c1 = t2 + title.len() + page_before_content().len();
            &&& t1 < t2
            &&& h.subrange(t1, t1 + title.len()) == title
            &&& h.subrange(t2, t2 + title.len()) == title
            &&& h.subrange(c1, c1 + content.len()) == content
        }),
{
    lemma_html_page_occurrences(title, content);
}

/// Law: the Reply-To header is present in a message built from a text
/// request exactly when the request supplied a reply-to value.
pub proof fn lemma_text_reply_to_iff(
    r: EmailMessage,
    form: Seq<char>,
    to: Seq<char>,
    reply_to: Option<Seq<char>>,
    subject: Seq<char>,
    body: Seq<char>,
)
    requires
        text_message_built(r, form, to, reply_to, subject, body),
    ensures
        r.reply_to is Some <==> reply_to is Some,
{
}

/// Law: the Reply-To header is present in a message built from an HTML
/// request exactly when the request supplied a reply-to value.
pub proof fn lemma_html_reply_to_iff(
    r: EmailMessage,
    form: Seq<char>,
    to: Seq<char>,
    reply_to: Option<Seq<char>>,
    subject: Seq<char>,
    spare: Seq<char>,
    title: Seq<char>,
    content: Seq<char>,
)
    requires
        html_message_built(r, form, to, reply_to, subject, spare, title, content),
    ensures
        r.reply_to is Some <==> reply_to is Some,
{
}

} // verus!
