use vstd::prelude::*;

verus! {

/// The HTTP statuses this service answers with.
#[derive(Debug, Clone, Copy, PartialEq, Eq, Structural)]
pub enum Status {
    Success,
    SeeOther,
    BadRequest,
    NotFound,
    InternalServerError,
}

pub open spec fn status_code(s: Status) -> u16 {
    match s {
        Status::Success => 200,
        Status::SeeOther => 303,
        Status::BadRequest => 400,
        Status::NotFound => 404,
        Status::InternalServerError => 500,
    }
}

impl Status {
    /// The numeric HTTP status code.
    pub fn code(&self) -> (r: u16)
        ensures
            r == status_code(*self),
    {
        match self {
            Status::Success => 200,
            Status::SeeOther => 303,
            Status::BadRequest => 400,
            Status::NotFound => 404,
            Status::InternalServerError => 500,
        }
    }
}

/// A reply body: plain text, or HTML to be sent as such.
#[derive(Debug, Clone)]
pub enum Body {
    Raw(String),
    Html(String),
}

/// A status with its body.
#[derive(Debug, Clone)]
pub struct Reply {
    pub status: Status,
    pub body: Body,
}

/// What a reply holds: its status, whether the body is HTML, and its text.
pub ghost struct ReplyView {
    pub status: Status,
    pub html: bool,
    pub text: Seq<char>,
}

impl View for Reply {
    type V = ReplyView;

    open spec fn view(&self) -> ReplyView {
        match self.body {
            Body::Raw(t) => ReplyView { status: self.status, html: false, text: t@ },
            Body::Html(t) => ReplyView { status: self.status, html: true, text: t@ },
        }
    }
}

pub open spec fn text_reply(status: Status, text: Seq<char>) -> ReplyView {
    ReplyView { status, html: false, text }
}

/// A plain-text reply.
pub fn raw_reply(status: Status, text: &str) -> (r: Reply)
    ensures
        r@ == text_reply(status, text@),
{
    Reply { status, body: Body::Raw(String::from_str(text)) }
}

/// The reply to a request for a file that cannot be opened: `404` with an
/// empty body.
pub fn not_found_reply() -> (r: Reply)
    ensures
        r@ == text_reply(Status::NotFound, Seq::empty()),
{
    Reply { status: Status::NotFound, body: Body::Raw(String::new()) }
}

} // verus!
