//! What a handler answers: an HTTP status and a payload.
use vstd::prelude::*;
use vstd::string::*;

verus! {

/// The HTTP statuses that the handlers answer with.
#[derive(Clone, Copy, PartialEq, Eq, Structural, Debug)]
pub enum Status {
    /// 200
    Success,
    /// 201
    Created,
    /// 409
    Conflict,
    /// 401
    Unauthorized,
    /// 500
    ServerError,
}

impl Status {
    pub open spec fn spec_code(self) -> u16 {
        match self {
            Status::Success => 200,
            Status::Created => 201,
            Status::Conflict => 409,
            Status::Unauthorized => 401,
            Status::ServerError => 500,
        }
    }

    /// The numeric HTTP status code.
    pub fn code(&self) -> (c: u16)
        ensures
            c == self.spec_code(),
    {
        match self {
            Status::Success => 200,
            Status::Created => 201,
            Status::Conflict => 409,
            Status::Unauthorized => 401,
            Status::ServerError => 500,
        }
    }
}

/// The JSON object sent with a refused login: a message and a status number.
pub struct ErrorStatus {
    pub message: String,
    pub status: u32,
}

/// The JSON object sent with a successful login.
pub struct ResponseToken {
    pub access_token: String,
}

/// The body of a reply.
pub enum Payload {
    /// A JSON string holding this text.
    Text(String),
    /// An `ErrorStatus` object.
    Failure(ErrorStatus),
    /// A `ResponseToken` object.
    Token(ResponseToken),
    /// The record, or the records, that the last database query returned, as JSON.
    Record,
    /// A plain-text body holding this text.
    Body(String),
}

/// A handler's answer.
pub struct Reply {
    pub status: Status,
    pub payload: Payload,
}

/// The mathematical content of a payload.
pub enum PayloadView {
    Text(Seq<char>),
    Failure(Seq<char>, u32),
    Token(Seq<char>),
    Record,
    Body(Seq<char>),
}

/// The mathematical content of a reply.
pub struct ReplyView {
    pub status: Status,
    pub payload: PayloadView,
}

impl View for Payload {
    type V = PayloadView;

    open spec fn view(&self) -> PayloadView {
        match self {
            Payload::Text(t) => PayloadView::Text(t@),
            Payload::Failure(e) => PayloadView::Failure(e.message@, e.status),
            Payload::Token(t) => PayloadView::Token(t.access_token@),
            Payload::Record => PayloadView::Record,
            Payload::Body(b) => PayloadView::Body(b@),
        }
    }
}

impl View for Reply {
    type V = ReplyView;

    open spec fn view(&self) -> ReplyView {
        ReplyView { status: self.status, payload: self.payload@ }
    }
}

/// A reply whose body is a JSON string.
pub open spec fn text_reply(status: Status, text: Seq<char>) -> ReplyView {
    ReplyView { status, payload: PayloadView::Text(text) }
}

/// A reply whose body is plain text.
pub open spec fn body_reply(status: Status, text: Seq<char>) -> ReplyView {
    ReplyView { status, payload: PayloadView::Body(text) }
}

/// A reply whose body is an `ErrorStatus` object.
pub open spec fn failure_reply(status: Status, message: Seq<char>, code: u32) -> ReplyView {
    ReplyView { status, payload: PayloadView::Failure(message, code) }
}

/// A reply whose body is what the last database query returned.
pub open spec fn record_reply(status: Status) -> ReplyView {
    ReplyView { status, payload: PayloadView::Record }
}

/// Builds a reply whose body is the JSON string `text`.
pub fn text(status: Status, message: &str) -> (r: Reply)
    ensures
        r@ == text_reply(status, message@),
{
    Reply { status, payload: Payload::Text(message.to_owned()) }
}

/// Builds a reply whose body is the JSON string made of `prefix` followed by `detail`.
pub fn prefixed_text(status: Status, prefix: &str, detail: &str) -> (r: Reply)
    ensures
        r@ == text_reply(status, prefix@ + detail@),
{
    let t = prefix.to_owned().concat(detail);
    Reply { status, payload: Payload::Text(t) }
}

/// Builds a reply whose body is the plain text `text`.
pub fn body(status: Status, content: String) -> (r: Reply)
    ensures
        r@ == body_reply(status, content@),
{
    Reply { status, payload: Payload::Body(content) }
}

/// Builds a reply whose body is what the last database query returned.
pub fn record(status: Status) -> (r: Reply)
    ensures
        r@ == record_reply(status),
{
    Reply { status, payload: Payload::Record }
}

/// Builds a reply whose body is an `ErrorStatus` object.
pub fn failure(status: Status, message: &str, code: u32) -> (r: Reply)
    ensures
        r@ == failure_reply(status, message@, code),
{
    Reply {
        status,
        payload: Payload::Failure(ErrorStatus { message: message.to_owned(), status: code }),
    }
}

} // verus!
