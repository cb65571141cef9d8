//! The HTTP-facing reply shape: a status code and a three-field body. The
//! body's optional fields are omitted from the serialized form when absent;
//! serialization itself lives outside the library.

use vstd::prelude::*;

verus! {

/// A response body: a status word plus optional error and message texts.
#[derive(Debug, PartialEq, Eq)]
pub struct Response {
    /// `"success"`, `"error"`, `"healthy"` or `"warning"`.
    pub status: String,
    /// A short error designation, absent on success.
    pub error: Option<String>,
    /// Additional human-readable detail, where one exists.
    pub message: Option<String>,
}

/// The mathematical value of a [`Response`].
pub struct ResponseView {
    /// The status word.
    pub status: Seq<char>,
    /// The error designation, if any.
    pub error: Option<Seq<char>>,
    /// The detail text, if any.
    pub message: Option<Seq<char>>,
}

impl View for Response {
    type V = ResponseView;

    open spec fn view(&self) -> ResponseView {
        ResponseView {
            status: self.status@,
            error: match self.error {
                Option::Some(e) => Option::Some(e@),
                Option::None => Option::None,
            },
            message: match self.message {
                Option::Some(m) => Option::Some(m@),
                Option::None => Option::None,
            },
        }
    }
}

/// A complete reply: the HTTP status code and the body to serialize.
#[derive(Debug, PartialEq, Eq)]
pub struct Reply {
    /// The HTTP status code.
    pub code: u16,
    /// The body.
    pub body: Response,
}

/// The mathematical value of a [`Reply`].
pub struct ReplyView {
    /// The HTTP status code.
    pub code: u16,
    /// The body.
    pub body: ResponseView,
}

impl View for Reply {
    type V = ReplyView;

    open spec fn view(&self) -> ReplyView {
        ReplyView { code: self.code, body: self.body@ }
    }
}

} // verus!
