//! What the service hands back for a request: a status and a body.

use vstd::prelude::*;
use crate::models::{Post, PostView};

verus! {

/// The four statuses that the service answers with.
#[derive(Debug, Clone, Copy, PartialEq, Eq, Structural)]
pub enum Status {
    Success,
    Conflict,
    NotFound,
    InternalServerError,
}

impl Status {
    /// The status code on the wire.
    pub open spec fn spec_code(self) -> u16 {
        match self {
            Status::Success => 200,
            Status::Conflict => 409,
            Status::NotFound => 404,
            Status::InternalServerError => 500,
        }
    }

    /// The status code on the wire.
    #[verifier::when_used_as_spec(spec_code)]
    pub fn code(self) -> (code: u16)
        ensures
            code == self.spec_code(),
    {
        match self {
            Status::Success => 200,
            Status::Conflict => 409,
            Status::NotFound => 404,
            Status::InternalServerError => 500,
        }
    }
}

/// The body of an answer: nothing, a plain text, or a post to be written as JSON.
#[derive(Debug, PartialEq)]
pub enum Body {
    Empty,
    Text(String),
    Json(Post),
}

/// What a `Body` is to the contracts.
pub enum BodyView {
    Empty,
    Text(Seq<char>),
    Json(PostView),
}

impl View for Body {
    type V = BodyView;

    open spec fn view(&self) -> BodyView {
        match self {
            Body::Empty => BodyView::Empty,
            Body::Text(text) => BodyView::Text(text@),
            Body::Json(post) => BodyView::Json(post@),
        }
    }
}

/// The answer to one request.
#[derive(Debug, PartialEq)]
pub struct Response {
    pub status: Status,
    pub body: Body,
}

/// What a `Response` is to the contracts.
pub struct ResponseView {
    pub status: Status,
    pub body: BodyView,
}

impl View for Response {
    type V = ResponseView;

    open spec fn view(&self) -> ResponseView {
        ResponseView { status: self.status, body: self.body@ }
    }
}

} // verus!
