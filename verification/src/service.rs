//! The decisions of the post service. Each handler is written as a function of
//! what the table of posts said, so that the one who calls it talks to the
//! table and this module only decides.
//!
//! A create request takes two steps: `create_post` decides on the answer of
//! the existence check, and where it asks for an insert, `finish_create`
//! decides on how the insert went. A fetch takes one: `get_data`.

use vstd::prelude::*;
use crate::models::{Post, PostData, PostDataView, PostView};
use crate::response::{Body, BodyView, Response, ResponseView, Status};
use crate::text::{
    conflict_message, conflict_text, greeting, greeting_text, insert_failure_line,
    insert_failure_text, not_found_message, not_found_text, query_failure_line,
    query_failure_text,
};

verus! {

/// What the table said when asked for the post with a given key.
#[derive(Debug, PartialEq)]
pub enum Lookup {
    /// The table holds this post under the key.
    Found(Post),
    /// The table holds no post under the key.
    Missing,
    /// The query did not go through; the text tells why.
    Failed(String),
}

/// What a `Lookup` is to the contracts.
pub enum LookupView {
    Found(PostView),
    Missing,
    Failed(Seq<char>),
}

impl View for Lookup {
    type V = LookupView;

    open spec fn view(&self) -> LookupView {
        match self {
            Lookup::Found(post) => LookupView::Found(post@),
            Lookup::Missing => LookupView::Missing,
            Lookup::Failed(cause) => LookupView::Failed(cause@),
        }
    }
}

/// How an insert into the table went.
#[derive(Debug, PartialEq)]
pub enum Insertion {
    /// The row is in the table.
    Stored,
    /// The insert did not go through; the text tells why.
    Failed(String),
}

/// What an `Insertion` is to the contracts.
pub enum InsertionView {
    Stored,
    Failed(Seq<char>),
}

impl View for Insertion {
    type V = InsertionView;

    open spec fn view(&self) -> InsertionView {
        match self {
            Insertion::Stored => InsertionView::Stored,
            Insertion::Failed(cause) => InsertionView::Failed(cause@),
        }
    }
}

/// The end of a request that asked the table: the answer to send and, where
/// the table let the service down, the line to log.
#[derive(Debug, PartialEq)]
pub struct Outcome {
    pub response: Response,
    pub log: Option<String>,
}

/// What an `Outcome` is to the contracts.
pub struct OutcomeView {
    pub response: ResponseView,
    pub log: Option<Seq<char>>,
}

impl View for Outcome {
    type V = OutcomeView;

    open spec fn view(&self) -> OutcomeView {
        OutcomeView {
            response: self.response@,
            log: match self.log {
                Some(line) => Some(line@),
                None => None,
            },
        }
    }
}

/// What is to be done for a create request once the existence check is back.
#[derive(Debug, PartialEq)]
pub enum CreateStep {
    /// The key is free: insert this post, then hand the outcome to `finish_create`.
    Insert(Post),
    /// The request is over.
    Reply(Outcome),
}

/// What a `CreateStep` is to the contracts.
pub enum CreateStepView {
    Insert(PostView),
    Reply(OutcomeView),
}

impl View for CreateStep {
    type V = CreateStepView;

    open spec fn view(&self) -> CreateStepView {
        match self {
            CreateStep::Insert(post) => CreateStepView::Insert(post@),
            CreateStep::Reply(outcome) => CreateStepView::Reply(outcome@),
        }
    }
}

/// The answer to a request for the root path: 200 with the greeting.
pub open spec fn greeting_reply() -> ResponseView {
    ResponseView { status: Status::Success, body: BodyView::Text(greeting_text()) }
}

/// The answer that carries a post: 200 with the post as JSON.
pub open spec fn post_reply(post: PostView) -> ResponseView {
    ResponseView { status: Status::Success, body: BodyView::Json(post) }
}

/// The answer to a create request whose key is taken: 409 with a text that names the key.
pub open spec fn conflict_reply(name: Seq<char>, id: int) -> ResponseView {
    ResponseView { status: Status::Conflict, body: BodyView::Text(conflict_text(name, id)) }
}

/// The answer to a fetch that found nothing: 404 with a text that names the key.
pub open spec fn not_found_reply(name: Seq<char>, id: int) -> ResponseView {
    ResponseView { status: Status::NotFound, body: BodyView::Text(not_found_text(name, id)) }
}

/// The answer when the table let the service down: 500 with no body, whatever the cause.
pub open spec fn failure_reply() -> ResponseView {
    ResponseView { status: Status::InternalServerError, body: BodyView::Empty }
}

/// An end with nothing to log.
pub open spec fn quiet(response: ResponseView) -> OutcomeView {
    OutcomeView { response, log: None }
}

/// The end of a request that the table let down: the 500 answer, and `line` to log.
pub open spec fn failure(line: Seq<char>) -> OutcomeView {
    OutcomeView { response: failure_reply(), log: Some(line) }
}

/// What `create_post` decides: a conflict where the key is taken, an insert of
/// the post made of the path's name and the body's fields where it is free,
/// a server error and a line to log where the existence check failed.
pub open spec fn create_step(
    name: Seq<char>,
    payload: PostDataView,
    existing: LookupView,
) -> CreateStepView {
    match existing {
        LookupView::Found(_) => CreateStepView::Reply(quiet(conflict_reply(name, payload.id))),
        LookupView::Missing => CreateStepView::Insert(payload.named(name)),
        LookupView::Failed(cause) => CreateStepView::Reply(failure(query_failure_text(cause))),
    }
}

/// What `finish_create` decides: the created post where it was stored, a
/// server error and a line to log where it was not.
pub open spec fn insert_outcome(post: PostView, insertion: InsertionView) -> OutcomeView {
    match insertion {
        InsertionView::Stored => quiet(post_reply(post)),
        InsertionView::Failed(cause) => failure(insert_failure_text(cause)),
    }
}

/// What `get_data` decides: the post where one was found, not-found where the
/// table holds none, a server error and a line to log where the query failed.
pub open spec fn get_outcome(name: Seq<char>, id: int, found: LookupView) -> OutcomeView {
    match found {
        LookupView::Found(post) => quiet(post_reply(post)),
        LookupView::Missing => quiet(not_found_reply(name, id)),
        LookupView::Failed(cause) => failure(query_failure_text(cause)),
    }
}

fn failed(line: String) -> (outcome: Outcome)
    ensures
        outcome@ == failure(line@),
{
    Outcome {
        response: Response { status: Status::InternalServerError, body: Body::Empty },
        log: Some(line),
    }
}

/// Serves `GET /`.
pub fn index() -> (response: Response)
    ensures
        response@ == greeting_reply(),
{
    Response { status: Status::Success, body: Body::Text(greeting()) }
}

/// Serves `POST /api/v1/{name}` up to the insert. `existing` is what the table
/// said when asked for the key `(name, payload.id)`.
pub fn create_post(name: String, payload: PostData, existing: Lookup) -> (step: CreateStep)
    ensures
        step@ == create_step(name@, payload@, existing@),
{
    match existing {
        Lookup::Found(_) => {
            let text = conflict_message(name.as_str(), payload.id);
            CreateStep::Reply(
                Outcome {
                    response: Response { status: Status::Conflict, body: Body::Text(text) },
                    log: None,
                },
            )
        },
        Lookup::Missing => {
            CreateStep::Insert(Post { id: payload.id, details: payload.details, name })
        },
        Lookup::Failed(cause) => CreateStep::Reply(failed(query_failure_line(cause.as_str()))),
    }
}

/// Ends a create request after the insert of `post` that `create_post` asked for.
pub fn finish_create(post: Post, insertion: Insertion) -> (outcome: Outcome)
    ensures
        outcome@ == insert_outcome(post@, insertion@),
{
    match insertion {
        Insertion::Stored => Outcome {
            response: Response { status: Status::Success, body: Body::Json(post) },
            log: None,
        },
        Insertion::Failed(cause) => failed(insert_failure_line(cause.as_str())),
    }
}

/// Serves `GET /api/v1/{name}/{id}`. `found` is what the table said when asked
/// for the key `(name, id)`.
pub fn get_data(name: &str, id: i32, found: Lookup) -> (outcome: Outcome)
    ensures
        outcome@ == get_outcome(name@, id as int, found@),
{
    match found {
        Lookup::Found(post) => Outcome {
            response: Response { status: Status::Success, body: Body::Json(post) },
            log: None,
        },
        Lookup::Missing => {
            let text = not_found_message(name, id);
            Outcome {
                response: Response { status: Status::NotFound, body: Body::Text(text) },
                log: None,
            }
        },
        Lookup::Failed(cause) => failed(query_failure_line(cause.as_str())),
    }
}

} // verus!
