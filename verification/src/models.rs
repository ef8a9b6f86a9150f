//! The post, the only record the service keeps, and the body of a create request.

use vstd::prelude::*;

verus! {

/// `serde_json::Value`, a JSON document. The service never looks inside one:
/// it carries the value from the request to the row and back.
#[verifier::external_type_specification]
#[verifier::external_body]
pub struct ExValue(serde_json::Value);

/// One row of the table of posts. The pair `(name, id)` is its key.
#[derive(Debug, PartialEq)]
pub struct Post {
    pub id: i32,
    pub details: serde_json::Value,
    pub name: String,
}

/// What a `Post` is to the contracts: its fields as plain values.
pub struct PostView {
    pub id: int,
    pub details: serde_json::Value,
    pub name: Seq<char>,
}

impl View for Post {
    type V = PostView;

    open spec fn view(&self) -> PostView {
        PostView { id: self.id as int, details: self.details, name: self.name@ }
    }
}

impl PostView {
    /// Whether this row is the one that the key `(name, id)` names.
    pub open spec fn has_key(self, name: Seq<char>, id: int) -> bool {
        self.name == name && self.id == id
    }
}

/// The body of a create request: the post without its name, which the path gives.
#[derive(Debug, PartialEq)]
pub struct PostData {
    pub details: serde_json::Value,
    pub id: i32,
}

/// What a `PostData` is to the contracts.
pub struct PostDataView {
    pub details: serde_json::Value,
    pub id: int,
}

impl View for PostData {
    type V = PostDataView;

    open spec fn view(&self) -> PostDataView {
        PostDataView { details: self.details, id: self.id as int }
    }
}

impl PostDataView {
    /// The row that a create request for `name` with this body asks for.
    pub open spec fn named(self, name: Seq<char>) -> PostView {
        PostView { id: self.id, details: self.details, name }
    }
}

} // verus!
