//! The two messages of the command protocol: what a device asks, and what
//! the cloud answers.

use crate::json::{JsonValue, JsonView};
use serde_json::Value;
use vstd::prelude::*;

verus! {

/// `serde_json::Value`: any JSON value. Nothing here looks inside one.
#[verifier::external_type_specification]
#[verifier::external_body]
pub struct ExValue(Value);

/// A request: the method asked for, the token that pairs the answer with
/// the request, and the method's parameters. The parameters and the partner
/// identifier are carried and never read.
#[derive(Debug)]
pub struct MessagePayload {
    pub method: String,
    pub partner_id: Option<String>,
    pub id: u32,
    pub params: Value,
}

/// An answer: the request's token and the result.
#[derive(Debug, PartialEq, Eq)]
pub struct ResponsePayload {
    id: u32,
    result: JsonValue,
}

/// An answer as a mathematical value.
pub struct ResponseView {
    pub id: u32,
    pub result: JsonView,
}

impl View for ResponsePayload {
    type V = ResponseView;

    closed spec fn view(&self) -> ResponseView {
        ResponseView { id: self.id, result: self.result@ }
    }
}

impl ResponsePayload {
    /// The answer to the request with the token `id`.
    pub fn new(id: u32, result: JsonValue) -> (response: ResponsePayload)
        ensures
            response@ == (ResponseView { id, result: result@ }),
    {
        ResponsePayload { id, result }
    }

    /// The token of the request that this answers.
    pub fn id(&self) -> (id: u32)
        ensures
            id == self@.id,
    {
        self.id
    }

    /// The result.
    pub fn result(&self) -> (result: &JsonValue)
        ensures
            result@ == self@.result,
    {
        &self.result
    }
}

} // verus!
