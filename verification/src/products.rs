//! The product routes: create, delete, retrieve and update a product.
//!
//! Each route is a small state machine. A route starts from the request and
//! names the first database query to run; the caller runs it and hands the
//! outcome back, until the route answers with a reply. A failed query is given
//! back as the text of its error.
use vstd::prelude::*;

use crate::reply::{text_reply, ReplyView, Status};

pub mod create;
pub mod delete;
pub mod retrieve;
pub mod update;

verus! {

/// The outcome of a query as plain values: the id in the returned row, or the error text.
pub open spec fn answer_view(answer: Result<i32, String>) -> Result<i32, Seq<char>> {
    match answer {
        Ok(id) => Ok(id),
        Err(e) => Err(e@),
    }
}

/// The outcome of a query whose row the route does not read: done, or the error text.
pub open spec fn outcome_view(outcome: Result<(), String>) -> Result<(), Seq<char>> {
    match outcome {
        Ok(()) => Ok(()),
        Err(e) => Err(e@),
    }
}

/// The answer to a product request that carries no verified identity.
pub open spec fn unauthorized_access() -> ReplyView {
    text_reply(Status::Unauthorized, "Unauthorized access"@)
}

} // verus!
