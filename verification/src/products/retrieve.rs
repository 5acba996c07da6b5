//! Retrieving one product by its id, or all products where the id is 0.
use vstd::prelude::*;

use crate::products::{outcome_view, unauthorized_access};
use crate::reply::{record, record_reply, text, text_reply, Reply, ReplyView, Status};
use crate::token::TokenClaims;

verus! {

/// Where the retrieval of products stands.
pub enum RetrieveStage {
    /// Waiting for the selection query.
    Fetch,
    /// Answered.
    Done,
}

/// What the retrieval of products asks the caller to do next.
pub enum RetrieveAction {
    /// Select every product, the most recently updated first.
    SelectAll,
    /// Select the product with this id.
    SelectById(i32),
    /// Answer the request.
    Respond(Reply),
}

/// The mathematical content of a `RetrieveAction`.
pub enum RetrieveActionView {
    SelectAll,
    SelectById(i32),
    Respond(ReplyView),
}

impl View for RetrieveAction {
    type V = RetrieveActionView;

    open spec fn view(&self) -> RetrieveActionView {
        match self {
            RetrieveAction::SelectAll => RetrieveActionView::SelectAll,
            RetrieveAction::SelectById(id) => RetrieveActionView::SelectById(*id),
            RetrieveAction::Respond(r) => RetrieveActionView::Respond(r@),
        }
    }
}

/// A retrieval of products in progress.
pub struct RetrieveProduct {
    pub stage: RetrieveStage,
}

/// The query that a retrieval with a verified identity runs: all products for
/// the id 0, else the one product with that id.
pub open spec fn retrieve_query(product_id: i32) -> RetrieveActionView {
    if product_id == 0 {
        RetrieveActionView::SelectAll
    } else {
        RetrieveActionView::SelectById(product_id)
    }
}

/// The answer to a retrieval, given the outcome of the selection.
pub open spec fn retrieve_reply(outcome: Result<(), Seq<char>>) -> ReplyView {
    match outcome {
        Ok(()) => record_reply(Status::Success),
        Err(e) => text_reply(Status::ServerError, e),
    }
}

/// Starts the retrieval of the product `product_id` (of all products where it is
/// 0): a request with a verified identity selects; one without is refused.
pub fn retrieve_product(req_user: &Option<TokenClaims>, product_id: i32) -> (r: (
    RetrieveProduct,
    RetrieveAction,
))
    ensures
        req_user is None ==> r.0.stage is Done && r.1@ == RetrieveActionView::Respond(
            unauthorized_access(),
        ),
        req_user is Some ==> r.0.stage is Fetch && r.1@ == retrieve_query(product_id),
{
    match req_user {
        Some(_) => {
            let action = if product_id == 0 {
                RetrieveAction::SelectAll
            } else {
                RetrieveAction::SelectById(product_id)
            };
            (RetrieveProduct { stage: RetrieveStage::Fetch }, action)
        },
        None => (
            RetrieveProduct { stage: RetrieveStage::Done },
            RetrieveAction::Respond(text(Status::Unauthorized, "Unauthorized access")),
        ),
    }
}

impl RetrieveProduct {
    /// Takes the outcome of the selection and answers: with the selected rows,
    /// or with the error.
    pub fn on_outcome(&mut self, outcome: Result<(), String>) -> (action: RetrieveAction)
        requires
            old(self).stage is Fetch,
        ensures
            final(self).stage is Done,
            action@ == RetrieveActionView::Respond(retrieve_reply(outcome_view(outcome))),
    {
        self.stage = RetrieveStage::Done;
        match outcome {
            Ok(()) => RetrieveAction::Respond(record(Status::Success)),
            Err(e) => RetrieveAction::Respond(text(Status::ServerError, e.as_str())),
        }
    }
}

/// With a verified identity, the id 0 selects every product and any other id
/// selects exactly the product with that id.
pub proof fn retrieve_selects_by_id(product_id: i32)
    ensures
        retrieve_query(product_id) is SelectAll <==> product_id == 0,
        product_id != 0 ==> retrieve_query(product_id) == RetrieveActionView::SelectById(
            product_id,
        ),
{
}

/// A retrieval answers 200 only when the selection succeeded, and a failed
/// selection with 500 carrying the error text.
pub proof fn retrieve_reports_failures(outcome: Result<(), Seq<char>>)
    ensures
        retrieve_reply(outcome).status == Status::Success <==> outcome is Ok,
        outcome matches Err(e) ==> retrieve_reply(outcome) == text_reply(Status::ServerError, e),
{
}

} // verus!
