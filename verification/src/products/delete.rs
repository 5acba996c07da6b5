//! Deleting a product by its id.
use vstd::prelude::*;

use crate::products::{outcome_view, unauthorized_access};
use crate::reply::{text, text_reply, Reply, ReplyView, Status};
use crate::token::TokenClaims;

verus! {

/// Where the deletion of a product stands.
pub enum DeleteStage {
    /// Waiting for the deletion query.
    Delete,
    /// Answered.
    Done,
}

/// What the deletion of a product asks the caller to do next.
pub enum DeleteAction {
    /// Delete the product with this id.
    DeleteById(i32),
    /// Answer the request.
    Respond(Reply),
}

/// The mathematical content of a `DeleteAction`.
pub enum DeleteActionView {
    DeleteById(i32),
    Respond(ReplyView),
}

impl View for DeleteAction {
    type V = DeleteActionView;

    open spec fn view(&self) -> DeleteActionView {
        match self {
            DeleteAction::DeleteById(id) => DeleteActionView::DeleteById(*id),
            DeleteAction::Respond(r) => DeleteActionView::Respond(r@),
        }
    }
}

/// A deletion of a product in progress.
pub struct DeleteProduct {
    pub stage: DeleteStage,
}

/// The answer to a deletion, given the outcome of the deletion query.
pub open spec fn delete_reply(outcome: Result<(), Seq<char>>) -> ReplyView {
    match outcome {
        Ok(()) => text_reply(Status::Success, "Product remove successfull"@),
        Err(e) => text_reply(Status::ServerError, e),
    }
}

/// Starts the deletion of the product `product_id`: a request with a verified
/// identity deletes it; one without is refused.
pub fn delete_product(req_user: &Option<TokenClaims>, product_id: i32) -> (r: (
    DeleteProduct,
    DeleteAction,
))
    ensures
        req_user is None ==> r.0.stage is Done && r.1@ == DeleteActionView::Respond(
            unauthorized_access(),
        ),
        req_user is Some ==> r.0.stage is Delete && r.1@ == DeleteActionView::DeleteById(
            product_id,
        ),
{
    match req_user {
        Some(_) => (DeleteProduct { stage: DeleteStage::Delete }, DeleteAction::DeleteById(product_id)),
        None => (
            DeleteProduct { stage: DeleteStage::Done },
            DeleteAction::Respond(text(Status::Unauthorized, "Unauthorized access")),
        ),
    }
}

impl DeleteProduct {
    /// Takes the outcome of the deletion query and answers.
    pub fn on_outcome(&mut self, outcome: Result<(), String>) -> (action: DeleteAction)
        requires
            old(self).stage is Delete,
        ensures
            final(self).stage is Done,
            action@ == DeleteActionView::Respond(delete_reply(outcome_view(outcome))),
    {
        self.stage = DeleteStage::Done;
        match outcome {
            Ok(()) => DeleteAction::Respond(text(Status::Success, "Product remove successfull")),
            Err(e) => DeleteAction::Respond(text(Status::ServerError, e.as_str())),
        }
    }
}

/// A deletion is reported as done only when the deletion query succeeded; every
/// failed deletion is answered with 500 carrying the error text.
pub proof fn delete_reports_failures(outcome: Result<(), Seq<char>>)
    ensures
        delete_reply(outcome).status == Status::Success <==> outcome is Ok,
        outcome matches Err(e) ==> delete_reply(outcome) == text_reply(Status::ServerError, e),
{
}

} // verus!
