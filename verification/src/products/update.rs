//! Updating a product's price and quantity, the quantity raised or lowered.
use vstd::prelude::*;
use vstd::string::*;

use crate::products::{outcome_view, unauthorized_access};
use crate::reply::{prefixed_text, text, text_reply, Reply, ReplyView, Status};
use crate::token::TokenClaims;

verus! {

/// The statement that sets a product's price and changes its quantity: it adds
/// the given amount for the operation "plus" and subtracts it for any other.
pub open spec fn update_statement(operation: Seq<char>) -> Seq<char> {
    "update products_table set product_price = $1, product_qty = product_qty"@ + if operation
        == "plus"@ {
        " + $2 where product_id = $3"@
    } else {
        " - $2 where product_id = $3"@
    }
}

/// Builds the update statement for the operation.
pub fn update_query(operation: &String) -> (query: String)
    ensures
        query@ == update_statement(operation@),
{
    let mut query = "update products_table set product_price = $1, product_qty = product_qty".to_owned();
    let plus = "plus".to_owned();
    if operation.eq(&plus) {
        query.append(" + $2 where product_id = $3");
    } else {
        query.append(" - $2 where product_id = $3");
    }
    query
}

/// Where the update of a product stands.
pub enum UpdateStage {
    /// Waiting for the lookup of the product by id.
    FindProduct,
    /// Waiting for the update statement.
    Update,
    /// Answered.
    Done,
}

impl UpdateStage {
    /// The most queries that can still come before the answer.
    pub open spec fn rank(self) -> nat {
        match self {
            UpdateStage::FindProduct => 2,
            UpdateStage::Update => 1,
            UpdateStage::Done => 0,
        }
    }
}

/// What the update of a product asks the caller to do next.
pub enum UpdateAction {
    /// Look the product up by this id.
    SelectById(i32),
    /// Run this statement, bound to the request's new price, this quantity and
    /// this product id.
    RunUpdate { query: String, product_qty: i32, product_id: i32 },
    /// Answer the request.
    Respond(Reply),
}

/// The mathematical content of an `UpdateAction`.
pub enum UpdateActionView {
    SelectById(i32),
    RunUpdate { query: Seq<char>, product_qty: i32, product_id: i32 },
    Respond(ReplyView),
}

impl View for UpdateAction {
    type V = UpdateActionView;

    open spec fn view(&self) -> UpdateActionView {
        match self {
            UpdateAction::SelectById(id) => UpdateActionView::SelectById(*id),
            UpdateAction::RunUpdate { query, product_qty, product_id } => UpdateActionView::RunUpdate {
                query: query@,
                product_qty: *product_qty,
                product_id: *product_id,
            },
            UpdateAction::Respond(r) => UpdateActionView::Respond(r@),
        }
    }
}

/// An update of a product in progress.
pub struct UpdateProduct {
    pub stage: UpdateStage,
    /// The update statement for the requested operation.
    pub query: String,
    /// The product to update.
    pub product_id: i32,
    /// The amount by which the quantity changes.
    pub product_qty: i32,
}

/// One step of an update: from the stage and the outcome of the query it waited
/// for, to the next stage and what to do.
pub open spec fn update_transition(
    stage: UpdateStage,
    query: Seq<char>,
    product_qty: i32,
    product_id: i32,
    outcome: Result<(), Seq<char>>,
) -> (UpdateStage, UpdateActionView) {
    match stage {
        UpdateStage::FindProduct => match outcome {
            Ok(()) => (
                UpdateStage::Update,
                UpdateActionView::RunUpdate { query, product_qty, product_id },
            ),
            Err(e) => (
                UpdateStage::Done,
                UpdateActionView::Respond(
                    text_reply(Status::ServerError, "Product not found: "@ + e),
                ),
            ),
        },
        UpdateStage::Update => match outcome {
            Ok(()) => (
                UpdateStage::Done,
                UpdateActionView::Respond(
                    text_reply(Status::Created, "Product updated successfullt"@),
                ),
            ),
            Err(e) => (
                UpdateStage::Done,
                UpdateActionView::Respond(text_reply(Status::ServerError, "Updating error: "@ + e)),
            ),
        },
        UpdateStage::Done => (UpdateStage::Done, UpdateActionView::Respond(
            text_reply(Status::ServerError, Seq::empty()),
        )),
    }
}

/// Starts the update of the product `product_id` by `product_qty` with the
/// operation ("plus" raises the quantity, anything else lowers it): a request with
/// a verified identity first looks the product up; one without is refused.
pub fn update_product(
    req_user: &Option<TokenClaims>,
    product_id: i32,
    product_qty: i32,
    operation: &String,
) -> (r: (
    UpdateProduct,
    UpdateAction,
))
    ensures
        r.0.query@ == update_statement(operation@),
        r.0.product_id == product_id,
        r.0.product_qty == product_qty,
        req_user is None ==> r.0.stage is Done && r.1@ == UpdateActionView::Respond(
            unauthorized_access(),
        ),
        req_user is Some ==> r.0.stage is FindProduct && r.1@ == UpdateActionView::SelectById(
            product_id,
        ),
{
    let query = update_query(operation);
    match req_user {
        Some(_) => (
            UpdateProduct { stage: UpdateStage::FindProduct, query, product_id, product_qty },
            UpdateAction::SelectById(product_id),
        ),
        None => (
            UpdateProduct { stage: UpdateStage::Done, query, product_id, product_qty },
            UpdateAction::Respond(text(Status::Unauthorized, "Unauthorized access")),
        ),
    }
}

impl UpdateProduct {
    /// Takes the outcome of the query that the last action asked for.
    pub fn on_outcome(&mut self, outcome: Result<(), String>) -> (action: UpdateAction)
        requires
            !(old(self).stage is Done),
        ensures
            (final(self).stage, action@) == update_transition(
                old(self).stage,
                old(self).query@,
                old(self).product_qty,
                old(self).product_id,
                outcome_view(outcome),
            ),
            final(self).query == old(self).query,
            final(self).product_id == old(self).product_id,
            final(self).product_qty == old(self).product_qty,
            final(self).stage.rank() < old(self).stage.rank(),
            final(self).stage is Done <==> action is Respond,
    {
        match self.stage {
            UpdateStage::FindProduct => match outcome {
                Ok(()) => {
                    self.stage = UpdateStage::Update;
                    UpdateAction::RunUpdate {
                        query: self.query.clone(),
                        product_qty: self.product_qty,
                        product_id: self.product_id,
                    }
                },
                Err(e) => {
                    self.stage = UpdateStage::Done;
                    UpdateAction::Respond(
                        prefixed_text(Status::ServerError, "Product not found: ", e.as_str()),
                    )
                },
            },
            UpdateStage::Update => {
                self.stage = UpdateStage::Done;
                match outcome {
                    Ok(()) => UpdateAction::Respond(
                        text(Status::Created, "Product updated successfullt"),
                    ),
                    Err(e) => UpdateAction::Respond(
                        prefixed_text(Status::ServerError, "Updating error: ", e.as_str()),
                    ),
                }
            },
            UpdateStage::Done => UpdateAction::Respond(text(Status::ServerError, "")),
        }
    }
}

/// After the product is found, the update runs the statement of the request's
/// operation, bound to the request's quantity and product id; that statement sets
/// the price and changes the quantity by `+ $2` for the operation "plus" and by
/// `- $2` for every other operation.
pub proof fn update_runs_requested_statement(
    operation: Seq<char>,
    product_qty: i32,
    product_id: i32,
)
    ensures
        ({
            let sign = if operation == "plus"@ {
                '+'
            } else {
                '-'
            };
            update_transition(
                UpdateStage::FindProduct,
                update_statement(operation),
                product_qty,
                product_id,
                Ok(()),
            ) == (UpdateStage::Update, UpdateActionView::RunUpdate {
                query: "update products_table set product_price = $1, product_qty = product_qty"@
                    + seq![' ', sign] + " $2 where product_id = $3"@,
                product_qty,
                product_id,
            })
        }),
{
    reveal_strlit("update products_table set product_price = $1, product_qty = product_qty");
    reveal_strlit(" + $2 where product_id = $3");
    reveal_strlit(" - $2 where product_id = $3");
    reveal_strlit(" $2 where product_id = $3");
    let prefix = "update products_table set product_price = $1, product_qty = product_qty"@;
    let tail = " $2 where product_id = $3"@;
    assert(" + $2 where product_id = $3"@ =~= seq![' ', '+'] + tail);
    assert(" - $2 where product_id = $3"@ =~= seq![' ', '-'] + tail);
    assert(prefix + (seq![' ', '+'] + tail) =~= prefix + seq![' ', '+'] + tail);
    assert(prefix + (seq![' ', '-'] + tail) =~= prefix + seq![' ', '-'] + tail);
}

/// An update answers 201 only when the update statement succeeded; a failed
/// lookup or statement is answered with 500 and the error text after its prefix.
pub proof fn update_replies_follow_outcomes(
    stage: UpdateStage,
    query: Seq<char>,
    product_qty: i32,
    product_id: i32,
    outcome: Result<(), Seq<char>>,
)
    requires
        !(stage is Done),
    ensures
        ({
            let action = update_transition(stage, query, product_qty, product_id, outcome).1;
            &&& (action matches UpdateActionView::Respond(r) && r.status == Status::Created) <==> (
            stage is Update && outcome is Ok)
            &&& (outcome matches Err(e) ==> action == UpdateActionView::Respond(
                text_reply(
                    Status::ServerError,
                    (if stage is FindProduct {
                        "Product not found: "@
                    } else {
                        "Updating error: "@
                    }) + e,
                ),
            ))
        }),
{
}

} // verus!
