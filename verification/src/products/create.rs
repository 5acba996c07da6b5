//! Creating a product, filed under its type and category, each found by name or
//! else inserted.
use vstd::prelude::*;
use vstd::string::*;

use crate::reply::{record, record_reply, text, text_reply, Reply, ReplyView, Status};
use crate::products::answer_view;
use crate::token::TokenClaims;

verus! {

/// The fields of a creation request that the queries bind, but for the price
/// (a float, which the caller binds itself).
pub struct NewProduct {
    pub product_name: String,
    pub product_type: String,
    pub product_category: String,
    pub product_qty: i32,
}

/// The mathematical content of a `NewProduct`.
pub struct NewProductView {
    pub product_name: Seq<char>,
    pub product_type: Seq<char>,
    pub product_category: Seq<char>,
    pub product_qty: i32,
}

impl View for NewProduct {
    type V = NewProductView;

    open spec fn view(&self) -> NewProductView {
        NewProductView {
            product_name: self.product_name@,
            product_type: self.product_type@,
            product_category: self.product_category@,
            product_qty: self.product_qty,
        }
    }
}

/// Where the creation of a product stands: which query it waits for.
pub enum CreateStage {
    /// The lookup of the product by name.
    FindProduct,
    /// The lookup of the product type by name.
    FindType,
    /// The insertion of the product type.
    AddType,
    /// The lookup of the category by name, the type's id known.
    FindCategory { type_id: i32 },
    /// The insertion of the category, the type's id known.
    AddCategory { type_id: i32 },
    /// The insertion of the product with its type and category.
    AddProduct { type_id: i32, category_id: i32 },
    /// Answered.
    Done,
}

impl CreateStage {
    /// The most queries that can still come before the answer.
    pub open spec fn rank(self) -> nat {
        match self {
            CreateStage::FindProduct => 6,
            CreateStage::FindType => 5,
            CreateStage::AddType => 4,
            CreateStage::FindCategory { .. } => 3,
            CreateStage::AddCategory { .. } => 2,
            CreateStage::AddProduct { .. } => 1,
            CreateStage::Done => 0,
        }
    }
}

/// What the creation of a product asks the caller to do next.
pub enum CreateAction {
    /// Look the product up by this name.
    SelectProduct { product_name: String },
    /// Look the product type up by this name.
    SelectType { kind_name: String },
    /// Insert the product type of this name and return its id.
    InsertType { kind_name: String },
    /// Look the category up by this name.
    SelectCategory { category_name: String },
    /// Insert the category of this name and return its id.
    InsertCategory { category_name: String },
    /// Insert the product with this name, these ids, the request's price and
    /// this quantity.
    InsertProduct { product_name: String, type_id: i32, category_id: i32, product_qty: i32 },
    /// Answer the request.
    Respond(Reply),
}

/// The mathematical content of a `CreateAction`.
pub enum CreateActionView {
    SelectProduct { product_name: Seq<char> },
    SelectType { kind_name: Seq<char> },
    InsertType { kind_name: Seq<char> },
    SelectCategory { category_name: Seq<char> },
    InsertCategory { category_name: Seq<char> },
    InsertProduct {
        product_name: Seq<char>,
        type_id: i32,
        category_id: i32,
        product_qty: i32,
    },
    Respond(ReplyView),
}

impl View for CreateAction {
    type V = CreateActionView;

    open spec fn view(&self) -> CreateActionView {
        match self {
            CreateAction::SelectProduct { product_name } => CreateActionView::SelectProduct {
                product_name: product_name@,
            },
            CreateAction::SelectType { kind_name } => CreateActionView::SelectType {
                kind_name: kind_name@,
            },
            CreateAction::InsertType { kind_name } => CreateActionView::InsertType {
                kind_name: kind_name@,
            },
            CreateAction::SelectCategory { category_name } => CreateActionView::SelectCategory {
                category_name: category_name@,
            },
            CreateAction::InsertCategory { category_name } => CreateActionView::InsertCategory {
                category_name: category_name@,
            },
            CreateAction::InsertProduct { product_name, type_id, category_id, product_qty } =>
                CreateActionView::InsertProduct {
                product_name: product_name@,
                type_id: *type_id,
                category_id: *category_id,
                product_qty: *product_qty,
            },
            CreateAction::Respond(r) => CreateActionView::Respond(r@),
        }
    }
}

/// A creation of a product in progress.
pub struct CreateProduct {
    pub stage: CreateStage,
    /// The request.
    pub request: NewProduct,
}

/// The answer to a creation request whose product name is taken.
pub open spec fn product_exists() -> ReplyView {
    text_reply(Status::Conflict, "Product already exist why not updating it"@)
}

/// The answer to a creation request that carries no verified identity.
pub open spec fn identity_unverified() -> ReplyView {
    text_reply(Status::Unauthorized, "Unable to verify identity"@)
}

/// The insertion of the product of `req` under these ids.
pub open spec fn insert_product(req: NewProductView, type_id: i32, category_id: i32) -> CreateActionView {
    CreateActionView::InsertProduct {
        product_name: req.product_name,
        type_id,
        category_id,
        product_qty: req.product_qty,
    }
}

/// One step of the creation of the product of `req`: from the stage and the
/// outcome of the query it waited for, to the next stage and what to do. A failed
/// lookup means "not found"; a failed insertion is answered with its error.
pub open spec fn create_transition(
    stage: CreateStage,
    req: NewProductView,
    answer: Result<i32, Seq<char>>,
) -> (CreateStage, CreateActionView) {
    match stage {
        CreateStage::FindProduct => match answer {
            Ok(_) => (CreateStage::Done, CreateActionView::Respond(product_exists())),
            Err(_) => (
                CreateStage::FindType,
                CreateActionView::SelectType { kind_name: req.product_type },
            ),
        },
        CreateStage::FindType => match answer {
            Ok(t) => (
                CreateStage::FindCategory { type_id: t },
                CreateActionView::SelectCategory { category_name: req.product_category },
            ),
            Err(_) => (
                CreateStage::AddType,
                CreateActionView::InsertType { kind_name: req.product_type },
            ),
        },
        CreateStage::AddType => match answer {
            Ok(t) => (
                CreateStage::FindCategory { type_id: t },
                CreateActionView::SelectCategory { category_name: req.product_category },
            ),
            Err(e) => (
                CreateStage::Done,
                CreateActionView::Respond(text_reply(Status::ServerError, e)),
            ),
        },
        CreateStage::FindCategory { type_id } => match answer {
            Ok(c) => (
                CreateStage::AddProduct { type_id, category_id: c },
                insert_product(req, type_id, c),
            ),
            Err(_) => (
                CreateStage::AddCategory { type_id },
                CreateActionView::InsertCategory { category_name: req.product_category },
            ),
        },
        CreateStage::AddCategory { type_id } => match answer {
            Ok(c) => (
                CreateStage::AddProduct { type_id, category_id: c },
                insert_product(req, type_id, c),
            ),
            Err(e) => (
                CreateStage::Done,
                CreateActionView::Respond(text_reply(Status::ServerError, e)),
            ),
        },
        CreateStage::AddProduct { .. } => match answer {
            Ok(_) => (CreateStage::Done, CreateActionView::Respond(record_reply(Status::Created))),
            Err(e) => (
                CreateStage::Done,
                CreateActionView::Respond(text_reply(Status::ServerError, e)),
            ),
        },
        CreateStage::Done => (CreateStage::Done, CreateActionView::Respond(
            text_reply(Status::ServerError, Seq::empty()),
        )),
    }
}

/// Starts the creation of the product of `request`: a request with a verified
/// identity first looks the product up by its name; one without is refused.
pub fn create_product(req_user: &Option<TokenClaims>, request: NewProduct) -> (r: (
    CreateProduct,
    CreateAction,
))
    ensures
        r.0.request@ == request@,
        req_user is None ==> r.0.stage is Done && r.1@ == CreateActionView::Respond(
            identity_unverified(),
        ),
        req_user is Some ==> r.0.stage is FindProduct && r.1@ == (CreateActionView::SelectProduct {
            product_name: request.product_name@,
        }),
{
    match req_user {
        Some(_) => {
            let product_name = request.product_name.clone();
            (
                CreateProduct { stage: CreateStage::FindProduct, request },
                CreateAction::SelectProduct { product_name },
            )
        },
        None => (
            CreateProduct { stage: CreateStage::Done, request },
            CreateAction::Respond(text(Status::Unauthorized, "Unable to verify identity")),
        ),
    }
}

impl CreateProduct {
    /// The insertion of the product under these ids.
    fn insertion(&self, type_id: i32, category_id: i32) -> (a: CreateAction)
        ensures
            a@ == insert_product(self.request@, type_id, category_id),
    {
        CreateAction::InsertProduct {
            product_name: self.request.product_name.clone(),
            type_id,
            category_id,
            product_qty: self.request.product_qty,
        }
    }

    /// Takes the outcome of the query that the last action asked for: the id in
    /// the returned row, or the error text.
    pub fn on_answer(&mut self, answer: Result<i32, String>) -> (action: CreateAction)
        requires
            !(old(self).stage is Done),
        ensures
            (final(self).stage, action@) == create_transition(
                old(self).stage,
                old(self).request@,
                answer_view(answer),
            ),
            final(self).request@ == old(self).request@,
            final(self).stage.rank() < old(self).stage.rank(),
            final(self).stage is Done <==> action is Respond,
    {
        match self.stage {
            CreateStage::FindProduct => match answer {
                Ok(_) => {
                    self.stage = CreateStage::Done;
                    CreateAction::Respond(
                        text(Status::Conflict, "Product already exist why not updating it"),
                    )
                },
                Err(_) => {
                    self.stage = CreateStage::FindType;
                    CreateAction::SelectType { kind_name: self.request.product_type.clone() }
                },
            },
            CreateStage::FindType => match answer {
                Ok(t) => {
                    self.stage = CreateStage::FindCategory { type_id: t };
                    CreateAction::SelectCategory {
                        category_name: self.request.product_category.clone(),
                    }
                },
                Err(_) => {
                    self.stage = CreateStage::AddType;
                    CreateAction::InsertType { kind_name: self.request.product_type.clone() }
                },
            },
            CreateStage::AddType => match answer {
                Ok(t) => {
                    self.stage = CreateStage::FindCategory { type_id: t };
                    CreateAction::SelectCategory {
                        category_name: self.request.product_category.clone(),
                    }
                },
                Err(e) => {
                    self.stage = CreateStage::Done;
                    CreateAction::Respond(text(Status::ServerError, e.as_str()))
                },
            },
            CreateStage::FindCategory { type_id } => match answer {
                Ok(c) => {
                    self.stage = CreateStage::AddProduct { type_id, category_id: c };
                    self.insertion(type_id, c)
                },
                Err(_) => {
                    self.stage = CreateStage::AddCategory { type_id };
                    CreateAction::InsertCategory {
                        category_name: self.request.product_category.clone(),
                    }
                },
            },
            CreateStage::AddCategory { type_id } => match answer {
                Ok(c) => {
                    self.stage = CreateStage::AddProduct { type_id, category_id: c };
                    self.insertion(type_id, c)
                },
                Err(e) => {
                    self.stage = CreateStage::Done;
                    CreateAction::Respond(text(Status::ServerError, e.as_str()))
                },
            },
            CreateStage::AddProduct { .. } => match answer {
                Ok(_) => {
                    self.stage = CreateStage::Done;
                    CreateAction::Respond(record(Status::Created))
                },
                Err(e) => {
                    self.stage = CreateStage::Done;
                    CreateAction::Respond(text(Status::ServerError, e.as_str()))
                },
            },
            CreateStage::Done => CreateAction::Respond(text(Status::ServerError, "")),
        }
    }
}

/// The stage that the creation of the product of `req` reaches from `stage` when
/// the queries it asks for return `answers`, in order; answers after the reply
/// are not read.
pub open spec fn create_after(
    stage: CreateStage,
    req: NewProductView,
    answers: Seq<Result<i32, Seq<char>>>,
) -> CreateStage
    decreases answers.len(),
{
    if answers.len() == 0 || stage is Done {
        stage
    } else {
        create_after(create_transition(stage, req, answers[0]).0, req, answers.drop_first())
    }
}

proof fn lemma_create_transition_ranks(
    stage: CreateStage,
    req: NewProductView,
    answer: Result<i32, Seq<char>>,
)
    requires
        !(stage is Done),
    ensures
        create_transition(stage, req, answer).0.rank() < stage.rank(),
{
}

proof fn lemma_create_after_rank(
    stage: CreateStage,
    req: NewProductView,
    answers: Seq<Result<i32, Seq<char>>>,
)
    requires
        answers.len() >= stage.rank(),
    ensures
        create_after(stage, req, answers) is Done,
    decreases answers.len(),
{
    if answers.len() > 0 && !(stage is Done) {
        lemma_create_transition_ranks(stage, req, answers[0]);
        lemma_create_after_rank(
            create_transition(stage, req, answers[0]).0,
            req,
            answers.drop_first(),
        );
    }
}

/// Every creation request is answered after at most six queries, whatever they return.
pub proof fn create_answers_within_six_queries(
    req: NewProductView,
    answers: Seq<Result<i32, Seq<char>>>,
)
    requires
        answers.len() >= 6,
    ensures
        create_after(CreateStage::FindProduct, req, answers) is Done,
{
    lemma_create_after_rank(CreateStage::FindProduct, req, answers);
}

/// A product is only ever inserted when the lookup of its name found nothing, and
/// it is filed under the type id that the type lookup, or else the type's
/// insertion, returned, and under the category id that the next lookup, or else
/// the category's insertion, returned.
pub proof fn create_inserts_only_new_products(
    req: NewProductView,
    answers: Seq<Result<i32, Seq<char>>>,
    type_id: i32,
    category_id: i32,
)
    requires
        create_after(CreateStage::FindProduct, req, answers) == (CreateStage::AddProduct {
            type_id,
            category_id,
        }),
    ensures
        answers[0] is Err,
        answers[1] == Ok::<i32, Seq<char>>(type_id) || (answers[1] is Err && answers[2] == Ok::<
            i32,
            Seq<char>,
        >(type_id)),
        ({
            let k: int = if answers[1] is Ok {
                2
            } else {
                3
            };
            answers[k] == Ok::<i32, Seq<char>>(category_id) || (answers[k] is Err && answers[k
                + 1] == Ok::<i32, Seq<char>>(category_id))
        }),
{
    reveal_with_fuel(create_after, 7);
    assert(answers.len() > 0);
    let a1 = answers.drop_first();
    if answers[0] is Ok {
        assert(create_after(CreateStage::Done, req, a1) == CreateStage::Done);
    }
    assert(a1.len() > 0);
    let a2 = a1.drop_first();
    assert(a1[0] == answers[1]);
    if a1[0] is Err {
        assert(a2.len() > 0);
        assert(a2[0] == answers[2]);
        if a2[0] is Err {
            assert(create_after(CreateStage::Done, req, a2.drop_first()) == CreateStage::Done);
        }
    }
}

/// Every query that a step of the creation asks for binds the request's own
/// fields: a type is looked up or inserted by the request's type name, a category
/// by the request's category name, and the product is inserted with the request's
/// name and quantity, under the type id that the stage holds and the category id
/// that the category lookup or insertion just returned.
pub proof fn create_binds_request_fields(
    stage: CreateStage,
    req: NewProductView,
    answer: Result<i32, Seq<char>>,
)
    ensures
        ({
            let action = create_transition(stage, req, answer).1;
            &&& (action matches CreateActionView::SelectType { kind_name } ==> kind_name
                == req.product_type)
            &&& (action matches CreateActionView::InsertType { kind_name } ==> kind_name
                == req.product_type)
            &&& (action matches CreateActionView::SelectCategory { category_name } ==> category_name
                == req.product_category)
            &&& (action matches CreateActionView::InsertCategory { category_name } ==> category_name
                == req.product_category)
            &&& (action matches CreateActionView::InsertProduct {
                product_name,
                type_id,
                category_id,
                product_qty,
            } ==> {
                &&& product_name == req.product_name
                &&& product_qty == req.product_qty
                &&& answer == Ok::<i32, Seq<char>>(category_id)
                &&& (stage == CreateStage::FindCategory { type_id } || stage
                    == CreateStage::AddCategory { type_id })
            })
        }),
{
}

/// A creation answers 201 only when the product's insertion succeeded, 409 only
/// when the lookup of its name found a product, and a failed insertion (of the
/// type, the category or the product) with 500 carrying the error text.
pub proof fn create_replies_follow_outcomes(
    stage: CreateStage,
    req: NewProductView,
    answer: Result<i32, Seq<char>>,
)
    requires
        !(stage is Done),
    ensures
        ({
            let action = create_transition(stage, req, answer).1;
            &&& (action matches CreateActionView::Respond(r) && r.status == Status::Created)
                <==> (stage is AddProduct && answer is Ok)
            &&& (action matches CreateActionView::Respond(r) && r.status == Status::Conflict)
                <==> (stage is FindProduct && answer is Ok)
            &&& (answer matches Err(e) ==> ((stage is AddType || stage is AddCategory
                || stage is AddProduct) ==> action == CreateActionView::Respond(
                text_reply(Status::ServerError, e),
            )))
        }),
{
}

} // verus!
