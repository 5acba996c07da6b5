use backend::products::create::{create_product, CreateAction, CreateStage, NewProduct};
use backend::products::delete::{delete_product, DeleteAction, DeleteStage};
use backend::products::retrieve::{retrieve_product, RetrieveAction, RetrieveStage};
use backend::products::update::{update_product, update_query, UpdateAction, UpdateStage};
use backend::reply::{Payload, Reply, Status};
use backend::token::TokenClaims;

fn someone() -> Option<TokenClaims> {
    Some(TokenClaims { id: 1, email: "admin@example.com".to_string() })
}

fn lamp() -> NewProduct {
    NewProduct {
        product_name: "Desk lamp".to_string(),
        product_type: "Lighting".to_string(),
        product_category: "Office".to_string(),
        product_qty: 12,
    }
}

fn text_of(reply: &Reply) -> String {
    match &reply.payload {
        Payload::Text(text) => text.clone(),
        _ => panic!("expected a JSON string"),
    }
}

fn create_reply(action: CreateAction) -> Reply {
    match action {
        CreateAction::Respond(reply) => reply,
        _ => panic!("expected a reply"),
    }
}

#[test]
fn create_without_identity_is_refused() {
    let (machine, action) = create_product(&None, lamp());
    assert!(matches!(machine.stage, CreateStage::Done));
    let reply = create_reply(action);
    assert_eq!(reply.status.code(), 401);
    assert_eq!(text_of(&reply), "Unable to verify identity");
}

#[test]
fn create_of_an_existing_product_conflicts() {
    let (mut machine, action) = create_product(&someone(), lamp());
    match action {
        CreateAction::SelectProduct { product_name } => assert_eq!(product_name, "Desk lamp"),
        _ => panic!("expected the product lookup"),
    }
    let reply = create_reply(machine.on_answer(Ok(5)));
    assert_eq!(reply.status.code(), 409);
    assert_eq!(text_of(&reply), "Product already exist why not updating it");
}

#[test]
fn create_with_new_type_and_new_category() {
    let (mut machine, _) = create_product(&someone(), lamp());
    match machine.on_answer(Err("RowNotFound".to_string())) {
        CreateAction::SelectType { kind_name } => assert_eq!(kind_name, "Lighting"),
        _ => panic!("expected the type lookup"),
    }
    match machine.on_answer(Err("RowNotFound".to_string())) {
        CreateAction::InsertType { kind_name } => assert_eq!(kind_name, "Lighting"),
        _ => panic!("expected the type insertion"),
    }
    match machine.on_answer(Ok(3)) {
        CreateAction::SelectCategory { category_name } => assert_eq!(category_name, "Office"),
        _ => panic!("expected the category lookup"),
    }
    match machine.on_answer(Err("RowNotFound".to_string())) {
        CreateAction::InsertCategory { category_name } => assert_eq!(category_name, "Office"),
        _ => panic!("expected the category insertion"),
    }
    match machine.on_answer(Ok(8)) {
        CreateAction::InsertProduct { product_name, type_id, category_id, product_qty } => {
            assert_eq!(product_name, "Desk lamp");
            assert_eq!(type_id, 3);
            assert_eq!(category_id, 8);
            assert_eq!(product_qty, 12);
        }
        _ => panic!("expected the product's insertion"),
    }
    let reply = create_reply(machine.on_answer(Ok(11)));
    assert_eq!(reply.status, Status::Created);
    assert_eq!(reply.status.code(), 201);
    assert!(matches!(reply.payload, Payload::Record));
    assert!(matches!(machine.stage, CreateStage::Done));
}

#[test]
fn create_with_known_type_and_category() {
    let (mut machine, _) = create_product(&someone(), lamp());
    machine.on_answer(Err("RowNotFound".to_string()));
    assert!(matches!(machine.on_answer(Ok(2)), CreateAction::SelectCategory { .. }));
    match machine.on_answer(Ok(4)) {
        CreateAction::InsertProduct { type_id, category_id, .. } => {
            assert_eq!((type_id, category_id), (2, 4));
        }
        _ => panic!("expected the product's insertion"),
    }
}

#[test]
fn create_reports_a_failed_type_insertion() {
    let (mut machine, _) = create_product(&someone(), lamp());
    machine.on_answer(Err("RowNotFound".to_string()));
    machine.on_answer(Err("RowNotFound".to_string()));
    let reply = create_reply(machine.on_answer(Err("PoolTimedOut".to_string())));
    assert_eq!(reply.status.code(), 500);
    assert_eq!(text_of(&reply), "PoolTimedOut");
}

#[test]
fn create_reports_a_failed_category_insertion() {
    let (mut machine, _) = create_product(&someone(), lamp());
    machine.on_answer(Err("RowNotFound".to_string()));
    machine.on_answer(Ok(1));
    machine.on_answer(Err("RowNotFound".to_string()));
    let reply = create_reply(machine.on_answer(Err("Database(unique)".to_string())));
    assert_eq!(reply.status.code(), 500);
    assert_eq!(text_of(&reply), "Database(unique)");
}

#[test]
fn create_reports_a_failed_product_insertion() {
    let (mut machine, _) = create_product(&someone(), lamp());
    machine.on_answer(Err("RowNotFound".to_string()));
    machine.on_answer(Ok(1));
    machine.on_answer(Ok(1));
    let reply = create_reply(machine.on_answer(Err("Io".to_string())));
    assert_eq!(reply.status, Status::ServerError);
    assert_eq!(text_of(&reply), "Io");
}

#[test]
fn delete_without_identity_is_refused() {
    let (machine, action) = delete_product(&None, 7);
    assert!(matches!(machine.stage, DeleteStage::Done));
    match action {
        DeleteAction::Respond(reply) => {
            assert_eq!(reply.status.code(), 401);
            assert_eq!(text_of(&reply), "Unauthorized access");
        }
        _ => panic!("expected a reply"),
    }
}

#[test]
fn delete_removes_the_product() {
    let (mut machine, action) = delete_product(&someone(), 7);
    assert!(matches!(action, DeleteAction::DeleteById(7)));
    match machine.on_outcome(Ok(())) {
        DeleteAction::Respond(reply) => {
            assert_eq!(reply.status.code(), 200);
            assert_eq!(text_of(&reply), "Product remove successfull");
        }
        _ => panic!("expected a reply"),
    }
}

#[test]
fn delete_reports_the_error() {
    let (mut machine, _) = delete_product(&someone(), 7);
    match machine.on_outcome(Err("Protocol(\"x\")".to_string())) {
        DeleteAction::Respond(reply) => {
            assert_eq!(reply.status.code(), 500);
            assert_eq!(text_of(&reply), "Protocol(\"x\")");
        }
        _ => panic!("expected a reply"),
    }
}

#[test]
fn retrieve_all_for_id_zero() {
    let (mut machine, action) = retrieve_product(&someone(), 0);
    assert!(matches!(action, RetrieveAction::SelectAll));
    assert!(matches!(machine.stage, RetrieveStage::Fetch));
    match machine.on_outcome(Ok(())) {
        RetrieveAction::Respond(reply) => {
            assert_eq!(reply.status.code(), 200);
            assert!(matches!(reply.payload, Payload::Record));
        }
        _ => panic!("expected a reply"),
    }
}

#[test]
fn retrieve_one_by_id() {
    let (mut machine, action) = retrieve_product(&someone(), 12);
    assert!(matches!(action, RetrieveAction::SelectById(12)));
    match machine.on_outcome(Err("RowNotFound".to_string())) {
        RetrieveAction::Respond(reply) => {
            assert_eq!(reply.status.code(), 500);
            assert_eq!(text_of(&reply), "RowNotFound");
        }
        _ => panic!("expected a reply"),
    }
}

#[test]
fn retrieve_without_identity_is_refused() {
    let (_, action) = retrieve_product(&None, 0);
    match action {
        RetrieveAction::Respond(reply) => {
            assert_eq!(reply.status, Status::Unauthorized);
            assert_eq!(text_of(&reply), "Unauthorized access");
        }
        _ => panic!("expected a reply"),
    }
}

#[test]
fn update_query_adds_for_plus() {
    assert_eq!(
        update_query(&"plus".to_string()),
        "update products_table set product_price = $1, product_qty = product_qty + $2 where product_id = $3"
    );
}

#[test]
fn update_query_subtracts_otherwise() {
    assert_eq!(
        update_query(&"minus".to_string()),
        "update products_table set product_price = $1, product_qty = product_qty - $2 where product_id = $3"
    );
    assert_eq!(
        update_query(&"Plus".to_string()),
        "update products_table set product_price = $1, product_qty = product_qty - $2 where product_id = $3"
    );
}

#[test]
fn update_runs_the_statement_for_a_found_product() {
    let (mut machine, action) = update_product(&someone(), 9, 5, &"plus".to_string());
    assert!(matches!(action, UpdateAction::SelectById(9)));
    match machine.on_outcome(Ok(())) {
        UpdateAction::RunUpdate { query, product_qty, product_id } => {
            assert_eq!(product_id, 9);
            assert_eq!(product_qty, 5);
            assert!(query.ends_with("product_qty + $2 where product_id = $3"));
        }
        _ => panic!("expected the update"),
    }
    match machine.on_outcome(Ok(())) {
        UpdateAction::Respond(reply) => {
            assert_eq!(reply.status.code(), 201);
            assert_eq!(text_of(&reply), "Product updated successfullt");
        }
        _ => panic!("expected a reply"),
    }
    assert!(matches!(machine.stage, UpdateStage::Done));
}

#[test]
fn update_of_a_missing_product() {
    let (mut machine, _) = update_product(&someone(), 9, 5, &"minus".to_string());
    match machine.on_outcome(Err("RowNotFound".to_string())) {
        UpdateAction::Respond(reply) => {
            assert_eq!(reply.status.code(), 500);
            assert_eq!(text_of(&reply), "Product not found: RowNotFound");
        }
        _ => panic!("expected a reply"),
    }
}

#[test]
fn update_reports_a_failed_statement() {
    let (mut machine, _) = update_product(&someone(), 9, 5, &"minus".to_string());
    machine.on_outcome(Ok(()));
    match machine.on_outcome(Err("PoolClosed".to_string())) {
        UpdateAction::Respond(reply) => {
            assert_eq!(reply.status.code(), 500);
            assert_eq!(text_of(&reply), "Updating error: PoolClosed");
        }
        _ => panic!("expected a reply"),
    }
}

#[test]
fn update_without_identity_is_refused() {
    let (machine, action) = update_product(&None, 9, 5, &"plus".to_string());
    assert!(matches!(machine.stage, UpdateStage::Done));
    match action {
        UpdateAction::Respond(reply) => {
            assert_eq!(reply.status.code(), 401);
            assert_eq!(text_of(&reply), "Unauthorized access");
        }
        _ => panic!("expected a reply"),
    }
}
