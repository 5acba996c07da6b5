//! Request handling of a small product-catalogue and user service, with its
//! decisions verified: which query runs next and what each request is answered.
pub mod reply;
pub mod users;
pub mod user_routes;
pub mod token;
pub mod products;
pub mod auth;
