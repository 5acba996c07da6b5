//! The answers of the user service: list, add and edit users.
use vstd::prelude::*;
use vstd::string::*;

use crate::reply::{body, body_reply, Reply, Status};
use crate::users::{AddUserRequest, EditUserURL, Users};

verus! {

/// A user as plain values: identifier and full name.
pub open spec fn user_fields(u: Users) -> (Seq<char>, Seq<char>) {
    (u.uuid@, u.fullname@)
}

/// The text that `format!("{:?}", users)` gives for a list of users, each given by
/// its identifier and full name.
pub uninterp spec fn users_debug_text(users: Seq<(Seq<char>, Seq<char>)>) -> Seq<char>;

/// Calls std's `format!` with the `Debug` formatting of the list of users, as derived.
#[verifier::external_body]
fn debug_text(users: &Vec<Users>) -> (s: String)
    ensures
        s@ == users_debug_text(users@.map_values(|u: Users| user_fields(u))),
{
    format!("{:?}", users)
}

/// The answer to a listing of all users, given what the database returned
/// (`None` where the query failed).
pub fn get_users(users: Option<Vec<Users>>) -> (r: Reply)
    ensures
        r@ == match users {
            Some(found) => body_reply(
                Status::Success,
                users_debug_text(found@.map_values(|u: Users| user_fields(u))),
            ),
            None => body_reply(Status::Success, "Error!"@),
        },
{
    match users {
        Some(found_users) => body(Status::Success, debug_text(&found_users)),
        None => body(Status::Success, "Error!".to_owned()),
    }
}

/// The answer to a request that adds a user: the full name is echoed where it
/// passes its validation rule.
pub fn add_users(request: &AddUserRequest) -> (r: Reply)
    ensures
        request.fullname@.len() >= 1 ==> r@ == body_reply(
            Status::Success,
            "User's fullname "@ + request.fullname@,
        ),
        request.fullname@.len() == 0 ==> r@ == body_reply(Status::Success, "Fullname required!"@),
{
    match request.validate() {
        Ok(_) => {
            let text = "User's fullname ".to_owned().concat(request.fullname.as_str());
            body(Status::Success, text)
        },
        Err(_) => body(Status::Success, "Fullname required!".to_owned()),
    }
}

/// The answer to a request that edits the user named in the path.
pub fn edit_user(url: &EditUserURL) -> (r: Reply)
    ensures
        r@ == body_reply(Status::Success, "Use editting "@ + url.uuid@),
{
    let text = "Use editting ".to_owned().concat(url.uuid.as_str());
    body(Status::Success, text)
}

} // verus!
