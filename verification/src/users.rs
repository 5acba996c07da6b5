//! The user model: the request bodies of the user service and the stored user.
use vstd::prelude::*;

verus! {

/// The body of a request that adds a user.
pub struct AddUserRequest {
    pub fullname: String,
}

/// The path of a request that edits a user.
pub struct EditUserURL {
    pub uuid: String,
}

/// A stored user.
#[derive(Debug)]
pub struct Users {
    pub uuid: String,
    pub fullname: String,
}

/// A field that failed its validation rule.
pub struct FieldError {
    /// The field's name.
    pub field: String,
    /// The rule that failed.
    pub code: String,
    /// The rule's message.
    pub message: String,
}

/// What `validator::validate_length` returns: whether the number of characters of
/// `value` is `equal` where that is given, and otherwise lies within the bounds given.
pub open spec fn length_rule_holds(
    value: Seq<char>,
    min: Option<u64>,
    max: Option<u64>,
    equal: Option<u64>,
) -> bool {
    match equal {
        Some(eq) => value.len() == eq,
        None => {
            &&& (min matches Some(m) ==> value.len() >= m)
            &&& (max matches Some(m) ==> value.len() <= m)
        },
    }
}

/// Calls `validator::validate_length`, which counts the characters of `value`
/// and compares the count with `equal` where that is given, else with `min` and `max`.
#[verifier::external_body]
fn validate_length(value: &str, min: Option<u64>, max: Option<u64>, equal: Option<u64>) -> (ok:
    bool)
    ensures
        ok == length_rule_holds(value@, min, max, equal),
{
    validator::validate_length(value, min, max, equal)
}

impl AddUserRequest {
    /// Checks the rule on the full name: at least one character.
    pub fn validate(&self) -> (r: Result<(), FieldError>)
        ensures
            r is Ok <==> self.fullname@.len() >= 1,
            r matches Err(e) ==> {
                &&& e.field@ == "fullname"@
                &&& e.code@ == "length"@
                &&& e.message@ == "Fullname required"@
            },
    {
        if validate_length(self.fullname.as_str(), Some(1), None, None) {
            Ok(())
        } else {
            Err(
                FieldError {
                    field: "fullname".to_owned(),
                    code: "length".to_owned(),
                    message: "Fullname required".to_owned(),
                },
            )
        }
    }
}

impl Users {
    /// A user with this identifier and full name.
    pub fn new(uuid: String, fullname: String) -> (u: Users)
        ensures
            u.uuid == uuid,
            u.fullname == fullname,
    {
        Users { uuid, fullname }
    }
}

} // verus!
