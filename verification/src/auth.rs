//! The administrator routes: registration and login.
//!
//! Both are state machines in the manner of the product routes: they name the
//! next step for the caller (a query, hashing or checking a password, encoding
//! the token's claims), take its outcome back, and end with a reply.
use vstd::prelude::*;

use crate::reply::{
    failure, failure_reply, record, record_reply, text, text_reply, Payload, Reply,
    ReplyView, ResponseToken, Status,
};
use crate::token::{hs256_token, json_text_accepted, sign_hs256, TokenClaims};

verus! {

// ---------------------------------------------------------------------------
// Registration
// ---------------------------------------------------------------------------

/// The body of a registration request.
pub struct RegisterUserBody {
    pub firstname: String,
    pub lastname: String,
    pub email_address: String,
    pub password: String,
}

/// The administrator to insert: the registration's names and address, and the
/// hash of its password.
pub struct NewAdmin {
    pub firstname: String,
    pub lastname: String,
    pub email_address: String,
    pub password_hash: String,
}

/// Where a registration stands.
pub enum RegisterStage {
    /// Waiting for the lookup of the e-mail address.
    FindEmail,
    /// Waiting for the hash of the password.
    HashPassword,
    /// Waiting for the insertion of the administrator.
    InsertAdmin,
    /// Answered.
    Done,
}

/// What a registration asks the caller to do next.
pub enum RegisterAction {
    /// Look an administrator up by this e-mail address.
    SelectAdminByEmail { email: String },
    /// Hash this password with the hashing secret.
    HashPassword { password: String },
    /// Insert this administrator and return it without its password.
    InsertAdmin(NewAdmin),
    /// Answer the request.
    Respond(Reply),
}

/// A registration in progress.
pub struct RegisterUser {
    pub stage: RegisterStage,
    /// The registration request.
    pub body: RegisterUserBody,
}

/// The answer to a registration whose e-mail address is taken.
pub open spec fn email_taken() -> ReplyView {
    text_reply(Status::ServerError, "Email address already exist"@)
}

/// Whether the action answers with this reply.
pub open spec fn register_responds(action: RegisterAction, reply: ReplyView) -> bool {
    action matches RegisterAction::Respond(r) && r@ == reply
}

/// Whether the action asks for the hash of this password.
pub open spec fn hashes(action: RegisterAction, password: Seq<char>) -> bool {
    action matches RegisterAction::HashPassword { password: p } && p@ == password
}

/// Starts a registration: the e-mail address is looked up first.
pub fn register_user(body: RegisterUserBody) -> (r: (RegisterUser, RegisterAction))
    ensures
        r.0.stage is FindEmail,
        r.0.body == body,
        r.1 matches RegisterAction::SelectAdminByEmail { email } && email@ == body.email_address@,
{
    let email = body.email_address.clone();
    (RegisterUser { stage: RegisterStage::FindEmail, body }, RegisterAction::SelectAdminByEmail {
        email,
    })
}

impl RegisterUser {
    /// Takes the outcome of the lookup of the e-mail address: a found address is
    /// refused; otherwise the password is to be hashed.
    pub fn on_lookup(&mut self, found: Result<(), String>) -> (action: RegisterAction)
        requires
            old(self).stage is FindEmail,
        ensures
            final(self).body == old(self).body,
            found is Ok ==> final(self).stage is Done && register_responds(action, email_taken()),
            found is Err ==> final(self).stage is HashPassword && hashes(
                action,
                old(self).body.password@,
            ),
    {
        match found {
            Ok(()) => {
                self.stage = RegisterStage::Done;
                RegisterAction::Respond(text(Status::ServerError, "Email address already exist"))
            },
            Err(_) => {
                self.stage = RegisterStage::HashPassword;
                RegisterAction::HashPassword { password: self.body.password.clone() }
            },
        }
    }

    /// Takes the hash of the password: the administrator is to be inserted with it
    /// in place of the password.
    pub fn on_hashed(&mut self, password_hash: String) -> (action: RegisterAction)
        requires
            old(self).stage is HashPassword,
        ensures
            final(self).body == old(self).body,
            final(self).stage is InsertAdmin,
            action matches RegisterAction::InsertAdmin(a) && {
                &&& a.firstname@ == old(self).body.firstname@
                &&& a.lastname@ == old(self).body.lastname@
                &&& a.email_address@ == old(self).body.email_address@
                &&& a.password_hash@ == password_hash@
            },
    {
        self.stage = RegisterStage::InsertAdmin;
        RegisterAction::InsertAdmin(
            NewAdmin {
                firstname: self.body.firstname.clone(),
                lastname: self.body.lastname.clone(),
                email_address: self.body.email_address.clone(),
                password_hash,
            },
        )
    }

    /// Takes the outcome of the insertion and answers: with the inserted
    /// administrator, or with the error.
    pub fn on_insert(&mut self, outcome: Result<(), String>) -> (action: RegisterAction)
        requires
            old(self).stage is InsertAdmin,
        ensures
            final(self).body == old(self).body,
            final(self).stage is Done,
            register_responds(
                action,
                match outcome {
                    Ok(()) => record_reply(Status::Success),
                    Err(e) => text_reply(Status::ServerError, e@),
                },
            ),
    {
        self.stage = RegisterStage::Done;
        match outcome {
            Ok(()) => RegisterAction::Respond(record(Status::Success)),
            Err(e) => RegisterAction::Respond(text(Status::ServerError, e.as_str())),
        }
    }
}

// ---------------------------------------------------------------------------
// Login
// ---------------------------------------------------------------------------

/// The body of a login request.
pub struct LoginUser {
    pub email_address: String,
    pub password: String,
}

/// The stored administrator that a login looks up.
pub struct AuthUser {
    pub admin_id: i32,
    pub email_address: String,
    /// The hash of the password.
    pub password: String,
}

/// Where a login stands.
pub enum LoginStage {
    /// Waiting for the lookup of the administrator.
    FindUser,
    /// Waiting for the check of the password against the stored hash.
    CheckPassword,
    /// Waiting for the serialised claims of the token.
    SignToken,
    /// Answered.
    Done,
}

/// What a login asks the caller to do next.
pub enum LoginAction {
    /// Look the administrator up by this e-mail address.
    SelectUser { email: String },
    /// Check the password against the stored hash, with the hashing secret.
    VerifyPassword { password_hash: String, password: String },
    /// Serialise these claims as JSON and hand the text back.
    EncodeClaims(TokenClaims),
    /// Answer the request.
    Respond(Reply),
    /// Signing the token failed: give up on the request.
    Abort,
}

/// A login in progress.
pub struct BasicAuth {
    pub stage: LoginStage,
    /// The password given with the request.
    pub password: String,
    /// The secret that signs the tokens.
    pub jwt_secret: Vec<u8>,
    /// The id of the administrator found.
    pub admin_id: i32,
    /// The e-mail address of the administrator found.
    pub email: String,
}

/// The answer to a login whose e-mail address or password is empty.
pub open spec fn credentials_required() -> ReplyView {
    failure_reply(Status::Unauthorized, "Email address and password are required"@, 401)
}

/// The answer to a login whose password does not match.
pub open spec fn credentials_rejected() -> ReplyView {
    failure_reply(Status::Unauthorized, "Incorrect username or password"@, 401)
}

/// The answer to a login that succeeded: the signed token.
pub open spec fn token_reply(token: Seq<char>) -> ReplyView {
    ReplyView { status: Status::Success, payload: crate::reply::PayloadView::Token(token) }
}

/// Whether the action answers with this reply.
pub open spec fn login_responds(action: LoginAction, reply: ReplyView) -> bool {
    action matches LoginAction::Respond(r) && r@ == reply
}

/// Whether the action asks for the administrator with this e-mail address.
pub open spec fn selects_user(action: LoginAction, email: Seq<char>) -> bool {
    action matches LoginAction::SelectUser { email: e } && e@ == email
}

/// Whether the action asks to encode the claims of a token for this administrator.
pub open spec fn encodes_claims(action: LoginAction, admin_id: i32, email: Seq<char>) -> bool {
    action matches LoginAction::EncodeClaims(c) && c.id == admin_id && c.email@ == email
}

/// Starts a login: a request that gives both an e-mail address and a password
/// looks the administrator up; any other is refused. Tokens are signed with
/// `jwt_secret`.
pub fn basic_auth(credentials: LoginUser, jwt_secret: Vec<u8>) -> (r: (BasicAuth, LoginAction))
    ensures
        r.0.password == credentials.password,
        r.0.jwt_secret@ == jwt_secret@,
        credentials.email_address@.len() == 0 || credentials.password@.len() == 0 ==> r.0.stage is Done
            && login_responds(r.1, credentials_required()),
        credentials.email_address@.len() != 0 && credentials.password@.len() != 0 ==> r.0.stage is FindUser
            && selects_user(r.1, credentials.email_address@),
{
    let LoginUser { email_address: email, password: pass } = credentials;
    let email_given = !email.as_str().is_empty();
    let pass_given = !pass.as_str().is_empty();
    let (stage, action) = if email_given && pass_given {
        if email_given {
            if pass_given {
                (LoginStage::FindUser, LoginAction::SelectUser { email })
            } else {
                (
                    LoginStage::Done,
                    LoginAction::Respond(
                        failure(Status::Unauthorized, "Password is required", 401),
                    ),
                )
            }
        } else {
            (
                LoginStage::Done,
                LoginAction::Respond(
                    failure(Status::Unauthorized, "Email address is required", 401),
                ),
            )
        }
    } else {
        (
            LoginStage::Done,
            LoginAction::Respond(
                failure(Status::Unauthorized, "Email address and password are required", 401),
            ),
        )
    };
    (BasicAuth { stage, password: pass, jwt_secret, admin_id: 0, email: "".to_owned() }, action)
}

impl BasicAuth {
    /// Takes the outcome of the lookup of the administrator: its row, or the
    /// error text. A found administrator's password is to be checked.
    pub fn on_user(&mut self, row: Result<AuthUser, String>) -> (action: LoginAction)
        requires
            old(self).stage is FindUser,
        ensures
            final(self).password == old(self).password,
            final(self).jwt_secret == old(self).jwt_secret,
            row matches Err(e) ==> final(self).stage is Done && login_responds(
                action,
                text_reply(Status::ServerError, e@),
            ),
            row matches Ok(user) ==> {
                &&& final(self).stage is CheckPassword
                &&& final(self).admin_id == user.admin_id
                &&& final(self).email@ == user.email_address@
                &&& action matches LoginAction::VerifyPassword { password_hash, password }
                    && password_hash@ == user.password@ && password@ == old(self).password@
            },
    {
        match row {
            Ok(user) => {
                self.stage = LoginStage::CheckPassword;
                self.admin_id = user.admin_id;
                self.email = user.email_address;
                LoginAction::VerifyPassword {
                    password_hash: user.password,
                    password: self.password.clone(),
                }
            },
            Err(e) => {
                self.stage = LoginStage::Done;
                LoginAction::Respond(text(Status::ServerError, e.as_str()))
            },
        }
    }

    /// Takes the result of the password check: a match leads to a token carrying
    /// the administrator's id and e-mail address; a mismatch is refused.
    pub fn on_password_checked(&mut self, is_valid: bool) -> (action: LoginAction)
        requires
            old(self).stage is CheckPassword,
        ensures
            final(self).jwt_secret == old(self).jwt_secret,
            final(self).admin_id == old(self).admin_id,
            final(self).email == old(self).email,
            is_valid ==> final(self).stage is SignToken && encodes_claims(
                action,
                old(self).admin_id,
                old(self).email@,
            ),
            !is_valid ==> final(self).stage is Done && login_responds(action, credentials_rejected()),
    {
        if is_valid {
            self.stage = LoginStage::SignToken;
            LoginAction::EncodeClaims(TokenClaims { id: self.admin_id, email: self.email.clone() })
        } else {
            self.stage = LoginStage::Done;
            LoginAction::Respond(failure(Status::Unauthorized, "Incorrect username or password", 401))
        }
    }

    /// Takes the claims serialised as JSON, signs them and answers with the token;
    /// the request is abandoned only where the text is not accepted as JSON.
    pub fn on_claims_encoded(&mut self, claims_json: &str) -> (action: LoginAction)
        requires
            old(self).stage is SignToken,
        ensures
            final(self).stage is Done,
            action is Respond || action is Abort,
            action is Respond <==> json_text_accepted(claims_json@),
            action is Respond ==> login_responds(
                action,
                token_reply(hs256_token(old(self).jwt_secret@, claims_json@)),
            ),
    {
        self.stage = LoginStage::Done;
        match sign_hs256(self.jwt_secret.as_slice(), claims_json) {
            Some(token) => LoginAction::Respond(
                Reply {
                    status: Status::Success,
                    payload: Payload::Token(ResponseToken { access_token: token }),
                },
            ),
            None => LoginAction::Abort,
        }
    }
}

} // verus!
