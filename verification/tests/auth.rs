use backend::auth::{
    basic_auth, register_user, AuthUser, LoginAction, LoginStage, LoginUser, RegisterAction,
    RegisterStage, RegisterUserBody,
};
use backend::reply::{Payload, Reply, Status};
use hmac::Mac;
use jwt::SignWithKey;

fn login(email: &str, password: &str) -> LoginUser {
    LoginUser { email_address: email.to_string(), password: password.to_string() }
}

fn login_reply(action: LoginAction) -> Reply {
    match action {
        LoginAction::Respond(reply) => reply,
        _ => panic!("expected a reply"),
    }
}

fn failure_of(reply: &Reply) -> (String, u32) {
    match &reply.payload {
        Payload::Failure(error) => (error.message.clone(), error.status),
        _ => panic!("expected an ErrorStatus"),
    }
}

#[test]
fn login_without_email_is_refused() {
    let (machine, action) = basic_auth(login("", "pw"), b"secret".to_vec());
    assert!(matches!(machine.stage, LoginStage::Done));
    let reply = login_reply(action);
    assert_eq!(reply.status.code(), 401);
    assert_eq!(failure_of(&reply), ("Email address and password are required".to_string(), 401));
}

#[test]
fn login_without_password_is_refused() {
    let (_, action) = basic_auth(login("a@b.c", ""), b"secret".to_vec());
    let reply = login_reply(action);
    assert_eq!(reply.status, Status::Unauthorized);
    assert_eq!(failure_of(&reply), ("Email address and password are required".to_string(), 401));
}

#[test]
fn login_of_an_unknown_address_reports_the_error() {
    let (mut machine, action) = basic_auth(login("a@b.c", "pw"), b"secret".to_vec());
    match action {
        LoginAction::SelectUser { email } => assert_eq!(email, "a@b.c"),
        _ => panic!("expected the lookup"),
    }
    let reply = login_reply(machine.on_user(Err("RowNotFound".to_string())));
    assert_eq!(reply.status.code(), 500);
    match reply.payload {
        Payload::Text(text) => assert_eq!(text, "RowNotFound"),
        _ => panic!("expected a JSON string"),
    }
}

#[test]
fn login_with_a_wrong_password_is_refused() {
    let (mut machine, _) = basic_auth(login("a@b.c", "pw"), b"secret".to_vec());
    let row = AuthUser { admin_id: 4, email_address: "a@b.c".to_string(), password: "$argon2id$h".to_string() };
    match machine.on_user(Ok(row)) {
        LoginAction::VerifyPassword { password_hash, password } => {
            assert_eq!(password_hash, "$argon2id$h");
            assert_eq!(password, "pw");
        }
        _ => panic!("expected the password check"),
    }
    let reply = login_reply(machine.on_password_checked(false));
    assert_eq!(reply.status.code(), 401);
    assert_eq!(failure_of(&reply), ("Incorrect username or password".to_string(), 401));
}

#[test]
fn login_issues_a_signed_token() {
    let secret = b"jwt-secret".to_vec();
    let (mut machine, _) = basic_auth(login("a@b.c", "pw"), secret.clone());
    let row = AuthUser { admin_id: 4, email_address: "a@b.c".to_string(), password: "h".to_string() };
    machine.on_user(Ok(row));
    match machine.on_password_checked(true) {
        LoginAction::EncodeClaims(claims) => {
            assert_eq!(claims.id, 4);
            assert_eq!(claims.email, "a@b.c");
        }
        _ => panic!("expected the claims"),
    }
    assert!(matches!(machine.stage, LoginStage::SignToken));
    let claims_json = "{\"id\":4,\"email\":\"a@b.c\"}";
    let reply = login_reply(machine.on_claims_encoded(claims_json));
    assert_eq!(reply.status.code(), 200);
    let token = match reply.payload {
        Payload::Token(token) => token.access_token,
        _ => panic!("expected a token"),
    };
    let key: hmac::Hmac<sha2::Sha256> = hmac::Hmac::new_from_slice(&secret).unwrap();
    let raw = serde_json::value::RawValue::from_string(claims_json.to_string()).unwrap();
    let expected: String = raw.sign_with_key(&key).unwrap();
    assert_eq!(token, expected);
    assert!(token.starts_with("eyJhbGciOiJIUzI1NiJ9."));
    assert_eq!(token.split('.').count(), 3);
    assert_ne!(token, claims_json);
}

#[test]
fn login_gives_up_when_the_claims_cannot_be_signed() {
    let (mut machine, _) = basic_auth(login("a@b.c", "pw"), b"s".to_vec());
    machine.on_user(Ok(AuthUser { admin_id: 1, email_address: "a@b.c".to_string(), password: "h".to_string() }));
    machine.on_password_checked(true);
    assert!(matches!(machine.on_claims_encoded("not json"), LoginAction::Abort));
    assert!(matches!(machine.stage, LoginStage::Done));
}

fn body() -> RegisterUserBody {
    RegisterUserBody {
        firstname: "Ada".to_string(),
        lastname: "Lovelace".to_string(),
        email_address: "ada@example.com".to_string(),
        password: "analytical".to_string(),
    }
}

#[test]
fn register_of_a_taken_address_is_refused() {
    let (mut machine, action) = register_user(body());
    match action {
        RegisterAction::SelectAdminByEmail { email } => assert_eq!(email, "ada@example.com"),
        _ => panic!("expected the lookup"),
    }
    match machine.on_lookup(Ok(())) {
        RegisterAction::Respond(reply) => {
            assert_eq!(reply.status.code(), 500);
            match reply.payload {
                Payload::Text(text) => assert_eq!(text, "Email address already exist"),
                _ => panic!("expected a JSON string"),
            }
        }
        _ => panic!("expected a reply"),
    }
    assert!(matches!(machine.stage, RegisterStage::Done));
}

#[test]
fn register_stores_the_hash_not_the_password() {
    let (mut machine, _) = register_user(body());
    match machine.on_lookup(Err("RowNotFound".to_string())) {
        RegisterAction::HashPassword { password } => assert_eq!(password, "analytical"),
        _ => panic!("expected the hashing"),
    }
    match machine.on_hashed("$argon2id$v=19$abc".to_string()) {
        RegisterAction::InsertAdmin(admin) => {
            assert_eq!(admin.firstname, "Ada");
            assert_eq!(admin.lastname, "Lovelace");
            assert_eq!(admin.email_address, "ada@example.com");
            assert_eq!(admin.password_hash, "$argon2id$v=19$abc");
        }
        _ => panic!("expected the insertion"),
    }
    match machine.on_insert(Ok(())) {
        RegisterAction::Respond(reply) => {
            assert_eq!(reply.status.code(), 200);
            assert!(matches!(reply.payload, Payload::Record));
        }
        _ => panic!("expected a reply"),
    }
}

#[test]
fn register_reports_a_failed_insertion() {
    let (mut machine, _) = register_user(body());
    machine.on_lookup(Err("RowNotFound".to_string()));
    machine.on_hashed("h".to_string());
    match machine.on_insert(Err("Database(duplicate key)".to_string())) {
        RegisterAction::Respond(reply) => {
            assert_eq!(reply.status, Status::ServerError);
            match reply.payload {
                Payload::Text(text) => assert_eq!(text, "Database(duplicate key)"),
                _ => panic!("expected a JSON string"),
            }
        }
        _ => panic!("expected a reply"),
    }
}
