use personal_manager::auth::SigninRequest;
use personal_manager::authorize::AuthUser;
use personal_manager::errors::ApiError;
use personal_manager::token::{create_jwt, verify_jwt};
use personal_manager::user::{CreateUserRequest, LoginRequest, UserStore};

const SECRET: &str = "unit-test-signing-secret";

fn signup_request(name: &str, email: &str, password: &str) -> CreateUserRequest {
    CreateUserRequest {
        name: name.to_string(),
        email: email.to_string(),
        password: password.to_string(),
    }
}

#[test]
fn signup_then_login() {
    let mut store = UserStore::new();
    let resp = store.signup(signup_request("Alice", "alice@example.com", "pw1"), 1_000, SECRET)
        .unwrap();
    assert_eq!(resp.user.name, "Alice");
    assert_eq!(resp.user.email, "alice@example.com");
    assert_eq!(resp.user.created_at, 1_000);
    assert_eq!(store.rows.len(), 1);
    // the stored row keeps a bcrypt hash, never the password itself
    assert_ne!(store.rows[0].password_hash, "pw1");
    assert_eq!(store.rows[0].password_hash.len(), 60);
    assert!(store.rows[0].password_hash.starts_with('$'));

    let login = LoginRequest { email: "alice@example.com".to_string(), password: "pw1".to_string() };
    let logged_in = store.login(login, 1_500, SECRET).unwrap();
    assert_eq!(logged_in.user.email, "alice@example.com");

    // the fresh token names the user and verifies
    let claims = verify_jwt(&logged_in.token, 1_600, SECRET).unwrap();
    assert_eq!(claims.sub, resp.user.id);
    assert_eq!(claims.iat, 1_500);
    assert_eq!(claims.exp, 1_500 + 24 * 60 * 60);
}

#[test]
fn signup_duplicate_email_is_a_conflict() {
    let mut store = UserStore::new();
    store.signup(signup_request("Alice", "a@b.c", "pw"), 1, SECRET).unwrap();
    let err = store.signup(signup_request("Other", "a@b.c", "pw2"), 2, SECRET).unwrap_err();
    assert_eq!(err, ApiError::Conflict);
    assert_eq!(store.rows.len(), 1);
}

#[test]
fn login_rejects_unknown_email_and_wrong_password_alike() {
    let mut store = UserStore::new();
    store.signup(signup_request("Alice", "a@b.c", "right"), 1, SECRET).unwrap();

    let unknown = LoginRequest { email: "nobody@b.c".to_string(), password: "right".to_string() };
    assert_eq!(store.login(unknown, 2, SECRET).unwrap_err(), ApiError::Unauthorized);

    let wrong = LoginRequest { email: "a@b.c".to_string(), password: "wrong".to_string() };
    assert_eq!(store.login(wrong, 3, SECRET).unwrap_err(), ApiError::Unauthorized);
}

#[test]
fn signin_registers_then_recognizes_then_rejects() {
    let mut store = UserStore::new();

    // unknown email with a name: registers and hands back a valid token
    let first = SigninRequest {
        name: Some("Bob".to_string()),
        email: "bob@example.com".to_string(),
        password: "secret".to_string(),
    };
    let resp = store.signin(first, 100, SECRET).unwrap();
    assert_eq!(store.rows.len(), 1);
    assert_eq!(resp.user.name, "Bob");
    let claims = verify_jwt(&resp.token, 150, SECRET).unwrap();
    assert_eq!(claims.sub, resp.user.id);

    // known email with the right password: logs in without a second row
    let second = SigninRequest {
        name: None,
        email: "bob@example.com".to_string(),
        password: "secret".to_string(),
    };
    let again = store.signin(second, 200, SECRET).unwrap();
    assert_eq!(store.rows.len(), 1);
    assert_eq!(again.user.id, resp.user.id);

    // known email with the wrong password
    let wrong = SigninRequest {
        name: None,
        email: "bob@example.com".to_string(),
        password: "guess".to_string(),
    };
    assert_eq!(store.signin(wrong, 300, SECRET).unwrap_err(), ApiError::Unauthorized);
    assert_eq!(store.rows.len(), 1);
}

#[test]
fn signin_without_name_for_new_email_is_a_bad_request() {
    let mut store = UserStore::new();
    let request = SigninRequest {
        name: None,
        email: "new@example.com".to_string(),
        password: "pw".to_string(),
    };
    assert_eq!(store.signin(request, 1, SECRET).unwrap_err(), ApiError::BadRequest);
    assert_eq!(store.rows.len(), 0);
}

#[test]
fn signin_normalizes_the_email() {
    let mut store = UserStore::new();
    let first = SigninRequest {
        name: Some("Cara".to_string()),
        email: "  Cara@Example.COM ".to_string(),
        password: "pw".to_string(),
    };
    let resp = store.signin(first, 1, SECRET).unwrap();
    assert_eq!(resp.user.email, "cara@example.com");

    let second = SigninRequest {
        name: None,
        email: "cara@example.com".to_string(),
        password: "pw".to_string(),
    };
    let again = store.signin(second, 2, SECRET).unwrap();
    assert_eq!(again.user.id, resp.user.id);
    assert_eq!(store.rows.len(), 1);
}

#[test]
fn signin_request_converters() {
    let with_name = SigninRequest {
        name: Some("Dana".to_string()),
        email: "d@e.f".to_string(),
        password: "pw".to_string(),
    };
    let create = with_name.to_create_user_request();
    assert_eq!(create.name, "Dana");
    assert_eq!(create.email, "d@e.f");
    assert_eq!(create.password, "pw");

    let without_name = SigninRequest {
        name: None,
        email: "d@e.f".to_string(),
        password: "pw".to_string(),
    };
    let defaulted = without_name.to_create_user_request();
    assert_eq!(defaulted.name, "User");

    let login_src = SigninRequest {
        name: Some("ignored".to_string()),
        email: "d@e.f".to_string(),
        password: "pw".to_string(),
    };
    let login = login_src.to_login_request();
    assert_eq!(login.email, "d@e.f");
    assert_eq!(login.password, "pw");
}

#[test]
fn expired_token_is_rejected_even_with_a_valid_signature() {
    let token = create_jwt("user-9", 1_000, SECRET).unwrap();
    // within the 24 hours: accepted
    assert!(verify_jwt(&token, 1_000 + 86_399, SECRET).is_ok());
    // at and after expiry: rejected, though the signature still verifies
    assert_eq!(verify_jwt(&token, 1_000 + 86_400, SECRET).unwrap_err(), ApiError::Unauthorized);
    assert_eq!(verify_jwt(&token, 10_000_000, SECRET).unwrap_err(), ApiError::Unauthorized);
}

#[test]
fn forged_and_malformed_tokens_are_rejected() {
    let token = create_jwt("user-10", 1_000, SECRET).unwrap();
    assert!(verify_jwt(&token, 1_001, SECRET).is_ok());
    // wrong secret
    assert_eq!(verify_jwt(&token, 1_001, "other-secret").unwrap_err(), ApiError::Unauthorized);
    // tampered text
    let mut tampered = token.clone();
    tampered.push('x');
    assert_eq!(verify_jwt(&tampered, 1_001, SECRET).unwrap_err(), ApiError::Unauthorized);
    // not a token at all
    assert_eq!(verify_jwt("garbage", 1_001, SECRET).unwrap_err(), ApiError::Unauthorized);
}

#[test]
fn bearer_header_extraction() {
    let token = create_jwt("user-11", 1_000, SECRET).unwrap();
    let header = format!("Bearer {}", token);
    let user = AuthUser::from_header(Some(&header), 1_001, SECRET).unwrap();
    assert_eq!(user.user_id, "user-11");

    assert_eq!(AuthUser::from_header(None, 1_001, SECRET).unwrap_err(), ApiError::Unauthorized);
    let wrong_scheme = format!("Token {}", token);
    assert_eq!(
        AuthUser::from_header(Some(&wrong_scheme), 1_001, SECRET).unwrap_err(),
        ApiError::Unauthorized
    );
    assert_eq!(
        AuthUser::from_header(Some("Bear"), 1_001, SECRET).unwrap_err(),
        ApiError::Unauthorized
    );
    // expired credential through the extractor
    assert_eq!(
        AuthUser::from_header(Some(&header), 1_000 + 86_400, SECRET).unwrap_err(),
        ApiError::Unauthorized
    );
}
