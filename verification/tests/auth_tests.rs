use auth_core::directory::UserDirectory;
use auth_core::dtos::healthcheck_response;
use auth_core::guard::{bearer_header, guard, AuthContext, RequiredRole};
use auth_core::model::Role;
use auth_core::ops::{get_self, list_users, login, logout, register, AuthError};
use auth_core::password::{hash_password, hashed_password_verifies, verify_password};
use auth_core::token::TokenService;
use auth_core::{AppState, Config};

const NOW: u64 = 1_700_000_000;

fn state() -> AppState {
    AppState::new(Config {
        database_url: String::new(),
        jwt_secret: b"configured-signing-secret".to_vec(),
        jwt_maxage: 3600,
        port: 8000,
    })
}

#[test]
fn test_healthcheck() {
    let response = healthcheck_response();
    assert_eq!(response.status, "success");
    assert_eq!(response.message, "Complete Restful API in Rust");
}

#[test]
fn test_hash_verify() {
    let digest = hash_password("pw123").expect("hashing failed");
    assert!(verify_password("pw123", &digest));
    assert!(!verify_password("pw124", &digest));
    assert!(!verify_password("", &digest));
}

#[test]
fn test_hash_verify_roundtrip_law() {
    assert_eq!(hashed_password_verifies("pw123"), Some(true));
    assert_eq!(hashed_password_verifies(""), Some(true));
}

#[test]
fn test_salt_uniqueness() {
    let d1 = hash_password("pw123").expect("hashing failed");
    let d2 = hash_password("pw123").expect("hashing failed");
    assert_ne!(d1, d2);
    assert!(verify_password("pw123", &d1));
    assert!(verify_password("pw123", &d2));
}

#[test]
fn test_password_is_not_its_own_digest() {
    let digest = hash_password("pw123").expect("hashing failed");
    assert_ne!(digest, "pw123");
    // A malformed digest fails closed.
    assert!(!verify_password("pw123", "pw123"));
    assert!(!verify_password("pw123", ""));
}

#[test]
fn test_register_success() {
    let mut dir = UserDirectory::new();
    let view = register(&mut dir, "Ada", "ada@x.com", "pw123", "pw123", NOW).expect("register");
    assert_eq!(view.id, 1);
    assert_eq!(view.name, "Ada");
    assert_eq!(view.email, "ada@x.com");
    assert_eq!(view.role, Role::Standard);
    assert!(!view.verified);
    assert_eq!(view.created_at, NOW);
    assert_eq!(view.updated_at, NOW);
}

#[test]
fn test_register_password_mismatch() {
    let mut dir = UserDirectory::new();
    let err = register(&mut dir, "Ada", "ada@x.com", "pw123", "pw124", NOW).unwrap_err();
    assert_eq!(err, AuthError::PasswordMismatch);
    assert_eq!(err.status_code(), 400);
    assert_eq!(err.message(), "Passwords do not match");
    assert_eq!(dir.len(), 0);
}

#[test]
fn test_duplicate_email() {
    let mut dir = UserDirectory::new();
    assert!(register(&mut dir, "Ada", "ada@x.com", "pw123", "pw123", NOW).is_ok());
    let err = register(&mut dir, "Ada II", "ada@x.com", "other", "other", NOW).unwrap_err();
    assert_eq!(err, AuthError::DuplicateEmail);
    assert_eq!(err.status_code(), 409);
    assert_eq!(dir.len(), 1);
}

#[test]
fn test_duplicate_email_case_insensitive() {
    let mut dir = UserDirectory::new();
    assert!(register(&mut dir, "Ada", "Ada@X.com", "pw123", "pw123", NOW).is_ok());
    let err = register(&mut dir, "Ada II", "ada@x.com", "other", "other", NOW).unwrap_err();
    assert_eq!(err, AuthError::DuplicateEmail);
}

#[test]
fn test_login_success() {
    let st = state();
    let mut dir = st.directory;
    register(&mut dir, "Ada", "ada@x.com", "pw123", "pw123", NOW).expect("register");
    let token = login(&dir, &st.tokens, "ada@x.com", "pw123", NOW).expect("login");
    // The email lookup is case-insensitive.
    let token2 = login(&dir, &st.tokens, "ADA@X.COM", "pw123", NOW).expect("login");
    let header = bearer_header(&token);
    let ctx = guard(&dir, &st.tokens, Some(&header), RequiredRole::Any, NOW).expect("guard");
    assert_eq!(ctx.user_id, 1);
    assert_eq!(ctx.role, Role::Standard);
    let header2 = bearer_header(&token2);
    assert!(guard(&dir, &st.tokens, Some(&header2), RequiredRole::Any, NOW).is_ok());
}

#[test]
fn test_login_uniform_error() {
    let st = state();
    let mut dir = st.directory;
    register(&mut dir, "Ada", "ada@x.com", "pw123", "pw123", NOW).expect("register");
    let wrong_password = login(&dir, &st.tokens, "ada@x.com", "pw124", NOW).unwrap_err();
    let unknown_email = login(&dir, &st.tokens, "bob@x.com", "pw123", NOW).unwrap_err();
    assert_eq!(wrong_password, AuthError::InvalidCredentials);
    assert_eq!(unknown_email, AuthError::InvalidCredentials);
    assert_eq!(wrong_password, unknown_email);
    assert_eq!(wrong_password.status_code(), unknown_email.status_code());
    assert_eq!(wrong_password.message(), unknown_email.message());
}

#[test]
fn test_guard_roles() {
    let st = state();
    let mut dir = st.directory;
    register(&mut dir, "Ada", "ada@x.com", "pw123", "pw123", NOW).expect("register");
    register(&mut dir, "Root", "root@x.com", "pw456", "pw456", NOW).expect("register");
    assert!(dir.set_role(2, Role::Admin));

    let standard_token = login(&dir, &st.tokens, "ada@x.com", "pw123", NOW).expect("login");
    let admin_token = login(&dir, &st.tokens, "root@x.com", "pw456", NOW).expect("login");
    let standard_header = bearer_header(&standard_token);
    let admin_header = bearer_header(&admin_token);

    // Standard user on the admin-only listing: Forbidden, 403.
    let err = guard(&dir, &st.tokens, Some(&standard_header), RequiredRole::AdminOnly, NOW)
        .unwrap_err();
    assert_eq!(err, AuthError::Forbidden);
    assert_eq!(err.status_code(), 403);

    // Admin passes and gets the list.
    let ctx = guard(&dir, &st.tokens, Some(&admin_header), RequiredRole::AdminOnly, NOW)
        .expect("admin guard");
    assert_eq!(ctx.role, Role::Admin);
    let listed = list_users(&dir, 1, 10);
    assert_eq!(listed.len(), 2);
    assert_eq!(listed[0].email, "ada@x.com");
    assert_eq!(listed[1].email, "root@x.com");

    // No credential at all: Unauthenticated, 401.
    let err = guard(&dir, &st.tokens, None, RequiredRole::AdminOnly, NOW).unwrap_err();
    assert_eq!(err, AuthError::Unauthenticated);
    assert_eq!(err.status_code(), 401);
}

#[test]
fn test_guard_rejects_bad_credentials() {
    let st = state();
    let mut dir = st.directory;
    register(&mut dir, "Ada", "ada@x.com", "pw123", "pw123", NOW).expect("register");
    let token = login(&dir, &st.tokens, "ada@x.com", "pw123", NOW).expect("login");
    let header = bearer_header(&token);

    // No bearer marker.
    let e = guard(&dir, &st.tokens, Some("Token abc123"), RequiredRole::Any, NOW).unwrap_err();
    assert_eq!(e, AuthError::Unauthenticated);
    // Marker but broken hex.
    let e = guard(&dir, &st.tokens, Some("Bearer xyz"), RequiredRole::Any, NOW).unwrap_err();
    assert_eq!(e, AuthError::Unauthenticated);
    // A well-formed but expired credential.
    let e = guard(&dir, &st.tokens, Some(&header), RequiredRole::Any, NOW + 3600).unwrap_err();
    assert_eq!(e, AuthError::Unauthenticated);
}

#[test]
fn test_get_self_not_found() {
    let dir = UserDirectory::new();
    let ctx = AuthContext { user_id: 999, role: Role::Standard };
    let err = get_self(&dir, &ctx).unwrap_err();
    assert_eq!(err, AuthError::NotFound);
    assert_eq!(err.status_code(), 404);
}

#[test]
fn test_list_users_pagination() {
    let mut dir = UserDirectory::new();
    for i in 0..5u32 {
        let email = format!("user{i}@x.com");
        register(&mut dir, "User", &email, "pw", "pw", NOW).expect("register");
    }
    assert_eq!(list_users(&dir, 1, 2).len(), 2);
    assert_eq!(list_users(&dir, 2, 2).len(), 2);
    assert_eq!(list_users(&dir, 3, 2).len(), 1);
    assert_eq!(list_users(&dir, 4, 2).len(), 0);
    assert_eq!(list_users(&dir, 2, 2)[0].email, "user2@x.com");
}

#[test]
fn test_error_taxonomy() {
    let cases = [
        (AuthError::PasswordMismatch, 400),
        (AuthError::DuplicateEmail, 409),
        (AuthError::InvalidCredentials, 400),
        (AuthError::Unauthenticated, 401),
        (AuthError::Forbidden, 403),
        (AuthError::NotFound, 404),
        (AuthError::HashingFailure, 500),
    ];
    for (err, code) in cases {
        assert_eq!(err.status_code(), code);
        assert!(!err.message().is_empty());
    }
}

#[test]
fn test_full_scenario() {
    let st = state();
    let mut dir = st.directory;

    // register("Ada","ada@x.com","pw123","pw123"): sanitized user, standard role.
    let view = register(&mut dir, "Ada", "ada@x.com", "pw123", "pw123", NOW).expect("register");
    assert_eq!(view.role, Role::Standard);
    assert_eq!(view.email, "ada@x.com");

    // login: a token comes back.
    let token = login(&dir, &st.tokens, "ada@x.com", "pw123", NOW).expect("login");
    let header = bearer_header(&token);

    // GET /me with that token: the same user.
    let ctx = guard(&dir, &st.tokens, Some(&header), RequiredRole::Any, NOW).expect("guard");
    let me = get_self(&dir, &ctx).expect("me");
    assert_eq!(me.id, view.id);
    assert_eq!(me.email, view.email);
    assert_eq!(me.name, view.name);

    // GET /users with that token: 403.
    let err = guard(&dir, &st.tokens, Some(&header), RequiredRole::AdminOnly, NOW).unwrap_err();
    assert_eq!(err.status_code(), 403);

    // logout clears the client-held credential ...
    let response = logout();
    assert_eq!(response.status, "success");

    // ... and a request without it is 401.
    let err = guard(&dir, &st.tokens, None, RequiredRole::Any, NOW).unwrap_err();
    assert_eq!(err, AuthError::Unauthenticated);
    assert_eq!(err.status_code(), 401);
}

#[test]
fn test_app_state() {
    let st = state();
    let svc: &TokenService = &st.tokens;
    let t = svc.issue(5, NOW);
    assert_eq!(svc.validate(&t, NOW), Ok(5));
    assert_eq!(st.env.port, 8000);
    assert_eq!(st.directory.len(), 0);
}
