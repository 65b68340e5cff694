use wallet_backend::auth::require_own_wallet;
use wallet_backend::auth::{
    authorize_request, dev_selected_user, dev_user_from_header, dev_user_from_query, dev_wallet_user_from_path,
    extract_bearer, is_local_request, parse_token, require_admin, require_user, sign_user_token, sign_user_token_str,
    AuthCtx, AuthDecision, Role,
};
use wallet_backend::domain::UserId;
use wallet_backend::error::ApiError;

const ADMIN: &str = "admin-dev-token";
const SECRET: &str = "dev-secret";

fn user(s: &str) -> UserId {
    UserId::parse(s).unwrap()
}

fn decide(path: &str, local: bool, header: Option<&str>, query: Option<&str>, auth: Option<&str>) -> Result<AuthDecision, ApiError> {
    authorize_request(path, local, header, query, auth, ADMIN, SECRET)
}

fn user_of(d: Result<AuthDecision, ApiError>) -> Option<String> {
    match d {
        Ok(AuthDecision::Authorized(AuthCtx { role: Role::User, user_id: Some(u) })) => Some(u.as_str().to_string()),
        _ => None,
    }
}

fn is_admin(d: &Result<AuthDecision, ApiError>) -> bool {
    matches!(d, Ok(AuthDecision::Authorized(AuthCtx { role: Role::Admin, user_id: None })))
}

#[test]
fn user_token_is_hmac_signed() {
    assert_eq!(sign_user_token(SECRET, &user("u01")), "user:u01:OSmSBqreZYaSAAP68ghSY9fdnhNU5efovUtQO7Ie22A");
    assert_eq!(sign_user_token_str(SECRET, " alice "), "user:alice:GYa3uWX0IMsAkg8SJc6y8dx34ngPPt2IJnmGRufW-lE");
}

#[test]
fn signed_token_parses_back_to_its_user() {
    let token = sign_user_token(SECRET, &user("alice"));
    let ctx = parse_token(&token, ADMIN, SECRET).unwrap();
    assert_eq!(ctx.role, Role::User);
    assert_eq!(ctx.user_id.unwrap().as_str(), "alice");
}

#[test]
fn admin_token_gives_admin() {
    let ctx = parse_token(ADMIN, ADMIN, SECRET).unwrap();
    assert_eq!(ctx.role, Role::Admin);
    assert!(ctx.user_id.is_none());
}

#[test]
fn forged_or_malformed_tokens_are_rejected() {
    let token = sign_user_token(SECRET, &user("alice"));
    let forged = token.replacen("alice", "bob", 1);
    for t in [forged.as_str(), "user:alice", "admin:x:y", "", "user::sig"] {
        assert!(matches!(parse_token(t, ADMIN, SECRET), Err(ApiError::Unauthorized("invalid token"))), "{t}");
    }
    let other_secret = sign_user_token("another", &user("alice"));
    assert!(parse_token(&other_secret, ADMIN, SECRET).is_err());
}

#[test]
fn bearer_header_is_read() {
    assert_eq!(extract_bearer(Some("  Bearer   abc  ")).as_deref(), Some("abc"));
    assert_eq!(extract_bearer(Some("Basic abc")), None);
    assert_eq!(extract_bearer(Some("bearer abc")), None);
    assert_eq!(extract_bearer(None), None);
}

#[test]
fn role_guards() {
    let admin = AuthCtx { role: Role::Admin, user_id: None };
    let u = AuthCtx { role: Role::User, user_id: Some(user("u01")) };
    assert!(require_admin(&admin).is_ok());
    assert!(matches!(require_admin(&u), Err(ApiError::Forbidden("admin only"))));
    assert!(matches!(require_user(&admin), Err(ApiError::Forbidden("user only"))));
    assert_eq!(require_user(&u).unwrap().as_str(), "u01");
    let nobody = AuthCtx { role: Role::User, user_id: None };
    assert!(matches!(require_user(&nobody), Err(ApiError::Unauthorized("missing user"))));
}

#[test]
fn admin_list_users_forbidden_for_user_token() {
    let token = format!("Bearer {}", sign_user_token(SECRET, &user("u01")));
    let d = decide("/v1/admin/users", false, None, None, Some(&token));
    match d {
        Ok(AuthDecision::Authorized(ctx)) => {
            assert!(matches!(require_admin(&ctx), Err(ApiError::Forbidden("admin only"))));
        },
        _ => panic!("expected an authorized user"),
    }
}

#[test]
fn public_paths_need_nothing() {
    for p in ["/health", "/api-doc/openapi.json", "/swagger-ui/index.html", "/v1/currencies"] {
        assert!(matches!(decide(p, false, None, None, None), Ok(AuthDecision::Public)));
    }
}

#[test]
fn remote_requests_need_a_bearer_token() {
    assert!(matches!(
        decide("/v1/wallet/u01/balances", false, None, None, None),
        Err(ApiError::Unauthorized("missing Authorization header"))
    ));
    assert!(matches!(
        decide("/v1/wallet/u01/balances", false, None, None, Some("Token x")),
        Err(ApiError::Unauthorized("missing Authorization header"))
    ));
    assert!(matches!(
        decide("/v1/wallet/u01/balances", false, None, None, Some("Bearer nope")),
        Err(ApiError::Unauthorized("invalid token"))
    ));
    let admin = format!("Bearer {ADMIN}");
    assert!(is_admin(&decide("/v1/admin/users", false, None, None, Some(&admin))));
}

#[test]
fn dev_endpoints_unavailable_off_localhost() {
    assert!(matches!(
        decide("/v1/dev/users", false, None, None, None),
        Err(ApiError::NotFound("dev endpoint not available"))
    ));
}

#[test]
fn dev_endpoints_available_on_localhost() {
    assert!(is_admin(&decide("/v1/dev/users", true, None, None, None)));
    assert!(is_admin(&decide("/v1/admin/users", true, Some("u05"), None, None)));
}

#[test]
fn localhost_wallet_path_user_uses_selected_user() {
    assert_eq!(user_of(decide("/v1/wallet/u02/balances", true, None, Some("as=u02"), None)), Some("u02".into()));
}

#[test]
fn localhost_wallet_path_user_mismatch_rejected() {
    assert!(matches!(
        decide("/v1/wallet/u02/balances", true, Some("u01"), None, None),
        Err(ApiError::BadRequest("dev user mismatch: path user_id vs selected"))
    ));
    // without any selection the fallback user is u01
    assert!(decide("/v1/wallet/u02/balances", true, None, None, None).is_err());
}

#[test]
fn localhost_profile_uses_selected_user() {
    assert_eq!(user_of(decide("/v1/profile", true, Some("u03"), None, None)), Some("u03".into()));
    assert_eq!(user_of(decide("/v1/profile", true, None, None, None)), Some("u01".into()));
}

#[test]
fn dev_user_selection_order() {
    assert_eq!(dev_user_from_header(Some("  u07 ")).unwrap().as_str(), "u07");
    assert!(dev_user_from_header(Some("   ")).is_none());
    assert_eq!(dev_user_from_query(Some("x=1&as=u%2009")).unwrap().as_str(), "u 09");
    assert_eq!(dev_user_from_query(Some("as=a+b")).unwrap().as_str(), "a b");
    assert_eq!(dev_user_from_query(Some("as=&as=u04")).unwrap().as_str(), "u04");
    assert!(dev_user_from_query(Some("as=%FF&as=u04")).is_none());
    assert!(dev_user_from_query(Some("user=u01")).is_none());
    assert_eq!(dev_selected_user(Some("u02"), Some("as=u03")).as_str(), "u02");
    assert_eq!(dev_selected_user(None, Some("as=u03")).as_str(), "u03");
    assert_eq!(dev_selected_user(None, None).as_str(), "u01");
}

#[test]
fn wallet_path_user() {
    assert_eq!(dev_wallet_user_from_path("/v1/wallet/u02/balances").unwrap().unwrap().as_str(), "u02");
    assert!(dev_wallet_user_from_path("/v1/wallet//x").unwrap().is_none());
    assert!(dev_wallet_user_from_path("/v1/profile").unwrap().is_none());
    let long = format!("/v1/wallet/{}/txs", "x".repeat(65));
    assert!(matches!(dev_wallet_user_from_path(&long), Err(ApiError::BadRequest("invalid user_id"))));
}

#[test]
fn local_requests() {
    assert!(is_local_request(Some(" LocalHost:8080 "), None));
    assert!(is_local_request(Some("localhost"), Some(false)));
    assert!(!is_local_request(Some("example.com"), None));
    assert!(is_local_request(Some("example.com"), Some(true)));
    assert!(!is_local_request(None, Some(false)));
    assert!(!is_local_request(None, None));
}

#[test]
fn own_wallet_only() {
    let u = AuthCtx { role: Role::User, user_id: Some(user("alice")) };
    assert_eq!(require_own_wallet(&u, " alice ").unwrap().as_str(), "alice");
    assert!(matches!(require_own_wallet(&u, "bob"), Err(ApiError::Forbidden("cannot access other user"))));
    assert!(matches!(require_own_wallet(&u, ""), Err(ApiError::BadRequest("user_id is empty"))));
    let admin = AuthCtx { role: Role::Admin, user_id: None };
    assert!(matches!(require_own_wallet(&admin, "alice"), Err(ApiError::Forbidden("user only"))));
}
