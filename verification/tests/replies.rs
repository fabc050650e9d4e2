use exchange_core::auth::{api_key_ids, new_api_key_ids, token_check_answer, JwtClaims};
use exchange_core::error::Error;
use exchange_core::gateway::{
    cancel_status, current_user_reply, logout_reply, orders_market_filter, orders_page_size, refresh_reply,
    register_reply, CallError, CallOutcome, CurrentUserReply, UserResponse,
};
use exchange_core::models::{operation_type_from_row, BalanceOperationType};
use exchange_core::sql::batch_get_sql;

fn err(text: &str) -> CallError {
    CallError { code: 13, text: text.to_string() }
}

#[test]
fn token_check_answers() {
    let c = JwtClaims { sub: "u9".to_string(), sid: "s9".to_string(), exp: 1, iat: 0, ttype: "access".to_string() };
    let ok = token_check_answer(Some(c.clone()), true);
    assert!(ok.valid);
    assert_eq!((ok.user_id.as_str(), ok.session_id.as_str()), ("u9", "s9"));
    let gone = token_check_answer(Some(c), false);
    assert!(!gone.valid);
    assert!(gone.user_id.is_empty() && gone.session_id.is_empty());
    let bad = token_check_answer(None, true);
    assert!(!bad.valid);
    assert!(bad.user_id.is_empty());
}

#[test]
fn api_key_id_prefixes() {
    let (id, secret) = api_key_ids("1111", "2222");
    assert_eq!(id, "ak_1111");
    assert_eq!(secret, "sk_2222");
}

#[test]
fn operation_type_rows() {
    assert_eq!(operation_type_from_row("settlement").ok(), Some(BalanceOperationType::Settlement));
    match operation_type_from_row("bogus") {
        Err(Error::Internal(m)) => assert_eq!(m, "Invalid operation type: bogus"),
        _ => panic!("expected an internal error"),
    }
}

#[test]
fn batch_query_text() {
    let q = batch_get_sql(&[1, -2, 30], &["USDT".to_string(), "BTC".to_string()]).unwrap();
    assert_eq!(q, "SELECT * FROM accounts WHERE user_id IN (1,-2,30) AND asset IN ('USDT','BTC')");
    assert_eq!(batch_get_sql(&[], &["USDT".to_string()]), None);
    assert_eq!(batch_get_sql(&[1], &[]), None);
    let quoted = batch_get_sql(&[7], &["O'Brien".to_string(), "x') OR ('1'='1".to_string()]).unwrap();
    assert_eq!(quoted, "SELECT * FROM accounts WHERE user_id IN (7) AND asset IN ('O''Brien','x'') OR (''1''=''1')");
    let one = batch_get_sql(&[7], &["X".to_string()]).unwrap();
    assert_eq!(one, "SELECT * FROM accounts WHERE user_id IN (7) AND asset IN ('X')");
}

#[test]
fn register_answers() {
    let (s, r) = register_reply(CallOutcome::Answered("usr_1".to_string()));
    assert_eq!(s, 200);
    assert!(r.success);
    assert_eq!(r.user_id.as_deref(), Some("usr_1"));
    assert_eq!(r.message, "Registration successful. Please login.");
    let (s, r) = register_reply(CallOutcome::Failed(err("taken")));
    assert_eq!((s, r.success, r.message.as_str()), (400, false, "Registration failed: taken"));
    let (s, r) = register_reply(CallOutcome::Unreachable);
    assert_eq!((s, r.message.as_str()), (503, "Service unavailable"));
}

#[test]
fn logout_answers() {
    let (s, r) = logout_reply(None, CallOutcome::Answered(true));
    assert_eq!((s, r.success, r.message.as_str()), (401, false, "Unauthorized"));
    let (s, r) = logout_reply(Some("s".to_string()), CallOutcome::Answered(true));
    assert_eq!((s, r.success, r.message.as_str()), (200, true, "Logged out successfully"));
    let (s, r) = logout_reply(Some("s".to_string()), CallOutcome::Answered(false));
    assert_eq!((s, r.success, r.message.as_str()), (200, false, "Logout failed"));
    let (s, r) = logout_reply(Some("s".to_string()), CallOutcome::Failed(err("x")));
    assert_eq!((s, r.message.as_str()), (500, "Auth service error"));
    let (s, r) = logout_reply(Some("s".to_string()), CallOutcome::Unreachable);
    assert_eq!((s, r.message.as_str()), (503, "Auth service unavailable"));
}

#[test]
fn refresh_answers() {
    let (s, r) = refresh_reply(CallOutcome::Answered(("tok".to_string(), 3600)));
    assert_eq!(s, 200);
    assert_eq!(r.access_token.as_deref(), Some("tok"));
    assert_eq!(r.expires_in, Some(3600));
    assert_eq!(r.token_type.as_deref(), Some("Bearer"));
    assert!(r.message.is_none());
    let (s, r) = refresh_reply(CallOutcome::Failed(err("expired")));
    assert_eq!((s, r.message.as_deref()), (401, Some("Invalid or expired refresh token")));
    let (s, r) = refresh_reply(CallOutcome::Unreachable);
    assert_eq!((s, r.message.as_deref()), (503, Some("Auth service unavailable")));
}

#[test]
fn current_user_answers() {
    let u = UserResponse { id: "usr_1".to_string(), username: "alice".to_string(), email: "a@x".to_string() };
    assert!(matches!(current_user_reply(None, CallOutcome::Answered(Some(u.clone()))), CurrentUserReply::Unauthorized));
    match current_user_reply(Some("usr_1".to_string()), CallOutcome::Answered(Some(u))) {
        CurrentUserReply::Found(f) => assert_eq!(f.username, "alice"),
        _ => panic!("expected Found"),
    }
    assert!(matches!(current_user_reply(Some("u".to_string()), CallOutcome::Answered(None)), CurrentUserReply::NotFound));
    match current_user_reply(Some("u".to_string()), CallOutcome::Failed(err("boom"))) {
        CurrentUserReply::Failed(m) => assert_eq!(m, "boom"),
        _ => panic!("expected Failed"),
    }
    assert!(matches!(current_user_reply(Some("u".to_string()), CallOutcome::Unreachable), CurrentUserReply::Unavailable));
}

#[test]
fn order_listing_parameters() {
    assert_eq!(cancel_status(true), "cancelled");
    assert_eq!(cancel_status(false), "failed");
    assert_eq!(orders_page_size(None), 50);
    assert_eq!(orders_page_size(Some(20)), 20);
    assert_eq!(orders_market_filter(None), 0);
    assert_eq!(orders_market_filter(Some(9)), 9);
}

#[test]
fn fresh_api_key_ids() {
    let (id, secret) = new_api_key_ids();
    assert!(id.starts_with("ak_"));
    assert!(secret.starts_with("sk_"));
    assert_eq!(id.len(), 3 + 36);
    assert_eq!(secret.len(), 3 + 36);
    assert_ne!(id[3..], secret[3..]);
}
