use exchange_core::auth::{
    api_key_context, check_refresh, rehash_session_token, to_hex_lower, AuthContext, AuthServiceImpl, JwtClaims, Lifetime,
    RefreshRefusal,
};

fn claims(ttype: &str) -> JwtClaims {
    JwtClaims { sub: "u1".to_string(), sid: "s1".to_string(), exp: 10, iat: 0, ttype: ttype.to_string() }
}

#[test]
fn permissions_and_wildcard() {
    let ctx = AuthContext::new("u1".to_string(), "s1".to_string());
    assert!(ctx.permissions.is_empty());
    assert!(!ctx.has_permission("trade"));
    let ctx = ctx.with_permissions(vec!["read".to_string(), "trade".to_string()]);
    assert!(ctx.has_permission("trade"));
    assert!(!ctx.has_permission("withdraw"));
    let admin = AuthContext::new("u2".to_string(), "s2".to_string()).with_permissions(vec!["*".to_string()]);
    assert!(admin.has_permission("withdraw"));
    assert_eq!(admin.user_id, "u2");
    assert_eq!(admin.session_id, "s2");
}

#[test]
fn token_hash_is_lowercase_hex_sha256() {
    let h = AuthServiceImpl::<()>::hash_token("abc");
    assert_eq!(h, "ba7816bf8f01cfea414140de5dae2223b00361a396177a9cb410ff61f20015ad");
    let e = AuthServiceImpl::<()>::hash_token("");
    assert_eq!(e, "e3b0c44298fc1c149afbf4c8996fb92427ae41e4649b934ca495991b7852b855");
    assert_eq!(to_hex_lower(&[0x0a, 0x14, 0x1e]), "0a141e");
}

#[test]
fn claims_carry_expiry() {
    let svc = AuthServiceImpl::new(
        (),
        "secret".to_string(),
        Lifetime { secs: 3600, nanos: 500 },
        Lifetime { secs: 604800, nanos: 0 },
    );
    assert_eq!(svc.jwt_secret(), "secret");
    assert_eq!(svc.access_token_ttl_secs(), 3600);
    assert_eq!(svc.refresh_token_ttl_secs(), 604800);
    let a = svc.access_claims("u1", "s1", 1000);
    assert_eq!((a.sub.as_str(), a.sid.as_str(), a.iat, a.exp, a.ttype.as_str()), ("u1", "s1", 1000, 4600, "access"));
    let r = svc.refresh_claims("u1", "s1", 1000);
    assert_eq!((r.exp, r.ttype.as_str()), (605800, "refresh"));
}

#[test]
fn refresh_decisions() {
    assert_eq!(check_refresh(&claims("access"), Some(Some("h".to_string())), "h"), Err(RefreshRefusal::InvalidTokenType));
    assert_eq!(check_refresh(&claims("refresh"), None, "h"), Err(RefreshRefusal::SessionNotFound));
    assert_eq!(check_refresh(&claims("refresh"), Some(None), "h"), Err(RefreshRefusal::InvalidRefreshToken));
    assert_eq!(check_refresh(&claims("refresh"), Some(Some("x".to_string())), "h"), Err(RefreshRefusal::InvalidRefreshToken));
    assert_eq!(check_refresh(&claims("refresh"), Some(Some("h".to_string())), "h"), Ok(()));
}

#[test]
fn api_key_decision() {
    assert!(api_key_context("aa", "bb", "ak_1".to_string(), "u".to_string(), vec![]).is_none());
    let ctx = api_key_context("aa", "aa", "ak_1".to_string(), "u".to_string(), vec!["read".to_string()]).unwrap();
    assert_eq!(ctx.user_id, "u");
    assert_eq!(ctx.session_id, "ak_1");
    assert!(ctx.has_permission("read"));
}

#[test]
fn service_from_whole_seconds() {
    let svc = AuthServiceImpl::with_ttl_secs((), "k".to_string(), 60, 120);
    assert_eq!(svc.access_token_ttl_secs(), 60);
    assert_eq!(svc.refresh_token_ttl_secs(), 120);
    let a = svc.access_claims("u", "s", -100);
    assert_eq!((a.iat, a.exp), (-100, -40));
    let r = svc.refresh_claims("u", "s", 0);
    assert_eq!((r.exp, r.ttype.as_str()), (120, "refresh"));
}

#[test]
fn refresh_grants() {
    let svc = AuthServiceImpl::with_ttl_secs((), "k".to_string(), 900, 86400);
    assert_eq!(svc.access_expires_in(), 900);
    let token = "refresh-token-text";
    let stored = AuthServiceImpl::<()>::hash_token(token);
    let g = svc.refresh_grant(&claims("refresh"), Some(Some(stored.clone())), token, 1000).unwrap();
    assert_eq!((g.claims.sub.as_str(), g.claims.sid.as_str(), g.claims.ttype.as_str()), ("u1", "s1", "access"));
    assert_eq!((g.claims.iat, g.claims.exp, g.expires_in), (1000, 1900, 900));
    assert_eq!(svc.refresh_grant(&claims("access"), Some(Some(stored.clone())), token, 0).err(), Some(RefreshRefusal::InvalidTokenType));
    assert_eq!(svc.refresh_grant(&claims("refresh"), None, token, 0).err(), Some(RefreshRefusal::SessionNotFound));
    assert_eq!(svc.refresh_grant(&claims("refresh"), Some(Some(stored)), "other", 0).err(), Some(RefreshRefusal::InvalidRefreshToken));
    let mut h = String::from("old");
    rehash_session_token(&mut h, "abc");
    assert_eq!(h, "ba7816bf8f01cfea414140de5dae2223b00361a396177a9cb410ff61f20015ad");
}
