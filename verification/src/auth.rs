//! Authentication: who a request acts for, token claims, token hashing and
//! the decisions of the token and API-key checks.
use vstd::prelude::*;
use vstd::string::StringSliceAdditionalSpecFns;
use std::sync::Arc;
use sha2::Digest;
use crate::numtext::push_char;
use crate::strutil::str_eq;
use crate::gateway::is_uuid_text;

verus! {

/// The claims inside a JWT.
#[derive(Debug, Clone)]
pub struct JwtClaims {
    /// The user.
    pub sub: String,
    /// The session.
    pub sid: String,
    /// Expiry, Unix seconds.
    pub exp: i64,
    /// Issue time, Unix seconds.
    pub iat: i64,
    /// `"access"` or `"refresh"`.
    pub ttype: String,
}

/// Who a request acts for, and what it may do.
#[derive(Debug, Clone)]
pub struct AuthContext {
    pub user_id: String,
    pub session_id: String,
    pub permissions: Vec<String>,
}

/// Some permission in `perms` is `permission` itself or the wildcard `*`.
pub open spec fn grants(perms: Seq<String>, permission: Seq<char>) -> bool {
    exists|i: int| 0 <= i < perms.len() && (#[trigger] perms[i]@ == permission || perms[i]@ == "*"@)
}

/// A permission is granted when any entry of the list, wherever it
/// stands, is that permission or the wildcard `*`.
pub proof fn law_permission_found_anywhere(perms: Seq<String>, permission: Seq<char>, i: int)
    requires
        0 <= i < perms.len(),
        perms[i]@ == permission || perms[i]@ == "*"@,
    ensures
        grants(perms, permission),
{
}

/// A permission is refused when no entry is that permission or `*`.
pub proof fn law_permission_absent(perms: Seq<String>, permission: Seq<char>)
    requires
        forall|i: int| 0 <= i < perms.len() ==> perms[i]@ != permission && perms[i]@ != "*"@,
    ensures
        !grants(perms, permission),
{
}

/// Adding entries, before or after, never takes a permission away.
pub proof fn law_permission_kept_when_extended(
    perms: Seq<String>,
    permission: Seq<char>,
    before: Seq<String>,
    after: Seq<String>,
)
    requires
        grants(perms, permission),
    ensures
        grants(before + perms + after, permission),
{
    let i = choose|i: int|
        0 <= i < perms.len() && (#[trigger] perms[i]@ == permission || perms[i]@ == "*"@);
    let all = before + perms + after;
    assert(all[before.len() + i] == perms[i]);
    law_permission_found_anywhere(all, permission, before.len() + i);
}

impl AuthContext {
    /// A context with no permissions.
    pub fn new(user_id: String, session_id: String) -> (r: Self)
        ensures
            r.user_id == user_id,
            r.session_id == session_id,
            r.permissions@.len() == 0,
    {
        AuthContext { user_id, session_id, permissions: Vec::new() }
    }

    /// The same context with `permissions` in place of its permissions.
    pub fn with_permissions(self, permissions: Vec<String>) -> (r: Self)
        ensures
            r.user_id == self.user_id,
            r.session_id == self.session_id,
            r.permissions == permissions,
    {
        AuthContext { user_id: self.user_id, session_id: self.session_id, permissions }
    }

    /// Whether the context holds `permission` or the wildcard `*`.
    pub fn has_permission(&self, permission: &str) -> (r: bool)
        ensures
            r == grants(self.permissions@, permission@),
    {
        let n = self.permissions.len();
        let mut i: usize = 0;
        while i < n
            invariant
                n == self.permissions@.len(),
                i <= n,
                forall|j: int|
                    0 <= j < i ==> !(#[trigger] self.permissions@[j]@ == permission@
                        || self.permissions@[j]@ == "*"@),
            decreases n - i,
        {
            let p = self.permissions[i].as_str();
            if str_eq(p, permission) || str_eq(p, "*") {
                assert(self.permissions@[i as int]@ == p@);
                return true;
            }
            i = i + 1;
        }
        false
    }
}

// ---------- token hashing ----------

/// The SHA-256 digest of some bytes.
pub uninterp spec fn sha256_digest(data: Seq<u8>) -> Seq<u8>;

/// SHA-256 of `data` (`sha2::Sha256::digest`), a 32-byte digest.
#[verifier::external_body]
fn sha256(data: &[u8]) -> (r: Vec<u8>)
    ensures
        r@ == sha256_digest(data@),
        r@.len() == 32,
{
    sha2::Sha256::digest(data).to_vec()
}

/// A lowercase hexadecimal digit.
pub open spec fn hex_char(d: int) -> char {
    if d < 10 {
        crate::numtext::digit_char(d)
    } else if d == 10 {
        'a'
    } else if d == 11 {
        'b'
    } else if d == 12 {
        'c'
    } else if d == 13 {
        'd'
    } else if d == 14 {
        'e'
    } else {
        'f'
    }
}

/// Bytes as lowercase hexadecimal, two digits a byte, as `{:x}` prints a
/// digest.
pub open spec fn hex_lower(bytes: Seq<u8>) -> Seq<char>
    decreases bytes.len(),
{
    if bytes.len() == 0 {
        Seq::empty()
    } else {
        hex_lower(bytes.drop_last()).push(hex_char((bytes.last() / 16) as int)).push(
            hex_char((bytes.last() % 16) as int),
        )
    }
}

fn hex_digit(d: u8) -> (c: char)
    requires
        d < 16,
    ensures
        c == hex_char(d as int),
{
    if d < 10 {
        if d == 0 {
            '0'
        } else if d == 1 {
            '1'
        } else if d == 2 {
            '2'
        } else if d == 3 {
            '3'
        } else if d == 4 {
            '4'
        } else if d == 5 {
            '5'
        } else if d == 6 {
            '6'
        } else if d == 7 {
            '7'
        } else if d == 8 {
            '8'
        } else {
            '9'
        }
    } else if d == 10 {
        'a'
    } else if d == 11 {
        'b'
    } else if d == 12 {
        'c'
    } else if d == 13 {
        'd'
    } else if d == 14 {
        'e'
    } else {
        'f'
    }
}

/// Bytes as lowercase hexadecimal.
pub fn to_hex_lower(bytes: &[u8]) -> (r: String)
    ensures
        r@ == hex_lower(bytes@),
{
    let mut s = String::new();
    let n = bytes.len();
    let mut i: usize = 0;
    while i < n
        invariant
            n == bytes@.len(),
            i <= n,
            s@ == hex_lower(bytes@.take(i as int)),
        decreases n - i,
    {
        let b = bytes[i];
        push_char(&mut s, hex_digit(b / 16));
        push_char(&mut s, hex_digit(b % 16));
        assert(bytes@.take(i + 1).drop_last() =~= bytes@.take(i as int));
        i = i + 1;
    }
    assert(bytes@.take(n as int) =~= bytes@);
    s
}

// ---------- the token service ----------

/// The token service: signs and checks tokens with a shared secret, and
/// keeps sessions and API keys in a repository `R`.
pub struct AuthServiceImpl<R> {
    repo: Arc<R>,
    jwt_secret: String,
    access_token_ttl_secs: u64,
    refresh_token_ttl_secs: u64,
}

/// A span of time, as `std::time::Duration` holds it: whole seconds and the
/// nanoseconds past them.
#[derive(Debug, Clone, Copy, PartialEq, Eq, Structural)]
pub struct Lifetime {
    pub secs: u64,
    pub nanos: u32,
}

impl Lifetime {
    /// The whole seconds of the span (what `Duration::as_secs` gives).
    pub fn whole_seconds(&self) -> (r: u64)
        ensures
            r == self.secs,
    {
        self.secs
    }
}

/// The claims of a token issued at `now` that lives `ttl` seconds.
pub open spec fn is_claims(
    c: JwtClaims,
    user_id: Seq<char>,
    session_id: Seq<char>,
    now: i64,
    ttl: u64,
    ttype: Seq<char>,
) -> bool {
    &&& c.sub@ == user_id
    &&& c.sid@ == session_id
    &&& c.iat == now
    &&& c.exp == now + (ttl as i64)
    &&& c.ttype@ == ttype
}

/// Why a refresh request is refused.
#[derive(Debug, Clone, Copy, PartialEq, Eq, Structural)]
pub enum RefreshRefusal {
    /// The token is not a refresh token.
    InvalidTokenType,
    /// The token's session does not exist.
    SessionNotFound,
    /// The session holds another refresh token.
    InvalidRefreshToken,
}

impl<R> AuthServiceImpl<R> {
    pub closed spec fn spec_secret(&self) -> Seq<char> {
        self.jwt_secret@
    }

    pub closed spec fn spec_repo(&self) -> R {
        *self.repo
    }

    pub closed spec fn spec_access_ttl(&self) -> u64 {
        self.access_token_ttl_secs
    }

    pub closed spec fn spec_refresh_ttl(&self) -> u64 {
        self.refresh_token_ttl_secs
    }

    /// A service over `repo` that signs with `jwt_secret` and issues tokens
    /// living the whole seconds of the given lifetimes.
    pub fn new(
        repo: R,
        jwt_secret: String,
        access_token_ttl: Lifetime,
        refresh_token_ttl: Lifetime,
    ) -> (r: Self)
        ensures
            r.spec_repo() == repo,
            r.spec_secret() == jwt_secret@,
            r.spec_access_ttl() == access_token_ttl.secs,
            r.spec_refresh_ttl() == refresh_token_ttl.secs,
    {
        let access = access_token_ttl.whole_seconds();
        let refresh = refresh_token_ttl.whole_seconds();
        Self::with_ttl_secs(repo, jwt_secret, access, refresh)
    }

    /// A service over `repo` that signs with `jwt_secret` and issues tokens
    /// living `access_ttl_secs` (access) and `refresh_ttl_secs` (refresh)
    /// seconds.
    pub fn with_ttl_secs(repo: R, jwt_secret: String, access_ttl_secs: u64, refresh_ttl_secs: u64) -> (r:
        Self)
        ensures
            r.spec_repo() == repo,
            r.spec_secret() == jwt_secret@,
            r.spec_access_ttl() == access_ttl_secs,
            r.spec_refresh_ttl() == refresh_ttl_secs,
    {
        AuthServiceImpl {
            repo: Arc::new(repo),
            jwt_secret,
            access_token_ttl_secs: access_ttl_secs,
            refresh_token_ttl_secs: refresh_ttl_secs,
        }
    }

    /// The repository of sessions and API keys.
    pub fn repo(&self) -> (r: &R)
        ensures
            *r == self.spec_repo(),
    {
        &*self.repo
    }

    /// The signing secret.
    pub fn jwt_secret(&self) -> (r: &str)
        ensures
            r@ == self.spec_secret(),
    {
        self.jwt_secret.as_str()
    }

    /// How many seconds an access token lives (the `expires_in` answered at
    /// login).
    pub fn access_token_ttl_secs(&self) -> (r: u64)
        ensures
            r == self.spec_access_ttl(),
    {
        self.access_token_ttl_secs
    }

    /// How many seconds a refresh token lives.
    pub fn refresh_token_ttl_secs(&self) -> (r: u64)
        ensures
            r == self.spec_refresh_ttl(),
    {
        self.refresh_token_ttl_secs
    }

    /// A token as stored: the lowercase hex SHA-256 of its text.
    pub fn hash_token(token: &str) -> (r: String)
        ensures
            r@ == hex_lower(sha256_digest(token.spec_bytes())),
            r@.len() == 64,
    {
        let d = sha256(token.as_bytes());
        let r = to_hex_lower(d.as_slice());
        proof {
            lemma_hex_len(d@);
        }
        r
    }

    /// The claims of an access token for `user_id` in `session_id`, issued
    /// at `now` (Unix seconds).
    pub fn access_claims(&self, user_id: &str, session_id: &str, now: i64) -> (r: JwtClaims)
        requires
            i64::MIN <= now + (self.spec_access_ttl() as i64) <= i64::MAX,
        ensures
            is_claims(r, user_id@, session_id@, now, self.spec_access_ttl(), "access"@),
    {
        JwtClaims {
            sub: String::from_str(user_id),
            sid: String::from_str(session_id),
            exp: now + self.access_token_ttl_secs as i64,
            iat: now,
            ttype: String::from_str("access"),
        }
    }

    /// The claims of a refresh token for `user_id` in `session_id`, issued at
    /// `now` (Unix seconds).
    pub fn refresh_claims(&self, user_id: &str, session_id: &str, now: i64) -> (r: JwtClaims)
        requires
            i64::MIN <= now + (self.spec_refresh_ttl() as i64) <= i64::MAX,
        ensures
            is_claims(r, user_id@, session_id@, now, self.spec_refresh_ttl(), "refresh"@),
    {
        JwtClaims {
            sub: String::from_str(user_id),
            sid: String::from_str(session_id),
            exp: now + self.refresh_token_ttl_secs as i64,
            iat: now,
            ttype: String::from_str("refresh"),
        }
    }
}

/// What an accepted refresh issues: the claims of the new access token and
/// the `expires_in` answered with it.
#[derive(Debug, Clone)]
pub struct RefreshGrant {
    pub claims: JwtClaims,
    pub expires_in: i64,
}

/// The verdict on a refresh request: the decoded token's type, the
/// session's stored refresh-token hash (`None` when there is no session) and
/// the hash of the presented token.
pub open spec fn refresh_verdict(
    ttype: Seq<char>,
    session_refresh_hash: Option<Option<String>>,
    presented_hash: Seq<char>,
) -> Result<(), RefreshRefusal> {
    if ttype != "refresh"@ {
        Err(RefreshRefusal::InvalidTokenType)
    } else {
        match session_refresh_hash {
            None => Err(RefreshRefusal::SessionNotFound),
            Some(h) => match h {
                Some(s) => if s@ == presented_hash {
                    Ok(())
                } else {
                    Err(RefreshRefusal::InvalidRefreshToken)
                },
                None => Err(RefreshRefusal::InvalidRefreshToken),
            },
        }
    }
}

impl<R> AuthServiceImpl<R> {
    /// The `expires_in` answered with an access token: its lifetime in whole
    /// seconds, cast as `as i64` casts it.
    pub fn access_expires_in(&self) -> (r: i64)
        ensures
            r == self.spec_access_ttl() as i64,
    {
        self.access_token_ttl_secs as i64
    }

    /// A token refresh at `now`: the presented token (already decoded to
    /// `claims`) is checked against its session; when accepted, a new
    /// access token is issued for the same user and session, answered with
    /// the access lifetime.
    pub fn refresh_grant(
        &self,
        claims: &JwtClaims,
        session_refresh_hash: Option<Option<String>>,
        presented_token: &str,
        now: i64,
    ) -> (r: Result<RefreshGrant, RefreshRefusal>)
        requires
            i64::MIN <= now + (self.spec_access_ttl() as i64) <= i64::MAX,
        ensures
            match refresh_verdict(
                claims.ttype@,
                session_refresh_hash,
                hex_lower(sha256_digest(presented_token.spec_bytes())),
            ) {
                Err(e) => r == Err::<RefreshGrant, RefreshRefusal>(e),
                Ok(_) => r matches Ok(g) && is_claims(
                    g.claims,
                    claims.sub@,
                    claims.sid@,
                    now,
                    self.spec_access_ttl(),
                    "access"@,
                ) && g.expires_in == self.spec_access_ttl() as i64,
            },
    {
        let presented_hash = Self::hash_token(presented_token);
        match check_refresh(claims, session_refresh_hash, presented_hash.as_str()) {
            Err(e) => Err(e),
            Ok(()) => {
                let c = self.access_claims(claims.sub.as_str(), claims.sid.as_str(), now);
                Ok(RefreshGrant { claims: c, expires_in: self.access_expires_in() })
            },
        }
    }
}

/// The session's token hash once a new access token is issued for it: the
/// hash of that token.
pub fn rehash_session_token(token_hash: &mut String, access_token: &str)
    ensures
        final(token_hash)@ == hex_lower(sha256_digest(access_token.spec_bytes())),
{
    *token_hash = AuthServiceImpl::<()>::hash_token(access_token);
}

proof fn lemma_hex_len(b: Seq<u8>)
    ensures
        hex_lower(b).len() == 2 * b.len(),
    decreases b.len(),
{
    if b.len() > 0 {
        lemma_hex_len(b.drop_last());
    }
}

/// Whether a refresh request goes on: the decoded claims must be of a
/// refresh token, its session must exist (`session_refresh_hash` is `None`
/// when it does not; else the refresh-token hash the session holds), and the
/// session must hold the hash of the presented token.
pub fn check_refresh(
    claims: &JwtClaims,
    session_refresh_hash: Option<Option<String>>,
    presented_hash: &str,
) -> (r: Result<(), RefreshRefusal>)
    ensures
        r == refresh_verdict(claims.ttype@, session_refresh_hash, presented_hash@),
        claims.ttype@ != "refresh"@ ==> r == Err::<(), RefreshRefusal>(
            RefreshRefusal::InvalidTokenType,
        ),
        claims.ttype@ == "refresh"@ ==> match session_refresh_hash {
            None => r == Err::<(), RefreshRefusal>(RefreshRefusal::SessionNotFound),
            Some(h) => match h {
                Some(s) => if s@ == presented_hash@ {
                    r == Ok::<(), RefreshRefusal>(())
                } else {
                    r == Err::<(), RefreshRefusal>(RefreshRefusal::InvalidRefreshToken)
                },
                None => r == Err::<(), RefreshRefusal>(RefreshRefusal::InvalidRefreshToken),
            },
        },
{
    if !str_eq(claims.ttype.as_str(), "refresh") {
        return Err(RefreshRefusal::InvalidTokenType);
    }
    match session_refresh_hash {
        None => Err(RefreshRefusal::SessionNotFound),
        Some(h) => match h {
            Some(s) => if str_eq(s.as_str(), presented_hash) {
                Ok(())
            } else {
                Err(RefreshRefusal::InvalidRefreshToken)
            },
            None => Err(RefreshRefusal::InvalidRefreshToken),
        },
    }
}

/// The context an API key grants: `Some` exactly when the presented secret's
/// hash is the stored one; then the key's user, the key's id as session, and
/// the key's permissions.
pub fn api_key_context(
    stored_secret_hash: &str,
    presented_secret_hash: &str,
    key_id: String,
    user_id: String,
    permissions: Vec<String>,
) -> (r: Option<AuthContext>)
    ensures
        stored_secret_hash@ != presented_secret_hash@ ==> r is None,
        stored_secret_hash@ == presented_secret_hash@ ==> r == Some(
            AuthContext { user_id: user_id, session_id: key_id, permissions: permissions },
        ),
{
    if !str_eq(presented_secret_hash, stored_secret_hash) {
        return None;
    }
    Some(AuthContext::new(user_id, key_id).with_permissions(permissions))
}

} // verus!

verus! {

/// What the token check answers.
#[derive(Debug, Clone)]
pub struct TokenCheck {
    pub valid: bool,
    pub user_id: String,
    pub session_id: String,
}

/// The answer to a token check: valid, with the token's user and session,
/// exactly when the token decoded and its session exists; else not valid,
/// with empty ids. (The session is looked up only for a decoded token.)
pub fn token_check_answer(claims: Option<JwtClaims>, session_exists: bool) -> (r: TokenCheck)
    ensures
        match claims {
            Some(c) => if session_exists {
                r.valid && r.user_id == c.sub && r.session_id == c.sid
            } else {
                !r.valid && r.user_id@.len() == 0 && r.session_id@.len() == 0
            },
            None => !r.valid && r.user_id@.len() == 0 && r.session_id@.len() == 0,
        },
{
    match claims {
        Some(c) => if session_exists {
            TokenCheck { valid: true, user_id: c.sub, session_id: c.sid }
        } else {
            TokenCheck { valid: false, user_id: String::new(), session_id: String::new() }
        },
        None => TokenCheck { valid: false, user_id: String::new(), session_id: String::new() },
    }
}

/// The id and secret of a new API key: `ak_` and `sk_` before two UUID
/// texts.
pub fn api_key_ids(id_uuid: &str, secret_uuid: &str) -> (r: (String, String))
    ensures
        r.0@ == "ak_"@ + id_uuid@,
        r.1@ == "sk_"@ + secret_uuid@,
{
    (String::from_str("ak_").concat(id_uuid), String::from_str("sk_").concat(secret_uuid))
}

/// The id and secret of a new API key, each from a fresh random UUID: `ak_`
/// and `sk_` before the UUID's text.
pub fn new_api_key_ids() -> (r: (String, String))
    ensures
        r.0@.len() == 39 && r.0@.take(3) == "ak_"@ && is_uuid_text(r.0@.skip(3)),
        r.1@.len() == 39 && r.1@.take(3) == "sk_"@ && is_uuid_text(r.1@.skip(3)),
{
    let id_uuid = crate::gateway::random_uuid_text();
    let secret_uuid = crate::gateway::random_uuid_text();
    let r = api_key_ids(id_uuid.as_str(), secret_uuid.as_str());
    proof {
        reveal_strlit("ak_");
        reveal_strlit("sk_");
        assert(r.0@.take(3) =~= "ak_"@);
        assert(r.1@.take(3) =~= "sk_"@);
        assert(r.0@.skip(3) =~= id_uuid@);
        assert(r.1@.skip(3) =~= secret_uuid@);
    }
    r
}

} // verus!
