//! The decisions of the API gateway's handlers.
//!
//! A handler reads the request, calls backend services and answers. The
//! calls happen outside; here are the steps between them: what to call next
//! given what the previous call answered, and the answer to give.
use vstd::prelude::*;
use vstd::string::StringSliceAdditionalSpecFns;
use crate::numtext::{
    int_to_decimal, lemma_decimal_roundtrip, lemma_digits_shape, nat_to_digits, parse_i64_range,
    parse_i64_spec, push_char,
};
use crate::strutil::{str_eq, str_starts_with};

verus! {

// ---------- text helpers ----------

/// `s` with every occurrence of `pat` removed, scanning left to right
/// (`s.replace(pat, "")`).
pub open spec fn remove_all(s: Seq<char>, pat: Seq<char>) -> Seq<char>
    recommends
        pat.len() > 0,
    decreases s.len(),
{
    if s.len() == 0 || pat.len() == 0 {
        s
    } else if pat.len() <= s.len() && s.take(pat.len() as int) == pat {
        remove_all(s.skip(pat.len() as int), pat)
    } else {
        seq![s[0]] + remove_all(s.skip(1), pat)
    }
}

/// What `s.parse::<i64>().unwrap_or(0)` gives.
pub open spec fn i64_or_zero(chars: Seq<char>) -> i64 {
    match parse_i64_spec(vstd::utf8::encode_utf8(chars)) {
        Some(v) => v,
        None => 0,
    }
}

/// `s` without its `-` characters.
pub open spec fn without_hyphens(s: Seq<char>) -> Seq<char>
    decreases s.len(),
{
    if s.len() == 0 {
        s
    } else if s[0] == '-' {
        without_hyphens(s.skip(1))
    } else {
        seq![s[0]] + without_hyphens(s.skip(1))
    }
}

/// The first `n` characters of `s`, or all of it when it is shorter.
pub open spec fn take_up_to(s: Seq<char>, n: nat) -> Seq<char> {
    if s.len() <= n {
        s
    } else {
        s.take(n as int)
    }
}

/// `s.parse::<i64>().unwrap_or(0)`.
pub fn parse_i64_or_zero(s: &str) -> (r: i64)
    ensures
        r == i64_or_zero(s@),
{
    let b = s.as_bytes();
    let n = b.len();
    assert(b@.subrange(0, n as int) =~= b@);
    match parse_i64_range(b, 0, n) {
        Some(v) => v,
        None => 0,
    }
}

/// `s.replace(pat, "")`.
pub fn remove_all_of(s: &str, pat: &str) -> (r: String)
    requires
        pat@.len() > 0,
    ensures
        r@ == remove_all(s@, pat@),
{
    let n = s.unicode_len();
    let m = pat.unicode_len();
    let mut out = String::new();
    let mut i: usize = 0;
    assert(s@.skip(0) =~= s@);
    assert(out@ + remove_all(s@.skip(0), pat@) =~= remove_all(s@, pat@));
    while i < n
        invariant
            n == s@.len(),
            m == pat@.len(),
            m > 0,
            i <= n,
            out@ + remove_all(s@.skip(i as int), pat@) == remove_all(s@, pat@),
        decreases n - i,
    {
        let ghost rest = s@.skip(i as int);
        let mut matched = m <= n - i;
        if matched {
            let mut j: usize = 0;
            while j < m
                invariant
                    n == s@.len(),
                    m == pat@.len(),
                    i + m <= n,
                    j <= m,
                    rest == s@.skip(i as int),
                    matched ==> forall|t: int| 0 <= t < j ==> s@[i + t] == pat@[t],
                    !matched ==> rest.take(m as int) != pat@,
                decreases m - j,
            {
                if s.get_char(i + j) != pat.get_char(j) {
                    assert(rest.take(m as int)[j as int] == s@[i + j]);
                    matched = false;
                }
                j = j + 1;
            }
            if matched {
                assert(rest.take(m as int) =~= pat@);
            }
        }
        if matched {
            assert(rest.take(m as int) == pat@);
            assert(rest.skip(m as int) =~= s@.skip(i + m));
            assert(remove_all(rest, pat@) == remove_all(rest.skip(m as int), pat@));
            i = i + m;
        } else {
            let c = s.get_char(i);
            assert(rest.skip(1) =~= s@.skip(i + 1));
            assert(rest[0] == c);
            assert(remove_all(rest, pat@) == seq![c] + remove_all(rest.skip(1), pat@));
            let ghost old_out = out@;
            push_char(&mut out, c);
            assert(old_out + (seq![c] + remove_all(rest.skip(1), pat@)) =~= out@ + remove_all(
                s@.skip(i + 1),
                pat@,
            ));
            i = i + 1;
        }
    }
    assert(s@.skip(n as int) =~= Seq::<char>::empty());
    assert(out@ + Seq::<char>::empty() =~= out@);
    out
}

/// The first `n` characters of `s` that are not `-`
/// (`s.replace("-", "").chars().take(n)`).
pub fn hyphenless_prefix(s: &str, n: usize) -> (r: String)
    ensures
        r@ == take_up_to(without_hyphens(s@), n as nat),
{
    let len = s.unicode_len();
    let mut out = String::new();
    let mut count: usize = 0;
    let mut i: usize = 0;
    while i < len && count < n
        invariant
            len == s@.len(),
            i <= len,
            count == out@.len(),
            count <= n,
            out@ == without_hyphens(s@.take(i as int)),
        decreases len - i,
    {
        let c = s.get_char(i);
        proof {
            lemma_without_hyphens_push(s@.take(i as int), c);
            assert(s@.take(i + 1) =~= s@.take(i as int).push(c));
        }
        if c != '-' {
            push_char(&mut out, c);
            count = count + 1;
        }
        i = i + 1;
    }
    proof {
        if count < n {
            assert(s@.take(len as int) =~= s@);
        } else {
            lemma_without_hyphens_prefix(s@, i as int);
        }
    }
    out
}

proof fn lemma_without_hyphens_push(s: Seq<char>, c: char)
    ensures
        without_hyphens(s.push(c)) == if c == '-' {
            without_hyphens(s)
        } else {
            without_hyphens(s).push(c)
        },
    decreases s.len(),
{
    if s.len() == 0 {
        assert(s.push(c).skip(1) =~= Seq::<char>::empty());
        assert(without_hyphens(Seq::<char>::empty()) == Seq::<char>::empty());
        if c != '-' {
            assert(seq![c] + Seq::<char>::empty() =~= Seq::<char>::empty().push(c));
        }
    } else {
        let t = s.push(c);
        assert(t[0] == s[0]);
        assert(t.skip(1) =~= s.skip(1).push(c));
        lemma_without_hyphens_push(s.skip(1), c);
        if s[0] != '-' && c != '-' {
            assert(seq![s[0]] + without_hyphens(s.skip(1)).push(c) =~= (seq![s[0]]
                + without_hyphens(s.skip(1))).push(c));
        }
    }
}

proof fn lemma_without_hyphens_append(a: Seq<char>, b: Seq<char>)
    ensures
        without_hyphens(a + b) == without_hyphens(a) + without_hyphens(b),
    decreases a.len(),
{
    if a.len() == 0 {
        assert(a + b =~= b);
        assert(without_hyphens(a) + without_hyphens(b) =~= without_hyphens(b));
    } else {
        assert((a + b)[0] == a[0]);
        assert((a + b).skip(1) =~= a.skip(1) + b);
        lemma_without_hyphens_append(a.skip(1), b);
        if a[0] != '-' {
            assert(seq![a[0]] + (without_hyphens(a.skip(1)) + without_hyphens(b)) =~= (seq![a[0]]
                + without_hyphens(a.skip(1))) + without_hyphens(b));
        }
    }
}

/// Once the first `k` characters give `n` kept characters, the rest does not
/// change the first `n`.
proof fn lemma_without_hyphens_prefix(s: Seq<char>, k: int)
    requires
        0 <= k <= s.len(),
    ensures
        take_up_to(without_hyphens(s), without_hyphens(s.take(k)).len()) == without_hyphens(
            s.take(k),
        ),
{
    lemma_without_hyphens_append(s.take(k), s.skip(k));
    assert(s.take(k) + s.skip(k) =~= s);
    let p = without_hyphens(s.take(k));
    let w = without_hyphens(s);
    assert(w.take(p.len() as int) =~= p);
}

/// What a string gives lowercased (`str::to_lowercase`).
pub uninterp spec fn lowercase_of(s: Seq<char>) -> Seq<char>;

/// What a string gives uppercased (`str::to_uppercase`).
pub uninterp spec fn uppercase_of(s: Seq<char>) -> Seq<char>;

/// The lowercase of an ASCII character: `A`..`Z` become `a`..`z`, the
/// rest stay.
pub open spec fn ascii_lower(c: char) -> char {
    if 'A' <= c && c <= 'Z' {
        ((c as u32) + 32) as char
    } else {
        c
    }
}

/// The uppercase of an ASCII character: `a`..`z` become `A`..`Z`, the
/// rest stay.
pub open spec fn ascii_upper(c: char) -> char {
    if 'a' <= c && c <= 'z' {
        ((c as u32) - 32) as char
    } else {
        c
    }
}

/// `s.to_lowercase()`: the Unicode lowercase mapping, named as a whole; for
/// ASCII text it changes the case of the letters one by one, as the std
/// documentation of case mapping says of ASCII.
#[verifier::external_body]
fn to_lowercase(s: &str) -> (r: String)
    ensures
        r@ == lowercase_of(s@),
        vstd::utf8::is_ascii_chars(s@) ==> r@ == Seq::new(s@.len(), |i: int| ascii_lower(s@[i])),
{
    s.to_lowercase()
}

/// `s.to_uppercase()`: the Unicode uppercase mapping, named as a whole; for
/// ASCII text it changes the case of the letters one by one.
#[verifier::external_body]
fn to_uppercase(s: &str) -> (r: String)
    ensures
        r@ == uppercase_of(s@),
        vstd::utf8::is_ascii_chars(s@) ==> r@ == Seq::new(s@.len(), |i: int| ascii_upper(s@[i])),
{
    s.to_uppercase()
}

/// A lowercase hexadecimal digit.
pub open spec fn is_lower_hex(c: char) -> bool {
    ('0' <= c && c <= '9') || ('a' <= c && c <= 'f')
}

/// The hyphenated text of a UUID: 36 characters, `-` at positions 8, 13, 18
/// and 23, lowercase hexadecimal digits elsewhere.
pub open spec fn is_uuid_text(s: Seq<char>) -> bool {
    &&& s.len() == 36
    &&& forall|i: int|
        0 <= i < 36 ==> if i == 8 || i == 13 || i == 18 || i == 23 {
            #[trigger] s[i] == '-'
        } else {
            is_lower_hex(s[i])
        }
}

/// A random version-4 UUID as text (`uuid::Uuid::new_v4().to_string()`).
/// The value depends on chance; the contract states only the shape that
/// `Display` writes for every UUID (hyphenated lowercase hexadecimal).
#[verifier::external_body]
pub(crate) fn random_uuid_text() -> (r: String)
    ensures
        is_uuid_text(r@),
{
    uuid::Uuid::new_v4().to_string()
}

/// How many of the hyphens of a UUID text come before position `i`.
spec fn uuid_hyphens_before(i: int) -> int {
    (if i > 8 { 1int } else { 0int }) + (if i > 13 { 1int } else { 0int }) + (if i > 18 {
        1int
    } else {
        0int
    }) + (if i > 23 { 1int } else { 0int })
}

proof fn lemma_uuid_prefix_hyphenless(u: Seq<char>, i: int)
    requires
        is_uuid_text(u),
        0 <= i <= 36,
    ensures
        without_hyphens(u.take(i)).len() == i - uuid_hyphens_before(i),
        forall|j: int|
            0 <= j < without_hyphens(u.take(i)).len() ==> is_lower_hex(
                #[trigger] without_hyphens(u.take(i))[j],
            ),
    decreases i,
{
    if i == 0 {
        assert(u.take(0) =~= Seq::<char>::empty());
    } else {
        lemma_uuid_prefix_hyphenless(u, i - 1);
        let c = u[i - 1];
        assert(u.take(i) =~= u.take(i - 1).push(c));
        lemma_without_hyphens_push(u.take(i - 1), c);
        if i - 1 == 8 || i - 1 == 13 || i - 1 == 18 || i - 1 == 23 {
            assert(c == '-');
        } else {
            assert(is_lower_hex(c));
            let w = without_hyphens(u.take(i - 1));
            assert forall|j: int| 0 <= j < w.push(c).len() implies is_lower_hex(
                #[trigger] w.push(c)[j],
            ) by {
                if j < w.len() {
                    assert(w.push(c)[j] == w[j]);
                }
            }
        }
    }
}

/// A UUID text without its hyphens is 32 lowercase hexadecimal digits.
pub proof fn lemma_uuid_hyphenless(u: Seq<char>)
    requires
        is_uuid_text(u),
    ensures
        without_hyphens(u).len() == 32,
        forall|j: int| 0 <= j < 32 ==> is_lower_hex(#[trigger] without_hyphens(u)[j]),
{
    lemma_uuid_prefix_hyphenless(u, 36);
    assert(u.take(36) =~= u);
}

// ---------- user ids ----------

/// A user id such as `"usr_42"` as a number: `"usr_"` removed, then parsed;
/// 0 when that fails.
pub fn parse_user_id_i64(user_id: &str) -> (r: i64)
    ensures
        r == i64_or_zero(remove_all(user_id@, "usr_"@)),
{
    proof {
        reveal_strlit("usr_");
    }
    let s = remove_all_of(user_id, "usr_");
    parse_i64_or_zero(s.as_str())
}

/// The authenticated user id, or `"unknown"` when the request carries none.
pub fn user_id_or_unknown(user_id: Option<String>) -> (r: String)
    ensures
        match user_id {
            Some(u) => r == u,
            None => r@ == "unknown"@,
        },
{
    match user_id {
        Some(u) => u,
        None => String::from_str("unknown"),
    }
}

/// Removing a pattern from a text that never contains the pattern's first
/// character leaves the text as it is.
proof fn lemma_remove_absent(s: Seq<char>, pat: Seq<char>)
    requires
        pat.len() > 0,
        forall|i: int| 0 <= i < s.len() ==> s[i] != pat[0],
    ensures
        remove_all(s, pat) == s,
    decreases s.len(),
{
    if s.len() > 0 {
        if pat.len() <= s.len() {
            assert(s.take(pat.len() as int)[0] == s[0]);
        }
        lemma_remove_absent(s.skip(1), pat);
        assert(seq![s[0]] + s.skip(1) =~= s);
    }
}

/// A user id written `usr_` and then a number converts back to that
/// number, for every `i64`.
pub proof fn law_user_id_roundtrip(n: i64)
    ensures
        i64_or_zero(remove_all("usr_"@ + int_to_decimal(n as int), "usr_"@)) == n,
{
    reveal_strlit("usr_");
    let pre = "usr_"@;
    let d = int_to_decimal(n as int);
    let s = pre + d;
    assert(s.take(4) =~= pre);
    assert(s.skip(4) =~= d);
    assert(remove_all(s, pre) == remove_all(d, pre));
    let m: nat = if n < 0 { (-(n as int)) as nat } else { n as nat };
    lemma_digits_shape(m);
    let ds = nat_to_digits(m);
    assert forall|i: int| 0 <= i < d.len() implies d[i] != pre[0] by {
        if n < 0 {
            if i > 0 {
                assert(d[i] == ds[i - 1]);
            }
        } else {
            assert(d[i] == ds[i]);
        }
    }
    lemma_remove_absent(d, pre);
    lemma_decimal_roundtrip(n);
}

// ---------- authentication middleware ----------

/// Paths that need no token.
pub open spec fn is_public_path_spec(path: Seq<char>) -> bool {
    let ps = seq![
        "/health"@,
        "/ready"@,
        "/api/v1/market"@,
        "/api/v1/users/login"@,
        "/api/v1/users/register"@,
    ];
    exists|i: int| 0 <= i < ps.len() && #[trigger] ps[i].len() <= path.len() && path.take(
        ps[i].len() as int,
    ) == ps[i]
}

/// Whether a path is public: it begins with `/health`, `/ready`,
/// `/api/v1/market`, `/api/v1/users/login` or `/api/v1/users/register`.
pub fn is_public_path(path: &str) -> (r: bool)
    ensures
        r == is_public_path_spec(path@),
{
    let r = str_starts_with(path, "/health") || str_starts_with(path, "/ready")
        || str_starts_with(path, "/api/v1/market") || str_starts_with(path, "/api/v1/users/login")
        || str_starts_with(path, "/api/v1/users/register");
    proof {
        let ps = seq![
            "/health"@,
            "/ready"@,
            "/api/v1/market"@,
            "/api/v1/users/login"@,
            "/api/v1/users/register"@,
        ];
        assert(ps[0] == "/health"@);
        assert(ps[1] == "/ready"@);
        assert(ps[2] == "/api/v1/market"@);
        assert(ps[3] == "/api/v1/users/login"@);
        assert(ps[4] == "/api/v1/users/register"@);
    }
    r
}

/// The public paths: every path under `/health`, `/ready`,
/// `/api/v1/market`, `/api/v1/users/login` or `/api/v1/users/register` needs
/// no token, so that one can log in and register without one.
pub proof fn law_public_paths(rest: Seq<char>)
    ensures
        is_public_path_spec("/health"@ + rest),
        is_public_path_spec("/ready"@ + rest),
        is_public_path_spec("/api/v1/market"@ + rest),
        is_public_path_spec("/api/v1/users/login"@ + rest),
        is_public_path_spec("/api/v1/users/register"@ + rest),
{
    reveal_strlit("/health");
    reveal_strlit("/ready");
    reveal_strlit("/api/v1/market");
    reveal_strlit("/api/v1/users/login");
    reveal_strlit("/api/v1/users/register");
    let ps = seq![
        "/health"@,
        "/ready"@,
        "/api/v1/market"@,
        "/api/v1/users/login"@,
        "/api/v1/users/register"@,
    ];
    assert forall|i: int| 0 <= i < 5 implies (#[trigger] ps[i] + rest).take(ps[i].len() as int)
        == ps[i] by {
        assert((ps[i] + rest).take(ps[i].len() as int) =~= ps[i]);
    }
    assert(ps[0].len() <= (ps[0] + rest).len());
    assert(ps[1].len() <= (ps[1] + rest).len());
    assert(ps[2].len() <= (ps[2] + rest).len());
    assert(ps[3].len() <= (ps[3] + rest).len());
    assert(ps[4].len() <= (ps[4] + rest).len());
}

/// The order endpoints are not public: every path under `/api/v1/orders`
/// needs a token.
pub proof fn law_order_paths_need_token(rest: Seq<char>)
    ensures
        !is_public_path_spec("/api/v1/orders"@ + rest),
{
    reveal_strlit("/health");
    reveal_strlit("/ready");
    reveal_strlit("/api/v1/market");
    reveal_strlit("/api/v1/users/login");
    reveal_strlit("/api/v1/users/register");
    reveal_strlit("/api/v1/orders");
    let path = "/api/v1/orders"@ + rest;
    let ps = seq![
        "/health"@,
        "/ready"@,
        "/api/v1/market"@,
        "/api/v1/users/login"@,
        "/api/v1/users/register"@,
    ];
    assert forall|i: int| 0 <= i < ps.len() && #[trigger] ps[i].len() <= path.len() implies path.take(
        ps[i].len() as int,
    ) != ps[i] by {
        if i <= 1 {
            assert(path.take(ps[i].len() as int)[1] == 'a');
            assert(ps[i][1] != 'a');
        } else {
            assert(path.take(ps[i].len() as int)[8] == 'o');
            assert(ps[i][8] != 'o');
        }
    }
}

/// The token of an `Authorization: Bearer <token>` header.
pub open spec fn bearer_token_spec(header: Seq<char>) -> Option<Seq<char>> {
    if "Bearer "@.len() <= header.len() && header.take("Bearer "@.len() as int) == "Bearer "@ {
        Some(header.skip("Bearer "@.len() as int))
    } else {
        None
    }
}

/// The token of a `Bearer` authorization header; `None` for any other
/// header.
pub fn bearer_token(header: &str) -> (r: Option<String>)
    ensures
        match bearer_token_spec(header@) {
            Some(t) => r matches Some(s) && s@ == t,
            None => r is None,
        },
{
    if str_starts_with(header, "Bearer ") {
        proof {
            reveal_strlit("Bearer ");
        }
        let n = header.unicode_len();
        let t = header.substring_char(7, n);
        assert(t@ =~= header@.skip("Bearer "@.len() as int));
        Some(String::from_str(t))
    } else {
        None
    }
}

/// The answer the middleware gives to a request it stops.
#[derive(Debug, Clone, Copy, PartialEq, Eq, Structural)]
pub enum AuthRejection {
    /// 401: no `Bearer` header.
    MissingHeader,
    /// 401: the token was refused, or the check failed.
    InvalidToken,
    /// 503: the authentication service could not be reached.
    ServiceUnavailable,
}

impl AuthRejection {
    pub open spec fn spec_status(self) -> u16 {
        match self {
            AuthRejection::ServiceUnavailable => 503,
            _ => 401,
        }
    }

    /// The HTTP status of the answer.
    pub fn status(&self) -> (r: u16)
        ensures
            r == self.spec_status(),
    {
        match self {
            AuthRejection::ServiceUnavailable => 503,
            _ => 401,
        }
    }

    pub open spec fn spec_message(self) -> Seq<char> {
        match self {
            AuthRejection::MissingHeader => "Missing or invalid authorization header"@,
            AuthRejection::InvalidToken => "Invalid or expired token"@,
            AuthRejection::ServiceUnavailable => "Authentication service unavailable"@,
        }
    }

    /// The error text of the answer.
    pub fn message(&self) -> (r: &'static str)
        ensures
            r@ == self.spec_message(),
    {
        match self {
            AuthRejection::MissingHeader => "Missing or invalid authorization header",
            AuthRejection::InvalidToken => "Invalid or expired token",
            AuthRejection::ServiceUnavailable => "Authentication service unavailable",
        }
    }
}

/// What the middleware does first with a request.
#[derive(Debug)]
pub enum AuthStep {
    /// Let the request through untouched.
    Pass,
    /// Ask the authentication service about this token.
    Validate(String),
    /// Stop the request.
    Reject(AuthRejection),
}

/// The middleware's first step: public paths pass, a `Bearer` token is sent
/// for validation, anything else is refused.
pub fn auth_first_step(path: &str, authorization: Option<&str>) -> (r: AuthStep)
    ensures
        is_public_path_spec(path@) ==> r is Pass,
        !is_public_path_spec(path@) ==> match authorization {
            Some(h) => match bearer_token_spec(h@) {
                Some(t) => r matches AuthStep::Validate(s) && s@ == t,
                None => r == AuthStep::Reject(AuthRejection::MissingHeader),
            },
            None => r == AuthStep::Reject(AuthRejection::MissingHeader),
        },
{
    if is_public_path(path) {
        return AuthStep::Pass;
    }
    match authorization {
        Some(h) => match bearer_token(h) {
            Some(t) => AuthStep::Validate(t),
            None => AuthStep::Reject(AuthRejection::MissingHeader),
        },
        None => AuthStep::Reject(AuthRejection::MissingHeader),
    }
}

/// What a call to a backend service gave.
#[derive(Debug)]
pub enum CallOutcome<T> {
    /// The service could not be reached.
    Unreachable,
    /// The call returned an error status.
    Failed(CallError),
    /// The call answered.
    Answered(T),
}

/// An error status returned by a backend call: its gRPC code number and its
/// text as the handler prints it.
#[derive(Debug, Clone)]
pub struct CallError {
    pub code: i32,
    pub text: String,
}

/// What the token check answered: whether the token is valid, and whose.
#[derive(Debug, Clone)]
pub struct TokenVerdict {
    pub valid: bool,
    pub user_id: String,
    pub session_id: String,
}

/// The identity the middleware attaches to a request it lets through.
#[derive(Debug, Clone)]
pub struct Identity {
    pub user_id: String,
    pub session_id: String,
}

/// The middleware's second step, after the token check: a valid token lets
/// the request through with its identity; anything else stops it.
pub fn auth_after_validation(outcome: CallOutcome<TokenVerdict>) -> (r: Result<
    Identity,
    AuthRejection,
>)
    ensures
        match outcome {
            CallOutcome::Unreachable => r == Err::<Identity, AuthRejection>(
                AuthRejection::ServiceUnavailable,
            ),
            CallOutcome::Failed(_) => r == Err::<Identity, AuthRejection>(
                AuthRejection::InvalidToken,
            ),
            CallOutcome::Answered(v) => if v.valid {
                r == Ok::<Identity, AuthRejection>(
                    Identity { user_id: v.user_id, session_id: v.session_id },
                )
            } else {
                r == Err::<Identity, AuthRejection>(AuthRejection::InvalidToken)
            },
        },
{
    match outcome {
        CallOutcome::Unreachable => Err(AuthRejection::ServiceUnavailable),
        CallOutcome::Failed(_) => Err(AuthRejection::InvalidToken),
        CallOutcome::Answered(v) => if v.valid {
            Ok(Identity { user_id: v.user_id, session_id: v.session_id })
        } else {
            Err(AuthRejection::InvalidToken)
        },
    }
}

} // verus!

verus! {

// ---------- create order ----------

/// The body of a create-order request.
#[derive(Debug, Clone)]
pub struct CreateOrderRequest {
    pub market_id: u64,
    pub outcome_id: u64,
    pub side: String,
    pub order_type: String,
    pub price: String,
    pub quantity: String,
}

/// What the risk check answered.
#[derive(Debug, Clone)]
pub struct RiskVerdict {
    pub accepted: bool,
    pub reason: String,
}

/// What the order service answered for a new order.
#[derive(Debug, Clone)]
pub struct CreatedOrder {
    pub order_id: String,
    pub filled_quantity: String,
    pub status: String,
}

/// The hold placed on the user's balance before an order is sent.
#[derive(Debug, Clone)]
pub struct FreezePlan {
    pub asset: String,
    pub amount: String,
    pub order_ref: String,
}

/// The answer to a create-order request.
#[derive(Debug)]
pub enum OrderReply {
    /// 201: the order was created.
    Created(CreatedOrder),
    /// 400: the risk check refused the order, for this reason.
    RiskRejected(String),
    /// 400: the hold on the balance was refused.
    InsufficientBalance,
    /// 500: the order service refused; the error as printed.
    OrderFailed(String),
    /// 503: the order service could not be reached.
    OrderServiceUnavailable,
}

impl OrderReply {
    pub open spec fn spec_status(&self) -> u16 {
        match self {
            OrderReply::Created(_) => 201,
            OrderReply::RiskRejected(_) => 400,
            OrderReply::InsufficientBalance => 400,
            OrderReply::OrderFailed(_) => 500,
            OrderReply::OrderServiceUnavailable => 503,
        }
    }

    /// The HTTP status of the answer.
    pub fn status(&self) -> (r: u16)
        ensures
            r == self.spec_status(),
    {
        match self {
            OrderReply::Created(_) => 201,
            OrderReply::RiskRejected(_) => 400,
            OrderReply::InsufficientBalance => 400,
            OrderReply::OrderFailed(_) => 500,
            OrderReply::OrderServiceUnavailable => 503,
        }
    }
}

/// Where a create-order request stands.
#[derive(Debug)]
pub enum OrderFlow {
    AwaitingRisk { req: CreateOrderRequest, user: i64, order_ref: String },
    AwaitingFreeze { plan: FreezePlan, user: i64 },
    AwaitingOrder { plan: FreezePlan, user: i64, frozen: bool },
    AwaitingUnfreeze { reply: OrderReply },
    Done,
}

/// What the handler does next.
#[derive(Debug)]
pub enum OrderAction {
    /// Ask the risk service about the request.
    CheckRisk,
    /// Hold the amount on the user's balance.
    Freeze(FreezePlan),
    /// Send the order, for this numeric user id.
    CreateOrder { user: i64 },
    /// Release the hold, then answer.
    Unfreeze(FreezePlan),
    /// Answer.
    Reply(OrderReply),
}

/// What the last call gave.
#[derive(Debug)]
pub enum OrderEvent {
    Risk(CallOutcome<RiskVerdict>),
    Freeze(CallOutcome<()>),
    Order(CallOutcome<CreatedOrder>),
    /// The hold was released (whatever the call gave).
    Unfrozen,
}

/// A buy is a side of `buy`, `yes` or `bid`, in any case.
pub open spec fn is_buy_spec(side: Seq<char>) -> bool {
    let l = lowercase_of(side);
    l == "buy"@ || l == "yes"@ || l == "bid"@
}

/// The text with its ASCII letters lowercased.
pub open spec fn ascii_lowercase(s: Seq<char>) -> Seq<char> {
    Seq::new(s.len(), |i: int| ascii_lower(s[i]))
}

/// Whether an order side buys. For an ASCII side this is whether the side
/// with its letters lowercased is `buy`, `yes` or `bid`.
pub fn is_buy_side(side: &str) -> (r: bool)
    ensures
        r == is_buy_spec(side@),
        vstd::utf8::is_ascii_chars(side@) ==> r == (ascii_lowercase(side@) == "buy"@
            || ascii_lowercase(side@) == "yes"@ || ascii_lowercase(side@) == "bid"@),
{
    let l = to_lowercase(side);
    proof {
        if vstd::utf8::is_ascii_chars(side@) {
            assert(l@ =~= ascii_lowercase(side@));
        }
    }
    str_eq(l.as_str(), "buy") || str_eq(l.as_str(), "yes") || str_eq(l.as_str(), "bid")
}

/// What `price.parse::<Decimal>().unwrap_or_default()` times the same of
/// `quantity` gives as text: `None` where the product overflows.
pub uninterp spec fn decimal_product(price: Seq<char>, quantity: Seq<char>) -> Option<Seq<char>>;

/// The product of two decimal texts (`rust_decimal::Decimal::checked_mul`),
/// each read as a `Decimal` or zero when it does not parse, as text.
#[verifier::external_body]
fn decimal_product_text(price: &str, quantity: &str) -> (r: Option<String>)
    ensures
        match r {
            Some(s) => decimal_product(price@, quantity@) == Some(s@),
            None => decimal_product(price@, quantity@) is None,
        },
{
    let p: rust_decimal::Decimal = price.parse().unwrap_or_default();
    let q: rust_decimal::Decimal = quantity.parse().unwrap_or_default();
    match p.checked_mul(q) {
        Some(x) => Some(x.to_string()),
        None => None,
    }
}

/// The reference of a hold: `fr_` and the first 20 non-hyphen characters of
/// a UUID text.
pub open spec fn freeze_ref_spec(uuid_text: Seq<char>) -> Seq<char> {
    "fr_"@ + take_up_to(without_hyphens(uuid_text), 20)
}

/// The reference of a hold made from a UUID text.
pub fn freeze_ref(uuid_text: &str) -> (r: String)
    ensures
        r@ == freeze_ref_spec(uuid_text@),
{
    let tail = hyphenless_prefix(uuid_text, 20);
    String::from_str("fr_").concat(tail.as_str())
}

/// The hold for an order: a buy holds price times quantity of USDC; a sell
/// holds the quantity of the asset named by the side, uppercased.
pub open spec fn is_freeze_plan(
    plan: FreezePlan,
    req: CreateOrderRequest,
    order_ref: Seq<char>,
    product: Seq<char>,
) -> bool {
    &&& plan.order_ref@ == order_ref
    &&& if is_buy_spec(req.side@) {
        plan.asset@ == "USDC"@ && plan.amount@ == product
    } else {
        plan.asset@ == uppercase_of(req.side@) && plan.amount@ == req.quantity@
    }
}

fn copy_plan(p: &FreezePlan) -> (r: FreezePlan)
    ensures
        r == *p,
{
    FreezePlan {
        asset: p.asset.clone(),
        amount: p.amount.clone(),
        order_ref: p.order_ref.clone(),
    }
}

/// The hold an order needs, with the given reference: `None` when the order
/// buys and price times quantity overflows a `Decimal` (there the handler
/// panics).
fn freeze_plan(req: &CreateOrderRequest, order_ref: String) -> (r: Option<FreezePlan>)
    ensures
        is_buy_spec(req.side@) && decimal_product(req.price@, req.quantity@) is None ==> r is None,
        !(is_buy_spec(req.side@) && decimal_product(req.price@, req.quantity@) is None) ==> (
        r matches Some(p) && is_freeze_plan(
            p,
            *req,
            order_ref@,
            decimal_product(req.price@, req.quantity@)->0,
        )),
{
    if is_buy_side(req.side.as_str()) {
        match decimal_product_text(req.price.as_str(), req.quantity.as_str()) {
            Some(amount) => Some(FreezePlan { asset: String::from_str("USDC"), amount, order_ref }),
            None => None,
        }
    } else {
        Some(
            FreezePlan {
                asset: to_uppercase(req.side.as_str()),
                amount: String::from_str(req.quantity.as_str()),
                order_ref,
            },
        )
    }
}

/// The start of a create-order request from `user_id`: first the risk
/// check. The hold's reference is made now from a fresh UUID; its amount is
/// worked out only once the risk check has let the order through.
pub fn start_create_order(user_id: &str, req: CreateOrderRequest) -> (r: (OrderFlow, OrderAction))
    ensures
        r.1 == OrderAction::CheckRisk,
        r.0 matches OrderFlow::AwaitingRisk { req: q, user, order_ref } && q == req && user
            == i64_or_zero(remove_all(user_id@, "usr_"@)) && order_ref@.len() == 23 && exists|
            u: Seq<char>,
        | is_uuid_text(u) && order_ref@ == #[trigger] freeze_ref_spec(u),
{
    let user = parse_user_id_i64(user_id);
    let u = random_uuid_text();
    let order_ref = freeze_ref(u.as_str());
    proof {
        lemma_uuid_hyphenless(u@);
        reveal_strlit("fr_");
    }
    (OrderFlow::AwaitingRisk { req, user, order_ref }, OrderAction::CheckRisk)
}

/// The event is the one the flow waits for.
pub open spec fn order_event_fits(state: OrderFlow, event: OrderEvent) -> bool {
    match (state, event) {
        (OrderFlow::AwaitingRisk { .. }, OrderEvent::Risk(_)) => true,
        (OrderFlow::AwaitingFreeze { .. }, OrderEvent::Freeze(_)) => true,
        (OrderFlow::AwaitingOrder { .. }, OrderEvent::Order(_)) => true,
        (OrderFlow::AwaitingUnfreeze { .. }, OrderEvent::Unfrozen) => true,
        _ => false,
    }
}

/// The risk check refused the order.
pub open spec fn risk_refused(o: CallOutcome<RiskVerdict>) -> bool {
    o matches CallOutcome::Answered(v) && !v.accepted
}

/// The order buys and price times quantity overflows a `Decimal`.
pub open spec fn hold_overflows(req: CreateOrderRequest) -> bool {
    is_buy_spec(req.side@) && decimal_product(req.price@, req.quantity@) is None
}

/// `r` is what one step of a create-order request gives, where it stands
/// and what the last call gave. `None` is the one case where the handler
/// panics: the risk check let through a buy whose amount overflows.
pub open spec fn order_step_holds(
    state: OrderFlow,
    event: OrderEvent,
    r: Option<(OrderFlow, OrderAction)>,
) -> bool {
    match (state, event) {
        (OrderFlow::AwaitingRisk { req, user, order_ref }, OrderEvent::Risk(o)) => if risk_refused(
            o,
        ) {
            r == Some((OrderFlow::Done, OrderAction::Reply(OrderReply::RiskRejected(o->Answered_0.reason))))
        } else if hold_overflows(req) {
            r is None
        } else {
            r matches Some((OrderFlow::AwaitingFreeze { plan, user: u }, OrderAction::Freeze(p)))
                && p == plan && u == user && is_freeze_plan(
                plan,
                req,
                order_ref@,
                decimal_product(req.price@, req.quantity@)->0,
            )
        },
        (OrderFlow::AwaitingFreeze { plan, user }, OrderEvent::Freeze(o)) => match o {
            CallOutcome::Unreachable => r == Some(
                (
                    OrderFlow::AwaitingOrder { plan, user, frozen: false },
                    OrderAction::CreateOrder { user },
                ),
            ),
            CallOutcome::Failed(_) => r == Some(
                (OrderFlow::Done, OrderAction::Reply(OrderReply::InsufficientBalance)),
            ),
            CallOutcome::Answered(_) => r == Some(
                (
                    OrderFlow::AwaitingOrder { plan, user, frozen: true },
                    OrderAction::CreateOrder { user },
                ),
            ),
        },
        (OrderFlow::AwaitingOrder { plan, user, frozen }, OrderEvent::Order(o)) => match o {
            CallOutcome::Unreachable => r == Some(
                (OrderFlow::Done, OrderAction::Reply(OrderReply::OrderServiceUnavailable)),
            ),
            CallOutcome::Failed(e) => if frozen {
                r == Some(
                    (
                        OrderFlow::AwaitingUnfreeze { reply: OrderReply::OrderFailed(e.text) },
                        OrderAction::Unfreeze(plan),
                    ),
                )
            } else {
                r == Some((OrderFlow::Done, OrderAction::Reply(OrderReply::OrderFailed(e.text))))
            },
            CallOutcome::Answered(c) => r == Some(
                (OrderFlow::Done, OrderAction::Reply(OrderReply::Created(c))),
            ),
        },
        (OrderFlow::AwaitingUnfreeze { reply }, OrderEvent::Unfrozen) => r == Some(
            (OrderFlow::Done, OrderAction::Reply(reply)),
        ),
        _ => r == Some((OrderFlow::Done, OrderAction::CheckRisk)),
    }
}

/// One step of a create-order request. A refusal by the risk check answers
/// 400 with its reason, before any amount is worked out; an unreachable risk
/// service is passed over. Then the hold is asked for (`None` where a buy's
/// amount overflows: there the handler panics). A refused hold answers 400;
/// an unreachable balance service means no hold. A refused order releases
/// the hold, if one was made, and answers 500; an unreachable order service
/// answers 503 (keeping any hold). A created order answers 201.
pub fn create_order_step(state: OrderFlow, event: OrderEvent) -> (r: Option<(OrderFlow, OrderAction)>)
    requires
        order_event_fits(state, event),
    ensures
        order_step_holds(state, event, r),
{
    match (state, event) {
        (OrderFlow::AwaitingRisk { req, user, order_ref }, OrderEvent::Risk(o)) => {
            let refusal: Option<String> = match o {
                CallOutcome::Answered(v) => if !v.accepted {
                    Some(v.reason)
                } else {
                    None
                },
                _ => None,
            };
            match refusal {
                Some(reason) => Some(
                    (OrderFlow::Done, OrderAction::Reply(OrderReply::RiskRejected(reason))),
                ),
                None => match freeze_plan(&req, order_ref) {
                    Some(plan) => {
                        let p2 = copy_plan(&plan);
                        Some((OrderFlow::AwaitingFreeze { plan, user }, OrderAction::Freeze(p2)))
                    },
                    None => None,
                },
            }
        },
        (OrderFlow::AwaitingFreeze { plan, user }, OrderEvent::Freeze(o)) => match o {
            CallOutcome::Unreachable => Some(
                (OrderFlow::AwaitingOrder { plan, user, frozen: false }, OrderAction::CreateOrder { user }),
            ),
            CallOutcome::Failed(_) => Some(
                (OrderFlow::Done, OrderAction::Reply(OrderReply::InsufficientBalance)),
            ),
            CallOutcome::Answered(_) => Some(
                (OrderFlow::AwaitingOrder { plan, user, frozen: true }, OrderAction::CreateOrder { user }),
            ),
        },
        (OrderFlow::AwaitingOrder { plan, user, frozen }, OrderEvent::Order(o)) => match o {
            CallOutcome::Unreachable => Some(
                (OrderFlow::Done, OrderAction::Reply(OrderReply::OrderServiceUnavailable)),
            ),
            CallOutcome::Failed(e) => if frozen {
                Some(
                    (
                        OrderFlow::AwaitingUnfreeze { reply: OrderReply::OrderFailed(e.text) },
                        OrderAction::Unfreeze(plan),
                    ),
                )
            } else {
                Some((OrderFlow::Done, OrderAction::Reply(OrderReply::OrderFailed(e.text))))
            },
            CallOutcome::Answered(c) => Some(
                (OrderFlow::Done, OrderAction::Reply(OrderReply::Created(c))),
            ),
        },
        (OrderFlow::AwaitingUnfreeze { reply }, OrderEvent::Unfrozen) => Some(
            (OrderFlow::Done, OrderAction::Reply(reply)),
        ),
        _ => Some((OrderFlow::Done, OrderAction::CheckRisk)),
    }
}

/// A refusal by the risk check is answered at once, 400 with its reason,
/// whatever the order: no hold and no order is asked for.
pub proof fn law_risk_refusal_answers_first(
    req: CreateOrderRequest,
    user: i64,
    order_ref: String,
    verdict: RiskVerdict,
    r: Option<(OrderFlow, OrderAction)>,
)
    requires
        !verdict.accepted,
        order_step_holds(
            OrderFlow::AwaitingRisk { req, user, order_ref },
            OrderEvent::Risk(CallOutcome::Answered(verdict)),
            r,
        ),
    ensures
        r == Some((OrderFlow::Done, OrderAction::Reply(OrderReply::RiskRejected(verdict.reason)))),
{
}

/// A hold is released only where one was placed: any step that asks for a
/// release is the order service's refusal of an order whose hold was
/// answered, and it releases that same hold.
pub proof fn law_release_only_after_hold(
    state: OrderFlow,
    event: OrderEvent,
    r: Option<(OrderFlow, OrderAction)>,
)
    requires
        order_step_holds(state, event, r),
        r matches Some((_, OrderAction::Unfreeze(_))),
    ensures
        state matches OrderFlow::AwaitingOrder { plan, frozen, .. } && frozen
            && r.unwrap().1 == OrderAction::Unfreeze(plan),
        event matches OrderEvent::Order(CallOutcome::Failed(_)),
{
}

/// The flow counts a hold as placed only when the balance service answered
/// the freeze.
pub proof fn law_hold_only_when_freeze_answered(
    state: OrderFlow,
    event: OrderEvent,
    r: Option<(OrderFlow, OrderAction)>,
)
    requires
        order_step_holds(state, event, r),
        r matches Some((OrderFlow::AwaitingOrder { frozen, .. }, _)) && frozen,
    ensures
        state is AwaitingFreeze,
        event matches OrderEvent::Freeze(CallOutcome::Answered(_)),
{
}

/// Without a hold, a refused order is answered at once with the refusal:
/// no release is sent.
pub proof fn law_refusal_without_hold_answers_at_once(
    plan: FreezePlan,
    user: i64,
    error: CallError,
    r: Option<(OrderFlow, OrderAction)>,
)
    requires
        order_step_holds(
            OrderFlow::AwaitingOrder { plan, user, frozen: false },
            OrderEvent::Order(CallOutcome::Failed(error)),
            r,
        ),
    ensures
        r == Some((OrderFlow::Done, OrderAction::Reply(OrderReply::OrderFailed(error.text)))),
{
}

/// When the order service refuses an order after the hold on the balance
/// was placed, the request releases that same hold before it answers, and
/// then answers with the refusal.
pub proof fn law_refused_order_releases_hold(
    req: CreateOrderRequest,
    user: i64,
    order_ref: String,
    risk: CallOutcome<RiskVerdict>,
    error: CallError,
    r1: Option<(OrderFlow, OrderAction)>,
    r2: Option<(OrderFlow, OrderAction)>,
    r3: Option<(OrderFlow, OrderAction)>,
    r4: Option<(OrderFlow, OrderAction)>,
)
    requires
        !risk_refused(risk),
        !hold_overflows(req),
        order_step_holds(OrderFlow::AwaitingRisk { req, user, order_ref }, OrderEvent::Risk(risk), r1),
        order_step_holds(r1.unwrap().0, OrderEvent::Freeze(CallOutcome::Answered(())), r2),
        order_step_holds(r2.unwrap().0, OrderEvent::Order(CallOutcome::Failed(error)), r3),
        order_step_holds(r3.unwrap().0, OrderEvent::Unfrozen, r4),
    ensures
        r1 matches Some((_, OrderAction::Freeze(plan))) && r2 == Some(
            (OrderFlow::AwaitingOrder { plan, user, frozen: true }, OrderAction::CreateOrder { user }),
        ) && r3 is Some && r3.unwrap().1 == OrderAction::Unfreeze(plan) && r4 == Some(
            (OrderFlow::Done, OrderAction::Reply(OrderReply::OrderFailed(error.text))),
        ),
{
}

} // verus!

verus! {

// ---------- login ----------

/// The answer to a login request.
#[derive(Debug, Clone)]
pub struct LoginResponse {
    pub success: bool,
    pub token: Option<String>,
    pub refresh_token: Option<String>,
    pub expires_in: Option<i64>,
    pub token_type: Option<String>,
    pub user_id: Option<String>,
    pub message: Option<String>,
}

/// The tokens the authentication service issued.
#[derive(Debug, Clone)]
pub struct IssuedTokens {
    pub access_token: String,
    pub refresh_token: String,
    pub expires_in: i64,
    pub token_type: String,
}

/// Where a login stands: first the user service checks the credentials,
/// then the authentication service issues tokens for the user it names.
#[derive(Debug)]
pub enum LoginFlow {
    AwaitingUser,
    AwaitingTokens { user_id: String },
    Done,
}

/// What the login handler does next.
#[derive(Debug)]
pub enum LoginAction {
    /// Check the e-mail and password with the user service.
    VerifyUser,
    /// Ask the authentication service for tokens for this user.
    IssueTokens { user_id: String },
    /// Answer with this status and body.
    Reply { status: u16, body: LoginResponse },
}

/// What the last call gave.
#[derive(Debug)]
pub enum LoginEvent {
    /// The user service's answer: the user id.
    User(CallOutcome<String>),
    Tokens(CallOutcome<IssuedTokens>),
}

/// A failed login's body: only the message.
pub open spec fn is_login_failure(b: LoginResponse, message: Seq<char>) -> bool {
    &&& !b.success
    &&& b.token is None
    &&& b.refresh_token is None
    &&& b.expires_in is None
    &&& b.token_type is None
    &&& b.user_id is None
    &&& b.message matches Some(m) && m@ == message
}

fn login_failure(message: &str) -> (b: LoginResponse)
    ensures
        is_login_failure(b, message@),
{
    LoginResponse {
        success: false,
        token: None,
        refresh_token: None,
        expires_in: None,
        token_type: None,
        user_id: None,
        message: Some(String::from_str(message)),
    }
}

/// The event is the one the flow waits for.
pub open spec fn login_event_fits(state: LoginFlow, event: LoginEvent) -> bool {
    match (state, event) {
        (LoginFlow::AwaitingUser, LoginEvent::User(_)) => true,
        (LoginFlow::AwaitingTokens { .. }, LoginEvent::Tokens(_)) => true,
        _ => false,
    }
}

/// One step of a login. The user service unreachable answers 503 "Service
/// unavailable"; refusing the credentials, 401 "Invalid credentials". The
/// authentication service unreachable answers 503 "Auth service
/// unavailable"; failing, 500 "Authentication service error". Issued tokens
/// answer 200 with the tokens and the user id.
pub fn login_step(state: LoginFlow, event: LoginEvent) -> (r: (LoginFlow, LoginAction))
    requires
        login_event_fits(state, event),
    ensures
        match (state, event) {
            (LoginFlow::AwaitingUser, LoginEvent::User(o)) => match o {
                CallOutcome::Unreachable => r.0 == LoginFlow::Done && (r.1 matches LoginAction::Reply {
                    status,
                    body,
                } && status == 503 && is_login_failure(body, "Service unavailable"@)),
                CallOutcome::Failed(_) => r.0 == LoginFlow::Done && (r.1 matches LoginAction::Reply {
                    status,
                    body,
                } && status == 401 && is_login_failure(body, "Invalid credentials"@)),
                CallOutcome::Answered(u) => r == (
                    LoginFlow::AwaitingTokens { user_id: u },
                    LoginAction::IssueTokens { user_id: u },
                ),
            },
            (LoginFlow::AwaitingTokens { user_id }, LoginEvent::Tokens(o)) => match o {
                CallOutcome::Unreachable => r.0 == LoginFlow::Done && (r.1 matches LoginAction::Reply {
                    status,
                    body,
                } && status == 503 && is_login_failure(body, "Auth service unavailable"@)),
                CallOutcome::Failed(_) => r.0 == LoginFlow::Done && (r.1 matches LoginAction::Reply {
                    status,
                    body,
                } && status == 500 && is_login_failure(body, "Authentication service error"@)),
                CallOutcome::Answered(t) => r == (
                    LoginFlow::Done,
                    LoginAction::Reply {
                        status: 200,
                        body: LoginResponse {
                            success: true,
                            token: Some(t.access_token),
                            refresh_token: Some(t.refresh_token),
                            expires_in: Some(t.expires_in),
                            token_type: Some(t.token_type),
                            user_id: Some(user_id),
                            message: None,
                        },
                    },
                ),
            },
            _ => false,
        },
{
    match (state, event) {
        (LoginFlow::AwaitingUser, LoginEvent::User(o)) => match o {
            CallOutcome::Unreachable => (
                LoginFlow::Done,
                LoginAction::Reply { status: 503, body: login_failure("Service unavailable") },
            ),
            CallOutcome::Failed(_) => (
                LoginFlow::Done,
                LoginAction::Reply { status: 401, body: login_failure("Invalid credentials") },
            ),
            CallOutcome::Answered(u) => {
                let u2 = u.clone();
                (LoginFlow::AwaitingTokens { user_id: u }, LoginAction::IssueTokens { user_id: u2 })
            },
        },
        (LoginFlow::AwaitingTokens { user_id }, LoginEvent::Tokens(o)) => match o {
            CallOutcome::Unreachable => (
                LoginFlow::Done,
                LoginAction::Reply { status: 503, body: login_failure("Auth service unavailable") },
            ),
            CallOutcome::Failed(_) => (
                LoginFlow::Done,
                LoginAction::Reply {
                    status: 500,
                    body: login_failure("Authentication service error"),
                },
            ),
            CallOutcome::Answered(t) => (
                LoginFlow::Done,
                LoginAction::Reply {
                    status: 200,
                    body: LoginResponse {
                        success: true,
                        token: Some(t.access_token),
                        refresh_token: Some(t.refresh_token),
                        expires_in: Some(t.expires_in),
                        token_type: Some(t.token_type),
                        user_id: Some(user_id),
                        message: None,
                    },
                },
            ),
        },
        _ => (LoginFlow::Done, LoginAction::VerifyUser),
    }
}

// ---------- wallet ----------

/// The network a deposit goes over: the one asked for, else TRC20 for USDT
/// and TRX, BTC for BTC, ERC20 for anything else.
pub open spec fn deposit_network_spec(asset: Seq<char>, network: Option<Seq<char>>) -> Seq<char> {
    match network {
        Some(n) => n,
        None => if asset == "USDT"@ || asset == "TRX"@ {
            "TRC20"@
        } else if asset == "BTC"@ {
            "BTC"@
        } else {
            "ERC20"@
        },
    }
}

/// The deposit network for an (uppercased) asset.
pub fn deposit_network(asset: &str, network: Option<String>) -> (r: String)
    ensures
        r@ == deposit_network_spec(
            asset@,
            match network {
                Some(n) => Some(n@),
                None => None,
            },
        ),
{
    match network {
        Some(n) => n,
        None => if str_eq(asset, "USDT") || str_eq(asset, "TRX") {
            String::from_str("TRC20")
        } else if str_eq(asset, "BTC") {
            String::from_str("BTC")
        } else {
            String::from_str("ERC20")
        },
    }
}

/// A deposit address made from a UUID text: `TN…W` for USDT and TRX,
/// `bc1q…` for BTC, `0x…` otherwise, around the UUID's non-hyphen
/// characters (at most 32, 38 and 40 of them).
pub open spec fn deposit_address_spec(asset: Seq<char>, uuid_text: Seq<char>) -> Seq<char> {
    let h = without_hyphens(uuid_text);
    if asset == "USDT"@ || asset == "TRX"@ {
        "TN"@ + take_up_to(h, 32) + "W"@
    } else if asset == "BTC"@ {
        "bc1q"@ + take_up_to(h, 38)
    } else {
        "0x"@ + take_up_to(h, 40)
    }
}

/// The deposit address for an (uppercased) asset made from a UUID text.
pub fn deposit_address(asset: &str, uuid_text: &str) -> (r: String)
    ensures
        r@ == deposit_address_spec(asset@, uuid_text@),
{
    if str_eq(asset, "USDT") || str_eq(asset, "TRX") {
        let mut s = String::from_str("TN");
        s.append(hyphenless_prefix(uuid_text, 32).as_str());
        s.append("W");
        s
    } else if str_eq(asset, "BTC") {
        String::from_str("bc1q").concat(hyphenless_prefix(uuid_text, 38).as_str())
    } else {
        String::from_str("0x").concat(hyphenless_prefix(uuid_text, 40).as_str())
    }
}

/// The memo of a deposit: the first 8 non-hyphen characters of a UUID text
/// on TRC20, none on other networks.
pub fn deposit_memo(network: &str, uuid_text: &str) -> (r: Option<String>)
    ensures
        network@ == "TRC20"@ ==> (r matches Some(m) && m@ == take_up_to(
            without_hyphens(uuid_text@),
            8,
        )),
        network@ != "TRC20"@ ==> r is None,
{
    if str_eq(network, "TRC20") {
        Some(hyphenless_prefix(uuid_text, 8))
    } else {
        None
    }
}

/// Where to deposit an asset.
#[derive(Debug, Clone)]
pub struct DepositAddressResponse {
    pub address: String,
    pub asset: String,
    pub network: String,
    pub memo: Option<String>,
}

/// The deposit address for `asset` (uppercased) over `network`, made from
/// fresh random UUIDs.
pub fn get_deposit_address(asset: &str, network: Option<String>) -> (r: DepositAddressResponse)
    ensures
        r.asset@ == uppercase_of(asset@),
        r.network@ == deposit_network_spec(
            uppercase_of(asset@),
            match network {
                Some(n) => Some(n@),
                None => None,
            },
        ),
        exists|u: Seq<char>|
            is_uuid_text(u) && r.address@ == #[trigger] deposit_address_spec(uppercase_of(asset@), u),
        r.address@.len() == if uppercase_of(asset@) == "USDT"@ || uppercase_of(asset@) == "TRX"@ {
            35int
        } else if uppercase_of(asset@) == "BTC"@ {
            36int
        } else {
            34int
        },
        r.network@ == "TRC20"@ ==> (r.memo matches Some(m) && m@.len() == 8 && exists|u: Seq<char>|
            is_uuid_text(u) && m@ == #[trigger] take_up_to(without_hyphens(u), 8)),
        r.network@ != "TRC20"@ ==> r.memo is None,
{
    let upper = to_uppercase(asset);
    let network = deposit_network(upper.as_str(), network);
    let u1 = random_uuid_text();
    let address = deposit_address(upper.as_str(), u1.as_str());
    let u2 = random_uuid_text();
    let memo = deposit_memo(network.as_str(), u2.as_str());
    proof {
        lemma_uuid_hyphenless(u1@);
        lemma_uuid_hyphenless(u2@);
        reveal_strlit("TN");
        reveal_strlit("W");
        reveal_strlit("bc1q");
        reveal_strlit("0x");
    }
    DepositAddressResponse { address, asset: upper, network, memo }
}

/// The body of a withdrawal request.
#[derive(Debug, Clone)]
pub struct WithdrawRequest {
    pub asset: String,
    pub amount: String,
    pub address: String,
    pub network: Option<String>,
}

/// The chain a withdrawal goes over: the requested network, else ETH.
pub fn withdraw_chain(network: Option<String>) -> (r: String)
    ensures
        match network {
            Some(n) => r == n,
            None => r@ == "ETH"@,
        },
{
    match network {
        Some(n) => n,
        None => String::from_str("ETH"),
    }
}

/// The answer to an accepted withdrawal.
#[derive(Debug, Clone)]
pub struct WithdrawResponse {
    pub success: bool,
    pub withdrawal_id: String,
    pub asset: String,
    pub amount: String,
    pub fee: String,
    pub net_amount: String,
    pub status: String,
}

/// The answer to a withdrawal the wallet service took: the asset
/// uppercased, a fee of 0.001 shown beside a net amount equal to the
/// requested amount, and status `pending`.
pub fn withdraw_reply(req: &WithdrawRequest, success: bool, withdraw_id: String) -> (r:
    WithdrawResponse)
    ensures
        r.success == success,
        r.withdrawal_id == withdraw_id,
        r.asset@ == uppercase_of(req.asset@),
        r.amount@ == req.amount@,
        r.fee@ == "0.001"@,
        r.net_amount@ == req.amount@,
        r.status@ == "pending"@,
{
    WithdrawResponse {
        success,
        withdrawal_id: withdraw_id,
        asset: to_uppercase(req.asset.as_str()),
        amount: req.amount.clone(),
        fee: String::from_str("0.001"),
        net_amount: req.amount.clone(),
        status: String::from_str("pending"),
    }
}

/// The gRPC code number of a refused precondition.
pub const FAILED_PRECONDITION: i32 = 9;

/// The gRPC code number of a missing entity.
pub const NOT_FOUND: i32 = 5;

/// A refused withdrawal's answer: 400 "Insufficient balance" when the
/// wallet service refused a precondition, else 500 with the error.
pub fn withdraw_failure_status(code: i32) -> (r: u16)
    ensures
        code == FAILED_PRECONDITION ==> r == 400,
        code != FAILED_PRECONDITION ==> r == 500,
{
    if code == FAILED_PRECONDITION {
        400
    } else {
        500
    }
}

/// A deposit in the wallet history.
#[derive(Debug, Clone)]
pub struct DepositRecord {
    pub id: String,
    pub asset: String,
    pub amount: String,
    pub address: String,
    pub tx_hash: String,
    pub confirmations: u32,
    pub status: String,
    pub created_at: String,
}

/// A withdrawal in the wallet history.
#[derive(Debug, Clone)]
pub struct WithdrawRecord {
    pub id: String,
    pub asset: String,
    pub amount: String,
    pub fee: String,
    pub address: String,
    pub tx_hash: Option<String>,
    pub status: String,
    pub created_at: String,
}

/// A deposit as the history shows it: the transaction id as id and hash,
/// the chain as asset, no confirmations, status `completed`, and the time as
/// decimal text.
pub fn deposit_record(tx_id: String, chain: String, amount: String, address: String, created_at: i64) -> (r:
    DepositRecord)
    ensures
        r.id == tx_id,
        r.tx_hash == tx_id,
        r.asset == chain,
        r.amount == amount,
        r.address == address,
        r.confirmations == 0,
        r.status@ == "completed"@,
        r.created_at@ == crate::numtext::int_to_decimal(created_at as int),
{
    DepositRecord {
        id: tx_id.clone(),
        asset: chain,
        amount,
        address,
        tx_hash: tx_id,
        confirmations: 0,
        status: String::from_str("completed"),
        created_at: crate::numtext::i64_to_string(created_at),
    }
}

/// A withdrawal as the history shows it: no hash while the transaction id
/// is empty, and the time as decimal text.
pub fn withdraw_record(
    withdraw_id: String,
    asset: String,
    amount: String,
    fee: String,
    to_address: String,
    tx_id: String,
    status: String,
    created_at: i64,
) -> (r: WithdrawRecord)
    ensures
        r.id == withdraw_id,
        r.asset == asset,
        r.amount == amount,
        r.fee == fee,
        r.address == to_address,
        tx_id@.len() == 0 ==> r.tx_hash is None,
        tx_id@.len() > 0 ==> r.tx_hash == Some(tx_id),
        r.status == status,
        r.created_at@ == crate::numtext::int_to_decimal(created_at as int),
{
    let tx_hash = if tx_id.as_str().is_empty() {
        None
    } else {
        Some(tx_id)
    };
    WithdrawRecord {
        id: withdraw_id,
        asset,
        amount,
        fee,
        address: to_address,
        tx_hash,
        status,
        created_at: crate::numtext::i64_to_string(created_at),
    }
}

/// The user id of the wallet endpoints: the whole id read as an integer
/// (`parse::<i64>()`), or `None` (answered 400 "Invalid user") when it does
/// not read as one or reads as 0.
pub fn wallet_user(user_id: &str) -> (r: Option<i64>)
    ensures
        i64_or_zero(user_id@) == 0 ==> r is None,
        i64_or_zero(user_id@) != 0 ==> r == Some(i64_or_zero(user_id@)),
{
    let n = parse_i64_or_zero(user_id);
    if n == 0 {
        None
    } else {
        Some(n)
    }
}

/// What a withdrawal asks the wallet service for.
#[derive(Debug, Clone)]
pub struct CreateWithdrawParams {
    pub user_id: i64,
    pub asset: String,
    pub amount: String,
    pub to_address: String,
    pub chain: String,
    pub payment_password: String,
}

/// The withdrawal request sent for `user_id`: the whole id read as an
/// integer (0 when it does not read as one), the asset,
/// amount and address as given, the chain (ETH unless a network is named)
/// and no payment password.
pub fn withdraw_params(user_id: &str, req: &WithdrawRequest) -> (r: CreateWithdrawParams)
    ensures
        r.user_id == i64_or_zero(user_id@),
        r.asset@ == req.asset@,
        r.amount@ == req.amount@,
        r.to_address@ == req.address@,
        match req.network {
            Some(n) => r.chain@ == n@,
            None => r.chain@ == "ETH"@,
        },
        r.payment_password@.len() == 0,
{
    let network = match &req.network {
        Some(n) => Some(n.clone()),
        None => None,
    };
    CreateWithdrawParams {
        user_id: parse_i64_or_zero(user_id),
        asset: req.asset.clone(),
        amount: req.amount.clone(),
        to_address: req.address.clone(),
        chain: withdraw_chain(network),
        payment_password: String::new(),
    }
}

/// A deposit as the wallet service lists it.
#[derive(Debug, Clone)]
pub struct DepositRow {
    pub tx_id: String,
    pub chain: String,
    pub amount: String,
    pub address: String,
    pub created_at: i64,
}

/// A withdrawal as the wallet service lists it.
#[derive(Debug, Clone)]
pub struct WithdrawRow {
    pub withdraw_id: String,
    pub asset: String,
    pub amount: String,
    pub fee: String,
    pub to_address: String,
    pub tx_id: String,
    pub status: String,
    pub created_at: i64,
}

/// The wallet history: deposits, then withdrawals.
#[derive(Debug, Clone)]
pub struct WalletHistory {
    pub deposits: Vec<DepositRecord>,
    pub withdrawals: Vec<WithdrawRecord>,
}

/// `r` shows the listed deposit `d`.
pub open spec fn shows_deposit(r: DepositRecord, d: DepositRow) -> bool {
    &&& r.id@ == d.tx_id@
    &&& r.tx_hash@ == d.tx_id@
    &&& r.asset@ == d.chain@
    &&& r.amount@ == d.amount@
    &&& r.address@ == d.address@
    &&& r.confirmations == 0
    &&& r.status@ == "completed"@
    &&& r.created_at@ == crate::numtext::int_to_decimal(d.created_at as int)
}

/// `r` shows the listed withdrawal `w`.
pub open spec fn shows_withdrawal(r: WithdrawRecord, w: WithdrawRow) -> bool {
    &&& r.id@ == w.withdraw_id@
    &&& r.asset@ == w.asset@
    &&& r.amount@ == w.amount@
    &&& r.fee@ == w.fee@
    &&& r.address@ == w.to_address@
    &&& (w.tx_id@.len() == 0 ==> r.tx_hash is None)
    &&& (w.tx_id@.len() > 0 ==> (r.tx_hash matches Some(h) && h@ == w.tx_id@))
    &&& r.status@ == w.status@
    &&& r.created_at@ == crate::numtext::int_to_decimal(w.created_at as int)
}

/// The wallet history from the two lists the wallet service gave (`None`
/// for a list whose call failed, shown as empty): each listed item shown in
/// the order given.
pub fn wallet_history(deposits: Option<Vec<DepositRow>>, withdrawals: Option<Vec<WithdrawRow>>) -> (r:
    WalletHistory)
    ensures
        match deposits {
            Some(ds) => r.deposits@.len() == ds@.len() && forall|i: int|
                0 <= i < ds@.len() ==> shows_deposit(#[trigger] r.deposits@[i], ds@[i]),
            None => r.deposits@.len() == 0,
        },
        match withdrawals {
            Some(ws) => r.withdrawals@.len() == ws@.len() && forall|i: int|
                0 <= i < ws@.len() ==> shows_withdrawal(#[trigger] r.withdrawals@[i], ws@[i]),
            None => r.withdrawals@.len() == 0,
        },
{
    let mut out_d: Vec<DepositRecord> = Vec::new();
    match &deposits {
        Some(ds) => {
            let mut i: usize = 0;
            while i < ds.len()
                invariant
                    i <= ds@.len(),
                    out_d@.len() == i,
                    forall|j: int| 0 <= j < i ==> shows_deposit(#[trigger] out_d@[j], ds@[j]),
                decreases ds@.len() - i,
            {
                let d = &ds[i];
                let rec = deposit_record(
                    d.tx_id.clone(),
                    d.chain.clone(),
                    d.amount.clone(),
                    d.address.clone(),
                    d.created_at,
                );
                out_d.push(rec);
                i = i + 1;
            }
        },
        None => {},
    }
    let mut out_w: Vec<WithdrawRecord> = Vec::new();
    match &withdrawals {
        Some(ws) => {
            let mut i: usize = 0;
            while i < ws.len()
                invariant
                    i <= ws@.len(),
                    out_w@.len() == i,
                    forall|j: int| 0 <= j < i ==> shows_withdrawal(#[trigger] out_w@[j], ws@[j]),
                decreases ws@.len() - i,
            {
                let w = &ws[i];
                let rec = withdraw_record(
                    w.withdraw_id.clone(),
                    w.asset.clone(),
                    w.amount.clone(),
                    w.fee.clone(),
                    w.to_address.clone(),
                    w.tx_id.clone(),
                    w.status.clone(),
                    w.created_at,
                );
                out_w.push(rec);
                i = i + 1;
            }
        },
        None => {},
    }
    WalletHistory { deposits: out_d, withdrawals: out_w }
}

// ---------- prediction markets ----------

/// A market id from a path: `None` (answered 400 "Invalid market_id") when
/// it is missing, unreadable or 0.
pub fn market_id_param(param: Option<i64>) -> (r: Option<i64>)
    ensures
        match param {
            Some(m) => if m == 0 {
                r is None
            } else {
                r == Some(m)
            },
            None => r is None,
        },
{
    match param {
        Some(m) => if m == 0 {
            None
        } else {
            Some(m)
        },
        None => None,
    }
}

/// The error text when resolving a market fails (always answered 500):
/// by the gRPC code of the failure.
pub fn resolve_market_error(code: i32) -> (r: &'static str)
    ensures
        code == NOT_FOUND ==> r@ == "Market not found"@,
        code == FAILED_PRECONDITION ==> r@ == "Market cannot be resolved in current status"@,
        code != NOT_FOUND && code != FAILED_PRECONDITION ==> r@
            == "Internal error resolving market"@,
{
    if code == NOT_FOUND {
        "Market not found"
    } else if code == FAILED_PRECONDITION {
        "Market cannot be resolved in current status"
    } else {
        "Internal error resolving market"
    }
}

} // verus!

verus! {

// ---------- other user endpoints ----------

/// The answer to a registration.
#[derive(Debug, Clone)]
pub struct RegisterResponse {
    pub success: bool,
    pub user_id: Option<String>,
    pub message: String,
}

/// The answer to a registration, by what the user service gave: 200 with
/// the new user id; 400 with the error as printed; 503 when unreachable.
pub fn register_reply(outcome: CallOutcome<String>) -> (r: (u16, RegisterResponse))
    ensures
        match outcome {
            CallOutcome::Answered(u) => r.0 == 200 && r.1.success && r.1.user_id == Some(u)
                && r.1.message@ == "Registration successful. Please login."@,
            CallOutcome::Failed(e) => r.0 == 400 && !r.1.success && r.1.user_id is None
                && r.1.message@ == "Registration failed: "@ + e.text@,
            CallOutcome::Unreachable => r.0 == 503 && !r.1.success && r.1.user_id is None
                && r.1.message@ == "Service unavailable"@,
        },
{
    match outcome {
        CallOutcome::Answered(u) => (
            200,
            RegisterResponse {
                success: true,
                user_id: Some(u),
                message: String::from_str("Registration successful. Please login."),
            },
        ),
        CallOutcome::Failed(e) => (
            400,
            RegisterResponse {
                success: false,
                user_id: None,
                message: String::from_str("Registration failed: ").concat(e.text.as_str()),
            },
        ),
        CallOutcome::Unreachable => (
            503,
            RegisterResponse {
                success: false,
                user_id: None,
                message: String::from_str("Service unavailable"),
            },
        ),
    }
}

/// The answer to a logout.
#[derive(Debug, Clone)]
pub struct LogoutResponse {
    pub success: bool,
    pub message: String,
}

/// The answer to a logout: 401 without a session; else by what the
/// authentication service gave (whether the session ended, an error, or
/// unreachable).
pub fn logout_reply(session_id: Option<String>, outcome: CallOutcome<bool>) -> (r: (
    u16,
    LogoutResponse,
))
    ensures
        session_id is None ==> r.0 == 401 && !r.1.success && r.1.message@ == "Unauthorized"@,
        session_id is Some ==> match outcome {
            CallOutcome::Answered(ok) => r.0 == 200 && r.1.success == ok && r.1.message@ == (if ok {
                "Logged out successfully"@
            } else {
                "Logout failed"@
            }),
            CallOutcome::Failed(_) => r.0 == 500 && !r.1.success && r.1.message@
                == "Auth service error"@,
            CallOutcome::Unreachable => r.0 == 503 && !r.1.success && r.1.message@
                == "Auth service unavailable"@,
        },
{
    if session_id.is_none() {
        return (401, LogoutResponse { success: false, message: String::from_str("Unauthorized") });
    }
    match outcome {
        CallOutcome::Answered(ok) => (
            200,
            LogoutResponse {
                success: ok,
                message: if ok {
                    String::from_str("Logged out successfully")
                } else {
                    String::from_str("Logout failed")
                },
            },
        ),
        CallOutcome::Failed(_) => (
            500,
            LogoutResponse { success: false, message: String::from_str("Auth service error") },
        ),
        CallOutcome::Unreachable => (
            503,
            LogoutResponse { success: false, message: String::from_str("Auth service unavailable") },
        ),
    }
}

/// The answer to a token refresh.
#[derive(Debug, Clone)]
pub struct RefreshTokenResponse {
    pub success: bool,
    pub access_token: Option<String>,
    pub expires_in: Option<i64>,
    pub token_type: Option<String>,
    pub message: Option<String>,
}

/// The answer to a token refresh: 200 with the new token of type `Bearer`;
/// 401 when refused; 503 when unreachable.
pub fn refresh_reply(outcome: CallOutcome<(String, i64)>) -> (r: (u16, RefreshTokenResponse))
    ensures
        match outcome {
            CallOutcome::Answered((t, e)) => r.0 == 200 && r.1.success && r.1.access_token == Some(
                t,
            ) && r.1.expires_in == Some(e) && (r.1.token_type matches Some(tt) && tt@
                == "Bearer"@) && r.1.message is None,
            CallOutcome::Failed(_) => r.0 == 401 && !r.1.success && r.1.access_token is None
                && r.1.expires_in is None && r.1.token_type is None && (r.1.message matches Some(
                m,
            ) && m@ == "Invalid or expired refresh token"@),
            CallOutcome::Unreachable => r.0 == 503 && !r.1.success && r.1.access_token is None
                && r.1.expires_in is None && r.1.token_type is None && (r.1.message matches Some(
                m,
            ) && m@ == "Auth service unavailable"@),
        },
{
    match outcome {
        CallOutcome::Answered((t, e)) => (
            200,
            RefreshTokenResponse {
                success: true,
                access_token: Some(t),
                expires_in: Some(e),
                token_type: Some(String::from_str("Bearer")),
                message: None,
            },
        ),
        CallOutcome::Failed(_) => (
            401,
            RefreshTokenResponse {
                success: false,
                access_token: None,
                expires_in: None,
                token_type: None,
                message: Some(String::from_str("Invalid or expired refresh token")),
            },
        ),
        CallOutcome::Unreachable => (
            503,
            RefreshTokenResponse {
                success: false,
                access_token: None,
                expires_in: None,
                token_type: None,
                message: Some(String::from_str("Auth service unavailable")),
            },
        ),
    }
}

/// The current user's public fields.
#[derive(Debug, Clone)]
pub struct UserResponse {
    pub id: String,
    pub username: String,
    pub email: String,
}

/// The answer to "who am I".
#[derive(Debug)]
pub enum CurrentUserReply {
    /// 200 with the user.
    Found(UserResponse),
    /// 401: the request carries no user.
    Unauthorized,
    /// 404: the user service knows no such user.
    NotFound,
    /// 500: the user service failed; the error as printed.
    Failed(String),
    /// 503: the user service could not be reached.
    Unavailable,
}

/// The answer to "who am I", by the request's user and what the user
/// service gave.
pub fn current_user_reply(
    user_id: Option<String>,
    outcome: CallOutcome<Option<UserResponse>>,
) -> (r: CurrentUserReply)
    ensures
        user_id is None ==> r is Unauthorized,
        user_id is Some ==> match outcome {
            CallOutcome::Answered(Some(u)) => r == CurrentUserReply::Found(u),
            CallOutcome::Answered(None) => r is NotFound,
            CallOutcome::Failed(e) => r == CurrentUserReply::Failed(e.text),
            CallOutcome::Unreachable => r is Unavailable,
        },
{
    if user_id.is_none() {
        return CurrentUserReply::Unauthorized;
    }
    match outcome {
        CallOutcome::Answered(Some(u)) => CurrentUserReply::Found(u),
        CallOutcome::Answered(None) => CurrentUserReply::NotFound,
        CallOutcome::Failed(e) => CurrentUserReply::Failed(e.text),
        CallOutcome::Unreachable => CurrentUserReply::Unavailable,
    }
}

// ---------- orders ----------

/// The status text shown for a cancellation: `cancelled` or `failed`.
pub fn cancel_status(success: bool) -> (r: &'static str)
    ensures
        success ==> r@ == "cancelled"@,
        !success ==> r@ == "failed"@,
{
    if success {
        "cancelled"
    } else {
        "failed"
    }
}

/// The page size of an order listing: the requested limit (cut to `i32` as
/// `as` does), else 50.
pub fn orders_page_size(limit: Option<usize>) -> (r: i32)
    ensures
        match limit {
            Some(l) => r == l as i32,
            None => r == 50,
        },
{
    match limit {
        Some(l) => l as i32,
        None => 50,
    }
}

/// A market filter of an order listing: the market, or 0 for all.
pub fn orders_market_filter(market_id: Option<u64>) -> (r: i64)
    ensures
        match market_id {
            Some(m) => r == m as i64,
            None => r == 0,
        },
{
    match market_id {
        Some(m) => m as i64,
        None => 0,
    }
}

} // verus!

