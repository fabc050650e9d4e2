//! Decimal places of assets, and conversion between stored integer amounts
//! (in the smallest unit) and human-readable decimal text.
//!
//! USDT uses the base precision; outcome tokens, named
//! `{market_id}_{outcome}` such as `12345_yes`, use the outcome precision.
use vstd::prelude::*;
use vstd::arithmetic::div_mod::{lemma_fundamental_div_mod, lemma_mod_pos_bound};
use vstd::string::StringSliceAdditionalSpecFns;
use vstd::utf8::is_continuation_byte;
use crate::config::AssetsConfig;
use crate::numtext::{
    all_digit_bytes, is_digit_byte, all_decimal_chars, ascii_bytes, digits_value, lemma_digits_shape, lemma_parse_digits,
    lemma_parse_negative_digits, lemma_pow10_bound, nat_to_digits, pad_left_zeros, pad_zeros_into,
    parse_i64_range, parse_i64_spec, pow10, pow10_i64, push_char, u64_to_string, write_u64,
};
use crate::strutil::{find_char, str_eq};

verus! {

/// Decimal places by kind of asset.
pub struct AssetPrecision {
    base_precision: u8,
    outcome_precision: u8,
}

/// An outcome name that marks an outcome token.
pub open spec fn is_outcome_name(o: Seq<char>) -> bool {
    o == "yes"@ || o == "no"@ || o == "true"@ || o == "false"@
}

/// The asset is an outcome token: what follows its first `_` is `yes`, `no`,
/// `true` or `false`.
pub open spec fn is_outcome_asset_spec(a: Seq<char>) -> bool {
    exists|k: int|
        0 <= k < a.len() && a[k] == '_' && (forall|j: int| 0 <= j < k ==> a[j] != '_')
            && is_outcome_name(#[trigger] a.skip(k + 1))
}

/// The magnitude of an amount.
pub open spec fn magnitude(stored: int) -> int {
    if stored < 0 {
        -stored
    } else {
        stored
    }
}

/// The text `to_human` gives for a stored amount: a `-` for a negative
/// amount, the whole units of its magnitude, a `.`, and the remaining
/// smallest units zero-padded to `precision` places.
pub open spec fn to_human_spec(stored: int, precision: nat) -> Seq<char> {
    let d = pow10(precision) as int;
    let a = magnitude(stored);
    let sign: Seq<char> = if stored < 0 {
        seq!['-']
    } else {
        Seq::empty()
    };
    sign + nat_to_digits((a / d) as nat) + seq!['.'] + pad_left_zeros(
        nat_to_digits((a % d) as nat),
        precision,
    )
}

pub open spec fn has_byte(s: Seq<u8>, b: u8) -> bool {
    exists|i: int| 0 <= i < s.len() && s[i] == b
}

/// The position of the first `b` in `s` (its length when there is none).
pub open spec fn byte_index(s: Seq<u8>, b: u8) -> int
    decreases s.len(),
{
    if s.len() == 0 {
        0
    } else if s[0] == b {
        0
    } else {
        1 + byte_index(s.drop_first(), b)
    }
}

/// The fraction digits that `from_human` parses: the first `p` bytes, or the
/// fraction padded on the right with `0` to `p` places.
pub open spec fn frac_field(frac: Seq<u8>, p: nat) -> Seq<u8> {
    if frac.len() >= p {
        frac.take(p as int)
    } else {
        frac + Seq::new((p - frac.len()) as nat, |_i: int| 48u8)
    }
}

pub open spec fn parsed_or_zero(s: Seq<u8>) -> int {
    match parse_i64_spec(s) {
        Some(v) => v as int,
        None => 0,
    }
}

/// The amount `from_human` reads from the bytes of its input, before any
/// question of overflow: `None` for more than one `.`, or for a whole number
/// that does not parse.
pub open spec fn from_human_value(s: Seq<u8>, p: nat) -> Option<int> {
    let m = pow10(p) as int;
    if !has_byte(s, 46u8) {
        match parse_i64_spec(s) {
            Some(n) => Some(n * m),
            None => None,
        }
    } else {
        let k = byte_index(s, 46u8);
        let rest = s.skip(k + 1);
        if has_byte(rest, 46u8) {
            None
        } else {
            Some(parsed_or_zero(s.take(k)) * m + signed_fraction(s, k, parsed_or_zero(frac_field(rest, p))))
        }
    }
}

/// The whole part (the `k` bytes before the `.`) is written with a `-`.
pub open spec fn negative_whole(s: Seq<u8>, k: int) -> bool {
    k > 0 && s[0] == 45u8
}

/// The fraction counts against the whole part when that part is negative,
/// so `-1.5` is one and a half below zero.
pub open spec fn signed_fraction(s: Seq<u8>, k: int, f: int) -> int {
    if negative_whole(s, k) {
        -f
    } else {
        f
    }
}

pub open spec fn fits_i64(v: int) -> bool {
    i64::MIN <= v <= i64::MAX
}

/// The inputs on which `from_human` panics: a multiplier beyond `i64`, an
/// overflowing product or sum, or a fraction cut inside a UTF-8 character.
pub open spec fn from_human_panics(s: Seq<u8>, p: nat) -> bool {
    let m = pow10(p) as int;
    if p > 18 {
        true
    } else if !has_byte(s, 46u8) {
        match parse_i64_spec(s) {
            Some(n) => !fits_i64(n * m),
            None => false,
        }
    } else {
        let k = byte_index(s, 46u8);
        let rest = s.skip(k + 1);
        if has_byte(rest, 46u8) {
            false
        } else {
            let ip = parsed_or_zero(s.take(k));
            ||| (0 < p < rest.len() && is_continuation_byte(rest[p as int]))
            ||| !fits_i64(ip * m)
            ||| !fits_i64(ip * m + signed_fraction(s, k, parsed_or_zero(frac_field(rest, p))))
        }
    }
}

proof fn lemma_byte_index(s: Seq<u8>, b: u8, k: int)
    requires
        0 <= k <= s.len(),
        forall|j: int| 0 <= j < k ==> s[j] != b,
        k == s.len() || s[k] == b,
    ensures
        byte_index(s, b) == k,
    decreases s.len(),
{
    if s.len() > 0 && k > 0 {
        lemma_byte_index(s.drop_first(), b, k - 1);
    }
}

impl AssetPrecision {
    pub closed spec fn spec_base(&self) -> u8 {
        self.base_precision
    }

    pub closed spec fn spec_outcome(&self) -> u8 {
        self.outcome_precision
    }

    /// The precisions that `config` names.
    pub fn new(config: &AssetsConfig) -> (r: Self)
        ensures
            r.spec_base() == config.base.precision,
            r.spec_outcome() == config.outcome.precision,
    {
        AssetPrecision {
            base_precision: config.base.precision,
            outcome_precision: config.outcome.precision,
        }
    }

    /// Decimal places of the base asset (USDT).
    pub fn base_precision(&self) -> (r: u8)
        ensures
            r == self.spec_base(),
    {
        self.base_precision
    }

    /// Default decimal places of outcome tokens.
    pub fn outcome_precision(&self) -> (r: u8)
        ensures
            r == self.spec_outcome(),
    {
        self.outcome_precision
    }

    pub open spec fn precision_of(&self, asset: Seq<char>) -> u8 {
        if asset == "USDT"@ {
            self.spec_base()
        } else if is_outcome_asset_spec(asset) {
            self.spec_outcome()
        } else {
            self.spec_base()
        }
    }

    /// Decimal places of an asset: USDT and unknown assets take the base
    /// precision, outcome tokens the outcome precision.
    pub fn get_precision(&self, asset: &str) -> (r: u8)
        ensures
            r == self.precision_of(asset@),
    {
        if str_eq(asset, "USDT") {
            self.base_precision
        } else if Self::is_outcome_asset(asset) {
            self.outcome_precision
        } else {
            self.base_precision
        }
    }

    /// Whether the asset is an outcome token, `{market_id}_{outcome}` with an
    /// outcome of `yes`, `no`, `true` or `false`.
    pub fn is_outcome_asset(asset: &str) -> (r: bool)
        ensures
            r == is_outcome_asset_spec(asset@),
    {
        match find_char(asset, '_') {
            None => false,
            Some(k) => {
                let n = asset.unicode_len();
                let outcome = asset.substring_char(k + 1, n);
                let r = str_eq(outcome, "yes") || str_eq(outcome, "no") || str_eq(outcome, "true")
                    || str_eq(outcome, "false");
                assert(outcome@ =~= asset@.skip(k + 1));
                proof {
                    if !r {
                        assert forall|k2: int|
                            0 <= k2 < asset@.len() && asset@[k2] == '_' && (forall|j: int|
                                0 <= j < k2 ==> asset@[j] != '_') implies !is_outcome_name(
                            #[trigger] asset@.skip(k2 + 1),
                        ) by {
                            assert(k2 == k);
                        }
                    }
                }
                r
            },
        }
    }

    /// A stored amount as decimal text: a `-` for a negative amount, the
    /// whole units, a `.`, and the fraction zero-padded to `precision`
    /// places. For example `to_human(1500000, 6)` is `"1.500000"` and
    /// `to_human(-500000, 6)` is `"-0.500000"`.
    pub fn to_human(stored: i64, precision: u8) -> (r: String)
        requires
            precision <= 18,
        ensures
            r@ == to_human_spec(stored as int, precision as nat),
    {
        let divisor = pow10_i64(precision);
        proof {
            lemma_pow10_bound(precision as nat);
        }
        let d = divisor as u64;
        let a: u64 = if stored < 0 {
            (0i128 - stored as i128) as u64
        } else {
            stored as u64
        };
        assert(a as int == magnitude(stored as int));
        let whole = a / d;
        let frac = a % d;
        let mut s = String::new();
        if stored < 0 {
            push_char(&mut s, '-');
        }
        write_u64(whole, &mut s);
        push_char(&mut s, '.');
        let frac_text = u64_to_string(frac);
        pad_zeros_into(&mut s, &frac_text, precision as usize);
        assert(s@ =~= to_human_spec(stored as int, precision as nat));
        s
    }

    /// A decimal text as a stored amount with `precision` places: a whole
    /// number is scaled; `int.frac` takes the fraction cut or zero-padded to
    /// `precision` places, where a part that does not parse counts as 0, and
    /// adds it to the whole part, or subtracts it when the whole part is
    /// written with a `-`. For example `from_human("1.5", 6)` is
    /// `Some(1500000)` and `from_human("-1.5", 6)` is `Some(-1500000)`.
    pub fn from_human(amount: &str, precision: u8) -> (r: Option<i64>)
        requires
            !from_human_panics(amount.spec_bytes(), precision as nat),
        ensures
            match from_human_value(amount.spec_bytes(), precision as nat) {
                Some(v) => r == Some(v as i64),
                None => r is None,
            },
    {
        let s = amount.as_bytes();
        let ghost sb = s@;
        let n = s.len();
        let multiplier = pow10_i64(precision);
        let mut k: usize = 0;
        while k < n && s[k] != 46
            invariant
                n == s@.len(),
                k <= n,
                forall|j: int| 0 <= j < k ==> s@[j] != 46u8,
            decreases n - k,
        {
            k = k + 1;
        }
        proof {
            lemma_byte_index(sb, 46u8, k as int);
        }
        assert(s@.subrange(0, n as int) =~= sb);
        if k == n {
            match parse_i64_range(s, 0, n) {
                Some(v) => Some(v * multiplier),
                None => None,
            }
        } else {
            assert(has_byte(sb, 46u8));
            let mut j: usize = k + 1;
            while j < n
                invariant
                    n == s@.len(),
                    k < n,
                    k + 1 <= j <= n,
                    sb == s@,
                    sb == amount.spec_bytes(),
                    byte_index(sb, 46u8) == k,
                    has_byte(sb, 46u8),
                    forall|t: int| k + 1 <= t < j ==> s@[t] != 46u8,
                decreases n - j,
            {
                if s[j] == 46 {
                    let ghost rest = sb.skip(k + 1);
                    assert(rest[j - k - 1] == 46u8);
                    assert(has_byte(rest, 46u8));
                    assert(from_human_value(sb, precision as nat) is None);
                    return None;
                }
                j = j + 1;
            }
            let ghost rest = sb.skip(k + 1);
            assert(!has_byte(rest, 46u8)) by {
                assert forall|t: int| 0 <= t < rest.len() implies rest[t] != 46u8 by {
                    assert(rest[t] == sb[t + k + 1]);
                }
            }
            assert(sb.subrange(0, k as int) =~= sb.take(k as int));
            let int_part: i64 = match parse_i64_range(s, 0, k) {
                Some(v) => v,
                None => 0,
            };
            let rest_len = n - k - 1;
            let p = precision as usize;
            let frac_part: i64 = if rest_len >= p {
                assert(sb.subrange((k + 1) as int, (k + 1 + p) as int) =~= frac_field(rest, p as nat));
                match parse_i64_range(s, k + 1, k + 1 + p) {
                    Some(v) => v,
                    None => 0,
                }
            } else {
                let mut v: Vec<u8> = Vec::new();
                let mut t: usize = k + 1;
                while t < n
                    invariant
                        n == s@.len(),
                        k + 1 <= t <= n,
                        v@ =~= sb.subrange((k + 1) as int, t as int),
                        sb == s@,
                    decreases n - t,
                {
                    v.push(s[t]);
                    t = t + 1;
                }
                while v.len() < p
                    invariant
                        rest_len < p,
                        rest_len <= v@.len() <= p,
                        v@ =~= rest + Seq::new((v@.len() - rest_len) as nat, |_i: int| 48u8),
                        rest.len() == rest_len,
                    decreases p - v.len(),
                {
                    v.push(48);
                }
                assert(v@ =~= frac_field(rest, p as nat));
                let vl = v.len();
                let vs = v.as_slice();
                assert(vs@.subrange(0, vl as int) =~= v@);
                match parse_i64_range(vs, 0, vl) {
                    Some(x) => x,
                    None => 0,
                }
            };
            assert(negative_whole(sb, k as int) == (k > 0 && s@[0] == 45u8));
            if k > 0 && s[0] == 45 {
                Some(int_part * multiplier - frac_part)
            } else {
                Some(int_part * multiplier + frac_part)
            }
        }
    }

    /// Whether an amount is usable: strictly positive.
    pub fn is_valid_amount(amount: i64) -> (r: bool)
        ensures
            r == (amount > 0),
    {
        amount > 0
    }
}

} // verus!

verus! {

proof fn lemma_digits_len(n: nat, p: nat)
    requires
        p >= 1,
        n < pow10(p),
    ensures
        nat_to_digits(n).len() <= p,
    decreases p,
{
    if n >= 10 {
        assert(n / 10 < pow10((p - 1) as nat));
        if p == 1 {
            assert(false);
        } else {
            lemma_digits_len(n / 10, (p - 1) as nat);
        }
    }
}

proof fn lemma_digits_value_append(a: Seq<u8>, b: Seq<u8>)
    ensures
        digits_value(a + b) == digits_value(a) * pow10(b.len()) + digits_value(b),
    decreases b.len(),
{
    if b.len() == 0 {
        assert(a + b =~= a);
        assert(pow10(0) == 1);
        assert(digits_value(a) * 1 == digits_value(a));
    } else {
        let b1 = b.drop_last();
        lemma_digits_value_append(a, b1);
        assert((a + b).drop_last() =~= a + b1);
        assert((a + b).last() == b.last());
        let l = (b.last() - 48) as nat;
        let va = digits_value(a);
        let vb1 = digits_value(b1);
        let pk = pow10(b1.len());
        assert(digits_value(a + b) == (va * pk + vb1) * 10 + l);
        assert(digits_value(b) == vb1 * 10 + l);
        assert(pow10(b.len()) == 10 * pk);
        assert((va * pk + vb1) * 10 + l == va * (10 * pk) + (vb1 * 10 + l)) by (nonlinear_arith);
        assert(va * (10 * pk) == va * pow10(b.len()));
    }
}

proof fn lemma_zeros_value(k: nat)
    ensures
        digits_value(Seq::new(k, |_i: int| 48u8)) == 0,
    decreases k,
{
    if k > 0 {
        lemma_zeros_value((k - 1) as nat);
        assert(Seq::new(k, |_i: int| 48u8).drop_last() =~= Seq::new((k - 1) as nat, |_i: int| 48u8));
    }
}

/// The precision rules: an outcome token `{market_id}_{outcome}`, with a
/// market id free of `_` and an outcome of `yes`, `no`, `true` or `false`,
/// takes the outcome precision; USDT takes the base precision.
pub proof fn law_precision_by_asset(p: AssetPrecision, market_id: Seq<char>, outcome: Seq<char>)
    requires
        forall|i: int| 0 <= i < market_id.len() ==> market_id[i] != '_',
        is_outcome_name(outcome),
    ensures
        is_outcome_asset_spec(market_id + "_"@ + outcome),
        p.precision_of(market_id + "_"@ + outcome) == p.spec_outcome(),
        p.precision_of("USDT"@) == p.spec_base(),
{
    reveal_strlit("_");
    reveal_strlit("USDT");
    let a = market_id + "_"@ + outcome;
    let k = market_id.len() as int;
    assert(a[k] == '_');
    assert(a.skip(k + 1) =~= outcome);
    assert(forall|j: int| 0 <= j < k ==> a[j] == market_id[j]);
    assert(is_outcome_asset_spec(a));
    if a == "USDT"@ {
        assert(a[k] == "USDT"@[k]);
    }
}

/// Reading back the text of a stored amount gives the amount:
/// `from_human(&to_human(x, p), p) == Some(x)` for every `x` and `p <= 18`,
/// and that call does not panic.
pub proof fn lemma_to_human_from_human(stored: i64, precision: u8)
    requires
        precision <= 18,
    ensures
        !from_human_panics(
            vstd::utf8::encode_utf8(to_human_spec(stored as int, precision as nat)),
            precision as nat,
        ),
        from_human_value(
            vstd::utf8::encode_utf8(to_human_spec(stored as int, precision as nat)),
            precision as nat,
        ) == Some(stored as int),
{
    let p = precision as nat;
    let x = stored as int;
    lemma_pow10_bound(p);
    let d = pow10(p) as int;
    let a = magnitude(x);
    let q = a / d;
    let r = a % d;
    lemma_fundamental_div_mod(a, d);
    lemma_mod_pos_bound(a, d);
    assert(0 <= q * d <= a) by (nonlinear_arith)
        requires
            a == d * q + r,
            0 <= r < d,
            d >= 1,
            a >= 0,
    ;
    assert(q <= a) by (nonlinear_arith)
        requires
            q * d <= a,
            d >= 1,
            a >= 0,
            q >= 0,
    ;
    let ic = nat_to_digits(q as nat);
    let rd = nat_to_digits(r as nat);
    lemma_digits_shape(q as nat);
    lemma_digits_shape(r as nat);
    let sign: Seq<char> = if x < 0 {
        seq!['-']
    } else {
        Seq::empty()
    };
    let w = sign + ic;
    let fc = pad_left_zeros(rd, p);
    let t = w + seq!['.'] + fc;
    assert(to_human_spec(x, p) =~= t);
    if p >= 1 {
        lemma_digits_len(r as nat, p);
    }
    assert(all_decimal_chars(fc)) by {
        assert forall|i: int| 0 <= i < fc.len() implies '0' <= #[trigger] fc[i] <= '9' by {
            if rd.len() < p {
                let z = (p - rd.len()) as int;
                if i >= z {
                    assert(fc[i] == rd[i - z]);
                }
            }
        }
    }
    let k = w.len() as int;
    assert(forall|i: int| 0 <= i < k ==> (#[trigger] t[i] == '-' || '0' <= t[i] <= '9')) by {
        assert forall|i: int| 0 <= i < k implies (#[trigger] t[i] == '-' || '0' <= t[i] <= '9') by {
            assert(t[i] == w[i]);
            if x >= 0 {
                assert(w[i] == ic[i]);
            } else if i > 0 {
                assert(w[i] == ic[i - 1]);
            }
        }
    }
    assert(vstd::utf8::is_ascii_chars(t)) by {
        assert forall|i: int| 0 <= i < t.len() implies '\0' <= #[trigger] t[i] <= '\u{7f}' by {
            if i > k {
                assert(t[i] == fc[i - k - 1]);
            }
        }
    }
    vstd::utf8::is_ascii_chars_encode_utf8(t);
    let b = vstd::utf8::encode_utf8(t);
    assert(b =~= ascii_bytes(t));
    assert(b[k] == 46u8);
    assert(has_byte(b, 46u8));
    assert(forall|j: int| 0 <= j < k ==> b[j] != 46u8) by {
        assert forall|j: int| 0 <= j < k implies b[j] != 46u8 by {
            assert(t[j] == '-' || '0' <= t[j] <= '9');
        }
    }
    lemma_byte_index(b, 46u8, k);
    let rest = b.skip(k + 1);
    assert(rest =~= ascii_bytes(fc));
    assert(!has_byte(rest, 46u8)) by {
        assert forall|j: int| 0 <= j < rest.len() implies rest[j] != 46u8 by {
            assert(rest[j] == fc[j] as u8);
        }
    }
    assert(b.take(k) =~= ascii_bytes(w));
    if x < 0 {
        assert(w == seq!['-'] + ic);
        lemma_parse_negative_digits(ic, q as nat);
        assert(parsed_or_zero(b.take(k)) == -q);
        assert(b[0] == 45u8);
        assert(negative_whole(b, k));
    } else {
        assert(w =~= ic);
        lemma_parse_digits(ic, q as nat);
        assert(parsed_or_zero(b.take(k)) == q);
        assert(b[0] == ic[0] as u8);
        assert(!negative_whole(b, k));
    }
    if p == 0 {
        assert(d == 1);
        assert(r == 0);
        assert(frac_field(rest, p) =~= Seq::<u8>::empty());
        assert(parsed_or_zero(frac_field(rest, p)) == 0);
    } else {
        assert(fc.len() == p);
        assert(frac_field(rest, p) =~= ascii_bytes(fc));
        if rd.len() < p {
            let z = (p - rd.len()) as nat;
            assert(ascii_bytes(fc) =~= Seq::new(z, |_i: int| 48u8) + ascii_bytes(rd));
            lemma_digits_value_append(Seq::new(z, |_i: int| 48u8), ascii_bytes(rd));
            lemma_zeros_value(z);
        } else {
            assert(fc =~= rd);
        }
        assert(digits_value(ascii_bytes(fc)) == r);
        assert(r <= i64::MAX);
        lemma_parse_digits(fc, r as nat);
        assert(parsed_or_zero(frac_field(rest, p)) == r);
    }
    assert(pow10(p) as int == d);
    if x < 0 {
        assert((-q) * d == -(q * d)) by (nonlinear_arith);
        assert((-q) * d + (-r) == x);
    } else {
        assert(q * d + r == x);
    }
}

/// A run of decimal digits is worth less than ten to its length.
proof fn lemma_digits_value_bound(s: Seq<u8>)
    requires
        all_digit_bytes(s),
    ensures
        digits_value(s) < pow10(s.len()),
    decreases s.len(),
{
    if s.len() > 0 {
        let t = s.drop_last();
        assert(all_digit_bytes(t)) by {
            assert forall|i: int| 0 <= i < t.len() implies is_digit_byte(#[trigger] t[i]) by {
                assert(t[i] == s[i]);
            }
        }
        lemma_digits_value_bound(t);
        let v = digits_value(t);
        let d = (s.last() - 48) as nat;
        let m = pow10(t.len());
        assert(is_digit_byte(s[s.len() - 1]));
        assert(d <= 9);
        assert(v * 10 + d < m * 10) by (nonlinear_arith)
            requires
                v < m,
                d <= 9,
        ;
    }
}

proof fn lemma_decimal_chars_bytes(cs: Seq<char>)
    requires
        all_decimal_chars(cs),
    ensures
        all_digit_bytes(ascii_bytes(cs)),
{
    assert forall|i: int| 0 <= i < ascii_bytes(cs).len() implies is_digit_byte(
        #[trigger] ascii_bytes(cs)[i],
    ) by {
        assert('0' <= cs[i] <= '9');
    }
}

/// Reading a decimal text `w.f` (digits only, no sign) at `p` places gives
/// `w` whole units and the fraction in units of `10^-p`: a fraction shorter
/// than `p` counts as if followed by zeros, so `"1.05"` at 6 places is
/// 1050000; a longer one is cut after `p` digits. The call does not panic
/// when that amount fits in `i64`.
pub proof fn law_from_human_reads_decimal(w: Seq<char>, f: Seq<char>, precision: u8)
    requires
        all_decimal_chars(w),
        all_decimal_chars(f),
        precision <= 18,
        digits_value(ascii_bytes(w)) * pow10(precision as nat) + (if f.len() >= precision {
            digits_value(ascii_bytes(f.take(precision as int)))
        } else {
            digits_value(ascii_bytes(f)) * pow10((precision - f.len()) as nat)
        }) <= i64::MAX,
    ensures
        !from_human_panics(vstd::utf8::encode_utf8(w + seq!['.'] + f), precision as nat),
        from_human_value(vstd::utf8::encode_utf8(w + seq!['.'] + f), precision as nat) == Some(
            (digits_value(ascii_bytes(w)) * pow10(precision as nat) + (if f.len() >= precision {
                digits_value(ascii_bytes(f.take(precision as int)))
            } else {
                digits_value(ascii_bytes(f)) * pow10((precision - f.len()) as nat)
            })) as int,
        ),
{
    let p = precision as nat;
    lemma_pow10_bound(p);
    let m = pow10(p) as int;
    let wv = digits_value(ascii_bytes(w)) as int;
    let fv: int = if f.len() >= p {
        digits_value(ascii_bytes(f.take(p as int))) as int
    } else {
        (digits_value(ascii_bytes(f)) * pow10((p - f.len()) as nat)) as int
    };
    assert(fv >= 0);
    assert(wv * m >= 0) by (nonlinear_arith)
        requires
            wv >= 0,
            m >= 1,
    ;
    assert(wv <= wv * m) by (nonlinear_arith)
        requires
            wv >= 0,
            m >= 1,
    ;
    let t = w + seq!['.'] + f;
    let k = w.len() as int;
    assert(vstd::utf8::is_ascii_chars(t)) by {
        assert forall|i: int| 0 <= i < t.len() implies '\0' <= #[trigger] t[i] <= '\u{7f}' by {
            if i < k {
                assert(t[i] == w[i]);
            } else if i > k {
                assert(t[i] == f[i - k - 1]);
            }
        }
    }
    vstd::utf8::is_ascii_chars_encode_utf8(t);
    let b = vstd::utf8::encode_utf8(t);
    assert(b =~= ascii_bytes(t));
    assert(b[k] == 46u8);
    assert(has_byte(b, 46u8));
    assert forall|j: int| 0 <= j < k implies b[j] != 46u8 by {
        assert(t[j] == w[j]);
    }
    lemma_byte_index(b, 46u8, k);
    let rest = b.skip(k + 1);
    assert(rest =~= ascii_bytes(f));
    lemma_decimal_chars_bytes(f);
    lemma_decimal_chars_bytes(w);
    assert(!has_byte(rest, 46u8)) by {
        assert forall|j: int| 0 <= j < rest.len() implies rest[j] != 46u8 by {
            assert(is_digit_byte(rest[j]));
        }
    }
    assert(b.take(k) =~= ascii_bytes(w));
    if k == 0 {
        assert(ascii_bytes(w) =~= Seq::<u8>::empty());
        assert(parsed_or_zero(b.take(k)) == 0);
        assert(!negative_whole(b, k));
    } else {
        lemma_parse_digits(w, wv as nat);
        assert(parsed_or_zero(b.take(k)) == wv);
        assert(b[0] == w[0] as u8);
        assert(!negative_whole(b, k));
    }
    if f.len() >= p {
        let ft = f.take(p as int);
        assert(frac_field(rest, p) =~= ascii_bytes(ft));
        if p == 0 {
            assert(ascii_bytes(ft) =~= Seq::<u8>::empty());
            assert(parsed_or_zero(frac_field(rest, p)) == 0);
        } else {
            assert(all_decimal_chars(ft)) by {
                assert forall|i: int| 0 <= i < ft.len() implies '0' <= #[trigger] ft[i] <= '9' by {
                    assert(ft[i] == f[i]);
                }
            }
            lemma_decimal_chars_bytes(ft);
            lemma_digits_value_bound(ascii_bytes(ft));
            lemma_parse_digits(ft, digits_value(ascii_bytes(ft)));
            assert(parsed_or_zero(frac_field(rest, p)) == fv);
        }
        if 0 < p < rest.len() {
            assert(is_digit_byte(rest[p as int]));
        }
    } else {
        let z = (p - f.len()) as nat;
        let fc = f + Seq::new(z, |_i: int| '0');
        assert(ascii_bytes(fc) =~= ascii_bytes(f) + Seq::new(z, |_i: int| 48u8));
        assert(frac_field(rest, p) =~= ascii_bytes(fc));
        lemma_digits_value_append(ascii_bytes(f), Seq::new(z, |_i: int| 48u8));
        lemma_zeros_value(z);
        assert(digits_value(ascii_bytes(fc)) == fv);
        assert(all_decimal_chars(fc)) by {
            assert forall|i: int| 0 <= i < fc.len() implies '0' <= #[trigger] fc[i] <= '9' by {
                if i < f.len() {
                    assert(fc[i] == f[i]);
                }
            }
        }
        lemma_decimal_chars_bytes(fc);
        lemma_digits_value_bound(ascii_bytes(fc));
        lemma_parse_digits(fc, digits_value(ascii_bytes(fc)));
        assert(parsed_or_zero(frac_field(rest, p)) == fv);
    }
    assert(signed_fraction(b, k, parsed_or_zero(frac_field(rest, p))) == fv);
}

} // verus!
