//! Decimal text for integers: rendering and parsing.
//!
//! Rendering follows `{}` on Rust integers; parsing follows `i64::from_str`
//! (an optional `+` or `-`, then at least one ASCII digit, and the value must
//! fit in `i64`), stated over the UTF-8 bytes of the input.
use vstd::prelude::*;

verus! {

/// The ASCII character of a decimal digit.
pub open spec fn digit_char(d: int) -> char {
    if d == 0 {
        '0'
    } else if d == 1 {
        '1'
    } else if d == 2 {
        '2'
    } else if d == 3 {
        '3'
    } else if d == 4 {
        '4'
    } else if d == 5 {
        '5'
    } else if d == 6 {
        '6'
    } else if d == 7 {
        '7'
    } else if d == 8 {
        '8'
    } else {
        '9'
    }
}

/// The decimal digits of a natural number, most significant first, without
/// leading zeros (zero is "0").
pub open spec fn nat_to_digits(n: nat) -> Seq<char>
    decreases n,
{
    if n < 10 {
        seq![digit_char(n as int)]
    } else {
        nat_to_digits(n / 10).push(digit_char((n % 10) as int))
    }
}

/// The text of an integer as `{}` prints it: a `-` before negative values.
pub open spec fn int_to_decimal(i: int) -> Seq<char> {
    if i < 0 {
        seq!['-'] + nat_to_digits((-i) as nat)
    } else {
        nat_to_digits(i as nat)
    }
}

/// `s` with `'0'` added in front until it is `width` characters long.
pub open spec fn pad_left_zeros(s: Seq<char>, width: nat) -> Seq<char> {
    if s.len() >= width {
        s
    } else {
        Seq::new((width - s.len()) as nat, |_i: int| '0') + s
    }
}

/// Ten to the power `p`.
pub open spec fn pow10(p: nat) -> nat
    decreases p,
{
    if p == 0 {
        1
    } else {
        10 * pow10((p - 1) as nat)
    }
}

pub open spec fn is_digit_byte(b: u8) -> bool {
    48 <= b <= 57
}

pub open spec fn all_digit_bytes(s: Seq<u8>) -> bool {
    forall|i: int| 0 <= i < s.len() ==> is_digit_byte(#[trigger] s[i])
}

/// The value of a run of ASCII digits.
pub open spec fn digits_value(s: Seq<u8>) -> nat
    decreases s.len(),
{
    if s.len() == 0 {
        0
    } else {
        digits_value(s.drop_last()) * 10 + (s.last() - 48) as nat
    }
}

/// What `i64::from_str` gives on the bytes `s`: `None` where it fails.
pub open spec fn parse_i64_spec(s: Seq<u8>) -> Option<i64> {
    if s.len() == 0 {
        None
    } else {
        let neg = s[0] == 45u8;
        let body = if s[0] == 45u8 || s[0] == 43u8 {
            s.skip(1)
        } else {
            s
        };
        if body.len() == 0 || !all_digit_bytes(body) {
            None
        } else {
            let v: int = if neg {
                -(digits_value(body) as int)
            } else {
                digits_value(body) as int
            };
            if i64::MIN <= v && v <= i64::MAX {
                Some(v as i64)
            } else {
                None
            }
        }
    }
}

/// Appends one character to a string (`String::push`).
#[verifier::external_body]
pub(crate) fn push_char(s: &mut String, c: char)
    ensures
        final(s)@ == old(s)@.push(c),
{
    s.push(c);
}

fn digit_to_char(d: u64) -> (c: char)
    requires
        d < 10,
    ensures
        c == digit_char(d as int),
{
    if d == 0 {
        '0'
    } else if d == 1 {
        '1'
    } else if d == 2 {
        '2'
    } else if d == 3 {
        '3'
    } else if d == 4 {
        '4'
    } else if d == 5 {
        '5'
    } else if d == 6 {
        '6'
    } else if d == 7 {
        '7'
    } else if d == 8 {
        '8'
    } else {
        '9'
    }
}

/// Appends the decimal digits of `n` to `out`.
pub fn write_u64(n: u64, out: &mut String)
    ensures
        final(out)@ == old(out)@ + nat_to_digits(n as nat),
    decreases n,
{
    let ghost start = out@;
    if n >= 10 {
        write_u64(n / 10, out);
    }
    push_char(out, digit_to_char(n % 10));
    proof {
        if n >= 10 {
            assert(out@ =~= start + nat_to_digits(n as nat));
        } else {
            assert(out@ =~= start + nat_to_digits(n as nat));
        }
    }
}

/// The decimal text of a `u64`.
pub fn u64_to_string(n: u64) -> (r: String)
    ensures
        r@ == nat_to_digits(n as nat),
{
    let mut s = String::new();
    write_u64(n, &mut s);
    assert(s@ =~= nat_to_digits(n as nat));
    s
}

/// The decimal text of an `i64`, as `i.to_string()` gives it.
pub fn i64_to_string(i: i64) -> (r: String)
    ensures
        r@ == int_to_decimal(i as int),
{
    let mut s = String::new();
    if i < 0 {
        push_char(&mut s, '-');
        let m: u64 = (0i128 - i as i128) as u64;
        write_u64(m, &mut s);
        assert(s@ =~= int_to_decimal(i as int));
    } else {
        write_u64(i as u64, &mut s);
        assert(s@ =~= int_to_decimal(i as int));
    }
    s
}

/// Appends `digits` to `out`, with `'0'` in front of it up to `width`
/// characters.
pub fn pad_zeros_into(out: &mut String, digits: &String, width: usize)
    ensures
        final(out)@ == old(out)@ + pad_left_zeros(digits@, width as nat),
{
    let ghost start = out@;
    let len = digits.as_str().unicode_len();
    if len < width {
        let mut k: usize = 0;
        while k < width - len
            invariant
                len == digits@.len(),
                len < width,
                k <= width - len,
                out@ =~= start + Seq::new(k as nat, |_i: int| '0'),
            decreases width - len - k,
        {
            push_char(out, '0');
            k = k + 1;
        }
    }
    out.append(digits.as_str());
}

/// `10^p`.
pub fn pow10_i64(p: u8) -> (r: i64)
    requires
        p <= 18,
    ensures
        r as int == pow10(p as nat),
{
    let mut r: i64 = 1;
    let mut k: u8 = 0;
    while k < p
        invariant
            k <= p,
            p <= 18,
            r as int == pow10(k as nat),
            r <= 1_000_000_000_000_000_000,
        decreases p - k,
    {
        proof {
            lemma_pow10_bound((k + 1) as nat);
        }
        r = r * 10;
        k = k + 1;
    }
    r
}

/// Powers of ten grow with the exponent.
pub proof fn lemma_pow10_monotone(p: nat, q: nat)
    requires
        p <= q,
    ensures
        1 <= pow10(p) <= pow10(q),
    decreases q,
{
    if q > p {
        lemma_pow10_monotone(p, (q - 1) as nat);
    } else if p > 0 {
        lemma_pow10_monotone((p - 1) as nat, (p - 1) as nat);
    }
}

pub proof fn lemma_pow10_bound(p: nat)
    requires
        p <= 18,
    ensures
        1 <= pow10(p) <= 1_000_000_000_000_000_000,
{
    lemma_pow10_monotone(p, 18);
    reveal_with_fuel(pow10, 19);
}

/// Parses `s[lo..hi]` as `i64::from_str` does.
pub fn parse_i64_range(s: &[u8], lo: usize, hi: usize) -> (r: Option<i64>)
    requires
        lo <= hi <= s@.len(),
    ensures
        r == parse_i64_spec(s@.subrange(lo as int, hi as int)),
{
    let ghost t = s@.subrange(lo as int, hi as int);
    if lo == hi {
        return None;
    }
    let first = s[lo];
    let neg = first == 45;
    let start: usize = if first == 45 || first == 43 {
        lo + 1
    } else {
        lo
    };
    let ghost body = if first == 45 || first == 43 {
        t.skip(1)
    } else {
        t
    };
    assert(body =~= s@.subrange(start as int, hi as int));
    assert(t[0] == first);
    if start == hi {
        return None;
    }
    let cap: u128 = 9_223_372_036_854_775_809;
    let mut acc: u128 = 0;
    let mut i: usize = start;
    while i < hi
        invariant
            t == s@.subrange(lo as int, hi as int),
            lo < hi,
            t[0] == first,
            neg == (first == 45),
            body == (if first == 45 || first == 43 { t.skip(1) } else { t }),
            lo <= start <= i <= hi <= s@.len(),
            all_digit_bytes(s@.subrange(start as int, i as int)),
            body == s@.subrange(start as int, hi as int),
            acc <= cap,
            cap == 9_223_372_036_854_775_809,
            acc == if digits_value(s@.subrange(start as int, i as int)) >= cap {
                cap as nat
            } else {
                digits_value(s@.subrange(start as int, i as int))
            },
        decreases hi - i,
    {
        let b = s[i];
        let ghost pre = s@.subrange(start as int, i as int);
        let ghost nxt = s@.subrange(start as int, i + 1);
        assert(nxt.drop_last() =~= pre);
        if b < 48 || b > 57 {
            assert(!all_digit_bytes(body)) by {
                assert(body[i - start] == b);
            }
            return None;
        }
        let d = (b - 48) as u128;
        if acc < cap {
            let t2 = acc * 10 + d;
            acc = if t2 > cap {
                cap
            } else {
                t2
            };
        }
        i = i + 1;
        assert(all_digit_bytes(nxt)) by {
            assert forall|j: int| 0 <= j < nxt.len() implies is_digit_byte(#[trigger] nxt[j]) by {
                if j < pre.len() {
                    assert(nxt[j] == pre[j]);
                }
            }
        }
    }
    assert(s@.subrange(start as int, hi as int) =~= body);
    if neg {
        if acc <= 9_223_372_036_854_775_808 {
            let v: i128 = 0i128 - (acc as i128);
            Some(v as i64)
        } else {
            None
        }
    } else {
        if acc <= 9_223_372_036_854_775_807 {
            Some(acc as i64)
        } else {
            None
        }
    }
}

/// The bytes of a text made of ASCII characters.
pub open spec fn ascii_bytes(cs: Seq<char>) -> Seq<u8> {
    Seq::new(cs.len(), |i: int| cs[i] as u8)
}

pub open spec fn all_decimal_chars(cs: Seq<char>) -> bool {
    forall|i: int| 0 <= i < cs.len() ==> '0' <= #[trigger] cs[i] <= '9'
}

pub proof fn lemma_digit_char(d: int)
    requires
        0 <= d < 10,
    ensures
        '0' <= digit_char(d) <= '9',
        digit_char(d) as u8 == 48 + d,
{
}

/// The digits of a number are decimal digits whose value is the number.
pub proof fn lemma_digits_shape(n: nat)
    ensures
        nat_to_digits(n).len() >= 1,
        all_decimal_chars(nat_to_digits(n)),
        digits_value(ascii_bytes(nat_to_digits(n))) == n,
    decreases n,
{
    if n < 10 {
        lemma_digit_char(n as int);
        let b = ascii_bytes(nat_to_digits(n));
        assert(b.drop_last() =~= Seq::<u8>::empty());
        assert(b.last() == 48 + n);
        assert(digits_value(b) == digits_value(b.drop_last()) * 10 + (b.last() - 48) as nat);
    } else {
        lemma_digits_shape(n / 10);
        lemma_digit_char((n % 10) as int);
        let pre = nat_to_digits(n / 10);
        let all = nat_to_digits(n);
        let ab = ascii_bytes(all);
        assert(ab.drop_last() =~= ascii_bytes(pre));
        assert(ab.last() == 48 + n % 10);
        assert(digits_value(ab) == digits_value(ab.drop_last()) * 10 + (ab.last() - 48) as nat);
        assert(digits_value(ab) == (n / 10) * 10 + n % 10);
        assert(all_decimal_chars(all)) by {
            assert forall|i: int| 0 <= i < all.len() implies '0' <= #[trigger] all[i] <= '9' by {
                if i < pre.len() {
                    assert(all[i] == pre[i]);
                }
            }
        }
    }
}

/// A run of decimal digits whose value fits parses to that value.
pub proof fn lemma_parse_digits(cs: Seq<char>, v: nat)
    requires
        cs.len() >= 1,
        all_decimal_chars(cs),
        digits_value(ascii_bytes(cs)) == v,
        v <= i64::MAX,
    ensures
        parse_i64_spec(ascii_bytes(cs)) == Some(v as i64),
{
    let b = ascii_bytes(cs);
    assert(b[0] != 45u8 && b[0] != 43u8);
    assert(all_digit_bytes(b));
}

/// A `-` and then a run of decimal digits whose value is at most 2^63
/// parses to the negated value.
pub proof fn lemma_parse_negative_digits(cs: Seq<char>, v: nat)
    requires
        cs.len() >= 1,
        all_decimal_chars(cs),
        digits_value(ascii_bytes(cs)) == v,
        v <= 9223372036854775808,
    ensures
        parse_i64_spec(ascii_bytes(seq!['-'] + cs)) == Some((-(v as int)) as i64),
{
    let b = ascii_bytes(seq!['-'] + cs);
    assert(b[0] == 45u8);
    assert(b.skip(1) =~= ascii_bytes(cs));
    assert(all_digit_bytes(ascii_bytes(cs)));
}

/// Reading back the text of an integer gives the integer: what
/// `i64_to_string(n)` writes, `parse_i64_range` reads as `n`, for every
/// `i64` (the text is plain ASCII).
pub proof fn lemma_decimal_roundtrip(n: i64)
    ensures
        vstd::utf8::is_ascii_chars(int_to_decimal(n as int)),
        vstd::utf8::encode_utf8(int_to_decimal(n as int)) == ascii_bytes(int_to_decimal(n as int)),
        parse_i64_spec(vstd::utf8::encode_utf8(int_to_decimal(n as int))) == Some(n),
{
    let t = int_to_decimal(n as int);
    let m: nat = if n < 0 { (-(n as int)) as nat } else { n as nat };
    let ds = nat_to_digits(m);
    lemma_digits_shape(m);
    assert(vstd::utf8::is_ascii_chars(t)) by {
        assert forall|i: int| 0 <= i < t.len() implies '\0' <= #[trigger] t[i] <= '\u{7f}' by {
            if n < 0 {
                if i > 0 {
                    assert(t[i] == ds[i - 1]);
                }
            } else {
                assert(t[i] == ds[i]);
            }
        }
    }
    vstd::utf8::is_ascii_chars_encode_utf8(t);
    let b = vstd::utf8::encode_utf8(t);
    assert(b =~= ascii_bytes(t));
    if n < 0 {
        assert(b[0] == 45u8);
        assert(b.skip(1) =~= ascii_bytes(ds));
        assert(all_digit_bytes(ascii_bytes(ds)));
    } else {
        assert(t == ds);
        lemma_parse_digits(ds, m);
    }
}

} // verus!
