//! Text building blocks: decimal rendering of integers and prices, text
//! comparison and Unicode lowercasing.

use vstd::prelude::*;
use vstd::string::*;
use vstd::arithmetic::power::lemma_pow0;
use vstd::arithmetic::power2::{lemma_pow2_unfold, pow2};

verus! {

/// The character of the decimal digit `d` (for `d < 10`).
pub open spec fn digit_char(d: nat) -> char {
    (48 + d) as char
}

/// The decimal representation of `n`, without leading zeros ("0" for zero).
pub open spec fn digits(n: nat) -> Seq<char>
    decreases n,
{
    if n < 10 {
        seq![digit_char(n)]
    } else {
        digits(n / 10).push(digit_char(n % 10))
    }
}

/// `s` left-padded with '0' up to `width` characters.
pub open spec fn pad_zeros(s: Seq<char>, width: nat) -> Seq<char> {
    if s.len() >= width {
        s
    } else {
        Seq::new((width - s.len()) as nat, |i: int| '0') + s
    }
}

/// `n` in decimal, zero-padded to at least `width` digits (as `{:0width$}`).
pub open spec fn padded(n: nat, width: nat) -> Seq<char> {
    pad_zeros(digits(n), width)
}

/// A price in ten-thousandths of a yuan, written with four decimals
/// (as `{:.4}` writes the exact amount).
pub open spec fn price4_text(p: nat) -> Seq<char> {
    digits(p / 10000) + seq!['.'] + padded(p % 10000, 4)
}

/// 2^52 * 10000: `p * 2^k` reaches it exactly when `(p / 10000) * 2^k` has
/// the 53 binary digits of a double's significand before the point.
pub const SIGNIFICAND_SCALE: u128 = 45035996273704960000;

/// The first `k` from `k` up (at most 80) with `p * 2^k` at or above
/// `SIGNIFICAND_SCALE`: the scale at which the double nearest to
/// `p / 10000` is an integer.
pub open spec fn scale_from(p: nat, k: nat) -> nat
    decreases 80 - k,
{
    if k >= 80 || p * pow2(k) >= SIGNIFICAND_SCALE {
        k
    } else {
        scale_from(p, k + 1)
    }
}

/// Whether the double nearest to `p / 10000` lies above it: scaled by
/// `2^scale_from(p, 0)`, the amount has a fractional part over one half.
pub open spec fn nearest_double_above(p: nat) -> bool {
    (p * pow2(scale_from(p, 0))) % 10000 > 5000
}

/// The price `p` (ten-thousandths of a yuan) in hundredths, rounded as the
/// double nearest to `p / 10000` rounds: to the nearest hundredth; a tie
/// that the double holds exactly (`p` a multiple of 625) goes to the even
/// hundredth, any other tie the way the double lies from it.
pub open spec fn hundredths(p: nat) -> nat {
    let q = p / 100;
    let r = p % 100;
    if r < 50 {
        q
    } else if r > 50 {
        q + 1
    } else if p % 625 == 0 {
        if q % 2 == 0 {
            q
        } else {
            q + 1
        }
    } else if nearest_double_above(p) {
        q + 1
    } else {
        q
    }
}

/// A price in ten-thousandths of a yuan, written with two decimals as
/// `{:.2}` writes the double nearest to it.
pub open spec fn price2_text(p: nat) -> Seq<char> {
    let h = hundredths(p);
    digits(h / 100) + seq!['.'] + padded(h % 100, 2)
}

/// `n` copies of the character `c`.
pub open spec fn repeat_char(c: char, n: nat) -> Seq<char> {
    Seq::new(n, |i: int| c)
}

/// The ASCII lowercase of one character: 'A'..='Z' become 'a'..='z'.
pub open spec fn ascii_lower_char(c: char) -> char {
    if 'A' <= c && c <= 'Z' {
        ((c as int) + 32) as char
    } else {
        c
    }
}

/// Whether every character of `s` is ASCII.
pub open spec fn all_ascii(s: Seq<char>) -> bool {
    forall|i: int| 0 <= i < s.len() ==> (#[trigger] s[i] as int) < 128
}

/// The Unicode lowercase of a text, as `str::to_lowercase` computes it.
pub uninterp spec fn lowercase(s: Seq<char>) -> Seq<char>;

/// Calls `str::to_lowercase`. Claimed: the result is `lowercase` of the
/// input, and for an all-ASCII input it is the input with 'A'..='Z' mapped
/// to 'a'..='z' (the Unicode lowercase mapping of ASCII letters).
#[verifier::external_body]
pub fn to_lowercase(s: &str) -> (r: String)
    ensures
        r@ == lowercase(s@),
        all_ascii(s@) ==> r@ == s@.map_values(|c: char| ascii_lower_char(c)),
{
    s.to_lowercase()
}

/// The one-character text of the decimal digit `d`.
fn digit_str(d: u64) -> (s: &'static str)
    requires
        d < 10,
    ensures
        s@ == seq![digit_char(d as nat)],
{
    proof {
        reveal_strlit("0");
        reveal_strlit("1");
        reveal_strlit("2");
        reveal_strlit("3");
        reveal_strlit("4");
        reveal_strlit("5");
        reveal_strlit("6");
        reveal_strlit("7");
        reveal_strlit("8");
        reveal_strlit("9");
    }
    if d == 0 {
        "0"
    } else if d == 1 {
        "1"
    } else if d == 2 {
        "2"
    } else if d == 3 {
        "3"
    } else if d == 4 {
        "4"
    } else if d == 5 {
        "5"
    } else if d == 6 {
        "6"
    } else if d == 7 {
        "7"
    } else if d == 8 {
        "8"
    } else {
        "9"
    }
}

/// Appends the decimal representation of `n`.
pub fn push_digits(out: &mut String, n: u64)
    ensures
        final(out)@ == old(out)@ + digits(n as nat),
    decreases n,
{
    if n >= 10 {
        push_digits(out, n / 10);
    }
    out.append(digit_str(n % 10));
    proof {
        assert(out@ =~= old(out)@ + digits(n as nat));
    }
}


/// The number of decimal digits of `n`.
pub fn digit_count(n: u64) -> (r: u64)
    ensures
        r == digits(n as nat).len(),
        1 <= r <= n as int + 1,
    decreases n,
{
    if n < 10 {
        1
    } else {
        let k = digit_count(n / 10);
        k + 1
    }
}

/// Appends `n` copies of the character `c`, given as a one-character text.
pub fn push_repeated(out: &mut String, c: &str, n: u64)
    requires
        c@.len() == 1,
    ensures
        final(out)@ == old(out)@ + repeat_char(c@[0], n as nat),
{
    let mut i: u64 = 0;
    while i < n
        invariant
            c@.len() == 1,
            i <= n,
            out@ == old(out)@ + repeat_char(c@[0], i as nat),
        decreases n - i,
    {
        out.append(c);
        i = i + 1;
        assert(out@ =~= old(out)@ + repeat_char(c@[0], i as nat));
    }
}

/// Appends `n` in decimal, zero-padded to at least `width` digits.
pub fn push_padded(out: &mut String, n: u64, width: u64)
    ensures
        final(out)@ == old(out)@ + padded(n as nat, width as nat),
{
    let len = digit_count(n);
    if len < width {
        proof {
            reveal_strlit("0");
        }
        push_repeated(out, "0", width - len);
    }
    push_digits(out, n);
    assert(out@ =~= old(out)@ + padded(n as nat, width as nat));
}

/// Appends a price in ten-thousandths of a yuan with four decimals.
pub fn push_price4(out: &mut String, p: u32)
    ensures
        final(out)@ == old(out)@ + price4_text(p as nat),
{
    push_digits(out, (p / 10000) as u64);
    proof {
        reveal_strlit(".");
    }
    out.append(".");
    push_padded(out, (p % 10000) as u64, 4);
    assert(out@ =~= old(out)@ + price4_text(p as nat));
}

/// `p * 2^(k+1)` is twice `p * 2^k`.
proof fn lemma_scaled_double(p: nat, k: nat)
    ensures
        p * pow2(k + 1) == 2 * (p * pow2(k)),
{
    lemma_pow2_unfold(k + 1);
    let a = pow2(k);
    assert(p * (2 * a) == 2 * (p * a)) by (nonlinear_arith);
}

/// Whether the double nearest to `p / 10000` lies above it.
fn nearest_double_is_above(p: u32) -> (r: bool)
    ensures
        r == nearest_double_above(p as nat),
{
    let mut v: u128 = p as u128;
    let mut k: u64 = 0;
    proof {
        lemma_pow0(2);
        assert(pow2(0) == 1);
        assert(p * pow2(0) == p);
    }
    while k < 80 && v < SIGNIFICAND_SCALE
        invariant
            k <= 80,
            v == p * pow2(k as nat),
            scale_from(p as nat, k as nat) == scale_from(p as nat, 0),
        decreases 80 - k,
    {
        proof {
            lemma_scaled_double(p as nat, k as nat);
        }
        v = v * 2;
        k = k + 1;
    }
    v % 10000 > 5000
}

/// The price `p` in hundredths, rounded as `hundredths` says.
pub fn hundredths_of(p: u32) -> (h: u64)
    ensures
        h == hundredths(p as nat),
{
    let q: u64 = (p / 100) as u64;
    let r: u32 = p % 100;
    if r < 50 {
        q
    } else if r > 50 {
        q + 1
    } else if p % 625 == 0 {
        if q % 2 == 0 {
            q
        } else {
            q + 1
        }
    } else if nearest_double_is_above(p) {
        q + 1
    } else {
        q
    }
}

/// Appends a price in ten-thousandths of a yuan with two decimals, as
/// `{:.2}` writes the double nearest to it.
pub fn push_price2(out: &mut String, p: u32)
    ensures
        final(out)@ == old(out)@ + price2_text(p as nat),
{
    let q: u64 = hundredths_of(p);
    push_digits(out, q / 100);
    proof {
        reveal_strlit(".");
    }
    out.append(".");
    push_padded(out, q % 100, 2);
    assert(out@ =~= old(out)@ + price2_text(p as nat));
}

/// Whether two texts are equal.
pub fn same_text(a: &str, b: &str) -> (r: bool)
    ensures
        r == (a@ == b@),
{
    let n = a.unicode_len();
    if n != b.unicode_len() {
        return false;
    }
    let mut i: usize = 0;
    while i < n
        invariant
            n == a@.len(),
            n == b@.len(),
            i <= n,
            forall|j: int| 0 <= j < i ==> a@[j] == b@[j],
        decreases n - i,
    {
        if a.get_char(i) != b.get_char(i) {
            return false;
        }
        i = i + 1;
    }
    assert(a@ =~= b@);
    true
}


/// Whether `k` is the position of the first `c` in `s`, or `s.len()` where
/// `s` holds no `c`.
pub open spec fn is_first_stop(s: Seq<char>, c: char, k: int) -> bool {
    &&& 0 <= k <= s.len()
    &&& k < s.len() ==> s[k] == c
    &&& forall|j: int| 0 <= j < k ==> s[j] != c
}

/// The part of `s` before its first `c` (all of `s` where it has none), as
/// the first item of `split(c)`.
pub open spec fn first_field(s: Seq<char>, c: char) -> Seq<char> {
    s.subrange(0, choose|k: int| is_first_stop(s, c, k))
}

/// The first stop is unique.
pub proof fn lemma_first_stop_unique(s: Seq<char>, c: char, i: int, j: int)
    requires
        is_first_stop(s, c, i),
        is_first_stop(s, c, j),
    ensures
        i == j,
{
    if i < j {
        assert(s[i] != c);
    } else if j < i {
        assert(s[j] != c);
    }
}

/// The first item of `s.split(c)`.
pub fn first_field_of<'a>(s: &'a str, c: char) -> (r: &'a str)
    ensures
        r@ == first_field(s@, c),
{
    let n = s.unicode_len();
    let mut i: usize = 0;
    while i < n && s.get_char(i) != c
        invariant
            n == s@.len(),
            i <= n,
            forall|j: int| 0 <= j < i ==> s@[j] != c,
        decreases n - i,
    {
        i = i + 1;
    }
    proof {
        assert(is_first_stop(s@, c, i as int));
        let k = choose|k: int| is_first_stop(s@, c, k);
        lemma_first_stop_unique(s@, c, i as int, k);
    }
    s.substring_char(0, i)
}

/// Whether `c` is an ASCII decimal digit.
pub open spec fn is_digit(c: char) -> bool {
    '0' <= c && c <= '9'
}

/// The value of a text of decimal digits.
pub open spec fn digits_value(s: Seq<char>) -> nat
    decreases s.len(),
{
    if s.len() == 0 {
        0
    } else {
        digits_value(s.drop_last()) * 10 + ((s.last() as int - 48) as nat)
    }
}

/// `s` without one leading '+'.
pub open spec fn sign_stripped(s: Seq<char>) -> Seq<char> {
    if s.len() > 0 && s[0] == '+' {
        s.drop_first()
    } else {
        s
    }
}

/// Whether `d` is a non-empty text of decimal digits.
pub open spec fn all_digits(d: Seq<char>) -> bool {
    d.len() > 0 && forall|i: int| 0 <= i < d.len() ==> is_digit(#[trigger] d[i])
}

/// What `u8::from_str` gives for a text: an optional '+', then at least one
/// decimal digit, with a value of at most 255.
pub open spec fn parse_u8_text(s: Seq<char>) -> Option<u8> {
    if all_digits(sign_stripped(s)) && digits_value(sign_stripped(s)) <= 255 {
        Some(digits_value(sign_stripped(s)) as u8)
    } else {
        None
    }
}

/// Parses a text as `u8::from_str` does.
pub fn parse_u8(s: &str) -> (r: Option<u8>)
    ensures
        r == parse_u8_text(s@),
{
    let n = s.unicode_len();
    let start: usize = if n > 0 && s.get_char(0) == '+' {
        1
    } else {
        0
    };
    let ghost d = sign_stripped(s@);
    assert(d =~= s@.subrange(start as int, n as int));
    if start == n {
        return None;
    }
    let mut value: u32 = 0;
    let mut i: usize = start;
    while i < n
        invariant
            n == s@.len(),
            start <= i <= n,
            d == s@.subrange(start as int, n as int),
            d == sign_stripped(s@),
            forall|j: int| start <= j < i ==> is_digit(#[trigger] s@[j]),
            value <= 256,
            value == if digits_value(s@.subrange(start as int, i as int)) <= 256 {
                digits_value(s@.subrange(start as int, i as int))
            } else {
                256
            },
        decreases n - i,
    {
        let c = s.get_char(i);
        if !('0' <= c && c <= '9') {
            assert(d[i - start] == c);
            assert(!is_digit(d[i - start]));
            assert(!(forall|k: int| 0 <= k < d.len() ==> is_digit(#[trigger] d[k])));
            return None;
        }
        let dv: u32 = (c as u32) - 48;
        let ghost prev = s@.subrange(start as int, i as int);
        let ghost next = s@.subrange(start as int, i + 1);
        assert(next.drop_last() =~= prev);
        assert(digits_value(next) == digits_value(prev) * 10 + dv);
        let nv: u32 = value * 10 + dv;
        value = if nv > 256 {
            256
        } else {
            nv
        };
        proof {
            if digits_value(prev) > 256 {
                assert(digits_value(prev) * 10 + dv > 256) by (nonlinear_arith)
                    requires digits_value(prev) > 256;
            }
        }
        i = i + 1;
    }
    assert(s@.subrange(start as int, n as int) == d);
    if value <= 255 {
        Some(value as u8)
    } else {
        None
    }
}

}
