//! Text produced for results: decimal numbers, human-readable sizes, and
//! output capped at a byte budget.

use vstd::prelude::*;
use vstd::utf8::{
    decode_utf8, encode_utf8, encode_utf8_decode_utf8, encode_utf8_valid_utf8, is_char_boundary,
    valid_utf8,
};
use vstd::string::StringSliceAdditionalSpecFns;
use crate::text::push_char;

verus! {

/// The character of decimal digit `d`.
pub open spec fn digit(d: nat) -> char {
    (48 + d) as char
}

/// The decimal representation of `n`, without leading zeros.
pub open spec fn decimal(n: nat) -> Seq<char>
    decreases n,
{
    if n < 10 {
        seq![digit(n)]
    } else {
        decimal(n / 10).push(digit(n % 10))
    }
}

/// Appends the decimal representation of `n` to `s`.
pub fn push_decimal(s: &mut String, n: u64)
    ensures
        final(s)@ == old(s)@ + decimal(n as nat),
    decreases n,
{
    if n >= 10 {
        push_decimal(s, n / 10);
    }
    let d = (n % 10) as u8;
    let c = (48u8 + d) as char;
    push_char(s, c);
    proof {
        if n >= 10 {
            assert(old(s)@ + decimal(n as nat) =~= (old(s)@ + decimal((n / 10) as nat)).push(c));
        } else {
            assert(old(s)@ + decimal(n as nat) =~= old(s)@.push(c));
        }
    }
}

/// The decimal representation of `n`.
pub fn decimal_string(n: u64) -> (r: String)
    ensures
        r@ == decimal(n as nat),
{
    let mut s = String::new();
    push_decimal(&mut s, n);
    s
}

/// The decimal representation of the signed number `n`.
pub open spec fn signed_decimal(n: int) -> Seq<char> {
    if n < 0 {
        seq!['-'] + decimal((-n) as nat)
    } else {
        decimal(n as nat)
    }
}

/// The decimal representation of `n`, with a minus sign when negative.
pub fn signed_decimal_string(n: i32) -> (r: String)
    ensures
        r@ == signed_decimal(n as int),
{
    let mut s = String::new();
    if n < 0 {
        push_char(&mut s, '-');
        let m: i64 = -(n as i64);
        push_decimal(&mut s, m as u64);
    } else {
        push_decimal(&mut s, n as u64);
    }
    s
}

/// `value / unit` in tenths, rounded to the nearest tenth, ties to even.
pub open spec fn rounded_tenths(value: nat, unit: nat) -> nat
    recommends
        unit > 0,
{
    let q = value * 10 / unit;
    let r = value * 10 % unit;
    if 2 * r > unit || (2 * r == unit && q % 2 == 1) {
        q + 1
    } else {
        q
    }
}

/// A number of tenths written with one decimal place.
pub open spec fn one_decimal(t: nat) -> Seq<char> {
    decimal(t / 10) + seq!['.'] + decimal(t % 10)
}

/// Bytes in a kibibyte.
pub open spec fn kib() -> nat {
    1024
}

/// Bytes in a mebibyte.
pub open spec fn mib() -> nat {
    1024 * 1024
}

/// Bytes in a gibibyte.
pub open spec fn gib() -> nat {
    1024 * 1024 * 1024
}

/// A byte count as shown to people: bytes below one KiB, otherwise KB, MB
/// or GB with one decimal place.
pub open spec fn size_text(bytes: nat) -> Seq<char> {
    if bytes < kib() {
        decimal(bytes) + "B"@
    } else if bytes < mib() {
        one_decimal(rounded_tenths(bytes, kib())) + "KB"@
    } else if bytes < gib() {
        one_decimal(rounded_tenths(bytes, mib())) + "MB"@
    } else {
        one_decimal(rounded_tenths(bytes, gib())) + "GB"@
    }
}

fn tenths_of(bytes: u64, unit: u64) -> (t: u64)
    requires
        unit >= 1024,
    ensures
        t == rounded_tenths(bytes as nat, unit as nat),
{
    let v: u128 = (bytes as u128) * 10;
    let q: u128 = v / (unit as u128);
    let r: u128 = v % (unit as u128);
    assert(q <= v / 1024) by (nonlinear_arith)
        requires
            q == v / (unit as u128),
            unit >= 1024,
    ;
    let t: u128 = if 2 * r > unit as u128 || (2 * r == unit as u128 && q % 2 == 1) {
        q + 1
    } else {
        q
    };
    t as u64
}

fn push_one_decimal(s: &mut String, t: u64)
    ensures
        final(s)@ == old(s)@ + one_decimal(t as nat),
{
    push_decimal(s, t / 10);
    push_char(s, '.');
    push_decimal(s, t % 10);
    assert(final(s)@ =~= old(s)@ + one_decimal(t as nat));
}

/// A byte count as shown to people.
pub fn format_size(bytes: u64) -> (r: String)
    ensures
        r@ == size_text(bytes as nat),
{
    let mut s = String::new();
    if bytes < 1024 {
        push_decimal(&mut s, bytes);
        s = s.concat("B");
    } else if bytes < 1024 * 1024 {
        push_one_decimal(&mut s, tenths_of(bytes, 1024));
        s = s.concat("KB");
    } else if bytes < 1024 * 1024 * 1024 {
        push_one_decimal(&mut s, tenths_of(bytes, 1024 * 1024));
        s = s.concat("MB");
    } else {
        push_one_decimal(&mut s, tenths_of(bytes, 1024 * 1024 * 1024));
        s = s.concat("GB");
    }
    s
}

/// The largest character boundary of `bytes` at or below `n`.
pub open spec fn boundary_at_most(bytes: Seq<u8>, n: nat) -> nat
    decreases n,
{
    if n == 0 || is_char_boundary(bytes, n as int) {
        n
    } else {
        boundary_at_most(bytes, (n - 1) as nat)
    }
}

/// The UTF-8 length of the text `s`, in bytes.
pub open spec fn byte_len(s: Seq<char>) -> nat {
    encode_utf8(s).len()
}

/// The text `s` cut to at most `budget` bytes at a character boundary,
/// when it is longer than that; `None` when it fits.
pub fn cut_to_budget(s: &str, budget: usize) -> (r: Option<&str>)
    requires
        byte_len(s@) <= usize::MAX,
    ensures
        byte_len(s@) <= budget <==> r is None,
        r matches Some(p) ==> encode_utf8(p@) == encode_utf8(s@).subrange(
            0,
            boundary_at_most(encode_utf8(s@), budget as nat) as int,
        ),
{
    if s.len() <= budget {
        return None;
    }
    let ghost bytes = encode_utf8(s@);
    proof {
        encode_utf8_valid_utf8(s@);
    }
    let mut cut: usize = budget;
    while cut > 0 && !s.is_char_boundary(cut)
        invariant
            cut <= budget,
            budget < bytes.len(),
            bytes == s.spec_bytes(),
            valid_utf8(bytes),
            boundary_at_most(bytes, cut as nat) == boundary_at_most(bytes, budget as nat),
        decreases cut,
    {
        cut = cut - 1;
    }
    let (head, _) = s.split_at(cut);
    Some(head)
}

/// The text `s` cut to at most `budget` bytes at a character boundary.
pub open spec fn byte_prefix(s: Seq<char>, budget: nat) -> Seq<char> {
    if byte_len(s) <= budget {
        s
    } else {
        decode_utf8(encode_utf8(s).subrange(0, boundary_at_most(encode_utf8(s), budget) as int))
    }
}

/// The text `s` cut to at most `budget` bytes at a character boundary.
pub fn prefix_within(s: &str, budget: usize) -> (r: &str)
    requires
        byte_len(s@) <= usize::MAX,
    ensures
        r@ == byte_prefix(s@, budget as nat),
{
    match cut_to_budget(s, budget) {
        None => s,
        Some(p) => {
            proof {
                encode_utf8_decode_utf8(p@);
            }
            p
        },
    }
}

} // verus!
