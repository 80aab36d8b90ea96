//! IEEE single precision numbers, carried as their 32-bit patterns.
//!
//! Verified code cannot hold a floating point value, so every number of the
//! language is a `u32` holding the IEEE 754 single encoding, and every
//! operation on numbers goes through a trusted wrapper around the
//! `rustc_apfloat` software implementation, which computes on bit patterns
//! exactly as hardware would.  Each wrapper's result is named by an
//! uninterpreted spec function of the operands, so that contracts can speak
//! of the outcome without restating floating point arithmetic.

use vstd::prelude::*;
use crate::tokens::{check_word_literal, is_decimal_literal, word_literal_parts};
use rustc_apfloat::Float;
use rustc_apfloat::ieee::Single;

verus! {

/// The bit pattern of the IEEE single sum of `a` and `b` (round to nearest
/// even).
pub uninterp spec fn add_bits(a: u32, b: u32) -> u32;

/// The bit pattern of the IEEE single difference of `a` and `b`.
pub uninterp spec fn sub_bits(a: u32, b: u32) -> u32;

/// The bit pattern of the IEEE single product of `a` and `b`.
pub uninterp spec fn mul_bits(a: u32, b: u32) -> u32;

/// The bit pattern of the IEEE single quotient of `a` and `b`.
pub uninterp spec fn div_bits(a: u32, b: u32) -> u32;

/// A single encodes a NaN: an all-ones exponent with a non-zero fraction.
pub open spec fn single_is_nan(a: u32) -> bool {
    a & 0x7F80_0000 == 0x7F80_0000 && a & 0x007F_FFFF != 0
}

/// IEEE equality of the singles encoded by `a` and `b`: a NaN equals
/// nothing, the two zeroes equal each other, and every other value equals
/// exactly its own encoding.
pub open spec fn eq_bits(a: u32, b: u32) -> bool {
    &&& !single_is_nan(a)
    &&& !single_is_nan(b)
    &&& (a == b || (a & 0x7FFF_FFFF == 0 && b & 0x7FFF_FFFF == 0))
}

/// IEEE strict less-than of the singles encoded by `a` and `b`.
pub uninterp spec fn lt_bits(a: u32, b: u32) -> bool;

/// IEEE strict greater-than of the singles encoded by `a` and `b`: the
/// strict less-than with its operands swapped, as the antisymmetric
/// comparison makes them.
pub open spec fn gt_bits(a: u32, b: u32) -> bool {
    lt_bits(b, a)
}

/// What parsing `s` as a decimal single yields: the correctly rounded bit
/// pattern, or nothing where the text is no number.
pub uninterp spec fn float_bits_of(s: Seq<char>) -> Option<u32>;

/// The single encoded by `a`, truncated toward zero and saturated to the
/// `i32` range; zero for NaN.
pub uninterp spec fn trunc_i32_of(a: u32) -> i32;

/// The bit pattern of the IEEE single nearest to the integer `v`.
pub uninterp spec fn int_bits_of(v: i64) -> u32;

/// The decimal rendering of the single encoded by `a`.
pub uninterp spec fn decimal_of(a: u32) -> Seq<char>;

/// Relies on `rustc_apfloat`'s `Single` addition, which rounds to nearest
/// even as hardware does.
#[verifier::external_body]
pub fn f_add(a: u32, b: u32) -> (r: u32)
    ensures
        r == add_bits(a, b),
{
    (Single::from_bits(a as u128) + Single::from_bits(b as u128)).value.to_bits() as u32
}

/// Relies on `rustc_apfloat`'s `Single` subtraction.
#[verifier::external_body]
pub fn f_sub(a: u32, b: u32) -> (r: u32)
    ensures
        r == sub_bits(a, b),
{
    (Single::from_bits(a as u128) - Single::from_bits(b as u128)).value.to_bits() as u32
}

/// Relies on `rustc_apfloat`'s `Single` multiplication.
#[verifier::external_body]
pub fn f_mul(a: u32, b: u32) -> (r: u32)
    ensures
        r == mul_bits(a, b),
{
    (Single::from_bits(a as u128) * Single::from_bits(b as u128)).value.to_bits() as u32
}

/// Relies on `rustc_apfloat`'s `Single` division.
#[verifier::external_body]
pub fn f_div(a: u32, b: u32) -> (r: u32)
    ensures
        r == div_bits(a, b),
{
    (Single::from_bits(a as u128) / Single::from_bits(b as u128)).value.to_bits() as u32
}

/// Relies on `rustc_apfloat`'s `PartialEq` for `Single`, which implements
/// IEEE equality through `partial_cmp`: NaNs are unordered, the two
/// zeroes compare equal, and the encoding of every other value is unique,
/// which is exactly the formula `eq_bits` states.
#[verifier::external_body]
pub fn f_eq(a: u32, b: u32) -> (r: bool)
    ensures
        r == eq_bits(a, b),
{
    Single::from_bits(a as u128) == Single::from_bits(b as u128)
}

/// Relies on `rustc_apfloat`'s `PartialOrd` for `Single`: IEEE ordering,
/// under which comparisons with NaN are false.
#[verifier::external_body]
pub fn f_lt(a: u32, b: u32) -> (r: bool)
    ensures
        r == lt_bits(a, b),
{
    Single::from_bits(a as u128) < Single::from_bits(b as u128)
}

/// Relies on `rustc_apfloat`'s `PartialOrd` for `Single`: `a > b` holds
/// exactly when `b < a` does, since `partial_cmp` compares the two values
/// antisymmetrically.
#[verifier::external_body]
pub fn f_gt(a: u32, b: u32) -> (r: bool)
    ensures
        r == gt_bits(a, b),
{
    Single::from_bits(a as u128) > Single::from_bits(b as u128)
}

/// Relies on `rustc_apfloat`'s string parsing for `Single`
/// (`from_str_r`), which accepts every string of the finite-decimal
/// grammar: digits with at most one dot and an optional decimal exponent,
/// correctly rounded.  The word forms for infinities and NaNs are
/// normalized before this call, since the library accepts only some of
/// their spellings.
#[verifier::external_body]
pub fn f_parse(s: &str) -> (r: Option<u32>)
    ensures
        r == float_bits_of(s@),
        is_decimal_literal(s@) ==> r is Some,
{
    match s.parse::<Single>() {
        Ok(f) => Some(f.to_bits() as u32),
        Err(_) => None,
    }
}

/// The single encoding of a numeric literal: the word forms map to the
/// infinities and the quiet NaN (with their sign applied), as `f32`'s
/// string parsing maps them; everything else is what the decimal parser
/// yields.
pub open spec fn numeric_value_of(s: Seq<char>) -> Option<u32> {
    match word_literal_parts(s) {
        Some((neg, is_nan)) => if is_nan {
            if neg {
                Some(0xFFC0_0000u32)
            } else {
                Some(0x7FC0_0000u32)
            }
        } else {
            if neg {
                Some(0xFF80_0000u32)
            } else {
                Some(0x7F80_0000u32)
            }
        },
        None => float_bits_of(s),
    }
}

/// Parses a numeric literal to its single encoding: the word forms for
/// infinities and NaNs are handled here, in any letter case and with an
/// optional sign; finite decimals go to the trusted decimal parser.
pub fn parse_numeric_value(s: &str) -> (r: Option<u32>)
    ensures
        r == numeric_value_of(s@),
{
    match check_word_literal(s) {
        Some(parts) => {
            let (neg, is_nan) = parts;
            if is_nan {
                if neg {
                    Some(0xFFC0_0000)
                } else {
                    Some(0x7FC0_0000)
                }
            } else {
                if neg {
                    Some(0xFF80_0000)
                } else {
                    Some(0x7F80_0000)
                }
            }
        },
        None => f_parse(s),
    }
}

/// Relies on `rustc_apfloat`'s `to_i128`, which truncates toward zero and,
/// as its documentation states, returns zero for NaN and the extreme
/// values on overflow — the behaviour of Rust's own saturating cast.
#[verifier::external_body]
pub fn f_trunc_i32(a: u32) -> (r: i32)
    ensures
        r == trunc_i32_of(a),
{
    Single::from_bits(a as u128).to_i128(32).value as i32
}

/// Relies on `rustc_apfloat`'s `from_i128`: the integer rounded to the
/// nearest representable single.
#[verifier::external_body]
pub fn f_from_int(v: i64) -> (r: u32)
    ensures
        r == int_bits_of(v),
{
    Single::from_i128(v as i128).value.to_bits() as u32
}

/// Relies on `rustc_apfloat`'s `Display` for `Single`: a decimal rendering
/// of the value.
#[verifier::external_body]
pub fn f_display(a: u32) -> (r: String)
    ensures
        r@ == decimal_of(a),
{
    format!("{}", Single::from_bits(a as u128))
}

/// The bit pattern of the single holding the small integer `i`, for the
/// sixteen pen color codes.
pub open spec fn color_bits(i: int) -> u32 {
    if i == 0 {
        0x0000_0000
    } else if i == 1 {
        0x3F80_0000
    } else if i == 2 {
        0x4000_0000
    } else if i == 3 {
        0x4040_0000
    } else if i == 4 {
        0x4080_0000
    } else if i == 5 {
        0x40A0_0000
    } else if i == 6 {
        0x40C0_0000
    } else if i == 7 {
        0x40E0_0000
    } else if i == 8 {
        0x4100_0000
    } else if i == 9 {
        0x4110_0000
    } else if i == 10 {
        0x4120_0000
    } else if i == 11 {
        0x4130_0000
    } else if i == 12 {
        0x4140_0000
    } else if i == 13 {
        0x4150_0000
    } else if i == 14 {
        0x4160_0000
    } else {
        0x4170_0000
    }
}

/// Returns the bit pattern of color code `i` as a single.
pub fn color_code_bits(i: u8) -> (r: u32)
    requires
        i < 16,
    ensures
        r == color_bits(i as int),
{
    match i {
        0 => 0x0000_0000,
        1 => 0x3F80_0000,
        2 => 0x4000_0000,
        3 => 0x4040_0000,
        4 => 0x4080_0000,
        5 => 0x40A0_0000,
        6 => 0x40C0_0000,
        7 => 0x40E0_0000,
        8 => 0x4100_0000,
        9 => 0x4110_0000,
        10 => 0x4120_0000,
        11 => 0x4130_0000,
        12 => 0x4140_0000,
        13 => 0x4150_0000,
        14 => 0x4160_0000,
        _ => 0x4170_0000,
    }
}

/// The color code whose single encoding is IEEE-equal to `a`, if any: the
/// exact-integer test behind `SETPENCOLOR`.
pub open spec fn color_code_of(a: u32) -> Option<u8>
    decreases 16int,
{
    color_code_search(a, 0)
}

/// Searches the color codes from `i` up for one IEEE-equal to `a`.
pub open spec fn color_code_search(a: u32, i: int) -> Option<u8>
    decreases 16 - i,
{
    if i < 0 || i >= 16 {
        None
    } else if eq_bits(a, color_bits(i)) {
        Some(i as u8)
    } else {
        color_code_search(a, i + 1)
    }
}

/// The sixteen color encodings are no NaNs, and only the encoding of
/// code zero is a zero.
pub proof fn lemma_color_bits_facts()
    ensures
        forall|k: int| 0 <= k < 16 ==> !single_is_nan(#[trigger] color_bits(k)),
        forall|k: int| 1 <= k < 16 ==> #[trigger] color_bits(k) & 0x7FFF_FFFF != 0,
        color_bits(0) & 0x7FFF_FFFF == 0,
{
    assert((0x0000_0000u32 & 0x7F80_0000 != 0x7F80_0000) && (0x3F80_0000u32 & 0x7F80_0000
        != 0x7F80_0000) && (0x4000_0000u32 & 0x7F80_0000 != 0x7F80_0000) && (0x4040_0000u32
        & 0x7F80_0000 != 0x7F80_0000) && (0x4080_0000u32 & 0x7F80_0000 != 0x7F80_0000) && (
    0x40A0_0000u32 & 0x7F80_0000 != 0x7F80_0000) && (0x40C0_0000u32 & 0x7F80_0000
        != 0x7F80_0000) && (0x40E0_0000u32 & 0x7F80_0000 != 0x7F80_0000) && (0x4100_0000u32
        & 0x7F80_0000 != 0x7F80_0000) && (0x4110_0000u32 & 0x7F80_0000 != 0x7F80_0000) && (
    0x4120_0000u32 & 0x7F80_0000 != 0x7F80_0000) && (0x4130_0000u32 & 0x7F80_0000
        != 0x7F80_0000) && (0x4140_0000u32 & 0x7F80_0000 != 0x7F80_0000) && (0x4150_0000u32
        & 0x7F80_0000 != 0x7F80_0000) && (0x4160_0000u32 & 0x7F80_0000 != 0x7F80_0000) && (
    0x4170_0000u32 & 0x7F80_0000 != 0x7F80_0000)) by (bit_vector);
    assert((0x3F80_0000u32 & 0x7FFF_FFFF != 0) && (0x4000_0000u32 & 0x7FFF_FFFF != 0) && (
    0x4040_0000u32 & 0x7FFF_FFFF != 0) && (0x4080_0000u32 & 0x7FFF_FFFF != 0) && (
    0x40A0_0000u32 & 0x7FFF_FFFF != 0) && (0x40C0_0000u32 & 0x7FFF_FFFF != 0) && (
    0x40E0_0000u32 & 0x7FFF_FFFF != 0) && (0x4100_0000u32 & 0x7FFF_FFFF != 0) && (
    0x4110_0000u32 & 0x7FFF_FFFF != 0) && (0x4120_0000u32 & 0x7FFF_FFFF != 0) && (
    0x4130_0000u32 & 0x7FFF_FFFF != 0) && (0x4140_0000u32 & 0x7FFF_FFFF != 0) && (
    0x4150_0000u32 & 0x7FFF_FFFF != 0) && (0x4160_0000u32 & 0x7FFF_FFFF != 0) && (
    0x4170_0000u32 & 0x7FFF_FFFF != 0)) by (bit_vector);
    assert((0x0000_0000u32 & 0x7FFF_FFFF == 0)) by (bit_vector);
}

proof fn lemma_color_search_exact(i: int, j: int)
    requires
        0 <= j <= i < 16,
    ensures
        color_code_search(color_bits(i), j) == Some(i as u8),
    decreases 16 - j,
{
    lemma_color_bits_facts();
    if j < i {
        assert(!eq_bits(color_bits(i), color_bits(j)));
        lemma_color_search_exact(i, j + 1);
    }
}

/// Each of the sixteen color codes is accepted exactly: the encoding of
/// code `i` finds `i` back, so `SETPENCOLOR` on a whole number in range
/// always succeeds.
pub proof fn lemma_color_codes_exact(i: int)
    requires
        0 <= i < 16,
    ensures
        color_code_of(color_bits(i)) == Some(i as u8),
{
    lemma_color_search_exact(i, 0);
}

/// Any color code the search yields is one of the sixteen.
pub proof fn lemma_color_code_search_bound(a: u32, i: int)
    ensures
        color_code_search(a, i) matches Some(c) ==> 0 <= c < 16,
    decreases 16 - i,
{
    if 0 <= i < 16 && !eq_bits(a, color_bits(i)) {
        lemma_color_code_search_bound(a, i + 1);
    }
}

/// Any color code of a value is one of the sixteen.
pub proof fn lemma_color_code_bound(a: u32)
    ensures
        color_code_of(a) matches Some(c) ==> 0 <= c < 16,
{
    lemma_color_code_search_bound(a, 0);
}

/// Finds the color code IEEE-equal to `a`, or reports there is none.  A
/// single equals an integer in `0 ..= 15` exactly when it survives
/// truncation to an integer unchanged and lies in that range.
pub fn find_color_code(a: u32) -> (r: Option<u8>)
    ensures
        r == color_code_of(a),
{
    let mut i: u8 = 0;
    while i < 16
        invariant
            i <= 16,
            color_code_of(a) == color_code_search(a, i as int),
        decreases 16 - i,
    {
        if f_eq(a, color_code_bits(i)) {
            return Some(i);
        }
        i = i + 1;
    }
    None
}

} // verus!
