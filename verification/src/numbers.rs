//! Permissive decoding of numeric fields.
//!
//! Floating-point values are carried as their IEEE 754 bit patterns, so that
//! every decision about them is a decision about integers. Whether a text is
//! a numeral at all is decided here, on the text: a reading is taken only of
//! a decimal numeral, so no word for infinity or for what is not a number
//! ever gives a valid field.

use vstd::prelude::*;
use crate::decimal::{has_numeral_form, is_decimal_numeral, parse_unsigned, unsigned_decimal};
use crate::decoded::Decoded;

verus! {

/// An unsigned integer field.
#[derive(Debug, PartialEq, Eq)]
pub enum U64 {
    U64(u64),
    Other(String),
}

impl View for U64 {
    type V = Decoded<u64>;

    open spec fn view(&self) -> Decoded<u64> {
        match *self {
            U64::U64(n) => Decoded::Valid(n),
            U64::Other(s) => Decoded::Fallback(s@),
        }
    }
}

impl U64 {
    /// What the text `s` decodes to: the integer that it denotes in decimal,
    /// or the text itself where it denotes none.
    pub open spec fn decoded(s: Seq<char>) -> Decoded<u64> {
        Decoded::of(unsigned_decimal(s), s)
    }

    /// Decodes the text of an unsigned integer field.
    pub fn parse(s: &str) -> (field: U64)
        ensures
            field@ == U64::decoded(s@),
    {
        match parse_unsigned(s) {
            Some(n) => U64::U64(n),
            None => U64::Other(s.to_owned()),
        }
    }
}

/// Decodes the text of an optional unsigned integer field that is present.
pub fn option_u64(s: &str) -> (field: Option<U64>)
    ensures
        field matches Some(u) && u@ == U64::decoded(s@),
{
    Some(U64::parse(s))
}

/// Whether `bits`, read as an IEEE 754 double-precision number, is not a
/// number at all: every exponent bit set and some fraction bit set.
pub open spec fn double_is_nan(bits: u64) -> bool {
    bits & 0x7ff0_0000_0000_0000 == 0x7ff0_0000_0000_0000 && bits & 0x000f_ffff_ffff_ffff != 0
}

/// Whether `bits`, read as an IEEE 754 double-precision number, is less than
/// zero: the sign bit is set, and the rest is neither all zero (which is
/// negative zero, equal to zero) nor not a number (which compares with nothing).
pub open spec fn double_below_zero(bits: u64) -> bool {
    &&& bits & 0x8000_0000_0000_0000 != 0
    &&& bits & 0x7fff_ffff_ffff_ffff != 0
    &&& !double_is_nan(bits)
}

/// Decides whether a double-precision number, given by its bit pattern, is
/// less than zero.
pub fn is_below_zero(bits: u64) -> (below: bool)
    ensures
        below == double_below_zero(bits),
{
    assert(double_below_zero(bits) <==> 0x8000_0000_0000_0000 < bits <= 0xfff0_0000_0000_0000) by {
        assert((bits & 0x8000_0000_0000_0000 != 0 && bits & 0x7fff_ffff_ffff_ffff != 0 && !(bits
            & 0x7ff0_0000_0000_0000 == 0x7ff0_0000_0000_0000 && bits & 0x000f_ffff_ffff_ffff
            != 0)) <==> (0x8000_0000_0000_0000 < bits && bits <= 0xfff0_0000_0000_0000))
            by (bit_vector);
    }
    0x8000_0000_0000_0000 < bits && bits <= 0xfff0_0000_0000_0000
}

/// Decides whether a double-precision bit pattern is not a number.
pub fn is_nan(bits: u64) -> (nan: bool)
    ensures
        nan == double_is_nan(bits),
{
    assert(double_is_nan(bits) <==> bits & 0x7fff_ffff_ffff_ffff > 0x7ff0_0000_0000_0000) by {
        assert((bits & 0x7ff0_0000_0000_0000 == 0x7ff0_0000_0000_0000 && bits
            & 0x000f_ffff_ffff_ffff != 0) <==> (bits & 0x7fff_ffff_ffff_ffff
            > 0x7ff0_0000_0000_0000)) by (bit_vector);
    }
    bits & 0x7fff_ffff_ffff_ffff > 0x7ff0_0000_0000_0000
}

/// Whether `bits`, read as an IEEE 754 single-precision number, is not a
/// number at all: every exponent bit set and some fraction bit set.
pub open spec fn single_is_nan(bits: u32) -> bool {
    bits & 0x7f80_0000 == 0x7f80_0000 && bits & 0x007f_ffff != 0
}

/// Decides whether a single-precision bit pattern is not a number.
pub fn is_single_nan(bits: u32) -> (nan: bool)
    ensures
        nan == single_is_nan(bits),
{
    assert(single_is_nan(bits) <==> bits & 0x7fff_ffff > 0x7f80_0000) by {
        assert((bits & 0x7f80_0000 == 0x7f80_0000 && bits & 0x007f_ffff != 0) <==> (bits
            & 0x7fff_ffff > 0x7f80_0000)) by (bit_vector);
    }
    bits & 0x7fff_ffff > 0x7f80_0000
}

/// The number that a non-negative field accepts for the text `s`, of which
/// `double` is the reading: that number, where the text is a decimal numeral
/// and the number is a number and not below zero. A numeral too large for
/// the format reads as infinity and is accepted as that.
pub open spec fn non_negative_double(s: Seq<char>, double: Option<u64>) -> Option<u64> {
    match double {
        Some(bits) if is_decimal_numeral(s) && !double_is_nan(bits) && !double_below_zero(bits) =>
            Some(bits),
        _ => None,
    }
}

/// Decides which number a non-negative field accepts for a text and its
/// reading. The text is asked first: of a text that is no decimal numeral no
/// reading counts.
pub fn accept_non_negative(s: &str, double: Option<u64>) -> (accepted: Option<u64>)
    ensures
        accepted == non_negative_double(s@, double),
{
    if !has_numeral_form(s) {
        return None;
    }
    match double {
        Some(bits) => {
            if is_nan(bits) || is_below_zero(bits) {
                None
            } else {
                Some(bits)
            }
        },
        None => None,
    }
}

/// The model of a non-negative number field.
pub enum NonNegNumberView {
    U64(u64),
    F64(u64),
    Other(Seq<char>),
}

/// A non-negative number field: an unsigned integer, or a floating-point
/// number that is not below zero, held as its double-precision bit pattern.
#[derive(Debug, PartialEq, Eq)]
pub enum NonNegNumber {
    U64(u64),
    F64(u64),
    Other(String),
}

impl View for NonNegNumber {
    type V = NonNegNumberView;

    open spec fn view(&self) -> NonNegNumberView {
        match *self {
            NonNegNumber::U64(n) => NonNegNumberView::U64(n),
            NonNegNumber::F64(bits) => NonNegNumberView::F64(bits),
            NonNegNumber::Other(s) => NonNegNumberView::Other(s@),
        }
    }
}

impl NonNegNumber {
    /// What a non-negative number field decodes to, given its text and the
    /// double-precision number that the text denotes, if any. The integer
    /// reading comes first. The floating-point reading counts only for a
    /// decimal numeral, and only where it is a number and not below zero.
    pub open spec fn decoded(s: Seq<char>, double: Option<u64>) -> NonNegNumberView {
        match unsigned_decimal(s) {
            Some(n) => NonNegNumberView::U64(n),
            None => match non_negative_double(s, double) {
                Some(bits) => NonNegNumberView::F64(bits),
                None => NonNegNumberView::Other(s),
            },
        }
    }

    /// Decodes the text of a non-negative number field. `double` is the bit
    /// pattern of the double-precision number that the text denotes, or `None`
    /// where it denotes none.
    pub fn parse(s: &str, double: Option<u64>) -> (field: NonNegNumber)
        ensures
            field@ == NonNegNumber::decoded(s@, double),
    {
        if let Some(n) = parse_unsigned(s) {
            return NonNegNumber::U64(n);
        }
        match accept_non_negative(s, double) {
            Some(bits) => NonNegNumber::F64(bits),
            None => NonNegNumber::Other(s.to_owned()),
        }
    }
}

/// A single-precision floating-point field, held as its IEEE 754 bit pattern.
#[derive(Debug, PartialEq, Eq)]
pub enum Float {
    Float(u32),
    Other(String),
}

impl View for Float {
    type V = Decoded<u32>;

    open spec fn view(&self) -> Decoded<u32> {
        match *self {
            Float::Float(bits) => Decoded::Valid(bits),
            Float::Other(s) => Decoded::Fallback(s@),
        }
    }
}

impl Float {
    /// The number that a floating-point field accepts for the text `s`, of
    /// which `single` is the reading: that number, of either sign, where the
    /// text is a decimal numeral and the number is a number. A numeral too
    /// large for the format reads as infinity and is accepted as that.
    pub open spec fn accepted(s: Seq<char>, single: Option<u32>) -> Option<u32> {
        match single {
            Some(bits) if is_decimal_numeral(s) && !single_is_nan(bits) => Some(bits),
            _ => None,
        }
    }

    /// What a floating-point field decodes to, given its text and the
    /// single-precision number that the text denotes, if any.
    pub open spec fn decoded(s: Seq<char>, single: Option<u32>) -> Decoded<u32> {
        Decoded::of(Float::accepted(s, single), s)
    }
}

/// Decodes the text of an optional floating-point field that is present.
/// `single` is the bit pattern of the single-precision number that the text
/// denotes, or `None` where it denotes none. The text is asked first: of a
/// text that is no decimal numeral no reading counts.
pub fn option_float(s: &str, single: Option<u32>) -> (field: Option<Float>)
    ensures
        field matches Some(f) && f@ == Float::decoded(s@, single),
{
    if !has_numeral_form(s) {
        return Some(Float::Other(s.to_owned()));
    }
    match single {
        Some(bits) => {
            if is_single_nan(bits) {
                Some(Float::Other(s.to_owned()))
            } else {
                Some(Float::Float(bits))
            }
        },
        None => Some(Float::Other(s.to_owned())),
    }
}

} // verus!
