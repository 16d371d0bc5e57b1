//! Permissive decoding of boolean fields and of non-negative floating-point
//! fields.

use vstd::prelude::*;
use crate::decoded::Decoded;
use crate::numbers::{accept_non_negative, non_negative_double};
use crate::text::same_text;

pub use crate::numbers::{NonNegNumber, U64};

verus! {

/// The boolean that `s` denotes: `true` for the text `true`, `false` for the
/// text `false`, none for any other text, whatever its letter case.
pub open spec fn strict_bool(s: Seq<char>) -> Option<bool> {
    if s == "true"@ {
        Some(true)
    } else if s == "false"@ {
        Some(false)
    } else {
        None
    }
}

/// The boolean that `s` denotes in a yes-or-no field. Both `no` and `yes`
/// denote `false`; no text denotes `true`.
pub open spec fn yes_no_bool(s: Seq<char>) -> Option<bool> {
    if s == "no"@ || s == "yes"@ {
        Some(false)
    } else {
        None
    }
}

/// A boolean field.
#[derive(Debug, PartialEq, Eq)]
pub enum Bool {
    Bool(bool),
    Other(String),
}

impl View for Bool {
    type V = Decoded<bool>;

    open spec fn view(&self) -> Decoded<bool> {
        match *self {
            Bool::Bool(b) => Decoded::Valid(b),
            Bool::Other(s) => Decoded::Fallback(s@),
        }
    }
}

impl Bool {
    /// What the text `s` decodes to: the boolean that it denotes, or the text
    /// itself where it denotes none.
    pub open spec fn decoded(s: Seq<char>) -> Decoded<bool> {
        Decoded::of(strict_bool(s), s)
    }

    /// Decodes the text of a boolean field.
    pub fn parse(s: &str) -> (field: Bool)
        ensures
            field@ == Bool::decoded(s@),
    {
        if same_text(s, "true") {
            Bool::Bool(true)
        } else if same_text(s, "false") {
            Bool::Bool(false)
        } else {
            Bool::Other(s.to_owned())
        }
    }
}

/// Decodes the text of an optional yes-or-no field that is present.
pub fn option_bool_yn(s: &str) -> (field: Option<Bool>)
    ensures
        field matches Some(b) && b@ == Decoded::of(yes_no_bool(s@), s@),
{
    if same_text(s, "no") {
        Some(Bool::Bool(false))
    } else if same_text(s, "yes") {
        Some(Bool::Bool(false))
    } else {
        Some(Bool::Other(s.to_owned()))
    }
}

/// A floating-point field that admits no number below zero, held as its
/// IEEE 754 double-precision bit pattern.
#[derive(Debug, PartialEq, Eq)]
pub enum NonNegF64 {
    F64(u64),
    Other(String),
}

impl View for NonNegF64 {
    type V = Decoded<u64>;

    open spec fn view(&self) -> Decoded<u64> {
        match *self {
            NonNegF64::F64(bits) => Decoded::Valid(bits),
            NonNegF64::Other(s) => Decoded::Fallback(s@),
        }
    }
}

impl NonNegF64 {
    /// What a non-negative floating-point field decodes to, given its text
    /// and the double-precision number that the text denotes, if any. The
    /// reading counts only for a decimal numeral, and only where it is a
    /// number and not below zero.
    pub open spec fn decoded(s: Seq<char>, double: Option<u64>) -> Decoded<u64> {
        Decoded::of(non_negative_double(s, double), s)
    }

    /// Decodes the text of a non-negative floating-point field. `double` is
    /// the bit pattern of the double-precision number that the text denotes,
    /// or `None` where it denotes none.
    pub fn parse(s: &str, double: Option<u64>) -> (field: NonNegF64)
        ensures
            field@ == NonNegF64::decoded(s@, double),
    {
        match accept_non_negative(s, double) {
            Some(bits) => NonNegF64::F64(bits),
            None => NonNegF64::Other(s.to_owned()),
        }
    }
}

} // verus!
