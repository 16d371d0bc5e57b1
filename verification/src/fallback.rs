//! What the decoders keep of a text that they cannot read.

use vstd::prelude::*;
use crate::basic::{strict_bool, yes_no_bool, Bool, NonNegF64};
use crate::decoded::Decoded;
use crate::itunes::{PodcastType, PodcastTypeView, Yes};
use crate::numbers::{
    double_below_zero, double_is_nan, single_is_nan, Float, NonNegNumber, NonNegNumberView, U64,
};
use crate::decimal::is_decimal_numeral;
use crate::podcast::alternate_enclosure::{IntegrityType, IntegrityTypeView};
use crate::podcast::guid::{Guid, GuidView};
use crate::podcast::transcript::{Rel, RelView};
use crate::Datetime;

verus! {

/// A strict reading that fails leaves the text as it is, and only a failed
/// reading does: the outcome is a fallback exactly when nothing was read, and
/// the fallback then holds the text unchanged.
pub proof fn lemma_fallback_of_failed_reading<T>(parsed: Option<T>, raw: Seq<char>)
    ensures
        Decoded::of(parsed, raw) is Fallback <==> parsed is None,
        Decoded::of(parsed, raw) is Fallback ==> Decoded::of(parsed, raw) == Decoded::<
            T,
        >::Fallback(raw),
{
}

/// Whatever a decoder cannot read, it keeps: in every field that decodes to
/// a fallback, the text of the fallback is the text that was decoded,
/// character for character. An identifier keeps its text also where it is
/// valid.
pub proof fn lemma_fallback_keeps_text(s: Seq<char>, double: Option<u64>, single: Option<u32>)
    ensures
        Bool::decoded(s) matches Decoded::Fallback(t) ==> t == s,
        Decoded::of(yes_no_bool(s), s) matches Decoded::Fallback(t) ==> t == s,
        U64::decoded(s) matches Decoded::Fallback(t) ==> t == s,
        Float::decoded(s, single) matches Decoded::Fallback(t) ==> t == s,
        NonNegF64::decoded(s, double) matches Decoded::Fallback(t) ==> t == s,
        NonNegNumber::decoded(s, double) matches NonNegNumberView::Other(t) ==> t == s,
        Yes::decoded(s) matches Decoded::Fallback(t) ==> t == s,
        PodcastType::decoded(s) matches PodcastTypeView::Other(t) ==> t == s,
        IntegrityType::decoded(s) matches IntegrityTypeView::Other(t) ==> t == s,
        Rel::decoded(s) matches RelView::Other(t) ==> t == s,
        Guid::decoded(s) matches GuidView::Other(t) ==> t == s,
        Guid::decoded(s) matches GuidView::Valid(t) ==> t == s,
        Datetime::decoded(s) matches Decoded::Fallback(t) ==> t == s,
{
}

/// A floating-point field is valid only for a decimal numeral, and never
/// holds what is not a number; a non-negative field never holds a number
/// below zero either. Whatever reading comes with a text that is no numeral,
/// the field keeps the text.
pub proof fn lemma_valid_number_is_a_numeral(s: Seq<char>, double: Option<u64>, single: Option<u32>)
    ensures
        NonNegF64::decoded(s, double) matches Decoded::Valid(bits) ==> is_decimal_numeral(s)
            && !double_is_nan(bits) && !double_below_zero(bits) && double == Some(bits),
        NonNegNumber::decoded(s, double) matches NonNegNumberView::F64(bits) ==> is_decimal_numeral(
            s,
        ) && !double_is_nan(bits) && !double_below_zero(bits) && double == Some(bits),
        Float::decoded(s, single) matches Decoded::Valid(bits) ==> is_decimal_numeral(s)
            && !single_is_nan(bits) && single == Some(bits),
        !is_decimal_numeral(s) ==> NonNegF64::decoded(s, double) == Decoded::<u64>::Fallback(s),
        !is_decimal_numeral(s) ==> Float::decoded(s, single) == Decoded::<u32>::Fallback(s),
{
}

/// Every text decodes to a boolean field, and to exactly one: `true` for the
/// text `true`, `false` for the text `false`, and a fallback that holds the
/// text for every other text.
pub proof fn lemma_bool_valid_or_fallback(s: Seq<char>)
    ensures
        Bool::decoded(s) == Decoded::Valid(true) <==> s == "true"@,
        Bool::decoded(s) == Decoded::Valid(false) <==> s == "false"@,
        Bool::decoded(s) == Decoded::<bool>::Fallback(s) <==> s != "true"@ && s != "false"@,
        strict_bool(s) is None <==> s != "true"@ && s != "false"@,
{
    reveal_strlit("true");
    reveal_strlit("false");
    assert("true"@.len() != "false"@.len());
}

} // verus!
