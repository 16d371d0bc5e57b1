//! Comparing and reading text.
//!
//! Every decoder of this crate decides by the characters of its input. The
//! functions here give the rest of the crate exact, verified access to them.

use vstd::prelude::*;
use vstd::string::{is_ascii_spec_bytes, StringSliceAdditionalSpecFns};
use vstd::utf8::{encode_utf8_decode_utf8, is_ascii_chars, is_ascii_chars_nat_bound};
use crate::decoded::option_view;

verus! {

/// Whether two texts hold the same characters.
pub fn same_text(a: &str, b: &str) -> (same: bool)
    ensures
        same == (a@ == b@),
{
    let x = a.as_bytes();
    let y = b.as_bytes();
    proof {
        // Distinct texts have distinct encodings: decoding gives each one back.
        encode_utf8_decode_utf8(a@);
        encode_utf8_decode_utf8(b@);
    }
    if x.len() != y.len() {
        return false;
    }
    let mut i: usize = 0;
    while i < x.len()
        invariant
            i <= x.len(),
            x.len() == y.len(),
            x@ == a.spec_bytes(),
            y@ == b.spec_bytes(),
            forall|j: int| 0 <= j < i ==> x@[j] == y@[j],
        decreases x.len() - i,
    {
        if x[i] != y[i] {
            return false;
        }
        i = i + 1;
    }
    assert(x@ =~= y@);
    true
}

/// The characters that a sequence of ASCII bytes stands for.
pub open spec fn ascii_text(bytes: Seq<u8>) -> Seq<char> {
    bytes.map_values(|b: u8| b as char)
}

/// The bytes of a text made of ASCII characters only, one byte for each
/// character; `None` for a text that holds any other character.
pub fn ascii_bytes(s: &str) -> (bytes: Option<&[u8]>)
    ensures
        bytes is Some <==> is_ascii_chars(s@),
        bytes matches Some(b) ==> s@ == ascii_text(b@),
        bytes matches Some(b) ==> b@.len() == s@.len(),
        bytes matches Some(b) ==> forall|i: int|
            0 <= i < b@.len() ==> #[trigger] b@[i] < 128 && b@[i] as int == s@[i] as int,
{
    if s.is_ascii() {
        let b = s.as_bytes();
        proof {
            is_ascii_spec_bytes(s);
            is_ascii_chars_nat_bound(s@);
            assert(s@ =~= ascii_text(b@));
        }
        Some(b)
    } else {
        None
    }
}

/// Copies an optional text.
pub fn owned_text(text: Option<&str>) -> (copy: Option<String>)
    ensures
        option_view(copy) == option_view(text),
{
    match text {
        Some(t) => Some(t.to_owned()),
        None => None,
    }
}

} // verus!
