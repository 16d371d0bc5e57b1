//! The global unique identifier of a podcast.

use vstd::prelude::*;
use crate::text::ascii_bytes;

verus! {

/// Whether `c` is a hexadecimal digit, in either letter case.
pub open spec fn is_hex_digit(c: char) -> bool {
    '0' <= c <= '9' || 'a' <= c <= 'f' || 'A' <= c <= 'F'
}

/// Whether position `i` of a canonical identifier holds a dash.
pub open spec fn is_dash_position(i: int) -> bool {
    i == 8 || i == 13 || i == 18 || i == 23
}

/// Whether `s` has the canonical form of an identifier: 8, 4, 4, 4 and 12
/// hexadecimal digits, in that order, with one dash between two groups and
/// nothing before, between or after.
pub open spec fn is_canonical(s: Seq<char>) -> bool {
    &&& s.len() == 36
    &&& forall|i: int|
        0 <= i < 36 ==> if is_dash_position(i) {
            #[trigger] s[i] == '-'
        } else {
            is_hex_digit(s[i])
        }
}

/// The model of an identifier.
pub enum GuidView {
    Valid(Seq<char>),
    Other(Seq<char>),
}

/// Global unique identifier for a podcast.
#[derive(Debug, PartialEq, Eq)]
pub enum Guid {
    Valid(String),
    Other(String),
}

impl View for Guid {
    type V = GuidView;

    open spec fn view(&self) -> GuidView {
        match *self {
            Guid::Valid(s) => GuidView::Valid(s@),
            Guid::Other(s) => GuidView::Other(s@),
        }
    }
}

/// Decides whether a text has the canonical form of an identifier.
pub fn has_canonical_form(s: &str) -> (canonical: bool)
    ensures
        canonical == is_canonical(s@),
{
    let bytes = match ascii_bytes(s) {
        Some(b) => b,
        None => {
            proof {
                // A character outside ASCII is neither a dash nor a digit.
                let k = choose|k: int|
                    0 <= k < s@.len() && !('\0' <= #[trigger] s@[k] <= '\u{7f}');
                assert(s@[k] != '-' && !is_hex_digit(s@[k]));
            }
            return false;
        },
    };
    if bytes.len() != 36 {
        return false;
    }
    let mut i: usize = 0;
    while i < 36
        invariant
            i <= 36,
            bytes@.len() == 36,
            s@.len() == 36,
            forall|j: int| 0 <= j < 36 ==> #[trigger] bytes@[j] as int == s@[j] as int,
            forall|j: int|
                0 <= j < i ==> if is_dash_position(j) {
                    #[trigger] s@[j] == '-'
                } else {
                    is_hex_digit(s@[j])
                },
        decreases 36 - i,
    {
        let b: u8 = bytes[i];
        assert(bytes@[i as int] as int == s@[i as int] as int);
        let fits = if i == 8 || i == 13 || i == 18 || i == 23 {
            b == 45
        } else {
            (48 <= b && b <= 57) || (97 <= b && b <= 102) || (65 <= b && b <= 70)
        };
        if !fits {
            assert(!(if is_dash_position(i as int) {
                s@[i as int] == '-'
            } else {
                is_hex_digit(s@[i as int])
            }));
            return false;
        }
        i = i + 1;
    }
    true
}

impl Guid {
    /// The identifier that the text `s` decodes to. The text is kept as it
    /// is either way; no letter changes its case.
    pub open spec fn decoded(s: Seq<char>) -> GuidView {
        if is_canonical(s) {
            GuidView::Valid(s)
        } else {
            GuidView::Other(s)
        }
    }

    /// Decodes the text of an identifier.
    pub fn parse(s: &str) -> (guid: Guid)
        ensures
            guid@ == Guid::decoded(s@),
    {
        if has_canonical_form(s) {
            Guid::Valid(s.to_owned())
        } else {
            Guid::Other(s.to_owned())
        }
    }
}

} // verus!
