//! The integrity scheme of an alternate enclosure.

use vstd::prelude::*;
use crate::text::same_text;

verus! {

/// The model of an integrity scheme.
pub enum IntegrityTypeView {
    SRI,
    PGP,
    Other(Seq<char>),
}

/// The scheme by which the integrity of an alternate enclosure is checked.
///
/// | text            | scheme |
/// |-----------------|--------|
/// | `sri`           | `SRI`  |
/// | `pgp-signature` | `PGP`  |
#[derive(Debug, PartialEq, Eq)]
pub enum IntegrityType {
    SRI,
    PGP,
    Other(String),
}

impl View for IntegrityType {
    type V = IntegrityTypeView;

    open spec fn view(&self) -> IntegrityTypeView {
        match *self {
            IntegrityType::SRI => IntegrityTypeView::SRI,
            IntegrityType::PGP => IntegrityTypeView::PGP,
            IntegrityType::Other(s) => IntegrityTypeView::Other(s@),
        }
    }
}

impl IntegrityType {
    /// The scheme that the text `s` decodes to: the one whose text it is,
    /// letter for letter, or `Other` with the text itself.
    pub open spec fn decoded(s: Seq<char>) -> IntegrityTypeView {
        if s == "sri"@ {
            IntegrityTypeView::SRI
        } else if s == "pgp-signature"@ {
            IntegrityTypeView::PGP
        } else {
            IntegrityTypeView::Other(s)
        }
    }

    /// The text that a scheme is written as.
    pub open spec fn literal(v: IntegrityTypeView) -> Seq<char> {
        match v {
            IntegrityTypeView::SRI => "sri"@,
            IntegrityTypeView::PGP => "pgp-signature"@,
            IntegrityTypeView::Other(s) => s,
        }
    }

    /// Decodes the text of an integrity scheme.
    pub fn parse(s: &str) -> (scheme: IntegrityType)
        ensures
            scheme@ == IntegrityType::decoded(s@),
    {
        if same_text(s, "sri") {
            IntegrityType::SRI
        } else if same_text(s, "pgp-signature") {
            IntegrityType::PGP
        } else {
            IntegrityType::Other(s.to_owned())
        }
    }

    /// Writes the scheme as text.
    pub fn to_string(&self) -> (text: String)
        ensures
            text@ == IntegrityType::literal(self@),
    {
        match self {
            IntegrityType::SRI => "sri".to_owned(),
            IntegrityType::PGP => "pgp-signature".to_owned(),
            IntegrityType::Other(s) => s.clone(),
        }
    }

    /// Writing what a text decoded to gives the text back, whatever the text.
    pub proof fn lemma_literal_of_decoded(s: Seq<char>)
        ensures
            IntegrityType::literal(IntegrityType::decoded(s)) == s,
    {
    }

    /// Decoding what a named scheme is written as gives the scheme back.
    pub proof fn lemma_decoded_of_literal(v: IntegrityTypeView)
        requires
            !(v is Other),
        ensures
            IntegrityType::decoded(IntegrityType::literal(v)) == v,
    {
        reveal_strlit("sri");
        reveal_strlit("pgp-signature");
        assert("sri"@.len() != "pgp-signature"@.len());
    }
}

} // verus!
