//! The relation of a transcript to its episode.

use vstd::prelude::*;
use crate::text::same_text;

verus! {

/// The model of a transcript relation.
pub enum RelView {
    Captions,
    Other(Seq<char>),
}

/// What a transcript is to its episode.
///
/// | read from  | relation   | written as |
/// |------------|------------|------------|
/// | `Captions` | `Captions` | `captions` |
///
/// A named relation is read by its name and written in lower case, so what
/// is written for it does not read as it again.
#[derive(Debug, PartialEq, Eq)]
pub enum Rel {
    Captions,
    Other(String),
}

impl View for Rel {
    type V = RelView;

    open spec fn view(&self) -> RelView {
        match *self {
            Rel::Captions => RelView::Captions,
            Rel::Other(s) => RelView::Other(s@),
        }
    }
}

impl Rel {
    /// The relation that the text `s` decodes to: the one whose text it is,
    /// letter for letter, or `Other` with the text itself.
    pub open spec fn decoded(s: Seq<char>) -> RelView {
        if s == "Captions"@ {
            RelView::Captions
        } else {
            RelView::Other(s)
        }
    }

    /// The text that a relation is written as: its name in lower case for a
    /// named relation, its own text for any other.
    pub open spec fn literal(v: RelView) -> Seq<char> {
        match v {
            RelView::Captions => "captions"@,
            RelView::Other(s) => s,
        }
    }

    /// Decodes the text of a transcript relation.
    pub fn parse(s: &str) -> (rel: Self)
        ensures
            rel@ == Rel::decoded(s@),
    {
        if same_text(s, "Captions") {
            Rel::Captions
        } else {
            Rel::Other(s.to_owned())
        }
    }

    /// Decodes the text of a transcript relation. Every text decodes to a
    /// relation, so the result is never an error.
    pub fn from_str(s: &str) -> (rel: Result<Self, String>)
        ensures
            rel matches Ok(r) && r@ == Rel::decoded(s@),
    {
        Ok(Rel::parse(s))
    }

    /// Writes the relation as text.
    pub fn to_string(&self) -> (text: String)
        ensures
            text@ == Rel::literal(self@),
    {
        match self {
            Rel::Captions => "captions".to_owned(),
            Rel::Other(s) => s.clone(),
        }
    }

    /// Writing what a text decoded to gives the text back wherever the text
    /// decoded to a fallback, that is for every text but `Captions`.
    pub proof fn lemma_literal_of_fallback(s: Seq<char>)
        ensures
            Rel::decoded(s) is Other <==> s != "Captions"@,
            Rel::decoded(s) is Other ==> Rel::literal(Rel::decoded(s)) == s,
    {
    }
}

} // verus!
