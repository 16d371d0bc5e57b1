//! The mathematical model of a permissively decoded field.

use vstd::prelude::*;

verus! {

/// What a field's text decodes to: the value it denotes, or, where it denotes
/// none, the text itself, character for character.
pub enum Decoded<T> {
    Valid(T),
    Fallback(Seq<char>),
}

impl<T> Decoded<T> {
    /// The outcome of a strict reading `parsed` of the text `raw`: the value
    /// where the reading succeeded, the unchanged text where it did not.
    pub open spec fn of(parsed: Option<T>, raw: Seq<char>) -> Decoded<T> {
        match parsed {
            Some(value) => Decoded::Valid(value),
            None => Decoded::Fallback(raw),
        }
    }
}

/// The model of an optional value: the model of the value, where there is one.
pub open spec fn option_view<T: View>(o: Option<T>) -> Option<T::V> {
    match o {
        Some(t) => Some(t@),
        None => None,
    }
}

/// The outcome of applying `f` to an optional value, where there is one.
pub open spec fn option_map<A, B>(o: Option<A>, f: spec_fn(A) -> B) -> Option<B> {
    match o {
        Some(a) => Some(f(a)),
        None => None,
    }
}

} // verus!
