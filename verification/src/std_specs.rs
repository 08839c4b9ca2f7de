//! What is taken on trust of the standard library.
//!
//! Everything else in this crate is proved. The contracts here are believed
//! as they stand: they say of a function of std what its documentation
//! says, for the verifier to reason with.

use vstd::prelude::*;

verus! {

/// `String::push` of std appends one character: the string afterwards is
/// the string before with `ch` as its new last character, and nothing else
/// of it has changed.
pub assume_specification[ String::push ](s: &mut String, ch: char)
    ensures
        final(s)@ == old(s)@.push(ch),
;

} // verus!
