//! Trusted wrappers around the outside crates the engine computes with.
//!
//! Each wrapper's contract is believed, not proved; the doc comment of each
//! names the outside function it relies on.

use vstd::prelude::*;

use rand::seq::SliceRandom;

use crate::source::Source;

verus! {

/// The percent-encoding of `s`, as `urlencoding::encode` produces it.
pub uninterp spec fn url_encoded(s: Seq<char>) -> Seq<char>;

/// Relies on `urlencoding::encode`: percent-encodes every byte outside
/// `[0-9A-Za-z_.~-]`; the result is a function of the characters alone.
#[verifier::external_body]
pub fn url_encode(s: &str) -> (r: String)
    ensures
        r@ == url_encoded(s@),
{
    urlencoding::encode(s).into_owned()
}

/// Relies on `SliceRandom::shuffle` of rand: permutes the elements in
/// place by swaps (Fisher-Yates), so the multiset of elements and the
/// length are unchanged; the resulting order depends on the thread's
/// random generator.
#[verifier::external_body]
pub fn shuffle_sources(v: &mut Vec<Source>)
    ensures
        final(v)@.to_multiset() == old(v)@.to_multiset(),
        final(v)@.len() == old(v)@.len(),
{
    v.shuffle(&mut rand::thread_rng());
}

} // verus!
