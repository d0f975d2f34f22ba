//! Comparing the two halves of a pair, for use with iterator adapters.
use vstd::prelude::*;
use vstd::std_specs::cmp::PartialEqSpec;

verus! {

/// Whether the two halves of `pair` are equal.
pub fn eq<A: PartialEq<B>, B>(pair: (A, B)) -> (r: bool)
    ensures
        A::obeys_eq_spec() ==> r == pair.0.eq_spec(&pair.1),
{
    let (a, b) = pair;
    a == b
}

/// Whether the two halves of the borrowed `pair` are equal.
pub fn eq_ref<A: PartialEq<B>, B>(pair: &(A, B)) -> (r: bool)
    ensures
        A::obeys_eq_spec() ==> r == pair.0.eq_spec(&pair.1),
{
    pair.0 == pair.1
}

} // verus!
