//! The set of kana that pending input may still become, held in a small
//! vector of the smallvec crate.
use smallvec::SmallVec;
use vstd::prelude::*;

verus! {

/// Kana sequences, in the order in which they were added.
#[verifier::external_body]
pub struct Candidates {
    items: SmallVec<[Vec<char>; 10]>,
}

/// The character sequences that a list of vectors holds.
pub open spec fn kana_views(s: Seq<Vec<char>>) -> Seq<Seq<char>> {
    s.map_values(|v: Vec<char>| v@)
}

/// What a `Candidates` holds.
pub uninterp spec fn candidate_items(c: Candidates) -> Seq<Seq<char>>;

/// Relies on smallvec::SmallVec::new: the new vector is empty.
#[verifier::external_body]
pub(crate) fn candidates_new() -> (r: Candidates)
    ensures
        candidate_items(r) == Seq::<Seq<char>>::empty(),
{
    Candidates { items: SmallVec::new() }
}

/// Relies on smallvec::SmallVec::push: the item goes after the others. It
/// panics only when the grown capacity overflows, far beyond the bound here.
#[verifier::external_body]
pub(crate) fn candidates_push(c: &mut Candidates, kana: Vec<char>)
    requires
        candidate_items(*old(c)).len() < 65536,
    ensures
        candidate_items(*final(c)) == candidate_items(*old(c)).push(kana@),
{
    c.items.push(kana)
}

/// Relies on smallvec::SmallVec::as_slice: the items, in order.
#[verifier::external_body]
pub(crate) fn candidates_as_slice(c: &Candidates) -> (r: &[Vec<char>])
    ensures
        kana_views(r@) == candidate_items(*c),
{
    c.items.as_slice()
}

/// Whether two character sequences are equal.
pub fn chars_eq(a: &[char], b: &[char]) -> (r: bool)
    ensures
        r == (a@ == b@),
{
    if a.len() != b.len() {
        return false;
    }
    let mut i: usize = 0;
    while i < a.len()
        invariant
            a@.len() == b@.len(),
            0 <= i <= a@.len(),
            forall|j: int| 0 <= j < i ==> a@[j] == b@[j],
        decreases a@.len() - i,
    {
        if a[i] != b[i] {
            return false;
        }
        i += 1;
    }
    assert(a@ =~= b@);
    true
}

impl Candidates {
    /// The number of candidates.
    pub fn len(&self) -> (r: usize)
        ensures
            r == candidate_items(*self).len(),
    {
        let s = candidates_as_slice(self);
        s.len()
    }

    /// The candidate at `i`.
    pub fn get(&self, i: usize) -> (r: Vec<char>)
        requires
            i < candidate_items(*self).len(),
        ensures
            r@ == candidate_items(*self)[i as int],
    {
        let s = candidates_as_slice(self);
        vstd::slice::slice_to_vec(s[i].as_slice())
    }

    /// Whether `kana` is one of the candidates.
    pub fn contains(&self, kana: &[char]) -> (r: bool)
        ensures
            r == candidate_items(*self).contains(kana@),
    {
        let s = candidates_as_slice(self);
        let ghost items = candidate_items(*self);
        let mut i: usize = 0;
        while i < s.len()
            invariant
                kana_views(s@) == items,
                items == candidate_items(*self),
                0 <= i <= s@.len(),
                forall|j: int| 0 <= j < i ==> items[j] != kana@,
            decreases s@.len() - i,
        {
            if chars_eq(s[i].as_slice(), kana) {
                assert(kana_views(s@)[i as int] == s@[i as int]@);
                assert(items[i as int] == kana@);
                assert(items.contains(kana@));
                return true;
            }
            i += 1;
        }
        assert(!items.contains(kana@));
        false
    }
}

} // verus!
