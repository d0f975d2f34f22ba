//! Target phrases: a sentence split into segments, each pairing its written
//! form with the kana to be typed, and a cursor on the segment being typed.
use vstd::prelude::*;

verus! {

/// One span of a sentence: its written form and its kana spelling.
pub struct Segment {
    origin: Vec<char>,
    hira: Vec<char>,
}

impl Segment {
    /// The written form.
    pub closed spec fn spec_origin(&self) -> Seq<char> {
        self.origin@
    }

    /// The kana to be typed.
    pub closed spec fn spec_hira(&self) -> Seq<char> {
        self.hira@
    }

    pub fn new(origin: &[char], hira: &[char]) -> (r: Segment)
        ensures
            r.spec_origin() == origin@,
            r.spec_hira() == hira@,
    {
        Segment {
            origin: vstd::slice::slice_to_vec(origin),
            hira: vstd::slice::slice_to_vec(hira),
        }
    }

    pub fn origin(&self) -> (r: &[char])
        ensures
            r@ == self.spec_origin(),
    {
        self.origin.as_slice()
    }

    pub fn hira(&self) -> (r: &[char])
        ensures
            r@ == self.spec_hira(),
    {
        self.hira.as_slice()
    }
}

/// A non-empty list of segments and the index of the one being typed.
pub struct Sentence {
    segments: Vec<Segment>,
    index: usize,
}

impl Sentence {
    #[verifier::type_invariant]
    spec fn inv(&self) -> bool {
        self.index < self.segments@.len()
    }

    pub closed spec fn spec_segments(&self) -> Seq<Segment> {
        self.segments@
    }

    /// The index of the segment being typed.
    pub closed spec fn spec_index(&self) -> nat {
        self.index as nat
    }

    /// A sentence with its cursor on the first segment.
    pub fn new(segments: Vec<Segment>) -> (r: Sentence)
        requires
            segments@.len() > 0,
        ensures
            r.spec_segments() == segments@,
            r.spec_index() == 0,
            r.spec_index() < r.spec_segments().len(),
    {
        Sentence { segments, index: 0 }
    }

    pub fn segments(&self) -> (r: &[Segment])
        ensures
            r@ == self.spec_segments(),
    {
        self.segments.as_slice()
    }

    /// Moves the cursor to the next segment; false, with nothing changed, on
    /// the last one.
    pub fn advance_segment(&mut self) -> (r: bool)
        ensures
            final(self).spec_segments() == old(self).spec_segments(),
            r == (old(self).spec_index() + 1 < old(self).spec_segments().len()),
            r ==> final(self).spec_index() == old(self).spec_index() + 1,
            !r ==> final(self).spec_index() == old(self).spec_index(),
            final(self).spec_index() < final(self).spec_segments().len(),
    {
        proof {
            use_type_invariant(&*self);
        }
        if self.index == self.segments.len() - 1 {
            false
        } else {
            self.index = self.index + 1;
            true
        }
    }

    /// The segment being typed.
    pub fn current_segment(&self) -> (r: &Segment)
        ensures
            self.spec_index() < self.spec_segments().len(),
            *r == self.spec_segments()[self.spec_index() as int],
    {
        proof {
            use_type_invariant(self);
        }
        &self.segments[self.index]
    }

    /// The segments before the cursor.
    pub fn typed_segments(&self) -> (r: &[Segment])
        ensures
            r@ == self.spec_segments().take(self.spec_index() as int),
    {
        proof {
            use_type_invariant(self);
        }
        vstd::slice::slice_subrange(self.segments.as_slice(), 0, self.index)
    }

    /// The segments after the cursor.
    pub fn untyped_segments(&self) -> (r: &[Segment])
        ensures
            r@ == self.spec_segments().skip((self.spec_index() + 1) as int),
    {
        proof {
            use_type_invariant(self);
        }
        let s = self.segments.as_slice();
        let n = s.len();
        let r = vstd::slice::slice_subrange(s, self.index + 1, n);
        assert(r@ =~= self.spec_segments().skip((self.spec_index() + 1) as int));
        r
    }
}

} // verus!
