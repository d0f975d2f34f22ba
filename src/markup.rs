//! A sentence written as marked-up text: `/` separates segments and a pair
//! of `|` encloses a group, in the written form and in the kana alike.
use crate::ime::Ime;
use crate::typing::{engine_after, AppMessage};
use vstd::prelude::*;

verus! {

/// Why marked-up sentence text was refused.
#[derive(Debug, Clone, Copy, PartialEq, Eq, Structural)]
pub enum MarkupError {
    /// The two texts hold different numbers of `|`.
    GroupMarkerMismatch,
    /// The two texts hold different numbers of `/`.
    SeparatorMismatch,
    /// The `|` markers do not pair up.
    UnpairedGroupMarker,
}

/// How many times `c` occurs in `s`.
pub open spec fn count_char(s: Seq<char>, c: char) -> nat
    decreases s.len(),
{
    if s.len() == 0 {
        0
    } else {
        count_char(s.drop_last(), c) + if s.last() == c {
            1nat
        } else {
            0nat
        }
    }
}

/// The verdict on a pair of texts, in the order the checks are made.
pub open spec fn markup_check(origin: Seq<char>, hira: Seq<char>) -> Result<(), MarkupError> {
    if count_char(origin, '|') != count_char(hira, '|') {
        Err(MarkupError::GroupMarkerMismatch)
    } else if count_char(origin, '/') != count_char(hira, '/') {
        Err(MarkupError::SeparatorMismatch)
    } else if count_char(origin, '|') % 2 != 0 {
        Err(MarkupError::UnpairedGroupMarker)
    } else {
        Ok(())
    }
}

fn count_in(s: &str, c: char) -> (r: usize)
    ensures
        r == count_char(s@, c),
{
    let n = s.unicode_len();
    let mut k: usize = 0;
    let mut i: usize = 0;
    while i < n
        invariant
            n == s@.len(),
            0 <= i <= n,
            k == count_char(s@.take(i as int), c),
            k <= i,
        decreases n - i,
    {
        assert(s@.take(i + 1).drop_last() =~= s@.take(i as int));
        if s.get_char(i) == c {
            k += 1;
        }
        i += 1;
    }
    assert(s@.take(n as int) =~= s@);
    k
}

/// A marked-up sentence whose two texts agree on their markers.
pub struct Sentence {
    origin: Vec<char>,
    hira: Vec<char>,
}

impl Sentence {
    pub closed spec fn spec_origin(&self) -> Seq<char> {
        self.origin@
    }

    pub closed spec fn spec_hira(&self) -> Seq<char> {
        self.hira@
    }

    /// Checks that `origin` and `hira` hold as many `|` and as many `/` as
    /// each other, and an even number of `|`.
    pub fn new(origin: &str, hira: &str) -> (r: Result<Sentence, MarkupError>)
        ensures
            markup_check(origin@, hira@) is Ok <==> r is Ok,
            r matches Err(e) ==> markup_check(origin@, hira@) == Err::<(), MarkupError>(e),
            r matches Ok(s) ==> s.spec_origin() == origin@ && s.spec_hira() == hira@,
    {
        let groups = count_in(origin, '|');
        if groups != count_in(hira, '|') {
            return Err(MarkupError::GroupMarkerMismatch);
        }
        if count_in(origin, '/') != count_in(hira, '/') {
            return Err(MarkupError::SeparatorMismatch);
        }
        if groups % 2 != 0 {
            return Err(MarkupError::UnpairedGroupMarker);
        }
        Ok(Sentence { origin: chars_of(origin), hira: chars_of(hira) })
    }

    pub fn origin(&self) -> (r: &[char])
        ensures
            r@ == self.spec_origin(),
    {
        self.origin.as_slice()
    }

    pub fn hira(&self) -> (r: &[char])
        ensures
            r@ == self.spec_hira(),
    {
        self.hira.as_slice()
    }
}

/// The characters of `s`.
fn chars_of(s: &str) -> (r: Vec<char>)
    ensures
        r@ == s@,
{
    let n = s.unicode_len();
    let mut v: Vec<char> = Vec::new();
    let mut i: usize = 0;
    while i < n
        invariant
            n == s@.len(),
            0 <= i <= n,
            v@ == s@.take(i as int),
        decreases n - i,
    {
        v.push(s.get_char(i));
        i += 1;
        assert(v@ =~= s@.take(i as int));
    }
    assert(s@.take(n as int) =~= s@);
    v
}

/// A session on one marked-up sentence: the keys go to the engine.
pub struct App {
    sentence: Sentence,
    ime: Ime,
}

impl App {
    pub closed spec fn spec_sentence(&self) -> Sentence {
        self.sentence
    }

    pub closed spec fn spec_ime(&self) -> Ime {
        self.ime
    }

    pub fn new(sentence: Sentence) -> (r: App)
        ensures
            r.spec_sentence() == sentence,
            r.spec_ime().spec_buffer() == Seq::<char>::empty(),
            r.spec_ime().spec_history() == Seq::<(char, usize)>::empty(),
    {
        App { sentence, ime: Ime::new() }
    }

    pub fn sentence(&self) -> (r: &Sentence)
        ensures
            *r == self.spec_sentence(),
    {
        &self.sentence
    }

    pub fn ime(&self) -> (r: &Ime)
        ensures
            *r == self.spec_ime(),
    {
        &self.ime
    }

    /// `Backspace` removes the last buffer character; a one-character key
    /// goes to the engine; other events change nothing. Always returns true.
    pub fn update(&mut self, msg: AppMessage) -> (r: bool)
        ensures
            r,
            final(self).spec_sentence() == old(self).spec_sentence(),
            engine_after(old(self).spec_ime(), msg, final(self).spec_ime()),
    {
        let AppMessage::Type(key) = msg;
        if crate::typing::is_backspace(key.as_str()) {
            self.ime.pop();
        } else if key.as_str().unicode_len() == 1 {
            let c = key.as_str().get_char(0);
            let _ = self.ime.put(c);
        }
        true
    }
}

} // verus!
