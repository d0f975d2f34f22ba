//! Typing a list of sentences: the evaluator that marks each buffer character
//! right or wrong against the segment being typed, and the state that moves
//! from segment to segment as the kana are completed.
use crate::candidates::{candidate_items, Candidates};
use crate::ime::{
    candidates_of, is_accepted_input, pending_len, pending_start, put_buffer, put_history, trimmed_history,
    unstamped, Ime,
};
use crate::phrase::Sentence;
use vstd::prelude::*;

verus! {

/// One buffer character and whether it is typed correctly so far.
#[derive(Debug, Clone, Copy, PartialEq, Eq, Structural)]
pub struct SegmentTypingStatus {
    pub c: char,
    pub ok: bool,
}

impl SegmentTypingStatus {
    pub fn new(c: char, ok: bool) -> (r: Self)
        ensures
            r.c == c,
            r.ok == ok,
    {
        SegmentTypingStatus { c, ok }
    }

    pub fn ok(c: char) -> (r: Self)
        ensures
            r.c == c,
            r.ok,
    {
        SegmentTypingStatus { c, ok: true }
    }

    pub fn not_ok(c: char) -> (r: Self)
        ensures
            r.c == c,
            !r.ok,
    {
        SegmentTypingStatus { c, ok: false }
    }
}

/// The length of the resolved part of `b`: everything before its pending
/// suffix, the longest run of ASCII characters at its end.
pub open spec fn resolved_len(b: Seq<char>) -> int {
    b.len() - pending_len(b)
}

/// The first `n` characters of `b` equal those of `target`.
pub open spec fn agrees_upto(b: Seq<char>, target: Seq<char>, n: int) -> bool {
    forall|j: int| #![trigger b[j]] 0 <= j < n ==> j < target.len() && b[j] == target[j]
}

/// The pending letters can still reach the kana that follow position `k` of
/// `target`: its next kana, or its next two, is among `cands`.
pub open spec fn pending_plausible(cands: Seq<Seq<char>>, target: Seq<char>, k: int) -> bool {
    (k < target.len() && cands.contains(seq![target[k]])) || (k + 1 < target.len()
        && cands.contains(target.subrange(k, k + 2)))
}

/// Whether character `i` of `b` counts as typed correctly: a resolved
/// character when it and every one before it match `target`; a pending letter
/// when the whole resolved part matches and the pending input is plausible.
pub open spec fn status_ok(b: Seq<char>, cands: Seq<Seq<char>>, target: Seq<char>, i: int) -> bool {
    let k = resolved_len(b);
    if i < k {
        agrees_upto(b, target, i + 1)
    } else {
        agrees_upto(b, target, k) && pending_plausible(cands, target, k)
    }
}

/// `r` marks each character of `b` as `status_ok` says.
pub open spec fn is_status_of(
    r: Seq<SegmentTypingStatus>,
    b: Seq<char>,
    cands: Seq<Seq<char>>,
    target: Seq<char>,
) -> bool {
    &&& r.len() == b.len()
    &&& forall|i: int|
        0 <= i < b.len() ==> #[trigger] r[i].c == b[i] && r[i].ok == status_ok(b, cands, target, i)
}

/// Marks each character of `buf` against `target`. The resolved part, all
/// that precedes the trailing run of ASCII letters, is compared position by
/// position; from the first mismatch on, everything is wrong.
/// Pending letters are right when the next kana of `target`, or the next two,
/// are among `cands`.
pub fn typing_status_of(buf: &[char], cands: &Candidates, target: &[char]) -> (r: Vec<
    SegmentTypingStatus,
>)
    ensures
        is_status_of(r@, buf@, candidate_items(*cands), target@),
{
    let ghost b = buf@;
    let ghost cs = candidate_items(*cands);
    let k = pending_start(buf);
    let mut ret: Vec<SegmentTypingStatus> = Vec::new();
    let mut i: usize = 0;
    while i < k
        invariant
            k == resolved_len(b),
            k <= b.len(),
            b == buf@,
            0 <= i <= k,
            ret@.len() == i,
            agrees_upto(b, target@, i as int),
            forall|j: int| 0 <= j < i ==> #[trigger] ret@[j] == (SegmentTypingStatus { c: b[j], ok: true }),
        decreases k - i,
    {
        let c = buf[i];
        if i >= target.len() || c != target[i] {
            let mut j: usize = i;
            while j < buf.len()
                invariant
                    k == resolved_len(b),
                    b == buf@,
                    i < k <= b.len(),
                    i <= j <= b.len(),
                    ret@.len() == j,
                    !agrees_upto(b, target@, i + 1),
                    agrees_upto(b, target@, i as int),
                    forall|m: int| 0 <= m < i ==> #[trigger] ret@[m] == (SegmentTypingStatus { c: b[m], ok: true }),
                    forall|m: int| i <= m < j ==> #[trigger] ret@[m] == (SegmentTypingStatus { c: b[m], ok: false }),
                decreases b.len() - j,
            {
                ret.push(SegmentTypingStatus::not_ok(buf[j]));
                j += 1;
            }
            proof {
                assert forall|m: int| 0 <= m < b.len() implies #[trigger] ret@[m].c == b[m]
                    && ret@[m].ok == status_ok(b, cs, target@, m) by {
                    if m >= i {
                        assert(!agrees_upto(b, target@, m + 1)) by {
                            assert(!(i < target@.len() && b[i as int] == target@[i as int]));
                        }
                        if m >= k {
                            assert(!agrees_upto(b, target@, k as int));
                        }
                    } else {
                        assert forall|j: int| 0 <= j < m + 1 implies j < target@.len() && b[j]
                            == target@[j] by {
                            assert(agrees_upto(b, target@, i as int));
                            assert(0 <= j < i);
                            assert(b[j] == target@[j]);
                        }
                    }
                }
            }
            return ret;
        }
        ret.push(SegmentTypingStatus::ok(c));
        i += 1;
    }
    let n = target.len();
    let mut plausible = false;
    if k < n {
        let one = vec![target[k]];
        assert(one@ =~= seq![target@[k as int]]);
        plausible = cands.contains(one.as_slice());
    }
    if !plausible && n >= 2 && k < n - 1 {
        let two = vstd::slice::slice_subrange(target, k, k + 2);
        plausible = cands.contains(two);
    }
    assert(plausible == pending_plausible(cs, target@, k as int));
    let mut j: usize = k;
    while j < buf.len()
        invariant
            k == resolved_len(b),
            b == buf@,
            k <= j <= b.len(),
            ret@.len() == j,
            agrees_upto(b, target@, k as int),
            plausible == pending_plausible(cs, target@, k as int),
            forall|m: int| 0 <= m < k ==> #[trigger] ret@[m] == (SegmentTypingStatus { c: b[m], ok: true }),
            forall|m: int| k <= m < j ==> #[trigger] ret@[m] == (SegmentTypingStatus { c: b[m], ok: plausible }),
        decreases b.len() - j,
    {
        ret.push(SegmentTypingStatus::new(buf[j], plausible));
        j += 1;
    }
    assert forall|m: int| 0 <= m < b.len() implies #[trigger] ret@[m].c == b[m] && ret@[m].ok
        == status_ok(b, cs, target@, m) by {
        if m < k {
            assert forall|j: int| 0 <= j < m + 1 implies j < target@.len() && b[j] == target@[j] by {
                assert(agrees_upto(b, target@, k as int));
                assert(0 <= j < k);
                assert(b[j] == target@[j]);
            }
        }
    }
    ret
}

/// A key event: the name of the key pressed.
#[derive(Debug)]
pub enum AppMessage {
    Type(String),
}

/// The state of a typing session over several sentences.
pub struct App {
    ime: Ime,
    sentences: Vec<Sentence>,
    index: usize,
}

impl App {
    pub closed spec fn spec_ime(&self) -> Ime {
        self.ime
    }

    pub closed spec fn spec_sentences(&self) -> Seq<Sentence> {
        self.sentences@
    }

    /// The index of the sentence being typed; the number of sentences once
    /// all are done.
    pub closed spec fn spec_index(&self) -> nat {
        self.index as nat
    }

    /// A session on the first of `sentences`, with an empty engine.
    pub fn new(sentences: Vec<Sentence>) -> (r: App)
        ensures
            r.spec_sentences() == sentences@,
            r.spec_index() == 0,
            r.spec_ime().spec_buffer() == Seq::<char>::empty(),
            r.spec_ime().spec_history() == Seq::<(char, usize)>::empty(),
    {
        App { ime: Ime::new(), sentences, index: 0 }
    }

    pub fn ime(&self) -> (r: &Ime)
        ensures
            *r == self.spec_ime(),
    {
        &self.ime
    }

    /// Whether every sentence has been typed.
    pub fn is_finished(&self) -> (r: bool)
        ensures
            r == (self.spec_index() >= self.spec_sentences().len()),
    {
        self.index >= self.sentences.len()
    }

    /// The sentence being typed.
    pub fn sentence(&self) -> (r: &Sentence)
        requires
            self.spec_index() < self.spec_sentences().len(),
        ensures
            *r == self.spec_sentences()[self.spec_index() as int],
    {
        &self.sentences[self.index]
    }

    /// The sentence being typed, for change.
    pub fn sentence_mut(&mut self) -> (r: &mut Sentence)
        requires
            old(self).spec_index() < old(self).spec_sentences().len(),
        ensures
            *r == old(self).spec_sentences()[old(self).spec_index() as int],
            final(self).spec_sentences() == old(self).spec_sentences().update(
                old(self).spec_index() as int,
                *final(r),
            ),
            final(self).spec_index() == old(self).spec_index(),
            final(self).spec_ime() == old(self).spec_ime(),
    {
        &mut self.sentences[self.index]
    }

    /// Marks each buffer character against the segment being typed.
    pub fn typing_status(&self) -> (r: Vec<SegmentTypingStatus>)
        requires
            self.spec_index() < self.spec_sentences().len(),
        ensures
            is_status_of(
                r@,
                self.spec_ime().spec_buffer(),
                candidates_of(self.spec_ime().spec_buffer()),
                current_target(self.spec_sentences()[self.spec_index() as int]),
            ),
    {
        let buf = self.ime.buffer();
        let cands = self.ime.candidates();
        let segment = self.sentence().current_segment();
        typing_status_of(buf, &cands, segment.hira())
    }

    /// Handles one key event. `Backspace` removes the last buffer character.
    /// A one-character key goes to the engine. After any other event, a
    /// buffer that begins with the kana of the current segment loses them,
    /// and the cursor moves to the next segment, or to the next sentence after
    /// the last segment. Once every sentence is done, events are ignored.
    /// Returns whether anything may have changed.
    pub fn update(&mut self, msg: AppMessage) -> (r: bool)
        ensures
            old(self).spec_index() >= old(self).spec_sentences().len() ==> !r && *final(self)
                == *old(self),
            old(self).spec_index() < old(self).spec_sentences().len() ==> r && updated(
                *old(self),
                msg,
                *final(self),
            ),
    {
        if self.is_finished() {
            return false;
        }
        let AppMessage::Type(key) = msg;
        if is_backspace(key.as_str()) {
            self.ime.pop();
            assert(engine_after(old(self).spec_ime(), AppMessage::Type(key), self.ime));
            assert(updated(*old(self), AppMessage::Type(key), *self));
            return true;
        }
        if key.as_str().unicode_len() == 1 {
            let c = key.as_str().get_char(0);
            let _ = self.ime.put(c);
        }
        let ghost typed = self.ime;
        assert(engine_after(old(self).spec_ime(), AppMessage::Type(key), typed));
        let target = self.sentence().current_segment().hira();
        let n = target.len();
        let buf = self.ime.buffer();
        if n <= buf.len() && crate::candidates::chars_eq(
            vstd::slice::slice_subrange(buf, 0, n),
            target,
        ) {
            let _ = self.ime.trim_beginning(n);
            let i = self.index;
            let total = self.sentences.len();
            let more = self.sentence_mut().advance_segment();
            if !more && i < total {
                self.index = i + 1;
            }
            assert(updated(*old(self), AppMessage::Type(key), *self));
        } else {
            assert(updated(*old(self), AppMessage::Type(key), *self));
        }
        true
    }
}

/// Whether `s` names the Backspace key.
pub(crate) fn is_backspace(s: &str) -> (r: bool)
    ensures
        r == (s@ == "Backspace"@),
{
    let name = "Backspace";
    proof {
        reveal_strlit("Backspace");
    }
    let n = name.unicode_len();
    if s.unicode_len() != n {
        return false;
    }
    let mut i: usize = 0;
    while i < n
        invariant
            n == name@.len(),
            name@ == "Backspace"@,
            s@.len() == n,
            0 <= i <= n,
            forall|j: int| 0 <= j < i ==> s@[j] == name@[j],
        decreases n - i,
    {
        if s.get_char(i) != name.get_char(i) {
            assert(s@[i as int] != name@[i as int]);
            return false;
        }
        i += 1;
    }
    assert(s@ =~= name@);
    true
}

/// The key that a one-character key name stands for.
pub open spec fn single_key(s: Seq<char>) -> Option<char> {
    if s.len() == 1 {
        Some(s[0])
    } else {
        None
    }
}

/// `next` is `ime` after the event `msg`.
pub open spec fn engine_after(ime: Ime, msg: AppMessage, next: Ime) -> bool {
    let AppMessage::Type(key) = msg;
    let b = ime.spec_buffer();
    let h = ime.spec_history();
    if key@ == "Backspace"@ {
        if b.len() > 0 {
            next.spec_buffer() == b.drop_last() && next.spec_history() == unstamped(
                h,
                b.len() as usize,
            )
        } else {
            next.spec_buffer() == b && next.spec_history() == h
        }
    } else {
        match single_key(key@) {
            Some(c) if is_accepted_input(c) => {
                &&& next.spec_buffer() == put_buffer(b, c)
                &&& next.spec_history() == put_history(b, h, c)
            },
            _ => next.spec_buffer() == b && next.spec_history() == h,
        }
    }
}

/// `new` is `old` after the event `msg`, while a sentence is being typed.
pub open spec fn updated(old: App, msg: AppMessage, new: App) -> bool {
    let AppMessage::Type(key) = msg;
    let i = old.spec_index() as int;
    let s = old.spec_sentences()[i];
    let t = current_target(s);
    exists|typed: Ime|
        {
            &&& engine_after(old.spec_ime(), msg, typed)
            &&& if key@ != "Backspace"@ && t.len() <= typed.spec_buffer().len()
                && typed.spec_buffer().take(t.len() as int) == t {
                &&& new.spec_ime().spec_buffer() == typed.spec_buffer().skip(t.len() as int)
                &&& new.spec_ime().spec_history() == trimmed_history(
                    typed.spec_history(),
                    t.len() as usize,
                )
                &&& new.spec_sentences().len() == old.spec_sentences().len()
                &&& forall|j: int|
                    0 <= j < old.spec_sentences().len() && j != i ==> #[trigger] new.spec_sentences()[j]
                        == old.spec_sentences()[j]
                &&& new.spec_sentences()[i].spec_segments() == s.spec_segments()
                &&& if s.spec_index() + 1 < s.spec_segments().len() {
                    &&& new.spec_sentences()[i].spec_index() == s.spec_index() + 1
                    &&& new.spec_index() == old.spec_index()
                } else {
                    &&& new.spec_sentences()[i].spec_index() == s.spec_index()
                    &&& new.spec_index() == old.spec_index() + 1
                }
            } else {
                &&& new.spec_ime().spec_buffer() == typed.spec_buffer()
                &&& new.spec_ime().spec_history() == typed.spec_history()
                &&& new.spec_sentences() == old.spec_sentences()
                &&& new.spec_index() == old.spec_index()
            }
        }
}

/// The kana of the segment that `s` is on.
pub open spec fn current_target(s: Sentence) -> Seq<char> {
    s.spec_segments()[s.spec_index() as int].spec_hira()
}

} // verus!
