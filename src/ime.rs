//! The conversion engine: a buffer of resolved kana followed by pending
//! Latin letters, and a log of the keystrokes that built it.
use crate::candidates::{candidate_items, candidates_push, Candidates};
use crate::table::{
    all_keys_shaped, compatible_values, has_key, key_shape, lemma_lookup_entry,
    lemma_roma_table_keys_unique, lemma_roma_table_shaped, lookup, roma_table, RomaTable,
};
use vstd::prelude::*;

verus! {

/// Why the engine refused a call.
#[derive(Debug, Clone, Copy, PartialEq, Eq, Structural)]
pub enum ImeError {
    /// `put` was given a character that is neither an ASCII letter nor `,` or `.`.
    InvalidInput,
    /// `trim_beginning` was asked to remove more characters than the buffer holds.
    OutOfRange,
}

pub open spec fn is_ascii_char(c: char) -> bool {
    (c as u32) < 128
}

pub open spec fn is_lower_letter(c: char) -> bool {
    'a' <= c && c <= 'z'
}

pub open spec fn is_upper_letter(c: char) -> bool {
    'A' <= c && c <= 'Z'
}

pub open spec fn is_vowel(c: char) -> bool {
    c == 'a' || c == 'i' || c == 'u' || c == 'e' || c == 'o'
}

/// The keys that `put` takes: ASCII letters and the two punctuation marks.
pub open spec fn is_accepted_input(c: char) -> bool {
    is_lower_letter(c) || is_upper_letter(c) || c == ',' || c == '.'
}

/// ASCII lower case.
pub open spec fn to_lower(c: char) -> char {
    if is_upper_letter(c) {
        ((c as u8) + 32u8) as char
    } else {
        c
    }
}

/// The last `i` characters of `b`.
pub open spec fn tail(b: Seq<char>, i: int) -> Seq<char> {
    b.subrange(b.len() - i, b.len() as int)
}

/// The length of the longest tail of `b`, of at most three characters, that
/// is a key of the table; 0 if there is none.
pub open spec fn match_len(b: Seq<char>) -> int {
    if b.len() >= 3 && lookup(roma_table(), tail(b, 3)) is Some {
        3
    } else if b.len() >= 2 && lookup(roma_table(), tail(b, 2)) is Some {
        2
    } else if b.len() >= 1 && lookup(roma_table(), tail(b, 1)) is Some {
        1
    } else {
        0
    }
}

/// `b` ends in a doubled consonant letter other than `n`.
pub open spec fn geminates(b: Seq<char>) -> bool {
    &&& b.len() >= 2
    &&& b[b.len() - 2] == b[b.len() - 1]
    &&& is_lower_letter(b[b.len() - 1])
    &&& !is_vowel(b[b.len() - 1])
    &&& b[b.len() - 1] != 'n'
}

/// `b` ends in `n` followed by a letter other than `y`.
pub open spec fn nasal(b: Seq<char>) -> bool {
    &&& b.len() >= 2
    &&& b[b.len() - 2] == 'n'
    &&& is_lower_letter(b[b.len() - 1])
    &&& b[b.len() - 1] != 'y'
}

/// The rule that applies to `b` after a key was appended to it, longest
/// table match first.
pub open spec fn nasal_applies(b: Seq<char>) -> bool {
    match_len(b) == 0 && !geminates(b) && nasal(b)
}

/// The buffer that results from `b`, a buffer with a key just appended.
pub open spec fn convert(b: Seq<char>) -> Seq<char> {
    let n = b.len() as int;
    let m = match_len(b);
    if m > 0 {
        b.subrange(0, n - m) + lookup(roma_table(), tail(b, m))->Some_0
    } else if geminates(b) {
        b.subrange(0, n - 2).push('っ').push(b[n - 1])
    } else if nasal(b) {
        b.update(n - 2, 'ん')
    } else {
        b
    }
}

/// The buffer after `put(c)` on `buf`.
pub open spec fn put_buffer(buf: Seq<char>, c: char) -> Seq<char> {
    convert(buf.push(to_lower(c)))
}

/// The history after `put(c)` on `buf`: one entry with the new length, two
/// where the nasal rule rewrote an `n`.
pub open spec fn put_history(buf: Seq<char>, hist: Seq<(char, usize)>, c: char) -> Seq<
    (char, usize),
> {
    let n = put_buffer(buf, c).len() as usize;
    if nasal_applies(buf.push(to_lower(c))) {
        hist.push((c, n)).push((c, n))
    } else {
        hist.push((c, n))
    }
}

/// The entries of `h` not stamped with length `n`.
pub open spec fn unstamped(h: Seq<(char, usize)>, n: usize) -> Seq<(char, usize)>
    decreases h.len(),
{
    if h.len() == 0 {
        h
    } else {
        let rest = unstamped(h.drop_last(), n);
        if h.last().1 != n {
            rest.push(h.last())
        } else {
            rest
        }
    }
}

/// The entries of `h` stamped with a length over `n`, restamped relative to
/// a buffer whose first `n` characters are gone.
pub open spec fn trimmed_history(h: Seq<(char, usize)>, n: usize) -> Seq<(char, usize)>
    decreases h.len(),
{
    if h.len() == 0 {
        h
    } else {
        let rest = trimmed_history(h.drop_last(), n);
        if h.last().1 > n {
            rest.push((h.last().0, (h.last().1 - n) as usize))
        } else {
            rest
        }
    }
}

/// How many characters at the end of `b` are ASCII.
pub open spec fn pending_len(b: Seq<char>) -> nat
    decreases b.len(),
{
    if b.len() > 0 && is_ascii_char(b.last()) {
        pending_len(b.drop_last()) + 1
    } else {
        0
    }
}

/// The pending suffix: the longest run of ASCII characters at the end of `b`.
pub open spec fn pending(b: Seq<char>) -> Seq<char> {
    b.subrange(b.len() - pending_len(b), b.len() as int)
}

/// A pending suffix of one consonant may still begin a doubled consonant.
pub open spec fn may_geminate(p: Seq<char>) -> bool {
    p.len() == 1 && !is_vowel(p[0]) && p[0] != 'n'
}

/// What the pending input of `b` may still become.
pub open spec fn candidates_of(b: Seq<char>) -> Seq<Seq<char>> {
    let p = pending(b);
    if may_geminate(p) {
        compatible_values(roma_table(), p).push(seq!['っ'])
    } else {
        compatible_values(roma_table(), p)
    }
}

/// The conversion engine.
#[derive(Debug)]
pub struct Ime {
    buffer: Vec<char>,
    history: Vec<(char, usize)>,
    table: RomaTable,
}

impl Default for Ime {
    fn default() -> (r: Self)
        ensures
            r.spec_buffer() == Seq::<char>::empty(),
            r.spec_history() == Seq::<(char, usize)>::empty(),
    {
        Ime::new()
    }
}

impl Ime {
    /// The characters in the buffer: resolved kana, then pending letters.
    pub closed spec fn spec_buffer(&self) -> Seq<char> {
        self.buffer@
    }

    /// The keystroke log: each raw key with the buffer length after it.
    pub closed spec fn spec_history(&self) -> Seq<(char, usize)> {
        self.history@
    }

    /// An engine with an empty buffer and no history.
    pub fn new() -> (r: Self)
        ensures
            r.spec_buffer() == Seq::<char>::empty(),
            r.spec_history() == Seq::<(char, usize)>::empty(),
    {
        Ime { buffer: Vec::new(), history: Vec::new(), table: RomaTable::new() }
    }

    /// The current buffer.
    pub fn buffer(&self) -> (r: &[char])
        ensures
            r@ == self.spec_buffer(),
    {
        self.buffer.as_slice()
    }

    /// The keystroke log.
    pub fn history(&self) -> (r: &[(char, usize)])
        ensures
            r@ == self.spec_history(),
    {
        self.history.as_slice()
    }

    /// Replaces the buffer. The history, which spoke of the old buffer, is
    /// emptied.
    pub fn set_buffer(&mut self, new_buf: Vec<char>)
        ensures
            final(self).spec_buffer() == new_buf@,
            final(self).spec_history() == Seq::<(char, usize)>::empty(),
    {
        self.buffer = new_buf;
        self.history = Vec::new();
    }

    /// Removes the last character of the buffer and every history entry
    /// stamped with the length the buffer had before.
    pub fn pop(&mut self) -> (r: Option<char>)
        ensures
            old(self).spec_buffer().len() == 0 ==> r is None && final(self).spec_buffer()
                == old(self).spec_buffer() && final(self).spec_history()
                == old(self).spec_history(),
            old(self).spec_buffer().len() > 0 ==> r == Some(old(self).spec_buffer().last())
                && final(self).spec_buffer() == old(self).spec_buffer().drop_last()
                && final(self).spec_history() == unstamped(
                old(self).spec_history(),
                old(self).spec_buffer().len() as usize,
            ),
    {
        let n = self.buffer.len();
        if n == 0 {
            return None;
        }
        let c = self.buffer.pop();
        let mut kept: Vec<(char, usize)> = Vec::new();
        let mut i: usize = 0;
        while i < self.history.len()
            invariant
                0 <= i <= self.history@.len(),
                self.history@ == old(self).history@,
                kept@ == unstamped(self.history@.take(i as int), n),
            decreases self.history@.len() - i,
        {
            let ghost h = self.history@;
            assert(h.take(i + 1).drop_last() =~= h.take(i as int));
            let e = self.history[i];
            if e.1 != n {
                kept.push(e);
            }
            i += 1;
        }
        assert(self.history@.take(self.history@.len() as int) =~= self.history@);
        self.history = kept;
        c
    }

    /// Removes the first `n` characters of the buffer, and the history
    /// entries stamped with a length of at most `n`; the others are restamped
    /// by `-n`.
    pub fn trim_beginning(&mut self, n: usize) -> (r: Result<(), ImeError>)
        ensures
            n > old(self).spec_buffer().len() ==> r == Err::<(), ImeError>(ImeError::OutOfRange)
                && final(self).spec_buffer() == old(self).spec_buffer()
                && final(self).spec_history() == old(self).spec_history(),
            n <= old(self).spec_buffer().len() ==> r is Ok && final(self).spec_buffer().len()
                == old(self).spec_buffer().len() - n && final(self).spec_buffer()
                == old(self).spec_buffer().subrange(n as int, old(self).spec_buffer().len() as int)
                && final(self).spec_history() == trimmed_history(old(self).spec_history(), n),
    {
        let len = self.buffer.len();
        if n > len {
            return Err(ImeError::OutOfRange);
        }
        let mut rest: Vec<char> = Vec::new();
        let mut j: usize = n;
        while j < len
            invariant
                n <= j <= len,
                len == self.buffer@.len(),
                rest@ == self.buffer@.subrange(n as int, j as int),
            decreases len - j,
        {
            rest.push(self.buffer[j]);
            j += 1;
        }
        let mut kept: Vec<(char, usize)> = Vec::new();
        let mut i: usize = 0;
        while i < self.history.len()
            invariant
                0 <= i <= self.history@.len(),
                kept@ == trimmed_history(self.history@.take(i as int), n),
            decreases self.history@.len() - i,
        {
            let ghost h = self.history@;
            assert(h.take(i + 1).drop_last() =~= h.take(i as int));
            let e = self.history[i];
            if e.1 > n {
                kept.push((e.0, e.1 - n));
            }
            i += 1;
        }
        assert(self.history@.take(self.history@.len() as int) =~= self.history@);
        self.buffer = rest;
        self.history = kept;
        Ok(())
    }

    /// Empties the buffer and the history.
    pub fn clear(&mut self)
        ensures
            final(self).spec_buffer() == Seq::<char>::empty(),
            final(self).spec_history() == Seq::<(char, usize)>::empty(),
    {
        self.buffer.clear();
        self.history.clear();
    }

    /// What the pending letters may still become: the kana of every table
    /// entry whose key agrees with them on their common length, and a small
    /// tsu after a single consonant other than `n`.
    pub fn candidates(&self) -> (r: Candidates)
        ensures
            candidate_items(r) == candidates_of(self.spec_buffer()),
    {
        let b = self.buffer.as_slice();
        let start = pending_start(b);
        let p = vstd::slice::slice_subrange(b, start, b.len());
        assert(p@ == pending(self.buffer@));
        let mut r = self.table.scan_compatible(p);
        if p.len() == 1 {
            let c = p[0];
            if c != 'a' && c != 'i' && c != 'u' && c != 'e' && c != 'o' && c != 'n' {
                proof {
                    crate::table::lemma_compatible_values_len(roma_table(), p@);
                    crate::table::lemma_roma_table_len();
                }
                let small_tsu = vec!['っ'];
                assert(small_tsu@ =~= seq!['っ']);
                candidates_push(&mut r, small_tsu);
            } else {
                assert(!may_geminate(p@));
            }
        } else {
            assert(!may_geminate(p@));
        }
        r
    }

    /// Takes one key: lower-cases it, appends it, and converts the end of the
    /// buffer. The longest tail of at most three characters that is a table
    /// key becomes its kana; failing that, a doubled consonant other than `n`
    /// becomes a small tsu and the consonant; failing that, an `n` before a
    /// letter other than `y` becomes the syllabic nasal. Each key is logged
    /// with the new length, twice when the nasal rule applied. Any key other
    /// than an ASCII letter, `,` or `.` is refused and changes nothing.
    pub fn put(&mut self, input: char) -> (r: Result<(), ImeError>)
        ensures
            !is_accepted_input(input) ==> r == Err::<(), ImeError>(ImeError::InvalidInput)
                && final(self).spec_buffer() == old(self).spec_buffer()
                && final(self).spec_history() == old(self).spec_history(),
            is_accepted_input(input) ==> r is Ok && final(self).spec_buffer() == put_buffer(
                old(self).spec_buffer(),
                input,
            ) && final(self).spec_history() == put_history(
                old(self).spec_buffer(),
                old(self).spec_history(),
                input,
            ),
    {
        if !accepts(input) {
            return Err(ImeError::InvalidInput);
        }
        let c = ascii_lower(input);
        self.buffer.push(c);
        let len = self.buffer.len();
        let ghost b = self.buffer@;
        if len >= 3 {
            if let Some(kana) = self.table.lookup_tail(self.buffer.as_slice(), len - 3) {
                splice_tail(&mut self.buffer, 3, kana);
                self.history.push((input, self.buffer.len()));
                return Ok(());
            }
        }
        if len >= 2 {
            if let Some(kana) = self.table.lookup_tail(self.buffer.as_slice(), len - 2) {
                splice_tail(&mut self.buffer, 2, kana);
                self.history.push((input, self.buffer.len()));
                return Ok(());
            }
        }
        if let Some(kana) = self.table.lookup_tail(self.buffer.as_slice(), len - 1) {
            splice_tail(&mut self.buffer, 1, kana);
            self.history.push((input, self.buffer.len()));
            return Ok(());
        }
        assert(match_len(b) == 0);
        if len >= 2 && self.buffer[len - 2] == c && 'a' <= c && c <= 'z' && c != 'a' && c != 'i'
            && c != 'u' && c != 'e' && c != 'o' && c != 'n' {
            self.buffer.pop();
            self.buffer.pop();
            self.buffer.push('っ');
            self.buffer.push(c);
            assert(self.buffer@ =~= convert(b));
            self.history.push((input, self.buffer.len()));
            return Ok(());
        }
        assert(!geminates(b));
        if len >= 2 && self.buffer[len - 2] == 'n' && 'a' <= c && c <= 'z' && c != 'y' {
            self.buffer.set(len - 2, 'ん');
            assert(self.buffer@ =~= convert(b));
            self.history.push((input, self.buffer.len()));
            self.history.push((input, self.buffer.len()));
            return Ok(());
        }
        assert(!nasal(b));
        self.history.push((input, self.buffer.len()));
        Ok(())
    }
}

/// Where the pending suffix of `b` begins: the length of its resolved part.
pub fn pending_start(b: &[char]) -> (r: usize)
    ensures
        r as int == b@.len() - pending_len(b@),
{
    let mut i: usize = b.len();
    assert(b@.take(i as int) =~= b@);
    while i > 0 && (b[i - 1] as u32) < 128
        invariant
            0 <= i <= b@.len(),
            pending_len(b@) == pending_len(b@.take(i as int)) + (b@.len() - i),
        decreases i,
    {
        assert(b@.take(i as int).drop_last() =~= b@.take(i - 1));
        i -= 1;
    }
    proof {
        if i == b@.len() {
            assert(b@.take(i as int) =~= b@);
        }
        if i > 0 {
            assert(b@.take(i as int).last() == b@[i - 1]);
        }
    }
    i
}

/// Whether `put` takes `c`.
fn accepts(c: char) -> (r: bool)
    ensures
        r == is_accepted_input(c),
{
    ('a' <= c && c <= 'z') || ('A' <= c && c <= 'Z') || c == ',' || c == '.'
}

/// ASCII lower case of `c`.
fn ascii_lower(c: char) -> (r: char)
    ensures
        r == to_lower(c),
{
    if 'A' <= c && c <= 'Z' {
        ((c as u8) + 32) as char
    } else {
        c
    }
}

/// Replaces the last `m` characters of `buf` by `kana`.
fn splice_tail(buf: &mut Vec<char>, m: usize, kana: &[char])
    requires
        m <= old(buf)@.len(),
    ensures
        final(buf)@ == old(buf)@.subrange(0, old(buf)@.len() - m) + kana@,
{
    let keep = buf.len() - m;
    buf.truncate(keep);
    let mut i: usize = 0;
    while i < kana.len()
        invariant
            0 <= i <= kana@.len(),
            keep == old(buf)@.len() - m,
            buf@ == old(buf)@.subrange(0, keep as int) + kana@.take(i as int),
        decreases kana@.len() - i,
    {
        buf.push(kana[i]);
        i += 1;
        assert(buf@ =~= old(buf)@.subrange(0, keep as int) + kana@.take(i as int));
    }
    assert(kana@.take(kana@.len() as int) =~= kana@);
}

/// The buffer after `put` of each character of `keys` in turn, from `buf`.
pub open spec fn feed(buf: Seq<char>, keys: Seq<char>) -> Seq<char>
    decreases keys.len(),
{
    if keys.len() == 0 {
        buf
    } else {
        put_buffer(feed(buf, keys.drop_last()), keys.last())
    }
}

/// A consonant letter alone is no key, nor a letter followed by a consonant
/// other than `n`.
proof fn lemma_no_key(s: Seq<char>)
    requires
        all_keys_shaped(roma_table()),
        1 <= s.len() <= 2,
        is_lower_letter(s.last()),
        !is_vowel(s.last()),
        s.len() == 2 ==> is_lower_letter(s[0]) && s.last() != 'n',
    ensures
        lookup(roma_table(), s) is None,
{
    if has_key(roma_table(), s) {
        let i = choose|i: int| 0 <= i < roma_table().len() && #[trigger] roma_table()[i].0 == s;
        assert(key_shape(roma_table()[i].0));
        if s.len() == 2 {
            assert(s.last() == s[1]);
        }
    }
}

/// Feeding the characters of any key of the table, one at a time, into an
/// empty buffer leaves exactly that key's kana, with nothing pending.
pub proof fn lemma_round_trip(i: int)
    requires
        0 <= i < roma_table().len(),
    ensures
        feed(Seq::empty(), roma_table()[i].0) == roma_table()[i].1,
{
    lemma_roma_table_shaped();
    lemma_roma_table_keys_unique();
    lemma_lookup_entry(roma_table(), i);
    let k = roma_table()[i].0;
    let v = roma_table()[i].1;
    assert(key_shape(k));
    let e: Seq<char> = Seq::empty();
    if k.len() >= 2 {
        let lead = seq![k[0]];
        assert(e.push(to_lower(k[0])) =~= lead);
        lemma_no_key(lead);
        assert(convert(lead) == lead);
        assert(k.take(1) =~= lead);
        assert(k.take(1).drop_last() =~= e);
        assert(k.take(1).last() == k[0]);
        assert(feed(e, e) == e);
        assert(feed(e, k.take(1)) == lead);
        if k.len() == 3 {
            let lead_pair = seq![k[0], k[1]];
            assert(lead.push(to_lower(k[1])) =~= lead_pair);
            lemma_no_key(lead_pair);
            lemma_no_key(seq![k[1]]);
            assert(tail(lead_pair, 2) =~= lead_pair);
            assert(tail(lead_pair, 1) =~= seq![k[1]]);
            assert(convert(lead_pair) == lead_pair);
            assert(k.take(2).drop_last() =~= k.take(1));
            assert(k.take(2).last() == k[1]);
            assert(feed(e, k.take(2)) == lead_pair);
            assert(k.drop_last() =~= k.take(2));
            assert(lead_pair.push(to_lower(k[2])) =~= k);
        } else {
            assert(k.drop_last() =~= k.take(1));
            assert(lead.push(to_lower(k[1])) =~= k);
        }
    } else {
        assert(k.drop_last() =~= e);
        assert(e.push(to_lower(k[0])) =~= k);
    }
    assert(tail(k, k.len() as int) =~= k);
    assert(match_len(k) == k.len());
    assert(k.subrange(0, 0) + v =~= v);
    assert(convert(k) == v);
    assert(feed(e, k) == convert(feed(e, k.drop_last()).push(to_lower(k.last()))));
}

/// Reading the buffer or the candidates twice, with no change in between,
/// gives the same result both times.
pub proof fn lemma_reads_repeat(
    ime: &Ime,
    c1: Candidates,
    c2: Candidates,
    b1: &[char],
    b2: &[char],
)
    requires
        call_ensures(Ime::candidates, (ime,), c1),
        call_ensures(Ime::candidates, (ime,), c2),
        call_ensures(Ime::buffer, (ime,), b1),
        call_ensures(Ime::buffer, (ime,), b2),
    ensures
        candidate_items(c1) == candidate_items(c2),
        b1@ == b2@,
{
}

/// Every entry left by `trim_beginning(n)` comes from an entry stamped past
/// `n`, restamped by `-n`; none is stamped at or before the new start.
pub proof fn lemma_trimmed_history_entries(h: Seq<(char, usize)>, n: usize)
    ensures
        forall|j: int|
            0 <= j < trimmed_history(h, n).len() ==> #[trigger] trimmed_history(h, n)[j].1 >= 1
                && exists|i: int|
                0 <= i < h.len() && h[i].1 > n && trimmed_history(h, n)[j] == (
                    h[i].0,
                    (h[i].1 - n) as usize,
                ),
    decreases h.len(),
{
    if h.len() > 0 {
        lemma_trimmed_history_entries(h.drop_last(), n);
        let r = trimmed_history(h, n);
        let rest = trimmed_history(h.drop_last(), n);
        assert forall|j: int| 0 <= j < r.len() implies #[trigger] r[j].1 >= 1 && exists|i: int|
            0 <= i < h.len() && h[i].1 > n && r[j] == (h[i].0, (h[i].1 - n) as usize) by {
            if j < rest.len() {
                assert(r[j] == rest[j]);
                assert(rest[j].1 >= 1);
                let i = choose|i: int|
                    0 <= i < h.drop_last().len() && h.drop_last()[i].1 > n && rest[j] == (
                        h.drop_last()[i].0,
                        (h.drop_last()[i].1 - n) as usize,
                    );
                assert(h[i] == h.drop_last()[i]);
            } else {
                assert(r[j] == (h.last().0, (h.last().1 - n) as usize));
                assert(h[h.len() - 1] == h.last());
            }
        }
    }
}

} // verus!
