//! The romaji-to-hiragana table: an immutable list of (key, kana) pairs with
//! unique keys, built explicitly and read by exact lookup or by a
//! prefix-compatibility scan.
use crate::candidates::{candidate_items, candidates_new, candidates_push, Candidates};
use crate::ime::{is_lower_letter, is_vowel};
use vstd::prelude::*;

verus! {

/// The character at `i`, or 0 past the end.
pub open spec fn code_digit(k: Seq<char>, i: int) -> int {
    if 0 <= i < k.len() {
        k[i] as int
    } else {
        0
    }
}

/// A number that orders short keys alphabetically (keys have at most three
/// characters, all ASCII).
pub open spec fn key_code(k: Seq<char>) -> int {
    (code_digit(k, 0) * 128 + code_digit(k, 1)) * 128 + code_digit(k, 2)
}

/// Keys strictly increase from each entry to the next.
pub open spec fn ascending(t: Seq<(Seq<char>, Seq<char>)>) -> bool {
    forall|i: int| 0 <= i < t.len() - 1 ==> key_code(#[trigger] t[i].0) < key_code(t[i + 1].0)
}

/// No key occurs twice.
pub open spec fn keys_unique(t: Seq<(Seq<char>, Seq<char>)>) -> bool {
    forall|i: int, j: int| 0 <= i < j < t.len() ==> #[trigger] t[i].0 != #[trigger] t[j].0
}

/// Whether `t` has an entry with key `k`.
pub open spec fn has_key(t: Seq<(Seq<char>, Seq<char>)>, k: Seq<char>) -> bool {
    exists|i: int| 0 <= i < t.len() && #[trigger] t[i].0 == k
}

/// The kana that `t` maps `k` to, if any.
pub open spec fn lookup(t: Seq<(Seq<char>, Seq<char>)>, k: Seq<char>) -> Option<Seq<char>> {
    if has_key(t, k) {
        Some(t[choose|i: int| 0 <= i < t.len() && #[trigger] t[i].0 == k].1)
    } else {
        None
    }
}

/// `key` and `s` agree on every position of their common length.
pub open spec fn compatible(key: Seq<char>, s: Seq<char>) -> bool {
    forall|i: int| 0 <= i < key.len() && 0 <= i < s.len() ==> key[i] == s[i]
}

/// The kana of every entry whose key is compatible with `s`, in table order.
pub open spec fn compatible_values(t: Seq<(Seq<char>, Seq<char>)>, s: Seq<char>) -> Seq<
    Seq<char>,
>
    decreases t.len(),
{
    if t.len() == 0 {
        Seq::empty()
    } else {
        let rest = compatible_values(t.drop_last(), s);
        if compatible(t.last().0, s) {
            rest.push(t.last().1)
        } else {
            rest
        }
    }
}

/// The entries of a list of owned pairs, as character sequences.
pub open spec fn entries_view(v: Seq<(Vec<char>, Vec<char>)>) -> Seq<(Seq<char>, Seq<char>)> {
    v.map_values(|e: (Vec<char>, Vec<char>)| (e.0@, e.1@))
}

/// The two punctuation keys.
#[verifier::opaque]
pub open spec fn rows_punctuation() -> Seq<(Seq<char>, Seq<char>)> {
    seq![
        (seq![','], seq!['、']),
        (seq!['.'], seq!['。']),
    ]
}

/// Keys that begin with `a` or `b`.
#[verifier::opaque]
pub open spec fn rows_ab() -> Seq<(Seq<char>, Seq<char>)> {
    seq![
        (seq!['a'], seq!['あ']),
        (seq!['b', 'a'], seq!['ば']),
        (seq!['b', 'e'], seq!['べ']),
        (seq!['b', 'i'], seq!['び']),
        (seq!['b', 'o'], seq!['ぼ']),
        (seq!['b', 'u'], seq!['ぶ']),
        (seq!['b', 'y', 'a'], seq!['び', 'ゃ']),
        (seq!['b', 'y', 'e'], seq!['び', 'ぇ']),
        (seq!['b', 'y', 'i'], seq!['び', 'ぃ']),
        (seq!['b', 'y', 'o'], seq!['び', 'ょ']),
        (seq!['b', 'y', 'u'], seq!['び', 'ゅ']),
    ]
}

/// Keys that begin with `c`.
#[verifier::opaque]
pub open spec fn rows_c() -> Seq<(Seq<char>, Seq<char>)> {
    seq![
        (seq!['c', 'h', 'a'], seq!['ち', 'ゃ']),
        (seq!['c', 'h', 'e'], seq!['ち', 'ぇ']),
        (seq!['c', 'h', 'i'], seq!['ち']),
        (seq!['c', 'h', 'o'], seq!['ち', 'ょ']),
        (seq!['c', 'h', 'u'], seq!['ち', 'ゅ']),
    ]
}

/// Keys that begin with `d`.
#[verifier::opaque]
pub open spec fn rows_d() -> Seq<(Seq<char>, Seq<char>)> {
    seq![
        (seq!['d', 'a'], seq!['だ']),
        (seq!['d', 'e'], seq!['で']),
        (seq!['d', 'h', 'a'], seq!['で', 'ゃ']),
        (seq!['d', 'h', 'e'], seq!['で', 'ぇ']),
        (seq!['d', 'h', 'i'], seq!['で', 'ぃ']),
        (seq!['d', 'h', 'o'], seq!['で', 'ょ']),
        (seq!['d', 'h', 'u'], seq!['で', 'ゅ']),
        (seq!['d', 'i'], seq!['ぢ']),
        (seq!['d', 'o'], seq!['ど']),
        (seq!['d', 'u'], seq!['づ']),
        (seq!['d', 'w', 'a'], seq!['ど', 'ぁ']),
        (seq!['d', 'w', 'e'], seq!['ど', 'ぇ']),
        (seq!['d', 'w', 'i'], seq!['ど', 'ぃ']),
        (seq!['d', 'w', 'o'], seq!['ど', 'ぉ']),
        (seq!['d', 'w', 'u'], seq!['ど', 'ぅ']),
        (seq!['d', 'y', 'a'], seq!['ぢ', 'ゃ']),
        (seq!['d', 'y', 'e'], seq!['ぢ', 'ぇ']),
        (seq!['d', 'y', 'i'], seq!['ぢ', 'ぃ']),
        (seq!['d', 'y', 'o'], seq!['ぢ', 'ょ']),
        (seq!['d', 'y', 'u'], seq!['ぢ', 'ゅ']),
    ]
}

/// Keys that begin with `e` or `f`.
#[verifier::opaque]
pub open spec fn rows_ef() -> Seq<(Seq<char>, Seq<char>)> {
    seq![
        (seq!['e'], seq!['え']),
        (seq!['f', 'a'], seq!['ふ', 'ぁ']),
        (seq!['f', 'e'], seq!['ふ', 'ぇ']),
        (seq!['f', 'i'], seq!['ふ', 'ぃ']),
        (seq!['f', 'o'], seq!['ふ', 'ぉ']),
        (seq!['f', 'u'], seq!['ふ']),
        (seq!['f', 'w', 'u'], seq!['ふ', 'ぅ']),
    ]
}

/// Keys that begin with `g`.
#[verifier::opaque]
pub open spec fn rows_g() -> Seq<(Seq<char>, Seq<char>)> {
    seq![
        (seq!['g', 'a'], seq!['が']),
        (seq!['g', 'e'], seq!['げ']),
        (seq!['g', 'i'], seq!['ぎ']),
        (seq!['g', 'o'], seq!['ご']),
        (seq!['g', 'u'], seq!['ぐ']),
        (seq!['g', 'w', 'a'], seq!['ぐ', 'ぁ']),
        (seq!['g', 'w', 'e'], seq!['ぐ', 'ぇ']),
        (seq!['g', 'w', 'i'], seq!['ぐ', 'ぃ']),
        (seq!['g', 'w', 'o'], seq!['ぐ', 'ぉ']),
        (seq!['g', 'w', 'u'], seq!['ぐ', 'ぅ']),
        (seq!['g', 'y', 'a'], seq!['ぎ', 'ゃ']),
        (seq!['g', 'y', 'e'], seq!['ぎ', 'ぇ']),
        (seq!['g', 'y', 'i'], seq!['ぎ', 'ぃ']),
        (seq!['g', 'y', 'o'], seq!['ぎ', 'ょ']),
        (seq!['g', 'y', 'u'], seq!['ぎ', 'ゅ']),
    ]
}

/// Keys that begin with `h`.
#[verifier::opaque]
pub open spec fn rows_h() -> Seq<(Seq<char>, Seq<char>)> {
    seq![
        (seq!['h', 'a'], seq!['は']),
        (seq!['h', 'e'], seq!['へ']),
        (seq!['h', 'i'], seq!['ひ']),
        (seq!['h', 'o'], seq!['ほ']),
        (seq!['h', 'u'], seq!['ふ']),
        (seq!['h', 'y', 'a'], seq!['ひ', 'ゃ']),
        (seq!['h', 'y', 'e'], seq!['ひ', 'ぇ']),
        (seq!['h', 'y', 'i'], seq!['ひ', 'ぃ']),
        (seq!['h', 'y', 'o'], seq!['ひ', 'ょ']),
        (seq!['h', 'y', 'u'], seq!['ひ', 'ゅ']),
    ]
}

/// Keys that begin with `i` or `j`.
#[verifier::opaque]
pub open spec fn rows_ij() -> Seq<(Seq<char>, Seq<char>)> {
    seq![
        (seq!['i'], seq!['い']),
        (seq!['j', 'a'], seq!['じ', 'ゃ']),
        (seq!['j', 'e'], seq!['じ', 'ぇ']),
        (seq!['j', 'i'], seq!['じ']),
        (seq!['j', 'o'], seq!['じ', 'ょ']),
        (seq!['j', 'u'], seq!['じ', 'ゅ']),
    ]
}

/// Keys that begin with `k`.
#[verifier::opaque]
pub open spec fn rows_k() -> Seq<(Seq<char>, Seq<char>)> {
    seq![
        (seq!['k', 'a'], seq!['か']),
        (seq!['k', 'e'], seq!['け']),
        (seq!['k', 'i'], seq!['き']),
        (seq!['k', 'o'], seq!['こ']),
        (seq!['k', 'u'], seq!['く']),
        (seq!['k', 'y', 'a'], seq!['き', 'ゃ']),
        (seq!['k', 'y', 'e'], seq!['き', 'ぇ']),
        (seq!['k', 'y', 'i'], seq!['き', 'ぃ']),
        (seq!['k', 'y', 'o'], seq!['き', 'ょ']),
        (seq!['k', 'y', 'u'], seq!['き', 'ゅ']),
    ]
}

/// Keys that begin with `l`.
#[verifier::opaque]
pub open spec fn rows_l() -> Seq<(Seq<char>, Seq<char>)> {
    seq![
        (seq!['l', 'a'], seq!['ぁ']),
        (seq!['l', 'e'], seq!['ぇ']),
        (seq!['l', 'i'], seq!['ぃ']),
        (seq!['l', 'o'], seq!['ぉ']),
        (seq!['l', 'u'], seq!['ぅ']),
    ]
}

/// Keys that begin with `m`.
#[verifier::opaque]
pub open spec fn rows_m() -> Seq<(Seq<char>, Seq<char>)> {
    seq![
        (seq!['m', 'a'], seq!['ま']),
        (seq!['m', 'e'], seq!['め']),
        (seq!['m', 'i'], seq!['み']),
        (seq!['m', 'o'], seq!['も']),
        (seq!['m', 'u'], seq!['む']),
        (seq!['m', 'y', 'a'], seq!['み', 'ゃ']),
        (seq!['m', 'y', 'e'], seq!['み', 'ぇ']),
        (seq!['m', 'y', 'i'], seq!['み', 'ぃ']),
        (seq!['m', 'y', 'o'], seq!['み', 'ょ']),
        (seq!['m', 'y', 'u'], seq!['み', 'ゅ']),
    ]
}

/// Keys that begin with `n`.
#[verifier::opaque]
pub open spec fn rows_n() -> Seq<(Seq<char>, Seq<char>)> {
    seq![
        (seq!['n', 'a'], seq!['な']),
        (seq!['n', 'e'], seq!['ね']),
        (seq!['n', 'i'], seq!['に']),
        (seq!['n', 'n'], seq!['ん']),
        (seq!['n', 'o'], seq!['の']),
        (seq!['n', 'u'], seq!['ぬ']),
        (seq!['n', 'y', 'a'], seq!['に', 'ゃ']),
        (seq!['n', 'y', 'e'], seq!['に', 'ぇ']),
        (seq!['n', 'y', 'i'], seq!['に', 'ぃ']),
        (seq!['n', 'y', 'o'], seq!['に', 'ょ']),
        (seq!['n', 'y', 'u'], seq!['に', 'ゅ']),
    ]
}

/// Keys that begin with `o` or `p`.
#[verifier::opaque]
pub open spec fn rows_op() -> Seq<(Seq<char>, Seq<char>)> {
    seq![
        (seq!['o'], seq!['お']),
        (seq!['p', 'a'], seq!['ぱ']),
        (seq!['p', 'e'], seq!['ぺ']),
        (seq!['p', 'i'], seq!['ぴ']),
        (seq!['p', 'o'], seq!['ぽ']),
        (seq!['p', 'u'], seq!['ぷ']),
        (seq!['p', 'y', 'a'], seq!['ぴ', 'ゃ']),
        (seq!['p', 'y', 'e'], seq!['ぴ', 'ぇ']),
        (seq!['p', 'y', 'i'], seq!['ぴ', 'ぃ']),
        (seq!['p', 'y', 'o'], seq!['ぴ', 'ょ']),
        (seq!['p', 'y', 'u'], seq!['ぴ', 'ゅ']),
    ]
}

/// Keys that begin with `q`.
#[verifier::opaque]
pub open spec fn rows_q() -> Seq<(Seq<char>, Seq<char>)> {
    seq![
        (seq!['q', 'a'], seq!['く', 'ぁ']),
        (seq!['q', 'e'], seq!['く', 'ぇ']),
        (seq!['q', 'i'], seq!['く', 'ぃ']),
        (seq!['q', 'o'], seq!['く', 'ぉ']),
        (seq!['q', 'w', 'u'], seq!['く', 'ぅ']),
    ]
}

/// Keys that begin with `r`.
#[verifier::opaque]
pub open spec fn rows_r() -> Seq<(Seq<char>, Seq<char>)> {
    seq![
        (seq!['r', 'a'], seq!['ら']),
        (seq!['r', 'e'], seq!['れ']),
        (seq!['r', 'i'], seq!['り']),
        (seq!['r', 'o'], seq!['ろ']),
        (seq!['r', 'u'], seq!['る']),
        (seq!['r', 'y', 'a'], seq!['り', 'ゃ']),
        (seq!['r', 'y', 'e'], seq!['り', 'ぇ']),
        (seq!['r', 'y', 'i'], seq!['り', 'ぃ']),
        (seq!['r', 'y', 'o'], seq!['り', 'ょ']),
        (seq!['r', 'y', 'u'], seq!['り', 'ゅ']),
    ]
}

/// Keys that begin with `s`.
#[verifier::opaque]
pub open spec fn rows_s() -> Seq<(Seq<char>, Seq<char>)> {
    seq![
        (seq!['s', 'a'], seq!['さ']),
        (seq!['s', 'e'], seq!['せ']),
        (seq!['s', 'h', 'a'], seq!['し', 'ゃ']),
        (seq!['s', 'h', 'e'], seq!['し', 'ぇ']),
        (seq!['s', 'h', 'o'], seq!['し', 'ょ']),
        (seq!['s', 'h', 'u'], seq!['し', 'ゅ']),
        (seq!['s', 'i'], seq!['し']),
        (seq!['s', 'o'], seq!['そ']),
        (seq!['s', 'u'], seq!['す']),
        (seq!['s', 'w', 'a'], seq!['す', 'ぁ']),
        (seq!['s', 'w', 'e'], seq!['す', 'ぇ']),
        (seq!['s', 'w', 'i'], seq!['す', 'ぃ']),
        (seq!['s', 'w', 'o'], seq!['す', 'ぉ']),
        (seq!['s', 'w', 'u'], seq!['す', 'ぅ']),
        (seq!['s', 'y', 'a'], seq!['し', 'ゃ']),
        (seq!['s', 'y', 'e'], seq!['し', 'ぇ']),
        (seq!['s', 'y', 'i'], seq!['し', 'ぃ']),
        (seq!['s', 'y', 'o'], seq!['し', 'ょ']),
        (seq!['s', 'y', 'u'], seq!['し', 'ゅ']),
    ]
}

/// Keys that begin with `t`.
#[verifier::opaque]
pub open spec fn rows_t() -> Seq<(Seq<char>, Seq<char>)> {
    seq![
        (seq!['t', 'a'], seq!['た']),
        (seq!['t', 'e'], seq!['て']),
        (seq!['t', 'h', 'a'], seq!['て', 'ゃ']),
        (seq!['t', 'h', 'e'], seq!['て', 'ぇ']),
        (seq!['t', 'h', 'i'], seq!['て', 'ぃ']),
        (seq!['t', 'h', 'o'], seq!['て', 'ょ']),
        (seq!['t', 'h', 'u'], seq!['て', 'ゅ']),
        (seq!['t', 'i'], seq!['ち']),
        (seq!['t', 'o'], seq!['と']),
        (seq!['t', 's', 'u'], seq!['つ']),
        (seq!['t', 'u'], seq!['つ']),
        (seq!['t', 'w', 'a'], seq!['と', 'ぁ']),
        (seq!['t', 'w', 'e'], seq!['と', 'ぇ']),
        (seq!['t', 'w', 'i'], seq!['と', 'ぃ']),
        (seq!['t', 'w', 'o'], seq!['と', 'ぉ']),
        (seq!['t', 'y', 'a'], seq!['ち', 'ゃ']),
        (seq!['t', 'y', 'e'], seq!['ち', 'ぇ']),
        (seq!['t', 'y', 'i'], seq!['ち', 'ぃ']),
        (seq!['t', 'y', 'o'], seq!['ち', 'ょ']),
        (seq!['t', 'y', 'u'], seq!['ち', 'ゅ']),
    ]
}

/// Keys that begin with `u` or `w`.
#[verifier::opaque]
pub open spec fn rows_uw() -> Seq<(Seq<char>, Seq<char>)> {
    seq![
        (seq!['u'], seq!['う']),
        (seq!['w', 'a'], seq!['わ']),
        (seq!['w', 'e'], seq!['う', 'ぇ']),
        (seq!['w', 'h', 'a'], seq!['う', 'ぁ']),
        (seq!['w', 'h', 'o'], seq!['う', 'ぉ']),
        (seq!['w', 'i'], seq!['う', 'ぃ']),
        (seq!['w', 'o'], seq!['を']),
    ]
}

/// Keys that begin with `x`.
#[verifier::opaque]
pub open spec fn rows_x() -> Seq<(Seq<char>, Seq<char>)> {
    seq![
        (seq!['x', 'a'], seq!['ぁ']),
        (seq!['x', 'e'], seq!['ぇ']),
        (seq!['x', 'i'], seq!['ぃ']),
        (seq!['x', 'o'], seq!['ぉ']),
        (seq!['x', 'u'], seq!['ぅ']),
    ]
}

/// Keys that begin with `y`.
#[verifier::opaque]
pub open spec fn rows_y() -> Seq<(Seq<char>, Seq<char>)> {
    seq![
        (seq!['y', 'a'], seq!['や']),
        (seq!['y', 'o'], seq!['よ']),
        (seq!['y', 'u'], seq!['ゆ']),
    ]
}

/// Keys that begin with `z`.
#[verifier::opaque]
pub open spec fn rows_z() -> Seq<(Seq<char>, Seq<char>)> {
    seq![
        (seq!['z', 'a'], seq!['ざ']),
        (seq!['z', 'e'], seq!['ぜ']),
        (seq!['z', 'i'], seq!['じ']),
        (seq!['z', 'o'], seq!['ぞ']),
        (seq!['z', 'u'], seq!['ず']),
        (seq!['z', 'y', 'a'], seq!['じ', 'ゃ']),
        (seq!['z', 'y', 'e'], seq!['じ', 'ぇ']),
        (seq!['z', 'y', 'i'], seq!['じ', 'ぃ']),
        (seq!['z', 'y', 'o'], seq!['じ', 'ょ']),
        (seq!['z', 'y', 'u'], seq!['じ', 'ゅ']),
    ]
}

/// The whole table, in ascending key order.
pub open spec fn roma_table() -> Seq<(Seq<char>, Seq<char>)> {
    rows_punctuation()
        + rows_ab()
        + rows_c()
        + rows_d()
        + rows_ef()
        + rows_g()
        + rows_h()
        + rows_ij()
        + rows_k()
        + rows_l()
        + rows_m()
        + rows_n()
        + rows_op()
        + rows_q()
        + rows_r()
        + rows_s()
        + rows_t()
        + rows_uw()
        + rows_x()
        + rows_y()
        + rows_z()
}

/// The order, size and end keys of one group of rows.
proof fn lemma_rows_punctuation_ascending()
    ensures
        ascending(rows_punctuation()),
        rows_punctuation().len() == 2,
        key_code(rows_punctuation()[0].0) == 720896,
        key_code(rows_punctuation().last().0) == 753664,
{
    reveal(rows_punctuation);
}

/// The order, size and end keys of one group of rows.
proof fn lemma_rows_ab_ascending()
    ensures
        ascending(rows_ab()),
        rows_ab().len() == 11,
        key_code(rows_ab()[0].0) == 1589248,
        key_code(rows_ab().last().0) == 1621237,
{
    reveal(rows_ab);
}

/// The order, size and end keys of one group of rows.
proof fn lemma_rows_c_ascending()
    ensures
        ascending(rows_c()),
        rows_c().len() == 5,
        key_code(rows_c()[0].0) == 1635425,
        key_code(rows_c().last().0) == 1635445,
{
    reveal(rows_c);
}

/// The order, size and end keys of one group of rows.
proof fn lemma_rows_d_ascending()
    ensures
        ascending(rows_d()),
        rows_d().len() == 20,
        key_code(rows_d()[0].0) == 1650816,
        key_code(rows_d().last().0) == 1654005,
{
    reveal(rows_d);
}

/// The order, size and end keys of one group of rows.
proof fn lemma_rows_ef_ascending()
    ensures
        ascending(rows_ef()),
        rows_ef().len() == 7,
        key_code(rows_ef()[0].0) == 1654784,
        key_code(rows_ef().last().0) == 1686517,
{
    reveal(rows_ef);
}

/// The order, size and end keys of one group of rows.
proof fn lemma_rows_g_ascending()
    ensures
        ascending(rows_g()),
        rows_g().len() == 15,
        key_code(rows_g()[0].0) == 1699968,
        key_code(rows_g().last().0) == 1703157,
{
    reveal(rows_g);
}

/// The order, size and end keys of one group of rows.
proof fn lemma_rows_h_ascending()
    ensures
        ascending(rows_h()),
        rows_h().len() == 10,
        key_code(rows_h()[0].0) == 1716352,
        key_code(rows_h().last().0) == 1719541,
{
    reveal(rows_h);
}

/// The order, size and end keys of one group of rows.
proof fn lemma_rows_ij_ascending()
    ensures
        ascending(rows_ij()),
        rows_ij().len() == 6,
        key_code(rows_ij()[0].0) == 1720320,
        key_code(rows_ij().last().0) == 1751680,
{
    reveal(rows_ij);
}

/// The order, size and end keys of one group of rows.
proof fn lemma_rows_k_ascending()
    ensures
        ascending(rows_k()),
        rows_k().len() == 10,
        key_code(rows_k()[0].0) == 1765504,
        key_code(rows_k().last().0) == 1768693,
{
    reveal(rows_k);
}

/// The order, size and end keys of one group of rows.
proof fn lemma_rows_l_ascending()
    ensures
        ascending(rows_l()),
        rows_l().len() == 5,
        key_code(rows_l()[0].0) == 1781888,
        key_code(rows_l().last().0) == 1784448,
{
    reveal(rows_l);
}

/// The order, size and end keys of one group of rows.
proof fn lemma_rows_m_ascending()
    ensures
        ascending(rows_m()),
        rows_m().len() == 10,
        key_code(rows_m()[0].0) == 1798272,
        key_code(rows_m().last().0) == 1801461,
{
    reveal(rows_m);
}

/// The order, size and end keys of one group of rows.
proof fn lemma_rows_n_ascending()
    ensures
        ascending(rows_n()),
        rows_n().len() == 11,
        key_code(rows_n()[0].0) == 1814656,
        key_code(rows_n().last().0) == 1817845,
{
    reveal(rows_n);
}

/// The order, size and end keys of one group of rows.
proof fn lemma_rows_op_ascending()
    ensures
        ascending(rows_op()),
        rows_op().len() == 11,
        key_code(rows_op()[0].0) == 1818624,
        key_code(rows_op().last().0) == 1850613,
{
    reveal(rows_op);
}

/// The order, size and end keys of one group of rows.
proof fn lemma_rows_q_ascending()
    ensures
        ascending(rows_q()),
        rows_q().len() == 5,
        key_code(rows_q()[0].0) == 1863808,
        key_code(rows_q().last().0) == 1866741,
{
    reveal(rows_q);
}

/// The order, size and end keys of one group of rows.
proof fn lemma_rows_r_ascending()
    ensures
        ascending(rows_r()),
        rows_r().len() == 10,
        key_code(rows_r()[0].0) == 1880192,
        key_code(rows_r().last().0) == 1883381,
{
    reveal(rows_r);
}

/// The order, size and end keys of one group of rows.
proof fn lemma_rows_s_ascending()
    ensures
        ascending(rows_s()),
        rows_s().len() == 19,
        key_code(rows_s()[0].0) == 1896576,
        key_code(rows_s().last().0) == 1899765,
{
    reveal(rows_s);
}

/// The order, size and end keys of one group of rows.
proof fn lemma_rows_t_ascending()
    ensures
        ascending(rows_t()),
        rows_t().len() == 20,
        key_code(rows_t()[0].0) == 1912960,
        key_code(rows_t().last().0) == 1916149,
{
    reveal(rows_t);
}

/// The order, size and end keys of one group of rows.
proof fn lemma_rows_uw_ascending()
    ensures
        ascending(rows_uw()),
        rows_uw().len() == 7,
        key_code(rows_uw()[0].0) == 1916928,
        key_code(rows_uw().last().0) == 1963904,
{
    reveal(rows_uw);
}

/// The order, size and end keys of one group of rows.
proof fn lemma_rows_x_ascending()
    ensures
        ascending(rows_x()),
        rows_x().len() == 5,
        key_code(rows_x()[0].0) == 1978496,
        key_code(rows_x().last().0) == 1981056,
{
    reveal(rows_x);
}

/// The order, size and end keys of one group of rows.
proof fn lemma_rows_y_ascending()
    ensures
        ascending(rows_y()),
        rows_y().len() == 3,
        key_code(rows_y()[0].0) == 1994880,
        key_code(rows_y().last().0) == 1997440,
{
    reveal(rows_y);
}

/// The order, size and end keys of one group of rows.
proof fn lemma_rows_z_ascending()
    ensures
        ascending(rows_z()),
        rows_z().len() == 10,
        key_code(rows_z()[0].0) == 2011264,
        key_code(rows_z().last().0) == 2014453,
{
    reveal(rows_z);
}

proof fn lemma_roma_table_ascending()
    ensures
        ascending(roma_table()),
{
    lemma_rows_punctuation_ascending();
    lemma_rows_ab_ascending();
    lemma_rows_c_ascending();
    lemma_rows_d_ascending();
    lemma_rows_ef_ascending();
    lemma_rows_g_ascending();
    lemma_rows_h_ascending();
    lemma_rows_ij_ascending();
    lemma_rows_k_ascending();
    lemma_rows_l_ascending();
    lemma_rows_m_ascending();
    lemma_rows_n_ascending();
    lemma_rows_op_ascending();
    lemma_rows_q_ascending();
    lemma_rows_r_ascending();
    lemma_rows_s_ascending();
    lemma_rows_t_ascending();
    lemma_rows_uw_ascending();
    lemma_rows_x_ascending();
    lemma_rows_y_ascending();
    lemma_rows_z_ascending();
    let t = rows_punctuation();
    lemma_ascending_concat(t, rows_ab());
    let t = t + rows_ab();
    lemma_ascending_concat(t, rows_c());
    let t = t + rows_c();
    lemma_ascending_concat(t, rows_d());
    let t = t + rows_d();
    lemma_ascending_concat(t, rows_ef());
    let t = t + rows_ef();
    lemma_ascending_concat(t, rows_g());
    let t = t + rows_g();
    lemma_ascending_concat(t, rows_h());
    let t = t + rows_h();
    lemma_ascending_concat(t, rows_ij());
    let t = t + rows_ij();
    lemma_ascending_concat(t, rows_k());
    let t = t + rows_k();
    lemma_ascending_concat(t, rows_l());
    let t = t + rows_l();
    lemma_ascending_concat(t, rows_m());
    let t = t + rows_m();
    lemma_ascending_concat(t, rows_n());
    let t = t + rows_n();
    lemma_ascending_concat(t, rows_op());
    let t = t + rows_op();
    lemma_ascending_concat(t, rows_q());
    let t = t + rows_q();
    lemma_ascending_concat(t, rows_r());
    let t = t + rows_r();
    lemma_ascending_concat(t, rows_s());
    let t = t + rows_s();
    lemma_ascending_concat(t, rows_t());
    let t = t + rows_t();
    lemma_ascending_concat(t, rows_uw());
    let t = t + rows_uw();
    lemma_ascending_concat(t, rows_x());
    let t = t + rows_x();
    lemma_ascending_concat(t, rows_y());
    let t = t + rows_y();
    lemma_ascending_concat(t, rows_z());
    let t = t + rows_z();
    assert(t == roma_table());
}


proof fn lemma_ascending_concat(a: Seq<(Seq<char>, Seq<char>)>, b: Seq<(Seq<char>, Seq<char>)>)
    requires
        ascending(a),
        ascending(b),
        a.len() > 0,
        b.len() > 0,
        key_code(a.last().0) < key_code(b[0].0),
    ensures
        ascending(a + b),
{
    assert forall|i: int| 0 <= i < (a + b).len() - 1 implies key_code(#[trigger] (a + b)[i].0)
        < key_code((a + b)[i + 1].0) by {
        if i < a.len() - 1 {
            assert((a + b)[i] == a[i] && (a + b)[i + 1] == a[i + 1]);
        } else if i == a.len() - 1 {
            assert((a + b)[i] == a.last() && (a + b)[i + 1] == b[0]);
        } else {
            assert((a + b)[i] == b[i - a.len()] && (a + b)[i + 1] == b[i - a.len() + 1]);
        }
    }
}

proof fn lemma_ascending_lt(t: Seq<(Seq<char>, Seq<char>)>, i: int, j: int)
    requires
        ascending(t),
        0 <= i < j < t.len(),
    ensures
        key_code(t[i].0) < key_code(t[j].0),
    decreases j - i,
{
    if j > i + 1 {
        lemma_ascending_lt(t, i, j - 1);
    }
    assert(key_code(t[j - 1].0) < key_code(t[j].0));
}

proof fn lemma_ascending_unique(t: Seq<(Seq<char>, Seq<char>)>)
    requires
        ascending(t),
    ensures
        keys_unique(t),
{
    assert forall|i: int, j: int| 0 <= i < j < t.len() implies #[trigger] t[i].0
        != #[trigger] t[j].0 by {
        lemma_ascending_lt(t, i, j);
    }
}

/// With unique keys, an entry's own key finds that entry's kana.
pub proof fn lemma_lookup_entry(t: Seq<(Seq<char>, Seq<char>)>, i: int)
    requires
        keys_unique(t),
        0 <= i < t.len(),
    ensures
        lookup(t, t[i].0) == Some(t[i].1),
{
    assert(has_key(t, t[i].0));
    let j = choose|j: int| 0 <= j < t.len() && #[trigger] t[j].0 == t[i].0;
    if j < i {
        assert(t[j].0 != t[i].0);
    } else if i < j {
        assert(t[i].0 != t[j].0);
    }
}

/// The form of every key: a vowel or a punctuation mark alone, or two or three
/// lower-case letters that start with a consonant and end in a vowel (or are
/// `nn`); of three, the middle one is `y`, `h`, `w` or `s` and differs from
/// the first, and follows an `n` only when it is `y`.
pub open spec fn key_shape(k: Seq<char>) -> bool {
    &&& 1 <= k.len() <= 3
    &&& k.len() == 1 ==> is_vowel(k[0]) || k[0] == ',' || k[0] == '.'
    &&& k.len() >= 2 ==> {
        &&& is_lower_letter(k[0])
        &&& is_lower_letter(k[1])
        &&& !is_vowel(k[0])
        &&& is_vowel(k.last()) || k =~= seq!['n', 'n']
    }
    &&& k.len() == 3 ==> {
        &&& k[1] == 'y' || k[1] == 'h' || k[1] == 'w' || k[1] == 's'
        &&& k[0] != k[1]
        &&& is_lower_letter(k[2])
        &&& k[0] == 'n' ==> k[1] == 'y'
    }
}

/// Every key of `t` has the form `key_shape` describes.
pub open spec fn all_keys_shaped(t: Seq<(Seq<char>, Seq<char>)>) -> bool {
    forall|i: int| 0 <= i < t.len() ==> key_shape(#[trigger] t[i].0)
}

proof fn lemma_shaped_concat(a: Seq<(Seq<char>, Seq<char>)>, b: Seq<(Seq<char>, Seq<char>)>)
    requires
        all_keys_shaped(a),
        all_keys_shaped(b),
    ensures
        all_keys_shaped(a + b),
{
    assert forall|i: int| 0 <= i < (a + b).len() implies key_shape(#[trigger] (a + b)[i].0) by {
        if i < a.len() {
            assert((a + b)[i] == a[i]);
        } else {
            assert((a + b)[i] == b[i - a.len()]);
        }
    }
}

proof fn lemma_rows_punctuation_shaped()
    ensures
        all_keys_shaped(rows_punctuation()),
{
    reveal(rows_punctuation);
}

proof fn lemma_rows_ab_shaped()
    ensures
        all_keys_shaped(rows_ab()),
{
    reveal(rows_ab);
}

proof fn lemma_rows_c_shaped()
    ensures
        all_keys_shaped(rows_c()),
{
    reveal(rows_c);
}

proof fn lemma_rows_d_shaped()
    ensures
        all_keys_shaped(rows_d()),
{
    reveal(rows_d);
}

proof fn lemma_rows_ef_shaped()
    ensures
        all_keys_shaped(rows_ef()),
{
    reveal(rows_ef);
}

proof fn lemma_rows_g_shaped()
    ensures
        all_keys_shaped(rows_g()),
{
    reveal(rows_g);
}

proof fn lemma_rows_h_shaped()
    ensures
        all_keys_shaped(rows_h()),
{
    reveal(rows_h);
}

proof fn lemma_rows_ij_shaped()
    ensures
        all_keys_shaped(rows_ij()),
{
    reveal(rows_ij);
}

proof fn lemma_rows_k_shaped()
    ensures
        all_keys_shaped(rows_k()),
{
    reveal(rows_k);
}

proof fn lemma_rows_l_shaped()
    ensures
        all_keys_shaped(rows_l()),
{
    reveal(rows_l);
}

proof fn lemma_rows_m_shaped()
    ensures
        all_keys_shaped(rows_m()),
{
    reveal(rows_m);
}

proof fn lemma_rows_n_shaped()
    ensures
        all_keys_shaped(rows_n()),
{
    reveal(rows_n);
}

proof fn lemma_rows_op_shaped()
    ensures
        all_keys_shaped(rows_op()),
{
    reveal(rows_op);
}

proof fn lemma_rows_q_shaped()
    ensures
        all_keys_shaped(rows_q()),
{
    reveal(rows_q);
}

proof fn lemma_rows_r_shaped()
    ensures
        all_keys_shaped(rows_r()),
{
    reveal(rows_r);
}

proof fn lemma_rows_s_shaped()
    ensures
        all_keys_shaped(rows_s()),
{
    reveal(rows_s);
}

proof fn lemma_rows_t_shaped()
    ensures
        all_keys_shaped(rows_t()),
{
    reveal(rows_t);
}

proof fn lemma_rows_uw_shaped()
    ensures
        all_keys_shaped(rows_uw()),
{
    reveal(rows_uw);
}

proof fn lemma_rows_x_shaped()
    ensures
        all_keys_shaped(rows_x()),
{
    reveal(rows_x);
}

proof fn lemma_rows_y_shaped()
    ensures
        all_keys_shaped(rows_y()),
{
    reveal(rows_y);
}

proof fn lemma_rows_z_shaped()
    ensures
        all_keys_shaped(rows_z()),
{
    reveal(rows_z);
}

/// Every key of the table has the form `key_shape` describes.
pub proof fn lemma_roma_table_shaped()
    ensures
        all_keys_shaped(roma_table()),
{
    lemma_rows_punctuation_shaped();
    lemma_rows_ab_shaped();
    lemma_rows_c_shaped();
    lemma_rows_d_shaped();
    lemma_rows_ef_shaped();
    lemma_rows_g_shaped();
    lemma_rows_h_shaped();
    lemma_rows_ij_shaped();
    lemma_rows_k_shaped();
    lemma_rows_l_shaped();
    lemma_rows_m_shaped();
    lemma_rows_n_shaped();
    lemma_rows_op_shaped();
    lemma_rows_q_shaped();
    lemma_rows_r_shaped();
    lemma_rows_s_shaped();
    lemma_rows_t_shaped();
    lemma_rows_uw_shaped();
    lemma_rows_x_shaped();
    lemma_rows_y_shaped();
    lemma_rows_z_shaped();
    let t = rows_punctuation();
    lemma_shaped_concat(t, rows_ab());
    let t = t + rows_ab();
    lemma_shaped_concat(t, rows_c());
    let t = t + rows_c();
    lemma_shaped_concat(t, rows_d());
    let t = t + rows_d();
    lemma_shaped_concat(t, rows_ef());
    let t = t + rows_ef();
    lemma_shaped_concat(t, rows_g());
    let t = t + rows_g();
    lemma_shaped_concat(t, rows_h());
    let t = t + rows_h();
    lemma_shaped_concat(t, rows_ij());
    let t = t + rows_ij();
    lemma_shaped_concat(t, rows_k());
    let t = t + rows_k();
    lemma_shaped_concat(t, rows_l());
    let t = t + rows_l();
    lemma_shaped_concat(t, rows_m());
    let t = t + rows_m();
    lemma_shaped_concat(t, rows_n());
    let t = t + rows_n();
    lemma_shaped_concat(t, rows_op());
    let t = t + rows_op();
    lemma_shaped_concat(t, rows_q());
    let t = t + rows_q();
    lemma_shaped_concat(t, rows_r());
    let t = t + rows_r();
    lemma_shaped_concat(t, rows_s());
    let t = t + rows_s();
    lemma_shaped_concat(t, rows_t());
    let t = t + rows_t();
    lemma_shaped_concat(t, rows_uw());
    let t = t + rows_uw();
    lemma_shaped_concat(t, rows_x());
    let t = t + rows_x();
    lemma_shaped_concat(t, rows_y());
    let t = t + rows_y();
    lemma_shaped_concat(t, rows_z());
    let t = t + rows_z();
    assert(t == roma_table());
}

/// The table's size.
pub proof fn lemma_roma_table_len()
    ensures
        roma_table().len() == 202,
{
    lemma_rows_punctuation_ascending();
    lemma_rows_ab_ascending();
    lemma_rows_c_ascending();
    lemma_rows_d_ascending();
    lemma_rows_ef_ascending();
    lemma_rows_g_ascending();
    lemma_rows_h_ascending();
    lemma_rows_ij_ascending();
    lemma_rows_k_ascending();
    lemma_rows_l_ascending();
    lemma_rows_m_ascending();
    lemma_rows_n_ascending();
    lemma_rows_op_ascending();
    lemma_rows_q_ascending();
    lemma_rows_r_ascending();
    lemma_rows_s_ascending();
    lemma_rows_t_ascending();
    lemma_rows_uw_ascending();
    lemma_rows_x_ascending();
    lemma_rows_y_ascending();
    lemma_rows_z_ascending();
}

/// The table never maps one key to two values.
pub proof fn lemma_roma_table_keys_unique()
    ensures
        keys_unique(roma_table()),
{
    lemma_roma_table_ascending();
    lemma_ascending_unique(roma_table());
}

/// Appends the entries of `rows_punctuation`.
fn push_rows_punctuation(t: &mut Vec<(Vec<char>, Vec<char>)>)
    ensures
        entries_view(final(t)@) == entries_view(old(t)@) + rows_punctuation(),
{
    reveal(rows_punctuation);
    t.push((vec![','], vec!['、']));
    t.push((vec!['.'], vec!['。']));
    assert(entries_view(t@) =~~= entries_view(old(t)@) + rows_punctuation());
}

/// Appends the entries of `rows_ab`.
fn push_rows_ab(t: &mut Vec<(Vec<char>, Vec<char>)>)
    ensures
        entries_view(final(t)@) == entries_view(old(t)@) + rows_ab(),
{
    reveal(rows_ab);
    t.push((vec!['a'], vec!['あ']));
    t.push((vec!['b', 'a'], vec!['ば']));
    t.push((vec!['b', 'e'], vec!['べ']));
    t.push((vec!['b', 'i'], vec!['び']));
    t.push((vec!['b', 'o'], vec!['ぼ']));
    t.push((vec!['b', 'u'], vec!['ぶ']));
    t.push((vec!['b', 'y', 'a'], vec!['び', 'ゃ']));
    t.push((vec!['b', 'y', 'e'], vec!['び', 'ぇ']));
    t.push((vec!['b', 'y', 'i'], vec!['び', 'ぃ']));
    t.push((vec!['b', 'y', 'o'], vec!['び', 'ょ']));
    t.push((vec!['b', 'y', 'u'], vec!['び', 'ゅ']));
    assert(entries_view(t@) =~~= entries_view(old(t)@) + rows_ab());
}

/// Appends the entries of `rows_c`.
fn push_rows_c(t: &mut Vec<(Vec<char>, Vec<char>)>)
    ensures
        entries_view(final(t)@) == entries_view(old(t)@) + rows_c(),
{
    reveal(rows_c);
    t.push((vec!['c', 'h', 'a'], vec!['ち', 'ゃ']));
    t.push((vec!['c', 'h', 'e'], vec!['ち', 'ぇ']));
    t.push((vec!['c', 'h', 'i'], vec!['ち']));
    t.push((vec!['c', 'h', 'o'], vec!['ち', 'ょ']));
    t.push((vec!['c', 'h', 'u'], vec!['ち', 'ゅ']));
    assert(entries_view(t@) =~~= entries_view(old(t)@) + rows_c());
}

/// Appends the entries of `rows_d`.
fn push_rows_d(t: &mut Vec<(Vec<char>, Vec<char>)>)
    ensures
        entries_view(final(t)@) == entries_view(old(t)@) + rows_d(),
{
    reveal(rows_d);
    t.push((vec!['d', 'a'], vec!['だ']));
    t.push((vec!['d', 'e'], vec!['で']));
    t.push((vec!['d', 'h', 'a'], vec!['で', 'ゃ']));
    t.push((vec!['d', 'h', 'e'], vec!['で', 'ぇ']));
    t.push((vec!['d', 'h', 'i'], vec!['で', 'ぃ']));
    t.push((vec!['d', 'h', 'o'], vec!['で', 'ょ']));
    t.push((vec!['d', 'h', 'u'], vec!['で', 'ゅ']));
    t.push((vec!['d', 'i'], vec!['ぢ']));
    t.push((vec!['d', 'o'], vec!['ど']));
    t.push((vec!['d', 'u'], vec!['づ']));
    t.push((vec!['d', 'w', 'a'], vec!['ど', 'ぁ']));
    t.push((vec!['d', 'w', 'e'], vec!['ど', 'ぇ']));
    t.push((vec!['d', 'w', 'i'], vec!['ど', 'ぃ']));
    t.push((vec!['d', 'w', 'o'], vec!['ど', 'ぉ']));
    t.push((vec!['d', 'w', 'u'], vec!['ど', 'ぅ']));
    t.push((vec!['d', 'y', 'a'], vec!['ぢ', 'ゃ']));
    t.push((vec!['d', 'y', 'e'], vec!['ぢ', 'ぇ']));
    t.push((vec!['d', 'y', 'i'], vec!['ぢ', 'ぃ']));
    t.push((vec!['d', 'y', 'o'], vec!['ぢ', 'ょ']));
    t.push((vec!['d', 'y', 'u'], vec!['ぢ', 'ゅ']));
    assert(entries_view(t@) =~~= entries_view(old(t)@) + rows_d());
}

/// Appends the entries of `rows_ef`.
fn push_rows_ef(t: &mut Vec<(Vec<char>, Vec<char>)>)
    ensures
        entries_view(final(t)@) == entries_view(old(t)@) + rows_ef(),
{
    reveal(rows_ef);
    t.push((vec!['e'], vec!['え']));
    t.push((vec!['f', 'a'], vec!['ふ', 'ぁ']));
    t.push((vec!['f', 'e'], vec!['ふ', 'ぇ']));
    t.push((vec!['f', 'i'], vec!['ふ', 'ぃ']));
    t.push((vec!['f', 'o'], vec!['ふ', 'ぉ']));
    t.push((vec!['f', 'u'], vec!['ふ']));
    t.push((vec!['f', 'w', 'u'], vec!['ふ', 'ぅ']));
    assert(entries_view(t@) =~~= entries_view(old(t)@) + rows_ef());
}

/// Appends the entries of `rows_g`.
fn push_rows_g(t: &mut Vec<(Vec<char>, Vec<char>)>)
    ensures
        entries_view(final(t)@) == entries_view(old(t)@) + rows_g(),
{
    reveal(rows_g);
    t.push((vec!['g', 'a'], vec!['が']));
    t.push((vec!['g', 'e'], vec!['げ']));
    t.push((vec!['g', 'i'], vec!['ぎ']));
    t.push((vec!['g', 'o'], vec!['ご']));
    t.push((vec!['g', 'u'], vec!['ぐ']));
    t.push((vec!['g', 'w', 'a'], vec!['ぐ', 'ぁ']));
    t.push((vec!['g', 'w', 'e'], vec!['ぐ', 'ぇ']));
    t.push((vec!['g', 'w', 'i'], vec!['ぐ', 'ぃ']));
    t.push((vec!['g', 'w', 'o'], vec!['ぐ', 'ぉ']));
    t.push((vec!['g', 'w', 'u'], vec!['ぐ', 'ぅ']));
    t.push((vec!['g', 'y', 'a'], vec!['ぎ', 'ゃ']));
    t.push((vec!['g', 'y', 'e'], vec!['ぎ', 'ぇ']));
    t.push((vec!['g', 'y', 'i'], vec!['ぎ', 'ぃ']));
    t.push((vec!['g', 'y', 'o'], vec!['ぎ', 'ょ']));
    t.push((vec!['g', 'y', 'u'], vec!['ぎ', 'ゅ']));
    assert(entries_view(t@) =~~= entries_view(old(t)@) + rows_g());
}

/// Appends the entries of `rows_h`.
fn push_rows_h(t: &mut Vec<(Vec<char>, Vec<char>)>)
    ensures
        entries_view(final(t)@) == entries_view(old(t)@) + rows_h(),
{
    reveal(rows_h);
    t.push((vec!['h', 'a'], vec!['は']));
    t.push((vec!['h', 'e'], vec!['へ']));
    t.push((vec!['h', 'i'], vec!['ひ']));
    t.push((vec!['h', 'o'], vec!['ほ']));
    t.push((vec!['h', 'u'], vec!['ふ']));
    t.push((vec!['h', 'y', 'a'], vec!['ひ', 'ゃ']));
    t.push((vec!['h', 'y', 'e'], vec!['ひ', 'ぇ']));
    t.push((vec!['h', 'y', 'i'], vec!['ひ', 'ぃ']));
    t.push((vec!['h', 'y', 'o'], vec!['ひ', 'ょ']));
    t.push((vec!['h', 'y', 'u'], vec!['ひ', 'ゅ']));
    assert(entries_view(t@) =~~= entries_view(old(t)@) + rows_h());
}

/// Appends the entries of `rows_ij`.
fn push_rows_ij(t: &mut Vec<(Vec<char>, Vec<char>)>)
    ensures
        entries_view(final(t)@) == entries_view(old(t)@) + rows_ij(),
{
    reveal(rows_ij);
    t.push((vec!['i'], vec!['い']));
    t.push((vec!['j', 'a'], vec!['じ', 'ゃ']));
    t.push((vec!['j', 'e'], vec!['じ', 'ぇ']));
    t.push((vec!['j', 'i'], vec!['じ']));
    t.push((vec!['j', 'o'], vec!['じ', 'ょ']));
    t.push((vec!['j', 'u'], vec!['じ', 'ゅ']));
    assert(entries_view(t@) =~~= entries_view(old(t)@) + rows_ij());
}

/// Appends the entries of `rows_k`.
fn push_rows_k(t: &mut Vec<(Vec<char>, Vec<char>)>)
    ensures
        entries_view(final(t)@) == entries_view(old(t)@) + rows_k(),
{
    reveal(rows_k);
    t.push((vec!['k', 'a'], vec!['か']));
    t.push((vec!['k', 'e'], vec!['け']));
    t.push((vec!['k', 'i'], vec!['き']));
    t.push((vec!['k', 'o'], vec!['こ']));
    t.push((vec!['k', 'u'], vec!['く']));
    t.push((vec!['k', 'y', 'a'], vec!['き', 'ゃ']));
    t.push((vec!['k', 'y', 'e'], vec!['き', 'ぇ']));
    t.push((vec!['k', 'y', 'i'], vec!['き', 'ぃ']));
    t.push((vec!['k', 'y', 'o'], vec!['き', 'ょ']));
    t.push((vec!['k', 'y', 'u'], vec!['き', 'ゅ']));
    assert(entries_view(t@) =~~= entries_view(old(t)@) + rows_k());
}

/// Appends the entries of `rows_l`.
fn push_rows_l(t: &mut Vec<(Vec<char>, Vec<char>)>)
    ensures
        entries_view(final(t)@) == entries_view(old(t)@) + rows_l(),
{
    reveal(rows_l);
    t.push((vec!['l', 'a'], vec!['ぁ']));
    t.push((vec!['l', 'e'], vec!['ぇ']));
    t.push((vec!['l', 'i'], vec!['ぃ']));
    t.push((vec!['l', 'o'], vec!['ぉ']));
    t.push((vec!['l', 'u'], vec!['ぅ']));
    assert(entries_view(t@) =~~= entries_view(old(t)@) + rows_l());
}

/// Appends the entries of `rows_m`.
fn push_rows_m(t: &mut Vec<(Vec<char>, Vec<char>)>)
    ensures
        entries_view(final(t)@) == entries_view(old(t)@) + rows_m(),
{
    reveal(rows_m);
    t.push((vec!['m', 'a'], vec!['ま']));
    t.push((vec!['m', 'e'], vec!['め']));
    t.push((vec!['m', 'i'], vec!['み']));
    t.push((vec!['m', 'o'], vec!['も']));
    t.push((vec!['m', 'u'], vec!['む']));
    t.push((vec!['m', 'y', 'a'], vec!['み', 'ゃ']));
    t.push((vec!['m', 'y', 'e'], vec!['み', 'ぇ']));
    t.push((vec!['m', 'y', 'i'], vec!['み', 'ぃ']));
    t.push((vec!['m', 'y', 'o'], vec!['み', 'ょ']));
    t.push((vec!['m', 'y', 'u'], vec!['み', 'ゅ']));
    assert(entries_view(t@) =~~= entries_view(old(t)@) + rows_m());
}

/// Appends the entries of `rows_n`.
fn push_rows_n(t: &mut Vec<(Vec<char>, Vec<char>)>)
    ensures
        entries_view(final(t)@) == entries_view(old(t)@) + rows_n(),
{
    reveal(rows_n);
    t.push((vec!['n', 'a'], vec!['な']));
    t.push((vec!['n', 'e'], vec!['ね']));
    t.push((vec!['n', 'i'], vec!['に']));
    t.push((vec!['n', 'n'], vec!['ん']));
    t.push((vec!['n', 'o'], vec!['の']));
    t.push((vec!['n', 'u'], vec!['ぬ']));
    t.push((vec!['n', 'y', 'a'], vec!['に', 'ゃ']));
    t.push((vec!['n', 'y', 'e'], vec!['に', 'ぇ']));
    t.push((vec!['n', 'y', 'i'], vec!['に', 'ぃ']));
    t.push((vec!['n', 'y', 'o'], vec!['に', 'ょ']));
    t.push((vec!['n', 'y', 'u'], vec!['に', 'ゅ']));
    assert(entries_view(t@) =~~= entries_view(old(t)@) + rows_n());
}

/// Appends the entries of `rows_op`.
fn push_rows_op(t: &mut Vec<(Vec<char>, Vec<char>)>)
    ensures
        entries_view(final(t)@) == entries_view(old(t)@) + rows_op(),
{
    reveal(rows_op);
    t.push((vec!['o'], vec!['お']));
    t.push((vec!['p', 'a'], vec!['ぱ']));
    t.push((vec!['p', 'e'], vec!['ぺ']));
    t.push((vec!['p', 'i'], vec!['ぴ']));
    t.push((vec!['p', 'o'], vec!['ぽ']));
    t.push((vec!['p', 'u'], vec!['ぷ']));
    t.push((vec!['p', 'y', 'a'], vec!['ぴ', 'ゃ']));
    t.push((vec!['p', 'y', 'e'], vec!['ぴ', 'ぇ']));
    t.push((vec!['p', 'y', 'i'], vec!['ぴ', 'ぃ']));
    t.push((vec!['p', 'y', 'o'], vec!['ぴ', 'ょ']));
    t.push((vec!['p', 'y', 'u'], vec!['ぴ', 'ゅ']));
    assert(entries_view(t@) =~~= entries_view(old(t)@) + rows_op());
}

/// Appends the entries of `rows_q`.
fn push_rows_q(t: &mut Vec<(Vec<char>, Vec<char>)>)
    ensures
        entries_view(final(t)@) == entries_view(old(t)@) + rows_q(),
{
    reveal(rows_q);
    t.push((vec!['q', 'a'], vec!['く', 'ぁ']));
    t.push((vec!['q', 'e'], vec!['く', 'ぇ']));
    t.push((vec!['q', 'i'], vec!['く', 'ぃ']));
    t.push((vec!['q', 'o'], vec!['く', 'ぉ']));
    t.push((vec!['q', 'w', 'u'], vec!['く', 'ぅ']));
    assert(entries_view(t@) =~~= entries_view(old(t)@) + rows_q());
}

/// Appends the entries of `rows_r`.
fn push_rows_r(t: &mut Vec<(Vec<char>, Vec<char>)>)
    ensures
        entries_view(final(t)@) == entries_view(old(t)@) + rows_r(),
{
    reveal(rows_r);
    t.push((vec!['r', 'a'], vec!['ら']));
    t.push((vec!['r', 'e'], vec!['れ']));
    t.push((vec!['r', 'i'], vec!['り']));
    t.push((vec!['r', 'o'], vec!['ろ']));
    t.push((vec!['r', 'u'], vec!['る']));
    t.push((vec!['r', 'y', 'a'], vec!['り', 'ゃ']));
    t.push((vec!['r', 'y', 'e'], vec!['り', 'ぇ']));
    t.push((vec!['r', 'y', 'i'], vec!['り', 'ぃ']));
    t.push((vec!['r', 'y', 'o'], vec!['り', 'ょ']));
    t.push((vec!['r', 'y', 'u'], vec!['り', 'ゅ']));
    assert(entries_view(t@) =~~= entries_view(old(t)@) + rows_r());
}

/// Appends the entries of `rows_s`.
fn push_rows_s(t: &mut Vec<(Vec<char>, Vec<char>)>)
    ensures
        entries_view(final(t)@) == entries_view(old(t)@) + rows_s(),
{
    reveal(rows_s);
    t.push((vec!['s', 'a'], vec!['さ']));
    t.push((vec!['s', 'e'], vec!['せ']));
    t.push((vec!['s', 'h', 'a'], vec!['し', 'ゃ']));
    t.push((vec!['s', 'h', 'e'], vec!['し', 'ぇ']));
    t.push((vec!['s', 'h', 'o'], vec!['し', 'ょ']));
    t.push((vec!['s', 'h', 'u'], vec!['し', 'ゅ']));
    t.push((vec!['s', 'i'], vec!['し']));
    t.push((vec!['s', 'o'], vec!['そ']));
    t.push((vec!['s', 'u'], vec!['す']));
    t.push((vec!['s', 'w', 'a'], vec!['す', 'ぁ']));
    t.push((vec!['s', 'w', 'e'], vec!['す', 'ぇ']));
    t.push((vec!['s', 'w', 'i'], vec!['す', 'ぃ']));
    t.push((vec!['s', 'w', 'o'], vec!['す', 'ぉ']));
    t.push((vec!['s', 'w', 'u'], vec!['す', 'ぅ']));
    t.push((vec!['s', 'y', 'a'], vec!['し', 'ゃ']));
    t.push((vec!['s', 'y', 'e'], vec!['し', 'ぇ']));
    t.push((vec!['s', 'y', 'i'], vec!['し', 'ぃ']));
    t.push((vec!['s', 'y', 'o'], vec!['し', 'ょ']));
    t.push((vec!['s', 'y', 'u'], vec!['し', 'ゅ']));
    assert(entries_view(t@) =~~= entries_view(old(t)@) + rows_s());
}

/// Appends the entries of `rows_t`.
fn push_rows_t(t: &mut Vec<(Vec<char>, Vec<char>)>)
    ensures
        entries_view(final(t)@) == entries_view(old(t)@) + rows_t(),
{
    reveal(rows_t);
    t.push((vec!['t', 'a'], vec!['た']));
    t.push((vec!['t', 'e'], vec!['て']));
    t.push((vec!['t', 'h', 'a'], vec!['て', 'ゃ']));
    t.push((vec!['t', 'h', 'e'], vec!['て', 'ぇ']));
    t.push((vec!['t', 'h', 'i'], vec!['て', 'ぃ']));
    t.push((vec!['t', 'h', 'o'], vec!['て', 'ょ']));
    t.push((vec!['t', 'h', 'u'], vec!['て', 'ゅ']));
    t.push((vec!['t', 'i'], vec!['ち']));
    t.push((vec!['t', 'o'], vec!['と']));
    t.push((vec!['t', 's', 'u'], vec!['つ']));
    t.push((vec!['t', 'u'], vec!['つ']));
    t.push((vec!['t', 'w', 'a'], vec!['と', 'ぁ']));
    t.push((vec!['t', 'w', 'e'], vec!['と', 'ぇ']));
    t.push((vec!['t', 'w', 'i'], vec!['と', 'ぃ']));
    t.push((vec!['t', 'w', 'o'], vec!['と', 'ぉ']));
    t.push((vec!['t', 'y', 'a'], vec!['ち', 'ゃ']));
    t.push((vec!['t', 'y', 'e'], vec!['ち', 'ぇ']));
    t.push((vec!['t', 'y', 'i'], vec!['ち', 'ぃ']));
    t.push((vec!['t', 'y', 'o'], vec!['ち', 'ょ']));
    t.push((vec!['t', 'y', 'u'], vec!['ち', 'ゅ']));
    assert(entries_view(t@) =~~= entries_view(old(t)@) + rows_t());
}

/// Appends the entries of `rows_uw`.
fn push_rows_uw(t: &mut Vec<(Vec<char>, Vec<char>)>)
    ensures
        entries_view(final(t)@) == entries_view(old(t)@) + rows_uw(),
{
    reveal(rows_uw);
    t.push((vec!['u'], vec!['う']));
    t.push((vec!['w', 'a'], vec!['わ']));
    t.push((vec!['w', 'e'], vec!['う', 'ぇ']));
    t.push((vec!['w', 'h', 'a'], vec!['う', 'ぁ']));
    t.push((vec!['w', 'h', 'o'], vec!['う', 'ぉ']));
    t.push((vec!['w', 'i'], vec!['う', 'ぃ']));
    t.push((vec!['w', 'o'], vec!['を']));
    assert(entries_view(t@) =~~= entries_view(old(t)@) + rows_uw());
}

/// Appends the entries of `rows_x`.
fn push_rows_x(t: &mut Vec<(Vec<char>, Vec<char>)>)
    ensures
        entries_view(final(t)@) == entries_view(old(t)@) + rows_x(),
{
    reveal(rows_x);
    t.push((vec!['x', 'a'], vec!['ぁ']));
    t.push((vec!['x', 'e'], vec!['ぇ']));
    t.push((vec!['x', 'i'], vec!['ぃ']));
    t.push((vec!['x', 'o'], vec!['ぉ']));
    t.push((vec!['x', 'u'], vec!['ぅ']));
    assert(entries_view(t@) =~~= entries_view(old(t)@) + rows_x());
}

/// Appends the entries of `rows_y`.
fn push_rows_y(t: &mut Vec<(Vec<char>, Vec<char>)>)
    ensures
        entries_view(final(t)@) == entries_view(old(t)@) + rows_y(),
{
    reveal(rows_y);
    t.push((vec!['y', 'a'], vec!['や']));
    t.push((vec!['y', 'o'], vec!['よ']));
    t.push((vec!['y', 'u'], vec!['ゆ']));
    assert(entries_view(t@) =~~= entries_view(old(t)@) + rows_y());
}

/// Appends the entries of `rows_z`.
fn push_rows_z(t: &mut Vec<(Vec<char>, Vec<char>)>)
    ensures
        entries_view(final(t)@) == entries_view(old(t)@) + rows_z(),
{
    reveal(rows_z);
    t.push((vec!['z', 'a'], vec!['ざ']));
    t.push((vec!['z', 'e'], vec!['ぜ']));
    t.push((vec!['z', 'i'], vec!['じ']));
    t.push((vec!['z', 'o'], vec!['ぞ']));
    t.push((vec!['z', 'u'], vec!['ず']));
    t.push((vec!['z', 'y', 'a'], vec!['じ', 'ゃ']));
    t.push((vec!['z', 'y', 'e'], vec!['じ', 'ぇ']));
    t.push((vec!['z', 'y', 'i'], vec!['じ', 'ぃ']));
    t.push((vec!['z', 'y', 'o'], vec!['じ', 'ょ']));
    t.push((vec!['z', 'y', 'u'], vec!['じ', 'ゅ']));
    assert(entries_view(t@) =~~= entries_view(old(t)@) + rows_z());
}


/// The transliteration table. Every value of this type holds `roma_table()`.
#[derive(Debug)]
pub struct RomaTable {
    entries: Vec<(Vec<char>, Vec<char>)>,
}

impl RomaTable {
    #[verifier::type_invariant]
    spec fn inv(&self) -> bool {
        entries_view(self.entries@) == roma_table()
    }

    /// Builds the table.
    pub fn new() -> (r: Self) {
        let mut t: Vec<(Vec<char>, Vec<char>)> = Vec::new();
        assert(entries_view(t@) =~= Seq::empty());
        push_rows_punctuation(&mut t);
        push_rows_ab(&mut t);
        push_rows_c(&mut t);
        push_rows_d(&mut t);
        push_rows_ef(&mut t);
        push_rows_g(&mut t);
        push_rows_h(&mut t);
        push_rows_ij(&mut t);
        push_rows_k(&mut t);
        push_rows_l(&mut t);
        push_rows_m(&mut t);
        push_rows_n(&mut t);
        push_rows_op(&mut t);
        push_rows_q(&mut t);
        push_rows_r(&mut t);
        push_rows_s(&mut t);
        push_rows_t(&mut t);
        push_rows_uw(&mut t);
        push_rows_x(&mut t);
        push_rows_y(&mut t);
        push_rows_z(&mut t);
        assert(entries_view(t@) =~= roma_table());
        RomaTable { entries: t }
    }

    /// The number of entries.
    pub fn len(&self) -> (r: usize)
        ensures
            r == roma_table().len(),
    {
        proof {
            use_type_invariant(self);
        }
        self.entries.len()
    }

    /// The key of entry `i`.
    pub fn key(&self, i: usize) -> (r: &[char])
        requires
            i < roma_table().len(),
        ensures
            r@ == roma_table()[i as int].0,
    {
        proof {
            use_type_invariant(self);
        }
        self.entries[i].0.as_slice()
    }

    /// The kana of entry `i`.
    pub fn kana(&self, i: usize) -> (r: &[char])
        requires
            i < roma_table().len(),
        ensures
            r@ == roma_table()[i as int].1,
    {
        proof {
            use_type_invariant(self);
        }
        self.entries[i].1.as_slice()
    }

    /// The kana of the entry whose key is `buf[start..]`.
    pub fn lookup_tail(&self, buf: &[char], start: usize) -> (r: Option<&[char]>)
        requires
            start <= buf@.len(),
        ensures
            r matches Some(v) ==> lookup(roma_table(), buf@.subrange(start as int, buf@.len() as int)) == Some(v@),
            r is None ==> lookup(roma_table(), buf@.subrange(start as int, buf@.len() as int)) is None,
    {
        proof {
            use_type_invariant(self);
            lemma_roma_table_keys_unique();
        }
        let ghost tail = buf@.subrange(start as int, buf@.len() as int);
        let mut i: usize = 0;
        while i < self.entries.len()
            invariant
                entries_view(self.entries@) == roma_table(),
                keys_unique(roma_table()),
                0 <= i <= roma_table().len(),
                forall|j: int| 0 <= j < i ==> #[trigger] roma_table()[j].0 != tail,
                start <= buf@.len(),
                tail == buf@.subrange(start as int, buf@.len() as int),
            decreases roma_table().len() - i,
        {
            let key = self.entries[i].0.as_slice();
            assert(key@ == roma_table()[i as int].0);
            assert(self.entries[i as int].1@ == roma_table()[i as int].1);
            if tail_matches(key, buf, start) {
                proof {
                    lemma_lookup_entry(roma_table(), i as int);
                }
                return Some(self.entries[i].1.as_slice());
            }
            i += 1;
        }
        None
    }

    /// The kana that `key` maps to.
    pub fn lookup(&self, key: &[char]) -> (r: Option<&[char]>)
        ensures
            r matches Some(v) ==> lookup(roma_table(), key@) == Some(v@),
            r is None ==> lookup(roma_table(), key@) is None,
    {
        let r = self.lookup_tail(key, 0);
        assert(key@.subrange(0, key@.len() as int) =~= key@);
        r
    }

    /// The kana of every entry whose key agrees with `suffix` on their common
    /// length, in table order.
    pub fn scan_compatible(&self, suffix: &[char]) -> (r: Candidates)
        ensures
            candidate_items(r) == compatible_values(roma_table(), suffix@),
    {
        proof {
            use_type_invariant(self);
            lemma_roma_table_len();
        }
        let mut out = candidates_new();
        let mut i: usize = 0;
        while i < self.entries.len()
            invariant
                entries_view(self.entries@) == roma_table(),
                0 <= i <= roma_table().len(),
                candidate_items(out) == compatible_values(roma_table().take(i as int), suffix@),
                candidate_items(out).len() <= i,
                roma_table().len() == 202,
            decreases roma_table().len() - i,
        {
            let ghost t = roma_table();
            assert(t.take(i + 1).drop_last() =~= t.take(i as int));
            proof {
                lemma_compatible_values_len(t.take(i as int), suffix@);
            }
            let key = self.entries[i].0.as_slice();
            if prefixes_agree(key, suffix) {
                let kana = vstd::slice::slice_to_vec(self.entries[i].1.as_slice());
                candidates_push(&mut out, kana);
            }
            i += 1;
        }
        assert(roma_table().take(roma_table().len() as int) =~= roma_table());
        out
    }
}

/// No more values come out than there are entries.
pub proof fn lemma_compatible_values_len(t: Seq<(Seq<char>, Seq<char>)>, s: Seq<char>)
    ensures
        compatible_values(t, s).len() <= t.len(),
    decreases t.len(),
{
    if t.len() > 0 {
        lemma_compatible_values_len(t.drop_last(), s);
    }
}

/// Whether `key` equals `buf[start..]`.
fn tail_matches(key: &[char], buf: &[char], start: usize) -> (r: bool)
    requires
        start <= buf@.len(),
    ensures
        r == (key@ == buf@.subrange(start as int, buf@.len() as int)),
{
    let ghost tail = buf@.subrange(start as int, buf@.len() as int);
    if key.len() != buf.len() - start {
        return false;
    }
    let n = buf.len();
    let mut i: usize = 0;
    while i < key.len()
        invariant
            n == buf@.len(),
            start <= buf@.len(),
            key@.len() == buf@.len() - start,
            tail == buf@.subrange(start as int, buf@.len() as int),
            0 <= i <= key@.len(),
            forall|j: int| 0 <= j < i ==> key@[j] == tail[j],
            start + key@.len() == buf@.len(),
        decreases key@.len() - i,
    {
        if key[i] != buf[start + i] {
            return false;
        }
        i += 1;
    }
    assert(key@ =~= tail);
    true
}

/// Whether `a` and `b` agree on every position of their common length.
fn prefixes_agree(a: &[char], b: &[char]) -> (r: bool)
    ensures
        r == compatible(a@, b@),
{
    let mut i: usize = 0;
    while i < a.len() && i < b.len()
        invariant
            0 <= i <= a@.len(),
            i <= b@.len(),
            forall|j: int| 0 <= j < i ==> a@[j] == b@[j],
        decreases a@.len() - i,
    {
        if a[i] != b[i] {
            return false;
        }
        i += 1;
    }
    true
}

} // verus!
