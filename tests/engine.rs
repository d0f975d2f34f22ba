use romaji_ime::ime::{Ime, ImeError};
use romaji_ime::table::RomaTable;

fn typed(keys: &str) -> Ime {
    let mut ime = Ime::new();
    for c in keys.chars() {
        ime.put(c).unwrap();
    }
    ime
}

fn text(chars: &[char]) -> String {
    chars.iter().collect()
}

#[test]
fn single_vowels_convert_at_once() {
    for (v, kana) in [('a', 'あ'), ('i', 'い'), ('u', 'う'), ('e', 'え'), ('o', 'お')] {
        let mut ime = Ime::new();
        ime.put(v).unwrap();
        assert_eq!(ime.buffer(), &[kana]);
    }
}

#[test]
fn doubled_consonant_becomes_small_tsu() {
    let mut ime = typed("tt");
    assert_eq!(ime.buffer(), &['っ', 't']);
    ime.put('a').unwrap();
    assert_eq!(ime.buffer(), &['っ', 'た']);
}

#[test]
fn n_before_consonant_becomes_nasal() {
    assert_eq!(typed("nr").buffer(), &['ん', 'r']);
    assert_eq!(typed("ny").buffer(), &['n', 'y']);
}

#[test]
fn double_n_is_exact_match() {
    assert_eq!(typed("nn").buffer(), &['ん']);
}

#[test]
fn every_table_key_round_trips() {
    let table = RomaTable::new();
    assert_eq!(table.len(), 202);
    for i in 0..table.len() {
        let mut ime = Ime::new();
        for &c in table.key(i) {
            ime.put(c).unwrap();
        }
        assert_eq!(ime.buffer(), table.kana(i), "key {}", text(table.key(i)));
    }
}

#[test]
fn reads_repeat() {
    let ime = typed("ky");
    let a = ime.candidates();
    let b = ime.candidates();
    assert_eq!(a.len(), b.len());
    for i in 0..a.len() {
        assert_eq!(a.get(i), b.get(i));
    }
    assert_eq!(ime.buffer(), ime.buffer());
}

#[test]
fn trim_beginning_shortens_and_restamps() {
    let mut ime = typed("kakik");
    assert_eq!(ime.buffer(), &['か', 'き', 'k']);
    ime.trim_beginning(1).unwrap();
    assert_eq!(ime.buffer(), &['き', 'k']);
    assert_eq!(ime.history(), &[('k', 1), ('i', 1), ('k', 2)]);
}

#[test]
fn trim_beginning_past_end_is_refused() {
    let mut ime = typed("ka");
    assert_eq!(ime.trim_beginning(2), Err(ImeError::OutOfRange));
    assert_eq!(ime.buffer(), &['か']);
    assert_eq!(ime.trim_beginning(1), Ok(()));
    assert!(ime.buffer().is_empty());
}

#[test]
fn invalid_input_is_refused() {
    let mut ime = typed("k");
    assert_eq!(ime.put('1'), Err(ImeError::InvalidInput));
    assert_eq!(ime.put('あ'), Err(ImeError::InvalidInput));
    assert_eq!(ime.put('-'), Err(ImeError::InvalidInput));
    assert_eq!(ime.buffer(), &['k']);
    assert_eq!(ime.history(), &[('k', 1)]);
}

#[test]
fn upper_case_and_punctuation() {
    assert_eq!(typed("KA").buffer(), &['か']);
    assert_eq!(typed("a,i.").buffer(), &['あ', '、', 'い', '。']);
}

#[test]
fn digraphs_win_over_shorter_matches() {
    assert_eq!(typed("kya").buffer(), &['き', 'ゃ']);
    assert_eq!(typed("sha").buffer(), &['し', 'ゃ']);
    assert_eq!(typed("tsu").buffer(), &['つ']);
    assert_eq!(typed("nya").buffer(), &['に', 'ゃ']);
    assert_eq!(typed("kka").buffer(), &['っ', 'か']);
}

#[test]
fn history_records_each_key() {
    let ime = typed("nk");
    assert_eq!(ime.buffer(), &['ん', 'k']);
    assert_eq!(ime.history(), &[('n', 1), ('k', 2), ('k', 2)]);
}

#[test]
fn pop_after_nasal_drops_both_records() {
    let mut ime = typed("nk");
    assert_eq!(ime.pop(), Some('k'));
    assert_eq!(ime.buffer(), &['ん']);
    assert_eq!(ime.history(), &[('n', 1)]);
    assert_eq!(ime.pop(), Some('ん'));
    assert!(ime.history().is_empty());
    assert_eq!(ime.pop(), None);
}

#[test]
fn clear_and_set_buffer_drop_history() {
    let mut ime = typed("ka");
    ime.clear();
    assert!(ime.buffer().is_empty());
    assert!(ime.history().is_empty());
    let mut ime = typed("ka");
    ime.set_buffer(vec!['し', 's']);
    assert_eq!(ime.buffer(), &['し', 's']);
    assert!(ime.history().is_empty());
    ime.put('a').unwrap();
    assert_eq!(ime.buffer(), &['し', 'さ']);
}

#[test]
fn candidates_of_pending_consonant() {
    let ime = typed("k");
    let c = ime.candidates();
    assert!(c.contains(&['か']));
    assert!(c.contains(&['き', 'ゃ']));
    assert!(c.contains(&['っ']));
    assert!(!c.contains(&['さ']));
    let ime = typed("n");
    let c = ime.candidates();
    assert!(c.contains(&['ん']));
    assert!(!c.contains(&['っ']));
}

#[test]
fn candidates_count_pending_matches() {
    let ime = typed("q");
    assert_eq!(ime.candidates().len(), 6);
    let ime = typed("qq");
    assert_eq!(ime.buffer(), &['っ', 'q']);
    let ime = typed("ky");
    assert_eq!(ime.candidates().len(), 5);
    let mut ime = Ime::new();
    ime.set_buffer(vec!['v']);
    assert_eq!(ime.candidates().len(), 1);
    assert!(ime.candidates().contains(&['っ']));
}

#[test]
fn table_lookup() {
    let table = RomaTable::new();
    assert_eq!(table.lookup(&['s', 'h', 'a']), Some(&['し', 'ゃ'][..]));
    assert_eq!(table.lookup(&['t', 'w', 'o']), Some(&['と', 'ぉ'][..]));
    assert_eq!(table.lookup(&[',']), Some(&['、'][..]));
    assert_eq!(table.lookup(&['k']), None);
    let c = table.scan_compatible(&['d']);
    assert_eq!(c.len(), 20);
    assert_eq!(table.scan_compatible(&[]).len(), 202);
}
