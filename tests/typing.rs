use romaji_ime::ext::{eq, eq_ref};
use romaji_ime::ime::Ime;
use romaji_ime::markup;
use romaji_ime::markup::MarkupError;
use romaji_ime::phrase::{Segment, Sentence};
use romaji_ime::typing::{typing_status_of, App, AppMessage, SegmentTypingStatus};

fn chars(s: &str) -> Vec<char> {
    s.chars().collect()
}

fn segment(origin: &str, hira: &str) -> Segment {
    Segment::new(&chars(origin), &chars(hira))
}

fn key(k: &str) -> AppMessage {
    AppMessage::Type(k.to_string())
}

#[test]
fn typing_a_segment_end_to_end() {
    let sentence = Sentence::new(vec![segment("試作品", "しさくひん"), segment("です", "です")]);
    let mut app = App::new(vec![sentence]);
    let expected = ["s", "し", "しs", "しさ", "しさk", "しさく", "しさくh", "しさくひ", "しさくひn"];
    for (i, k) in "sisakuhin".chars().enumerate() {
        assert!(app.update(key(&k.to_string())));
        let buf: String = app.ime().buffer().iter().collect();
        assert_eq!(buf, expected[i]);
        let status = app.typing_status();
        assert_eq!(status.len(), app.ime().buffer().len());
        assert!(status.iter().all(|s| s.ok), "after key {}", i);
    }
    assert_eq!(app.sentence().current_segment().hira(), &chars("しさくひん")[..]);
    app.update(key("n"));
    assert!(app.ime().buffer().is_empty());
    assert_eq!(app.sentence().current_segment().hira(), &chars("です")[..]);
    assert_eq!(app.sentence().typed_segments().len(), 1);
}

#[test]
fn wrong_kana_marks_the_rest_wrong() {
    let sentence = Sentence::new(vec![segment("です", "です")]);
    let mut app = App::new(vec![sentence]);
    app.update(key("d"));
    assert_eq!(app.ime().buffer(), &['d']);
    let cands = app.ime().candidates();
    for kana in ["だ", "ぢ", "づ", "で", "ど", "ぢゃ", "でぃ", "どぅ"] {
        assert!(cands.contains(&chars(kana)), "{}", kana);
    }
    assert_eq!(app.typing_status(), vec![SegmentTypingStatus::ok('d')]);
    app.update(key("a"));
    assert_eq!(app.ime().buffer(), &['だ']);
    assert_eq!(app.typing_status(), vec![SegmentTypingStatus::not_ok('だ')]);
    app.update(key("s"));
    assert_eq!(
        app.typing_status(),
        vec![SegmentTypingStatus::not_ok('だ'), SegmentTypingStatus::new('s', false)]
    );
}

#[test]
fn pending_letters_checked_against_next_two_kana() {
    let mut ime = Ime::new();
    for c in "ky".chars() {
        ime.put(c).unwrap();
    }
    let cands = ime.candidates();
    let ok = typing_status_of(ime.buffer(), &cands, &chars("きょう"));
    assert_eq!(ok, vec![SegmentTypingStatus::ok('k'), SegmentTypingStatus::ok('y')]);
    let bad = typing_status_of(ime.buffer(), &cands, &chars("かさ"));
    assert!(bad.iter().all(|s| !s.ok));
    let past_end = typing_status_of(&['か', 'き'], &cands, &chars("か"));
    assert_eq!(past_end, vec![SegmentTypingStatus::ok('か'), SegmentTypingStatus::not_ok('き')]);
}

#[test]
fn backspace_and_other_keys() {
    let mut app = App::new(vec![Sentence::new(vec![segment("家", "いえ")])]);
    app.update(key("k"));
    app.update(key("Shift"));
    assert_eq!(app.ime().buffer(), &['k']);
    app.update(key("Backspace"));
    assert!(app.ime().buffer().is_empty());
}

#[test]
fn last_segment_moves_to_next_sentence() {
    let first = Sentence::new(vec![segment("胃", "い")]);
    let second = Sentence::new(vec![segment("絵", "え")]);
    let mut app = App::new(vec![first, second]);
    app.update(key("i"));
    assert!(!app.is_finished());
    assert_eq!(app.sentence().current_segment().hira(), &['え']);
    app.update(key("e"));
    assert!(app.is_finished());
    assert!(!app.update(key("a")));
}

#[test]
fn sentence_cursor() {
    let mut s = Sentence::new(vec![segment("日本", "にほん"), segment("は", "は"), segment("国", "くに")]);
    assert_eq!(s.typed_segments().len(), 0);
    assert_eq!(s.untyped_segments().len(), 2);
    assert!(s.advance_segment());
    assert_eq!(s.current_segment().origin(), &['は']);
    assert_eq!(s.typed_segments().len(), 1);
    assert_eq!(s.untyped_segments().len(), 1);
    assert!(s.advance_segment());
    assert!(!s.advance_segment());
    assert_eq!(s.current_segment().hira(), &['く', 'に']);
    assert_eq!(s.untyped_segments().len(), 0);
    assert_eq!(s.segments().len(), 3);
}

#[test]
fn marked_sentence_checks() {
    let ok = markup::Sentence::new("これは|試/作/品|です", "これは|し/さく/ひん|です");
    assert!(ok.is_ok());
    assert_eq!(ok.unwrap().hira().len(), 14);
    assert_eq!(
        markup::Sentence::new("a|b|", "a|b").err(),
        Some(MarkupError::GroupMarkerMismatch)
    );
    assert_eq!(markup::Sentence::new("a/b", "ab").err(), Some(MarkupError::SeparatorMismatch));
    assert_eq!(markup::Sentence::new("a|b", "c|d").err(), Some(MarkupError::UnpairedGroupMarker));
}

#[test]
fn marked_sentence_session() {
    let s = markup::Sentence::new("|試/作|", "|し/さく|").unwrap();
    let mut app = markup::App::new(s);
    assert!(app.update(key("s")));
    assert!(app.update(key("i")));
    assert_eq!(app.ime().buffer(), &['し']);
    assert!(app.update(key("Backspace")));
    assert!(app.ime().buffer().is_empty());
    assert_eq!(app.sentence().origin().len(), 5);
}

#[test]
fn pair_equality() {
    assert!(eq((1, 1)));
    assert!(!eq(('a', 'b')));
    assert!(eq_ref(&("x", "x")));
    assert!(!eq_ref(&(2u8, 3u8)));
}

#[test]
fn stray_letter_before_kana_is_wrong() {
    let mut ime = Ime::new();
    for c in "xka".chars() {
        ime.put(c).unwrap();
    }
    assert_eq!(ime.buffer(), &['x', 'か']);
    let cands = ime.candidates();
    let status = typing_status_of(ime.buffer(), &cands, &chars("あ"));
    assert_eq!(status, vec![SegmentTypingStatus::not_ok('x'), SegmentTypingStatus::not_ok('か')]);
    let status = typing_status_of(ime.buffer(), &cands, &chars("xか"));
    assert_eq!(status, vec![SegmentTypingStatus::ok('x'), SegmentTypingStatus::ok('か')]);
}
