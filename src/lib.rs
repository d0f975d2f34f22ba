//! Incremental romaji-to-hiragana conversion for a typing trainer: a
//! transliteration table, a conversion engine, a model of target phrases and
//! an evaluator that marks typed characters right or wrong.
pub mod candidates;
pub mod table;
pub mod ime;
pub mod phrase;
pub mod typing;
pub mod markup;
pub mod ext;
