//! Lemmatization bookkeeping for a search engine: which dictionaries filled an
//! index, how they differ from the loaded ones, which language a word belongs to,
//! and which forms of a word are stored.

pub mod text;
pub mod generations;
pub mod mismatch;
pub mod language;
pub mod lemmatizer;
pub mod resolve;
pub mod forms;
pub mod checks;
pub mod order;
pub mod locales;
