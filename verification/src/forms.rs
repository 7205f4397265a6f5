//! The forms of a word that go into an index: the written one and, when a
//! dictionary changed it, its lemma.
//!
//! An index is built around what the documents say: prefix search, exact
//! match, exclusion and ranking work on the written form. The lemma is laid on
//! top, at the same position. Each form is checked on its own: a dictionary may
//! hand out a lemma longer than a key can be, and that is no reason to lose
//! what was written.

use vstd::prelude::*;
use vstd::utf8::encode_utf8;
use crate::text::{trim, trimmed};

verus! {

/// The longest key the store takes, in bytes.
pub const MAX_LMDB_KEY_LENGTH: usize = 500;

/// The longest word that is indexed, in bytes.
pub const MAX_WORD_LENGTH: usize = MAX_LMDB_KEY_LENGTH / 2;

/// A word as the tokenizer hands it over: its normalized form, and the form as
/// written when a dictionary replaced it by its lemma.
pub struct Token {
    /// The normalized word: the lemma, when a dictionary changed the word.
    pub lemma: String,
    /// The word as written, when a dictionary changed it.
    pub surface: Option<String>,
}

impl Token {
    /// The normalized word.
    pub fn lemma(&self) -> (s: &str)
        ensures
            s@ == self.lemma@,
    {
        self.lemma.as_str()
    }

    /// The word as written, when a dictionary changed it.
    pub fn surface(&self) -> (s: Option<&str>)
        ensures
            match s {
                Some(w) => self.surface matches Some(t) && w@ == t@,
                None => self.surface is None,
            },
    {
        match &self.surface {
            Some(s) => Some(s.as_str()),
            None => None,
        }
    }
}

/// The word without surrounding white space, if that is neither empty nor
/// longer than a word may be.
pub open spec fn indexable(word: Seq<char>) -> Option<Seq<char>> {
    let t = trimmed(word);
    if t.len() > 0 && encode_utf8(t).len() <= MAX_WORD_LENGTH {
        Some(t)
    } else {
        None
    }
}

/// The forms stored for a token: the written form if it can be indexed, with
/// the lemma if that can be too; else the lemma alone, if it can be indexed.
pub open spec fn stored_forms(lemma: Seq<char>, surface: Option<Seq<char>>) -> Option<
    (Seq<char>, Option<Seq<char>>),
> {
    let written = match surface {
        Some(s) => indexable(s),
        None => None,
    };
    match written {
        Some(w) => Some((w, indexable(lemma))),
        None => match indexable(lemma) {
            Some(l) => Some((l, None)),
            None => None,
        },
    }
}

fn indexable_form(word: &str) -> (r: Option<&str>)
    ensures
        match r {
            Some(w) => indexable(word@) == Some(w@),
            None => indexable(word@) is None,
        },
{
    let trimmed_word = trim(word);
    if !trimmed_word.is_empty() && trimmed_word.as_bytes().len() <= MAX_WORD_LENGTH {
        Some(trimmed_word)
    } else {
        None
    }
}

/// The forms of a word that go into the index: the written one first and,
/// when the dictionary changed it, the lemma; `None` when neither can be
/// stored.
pub fn indexed_forms<'t>(token: &'t Token) -> (r: Option<(&'t str, Option<&'t str>)>)
    ensures
        match r {
            Some((first, second)) => stored_forms(
                token.lemma@,
                match token.surface {
                    Some(s) => Some(s@),
                    None => None,
                },
            ) == Some((first@, match second {
                Some(s) => Some(s@),
                None => None,
            })),
            None => stored_forms(
                token.lemma@,
                match token.surface {
                    Some(s) => Some(s@),
                    None => None,
                },
            ) is None,
        },
{
    let surface = match token.surface() {
        Some(s) => indexable_form(s),
        None => None,
    };
    let lemma = indexable_form(token.lemma());
    match (surface, lemma) {
        (Some(surface), lemma) => Some((surface, lemma)),
        (None, Some(lemma)) => Some((lemma, None)),
        (None, None) => None,
    }
}

/// Each form is checked on its own: beside a written form that can be indexed
/// stands whatever the lemma alone would be stored as, whatever the lengths of
/// the two; a written form that cannot be indexed leaves what the lemma alone
/// gives. A form stored alone never has a second one.
pub proof fn lemma_each_form_on_its_own(lemma: Seq<char>, surface: Seq<char>)
    ensures
        match stored_forms(surface, None) {
            Some((w, _)) => stored_forms(lemma, Some(surface)) == Some(
                (
                    w,
                    match stored_forms(lemma, None) {
                        Some((l, _)) => Some(l),
                        None => None,
                    },
                ),
            ),
            None => stored_forms(lemma, Some(surface)) == stored_forms(lemma, None),
        },
        stored_forms(lemma, None) matches Some((_, second)) ==> second is None,
{
}

} // verus!
