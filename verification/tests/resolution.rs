use std::collections::HashMap;

use lemmatizer::language::Language;
use lemmatizer::resolve::{Action, Resolver, Source, Weight};

/// What each language's dictionary says of the word: where it has it with
/// rules off, and whether its rules change it.
type Dictionaries = HashMap<Language, (Source, bool)>;

fn drive(candidates: &[Language], dictionaries: &Dictionaries) -> (Option<Language>, Vec<Action>) {
    let mut resolver = Resolver::new(candidates);
    let mut asked = Vec::new();
    loop {
        let action = resolver.next();
        match action {
            Action::AskStored(language) => {
                asked.push(action);
                resolver.stored(dictionaries.get(&language).map(|d| d.0));
            }
            Action::AskRule(language) => {
                asked.push(action);
                resolver.rule(dictionaries.get(&language).map(|d| d.1));
            }
            Action::Done(found) => return (found, asked),
        }
    }
}

#[test]
fn the_corpus_outweighs_an_external_reference() {
    let mut d = Dictionaries::new();
    d.insert(Language::Eng, (Source::External, false));
    d.insert(Language::Fra, (Source::Corpus, false));
    assert_eq!(drive(&[Language::Eng, Language::Fra], &d).0, Some(Language::Fra));
    assert_eq!(drive(&[Language::Fra, Language::Eng], &d).0, Some(Language::Fra));
}

#[test]
fn with_equal_weight_the_smallest_language_wins_in_any_order() {
    let mut d = Dictionaries::new();
    d.insert(Language::Eng, (Source::Corpus, false));
    d.insert(Language::Fra, (Source::Corpus, false));
    d.insert(Language::Deu, (Source::ExternalLower, false));
    assert_eq!(drive(&[Language::Fra, Language::Deu, Language::Eng], &d).0, Some(Language::Eng));
    assert_eq!(drive(&[Language::Eng, Language::Fra, Language::Deu], &d).0, Some(Language::Eng));
}

#[test]
fn external_references_decide_by_order_of_languages() {
    let mut d = Dictionaries::new();
    d.insert(Language::Deu, (Source::External, false));
    d.insert(Language::Rus, (Source::ExternalLower, false));
    assert_eq!(drive(&[Language::Deu, Language::Rus], &d).0, Some(Language::Rus));
}

#[test]
fn a_rule_decides_when_nobody_has_the_word() {
    let mut d = Dictionaries::new();
    d.insert(Language::Deu, (Source::Unknown, true));
    d.insert(Language::Rus, (Source::Unknown, true));
    d.insert(Language::Eng, (Source::Unknown, false));
    let (found, asked) = drive(&[Language::Deu, Language::Eng, Language::Rus], &d);
    assert_eq!(found, Some(Language::Rus));
    assert!(asked.contains(&Action::AskRule(Language::Deu)));
}

#[test]
fn nothing_to_say_when_no_rule_fires() {
    let mut d = Dictionaries::new();
    d.insert(Language::Deu, (Source::Unknown, false));
    assert_eq!(drive(&[Language::Deu, Language::Bre], &d).0, None);
    assert_eq!(drive(&[], &d).0, None);
}

#[test]
fn a_language_without_dictionary_is_passed_over() {
    let mut d = Dictionaries::new();
    d.insert(Language::Fra, (Source::External, false));
    assert_eq!(drive(&[Language::Eng, Language::Fra], &d).0, Some(Language::Fra));
}

#[test]
fn a_candidate_that_cannot_win_is_not_asked() {
    let mut d = Dictionaries::new();
    d.insert(Language::Eng, (Source::Corpus, false));
    d.insert(Language::Fra, (Source::Corpus, false));
    let (found, asked) = drive(&[Language::Eng, Language::Fra, Language::Deu], &d);
    assert_eq!(found, Some(Language::Eng));
    assert_eq!(asked, vec![Action::AskStored(Language::Eng)]);
}

#[test]
fn an_answer_to_no_question_changes_nothing() {
    let mut resolver = Resolver::new(&[Language::Eng]);
    resolver.stored(Some(Source::Corpus));
    resolver.rule(Some(true));
    assert_eq!(resolver.next(), Action::AskStored(Language::Eng));
    assert_eq!(resolver.next(), Action::AskStored(Language::Eng));
    resolver.rule(Some(true));
    resolver.stored(None);
    assert_eq!(resolver.next(), Action::AskRule(Language::Eng));
    resolver.rule(Some(false));
    assert_eq!(resolver.next(), Action::Done(None));
    assert_eq!(resolver.next(), Action::Done(None));
}

#[test]
fn weights_follow_the_source() {
    assert_eq!(Weight::of(Source::Corpus), Weight::Corpus);
    assert_eq!(Weight::of(Source::External), Weight::External);
    assert_eq!(Weight::of(Source::ExternalLower), Weight::External);
}

#[test]
fn languages_are_found_by_code() {
    assert_eq!(Language::from_code("eng"), Some(Language::Eng));
    assert_eq!(Language::from_code("ENG"), Some(Language::Eng));
    assert_eq!(Language::from_code("zho"), Some(Language::Zho));
    assert_eq!(Language::from_code("zzz"), None);
    assert_eq!(Language::from_iso_code("bre"), Some(Language::Bre));
    assert_eq!(Language::from_iso_code("BRE"), None);
    assert_eq!(Language::Eng.code(), "eng");
    assert_eq!(Language::Zho.rank(), 0);
    assert_eq!(Language::by_rank(Language::Cmn.rank()), Language::Cmn);
}

#[test]
fn a_settled_word_asks_one_dictionary_and_no_rule() {
    let mut d = Dictionaries::new();
    d.insert(Language::Eng, (Source::Corpus, true));
    d.insert(Language::Rus, (Source::Corpus, true));
    d.insert(Language::Fra, (Source::External, true));
    let (found, asked) = drive(&[Language::Zho, Language::Eng, Language::Rus, Language::Fra], &d);
    assert_eq!(found, Some(Language::Eng));
    assert_eq!(asked, vec![Action::AskStored(Language::Zho), Action::AskStored(Language::Eng)]);
}

#[test]
fn candidates_are_asked_in_the_order_of_the_list() {
    let mut d = Dictionaries::new();
    d.insert(Language::Fra, (Source::Unknown, false));
    d.insert(Language::Eng, (Source::Unknown, true));
    let (found, asked) = drive(&[Language::Fra, Language::Eng], &d);
    assert_eq!(found, Some(Language::Eng));
    assert_eq!(
        asked,
        vec![
            Action::AskStored(Language::Fra),
            Action::AskStored(Language::Eng),
            Action::AskRule(Language::Fra),
            Action::AskRule(Language::Eng),
        ]
    );
}
