use std::cell::Cell;

use lemmatizer::checks::{check_index, IndexChecks};
use lemmatizer::forms::{indexed_forms, Token};
use lemmatizer::generations::Generations;
use lemmatizer::language::Language;
use lemmatizer::lemmatizer::{generations, generations_of, Lemmatizer};
use lemmatizer::mismatch::Mismatch;

fn stamps(pairs: &[(&str, &str)]) -> Generations {
    let mut map = Generations::new();
    for (code, generation) in pairs {
        map.insert((*code).to_owned(), (*generation).to_owned());
    }
    map
}

fn bundle() -> Lemmatizer {
    let mut lemmatizer = Lemmatizer::new();
    lemmatizer.add(Language::Rus, "rus".to_owned(), Some("g1".to_owned()));
    lemmatizer.add(Language::Fin, "fin".to_owned(), Some("g2".to_owned()));
    lemmatizer.add(Language::Deu, "deu".to_owned(), None);
    lemmatizer
}

#[test]
fn generations_keep_codes_in_order_and_the_last_write() {
    let mut g = stamps(&[("rus", "g1"), ("fin", "g1"), ("deu", "g1")]);
    g.insert("fin".to_owned(), "g2".to_owned());
    assert_eq!(g.count(), 3);
    assert_eq!(g.entry(0), ("deu", "g1"));
    assert_eq!(g.entry(1), ("fin", "g2"));
    assert_eq!(g.entry(2), ("rus", "g1"));
    assert_eq!(g.get("fin").map(|s| s.as_str()), Some("g2"));
    assert_eq!(g.get("spa"), None);
    let copy = g.clone();
    assert_eq!(copy.get("rus").map(|s| s.as_str()), Some("g1"));
}

#[test]
fn the_loaded_generations_are_those_of_the_bundle() {
    let lemmatizer = bundle();
    let loaded = generations(Some(&lemmatizer));
    assert_eq!(loaded.count(), 2);
    assert_eq!(loaded.get("fin").map(|s| s.as_str()), Some("g2"));
    assert_eq!(generations(None).count(), 0);
    let mut languages = lemmatizer.languages();
    languages.sort();
    assert_eq!(languages, vec![Language::Rus, Language::Deu, Language::Fin]);
    assert_eq!(lemmatizer.code_of(Language::Fin).map(|s| s.as_str()), Some("fin"));
    assert_eq!(lemmatizer.code_of(Language::Spa), None);
}

#[test]
fn a_stamp_holds_only_the_applied_dictionaries() {
    let lemmatizer = bundle();
    let stamp = generations_of(Some(&lemmatizer), &[Language::Fin, Language::Deu, Language::Spa, Language::Fin]);
    assert_eq!(stamp.count(), 1);
    assert_eq!(stamp.entry(0), ("fin", "g2"));
    assert!(Mismatch::between(&stamp, &generations(Some(&lemmatizer))).is_empty());
    assert_eq!(generations_of(None, &[Language::Fin]).count(), 0);
}

#[test]
fn an_index_is_checked_once() {
    let lemmatizer = bundle();
    let mut checks = IndexChecks::new();
    let reads = Cell::new(0);
    let read = || -> Result<Option<Generations>, String> {
        reads.set(reads.get() + 1);
        Ok(Some(stamps(&[("rus", "g0"), ("spa", "g1")])))
    };
    let first = check_index(&mut checks, "movies", 7, Some(&lemmatizer), read);
    assert_eq!(first, Ok(Some("missing: spa; changed: rus".to_owned())));
    let again = check_index(&mut checks, "movies", 7, Some(&lemmatizer), || -> Result<Option<Generations>, String> {
        reads.set(reads.get() + 1);
        Err("not read".to_owned())
    });
    assert_eq!(again, Ok(None));
    assert_eq!(reads.get(), 1);
    // Swapped under the same name: checked anew.
    let swapped = check_index(&mut checks, "movies", 8, Some(&lemmatizer), || -> Result<Option<Generations>, String> {
        Err("unreadable".to_owned())
    });
    assert_eq!(swapped, Err("unreadable".to_owned()));
}

#[test]
fn an_unstamped_or_matching_index_is_passed_over() {
    let lemmatizer = bundle();
    let mut checks = IndexChecks::new();
    let never = check_index(&mut checks, "old", 1, Some(&lemmatizer), || -> Result<Option<Generations>, ()> { Ok(None) });
    assert_eq!(never, Ok(None));
    let same = check_index(&mut checks, "same", 2, Some(&lemmatizer), || -> Result<Option<Generations>, ()> {
        Ok(Some(stamps(&[("fin", "g2")])))
    });
    assert_eq!(same, Ok(None));
    let nothing_loaded = check_index(&mut checks, "bare", 3, None, || -> Result<Option<Generations>, ()> {
        Ok(Some(stamps(&[("fin", "g2")])))
    });
    assert_eq!(nothing_loaded, Ok(Some("missing: fin".to_owned())));
}

#[test]
fn first_checks_mark_pairs() {
    let mut checks = IndexChecks::new();
    assert!(checks.first_check(1, "a"));
    assert!(!checks.first_check(1, "a"));
    assert!(checks.first_check(1, "b"));
    assert!(checks.first_check(2, "a"));
}

#[test]
fn both_lists_are_summed_up_with_exact_counts() {
    let mut recorded = Generations::new();
    let mut loaded = Generations::new();
    for index in 0..20 {
        recorded.insert(format!("m{index:02}"), "g1".to_owned());
    }
    for index in 0..9 {
        recorded.insert(format!("c{index}"), "g1".to_owned());
        loaded.insert(format!("c{index}"), "g2".to_owned());
    }
    assert_eq!(
        Mismatch::between(&recorded, &loaded).to_string(),
        "missing: m00, m01, m02, m03, m04, m05, m06, m07 and 12 more; \
         changed: c0, c1, c2, c3, c4, c5, c6, c7 and 1 more"
    );
    assert_eq!(Mismatch::between(&recorded, &recorded).to_string(), "");
}

#[test]
fn only_changed_codes_are_named_alone() {
    let recorded = stamps(&[("fin", "g1")]);
    let loaded = stamps(&[("fin", "g2")]);
    assert_eq!(Mismatch::between(&recorded, &loaded).to_string(), "changed: fin");
}

#[test]
fn forms_are_trimmed() {
    let token = Token { lemma: " мыть\n".to_owned(), surface: Some("\tмыла ".to_owned()) };
    assert_eq!(indexed_forms(&token), Some(("мыла", Some("мыть"))));
    assert_eq!(token.lemma(), " мыть\n");
    let fits = "a".repeat(250);
    let too_long = "a".repeat(251);
    assert_eq!(indexed_forms(&Token { lemma: fits.clone(), surface: None }), Some((fits.as_str(), None)));
    assert_eq!(indexed_forms(&Token { lemma: too_long, surface: None }), None);
}

#[test]
fn a_dictionary_is_taken_in_only_under_a_known_code() {
    let mut lemmatizer = Lemmatizer::new();
    assert!(lemmatizer.take_in("ENG".to_owned(), Some("g3".to_owned())));
    assert!(!lemmatizer.take_in("xyz".to_owned(), Some("g4".to_owned())));
    assert_eq!(lemmatizer.languages(), vec![Language::Eng]);
    assert_eq!(lemmatizer.code_of(Language::Eng).map(|s| s.as_str()), Some("ENG"));
    assert_eq!(generations(Some(&lemmatizer)).count(), 1);
}

#[test]
fn a_warning_names_the_mismatch() {
    let lemmatizer = bundle();
    let recorded = stamps(&[("rus", "g1"), ("bre", "g1")]);
    assert_eq!(
        lemmatizer::checks::mismatch_warning(&recorded, Some(&lemmatizer)),
        Some("missing: bre".to_owned())
    );
    assert_eq!(lemmatizer::checks::mismatch_warning(&stamps(&[("rus", "g1")]), Some(&lemmatizer)), None);
}

#[test]
fn unicode_white_space_around_a_form_is_dropped() {
    let token = Token { lemma: "\u{3000}\u{85}слово\u{2009}\u{a0}".to_owned(), surface: None };
    assert_eq!(indexed_forms(&token), Some(("слово", None)));
    let blank = Token { lemma: "\u{2028}\u{205f}\u{1680}".to_owned(), surface: None };
    assert_eq!(indexed_forms(&blank), None);
}

fn entries(g: &Generations) -> Vec<(String, String)> {
    (0..g.count()).map(|i| {
        let (code, stamp) = g.entry(i);
        (code.to_owned(), stamp.to_owned())
    }).collect()
}

#[test]
fn every_language_stamps_the_whole_bundle() {
    let lemmatizer = bundle();
    let languages = lemmatizer.languages();
    let all = generations_of(Some(&lemmatizer), &languages);
    assert_eq!(entries(&all), entries(&generations(Some(&lemmatizer))));
    assert_eq!(entries(&all), vec![("fin".to_owned(), "g2".to_owned()), ("rus".to_owned(), "g1".to_owned())]);
}

#[test]
fn a_replaced_dictionary_leaves_its_stamp_out_of_the_languages() {
    let mut lemmatizer = Lemmatizer::new();
    assert!(lemmatizer.take_in("eng".to_owned(), Some("g1".to_owned())));
    assert!(lemmatizer.take_in("ENG".to_owned(), Some("g2".to_owned())));
    let languages = lemmatizer.languages();
    assert_eq!(languages, vec![Language::Eng]);
    assert_eq!(entries(&generations_of(Some(&lemmatizer), &languages)), vec![("ENG".to_owned(), "g2".to_owned())]);
    assert_eq!(generations(Some(&lemmatizer)).count(), 2);
}

#[test]
fn a_first_check_reports_what_was_read() {
    let lemmatizer = bundle();
    let failed: Result<Option<Generations>, &str> = Err("unreadable");
    assert_eq!(lemmatizer::checks::warning_from_records(failed, Some(&lemmatizer)), Err("unreadable"));
    let none: Result<Option<Generations>, &str> = Ok(None);
    assert_eq!(lemmatizer::checks::warning_from_records(none, Some(&lemmatizer)), Ok(None));
    let stale: Result<Option<Generations>, &str> = Ok(Some(stamps(&[("rus", "g0")])));
    assert_eq!(
        lemmatizer::checks::warning_from_records(stale, Some(&lemmatizer)),
        Ok(Some("changed: rus".to_owned()))
    );
}
