use lemmatizer::forms::{indexed_forms, Token, MAX_WORD_LENGTH};
use lemmatizer::generations::Generations;
use lemmatizer::mismatch::Mismatch;

fn token(lemma: &str, surface: Option<&str>) -> Token {
    Token { lemma: lemma.to_owned(), surface: surface.map(|surface| surface.to_owned()) }
}

fn generations(pairs: &[(&str, &str)]) -> Generations {
    let mut map = Generations::new();
    for (code, generation) in pairs {
        map.insert((*code).to_owned(), (*generation).to_owned());
    }
    map
}

#[test]
fn a_word_the_dictionary_left_alone_goes_in_once() {
    assert_eq!(indexed_forms(&token("рама", None)), Some(("рама", None)));
}

#[test]
fn a_lemmatized_word_goes_in_as_written_and_as_lemma() {
    assert_eq!(indexed_forms(&token("мыть", Some("мыла"))), Some(("мыла", Some("мыть"))));
}

#[test]
fn a_form_that_does_not_fit_the_key_is_dropped_alone() {
    let long = "я".repeat(MAX_WORD_LENGTH);
    // The lemma does not fit: the written form still goes in.
    assert_eq!(indexed_forms(&token(&long, Some("мыла"))), Some(("мыла", None)));
    // The written form does not fit: the lemma takes its place, not nothing.
    assert_eq!(indexed_forms(&token("мыть", Some(&long))), Some(("мыть", None)));
    // Nothing fits: there is no word.
    assert_eq!(indexed_forms(&token(&long, Some(&long))), None);
}

#[test]
fn an_empty_word_is_not_stored() {
    assert_eq!(indexed_forms(&token("   ", None)), None);
    assert_eq!(indexed_forms(&token("мыть", Some("  "))), Some(("мыть", None)));
}

#[test]
fn mismatch_names_every_way_two_bundles_can_disagree() {
    let recorded = generations(&[("rus", "g1"), ("fin", "g1"), ("deu", "g1")]);
    let loaded = generations(&[("rus", "g1"), ("fin", "g2"), ("spa", "g1")]);
    assert_eq!(
        Mismatch::between(&recorded, &loaded).to_string(),
        "missing: deu; changed: fin"
    );
}

#[test]
fn a_bundle_that_only_grew_is_no_mismatch() {
    let recorded = generations(&[("rus", "g1")]);
    let loaded = generations(&[("rus", "g1"), ("bre", "g1"), ("fin", "g1")]);
    assert!(Mismatch::between(&recorded, &loaded).is_empty());
}

#[test]
fn a_bundle_that_vanished_is_reported_whole() {
    let recorded = generations(&[("rus", "g1"), ("fin", "g1")]);
    assert_eq!(
        Mismatch::between(&recorded, &Generations::new()).to_string(),
        "missing: fin, rus"
    );
}

#[test]
fn long_lists_are_summed_up_instead_of_printed() {
    let codes: Vec<(String, String)> =
        (0..12).map(|index| (format!("l{index:02}"), "g1".to_owned())).collect();
    let mut recorded = Generations::new();
    for (code, generation) in codes {
        recorded.insert(code, generation);
    }
    assert_eq!(
        Mismatch::between(&recorded, &Generations::new()).to_string(),
        "missing: l00, l01, l02, l03, l04, l05, l06, l07 and 4 more"
    );
}
