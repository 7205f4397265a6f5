use lemmatizer::language::Language;
use lemmatizer::locales::{AttributePatterns, LocalizedAttributesRule, LocalizedAttributesRuleView, Locale};

#[test]
fn locales_read_both_codes() {
    assert_eq!(Locale::parse("en").unwrap(), Locale::En);
    assert_eq!(Locale::parse("eng").unwrap(), Locale::Eng);
    assert_eq!(Locale::parse("cmn").unwrap(), Locale::Cmn);
    assert_eq!("fr".parse::<Locale>().unwrap(), Locale::Fr);
    assert_eq!(Locale::En.to_language(), Language::Eng);
    assert_eq!(Locale::Fa.to_language(), Language::Pes);
    assert_eq!(Locale::from_language(Language::Eng), Locale::Eng);
    assert_eq!(Language::from(Locale::Zh), Language::Zho);
    assert_eq!(Locale::from(Language::Zho), Locale::Zho);
}

#[test]
fn every_language_survives_its_locale() {
    for rank in 0..lemmatizer::language::LANGUAGE_COUNT {
        let language = Language::by_rank(rank);
        assert_eq!(Locale::from_language(language).to_language(), language);
    }
}

#[test]
fn an_unknown_locale_lists_the_valid_ones() {
    let error = Locale::parse("xx").unwrap_err();
    assert_eq!(error.invalid_locale, "xx");
    let message = error.message();
    let prefix = "Unsupported locale `xx`, expected one of ";
    assert!(message.starts_with(prefix));
    let listed: Vec<&str> = message[prefix.len()..].split(", ").collect();
    assert_eq!(listed.len(), 276);
    assert_eq!(&listed[..4], &["ab", "af", "ak", "am"]);
    assert_eq!(listed[listed.len() - 1], "zza");
    for pair in listed.windows(2) {
        assert!((pair[0].len(), pair[0]) < (pair[1].len(), pair[1]));
    }
    for code in &listed {
        assert!(Locale::parse(code).is_ok());
    }
}

#[test]
fn rules_convert_both_ways() {
    let rule = LocalizedAttributesRule {
        attribute_patterns: AttributePatterns { patterns: vec!["title_*".to_owned()] },
        locales: vec![Language::Eng, Language::Jpn],
    };
    let view = LocalizedAttributesRuleView::from(rule);
    assert_eq!(view.locales, vec![Locale::Eng, Locale::Jpn]);
    assert_eq!(view.attribute_patterns.patterns, vec!["title_*".to_owned()]);
    let written = LocalizedAttributesRuleView {
        attribute_patterns: AttributePatterns { patterns: vec!["*_ja".to_owned()] },
        locales: vec![Locale::Ja, Locale::En],
    };
    let rule = LocalizedAttributesRule::from(written);
    assert_eq!(rule.locales, vec![Language::Jpn, Language::Eng]);
}

#[test]
fn locales_are_ordered_and_rules_compare() {
    assert!(Locale::Af < Locale::Ak);
    assert_eq!(Locale::En.max(Locale::Af), Locale::En);
    let view = LocalizedAttributesRuleView {
        attribute_patterns: AttributePatterns { patterns: vec!["title_*".to_owned()] },
        locales: vec![Locale::En, Locale::Jpn],
    };
    let copy = view.clone();
    assert_eq!(copy, view);
    assert!(format!("{:?}", view).contains("title_*"));
}
