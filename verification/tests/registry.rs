use snips_nlu_ontology::builtin_entity::BuiltinEntityKind;
use snips_nlu_ontology::language::Language;

#[test]
fn test_result_descriptions() {
    // Given
    let description = BuiltinEntityKind::Percentage.result_description().unwrap();

    // When/Then
    let expected_description = "[\n  {\n    \"kind\": \"Percentage\",\n    \"value\": 20.0\n  }\n]";
    assert_eq!(expected_description, description);
}

#[test]
fn test_identifiers_are_stable() {
    assert_eq!("snips/amountOfMoney", BuiltinEntityKind::AmountOfMoney.identifier());
    assert_eq!("snips/duration", BuiltinEntityKind::Duration.identifier());
    assert_eq!("snips/number", BuiltinEntityKind::Number.identifier());
    assert_eq!("snips/ordinal", BuiltinEntityKind::Ordinal.identifier());
    assert_eq!("snips/temperature", BuiltinEntityKind::Temperature.identifier());
    assert_eq!("snips/datetime", BuiltinEntityKind::Time.identifier());
    assert_eq!("snips/percentage", BuiltinEntityKind::Percentage.identifier());
}

#[test]
fn test_identifier_round_trip() {
    for kind in BuiltinEntityKind::all() {
        let found = BuiltinEntityKind::from_identifier(kind.identifier()).unwrap();
        assert_eq!(kind, found);
    }
}

#[test]
fn test_from_identifier_rejects_unknown() {
    let err = BuiltinEntityKind::from_identifier("snips/somethingElse").unwrap_err();
    assert_eq!("snips/somethingElse", err.identifier);
    assert!(BuiltinEntityKind::from_identifier("").is_err());
    assert!(BuiltinEntityKind::from_identifier("snips/Number").is_err());
}

#[test]
fn test_descriptions() {
    assert_eq!("Matches time duration", BuiltinEntityKind::Duration.description());
    assert_eq!(
        "Matches date, time, intervals or date and time together",
        BuiltinEntityKind::Time.description()
    );
}

#[test]
fn test_supported_languages() {
    let six = vec![
        Language::DE,
        Language::EN,
        Language::ES,
        Language::FR,
        Language::JA,
        Language::KO,
    ];
    for kind in BuiltinEntityKind::all() {
        let supported = kind.supported_languages();
        if kind == BuiltinEntityKind::Percentage {
            assert_eq!(
                vec![Language::DE, Language::EN, Language::ES, Language::FR, Language::JA],
                supported
            );
            assert!(!supported.contains(&Language::KO));
        } else {
            assert_eq!(six, supported);
        }
    }
}

#[test]
fn test_examples_cover_supported_languages() {
    for kind in BuiltinEntityKind::all() {
        for language in kind.supported_languages() {
            let examples = kind.examples(language);
            let documented_empty =
                language == Language::JA && kind != BuiltinEntityKind::Number;
            if documented_empty {
                assert!(examples.is_empty());
            } else {
                assert!(!examples.is_empty());
            }
        }
    }
}

#[test]
fn test_examples_contents() {
    assert_eq!(
        vec!["1h", "3 months", "half an hour", "8 years and two days"],
        BuiltinEntityKind::Duration.examples(Language::EN)
    );
    assert_eq!(
        vec!["十二", "二千五", "四千三百二"],
        BuiltinEntityKind::Number.examples(Language::JA)
    );
    assert!(BuiltinEntityKind::Percentage.examples(Language::KO).is_empty());
    assert_eq!(
        vec!["25%", "zwanzig Prozent", "zwei tausend und fünfzig Prozent"],
        BuiltinEntityKind::Percentage.examples(Language::DE)
    );
}

#[test]
fn test_all_kinds_order() {
    let all = BuiltinEntityKind::all();
    assert_eq!(7, all.len());
    assert_eq!(BuiltinEntityKind::AmountOfMoney, all[0]);
    assert_eq!(BuiltinEntityKind::Duration, all[1]);
    assert_eq!(BuiltinEntityKind::Number, all[2]);
    assert_eq!(BuiltinEntityKind::Ordinal, all[3]);
    assert_eq!(BuiltinEntityKind::Temperature, all[4]);
    assert_eq!(BuiltinEntityKind::Time, all[5]);
    assert_eq!(BuiltinEntityKind::Percentage, all[6]);
}

#[test]
fn test_result_description_for_time() {
    let description = BuiltinEntityKind::Time.result_description().unwrap();
    let expected = "[\n  {\n    \"kind\": \"InstantTime\",\n    \"value\": \"2017-06-13 18:00:00 +02:00\",\n    \"grain\": \"Hour\",\n    \"precision\": \"Exact\"\n  },\n  {\n    \"kind\": \"TimeInterval\",\n    \"from\": \"2017-06-07 18:00:00 +02:00\",\n    \"to\": \"2017-06-08 00:00:00 +02:00\"\n  }\n]";
    assert_eq!(expected, description);
}
