use snips_nlu_ontology::builtin_entity::BuiltinEntityKind;
use snips_nlu_ontology::builtin_entity::EntityRange;
use snips_nlu_ontology::conversion::RawMatch;
use snips_nlu_ontology::conversion::RawValue;
use snips_nlu_ontology::errors::ExtractError;
use snips_nlu_ontology::extraction::extract_entities;
use snips_nlu_ontology::extraction::extract_from_engine_output;
use snips_nlu_ontology::extraction::resolve_kinds;
use snips_nlu_ontology::language::Language;
use snips_nlu_ontology::ontology::FloatValue;
use snips_nlu_ontology::ontology::SlotValue;

fn float(x: f64) -> FloatValue {
    FloatValue { bits: x.to_bits() }
}

fn number_raw(value: &str, start: usize, end: usize, n: f64) -> RawMatch {
    RawMatch {
        kind: BuiltinEntityKind::Number,
        value: value.to_string(),
        range: EntityRange { start, end },
        raw_value: RawValue::Number { value: float(n) },
    }
}

fn duration_hours_raw(value: &str, start: usize, end: usize, hours: i64) -> RawMatch {
    RawMatch {
        kind: BuiltinEntityKind::Duration,
        value: value.to_string(),
        range: EntityRange { start, end },
        raw_value: RawValue::Duration {
            years: None,
            quarters: None,
            months: None,
            weeks: None,
            days: None,
            hours: Some(hours),
            minutes: None,
            seconds: None,
            precision: None,
        },
    }
}

#[test]
fn test_resolve_kinds() {
    let all = BuiltinEntityKind::all();
    assert_eq!(all, resolve_kinds(Language::EN, None));

    let mut without_percentage = all.clone();
    without_percentage.retain(|k| *k != BuiltinEntityKind::Percentage);
    assert_eq!(without_percentage, resolve_kinds(Language::KO, None));

    let requested = vec![BuiltinEntityKind::Duration, BuiltinEntityKind::Number];
    assert_eq!(
        vec![BuiltinEntityKind::Duration, BuiltinEntityKind::Number],
        resolve_kinds(Language::EN, Some(&requested))
    );
}

#[test]
fn test_same_start_longer_match_first() {
    // engine reports the shorter span first
    let matches = vec![
        number_raw("twenty", 0, 6, 20.0),
        number_raw("twenty one", 0, 10, 21.0),
        number_raw("one", 7, 10, 1.0),
    ];
    let kinds = vec![BuiltinEntityKind::Number];
    let entities = extract_entities(&kinds, matches);
    assert_eq!(3, entities.len());
    assert_eq!("twenty one", entities[0].value);
    assert_eq!("twenty", entities[1].value);
    assert_eq!("one", entities[2].value);
}

#[test]
fn test_output_sorted_by_start_offset() {
    let matches = vec![
        number_raw("two", 10, 13, 2.0),
        number_raw("one", 0, 3, 1.0),
        number_raw("three", 20, 25, 3.0),
    ];
    let kinds = vec![BuiltinEntityKind::Number];
    let entities = extract_entities(&kinds, matches);
    let starts: Vec<usize> = entities.iter().map(|e| e.range.start).collect();
    assert_eq!(vec![0, 10, 20], starts);
}

#[test]
fn test_unrequested_kind_is_dropped() {
    let matches = vec![
        number_raw("21", 0, 2, 21.0),
        duration_hours_raw("1 hour", 5, 11, 1),
    ];
    let kinds = vec![BuiltinEntityKind::Duration];
    let entities = extract_entities(&kinds, matches);
    assert_eq!(1, entities.len());
    assert_eq!("1 hour", entities[0].value);
}

#[test]
fn test_failed_conversion_is_dropped_not_fatal() {
    let matches = vec![
        duration_hours_raw("-1 hour", 0, 7, -1),
        number_raw("21", 10, 12, 21.0),
    ];
    let kinds = BuiltinEntityKind::all();
    let entities = extract_entities(&kinds, matches);
    assert_eq!(1, entities.len());
    assert_eq!("21", entities[0].value);
    assert_eq!(BuiltinEntityKind::Number, entities[0].entity_kind);
}

#[test]
fn test_korean_percentage_yields_empty_without_error() {
    let matches = vec![RawMatch {
        kind: BuiltinEntityKind::Percentage,
        value: "20%".to_string(),
        range: EntityRange { start: 0, end: 3 },
        raw_value: RawValue::Percentage { value: float(20.0) },
    }];
    let requested = vec![BuiltinEntityKind::Percentage];
    let result = extract_from_engine_output(Language::KO, Some(&requested), Ok(matches));
    assert_eq!(Ok(vec![]), result);
}

#[test]
fn test_engine_failure_fails_the_call() {
    let result = extract_from_engine_output(
        Language::EN,
        None,
        Err("the engine could not be built".to_string()),
    );
    assert_eq!(
        Err(ExtractError::Engine { message: "the engine could not be built".to_string() }),
        result
    );
}

#[test]
fn test_one_hour_duration_entity() {
    // "I'll be there in 1 hour": the engine reports one duration match
    let text = "I'll be there in 1 hour";
    let start = text.find("1 hour").unwrap();
    let end = start + "1 hour".len();
    let matches = vec![duration_hours_raw("1 hour", start, end, 1)];
    let entities = extract_from_engine_output(Language::EN, None, Ok(matches)).unwrap();
    assert_eq!(1, entities.len());
    let entity = &entities[0];
    assert_eq!("1 hour", entity.value);
    assert_eq!(&text[entity.range.start..entity.range.end], entity.value);
    assert_eq!(BuiltinEntityKind::Duration, entity.entity_kind);
    match &entity.entity {
        SlotValue::Duration(d) => {
            assert_eq!(1, d.hours);
            assert_eq!(0, d.years);
            assert_eq!(0, d.quarters);
            assert_eq!(0, d.months);
            assert_eq!(0, d.weeks);
            assert_eq!(0, d.days);
            assert_eq!(0, d.minutes);
            assert_eq!(0, d.seconds);
        },
        other => panic!("expected a duration, got {:?}", other),
    }
}
