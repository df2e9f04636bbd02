use snips_nlu_ontology::builtin_entity::BuiltinEntityKind;
use snips_nlu_ontology::builtin_entity::EntityRange;
use snips_nlu_ontology::conversion::convert_match;
use snips_nlu_ontology::conversion::RawMatch;
use snips_nlu_ontology::conversion::RawValue;
use snips_nlu_ontology::errors::ConversionError;
use snips_nlu_ontology::ontology::FloatValue;
use snips_nlu_ontology::ontology::Grain;
use snips_nlu_ontology::ontology::Precision;
use snips_nlu_ontology::ontology::SlotValue;

fn float(x: f64) -> FloatValue {
    FloatValue { bits: x.to_bits() }
}

fn duration_raw(months: Option<i64>, seconds: Option<i64>) -> RawMatch {
    RawMatch {
        kind: BuiltinEntityKind::Duration,
        value: "3 months".to_string(),
        range: EntityRange { start: 0, end: 8 },
        raw_value: RawValue::Duration {
            years: None,
            quarters: None,
            months,
            weeks: None,
            days: None,
            hours: None,
            minutes: None,
            seconds,
            precision: None,
        },
    }
}

#[test]
fn test_duration_defaults_missing_components_to_zero() {
    let entity = convert_match(duration_raw(Some(3), None)).unwrap();
    assert_eq!("3 months", entity.value);
    assert_eq!(0, entity.range.start);
    assert_eq!(8, entity.range.end);
    assert_eq!(BuiltinEntityKind::Duration, entity.entity_kind);
    match entity.entity {
        SlotValue::Duration(d) => {
            assert_eq!(0, d.years);
            assert_eq!(0, d.quarters);
            assert_eq!(3, d.months);
            assert_eq!(0, d.weeks);
            assert_eq!(0, d.days);
            assert_eq!(0, d.hours);
            assert_eq!(0, d.minutes);
            assert_eq!(0, d.seconds);
            assert_eq!(Precision::Exact, d.precision);
        },
        other => panic!("expected a duration, got {:?}", other),
    }
}

#[test]
fn test_negative_duration_component_is_rejected() {
    let err = convert_match(duration_raw(Some(3), Some(-2))).unwrap_err();
    assert_eq!(ConversionError::NegativeDurationComponent, err);
}

#[test]
fn test_interval_without_bounds_is_rejected() {
    let raw = RawMatch {
        kind: BuiltinEntityKind::Time,
        value: "sometime".to_string(),
        range: EntityRange { start: 0, end: 8 },
        raw_value: RawValue::TimeInterval { from: None, to: None },
    };
    let err = convert_match(raw).unwrap_err();
    assert_eq!(ConversionError::EmptyTimeInterval, err);
}

#[test]
fn test_interval_with_one_bound_converts() {
    let raw = RawMatch {
        kind: BuiltinEntityKind::Time,
        value: "until 8pm".to_string(),
        range: EntityRange { start: 0, end: 9 },
        raw_value: RawValue::TimeInterval {
            from: None,
            to: Some("2017-06-08 20:00:00 +02:00".to_string()),
        },
    };
    let entity = convert_match(raw).unwrap();
    match entity.entity {
        SlotValue::TimeInterval(i) => {
            assert_eq!(None, i.from);
            assert_eq!(Some("2017-06-08 20:00:00 +02:00".to_string()), i.to);
        },
        other => panic!("expected an interval, got {:?}", other),
    }
}

#[test]
fn test_kind_mismatch_is_rejected() {
    let raw = RawMatch {
        kind: BuiltinEntityKind::Number,
        value: "20%".to_string(),
        range: EntityRange { start: 0, end: 3 },
        raw_value: RawValue::Percentage { value: float(20.0) },
    };
    let err = convert_match(raw).unwrap_err();
    assert_eq!(ConversionError::KindMismatch, err);
}

#[test]
fn test_empty_unit_becomes_no_unit() {
    let raw = RawMatch {
        kind: BuiltinEntityKind::Temperature,
        value: "23 degrees".to_string(),
        range: EntityRange { start: 0, end: 10 },
        raw_value: RawValue::Temperature { value: float(23.0), unit: Some(String::new()) },
    };
    let entity = convert_match(raw).unwrap();
    match entity.entity {
        SlotValue::Temperature(t) => {
            assert_eq!(float(23.0), t.value);
            assert_eq!(None, t.unit);
        },
        other => panic!("expected a temperature, got {:?}", other),
    }
}

#[test]
fn test_money_precision_flag_is_kept_and_defaulted() {
    let approx = RawMatch {
        kind: BuiltinEntityKind::AmountOfMoney,
        value: "around 5€".to_string(),
        range: EntityRange { start: 0, end: 11 },
        raw_value: RawValue::AmountOfMoney {
            value: float(5.0),
            precision: Some(Precision::Approximate),
            unit: Some("€".to_string()),
        },
    };
    let entity = convert_match(approx).unwrap();
    match entity.entity {
        SlotValue::AmountOfMoney(m) => {
            assert_eq!(Precision::Approximate, m.precision);
            assert_eq!(Some("€".to_string()), m.unit);
            assert_eq!(float(5.0), m.value);
        },
        other => panic!("expected money, got {:?}", other),
    }

    let defaulted = RawMatch {
        kind: BuiltinEntityKind::AmountOfMoney,
        value: "10$".to_string(),
        range: EntityRange { start: 0, end: 3 },
        raw_value: RawValue::AmountOfMoney { value: float(10.0), precision: None, unit: None },
    };
    let entity = convert_match(defaulted).unwrap();
    match entity.entity {
        SlotValue::AmountOfMoney(m) => {
            assert_eq!(Precision::Exact, m.precision);
            assert_eq!(None, m.unit);
        },
        other => panic!("expected money, got {:?}", other),
    }
}

#[test]
fn test_instant_time_keeps_grain_and_value() {
    let raw = RawMatch {
        kind: BuiltinEntityKind::Time,
        value: "tonight at 6".to_string(),
        range: EntityRange { start: 0, end: 12 },
        raw_value: RawValue::InstantTime {
            value: "2017-06-13 18:00:00 +02:00".to_string(),
            grain: Grain::Hour,
            precision: None,
        },
    };
    let entity = convert_match(raw).unwrap();
    assert_eq!(BuiltinEntityKind::Time, entity.entity_kind);
    match entity.entity {
        SlotValue::InstantTime(t) => {
            assert_eq!("2017-06-13 18:00:00 +02:00", t.value);
            assert_eq!(Grain::Hour, t.grain);
            assert_eq!(Precision::Exact, t.precision);
        },
        other => panic!("expected an instant, got {:?}", other),
    }
}
