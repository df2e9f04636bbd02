use vstd::prelude::*;

use crate::builtin_entity::spec_kind_of_value;
use crate::builtin_entity::BuiltinEntity;
use crate::builtin_entity::BuiltinEntityKind;
use crate::builtin_entity::EntityRange;
use crate::errors::ConversionError;
use crate::ontology::AmountOfMoneyValue;
use crate::ontology::DurationValue;
use crate::ontology::FloatValue;
use crate::ontology::Grain;
use crate::ontology::InstantTimeValue;
use crate::ontology::NumberValue;
use crate::ontology::OrdinalValue;
use crate::ontology::PercentageValue;
use crate::ontology::Precision;
use crate::ontology::SlotValue;
use crate::ontology::TemperatureValue;
use crate::ontology::TimeIntervalValue;

verus! {

/// The kind-specific raw fields of one engine match, as the external
/// parsing engine hands them over: optional fields may be absent and
/// nothing is validated yet.
#[derive(Clone, Debug, PartialEq)]
pub enum RawValue {
    Number { value: FloatValue },
    Ordinal { value: i64 },
    Percentage { value: FloatValue },
    AmountOfMoney { value: FloatValue, precision: Option<Precision>, unit: Option<String> },
    Temperature { value: FloatValue, unit: Option<String> },
    Duration {
        years: Option<i64>,
        quarters: Option<i64>,
        months: Option<i64>,
        weeks: Option<i64>,
        days: Option<i64>,
        hours: Option<i64>,
        minutes: Option<i64>,
        seconds: Option<i64>,
        precision: Option<Precision>,
    },
    InstantTime { value: String, grain: Grain, precision: Option<Precision> },
    TimeInterval { from: Option<String>, to: Option<String> },
}

/// One raw match as the external parsing engine reports it: the kind it
/// declares, the matched substring, its span, and the raw fields.
#[derive(Clone, Debug, PartialEq)]
pub struct RawMatch {
    /// The kind the engine declares for the match.
    pub kind: BuiltinEntityKind,
    /// The matched substring of the source text.
    pub value: String,
    /// Where the match stands in the source text.
    pub range: EntityRange,
    /// The kind-specific raw fields.
    pub raw_value: RawValue,
}

/// The entity kind that a raw value's variant implies.
pub open spec fn spec_raw_kind(v: RawValue) -> BuiltinEntityKind {
    match v {
        RawValue::Number { .. } => BuiltinEntityKind::Number,
        RawValue::Ordinal { .. } => BuiltinEntityKind::Ordinal,
        RawValue::Percentage { .. } => BuiltinEntityKind::Percentage,
        RawValue::AmountOfMoney { .. } => BuiltinEntityKind::AmountOfMoney,
        RawValue::Temperature { .. } => BuiltinEntityKind::Temperature,
        RawValue::Duration { .. } => BuiltinEntityKind::Duration,
        RawValue::InstantTime { .. } => BuiltinEntityKind::Time,
        RawValue::TimeInterval { .. } => BuiltinEntityKind::Time,
    }
}

/// The entity kind that a raw value's variant implies.
pub fn raw_kind(v: &RawValue) -> (k: BuiltinEntityKind)
    ensures
        k == spec_raw_kind(*v),
{
    match *v {
        RawValue::Number { .. } => BuiltinEntityKind::Number,
        RawValue::Ordinal { .. } => BuiltinEntityKind::Ordinal,
        RawValue::Percentage { .. } => BuiltinEntityKind::Percentage,
        RawValue::AmountOfMoney { .. } => BuiltinEntityKind::AmountOfMoney,
        RawValue::Temperature { .. } => BuiltinEntityKind::Temperature,
        RawValue::Duration { .. } => BuiltinEntityKind::Duration,
        RawValue::InstantTime { .. } => BuiltinEntityKind::Time,
        RawValue::TimeInterval { .. } => BuiltinEntityKind::Time,
    }
}

/// An absent precision flag defaults to exact.
pub open spec fn spec_default_precision(p: Option<Precision>) -> Precision {
    match p {
        Some(q) => q,
        None => Precision::Exact,
    }
}

/// An absent or empty unit string normalizes to no unit at all.
pub open spec fn spec_norm_unit(u: Option<String>) -> Option<String> {
    match u {
        Some(s) => if s@.len() == 0 {
            None
        } else {
            Some(s)
        },
        None => None,
    }
}

/// An absent duration component defaults to zero.
pub open spec fn spec_component(c: Option<i64>) -> i64 {
    match c {
        Some(n) => n,
        None => 0,
    }
}

/// Whether the raw fields themselves are acceptable: no negative duration
/// component, and at least one bound on a time interval.
pub open spec fn spec_value_ok(v: RawValue) -> bool {
    match v {
        RawValue::Duration {
            years,
            quarters,
            months,
            weeks,
            days,
            hours,
            minutes,
            seconds,
            ..
        } => {
            &&& spec_component(years) >= 0
            &&& spec_component(quarters) >= 0
            &&& spec_component(months) >= 0
            &&& spec_component(weeks) >= 0
            &&& spec_component(days) >= 0
            &&& spec_component(hours) >= 0
            &&& spec_component(minutes) >= 0
            &&& spec_component(seconds) >= 0
        },
        RawValue::TimeInterval { from, to } => from is Some || to is Some,
        _ => true,
    }
}

/// Whether a raw match converts: its raw fields are acceptable and their
/// implied kind agrees with the kind the engine declared.
pub open spec fn spec_raw_ok(m: RawMatch) -> bool {
    &&& spec_raw_kind(m.raw_value) == m.kind
    &&& spec_value_ok(m.raw_value)
}

/// The error a raw match is rejected with when it does not convert: an
/// inconsistent kind tag is reported first, then the offending field.
pub open spec fn spec_conversion_error(m: RawMatch) -> ConversionError
    recommends
        !spec_raw_ok(m),
{
    if spec_raw_kind(m.raw_value) != m.kind {
        ConversionError::KindMismatch
    } else {
        match m.raw_value {
            RawValue::Duration { .. } => ConversionError::NegativeDurationComponent,
            _ => ConversionError::EmptyTimeInterval,
        }
    }
}

/// The normalized slot value of acceptable raw fields: absent precision
/// becomes exact, absent components become zero, an empty unit becomes no
/// unit.
pub open spec fn spec_normalize(v: RawValue) -> SlotValue {
    match v {
        RawValue::Number { value } => SlotValue::Number(NumberValue { value }),
        RawValue::Ordinal { value } => SlotValue::Ordinal(OrdinalValue { value }),
        RawValue::Percentage { value } => SlotValue::Percentage(PercentageValue { value }),
        RawValue::AmountOfMoney { value, precision, unit } => SlotValue::AmountOfMoney(
            AmountOfMoneyValue {
                value,
                precision: spec_default_precision(precision),
                unit: spec_norm_unit(unit),
            },
        ),
        RawValue::Temperature { value, unit } => SlotValue::Temperature(
            TemperatureValue { value, unit: spec_norm_unit(unit) },
        ),
        RawValue::Duration {
            years,
            quarters,
            months,
            weeks,
            days,
            hours,
            minutes,
            seconds,
            precision,
        } => SlotValue::Duration(
            DurationValue {
                years: spec_component(years),
                quarters: spec_component(quarters),
                months: spec_component(months),
                weeks: spec_component(weeks),
                days: spec_component(days),
                hours: spec_component(hours),
                minutes: spec_component(minutes),
                seconds: spec_component(seconds),
                precision: spec_default_precision(precision),
            },
        ),
        RawValue::InstantTime { value, grain, precision } => SlotValue::InstantTime(
            InstantTimeValue { value, grain, precision: spec_default_precision(precision) },
        ),
        RawValue::TimeInterval { from, to } => SlotValue::TimeInterval(
            TimeIntervalValue { from, to },
        ),
    }
}

/// The entity record an acceptable raw match converts to.
pub open spec fn spec_entity_of(m: RawMatch) -> BuiltinEntity {
    BuiltinEntity {
        value: m.value,
        range: m.range,
        entity: spec_normalize(m.raw_value),
        entity_kind: m.kind,
    }
}

/// An absent precision flag defaults to exact.
fn precision_or_exact(p: Option<Precision>) -> (r: Precision)
    ensures
        r == spec_default_precision(p),
{
    match p {
        Some(q) => q,
        None => Precision::Exact,
    }
}

/// An absent or empty unit string normalizes to no unit at all.
fn normalize_unit(u: Option<String>) -> (r: Option<String>)
    ensures
        r == spec_norm_unit(u),
{
    match u {
        Some(s) => if s.as_str().is_empty() {
            None
        } else {
            Some(s)
        },
        None => None,
    }
}

/// An absent duration component defaults to zero.
fn component_or_zero(c: Option<i64>) -> (r: i64)
    ensures
        r == spec_component(c),
{
    match c {
        Some(n) => n,
        None => 0,
    }
}

/// Normalizes one raw engine match into a typed entity record, or rejects
/// it: with `KindMismatch` when the raw fields' implied kind differs from
/// the declared kind, with `NegativeDurationComponent` when a duration
/// component is negative, and with `EmptyTimeInterval` when an interval
/// has neither bound.
pub fn convert_match(m: RawMatch) -> (r: Result<BuiltinEntity, ConversionError>)
    ensures
        spec_raw_ok(m) ==> r == Result::<BuiltinEntity, ConversionError>::Ok(spec_entity_of(m)),
        !spec_raw_ok(m) ==> r == Result::<BuiltinEntity, ConversionError>::Err(
            spec_conversion_error(m),
        ),
{
    let RawMatch { kind, value, range, raw_value } = m;
    if raw_kind(&raw_value) != kind {
        return Err(ConversionError::KindMismatch);
    }
    let entity: SlotValue = match raw_value {
        RawValue::Number { value: n } => SlotValue::Number(NumberValue { value: n }),
        RawValue::Ordinal { value: n } => SlotValue::Ordinal(OrdinalValue { value: n }),
        RawValue::Percentage { value: n } => SlotValue::Percentage(PercentageValue { value: n }),
        RawValue::AmountOfMoney { value: n, precision, unit } => SlotValue::AmountOfMoney(
            AmountOfMoneyValue {
                value: n,
                precision: precision_or_exact(precision),
                unit: normalize_unit(unit),
            },
        ),
        RawValue::Temperature { value: n, unit } => SlotValue::Temperature(
            TemperatureValue { value: n, unit: normalize_unit(unit) },
        ),
        RawValue::Duration {
            years,
            quarters,
            months,
            weeks,
            days,
            hours,
            minutes,
            seconds,
            precision,
        } => {
            let y = component_or_zero(years);
            let q = component_or_zero(quarters);
            let mo = component_or_zero(months);
            let w = component_or_zero(weeks);
            let d = component_or_zero(days);
            let h = component_or_zero(hours);
            let mi = component_or_zero(minutes);
            let se = component_or_zero(seconds);
            if y < 0 || q < 0 || mo < 0 || w < 0 || d < 0 || h < 0 || mi < 0 || se < 0 {
                return Err(ConversionError::NegativeDurationComponent);
            }
            SlotValue::Duration(
                DurationValue {
                    years: y,
                    quarters: q,
                    months: mo,
                    weeks: w,
                    days: d,
                    hours: h,
                    minutes: mi,
                    seconds: se,
                    precision: precision_or_exact(precision),
                },
            )
        },
        RawValue::InstantTime { value: ts, grain, precision } => {
            SlotValue::InstantTime(
                InstantTimeValue { value: ts, grain, precision: precision_or_exact(precision) },
            )
        },
        RawValue::TimeInterval { from, to } => {
            if from.is_none() && to.is_none() {
                return Err(ConversionError::EmptyTimeInterval);
            }
            SlotValue::TimeInterval(TimeIntervalValue { from, to })
        },
    };
    Ok(BuiltinEntity { value, range, entity, entity_kind: kind })
}

/// Normalization keeps the implied kind of the raw fields.
pub proof fn lemma_normalize_keeps_kind(v: RawValue)
    ensures
        spec_kind_of_value(spec_normalize(v)) == spec_raw_kind(v),
{
}

/// Converting an acceptable raw match with a sane span yields a
/// well-formed entity record.
pub proof fn lemma_convert_preserves_wf(m: RawMatch)
    requires
        spec_raw_ok(m),
        m.range.wf(),
    ensures
        spec_entity_of(m).wf(),
{
    lemma_normalize_keeps_kind(m.raw_value);
}

} // verus!
