use vstd::prelude::*;

verus! {

/// Whether a recognized value is exact or only approximate.
#[derive(Clone, Copy, Debug, PartialEq, Eq, Structural)]
pub enum Precision {
    Approximate,
    Exact,
}

/// The granularity of a time value.
#[derive(Clone, Copy, Debug, PartialEq, Eq, Structural)]
pub enum Grain {
    Year,
    Quarter,
    Month,
    Week,
    Day,
    Hour,
    Minute,
    Second,
}

/// A 64-bit floating-point number, carried as its IEEE-754 bit pattern.
///
/// The ontology stores and transports numeric values; it never computes
/// with them, so the bit pattern is all it needs to hold.
#[derive(Clone, Copy, Debug, PartialEq, Eq, Structural)]
pub struct FloatValue {
    pub bits: u64,
}

/// A recognized cardinal number.
#[derive(Clone, Copy, Debug, PartialEq, Eq, Structural)]
pub struct NumberValue {
    pub value: FloatValue,
}

/// A recognized ordinal number.
#[derive(Clone, Copy, Debug, PartialEq, Eq, Structural)]
pub struct OrdinalValue {
    pub value: i64,
}

/// A recognized percentage.
#[derive(Clone, Copy, Debug, PartialEq, Eq, Structural)]
pub struct PercentageValue {
    pub value: FloatValue,
}

/// A recognized amount of money, with its currency unit when one was given.
#[derive(Clone, Debug, PartialEq)]
pub struct AmountOfMoneyValue {
    pub value: FloatValue,
    pub precision: Precision,
    pub unit: Option<String>,
}

/// A recognized temperature, with its unit when one was given.
#[derive(Clone, Debug, PartialEq)]
pub struct TemperatureValue {
    pub value: FloatValue,
    pub unit: Option<String>,
}

/// A recognized duration, broken down into calendar and clock components.
#[derive(Clone, Copy, Debug, PartialEq, Eq, Structural)]
pub struct DurationValue {
    pub years: i64,
    pub quarters: i64,
    pub months: i64,
    pub weeks: i64,
    pub days: i64,
    pub hours: i64,
    pub minutes: i64,
    pub seconds: i64,
    pub precision: Precision,
}

impl DurationValue {
    /// A well-formed duration has no negative component.
    pub open spec fn wf(self) -> bool {
        &&& self.years >= 0
        &&& self.quarters >= 0
        &&& self.months >= 0
        &&& self.weeks >= 0
        &&& self.days >= 0
        &&& self.hours >= 0
        &&& self.minutes >= 0
        &&& self.seconds >= 0
    }
}

/// A recognized instant in time: a fully qualified timestamp string
/// (including a UTC offset), its grain and its precision.
#[derive(Clone, Debug, PartialEq)]
pub struct InstantTimeValue {
    pub value: String,
    pub grain: Grain,
    pub precision: Precision,
}

/// A recognized time interval; at least one of the two bounds is present.
#[derive(Clone, Debug, PartialEq)]
pub struct TimeIntervalValue {
    pub from: Option<String>,
    pub to: Option<String>,
}

impl TimeIntervalValue {
    /// A well-formed interval has at least one bound populated.
    pub open spec fn wf(self) -> bool {
        self.from is Some || self.to is Some
    }
}

/// The typed, normalized payload of a recognized entity.
#[derive(Clone, Debug, PartialEq)]
pub enum SlotValue {
    Number(NumberValue),
    Ordinal(OrdinalValue),
    Percentage(PercentageValue),
    AmountOfMoney(AmountOfMoneyValue),
    Temperature(TemperatureValue),
    Duration(DurationValue),
    InstantTime(InstantTimeValue),
    TimeInterval(TimeIntervalValue),
}

impl SlotValue {
    /// A well-formed slot value satisfies its variant's own invariant.
    pub open spec fn wf(self) -> bool {
        match self {
            SlotValue::Duration(d) => d.wf(),
            SlotValue::TimeInterval(i) => i.wf(),
            _ => true,
        }
    }
}

} // verus!
