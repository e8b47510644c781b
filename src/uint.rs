//! Numeric predicates over unsigned field values.
use vstd::prelude::*;

verus! {

/// How a numeric predicate compares a value with its arguments.
#[derive(Clone, Copy, Debug, PartialEq, Eq, Structural)]
pub enum DetectUintMode {
    Equal,
    NotEqual,
    Less,
    LessOrEqual,
    Greater,
    GreaterOrEqual,
    /// Strictly between the two arguments.
    Range,
    /// Outside the open range between the two arguments.
    NegatedRange,
    /// The value masked by the first argument equals the second.
    Bitmask,
    /// The value masked by the first argument differs from the second.
    NegatedBitmask,
}

/// A numeric predicate: a comparison mode and up to two arguments.
///
/// Fields narrower than 32 bits are compared after widening to `u32`.
#[derive(Clone, Copy, Debug, PartialEq, Eq, Structural)]
pub struct DetectUintData {
    pub mode: DetectUintMode,
    pub arg1: u32,
    pub arg2: u32,
}

impl DetectUintData {
    /// Whether the predicate holds of `v`.
    pub open spec fn accepts(self, v: u32) -> bool {
        match self.mode {
            DetectUintMode::Equal => v == self.arg1,
            DetectUintMode::NotEqual => v != self.arg1,
            DetectUintMode::Less => v < self.arg1,
            DetectUintMode::LessOrEqual => v <= self.arg1,
            DetectUintMode::Greater => v > self.arg1,
            DetectUintMode::GreaterOrEqual => v >= self.arg1,
            DetectUintMode::Range => self.arg1 < v && v < self.arg2,
            DetectUintMode::NegatedRange => v <= self.arg1 || self.arg2 <= v,
            DetectUintMode::Bitmask => v & self.arg1 == self.arg2,
            DetectUintMode::NegatedBitmask => v & self.arg1 != self.arg2,
        }
    }

    /// The predicate that holds of `value` alone.
    pub open spec fn equal_spec(value: u32) -> DetectUintData {
        DetectUintData { mode: DetectUintMode::Equal, arg1: value, arg2: 0 }
    }

    /// A predicate that holds of `value` alone.
    pub fn equal(value: u32) -> (r: DetectUintData)
        ensures
            r == DetectUintData::equal_spec(value),
            forall|v: u32| r.accepts(v) <==> v == value,
    {
        DetectUintData { mode: DetectUintMode::Equal, arg1: value, arg2: 0 }
    }

    /// Evaluates the predicate on `v`.
    pub fn evaluate(&self, v: u32) -> (r: bool)
        ensures
            r == self.accepts(v),
    {
        match self.mode {
            DetectUintMode::Equal => v == self.arg1,
            DetectUintMode::NotEqual => v != self.arg1,
            DetectUintMode::Less => v < self.arg1,
            DetectUintMode::LessOrEqual => v <= self.arg1,
            DetectUintMode::Greater => v > self.arg1,
            DetectUintMode::GreaterOrEqual => v >= self.arg1,
            DetectUintMode::Range => self.arg1 < v && v < self.arg2,
            DetectUintMode::NegatedRange => v <= self.arg1 || self.arg2 <= v,
            DetectUintMode::Bitmask => v & self.arg1 == self.arg2,
            DetectUintMode::NegatedBitmask => v & self.arg1 != self.arg2,
        }
    }
}

} // verus!
