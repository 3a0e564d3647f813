use vstd::prelude::*;

verus! {

/// How hot a processor's load reading is.
#[derive(Debug, PartialEq, Eq, Structural)]
#[allow(non_camel_case_types)]
pub enum Level {
    NORMAL,
    WARM,
    BURNING,
    ALARM,
    UNKNOWN,
}

/// The banding of a usage percentage: under fifty is normal, then warm to
/// seventy-five, burning to ninety, alarm under one hundred, and anything
/// from one hundred up is out of band.
pub open spec fn spec_cpu_level(usage: u32) -> Level {
    if usage < 50 {
        Level::NORMAL
    } else if usage < 75 {
        Level::WARM
    } else if usage < 90 {
        Level::BURNING
    } else if usage < 100 {
        Level::ALARM
    } else {
        Level::UNKNOWN
    }
}

/// Bands a usage percentage reading.
pub fn classify_cpu_usage(usage: u32) -> (r: Level)
    ensures
        r == spec_cpu_level(usage),
{
    if usage < 50 {
        Level::NORMAL
    } else if usage < 75 {
        Level::WARM
    } else if usage < 90 {
        Level::BURNING
    } else if usage < 100 {
        Level::ALARM
    } else {
        Level::UNKNOWN
    }
}

} // verus!
