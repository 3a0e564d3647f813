use vstd::prelude::*;

use std::time::SystemTime;
use std::time::UNIX_EPOCH;

verus! {

/// Relies on std::time: SystemTime::now, SystemTime::duration_since and
/// Duration::subsec_nanos, to read the nanosecond part of the current second.
/// subsec_nanos is documented to return less than one billion; a clock before
/// the epoch is read as zero.
#[verifier::external_body]
fn clock_subsec_nanos() -> (r: u32)
    ensures
        r < 1_000_000_000,
{
    SystemTime::now().duration_since(UNIX_EPOCH).map_or(0, |d| d.subsec_nanos())
}

/// The arithmetic of a bounded draw, with the clock reading as a plain
/// input: zero when the bound is zero, otherwise the reading reduced modulo
/// the bound.
pub fn draw_below(nanos: u32, max: usize) -> (r: usize)
    ensures
        max == 0 ==> r == 0,
        max > 0 ==> r == nanos as int % (max as int),
{
    if max == 0 {
        0
    } else {
        (nanos as usize) % max
    }
}

/// The arithmetic of a ranged draw, with the clock reading as a plain
/// input: the reading reduced into the inclusive range `[min, max]`.
pub fn draw_in_range(nanos: u32, min: usize, max: usize) -> (r: usize)
    requires
        min <= max,
        max - min < usize::MAX,
    ensures
        r == min as int + nanos as int % (max - min + 1),
{
    let range = max - min + 1;
    min + (nanos as usize) % range
}

/// A weak, clock-derived pseudo-random draw: zero when the bound is zero,
/// otherwise the nanosecond part of the current second reduced modulo the
/// bound, as `draw_below` fixes it. Calls in tight succession may repeat
/// values.
pub fn get_random_number(max: usize) -> (r: usize)
    ensures
        max == 0 ==> r == 0,
        max > 0 ==> r < max,
{
    let nanos = clock_subsec_nanos();
    draw_below(nanos, max)
}

/// A clock-derived draw from the inclusive range `[min, max]`, as
/// `draw_in_range` fixes it from the nanosecond reading. Callers must hand
/// in a non-empty range; `checked_random_between` accepts any pair.
pub fn get_random_between(min: usize, max: usize) -> (r: usize)
    requires
        min <= max,
        max - min < usize::MAX,
    ensures
        min <= r <= max,
{
    let nanos = clock_subsec_nanos();
    draw_in_range(nanos, min, max)
}

/// The recoverable form of `get_random_between`: an empty range is reported
/// as `None` instead of being ruled out up front.
pub fn checked_random_between(min: usize, max: usize) -> (r: Option<usize>)
    ensures
        r is Some <==> min <= max && max - min < usize::MAX,
        r matches Some(v) ==> min <= v <= max,
{
    if min <= max && max - min < usize::MAX {
        Some(get_random_between(min, max))
    } else {
        None
    }
}

} // verus!
