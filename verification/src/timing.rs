use vstd::prelude::*;

verus! {

/// Relies on the standard library for its monotonic clock type alone:
/// `std::time::Instant` is carried opaquely and read only through the
/// wrappers below.
#[verifier::external_type_specification]
#[verifier::external_body]
pub struct ExInstant(std::time::Instant);

/// A started wall-clock measurement.
pub struct Stopwatch {
    started: std::time::Instant,
}

impl Stopwatch {
    /// Relies on std::time::Instant::now: the moment the measurement
    /// starts. Nothing is assumed of the reading.
    #[verifier::external_body]
    pub fn start() -> Stopwatch {
        Stopwatch { started: std::time::Instant::now() }
    }

    /// Relies on std::time::Instant::elapsed and Duration::as_nanos: how
    /// long ago the stopwatch was started, in nanoseconds. Nothing is
    /// assumed of the reading.
    #[verifier::external_body]
    pub fn elapsed_nanos(&self) -> u128 {
        self.started.elapsed().as_nanos()
    }
}

} // verus!
