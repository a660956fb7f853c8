//! The monotonic clock of the standard library, as far as the shell uses it.
//! Verus sees nothing inside an `Instant` or a `Duration`, so nothing is
//! claimed of what the clock returns.

use std::time::{Duration, Instant};
use vstd::prelude::*;

verus! {

/// `std::time::Instant`, a point in time on the monotonic clock. Opaque.
#[verifier::external_type_specification]
#[verifier::external_body]
pub struct ExInstant(Instant);

/// `std::time::Instant::now` reads the clock. The call returns; what it
/// returns differs from call to call, so no clause speaks of it.
pub assume_specification[ Instant::now ]() -> (now: Instant);

/// `std::time::Instant::saturating_duration_since` gives the time from
/// `earlier` to `later`, or zero where `earlier` is the later of the two. It
/// is documented for every pair of instants. The duration cannot be written
/// down over opaque values, so no clause speaks of it.
pub assume_specification[ Instant::saturating_duration_since ](
    later: &Instant,
    earlier: Instant,
) -> (elapsed: Duration);

} // verus!
