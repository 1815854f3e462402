use std::time::{Duration, Instant};

use vstd::prelude::*;

verus! {

pub const SEPARATORER: &'static str =
    "===============================================================================================";

pub const SEPARATOR: &'static str =
    "-----------------------------------------------------------------------------------------------";

pub const ETH_TRANSFER: &'static str = "<ETH transfer>";

pub const UNKNOWN: &'static str = "<Unknown>";

/// Wei in one gwei.
pub const GWEI_U128: u128 = 1_000_000_000;

/// Wei in one ether.
pub const WEI_PER_ETH_U128: u128 = 1_000_000_000_000_000_000;

#[verifier::external_type_specification]
#[verifier::external_body]
pub struct ExInstant(Instant);

/// Relies on std's `Instant::now`: reads the monotonic clock, so nothing is
/// promised of the value.
pub assume_specification[ Instant::now ]() -> Instant;

/// Relies on std's `Instant::elapsed`: time since the instant, as the clock
/// reads it now.
pub assume_specification[ Instant::elapsed ](i: &Instant) -> Duration;

/// Starts a timing under `label`.
pub fn measure_start(label: &str) -> (r: (String, Instant))
    ensures
        r.0@ == label@,
{
    (label.to_owned(), Instant::now())
}

/// The time since `start` was taken.
pub fn measure_end(start: (String, Instant)) -> Duration {
    start.1.elapsed()
}

} // verus!
