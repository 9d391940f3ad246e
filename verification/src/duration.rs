//! What the contracts of this crate say of a `std::time::Duration`.

use std::time::Duration;
use vstd::prelude::*;

verus! {

/// The length of `d` in nanoseconds: the number that `Duration::as_nanos`
/// returns for it.
pub uninterp spec fn duration_nanos(d: Duration) -> nat;

/// Nanoseconds in `secs` whole seconds.
pub open spec fn secs_as_nanos(secs: nat) -> nat {
    secs * 1_000_000_000
}

/// The length in nanoseconds of a wait that may be absent.
pub open spec fn wait_nanos(wait: Option<Duration>) -> Option<nat> {
    match wait {
        Some(d) => Some(duration_nanos(d)),
        None => None,
    }
}

/// `Duration::from_secs` is taken on trust: the duration it builds lasts
/// exactly `secs` whole seconds, with no fraction of a second added.
pub assume_specification[ Duration::from_secs ](secs: u64) -> (d: Duration)
    ensures
        duration_nanos(d) == secs_as_nanos(secs as nat),
;

} // verus!
