//! What the library says of `std::time::Duration`, which vstd declares but
//! does not specify.

use std::time::Duration;
use vstd::prelude::*;

verus! {

/// The whole length of a duration in nanoseconds, as `Duration::as_nanos`
/// reports it.
pub uninterp spec fn duration_nanos(d: Duration) -> nat;

/// `Duration::as_nanos` of the standard library: the total number of
/// nanoseconds that the duration holds.
pub assume_specification[ Duration::as_nanos ](d: &Duration) -> (nanos: u128)
    ensures
        nanos == duration_nanos(*d),
;

/// `Duration::from_secs` of the standard library: a duration of that many
/// whole seconds.
pub assume_specification[ Duration::from_secs ](secs: u64) -> (d: Duration)
    ensures
        duration_nanos(d) == secs * 1_000_000_000,
;

/// `Clone` of `Duration`, a `Copy` type: the clone is the value itself.
pub assume_specification[ <Duration as Clone>::clone ](d: &Duration) -> (copy: Duration)
    ensures
        copy == *d,
;

} // verus!
