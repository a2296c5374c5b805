//! The few facts about `std::time::Duration` that the library relies on.
use std::time::Duration;
use vstd::prelude::*;

verus! {

/// Nanoseconds in one second.
pub const NANOS_PER_SEC: u64 = 1_000_000_000;

/// The total length of a `Duration` in nanoseconds, as `Duration::as_nanos` returns it.
pub uninterp spec fn duration_nanos(d: Duration) -> nat;

/// The whole seconds of a duration of `nanos` nanoseconds.
pub open spec fn whole_secs(nanos: nat) -> nat {
    nanos / (NANOS_PER_SEC as nat)
}

/// The whole seconds of a duration are its nanoseconds divided by one billion, rounded
/// down.
pub proof fn lemma_whole_secs(nanos: nat)
    ensures
        whole_secs(nanos) == nanos / 1_000_000_000,
        whole_secs(nanos) * 1_000_000_000 <= nanos < (whole_secs(nanos) + 1) * 1_000_000_000,
{
}

/// Calls `Duration::as_nanos`. The result is taken to be the duration's total length in
/// nanoseconds, which the name `duration_nanos` stands for; nothing else is claimed.
#[verifier::external_body]
pub(crate) fn duration_as_nanos(d: &Duration) -> (r: u128)
    ensures
        r as nat == duration_nanos(*d),
{
    d.as_nanos()
}

/// Calls `Duration::as_secs`. Its documentation gives it as the number of whole seconds in
/// the duration, that is the total nanoseconds divided by one billion, rounded down.
#[verifier::external_body]
pub(crate) fn duration_as_secs(d: &Duration) -> (r: u64)
    ensures
        r as nat == whole_secs(duration_nanos(*d)),
{
    d.as_secs()
}

} // verus!
