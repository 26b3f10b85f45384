use vstd::prelude::*;

verus! {

#[verifier::external_type_specification]
#[verifier::external_body]
pub struct ExEpoch(epoch_timestamp::Epoch);

/// Relies on epoch_timestamp::Epoch::now: the current time as whole seconds
/// since the Unix epoch, read from the system clock. Nothing is assumed of
/// the sample: callers must be correct for every value, and two samples of
/// the clock may differ.
#[verifier::external_body]
pub(crate) fn epoch_now() -> u64 {
    epoch_timestamp::Epoch::now()
}

/// Relies on epoch_timestamp::Epoch::second: it turns a count of seconds
/// into the unit the crate's timestamps use, which is seconds, so it
/// returns its argument unchanged.
pub assume_specification[ epoch_timestamp::Epoch::second ](number: u64) -> (r: u64)
    ensures
        r == number,
;

} // verus!
