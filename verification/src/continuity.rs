use vstd::prelude::*;

verus! {

/// The last recorded timestamp, where it can still serve as the reference
/// point, and zero where it cannot.
///
/// The marker serves only if it is not zero, does not lie after the current
/// chain time, and lies less than two resolution windows before it. The
/// chain time is given in seconds, the marker and the resolution in
/// milliseconds.
pub open spec fn reference_timestamp(last_timestamp: u64, ledger_seconds: u64, resolution: u32)
    -> u64 {
    if last_timestamp == 0 || last_timestamp > ledger_seconds * 1000 || ledger_seconds * 1000
        - last_timestamp >= 2 * resolution {
        0
    } else {
        last_timestamp
    }
}

/// Decides whether the last recorded timestamp is recent enough to be the
/// reference point; gives it back if so, and zero if not.
pub fn obtain_record_timestamp(last_timestamp: u64, ledger_seconds: u64, resolution: u32) -> (
    reference: u64)
    ensures
        reference == reference_timestamp(last_timestamp, ledger_seconds, resolution),
{
    let ledger_timestamp: u128 = (ledger_seconds as u128) * 1000;
    let window: u128 = (resolution as u128) * 2;
    let last: u128 = last_timestamp as u128;
    if last_timestamp == 0 || last > ledger_timestamp || ledger_timestamp - last >= window {
        return 0;
    }
    last_timestamp
}

} // verus!
