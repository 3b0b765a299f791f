//! Fixed settings of a session.

use vstd::prelude::*;

verus! {

/// Seconds allowed for opening the connection and for awaiting the peer's greeting.
pub const TIMEOUT: u64 = 10;

/// Number of parts a node record splits into at `@`, and its address part at `:`.
pub const ETH_EXPECTED_PARTS_LEN: usize = 2;

/// Seconds allowed for the key agreement once the connection is open.
pub const KEY_AGREEMENT_TIMEOUT: u64 = 1;

/// The reason code sent with the disconnect notice: the client is quitting.
pub const DISCONNECT_CLIENT_QUITTING: u8 = 0x08;

/// Whether a deadline of `secs` seconds lies in the range the defaults are taken from.
pub open spec fn reasonable_timeout(secs: u64) -> bool {
    1 <= secs <= 10
}

/// The default deadlines are within the supported range.
pub proof fn lemma_default_timeouts_reasonable()
    ensures
        reasonable_timeout(TIMEOUT),
        reasonable_timeout(KEY_AGREEMENT_TIMEOUT),
{
}

} // verus!
