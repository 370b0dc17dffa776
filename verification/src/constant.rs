use vstd::prelude::*;

verus! {

/// Maximum number of pending offers one ledger can hold at a time.
pub const MAX_OFFER_COUNT: usize = 3;

/// Maximum number of assets one bundled offer may carry.
pub const BUY_MAX_NFT_COUNT: usize = 5;

} // verus!
