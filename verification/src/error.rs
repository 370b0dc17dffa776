use vstd::prelude::*;

verus! {

/// Failure conditions of the ledger and settlement operations.
#[derive(Clone, Copy, Debug, PartialEq, Eq, Structural)]
pub enum NMError {
    /// The caller is not the identity recorded as owner / offeror.
    InvalidOwner,
    /// An offer index does not address a populated offer slot.
    OverflowOfferCount,
    /// The number of supplied leg accounts does not match the offer.
    OverflowTokenAccountCount,
    /// The supplied leg source is not part of the accepted offer.
    InvalidSourceAccount,
    /// The sale record is not held by the expected custody authority.
    NotPuttedOnSale,
}

} // verus!
