use vstd::prelude::*;

verus! {

/// Named failure conditions. A failed operation reports exactly one of these
/// and leaves all state unchanged; no failure is ever a generic fault.
#[derive(Clone, Copy, Debug, PartialEq, Eq, Structural)]
pub enum Error {
    /// The caller is not the identity the operation demands.
    PermissionDenied,
    /// The supplied source account does not hold enough value.
    BalanceInsufficient,
    /// A listing may not be created with a price of zero.
    PriceSetToZero,
    /// No listing record was ever written under this key.
    ListingDoesntExist,
    /// The listing record under this key was tombstoned.
    ListingCancelledOrFinished,
    /// The listing's expiration time lies before the current time.
    ListingExpired,
    /// No live offer (or listing, for a purchase) stands under this key.
    OfferDoesntExistOrCancelled,
    /// The offer record under this key was tombstoned.
    OfferCancelledOrFinished,
    /// No offer record was ever written under this key.
    OfferDoesntExist,
    /// No auction record was ever written under this key.
    AuctionDoesntExist,
    /// The auction record under this key was tombstoned.
    AuctionCancelledOrFinished,
    /// The auction's end time has not been reached yet.
    AuctionNotFinished,
    /// The auction's end time has passed; no further bid is accepted.
    AuctionEnded,
    /// A bid must be strictly greater than the current bid.
    BidTooLow,
    /// The asset has not pre-authorized transfer to the marketplace.
    NeedsTransferApproval,
    /// An amount or time computation would exceed the representable range.
    AmountOverflow,
}

} // verus!
