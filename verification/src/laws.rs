//! Laws of the marketplace lifecycle, each proved over the operations'
//! decision functions — so each holds of every state and every input, not
//! only of the states a test happens to reach.

use vstd::prelude::*;

use crate::errors::Error;
use crate::keys::{listing_key_spec, offer_key_spec};
use crate::ledger::account_of;
use crate::marketplace::{
    buy_listing_outcome, create_listing_outcome, end_auction_outcome, live_record,
    make_offer_outcome, place_bid_outcome, AuctionData, ListingData, OfferData,
    ANTI_SNIPE_MILLISECONDS,
};
use crate::registry::TokenState;
use crate::store::Slot;

verus! {

/// Whenever an asset has no live listing — never listed, tombstoned, or
/// already sold — a purchase fails with the does-not-exist/cancelled
/// condition, whatever the balances, the registry and the time say.
pub proof fn lemma_buy_requires_live_listing(
    listings: Map<Seq<char>, Slot<ListingData>>,
    tokens: Map<(Seq<u8>, u64), TokenState>,
    accounts: Map<u64, u64>,
    purse_balance: u64,
    now: u64,
    collection: Seq<u8>,
    token_id: u64,
)
    requires
        live_record(listings, listing_key_spec(collection, token_id)) is None,
    ensures
        buy_listing_outcome(listings, tokens, accounts, purse_balance, now, collection, token_id)
            == Err::<ListingData, Error>(Error::OfferDoesntExistOrCancelled),
{
}

/// A listing priced at zero is always rejected, whoever calls and whatever
/// the registry says; by `create_listing`'s contract the rejection writes
/// no record.
pub proof fn lemma_zero_price_listing_rejected(
    tokens: Map<(Seq<u8>, u64), TokenState>,
    package: u64,
    caller: u64,
    now: u64,
    collection: Seq<u8>,
    token_id: u64,
    duration_minutes: u64,
)
    ensures
        create_listing_outcome(
            tokens,
            package,
            caller,
            now,
            collection,
            token_id,
            0,
            duration_minutes,
        ) == Err::<ListingData, Error>(Error::PriceSetToZero),
{
}

/// After a cancellation — which, by `cancel_listing`'s contract, leaves the
/// asset's slot tombstoned — every later purchase of the same key fails.
pub proof fn lemma_cancelled_listing_cannot_be_bought(
    listings: Map<Seq<char>, Slot<ListingData>>,
    tokens: Map<(Seq<u8>, u64), TokenState>,
    accounts: Map<u64, u64>,
    purse_balance: u64,
    now: u64,
    collection: Seq<u8>,
    token_id: u64,
)
    ensures
        buy_listing_outcome(
            listings.insert(listing_key_spec(collection, token_id), Slot::Absent),
            tokens,
            accounts,
            purse_balance,
            now,
            collection,
            token_id,
        ) == Err::<ListingData, Error>(Error::OfferDoesntExistOrCancelled),
{
}

/// A purchase after the listing's expiration time fails as expired, even
/// with a sufficient balance and the seller still owning the asset.
pub proof fn lemma_expired_listing_cannot_be_bought(
    listings: Map<Seq<char>, Slot<ListingData>>,
    tokens: Map<(Seq<u8>, u64), TokenState>,
    accounts: Map<u64, u64>,
    purse_balance: u64,
    now: u64,
    collection: Seq<u8>,
    token_id: u64,
    ld: ListingData,
    expiration: u64,
)
    requires
        live_record(listings, listing_key_spec(collection, token_id)) == Some(ld),
        ld.expiration_time == Some(expiration),
        now > expiration,
        purse_balance >= ld.price,
    ensures
        buy_listing_outcome(listings, tokens, accounts, purse_balance, now, collection, token_id)
            == Err::<ListingData, Error>(Error::ListingExpired),
{
}

/// Replacing one's own offer refunds the prior escrow in full before the new
/// escrow is taken: across two successful offers of amounts b1 and then b2,
/// the offerer's account receives b1 back and the escrow purse nets exactly
/// b2 — the offerer's net outlay is only the latest offer's amount.
pub proof fn lemma_repeated_offer_refunds_prior(
    offers0: Map<Seq<char>, Slot<OfferData>>,
    purses0: Seq<u64>,
    accounts0: Map<u64, u64>,
    offers_purse: int,
    caller: u64,
    collection: Seq<u8>,
    token_id: u64,
    source_a: int,
    source_b: int,
)
    requires
        0 <= offers_purse < purses0.len(),
        0 <= source_a < purses0.len(),
        0 <= source_b < purses0.len(),
        source_a != offers_purse,
        source_b != offers_purse,
        live_record(offers0, offer_key_spec(collection, token_id, caller)) is None,
        make_offer_outcome(
            offers0,
            purses0,
            accounts0,
            offers_purse,
            caller,
            collection,
            token_id,
            source_a,
        ) is Ok,
    ensures
        ({
            let k = offer_key_spec(collection, token_id, caller);
            let b1 = purses0[source_a];
            let offers1 = offers0.insert(k, Slot::Present(OfferData { price: b1, expiration_time: 0 }));
            let purses1 = purses0.update(source_a, 0u64).update(
                offers_purse,
                (purses0[offers_purse] + b1) as u64,
            );
            let b2 = purses1[source_b];
            make_offer_outcome(
                offers1,
                purses1,
                accounts0,
                offers_purse,
                caller,
                collection,
                token_id,
                source_b,
            ) is Ok ==> {
                let purses2 = purses1.update(source_b, 0u64).update(
                    offers_purse,
                    (purses1[offers_purse] - b1 + b2) as u64,
                );
                let accounts2 = accounts0.insert(caller, (account_of(accounts0, caller) + b1) as u64);
                &&& account_of(accounts2, caller) == account_of(accounts0, caller) + b1
                &&& purses2[offers_purse] == purses0[offers_purse] + b2
            }
        }),
{
}

/// A bid of exactly the current bid is always too low: strict improvement is
/// demanded.
pub proof fn lemma_equal_bid_too_low(
    auctions: Map<Seq<char>, Slot<AuctionData>>,
    purses: Seq<u64>,
    accounts: Map<u64, u64>,
    auctions_purse: int,
    caller: u64,
    now: u64,
    collection: Seq<u8>,
    token_id: u64,
    bid_purse: int,
    ad: AuctionData,
)
    requires
        0 <= bid_purse < purses.len(),
        live_record(auctions, listing_key_spec(collection, token_id)) == Some(ad),
        purses[bid_purse] == ad.current_bid,
    ensures
        place_bid_outcome(
            auctions,
            purses,
            accounts,
            auctions_purse,
            caller,
            now,
            collection,
            token_id,
            bid_purse,
        ) == Err::<AuctionData, Error>(Error::BidTooLow),
{
}

/// A successful bid landing inside the anti-snipe window pushes the end time
/// out by the window's width.
pub proof fn lemma_anti_snipe_extends(
    auctions: Map<Seq<char>, Slot<AuctionData>>,
    purses: Seq<u64>,
    accounts: Map<u64, u64>,
    auctions_purse: int,
    caller: u64,
    now: u64,
    collection: Seq<u8>,
    token_id: u64,
    bid_purse: int,
    ad: AuctionData,
    updated: AuctionData,
)
    requires
        live_record(auctions, listing_key_spec(collection, token_id)) == Some(ad),
        now <= ad.end_time,
        ad.end_time - now < ANTI_SNIPE_MILLISECONDS,
        place_bid_outcome(
            auctions,
            purses,
            accounts,
            auctions_purse,
            caller,
            now,
            collection,
            token_id,
            bid_purse,
        ) == Ok::<AuctionData, Error>(updated),
    ensures
        updated.end_time == ad.end_time + ANTI_SNIPE_MILLISECONDS,
{
}

/// A bid placed after the end time fails as ended, however high it is. (At
/// the end time itself the operation still admits the bid: its precondition
/// is that the current time not exceed the end time.)
pub proof fn lemma_late_bid_rejected(
    auctions: Map<Seq<char>, Slot<AuctionData>>,
    purses: Seq<u64>,
    accounts: Map<u64, u64>,
    auctions_purse: int,
    caller: u64,
    now: u64,
    collection: Seq<u8>,
    token_id: u64,
    bid_purse: int,
    ad: AuctionData,
)
    requires
        0 <= bid_purse < purses.len(),
        live_record(auctions, listing_key_spec(collection, token_id)) == Some(ad),
        purses[bid_purse] > ad.current_bid,
        now > ad.end_time,
    ensures
        place_bid_outcome(
            auctions,
            purses,
            accounts,
            auctions_purse,
            caller,
            now,
            collection,
            token_id,
            bid_purse,
        ) == Err::<AuctionData, Error>(Error::AuctionEnded),
{
}

/// Closing an auction before its end time always fails.
pub proof fn lemma_early_close_rejected(
    auctions: Map<Seq<char>, Slot<AuctionData>>,
    tokens: Map<(Seq<u8>, u64), TokenState>,
    purses: Seq<u64>,
    accounts: Map<u64, u64>,
    auctions_purse: int,
    now: u64,
    collection: Seq<u8>,
    token_id: u64,
    ad: AuctionData,
)
    requires
        live_record(auctions, listing_key_spec(collection, token_id)) == Some(ad),
        now < ad.end_time,
    ensures
        end_auction_outcome(
            auctions,
            tokens,
            purses,
            accounts,
            auctions_purse,
            now,
            collection,
            token_id,
        ) == Err::<AuctionData, Error>(Error::AuctionNotFinished),
{
}

/// Once an auction is closed — its slot tombstoned, as `end_auction`'s
/// contract leaves it — a second close is rejected, so nothing is ever paid
/// out twice.
pub proof fn lemma_closed_auction_rejects_second_close(
    auctions: Map<Seq<char>, Slot<AuctionData>>,
    tokens: Map<(Seq<u8>, u64), TokenState>,
    purses: Seq<u64>,
    accounts: Map<u64, u64>,
    auctions_purse: int,
    now: u64,
    collection: Seq<u8>,
    token_id: u64,
)
    ensures
        end_auction_outcome(
            auctions.insert(listing_key_spec(collection, token_id), Slot::Absent),
            tokens,
            purses,
            accounts,
            auctions_purse,
            now,
            collection,
            token_id,
        ) == Err::<AuctionData, Error>(Error::AuctionCancelledOrFinished),
{
}

} // verus!

