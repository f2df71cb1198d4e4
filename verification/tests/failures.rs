use marketplace::{Error, Ledger, Marketplace, Registry};

const PACKAGE: u64 = 777;
const OWNER: u64 = 10;
const STRANGER: u64 = 11;

fn world() -> (Ledger, Registry, Marketplace, Vec<u8>) {
    let mut ledger = Ledger::new();
    let registry = Registry::new();
    let market = Marketplace::new(&mut ledger, PACKAGE);
    (ledger, registry, market, vec![1u8, 2, 3])
}

#[test]
fn zero_price_listing_is_rejected() {
    let (_ledger, mut registry, mut market, nft) = world();
    assert!(registry.mint(&nft, 1, OWNER));
    assert!(registry.approve(OWNER, &nft, 1, PACKAGE));
    assert_eq!(
        market.create_listing(&registry, OWNER, 0, &nft, 1, 0, 0),
        Err(Error::PriceSetToZero)
    );
    // and nothing was written
    let key = marketplace::get_listing_key(&nft, 1);
    assert_eq!(market.get_listing_data(&key), Err(Error::ListingDoesntExist));
}

#[test]
fn listing_by_non_owner_is_denied() {
    let (_ledger, mut registry, mut market, nft) = world();
    assert!(registry.mint(&nft, 1, OWNER));
    assert_eq!(
        market.create_listing(&registry, STRANGER, 0, &nft, 1, 100, 0),
        Err(Error::PermissionDenied)
    );
    // an unregistered asset has no owner to match
    assert_eq!(
        market.create_listing(&registry, OWNER, 0, &nft, 2, 100, 0),
        Err(Error::PermissionDenied)
    );
    assert_eq!(
        market.cancel_listing(&registry, STRANGER, &nft, 1),
        Err(Error::PermissionDenied)
    );
}

#[test]
fn listing_without_approval_is_rejected() {
    let (_ledger, mut registry, mut market, nft) = world();
    assert!(registry.mint(&nft, 1, OWNER));
    assert_eq!(
        market.create_listing(&registry, OWNER, 0, &nft, 1, 100, 0),
        Err(Error::NeedsTransferApproval)
    );
    // approval for some identity other than the marketplace does not count
    assert!(registry.approve(OWNER, &nft, 1, PACKAGE + 1));
    assert_eq!(
        market.create_listing(&registry, OWNER, 0, &nft, 1, 100, 0),
        Err(Error::NeedsTransferApproval)
    );
    assert!(!market.transfer_approved(&registry, &nft, 1, OWNER));
}

#[test]
fn buying_with_insufficient_balance_fails() {
    let (mut ledger, mut registry, mut market, nft) = world();
    assert!(registry.mint(&nft, 1, OWNER));
    assert!(registry.approve(OWNER, &nft, 1, PACKAGE));
    assert!(market.create_listing(&registry, OWNER, 0, &nft, 1, 100, 0).is_ok());
    let poor_purse = ledger.create_purse();
    ledger.deposit(poor_purse, 99);
    assert_eq!(
        market.buy_listing(&mut registry, &mut ledger, STRANGER, 0, &nft, 1, poor_purse),
        Err(Error::BalanceInsufficient)
    );
}

#[test]
fn buying_an_expired_listing_fails() {
    let (mut ledger, mut registry, mut market, nft) = world();
    assert!(registry.mint(&nft, 1, OWNER));
    assert!(registry.approve(OWNER, &nft, 1, PACKAGE));
    // 15 minutes from time 0: expires at 900_000
    assert!(market.create_listing(&registry, OWNER, 0, &nft, 1, 100, 15).is_ok());
    let purse = ledger.create_purse();
    ledger.deposit(purse, 1000);
    // exactly at the expiration time the purchase still goes through,
    // so run it one millisecond later
    assert_eq!(
        market.buy_listing(&mut registry, &mut ledger, STRANGER, 900_001, &nft, 1, purse),
        Err(Error::ListingExpired)
    );
    assert!(market
        .buy_listing(&mut registry, &mut ledger, STRANGER, 900_000, &nft, 1, purse)
        .is_ok());
}

#[test]
fn buying_after_the_seller_lost_the_asset_is_denied() {
    let (mut ledger, mut registry, mut market, nft) = world();
    assert!(registry.mint(&nft, 1, OWNER));
    assert!(registry.approve(OWNER, &nft, 1, PACKAGE));
    assert!(market.create_listing(&registry, OWNER, 0, &nft, 1, 100, 0).is_ok());
    // the asset moves outside the marketplace; the recorded seller is stale
    registry.transfer_from(OWNER, STRANGER, &nft, 1);
    let purse = ledger.create_purse();
    ledger.deposit(purse, 1000);
    assert_eq!(
        market.buy_listing(&mut registry, &mut ledger, STRANGER, 0, &nft, 1, purse),
        Err(Error::PermissionDenied)
    );
}

#[test]
fn cancelling_a_missing_offer_fails() {
    let (mut ledger, _registry, mut market, nft) = world();
    assert_eq!(
        market.cancel_offer(&mut ledger, STRANGER, &nft, 1),
        Err(Error::OfferDoesntExistOrCancelled)
    );
}

#[test]
fn accepting_a_never_made_offer_fails() {
    let (mut ledger, mut registry, mut market, nft) = world();
    assert!(registry.mint(&nft, 1, OWNER));
    assert_eq!(
        market.accept_offer(&mut registry, &mut ledger, OWNER, &nft, 1, STRANGER),
        Err(Error::OfferDoesntExistOrCancelled)
    );
    // and only the owner may accept at all
    assert_eq!(
        market.accept_offer(&mut registry, &mut ledger, STRANGER, &nft, 1, STRANGER),
        Err(Error::PermissionDenied)
    );
}

#[test]
fn auction_without_approval_is_rejected() {
    let (_ledger, mut registry, mut market, nft) = world();
    assert!(registry.mint(&nft, 1, OWNER));
    assert_eq!(
        market.start_auction(&registry, OWNER, 0, &nft, 1, 1, 20),
        Err(Error::NeedsTransferApproval)
    );
    // the approval query is keyed by the claimed owner, so a stranger's
    // auction is rejected the same way
    assert!(registry.approve(OWNER, &nft, 1, PACKAGE));
    assert_eq!(
        market.start_auction(&registry, STRANGER, 0, &nft, 1, 1, 20),
        Err(Error::NeedsTransferApproval)
    );
}

#[test]
fn bidding_on_a_missing_auction_fails() {
    let (mut ledger, _registry, mut market, nft) = world();
    let purse = ledger.create_purse();
    ledger.deposit(purse, 10);
    assert_eq!(
        market.place_bid(&mut ledger, STRANGER, 0, &nft, 1, purse),
        Err(Error::AuctionDoesntExist)
    );
    let key = marketplace::get_listing_key(&nft, 1);
    assert_eq!(market.get_auction_data(&key), Err(Error::AuctionDoesntExist));
}

#[test]
fn ending_a_missing_auction_fails() {
    let (mut ledger, mut registry, mut market, nft) = world();
    assert_eq!(
        market.end_auction(&mut registry, &mut ledger, 0, &nft, 1),
        Err(Error::AuctionDoesntExist)
    );
}

#[test]
fn bidding_on_a_closed_auction_fails() {
    let (mut ledger, mut registry, mut market, nft) = world();
    assert!(registry.mint(&nft, 1, OWNER));
    assert!(registry.approve(OWNER, &nft, 1, PACKAGE));
    assert!(market.start_auction(&registry, OWNER, 0, &nft, 1, 1, 0).is_ok());
    // duration zero: the auction is endable at once, with no real bid
    assert!(market.end_auction(&mut registry, &mut ledger, 0, &nft, 1).is_ok());
    let purse = ledger.create_purse();
    ledger.deposit(purse, 10);
    assert_eq!(
        market.place_bid(&mut ledger, STRANGER, 0, &nft, 1, purse),
        Err(Error::AuctionCancelledOrFinished)
    );
}

#[test]
fn time_computations_overflow_as_reported_failures() {
    let (_ledger, mut registry, mut market, nft) = world();
    assert!(registry.mint(&nft, 1, OWNER));
    assert!(registry.approve(OWNER, &nft, 1, PACKAGE));
    assert_eq!(
        market.create_listing(&registry, OWNER, 0, &nft, 1, 100, u64::MAX),
        Err(Error::AmountOverflow)
    );
    assert_eq!(
        market.create_listing(&registry, OWNER, u64::MAX, &nft, 1, 100, 1),
        Err(Error::AmountOverflow)
    );
    assert_eq!(
        market.start_auction(&registry, OWNER, u64::MAX, &nft, 1, 1, 1),
        Err(Error::AmountOverflow)
    );
}

#[test]
fn record_getters_tell_absent_states_apart() {
    let (mut ledger, mut registry, mut market, nft) = world();
    assert!(registry.mint(&nft, 1, OWNER));
    assert!(registry.approve(OWNER, &nft, 1, PACKAGE));

    let listing_key = marketplace::get_listing_key(&nft, 1);
    let offer_key = marketplace::get_offer_key(&nft, 1, STRANGER);
    assert_eq!(market.get_listing_data(&listing_key), Err(Error::ListingDoesntExist));
    assert_eq!(market.get_offer_data(&offer_key), Err(Error::OfferDoesntExist));
    assert_eq!(market.get_auction_data(&listing_key), Err(Error::AuctionDoesntExist));

    assert!(market.create_listing(&registry, OWNER, 0, &nft, 1, 100, 0).is_ok());
    assert!(market.cancel_listing(&registry, OWNER, &nft, 1).is_ok());
    assert_eq!(
        market.get_listing_data(&listing_key),
        Err(Error::ListingCancelledOrFinished)
    );

    let purse = ledger.create_purse();
    ledger.deposit(purse, 10);
    assert!(market.make_offer(&mut ledger, STRANGER, &nft, 1, purse).is_ok());
    assert!(market.cancel_offer(&mut ledger, STRANGER, &nft, 1).is_ok());
    assert_eq!(market.get_offer_data(&offer_key), Err(Error::OfferCancelledOrFinished));

    assert!(market.start_auction(&registry, OWNER, 0, &nft, 1, 1, 0).is_ok());
    assert!(market.end_auction(&mut registry, &mut ledger, 0, &nft, 1).is_ok());
    assert_eq!(
        market.get_auction_data(&listing_key),
        Err(Error::AuctionCancelledOrFinished)
    );
}
