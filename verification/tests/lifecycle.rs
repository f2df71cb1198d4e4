use marketplace::{Error, Ledger, Marketplace, Registry};

const PACKAGE: u64 = 777;
const ACCOUNT_ONE: u64 = 1;
const ACCOUNT_TWO: u64 = 2;
const ACCOUNT_THREE: u64 = 3;

fn collection() -> Vec<u8> {
    vec![7u8; 32]
}

#[test]
fn install_and_test() {
    let mut ledger = Ledger::new();
    let mut registry = Registry::new();
    let mut market = Marketplace::new(&mut ledger, PACKAGE);
    let nft = collection();

    assert!(registry.mint(&nft, 1, ACCOUNT_ONE));
    assert!(registry.mint(&nft, 2, ACCOUNT_ONE));
    assert!(registry.mint(&nft, 3, ACCOUNT_ONE));
    assert!(registry.approve(ACCOUNT_ONE, &nft, 1, PACKAGE));
    assert!(registry.approve(ACCOUNT_ONE, &nft, 2, PACKAGE));

    // Cant buy before listing
    let buy_purse = ledger.create_purse();
    ledger.deposit(buy_purse, 1_000_000_000_000);
    assert!(market
        .buy_listing(&mut registry, &mut ledger, ACCOUNT_TWO, 40, &nft, 1, buy_purse)
        .is_err());

    assert!(market
        .create_listing(&registry, ACCOUNT_ONE, 0, &nft, 1, 100, 0)
        .is_ok());
    assert!(market.cancel_listing(&registry, ACCOUNT_ONE, &nft, 1).is_ok());
    assert!(market
        .buy_listing(&mut registry, &mut ledger, ACCOUNT_TWO, 40, &nft, 1, buy_purse)
        .is_err());

    assert!(market
        .create_listing(&registry, ACCOUNT_ONE, 0, &nft, 1, 100, 0)
        .is_ok());
    assert!(market
        .create_listing(&registry, ACCOUNT_ONE, 0, &nft, 1, 100, 15)
        .is_ok());
    assert!(market
        .buy_listing(&mut registry, &mut ledger, ACCOUNT_TWO, 40, &nft, 1, buy_purse)
        .is_ok());

    // Offer
    let offer_purse = ledger.create_purse();
    ledger.deposit(offer_purse, 100_000_000);
    assert!(market
        .make_offer(&mut ledger, ACCOUNT_TWO, &nft, 2, offer_purse)
        .is_ok());
    assert!(market.cancel_offer(&mut ledger, ACCOUNT_TWO, &nft, 2).is_ok());
    assert!(market
        .accept_offer(&mut registry, &mut ledger, ACCOUNT_ONE, &nft, 2, ACCOUNT_TWO)
        .is_err());
    ledger.deposit(offer_purse, 100_000_000);
    assert!(market
        .make_offer(&mut ledger, ACCOUNT_TWO, &nft, 2, offer_purse)
        .is_ok());
    assert!(market
        .accept_offer(&mut registry, &mut ledger, ACCOUNT_ONE, &nft, 2, ACCOUNT_TWO)
        .is_ok());

    // Auction
    assert!(registry.approve(ACCOUNT_ONE, &nft, 3, PACKAGE));
    assert!(market
        .start_auction(&registry, ACCOUNT_ONE, 0, &nft, 3, 1, 20)
        .is_ok());

    let first_bid = ledger.create_purse();
    ledger.deposit(first_bid, 2);
    assert!(market
        .place_bid(&mut ledger, ACCOUNT_TWO, 5, &nft, 3, first_bid)
        .is_ok());

    let second_bid = ledger.create_purse();
    ledger.deposit(second_bid, 2);
    assert!(market
        .place_bid(&mut ledger, ACCOUNT_ONE, 5, &nft, 3, second_bid)
        .is_err());
    ledger.deposit(second_bid, 1);
    assert!(market
        .place_bid(&mut ledger, ACCOUNT_ONE, 5, &nft, 3, second_bid)
        .is_ok());

    let late_bid = ledger.create_purse();
    ledger.deposit(late_bid, 10);
    assert!(market
        .place_bid(&mut ledger, ACCOUNT_ONE, 60000 * 100, &nft, 3, late_bid)
        .is_err());
    assert!(market
        .place_bid(&mut ledger, ACCOUNT_ONE, 60000 * 100, &nft, 3, late_bid)
        .is_err());
    assert!(market
        .end_auction(&mut registry, &mut ledger, 60000 * 100, &nft, 3)
        .is_ok());
}

#[test]
fn listing_scenario_funds_and_asset_move() {
    let mut ledger = Ledger::new();
    let mut registry = Registry::new();
    let mut market = Marketplace::new(&mut ledger, PACKAGE);
    let nft = collection();
    assert!(registry.mint(&nft, 1, ACCOUNT_ONE));
    assert!(registry.approve(ACCOUNT_ONE, &nft, 1, PACKAGE));

    // list at 100 with no expiry, cancel, and the purchase fails
    assert!(market
        .create_listing(&registry, ACCOUNT_ONE, 0, &nft, 1, 100, 0)
        .is_ok());
    assert!(market.cancel_listing(&registry, ACCOUNT_ONE, &nft, 1).is_ok());
    let buy_purse = ledger.create_purse();
    ledger.deposit(buy_purse, 1_000_000_000_000);
    assert_eq!(
        market.buy_listing(&mut registry, &mut ledger, ACCOUNT_TWO, 40, &nft, 1, buy_purse),
        Err(Error::OfferDoesntExistOrCancelled)
    );

    // re-list for 15 minutes and buy inside the window
    assert!(market
        .create_listing(&registry, ACCOUNT_ONE, 0, &nft, 1, 100, 15)
        .is_ok());
    assert!(market
        .buy_listing(&mut registry, &mut ledger, ACCOUNT_TWO, 40, &nft, 1, buy_purse)
        .is_ok());

    // funds moved buyer -> seller
    assert_eq!(ledger.purse_balance(buy_purse), 1_000_000_000_000 - 100);
    assert_eq!(ledger.account_balance(ACCOUNT_ONE), 100);
    // asset moved seller -> buyer
    assert_eq!(registry.get_token_owner(&nft, 1), Some(ACCOUNT_TWO));
    // record tombstoned
    let key = marketplace::get_listing_key(&nft, 1);
    assert_eq!(market.get_listing_data(&key), Err(Error::ListingCancelledOrFinished));
}

#[test]
fn offer_scenario_escrow_moves_to_owner() {
    let mut ledger = Ledger::new();
    let mut registry = Registry::new();
    let mut market = Marketplace::new(&mut ledger, PACKAGE);
    let nft = collection();
    assert!(registry.mint(&nft, 2, ACCOUNT_ONE));

    let offer_purse = ledger.create_purse();
    ledger.deposit(offer_purse, 5000);

    // offer of balance 5000, cancelled: the escrow comes back in full
    assert!(market
        .make_offer(&mut ledger, ACCOUNT_TWO, &nft, 2, offer_purse)
        .is_ok());
    assert_eq!(ledger.purse_balance(offer_purse), 0);
    assert!(market.cancel_offer(&mut ledger, ACCOUNT_TWO, &nft, 2).is_ok());
    assert_eq!(ledger.account_balance(ACCOUNT_TWO), 5000);

    // accepting after the cancel fails: the record is tombstoned
    assert_eq!(
        market.accept_offer(&mut registry, &mut ledger, ACCOUNT_ONE, &nft, 2, ACCOUNT_TWO),
        Err(Error::OfferCancelledOrFinished)
    );

    // offer again and accept: escrow moves to the owner, asset to the offerer
    ledger.deposit(offer_purse, 5000);
    assert!(market
        .make_offer(&mut ledger, ACCOUNT_TWO, &nft, 2, offer_purse)
        .is_ok());
    assert!(market
        .accept_offer(&mut registry, &mut ledger, ACCOUNT_ONE, &nft, 2, ACCOUNT_TWO)
        .is_ok());
    assert_eq!(ledger.account_balance(ACCOUNT_ONE), 5000);
    assert_eq!(registry.get_token_owner(&nft, 2), Some(ACCOUNT_TWO));
}

#[test]
fn auction_scenario_single_settlement() {
    let mut ledger = Ledger::new();
    let mut registry = Registry::new();
    let mut market = Marketplace::new(&mut ledger, PACKAGE);
    let nft = collection();
    assert!(registry.mint(&nft, 3, ACCOUNT_ONE));
    assert!(registry.approve(ACCOUNT_ONE, &nft, 3, PACKAGE));

    // starting price 1, 20 minutes, started at time 0
    assert!(market
        .start_auction(&registry, ACCOUNT_ONE, 0, &nft, 3, 1, 20)
        .is_ok());

    // at time 5, a bid of 2 leads
    let two_bid = ledger.create_purse();
    ledger.deposit(two_bid, 2);
    assert!(market
        .place_bid(&mut ledger, ACCOUNT_TWO, 5, &nft, 3, two_bid)
        .is_ok());

    // a second bid of exactly 2 is not strictly greater
    let equal_bid = ledger.create_purse();
    ledger.deposit(equal_bid, 2);
    assert_eq!(
        market.place_bid(&mut ledger, ACCOUNT_THREE, 5, &nft, 3, equal_bid),
        Err(Error::BidTooLow)
    );

    // a bid of 3 displaces the bid of 2; the displaced amount goes to the
    // recorded seller, the behaviour the operation table fixes
    ledger.deposit(equal_bid, 1);
    assert!(market
        .place_bid(&mut ledger, ACCOUNT_THREE, 5, &nft, 3, equal_bid)
        .is_ok());
    assert_eq!(ledger.account_balance(ACCOUNT_ONE), 2);
    assert_eq!(ledger.account_balance(ACCOUNT_TWO), 0);

    // well beyond the end time no further bid is accepted
    let late_bid = ledger.create_purse();
    ledger.deposit(late_bid, 10);
    assert_eq!(
        market.place_bid(&mut ledger, ACCOUNT_TWO, 60000 * 100, &nft, 3, late_bid),
        Err(Error::AuctionEnded)
    );

    // closing early fails; closing after the end time settles exactly once
    assert_eq!(
        market.end_auction(&mut registry, &mut ledger, 5, &nft, 3),
        Err(Error::AuctionNotFinished)
    );
    assert!(market
        .end_auction(&mut registry, &mut ledger, 60000 * 100, &nft, 3)
        .is_ok());
    // the payout goes to the recorded current winner, the behaviour the
    // operation table fixes, and the asset to the winner
    assert_eq!(ledger.account_balance(ACCOUNT_THREE), 3);
    assert_eq!(registry.get_token_owner(&nft, 3), Some(ACCOUNT_THREE));
    // the escrow purse is empty again: funds moved exactly once
    let auctions_purse = market.get_purse(marketplace::PurseName::AuctionsPurse);
    assert_eq!(ledger.purse_balance(auctions_purse), 0);
    // a second close is rejected on the tombstoned record
    assert_eq!(
        market.end_auction(&mut registry, &mut ledger, 60000 * 100, &nft, 3),
        Err(Error::AuctionCancelledOrFinished)
    );
}

#[test]
fn replacing_offer_refunds_prior_escrow() {
    let mut ledger = Ledger::new();
    let mut registry = Registry::new();
    let mut market = Marketplace::new(&mut ledger, PACKAGE);
    let nft = collection();
    assert!(registry.mint(&nft, 9, ACCOUNT_ONE));

    let offer_purse = ledger.create_purse();
    ledger.deposit(offer_purse, 50);
    assert!(market
        .make_offer(&mut ledger, ACCOUNT_TWO, &nft, 9, offer_purse)
        .is_ok());

    // the second offer first refunds the 50, then escrows the 70
    ledger.deposit(offer_purse, 70);
    assert!(market
        .make_offer(&mut ledger, ACCOUNT_TWO, &nft, 9, offer_purse)
        .is_ok());
    assert_eq!(ledger.account_balance(ACCOUNT_TWO), 50);
    let offers_purse = market.get_purse(marketplace::PurseName::OffersPurse);
    assert_eq!(ledger.purse_balance(offers_purse), 70);
    let key = marketplace::get_offer_key(&nft, 9, ACCOUNT_TWO);
    let offer = market.get_offer_data(&key).unwrap();
    assert_eq!(offer.price, 70);
}

#[test]
fn anti_snipe_window_extends_end_time() {
    let mut ledger = Ledger::new();
    let mut registry = Registry::new();
    let mut market = Marketplace::new(&mut ledger, PACKAGE);
    let nft = collection();
    assert!(registry.mint(&nft, 4, ACCOUNT_ONE));
    assert!(registry.approve(ACCOUNT_ONE, &nft, 4, PACKAGE));

    // 20 minutes from time 0: the auction ends at 1_200_000
    assert!(market
        .start_auction(&registry, ACCOUNT_ONE, 0, &nft, 4, 1, 20)
        .is_ok());
    let key = marketplace::get_listing_key(&nft, 4);

    // a bid with more than ten minutes left does not move the end time
    let early = ledger.create_purse();
    ledger.deposit(early, 2);
    assert!(market.place_bid(&mut ledger, ACCOUNT_TWO, 5, &nft, 4, early).is_ok());
    assert_eq!(market.get_auction_data(&key).unwrap().end_time, 1_200_000);

    // a bid with less than ten minutes left pushes it out by ten minutes
    let sniping = ledger.create_purse();
    ledger.deposit(sniping, 3);
    assert!(market
        .place_bid(&mut ledger, ACCOUNT_THREE, 700_000, &nft, 4, sniping)
        .is_ok());
    assert_eq!(market.get_auction_data(&key).unwrap().end_time, 1_800_000);

    // a bid exactly at the end time is still admitted...
    let at_end = ledger.create_purse();
    ledger.deposit(at_end, 4);
    assert!(market
        .place_bid(&mut ledger, ACCOUNT_TWO, 1_800_000, &nft, 4, at_end)
        .is_ok());
    // ...and, landing inside the window, extends again
    assert_eq!(market.get_auction_data(&key).unwrap().end_time, 2_400_000);

    // one millisecond past the end time is too late
    let past_end = ledger.create_purse();
    ledger.deposit(past_end, 5);
    assert_eq!(
        market.place_bid(&mut ledger, ACCOUNT_THREE, 2_400_001, &nft, 4, past_end),
        Err(Error::AuctionEnded)
    );
}

#[test]
fn set_royalties_changes_nothing() {
    let mut ledger = Ledger::new();
    let mut registry = Registry::new();
    let mut market = Marketplace::new(&mut ledger, PACKAGE);
    let nft = collection();
    assert!(registry.mint(&nft, 1, ACCOUNT_ONE));
    assert!(registry.approve(ACCOUNT_ONE, &nft, 1, PACKAGE));
    assert!(market
        .create_listing(&registry, ACCOUNT_ONE, 0, &nft, 1, 100, 0)
        .is_ok());
    market.set_royalties(&nft, 10);
    let key = marketplace::get_listing_key(&nft, 1);
    let listing = market.get_listing_data(&key).unwrap();
    assert_eq!(listing.price, 100);
    assert_eq!(listing.seller, ACCOUNT_ONE);
    assert_eq!(market.contract_package_hash(), PACKAGE);
}
