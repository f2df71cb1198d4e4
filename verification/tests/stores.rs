use marketplace::{Ledger, Marketplace, OfferData, Registry, Slot, Store};

#[test]
fn a_tombstone_differs_from_a_key_never_written() {
    let mut store: Store<OfferData> = Store::new();
    let written = String::from("a1");
    let never = String::from("b2");
    store.put(&written, Slot::Present(OfferData { price: 9, expiration_time: 0 }));
    match store.get(&written) {
        Some(Slot::Present(od)) => assert_eq!(od.price, 9),
        other => panic!("expected a live record, got {other:?}"),
    }
    store.put(&written, Slot::Absent);
    assert_eq!(store.get(&written), Some(Slot::Absent));
    assert_eq!(store.get(&never), None);
}

#[test]
fn a_later_write_replaces_an_earlier_one() {
    let mut store: Store<OfferData> = Store::new();
    let key = String::from("k");
    store.put(&key, Slot::Present(OfferData { price: 1, expiration_time: 0 }));
    store.put(&key, Slot::Present(OfferData { price: 2, expiration_time: 0 }));
    assert_eq!(
        store.get(&key),
        Some(Slot::Present(OfferData { price: 2, expiration_time: 0 }))
    );
}

#[test]
fn the_dictionaries_are_empty_on_installation() {
    let mut ledger = Ledger::new();
    let market = Marketplace::new(&mut ledger, 777);
    let key = marketplace::get_listing_key(&vec![1u8], 1);
    assert_eq!(market.get_listing_dictionary().get(&key), None);
    assert_eq!(market.get_offer_dictionary().get(&key), None);
    assert_eq!(market.get_acutin_dictionary().get(&key), None);
}

#[test]
fn purses_and_accounts_are_separate_balances() {
    let mut ledger = Ledger::new();
    let p = ledger.create_purse();
    let q = ledger.create_purse();
    ledger.deposit(p, 100);
    ledger.transfer_purse_to_purse(p, q, 40);
    assert_eq!(ledger.purse_balance(p), 60);
    assert_eq!(ledger.purse_balance(q), 40);
    ledger.transfer_purse_to_account(q, 5, 15);
    assert_eq!(ledger.purse_balance(q), 25);
    assert_eq!(ledger.account_balance(5), 15);
    assert_eq!(ledger.account_balance(6), 0);
}

#[test]
fn approvals_are_withdrawn_on_transfer() {
    let mut registry = Registry::new();
    let nft = vec![3u8; 4];
    assert!(registry.mint(&nft, 1, 10));
    assert!(!registry.mint(&nft, 1, 11));
    assert!(registry.approve(10, &nft, 1, 777));
    assert_eq!(registry.get_approved(&nft, 1, 10), Some(777));
    // queried under the wrong owner, the approval is invisible
    assert_eq!(registry.get_approved(&nft, 1, 11), None);
    registry.transfer_from(10, 11, &nft, 1);
    assert_eq!(registry.get_token_owner(&nft, 1), Some(11));
    assert_eq!(registry.get_approved(&nft, 1, 11), None);
}
