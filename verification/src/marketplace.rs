//! The marketplace engine: the nine state-changing operations over the three
//! record stores, the balance ledger and the asset registry. Each operation
//! is all-or-nothing: it validates every precondition against live data
//! first, and mutates only when the whole effect can be carried out, so a
//! failure never strands funds or assets.

use vstd::prelude::*;

use crate::errors::Error;
use crate::keys::{get_listing_key, get_offer_key, listing_key_spec, offer_key_spec};
use crate::ledger::{account_of, Ledger};
use crate::registry::{spec_approved, Registry, TokenState};
use crate::store::{Slot, Store};

verus! {

/// Milliseconds in one minute; durations arrive in minutes, times in
/// milliseconds.
pub const MILLISECONDS_IN_MINUTE: u64 = 60000;

/// Width of the anti-snipe window, and of the extension it grants, in
/// milliseconds.
pub const ANTI_SNIPE_MILLISECONDS: u64 = 600000;

/// A direct listing: the recorded seller, the asking price, and an optional
/// expiration time.
#[derive(Clone, Copy, Debug, PartialEq, Eq)]
pub struct ListingData {
    pub seller: u64,
    pub price: u64,
    pub expiration_time: Option<u64>,
}

/// An auction: the recorded seller, the starting price, the leading bid and
/// bidder, and the closing time.
#[derive(Clone, Copy, Debug, PartialEq, Eq)]
pub struct AuctionData {
    pub seller: u64,
    pub starting_price: u64,
    pub current_bid: u64,
    pub current_winner: u64,
    pub end_time: u64,
}

/// An offer: the escrowed amount and an expiration time (recorded, unused).
#[derive(Clone, Copy, Debug, PartialEq, Eq)]
pub struct OfferData {
    pub price: u64,
    pub expiration_time: u64,
}

/// The names under which the two custodial purses are resolved.
#[derive(Clone, Copy, Debug, PartialEq, Eq, Structural)]
pub enum PurseName {
    OffersPurse,
    AuctionsPurse,
}

/// The live record under a key: `None` both for a key never written and for
/// a tombstoned one.
pub open spec fn live_record<T>(m: Map<Seq<char>, Slot<T>>, k: Seq<char>) -> Option<T> {
    if m.dom().contains(k) {
        match m[k] {
            Slot::Present(v) => Some(v),
            Slot::Absent => None,
        }
    } else {
        None
    }
}

/// The marketplace: the three record stores, the numbers of the two
/// custodial purses, and the package identity approvals are checked against.
pub struct Marketplace {
    listings: Store<ListingData>,
    offers: Store<OfferData>,
    auctions: Store<AuctionData>,
    offers_purse: usize,
    auctions_purse: usize,
    package: u64,
}

impl Marketplace {
    /// The listing records, by derived listing key.
    pub closed spec fn listings(&self) -> Map<Seq<char>, Slot<ListingData>> {
        self.listings@
    }

    /// The offer records, by derived offer key.
    pub closed spec fn offers(&self) -> Map<Seq<char>, Slot<OfferData>> {
        self.offers@
    }

    /// The auction records, by derived listing key.
    pub closed spec fn auctions(&self) -> Map<Seq<char>, Slot<AuctionData>> {
        self.auctions@
    }

    /// The purse offer escrow is held in.
    pub closed spec fn spec_offers_purse(&self) -> int {
        self.offers_purse as int
    }

    /// The purse auction escrow is held in.
    pub closed spec fn spec_auctions_purse(&self) -> int {
        self.auctions_purse as int
    }

    /// The marketplace's own package identity.
    pub closed spec fn spec_package(&self) -> u64 {
        self.package
    }

    /// The stores keep their keys unique and the two custodial purses are
    /// distinct.
    pub closed spec fn wf(&self) -> bool {
        self.listings.wf() && self.offers.wf() && self.auctions.wf() && self.offers_purse
            != self.auctions_purse
    }

    /// Both custodial purses exist in the ledger.
    pub open spec fn purses_ok(&self, ledger: &Ledger) -> bool {
        self.spec_offers_purse() < ledger.purses().len() && self.spec_auctions_purse()
            < ledger.purses().len()
    }

    /// The purse numbers and package identity of two engine values agree.
    pub open spec fn config_unchanged(pre: &Marketplace, post: &Marketplace) -> bool {
        post.spec_offers_purse() == pre.spec_offers_purse() && post.spec_auctions_purse()
            == pre.spec_auctions_purse() && post.spec_package() == pre.spec_package()
    }

    /// Sets up a marketplace: empty stores, and the two custodial purses
    /// created once, up front, in the given ledger.
    pub fn new(ledger: &mut Ledger, package: u64) -> (m: Marketplace)
        requires
            old(ledger).wf(),
        ensures
            final(ledger).wf(),
            m.wf(),
            m.purses_ok(final(ledger)),
            m.listings() == Map::<Seq<char>, Slot<ListingData>>::empty(),
            m.offers() == Map::<Seq<char>, Slot<OfferData>>::empty(),
            m.auctions() == Map::<Seq<char>, Slot<AuctionData>>::empty(),
            m.spec_package() == package,
            final(ledger).purses() == old(ledger).purses().push(0u64).push(0u64),
            final(ledger).accounts() == old(ledger).accounts(),
            m.spec_offers_purse() == old(ledger).purses().len(),
            m.spec_auctions_purse() == old(ledger).purses().len() + 1,
    {
        let offers_purse = ledger.create_purse();
        let auctions_purse = ledger.create_purse();
        Marketplace {
            listings: Store::new(),
            offers: Store::new(),
            auctions: Store::new(),
            offers_purse,
            auctions_purse,
            package,
        }
    }

    /// The marketplace's package identity, the value an asset's transfer
    /// approval must name.
    pub fn contract_package_hash(&self) -> (r: u64)
        ensures
            r == self.spec_package(),
    {
        self.package
    }

    /// The number of a custodial purse.
    pub fn get_purse(&self, name: PurseName) -> (p: usize)
        ensures
            name == PurseName::OffersPurse ==> p == self.spec_offers_purse(),
            name == PurseName::AuctionsPurse ==> p == self.spec_auctions_purse(),
    {
        match name {
            PurseName::OffersPurse => self.offers_purse,
            PurseName::AuctionsPurse => self.auctions_purse,
        }
    }

    /// True when the asset's owner has pre-authorized transfers by the
    /// marketplace's package identity.
    pub fn transfer_approved(
        &self,
        registry: &Registry,
        collection: &Vec<u8>,
        token_id: u64,
        owner: u64,
    ) -> (r: bool)
        requires
            registry.wf(),
        ensures
            r == (spec_approved(registry@, collection@, token_id, owner) == Some(
                self.spec_package(),
            )),
    {
        match registry.get_approved(collection, token_id, owner) {
            Some(a) => a == self.package,
            None => false,
        }
    }

    /// Writes a listing for an asset the caller owns and has pre-authorized
    /// for transfer; a duration of zero minutes means the listing never
    /// expires.
    pub fn create_listing(
        &mut self,
        registry: &Registry,
        caller: u64,
        now: u64,
        collection: &Vec<u8>,
        token_id: u64,
        price: u64,
        duration_minutes: u64,
    ) -> (r: Result<(), Error>)
        requires
            old(self).wf(),
            registry.wf(),
        ensures
            final(self).wf(),
            Self::config_unchanged(old(self), final(self)),
            final(self).offers() == old(self).offers(),
            final(self).auctions() == old(self).auctions(),
            ({
                let o = create_listing_outcome(
                    registry@,
                    old(self).spec_package(),
                    caller,
                    now,
                    collection@,
                    token_id,
                    price,
                    duration_minutes,
                );
                match o {
                    Ok(ld) => r is Ok && final(self).listings() == old(self).listings().insert(
                        listing_key_spec(collection@, token_id),
                        Slot::Present(ld),
                    ),
                    Err(e) => r == Err::<(), Error>(e) && final(self).listings() == old(
                        self,
                    ).listings(),
                }
            }),
    {
        if price == 0 {
            return Err(Error::PriceSetToZero);
        }
        let owner = match registry.get_token_owner(collection, token_id) {
            Some(o) => o,
            None => {
                return Err(Error::PermissionDenied);
            },
        };
        if owner != caller {
            return Err(Error::PermissionDenied);
        }
        if !self.transfer_approved(registry, collection, token_id, caller) {
            return Err(Error::NeedsTransferApproval);
        }
        let expiration_time: Option<u64> = if duration_minutes > 0 {
            let ms = match duration_minutes.checked_mul(MILLISECONDS_IN_MINUTE) {
                Some(v) => v,
                None => {
                    return Err(Error::AmountOverflow);
                },
            };
            match now.checked_add(ms) {
                Some(e) => Some(e),
                None => {
                    return Err(Error::AmountOverflow);
                },
            }
        } else {
            None
        };
        let key = get_listing_key(collection, token_id);
        self.listings.put(&key, Slot::Present(ListingData { seller: caller, price, expiration_time }));
        Ok(())
    }

    /// Tombstones the asset's listing; only the asset's current owner may.
    pub fn cancel_listing(
        &mut self,
        registry: &Registry,
        caller: u64,
        collection: &Vec<u8>,
        token_id: u64,
    ) -> (r: Result<(), Error>)
        requires
            old(self).wf(),
            registry.wf(),
        ensures
            final(self).wf(),
            Self::config_unchanged(old(self), final(self)),
            final(self).offers() == old(self).offers(),
            final(self).auctions() == old(self).auctions(),
            ({
                let o = cancel_listing_outcome(registry@, caller, collection@, token_id);
                match o {
                    Ok(u) => r is Ok && final(self).listings() == old(self).listings().insert(
                        listing_key_spec(collection@, token_id),
                        Slot::Absent,
                    ),
                    Err(e) => r == Err::<(), Error>(e) && final(self).listings() == old(
                        self,
                    ).listings(),
                }
            }),
    {
        let owner = match registry.get_token_owner(collection, token_id) {
            Some(o) => o,
            None => {
                return Err(Error::PermissionDenied);
            },
        };
        if owner != caller {
            return Err(Error::PermissionDenied);
        }
        let key = get_listing_key(collection, token_id);
        self.listings.put(&key, Slot::Absent);
        Ok(())
    }

    /// Buys a live, unexpired listing: pays the asking price from the
    /// buyer's source purse to the recorded seller, has the registry move
    /// the asset from the seller to the buyer, and tombstones the listing.
    pub fn buy_listing(
        &mut self,
        registry: &mut Registry,
        ledger: &mut Ledger,
        buyer: u64,
        now: u64,
        collection: &Vec<u8>,
        token_id: u64,
        buy_purse: usize,
    ) -> (r: Result<(), Error>)
        requires
            old(self).wf(),
            old(registry).wf(),
            old(ledger).wf(),
            buy_purse < old(ledger).purses().len(),
        ensures
            final(self).wf(),
            final(registry).wf(),
            final(ledger).wf(),
            Self::config_unchanged(old(self), final(self)),
            final(self).offers() == old(self).offers(),
            final(self).auctions() == old(self).auctions(),
            final(ledger).purses().len() == old(ledger).purses().len(),
            ({
                let k = listing_key_spec(collection@, token_id);
                let o = buy_listing_outcome(
                    old(self).listings(),
                    old(registry)@,
                    old(ledger).accounts(),
                    old(ledger).purses()[buy_purse as int],
                    now,
                    collection@,
                    token_id,
                );
                match o {
                    Ok(ld) => r is Ok && final(self).listings() == old(self).listings().insert(
                        k,
                        Slot::Absent,
                    ) && final(ledger).purses() == old(ledger).purses().update(
                        buy_purse as int,
                        (old(ledger).purses()[buy_purse as int] - ld.price) as u64,
                    ) && final(ledger).accounts() == old(ledger).accounts().insert(
                        ld.seller,
                        (old(ledger).account_bal(ld.seller) + ld.price) as u64,
                    ) && final(registry)@ == old(registry)@.insert(
                        (collection@, token_id),
                        (TokenState { owner: buyer, approved: None }),
                    ),
                    Err(e) => {
                        &&& r == Err::<(), Error>(e)
                        &&& final(self).listings() == old(self).listings()
                        &&& final(ledger).purses() == old(ledger).purses()
                        &&& final(ledger).accounts() == old(ledger).accounts()
                        &&& final(registry)@ == old(registry)@
                    },
                }
            }),
    {
        let purse_balance = ledger.purse_balance(buy_purse);
        let key = get_listing_key(collection, token_id);
        let listing = match self.listings.get(&key) {
            Some(Slot::Present(ld)) => ld,
            _ => {
                return Err(Error::OfferDoesntExistOrCancelled);
            },
        };
        if purse_balance < listing.price {
            return Err(Error::BalanceInsufficient);
        }
        match listing.expiration_time {
            Some(e) => {
                if now > e {
                    return Err(Error::ListingExpired);
                }
            },
            None => {},
        }
        let owner = match registry.get_token_owner(collection, token_id) {
            Some(o) => o,
            None => {
                return Err(Error::PermissionDenied);
            },
        };
        if owner != listing.seller {
            return Err(Error::PermissionDenied);
        }
        let seller_bal = ledger.account_balance(listing.seller);
        if listing.price > u64::MAX - seller_bal {
            return Err(Error::AmountOverflow);
        }
        ledger.transfer_purse_to_account(buy_purse, listing.seller, listing.price);
        registry.transfer_from(listing.seller, buyer, collection, token_id);
        self.listings.put(&key, Slot::Absent);
        Ok(())
    }

    /// Escrows the full balance of the caller's source purse as an offer on
    /// an asset; a prior offer by the same caller is first refunded in full
    /// to the caller, so the new amount replaces the old, never adds to it.
    pub fn make_offer(
        &mut self,
        ledger: &mut Ledger,
        caller: u64,
        collection: &Vec<u8>,
        token_id: u64,
        offer_purse: usize,
    ) -> (r: Result<(), Error>)
        requires
            old(self).wf(),
            old(ledger).wf(),
            old(self).purses_ok(old(ledger)),
            offer_purse < old(ledger).purses().len(),
            offer_purse != old(self).spec_offers_purse(),
        ensures
            final(self).wf(),
            final(ledger).wf(),
            Self::config_unchanged(old(self), final(self)),
            final(self).listings() == old(self).listings(),
            final(self).auctions() == old(self).auctions(),
            final(ledger).purses().len() == old(ledger).purses().len(),
            ({
                let k = offer_key_spec(collection@, token_id, caller);
                let a = old(self).spec_offers_purse();
                let balance = old(ledger).purses()[offer_purse as int];
                let prior = live_record(old(self).offers(), k);
                let refund: u64 = match prior {
                    Some(od) => od.price,
                    None => 0,
                };
                let o = make_offer_outcome(
                    old(self).offers(),
                    old(ledger).purses(),
                    old(ledger).accounts(),
                    a,
                    caller,
                    collection@,
                    token_id,
                    offer_purse as int,
                );
                match o {
                    Ok(od) => {
                        &&& r is Ok
                        &&& final(self).offers() == old(self).offers().insert(k, Slot::Present(od))
                        &&& final(ledger).purses() == old(ledger).purses().update(
                            offer_purse as int,
                            0u64,
                        ).update(a, (old(ledger).purses()[a] - refund + balance) as u64)
                        &&& final(ledger).accounts() == (match prior {
                            Some(od) => old(ledger).accounts().insert(
                                caller,
                                (old(ledger).account_bal(caller) + od.price) as u64,
                            ),
                            None => old(ledger).accounts(),
                        })
                    },
                    Err(e) => {
                        &&& r == Err::<(), Error>(e)
                        &&& final(self).offers() == old(self).offers()
                        &&& final(ledger).purses() == old(ledger).purses()
                        &&& final(ledger).accounts() == old(ledger).accounts()
                    },
                }
            }),
    {
        let balance = ledger.purse_balance(offer_purse);
        let key = get_offer_key(collection, token_id, caller);
        let prior: Option<OfferData> = match self.offers.get(&key) {
            Some(Slot::Present(od)) => Some(od),
            _ => None,
        };
        let offers_bal = ledger.purse_balance(self.offers_purse);
        let refund = match prior {
            Some(od) => od.price,
            None => 0,
        };
        if offers_bal < refund {
            return Err(Error::BalanceInsufficient);
        }
        let caller_bal = ledger.account_balance(caller);
        if refund > u64::MAX - caller_bal {
            return Err(Error::AmountOverflow);
        }
        if balance > u64::MAX - (offers_bal - refund) {
            return Err(Error::AmountOverflow);
        }
        match prior {
            Some(_) => ledger.transfer_purse_to_account(self.offers_purse, caller, refund),
            None => {},
        }
        ledger.transfer_purse_to_purse(offer_purse, self.offers_purse, balance);
        self.offers.put(&key, Slot::Present(OfferData { price: balance, expiration_time: 0 }));
        proof {
            let a = old(self).spec_offers_purse();
            assert(final(ledger).purses() =~= old(ledger).purses().update(
                offer_purse as int,
                0u64,
            ).update(a, (old(ledger).purses()[a] - refund + balance) as u64));
        }
        Ok(())
    }

    /// Accepts a live offer on an asset the caller owns: pays the escrowed
    /// amount to the caller, has the registry move the asset from the caller
    /// to the offerer, and tombstones the offer.
    pub fn accept_offer(
        &mut self,
        registry: &mut Registry,
        ledger: &mut Ledger,
        caller: u64,
        collection: &Vec<u8>,
        token_id: u64,
        offerer: u64,
    ) -> (r: Result<(), Error>)
        requires
            old(self).wf(),
            old(registry).wf(),
            old(ledger).wf(),
            old(self).purses_ok(old(ledger)),
        ensures
            final(self).wf(),
            final(registry).wf(),
            final(ledger).wf(),
            Self::config_unchanged(old(self), final(self)),
            final(self).listings() == old(self).listings(),
            final(self).auctions() == old(self).auctions(),
            final(ledger).purses().len() == old(ledger).purses().len(),
            ({
                let k = offer_key_spec(collection@, token_id, offerer);
                let a = old(self).spec_offers_purse();
                let o = accept_offer_outcome(
                    old(self).offers(),
                    old(registry)@,
                    old(ledger).purses(),
                    old(ledger).accounts(),
                    a,
                    caller,
                    collection@,
                    token_id,
                    offerer,
                );
                match o {
                    Ok(od) => {
                        &&& r is Ok
                        &&& final(self).offers() == old(self).offers().insert(k, Slot::Absent)
                        &&& final(ledger).purses() == old(ledger).purses().update(
                            a,
                            (old(ledger).purses()[a] - od.price) as u64,
                        )
                        &&& final(ledger).accounts() == old(ledger).accounts().insert(
                            caller,
                            (old(ledger).account_bal(caller) + od.price) as u64,
                        )
                        &&& final(registry)@ == old(registry)@.insert(
                            (collection@, token_id),
                            (TokenState { owner: offerer, approved: None }),
                        )
                    },
                    Err(e) => {
                        &&& r == Err::<(), Error>(e)
                        &&& final(self).offers() == old(self).offers()
                        &&& final(ledger).purses() == old(ledger).purses()
                        &&& final(ledger).accounts() == old(ledger).accounts()
                        &&& final(registry)@ == old(registry)@
                    },
                }
            }),
    {
        let owner = match registry.get_token_owner(collection, token_id) {
            Some(o) => o,
            None => {
                return Err(Error::PermissionDenied);
            },
        };
        if owner != caller {
            return Err(Error::PermissionDenied);
        }
        let key = get_offer_key(collection, token_id, offerer);
        let offer = match self.offers.get(&key) {
            Some(Slot::Present(od)) => od,
            Some(Slot::Absent) => {
                return Err(Error::OfferCancelledOrFinished);
            },
            None => {
                return Err(Error::OfferDoesntExistOrCancelled);
            },
        };
        let offers_bal = ledger.purse_balance(self.offers_purse);
        if offers_bal < offer.price {
            return Err(Error::BalanceInsufficient);
        }
        let caller_bal = ledger.account_balance(caller);
        if offer.price > u64::MAX - caller_bal {
            return Err(Error::AmountOverflow);
        }
        ledger.transfer_purse_to_account(self.offers_purse, caller, offer.price);
        registry.transfer_from(caller, offerer, collection, token_id);
        self.offers.put(&key, Slot::Absent);
        Ok(())
    }

    /// Withdraws the caller's own live offer: refunds the escrowed amount to
    /// the caller and tombstones the offer.
    pub fn cancel_offer(
        &mut self,
        ledger: &mut Ledger,
        caller: u64,
        collection: &Vec<u8>,
        token_id: u64,
    ) -> (r: Result<(), Error>)
        requires
            old(self).wf(),
            old(ledger).wf(),
            old(self).purses_ok(old(ledger)),
        ensures
            final(self).wf(),
            final(ledger).wf(),
            Self::config_unchanged(old(self), final(self)),
            final(self).listings() == old(self).listings(),
            final(self).auctions() == old(self).auctions(),
            final(ledger).purses().len() == old(ledger).purses().len(),
            ({
                let k = offer_key_spec(collection@, token_id, caller);
                let a = old(self).spec_offers_purse();
                let o = cancel_offer_outcome(
                    old(self).offers(),
                    old(ledger).purses(),
                    old(ledger).accounts(),
                    a,
                    caller,
                    collection@,
                    token_id,
                );
                match o {
                    Ok(od) => {
                        &&& r is Ok
                        &&& final(self).offers() == old(self).offers().insert(k, Slot::Absent)
                        &&& final(ledger).purses() == old(ledger).purses().update(
                            a,
                            (old(ledger).purses()[a] - od.price) as u64,
                        )
                        &&& final(ledger).accounts() == old(ledger).accounts().insert(
                            caller,
                            (old(ledger).account_bal(caller) + od.price) as u64,
                        )
                    },
                    Err(e) => {
                        &&& r == Err::<(), Error>(e)
                        &&& final(self).offers() == old(self).offers()
                        &&& final(ledger).purses() == old(ledger).purses()
                        &&& final(ledger).accounts() == old(ledger).accounts()
                    },
                }
            }),
    {
        let key = get_offer_key(collection, token_id, caller);
        let offer = match self.offers.get(&key) {
            Some(Slot::Present(od)) => od,
            _ => {
                return Err(Error::OfferDoesntExistOrCancelled);
            },
        };
        let offers_bal = ledger.purse_balance(self.offers_purse);
        if offers_bal < offer.price {
            return Err(Error::BalanceInsufficient);
        }
        let caller_bal = ledger.account_balance(caller);
        if offer.price > u64::MAX - caller_bal {
            return Err(Error::AmountOverflow);
        }
        ledger.transfer_purse_to_account(self.offers_purse, caller, offer.price);
        self.offers.put(&key, Slot::Absent);
        Ok(())
    }

    /// Opens an English auction on an asset the caller has pre-authorized
    /// for transfer: the starting price stands as the initial current bid and
    /// the caller as the initial placeholder winner.
    pub fn start_auction(
        &mut self,
        registry: &Registry,
        caller: u64,
        now: u64,
        collection: &Vec<u8>,
        token_id: u64,
        price: u64,
        duration_minutes: u64,
    ) -> (r: Result<(), Error>)
        requires
            old(self).wf(),
            registry.wf(),
        ensures
            final(self).wf(),
            Self::config_unchanged(old(self), final(self)),
            final(self).listings() == old(self).listings(),
            final(self).offers() == old(self).offers(),
            ({
                let o = start_auction_outcome(
                    registry@,
                    old(self).spec_package(),
                    caller,
                    now,
                    collection@,
                    token_id,
                    price,
                    duration_minutes,
                );
                match o {
                    Ok(ad) => r is Ok && final(self).auctions() == old(self).auctions().insert(
                        listing_key_spec(collection@, token_id),
                        Slot::Present(ad),
                    ),
                    Err(e) => r == Err::<(), Error>(e) && final(self).auctions() == old(
                        self,
                    ).auctions(),
                }
            }),
    {
        if !self.transfer_approved(registry, collection, token_id, caller) {
            return Err(Error::NeedsTransferApproval);
        }
        let ms = match duration_minutes.checked_mul(MILLISECONDS_IN_MINUTE) {
            Some(v) => v,
            None => {
                return Err(Error::AmountOverflow);
            },
        };
        let end_time = match now.checked_add(ms) {
            Some(e) => e,
            None => {
                return Err(Error::AmountOverflow);
            },
        };
        let key = get_listing_key(collection, token_id);
        self.auctions.put(
            &key,
            Slot::Present(
                AuctionData {
                    seller: caller,
                    starting_price: price,
                    current_bid: price,
                    current_winner: caller,
                    end_time,
                },
            ),
        );
        Ok(())
    }

    /// Places a bid: the full balance of the bidder's source purse, which
    /// must strictly exceed the current bid, is escrowed; a displaced real
    /// bid is refunded to the recorded seller (the behaviour the operation
    /// table fixes); a bid landing inside the anti-snipe window pushes the
    /// end time out by the same width.
    pub fn place_bid(
        &mut self,
        ledger: &mut Ledger,
        caller: u64,
        now: u64,
        collection: &Vec<u8>,
        token_id: u64,
        bid_purse: usize,
    ) -> (r: Result<(), Error>)
        requires
            old(self).wf(),
            old(ledger).wf(),
            old(self).purses_ok(old(ledger)),
            bid_purse < old(ledger).purses().len(),
            bid_purse != old(self).spec_auctions_purse(),
        ensures
            final(self).wf(),
            final(ledger).wf(),
            Self::config_unchanged(old(self), final(self)),
            final(self).listings() == old(self).listings(),
            final(self).offers() == old(self).offers(),
            final(ledger).purses().len() == old(ledger).purses().len(),
            ({
                let k = listing_key_spec(collection@, token_id);
                let a = old(self).spec_auctions_purse();
                let balance = old(ledger).purses()[bid_purse as int];
                let prior = live_record(old(self).auctions(), k);
                let o = place_bid_outcome(
                    old(self).auctions(),
                    old(ledger).purses(),
                    old(ledger).accounts(),
                    a,
                    caller,
                    now,
                    collection@,
                    token_id,
                    bid_purse as int,
                );
                match o {
                    Ok(ad) => {
                        &&& r is Ok
                        &&& prior is Some
                        &&& final(self).auctions() == old(self).auctions().insert(
                            k,
                            Slot::Present(ad),
                        )
                        &&& ({
                            let pre = prior->0;
                            let refund: u64 = if pre.current_bid != pre.starting_price {
                                pre.current_bid
                            } else {
                                0
                            };
                            &&& final(ledger).purses() == old(ledger).purses().update(
                                bid_purse as int,
                                0u64,
                            ).update(a, (old(ledger).purses()[a] - refund + balance) as u64)
                            &&& final(ledger).accounts() == (if pre.current_bid
                                != pre.starting_price {
                                old(ledger).accounts().insert(
                                    pre.seller,
                                    (old(ledger).account_bal(pre.seller) + pre.current_bid) as u64,
                                )
                            } else {
                                old(ledger).accounts()
                            })
                        })
                    },
                    Err(e) => {
                        &&& r == Err::<(), Error>(e)
                        &&& final(self).auctions() == old(self).auctions()
                        &&& final(ledger).purses() == old(ledger).purses()
                        &&& final(ledger).accounts() == old(ledger).accounts()
                    },
                }
            }),
    {
        let balance = ledger.purse_balance(bid_purse);
        let key = get_listing_key(collection, token_id);
        let ad = match self.auctions.get(&key) {
            Some(Slot::Present(a)) => a,
            Some(Slot::Absent) => {
                return Err(Error::AuctionCancelledOrFinished);
            },
            None => {
                return Err(Error::AuctionDoesntExist);
            },
        };
        if balance <= ad.current_bid {
            return Err(Error::BidTooLow);
        }
        if now > ad.end_time {
            return Err(Error::AuctionEnded);
        }
        let new_end = if ad.end_time - now < ANTI_SNIPE_MILLISECONDS {
            match ad.end_time.checked_add(ANTI_SNIPE_MILLISECONDS) {
                Some(e) => e,
                None => {
                    return Err(Error::AmountOverflow);
                },
            }
        } else {
            ad.end_time
        };
        let refund: u64 = if ad.current_bid != ad.starting_price {
            ad.current_bid
        } else {
            0
        };
        let auctions_bal = ledger.purse_balance(self.auctions_purse);
        if auctions_bal < refund {
            return Err(Error::BalanceInsufficient);
        }
        let seller_bal = ledger.account_balance(ad.seller);
        if refund > u64::MAX - seller_bal {
            return Err(Error::AmountOverflow);
        }
        if balance > u64::MAX - (auctions_bal - refund) {
            return Err(Error::AmountOverflow);
        }
        if ad.current_bid != ad.starting_price {
            ledger.transfer_purse_to_account(self.auctions_purse, ad.seller, refund);
        }
        ledger.transfer_purse_to_purse(bid_purse, self.auctions_purse, balance);
        self.auctions.put(
            &key,
            Slot::Present(
                AuctionData {
                    seller: ad.seller,
                    starting_price: ad.starting_price,
                    current_bid: balance,
                    current_winner: caller,
                    end_time: new_end,
                },
            ),
        );
        proof {
            let a = old(self).spec_auctions_purse();
            assert(final(ledger).purses() =~= old(ledger).purses().update(
                bid_purse as int,
                0u64,
            ).update(a, (old(ledger).purses()[a] - refund + balance) as u64));
        }
        Ok(())
    }

    /// Closes an auction whose end time has passed. With at least one real
    /// bid, the escrowed winning bid is paid out to the recorded current
    /// winner (the behaviour the operation table fixes) and the registry
    /// moves the asset from the seller to the winner; with none, nothing
    /// moves. Either way the record is tombstoned, so a second close is
    /// rejected.
    pub fn end_auction(
        &mut self,
        registry: &mut Registry,
        ledger: &mut Ledger,
        now: u64,
        collection: &Vec<u8>,
        token_id: u64,
    ) -> (r: Result<(), Error>)
        requires
            old(self).wf(),
            old(registry).wf(),
            old(ledger).wf(),
            old(self).purses_ok(old(ledger)),
        ensures
            final(self).wf(),
            final(registry).wf(),
            final(ledger).wf(),
            Self::config_unchanged(old(self), final(self)),
            final(self).listings() == old(self).listings(),
            final(self).offers() == old(self).offers(),
            final(ledger).purses().len() == old(ledger).purses().len(),
            ({
                let k = listing_key_spec(collection@, token_id);
                let a = old(self).spec_auctions_purse();
                let o = end_auction_outcome(
                    old(self).auctions(),
                    old(registry)@,
                    old(ledger).purses(),
                    old(ledger).accounts(),
                    a,
                    now,
                    collection@,
                    token_id,
                );
                match o {
                    Ok(ad) => {
                        &&& r is Ok
                        &&& final(self).auctions() == old(self).auctions().insert(k, Slot::Absent)
                        &&& (if ad.current_bid != ad.starting_price {
                            &&& final(ledger).purses() == old(ledger).purses().update(
                                a,
                                (old(ledger).purses()[a] - ad.current_bid) as u64,
                            )
                            &&& final(ledger).accounts() == old(ledger).accounts().insert(
                                ad.current_winner,
                                (old(ledger).account_bal(ad.current_winner) + ad.current_bid) as u64,
                            )
                            &&& final(registry)@ == old(registry)@.insert(
                                (collection@, token_id),
                                (TokenState { owner: ad.current_winner, approved: None }),
                            )
                        } else {
                            &&& final(ledger).purses() == old(ledger).purses()
                            &&& final(ledger).accounts() == old(ledger).accounts()
                            &&& final(registry)@ == old(registry)@
                        })
                    },
                    Err(e) => {
                        &&& r == Err::<(), Error>(e)
                        &&& final(self).auctions() == old(self).auctions()
                        &&& final(ledger).purses() == old(ledger).purses()
                        &&& final(ledger).accounts() == old(ledger).accounts()
                        &&& final(registry)@ == old(registry)@
                    },
                }
            }),
    {
        let key = get_listing_key(collection, token_id);
        let ad = match self.auctions.get(&key) {
            Some(Slot::Present(a)) => a,
            Some(Slot::Absent) => {
                return Err(Error::AuctionCancelledOrFinished);
            },
            None => {
                return Err(Error::AuctionDoesntExist);
            },
        };
        if now < ad.end_time {
            return Err(Error::AuctionNotFinished);
        }
        if ad.current_bid != ad.starting_price {
            let owner = match registry.get_token_owner(collection, token_id) {
                Some(o) => o,
                None => {
                    return Err(Error::PermissionDenied);
                },
            };
            if owner != ad.seller {
                return Err(Error::PermissionDenied);
            }
            let auctions_bal = ledger.purse_balance(self.auctions_purse);
            if auctions_bal < ad.current_bid {
                return Err(Error::BalanceInsufficient);
            }
            let winner_bal = ledger.account_balance(ad.current_winner);
            if ad.current_bid > u64::MAX - winner_bal {
                return Err(Error::AmountOverflow);
            }
            ledger.transfer_purse_to_account(self.auctions_purse, ad.current_winner, ad.current_bid);
            registry.transfer_from(ad.seller, ad.current_winner, collection, token_id);
        }
        self.auctions.put(&key, Slot::Absent);
        Ok(())
    }

    /// Royalty configuration is intentionally unimplemented: the call reads
    /// its arguments and changes nothing.
    pub fn set_royalties(&mut self, _collection: &Vec<u8>, _royalties_percentage: u64)
        ensures
            *final(self) == *old(self),
    {
    }

    /// The listing record store.
    pub fn get_listing_dictionary(&self) -> (r: &Store<ListingData>)
        ensures
            r@ == self.listings(),
            self.wf() ==> r.wf(),
    {
        &self.listings
    }

    /// The offer record store.
    pub fn get_offer_dictionary(&self) -> (r: &Store<OfferData>)
        ensures
            r@ == self.offers(),
            self.wf() ==> r.wf(),
    {
        &self.offers
    }

    /// The auction record store.
    pub fn get_acutin_dictionary(&self) -> (r: &Store<AuctionData>)
        ensures
            r@ == self.auctions(),
            self.wf() ==> r.wf(),
    {
        &self.auctions
    }

    /// The listing under a derived key, or which absent state the slot is in.
    pub fn get_listing_data(&self, key: &String) -> (r: Result<ListingData, Error>)
        requires
            self.wf(),
        ensures
            r == record_or(
                self.listings(),
                key@,
                Error::ListingDoesntExist,
                Error::ListingCancelledOrFinished,
            ),
    {
        match self.listings.get(key) {
            Some(Slot::Present(v)) => Ok(v),
            Some(Slot::Absent) => Err(Error::ListingCancelledOrFinished),
            None => Err(Error::ListingDoesntExist),
        }
    }

    /// The offer under a derived key, or which absent state the slot is in.
    pub fn get_offer_data(&self, key: &String) -> (r: Result<OfferData, Error>)
        requires
            self.wf(),
        ensures
            r == record_or(
                self.offers(),
                key@,
                Error::OfferDoesntExist,
                Error::OfferCancelledOrFinished,
            ),
    {
        match self.offers.get(key) {
            Some(Slot::Present(v)) => Ok(v),
            Some(Slot::Absent) => Err(Error::OfferCancelledOrFinished),
            None => Err(Error::OfferDoesntExist),
        }
    }

    /// The auction under a derived key, or which absent state the slot is in.
    pub fn get_auction_data(&self, key: &String) -> (r: Result<AuctionData, Error>)
        requires
            self.wf(),
        ensures
            r == record_or(
                self.auctions(),
                key@,
                Error::AuctionDoesntExist,
                Error::AuctionCancelledOrFinished,
            ),
    {
        match self.auctions.get(key) {
            Some(Slot::Present(v)) => Ok(v),
            Some(Slot::Absent) => Err(Error::AuctionCancelledOrFinished),
            None => Err(Error::AuctionDoesntExist),
        }
    }
}

/// The record under a key, or the error telling a key never written apart
/// from a tombstoned one.
pub open spec fn record_or<T>(
    m: Map<Seq<char>, Slot<T>>,
    k: Seq<char>,
    missing: Error,
    tombstoned: Error,
) -> Result<T, Error> {
    if !m.dom().contains(k) {
        Err(missing)
    } else {
        match m[k] {
            Slot::Present(v) => Ok(v),
            Slot::Absent => Err(tombstoned),
        }
    }
}

/// What `create_listing` decides: the listing to write, or the error, from
/// the registry's live data and the call's arguments.
pub open spec fn create_listing_outcome(
    tokens: Map<(Seq<u8>, u64), TokenState>,
    package: u64,
    caller: u64,
    now: u64,
    collection: Seq<u8>,
    token_id: u64,
    price: u64,
    duration_minutes: u64,
) -> Result<ListingData, Error> {
    if price == 0 {
        Err(Error::PriceSetToZero)
    } else if !tokens.dom().contains((collection, token_id)) || tokens[
        (collection, token_id)
    ].owner != caller {
        Err(Error::PermissionDenied)
    } else if spec_approved(tokens, collection, token_id, caller) != Some(package) {
        Err(Error::NeedsTransferApproval)
    } else if duration_minutes > 0 && now + duration_minutes * MILLISECONDS_IN_MINUTE > u64::MAX {
        Err(Error::AmountOverflow)
    } else {
        Ok(
            ListingData {
                seller: caller,
                price,
                expiration_time: if duration_minutes > 0 {
                    Some((now + duration_minutes * MILLISECONDS_IN_MINUTE) as u64)
                } else {
                    None
                },
            },
        )
    }
}

/// What `buy_listing` decides: the listing being bought, or the error, from
/// the live records, the registry, the buyer's source balance and the time.
pub open spec fn buy_listing_outcome(
    listings: Map<Seq<char>, Slot<ListingData>>,
    tokens: Map<(Seq<u8>, u64), TokenState>,
    accounts: Map<u64, u64>,
    purse_balance: u64,
    now: u64,
    collection: Seq<u8>,
    token_id: u64,
) -> Result<ListingData, Error> {
    let k = listing_key_spec(collection, token_id);
    match live_record(listings, k) {
        None => Err(Error::OfferDoesntExistOrCancelled),
        Some(ld) => {
            if purse_balance < ld.price {
                Err(Error::BalanceInsufficient)
            } else if (match ld.expiration_time {
                Some(e) => now > e,
                None => false,
            }) {
                Err(Error::ListingExpired)
            } else if !tokens.dom().contains((collection, token_id)) || tokens[
                (collection, token_id)
            ].owner != ld.seller {
                Err(Error::PermissionDenied)
            } else if account_of(accounts, ld.seller) + ld.price > u64::MAX {
                Err(Error::AmountOverflow)
            } else {
                Ok(ld)
            }
        },
    }
}

/// What `make_offer` decides: the offer to write — priced at the full
/// balance of the caller's source purse — or the error, from the live
/// records and balances. The refund of a prior offer and the new escrow must
/// both be feasible before anything moves.
pub open spec fn make_offer_outcome(
    offers: Map<Seq<char>, Slot<OfferData>>,
    purses: Seq<u64>,
    accounts: Map<u64, u64>,
    offers_purse: int,
    caller: u64,
    collection: Seq<u8>,
    token_id: u64,
    offer_purse: int,
) -> Result<OfferData, Error> {
    let k = offer_key_spec(collection, token_id, caller);
    let balance = purses[offer_purse];
    let refund: u64 = match live_record(offers, k) {
        Some(od) => od.price,
        None => 0,
    };
    if purses[offers_purse] < refund {
        Err(Error::BalanceInsufficient)
    } else if account_of(accounts, caller) + refund > u64::MAX {
        Err(Error::AmountOverflow)
    } else if purses[offers_purse] - refund + balance > u64::MAX {
        Err(Error::AmountOverflow)
    } else {
        Ok(OfferData { price: balance, expiration_time: 0 })
    }
}

/// What `accept_offer` decides: the offer being accepted, or the error, from
/// the live records, the registry and the balances.
pub open spec fn accept_offer_outcome(
    offers: Map<Seq<char>, Slot<OfferData>>,
    tokens: Map<(Seq<u8>, u64), TokenState>,
    purses: Seq<u64>,
    accounts: Map<u64, u64>,
    offers_purse: int,
    caller: u64,
    collection: Seq<u8>,
    token_id: u64,
    offerer: u64,
) -> Result<OfferData, Error> {
    let k = offer_key_spec(collection, token_id, offerer);
    if !tokens.dom().contains((collection, token_id)) || tokens[(collection, token_id)].owner
        != caller {
        Err(Error::PermissionDenied)
    } else if !offers.dom().contains(k) {
        Err(Error::OfferDoesntExistOrCancelled)
    } else {
        match offers[k] {
            Slot::Absent => Err(Error::OfferCancelledOrFinished),
            Slot::Present(od) => {
                if purses[offers_purse] < od.price {
                    Err(Error::BalanceInsufficient)
                } else if account_of(accounts, caller) + od.price > u64::MAX {
                    Err(Error::AmountOverflow)
                } else {
                    Ok(od)
                }
            },
        }
    }
}

/// What `cancel_offer` decides: the caller's own offer being withdrawn, or
/// the error, from the live records and balances.
pub open spec fn cancel_offer_outcome(
    offers: Map<Seq<char>, Slot<OfferData>>,
    purses: Seq<u64>,
    accounts: Map<u64, u64>,
    offers_purse: int,
    caller: u64,
    collection: Seq<u8>,
    token_id: u64,
) -> Result<OfferData, Error> {
    let k = offer_key_spec(collection, token_id, caller);
    match live_record(offers, k) {
        None => Err(Error::OfferDoesntExistOrCancelled),
        Some(od) => {
            if purses[offers_purse] < od.price {
                Err(Error::BalanceInsufficient)
            } else if account_of(accounts, caller) + od.price > u64::MAX {
                Err(Error::AmountOverflow)
            } else {
                Ok(od)
            }
        },
    }
}

/// What `start_auction` decides: the auction to write, or the error. The
/// approval query is keyed by the caller as claimed owner, so it succeeds
/// only for the asset's owner.
pub open spec fn start_auction_outcome(
    tokens: Map<(Seq<u8>, u64), TokenState>,
    package: u64,
    caller: u64,
    now: u64,
    collection: Seq<u8>,
    token_id: u64,
    price: u64,
    duration_minutes: u64,
) -> Result<AuctionData, Error> {
    if spec_approved(tokens, collection, token_id, caller) != Some(package) {
        Err(Error::NeedsTransferApproval)
    } else if now + duration_minutes * MILLISECONDS_IN_MINUTE > u64::MAX {
        Err(Error::AmountOverflow)
    } else {
        Ok(
            AuctionData {
                seller: caller,
                starting_price: price,
                current_bid: price,
                current_winner: caller,
                end_time: (now + duration_minutes * MILLISECONDS_IN_MINUTE) as u64,
            },
        )
    }
}

/// What `place_bid` decides: the updated auction record, or the error, from
/// the live record, the balances and the time. A bid at or below the current
/// bid is too low; a bid after the end time is late; a bid with less than
/// the anti-snipe window left extends the end time by the window's width.
pub open spec fn place_bid_outcome(
    auctions: Map<Seq<char>, Slot<AuctionData>>,
    purses: Seq<u64>,
    accounts: Map<u64, u64>,
    auctions_purse: int,
    caller: u64,
    now: u64,
    collection: Seq<u8>,
    token_id: u64,
    bid_purse: int,
) -> Result<AuctionData, Error> {
    let k = listing_key_spec(collection, token_id);
    let balance = purses[bid_purse];
    if !auctions.dom().contains(k) {
        Err(Error::AuctionDoesntExist)
    } else {
        match auctions[k] {
            Slot::Absent => Err(Error::AuctionCancelledOrFinished),
            Slot::Present(ad) => {
                if balance <= ad.current_bid {
                    Err(Error::BidTooLow)
                } else if now > ad.end_time {
                    Err(Error::AuctionEnded)
                } else if ad.end_time - now < ANTI_SNIPE_MILLISECONDS && ad.end_time
                    + ANTI_SNIPE_MILLISECONDS > u64::MAX {
                    Err(Error::AmountOverflow)
                } else {
                    let refund: u64 = if ad.current_bid != ad.starting_price {
                        ad.current_bid
                    } else {
                        0
                    };
                    if purses[auctions_purse] < refund {
                        Err(Error::BalanceInsufficient)
                    } else if account_of(accounts, ad.seller) + refund > u64::MAX {
                        Err(Error::AmountOverflow)
                    } else if purses[auctions_purse] - refund + balance > u64::MAX {
                        Err(Error::AmountOverflow)
                    } else {
                        Ok(
                            AuctionData {
                                seller: ad.seller,
                                starting_price: ad.starting_price,
                                current_bid: balance,
                                current_winner: caller,
                                end_time: if ad.end_time - now < ANTI_SNIPE_MILLISECONDS {
                                    (ad.end_time + ANTI_SNIPE_MILLISECONDS) as u64
                                } else {
                                    ad.end_time
                                },
                            },
                        )
                    }
                }
            },
        }
    }
}

/// What `end_auction` decides: the auction being closed, or the error. A
/// close with no real bid only tombstones; one with a real bid also needs
/// the seller still owning the asset and the payout to be feasible.
pub open spec fn end_auction_outcome(
    auctions: Map<Seq<char>, Slot<AuctionData>>,
    tokens: Map<(Seq<u8>, u64), TokenState>,
    purses: Seq<u64>,
    accounts: Map<u64, u64>,
    auctions_purse: int,
    now: u64,
    collection: Seq<u8>,
    token_id: u64,
) -> Result<AuctionData, Error> {
    let k = listing_key_spec(collection, token_id);
    if !auctions.dom().contains(k) {
        Err(Error::AuctionDoesntExist)
    } else {
        match auctions[k] {
            Slot::Absent => Err(Error::AuctionCancelledOrFinished),
            Slot::Present(ad) => {
                if now < ad.end_time {
                    Err(Error::AuctionNotFinished)
                } else if ad.current_bid == ad.starting_price {
                    Ok(ad)
                } else if !tokens.dom().contains((collection, token_id)) || tokens[
                    (collection, token_id)
                ].owner != ad.seller {
                    Err(Error::PermissionDenied)
                } else if purses[auctions_purse] < ad.current_bid {
                    Err(Error::BalanceInsufficient)
                } else if account_of(accounts, ad.current_winner) + ad.current_bid > u64::MAX {
                    Err(Error::AmountOverflow)
                } else {
                    Ok(ad)
                }
            },
        }
    }
}

/// What `cancel_listing` decides: only the asset's current owner may
/// tombstone its listing slot.
pub open spec fn cancel_listing_outcome(
    tokens: Map<(Seq<u8>, u64), TokenState>,
    caller: u64,
    collection: Seq<u8>,
    token_id: u64,
) -> Result<(), Error> {
    if !tokens.dom().contains((collection, token_id)) || tokens[(collection, token_id)].owner
        != caller {
        Err(Error::PermissionDenied)
    } else {
        Ok(())
    }
}

} // verus!
