//! The asset registry the engine queries and instructs: who owns each asset
//! of each collection, and which identity the owner pre-authorized to move
//! it. The registry owns ownership and approval truth; the engine only reads
//! it and asks it to transfer.

use vstd::prelude::*;
use vstd::std_specs::cmp::PartialEqSpec;

use crate::assoc::{
    assoc_map, assoc_unique, lemma_assoc_contains, lemma_assoc_index, lemma_assoc_push,
    lemma_assoc_update,
};

verus! {

/// Ownership state of one asset: its current owner and the identity, if any,
/// the owner approved to transfer it.
pub struct TokenState {
    pub owner: u64,
    pub approved: Option<u64>,
}

struct TokenEntry {
    collection: Vec<u8>,
    token_id: u64,
    owner: u64,
    approved: Option<u64>,
}

/// A registry of assets, each identified by its collection's identifier and
/// its identifier within the collection.
pub struct Registry {
    tokens: Vec<TokenEntry>,
}

impl View for Registry {
    type V = Map<(Seq<u8>, u64), TokenState>;

    closed spec fn view(&self) -> Map<(Seq<u8>, u64), TokenState> {
        assoc_map(self.keyed())
    }
}

/// True when two byte vectors hold the same bytes.
fn bytes_eq(a: &Vec<u8>, b: &Vec<u8>) -> (r: bool)
    ensures
        r == (a@ == b@),
{
    let r = a == b;
    proof {
        if r {
            assert(a@ =~= b@);
        } else {
            if a@ == b@ {
                assert(a.eq_spec(b));
            }
        }
    }
    r
}

impl Registry {
    /// The assets with their identifying pair taken as the key.
    closed spec fn keyed(&self) -> Seq<((Seq<u8>, u64), TokenState)> {
        self.tokens@.map_values(
            |t: TokenEntry|
                ((t.collection@, t.token_id), TokenState { owner: t.owner, approved: t.approved }),
        )
    }

    /// Each asset occupies at most one entry.
    pub closed spec fn wf(&self) -> bool {
        assoc_unique(self.keyed())
    }

    /// An empty registry.
    pub fn new() -> (r: Registry)
        ensures
            r@ == Map::<(Seq<u8>, u64), TokenState>::empty(),
            r.wf(),
    {
        let r = Registry { tokens: Vec::new() };
        proof {
            assert(r.keyed() =~= Seq::<((Seq<u8>, u64), TokenState)>::empty());
        }
        r
    }

    /// The index of the asset's entry, if the asset is registered.
    fn find(&self, collection: &Vec<u8>, token_id: u64) -> (r: Option<usize>)
        requires
            self.wf(),
        ensures
            match r {
                None => !self@.dom().contains((collection@, token_id)),
                Some(i) => i < self.keyed().len() && self.keyed()[i as int].0 == (
                collection@,
                token_id,
                ) && self@.dom().contains((collection@, token_id)) && self@[
                    (collection@, token_id)
                ] == self.keyed()[i as int].1,
            },
    {
        let n = self.tokens.len();
        let mut i: usize = 0;
        while i < n
            invariant
                n == self.tokens.len(),
                i <= n,
                self.wf(),
                forall|j: int|
                    0 <= j < i ==> (#[trigger] self.keyed()[j]).0 != (collection@, token_id),
            decreases n - i,
        {
            if bytes_eq(&self.tokens[i].collection, collection) && self.tokens[i].token_id
                == token_id {
                proof {
                    lemma_assoc_index(self.keyed(), i as int);
                }
                return Some(i);
            }
            assert(self.keyed()[i as int].0 != (collection@, token_id));
            i += 1;
        }
        proof {
            lemma_assoc_contains(self.keyed(), (collection@, token_id));
        }
        None
    }

    /// Registers a fresh asset under an owner; answers false, changing
    /// nothing, when the asset is already registered.
    pub fn mint(&mut self, collection: &Vec<u8>, token_id: u64, owner: u64) -> (r: bool)
        requires
            old(self).wf(),
        ensures
            final(self).wf(),
            r == !old(self)@.dom().contains((collection@, token_id)),
            r ==> final(self)@ == old(self)@.insert(
                (collection@, token_id),
                (TokenState { owner, approved: None }),
            ),
            !r ==> final(self)@ == old(self)@,
    {
        match self.find(collection, token_id) {
            Some(_) => false,
            None => {
                let ghost pre = self.keyed();
                self.tokens.push(
                    TokenEntry { collection: collection.clone(), token_id, owner, approved: None },
                );
                proof {
                    let p = ((collection@, token_id), TokenState { owner, approved: None });
                    assert(self.keyed() =~= pre.push(p));
                    lemma_assoc_contains(pre, (collection@, token_id));
                    lemma_assoc_push(pre, p);
                }
                true
            },
        }
    }

    /// Grants transfer approval on an asset to a spender; answers false,
    /// changing nothing, unless the caller is the asset's current owner.
    pub fn approve(&mut self, caller: u64, collection: &Vec<u8>, token_id: u64, spender: u64) -> (r:
        bool)
        requires
            old(self).wf(),
        ensures
            final(self).wf(),
            r == (old(self)@.dom().contains((collection@, token_id)) && old(self)@[
                (collection@, token_id)
            ].owner == caller),
            r ==> final(self)@ == old(self)@.insert(
                (collection@, token_id),
                (TokenState { owner: caller, approved: Some(spender) }),
            ),
            !r ==> final(self)@ == old(self)@,
    {
        match self.find(collection, token_id) {
            Some(i) => {
                if self.tokens[i].owner == caller {
                    let ghost pre = self.keyed();
                    let p = TokenEntry {
                        collection: collection.clone(),
                        token_id,
                        owner: caller,
                        approved: Some(spender),
                    };
                    self.tokens[i] = p;
                    proof {
                        let q = (
                            (collection@, token_id),
                            TokenState { owner: caller, approved: Some(spender) },
                        );
                        assert(self.keyed() =~= pre.update(i as int, q));
                        lemma_assoc_update(pre, i as int, q);
                    }
                    true
                } else {
                    false
                }
            },
            None => false,
        }
    }

    /// The asset's current owner, if the asset is registered.
    pub fn get_token_owner(&self, collection: &Vec<u8>, token_id: u64) -> (r: Option<u64>)
        requires
            self.wf(),
        ensures
            r == (if self@.dom().contains((collection@, token_id)) {
                Some(self@[(collection@, token_id)].owner)
            } else {
                None::<u64>
            }),
    {
        match self.find(collection, token_id) {
            Some(i) => Some(self.tokens[i].owner),
            None => None,
        }
    }

    /// The identity approved to transfer the asset, provided the asset is
    /// registered and the claimed owner is its current owner.
    pub fn get_approved(&self, collection: &Vec<u8>, token_id: u64, owner: u64) -> (r: Option<u64>)
        requires
            self.wf(),
        ensures
            r == spec_approved(self@, collection@, token_id, owner),
    {
        match self.find(collection, token_id) {
            Some(i) => {
                if self.tokens[i].owner == owner {
                    self.tokens[i].approved
                } else {
                    None
                }
            },
            None => None,
        }
    }

    /// Moves the asset from its current owner to a recipient and withdraws
    /// any transfer approval.
    pub fn transfer_from(
        &mut self,
        sender: u64,
        recipient: u64,
        collection: &Vec<u8>,
        token_id: u64,
    )
        requires
            old(self).wf(),
            old(self)@.dom().contains((collection@, token_id)),
            old(self)@[(collection@, token_id)].owner == sender,
        ensures
            final(self).wf(),
            final(self)@ == old(self)@.insert(
                (collection@, token_id),
                (TokenState { owner: recipient, approved: None }),
            ),
    {
        match self.find(collection, token_id) {
            Some(i) => {
                let ghost pre = self.keyed();
                let p = TokenEntry {
                    collection: collection.clone(),
                    token_id,
                    owner: recipient,
                    approved: None,
                };
                self.tokens[i] = p;
                proof {
                    let q = ((collection@, token_id), TokenState { owner: recipient, approved: None });
                    assert(self.keyed() =~= pre.update(i as int, q));
                    lemma_assoc_update(pre, i as int, q);
                }
            },
            None => {
                proof {
                    assert(false);
                }
            },
        }
    }
}

/// The registry's answer to an approval query: the approved identity, when
/// the asset is registered under the claimed owner and an approval stands.
pub open spec fn spec_approved(
    tokens: Map<(Seq<u8>, u64), TokenState>,
    collection: Seq<u8>,
    token_id: u64,
    owner: u64,
) -> Option<u64> {
    if tokens.dom().contains((collection, token_id)) && tokens[(collection, token_id)].owner
        == owner {
        tokens[(collection, token_id)].approved
    } else {
        None
    }
}

} // verus!
