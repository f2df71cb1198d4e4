//! The balance ledger the engine moves value through: numbered purses (the
//! callers' source accounts and the two custodial escrow purses) and
//! identity-keyed accounts (where payments and refunds land). All amounts are
//! unsigned; every transfer is checked, never wrapping.

use vstd::prelude::*;

use crate::assoc::{
    assoc_map, assoc_unique, lemma_assoc_contains, lemma_assoc_index, lemma_assoc_push,
    lemma_assoc_update,
};

verus! {

/// The balance of an identity in an account map, zero when it never received
/// value.
pub open spec fn account_of(accounts: Map<u64, u64>, id: u64) -> u64 {
    if accounts.dom().contains(id) {
        accounts[id]
    } else {
        0
    }
}

/// A ledger of purse balances (indexed by purse number) and identity account
/// balances.
pub struct Ledger {
    purses: Vec<u64>,
    accounts: Vec<(u64, u64)>,
}

impl Ledger {
    /// The balances of all purses, in creation order.
    pub closed spec fn purses(&self) -> Seq<u64> {
        self.purses@
    }

    /// The balance of each identity that ever received value.
    pub closed spec fn accounts(&self) -> Map<u64, u64> {
        assoc_map(self.accounts@)
    }

    /// The balance of an identity, zero when it never received value.
    pub open spec fn account_bal(&self, id: u64) -> u64 {
        account_of(self.accounts(), id)
    }

    /// Each identity occupies at most one account entry.
    pub closed spec fn wf(&self) -> bool {
        assoc_unique(self.accounts@)
    }

    /// A ledger with no purses and no accounts.
    pub fn new() -> (l: Ledger)
        ensures
            l.purses() == Seq::<u64>::empty(),
            l.accounts() == Map::<u64, u64>::empty(),
            l.wf(),
    {
        let l = Ledger { purses: Vec::new(), accounts: Vec::new() };
        proof {
            assert(l.purses() =~= Seq::<u64>::empty());
        }
        l
    }

    /// Creates a fresh, empty purse and returns its number.
    pub fn create_purse(&mut self) -> (p: usize)
        requires
            old(self).wf(),
        ensures
            final(self).wf(),
            p == old(self).purses().len(),
            final(self).purses() == old(self).purses().push(0u64),
            final(self).accounts() == old(self).accounts(),
    {
        let p = self.purses.len();
        self.purses.push(0);
        p
    }

    /// The current balance of a purse.
    pub fn purse_balance(&self, p: usize) -> (b: u64)
        requires
            p < self.purses().len(),
        ensures
            b == self.purses()[p as int],
    {
        self.purses[p]
    }

    /// The current balance of an identity's account.
    pub fn account_balance(&self, id: u64) -> (b: u64)
        requires
            self.wf(),
        ensures
            b == self.account_bal(id),
    {
        let n = self.accounts.len();
        let mut i: usize = 0;
        while i < n
            invariant
                n == self.accounts.len(),
                i <= n,
                self.wf(),
                forall|j: int| 0 <= j < i ==> (#[trigger] self.accounts@[j]).0 != id,
            decreases n - i,
        {
            if self.accounts[i].0 == id {
                proof {
                    lemma_assoc_index(self.accounts@, i as int);
                }
                return self.accounts[i].1;
            }
            i += 1;
        }
        proof {
            lemma_assoc_contains(self.accounts@, id);
        }
        0
    }

    /// Credits a purse from outside the marketplace's custody: how a caller
    /// funds the source purse it hands to an operation.
    pub fn deposit(&mut self, p: usize, amount: u64)
        requires
            old(self).wf(),
            p < old(self).purses().len(),
            old(self).purses()[p as int] + amount <= u64::MAX,
        ensures
            final(self).wf(),
            final(self).purses() == old(self).purses().update(
                p as int,
                (old(self).purses()[p as int] + amount) as u64,
            ),
            final(self).accounts() == old(self).accounts(),
    {
        let credited = self.purses[p] + amount;
        self.purses[p] = credited;
    }

    /// Moves value between two purses; a transfer from a purse to itself
    /// leaves it unchanged.
    pub fn transfer_purse_to_purse(&mut self, src: usize, dst: usize, amount: u64)
        requires
            old(self).wf(),
            src < old(self).purses().len(),
            dst < old(self).purses().len(),
            old(self).purses()[src as int] >= amount,
            src != dst ==> old(self).purses()[dst as int] + amount <= u64::MAX,
        ensures
            final(self).wf(),
            final(self).accounts() == old(self).accounts(),
            final(self).purses().len() == old(self).purses().len(),
            src != dst ==> final(self).purses() == old(self).purses().update(
                src as int,
                (old(self).purses()[src as int] - amount) as u64,
            ).update(dst as int, (old(self).purses()[dst as int] + amount) as u64),
            src == dst ==> final(self).purses() == old(self).purses(),
    {
        let debited = self.purses[src] - amount;
        self.purses[src] = debited;
        let credited = self.purses[dst] + amount;
        self.purses[dst] = credited;
        proof {
            if src == dst {
                assert(final(self).purses() =~= old(self).purses());
            }
        }
    }

    /// Moves value out of a purse into an identity's account, opening the
    /// account on first credit.
    pub fn transfer_purse_to_account(&mut self, src: usize, id: u64, amount: u64)
        requires
            old(self).wf(),
            src < old(self).purses().len(),
            old(self).purses()[src as int] >= amount,
            old(self).account_bal(id) + amount <= u64::MAX,
        ensures
            final(self).wf(),
            final(self).purses() == old(self).purses().update(
                src as int,
                (old(self).purses()[src as int] - amount) as u64,
            ),
            final(self).accounts() == old(self).accounts().insert(
                id,
                (old(self).account_bal(id) + amount) as u64,
            ),
    {
        let debited = self.purses[src] - amount;
        self.purses[src] = debited;
        let n = self.accounts.len();
        let mut i: usize = 0;
        while i < n
            invariant
                n == self.accounts.len(),
                i <= n,
                self.wf(),
                self.accounts@ == old(self).accounts@,
                old(self).account_bal(id) + amount <= u64::MAX,
                self.purses@ == old(self).purses@.update(
                    src as int,
                    (old(self).purses()[src as int] - amount) as u64,
                ),
                forall|j: int| 0 <= j < i ==> (#[trigger] self.accounts@[j]).0 != id,
            decreases n - i,
        {
            if self.accounts[i].0 == id {
                proof {
                    lemma_assoc_index(self.accounts@, i as int);
                    assert(self.account_bal(id) == self.accounts@[i as int].1);
                }
                let credited = self.accounts[i].1 + amount;
                let ghost pre = self.accounts@;
                self.accounts[i] = (id, credited);
                proof {
                    lemma_assoc_update(pre, i as int, (id, credited));
                }
                return;
            }
            i += 1;
        }
        proof {
            lemma_assoc_contains(self.accounts@, id);
            assert(self.account_bal(id) == 0);
        }
        let ghost pre = self.accounts@;
        self.accounts.push((id, amount));
        proof {
            lemma_assoc_push(pre, (id, amount));
        }
    }
}

} // verus!
