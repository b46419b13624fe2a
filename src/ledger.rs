use vstd::prelude::*;

use crate::address::{same_address, Address};

verus! {

/// Host error code for a debit that would leave a negative balance (the
/// transfer program's custom error 1).
pub const INSUFFICIENT_FUNDS: u64 = 1;

/// Host error code for a credit that would overflow a balance.
pub const ARITHMETIC_OVERFLOW: u64 = 24 << 32;

/// One account's balance in the ledger.
#[derive(Debug, Clone, Copy, PartialEq, Eq)]
pub struct Balance {
    pub key: Address,
    pub lamports: u64,
}

/// A model of the host ledger: the balance of every address, where an
/// address without an entry holds nothing.
#[derive(Debug, Clone)]
pub struct Ledger {
    entries: Vec<Balance>,
}

impl Ledger {
    /// No address has two entries.
    pub closed spec fn wf(self) -> bool {
        forall|i: int, j: int|
            0 <= i < j < self.entries@.len() ==> self.entries@[i].key@ != self.entries@[j].key@
    }

    /// The balance of address `k`.
    pub closed spec fn balance(self, k: Seq<u8>) -> u64 {
        if exists|i: int| 0 <= i < self.entries@.len() && self.entries@[i].key@ == k {
            self.entries@[choose|i: int|
                0 <= i < self.entries@.len() && self.entries@[i].key@ == k].lamports
        } else {
            0
        }
    }

    /// What the host reports for a transfer of `amount` from `from` to `to`.
    pub open spec fn transfer_outcome(self, from: Seq<u8>, to: Seq<u8>, amount: u64) -> Result<(), u64> {
        if self.balance(from) < amount {
            Err(INSUFFICIENT_FUNDS)
        } else if from != to && self.balance(to) + amount > u64::MAX {
            Err(ARITHMETIC_OVERFLOW)
        } else {
            Ok(())
        }
    }

    /// The balance of `k` after that transfer: moved when it succeeds,
    /// untouched when it fails.
    pub open spec fn balance_after_transfer(
        self,
        from: Seq<u8>,
        to: Seq<u8>,
        amount: u64,
        k: Seq<u8>,
    ) -> int {
        if self.transfer_outcome(from, to, amount) is Err || from == to {
            self.balance(k) as int
        } else if k == from {
            self.balance(k) - amount
        } else if k == to {
            self.balance(k) + amount
        } else {
            self.balance(k) as int
        }
    }

    proof fn lemma_balance_at(self, i: int)
        requires
            self.wf(),
            0 <= i < self.entries@.len(),
        ensures
            self.balance(self.entries@[i].key@) == self.entries@[i].lamports,
    {
        let k = self.entries@[i].key@;
        assert(exists|j: int| 0 <= j < self.entries@.len() && self.entries@[j].key@ == k);
        let c = choose|j: int| 0 <= j < self.entries@.len() && self.entries@[j].key@ == k;
        assert(c == i);
    }

    /// Two well-formed ledgers whose entries share keys position by position
    /// and agree at every position but `i` agree on every other address.
    proof fn lemma_balance_elsewhere(self, other: Ledger, i: int, k: Seq<u8>)
        requires
            self.wf(),
            other.wf(),
            0 <= i < other.entries@.len(),
            self.entries@.len() <= other.entries@.len() <= self.entries@.len() + 1,
            forall|j: int| 0 <= j < self.entries@.len() && j != i ==> other.entries@[j] == self.entries@[j],
            i < self.entries@.len() ==> other.entries@[i].key@ == self.entries@[i].key@,
            i < self.entries@.len() ==> other.entries@.len() == self.entries@.len(),
            i == self.entries@.len() ==> other.entries@.len() == self.entries@.len() + 1,
            k != other.entries@[i].key@,
        ensures
            other.balance(k) == self.balance(k),
    {
        if exists|j: int| 0 <= j < self.entries@.len() && self.entries@[j].key@ == k {
            let j = choose|j: int| 0 <= j < self.entries@.len() && self.entries@[j].key@ == k;
            self.lemma_balance_at(j);
            other.lemma_balance_at(j);
        } else {
            assert forall|j: int| 0 <= j < other.entries@.len() implies other.entries@[j].key@ != k by {
                if j != i && j < self.entries@.len() {
                    assert(other.entries@[j] == self.entries@[j]);
                }
            }
        }
    }

    /// A ledger in which every balance is zero.
    pub fn new() -> (r: Ledger)
        ensures
            r.wf(),
            forall|k: Seq<u8>| r.balance(k) == 0,
    {
        Ledger { entries: Vec::new() }
    }

    fn find(&self, key: &Address) -> (r: Option<usize>)
        ensures
            r is Some ==> r->0 < self.entries@.len() && self.entries@[r->0 as int].key@ == key@,
            r is None ==> forall|j: int| 0 <= j < self.entries@.len() ==> self.entries@[j].key@ != key@,
    {
        let mut i: usize = 0;
        while i < self.entries.len()
            invariant
                i <= self.entries@.len(),
                forall|j: int| 0 <= j < i ==> self.entries@[j].key@ != key@,
            decreases self.entries@.len() - i,
        {
            if same_address(&self.entries[i].key, key) {
                return Some(i);
            }
            i = i + 1;
        }
        None
    }

    /// The balance of `key`.
    pub fn balance_of(&self, key: &Address) -> (r: u64)
        requires
            self.wf(),
        ensures
            r == self.balance(key@),
    {
        match self.find(key) {
            Some(i) => {
                proof { self.lemma_balance_at(i as int); }
                self.entries[i].lamports
            },
            None => 0,
        }
    }

    /// Sets the balance of `key`, leaving every other balance as it was.
    pub fn set_balance(&mut self, key: &Address, lamports: u64)
        requires
            old(self).wf(),
        ensures
            final(self).wf(),
            final(self).balance(key@) == lamports,
            forall|k: Seq<u8>| k != key@ ==> final(self).balance(k) == old(self).balance(k),
    {
        let ghost before = *self;
        let i = match self.find(key) {
            Some(i) => {
                self.entries[i].lamports = lamports;
                i
            },
            None => {
                self.entries.push(Balance { key: *key, lamports });
                self.entries.len() - 1
            },
        };
        proof {
            self.lemma_balance_at(i as int);
            assert forall|k: Seq<u8>| k != key@ implies self.balance(k) == before.balance(k) by {
                before.lemma_balance_elsewhere(*self, i as int, k);
            }
        }
    }

    /// Moves `amount` from `from` to `to`, all or nothing: on failure the
    /// ledger is left exactly as it was.
    pub fn transfer(&mut self, from: &Address, to: &Address, amount: u64) -> (r: Result<(), u64>)
        requires
            old(self).wf(),
        ensures
            final(self).wf(),
            r == old(self).transfer_outcome(from@, to@, amount),
            forall|k: Seq<u8>|
                final(self).balance(k) as int == old(self).balance_after_transfer(from@, to@, amount, k),
            r is Err ==> *final(self) == *old(self),
    {
        let from_balance = self.balance_of(from);
        if from_balance < amount {
            return Err(INSUFFICIENT_FUNDS);
        }
        if same_address(from, to) {
            return Ok(());
        }
        let to_balance = self.balance_of(to);
        if to_balance > u64::MAX - amount {
            return Err(ARITHMETIC_OVERFLOW);
        }
        self.set_balance(from, from_balance - amount);
        self.set_balance(to, to_balance + amount);
        Ok(())
    }
}

} // verus!
