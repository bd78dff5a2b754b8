//! The system pallet: the block counter and one nonce for each account.

use crate::account::obeys_account_id_model;
use crate::numeric::{AddAssign, BoundedNat, One, Zero};
use std::collections::BTreeMap;
use vstd::prelude::*;

verus! {

/// The types that a ledger is instantiated over.
pub trait Config {
    /// Counts blocks.
    type BlockNumber: Zero + One + AddAssign + Copy;

    /// Identifies a participant of the ledger.
    type AccountId: Ord + Clone;

    /// Counts the transactions of one account.
    type Nonce: Zero + One + AddAssign + Copy;
}

/// What a system pallet holds: the number of the current block, and the nonce
/// of every account.
#[verifier::ext_equal]
#[verifier::reject_recursive_types(K)]
pub struct SystemState<K> {
    pub block_number: nat,
    pub nonces: Map<K, nat>,
}

impl<K> SystemState<K> {
    /// The state before anything happened: block 0, and nonce 0 for every
    /// account.
    pub open spec fn initial() -> Self {
        SystemState { block_number: 0, nonces: Map::total(|account: K| 0nat) }
    }

    /// The state one block later.
    pub open spec fn inc_block_number(self) -> Self {
        SystemState { block_number: self.block_number + 1, nonces: self.nonces }
    }

    /// The state after one more transaction of `account`.
    pub open spec fn inc_nonce(self, account: K) -> Self {
        SystemState {
            block_number: self.block_number,
            nonces: self.nonces.insert(account, self.nonces[account] + 1),
        }
    }

    /// The state `n` blocks later.
    pub open spec fn after_blocks(self, n: nat) -> Self
        decreases n,
    {
        if n == 0 {
            self
        } else {
            self.after_blocks((n - 1) as nat).inc_block_number()
        }
    }

    /// The state after `n` more transactions of `account`.
    pub open spec fn after_transactions(self, account: K, n: nat) -> Self
        decreases n,
    {
        if n == 0 {
            self
        } else {
            self.after_transactions(account, (n - 1) as nat).inc_nonce(account)
        }
    }

    /// After `n` increments the block number is `n` higher, and no nonce has
    /// changed. From the initial state the block number is `n`.
    pub proof fn lemma_block_number_counts_increments(self, n: nat)
        ensures
            self.after_blocks(n).block_number == self.block_number + n,
            self.after_blocks(n).nonces == self.nonces,
            Self::initial().after_blocks(n).block_number == n,
        decreases n,
    {
        if n > 0 {
            self.lemma_block_number_counts_increments((n - 1) as nat);
            Self::initial().lemma_block_number_counts_increments((n - 1) as nat);
        }
    }

    /// An increment of the nonce of `account` adds one to it, and leaves the
    /// nonce of any other account and the block number as they were,
    /// whatever the state.
    pub proof fn lemma_inc_nonce_leaves_other_accounts(self, account: K, other: K)
        requires
            other != account,
        ensures
            self.inc_nonce(account).nonces[account] == self.nonces[account] + 1,
            self.inc_nonce(account).nonces[other] == self.nonces[other],
            self.inc_nonce(account).block_number == self.block_number,
    {
    }

    /// After `n` increments of the nonce of `account` that nonce is `n`
    /// higher, and the nonce of any other account and the block number are
    /// what they were. From the initial state the nonce of `account` is `n`.
    pub proof fn lemma_nonce_counts_increments(self, account: K, other: K, n: nat)
        ensures
            self.after_transactions(account, n).nonces[account] == self.nonces[account] + n,
            other != account ==> self.after_transactions(account, n).nonces[other]
                == self.nonces[other],
            self.after_transactions(account, n).block_number == self.block_number,
            Self::initial().after_transactions(account, n).nonces[account] == n,
        decreases n,
    {
        if n > 0 {
            self.lemma_nonce_counts_increments(account, other, (n - 1) as nat);
            Self::initial().lemma_nonce_counts_increments(account, other, (n - 1) as nat);
        }
    }
}

/// The block counter and the nonce table.
#[derive(Debug)]
pub struct Pallet<T: Config> {
    block_number: T::BlockNumber,
    nonce: BTreeMap<T::AccountId, T::Nonce>,
}

impl<T: Config> View for Pallet<T> {
    type V = SystemState<T::AccountId>;

    /// The state: the block number, and a total map from each account to its
    /// nonce.
    open spec fn view(&self) -> SystemState<T::AccountId> {
        SystemState {
            block_number: self.spec_block_number(),
            nonces: Map::total(|account: T::AccountId| self.spec_nonce(account)),
        }
    }
}

impl<T: Config> Pallet<T> {
    /// The number of the current block.
    pub closed spec fn spec_block_number(&self) -> nat {
        self.block_number.value()
    }

    /// The nonce of `account`: the number that its entry stands for, and 0
    /// where it has no entry.
    pub closed spec fn spec_nonce(&self, account: T::AccountId) -> nat {
        if self.nonce@.contains_key(account) {
            self.nonce@[account].value()
        } else {
            0
        }
    }

    /// A pallet in the initial state: block 0, and nonce 0 for every account.
    pub fn new() -> (pallet: Self)
        ensures
            pallet@ == SystemState::<T::AccountId>::initial(),
            pallet@.block_number == 0,
            forall|account: T::AccountId| pallet@.nonces[account] == 0,
    {
        let pallet = Pallet { block_number: T::BlockNumber::zero(), nonce: BTreeMap::new() };
        assert(pallet@ =~= SystemState::<T::AccountId>::initial());
        pallet
    }

    /// The number of the current block.
    pub fn block_number(&self) -> (number: T::BlockNumber)
        ensures
            number.value() == self@.block_number,
    {
        self.block_number
    }

    /// Advances the block counter by one, and leaves every nonce as it was.
    ///
    /// The addition is not checked: the caller shows that the counter is
    /// below the largest block number.
    pub fn inc_block_number(&mut self)
        requires
            old(self)@.block_number < T::BlockNumber::max_value(),
        ensures
            final(self)@ == old(self)@.inc_block_number(),
            final(self)@.block_number == old(self)@.block_number + 1,
    {
        self.block_number.add_assign(T::BlockNumber::one());
        assert(self@ =~= old(self)@.inc_block_number());
    }

    /// The nonce of `account`: 0 until its first increment.
    pub fn nonce(&self, account: &T::AccountId) -> (nonce: T::Nonce)
        requires
            obeys_account_id_model::<T::AccountId>(),
        ensures
            nonce.value() == self@.nonces[*account],
    {
        *self.nonce.get(account).unwrap_or(&T::Nonce::zero())
    }

    /// Advances the nonce of `account` by one, and leaves every other nonce
    /// and the block counter as they were.
    ///
    /// The addition is not checked: the caller shows that the nonce is below
    /// the largest nonce.
    pub fn inc_nonce(&mut self, account: &T::AccountId)
        requires
            obeys_account_id_model::<T::AccountId>(),
            old(self)@.nonces[*account] < T::Nonce::max_value(),
        ensures
            final(self)@ == old(self)@.inc_nonce(*account),
            final(self)@.nonces[*account] == old(self)@.nonces[*account] + 1,
            forall|other: T::AccountId|
                other != *account ==> final(self)@.nonces[other] == old(self)@.nonces[other],
    {
        let mut nonce = self.nonce(account);
        nonce.add_assign(T::Nonce::one());
        self.nonce.insert(account.clone(), nonce);
        assert(self@.nonces =~= old(self)@.inc_nonce(*account).nonces);
    }

    /// The block number and every nonce are numbers that their types can
    /// hold.
    pub proof fn lemma_counters_in_range(&self)
        ensures
            self@.block_number <= T::BlockNumber::max_value(),
            forall|account: T::AccountId| self@.nonces[account] <= T::Nonce::max_value(),
    {
        self.block_number.lemma_value_in_range();
        assert forall|account: T::AccountId| self@.nonces[account] <= T::Nonce::max_value() by {
            if self.nonce@.contains_key(account) {
                self.nonce@[account].lemma_value_in_range();
            }
        }
    }
}

} // verus!
