//! The balances pallet: how much each account holds, and the transfer of an
//! amount from one account to another.

use crate::account::obeys_account_id_model;
use crate::numeric::{BoundedNat, CheckedAdd, CheckedSub, Zero};
use crate::support::{DispatchError, DispatchResult};
use std::collections::BTreeMap;
use vstd::laws_eq::obeys_concrete_eq;
use vstd::prelude::*;

verus! {

/// The types that the balances pallet is instantiated over: those of the
/// system pallet, and the type of a balance.
pub trait Config: crate::system::Config {
    /// An amount that an account holds.
    type Balance: CheckedAdd + CheckedSub + Zero + Copy;
}

/// The ledger in which every account holds 0.
pub open spec fn empty_ledger<K>() -> Map<K, nat> {
    Map::total(|account: K| 0nat)
}

/// What a transfer of `amount` from `caller` to `to` makes of `ledger`, where
/// `max` is the largest balance that an account can hold: the new ledger, or
/// the reason why the transfer is refused.
///
/// A transfer from an account to itself needs the amount to be within the
/// balance, and changes nothing: what leaves the account arrives at it.
pub open spec fn spec_transfer<K>(
    ledger: Map<K, nat>,
    caller: K,
    to: K,
    amount: nat,
    max: nat,
) -> Result<Map<K, nat>, DispatchError> {
    if amount > ledger[caller] {
        Err(DispatchError::InsufficientFunds)
    } else if caller == to {
        Ok(ledger)
    } else if ledger[to] + amount > max {
        Err(DispatchError::Overflow)
    } else {
        Ok(
            ledger.insert(caller, (ledger[caller] - amount) as nat).insert(
                to,
                ledger[to] + amount,
            ),
        )
    }
}

/// The balance that is read after `set_balance` is the amount that was set,
/// whatever the ledger held before.
pub proof fn lemma_balance_after_set_balance<K, B: BoundedNat>(
    ledger: Map<K, nat>,
    account: K,
    amount: B,
    balance: B,
)
    requires
        balance.value() == ledger.insert(account, amount.value())[account],
    ensures
        ledger.insert(account, amount.value())[account] == amount.value(),
        balance == amount,
{
    balance.lemma_value_injective(amount);
}

/// The balance of every account.
#[derive(Debug)]
pub struct Pallet<T: Config> {
    balances: BTreeMap<T::AccountId, T::Balance>,
}

impl<T: Config> View for Pallet<T> {
    type V = Map<T::AccountId, nat>;

    /// The ledger: a total map from each account to what it holds.
    open spec fn view(&self) -> Map<T::AccountId, nat> {
        Map::total(|account: T::AccountId| self.spec_balance(account))
    }
}

impl<T: Config> Pallet<T> {
    /// What `account` holds: the number that its entry stands for, and 0
    /// where it has no entry.
    pub closed spec fn spec_balance(&self, account: T::AccountId) -> nat {
        if self.balances@.contains_key(account) {
            self.balances@[account].value()
        } else {
            0
        }
    }

    /// Moves `amount` from `caller` to `to`.
    ///
    /// Fails with `InsufficientFunds` when `caller` holds less than `amount`,
    /// else with `Overflow` when `to` is another account and cannot hold
    /// `amount` more. A transfer that fails changes nothing. One that
    /// succeeds takes `amount` from `caller` and gives it to `to`, so that
    /// the two together hold what they held before; from an account to
    /// itself it changes nothing.
    pub fn transfer(
        &mut self,
        caller: T::AccountId,
        to: T::AccountId,
        amount: T::Balance,
    ) -> (result: DispatchResult)
        requires
            obeys_account_id_model::<T::AccountId>(),
        ensures
            match spec_transfer(
                old(self)@,
                caller,
                to,
                amount.value(),
                T::Balance::max_value(),
            ) {
                Ok(ledger) => result == DispatchResult::Ok(()) && final(self)@ == ledger,
                Err(error) => result == DispatchResult::Err(error) && final(self)@ == old(
                    self,
                )@,
            },
            // A debit above the balance is refused.
            amount.value() > old(self)@[caller] ==> {
                &&& result == DispatchResult::Err(DispatchError::InsufficientFunds)
                &&& final(self)@[caller] == old(self)@[caller]
                &&& final(self)@[to] == old(self)@[to]
            },
            // A debit that the caller can pay and a credit that fits succeed.
            amount.value() <= old(self)@[caller] && old(self)@[to] + amount.value()
                <= T::Balance::max_value() ==> result == DispatchResult::Ok(()),
            // Between two accounts, what leaves one arrives at the other.
            result.is_ok() && (caller != to || amount.value() == 0) ==> {
                &&& final(self)@[caller] == old(self)@[caller] - amount.value()
                &&& final(self)@[to] == old(self)@[to] + amount.value()
            },
            // No transfer creates or destroys value.
            final(self)@[caller] + final(self)@[to] == old(self)@[caller] + old(self)@[to],
            // From an account to itself, a transfer within the balance
            // succeeds and changes nothing.
            caller == to && amount.value() <= old(self)@[caller] ==> {
                &&& result == DispatchResult::Ok(())
                &&& final(self)@ == old(self)@
            },
            // No other account is touched.
            forall|other: T::AccountId|
                other != caller && other != to ==> final(self)@[other] == old(self)@[other],
    {
        let caller_balance = self.balance(&caller);
        let to_balance = self.balance(&to);

        let new_caller_balance = match caller_balance.checked_sub(&amount) {
            Some(balance) => balance,
            None => {
                return Err(DispatchError::InsufficientFunds);
            },
        };
        proof {
            reveal(obeys_concrete_eq);
        }
        if caller == to {
            return Ok(());
        }
        let new_to_balance = match to_balance.checked_add(&amount) {
            Some(balance) => balance,
            None => {
                return Err(DispatchError::Overflow);
            },
        };

        self.balances.insert(caller, new_caller_balance);
        self.balances.insert(to, new_to_balance);
        proof {
            new_to_balance.lemma_value_in_range();
            assert(self@ =~= old(self)@.insert(caller, new_caller_balance.value()).insert(
                to,
                new_to_balance.value(),
            ));
        }
        Ok(())
    }

    /// A pallet in which every account holds 0.
    pub fn new() -> (pallet: Self)
        ensures
            pallet@ == empty_ledger::<T::AccountId>(),
            forall|account: T::AccountId| pallet@[account] == 0,
    {
        let pallet = Pallet { balances: BTreeMap::new() };
        assert(pallet@ =~= empty_ledger::<T::AccountId>());
        pallet
    }

    /// Sets the balance of `account` to `amount`, and leaves every other
    /// balance as it was.
    pub fn set_balance(&mut self, account: &T::AccountId, amount: T::Balance)
        requires
            obeys_account_id_model::<T::AccountId>(),
        ensures
            final(self)@ == old(self)@.insert(*account, amount.value()),
            final(self)@[*account] == amount.value(),
            forall|other: T::AccountId|
                other != *account ==> final(self)@[other] == old(self)@[other],
    {
        self.balances.insert(account.clone(), amount);
        assert(self@ =~= old(self)@.insert(*account, amount.value()));
    }

    /// The balance of `account`: 0 for an account that never received
    /// anything.
    pub fn balance(&self, account: &T::AccountId) -> (balance: T::Balance)
        requires
            obeys_account_id_model::<T::AccountId>(),
        ensures
            balance.value() == self@[*account],
    {
        *self.balances.get(account).unwrap_or(&T::Balance::zero())
    }

    /// Every balance is one that the balance type can hold.
    pub proof fn lemma_balances_in_range(&self)
        ensures
            forall|account: T::AccountId| self@[account] <= T::Balance::max_value(),
    {
        assert forall|account: T::AccountId| self@[account] <= T::Balance::max_value() by {
            if self.balances@.contains_key(account) {
                self.balances@[account].lemma_value_in_range();
            }
        }
    }
}

} // verus!
