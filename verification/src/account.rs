//! A single account: an immutable address and a balance in Wei.

use vstd::prelude::*;

use crate::error::LedgerError;

verus! {

/// What an account is, mathematically: its address and the Wei it holds.
pub struct AccountView {
    pub address: Seq<char>,
    pub balance: u64,
}

/// An account identified by an opaque address and holding a balance in Wei.
#[derive(Debug)]
pub struct EthereumAccount {
    address: String,
    balance: u64,
}

impl View for EthereumAccount {
    type V = AccountView;

    closed spec fn view(&self) -> AccountView {
        AccountView { address: self.address@, balance: self.balance }
    }
}

impl Clone for EthereumAccount {
    /// A copy with the same address and balance, independent of the original.
    fn clone(&self) -> (copy: Self)
        ensures
            copy@ == self@,
    {
        Self { address: self.address.clone(), balance: self.balance }
    }
}

/// The balances that two distinct accounts hold after `amount` Wei has moved from
/// the one holding `source` to the one holding `destination`, or the reason why
/// the move is refused. Funds are checked before the overflow of the credit.
pub open spec fn settle(source: u64, destination: u64, amount: u64) -> Result<(u64, u64), LedgerError> {
    if source < amount {
        Err(LedgerError::InsufficientFunds { available: source, requested: amount })
    } else if destination + amount > u64::MAX {
        Err(LedgerError::BalanceOverflow)
    } else {
        Ok(((source - amount) as u64, (destination + amount) as u64))
    }
}

impl EthereumAccount {
    /// Creates an account with the given address and initial balance.
    pub fn new(address: String, initial_balance: u64) -> (account: Self)
        ensures
            account@.address == address@,
            account@.balance == initial_balance,
    {
        Self { address, balance: initial_balance }
    }

    /// The address this account was created with.
    pub fn address(&self) -> (address: &str)
        ensures
            address@ == self@.address,
    {
        self.address.as_str()
    }

    /// The balance currently held, in Wei.
    pub fn balance(&self) -> (balance: u64)
        ensures
            balance == self@.balance,
    {
        self.balance
    }

    /// Moves `amount` Wei from this account to `recipient`, or refuses and leaves
    /// both accounts as they were.
    pub(crate) fn transfer(&mut self, recipient: &mut EthereumAccount, amount: u64) -> (result: Result<
        (),
        LedgerError,
    >)
        ensures
            final(self)@.address == old(self)@.address,
            final(recipient)@.address == old(recipient)@.address,
            match settle(old(self)@.balance, old(recipient)@.balance, amount) {
                Ok((source, destination)) => {
                    &&& result is Ok
                    &&& final(self)@.balance == source
                    &&& final(recipient)@.balance == destination
                },
                Err(error) => {
                    &&& result == Err::<(), LedgerError>(error)
                    &&& *final(self) == *old(self)
                    &&& *final(recipient) == *old(recipient)
                },
            },
    {
        if self.balance < amount {
            return Err(LedgerError::InsufficientFunds { available: self.balance, requested: amount });
        }
        match recipient.balance.checked_add(amount) {
            None => Err(LedgerError::BalanceOverflow),
            Some(credited) => {
                self.balance = self.balance - amount;
                recipient.balance = credited;
                Ok(())
            },
        }
    }
}

} // verus!
