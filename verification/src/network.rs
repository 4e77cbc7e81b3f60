//! The network: the collection of accounts, and the only place where their
//! balances change.

use vstd::hash_map::StringHashMap;
use vstd::prelude::*;

use crate::account::{AccountView, EthereumAccount};
use crate::address::same_address;
use crate::error::{AccountRole, LedgerError};
use crate::ledger::{
    ledger_after, snapshot, total_balance, transfer_conserves_total, transfer_outcome, Ledger,
};

verus! {

/// The accounts of a network, each stored under its own address.
pub struct EthereumNetwork {
    accounts: StringHashMap<EthereumAccount>,
}

impl View for EthereumNetwork {
    type V = Ledger;

    /// The balance held under each address.
    closed spec fn view(&self) -> Ledger {
        Map::new(
            |address: Seq<char>| self.accounts@.contains_key(address),
            |address: Seq<char>| self.accounts@[address]@.balance,
        )
    }
}

/// What a query result holds, as a value.
pub open spec fn reported(found: Option<&EthereumAccount>) -> Option<AccountView> {
    match found {
        Some(account) => Some(account@),
        None => None,
    }
}

impl EthereumNetwork {
    /// The accounts as they are stored, by the key each is stored under.
    pub closed spec fn stored(&self) -> Map<Seq<char>, EthereumAccount> {
        self.accounts@
    }

    /// The invariant of a network: it holds finitely many accounts, and every
    /// account is stored under its own address.
    pub closed spec fn well_formed(&self) -> bool {
        &&& self.accounts@.dom().finite()
        &&& forall|key: Seq<char>|
            self.accounts@.contains_key(key) ==> (#[trigger] self.accounts@[key])@.address == key
    }

    /// A well-formed network holds finitely many accounts, so its balances have
    /// a sum.
    pub proof fn ledger_is_finite(&self)
        requires
            self.well_formed(),
        ensures
            self@.dom().finite(),
    {
        assert(self@.dom() =~= self.accounts@.dom());
    }

    /// Every account is stored under its own address, so accounts stored under
    /// two different keys never share an address.
    pub proof fn stored_addresses_are_unique(&self, first: Seq<char>, second: Seq<char>)
        requires
            self.well_formed(),
            self.stored().contains_key(first),
            self.stored().contains_key(second),
            first != second,
        ensures
            self.stored()[first]@.address == first,
            self.stored()[second]@.address == second,
            self.stored()[first]@.address != self.stored()[second]@.address,
    {
    }

    /// Creates a network without accounts.
    pub fn new() -> (network: Self)
        ensures
            network.well_formed(),
            network@ == Map::<Seq<char>, u64>::empty(),
            network.stored() == Map::<Seq<char>, EthereumAccount>::empty(),
    {
        let network = Self { accounts: StringHashMap::new() };
        assert(network@ =~= Map::<Seq<char>, u64>::empty());
        network
    }

    /// Adds an account under its address. An address that is already taken is
    /// refused: the account stored under it stays, the new one is dropped.
    pub fn add_account(&mut self, account: EthereumAccount) -> (result: Result<(), LedgerError>)
        requires
            old(self).well_formed(),
        ensures
            final(self).well_formed(),
            match result {
                Ok(_) => {
                    &&& !old(self)@.contains_key(account@.address)
                    &&& final(self)@ == old(self)@.insert(account@.address, account@.balance)
                    &&& final(self).stored() == old(self).stored().insert(account@.address, account)
                },
                Err(error) => {
                    &&& error == LedgerError::DuplicateAddress
                    &&& old(self)@.contains_key(account@.address)
                    &&& final(self)@ == old(self)@
                    &&& final(self).stored() == old(self).stored()
                },
            },
    {
        if self.accounts.contains_key(account.address()) {
            return Err(LedgerError::DuplicateAddress);
        }
        let key = account.address().to_owned();
        self.accounts.insert(key, account);
        assert(self@ =~= old(self)@.insert(account@.address, account@.balance));
        Ok(())
    }

    /// Looks up the account stored under `address`: its address and its balance
    /// as they are now, or nothing where the address is unknown.
    pub fn get_account(&self, address: &str) -> (found: Option<&EthereumAccount>)
        requires
            self.well_formed(),
        ensures
            reported(found) == snapshot(self@, address@),
            found matches Some(account) ==> *account == self.stored()[address@],
    {
        self.accounts.get(address)
    }

    /// Moves `amount` Wei from the account under `from_address` to the account
    /// under `to_address`, all or nothing. The request is refused, in this order,
    /// where the two addresses are equal, where the source is unknown, where the
    /// destination is unknown, where the source holds less than `amount`, and
    /// where the credit would overflow the destination's balance.
    pub fn transfer(&mut self, from_address: &str, to_address: &str, amount: u64) -> (result: Result<
        (),
        LedgerError,
    >)
        requires
            old(self).well_formed(),
        ensures
            final(self).well_formed(),
            match transfer_outcome(old(self)@, from_address@, to_address@, amount) {
                Ok(next) => result is Ok && final(self)@ == next,
                Err(error) => result == Err::<(), LedgerError>(error),
            },
            final(self)@ == ledger_after(old(self)@, from_address@, to_address@, amount),
            total_balance(final(self)@) == total_balance(old(self)@),
            result is Err ==> final(self)@ == old(self)@ && final(self).stored() == old(self).stored(),
            result is Ok ==> {
                &&& amount <= old(self)@[from_address@]
                &&& final(self)@[from_address@] == old(self)@[from_address@] - amount
                &&& final(self)@[to_address@] == old(self)@[to_address@] + amount
            },
    {
        proof {
            self.ledger_is_finite();
            transfer_conserves_total(self@, from_address@, to_address@, amount);
        }
        if same_address(from_address, to_address) {
            return Err(LedgerError::SelfTransfer);
        }
        let mut source = match self.accounts.get(from_address) {
            Some(account) => account.clone(),
            None => {
                return Err(LedgerError::UnknownAccount(AccountRole::Source));
            },
        };
        let mut destination = match self.accounts.get(to_address) {
            Some(account) => account.clone(),
            None => {
                return Err(LedgerError::UnknownAccount(AccountRole::Destination));
            },
        };
        match source.transfer(&mut destination, amount) {
            Err(error) => Err(error),
            Ok(_) => {
                let ghost debited = source@.balance;
                let ghost credited = destination@.balance;
                self.accounts.insert(from_address.to_owned(), source);
                self.accounts.insert(to_address.to_owned(), destination);
                assert(self@ =~= old(self)@.insert(from_address@, debited).insert(
                    to_address@,
                    credited,
                ));
                Ok(())
            },
        }
    }
}

} // verus!
