//! The mathematical model of a network: a finite map from address to balance,
//! the rule that decides a transfer, and what that rule guarantees.

use vstd::prelude::*;

use crate::account::{settle, AccountView};
use crate::error::{AccountRole, LedgerError};

verus! {

/// The balance held under each address of a network.
pub type Ledger = Map<Seq<char>, u64>;

/// The sum of the balances of all accounts of a finite ledger.
pub open spec fn total_balance(ledger: Ledger) -> int
    decreases ledger.dom().len(),
    when ledger.dom().finite()
{
    if ledger.dom().is_empty() {
        0
    } else {
        let address = ledger.dom().choose();
        ledger[address] + total_balance(ledger.remove(address))
    }
}

/// What a query for `address` reports: the account stored under it, if any.
pub open spec fn snapshot(ledger: Ledger, address: Seq<char>) -> Option<AccountView> {
    if ledger.contains_key(address) {
        Some(AccountView { address, balance: ledger[address] })
    } else {
        None
    }
}

/// Decides a transfer of `amount` Wei from `from` to `to`: the ledger that
/// results, or the reason for refusing. The checks run in a fixed order: equal
/// addresses, unknown source, unknown destination, insufficient funds, overflow
/// of the destination.
pub open spec fn transfer_outcome(ledger: Ledger, from: Seq<char>, to: Seq<char>, amount: u64) -> Result<
    Ledger,
    LedgerError,
> {
    if from == to {
        Err(LedgerError::SelfTransfer)
    } else if !ledger.contains_key(from) {
        Err(LedgerError::UnknownAccount(AccountRole::Source))
    } else if !ledger.contains_key(to) {
        Err(LedgerError::UnknownAccount(AccountRole::Destination))
    } else {
        match settle(ledger[from], ledger[to], amount) {
            Ok((source, destination)) => Ok(ledger.insert(from, source).insert(to, destination)),
            Err(error) => Err(error),
        }
    }
}

/// The ledger after a transfer was requested: the outcome where it succeeds, the
/// ledger as it was where it is refused.
pub open spec fn ledger_after(ledger: Ledger, from: Seq<char>, to: Seq<char>, amount: u64) -> Ledger {
    match transfer_outcome(ledger, from, to, amount) {
        Ok(next) => next,
        Err(_) => ledger,
    }
}

/// The total of a ledger is the balance of any one of its accounts plus the
/// total of the others.
pub proof fn total_balance_split(ledger: Ledger, address: Seq<char>)
    requires
        ledger.dom().finite(),
        ledger.contains_key(address),
    ensures
        total_balance(ledger) == ledger[address] + total_balance(ledger.remove(address)),
    decreases ledger.dom().len(),
{
    let first = ledger.dom().choose();
    if first != address {
        total_balance_split(ledger.remove(first), address);
        total_balance_split(ledger.remove(address), first);
        assert(ledger.remove(first).remove(address) =~= ledger.remove(address).remove(first));
    }
}

/// Storing `balance` under `address` makes the total that balance plus the total
/// of all other accounts, whether or not the address was present before.
pub proof fn total_balance_insert(ledger: Ledger, address: Seq<char>, balance: u64)
    requires
        ledger.dom().finite(),
    ensures
        total_balance(ledger.insert(address, balance)) == balance + total_balance(
            ledger.remove(address),
        ),
{
    total_balance_split(ledger.insert(address, balance), address);
    assert(ledger.insert(address, balance).remove(address) =~= ledger.remove(address));
}

/// No transfer, accepted or refused, changes the sum of all balances.
pub proof fn transfer_conserves_total(ledger: Ledger, from: Seq<char>, to: Seq<char>, amount: u64)
    requires
        ledger.dom().finite(),
    ensures
        total_balance(ledger_after(ledger, from, to, amount)) == total_balance(ledger),
{
    if let Ok(next) = transfer_outcome(ledger, from, to, amount) {
        let debited = ledger.insert(from, next[from]);
        let others = ledger.remove(from).remove(to);
        total_balance_split(ledger, from);
        total_balance_split(ledger.remove(from), to);
        total_balance_insert(debited, to, next[to]);
        total_balance_split(debited.remove(to), from);
        assert(debited.remove(to).remove(from) =~= others);
    }
}

/// An accepted transfer takes from the source no more than it held, debits it
/// by exactly the amount, credits the destination by exactly the amount, and
/// touches no other account.
pub proof fn accepted_transfer_moves_amount(ledger: Ledger, from: Seq<char>, to: Seq<char>, amount: u64)
    requires
        transfer_outcome(ledger, from, to, amount) is Ok,
    ensures
        from != to,
        ledger.contains_key(from) && ledger.contains_key(to),
        amount <= ledger[from],
        ledger_after(ledger, from, to, amount).dom() == ledger.dom(),
        ledger_after(ledger, from, to, amount)[from] == ledger[from] - amount,
        ledger_after(ledger, from, to, amount)[to] == ledger[to] + amount,
        forall|other: Seq<char>|
            other != from && other != to && ledger.contains_key(other) ==> #[trigger] ledger_after(
                ledger,
                from,
                to,
                amount,
            )[other] == ledger[other],
{
    assert(ledger_after(ledger, from, to, amount).dom() =~= ledger.dom());
}

/// A refused transfer leaves every account as it was.
pub proof fn refused_transfer_changes_nothing(ledger: Ledger, from: Seq<char>, to: Seq<char>, amount: u64)
    requires
        transfer_outcome(ledger, from, to, amount) is Err,
    ensures
        ledger_after(ledger, from, to, amount) == ledger,
{
}

/// After an accepted transfer, sending the same amount back is accepted too and
/// restores the ledger exactly.
pub proof fn reverse_transfer_restores(ledger: Ledger, from: Seq<char>, to: Seq<char>, amount: u64)
    requires
        transfer_outcome(ledger, from, to, amount) is Ok,
    ensures
        transfer_outcome(ledger_after(ledger, from, to, amount), to, from, amount) is Ok,
        ledger_after(ledger_after(ledger, from, to, amount), to, from, amount) == ledger,
{
    let forth = ledger_after(ledger, from, to, amount);
    let back = ledger_after(forth, to, from, amount);
    assert(back =~= ledger);
}

/// What a query reports depends on the ledger and the address alone, so two
/// queries of one ledger for one address report the same.
pub proof fn repeated_query_agrees(
    ledger: Ledger,
    address: Seq<char>,
    first: Option<AccountView>,
    second: Option<AccountView>,
)
    requires
        first == snapshot(ledger, address),
        second == snapshot(ledger, address),
    ensures
        first == second,
{
}

} // verus!
