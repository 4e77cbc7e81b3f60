//! The structured errors that ledger operations return.

use vstd::prelude::*;

verus! {

/// Which side of a transfer an address was named for.
#[derive(Debug, Clone, Copy, PartialEq, Eq, Structural)]
pub enum AccountRole {
    /// The account that is debited.
    Source,
    /// The account that is credited.
    Destination,
}

/// Why a ledger operation was refused. A refused operation changes nothing.
#[derive(Debug, Clone, Copy, PartialEq, Eq, Structural)]
pub enum LedgerError {
    /// An account with this address is already part of the network.
    DuplicateAddress,
    /// The address given for this role is not part of the network.
    UnknownAccount(AccountRole),
    /// Source and destination are the same address.
    SelfTransfer,
    /// The source holds less than the amount requested.
    InsufficientFunds { available: u64, requested: u64 },
    /// The credit would take the destination past the largest balance.
    BalanceOverflow,
}

} // verus!
