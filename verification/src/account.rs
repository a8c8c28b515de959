//! Identities of accounts on the host's ledgers.

use vstd::prelude::*;

verus! {

/// An address on the host's value-transfer ledger: a user, a vault, a mint or
/// a stored record. The engine only ever compares identities for equality;
/// deriving them and authorizing writes to them is the host's address space
/// service.
#[derive(Clone, Copy, Debug, Hash, PartialEq, Eq, Structural)]
pub struct AccountId(pub u64);

} // verus!
