//! The error taxonomy of the engine.

use vstd::prelude::*;

verus! {

/// Every failure of an operation. Each error is terminal for the attempted
/// call and leaves all state unchanged; the pool stays usable for later calls.
#[derive(Clone, Copy, Debug, Hash, PartialEq, Eq, Structural)]
pub enum ErrorCode {
    /// A stored schedule configuration that the engine cannot work with.
    InvalidConfig,
    /// A withdrawal of zero.
    ZeroAmount,
    /// The reward vault cannot cover one more allocation.
    InsufficientPoolBalance,
    /// A checked addition, subtraction or multiplication left the 64-bit
    /// range; surfaced before any transfer is described.
    MathOverflow,
    /// Nothing of the allocation has vested yet.
    StillLocked,
    /// Everything vested so far has already been claimed.
    NothingToClaim,
    /// A subscription may only be closed once fully claimed.
    NotYetFullyClaimed,
    /// A claim against the wrong owner or the wrong pool.
    AccountMismatch,
    /// A pause or withdrawal by anyone but the pool authority.
    Unauthorized,
    /// The pool is paused.
    Paused,
}

} // verus!
