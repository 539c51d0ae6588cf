use vstd::prelude::*;

verus! {

/// Why a pool operation was refused. Every failure is final for the operation
/// that raised it and leaves the pool exactly as it was.
#[derive(Clone, Copy, Debug, PartialEq, Eq, Structural)]
pub enum PoolError {
    /// A result does not fit in 128 bits.
    ArithmeticOverflow,
    /// A proportion was taken of a zero total.
    DivisionByZero,
    /// A withdrawal or trade asks for more than a reserve holds, or would
    /// lower the product of the reserves.
    InsufficientReserve,
    /// An account redeems more shares than it owns.
    InsufficientShares,
    /// No shares are outstanding to redeem, or a first deposit lacks an asset.
    PoolEmpty,
    /// A trade brings nothing, or would pay out less than the caller's minimum.
    SlippageExceeded,
    /// The pool was initialized before.
    AlreadyInitialized,
    /// The asset ledger could not move the funds of the operation.
    TransferFailed,
}

} // verus!
