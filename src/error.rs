use vstd::prelude::*;

verus! {

/// Why a vault operation was refused. A refused operation changes nothing.
#[derive(Clone, Copy, Debug, PartialEq, Eq, Structural)]
pub enum VaultError {
    /// A withdrawal asks for more than the position's principal, or more than
    /// the escrow holds.
    InsufficientFunds,
    /// The vault's configuration already exists.
    AlreadyInitialized,
    /// The signer of a withdrawal is not the position's owner.
    Unauthorized,
    /// A sum or a yield does not fit in its integer width.
    ArithmeticOverflow,
    /// An accrual window ends before it starts.
    InvalidTimestamp,
    /// A deposit of nothing.
    ZeroAmount,
}

} // verus!
