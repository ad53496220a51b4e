use vstd::prelude::*;

verus! {

/// The 32-byte public key that identifies an account holder.
#[derive(Clone, Copy, Debug, PartialEq, Eq)]
pub struct Identity {
    pub key: [u8; 32],
}

impl Identity {
    /// Whether `self` and `other` are the same key, byte for byte.
    pub fn matches(&self, other: &Identity) -> (r: bool)
        ensures
            r == (*self == *other),
    {
        let mut i: usize = 0;
        while i < 32
            invariant
                0 <= i <= 32,
                forall|j: int| 0 <= j < i ==> self.key[j] == other.key[j],
            decreases 32 - i,
        {
            if self.key[i] != other.key[i] {
                return false;
            }
            i = i + 1;
        }
        assert(self.key =~= other.key);
        true
    }
}

/// The vault's global configuration, created once.
#[derive(Clone, Copy, Debug, PartialEq, Eq)]
pub struct VaultState {
    /// Who initialized the vault.
    pub admin: Identity,
    /// Annual yield in basis points, fixed for the vault's lifetime.
    pub apy_bps: u64,
    /// Sum of every position's principal, yield excluded.
    pub total_deposited: u64,
    /// Derivation tag of the configuration's address.
    pub bump: u8,
}

/// One depositor's principal and the yield realized on it so far.
#[derive(Clone, Copy, Debug, PartialEq, Eq)]
pub struct Position {
    /// The only identity allowed to withdraw.
    pub owner: Identity,
    /// Current principal.
    pub amount: u64,
    /// Start of the accrual window not yet realized.
    pub start_time: i64,
    /// Yield realized from earlier windows and not yet paid out.
    pub accrued_yield: u64,
}

impl Position {
    /// A position that has never been funded: the state in which a
    /// depositor's first deposit finds it.
    pub fn empty(owner: Identity) -> (r: Position)
        ensures
            r == (Position { owner, amount: 0, start_time: 0, accrued_yield: 0 }),
    {
        Position { owner, amount: 0, start_time: 0, accrued_yield: 0 }
    }
}

} // verus!
