use vstd::prelude::*;

use crate::error::VaultError;
use crate::interest::{calculate_yield, yield_amount};
use crate::state::{Identity, Position, VaultState};

verus! {

/// What vault initialization works on: the configuration slot, empty until
/// the first initialization, and the signer who becomes admin.
#[derive(Clone, Copy, Debug, PartialEq, Eq)]
pub struct InitializeVault {
    pub vault_state: Option<VaultState>,
    pub admin: Identity,
    /// Derivation tag of the configuration's address.
    pub bump: u8,
}

/// What a deposit works on: the configuration, the escrow's balance, the
/// depositor's position (never funded on a first deposit) and the depositor.
#[derive(Clone, Copy, Debug, PartialEq, Eq)]
pub struct Deposit {
    pub vault_state: VaultState,
    pub vault_balance: u64,
    pub position: Position,
    pub user: Identity,
}

/// What a withdrawal works on: the configuration, the escrow's balance, the
/// position withdrawn from, the signer, and the account paid.
#[derive(Clone, Copy, Debug, PartialEq, Eq)]
pub struct Withdraw {
    pub vault_state: VaultState,
    pub vault_balance: u64,
    pub position: Position,
    pub owner: Identity,
    pub user: Identity,
}

/// The refusal, if any, of initializing `ctx`.
pub open spec fn initialize_error(ctx: InitializeVault) -> Option<VaultError> {
    if ctx.vault_state is Some {
        Some(VaultError::AlreadyInitialized)
    } else {
        None
    }
}

/// `ctx` after a successful initialization at `apy_bps`.
pub open spec fn initialized(ctx: InitializeVault, apy_bps: u64) -> InitializeVault {
    InitializeVault {
        vault_state: Some(
            VaultState { admin: ctx.admin, apy_bps, total_deposited: 0, bump: ctx.bump },
        ),
        ..ctx
    }
}

/// Creates the vault's configuration with the signer as admin, the given
/// yield rate and nothing deposited. Refused when the configuration exists.
pub fn initialize_vault(ctx: &mut InitializeVault, apy_bps: u64) -> (r: Result<(), VaultError>)
    ensures
        match r {
            Ok(()) => initialize_error(*old(ctx)) is None && *final(ctx) == initialized(
                *old(ctx),
                apy_bps,
            ),
            Err(e) => initialize_error(*old(ctx)) == Some(e) && *final(ctx) == *old(ctx),
        },
{
    if ctx.vault_state.is_some() {
        return Err(VaultError::AlreadyInitialized);
    }
    ctx.vault_state = Some(
        VaultState { admin: ctx.admin, apy_bps, total_deposited: 0, bump: ctx.bump },
    );
    Ok(())
}

/// Once initialization has succeeded, initializing again is refused as
/// `AlreadyInitialized`, so the configuration it made stays as it is.
pub proof fn lemma_initialize_once(ctx: InitializeVault, apy_bps: u64)
    requires
        initialize_error(ctx) is None,
    ensures
        initialize_error(initialized(ctx, apy_bps)) == Some(VaultError::AlreadyInitialized),
{
}

/// The position's realized yield once the window since its `start_time`
/// is rolled forward to `now`; a never-funded position realizes nothing.
pub open spec fn rolled_yield(position: Position, apy_bps: u64, now: i64) -> int {
    if position.amount == 0 {
        position.accrued_yield as int
    } else {
        position.accrued_yield + yield_amount(
            position.amount as int,
            apy_bps as int,
            position.start_time as int,
            now as int,
        )
    }
}

/// The refusal, if any, of depositing `amount` at time `now`.
pub open spec fn deposit_error(ctx: Deposit, amount: u64, now: i64) -> Option<VaultError> {
    if amount == 0 {
        Some(VaultError::ZeroAmount)
    } else if ctx.position.amount != 0 && now < ctx.position.start_time {
        Some(VaultError::InvalidTimestamp)
    } else if rolled_yield(ctx.position, ctx.vault_state.apy_bps, now) > u64::MAX
        || ctx.position.amount + amount > u64::MAX
        || ctx.vault_state.total_deposited + amount > u64::MAX
        || ctx.vault_balance + amount > u64::MAX {
        Some(VaultError::ArithmeticOverflow)
    } else {
        None
    }
}

/// `ctx` after a successful deposit of `amount` at time `now`: yield is
/// realized on the old principal, then the principal grows.
pub open spec fn deposited(ctx: Deposit, amount: u64, now: i64) -> Deposit {
    Deposit {
        vault_state: VaultState {
            total_deposited: (ctx.vault_state.total_deposited + amount) as u64,
            ..ctx.vault_state
        },
        vault_balance: (ctx.vault_balance + amount) as u64,
        position: Position {
            owner: ctx.user,
            amount: (ctx.position.amount + amount) as u64,
            start_time: now,
            accrued_yield: rolled_yield(ctx.position, ctx.vault_state.apy_bps, now) as u64,
        },
        user: ctx.user,
    }
}

/// Records a deposit of `amount` by `ctx.user` into escrow at time `now`.
///
/// Yield earned since the position's `start_time` on the principal in force
/// until now is first added to `accrued_yield`, then `start_time` becomes
/// `now` and `amount` joins the principal and the vault's total.
pub fn deposit(ctx: &mut Deposit, amount: u64, now: i64) -> (r: Result<(), VaultError>)
    ensures
        match r {
            Ok(()) => deposit_error(*old(ctx), amount, now) is None && *final(ctx) == deposited(
                *old(ctx),
                amount,
                now,
            ),
            Err(e) => deposit_error(*old(ctx), amount, now) == Some(e) && *final(ctx) == *old(ctx),
        },
{
    if amount == 0 {
        return Err(VaultError::ZeroAmount);
    }
    let accrued: u64 = if ctx.position.amount == 0 {
        ctx.position.accrued_yield
    } else {
        let window: u64 = match calculate_yield(
            ctx.position.amount,
            ctx.vault_state.apy_bps,
            ctx.position.start_time,
            now,
        ) {
            Ok(y) => y,
            Err(e) => {
                return Err(e);
            },
        };
        match ctx.position.accrued_yield.checked_add(window) {
            Some(a) => a,
            None => {
                return Err(VaultError::ArithmeticOverflow);
            },
        }
    };
    let (principal, total, balance) = match (
        ctx.position.amount.checked_add(amount),
        ctx.vault_state.total_deposited.checked_add(amount),
        ctx.vault_balance.checked_add(amount),
    ) {
        (Some(p), Some(t), Some(b)) => (p, t, b),
        _ => {
            return Err(VaultError::ArithmeticOverflow);
        },
    };
    ctx.position.accrued_yield = accrued;
    ctx.position.start_time = now;
    ctx.position.amount = principal;
    ctx.position.owner = ctx.user;
    ctx.vault_state.total_deposited = total;
    ctx.vault_balance = balance;
    Ok(())
}

/// All yield owed to the position at time `now`: what was realized before,
/// plus the window since `start_time` on the whole principal.
pub open spec fn owed_yield(position: Position, apy_bps: u64, now: i64) -> int {
    position.accrued_yield + yield_amount(
        position.amount as int,
        apy_bps as int,
        position.start_time as int,
        now as int,
    )
}

/// The refusal, if any, of withdrawing `amount` at time `now`.
pub open spec fn withdraw_error(ctx: Withdraw, amount: u64, now: i64) -> Option<VaultError> {
    let owed = owed_yield(ctx.position, ctx.vault_state.apy_bps, now);
    if ctx.position.owner != ctx.owner {
        Some(VaultError::Unauthorized)
    } else if amount > ctx.position.amount {
        Some(VaultError::InsufficientFunds)
    } else if now < ctx.position.start_time {
        Some(VaultError::InvalidTimestamp)
    } else if amount + owed > u64::MAX || amount > ctx.vault_state.total_deposited {
        Some(VaultError::ArithmeticOverflow)
    } else if amount + owed > ctx.vault_balance {
        Some(VaultError::InsufficientFunds)
    } else {
        None
    }
}

/// What a successful withdrawal of `amount` at time `now` pays out.
pub open spec fn payout(ctx: Withdraw, amount: u64, now: i64) -> int {
    amount + owed_yield(ctx.position, ctx.vault_state.apy_bps, now)
}

/// `ctx` after a successful withdrawal of `amount` at time `now`: the
/// principal shrinks by `amount` and all owed yield is paid, so none is left.
pub open spec fn withdrawn(ctx: Withdraw, amount: u64, now: i64) -> Withdraw {
    Withdraw {
        vault_state: VaultState {
            total_deposited: (ctx.vault_state.total_deposited - amount) as u64,
            ..ctx.vault_state
        },
        vault_balance: (ctx.vault_balance - payout(ctx, amount, now)) as u64,
        position: Position {
            amount: (ctx.position.amount - amount) as u64,
            start_time: now,
            accrued_yield: 0,
            ..ctx.position
        },
        ..ctx
    }
}

/// Withdraws `amount` of principal for `ctx.user` at time `now`, paying it
/// together with every unit of yield owed on the position, partial or not.
/// Returns the sum paid out of escrow.
///
/// Only the position's owner may sign; the check precedes everything else.
pub fn withdraw(ctx: &mut Withdraw, amount: u64, now: i64) -> (r: Result<u64, VaultError>)
    ensures
        match r {
            Ok(paid) => withdraw_error(*old(ctx), amount, now) is None && paid == payout(
                *old(ctx),
                amount,
                now,
            ) && *final(ctx) == withdrawn(*old(ctx), amount, now),
            Err(e) => withdraw_error(*old(ctx), amount, now) == Some(e) && *final(ctx) == *old(ctx),
        },
{
    if !ctx.position.owner.matches(&ctx.owner) {
        return Err(VaultError::Unauthorized);
    }
    if amount > ctx.position.amount {
        return Err(VaultError::InsufficientFunds);
    }
    let window: u64 = match calculate_yield(
        ctx.position.amount,
        ctx.vault_state.apy_bps,
        ctx.position.start_time,
        now,
    ) {
        Ok(y) => y,
        Err(e) => {
            return Err(e);
        },
    };
    let paid: u64 = match ctx.position.accrued_yield.checked_add(window) {
        Some(owed) => match amount.checked_add(owed) {
            Some(p) => p,
            None => {
                return Err(VaultError::ArithmeticOverflow);
            },
        },
        None => {
            return Err(VaultError::ArithmeticOverflow);
        },
    };
    if amount > ctx.vault_state.total_deposited {
        return Err(VaultError::ArithmeticOverflow);
    }
    if paid > ctx.vault_balance {
        return Err(VaultError::InsufficientFunds);
    }
    ctx.position.amount = ctx.position.amount - amount;
    ctx.position.accrued_yield = 0;
    ctx.position.start_time = now;
    ctx.vault_state.total_deposited = ctx.vault_state.total_deposited - amount;
    ctx.vault_balance = ctx.vault_balance - paid;
    Ok(paid)
}

/// Asking for more principal than the position holds is refused as
/// `InsufficientFunds` when the owner signs (and as `Unauthorized` otherwise).
pub proof fn lemma_overdraw_refused(ctx: Withdraw, amount: u64, now: i64)
    requires
        ctx.position.owner == ctx.owner,
        amount > ctx.position.amount,
    ensures
        withdraw_error(ctx, amount, now) == Some(VaultError::InsufficientFunds),
{
}

/// A withdrawal signed by anyone but the position's owner is refused as
/// `Unauthorized`, whatever it asks for.
pub proof fn lemma_stranger_refused(ctx: Withdraw, amount: u64, now: i64)
    requires
        ctx.position.owner != ctx.owner,
    ensures
        withdraw_error(ctx, amount, now) == Some(VaultError::Unauthorized),
{
}

} // verus!
