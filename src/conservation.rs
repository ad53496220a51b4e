use vstd::prelude::*;

use crate::instructions::{deposit_error, deposited, withdraw_error, withdrawn, Deposit, Withdraw};
use crate::state::{Identity, Position, VaultState};

verus! {

/// The principal held across `positions`.
pub open spec fn total_principal(positions: Seq<Position>) -> int
    decreases positions.len(),
{
    if positions.len() == 0 {
        0
    } else {
        total_principal(positions.drop_last()) + positions.last().amount
    }
}

/// The vault's running total is exactly the principal of its positions.
pub open spec fn conserved(state: VaultState, positions: Seq<Position>) -> bool {
    state.total_deposited == total_principal(positions)
}

/// Replacing one position moves the total principal by the change in its amount.
proof fn lemma_total_principal_update(positions: Seq<Position>, i: int, p: Position)
    requires
        0 <= i < positions.len(),
    ensures
        total_principal(positions.update(i, p)) == total_principal(positions)
            - positions[i].amount + p.amount,
    decreases positions.len(),
{
    let updated = positions.update(i, p);
    if i == positions.len() - 1 {
        assert(updated.drop_last() =~= positions.drop_last());
    } else {
        lemma_total_principal_update(positions.drop_last(), i, p);
        assert(updated.drop_last() =~= positions.drop_last().update(i, p));
    }
}

/// Opening a never-funded position leaves the total principal as it was.
pub proof fn lemma_open_position_conserves(
    state: VaultState,
    positions: Seq<Position>,
    owner: Identity,
)
    requires
        conserved(state, positions),
    ensures
        conserved(
            state,
            positions.push(Position { owner, amount: 0, start_time: 0, accrued_yield: 0 }),
        ),
{
    let pushed = positions.push(Position { owner, amount: 0, start_time: 0, accrued_yield: 0 });
    assert(pushed.drop_last() =~= positions);
}

/// A deposit into any one of the vault's positions keeps the running total
/// equal to the sum of all principals; a refused one changes nothing.
pub proof fn lemma_deposit_conserves(
    ctx: Deposit,
    amount: u64,
    now: i64,
    positions: Seq<Position>,
    i: int,
)
    requires
        0 <= i < positions.len(),
        positions[i] == ctx.position,
        conserved(ctx.vault_state, positions),
        deposit_error(ctx, amount, now) is None,
    ensures
        conserved(
            deposited(ctx, amount, now).vault_state,
            positions.update(i, deposited(ctx, amount, now).position),
        ),
{
    lemma_total_principal_update(positions, i, deposited(ctx, amount, now).position);
}

/// A withdrawal from any one of the vault's positions keeps the running total
/// equal to the sum of all principals; a refused one changes nothing.
pub proof fn lemma_withdraw_conserves(
    ctx: Withdraw,
    amount: u64,
    now: i64,
    positions: Seq<Position>,
    i: int,
)
    requires
        0 <= i < positions.len(),
        positions[i] == ctx.position,
        conserved(ctx.vault_state, positions),
        withdraw_error(ctx, amount, now) is None,
    ensures
        conserved(
            withdrawn(ctx, amount, now).vault_state,
            positions.update(i, withdrawn(ctx, amount, now).position),
        ),
{
    lemma_total_principal_update(positions, i, withdrawn(ctx, amount, now).position);
}

} // verus!
