use vault::{
    calculate_yield, deposit, initialize_vault, withdraw, Deposit, Identity, InitializeVault,
    Position, VaultError, VaultState, Withdraw,
};

const YEAR: i64 = 31_536_000;

fn id(b: u8) -> Identity {
    Identity { key: [b; 32] }
}

fn config(apy_bps: u64, total_deposited: u64) -> VaultState {
    VaultState { admin: id(9), apy_bps, total_deposited, bump: 254 }
}

fn funded(owner: Identity, amount: u64, start_time: i64, accrued_yield: u64) -> Position {
    Position { owner, amount, start_time, accrued_yield }
}

#[test]
fn zero_elapsed_yields_nothing() {
    assert_eq!(calculate_yield(1_000_000, 500, 42, 42), Ok(0));
    assert_eq!(calculate_yield(u64::MAX, u64::MAX, i64::MAX, i64::MAX), Ok(0));
    assert_eq!(calculate_yield(0, 0, -7, -7), Ok(0));
}

#[test]
fn yield_grows_with_elapsed_time() {
    let mut last = 0;
    for t in [0, 1, 1_000, 15_768_000, YEAR, 2 * YEAR, 10 * YEAR] {
        let y = calculate_yield(1_000_000, 500, 0, t).unwrap();
        assert!(y >= last);
        last = y;
    }
}

#[test]
fn full_year_accrual() {
    assert_eq!(calculate_yield(1_000_000, 500, 0, 31_536_000), Ok(50_000));
}

#[test]
fn half_year_accrual() {
    assert_eq!(calculate_yield(1_000_000, 500, 0, 15_768_000), Ok(25_000));
}

#[test]
fn yield_is_floored() {
    assert_eq!(calculate_yield(7, 333, 0, 1_000), Ok(0));
    assert_eq!(calculate_yield(12_345, 678, 100, 100 + 9_999_999), Ok(265));
}

#[test]
fn yield_on_widest_window() {
    assert_eq!(calculate_yield(1, 1, i64::MIN, i64::MAX), Ok(58_494_241));
}

#[test]
fn yield_at_the_top_of_u64() {
    assert_eq!(calculate_yield(u64::MAX, 10_000, 0, YEAR), Ok(u64::MAX));
}

#[test]
fn yield_beyond_u64_overflows() {
    assert_eq!(
        calculate_yield(u64::MAX, 10_000, 0, YEAR + 1),
        Err(VaultError::ArithmeticOverflow)
    );
    assert_eq!(
        calculate_yield(u64::MAX, u64::MAX, i64::MIN, i64::MAX),
        Err(VaultError::ArithmeticOverflow)
    );
}

#[test]
fn backwards_window_is_refused() {
    assert_eq!(calculate_yield(1_000, 500, 10, 9), Err(VaultError::InvalidTimestamp));
    assert_eq!(calculate_yield(0, 0, i64::MAX, i64::MIN), Err(VaultError::InvalidTimestamp));
}

#[test]
fn initialize_creates_config() {
    let mut ctx = InitializeVault { vault_state: None, admin: id(1), bump: 253 };
    assert_eq!(initialize_vault(&mut ctx, 500), Ok(()));
    assert_eq!(
        ctx.vault_state,
        Some(VaultState { admin: id(1), apy_bps: 500, total_deposited: 0, bump: 253 })
    );
}

#[test]
fn second_initialize_is_refused() {
    let mut ctx = InitializeVault { vault_state: None, admin: id(1), bump: 253 };
    assert_eq!(initialize_vault(&mut ctx, 500), Ok(()));
    let before = ctx;
    ctx.admin = id(2);
    let mut again = ctx;
    assert_eq!(initialize_vault(&mut again, 900), Err(VaultError::AlreadyInitialized));
    assert_eq!(again, ctx);
    assert_eq!(again.vault_state, before.vault_state);
}

#[test]
fn first_deposit_starts_the_window() {
    let mut ctx = Deposit {
        vault_state: config(1_000, 0),
        vault_balance: 0,
        position: Position::empty(id(1)),
        user: id(1),
    };
    assert_eq!(deposit(&mut ctx, 1_000, 77), Ok(()));
    assert_eq!(ctx.position, funded(id(1), 1_000, 77, 0));
    assert_eq!(ctx.vault_state.total_deposited, 1_000);
    assert_eq!(ctx.vault_balance, 1_000);
}

#[test]
fn deposit_rolls_yield_forward() {
    let mut ctx = Deposit {
        vault_state: config(1_000, 0),
        vault_balance: 0,
        position: Position::empty(id(1)),
        user: id(1),
    };
    assert_eq!(deposit(&mut ctx, 1_000, 0), Ok(()));
    assert_eq!(deposit(&mut ctx, 500, YEAR), Ok(()));
    assert_eq!(ctx.position.accrued_yield, 100);
    assert_eq!(ctx.position.amount, 1_500);
    assert_eq!(ctx.position.start_time, YEAR);
    assert_eq!(ctx.position.owner, id(1));
    assert_eq!(ctx.vault_state.total_deposited, 1_500);
    assert_eq!(ctx.vault_balance, 1_500);
}

#[test]
fn zero_deposit_is_refused() {
    let mut ctx = Deposit {
        vault_state: config(1_000, 10),
        vault_balance: 10,
        position: funded(id(1), 10, 0, 3),
        user: id(1),
    };
    let before = ctx;
    assert_eq!(deposit(&mut ctx, 0, YEAR), Err(VaultError::ZeroAmount));
    assert_eq!(ctx, before);
}

#[test]
fn deposit_before_window_start_is_refused() {
    let mut ctx = Deposit {
        vault_state: config(1_000, 10),
        vault_balance: 10,
        position: funded(id(1), 10, 500, 3),
        user: id(1),
    };
    let before = ctx;
    assert_eq!(deposit(&mut ctx, 5, 499), Err(VaultError::InvalidTimestamp));
    assert_eq!(ctx, before);
}

#[test]
fn deposit_overflow_is_refused() {
    let mut ctx = Deposit {
        vault_state: config(1_000, u64::MAX - 5),
        vault_balance: 10,
        position: funded(id(1), 10, 0, 0),
        user: id(1),
    };
    let before = ctx;
    assert_eq!(deposit(&mut ctx, 6, 1), Err(VaultError::ArithmeticOverflow));
    assert_eq!(ctx, before);

    let mut ctx = Deposit {
        vault_state: config(1_000, 10),
        vault_balance: 10,
        position: funded(id(1), 10, 0, u64::MAX),
        user: id(1),
    };
    let before = ctx;
    assert_eq!(deposit(&mut ctx, 1, YEAR), Err(VaultError::ArithmeticOverflow));
    assert_eq!(ctx, before);
}

fn withdraw_ctx(owner: Identity) -> Withdraw {
    Withdraw {
        vault_state: config(500, 1_000),
        vault_balance: 2_000,
        position: funded(id(1), 1_000, 0, 50),
        owner,
        user: id(1),
    }
}

#[test]
fn partial_withdraw_pays_all_yield() {
    let mut ctx = withdraw_ctx(id(1));
    assert_eq!(withdraw(&mut ctx, 400, YEAR), Ok(500));
    assert_eq!(ctx.position, funded(id(1), 600, YEAR, 0));
    assert_eq!(ctx.vault_state.total_deposited, 600);
    assert_eq!(ctx.vault_balance, 1_500);
}

#[test]
fn overdraw_is_refused() {
    let mut ctx = withdraw_ctx(id(1));
    let before = ctx;
    assert_eq!(withdraw(&mut ctx, 1_001, YEAR), Err(VaultError::InsufficientFunds));
    assert_eq!(ctx, before);
}

#[test]
fn stranger_withdraw_is_refused() {
    let mut ctx = withdraw_ctx(id(2));
    let before = ctx;
    assert_eq!(withdraw(&mut ctx, 400, YEAR), Err(VaultError::Unauthorized));
    assert_eq!(ctx, before);
    let mut near = withdraw_ctx(Identity { key: {
        let mut k = [1u8; 32];
        k[31] = 0;
        k
    } });
    assert_eq!(withdraw(&mut near, 1, YEAR), Err(VaultError::Unauthorized));
}

#[test]
fn short_escrow_is_refused() {
    let mut ctx = withdraw_ctx(id(1));
    ctx.vault_balance = 499;
    let before = ctx;
    assert_eq!(withdraw(&mut ctx, 400, YEAR), Err(VaultError::InsufficientFunds));
    assert_eq!(ctx, before);
}

#[test]
fn withdraw_before_window_start_is_refused() {
    let mut ctx = withdraw_ctx(id(1));
    ctx.position.start_time = 10;
    let before = ctx;
    assert_eq!(withdraw(&mut ctx, 1, 9), Err(VaultError::InvalidTimestamp));
    assert_eq!(ctx, before);
}

#[test]
fn withdraw_beyond_running_total_overflows() {
    let mut ctx = withdraw_ctx(id(1));
    ctx.vault_state.total_deposited = 300;
    let before = ctx;
    assert_eq!(withdraw(&mut ctx, 400, YEAR), Err(VaultError::ArithmeticOverflow));
    assert_eq!(ctx, before);
}

#[test]
fn full_withdraw_leaves_empty_position() {
    let mut ctx = withdraw_ctx(id(1));
    assert_eq!(withdraw(&mut ctx, 1_000, 0), Ok(1_050));
    assert_eq!(ctx.position, funded(id(1), 0, 0, 0));
    assert_eq!(ctx.vault_state.total_deposited, 0);
    assert_eq!(ctx.vault_balance, 950);
}

#[test]
fn running_total_tracks_principal() {
    let mut state = config(1_000, 0);
    let mut balance: u64 = 0;
    let mut positions = vec![Position::empty(id(1)), Position::empty(id(2))];
    let steps: [(usize, bool, u64, i64); 6] = [
        (0, true, 1_000, 0),
        (1, true, 300, 10),
        (0, false, 250, YEAR),
        (1, true, 700, YEAR),
        (1, false, 1_000, 2 * YEAR),
        (0, true, 5, 2 * YEAR),
    ];
    for (who, is_deposit, amount, now) in steps {
        if is_deposit {
            let mut ctx = Deposit {
                vault_state: state,
                vault_balance: balance,
                position: positions[who],
                user: id(who as u8 + 1),
            };
            deposit(&mut ctx, amount, now).unwrap();
            state = ctx.vault_state;
            balance = ctx.vault_balance;
            positions[who] = ctx.position;
        } else {
            let mut ctx = Withdraw {
                vault_state: state,
                vault_balance: balance + 10_000,
                position: positions[who],
                owner: id(who as u8 + 1),
                user: id(who as u8 + 1),
            };
            withdraw(&mut ctx, amount, now).unwrap();
            state = ctx.vault_state;
            balance = ctx.vault_balance - 10_000;
            positions[who] = ctx.position;
        }
        let sum: u64 = positions.iter().map(|p| p.amount).sum();
        assert_eq!(state.total_deposited, sum);
    }
    assert_eq!(state.total_deposited, 755);
}

#[test]
fn identity_comparison_is_bytewise() {
    assert!(id(3).matches(&id(3)));
    let mut k = [3u8; 32];
    k[0] = 4;
    assert!(!id(3).matches(&Identity { key: k }));
}
