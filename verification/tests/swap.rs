use my_dex::address::Address;
use my_dex::custody::TokenAccount;
use my_dex::error::SwapError;
use my_dex::pool::PoolState;
use my_dex::swap::buy;
use my_dex::swap::buy_with_authority;
use my_dex::swap::sell;
use my_dex::swap::sell_with_authority;
use my_dex::swap::Buy;
use my_dex::swap::Sell;

const PROGRAM_ID: [u8; 32] = [
    19, 114, 5, 244, 246, 245, 101, 185, 142, 205, 144, 80, 152, 113, 0, 254, 204, 56, 3, 78, 239,
    206, 98, 108, 255, 135, 196, 184, 201, 102, 21, 162,
];

const POOL_ADDRESS: [u8; 32] = [
    18, 101, 105, 14, 21, 27, 104, 78, 208, 231, 43, 98, 78, 195, 111, 136, 183, 147, 99, 96, 217,
    2, 195, 255, 219, 138, 209, 25, 222, 119, 167, 4,
];

fn user() -> Address {
    Address::new([10u8; 32])
}

fn pool_address() -> Address {
    Address::new(POOL_ADDRESS)
}

fn record(tag: u8, mint: u8, owner: Address, amount: u64) -> TokenAccount {
    TokenAccount { address: Address::new([tag; 32]), mint: Address::new([mint; 32]), owner, amount }
}

/// A pool at `rate` with its vaults at `vault_a` and `vault_b`, and a caller who
/// holds `user_a` and `user_b`.
fn accounts(rate: u64, user_a: u64, user_b: u64, vault_a: u64, vault_b: u64) -> Buy {
    Buy {
        program_id: Address::new(PROGRAM_ID),
        pool: PoolState {
            token_a_mint: Address::new([1u8; 32]),
            token_b_mint: Address::new([2u8; 32]),
            token_a_vault: Address::new([30u8; 32]),
            token_b_vault: Address::new([31u8; 32]),
            rate,
            bump: 254,
        },
        user: user(),
        user_a_ata: record(20, 1, user(), user_a),
        user_b_ata: record(21, 2, user(), user_b),
        token_a_vault: record(30, 1, pool_address(), vault_a),
        token_b_vault: record(31, 2, pool_address(), vault_b),
    }
}

fn balances_of_buy(ctx: &Buy) -> (u64, u64, u64, u64) {
    (
        ctx.user_a_ata.amount,
        ctx.user_b_ata.amount,
        ctx.token_a_vault.amount,
        ctx.token_b_vault.amount,
    )
}

fn balances_of_sell(ctx: &Sell) -> (u64, u64, u64, u64) {
    (
        ctx.user_a_ata.amount,
        ctx.user_b_ata.amount,
        ctx.token_a_vault.amount,
        ctx.token_b_vault.amount,
    )
}

#[test]
fn buy_ten_at_rate_two_then_sell_twenty() {
    let mut ctx = accounts(2, 0, 100, 1_000, 500);
    assert_eq!(buy(&mut ctx, 10), Ok(20));
    assert_eq!(ctx.user_b_ata.amount, 90);
    assert_eq!(ctx.user_a_ata.amount, 20);
    assert_eq!(ctx.token_b_vault.amount, 510);
    assert_eq!(ctx.token_a_vault.amount, 980);
    let mut back = ctx.into_sell();
    assert_eq!(sell(&mut back, 20), Ok(10));
    assert_eq!(back.user_a_ata.amount, 0);
    assert_eq!(back.user_b_ata.amount, 100);
    assert_eq!(back.token_a_vault.amount, 1_000);
    assert_eq!(back.token_b_vault.amount, 500);
    assert_eq!(back, accounts(2, 0, 100, 1_000, 500).into_sell());
}

#[test]
fn buy_changes_nothing_but_the_four_balances() {
    let before = accounts(3, 1, 50, 600, 7);
    let mut ctx = before;
    assert_eq!(buy(&mut ctx, 50), Ok(150));
    let mut expected = before;
    expected.user_a_ata.amount = 151;
    expected.user_b_ata.amount = 0;
    expected.token_a_vault.amount = 450;
    expected.token_b_vault.amount = 57;
    assert_eq!(ctx, expected);
    assert_eq!(ctx.pool, before.pool);
}

#[test]
fn sell_changes_nothing_but_the_four_balances() {
    let before = accounts(3, 100, 50, 600, 70).into_sell();
    let mut ctx = before;
    assert_eq!(sell(&mut ctx, 100), Ok(33));
    let mut expected = before;
    expected.user_a_ata.amount = 0;
    expected.user_b_ata.amount = 83;
    expected.token_a_vault.amount = 700;
    expected.token_b_vault.amount = 37;
    assert_eq!(ctx, expected);
    assert_eq!(ctx.pool, before.pool);
}

#[test]
fn a_swap_creates_and_destroys_nothing() {
    let before = accounts(7, 13, 400, 9_000, 25);
    let mut ctx = before;
    assert_eq!(buy(&mut ctx, 123), Ok(861));
    assert_eq!(
        ctx.token_a_vault.amount + ctx.user_a_ata.amount,
        before.token_a_vault.amount + before.user_a_ata.amount
    );
    assert_eq!(
        ctx.token_b_vault.amount + ctx.user_b_ata.amount,
        before.token_b_vault.amount + before.user_b_ata.amount
    );
    let mut back = ctx.into_sell();
    assert_eq!(sell(&mut back, 500), Ok(71));
    assert_eq!(back.token_a_vault.amount + back.user_a_ata.amount, 9_013);
    assert_eq!(back.token_b_vault.amount + back.user_b_ata.amount, 425);
    assert_eq!(balances_of_sell(&back), (374, 348, 8_639, 77));
}

#[test]
fn buy_then_sell_returns_the_payment_at_any_rate() {
    for rate in [1u64, 2, 3, 7, 1_000] {
        for amount_b in [0u64, 1, 3, 10, 99] {
            let before = accounts(rate, 5, 100, 1_000_000, 500);
            let mut ctx = before;
            let amount_a = buy(&mut ctx, amount_b).unwrap();
            assert_eq!(amount_a, amount_b * rate);
            let mut back = ctx.into_sell();
            assert_eq!(sell(&mut back, amount_a), Ok(amount_b));
            assert_eq!(back, before.into_sell());
        }
    }
}

#[test]
fn sell_then_buy_leaves_the_remainder_in_the_vault() {
    let before = accounts(3, 100, 0, 1_000, 500).into_sell();
    let mut ctx = before;
    assert_eq!(sell(&mut ctx, 20), Ok(6));
    let mut back = ctx.into_buy();
    assert_eq!(buy(&mut back, 6), Ok(18));
    assert_eq!(balances_of_buy(&back), (98, 0, 1_002, 500));
}

#[test]
fn sell_of_less_than_the_rate_pays_nothing_and_is_accepted() {
    let mut ctx = accounts(5, 4, 0, 10, 10).into_sell();
    assert_eq!(sell(&mut ctx, 4), Ok(0));
    assert_eq!(balances_of_sell(&ctx), (0, 0, 14, 10));
}

#[test]
fn buy_beyond_the_range_is_calculation_overflow() {
    let before = accounts(2, 0, u64::MAX, u64::MAX, 0);
    let mut ctx = before;
    assert_eq!(buy(&mut ctx, u64::MAX / 2 + 1), Err(SwapError::CalculationOverflow));
    assert_eq!(ctx, before);
    assert_eq!(buy(&mut ctx, u64::MAX / 2), Ok(u64::MAX - 1));
    assert_eq!(balances_of_buy(&ctx), (u64::MAX - 1, u64::MAX / 2 + 1, 1, u64::MAX / 2));
}

#[test]
fn buy_at_the_highest_rate() {
    let before = accounts(u64::MAX, 0, 10, u64::MAX, 0);
    let mut ctx = before;
    assert_eq!(buy(&mut ctx, 2), Err(SwapError::CalculationOverflow));
    assert_eq!(ctx, before);
    assert_eq!(buy(&mut ctx, 1), Ok(u64::MAX));
    assert_eq!(balances_of_buy(&ctx), (u64::MAX, 9, 0, 1));
}

#[test]
fn buy_with_another_vault_a_is_vault_mismatch() {
    let before = {
        let mut ctx = accounts(2, 0, 100, 1_000, 500);
        ctx.token_a_vault.address = Address::new([40u8; 32]);
        ctx
    };
    let mut ctx = before;
    assert_eq!(buy(&mut ctx, 10), Err(SwapError::VaultMismatch));
    assert_eq!(ctx, before);
}

#[test]
fn buy_with_another_vault_b_is_vault_mismatch() {
    let before = {
        let mut ctx = accounts(2, 0, 100, 1_000, 500);
        ctx.token_b_vault = record(41, 2, pool_address(), 500);
        ctx
    };
    let mut ctx = before;
    assert_eq!(buy(&mut ctx, 10), Err(SwapError::VaultMismatch));
    assert_eq!(ctx, before);
}

#[test]
fn buy_with_the_vaults_exchanged_is_vault_mismatch() {
    let mut ctx = accounts(2, 0, 100, 1_000, 500);
    let a = ctx.token_a_vault;
    ctx.token_a_vault = ctx.token_b_vault;
    ctx.token_b_vault = a;
    let before = ctx;
    assert_eq!(buy(&mut ctx, 10), Err(SwapError::VaultMismatch));
    assert_eq!(ctx, before);
}

#[test]
fn sell_with_another_vault_is_vault_mismatch() {
    let mut wrong_a = accounts(2, 100, 0, 1_000, 500).into_sell();
    wrong_a.token_a_vault.address = Address::new([40u8; 32]);
    let before_a = wrong_a;
    assert_eq!(sell(&mut wrong_a, 10), Err(SwapError::VaultMismatch));
    assert_eq!(wrong_a, before_a);
    let mut wrong_b = accounts(2, 100, 0, 1_000, 500).into_sell();
    wrong_b.token_b_vault.address = Address::new([40u8; 32]);
    let before_b = wrong_b;
    assert_eq!(sell(&mut wrong_b, 10), Err(SwapError::VaultMismatch));
    assert_eq!(wrong_b, before_b);
}

#[test]
fn a_wrong_vault_is_reported_before_an_overflow_and_before_a_zero_rate() {
    let mut ctx = accounts(2, 0, 100, 1_000, 500);
    ctx.token_a_vault.address = Address::new([40u8; 32]);
    assert_eq!(buy(&mut ctx, u64::MAX), Err(SwapError::VaultMismatch));
    let mut zero = accounts(0, 100, 0, 1_000, 500).into_sell();
    zero.token_b_vault.address = Address::new([40u8; 32]);
    assert_eq!(sell(&mut zero, 1), Err(SwapError::VaultMismatch));
}

#[test]
fn sell_at_rate_zero_is_invalid_amount() {
    let before = accounts(0, 100, 0, 1_000, 500).into_sell();
    let mut ctx = before;
    assert_eq!(sell(&mut ctx, 10), Err(SwapError::InvalidAmount));
    assert_eq!(ctx, before);
}

#[test]
fn buy_at_rate_zero_delivers_nothing() {
    let mut ctx = accounts(0, 0, 100, 1_000, 500);
    assert_eq!(buy(&mut ctx, 10), Ok(0));
    assert_eq!(balances_of_buy(&ctx), (0, 90, 1_000, 510));
}

#[test]
fn buy_for_more_than_the_caller_holds_is_insufficient_funds() {
    let before = accounts(2, 0, 100, 1_000, 500);
    let mut ctx = before;
    assert_eq!(buy(&mut ctx, 101), Err(SwapError::InsufficientFunds));
    assert_eq!(ctx, before);
    assert_eq!(buy(&mut ctx, 100), Ok(200));
}

#[test]
fn buy_of_more_than_the_vault_holds_undoes_the_payment() {
    let before = accounts(2, 0, 100, 19, 500);
    let mut ctx = before;
    assert_eq!(buy(&mut ctx, 10), Err(SwapError::InsufficientFunds));
    assert_eq!(ctx, before);
    assert_eq!(balances_of_buy(&ctx), (0, 100, 19, 500));
}

#[test]
fn sell_of_more_than_the_vault_pays_undoes_the_delivery() {
    let before = accounts(2, 100, 0, 1_000, 9).into_sell();
    let mut ctx = before;
    assert_eq!(sell(&mut ctx, 20), Err(SwapError::InsufficientFunds));
    assert_eq!(ctx, before);
    assert_eq!(sell(&mut ctx, 19), Ok(9));
}

#[test]
fn sell_of_more_than_the_caller_holds_is_insufficient_funds() {
    let before = accounts(2, 5, 0, 1_000, 500).into_sell();
    let mut ctx = before;
    assert_eq!(sell(&mut ctx, 6), Err(SwapError::InsufficientFunds));
    assert_eq!(ctx, before);
}

#[test]
fn buy_from_a_record_of_another_owner_is_authority_mismatch() {
    let mut ctx = accounts(2, 0, 100, 1_000, 500);
    ctx.user_b_ata.owner = Address::new([11u8; 32]);
    let before = ctx;
    assert_eq!(buy(&mut ctx, 10), Err(SwapError::AuthorityMismatch));
    assert_eq!(ctx, before);
}

#[test]
fn buy_from_a_vault_that_the_pool_does_not_control_undoes_the_payment() {
    let mut ctx = accounts(2, 0, 100, 1_000, 500);
    ctx.token_a_vault.owner = user();
    let before = ctx;
    assert_eq!(buy(&mut ctx, 10), Err(SwapError::AuthorityMismatch));
    assert_eq!(ctx, before);
}

#[test]
fn buy_with_a_bump_that_derives_another_address_is_authority_mismatch() {
    let mut ctx = accounts(2, 0, 100, 1_000, 500);
    ctx.pool.bump = 253;
    let before = ctx;
    assert_eq!(buy(&mut ctx, 10), Err(SwapError::AuthorityMismatch));
    assert_eq!(ctx, before);
}

#[test]
fn swap_with_a_bump_that_derives_nothing_is_invalid_seeds() {
    let mut ctx = accounts(2, 50, 100, 1_000, 500);
    ctx.pool.bump = 255;
    let before = ctx;
    assert_eq!(buy(&mut ctx, 10), Err(SwapError::InvalidSeeds));
    assert_eq!(ctx, before);
    let mut back = ctx.into_sell();
    assert_eq!(sell(&mut back, 10), Err(SwapError::InvalidSeeds));
    assert_eq!(back, before.into_sell());
}

#[test]
fn swap_under_another_program_is_authority_mismatch() {
    let mut ctx = accounts(2, 50, 100, 1_000, 500);
    ctx.program_id = Address::new([7u8; 32]);
    let before = ctx;
    assert_eq!(buy(&mut ctx, 10), Err(SwapError::AuthorityMismatch));
    assert_eq!(ctx, before);
}

#[test]
fn buy_into_a_full_record_is_calculation_overflow() {
    let before = accounts(2, u64::MAX - 19, 100, 1_000, 500);
    let mut ctx = before;
    assert_eq!(buy(&mut ctx, 10), Err(SwapError::CalculationOverflow));
    assert_eq!(ctx, before);
    let full_vault = accounts(2, 0, 100, 1_000, u64::MAX - 9);
    let mut other = full_vault;
    assert_eq!(buy(&mut other, 10), Err(SwapError::CalculationOverflow));
    assert_eq!(other, full_vault);
}

#[test]
fn the_payment_is_checked_before_the_delivery() {
    let mut ctx = accounts(2, 0, 5, 1, 500);
    ctx.token_a_vault.owner = user();
    assert_eq!(buy(&mut ctx, 10), Err(SwapError::InsufficientFunds));
    ctx.user_b_ata.amount = 10;
    assert_eq!(buy(&mut ctx, 10), Err(SwapError::AuthorityMismatch));
}

#[test]
fn buy_with_authority_takes_the_authority_as_given() {
    let before = accounts(2, 0, 100, 1_000, 500);
    let mut ctx = before;
    assert_eq!(buy_with_authority(&mut ctx, None, 10), Err(SwapError::InvalidSeeds));
    assert_eq!(ctx, before);
    assert_eq!(buy_with_authority(&mut ctx, Some(user()), 10), Err(SwapError::AuthorityMismatch));
    assert_eq!(ctx, before);
    assert_eq!(buy_with_authority(&mut ctx, Some(pool_address()), 10), Ok(20));
    assert_eq!(balances_of_buy(&ctx), (20, 90, 980, 510));
}

#[test]
fn sell_with_authority_takes_the_authority_as_given() {
    let before = accounts(2, 20, 90, 980, 510).into_sell();
    let mut ctx = before;
    assert_eq!(sell_with_authority(&mut ctx, None, 20), Err(SwapError::InvalidSeeds));
    assert_eq!(ctx, before);
    assert_eq!(sell_with_authority(&mut ctx, Some(user()), 20), Err(SwapError::AuthorityMismatch));
    assert_eq!(ctx, before);
    assert_eq!(sell_with_authority(&mut ctx, Some(pool_address()), 20), Ok(10));
    assert_eq!(balances_of_sell(&ctx), (0, 100, 1_000, 500));
}

#[test]
fn the_same_records_serve_a_purchase_and_a_sale() {
    let ctx = accounts(2, 1, 2, 3, 4);
    let sale = ctx.into_sell();
    assert_eq!(sale.program_id, ctx.program_id);
    assert_eq!(sale.pool, ctx.pool);
    assert_eq!(sale.user, ctx.user);
    assert_eq!(balances_of_sell(&sale), (1, 2, 3, 4));
    assert_eq!(sale.into_buy(), ctx);
}

#[test]
fn swaps_on_a_pool_as_initialized() {
    let mut init = my_dex::pool::Initialize {
        program_id: Address::new(PROGRAM_ID),
        pool: my_dex::pool::PoolAccount { address: pool_address(), state: None },
        token_a_mint: Address::new([1u8; 32]),
        token_b_mint: Address::new([2u8; 32]),
        token_a_vault: record(30, 1, pool_address(), 1_000),
        token_b_vault: record(31, 2, pool_address(), 500),
        user: user(),
    };
    assert_eq!(my_dex::pool::initialize(&mut init, 2), Ok(()));
    let mut ctx = Buy {
        program_id: init.program_id,
        pool: init.pool.state.unwrap(),
        user: user(),
        user_a_ata: record(20, 1, user(), 0),
        user_b_ata: record(21, 2, user(), 100),
        token_a_vault: init.token_a_vault,
        token_b_vault: init.token_b_vault,
    };
    assert_eq!(buy(&mut ctx, 10), Ok(20));
    assert_eq!(balances_of_buy(&ctx), (20, 90, 980, 510));
}

#[test]
fn a_vault_of_another_mint_is_vault_mismatch() {
    let mut ctx = accounts(2, 50, 100, 1_000, 500);
    ctx.token_a_vault.mint = Address::new([2u8; 32]);
    let before = ctx;
    assert_eq!(buy(&mut ctx, 10), Err(SwapError::VaultMismatch));
    assert_eq!(ctx, before);
    let mut sale = accounts(2, 50, 100, 1_000, 500).into_sell();
    sale.token_b_vault.mint = Address::new([3u8; 32]);
    let before_sale = sale;
    assert_eq!(sell(&mut sale, 10), Err(SwapError::VaultMismatch));
    assert_eq!(sale, before_sale);
}

#[test]
fn swaps_on_a_pool_as_seeded() {
    let mut seeding = my_dex::pool::InitializeWithLiquidity {
        init: my_dex::pool::Initialize {
            program_id: Address::new(PROGRAM_ID),
            pool: my_dex::pool::PoolAccount { address: pool_address(), state: None },
            token_a_mint: Address::new([1u8; 32]),
            token_b_mint: Address::new([2u8; 32]),
            token_a_vault: record(30, 1, pool_address(), 0),
            token_b_vault: record(31, 2, pool_address(), 0),
            user: user(),
        },
        user_a_ata: record(20, 1, user(), 1_000),
        user_b_ata: record(21, 2, user(), 600),
    };
    assert_eq!(my_dex::pool::initialize_with_liquidity(&mut seeding, 2, 1_000, 500), Ok(()));
    let mut ctx = Buy {
        program_id: seeding.init.program_id,
        pool: seeding.init.pool.state.unwrap(),
        user: user(),
        user_a_ata: seeding.user_a_ata,
        user_b_ata: seeding.user_b_ata,
        token_a_vault: seeding.init.token_a_vault,
        token_b_vault: seeding.init.token_b_vault,
    };
    assert_eq!(balances_of_buy(&ctx), (0, 100, 1_000, 500));
    assert_eq!(buy(&mut ctx, 10), Ok(20));
    assert_eq!(balances_of_buy(&ctx), (20, 90, 980, 510));
}
