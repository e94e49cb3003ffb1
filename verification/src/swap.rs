//! The swap engine: buying A for B and selling A for B at the pool's rate.
//!
//! A swap is two transfers, one into a vault for the caller and one out of the other
//! vault for the pool's derived authority. It is all or nothing: where it is
//! refused, for whatever reason and at whatever step, every record is as it was.

use vstd::prelude::*;
use crate::address::Address;
use crate::custody::transfer_as;
use crate::custody::transfer_rejection;
use crate::custody::TokenAccount;
use crate::error::first_of;
use crate::error::SwapError;
use crate::pool::lemma_buy_then_sell_returns_payment;
use crate::pool::lemma_sell_then_buy_loses_remainder;
use crate::pool::PoolState;

verus! {

/// The records that a purchase works on.
#[derive(Clone, Copy, Debug, PartialEq, Eq)]
pub struct Buy {
    /// The program that the pool belongs to.
    pub program_id: Address,
    pub pool: PoolState,
    /// The caller, who signed the transaction.
    pub user: Address,
    pub user_a_ata: TokenAccount,
    pub user_b_ata: TokenAccount,
    pub token_a_vault: TokenAccount,
    pub token_b_vault: TokenAccount,
}

/// The records that a sale works on.
#[derive(Clone, Copy, Debug, PartialEq, Eq)]
pub struct Sell {
    /// The program that the pool belongs to.
    pub program_id: Address,
    pub pool: PoolState,
    /// The caller, who signed the transaction.
    pub user: Address,
    pub user_a_ata: TokenAccount,
    pub user_b_ata: TokenAccount,
    pub token_a_vault: TokenAccount,
    pub token_b_vault: TokenAccount,
}

impl Buy {
    /// Whether the vaults presented are the ones that the pool is bound to.
    pub open spec fn vaults_match(self) -> bool {
        self.pool.is_bound_to(self.token_a_vault, self.token_b_vault)
    }

    /// The authority that the pool's proof resolves to under the program id, if it
    /// proves any.
    pub open spec fn authority(self) -> Option<Address> {
        self.pool.authority(self.program_id)
    }

    /// Why a purchase for `amount_b` is refused, if it is, given the authority that
    /// the pool's proof resolves to. The first reason that holds is given: the vaults,
    /// then the amount, then the caller's payment, then the pool's delivery.
    pub open spec fn rejection(self, authority: Option<Address>, amount_b: u64) -> Option<
        SwapError,
    > {
        if !self.vaults_match() {
            Some(SwapError::VaultMismatch)
        } else if self.pool.amount_out_buy(amount_b) > u64::MAX {
            Some(SwapError::CalculationOverflow)
        } else {
            first_of(
                transfer_rejection(self.user_b_ata, self.token_b_vault, Some(self.user), amount_b),
                transfer_rejection(
                    self.token_a_vault,
                    self.user_a_ata,
                    authority,
                    self.pool.amount_out_buy(amount_b) as u64,
                ),
            )
        }
    }

    /// The records after a purchase for `amount_b`.
    pub open spec fn settled(self, amount_b: u64) -> Buy {
        let amount_a = self.pool.amount_out_buy(amount_b) as u64;
        Buy {
            user_b_ata: self.user_b_ata.debited(amount_b),
            token_b_vault: self.token_b_vault.credited(amount_b),
            token_a_vault: self.token_a_vault.debited(amount_a),
            user_a_ata: self.user_a_ata.credited(amount_a),
            ..self
        }
    }

    /// The same records, presented for a sale.
    pub open spec fn as_sell(self) -> Sell {
        Sell {
            program_id: self.program_id,
            pool: self.pool,
            user: self.user,
            user_a_ata: self.user_a_ata,
            user_b_ata: self.user_b_ata,
            token_a_vault: self.token_a_vault,
            token_b_vault: self.token_b_vault,
        }
    }

    /// Presents the same records for a sale.
    pub fn into_sell(self) -> (r: Sell)
        ensures
            r == self.as_sell(),
    {
        Sell {
            program_id: self.program_id,
            pool: self.pool,
            user: self.user,
            user_a_ata: self.user_a_ata,
            user_b_ata: self.user_b_ata,
            token_a_vault: self.token_a_vault,
            token_b_vault: self.token_b_vault,
        }
    }
}

impl Sell {
    /// Whether the vaults presented are the ones that the pool is bound to.
    pub open spec fn vaults_match(self) -> bool {
        self.pool.is_bound_to(self.token_a_vault, self.token_b_vault)
    }

    /// The authority that the pool's proof resolves to under the program id, if it
    /// proves any.
    pub open spec fn authority(self) -> Option<Address> {
        self.pool.authority(self.program_id)
    }

    /// Why a sale of `amount_a` is refused, if it is, given the authority that the
    /// pool's proof resolves to. The first reason that holds is given: the vaults,
    /// then the rate, then the caller's delivery, then the pool's payment.
    pub open spec fn rejection(self, authority: Option<Address>, amount_a: u64) -> Option<
        SwapError,
    > {
        if !self.vaults_match() {
            Some(SwapError::VaultMismatch)
        } else if self.pool.rate == 0 {
            Some(SwapError::InvalidAmount)
        } else {
            first_of(
                transfer_rejection(self.user_a_ata, self.token_a_vault, Some(self.user), amount_a),
                transfer_rejection(
                    self.token_b_vault,
                    self.user_b_ata,
                    authority,
                    self.pool.amount_out_sell(amount_a) as u64,
                ),
            )
        }
    }

    /// The records after a sale of `amount_a`.
    pub open spec fn settled(self, amount_a: u64) -> Sell {
        let amount_b = self.pool.amount_out_sell(amount_a) as u64;
        Sell {
            user_a_ata: self.user_a_ata.debited(amount_a),
            token_a_vault: self.token_a_vault.credited(amount_a),
            token_b_vault: self.token_b_vault.debited(amount_b),
            user_b_ata: self.user_b_ata.credited(amount_b),
            ..self
        }
    }

    /// The same records, presented for a purchase.
    pub open spec fn as_buy(self) -> Buy {
        Buy {
            program_id: self.program_id,
            pool: self.pool,
            user: self.user,
            user_a_ata: self.user_a_ata,
            user_b_ata: self.user_b_ata,
            token_a_vault: self.token_a_vault,
            token_b_vault: self.token_b_vault,
        }
    }

    /// Presents the same records for a purchase.
    pub fn into_buy(self) -> (r: Buy)
        ensures
            r == self.as_buy(),
    {
        Buy {
            program_id: self.program_id,
            pool: self.pool,
            user: self.user,
            user_a_ata: self.user_a_ata,
            user_b_ata: self.user_b_ata,
            token_a_vault: self.token_a_vault,
            token_b_vault: self.token_b_vault,
        }
    }
}

/// Buys A for `amount_b` of B, given the authority that the pool's proof resolved to.
///
/// The caller pays `amount_b` into vault B and receives `amount_b` times the rate
/// out of vault A. `authority` is `None` where the pool's proof derived no address.
/// Returns the amount of A that was delivered.
pub fn buy_with_authority(
    ctx: &mut Buy,
    authority: Option<Address>,
    amount_b: u64,
) -> (r: Result<u64, SwapError>)
    ensures
        match old(ctx).rejection(authority, amount_b) {
            None => {
                &&& r == Ok::<u64, SwapError>(old(ctx).pool.amount_out_buy(amount_b) as u64)
                &&& *final(ctx) == old(ctx).settled(amount_b)
                &&& final(ctx).token_a_vault.amount + final(ctx).user_a_ata.amount == old(
                    ctx,
                ).token_a_vault.amount + old(ctx).user_a_ata.amount
                &&& final(ctx).token_b_vault.amount + final(ctx).user_b_ata.amount == old(
                    ctx,
                ).token_b_vault.amount + old(ctx).user_b_ata.amount
            },
            Some(e) => {
                &&& r == Err::<u64, SwapError>(e)
                &&& *final(ctx) == *old(ctx)
            },
        },
{
    if !ctx.pool.binds(&ctx.token_a_vault, &ctx.token_b_vault) {
        return Err(SwapError::VaultMismatch);
    }
    let amount_a = match ctx.pool.quote_buy(amount_b) {
        Ok(amount_a) => amount_a,
        Err(e) => { return Err(e); },
    };
    let before = *ctx;
    let paid = transfer_as(&mut ctx.user_b_ata, &mut ctx.token_b_vault, Some(ctx.user), amount_b);
    if let Err(e) = paid {
        return Err(e);
    }
    let delivered = transfer_as(&mut ctx.token_a_vault, &mut ctx.user_a_ata, authority, amount_a);
    if let Err(e) = delivered {
        *ctx = before;
        return Err(e);
    }
    Ok(amount_a)
}

/// Buys A for `amount_b` of B.
///
/// The purchase fails with `VaultMismatch` where a vault presented is not the pool's,
/// else with `CalculationOverflow` where `amount_b` times the rate is beyond `u64`,
/// else with what the custody service refuses the caller's payment for, else with
/// what it refuses the pool's delivery for. Returns the amount of A delivered.
pub fn buy(ctx: &mut Buy, amount_b: u64) -> (r: Result<u64, SwapError>)
    ensures
        match old(ctx).rejection(old(ctx).authority(), amount_b) {
            None => {
                &&& r == Ok::<u64, SwapError>(old(ctx).pool.amount_out_buy(amount_b) as u64)
                &&& *final(ctx) == old(ctx).settled(amount_b)
                &&& final(ctx).token_a_vault.amount + final(ctx).user_a_ata.amount == old(
                    ctx,
                ).token_a_vault.amount + old(ctx).user_a_ata.amount
                &&& final(ctx).token_b_vault.amount + final(ctx).user_b_ata.amount == old(
                    ctx,
                ).token_b_vault.amount + old(ctx).user_b_ata.amount
            },
            Some(e) => {
                &&& r == Err::<u64, SwapError>(e)
                &&& *final(ctx) == *old(ctx)
            },
        },
        !old(ctx).vaults_match() ==> r == Err::<u64, SwapError>(SwapError::VaultMismatch)
            && *final(ctx) == *old(ctx),
        old(ctx).vaults_match() && amount_b * old(ctx).pool.rate > u64::MAX ==> r == Err::<
            u64,
            SwapError,
        >(SwapError::CalculationOverflow) && *final(ctx) == *old(ctx),
{
    let authority = ctx.pool.authorization(&ctx.program_id).resolve();
    buy_with_authority(ctx, authority, amount_b)
}

/// Sells `amount_a` of A for B, given the authority that the pool's proof resolved to.
///
/// The caller delivers `amount_a` into vault A and receives `amount_a` divided by
/// the rate, rounded down, out of vault B. `authority` is `None` where the pool's
/// proof derived no address. Returns the amount of B that was paid.
pub fn sell_with_authority(
    ctx: &mut Sell,
    authority: Option<Address>,
    amount_a: u64,
) -> (r: Result<u64, SwapError>)
    ensures
        match old(ctx).rejection(authority, amount_a) {
            None => {
                &&& r == Ok::<u64, SwapError>(old(ctx).pool.amount_out_sell(amount_a) as u64)
                &&& *final(ctx) == old(ctx).settled(amount_a)
                &&& final(ctx).token_a_vault.amount + final(ctx).user_a_ata.amount == old(
                    ctx,
                ).token_a_vault.amount + old(ctx).user_a_ata.amount
                &&& final(ctx).token_b_vault.amount + final(ctx).user_b_ata.amount == old(
                    ctx,
                ).token_b_vault.amount + old(ctx).user_b_ata.amount
            },
            Some(e) => {
                &&& r == Err::<u64, SwapError>(e)
                &&& *final(ctx) == *old(ctx)
            },
        },
{
    if !ctx.pool.binds(&ctx.token_a_vault, &ctx.token_b_vault) {
        return Err(SwapError::VaultMismatch);
    }
    let amount_b = match ctx.pool.quote_sell(amount_a) {
        Ok(amount_b) => amount_b,
        Err(e) => { return Err(e); },
    };
    let before = *ctx;
    let delivered = transfer_as(
        &mut ctx.user_a_ata,
        &mut ctx.token_a_vault,
        Some(ctx.user),
        amount_a,
    );
    if let Err(e) = delivered {
        return Err(e);
    }
    let paid = transfer_as(&mut ctx.token_b_vault, &mut ctx.user_b_ata, authority, amount_b);
    if let Err(e) = paid {
        *ctx = before;
        return Err(e);
    }
    Ok(amount_b)
}

/// Sells `amount_a` of A for B.
///
/// The sale fails with `VaultMismatch` where a vault presented is not the pool's,
/// else with `InvalidAmount` where the rate is zero, else with what the custody
/// service refuses the caller's delivery for, else with what it refuses the pool's
/// payment for. An amount below the rate is accepted and sells for nothing.
/// Returns the amount of B paid.
pub fn sell(ctx: &mut Sell, amount_a: u64) -> (r: Result<u64, SwapError>)
    ensures
        match old(ctx).rejection(old(ctx).authority(), amount_a) {
            None => {
                &&& r == Ok::<u64, SwapError>(old(ctx).pool.amount_out_sell(amount_a) as u64)
                &&& *final(ctx) == old(ctx).settled(amount_a)
                &&& final(ctx).token_a_vault.amount + final(ctx).user_a_ata.amount == old(
                    ctx,
                ).token_a_vault.amount + old(ctx).user_a_ata.amount
                &&& final(ctx).token_b_vault.amount + final(ctx).user_b_ata.amount == old(
                    ctx,
                ).token_b_vault.amount + old(ctx).user_b_ata.amount
            },
            Some(e) => {
                &&& r == Err::<u64, SwapError>(e)
                &&& *final(ctx) == *old(ctx)
            },
        },
        !old(ctx).vaults_match() ==> r == Err::<u64, SwapError>(SwapError::VaultMismatch)
            && *final(ctx) == *old(ctx),
        old(ctx).vaults_match() && old(ctx).pool.rate == 0 ==> r == Err::<u64, SwapError>(
            SwapError::InvalidAmount,
        ) && *final(ctx) == *old(ctx),
{
    let authority = ctx.pool.authorization(&ctx.program_id).resolve();
    sell_with_authority(ctx, authority, amount_a)
}

/// A purchase that is sold back at once is undone. Where the caller controls the A
/// record that the purchase delivered into, and the pool's authority the vault that
/// it paid into, the sale of what was bought is accepted, pays the caller what the
/// purchase cost, and leaves all four balances as they were before the purchase.
/// Nothing is lost in this direction, whatever the rate, as long as it is not zero.
pub proof fn lemma_buy_then_sell_restores(
    before: Buy,
    authority: Option<Address>,
    amount_b: u64,
)
    requires
        before.rejection(authority, amount_b) is None,
        before.pool.rate > 0,
        before.user_a_ata.owner == before.user,
        authority == Some(before.token_b_vault.owner),
    ensures
        ({
            let amount_a = before.pool.amount_out_buy(amount_b) as u64;
            let bought = before.settled(amount_b).as_sell();
            &&& bought.rejection(authority, amount_a) is None
            &&& bought.pool.amount_out_sell(amount_a) == amount_b
            &&& bought.settled(amount_a) == before.as_sell()
        }),
{
    lemma_buy_then_sell_returns_payment(before.pool, amount_b);
}

/// A sale that is bought back at once costs the caller the remainder. Where the
/// caller controls the B record that the sale paid into, and the pool's authority the
/// vault that it delivered into, the purchase for what the sale paid is accepted and
/// delivers the amount sold less its remainder on division by the rate. The B
/// balances are as before the sale; the remainder has gone from the caller's A
/// balance to vault A.
pub proof fn lemma_sell_then_buy_keeps_remainder(
    before: Sell,
    authority: Option<Address>,
    amount_a: u64,
)
    requires
        before.rejection(authority, amount_a) is None,
        before.user_b_ata.owner == before.user,
        authority == Some(before.token_a_vault.owner),
    ensures
        ({
            let amount_b = before.pool.amount_out_sell(amount_a) as u64;
            let remainder = (amount_a % before.pool.rate) as u64;
            let sold = before.settled(amount_a).as_buy();
            &&& sold.rejection(authority, amount_b) is None
            &&& sold.pool.amount_out_buy(amount_b) == amount_a - remainder
            &&& sold.settled(amount_b) == Buy {
                user_a_ata: before.user_a_ata.debited(remainder),
                token_a_vault: before.token_a_vault.credited(remainder),
                ..before.as_buy()
            }
        }),
{
    lemma_sell_then_buy_loses_remainder(before.pool, amount_a);
}

} // verus!
