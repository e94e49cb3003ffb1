//! The pool state record and its initialization.
//!
//! A pool is bound to two mints and to one vault for each. Its own address is derived
//! from the two mints, so there is one pool for each ordered pair of mints, and the
//! pool itself is the authority that its vaults are meant to be controlled by.

use vstd::prelude::*;
use vstd::slice::slice_to_vec;
use crate::address::Address;
use crate::authority::authority_seeds;
use crate::authority::canonical_derivation;
use crate::authority::derived_address;
use crate::authority::lemma_found_rederives;
use crate::authority::with_bump;
use crate::custody::transfer_as;
use crate::custody::transfer_rejection;
use crate::custody::Authorization;
use crate::custody::TokenAccount;
use crate::error::first_of;
use crate::error::SwapError;

verus! {

/// The label that every pool's address is derived under: the bytes of `pool`.
pub const POOL_LABEL: [u8; 4] = [112, 111, 111, 108];

/// The persisted state of a pool. Nothing changes it once it is written.
#[derive(Clone, Copy, Debug, PartialEq, Eq)]
pub struct PoolState {
    /// The asset held in vault A.
    pub token_a_mint: Address,
    /// The asset held in vault B.
    pub token_b_mint: Address,
    /// The address of vault A.
    pub token_a_vault: Address,
    /// The address of vault B.
    pub token_b_vault: Address,
    /// How many units of A one unit of B is worth.
    pub rate: u64,
    /// The bump that the pool's address was derived with.
    pub bump: u8,
}

/// The seeds that the pool of two mints is derived from, the bump left out.
pub open spec fn pool_seeds(token_a_mint: Address, token_b_mint: Address) -> Seq<Seq<u8>> {
    authority_seeds(POOL_LABEL@, seq![token_a_mint@, token_b_mint@])
}

impl PoolState {
    /// The authority that the pool's seeds and bump derive under a program id, if
    /// they derive one.
    pub open spec fn authority(self, program_id: Address) -> Option<Address> {
        derived_address(
            with_bump(pool_seeds(self.token_a_mint, self.token_b_mint), self.bump),
            program_id,
        )
    }

    /// Whether two vaults are the ones that the pool is bound to: each at the address
    /// that the pool recorded, and of the mint that it recorded.
    pub open spec fn is_bound_to(
        self,
        token_a_vault: TokenAccount,
        token_b_vault: TokenAccount,
    ) -> bool {
        &&& token_a_vault.address == self.token_a_vault
        &&& token_b_vault.address == self.token_b_vault
        &&& token_a_vault.mint == self.token_a_mint
        &&& token_b_vault.mint == self.token_b_mint
    }

    /// What `amount_b` of B buys, in units of A.
    pub open spec fn amount_out_buy(self, amount_b: u64) -> int {
        amount_b * self.rate
    }

    /// What `amount_a` of A sells for, in units of B: the quotient, rounded down.
    pub open spec fn amount_out_sell(self, amount_a: u64) -> int
        recommends
            self.rate > 0,
    {
        amount_a as int / self.rate as int
    }

    /// Tells whether two vaults are the ones that the pool is bound to.
    pub fn binds(&self, token_a_vault: &TokenAccount, token_b_vault: &TokenAccount) -> (r: bool)
        ensures
            r == self.is_bound_to(*token_a_vault, *token_b_vault),
    {
        token_a_vault.address == self.token_a_vault && token_b_vault.address == self.token_b_vault
            && token_a_vault.mint == self.token_a_mint && token_b_vault.mint == self.token_b_mint
    }

    /// The proof by which the pool authorizes a debit of one of its vaults.
    pub fn authorization(&self, program_id: &Address) -> (r: Authorization)
        ensures
            r.authority() == self.authority(*program_id),
            r matches Authorization::Derived { label, context, bump, program_id: id }
                && label@ == POOL_LABEL@
                && context@ == seq![self.token_a_mint, self.token_b_mint]
                && bump == self.bump
                && id == *program_id,
    {
        let label = slice_to_vec(POOL_LABEL.as_slice());
        let mut context: Vec<Address> = Vec::new();
        context.push(self.token_a_mint);
        context.push(self.token_b_mint);
        assert(context.deep_view() =~= seq![self.token_a_mint@, self.token_b_mint@]);
        Authorization::Derived { label, context, bump: self.bump, program_id: *program_id }
    }

    /// Computes what `amount_b` of B buys, in units of A.
    ///
    /// Fails with `CalculationOverflow` where the product is beyond `u64`.
    pub fn quote_buy(&self, amount_b: u64) -> (r: Result<u64, SwapError>)
        ensures
            r == (if self.amount_out_buy(amount_b) <= u64::MAX {
                Ok::<u64, SwapError>(self.amount_out_buy(amount_b) as u64)
            } else {
                Err::<u64, SwapError>(SwapError::CalculationOverflow)
            }),
    {
        match amount_b.checked_mul(self.rate) {
            Some(amount_a) => Ok(amount_a),
            None => Err(SwapError::CalculationOverflow),
        }
    }

    /// Computes what `amount_a` of A sells for, in units of B, rounding down.
    ///
    /// Fails with `InvalidAmount` where the rate is zero. An amount below the rate
    /// sells for nothing and is no error.
    pub fn quote_sell(&self, amount_a: u64) -> (r: Result<u64, SwapError>)
        ensures
            r == (if self.rate > 0 {
                Ok::<u64, SwapError>(self.amount_out_sell(amount_a) as u64)
            } else {
                Err::<u64, SwapError>(SwapError::InvalidAmount)
            }),
    {
        if self.rate == 0 {
            return Err(SwapError::InvalidAmount);
        }
        Ok(amount_a / self.rate)
    }
}

/// What a purchase delivers sells for its price: at a rate above zero, the amount of
/// A that `amount_b` buys sells for exactly `amount_b`. Nothing is lost to rounding
/// in this direction.
pub proof fn lemma_buy_then_sell_returns_payment(pool: PoolState, amount_b: u64)
    requires
        pool.rate > 0,
        pool.amount_out_buy(amount_b) <= u64::MAX,
    ensures
        pool.amount_out_sell(pool.amount_out_buy(amount_b) as u64) == amount_b,
{
    let rate = pool.rate;
    assert((amount_b * rate) / (rate as int) == amount_b) by (nonlinear_arith)
        requires
            rate > 0,
    ;
}

/// What a sale pays buys the amount sold less its remainder: at a rate above zero,
/// the amount of B that `amount_a` sells for buys `amount_a` less the remainder of
/// `amount_a` on division by the rate. The remainder is what rounding down costs.
pub proof fn lemma_sell_then_buy_loses_remainder(pool: PoolState, amount_a: u64)
    requires
        pool.rate > 0,
    ensures
        pool.amount_out_buy(pool.amount_out_sell(amount_a) as u64) == amount_a - amount_a
            % pool.rate,
        0 <= amount_a % pool.rate <= amount_a,
{
    let rate = pool.rate;
    assert((amount_a / rate) * rate == amount_a - amount_a % rate && 0 <= amount_a % rate
        <= amount_a && 0 <= amount_a / rate <= amount_a) by (nonlinear_arith)
        requires
            rate > 0,
    ;
}

/// Finds the address of the pool of two mints under a program id, with its bump.
///
/// Returns `None` where no bump from 255 down to 1 derives an address.
pub fn find_pool(token_a_mint: &Address, token_b_mint: &Address, program_id: &Address) -> (found:
    Option<(Address, u8)>)
    ensures
        found == canonical_derivation(pool_seeds(*token_a_mint, *token_b_mint), *program_id),
{
    let mut context: Vec<Address> = Vec::new();
    context.push(*token_a_mint);
    context.push(*token_b_mint);
    assert(context.deep_view() =~= seq![token_a_mint@, token_b_mint@]);
    crate::authority::derive(POOL_LABEL.as_slice(), &context, program_id)
}

/// The place of a pool's record on the ledger, and the record once it exists.
#[derive(Clone, Copy, Debug, PartialEq, Eq)]
pub struct PoolAccount {
    /// Where the record lives.
    pub address: Address,
    /// The record, or `None` as long as it has not been created.
    pub state: Option<PoolState>,
}

impl PoolAccount {
    /// Whether the record, if it exists, proves the pool's authority: its two mints
    /// and its bump derive the record's own address under the program id.
    pub open spec fn well_formed(self, program_id: Address) -> bool {
        self.state matches Some(state) ==> state.authority(program_id) == Some(self.address)
    }
}

/// The records that an initialization works on.
#[derive(Clone, Copy, Debug, PartialEq, Eq)]
pub struct Initialize {
    /// The program that the pool belongs to.
    pub program_id: Address,
    /// Where the pool's record is to be created.
    pub pool: PoolAccount,
    pub token_a_mint: Address,
    pub token_b_mint: Address,
    pub token_a_vault: TokenAccount,
    pub token_b_vault: TokenAccount,
    /// The caller, who pays for the record.
    pub user: Address,
}

impl Initialize {
    /// The seeds that the pool's address must derive from.
    pub open spec fn seeds(self) -> Seq<Seq<u8>> {
        pool_seeds(self.token_a_mint, self.token_b_mint)
    }

    /// What the search for the pool's address finds: the address that the two mints
    /// derive under the program id, with its bump, if they derive one.
    pub open spec fn found(self) -> Option<(Address, u8)> {
        canonical_derivation(self.seeds(), self.program_id)
    }

    /// Why the initialization is refused, if it is, given what the search for the
    /// pool's address found. The first reason that holds is given.
    pub open spec fn rejection(self, found: Option<(Address, u8)>) -> Option<SwapError> {
        match found {
            None => Some(SwapError::InvalidSeeds),
            Some((address, _)) => {
                if self.pool.address != address {
                    Some(SwapError::InvalidSeeds)
                } else if self.pool.state is Some {
                    Some(SwapError::DuplicateInitialization)
                } else if self.token_a_vault.mint != self.token_a_mint || self.token_b_vault.mint
                    != self.token_b_mint {
                    Some(SwapError::VaultMismatch)
                } else {
                    None
                }
            },
        }
    }

    /// The state that the initialization writes.
    pub open spec fn created(self, bump: u8, rate: u64) -> PoolState {
        PoolState {
            token_a_mint: self.token_a_mint,
            token_b_mint: self.token_b_mint,
            token_a_vault: self.token_a_vault.address,
            token_b_vault: self.token_b_vault.address,
            rate,
            bump,
        }
    }

    /// The records after the initialization has written the pool's state.
    pub open spec fn initialized(self, bump: u8, rate: u64) -> Initialize {
        Initialize {
            pool: PoolAccount { address: self.pool.address, state: Some(self.created(bump, rate)) },
            ..self
        }
    }
}

/// Creates the pool's record, given what the search for the pool's address found.
///
/// `found` is the address and bump that the two mints derive under the program id,
/// or `None`. The record is written if its place is the address found, is still
/// empty, and each vault holds the mint it is presented for. Otherwise nothing
/// changes.
pub fn initialize_at(ctx: &mut Initialize, found: Option<(Address, u8)>, rate: u64) -> (r: Result<
    (),
    SwapError,
>)
    ensures
        match old(ctx).rejection(found) {
            None => {
                &&& r == Ok::<(), SwapError>(())
                &&& found matches Some((_, bump)) && *final(ctx) == old(ctx).initialized(bump, rate)
            },
            Some(e) => {
                &&& r == Err::<(), SwapError>(e)
                &&& *final(ctx) == *old(ctx)
            },
        },
{
    let (address, bump) = match found {
        Some(pair) => pair,
        None => { return Err(SwapError::InvalidSeeds); },
    };
    if ctx.pool.address != address {
        return Err(SwapError::InvalidSeeds);
    }
    if ctx.pool.state.is_some() {
        return Err(SwapError::DuplicateInitialization);
    }
    if ctx.token_a_vault.mint != ctx.token_a_mint || ctx.token_b_vault.mint != ctx.token_b_mint {
        return Err(SwapError::VaultMismatch);
    }
    ctx.pool.state = Some(
        PoolState {
            token_a_mint: ctx.token_a_mint,
            token_b_mint: ctx.token_b_mint,
            token_a_vault: ctx.token_a_vault.address,
            token_b_vault: ctx.token_b_vault.address,
            rate,
            bump,
        },
    );
    Ok(())
}

/// Creates the pool's record for two mints and two vaults, with a conversion rate.
///
/// The pool's address is derived from the two mints under the program id. The
/// initialization fails with `InvalidSeeds` where no address derives or the record's
/// place is another address, with `DuplicateInitialization` where the record exists,
/// and with `VaultMismatch` where a vault holds another mint than the one it is
/// presented for. A record that is written proves the pool's authority: its bump
/// derives the pool's address again.
pub fn initialize(ctx: &mut Initialize, rate: u64) -> (r: Result<(), SwapError>)
    ensures
        match old(ctx).rejection(old(ctx).found()) {
            None => {
                &&& r == Ok::<(), SwapError>(())
                &&& old(ctx).found() matches Some((_, bump)) && *final(ctx) == old(ctx).initialized(
                    bump,
                    rate,
                )
                &&& final(ctx).pool.well_formed(final(ctx).program_id)
            },
            Some(e) => {
                &&& r == Err::<(), SwapError>(e)
                &&& *final(ctx) == *old(ctx)
            },
        },
{
    let found = find_pool(&ctx.token_a_mint, &ctx.token_b_mint, &ctx.program_id);
    proof {
        lemma_found_rederives(ctx.seeds(), ctx.program_id);
    }
    initialize_at(ctx, found, rate)
}

/// The records that an initialization with first deposits works on.
#[derive(Clone, Copy, Debug, PartialEq, Eq)]
pub struct InitializeWithLiquidity {
    /// The records of the initialization itself.
    pub init: Initialize,
    /// The caller's holding of A, which the deposit into vault A comes from.
    pub user_a_ata: TokenAccount,
    /// The caller's holding of B, which the deposit into vault B comes from.
    pub user_b_ata: TokenAccount,
}

impl InitializeWithLiquidity {
    /// Why the initialization with deposits of `amount_a` and `amount_b` is refused,
    /// if it is, given what the search for the pool's address found. The first reason
    /// that holds is given: the initialization, then the deposit of A, then that of B.
    pub open spec fn rejection(
        self,
        found: Option<(Address, u8)>,
        amount_a: u64,
        amount_b: u64,
    ) -> Option<SwapError> {
        first_of(
            self.init.rejection(found),
            first_of(
                transfer_rejection(
                    self.user_a_ata,
                    self.init.token_a_vault,
                    Some(self.init.user),
                    amount_a,
                ),
                transfer_rejection(
                    self.user_b_ata,
                    self.init.token_b_vault,
                    Some(self.init.user),
                    amount_b,
                ),
            ),
        )
    }

    /// The records after the pool's state is written and both deposits have landed.
    pub open spec fn seeded(self, bump: u8, rate: u64, amount_a: u64, amount_b: u64) -> Self {
        InitializeWithLiquidity {
            init: Initialize {
                token_a_vault: self.init.token_a_vault.credited(amount_a),
                token_b_vault: self.init.token_b_vault.credited(amount_b),
                ..self.init.initialized(bump, rate)
            },
            user_a_ata: self.user_a_ata.debited(amount_a),
            user_b_ata: self.user_b_ata.debited(amount_b),
        }
    }
}

/// Creates the pool's record and deposits the first liquidity, given what the search
/// for the pool's address found.
///
/// The record is written as `initialize_at` writes it; then the caller deposits
/// `amount_a` into vault A and `amount_b` into vault B. It is all or nothing: where
/// the initialization or a deposit is refused, no record is written and no balance
/// changes.
pub fn initialize_with_liquidity_at(
    ctx: &mut InitializeWithLiquidity,
    found: Option<(Address, u8)>,
    rate: u64,
    amount_a: u64,
    amount_b: u64,
) -> (r: Result<(), SwapError>)
    ensures
        match old(ctx).rejection(found, amount_a, amount_b) {
            None => {
                &&& r == Ok::<(), SwapError>(())
                &&& found matches Some((_, bump)) && *final(ctx) == old(ctx).seeded(
                    bump,
                    rate,
                    amount_a,
                    amount_b,
                )
                &&& final(ctx).init.token_a_vault.amount + final(ctx).user_a_ata.amount == old(
                    ctx,
                ).init.token_a_vault.amount + old(ctx).user_a_ata.amount
                &&& final(ctx).init.token_b_vault.amount + final(ctx).user_b_ata.amount == old(
                    ctx,
                ).init.token_b_vault.amount + old(ctx).user_b_ata.amount
            },
            Some(e) => {
                &&& r == Err::<(), SwapError>(e)
                &&& *final(ctx) == *old(ctx)
            },
        },
{
    let before = *ctx;
    if let Err(e) = initialize_at(&mut ctx.init, found, rate) {
        return Err(e);
    }
    let user = ctx.init.user;
    let first = transfer_as(
        &mut ctx.user_a_ata,
        &mut ctx.init.token_a_vault,
        Some(user),
        amount_a,
    );
    if let Err(e) = first {
        *ctx = before;
        return Err(e);
    }
    let second = transfer_as(
        &mut ctx.user_b_ata,
        &mut ctx.init.token_b_vault,
        Some(user),
        amount_b,
    );
    if let Err(e) = second {
        *ctx = before;
        return Err(e);
    }
    Ok(())
}

/// Creates the pool's record and deposits the first liquidity.
///
/// The initialization fails as `initialize` does, else with what the custody service
/// refuses the caller's deposit of A for, else with what it refuses the deposit of B
/// for: `AuthorityMismatch` where the caller does not control the record that a
/// deposit comes from, `InsufficientFunds` where the record holds less than the
/// deposit, `CalculationOverflow` where the vault cannot take it.
pub fn initialize_with_liquidity(
    ctx: &mut InitializeWithLiquidity,
    rate: u64,
    amount_a: u64,
    amount_b: u64,
) -> (r: Result<(), SwapError>)
    ensures
        match old(ctx).rejection(old(ctx).init.found(), amount_a, amount_b) {
            None => {
                &&& r == Ok::<(), SwapError>(())
                &&& old(ctx).init.found() matches Some((_, bump)) && *final(ctx) == old(
                    ctx,
                ).seeded(bump, rate, amount_a, amount_b)
                &&& final(ctx).init.pool.well_formed(final(ctx).init.program_id)
                &&& final(ctx).init.token_a_vault.amount + final(ctx).user_a_ata.amount == old(
                    ctx,
                ).init.token_a_vault.amount + old(ctx).user_a_ata.amount
                &&& final(ctx).init.token_b_vault.amount + final(ctx).user_b_ata.amount == old(
                    ctx,
                ).init.token_b_vault.amount + old(ctx).user_b_ata.amount
            },
            Some(e) => {
                &&& r == Err::<(), SwapError>(e)
                &&& *final(ctx) == *old(ctx)
            },
        },
{
    let found = find_pool(&ctx.init.token_a_mint, &ctx.init.token_b_mint, &ctx.init.program_id);
    proof {
        lemma_found_rederives(ctx.init.seeds(), ctx.init.program_id);
    }
    initialize_with_liquidity_at(ctx, found, rate, amount_a, amount_b)
}

/// A pool whose record proves its authority is obeyed by the vaults that its address
/// controls: the custody service refuses a debit of such a vault for want of funds or
/// of room only, never for the pool's seeds or its authority.
pub proof fn lemma_pool_controls_its_vaults(
    account: PoolAccount,
    program_id: Address,
    vault: TokenAccount,
    to: TokenAccount,
    amount: u64,
)
    requires
        account.well_formed(program_id),
        account.state is Some,
        vault.owner == account.address,
    ensures
        transfer_rejection(vault, to, account.state->0.authority(program_id), amount) != Some(
            SwapError::InvalidSeeds,
        ),
        transfer_rejection(vault, to, account.state->0.authority(program_id), amount) != Some(
            SwapError::AuthorityMismatch,
        ),
{
}

/// A pool is initialized once: on the records that an initialization has left, the
/// next one fails with `DuplicateInitialization`.
pub proof fn lemma_second_initialization_fails(
    ctx: Initialize,
    found: Option<(Address, u8)>,
    rate: u64,
)
    requires
        ctx.rejection(found) is None,
    ensures
        found matches Some((_, bump)) && ctx.initialized(bump, rate).rejection(found) == Some(
            SwapError::DuplicateInitialization,
        ),
{
}

} // verus!
