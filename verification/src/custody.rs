//! The token custody service, as the pool relies on it.
//!
//! The service keeps the balance records and moves amounts between them. It debits a
//! record only for the record's control authority, which either signed the
//! transaction or is derived and proved by its seeds. The pool keeps no balances of
//! its own. On a ledger the service does the moving; this module says what a
//! transfer does to the two records it touches, and that is what the pool's swaps
//! are proved against.

use vstd::prelude::*;
use crate::address::Address;
use crate::authority::authority_seeds;
use crate::authority::derived_address;
use crate::authority::rederive;
use crate::authority::signer_seeds;
use crate::authority::with_bump;
use crate::error::SwapError;

verus! {

/// A balance record: a vault of a pool, or a user's holding.
#[derive(Clone, Copy, Debug, PartialEq, Eq)]
pub struct TokenAccount {
    /// Where the record lives.
    pub address: Address,
    /// The asset that the balance is an amount of.
    pub mint: Address,
    /// The control authority: who may authorize a debit.
    pub owner: Address,
    /// The balance.
    pub amount: u64,
}

impl TokenAccount {
    /// The record with `amount` taken out of its balance.
    pub open spec fn debited(self, amount: u64) -> TokenAccount
        recommends
            amount <= self.amount,
    {
        TokenAccount { amount: (self.amount - amount) as u64, ..self }
    }

    /// The record with `amount` added to its balance.
    pub open spec fn credited(self, amount: u64) -> TokenAccount
        recommends
            self.amount + amount <= u64::MAX,
    {
        TokenAccount { amount: (self.amount + amount) as u64, ..self }
    }
}

/// The proof that goes with a transfer: who authorizes the debit.
#[derive(Debug, PartialEq, Eq)]
pub enum Authorization {
    /// The authority signed the transaction itself.
    Signer { address: Address },
    /// The authority is derived: the label, context keys and bump derive its address
    /// under the program id.
    Derived { label: Vec<u8>, context: Vec<Address>, bump: u8, program_id: Address },
}

impl Authorization {
    /// The seeds that the authority signs with: none for a signer; for a derived
    /// authority its label, its context keys and its bump.
    pub open spec fn seeds(self) -> Seq<Seq<u8>> {
        match self {
            Authorization::Signer { .. } => Seq::empty(),
            Authorization::Derived { label, context, bump, .. } => with_bump(
                authority_seeds(label@, context.deep_view()),
                bump,
            ),
        }
    }

    /// The address that the proof speaks for, if it proves any.
    pub open spec fn authority(self) -> Option<Address> {
        match self {
            Authorization::Signer { address } => Some(address),
            Authorization::Derived { program_id, .. } => derived_address(self.seeds(), program_id),
        }
    }

    /// Lays out the seeds that the authority signs with.
    pub fn signer_seeds(&self) -> (r: Vec<Vec<u8>>)
        ensures
            r.deep_view() == self.seeds(),
    {
        match self {
            Authorization::Signer { .. } => {
                let none: Vec<Vec<u8>> = Vec::new();
                assert(none.deep_view() =~= Seq::<Seq<u8>>::empty());
                none
            },
            Authorization::Derived { label, context, bump, .. } => signer_seeds(
                label.as_slice(),
                context,
                *bump,
            ),
        }
    }

    /// Works out the address that the proof speaks for.
    pub fn resolve(&self) -> (r: Option<Address>)
        ensures
            r == self.authority(),
    {
        match self {
            Authorization::Signer { address } => Some(*address),
            Authorization::Derived { label, context, bump, program_id } => rederive(
                label.as_slice(),
                context,
                *bump,
                program_id,
            ),
        }
    }
}

/// Why the service refuses to move `amount` from `from` to `to` for `authority`, if
/// it does. The first reason that holds is given.
pub open spec fn transfer_rejection(
    from: TokenAccount,
    to: TokenAccount,
    authority: Option<Address>,
    amount: u64,
) -> Option<SwapError> {
    if authority is None {
        Some(SwapError::InvalidSeeds)
    } else if authority != Some(from.owner) {
        Some(SwapError::AuthorityMismatch)
    } else if from.amount < amount {
        Some(SwapError::InsufficientFunds)
    } else if to.amount + amount > u64::MAX {
        Some(SwapError::CalculationOverflow)
    } else {
        None
    }
}

/// Moves `amount` from `from` to `to` for an authority that was resolved before.
///
/// `authority` is what the transfer's proof resolved to: `None` where it proved no
/// address. The transfer fails with `InvalidSeeds` where there is no authority,
/// else with `AuthorityMismatch` where the authority is not the owner of `from`,
/// else with `InsufficientFunds` where `from` holds less than `amount`, else with
/// `CalculationOverflow` where `to` cannot take it. Both records stay as they are
/// where the transfer is refused.
pub fn transfer_as(
    from: &mut TokenAccount,
    to: &mut TokenAccount,
    authority: Option<Address>,
    amount: u64,
) -> (r: Result<(), SwapError>)
    ensures
        match transfer_rejection(*old(from), *old(to), authority, amount) {
            None => {
                &&& r == Ok::<(), SwapError>(())
                &&& *final(from) == old(from).debited(amount)
                &&& *final(to) == old(to).credited(amount)
            },
            Some(e) => {
                &&& r == Err::<(), SwapError>(e)
                &&& *final(from) == *old(from)
                &&& *final(to) == *old(to)
            },
        },
{
    let authority = match authority {
        Some(address) => address,
        None => { return Err(SwapError::InvalidSeeds); },
    };
    if authority != from.owner {
        return Err(SwapError::AuthorityMismatch);
    }
    if from.amount < amount {
        return Err(SwapError::InsufficientFunds);
    }
    let credited = match to.amount.checked_add(amount) {
        Some(sum) => sum,
        None => { return Err(SwapError::CalculationOverflow); },
    };
    from.amount = from.amount - amount;
    to.amount = credited;
    Ok(())
}

/// Moves `amount` from `from` to `to` on the strength of a proof.
///
/// The proof is resolved to the address it speaks for, and the transfer then goes as
/// `transfer_as` does. Both records stay as they are where the transfer is refused.
pub fn transfer(
    from: &mut TokenAccount,
    to: &mut TokenAccount,
    proof_of_control: &Authorization,
    amount: u64,
) -> (r: Result<(), SwapError>)
    ensures
        match transfer_rejection(*old(from), *old(to), proof_of_control.authority(), amount) {
            None => {
                &&& r == Ok::<(), SwapError>(())
                &&& *final(from) == old(from).debited(amount)
                &&& *final(to) == old(to).credited(amount)
            },
            Some(e) => {
                &&& r == Err::<(), SwapError>(e)
                &&& *final(from) == *old(from)
                &&& *final(to) == *old(to)
            },
        },
{
    let authority = proof_of_control.resolve();
    transfer_as(from, to, authority, amount)
}

} // verus!
