//! Derived authorities: control addresses that no private key stands behind.
//!
//! An authority is derived from a label, a list of context keys and the id of the
//! program that owns it. The derivation hashes these together with one more byte, the
//! bump, and is repeated with falling bumps until the hash is no point of the curve.
//! Whoever holds the label, the keys and the bump can derive the address again, and so
//! prove control of it. The hashing itself is done by `anchor_lang`.

use vstd::prelude::*;
use vstd::slice::slice_to_vec;
use anchor_lang::prelude::Pubkey;
use anchor_lang::solana_program::pubkey::PubkeyError;
use crate::address::Address;

verus! {

/// The largest number of seeds that a derivation takes, the bump included.
pub const MAX_SEEDS: usize = 16;

/// The largest number of bytes in one seed.
pub const MAX_SEED_LEN: usize = 32;

/// The error of a derivation in `anchor_lang`'s `solana_program`, carried as it is.
#[verifier::external_type_specification]
#[verifier::external_body]
pub struct ExPubkeyError(PubkeyError);

/// The bytes of the address that a list of seeds hashes to under a program id, or
/// `None` where the hash is a point of the curve. It says nothing on whether the
/// seeds are within their limits: see `derived_bytes`.
pub uninterp spec fn program_address(seeds: Seq<Seq<u8>>, program_id: Seq<u8>) -> Option<Seq<u8>>;

/// Whether the seeds are within the limits on their number and their lengths.
pub open spec fn seeds_fit(seeds: Seq<Seq<u8>>) -> bool {
    &&& seeds.len() <= MAX_SEEDS
    &&& forall|i: int| 0 <= i < seeds.len() ==> (#[trigger] seeds[i]).len() <= MAX_SEED_LEN
}

/// The bytes of the address that the seeds derive under a program id, if they derive
/// one: seeds beyond the limits derive none.
pub open spec fn derived_bytes(seeds: Seq<Seq<u8>>, program_id: Seq<u8>) -> Option<Seq<u8>> {
    if seeds_fit(seeds) {
        program_address(seeds, program_id)
    } else {
        None
    }
}

/// The seeds followed by the bump as a seed of one byte.
pub open spec fn with_bump(seeds: Seq<Seq<u8>>, bump: u8) -> Seq<Seq<u8>> {
    seeds.push(seq![bump])
}

/// The seeds of an authority: its label, then its context keys.
pub open spec fn authority_seeds(label: Seq<u8>, context: Seq<Seq<u8>>) -> Seq<Seq<u8>> {
    seq![label] + context
}

/// Whether `bump` is the one that a search settles on: the highest bump from 255
/// down to 1 with which the seeds derive an address. Bump 0 is never tried.
pub open spec fn is_canonical_bump(seeds: Seq<Seq<u8>>, program_id: Seq<u8>, bump: u8) -> bool {
    &&& bump >= 1
    &&& derived_bytes(with_bump(seeds, bump), program_id) is Some
    &&& forall|higher: u8|
        bump < higher ==> derived_bytes(with_bump(seeds, higher), program_id) is None
}

/// The address that the seeds derive under a program id, if they derive one.
pub open spec fn derived_address(seeds: Seq<Seq<u8>>, program_id: Address) -> Option<Address> {
    match derived_bytes(seeds, program_id@) {
        Some(bytes) => Some(Address::with_bytes(bytes)),
        None => None,
    }
}

/// The authority of the seeds under a program id, with its canonical bump: the
/// address that the seeds derive with the highest bump from 255 down to 1 that
/// derives one, or `None` where none does.
pub open spec fn canonical_derivation(seeds: Seq<Seq<u8>>, program_id: Address) -> Option<
    (Address, u8),
> {
    if exists|bump: u8| is_canonical_bump(seeds, program_id@, bump) {
        let bump = choose|bump: u8| is_canonical_bump(seeds, program_id@, bump);
        Some((derived_address(with_bump(seeds, bump), program_id)->0, bump))
    } else {
        None
    }
}

/// Calls `Pubkey::create_program_address` of `anchor_lang`'s `solana_program`.
///
/// Trusted: seeds within the limits give the address named by `program_address`,
/// and an error where that names none; seeds beyond the limits give an error.
#[verifier::external_body]
fn create_program_address(seeds: &Vec<Vec<u8>>, program_id: &Address) -> (r: Result<
    Address,
    PubkeyError,
>)
    ensures
        match r {
            Ok(address) => seeds_fit(seeds.deep_view()) && program_address(
                seeds.deep_view(),
                program_id@,
            ) == Some(address@),
            Err(_) => !seeds_fit(seeds.deep_view()) || program_address(
                seeds.deep_view(),
                program_id@,
            ) is None,
        },
{
    let parts: Vec<&[u8]> = seeds.iter().map(|seed| seed.as_slice()).collect();
    let key = Pubkey::create_program_address(&parts, &Pubkey::new_from_array(program_id.bytes))?;
    Ok(Address { bytes: key.to_bytes() })
}

/// Calls `Pubkey::try_find_program_address` of `anchor_lang`'s `solana_program`.
///
/// Trusted: it tries the bumps from 255 down to 1, each as a last seed of one byte,
/// and returns the first address that derives, with its bump; it returns nothing
/// where none derives or the seeds with a bump are beyond the limits.
#[verifier::external_body]
fn try_find_program_address(seeds: &Vec<Vec<u8>>, program_id: &Address) -> (r: Option<
    (Address, u8),
>)
    ensures
        match r {
            Some((address, bump)) => {
                &&& bump >= 1
                &&& derived_bytes(with_bump(seeds.deep_view(), bump), program_id@) == Some(
                    address@,
                )
                &&& forall|higher: u8|
                    bump < higher ==> derived_bytes(
                        with_bump(seeds.deep_view(), higher),
                        program_id@,
                    ) is None
            },
            None => forall|bump: u8|
                bump >= 1 ==> derived_bytes(with_bump(seeds.deep_view(), bump), program_id@)
                    is None,
        },
{
    let parts: Vec<&[u8]> = seeds.iter().map(|seed| seed.as_slice()).collect();
    match Pubkey::try_find_program_address(&parts, &Pubkey::new_from_array(program_id.bytes)) {
        Some((key, bump)) => Some((Address { bytes: key.to_bytes() }, bump)),
        None => None,
    }
}

/// Lays out the seeds of an authority: the label, then each context key's bytes.
fn seeds_of(label: &[u8], context: &Vec<Address>) -> (seeds: Vec<Vec<u8>>)
    ensures
        seeds.deep_view() == authority_seeds(label@, context.deep_view()),
{
    let mut seeds: Vec<Vec<u8>> = Vec::new();
    seeds.push(slice_to_vec(label));
    let mut i: usize = 0;
    while i < context.len()
        invariant
            i <= context.len(),
            seeds@.len() == i + 1,
            seeds@[0]@ == label@,
            forall|j: int| 0 <= j < i ==> (#[trigger] seeds@[j + 1])@ == context@[j]@,
        decreases context.len() - i,
    {
        seeds.push(context[i].to_seed());
        i += 1;
    }
    assert(seeds.deep_view() =~= authority_seeds(label@, context.deep_view())) by {
        assert forall|k: int| 0 <= k < seeds@.len() implies seeds.deep_view()[k]
            == authority_seeds(label@, context.deep_view())[k] by {
            assert(seeds@[k].deep_view() =~= seeds@[k]@);
            if k > 0 {
                assert(seeds@[(k - 1) + 1]@ == context@[k - 1]@);
            }
        }
    }
    seeds
}

/// Finds the authority of a label and its context keys under a program id.
///
/// Returns the address with its canonical bump, or `None` where no bump from 255
/// down to 1 derives an address.
pub fn derive(label: &[u8], context: &Vec<Address>, program_id: &Address) -> (found: Option<
    (Address, u8),
>)
    ensures
        found == canonical_derivation(
            authority_seeds(label@, context.deep_view()),
            *program_id,
        ),
{
    let seeds = seeds_of(label, context);
    let found = try_find_program_address(&seeds, program_id);
    proof {
        if let Some((address, bump)) = found {
            let chosen = choose|bump: u8| is_canonical_bump(seeds.deep_view(), program_id@, bump);
            assert(is_canonical_bump(seeds.deep_view(), program_id@, bump));
            assert(chosen == bump);
            Address::lemma_with_bytes(address);
        }
    }
    found
}

/// Lays out the seeds that a derived authority signs with: the label, each context
/// key's bytes, and the bump as a last seed of one byte.
pub fn signer_seeds(label: &[u8], context: &Vec<Address>, bump: u8) -> (seeds: Vec<Vec<u8>>)
    ensures
        seeds.deep_view() == with_bump(authority_seeds(label@, context.deep_view()), bump),
{
    let mut seeds = seeds_of(label, context);
    let ghost before = seeds.deep_view();
    let mut last: Vec<u8> = Vec::new();
    last.push(bump);
    seeds.push(last);
    assert(seeds.deep_view() =~= with_bump(before, bump)) by {
        assert forall|k: int| 0 <= k < seeds@.len() implies seeds.deep_view()[k] == with_bump(
            before,
            bump,
        )[k] by {
            if k == seeds@.len() - 1 {
                assert(seeds@[k].deep_view() =~= seq![bump]);
            }
        }
    }
    seeds
}

/// Derives the authority again from its label, its context keys and a known bump.
///
/// Returns `None` where the seeds with this bump derive no address.
pub fn rederive(label: &[u8], context: &Vec<Address>, bump: u8, program_id: &Address) -> (r:
    Option<Address>)
    ensures
        r == derived_address(
            with_bump(authority_seeds(label@, context.deep_view()), bump),
            *program_id,
        ),
{
    let seeds = signer_seeds(label, context, bump);
    match create_program_address(&seeds, program_id) {
        Ok(address) => {
            proof {
                Address::lemma_with_bytes(address);
            }
            Some(address)
        },
        Err(_) => None,
    }
}

/// Deriving an authority twice from the same label, context keys and program id
/// gives the same address and the same bump.
pub proof fn lemma_derive_deterministic(
    seeds: Seq<Seq<u8>>,
    program_id: Address,
    first: Option<(Address, u8)>,
    second: Option<(Address, u8)>,
)
    requires
        first == canonical_derivation(seeds, program_id),
        second == canonical_derivation(seeds, program_id),
    ensures
        first == second,
{
}

/// Deriving an authority again from the same label, context keys, bump and program
/// id gives the same address, or nothing both times.
pub proof fn lemma_rederive_deterministic(
    seeds: Seq<Seq<u8>>,
    bump: u8,
    program_id: Address,
    first: Option<Address>,
    second: Option<Address>,
)
    requires
        first == derived_address(with_bump(seeds, bump), program_id),
        second == derived_address(with_bump(seeds, bump), program_id),
    ensures
        first == second,
{
}

/// The address that a search finds is the one that its bump derives again.
pub proof fn lemma_found_rederives(seeds: Seq<Seq<u8>>, program_id: Address)
    ensures
        canonical_derivation(seeds, program_id) matches Some((address, bump)) ==> derived_address(
            with_bump(seeds, bump),
            program_id,
        ) == Some(address),
{
}

} // verus!
