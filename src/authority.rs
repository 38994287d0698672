use vstd::prelude::*;

use solana_program::program_error::ProgramError;
use solana_program::program_pack::Pack;
use solana_program::pubkey::Pubkey;

use crate::account::AccountId;
use crate::codec::le_u64_at;
use crate::error::EscrowError;

verus! {

/// The token-transfer service's program identity,
/// TokenkegQfeZyiNwAJbNbGKPFXCWuBvf9Ss623VQ5DA in base58.
pub open spec fn token_program_bytes() -> Seq<u8> {
    seq![
        6u8, 221u8, 246u8, 225u8, 215u8, 101u8, 161u8, 147u8, 217u8, 203u8, 225u8, 70u8, 206u8,
        235u8, 121u8, 172u8, 28u8, 180u8, 133u8, 237u8, 95u8, 91u8, 55u8, 145u8, 58u8, 140u8,
        245u8, 133u8, 126u8, 255u8, 0u8, 169u8,
    ]
}

/// Whether an identity is the token-transfer service's program identity.
pub open spec fn is_token_program(id: Seq<u8>) -> bool {
    id == token_program_bytes()
}

/// The program-controlled address and bump derived from one seed and a
/// program identity, if one exists.
pub uninterp spec fn program_address_of(seed: Seq<u8>, program: Seq<u8>) -> Option<(Seq<u8>, u8)>;

/// The balance recorded in a token account's data, or why the data is not a
/// valid, initialized token account.
pub uninterp spec fn token_balance_of(data: Seq<u8>) -> Result<u64, EscrowError>;

/// The fixed seed of the program-controlled authority: "escrow".
pub open spec fn authority_seed_bytes() -> Seq<u8> {
    seq![101u8, 115u8, 99u8, 114u8, 111u8, 119u8]
}

/// The fixed seed of the program-controlled authority.
pub fn authority_seed() -> (r: Vec<u8>)
    ensures
        r@ == authority_seed_bytes(),
{
    let r: Vec<u8> = vec![101u8, 115u8, 99u8, 114u8, 111u8, 119u8];
    assert(r@ =~= authority_seed_bytes());
    r
}

/// Relies on spl_token::check_id: whether the identity equals the token
/// program's declared identity, `declare_id!` of the base58 string above.
#[verifier::external_body]
fn check_token_program(id: &AccountId) -> (r: bool)
    ensures
        r == is_token_program(id@),
{
    spl_token::check_id(&Pubkey::new_from_array(id.bytes))
}

/// Relies on Pubkey::try_find_program_address with the single seed `seed`:
/// it searches bumps from 255 down and returns the first address off the
/// curve, or None.
#[verifier::external_body]
fn try_find_program_address(seed: &[u8], program_id: &AccountId) -> (r: Option<(AccountId, u8)>)
    ensures
        match r {
            Some(p) => program_address_of(seed@, program_id@) == Some((p.0@, p.1)),
            None => program_address_of(seed@, program_id@) is None,
        },
{
    Pubkey::try_find_program_address(&[seed], &Pubkey::new_from_array(program_id.bytes)).map(
        |(k, bump)| (AccountId { bytes: k.to_bytes() }, bump),
    )
}

/// Relies on spl_token::state::Account::unpack: it accepts only data of 165
/// bytes describing an initialized account, and reads the balance from bytes
/// 64..72, little-endian. Other lengths and malformed fields give
/// InvalidAccountData; a well-formed uninitialized account gives
/// UninitializedAccount.
#[verifier::external_body]
fn unpack_token_balance(data: &[u8]) -> (r: Result<u64, EscrowError>)
    ensures
        r == token_balance_of(data@),
        r is Ok ==> data@.len() == 165,
        r matches Ok(a) ==> a == le_u64_at(data@, 64),
        (r matches Err(e) && e == EscrowError::UninitializedAccount) ==> data@.len() == 165,
        r matches Err(e) ==> (e == EscrowError::InvalidAccountData || e
            == EscrowError::UninitializedAccount),
{
    match spl_token::state::Account::unpack(data) {
        Ok(a) => Ok(a.amount),
        Err(ProgramError::UninitializedAccount) => Err(EscrowError::UninitializedAccount),
        Err(_) => Err(EscrowError::InvalidAccountData),
    }
}

/// Whether `id` is the token-transfer service.
pub fn is_token_service(id: &AccountId) -> (r: bool)
    ensures
        r == is_token_program(id@),
{
    check_token_program(id)
}

/// The balance of a token account, from its data; malformed or
/// uninitialized data is refused.
pub fn token_balance(data: &[u8]) -> (r: Result<u64, EscrowError>)
    ensures
        r == token_balance_of(data@),
        r matches Ok(a) ==> data@.len() == 165 && a == le_u64_at(data@, 64),
        data@.len() != 165 ==> r == Err::<u64, EscrowError>(EscrowError::InvalidAccountData),
{
    unpack_token_balance(data)
}

/// The program-controlled authority of `program_id`: its address and bump,
/// recomputed on every call from the fixed seed.
pub fn find_authority(program_id: &AccountId) -> (r: Result<(AccountId, u8), EscrowError>)
    ensures
        match program_address_of(authority_seed_bytes(), program_id@) {
            Some(p) => r matches Ok(q) && q.0@ == p.0 && q.1 == p.1,
            None => r == Err::<(AccountId, u8), EscrowError>(EscrowError::InvalidSeeds),
        },
{
    let seed = authority_seed();
    match try_find_program_address(seed.as_slice(), program_id) {
        Some(p) => Ok(p),
        None => Err(EscrowError::InvalidSeeds),
    }
}

} // verus!
