use crate::address::Address;
use crate::error::BUILTIN_STEP;
use solana_program::pubkey::Pubkey;
use spl_token::instruction::AuthorityType;
use vstd::prelude::*;

verus! {

/// One account of an instruction, as the token program lays it out: the
/// account's bytes, whether it signs, whether it may be written.
pub type MetaParts = ([u8; 32], bool, bool);

/// An instruction as the token program builds it: the program's bytes, the
/// accounts in order, and the payload.
pub type InstructionParts = ([u8; 32], Vec<MetaParts>, Vec<u8>);

/// The authority over a mint or a token account that can be handed over.
#[derive(Clone, Copy, Debug, PartialEq, Eq, Structural)]
pub enum AuthorityKind {
    /// Authority to mint new tokens
    MintTokens,
    /// Owner of a token account
    AccountOwner,
}

/// The address of the ledger's rent record, which is written
/// `SysvarRent111111111111111111111111111111111` in base 58.
pub open spec fn rent_sysvar_address() -> Address {
    Address {
        bytes: [
            6u8, 167u8, 213u8, 23u8, 25u8, 44u8, 92u8, 81u8, 33u8, 140u8, 201u8, 76u8, 61u8, 74u8,
            241u8, 127u8, 88u8, 218u8, 238u8, 8u8, 155u8, 161u8, 253u8, 68u8, 227u8, 219u8, 217u8,
            138u8, 0u8, 0u8, 0u8, 0u8,
        ],
    }
}

/// The address of the token program, which is written
/// `TokenkegQfeZyiNwAJbNbGKPFXCWuBvf9Ss623VQ5DA` in base 58.
pub open spec fn token_program_address() -> Address {
    Address {
        bytes: [
            6u8, 221u8, 246u8, 225u8, 215u8, 101u8, 161u8, 147u8, 217u8, 203u8, 225u8, 70u8, 206u8,
            235u8, 121u8, 172u8, 28u8, 180u8, 133u8, 237u8, 95u8, 91u8, 55u8, 145u8, 58u8, 140u8,
            245u8, 133u8, 126u8, 255u8, 0u8, 169u8,
        ],
    }
}

/// The address and bump seed that the ledger derives for a program from one
/// seed, or `None` where no bump seed yields an address off the curve.
pub uninterp spec fn derived_address(seed: Seq<u8>, program_id: Seq<u8>) -> Option<(Seq<u8>, u8)>;

/// A derived address and its bump seed, by the bytes of the address.
pub open spec fn derived_view(r: Option<(Address, u8)>) -> Option<(Seq<u8>, u8)> {
    match r {
        Some((a, b)) => Some((a@, b)),
        None => None,
    }
}

/// The byte that the token program writes for a kind of authority.
pub open spec fn authority_byte(kind: AuthorityKind) -> u8 {
    match kind {
        AuthorityKind::MintTokens => 0u8,
        AuthorityKind::AccountOwner => 2u8,
    }
}

/// The accounts shared by the token program's instructions for a single
/// authority that is named again as the one signer: the authority without a
/// signature, then the signer with one, both read-only.
pub open spec fn authority_and_signer(authority: Address, signer: Address) -> Seq<MetaParts> {
    seq![(authority.bytes, false, false), (signer.bytes, true, false)]
}

/// An instruction of the token program, or the ledger code of the failure
/// to build one.
pub type Built = Result<(Address, Seq<MetaParts>, Seq<u8>), u64>;

/// What the token program builds for a program id: for its own, the
/// instruction given; for any other, the ledger code of an incorrect
/// program id.
pub open spec fn built_for(token_program: Address, accounts: Seq<MetaParts>, data: Seq<u8>) -> Built {
    if token_program == token_program_address() {
        Ok((token_program, accounts, data))
    } else {
        Err((7 * BUILTIN_STEP) as u64)
    }
}

/// What the token program's `set_authority` returns: the owned account
/// writable, the authority and the signer, and a payload of tag 6, the kind
/// of authority, the marker 1 and the new authority.
pub open spec fn set_authority_built(
    token_program: Address,
    owned: Address,
    new_authority: Address,
    kind: AuthorityKind,
    owner: Address,
    signer: Address,
) -> Built {
    built_for(
        token_program,
        seq![(owned.bytes, false, true)] + authority_and_signer(owner, signer),
        seq![6u8, authority_byte(kind), 1u8] + new_authority@,
    )
}

/// What the token program's `transfer` returns: source and destination
/// writable, the authority and the signer, and a payload of tag 3 and the
/// amount in eight little-endian bytes.
pub open spec fn transfer_built(
    token_program: Address,
    source: Address,
    destination: Address,
    authority: Address,
    signer: Address,
    amount: u64,
) -> Built {
    built_for(
        token_program,
        seq![(source.bytes, false, true), (destination.bytes, false, true)] + authority_and_signer(
            authority,
            signer,
        ),
        seq![3u8] + crate::codec::u64_to_le(amount),
    )
}

/// What a call of the token program returned, by the views of its parts.
pub open spec fn built_view(r: Result<InstructionParts, u64>) -> Built {
    match r {
        Ok(p) => Ok((Address { bytes: p.0 }, p.1@, p.2@)),
        Err(code) => Err(code),
    }
}

/// Calls `solana_program::sysvar::rent::id`. The contract states the 32
/// bytes of the address that the sysvar module declares for the rent record.
#[verifier::external_body]
pub(crate) fn rent_sysvar_id() -> (r: Address)
    ensures
        r == rent_sysvar_address(),
{
    Address { bytes: solana_program::sysvar::rent::id().to_bytes() }
}

/// Calls `spl_token::id`. The contract states the 32 bytes of the address
/// that the token program declares as its own.
#[verifier::external_body]
pub(crate) fn token_program_id() -> (r: Address)
    ensures
        r == token_program_address(),
{
    Address { bytes: spl_token::id().to_bytes() }
}

/// Calls `Pubkey::try_find_program_address` with the single seed given. The
/// result is a function of the seed and the program id alone; the contract
/// gives it its name and claims nothing else of it.
#[verifier::external_body]
pub(crate) fn find_program_address(seed: &[u8], program_id: &Address) -> (r: Option<(Address, u8)>)
    ensures
        derived_view(r) == derived_address(seed@, program_id@),
{
    match Pubkey::try_find_program_address(&[seed], &Pubkey::new_from_array(program_id.bytes)) {
        Some((key, bump)) => Some((Address { bytes: key.to_bytes() }, bump)),
        None => None,
    }
}

/// Calls `spl_token::instruction::set_authority` with a new authority and one
/// signer. The token program refuses every program id but its own with the
/// ledger code of an incorrect program id; for its own it returns the
/// instruction that `set_authority_built` states.
#[verifier::external_body]
pub(crate) fn token_set_authority(
    token_program: &Address,
    owned: &Address,
    new_authority: &Address,
    kind: AuthorityKind,
    owner: &Address,
    signer: &Address,
) -> (r: Result<InstructionParts, u64>)
    ensures
        built_view(r) == set_authority_built(
            *token_program,
            *owned,
            *new_authority,
            kind,
            *owner,
            *signer,
        ),
{
    let kind = match kind {
        AuthorityKind::MintTokens => AuthorityType::MintTokens,
        AuthorityKind::AccountOwner => AuthorityType::AccountOwner,
    };
    let (program, owned) = (Pubkey::new_from_array(token_program.bytes), Pubkey::new_from_array(owned.bytes));
    let (new, owner) = (Pubkey::new_from_array(new_authority.bytes), Pubkey::new_from_array(owner.bytes));
    let signer = Pubkey::new_from_array(signer.bytes);
    match spl_token::instruction::set_authority(&program, &owned, Some(&new), kind, &owner, &[&signer]) {
        Ok(ix) => Ok((ix.program_id.to_bytes(), ix.accounts.iter().map(|m| (m.pubkey.to_bytes(), m.is_signer, m.is_writable)).collect(), ix.data)),
        Err(e) => Err(u64::from(e)),
    }
}

/// Calls `spl_token::instruction::transfer` with one signer. The token
/// program refuses every program id but its own with the ledger code of an
/// incorrect program id; for its own it returns the instruction that
/// `transfer_built` states.
#[verifier::external_body]
pub(crate) fn token_transfer(
    token_program: &Address,
    source: &Address,
    destination: &Address,
    authority: &Address,
    signer: &Address,
    amount: u64,
) -> (r: Result<InstructionParts, u64>)
    ensures
        built_view(r) == transfer_built(
            *token_program,
            *source,
            *destination,
            *authority,
            *signer,
            amount,
        ),
{
    let (program, source) = (Pubkey::new_from_array(token_program.bytes), Pubkey::new_from_array(source.bytes));
    let (destination, authority) = (Pubkey::new_from_array(destination.bytes), Pubkey::new_from_array(authority.bytes));
    let signer = Pubkey::new_from_array(signer.bytes);
    match spl_token::instruction::transfer(&program, &source, &destination, &authority, &[&signer], amount) {
        Ok(ix) => Ok((ix.program_id.to_bytes(), ix.accounts.iter().map(|m| (m.pubkey.to_bytes(), m.is_signer, m.is_writable)).collect(), ix.data)),
        Err(e) => Err(u64::from(e)),
    }
}

} // verus!
