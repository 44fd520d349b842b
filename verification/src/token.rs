use crate::address::{address_at, lemma_address_at_of, Address};
use crate::codec::u64_to_le;
use crate::error::ProgramFault;
use crate::instruction::{readonly, writable, AccountMeta, Instruction, InstructionView};
use crate::ledger::{
    authority_byte, derived_address, find_program_address, token_program_address, token_program_id,
    token_set_authority, token_transfer, AuthorityKind, InstructionParts, MetaParts,
};
use vstd::prelude::*;

verus! {

/// An instruction of the token program, or the failure to build one.
pub type Built = Result<InstructionView, ProgramFault>;

/// What building an instruction gave, by the instruction's view.
pub open spec fn built(r: Result<Instruction, ProgramFault>) -> Built {
    match r {
        Ok(ix) => Ok(ix@),
        Err(e) => Err(e),
    }
}

/// The instruction that hands the authority `kind` over `owned` from `owner`,
/// who signs, to `new_authority`. Only the token program's own id is
/// accepted; any other is an incorrect program id.
pub open spec fn spec_set_authority(
    token_program: Address,
    owned: Address,
    new_authority: Address,
    kind: AuthorityKind,
    owner: Address,
) -> Built {
    if token_program == token_program_address() {
        Ok(
            InstructionView {
                program_id: token_program,
                accounts: seq![writable(owned, false), readonly(owner, false), readonly(owner, true)],
                data: seq![6u8, authority_byte(kind), 1u8] + new_authority@,
            },
        )
    } else {
        Err(ProgramFault::IncorrectProgramId)
    }
}

/// The instruction that moves `amount` tokens from `source` to
/// `destination` on the word of `authority`, who signs. Only the token
/// program's own id is accepted; any other is an incorrect program id.
pub open spec fn spec_transfer(
    token_program: Address,
    source: Address,
    destination: Address,
    authority: Address,
    amount: u64,
) -> Built {
    if token_program == token_program_address() {
        Ok(
            InstructionView {
                program_id: token_program,
                accounts: seq![
                    writable(source, false),
                    writable(destination, false),
                    readonly(authority, false),
                    readonly(authority, true),
                ],
                data: seq![3u8] + u64_to_le(amount),
            },
        )
    } else {
        Err(ProgramFault::IncorrectProgramId)
    }
}

/// The seed from which a program's control address is derived: the bytes of
/// the word "vault".
pub open spec fn control_seed() -> Seq<u8> {
    seq![118u8, 97u8, 117u8, 108u8, 116u8]
}

/// The seed with which a program signs as its control address, before the
/// bump seed.
pub fn seed() -> (r: [u8; 5])
    ensures
        r@ == control_seed(),
{
    let r: [u8; 5] = [118u8, 97u8, 117u8, 108u8, 116u8];
    assert(r@ =~= control_seed());
    r
}

/// A derived address and bump seed, as an address of the library.
pub open spec fn control_of(derived: Option<(Seq<u8>, u8)>) -> Option<(Address, u8)> {
    match derived {
        Some((bytes, bump)) => Some((address_at(bytes, 0), bump)),
        None => None,
    }
}

/// The control address of a program and its bump seed: what the ledger
/// derives for the program from the seed "vault".
pub open spec fn spec_control_address(program_id: Address) -> Option<(Address, u8)> {
    control_of(derived_address(control_seed(), program_id@))
}

/// The account of an instruction, from its parts.
pub open spec fn meta_of(p: MetaParts) -> AccountMeta {
    AccountMeta { pubkey: Address { bytes: p.0 }, is_signer: p.1, is_writable: p.2 }
}

/// The instruction that the parts make up.
pub open spec fn instruction_of(p: (Address, Seq<MetaParts>, Seq<u8>)) -> InstructionView {
    InstructionView {
        program_id: p.0,
        accounts: p.1.map_values(|m: MetaParts| meta_of(m)),
        data: p.2,
    }
}

/// Makes an instruction of its parts.
fn instruction_from_parts(parts: InstructionParts) -> (r: Instruction)
    ensures
        r@ == instruction_of((Address { bytes: parts.0 }, parts.1@, parts.2@)),
{
    let (program, metas, data) = parts;
    let mut accounts: Vec<AccountMeta> = Vec::new();
    let mut i: usize = 0;
    while i < metas.len()
        invariant
            i <= metas@.len(),
            accounts@ == metas@.subrange(0, i as int).map_values(|m: MetaParts| meta_of(m)),
        decreases metas@.len() - i,
    {
        let m = metas[i];
        accounts.push(AccountMeta { pubkey: Address { bytes: m.0 }, is_signer: m.1, is_writable: m.2 });
        i = i + 1;
        assert(accounts@ =~= metas@.subrange(0, i as int).map_values(|m: MetaParts| meta_of(m)));
    }
    assert(metas@.subrange(0, i as int) =~= metas@);
    Instruction { program_id: Address { bytes: program }, accounts, data }
}

/// Builds the token program's instruction that hands the authority `kind`
/// over `owned` from `owner` to `new_authority`.
pub fn set_authority(
    token_program: &Address,
    owned: &Address,
    new_authority: &Address,
    kind: AuthorityKind,
    owner: &Address,
) -> (r: Result<Instruction, ProgramFault>)
    ensures
        built(r) == spec_set_authority(*token_program, *owned, *new_authority, kind, *owner),
{
    match token_set_authority(token_program, owned, new_authority, kind, owner, owner) {
        Ok(parts) => {
            let ix = instruction_from_parts(parts);
            assert(ix@.accounts =~= seq![
                writable(*owned, false),
                readonly(*owner, false),
                readonly(*owner, true),
            ]);
            Ok(ix)
        },
        Err(code) => Err(ProgramFault::from_code(code)),
    }
}

/// Builds the token program's instruction that moves `amount` tokens from
/// `source` to `destination` on the word of `authority`.
pub fn transfer(
    token_program: &Address,
    source: &Address,
    destination: &Address,
    authority: &Address,
    amount: u64,
) -> (r: Result<Instruction, ProgramFault>)
    ensures
        built(r) == spec_transfer(*token_program, *source, *destination, *authority, amount),
{
    match token_transfer(token_program, source, destination, authority, authority, amount) {
        Ok(parts) => {
            let ix = instruction_from_parts(parts);
            assert(ix@.accounts =~= seq![
                writable(*source, false),
                writable(*destination, false),
                readonly(*authority, false),
                readonly(*authority, true),
            ]);
            Ok(ix)
        },
        Err(code) => Err(ProgramFault::from_code(code)),
    }
}

/// The address of the token program.
pub fn id() -> (r: Address)
    ensures
        r == token_program_address(),
{
    token_program_id()
}

/// Derives the control address of a program and its bump seed. There is none
/// where the ledger finds no bump seed for the program.
pub fn control_address(program_id: &Address) -> (r: Option<(Address, u8)>)
    ensures
        r == spec_control_address(*program_id),
{
    let seed = seed();
    let r = find_program_address(seed.as_slice(), program_id);
    proof {
        match r {
            Some((a, b)) => {
                assert(a@.subrange(0, 32) =~= a@);
                lemma_address_at_of(a@, 0, a);
            },
            None => {},
        }
    }
    r
}

} // verus!
