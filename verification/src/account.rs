use crate::address::Address;
use crate::credential::{CredentialType, HeartToken};
use crate::error::{ProgramFault, VaultError};
use vstd::prelude::*;

verus! {

/// What an instruction sees of one account that it is handed: who it is, which
/// program owns it, what the enclosing transaction allows, its balance, the
/// balance from which the ledger's rent model exempts storage of its size
/// (none where the ledger's rent record could not be read), and the bytes it
/// stores.
#[derive(Clone, Debug, PartialEq)]
pub struct Account {
    pub key: Address,
    pub owner: Address,
    pub is_signer: bool,
    pub is_writable: bool,
    pub lamports: u64,
    pub rent_exempt_minimum: Option<u64>,
    pub data: Vec<u8>,
}

/// The failure of a guard, or none.
pub open spec fn guard(holds: bool, fault: ProgramFault) -> Result<(), ProgramFault> {
    if holds {
        Ok(())
    } else {
        Err(fault)
    }
}

impl Account {
    /// The account holds at least the balance that exempts it from rent. An
    /// account for which that balance is not known is not exempt.
    pub open spec fn spec_is_rent_exempt(&self) -> bool {
        self.rent_exempt_minimum matches Some(minimum) && self.lamports >= minimum
    }

    #[verifier::when_used_as_spec(spec_is_rent_exempt)]
    pub fn is_rent_exempt(&self) -> (r: bool)
        ensures
            r == self.spec_is_rent_exempt(),
    {
        match self.rent_exempt_minimum {
            Some(minimum) => self.lamports >= minimum,
            None => false,
        }
    }
}

/// Fails with a missing signature unless the account co-signed the
/// transaction.
pub fn signer_required(account: &Account) -> (r: Result<(), ProgramFault>)
    ensures
        r == guard(account.is_signer, ProgramFault::MissingRequiredSignature),
{
    if account.is_signer {
        Ok(())
    } else {
        Err(ProgramFault::MissingRequiredSignature)
    }
}

/// Fails with an incorrect program id unless `program_id` owns the account.
pub fn owned_by(account: &Account, program_id: &Address) -> (r: Result<(), ProgramFault>)
    ensures
        r == guard(account.owner == *program_id, ProgramFault::IncorrectProgramId),
{
    if account.owner == *program_id {
        Ok(())
    } else {
        Err(ProgramFault::IncorrectProgramId)
    }
}

/// Fails with the vault's rent failure unless the account's balance exempts
/// it from rent.
pub fn rent_exempt(account: &Account) -> (r: Result<(), ProgramFault>)
    ensures
        r == guard(account.spec_is_rent_exempt(), ProgramFault::of(VaultError::NotRentExempt)),
{
    if account.is_rent_exempt() {
        Ok(())
    } else {
        Err(ProgramFault::from(VaultError::NotRentExempt))
    }
}

/// Fails with an already initialized account where the record's flag is set.
pub fn not_already_initialized(is_initialized: bool) -> (r: Result<(), ProgramFault>)
    ensures
        r == guard(!is_initialized, ProgramFault::AccountAlreadyInitialized),
{
    if is_initialized {
        Err(ProgramFault::AccountAlreadyInitialized)
    } else {
        Ok(())
    }
}

/// Fails with not enough account keys unless the list holds `count` accounts.
pub fn at_least(accounts: &[Account], count: usize) -> (r: Result<(), ProgramFault>)
    ensures
        r == guard(accounts@.len() >= count, ProgramFault::NotEnoughAccountKeys),
{
    if accounts.len() >= count {
        Ok(())
    } else {
        Err(ProgramFault::NotEnoughAccountKeys)
    }
}

/// Whether an account may mint: it is the administrator named, or the
/// program owns it and it stores a heart token with a minter credential.
pub open spec fn spec_is_minter(
    account: Account,
    program_id: Address,
    administrator: Option<Address>,
) -> bool {
    administrator == Some(account.key) || (account.owner == program_id && HeartToken::spec_unpack(
        account.data@,
    ) is Ok && HeartToken::spec_unpack(account.data@)->Ok_0.spec_holds(CredentialType::Minter))
}

/// Fails with the vault's minter failure unless the account may mint. The
/// administrator, where one is named, passes without a credential.
pub fn minter_check(account: &Account, program_id: &Address, administrator: &Option<Address>) -> (r:
    Result<(), ProgramFault>)
    ensures
        r == guard(
            spec_is_minter(*account, *program_id, *administrator),
            ProgramFault::of(VaultError::InvalidMinter),
        ),
{
    match administrator {
        Some(trusted) => {
            if *trusted == account.key {
                return Ok(());
            }
        },
        None => {},
    }
    if account.owner != *program_id {
        return Err(ProgramFault::from(VaultError::InvalidMinter));
    }
    match HeartToken::unpack_from_slice(account.data.as_slice()) {
        Ok(token) => {
            if token.holds(CredentialType::Minter) {
                Ok(())
            } else {
                Err(ProgramFault::from(VaultError::InvalidMinter))
            }
        },
        Err(_) => Err(ProgramFault::from(VaultError::InvalidMinter)),
    }
}

} // verus!
