use solana_program::pubkey::Pubkey;
use vault::account::{
    at_least, minter_check, not_already_initialized, owned_by, rent_exempt, signer_required, Account,
};
use vault::address::Address;
use vault::credential::{CredentialType, HeartToken, VerifiedCredential};
use vault::error::ProgramFault;
use vault::instruction::{AccountMeta, Instruction, VaultInstruction};
use vault::ledger::AuthorityKind;
use vault::processor::{Effect, Invocation, Processor};
use vault::state::Vault;
use vault::token::{control_address, id, set_authority, transfer};

fn addr(n: u8) -> Address {
    Address { bytes: [n; 32] }
}

const PROGRAM: u8 = 0x50;
const PAYER: u8 = 0x01;
const STORAGE: u8 = 0x02;
const LX: u8 = 0x03;
const MINT: u8 = 0x04;
const STRATEGY: u8 = 0x05;
const CLIENT_X: u8 = 0x06;
const VAULT_X: u8 = 0x07;

fn rent_sysvar() -> Address {
    Address { bytes: solana_program::sysvar::rent::id().to_bytes() }
}

fn account(key: Address, owner: Address, is_signer: bool, data: Vec<u8>) -> Account {
    Account {
        key,
        owner,
        is_signer,
        is_writable: !is_signer,
        lamports: 10,
        rent_exempt_minimum: Some(10),
        data,
    }
}

/// The accounts of a well-formed configuration, in the order the instruction expects.
fn configure_accounts(hodl: bool) -> Vec<Account> {
    let mut accounts = vec![
        account(addr(PAYER), addr(0), true, vec![]),
        account(addr(STORAGE), addr(PROGRAM), false, vec![0; 172]),
        account(addr(LX), id(), false, vec![]),
        account(addr(MINT), id(), false, vec![]),
        account(id(), addr(0), false, vec![]),
        account(addr(STRATEGY), addr(0), false, vec![]),
        account(rent_sysvar(), addr(0), false, vec![]),
    ];
    if hodl {
        accounts.push(account(addr(VAULT_X), id(), false, vec![]));
    }
    accounts
}

fn control() -> Option<(Address, u8)> {
    Some((addr(0xcc), 254))
}

fn handover(owned: u8, kind: AuthorityKind, position: usize) -> Effect {
    Effect::Invoke(Invocation {
        instruction: set_authority(&id(), &addr(owned), &addr(0xcc), kind, &addr(PAYER)).unwrap(),
        accounts: vec![position, 0, 4],
        bump_seed: None,
    })
}

#[test]
fn configure_hodl_vault_effects() {
    let accounts = configure_accounts(true);
    let effects = Processor::process_initialize_vault(&accounts, true, 1, 2, control()).unwrap();
    let record = Vault {
        is_initialized: true,
        hodl: true,
        llx_token_mint_id: addr(MINT),
        lx_token_account: addr(LX),
        x_token_account: Some(addr(VAULT_X)),
        strategy_program_id: addr(STRATEGY),
        strategy_program_deposit_instruction_id: 1,
        strategy_program_withdraw_instruction_id: 2,
        strategy_data_account: None,
    };
    assert_eq!(
        effects,
        vec![
            handover(VAULT_X, AuthorityKind::AccountOwner, 7),
            handover(LX, AuthorityKind::AccountOwner, 2),
            Effect::Store { account: 1, data: record.pack() },
        ]
    );
}

#[test]
fn configure_strategy_vault_effects() {
    let mut accounts = configure_accounts(false);
    // What the storage held as its strategy data account is kept.
    accounts[1].data[136] = 1;
    accounts[1].data[140] = 0x77;
    let effects = Processor::process_initialize_vault(&accounts, false, 8, 9, control()).unwrap();
    let mut data_account = [0u8; 32];
    data_account[0] = 0x77;
    let record = Vault {
        is_initialized: true,
        hodl: false,
        llx_token_mint_id: addr(MINT),
        lx_token_account: addr(LX),
        x_token_account: None,
        strategy_program_id: addr(STRATEGY),
        strategy_program_deposit_instruction_id: 8,
        strategy_program_withdraw_instruction_id: 9,
        strategy_data_account: Some(Address { bytes: data_account }),
    };
    assert_eq!(
        effects,
        vec![
            handover(LX, AuthorityKind::AccountOwner, 2),
            handover(MINT, AuthorityKind::MintTokens, 3),
            Effect::Store { account: 1, data: record.pack() },
        ]
    );
}

#[test]
fn configure_twice_fails_as_already_initialized() {
    for hodl in [true, false] {
        let mut accounts = configure_accounts(hodl);
        let effects = Processor::process_initialize_vault(&accounts, hodl, 1, 2, control()).unwrap();
        let mut stores = 0;
        for effect in effects {
            if let Effect::Store { account, data } = effect {
                assert_eq!(account, 1);
                let before = Vault::unpack_from_slice(&accounts[account].data).unwrap();
                assert!(!before.is_initialized);
                accounts[account].data = data;
                stores += 1;
            }
        }
        assert_eq!(stores, 1);
        let stored = Vault::unpack_from_slice(&accounts[1].data).unwrap();
        assert!(stored.is_initialized);
        assert_eq!(stored.hodl, hodl);
        assert_eq!(stored.x_token_account.is_some(), hodl);
        for again in [true, false] {
            assert_eq!(
                Processor::process_initialize_vault(&accounts, again, 3, 4, control()),
                Err(ProgramFault::AccountAlreadyInitialized)
            );
        }
    }
}

#[test]
fn configure_guards_in_order() {
    let good = configure_accounts(true);
    let run = |accounts: &Vec<Account>| Processor::process_initialize_vault(accounts, true, 1, 2, control());
    assert!(run(&good).is_ok());

    assert_eq!(run(&vec![]), Err(ProgramFault::NotEnoughAccountKeys));

    // A missing signature is found before a short list is.
    let mut unsigned = good.clone();
    unsigned[0].is_signer = false;
    unsigned.truncate(3);
    assert_eq!(run(&unsigned), Err(ProgramFault::MissingRequiredSignature));

    let mut short = good.clone();
    short.truncate(6);
    assert_eq!(run(&short), Err(ProgramFault::NotEnoughAccountKeys));

    let mut no_rent = good.clone();
    no_rent[6].key = addr(0x66);
    no_rent[2].owner = addr(0x66);
    assert_eq!(run(&no_rent), Err(ProgramFault::InvalidArgument));

    for position in [2usize, 3] {
        let mut foreign = good.clone();
        foreign[position].owner = addr(0x66);
        foreign[1].lamports = 0;
        assert_eq!(run(&foreign), Err(ProgramFault::IncorrectProgramId));
    }

    // A rent record that could not be read is found after a missing
    // signature and a short list, and before anything else.
    let mut unreadable = good.clone();
    unreadable[1].rent_exempt_minimum = None;
    unreadable[2].owner = addr(0x66);
    assert_eq!(run(&unreadable), Err(ProgramFault::InvalidArgument));
    unreadable[0].is_signer = false;
    assert_eq!(run(&unreadable), Err(ProgramFault::MissingRequiredSignature));
    unreadable[0].is_signer = true;
    unreadable.truncate(6);
    assert_eq!(run(&unreadable), Err(ProgramFault::NotEnoughAccountKeys));

    let mut poor = good.clone();
    poor[1].lamports = 9;
    poor[1].data = vec![0; 3];
    assert_eq!(run(&poor), Err(ProgramFault::Custom(1)));

    let mut malformed = good.clone();
    malformed[1].data = vec![0; 171];
    assert_eq!(run(&malformed), Err(ProgramFault::InvalidAccountData));
    let mut malformed = good.clone();
    malformed[1].data[1] = 2;
    assert_eq!(run(&malformed), Err(ProgramFault::InvalidAccountData));

    let mut taken = good.clone();
    taken[1].data[0] = 1;
    taken.truncate(7);
    assert_eq!(run(&taken), Err(ProgramFault::AccountAlreadyInitialized));

    let mut no_custody = good.clone();
    no_custody.truncate(7);
    assert_eq!(run(&no_custody), Err(ProgramFault::NotEnoughAccountKeys));

    // A custody account handed outside hodl mode is refused as well.
    assert_eq!(
        Processor::process_initialize_vault(&good, false, 1, 2, control()),
        Err(ProgramFault::InvalidArgument)
    );
    assert_eq!(
        Processor::process_initialize_vault(&good, false, 1, 2, None),
        Err(ProgramFault::InvalidArgument)
    );

    let mut other_token_program = good.clone();
    other_token_program[4].key = addr(0x66);
    assert_eq!(
        Processor::process_initialize_vault(&other_token_program, true, 1, 2, None),
        Err(ProgramFault::InvalidSeeds)
    );
    assert_eq!(run(&other_token_program), Err(ProgramFault::IncorrectProgramId));
    let mut plain = configure_accounts(false);
    plain[4].key = addr(0x66);
    assert_eq!(
        Processor::process_initialize_vault(&plain, false, 1, 2, control()),
        Err(ProgramFault::IncorrectProgramId)
    );
}

fn transfer_accounts(storage: Vec<u8>) -> Vec<Account> {
    vec![
        account(id(), addr(0), false, vec![]),
        account(addr(CLIENT_X), id(), false, vec![]),
        account(addr(LX), id(), false, vec![]),
        account(addr(PAYER), addr(0), true, vec![]),
        account(addr(STORAGE), addr(PROGRAM), false, storage),
        account(addr(VAULT_X), id(), false, vec![]),
    ]
}

fn stored_vault(hodl: bool) -> Vault {
    Vault {
        is_initialized: true,
        hodl,
        llx_token_mint_id: addr(MINT),
        lx_token_account: addr(LX),
        x_token_account: if hodl { Some(addr(VAULT_X)) } else { None },
        strategy_program_id: addr(STRATEGY),
        strategy_program_deposit_instruction_id: 1,
        strategy_program_withdraw_instruction_id: 2,
        strategy_data_account: None,
    }
}

#[test]
fn transfer_on_unconfigured_storage_fails() {
    let accounts = transfer_accounts(vec![0; 172]);
    for is_deposit in [true, false] {
        assert_eq!(
            Processor::process_transfer(&accounts, 100, is_deposit, control()),
            Err(ProgramFault::Custom(0))
        );
    }
    assert_eq!(
        Processor::process(&addr(PROGRAM), &accounts, &VaultInstruction::Deposit { amount: 100 }.pack()),
        Err(ProgramFault::Custom(0))
    );
    assert_eq!(
        Processor::process(&addr(PROGRAM), &accounts, &VaultInstruction::Withdraw { amount: 100 }.pack()),
        Err(ProgramFault::Custom(0))
    );
}

#[test]
fn transfer_guards() {
    let good = transfer_accounts(stored_vault(true).pack());
    let mut short = good.clone();
    short.truncate(4);
    assert_eq!(
        Processor::process_transfer(&short, 1, true, control()),
        Err(ProgramFault::NotEnoughAccountKeys)
    );
    let malformed = transfer_accounts(vec![0; 100]);
    assert_eq!(
        Processor::process_transfer(&malformed, 1, true, control()),
        Err(ProgramFault::InvalidAccountData)
    );
    let mut no_custody = good.clone();
    no_custody.truncate(5);
    assert_eq!(
        Processor::process_transfer(&no_custody, 1, false, control()),
        Err(ProgramFault::NotEnoughAccountKeys)
    );
    assert_eq!(Processor::process_transfer(&good, 1, false, None), Err(ProgramFault::InvalidSeeds));
    // A deposit is signed by the source authority and needs no control address.
    assert!(Processor::process_transfer(&good, 1, true, None).is_ok());
    let mut other_token_program = good.clone();
    other_token_program[0].key = addr(0x66);
    for is_deposit in [true, false] {
        assert_eq!(
            Processor::process_transfer(&other_token_program, 1, is_deposit, control()),
            Err(ProgramFault::IncorrectProgramId)
        );
    }
}

#[test]
fn transfer_on_another_account_than_the_custody_account_fails() {
    // The record names the custody account; another account stands in its place.
    let mut accounts = transfer_accounts(stored_vault(true).pack());
    accounts[5].key = addr(LX);
    for is_deposit in [true, false] {
        assert_eq!(
            Processor::process_transfer(&accounts, 100, is_deposit, control()),
            Err(ProgramFault::InvalidArgument)
        );
    }
    let program = addr(PROGRAM);
    assert_eq!(
        Processor::process(&program, &accounts, &VaultInstruction::Deposit { amount: 100 }.pack()),
        Err(ProgramFault::InvalidArgument)
    );
    assert_eq!(
        Processor::process(&program, &accounts, &VaultInstruction::Withdraw { amount: 100 }.pack()),
        Err(ProgramFault::InvalidArgument)
    );
    // The mismatch is found before the control address or the token program is asked for.
    accounts[0].key = addr(0x66);
    assert_eq!(
        Processor::process_transfer(&accounts, 100, false, None),
        Err(ProgramFault::InvalidArgument)
    );
    // A hodl record that names no custody account admits none.
    let mut record = stored_vault(true);
    record.x_token_account = None;
    let accounts = transfer_accounts(record.pack());
    for is_deposit in [true, false] {
        assert_eq!(
            Processor::process_transfer(&accounts, 100, is_deposit, control()),
            Err(ProgramFault::InvalidArgument)
        );
    }
    // A list without the custody position is too short, whatever the record names.
    let mut short = transfer_accounts(stored_vault(true).pack());
    short.truncate(5);
    assert_eq!(
        Processor::process_transfer(&short, 100, true, control()),
        Err(ProgramFault::NotEnoughAccountKeys)
    );
}

#[test]
fn withdrawal_cannot_drain_the_derivative_account() {
    let mut ledger = token_ledger();
    let program = ledger.program;
    let payer = addr(PAYER);
    let (pda, _) = control_address(&program).unwrap();
    let configure = VaultInstruction::initialize_vault(
        &program,
        &payer,
        &addr(STORAGE),
        &addr(LX),
        &addr(MINT),
        &id(),
        &program,
        true,
        Some(addr(VAULT_X)),
        1,
        2,
    )
    .unwrap();
    assert_eq!(ledger.run(&configure, &[payer]), Ok(()));
    for (key, balance) in ledger.balances.iter_mut() {
        if *key == addr(LX) {
            *balance = 500;
        }
    }
    // The control address owns the derivative account too; naming it as the
    // custody account of a withdrawal is refused.
    let withdraw = VaultInstruction::withdraw(
        &program,
        &id(),
        &addr(LX),
        &addr(CLIENT_X),
        vec![
            AccountMeta::new_readonly(pda, false),
            AccountMeta::new_readonly(addr(STORAGE), false),
            AccountMeta::new(addr(LX), false),
        ],
        100,
    )
    .unwrap();
    assert_eq!(ledger.run(&withdraw, &[payer]), Err(ProgramFault::InvalidArgument));
    assert_eq!(ledger.balance(addr(LX)), 500);
    assert_eq!(ledger.balance(addr(CLIENT_X)), 1000);
}

#[test]
fn transfer_in_hodl_mode_effects() {
    let accounts = transfer_accounts(stored_vault(true).pack());
    assert_eq!(
        Processor::process_transfer(&accounts, 100, true, control()),
        Ok(vec![Effect::Invoke(Invocation {
            instruction: transfer(&id(), &addr(CLIENT_X), &addr(VAULT_X), &addr(PAYER), 100).unwrap(),
            accounts: vec![1, 5, 3, 0],
            bump_seed: None,
        })])
    );
    assert_eq!(
        Processor::process_transfer(&accounts, 100, false, control()),
        Ok(vec![Effect::Invoke(Invocation {
            instruction: transfer(&id(), &addr(VAULT_X), &addr(LX), &addr(0xcc), 100).unwrap(),
            accounts: vec![5, 2, 3, 0],
            bump_seed: Some(254),
        })])
    );
}

#[test]
fn transfer_outside_hodl_mode_does_nothing() {
    let mut accounts = transfer_accounts(stored_vault(false).pack());
    accounts.truncate(5);
    for is_deposit in [true, false] {
        assert_eq!(Processor::process_transfer(&accounts, 100, is_deposit, None), Ok(vec![]));
    }
}

#[test]
fn process_decodes_and_dispatches() {
    let program = addr(PROGRAM);
    assert_eq!(Processor::process(&program, &[], &[]), Err(ProgramFault::Custom(0)));
    assert_eq!(Processor::process(&program, &[], &[9]), Err(ProgramFault::Custom(0)));
    assert_eq!(Processor::process(&program, &[], &[0, 1, 1, 2]), Err(ProgramFault::NotEnoughAccountKeys));
    let derived = control_address(&program);
    let accounts = configure_accounts(true);
    assert_eq!(
        Processor::process(&program, &accounts, &[0, 1, 1, 2]),
        Processor::process_initialize_vault(&accounts, true, 1, 2, derived)
    );
    let accounts = transfer_accounts(stored_vault(true).pack());
    assert_eq!(
        Processor::process(&program, &accounts, &VaultInstruction::Withdraw { amount: 5 }.pack()),
        Processor::process_transfer(&accounts, 5, false, derived)
    );
    assert_eq!(
        Processor::process(&program, &accounts, &VaultInstruction::Deposit { amount: 5 }.pack()),
        Processor::process_transfer(&accounts, 5, true, derived)
    );
}

#[test]
fn guards_one_by_one() {
    let mut a = account(addr(1), addr(2), true, vec![]);
    assert_eq!(signer_required(&a), Ok(()));
    assert_eq!(owned_by(&a, &addr(2)), Ok(()));
    assert_eq!(owned_by(&a, &addr(3)), Err(ProgramFault::IncorrectProgramId));
    assert_eq!(rent_exempt(&a), Ok(()));
    assert!(a.is_rent_exempt());
    a.is_signer = false;
    a.lamports = 9;
    assert_eq!(signer_required(&a), Err(ProgramFault::MissingRequiredSignature));
    assert_eq!(rent_exempt(&a), Err(ProgramFault::Custom(1)));
    assert!(!a.is_rent_exempt());
    // Without a known minimum no balance exempts.
    a.lamports = u64::MAX;
    a.rent_exempt_minimum = None;
    assert_eq!(rent_exempt(&a), Err(ProgramFault::Custom(1)));
    assert!(!a.is_rent_exempt());
    a.rent_exempt_minimum = Some(u64::MAX);
    assert_eq!(rent_exempt(&a), Ok(()));
    assert_eq!(not_already_initialized(false), Ok(()));
    assert_eq!(not_already_initialized(true), Err(ProgramFault::AccountAlreadyInitialized));
    let list = vec![a.clone(), a];
    assert_eq!(at_least(&list, 2), Ok(()));
    assert_eq!(at_least(&list, 3), Err(ProgramFault::NotEnoughAccountKeys));
}

#[test]
fn minter_check_cases() {
    let program = addr(PROGRAM);
    let mut credentials = [VerifiedCredential::empty(); 10];
    credentials[4] = VerifiedCredential { credential_type: CredentialType::Minter, verifier: addr(9) };
    let minter = HeartToken { is_initialized: true, owner: addr(1), verified_credentials: credentials };
    credentials[4].credential_type = CredentialType::DriversLicense;
    let driver = HeartToken { is_initialized: true, owner: addr(1), verified_credentials: credentials };

    let good = account(addr(1), program, false, minter.pack());
    assert_eq!(minter_check(&good, &program, &None), Ok(()));
    assert_eq!(minter_check(&good, &program, &Some(addr(0x99))), Ok(()));

    let invalid = Err(ProgramFault::Custom(2));
    let foreign = account(addr(1), addr(0x66), false, minter.pack());
    assert_eq!(minter_check(&foreign, &program, &None), invalid);
    let no_credential = account(addr(1), program, false, driver.pack());
    assert_eq!(minter_check(&no_credential, &program, &None), invalid);
    let malformed = account(addr(1), program, false, vec![0; 10]);
    assert_eq!(minter_check(&malformed, &program, &None), invalid);

    // The administrator passes without owning a credential.
    assert_eq!(minter_check(&malformed, &program, &Some(addr(1))), Ok(()));
    assert_eq!(minter_check(&foreign, &program, &Some(addr(1))), Ok(()));
    assert_eq!(minter_check(&foreign, &program, &Some(addr(2))), invalid);
}

/// A ledger small enough to read: accounts, and the token program's balances
/// and owners for its token accounts.
struct Ledger {
    program: Address,
    accounts: Vec<Account>,
    balances: Vec<(Address, u64)>,
    owners: Vec<(Address, Address)>,
}

impl Ledger {
    fn balance(&self, key: Address) -> u64 {
        self.balances.iter().find(|(k, _)| *k == key).unwrap().1
    }

    fn owner(&self, key: Address) -> Address {
        self.owners.iter().find(|(k, _)| *k == key).unwrap().1
    }

    /// The accounts that an instruction names, as the program is shown them.
    fn accounts_for(&self, instruction: &Instruction, signers: &[Address]) -> Vec<Account> {
        instruction
            .accounts
            .iter()
            .map(|meta| {
                assert!(!meta.is_signer || signers.contains(&meta.pubkey));
                match self.accounts.iter().find(|a| a.key == meta.pubkey) {
                    Some(known) => Account {
                        is_signer: meta.is_signer,
                        is_writable: meta.is_writable,
                        ..known.clone()
                    },
                    None => Account {
                        key: meta.pubkey,
                        owner: addr(0),
                        is_signer: meta.is_signer,
                        is_writable: meta.is_writable,
                        lamports: 0,
                        rent_exempt_minimum: Some(0),
                        data: vec![],
                    },
                }
            })
            .collect()
    }

    /// Whether `authority` signs an invocation: as an account that signed
    /// the transaction, or as the control address for which the program signs.
    fn signs(&self, invocation: &Invocation, shown: &[Account], authority: Address) -> bool {
        let by_account = invocation.accounts.iter().any(|&i| shown[i].key == authority && shown[i].is_signer);
        let by_seed = match invocation.bump_seed {
            Some(bump) => {
                Pubkey::create_program_address(&[b"vault", &[bump]], &Pubkey::new_from_array(self.program.bytes))
                    .map(|k| k.to_bytes() == authority.bytes)
                    .unwrap_or(false)
            }
            None => false,
        };
        by_account || by_seed
    }

    /// What the token program does with an invocation.
    fn token_program(&mut self, invocation: &Invocation, shown: &[Account]) -> Result<(), ProgramFault> {
        let instruction = &invocation.instruction;
        assert_eq!(instruction.program_id, id());
        for meta in &instruction.accounts {
            assert!(invocation.accounts.iter().any(|&i| shown[i].key == meta.pubkey));
        }
        match instruction.data[0] {
            3 => {
                let amount = u64::from_le_bytes(instruction.data[1..9].try_into().unwrap());
                let (source, destination) = (instruction.accounts[0].pubkey, instruction.accounts[1].pubkey);
                let authority = instruction.accounts[2].pubkey;
                if self.owner(source) != authority || !self.signs(invocation, shown, authority) {
                    return Err(ProgramFault::Custom(4));
                }
                if self.balance(source) < amount {
                    return Err(ProgramFault::Custom(1));
                }
                for (key, balance) in self.balances.iter_mut() {
                    if *key == source {
                        *balance -= amount;
                    } else if *key == destination {
                        *balance += amount;
                    }
                }
                Ok(())
            }
            6 => {
                let owned = instruction.accounts[0].pubkey;
                let current = instruction.accounts[1].pubkey;
                assert_eq!(instruction.data[2], 1);
                let next = Address::read_from(&instruction.data, 3);
                if self.owner(owned) != current || !self.signs(invocation, shown, current) {
                    return Err(ProgramFault::Custom(4));
                }
                for (key, owner) in self.owners.iter_mut() {
                    if *key == owned {
                        *owner = next;
                    }
                }
                Ok(())
            }
            _ => Err(ProgramFault::InvalidInstructionData),
        }
    }

    /// Runs one instruction of the vault program as a transaction of its own.
    fn run(&mut self, instruction: &Instruction, signers: &[Address]) -> Result<(), ProgramFault> {
        assert_eq!(instruction.program_id, self.program);
        let shown = self.accounts_for(instruction, signers);
        let effects = Processor::process(&self.program, &shown, &instruction.data)?;
        let (balances, owners, accounts) = (self.balances.clone(), self.owners.clone(), self.accounts.clone());
        for effect in &effects {
            let done = match effect {
                Effect::Invoke(invocation) => self.token_program(invocation, &shown),
                Effect::Store { account, data } => {
                    let key = shown[*account].key;
                    assert!(shown[*account].is_writable);
                    self.accounts.iter_mut().find(|a| a.key == key).unwrap().data = data.clone();
                    Ok(())
                }
            };
            if let Err(e) = done {
                self.balances = balances;
                self.owners = owners;
                self.accounts = accounts;
                return Err(e);
            }
        }
        Ok(())
    }
}

fn token_ledger() -> Ledger {
    let program = addr(PROGRAM);
    let payer = addr(PAYER);
    Ledger {
        program,
        accounts: vec![
            account(addr(STORAGE), program, false, vec![0; Vault::LEN]),
            account(addr(LX), id(), false, vec![]),
            account(addr(MINT), id(), false, vec![]),
            account(addr(CLIENT_X), id(), false, vec![]),
            account(addr(VAULT_X), id(), false, vec![]),
        ],
        balances: vec![(addr(CLIENT_X), 1000), (addr(VAULT_X), 0), (addr(LX), 0)],
        owners: vec![
            (addr(CLIENT_X), payer),
            (addr(VAULT_X), payer),
            (addr(LX), payer),
            (addr(MINT), payer),
        ],
    }
}

#[test]
fn test_hodl_vault() {
    let mut ledger = token_ledger();
    let program = ledger.program;
    let payer = addr(PAYER);
    let (pda, _bump_seed) = control_address(&program).unwrap();
    assert_eq!(
        pda.bytes,
        Pubkey::find_program_address(&[b"vault"], &Pubkey::new_from_array(program.bytes)).0.to_bytes()
    );

    let configure = VaultInstruction::initialize_vault(
        &program,
        &payer,
        &addr(STORAGE),
        &addr(LX),
        &addr(MINT),
        &id(),
        &program,
        true,
        Some(addr(VAULT_X)),
        1,
        2,
    )
    .unwrap();
    assert_eq!(ledger.run(&configure, &[payer]), Ok(()));
    assert_eq!(ledger.owner(addr(VAULT_X)), pda);
    assert_eq!(ledger.owner(addr(LX)), pda);
    assert_eq!(ledger.owner(addr(MINT)), payer);
    let stored = Vault::unpack_from_slice(&ledger.accounts[0].data).unwrap();
    assert!(stored.is_initialized && stored.hodl);
    assert_eq!(stored.x_token_account, Some(addr(VAULT_X)));
    assert_eq!(stored.strategy_program_id, program);

    let deposit = VaultInstruction::deposit(
        &program,
        &id(),
        &addr(CLIENT_X),
        &addr(LX),
        vec![
            AccountMeta::new_readonly(payer, true),
            AccountMeta::new_readonly(addr(STORAGE), false),
            AccountMeta::new(addr(VAULT_X), false),
        ],
        100,
    )
    .unwrap();
    assert_eq!(ledger.run(&deposit, &[payer]), Ok(()));
    assert_eq!(ledger.balance(addr(VAULT_X)), 100);
    assert_eq!(ledger.balance(addr(CLIENT_X)), 900);

    let withdraw = VaultInstruction::withdraw(
        &program,
        &id(),
        &addr(VAULT_X),
        &addr(CLIENT_X),
        vec![
            AccountMeta::new_readonly(pda, false),
            AccountMeta::new_readonly(addr(STORAGE), false),
            AccountMeta::new(addr(VAULT_X), false),
        ],
        100,
    )
    .unwrap();
    assert_eq!(ledger.run(&withdraw, &[payer]), Ok(()));
    assert_eq!(ledger.balance(addr(CLIENT_X)), 1000);
    assert_eq!(ledger.balance(addr(VAULT_X)), 0);

    // A second configuration of the same storage is refused.
    assert_eq!(ledger.run(&configure, &[payer]), Err(ProgramFault::AccountAlreadyInitialized));
}

#[test]
fn deposit_before_configuration_moves_nothing() {
    let mut ledger = token_ledger();
    let program = ledger.program;
    let payer = addr(PAYER);
    let extra = vec![
        AccountMeta::new_readonly(payer, true),
        AccountMeta::new_readonly(addr(STORAGE), false),
        AccountMeta::new(addr(VAULT_X), false),
    ];
    let deposit =
        VaultInstruction::deposit(&program, &id(), &addr(CLIENT_X), &addr(LX), extra.clone(), 100).unwrap();
    assert_eq!(ledger.run(&deposit, &[payer]), Err(ProgramFault::Custom(0)));
    let withdraw =
        VaultInstruction::withdraw(&program, &id(), &addr(VAULT_X), &addr(CLIENT_X), extra, 100).unwrap();
    assert_eq!(ledger.run(&withdraw, &[payer]), Err(ProgramFault::Custom(0)));
    assert_eq!(ledger.balance(addr(CLIENT_X)), 1000);
    assert_eq!(ledger.balance(addr(VAULT_X)), 0);
}
