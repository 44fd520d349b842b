use crate::account::{at_least, not_already_initialized, owned_by, rent_exempt, signer_required, Account};
use crate::address::Address;
use crate::error::{ProgramFault, VaultError};
use crate::instruction::{Instruction, InstructionView, VaultInstruction};
use crate::ledger::{rent_sysvar_address, rent_sysvar_id, token_program_address, AuthorityKind};
use crate::state::Vault;
use crate::token::{
    control_address, set_authority, spec_control_address, spec_set_authority, spec_transfer, transfer,
};
use vstd::prelude::*;

verus! {

/// The position of the rent sysvar among the accounts of the instruction that
/// configures a vault.
pub const RENT_SYSVAR_POSITION: usize = 6;

/// A call of another program that an instruction asks the ledger to make:
/// the instruction, the positions in the instruction's own account list of
/// the accounts to hand along, and, where the program signs as its control
/// address, the bump seed to sign with.
#[derive(Clone, Debug, PartialEq)]
pub struct Invocation {
    pub instruction: Instruction,
    pub accounts: Vec<usize>,
    pub bump_seed: Option<u8>,
}

/// One thing that a successful instruction does, in the order it is done: a
/// call of another program, which ends the instruction with its failure if
/// it fails, or new contents for the storage of one of the accounts.
#[derive(Clone, Debug, PartialEq)]
pub enum Effect {
    Invoke(Invocation),
    Store { account: usize, data: Vec<u8> },
}

/// An invocation as a mathematical value.
pub struct InvocationView {
    pub instruction: InstructionView,
    pub accounts: Seq<usize>,
    pub bump_seed: Option<u8>,
}

/// An effect as a mathematical value.
pub enum EffectView {
    Invoke(InvocationView),
    Store { account: usize, data: Seq<u8> },
}

impl View for Invocation {
    type V = InvocationView;

    open spec fn view(&self) -> InvocationView {
        InvocationView {
            instruction: self.instruction@,
            accounts: self.accounts@,
            bump_seed: self.bump_seed,
        }
    }
}

impl View for Effect {
    type V = EffectView;

    open spec fn view(&self) -> EffectView {
        match *self {
            Effect::Invoke(invocation) => EffectView::Invoke(invocation@),
            Effect::Store { account, data } => EffectView::Store { account, data: data@ },
        }
    }
}

/// What an instruction does, or the failure that it ends with.
pub type Plan = Result<Seq<EffectView>, ProgramFault>;

/// The outcome of processing, by the views of the effects.
pub open spec fn plan(r: Result<Vec<Effect>, ProgramFault>) -> Plan {
    match r {
        Ok(effects) => Ok(effects@.map_values(|e: Effect| e@)),
        Err(e) => Err(e),
    }
}

/// The record that configuring writes: initialized, with the mode, the mint,
/// the derivative account, the strategy and its opcodes as given, the
/// direct-custody account exactly in hodl mode, and the strategy data
/// account that the storage held before.
pub open spec fn configured(
    accounts: Seq<Account>,
    stored: Vault,
    hodl: bool,
    strategy_program_deposit_instruction_id: u8,
    strategy_program_withdraw_instruction_id: u8,
) -> Vault {
    Vault {
        is_initialized: true,
        hodl,
        llx_token_mint_id: accounts[3].key,
        lx_token_account: accounts[2].key,
        x_token_account: if hodl {
            Some(accounts[7].key)
        } else {
            None
        },
        strategy_program_id: accounts[5].key,
        strategy_program_deposit_instruction_id,
        strategy_program_withdraw_instruction_id,
        strategy_data_account: stored.strategy_data_account,
    }
}

/// The call that hands the authority `kind` over the account at position
/// `owned` from the initializer (position 0) to the control address, made of
/// the token program at position 4.
pub open spec fn handover(
    accounts: Seq<Account>,
    owned: usize,
    kind: AuthorityKind,
    control: Address,
) -> EffectView {
    EffectView::Invoke(
        InvocationView {
            instruction: spec_set_authority(
                accounts[4].key,
                accounts[owned as int].key,
                control,
                kind,
                accounts[0].key,
            )->Ok_0,
            accounts: seq![owned, 0usize, 4usize],
            bump_seed: None,
        },
    )
}

/// What configuring does once every guard has passed: in hodl mode the
/// direct-custody account goes to the control address; the derivative
/// account goes to the control address; outside hodl mode the mint authority
/// follows; and last, once every call has succeeded, the record is stored.
pub open spec fn initialize_effects(
    accounts: Seq<Account>,
    record: Vault,
    control: Address,
) -> Seq<EffectView> {
    let store = EffectView::Store { account: 1usize, data: record.spec_pack() };
    let derivative = handover(accounts, 2, AuthorityKind::AccountOwner, control);
    if record.hodl {
        seq![handover(accounts, 7, AuthorityKind::AccountOwner, control), derivative, store]
    } else {
        seq![derivative, handover(accounts, 3, AuthorityKind::MintTokens, control), store]
    }
}

/// Configuring a vault. The accounts are, in order: the initializer, the
/// storage, the derivative account, the mint, the token program, the
/// strategy program, the rent sysvar and, in hodl mode, the direct-custody
/// account. The guards are tried in the order written; the first that fails
/// gives the failure. An account at the rent sysvar's position that is not
/// the rent sysvar, and a rent record that could not be read, are an invalid
/// argument. A hodl vault without its direct-custody account lacks an
/// account; a direct-custody account handed outside hodl mode is an invalid
/// argument.
pub open spec fn spec_initialize_vault(
    accounts: Seq<Account>,
    hodl: bool,
    strategy_program_deposit_instruction_id: u8,
    strategy_program_withdraw_instruction_id: u8,
    control: Option<(Address, u8)>,
) -> Plan {
    if accounts.len() < 1 {
        Err(ProgramFault::NotEnoughAccountKeys)
    } else if !accounts[0].is_signer {
        Err(ProgramFault::MissingRequiredSignature)
    } else if accounts.len() < 7 {
        Err(ProgramFault::NotEnoughAccountKeys)
    } else if accounts[6].key != rent_sysvar_address() || accounts[1].rent_exempt_minimum is None {
        Err(ProgramFault::InvalidArgument)
    } else if accounts[2].owner != token_program_address() || accounts[3].owner
        != token_program_address() {
        Err(ProgramFault::IncorrectProgramId)
    } else if !accounts[1].spec_is_rent_exempt() {
        Err(ProgramFault::of(VaultError::NotRentExempt))
    } else {
        match Vault::spec_unpack(accounts[1].data@) {
            Err(e) => Err(e),
            Ok(stored) => {
                if stored.is_initialized {
                    Err(ProgramFault::AccountAlreadyInitialized)
                } else if hodl && accounts.len() < 8 {
                    Err(ProgramFault::NotEnoughAccountKeys)
                } else if !hodl && accounts.len() > 7 {
                    Err(ProgramFault::InvalidArgument)
                } else {
                    match control {
                        None => Err(ProgramFault::InvalidSeeds),
                        Some((address, _)) => {
                            if accounts[4].key != token_program_address() {
                                Err(ProgramFault::IncorrectProgramId)
                            } else {
                                Ok(
                                    initialize_effects(
                                        accounts,
                                        configured(
                                            accounts,
                                            stored,
                                            hodl,
                                            strategy_program_deposit_instruction_id,
                                            strategy_program_withdraw_instruction_id,
                                        ),
                                        address,
                                    ),
                                )
                            }
                        },
                    }
                }
            },
        }
    }
}

/// The call that moves the tokens of a deposit or a withdrawal in hodl mode,
/// the account at position 5 being the direct-custody account of the vault's
/// record. A deposit goes from the source (position 1) to the direct-custody
/// account on the word of the source authority (position 3). A withdrawal
/// goes from the direct-custody account to the target (position 2) on the
/// word of the control address, for which the program signs.
pub open spec fn custody_transfer(
    accounts: Seq<Account>,
    amount: u64,
    is_deposit: bool,
    control: Option<(Address, u8)>,
) -> Plan {
    if is_deposit {
        match spec_transfer(
            accounts[0].key,
            accounts[1].key,
            accounts[5].key,
            accounts[3].key,
            amount,
        ) {
            Err(e) => Err(e),
            Ok(instruction) => Ok(
                seq![
                    EffectView::Invoke(
                        InvocationView {
                            instruction,
                            accounts: seq![1usize, 5usize, 3usize, 0usize],
                            bump_seed: None,
                        },
                    ),
                ],
            ),
        }
    } else {
        match control {
            None => Err(ProgramFault::InvalidSeeds),
            Some((address, bump)) => match spec_transfer(
                accounts[0].key,
                accounts[5].key,
                accounts[2].key,
                address,
                amount,
            ) {
                Err(e) => Err(e),
                Ok(instruction) => Ok(
                    seq![
                        EffectView::Invoke(
                            InvocationView {
                                instruction,
                                accounts: seq![5usize, 2usize, 3usize, 0usize],
                                bump_seed: Some(bump),
                            },
                        ),
                    ],
                ),
            },
        }
    }
}

/// A deposit or a withdrawal. The accounts are, in order: the token program,
/// the source, the target, the source authority, the vault's storage and, in
/// hodl mode, the direct-custody account. Storage that holds no configured
/// vault is an invalid instruction. In hodl mode an account at the custody
/// position that is not the direct-custody account of the vault's record is
/// an invalid argument. Outside hodl mode nothing is done.
pub open spec fn spec_transfer_plan(
    accounts: Seq<Account>,
    amount: u64,
    is_deposit: bool,
    control: Option<(Address, u8)>,
) -> Plan {
    if accounts.len() < 5 {
        Err(ProgramFault::NotEnoughAccountKeys)
    } else {
        match Vault::spec_unpack(accounts[4].data@) {
            Err(e) => Err(e),
            Ok(stored) => {
                if !stored.is_initialized {
                    Err(ProgramFault::of(VaultError::InvalidInstruction))
                } else if !stored.hodl {
                    Ok(Seq::empty())
                } else if accounts.len() < 6 {
                    Err(ProgramFault::NotEnoughAccountKeys)
                } else if stored.x_token_account != Some(accounts[5].key) {
                    Err(ProgramFault::InvalidArgument)
                } else {
                    custody_transfer(accounts, amount, is_deposit, control)
                }
            },
        }
    }
}

/// Processing an instruction of the vault program: the payload is decoded,
/// and the instruction it holds is carried out on the accounts.
pub open spec fn spec_process(
    accounts: Seq<Account>,
    instruction_data: Seq<u8>,
    control: Option<(Address, u8)>,
) -> Plan {
    match VaultInstruction::spec_unpack(instruction_data) {
        Err(e) => Err(e),
        Ok(
            VaultInstruction::InitializeVault {
                strategy_program_deposit_instruction_id,
                strategy_program_withdraw_instruction_id,
                hodl,
            },
        ) => spec_initialize_vault(
            accounts,
            hodl,
            strategy_program_deposit_instruction_id,
            strategy_program_withdraw_instruction_id,
            control,
        ),
        Ok(VaultInstruction::Deposit { amount }) => spec_transfer_plan(accounts, amount, true, control),
        Ok(VaultInstruction::Withdraw { amount }) => spec_transfer_plan(
            accounts,
            amount,
            false,
            control,
        ),
    }
}

/// The accounts as the ledger shows them once new contents were stored for
/// one of them: that account holds the new contents and is otherwise as
/// before, and so is every other account.
pub open spec fn after_store(
    before: Seq<Account>,
    after: Seq<Account>,
    account: usize,
    data: Seq<u8>,
) -> bool {
    &&& after.len() == before.len()
    &&& account < before.len()
    &&& forall|i: int| 0 <= i < before.len() && i != account ==> after[i] == before[i]
    &&& after[account as int].data@ == data
    &&& after[account as int].key == before[account as int].key
    &&& after[account as int].owner == before[account as int].owner
    &&& after[account as int].is_signer == before[account as int].is_signer
    &&& after[account as int].is_writable == before[account as int].is_writable
    &&& after[account as int].lamports == before[account as int].lamports
    &&& after[account as int].rent_exempt_minimum == before[account as int].rent_exempt_minimum
}

/// The position of the store among the effects of configuring: the last.
pub open spec fn store_position() -> int {
    2
}

/// Configuring happens once. Where configuring succeeds, the storage held a
/// record that was not initialized, and what is stored for it, after every
/// call, is the record `configured`: initialized, with the mode, the mint,
/// the derivative account, the direct-custody account, the strategy and its
/// opcodes as they were given. On accounts that hold what was stored,
/// configuring fails as already initialized, whatever its arguments.
pub proof fn lemma_configure_once(
    accounts: Seq<Account>,
    hodl: bool,
    strategy_program_deposit_instruction_id: u8,
    strategy_program_withdraw_instruction_id: u8,
    control: Option<(Address, u8)>,
    again: Seq<Account>,
    hodl_again: bool,
    deposit_again: u8,
    withdraw_again: u8,
    control_again: Option<(Address, u8)>,
)
    requires
        spec_initialize_vault(
            accounts,
            hodl,
            strategy_program_deposit_instruction_id,
            strategy_program_withdraw_instruction_id,
            control,
        ) is Ok,
        after_store(
            accounts,
            again,
            1,
            spec_initialize_vault(
                accounts,
                hodl,
                strategy_program_deposit_instruction_id,
                strategy_program_withdraw_instruction_id,
                control,
            )->Ok_0[store_position()]->data,
        ),
    ensures
        Vault::spec_unpack(accounts[1].data@) is Ok,
        !Vault::spec_unpack(accounts[1].data@)->Ok_0.is_initialized,
        spec_initialize_vault(
            accounts,
            hodl,
            strategy_program_deposit_instruction_id,
            strategy_program_withdraw_instruction_id,
            control,
        )->Ok_0[store_position()] is Store,
        Vault::spec_unpack(again[1].data@) == Ok::<Vault, ProgramFault>(
            configured(
                accounts,
                Vault::spec_unpack(accounts[1].data@)->Ok_0,
                hodl,
                strategy_program_deposit_instruction_id,
                strategy_program_withdraw_instruction_id,
            ),
        ),
        Vault::spec_unpack(again[1].data@)->Ok_0.is_initialized,
        Vault::spec_unpack(again[1].data@)->Ok_0.hodl == hodl,
        Vault::spec_unpack(again[1].data@)->Ok_0.llx_token_mint_id == accounts[3].key,
        Vault::spec_unpack(again[1].data@)->Ok_0.lx_token_account == accounts[2].key,
        Vault::spec_unpack(again[1].data@)->Ok_0.x_token_account == (if hodl {
            Some(accounts[7].key)
        } else {
            None
        }),
        Vault::spec_unpack(again[1].data@)->Ok_0.strategy_program_id == accounts[5].key,
        Vault::spec_unpack(again[1].data@)->Ok_0.strategy_program_deposit_instruction_id
            == strategy_program_deposit_instruction_id,
        Vault::spec_unpack(again[1].data@)->Ok_0.strategy_program_withdraw_instruction_id
            == strategy_program_withdraw_instruction_id,
        Vault::spec_unpack(again[1].data@)->Ok_0.well_formed(),
        spec_initialize_vault(again, hodl_again, deposit_again, withdraw_again, control_again) == Err::<
            Seq<EffectView>,
            ProgramFault,
        >(ProgramFault::AccountAlreadyInitialized),
{
    let stored = Vault::spec_unpack(accounts[1].data@)->Ok_0;
    let record = configured(
        accounts,
        stored,
        hodl,
        strategy_program_deposit_instruction_id,
        strategy_program_withdraw_instruction_id,
    );
    Vault::lemma_round_trip(record);
    assert(again[0] == accounts[0]);
    assert(again[2] == accounts[2]);
    assert(again[3] == accounts[3]);
    assert(again[6] == accounts[6]);
}

/// Whether an effect stays within a list of `len` accounts: it stores for
/// one of them, or hands some of them along.
pub open spec fn within(effect: EffectView, len: nat) -> bool {
    match effect {
        EffectView::Store { account, .. } => account < len,
        EffectView::Invoke(invocation) => forall|k: int|
            0 <= k < invocation.accounts.len() ==> #[trigger] invocation.accounts[k] < len,
    }
}

/// What holds of an effect of the vault program on the accounts it was
/// handed: it stays within them, and where it stores, it stores an
/// initialized vault record into the storage at position 1, which held a
/// record that was not initialized.
pub open spec fn writes_once(effect: EffectView, accounts: Seq<Account>) -> bool {
    &&& within(effect, accounts.len())
    &&& effect matches EffectView::Store { account, data } ==> {
        &&& account == 1
        &&& Vault::spec_unpack(accounts[1].data@) is Ok
        &&& !Vault::spec_unpack(accounts[1].data@)->Ok_0.is_initialized
        &&& Vault::spec_unpack(data) is Ok
        &&& Vault::spec_unpack(data)->Ok_0.is_initialized
    }
}

/// Every effect of configuring writes once.
proof fn lemma_configuring_writes_once(
    accounts: Seq<Account>,
    hodl: bool,
    strategy_program_deposit_instruction_id: u8,
    strategy_program_withdraw_instruction_id: u8,
    control: Option<(Address, u8)>,
    k: int,
)
    requires
        spec_initialize_vault(
            accounts,
            hodl,
            strategy_program_deposit_instruction_id,
            strategy_program_withdraw_instruction_id,
            control,
        ) matches Ok(effects) && 0 <= k < effects.len(),
    ensures
        writes_once(
            spec_initialize_vault(
                accounts,
                hodl,
                strategy_program_deposit_instruction_id,
                strategy_program_withdraw_instruction_id,
                control,
            )->Ok_0[k],
            accounts,
        ),
{
    let stored = Vault::spec_unpack(accounts[1].data@)->Ok_0;
    let record = configured(
        accounts,
        stored,
        hodl,
        strategy_program_deposit_instruction_id,
        strategy_program_withdraw_instruction_id,
    );
    let address = control->Some_0.0;
    let effects = initialize_effects(accounts, record, address);
    Vault::lemma_round_trip(record);
    assert(effects.len() == 3);
    assert(within(handover(accounts, 2, AuthorityKind::AccountOwner, address), accounts.len()));
    if hodl {
        assert(within(handover(accounts, 7, AuthorityKind::AccountOwner, address), accounts.len()));
    } else {
        assert(within(handover(accounts, 3, AuthorityKind::MintTokens, address), accounts.len()));
    }
}

/// Every effect of a deposit or a withdrawal is a call within the accounts.
proof fn lemma_transfer_writes_nothing(
    accounts: Seq<Account>,
    amount: u64,
    is_deposit: bool,
    control: Option<(Address, u8)>,
    k: int,
)
    requires
        spec_transfer_plan(accounts, amount, is_deposit, control) matches Ok(effects) && 0 <= k
            < effects.len(),
    ensures
        spec_transfer_plan(accounts, amount, is_deposit, control)->Ok_0[k] is Invoke,
        within(spec_transfer_plan(accounts, amount, is_deposit, control)->Ok_0[k], accounts.len()),
{
    let effects = custody_transfer(accounts, amount, is_deposit, control)->Ok_0;
    assert(effects.len() == 1);
    let invocation = effects[0]->Invoke_0;
    assert(invocation.accounts.len() == 4);
}

/// A vault record is written once. Whatever instruction of the vault program
/// succeeds, every effect stays within the accounts it was handed, and it
/// stores nothing but an initialized vault record into the storage at
/// position 1, which held a record that was not initialized. A configured
/// vault is never written again.
pub proof fn lemma_vault_is_written_once(
    accounts: Seq<Account>,
    instruction_data: Seq<u8>,
    control: Option<(Address, u8)>,
    k: int,
)
    requires
        spec_process(accounts, instruction_data, control) is Ok,
        0 <= k < spec_process(accounts, instruction_data, control)->Ok_0.len(),
    ensures
        writes_once(spec_process(accounts, instruction_data, control)->Ok_0[k], accounts),
{
    match VaultInstruction::spec_unpack(instruction_data)->Ok_0 {
        VaultInstruction::InitializeVault {
            strategy_program_deposit_instruction_id,
            strategy_program_withdraw_instruction_id,
            hodl,
        } => {
            lemma_configuring_writes_once(
                accounts,
                hodl,
                strategy_program_deposit_instruction_id,
                strategy_program_withdraw_instruction_id,
                control,
                k,
            );
        },
        VaultInstruction::Deposit { amount } => {
            lemma_transfer_writes_nothing(accounts, amount, true, control, k);
        },
        VaultInstruction::Withdraw { amount } => {
            lemma_transfer_writes_nothing(accounts, amount, false, control, k);
        },
    }
}

/// No record is written unless the whole instruction succeeds. Whatever
/// instruction of the vault program succeeds, it stores nothing before its
/// last effect: every call of another program comes before the store, so a
/// call that fails at the ledger ends the instruction with nothing stored.
pub proof fn lemma_vault_stores_last(
    accounts: Seq<Account>,
    instruction_data: Seq<u8>,
    control: Option<(Address, u8)>,
    k: int,
)
    requires
        spec_process(accounts, instruction_data, control) is Ok,
        0 <= k < spec_process(accounts, instruction_data, control)->Ok_0.len(),
        spec_process(accounts, instruction_data, control)->Ok_0[k] is Store,
    ensures
        k == spec_process(accounts, instruction_data, control)->Ok_0.len() - 1,
{
    match VaultInstruction::spec_unpack(instruction_data)->Ok_0 {
        VaultInstruction::InitializeVault { .. } => {},
        VaultInstruction::Deposit { amount } => {
            lemma_transfer_writes_nothing(accounts, amount, true, control, k);
        },
        VaultInstruction::Withdraw { amount } => {
            lemma_transfer_writes_nothing(accounts, amount, false, control, k);
        },
    }
}

/// Tokens move to and from the direct-custody account of the vault's record
/// and no other. A deposit or a withdrawal that is handed another account in
/// its place is an invalid argument, and so has no effect. Where one
/// succeeds with an effect, that effect is one call of the token program: a
/// deposit into the record's direct-custody account, or a withdrawal out of
/// it.
pub proof fn lemma_transfer_moves_custody_only(
    accounts: Seq<Account>,
    amount: u64,
    is_deposit: bool,
    control: Option<(Address, u8)>,
)
    requires
        accounts.len() >= 6,
        Vault::spec_unpack(accounts[4].data@) is Ok,
        Vault::spec_unpack(accounts[4].data@)->Ok_0.is_initialized,
        Vault::spec_unpack(accounts[4].data@)->Ok_0.hodl,
    ensures
        Vault::spec_unpack(accounts[4].data@)->Ok_0.x_token_account != Some(accounts[5].key)
            ==> spec_transfer_plan(accounts, amount, is_deposit, control) == Err::<
            Seq<EffectView>,
            ProgramFault,
        >(ProgramFault::InvalidArgument),
        spec_transfer_plan(accounts, amount, is_deposit, control) matches Ok(effects) ==> {
            &&& Vault::spec_unpack(accounts[4].data@)->Ok_0.x_token_account matches Some(custody)
            &&& effects.len() == 1
            &&& effects[0] matches EffectView::Invoke(invocation)
            &&& invocation.instruction.program_id == token_program_address()
            &&& invocation.instruction.accounts.len() == 4
            &&& is_deposit ==> invocation.instruction.accounts[0].pubkey == accounts[1].key
                && invocation.instruction.accounts[1].pubkey == custody
            &&& !is_deposit ==> invocation.instruction.accounts[0].pubkey == custody
                && invocation.instruction.accounts[1].pubkey == accounts[2].key
        },
{
}

/// A deposit or a withdrawal on storage that holds a vault record that was
/// never configured fails as an invalid instruction, and so has no effect.
pub proof fn lemma_transfer_needs_configured_vault(
    accounts: Seq<Account>,
    amount: u64,
    is_deposit: bool,
    control: Option<(Address, u8)>,
)
    requires
        accounts.len() >= 5,
        Vault::spec_unpack(accounts[4].data@) is Ok,
        !Vault::spec_unpack(accounts[4].data@)->Ok_0.is_initialized,
    ensures
        spec_transfer_plan(accounts, amount, is_deposit, control) == Err::<
            Seq<EffectView>,
            ProgramFault,
        >(ProgramFault::of(VaultError::InvalidInstruction)),
        spec_process(
            accounts,
            (if is_deposit {
                VaultInstruction::Deposit { amount }
            } else {
                VaultInstruction::Withdraw { amount }
            }).spec_pack(),
            control,
        ) == Err::<Seq<EffectView>, ProgramFault>(ProgramFault::of(VaultError::InvalidInstruction)),
{
    if is_deposit {
        VaultInstruction::lemma_round_trip(VaultInstruction::Deposit { amount });
    } else {
        VaultInstruction::lemma_round_trip(VaultInstruction::Withdraw { amount });
    }
}

/// The three positions that an invocation hands along.
fn positions3(a: usize, b: usize, c: usize) -> (r: Vec<usize>)
    ensures
        r@ == seq![a, b, c],
{
    let mut v: Vec<usize> = Vec::new();
    v.push(a);
    v.push(b);
    v.push(c);
    assert(v@ =~= seq![a, b, c]);
    v
}

/// The four positions that an invocation hands along.
fn positions4(a: usize, b: usize, c: usize, d: usize) -> (r: Vec<usize>)
    ensures
        r@ == seq![a, b, c, d],
{
    let mut v: Vec<usize> = Vec::new();
    v.push(a);
    v.push(b);
    v.push(c);
    v.push(d);
    assert(v@ =~= seq![a, b, c, d]);
    v
}

/// Processes the instructions of the vault program.
pub struct Processor;

impl Processor {
    /// Builds the call that hands the authority `kind` over the account at
    /// position `owned` to the control address.
    fn hand_over(accounts: &[Account], owned: usize, kind: AuthorityKind, control: &Address) -> (r:
        Result<Effect, ProgramFault>)
        requires
            accounts@.len() > 4,
            owned < accounts@.len(),
        ensures
            accounts@[4].key == token_program_address() ==> r is Ok && r->Ok_0@ == handover(
                accounts@,
                owned,
                kind,
                *control,
            ),
            accounts@[4].key != token_program_address() ==> r == Err::<Effect, ProgramFault>(
                ProgramFault::IncorrectProgramId,
            ),
    {
        match set_authority(&accounts[4].key, &accounts[owned].key, control, kind, &accounts[0].key) {
            Ok(instruction) => Ok(
                Effect::Invoke(
                    Invocation { instruction, accounts: positions3(owned, 0, 4), bump_seed: None },
                ),
            ),
            Err(e) => Err(e),
        }
    }

    /// Configures a vault in the storage of the second account, given the
    /// control address of the program.
    pub fn process_initialize_vault(
        accounts: &[Account],
        hodl: bool,
        strategy_program_deposit_instruction_id: u8,
        strategy_program_withdraw_instruction_id: u8,
        control: Option<(Address, u8)>,
    ) -> (r: Result<Vec<Effect>, ProgramFault>)
        ensures
            plan(r) == spec_initialize_vault(
                accounts@,
                hodl,
                strategy_program_deposit_instruction_id,
                strategy_program_withdraw_instruction_id,
                control,
            ),
    {
        at_least(accounts, 1)?;
        signer_required(&accounts[0])?;
        at_least(accounts, 7)?;
        if accounts[RENT_SYSVAR_POSITION].key != rent_sysvar_id()
            || accounts[1].rent_exempt_minimum.is_none() {
            return Err(ProgramFault::InvalidArgument);
        }
        let token_program = crate::token::id();
        owned_by(&accounts[2], &token_program)?;
        owned_by(&accounts[3], &token_program)?;
        rent_exempt(&accounts[1])?;
        let stored = Vault::unpack_from_slice(accounts[1].data.as_slice())?;
        not_already_initialized(stored.is_initialized())?;
        if hodl {
            at_least(accounts, 8)?;
        } else if accounts.len() > 7 {
            return Err(ProgramFault::InvalidArgument);
        }
        let address = match control {
            Some((address, _)) => address,
            None => {
                return Err(ProgramFault::InvalidSeeds);
            },
        };
        let record = Vault {
            is_initialized: true,
            hodl,
            llx_token_mint_id: accounts[3].key,
            lx_token_account: accounts[2].key,
            x_token_account: if hodl {
                Some(accounts[7].key)
            } else {
                None
            },
            strategy_program_id: accounts[5].key,
            strategy_program_deposit_instruction_id,
            strategy_program_withdraw_instruction_id,
            strategy_data_account: stored.strategy_data_account,
        };
        let ghost expected = initialize_effects(accounts@, record, address);
        let mut effects: Vec<Effect> = Vec::new();
        if hodl {
            let custody = Self::hand_over(accounts, 7, AuthorityKind::AccountOwner, &address)?;
            effects.push(custody);
        }
        let derivative = Self::hand_over(accounts, 2, AuthorityKind::AccountOwner, &address)?;
        effects.push(derivative);
        if !hodl {
            let mint = Self::hand_over(accounts, 3, AuthorityKind::MintTokens, &address)?;
            effects.push(mint);
        }
        effects.push(Effect::Store { account: 1, data: record.pack() });
        assert(effects@.map_values(|e: Effect| e@) =~= expected);
        Ok(effects)
    }

    /// Builds the call that moves the tokens of a deposit or a withdrawal
    /// in hodl mode.
    fn move_tokens(
        accounts: &[Account],
        amount: u64,
        is_deposit: bool,
        control: Option<(Address, u8)>,
    ) -> (r: Result<Effect, ProgramFault>)
        requires
            accounts@.len() >= 6,
        ensures
            custody_transfer(accounts@, amount, is_deposit, control) == (match r {
                Ok(effect) => Ok::<Seq<EffectView>, ProgramFault>(seq![effect@]),
                Err(e) => Err::<Seq<EffectView>, ProgramFault>(e),
            }),
    {
        if is_deposit {
            let instruction = transfer(
                &accounts[0].key,
                &accounts[1].key,
                &accounts[5].key,
                &accounts[3].key,
                amount,
            )?;
            Ok(
                Effect::Invoke(
                    Invocation { instruction, accounts: positions4(1, 5, 3, 0), bump_seed: None },
                ),
            )
        } else {
            let (address, bump) = match control {
                Some(found) => found,
                None => {
                    return Err(ProgramFault::InvalidSeeds);
                },
            };
            let instruction = transfer(
                &accounts[0].key,
                &accounts[5].key,
                &accounts[2].key,
                &address,
                amount,
            )?;
            Ok(
                Effect::Invoke(
                    Invocation {
                        instruction,
                        accounts: positions4(5, 2, 3, 0),
                        bump_seed: Some(bump),
                    },
                ),
            )
        }
    }

    /// Carries out a deposit or a withdrawal on the vault in the storage of
    /// the fifth account, given the control address of the program.
    pub fn process_transfer(
        accounts: &[Account],
        amount: u64,
        is_deposit: bool,
        control: Option<(Address, u8)>,
    ) -> (r: Result<Vec<Effect>, ProgramFault>)
        ensures
            plan(r) == spec_transfer_plan(accounts@, amount, is_deposit, control),
    {
        at_least(accounts, 5)?;
        let stored = Vault::unpack_from_slice(accounts[4].data.as_slice())?;
        if !stored.is_initialized() {
            return Err(ProgramFault::from(VaultError::InvalidInstruction));
        }
        let mut effects: Vec<Effect> = Vec::new();
        if stored.hodl {
            at_least(accounts, 6)?;
            match stored.x_token_account {
                Some(custody) => {
                    if custody != accounts[5].key {
                        return Err(ProgramFault::InvalidArgument);
                    }
                },
                None => {
                    return Err(ProgramFault::InvalidArgument);
                },
            }
            let effect = Self::move_tokens(accounts, amount, is_deposit, control)?;
            effects.push(effect);
            assert(effects@.map_values(|e: Effect| e@) =~= seq![effect@]);
        } else {
            assert(effects@.map_values(|e: Effect| e@) =~= Seq::<EffectView>::empty());
        }
        Ok(effects)
    }

    /// Processes one instruction of the vault program on the accounts it is
    /// handed. Nothing is changed here: the effects returned are for the
    /// ledger to carry out in order.
    pub fn process(program_id: &Address, accounts: &[Account], instruction_data: &[u8]) -> (r: Result<
        Vec<Effect>,
        ProgramFault,
    >)
        ensures
            plan(r) == spec_process(accounts@, instruction_data@, spec_control_address(*program_id)),
    {
        let instruction = VaultInstruction::unpack(instruction_data)?;
        let control = control_address(program_id);
        match instruction {
            VaultInstruction::InitializeVault {
                hodl,
                strategy_program_deposit_instruction_id,
                strategy_program_withdraw_instruction_id,
            } => Self::process_initialize_vault(
                accounts,
                hodl,
                strategy_program_deposit_instruction_id,
                strategy_program_withdraw_instruction_id,
                control,
            ),
            VaultInstruction::Deposit { amount } => Self::process_transfer(
                accounts,
                amount,
                true,
                control,
            ),
            VaultInstruction::Withdraw { amount } => Self::process_transfer(
                accounts,
                amount,
                false,
                control,
            ),
        }
    }
}

} // verus!
