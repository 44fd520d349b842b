use crate::address::Address;
use crate::codec::{append_u64_le, bool_byte, lemma_u64_le_round_trip, pack_bool, read_u64_le, u64_from_le, u64_to_le};
use crate::error::{ProgramFault, VaultError};
use crate::ledger::{rent_sysvar_address, rent_sysvar_id};
use vstd::prelude::*;

verus! {

/// One account that an instruction names, with what the instruction may do
/// with it.
#[derive(Clone, Copy, Debug, PartialEq)]
pub struct AccountMeta {
    pub pubkey: Address,
    pub is_signer: bool,
    pub is_writable: bool,
}

/// A call of a program: the program, the accounts it is handed in order, and
/// the payload.
#[derive(Clone, Debug, PartialEq)]
pub struct Instruction {
    pub program_id: Address,
    pub accounts: Vec<AccountMeta>,
    pub data: Vec<u8>,
}

/// An instruction as a mathematical value.
pub struct InstructionView {
    pub program_id: Address,
    pub accounts: Seq<AccountMeta>,
    pub data: Seq<u8>,
}

impl View for Instruction {
    type V = InstructionView;

    open spec fn view(&self) -> InstructionView {
        InstructionView { program_id: self.program_id, accounts: self.accounts@, data: self.data@ }
    }
}

/// An account that the instruction may write.
pub open spec fn writable(pubkey: Address, is_signer: bool) -> AccountMeta {
    AccountMeta { pubkey, is_signer, is_writable: true }
}

/// An account that the instruction may only read.
pub open spec fn readonly(pubkey: Address, is_signer: bool) -> AccountMeta {
    AccountMeta { pubkey, is_signer, is_writable: false }
}

impl AccountMeta {
    /// An account that the instruction may write.
    pub fn new(pubkey: Address, is_signer: bool) -> (r: AccountMeta)
        ensures
            r == writable(pubkey, is_signer),
    {
        AccountMeta { pubkey, is_signer, is_writable: true }
    }

    /// An account that the instruction may only read.
    pub fn new_readonly(pubkey: Address, is_signer: bool) -> (r: AccountMeta)
        ensures
            r == readonly(pubkey, is_signer),
    {
        AccountMeta { pubkey, is_signer, is_writable: false }
    }
}

/// Instructions of the vault program.
#[derive(Clone, Copy, Debug, PartialEq, Eq, Structural)]
pub enum VaultInstruction {
    /// Configures a vault in its storage slot.
    ///
    /// Accounts expected:
    /// `[signer]` initializer of the lX token account
    /// `[writable]` vault storage account
    /// `[]` lX token account
    /// `[]` llX token mint
    /// `[]` the token program
    /// `[]` the strategy program
    /// `[]` the rent sysvar
    /// `[]` (hodl mode only) X token account
    InitializeVault {
        strategy_program_deposit_instruction_id: u8,
        strategy_program_withdraw_instruction_id: u8,
        hodl: bool,
    },
    /// Deposits an amount of the underlying token into the vault.
    Deposit { amount: u64 },
    /// Withdraws an amount of the underlying token from the vault.
    Withdraw { amount: u64 },
}

/// Instructions that a strategy program understands.
#[derive(Clone, Copy, Debug, PartialEq, Eq, Structural)]
pub enum StrategyInstruction {
    /// Deposits an amount of the underlying token into the strategy.
    Deposit { amount: u64 },
    /// Withdraws an amount of the derivative token from the strategy.
    Withdraw { amount: u64 },
}

/// The failure of every instruction that cannot be decoded.
pub open spec fn invalid_instruction() -> ProgramFault {
    ProgramFault::of(VaultError::InvalidInstruction)
}

/// The default accounts of a transfer: the token program read-only, source
/// and target writable, then the accounts that the caller adds.
pub open spec fn transfer_accounts(
    token_program_id: Address,
    source: Address,
    target: Address,
    additional: Seq<AccountMeta>,
) -> Seq<AccountMeta> {
    seq![readonly(token_program_id, false), writable(source, false), writable(target, false)]
        + additional
}

/// Builds the instruction of program `vault_program_id` that carries `data`
/// over the accounts of a transfer.
pub fn create_transfer(
    data: Vec<u8>,
    vault_program_id: &Address,
    token_program_id: &Address,
    source_pubkey: &Address,
    target_pubkey: &Address,
    additional_account_metas: Vec<AccountMeta>,
) -> (r: Result<Instruction, ProgramFault>)
    ensures
        r is Ok,
        r->Ok_0@ == (InstructionView {
            program_id: *vault_program_id,
            accounts: transfer_accounts(
                *token_program_id,
                *source_pubkey,
                *target_pubkey,
                additional_account_metas@,
            ),
            data: data@,
        }),
{
    let mut additional = additional_account_metas;
    let mut accounts: Vec<AccountMeta> = Vec::new();
    accounts.push(AccountMeta::new_readonly(*token_program_id, false));
    accounts.push(AccountMeta::new(*source_pubkey, false));
    accounts.push(AccountMeta::new(*target_pubkey, false));
    accounts.append(&mut additional);
    assert(accounts@ =~= transfer_accounts(
        *token_program_id,
        *source_pubkey,
        *target_pubkey,
        additional_account_metas@,
    ));
    Ok(Instruction { program_id: *vault_program_id, accounts, data })
}

impl StrategyInstruction {
    /// The bytes of the instruction: tag 1 for a deposit, 2 for a withdrawal,
    /// then the amount in eight little-endian bytes.
    pub open spec fn spec_pack(self) -> Seq<u8> {
        match self {
            StrategyInstruction::Deposit { amount } => seq![1u8] + u64_to_le(amount),
            StrategyInstruction::Withdraw { amount } => seq![2u8] + u64_to_le(amount),
        }
    }

    /// The instruction that a byte string holds. Bytes after the amount are
    /// not read. An empty string, an unknown tag and a cut-off amount are an
    /// invalid instruction.
    pub open spec fn spec_unpack(input: Seq<u8>) -> Result<StrategyInstruction, ProgramFault> {
        if input.len() >= 9 && input[0] == 1 {
            Ok(StrategyInstruction::Deposit { amount: u64_from_le(input.subrange(1, 9)) as u64 })
        } else if input.len() >= 9 && input[0] == 2 {
            Ok(StrategyInstruction::Withdraw { amount: u64_from_le(input.subrange(1, 9)) as u64 })
        } else {
            Err(invalid_instruction())
        }
    }

    /// Decoding the bytes of an instruction gives the instruction back.
    pub proof fn lemma_round_trip(i: StrategyInstruction)
        ensures
            StrategyInstruction::spec_unpack(i.spec_pack()) == Ok::<
                StrategyInstruction,
                ProgramFault,
            >(i),
    {
        let amount = match i {
            StrategyInstruction::Deposit { amount } => amount,
            StrategyInstruction::Withdraw { amount } => amount,
        };
        lemma_u64_le_round_trip(amount);
        assert(i.spec_pack().subrange(1, 9) =~= u64_to_le(amount));
    }

    /// Unpacks a byte buffer into a strategy instruction.
    pub fn unpack(input: &[u8]) -> (r: Result<StrategyInstruction, ProgramFault>)
        ensures
            r == StrategyInstruction::spec_unpack(input@),
    {
        if input.len() == 0 {
            return Err(ProgramFault::from(VaultError::InvalidInstruction));
        }
        let tag = input[0];
        if tag == 1 || tag == 2 {
            if input.len() < 9 {
                return Err(ProgramFault::from(VaultError::InvalidInstruction));
            }
            let amount = read_u64_le(input, 1);
            if tag == 1 {
                Ok(StrategyInstruction::Deposit { amount })
            } else {
                Ok(StrategyInstruction::Withdraw { amount })
            }
        } else {
            Err(ProgramFault::from(VaultError::InvalidInstruction))
        }
    }

    /// Packs the instruction into a byte buffer.
    pub fn pack(&self) -> (r: Vec<u8>)
        ensures
            r@ == self.spec_pack(),
    {
        let mut buf: Vec<u8> = Vec::new();
        match *self {
            StrategyInstruction::Deposit { amount } => {
                buf.push(1);
                append_u64_le(amount, &mut buf);
            },
            StrategyInstruction::Withdraw { amount } => {
                buf.push(2);
                append_u64_le(amount, &mut buf);
            },
        }
        buf
    }

    /// Builds the instruction that deposits `amount` into the strategy.
    pub fn deposit(
        program_id: &Address,
        token_program_id: &Address,
        source_pubkey: &Address,
        target_pubkey: &Address,
        additional_account_metas: Vec<AccountMeta>,
        amount: u64,
    ) -> (r: Result<Instruction, ProgramFault>)
        ensures
            r is Ok,
            r->Ok_0@ == (InstructionView {
                program_id: *program_id,
                accounts: transfer_accounts(
                    *token_program_id,
                    *source_pubkey,
                    *target_pubkey,
                    additional_account_metas@,
                ),
                data: (StrategyInstruction::Deposit { amount }).spec_pack(),
            }),
    {
        create_transfer(
            (StrategyInstruction::Deposit { amount }).pack(),
            program_id,
            token_program_id,
            source_pubkey,
            target_pubkey,
            additional_account_metas,
        )
    }

    /// Builds the instruction that withdraws `amount` from the strategy.
    pub fn withdraw(
        program_id: &Address,
        token_program_id: &Address,
        source_pubkey: &Address,
        target_pubkey: &Address,
        additional_account_metas: Vec<AccountMeta>,
        amount: u64,
    ) -> (r: Result<Instruction, ProgramFault>)
        ensures
            r is Ok,
            r->Ok_0@ == (InstructionView {
                program_id: *program_id,
                accounts: transfer_accounts(
                    *token_program_id,
                    *source_pubkey,
                    *target_pubkey,
                    additional_account_metas@,
                ),
                data: (StrategyInstruction::Withdraw { amount }).spec_pack(),
            }),
    {
        create_transfer(
            (StrategyInstruction::Withdraw { amount }).pack(),
            program_id,
            token_program_id,
            source_pubkey,
            target_pubkey,
            additional_account_metas,
        )
    }
}

impl VaultInstruction {
    /// The bytes of the instruction: tag 0 with the hodl flag and the two
    /// strategy opcodes, or tag 1 (deposit) or 2 (withdraw) with the amount
    /// in eight little-endian bytes.
    pub open spec fn spec_pack(self) -> Seq<u8> {
        match self {
            VaultInstruction::InitializeVault {
                strategy_program_deposit_instruction_id,
                strategy_program_withdraw_instruction_id,
                hodl,
            } => seq![
                0u8,
                bool_byte(hodl),
                strategy_program_deposit_instruction_id,
                strategy_program_withdraw_instruction_id,
            ],
            VaultInstruction::Deposit { amount } => seq![1u8] + u64_to_le(amount),
            VaultInstruction::Withdraw { amount } => seq![2u8] + u64_to_le(amount),
        }
    }

    /// The instruction that a byte string holds. Bytes after the arguments
    /// are not read; the hodl flag is set by the byte 1 alone. An empty
    /// string, an unknown tag and cut-off arguments are an invalid
    /// instruction.
    pub open spec fn spec_unpack(input: Seq<u8>) -> Result<VaultInstruction, ProgramFault> {
        if input.len() >= 4 && input[0] == 0 {
            Ok(
                VaultInstruction::InitializeVault {
                    strategy_program_deposit_instruction_id: input[2],
                    strategy_program_withdraw_instruction_id: input[3],
                    hodl: input[1] == 1,
                },
            )
        } else if input.len() >= 9 && input[0] == 1 {
            Ok(VaultInstruction::Deposit { amount: u64_from_le(input.subrange(1, 9)) as u64 })
        } else if input.len() >= 9 && input[0] == 2 {
            Ok(VaultInstruction::Withdraw { amount: u64_from_le(input.subrange(1, 9)) as u64 })
        } else {
            Err(invalid_instruction())
        }
    }

    /// Decoding the bytes of an instruction gives the instruction back.
    pub proof fn lemma_round_trip(i: VaultInstruction)
        ensures
            VaultInstruction::spec_unpack(i.spec_pack()) == Ok::<VaultInstruction, ProgramFault>(i),
    {
        match i {
            VaultInstruction::InitializeVault { .. } => {},
            VaultInstruction::Deposit { amount } => {
                lemma_u64_le_round_trip(amount);
                assert(i.spec_pack().subrange(1, 9) =~= u64_to_le(amount));
            },
            VaultInstruction::Withdraw { amount } => {
                lemma_u64_le_round_trip(amount);
                assert(i.spec_pack().subrange(1, 9) =~= u64_to_le(amount));
            },
        }
    }

    /// Unpacks a byte buffer into a vault instruction.
    pub fn unpack(input: &[u8]) -> (r: Result<VaultInstruction, ProgramFault>)
        ensures
            r == VaultInstruction::spec_unpack(input@),
    {
        if input.len() == 0 {
            return Err(ProgramFault::from(VaultError::InvalidInstruction));
        }
        let tag = input[0];
        if tag == 0 {
            if input.len() < 4 {
                return Err(ProgramFault::from(VaultError::InvalidInstruction));
            }
            let hodl = input[1];
            Ok(
                VaultInstruction::InitializeVault {
                    hodl: hodl == 1,
                    strategy_program_deposit_instruction_id: input[2],
                    strategy_program_withdraw_instruction_id: input[3],
                },
            )
        } else if tag == 1 || tag == 2 {
            if input.len() < 9 {
                return Err(ProgramFault::from(VaultError::InvalidInstruction));
            }
            let amount = read_u64_le(input, 1);
            if tag == 1 {
                Ok(VaultInstruction::Deposit { amount })
            } else {
                Ok(VaultInstruction::Withdraw { amount })
            }
        } else {
            Err(ProgramFault::from(VaultError::InvalidInstruction))
        }
    }

    /// Packs the instruction into a byte buffer.
    pub fn pack(&self) -> (r: Vec<u8>)
        ensures
            r@ == self.spec_pack(),
    {
        let mut buf: Vec<u8> = Vec::new();
        match *self {
            VaultInstruction::InitializeVault {
                hodl,
                strategy_program_deposit_instruction_id,
                strategy_program_withdraw_instruction_id,
            } => {
                buf.push(0);
                buf.push(pack_bool(hodl));
                buf.push(strategy_program_deposit_instruction_id);
                buf.push(strategy_program_withdraw_instruction_id);
                assert(buf@ =~= self.spec_pack());
            },
            VaultInstruction::Deposit { amount } => {
                buf.push(1);
                append_u64_le(amount, &mut buf);
            },
            VaultInstruction::Withdraw { amount } => {
                buf.push(2);
                append_u64_le(amount, &mut buf);
            },
        }
        buf
    }

    /// The accounts of the instruction that configures a vault.
    pub open spec fn initialize_accounts(
        initializer: Address,
        vault_storage_account: Address,
        lx_token_account: Address,
        llx_token_mint_id: Address,
        token_program: Address,
        strategy_program: Address,
        x_token_account: Option<Address>,
    ) -> Seq<AccountMeta> {
        let fixed = seq![
            readonly(initializer, true),
            writable(vault_storage_account, false),
            readonly(lx_token_account, false),
            readonly(llx_token_mint_id, false),
            readonly(token_program, false),
            readonly(strategy_program, false),
            readonly(rent_sysvar_address(), false),
        ];
        match x_token_account {
            Some(x) => fixed.push(readonly(x, false)),
            None => fixed,
        }
    }

    /// Builds the instruction that configures a vault. A hodl vault names its
    /// direct-custody account, another vault names none.
    pub fn initialize_vault(
        vault_program_id: &Address,
        initializer: &Address,
        vault_storage_account: &Address,
        lx_token_account: &Address,
        llx_token_mint_id: &Address,
        token_program: &Address,
        strategy_program: &Address,
        hodl: bool,
        x_token_account: Option<Address>,
        strategy_program_deposit_instruction_id: u8,
        strategy_program_withdraw_instruction_id: u8,
    ) -> (r: Result<Instruction, ProgramFault>)
        requires
            hodl == x_token_account.is_some(),
        ensures
            r is Ok,
            r->Ok_0@ == (InstructionView {
                program_id: *vault_program_id,
                accounts: VaultInstruction::initialize_accounts(
                    *initializer,
                    *vault_storage_account,
                    *lx_token_account,
                    *llx_token_mint_id,
                    *token_program,
                    *strategy_program,
                    x_token_account,
                ),
                data: (VaultInstruction::InitializeVault {
                    strategy_program_deposit_instruction_id,
                    strategy_program_withdraw_instruction_id,
                    hodl,
                }).spec_pack(),
            }),
    {
        let mut accounts: Vec<AccountMeta> = Vec::new();
        accounts.push(AccountMeta::new_readonly(*initializer, true));
        accounts.push(AccountMeta::new(*vault_storage_account, false));
        accounts.push(AccountMeta::new_readonly(*lx_token_account, false));
        accounts.push(AccountMeta::new_readonly(*llx_token_mint_id, false));
        accounts.push(AccountMeta::new_readonly(*token_program, false));
        accounts.push(AccountMeta::new_readonly(*strategy_program, false));
        accounts.push(AccountMeta::new_readonly(rent_sysvar_id(), false));
        match x_token_account {
            Some(x) => {
                accounts.push(AccountMeta::new_readonly(x, false));
            },
            None => {},
        }
        let data = (VaultInstruction::InitializeVault {
            hodl,
            strategy_program_deposit_instruction_id,
            strategy_program_withdraw_instruction_id,
        }).pack();
        assert(accounts@ =~= VaultInstruction::initialize_accounts(
            *initializer,
            *vault_storage_account,
            *lx_token_account,
            *llx_token_mint_id,
            *token_program,
            *strategy_program,
            x_token_account,
        ));
        Ok(Instruction { program_id: *vault_program_id, accounts, data })
    }

    /// Builds the instruction that deposits `amount` into the vault.
    pub fn deposit(
        vault_program_id: &Address,
        token_program_id: &Address,
        source_pubkey: &Address,
        target_pubkey: &Address,
        additional_account_metas: Vec<AccountMeta>,
        amount: u64,
    ) -> (r: Result<Instruction, ProgramFault>)
        ensures
            r is Ok,
            r->Ok_0@ == (InstructionView {
                program_id: *vault_program_id,
                accounts: transfer_accounts(
                    *token_program_id,
                    *source_pubkey,
                    *target_pubkey,
                    additional_account_metas@,
                ),
                data: (VaultInstruction::Deposit { amount }).spec_pack(),
            }),
    {
        create_transfer(
            (VaultInstruction::Deposit { amount }).pack(),
            vault_program_id,
            token_program_id,
            source_pubkey,
            target_pubkey,
            additional_account_metas,
        )
    }

    /// Builds the instruction that withdraws `amount` from the vault.
    pub fn withdraw(
        vault_program_id: &Address,
        token_program_id: &Address,
        source_pubkey: &Address,
        target_pubkey: &Address,
        additional_account_metas: Vec<AccountMeta>,
        amount: u64,
    ) -> (r: Result<Instruction, ProgramFault>)
        ensures
            r is Ok,
            r->Ok_0@ == (InstructionView {
                program_id: *vault_program_id,
                accounts: transfer_accounts(
                    *token_program_id,
                    *source_pubkey,
                    *target_pubkey,
                    additional_account_metas@,
                ),
                data: (VaultInstruction::Withdraw { amount }).spec_pack(),
            }),
    {
        create_transfer(
            (VaultInstruction::Withdraw { amount }).pack(),
            vault_program_id,
            token_program_id,
            source_pubkey,
            target_pubkey,
            additional_account_metas,
        )
    }
}

/// Instructions of the escrow program.
#[derive(Clone, Copy, Debug, PartialEq, Eq, Structural)]
pub enum EscrowInstruction {
    /// Opens an escrow that expects `amount` in return.
    InitEscrow { amount: u64 },
}

impl EscrowInstruction {
    /// The bytes of the instruction: tag 0, then the amount in eight
    /// little-endian bytes.
    pub open spec fn spec_pack(self) -> Seq<u8> {
        match self {
            EscrowInstruction::InitEscrow { amount } => seq![0u8] + u64_to_le(amount),
        }
    }

    /// The instruction that a byte string holds. Bytes after the amount are
    /// not read. An empty string, an unknown tag and a cut-off amount are an
    /// invalid instruction.
    pub open spec fn spec_unpack(input: Seq<u8>) -> Result<EscrowInstruction, ProgramFault> {
        if input.len() >= 9 && input[0] == 0 {
            Ok(EscrowInstruction::InitEscrow { amount: u64_from_le(input.subrange(1, 9)) as u64 })
        } else {
            Err(invalid_instruction())
        }
    }

    /// Decoding the bytes of an instruction gives the instruction back.
    pub proof fn lemma_round_trip(i: EscrowInstruction)
        ensures
            EscrowInstruction::spec_unpack(i.spec_pack()) == Ok::<EscrowInstruction, ProgramFault>(i),
    {
        let amount = match i {
            EscrowInstruction::InitEscrow { amount } => amount,
        };
        lemma_u64_le_round_trip(amount);
        assert(i.spec_pack().subrange(1, 9) =~= u64_to_le(amount));
    }

    /// Unpacks a byte buffer into an escrow instruction.
    pub fn unpack(input: &[u8]) -> (r: Result<EscrowInstruction, ProgramFault>)
        ensures
            r == EscrowInstruction::spec_unpack(input@),
    {
        if input.len() >= 9 && input[0] == 0 {
            Ok(EscrowInstruction::InitEscrow { amount: read_u64_le(input, 1) })
        } else {
            Err(ProgramFault::from(VaultError::InvalidInstruction))
        }
    }

    /// Packs the instruction into a byte buffer.
    pub fn pack(&self) -> (r: Vec<u8>)
        ensures
            r@ == self.spec_pack(),
    {
        let mut buf: Vec<u8> = Vec::new();
        match *self {
            EscrowInstruction::InitEscrow { amount } => {
                buf.push(0);
                append_u64_le(amount, &mut buf);
            },
        }
        buf
    }
}

} // verus!
