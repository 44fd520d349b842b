use vault::address::Address;
use vault::claim::ClaimInstruction;
use vault::error::ProgramFault;
use vault::instruction::{
    create_transfer, AccountMeta, EscrowInstruction, Instruction, StrategyInstruction, VaultInstruction,
};

fn addr(n: u8) -> Address {
    Address { bytes: [n; 32] }
}

const INVALID: ProgramFault = ProgramFault::Custom(0);

const RENT_SYSVAR: [u8; 32] = [
    6, 167, 213, 23, 25, 44, 92, 81, 33, 140, 201, 76, 61, 74, 241, 127, 88, 218, 238, 8, 155, 161,
    253, 68, 227, 219, 217, 138, 0, 0, 0, 0,
];

#[test]
fn vault_instruction_unpack() {
    assert_eq!(
        VaultInstruction::unpack(&[0, 1, 7, 9]),
        Ok(VaultInstruction::InitializeVault {
            hodl: true,
            strategy_program_deposit_instruction_id: 7,
            strategy_program_withdraw_instruction_id: 9,
        })
    );
    assert_eq!(
        VaultInstruction::unpack(&[0, 0, 1, 2, 0xff]),
        Ok(VaultInstruction::InitializeVault {
            hodl: false,
            strategy_program_deposit_instruction_id: 1,
            strategy_program_withdraw_instruction_id: 2,
        })
    );
    // Only the byte 1 sets the hodl flag.
    assert_eq!(
        VaultInstruction::unpack(&[0, 2, 1, 2]),
        Ok(VaultInstruction::InitializeVault {
            hodl: false,
            strategy_program_deposit_instruction_id: 1,
            strategy_program_withdraw_instruction_id: 2,
        })
    );
    assert_eq!(
        VaultInstruction::unpack(&[1, 100, 0, 0, 0, 0, 0, 0, 0]),
        Ok(VaultInstruction::Deposit { amount: 100 })
    );
    assert_eq!(
        VaultInstruction::unpack(&[2, 0xe8, 3, 0, 0, 0, 0, 0, 0, 42]),
        Ok(VaultInstruction::Withdraw { amount: 1000 })
    );
}

#[test]
fn vault_instruction_unpack_rejects() {
    assert_eq!(VaultInstruction::unpack(&[]), Err(INVALID));
    assert_eq!(VaultInstruction::unpack(&[0]), Err(INVALID));
    assert_eq!(VaultInstruction::unpack(&[0, 1, 2]), Err(INVALID));
    assert_eq!(VaultInstruction::unpack(&[1, 0, 0, 0, 0, 0, 0, 0]), Err(INVALID));
    assert_eq!(VaultInstruction::unpack(&[2]), Err(INVALID));
    for tag in [3u8, 4, 5, 6, 255] {
        assert_eq!(VaultInstruction::unpack(&[tag, 0, 0, 0, 0, 0, 0, 0, 0]), Err(INVALID));
    }
}

#[test]
fn vault_instruction_pack_and_round_trip() {
    let init = VaultInstruction::InitializeVault {
        hodl: true,
        strategy_program_deposit_instruction_id: 1,
        strategy_program_withdraw_instruction_id: 2,
    };
    assert_eq!(init.pack(), vec![0, 1, 1, 2]);
    assert_eq!(VaultInstruction::Deposit { amount: 100 }.pack(), vec![1, 100, 0, 0, 0, 0, 0, 0, 0]);
    assert_eq!(
        VaultInstruction::Withdraw { amount: 0x0102 }.pack(),
        vec![2, 2, 1, 0, 0, 0, 0, 0, 0]
    );
    for i in [
        init,
        VaultInstruction::InitializeVault {
            hodl: false,
            strategy_program_deposit_instruction_id: 255,
            strategy_program_withdraw_instruction_id: 0,
        },
        VaultInstruction::Deposit { amount: 0 },
        VaultInstruction::Deposit { amount: u64::MAX },
        VaultInstruction::Withdraw { amount: 1 << 40 },
    ] {
        assert_eq!(VaultInstruction::unpack(&i.pack()), Ok(i));
    }
}

#[test]
fn strategy_instruction_codec() {
    assert_eq!(StrategyInstruction::Deposit { amount: 5 }.pack(), vec![1, 5, 0, 0, 0, 0, 0, 0, 0]);
    assert_eq!(StrategyInstruction::Withdraw { amount: 256 }.pack(), vec![2, 0, 1, 0, 0, 0, 0, 0, 0]);
    for i in [
        StrategyInstruction::Deposit { amount: 0 },
        StrategyInstruction::Deposit { amount: u64::MAX },
        StrategyInstruction::Withdraw { amount: 77 },
    ] {
        assert_eq!(StrategyInstruction::unpack(&i.pack()), Ok(i));
    }
    assert_eq!(StrategyInstruction::unpack(&[]), Err(INVALID));
    assert_eq!(StrategyInstruction::unpack(&[0, 0, 0, 0, 0, 0, 0, 0, 0]), Err(INVALID));
    assert_eq!(StrategyInstruction::unpack(&[3, 0, 0, 0, 0, 0, 0, 0, 0]), Err(INVALID));
    assert_eq!(StrategyInstruction::unpack(&[1, 0, 0, 0]), Err(INVALID));
}

#[test]
fn escrow_instruction_codec() {
    assert_eq!(EscrowInstruction::InitEscrow { amount: 100 }.pack(), vec![0, 100, 0, 0, 0, 0, 0, 0, 0]);
    assert_eq!(
        EscrowInstruction::unpack(&[0, 100, 0, 0, 0, 0, 0, 0, 0]),
        Ok(EscrowInstruction::InitEscrow { amount: 100 })
    );
    assert_eq!(EscrowInstruction::unpack(&[]), Err(INVALID));
    assert_eq!(EscrowInstruction::unpack(&[0, 1, 2]), Err(INVALID));
    assert_eq!(EscrowInstruction::unpack(&[1, 0, 0, 0, 0, 0, 0, 0, 0]), Err(INVALID));
}

#[test]
fn claim_instruction_codec() {
    let create = ClaimInstruction::CreateClaimType { check_program_id: addr(3), check_program_instruction_id: 9 };
    let mut expected = vec![0u8];
    expected.extend([3u8; 32]);
    expected.push(9);
    assert_eq!(create.pack(), expected);
    assert_eq!(ClaimInstruction::unpack(&expected), Ok(create));

    let issue = ClaimInstruction::IssueClaim { claim_type_id: addr(4), subject_id: addr(5) };
    let mut expected = vec![1u8];
    expected.extend([4u8; 32]);
    expected.extend([5u8; 32]);
    assert_eq!(issue.pack(), expected);
    assert_eq!(ClaimInstruction::unpack(&expected), Ok(issue));

    let check = ClaimInstruction::CreateSimpleClaimCheck {
        subject_required: vec![addr(6), addr(7)],
        issuer_required: vec![addr(8)],
    };
    let mut expected = vec![2u8, 2];
    expected.extend([6u8; 32]);
    expected.extend([7u8; 32]);
    expected.push(1);
    expected.extend([8u8; 32]);
    assert_eq!(check.pack(), expected);
    assert_eq!(ClaimInstruction::unpack(&expected), Ok(check));

    let empty = ClaimInstruction::CreateSimpleClaimCheck { subject_required: vec![], issuer_required: vec![] };
    assert_eq!(empty.pack(), vec![2, 0, 0]);
    assert_eq!(ClaimInstruction::unpack(&[2, 0, 0]), Ok(empty));

    // Lists longer than a claim check holds are still decoded.
    let long = ClaimInstruction::CreateSimpleClaimCheck {
        subject_required: (0..9).map(addr).collect(),
        issuer_required: vec![],
    };
    assert_eq!(ClaimInstruction::unpack(&long.pack()), Ok(long));

    assert_eq!(ClaimInstruction::ExecuteSimpleClaimCheck.pack(), vec![3]);
    assert_eq!(ClaimInstruction::unpack(&[3]), Ok(ClaimInstruction::ExecuteSimpleClaimCheck));
    assert_eq!(ClaimInstruction::unpack(&[3, 1, 2]), Ok(ClaimInstruction::ExecuteSimpleClaimCheck));
}

#[test]
fn claim_instruction_unpack_rejects() {
    assert_eq!(ClaimInstruction::unpack(&[]), Err(INVALID));
    assert_eq!(ClaimInstruction::unpack(&[4]), Err(INVALID));
    assert_eq!(ClaimInstruction::unpack(&[0; 33]), Err(INVALID));
    assert_eq!(ClaimInstruction::unpack(&[1; 64]), Err(INVALID));
    assert_eq!(ClaimInstruction::unpack(&[2]), Err(INVALID));
    assert_eq!(ClaimInstruction::unpack(&[2, 0]), Err(INVALID));
    // One subject entry announced, but it is cut off.
    let mut cut = vec![2u8, 1];
    cut.extend([6u8; 31]);
    assert_eq!(ClaimInstruction::unpack(&cut), Err(INVALID));
    // The issuer's count is there, its entry is not.
    let mut cut = vec![2u8, 1];
    cut.extend([6u8; 32]);
    cut.push(1);
    assert_eq!(ClaimInstruction::unpack(&cut), Err(INVALID));
}

#[test]
fn account_meta_constructors() {
    assert_eq!(
        AccountMeta::new(addr(1), true),
        AccountMeta { pubkey: addr(1), is_signer: true, is_writable: true }
    );
    assert_eq!(
        AccountMeta::new_readonly(addr(2), false),
        AccountMeta { pubkey: addr(2), is_signer: false, is_writable: false }
    );
}

#[test]
fn create_transfer_lays_out_the_accounts() {
    let extra = vec![AccountMeta::new_readonly(addr(9), true), AccountMeta::new(addr(10), false)];
    let ix = create_transfer(vec![1, 2, 3], &addr(1), &addr(2), &addr(3), &addr(4), extra).unwrap();
    assert_eq!(
        ix,
        Instruction {
            program_id: addr(1),
            accounts: vec![
                AccountMeta::new_readonly(addr(2), false),
                AccountMeta::new(addr(3), false),
                AccountMeta::new(addr(4), false),
                AccountMeta::new_readonly(addr(9), true),
                AccountMeta::new(addr(10), false),
            ],
            data: vec![1, 2, 3],
        }
    );
}

#[test]
fn deposit_and_withdraw_builders() {
    let d = VaultInstruction::deposit(&addr(1), &addr(2), &addr(3), &addr(4), vec![], 100).unwrap();
    assert_eq!(d.program_id, addr(1));
    assert_eq!(d.accounts.len(), 3);
    assert_eq!(d.data, vec![1, 100, 0, 0, 0, 0, 0, 0, 0]);
    let w = VaultInstruction::withdraw(
        &addr(1),
        &addr(2),
        &addr(3),
        &addr(4),
        vec![AccountMeta::new(addr(5), false)],
        100,
    )
    .unwrap();
    assert_eq!(w.accounts.len(), 4);
    assert_eq!(w.accounts[3], AccountMeta::new(addr(5), false));
    assert_eq!(w.data, vec![2, 100, 0, 0, 0, 0, 0, 0, 0]);
    let sd = StrategyInstruction::deposit(&addr(1), &addr(2), &addr(3), &addr(4), vec![], 7).unwrap();
    assert_eq!(sd.data, vec![1, 7, 0, 0, 0, 0, 0, 0, 0]);
    assert_eq!(sd.accounts[0], AccountMeta::new_readonly(addr(2), false));
    let sw = StrategyInstruction::withdraw(&addr(1), &addr(2), &addr(3), &addr(4), vec![], 7).unwrap();
    assert_eq!(sw.data, vec![2, 7, 0, 0, 0, 0, 0, 0, 0]);
    assert_eq!(sw.accounts[1], AccountMeta::new(addr(3), false));
}

#[test]
fn initialize_vault_builder() {
    let ix = VaultInstruction::initialize_vault(
        &addr(1),
        &addr(2),
        &addr(3),
        &addr(4),
        &addr(5),
        &addr(6),
        &addr(7),
        true,
        Some(addr(8)),
        1,
        2,
    )
    .unwrap();
    assert_eq!(
        ix,
        Instruction {
            program_id: addr(1),
            accounts: vec![
                AccountMeta::new_readonly(addr(2), true),
                AccountMeta::new(addr(3), false),
                AccountMeta::new_readonly(addr(4), false),
                AccountMeta::new_readonly(addr(5), false),
                AccountMeta::new_readonly(addr(6), false),
                AccountMeta::new_readonly(addr(7), false),
                AccountMeta::new_readonly(Address { bytes: RENT_SYSVAR }, false),
                AccountMeta::new_readonly(addr(8), false),
            ],
            data: vec![0, 1, 1, 2],
        }
    );
    let plain = VaultInstruction::initialize_vault(
        &addr(1),
        &addr(2),
        &addr(3),
        &addr(4),
        &addr(5),
        &addr(6),
        &addr(7),
        false,
        None,
        3,
        4,
    )
    .unwrap();
    assert_eq!(plain.accounts.len(), 7);
    assert_eq!(plain.accounts[6].pubkey.bytes, RENT_SYSVAR);
    assert_eq!(plain.data, vec![0, 0, 3, 4]);
}
