use crate::account::{at_least, not_already_initialized, owned_by, rent_exempt, Account};
use crate::address::{null_address, Address};
use crate::claim::{ClaimInstruction, ClaimInstructionView};
use crate::credential::{Claim, ClaimType, SimpleClaimCheck};
use crate::error::{ProgramFault, VaultError};
use crate::instruction::{readonly, AccountMeta, Instruction, InstructionView};
use crate::processor::{Effect, EffectView, Invocation, InvocationView, Plan, Processor};
use vstd::prelude::*;

verus! {

/// How far an instruction of the claim program has come: it is finished, with
/// its effects, or a claim waits for the check program to be called, to be
/// recorded once that call has succeeded.
#[derive(Clone, Debug, PartialEq)]
pub enum Step {
    Finished(Vec<Effect>),
    Verify { invocation: Invocation, claim: Claim },
}

/// A step as a mathematical value.
pub enum StepView {
    Finished(Seq<EffectView>),
    Verify { invocation: InvocationView, claim: Claim },
}

impl View for Step {
    type V = StepView;

    open spec fn view(&self) -> StepView {
        match *self {
            Step::Finished(effects) => StepView::Finished(effects@.map_values(|e: Effect| e@)),
            Step::Verify { invocation, claim } => StepView::Verify { invocation: invocation@, claim },
        }
    }
}

/// A step, or the failure that the instruction ends with.
pub type Progress = Result<StepView, ProgramFault>;

/// The outcome of processing, by the view of the step.
pub open spec fn progress(r: Result<Step, ProgramFault>) -> Progress {
    match r {
        Ok(step) => Ok(step@),
        Err(e) => Err(e),
    }
}

/// An instruction that is finished with the effects planned, or has failed.
pub open spec fn finished(p: Plan) -> Progress {
    match p {
        Ok(effects) => Ok(StepView::Finished(effects)),
        Err(e) => Err(e),
    }
}

/// The new contents of the first account's storage, as the only effect.
pub open spec fn store_first(data: Seq<u8>) -> Seq<EffectView> {
    seq![EffectView::Store { account: 0usize, data }]
}

/// Creating a claim type in the storage of the first account: the storage
/// has to be exempt from rent, to hold a claim type record, and not to be
/// initialized.
pub open spec fn spec_create_claim_type(
    accounts: Seq<Account>,
    check_program_id: Address,
    check_program_instruction_id: u8,
) -> Plan {
    if accounts.len() < 1 {
        Err(ProgramFault::NotEnoughAccountKeys)
    } else if !accounts[0].spec_is_rent_exempt() {
        Err(ProgramFault::of(VaultError::NotRentExempt))
    } else {
        match ClaimType::spec_unpack(accounts[0].data@) {
            Err(e) => Err(e),
            Ok(stored) => if stored.is_initialized {
                Err(ProgramFault::AccountAlreadyInitialized)
            } else {
                Ok(
                    store_first(
                        (ClaimType {
                            is_initialized: true,
                            check_program_id,
                            check_program_instruction_id,
                        }).spec_pack(),
                    ),
                )
            },
        }
    }
}

/// The accounts from position `from` on, as an instruction names them: each
/// with its own signer and writable flags.
pub open spec fn forwarded(accounts: Seq<Account>, from: int) -> Seq<AccountMeta> {
    Seq::new(
        (accounts.len() - from) as nat,
        |k: int|
            AccountMeta {
                pubkey: accounts[from + k].key,
                is_signer: accounts[from + k].is_signer,
                is_writable: accounts[from + k].is_writable,
            },
    )
}

/// The positions from `from` up to the end of a list of `len` accounts.
pub open spec fn positions_from(from: int, len: int) -> Seq<usize> {
    Seq::new((len - from) as nat, |k: int| (from + k) as usize)
}

/// The call of the check program that decides on a claim: the opcode of the
/// claim type as the one byte of payload, the check program itself as the
/// first account, then every account after it as it was supplied.
pub open spec fn check_invocation(accounts: Seq<Account>, opcode: u8) -> InvocationView {
    InvocationView {
        instruction: InstructionView {
            program_id: accounts[2].key,
            accounts: seq![readonly(accounts[2].key, false)] + forwarded(accounts, 3),
            data: seq![opcode],
        },
        accounts: positions_from(2, accounts.len() as int),
        bump_seed: None,
    }
}

/// Issuing a claim, up to the call of the check program. The accounts are,
/// in order: the claim's storage, the claim type, the check program, then
/// what the check program is handed. The storage has to be exempt from rent,
/// the claim type has to be owned by this program and to be the one that the
/// claim is of, and the check program has to be the one that the claim type
/// names: a claim is verified by its own type's check program and no other.
pub open spec fn spec_issue_claim(
    program_id: Address,
    accounts: Seq<Account>,
    claim_type_id: Address,
    subject_id: Address,
) -> Progress {
    if accounts.len() < 3 {
        Err(ProgramFault::NotEnoughAccountKeys)
    } else if !accounts[0].spec_is_rent_exempt() {
        Err(ProgramFault::of(VaultError::NotRentExempt))
    } else if accounts[1].owner != program_id {
        Err(ProgramFault::IncorrectProgramId)
    } else if accounts[1].key != claim_type_id {
        Err(ProgramFault::InvalidArgument)
    } else {
        match ClaimType::spec_unpack(accounts[1].data@) {
            Err(e) => Err(e),
            Ok(claim_type) => if accounts[2].key != claim_type.check_program_id {
                Err(ProgramFault::InvalidArgument)
            } else {
                Ok(
                    StepView::Verify {
                        invocation: check_invocation(
                            accounts,
                            claim_type.check_program_instruction_id,
                        ),
                        claim: Claim { is_initialized: true, claim_type_id, subject_id },
                    },
                )
            },
        }
    }
}

/// Recording a claim once the check program was called. Where the call
/// failed, its failure is the instruction's and nothing is stored. Where it
/// succeeded, the storage of the first account has to hold a claim record
/// that is not initialized, and the claim is stored there.
pub open spec fn spec_record_claim(
    accounts: Seq<Account>,
    claim: Claim,
    outcome: Result<(), ProgramFault>,
) -> Plan {
    match outcome {
        Err(e) => Err(e),
        Ok(_) => if accounts.len() < 1 {
            Err(ProgramFault::NotEnoughAccountKeys)
        } else {
            match Claim::spec_unpack(accounts[0].data@) {
                Err(e) => Err(e),
                Ok(stored) => if stored.is_initialized {
                    Err(ProgramFault::AccountAlreadyInitialized)
                } else {
                    Ok(store_first(claim.spec_pack()))
                },
            }
        },
    }
}

/// The address in slot `k` of a list written into eight slots: the list's
/// own where it has one, the null address behind its end.
pub open spec fn slot(list: Seq<Address>, k: int) -> Address {
    if k < list.len() {
        list[k]
    } else {
        null_address()
    }
}

/// A list of at most eight addresses in eight slots.
pub open spec fn padded(list: Seq<Address>) -> [Address; 8] {
    [
        slot(list, 0),
        slot(list, 1),
        slot(list, 2),
        slot(list, 3),
        slot(list, 4),
        slot(list, 5),
        slot(list, 6),
        slot(list, 7),
    ]
}

/// A list written into eight slots keeps its entries in order, and every slot
/// behind its end holds the null address.
pub proof fn lemma_padded(list: Seq<Address>, k: int)
    requires
        list.len() <= 8,
        0 <= k < 8,
    ensures
        k < list.len() ==> padded(list)[k] == list[k],
        k >= list.len() ==> padded(list)[k] == null_address(),
{
}

/// Creating a claim check in the storage of the first account: the storage
/// has to be exempt from rent, neither list may hold more than eight claim
/// types, and the storage has to hold a claim check record that is not
/// initialized.
pub open spec fn spec_create_simple_claim_check(
    accounts: Seq<Account>,
    subject_required: Seq<Address>,
    issuer_required: Seq<Address>,
) -> Plan {
    if accounts.len() < 1 {
        Err(ProgramFault::NotEnoughAccountKeys)
    } else if !accounts[0].spec_is_rent_exempt() {
        Err(ProgramFault::of(VaultError::NotRentExempt))
    } else if subject_required.len() > 8 || issuer_required.len() > 8 {
        Err(ProgramFault::InvalidArgument)
    } else {
        match SimpleClaimCheck::spec_unpack(accounts[0].data@) {
            Err(e) => Err(e),
            Ok(stored) => if stored.is_initialized {
                Err(ProgramFault::AccountAlreadyInitialized)
            } else {
                Ok(
                    store_first(
                        (SimpleClaimCheck {
                            is_initialized: true,
                            subject_required_credentials: padded(subject_required),
                            issuer_required_credentials: padded(issuer_required),
                        }).spec_pack(),
                    ),
                )
            },
        }
    }
}

/// Whether an account proves that `holder` holds a claim of type
/// `claim_type`: this program owns it, and it stores a claim record of
/// exactly that type and that subject.
pub open spec fn proves(account: Account, program_id: Address, claim_type: Address, holder: Address) -> bool {
    &&& account.owner == program_id
    &&& Claim::spec_unpack(account.data@) is Ok
    &&& Claim::spec_unpack(account.data@)->Ok_0.claim_type_id == claim_type
    &&& Claim::spec_unpack(account.data@)->Ok_0.subject_id == holder
}

/// What the evaluation of a list gave: whether every claim consumed proved
/// what was required, and the position of the next claim account.
pub type Verdict = Result<(bool, int), ProgramFault>;

/// The verdict on a list where the claim for its first entry did or did not
/// prove what was required, and `rest` is the verdict on its other entries.
pub open spec fn joined(proved: bool, rest: Verdict) -> Verdict {
    match rest {
        Ok((passed, cursor)) => Ok((proved && passed, cursor)),
        Err(e) => Err(e),
    }
}

/// Evaluating the entries of a list of required claim types from entry `i`
/// on, with the next claim account at position `cursor`. The list ends at a
/// null entry and at an entry that is the holder's own address, neither of
/// which consumes a claim account. Every other entry consumes the next claim
/// account, which has to be there, and is passed where that account proves
/// the claim; a claim that does not is remembered, and the entries after it
/// are still evaluated.
pub open spec fn evaluate(
    entries: Seq<Address>,
    holder: Address,
    program_id: Address,
    accounts: Seq<Account>,
    cursor: int,
    i: int,
) -> Verdict
    decreases entries.len() - i,
{
    if i < 0 || i >= entries.len() {
        Ok((true, cursor))
    } else if entries[i] == null_address() || entries[i] == holder {
        Ok((true, cursor))
    } else if cursor < 0 || cursor >= accounts.len() {
        Err(ProgramFault::NotEnoughAccountKeys)
    } else {
        joined(
            proves(accounts[cursor], program_id, entries[i], holder),
            evaluate(entries, holder, program_id, accounts, cursor + 1, i + 1),
        )
    }
}

/// Evaluating a claim check. The accounts are, in order: the claim check,
/// the subject, the issuer, then the claim accounts for the subject's list
/// and after them those for the issuer's list. A list in which a claim was
/// not proved is an invalid argument. Nothing is changed.
pub open spec fn spec_execute_simple_claim_check(program_id: Address, accounts: Seq<Account>) -> Plan {
    if accounts.len() < 3 {
        Err(ProgramFault::NotEnoughAccountKeys)
    } else {
        match SimpleClaimCheck::spec_unpack(accounts[0].data@) {
            Err(e) => Err(e),
            Ok(check) => match evaluate(
                check.subject_required_credentials@,
                accounts[1].key,
                program_id,
                accounts,
                3,
                0,
            ) {
                Err(e) => Err(e),
                Ok((subject_passed, cursor)) => if !subject_passed {
                    Err(ProgramFault::InvalidArgument)
                } else {
                    match evaluate(
                        check.issuer_required_credentials@,
                        accounts[2].key,
                        program_id,
                        accounts,
                        cursor,
                        0,
                    ) {
                        Err(e) => Err(e),
                        Ok((issuer_passed, _)) => if !issuer_passed {
                            Err(ProgramFault::InvalidArgument)
                        } else {
                            Ok(Seq::empty())
                        },
                    }
                },
            },
        }
    }
}

/// Processing an instruction of the claim program: the payload is decoded,
/// and the instruction it holds is carried out on the accounts.
pub open spec fn spec_process_claim(
    program_id: Address,
    accounts: Seq<Account>,
    instruction_data: Seq<u8>,
) -> Progress {
    match ClaimInstructionView::spec_unpack(instruction_data) {
        Err(e) => Err(e),
        Ok(ClaimInstructionView::CreateClaimType { check_program_id, check_program_instruction_id }) =>
            finished(spec_create_claim_type(accounts, check_program_id, check_program_instruction_id)),
        Ok(ClaimInstructionView::IssueClaim { claim_type_id, subject_id }) => spec_issue_claim(
            program_id,
            accounts,
            claim_type_id,
            subject_id,
        ),
        Ok(ClaimInstructionView::CreateSimpleClaimCheck { subject_required, issuer_required }) =>
            finished(spec_create_simple_claim_check(accounts, subject_required, issuer_required)),
        Ok(ClaimInstructionView::ExecuteSimpleClaimCheck) => finished(
            spec_execute_simple_claim_check(program_id, accounts),
        ),
    }
}

/// A list whose first entry is the holder's own address passes, and consumes
/// no claim account.
pub proof fn lemma_self_reference(
    entries: Seq<Address>,
    holder: Address,
    program_id: Address,
    accounts: Seq<Account>,
    cursor: int,
)
    requires
        entries.len() > 0,
        entries[0] == holder,
    ensures
        evaluate(entries, holder, program_id, accounts, cursor, 0) == Ok::<(bool, int), ProgramFault>(
            (true, cursor),
        ),
{
}

/// A list of one required claim type, ended by the null address, consumes one
/// claim account and passes exactly where that account proves the claim.
pub proof fn lemma_single_claim(
    entries: Seq<Address>,
    holder: Address,
    program_id: Address,
    accounts: Seq<Account>,
    cursor: int,
)
    requires
        entries.len() >= 2,
        entries[0] != null_address(),
        entries[0] != holder,
        entries[1] == null_address(),
        0 <= cursor < accounts.len(),
    ensures
        evaluate(entries, holder, program_id, accounts, cursor, 0) == Ok::<(bool, int), ProgramFault>(
            (proves(accounts[cursor], program_id, entries[0], holder), cursor + 1),
        ),
{
    reveal_with_fuel(evaluate, 3);
}

/// A claim check whose subject's list begins with the subject's own address,
/// and whose issuer's list is empty or begins with the issuer's own address,
/// passes on the three accounts alone.
pub proof fn lemma_claim_check_self_reference(program_id: Address, accounts: Seq<Account>)
    requires
        accounts.len() >= 3,
        SimpleClaimCheck::spec_unpack(accounts[0].data@) is Ok,
        SimpleClaimCheck::spec_unpack(accounts[0].data@)->Ok_0.subject_required_credentials[0]
            == accounts[1].key,
        SimpleClaimCheck::spec_unpack(accounts[0].data@)->Ok_0.issuer_required_credentials[0]
            == accounts[2].key || SimpleClaimCheck::spec_unpack(
            accounts[0].data@,
        )->Ok_0.issuer_required_credentials[0] == null_address(),
    ensures
        spec_execute_simple_claim_check(program_id, accounts) == Ok::<Seq<EffectView>, ProgramFault>(
            Seq::empty(),
        ),
{
    let check = SimpleClaimCheck::spec_unpack(accounts[0].data@)->Ok_0;
    lemma_self_reference(
        check.subject_required_credentials@,
        accounts[1].key,
        program_id,
        accounts,
        3,
    );
}

/// A claim check that asks the subject for one claim type and the issuer for
/// none, evaluated with one claim account of that type that this program
/// owns: it passes where the claim's subject is the subject declared, and is
/// an invalid argument where it is another.
pub proof fn lemma_claim_check_on_one_claim(program_id: Address, accounts: Seq<Account>)
    requires
        accounts.len() >= 4,
        SimpleClaimCheck::spec_unpack(accounts[0].data@) is Ok,
        SimpleClaimCheck::spec_unpack(accounts[0].data@)->Ok_0.subject_required_credentials[0]
            != null_address(),
        SimpleClaimCheck::spec_unpack(accounts[0].data@)->Ok_0.subject_required_credentials[0]
            != accounts[1].key,
        SimpleClaimCheck::spec_unpack(accounts[0].data@)->Ok_0.subject_required_credentials[1]
            == null_address(),
        SimpleClaimCheck::spec_unpack(accounts[0].data@)->Ok_0.issuer_required_credentials[0]
            == null_address(),
        accounts[3].owner == program_id,
        Claim::spec_unpack(accounts[3].data@) is Ok,
        Claim::spec_unpack(accounts[3].data@)->Ok_0.claim_type_id == SimpleClaimCheck::spec_unpack(
            accounts[0].data@,
        )->Ok_0.subject_required_credentials[0],
    ensures
        Claim::spec_unpack(accounts[3].data@)->Ok_0.subject_id == accounts[1].key
            ==> spec_execute_simple_claim_check(program_id, accounts) == Ok::<
            Seq<EffectView>,
            ProgramFault,
        >(Seq::empty()),
        Claim::spec_unpack(accounts[3].data@)->Ok_0.subject_id != accounts[1].key
            ==> spec_execute_simple_claim_check(program_id, accounts) == Err::<
            Seq<EffectView>,
            ProgramFault,
        >(ProgramFault::InvalidArgument),
{
    let check = SimpleClaimCheck::spec_unpack(accounts[0].data@)->Ok_0;
    lemma_single_claim(check.subject_required_credentials@, accounts[1].key, program_id, accounts, 3);
}

/// Records of the claim program are written once. Whatever instruction of
/// the claim program finishes, it stores nothing but into the storage at
/// position 0, which it was handed; and a claim is recorded only into
/// storage that held a claim record that was not initialized.
pub proof fn lemma_claim_records_are_written_once(
    program_id: Address,
    accounts: Seq<Account>,
    instruction_data: Seq<u8>,
    claim: Claim,
    outcome: Result<(), ProgramFault>,
    k: int,
)
    ensures
        spec_process_claim(program_id, accounts, instruction_data) matches Ok(
            StepView::Finished(effects),
        ) ==> (0 <= k < effects.len() ==> effects[k] is Store && effects[k]->account == 0
            && accounts.len() > 0),
        spec_record_claim(accounts, claim, outcome) matches Ok(effects) ==> (0 <= k < effects.len()
            ==> {
            &&& outcome is Ok
            &&& effects[k] == (EffectView::Store { account: 0usize, data: claim.spec_pack() })
            &&& accounts.len() > 0
            &&& Claim::spec_unpack(accounts[0].data@) is Ok
            &&& !Claim::spec_unpack(accounts[0].data@)->Ok_0.is_initialized
        }),
{
}

/// A claim whose check program call failed is not recorded: the instruction
/// ends with the failure of the call and stores nothing.
pub proof fn lemma_rejected_claim_is_not_recorded(
    accounts: Seq<Account>,
    claim: Claim,
    failure: ProgramFault,
)
    ensures
        spec_record_claim(accounts, claim, Err(failure)) == Err::<Seq<EffectView>, ProgramFault>(
            failure,
        ),
{
}

/// An instruction that evaluates a claim check whose subject's list begins
/// with the subject's own address, and whose issuer's list is empty or
/// begins with the issuer's own address, finishes without an effect on the
/// three accounts alone: no claim account is asked for.
pub proof fn lemma_process_claim_check_self_reference(
    program_id: Address,
    accounts: Seq<Account>,
    instruction_data: Seq<u8>,
)
    requires
        ClaimInstructionView::spec_unpack(instruction_data) == Ok::<
            ClaimInstructionView,
            ProgramFault,
        >(ClaimInstructionView::ExecuteSimpleClaimCheck),
        accounts.len() >= 3,
        SimpleClaimCheck::spec_unpack(accounts[0].data@) is Ok,
        SimpleClaimCheck::spec_unpack(accounts[0].data@)->Ok_0.subject_required_credentials[0]
            == accounts[1].key,
        SimpleClaimCheck::spec_unpack(accounts[0].data@)->Ok_0.issuer_required_credentials[0]
            == accounts[2].key || SimpleClaimCheck::spec_unpack(
            accounts[0].data@,
        )->Ok_0.issuer_required_credentials[0] == null_address(),
    ensures
        spec_process_claim(program_id, accounts, instruction_data) == Ok::<StepView, ProgramFault>(
            StepView::Finished(Seq::empty()),
        ),
{
    lemma_claim_check_self_reference(program_id, accounts);
}

/// An instruction that evaluates a claim check which asks the subject for
/// one claim type and the issuer for none, with one claim account of that
/// type that this program owns: it finishes without an effect where the
/// claim's subject is the subject declared, and is an invalid argument where
/// it is another.
pub proof fn lemma_process_claim_check_on_one_claim(
    program_id: Address,
    accounts: Seq<Account>,
    instruction_data: Seq<u8>,
)
    requires
        ClaimInstructionView::spec_unpack(instruction_data) == Ok::<
            ClaimInstructionView,
            ProgramFault,
        >(ClaimInstructionView::ExecuteSimpleClaimCheck),
        accounts.len() >= 4,
        SimpleClaimCheck::spec_unpack(accounts[0].data@) is Ok,
        SimpleClaimCheck::spec_unpack(accounts[0].data@)->Ok_0.subject_required_credentials[0]
            != null_address(),
        SimpleClaimCheck::spec_unpack(accounts[0].data@)->Ok_0.subject_required_credentials[0]
            != accounts[1].key,
        SimpleClaimCheck::spec_unpack(accounts[0].data@)->Ok_0.subject_required_credentials[1]
            == null_address(),
        SimpleClaimCheck::spec_unpack(accounts[0].data@)->Ok_0.issuer_required_credentials[0]
            == null_address(),
        accounts[3].owner == program_id,
        Claim::spec_unpack(accounts[3].data@) is Ok,
        Claim::spec_unpack(accounts[3].data@)->Ok_0.claim_type_id == SimpleClaimCheck::spec_unpack(
            accounts[0].data@,
        )->Ok_0.subject_required_credentials[0],
    ensures
        Claim::spec_unpack(accounts[3].data@)->Ok_0.subject_id == accounts[1].key
            ==> spec_process_claim(program_id, accounts, instruction_data) == Ok::<
            StepView,
            ProgramFault,
        >(StepView::Finished(Seq::empty())),
        Claim::spec_unpack(accounts[3].data@)->Ok_0.subject_id != accounts[1].key
            ==> spec_process_claim(program_id, accounts, instruction_data) == Err::<
            StepView,
            ProgramFault,
        >(ProgramFault::InvalidArgument),
{
    lemma_claim_check_on_one_claim(program_id, accounts);
}

/// An instruction that issues a claim stores nothing before the check
/// program was called: it fails, or it waits for the call. The claim that
/// waits is of the type of the claim type account, whose check program is
/// the one called. Whatever the accounts are after the call, a call that
/// failed ends the instruction with its failure, and nothing is stored.
pub proof fn lemma_process_issue_claim_waits_for_its_check(
    program_id: Address,
    accounts: Seq<Account>,
    instruction_data: Seq<u8>,
    after: Seq<Account>,
    failure: ProgramFault,
)
    requires
        ClaimInstructionView::spec_unpack(instruction_data) is Ok,
        ClaimInstructionView::spec_unpack(instruction_data)->Ok_0 is IssueClaim,
    ensures
        !(spec_process_claim(program_id, accounts, instruction_data) matches Ok(
            StepView::Finished(_),
        )),
        spec_process_claim(program_id, accounts, instruction_data) matches Ok(
            StepView::Verify { invocation, claim },
        ) ==> {
            &&& claim.is_initialized
            &&& claim.claim_type_id == accounts[1].key
            &&& claim.claim_type_id == ClaimInstructionView::spec_unpack(
                instruction_data,
            )->Ok_0->claim_type_id
            &&& claim.subject_id == ClaimInstructionView::spec_unpack(
                instruction_data,
            )->Ok_0->subject_id
            &&& ClaimType::spec_unpack(accounts[1].data@) is Ok
            &&& invocation.instruction.program_id == ClaimType::spec_unpack(
                accounts[1].data@,
            )->Ok_0.check_program_id
            &&& spec_record_claim(after, claim, Err(failure)) == Err::<
                Seq<EffectView>,
                ProgramFault,
            >(failure)
        },
{
}

/// The one effect that stores `data` for the first account.
fn store_in_first(data: Vec<u8>) -> (r: Vec<Effect>)
    ensures
        r@.map_values(|e: Effect| e@) == store_first(data@),
{
    let mut effects: Vec<Effect> = Vec::new();
    effects.push(Effect::Store { account: 0, data });
    assert(effects@.map_values(|e: Effect| e@) =~= store_first(data@));
    effects
}

/// Writes a list of at most eight addresses into eight slots.
fn pad(list: &Vec<Address>) -> (r: [Address; 8])
    requires
        list@.len() <= 8,
    ensures
        r == padded(list@),
{
    let mut slots: [Address; 8] = [Address::null(); 8];
    let mut k: usize = 0;
    while k < list.len()
        invariant
            k <= list@.len() <= 8,
            forall|j: int| 0 <= j < k ==> slots[j] == list@[j],
            forall|j: int| k <= j < 8 ==> slots[j] == null_address(),
        decreases list@.len() - k,
    {
        slots[k] = list[k];
        k = k + 1;
    }
    assert(slots =~= padded(list@));
    slots
}

/// Evaluates one list of required claim types, the next claim account being
/// at position `start`.
fn evaluate_list(
    entries: &[Address; 8],
    holder: &Address,
    program_id: &Address,
    accounts: &[Account],
    start: usize,
) -> (r: Result<(bool, usize), ProgramFault>)
    requires
        start <= accounts@.len(),
    ensures
        evaluate(entries@, *holder, *program_id, accounts@, start as int, 0) == (match r {
            Ok((passed, cursor)) => Ok::<(bool, int), ProgramFault>((passed, cursor as int)),
            Err(e) => Err::<(bool, int), ProgramFault>(e),
        }),
        r matches Ok((_, cursor)) ==> start <= cursor <= accounts@.len(),
{
    let ghost whole = evaluate(entries@, *holder, *program_id, accounts@, start as int, 0);
    let mut passed = true;
    let mut cursor = start;
    let mut i: usize = 0;
    while i < 8
        invariant
            i <= 8,
            entries@.len() == 8,
            start <= cursor <= accounts@.len(),
            whole == evaluate(entries@, *holder, *program_id, accounts@, start as int, 0),
            whole == joined(
                passed,
                evaluate(entries@, *holder, *program_id, accounts@, cursor as int, i as int),
            ),
        decreases 8 - i,
    {
        let entry = entries[i];
        if entry.is_null() || entry == *holder {
            return Ok((passed, cursor));
        }
        if cursor >= accounts.len() {
            return Err(ProgramFault::NotEnoughAccountKeys);
        }
        let account = &accounts[cursor];
        let proved = match Claim::unpack_from_slice(account.data.as_slice()) {
            Ok(claim) => account.owner == *program_id && claim.claim_type_id == entry
                && claim.subject_id == *holder,
            Err(_) => false,
        };
        assert(proved == proves(accounts@[cursor as int], *program_id, entry, *holder));
        passed = passed && proved;
        cursor = cursor + 1;
        i = i + 1;
    }
    Ok((passed, cursor))
}

impl Processor {
    /// Creates a claim type in the storage of the first account.
    pub fn process_create_claim_type(
        accounts: &[Account],
        check_program_id: Address,
        check_program_instruction_id: u8,
    ) -> (r: Result<Vec<Effect>, ProgramFault>)
        ensures
            crate::processor::plan(r) == spec_create_claim_type(
                accounts@,
                check_program_id,
                check_program_instruction_id,
            ),
    {
        at_least(accounts, 1)?;
        rent_exempt(&accounts[0])?;
        let stored = ClaimType::unpack_from_slice(accounts[0].data.as_slice())?;
        not_already_initialized(stored.is_initialized())?;
        let record = ClaimType { is_initialized: true, check_program_id, check_program_instruction_id };
        Ok(store_in_first(record.pack()))
    }

    /// Prepares a claim: checks what can be checked before the check program
    /// is called, and builds that call.
    pub fn process_issue_claim(
        program_id: &Address,
        accounts: &[Account],
        claim_type_id: Address,
        subject_id: Address,
    ) -> (r: Result<Step, ProgramFault>)
        ensures
            progress(r) == spec_issue_claim(*program_id, accounts@, claim_type_id, subject_id),
    {
        at_least(accounts, 3)?;
        rent_exempt(&accounts[0])?;
        owned_by(&accounts[1], program_id)?;
        if accounts[1].key != claim_type_id {
            return Err(ProgramFault::InvalidArgument);
        }
        let claim_type = ClaimType::unpack_from_slice(accounts[1].data.as_slice())?;
        if accounts[2].key != claim_type.check_program_id {
            return Err(ProgramFault::InvalidArgument);
        }
        let mut metas: Vec<AccountMeta> = Vec::new();
        let mut positions: Vec<usize> = Vec::new();
        metas.push(AccountMeta::new_readonly(accounts[2].key, false));
        positions.push(2);
        let mut k: usize = 3;
        while k < accounts.len()
            invariant
                3 <= k <= accounts@.len(),
                metas@.len() == k - 2,
                positions@.len() == k - 2,
                metas@[0] == readonly(accounts@[2].key, false),
                forall|j: int| 1 <= j < k - 2 ==> metas@[j] == forwarded(accounts@, 3)[j - 1],
                forall|j: int| 0 <= j < k - 2 ==> positions@[j] == (2 + j) as usize,
            decreases accounts@.len() - k,
        {
            let account = &accounts[k];
            metas.push(
                AccountMeta {
                    pubkey: account.key,
                    is_signer: account.is_signer,
                    is_writable: account.is_writable,
                },
            );
            positions.push(k);
            k = k + 1;
        }
        let mut data: Vec<u8> = Vec::new();
        data.push(claim_type.check_program_instruction_id);
        assert(data@ =~= seq![claim_type.check_program_instruction_id]);
        assert(metas@ =~= seq![readonly(accounts@[2].key, false)] + forwarded(accounts@, 3));
        assert(positions@ =~= positions_from(2, accounts@.len() as int));
        Ok(
            Step::Verify {
                invocation: Invocation {
                    instruction: Instruction { program_id: accounts[2].key, accounts: metas, data },
                    accounts: positions,
                    bump_seed: None,
                },
                claim: Claim { is_initialized: true, claim_type_id, subject_id },
            },
        )
    }

    /// Records a claim after the check program was called, given how that
    /// call ended and the accounts as they are after it.
    pub fn process_record_claim(
        accounts: &[Account],
        claim: &Claim,
        outcome: Result<(), ProgramFault>,
    ) -> (r: Result<Vec<Effect>, ProgramFault>)
        ensures
            crate::processor::plan(r) == spec_record_claim(accounts@, *claim, outcome),
            outcome matches Err(failure) ==> r == Err::<Vec<Effect>, ProgramFault>(failure),
    {
        match outcome {
            Err(e) => {
                return Err(e);
            },
            Ok(_) => {},
        }
        at_least(accounts, 1)?;
        let stored = Claim::unpack_from_slice(accounts[0].data.as_slice())?;
        not_already_initialized(stored.is_initialized())?;
        Ok(store_in_first(claim.pack()))
    }

    /// Creates a claim check in the storage of the first account.
    pub fn process_create_simple_claim_check(
        accounts: &[Account],
        subject_required: &Vec<Address>,
        issuer_required: &Vec<Address>,
    ) -> (r: Result<Vec<Effect>, ProgramFault>)
        ensures
            crate::processor::plan(r) == spec_create_simple_claim_check(
                accounts@,
                subject_required@,
                issuer_required@,
            ),
    {
        at_least(accounts, 1)?;
        rent_exempt(&accounts[0])?;
        if subject_required.len() > 8 || issuer_required.len() > 8 {
            return Err(ProgramFault::InvalidArgument);
        }
        let stored = SimpleClaimCheck::unpack_from_slice(accounts[0].data.as_slice())?;
        not_already_initialized(stored.is_initialized())?;
        let record = SimpleClaimCheck {
            is_initialized: true,
            subject_required_credentials: pad(subject_required),
            issuer_required_credentials: pad(issuer_required),
        };
        Ok(store_in_first(record.pack()))
    }

    /// Evaluates the claim check in the storage of the first account for the
    /// subject and the issuer that follow it.
    pub fn process_execute_simple_claim_check(program_id: &Address, accounts: &[Account]) -> (r: Result<
        Vec<Effect>,
        ProgramFault,
    >)
        ensures
            crate::processor::plan(r) == spec_execute_simple_claim_check(*program_id, accounts@),
    {
        at_least(accounts, 3)?;
        let check = SimpleClaimCheck::unpack_from_slice(accounts[0].data.as_slice())?;
        let (subject_passed, cursor) = evaluate_list(
            &check.subject_required_credentials,
            &accounts[1].key,
            program_id,
            accounts,
            3,
        )?;
        if !subject_passed {
            return Err(ProgramFault::InvalidArgument);
        }
        let (issuer_passed, _) = evaluate_list(
            &check.issuer_required_credentials,
            &accounts[2].key,
            program_id,
            accounts,
            cursor,
        )?;
        if !issuer_passed {
            return Err(ProgramFault::InvalidArgument);
        }
        let effects: Vec<Effect> = Vec::new();
        assert(effects@.map_values(|e: Effect| e@) =~= Seq::<EffectView>::empty());
        Ok(effects)
    }

    /// Processes one instruction of the claim program on the accounts it is
    /// handed. Nothing is changed here: the effects returned are for the
    /// ledger to carry out, and a claim that waits for its check is recorded
    /// by `process_record_claim` once the check program was called.
    pub fn process_claim(program_id: &Address, accounts: &[Account], instruction_data: &[u8]) -> (r:
        Result<Step, ProgramFault>)
        ensures
            progress(r) == spec_process_claim(*program_id, accounts@, instruction_data@),
    {
        let instruction = ClaimInstruction::unpack(instruction_data)?;
        match instruction {
            ClaimInstruction::CreateClaimType { check_program_id, check_program_instruction_id } => {
                let effects = Self::process_create_claim_type(
                    accounts,
                    check_program_id,
                    check_program_instruction_id,
                )?;
                Ok(Step::Finished(effects))
            },
            ClaimInstruction::IssueClaim { claim_type_id, subject_id } => Self::process_issue_claim(
                program_id,
                accounts,
                claim_type_id,
                subject_id,
            ),
            ClaimInstruction::CreateSimpleClaimCheck { subject_required, issuer_required } => {
                let effects = Self::process_create_simple_claim_check(
                    accounts,
                    &subject_required,
                    &issuer_required,
                )?;
                Ok(Step::Finished(effects))
            },
            ClaimInstruction::ExecuteSimpleClaimCheck => {
                let effects = Self::process_execute_simple_claim_check(program_id, accounts)?;
                Ok(Step::Finished(effects))
            },
        }
    }
}

} // verus!
