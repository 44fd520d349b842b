use crate::address::{address_at, lemma_address_at_of, Address};
use crate::error::{ProgramFault, VaultError};
use crate::instruction::invalid_instruction;
use vstd::prelude::*;

verus! {

/// Instructions of the claim program.
#[derive(Clone, Debug, PartialEq)]
pub enum ClaimInstruction {
    /// Creates a claim type that the given program verifies under the given
    /// opcode.
    ///
    /// Accounts expected:
    /// `[writable]` claim type storage account
    CreateClaimType { check_program_id: Address, check_program_instruction_id: u8 },
    /// Issues a claim of a type to a subject, once the type's check program
    /// has accepted it.
    ///
    /// Accounts expected:
    /// `[writable]` claim storage account
    /// `[]` claim type account
    /// `[]` the check program
    /// then the accounts that the check program is handed
    IssueClaim { claim_type_id: Address, subject_id: Address },
    /// Creates a claim check from the claim types that subject and issuer
    /// have to hold.
    ///
    /// Accounts expected:
    /// `[writable]` claim check storage account
    CreateSimpleClaimCheck { subject_required: Vec<Address>, issuer_required: Vec<Address> },
    /// Evaluates a claim check.
    ///
    /// Accounts expected:
    /// `[]` claim check account
    /// `[]` the subject
    /// `[]` the issuer
    /// then one claim account for each claim type required, in the lists' order
    ExecuteSimpleClaimCheck,
}

/// A claim instruction as a mathematical value.
pub enum ClaimInstructionView {
    CreateClaimType { check_program_id: Address, check_program_instruction_id: u8 },
    IssueClaim { claim_type_id: Address, subject_id: Address },
    CreateSimpleClaimCheck { subject_required: Seq<Address>, issuer_required: Seq<Address> },
    ExecuteSimpleClaimCheck,
}

impl View for ClaimInstruction {
    type V = ClaimInstructionView;

    open spec fn view(&self) -> ClaimInstructionView {
        match *self {
            ClaimInstruction::CreateClaimType { check_program_id, check_program_instruction_id } =>
                ClaimInstructionView::CreateClaimType {
                check_program_id,
                check_program_instruction_id,
            },
            ClaimInstruction::IssueClaim { claim_type_id, subject_id } => ClaimInstructionView::IssueClaim {
                claim_type_id,
                subject_id,
            },
            ClaimInstruction::CreateSimpleClaimCheck { subject_required, issuer_required } =>
                ClaimInstructionView::CreateSimpleClaimCheck {
                subject_required: subject_required@,
                issuer_required: issuer_required@,
            },
            ClaimInstruction::ExecuteSimpleClaimCheck => ClaimInstructionView::ExecuteSimpleClaimCheck,
        }
    }
}

/// The bytes of a list of addresses, one address after the other.
pub open spec fn list_bytes(list: Seq<Address>) -> Seq<u8> {
    Seq::new(32 * list.len(), |i: int| list[i / 32]@[i % 32])
}

/// The `n` addresses that the bytes of `s` from `o` on hold.
pub open spec fn list_at(s: Seq<u8>, o: int, n: int) -> Seq<Address> {
    Seq::new(n as nat, |k: int| address_at(s, o + 32 * k))
}

/// The bytes of a list are those of all but its last address, then the last.
pub proof fn lemma_list_bytes_push(list: Seq<Address>, a: Address)
    ensures
        list_bytes(list.push(a)) == list_bytes(list) + a@,
{
    let n = list.len() as int;
    let left = list_bytes(list.push(a));
    let right = list_bytes(list) + a@;
    assert(left.len() == right.len());
    assert forall|i: int| 0 <= i < left.len() implies left[i] == right[i] by {
        if i < 32 * n {
            assert(i / 32 < n);
        } else {
            assert(i / 32 == n);
            assert(i % 32 == i - 32 * n);
        }
    }
    assert(left =~= right);
}

/// A list is found again among bytes that hold its own at `o`.
pub proof fn lemma_list_at_of(s: Seq<u8>, o: int, list: Seq<Address>)
    requires
        0 <= o,
        o + 32 * list.len() <= s.len(),
        s.subrange(o, o + 32 * list.len()) == list_bytes(list),
    ensures
        list_at(s, o, list.len() as int) == list,
{
    let w = s.subrange(o, o + 32 * list.len());
    assert forall|k: int| 0 <= k < list.len() implies address_at(s, o + 32 * k) == list[k] by {
        assert forall|j: int| 0 <= j < 32 implies s.subrange(o + 32 * k, o + 32 * k + 32)[j]
            == list[k]@[j] by {
            assert(s[o + 32 * k + j] == w[32 * k + j]);
            assert((32 * k + j) / 32 == k);
            assert((32 * k + j) % 32 == j);
        }
        assert(s.subrange(o + 32 * k, o + 32 * k + 32) =~= list[k]@);
        lemma_address_at_of(s, o + 32 * k, list[k]);
    }
    assert(list_at(s, o, list.len() as int) =~= list);
}

/// Reads the `n` addresses in the bytes of `src` from `offset` on.
fn read_list(src: &[u8], offset: usize, n: usize) -> (r: Vec<Address>)
    requires
        offset + 32 * n <= src.len(),
    ensures
        r@ == list_at(src@, offset as int, n as int),
{
    let mut list: Vec<Address> = Vec::new();
    let mut k: usize = 0;
    while k < n
        invariant
            k <= n,
            offset + 32 * n <= src.len(),
            list@ == list_at(src@, offset as int, k as int),
        decreases n - k,
    {
        list.push(Address::read_from(src, offset + 32 * k));
        k = k + 1;
        assert(list@ =~= list_at(src@, offset as int, k as int));
    }
    list
}

/// Appends the bytes of a list of addresses to `dst`.
fn append_list(list: &Vec<Address>, dst: &mut Vec<u8>)
    ensures
        final(dst)@ == old(dst)@ + list_bytes(list@),
{
    let mut k: usize = 0;
    assert(list_bytes(list@.subrange(0, 0)) =~= Seq::<u8>::empty());
    while k < list.len()
        invariant
            k <= list@.len(),
            dst@ == old(dst)@ + list_bytes(list@.subrange(0, k as int)),
        decreases list@.len() - k,
    {
        list[k].append_to(dst);
        proof {
            lemma_list_bytes_push(list@.subrange(0, k as int), list@[k as int]);
            assert(list@.subrange(0, k as int).push(list@[k as int]) =~= list@.subrange(
                0,
                k as int + 1,
            ));
        }
        k = k + 1;
    }
    assert(list@.subrange(0, k as int) =~= list@);
}

/// What unpacking gave, by the instruction's view.
pub open spec fn unpacked(r: Result<ClaimInstruction, ProgramFault>) -> Result<
    ClaimInstructionView,
    ProgramFault,
> {
    match r {
        Ok(i) => Ok(i@),
        Err(e) => Err(e),
    }
}

impl ClaimInstructionView {
    /// The bytes of the instruction. A claim type is tag 0, the check
    /// program and its opcode. A claim is tag 1, the claim type and the
    /// subject. A claim check is tag 2 and two lists, each a count byte and
    /// its addresses. Evaluating a check is tag 3 alone.
    pub open spec fn spec_pack(self) -> Seq<u8> {
        match self {
            ClaimInstructionView::CreateClaimType { check_program_id, check_program_instruction_id } =>
                seq![0u8] + check_program_id@ + seq![check_program_instruction_id],
            ClaimInstructionView::IssueClaim { claim_type_id, subject_id } => seq![1u8]
                + claim_type_id@ + subject_id@,
            ClaimInstructionView::CreateSimpleClaimCheck { subject_required, issuer_required } =>
                seq![2u8, subject_required.len() as u8] + list_bytes(subject_required) + seq![
                issuer_required.len() as u8,
            ] + list_bytes(issuer_required),
            ClaimInstructionView::ExecuteSimpleClaimCheck => seq![3u8],
        }
    }

    /// Whether the instruction can be written: a list's count has to fit its
    /// count byte.
    pub open spec fn packable(self) -> bool {
        match self {
            ClaimInstructionView::CreateSimpleClaimCheck { subject_required, issuer_required } =>
                subject_required.len() <= 255 && issuer_required.len() <= 255,
            _ => true,
        }
    }

    /// The instruction that a byte string holds. Bytes after the arguments
    /// are not read. An empty string, an unknown tag and cut-off arguments
    /// are an invalid instruction.
    pub open spec fn spec_unpack(input: Seq<u8>) -> Result<ClaimInstructionView, ProgramFault> {
        if input.len() >= 34 && input[0] == 0 {
            Ok(
                ClaimInstructionView::CreateClaimType {
                    check_program_id: address_at(input, 1),
                    check_program_instruction_id: input[33],
                },
            )
        } else if input.len() >= 65 && input[0] == 1 {
            Ok(
                ClaimInstructionView::IssueClaim {
                    claim_type_id: address_at(input, 1),
                    subject_id: address_at(input, 33),
                },
            )
        } else if input.len() >= 2 && input[0] == 2 && input.len() >= 3 + 32 * input[1] && input.len()
            >= 3 + 32 * input[1] + 32 * input[2 + 32 * input[1]] {
            Ok(
                ClaimInstructionView::CreateSimpleClaimCheck {
                    subject_required: list_at(input, 2, input[1] as int),
                    issuer_required: list_at(
                        input,
                        3 + 32 * input[1],
                        input[2 + 32 * input[1]] as int,
                    ),
                },
            )
        } else if input.len() >= 1 && input[0] == 3 {
            Ok(ClaimInstructionView::ExecuteSimpleClaimCheck)
        } else {
            Err(invalid_instruction())
        }
    }

    /// Decoding the bytes of an instruction that can be written gives the
    /// instruction back.
    pub proof fn lemma_round_trip(i: ClaimInstructionView)
        requires
            i.packable(),
        ensures
            ClaimInstructionView::spec_unpack(i.spec_pack()) == Ok::<
                ClaimInstructionView,
                ProgramFault,
            >(i),
    {
        let s = i.spec_pack();
        match i {
            ClaimInstructionView::CreateClaimType { check_program_id, check_program_instruction_id } => {
                assert(s.subrange(1, 33) =~= check_program_id@);
                lemma_address_at_of(s, 1, check_program_id);
                assert(s[33] == check_program_instruction_id);
            },
            ClaimInstructionView::IssueClaim { claim_type_id, subject_id } => {
                assert(s.subrange(1, 33) =~= claim_type_id@);
                assert(s.subrange(33, 65) =~= subject_id@);
                lemma_address_at_of(s, 1, claim_type_id);
                lemma_address_at_of(s, 33, subject_id);
            },
            ClaimInstructionView::CreateSimpleClaimCheck { subject_required, issuer_required } => {
                let n = subject_required.len() as int;
                let m = issuer_required.len() as int;
                assert(s.len() == 3 + 32 * n + 32 * m);
                assert(s[0] == 2u8);
                assert(s[1] == n as u8);
                assert(s[2 + 32 * n] == m as u8);
                assert(s.subrange(2, 2 + 32 * n) =~= list_bytes(subject_required));
                assert(s.subrange(3 + 32 * n, 3 + 32 * n + 32 * m) =~= list_bytes(issuer_required));
                lemma_list_at_of(s, 2, subject_required);
                lemma_list_at_of(s, 3 + 32 * n, issuer_required);
            },
            ClaimInstructionView::ExecuteSimpleClaimCheck => {},
        }
    }
}

impl ClaimInstruction {
    /// Unpacks a byte buffer into a claim instruction.
    pub fn unpack(input: &[u8]) -> (r: Result<ClaimInstruction, ProgramFault>)
        ensures
            unpacked(r) == ClaimInstructionView::spec_unpack(input@),
    {
        let len = input.len();
        if len == 0 {
            return Err(ProgramFault::from(VaultError::InvalidInstruction));
        }
        let tag = input[0];
        if tag == 0 && len >= 34 {
            Ok(
                ClaimInstruction::CreateClaimType {
                    check_program_id: Address::read_from(input, 1),
                    check_program_instruction_id: input[33],
                },
            )
        } else if tag == 1 && len >= 65 {
            Ok(
                ClaimInstruction::IssueClaim {
                    claim_type_id: Address::read_from(input, 1),
                    subject_id: Address::read_from(input, 33),
                },
            )
        } else if tag == 2 && len >= 2 {
            let n: usize = input[1] as usize;
            if len < 3 + 32 * n {
                return Err(ProgramFault::from(VaultError::InvalidInstruction));
            }
            let m: usize = input[2 + 32 * n] as usize;
            if len < 3 + 32 * n + 32 * m {
                return Err(ProgramFault::from(VaultError::InvalidInstruction));
            }
            Ok(
                ClaimInstruction::CreateSimpleClaimCheck {
                    subject_required: read_list(input, 2, n),
                    issuer_required: read_list(input, 3 + 32 * n, m),
                },
            )
        } else if tag == 3 {
            Ok(ClaimInstruction::ExecuteSimpleClaimCheck)
        } else {
            Err(ProgramFault::from(VaultError::InvalidInstruction))
        }
    }

    /// Packs the instruction into a byte buffer.
    pub fn pack(&self) -> (r: Vec<u8>)
        requires
            self@.packable(),
        ensures
            r@ == self@.spec_pack(),
    {
        let mut buf: Vec<u8> = Vec::new();
        match self {
            ClaimInstruction::CreateClaimType { check_program_id, check_program_instruction_id } => {
                buf.push(0);
                check_program_id.append_to(&mut buf);
                buf.push(*check_program_instruction_id);
            },
            ClaimInstruction::IssueClaim { claim_type_id, subject_id } => {
                buf.push(1);
                claim_type_id.append_to(&mut buf);
                subject_id.append_to(&mut buf);
            },
            ClaimInstruction::CreateSimpleClaimCheck { subject_required, issuer_required } => {
                buf.push(2);
                buf.push(subject_required.len() as u8);
                append_list(subject_required, &mut buf);
                buf.push(issuer_required.len() as u8);
                append_list(issuer_required, &mut buf);
            },
            ClaimInstruction::ExecuteSimpleClaimCheck => {
                buf.push(3);
            },
        }
        assert(buf@ =~= self@.spec_pack());
        buf
    }
}

} // verus!
