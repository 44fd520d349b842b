use crate::address::{address_at, lemma_address_at_of, Address};
use crate::codec::{bool_byte, byte_bool, overwrite_prefix, pack_bool, unpack_bool};
use crate::error::ProgramFault;
use vstd::prelude::*;

verus! {

/// Number of slots in a list of required credentials.
pub const MAX_REQUIRED_CREDENTIALS: usize = 8;

/// Number of slots for verified credentials in a heart token.
pub const MAX_VERIFIED_CREDENTIALS: usize = 10;

/// The bytes of eight addresses, one after the other.
pub open spec fn addresses_bytes(list: [Address; 8]) -> Seq<u8> {
    list[0]@ + list[1]@ + list[2]@ + list[3]@ + list[4]@ + list[5]@ + list[6]@ + list[7]@
}

/// The eight addresses that the 256 bytes of `s` from `o` on hold.
pub open spec fn addresses_at(s: Seq<u8>, o: int) -> [Address; 8] {
    [
        address_at(s, o),
        address_at(s, o + 32),
        address_at(s, o + 64),
        address_at(s, o + 96),
        address_at(s, o + 128),
        address_at(s, o + 160),
        address_at(s, o + 192),
        address_at(s, o + 224),
    ]
}

/// Eight addresses are found again among bytes that hold their own at `o`.
pub proof fn lemma_addresses_at_of(s: Seq<u8>, o: int, list: [Address; 8])
    requires
        0 <= o,
        o + 256 <= s.len(),
        s.subrange(o, o + 256) == addresses_bytes(list),
    ensures
        addresses_at(s, o) == list,
{
    let w = s.subrange(o, o + 256);
    assert forall|k: int| 0 <= k < 8 implies s.subrange(o + 32 * k, o + 32 * k + 32) == (
    #[trigger] list[k])@ by {
        assert(s.subrange(o + 32 * k, o + 32 * k + 32) =~= w.subrange(32 * k, 32 * k + 32));
        assert(w.subrange(32 * k, 32 * k + 32) =~= list[k]@);
    }
    lemma_address_at_of(s, o + 0, list[0]);
    lemma_address_at_of(s, o + 32, list[1]);
    lemma_address_at_of(s, o + 64, list[2]);
    lemma_address_at_of(s, o + 96, list[3]);
    lemma_address_at_of(s, o + 128, list[4]);
    lemma_address_at_of(s, o + 160, list[5]);
    lemma_address_at_of(s, o + 192, list[6]);
    lemma_address_at_of(s, o + 224, list[7]);
    assert(addresses_at(s, o) =~= list);
}

/// Reads the eight addresses in the 256 bytes of `src` from `offset` on.
pub fn read_addresses(src: &[u8], offset: usize) -> (r: [Address; 8])
    requires
        offset + 256 <= src.len(),
    ensures
        r == addresses_at(src@, offset as int),
{
    let r = [
        Address::read_from(src, offset),
        Address::read_from(src, offset + 32),
        Address::read_from(src, offset + 64),
        Address::read_from(src, offset + 96),
        Address::read_from(src, offset + 128),
        Address::read_from(src, offset + 160),
        Address::read_from(src, offset + 192),
        Address::read_from(src, offset + 224),
    ];
    assert(r =~= addresses_at(src@, offset as int));
    r
}

/// Appends the 256 bytes of eight addresses to `dst`.
pub fn append_addresses(list: &[Address; 8], dst: &mut Vec<u8>)
    ensures
        final(dst)@ == old(dst)@ + addresses_bytes(*list),
        addresses_bytes(*list).len() == 256,
{
    list[0].append_to(dst);
    list[1].append_to(dst);
    list[2].append_to(dst);
    list[3].append_to(dst);
    list[4].append_to(dst);
    list[5].append_to(dst);
    list[6].append_to(dst);
    list[7].append_to(dst);
    assert(dst@ =~= old(dst)@ + addresses_bytes(*list));
}

/// The record of a claim type: the program and opcode that verify a claim of
/// this type.
#[derive(Clone, Copy, Debug, PartialEq)]
pub struct ClaimType {
    pub is_initialized: bool,
    pub check_program_id: Address,
    pub check_program_instruction_id: u8,
}

/// The record of a claim: a subject holds a credential of a claim type.
#[derive(Clone, Copy, Debug, PartialEq)]
pub struct Claim {
    pub is_initialized: bool,
    pub claim_type_id: Address,
    pub subject_id: Address,
}

/// The record of a claim check: the claim types that the subject and the
/// issuer each have to hold. A list ends at its first null address.
#[derive(Clone, Copy, Debug, PartialEq)]
pub struct SimpleClaimCheck {
    pub is_initialized: bool,
    pub subject_required_credentials: [Address; 8],
    pub issuer_required_credentials: [Address; 8],
}

/// The kinds of credential that a heart token can hold.
#[derive(Clone, Copy, Debug, PartialEq, Eq, Structural)]
pub enum CredentialType {
    /// No credential: the kind of an empty slot
    Empty,
    /// May mint
    Minter,
    /// Holds a driver's license
    DriversLicense,
}

/// A credential and the address that verified it.
#[derive(Clone, Copy, Debug, PartialEq)]
pub struct VerifiedCredential {
    pub credential_type: CredentialType,
    pub verifier: Address,
}

/// The record of a heart token: its owner and the credentials verified for
/// the owner.
#[derive(Clone, Copy, Debug, PartialEq)]
pub struct HeartToken {
    pub is_initialized: bool,
    pub owner: Address,
    pub verified_credentials: [VerifiedCredential; 10],
}

impl ClaimType {
    /// Bytes that a claim type record occupies.
    pub const LEN: usize = 34;

    /// The 34 bytes of the record, field after field.
    pub open spec fn spec_pack(self) -> Seq<u8> {
        seq![bool_byte(self.is_initialized)] + self.check_program_id@ + seq![
            self.check_program_instruction_id,
        ]
    }

    /// The record that a buffer holds. A buffer of another length than 34
    /// and a boolean byte other than 0 and 1 are invalid account data.
    pub open spec fn spec_unpack(src: Seq<u8>) -> Result<ClaimType, ProgramFault> {
        if src.len() != 34 {
            Err(ProgramFault::InvalidAccountData)
        } else {
            match byte_bool(src[0]) {
                Some(is_initialized) => Ok(
                    ClaimType {
                        is_initialized,
                        check_program_id: address_at(src, 1),
                        check_program_instruction_id: src[33],
                    },
                ),
                None => Err(ProgramFault::InvalidAccountData),
            }
        }
    }

    /// Decoding the bytes of a record gives the record back.
    pub proof fn lemma_round_trip(v: ClaimType)
        ensures
            v.spec_pack().len() == 34,
            ClaimType::spec_unpack(v.spec_pack()) == Ok::<ClaimType, ProgramFault>(v),
    {
        let s = v.spec_pack();
        assert(s.len() == 34);
        assert(s.subrange(1, 33) =~= v.check_program_id@);
        lemma_address_at_of(s, 1, v.check_program_id);
        assert(s[0] == bool_byte(v.is_initialized));
        assert(s[33] == v.check_program_instruction_id);
    }

    /// A buffer shorter than the record, and one of the record's length
    /// whose first byte is no boolean, are invalid account data.
    pub proof fn lemma_rejects(src: Seq<u8>)
        requires
            src.len() < 34 || (src.len() == 34 && src[0] > 1),
        ensures
            ClaimType::spec_unpack(src) == Err::<ClaimType, ProgramFault>(
                ProgramFault::InvalidAccountData,
            ),
    {
    }

    /// Decodes a claim type record from a buffer.
    pub fn unpack_from_slice(src: &[u8]) -> (r: Result<ClaimType, ProgramFault>)
        ensures
            r == ClaimType::spec_unpack(src@),
    {
        if src.len() != ClaimType::LEN {
            return Err(ProgramFault::InvalidAccountData);
        }
        let is_initialized = unpack_bool(src[0])?;
        Ok(
            ClaimType {
                is_initialized,
                check_program_id: Address::read_from(src, 1),
                check_program_instruction_id: src[33],
            },
        )
    }

    /// The bytes of the record in a buffer of their own.
    pub fn pack(&self) -> (r: Vec<u8>)
        ensures
            r@ == self.spec_pack(),
            r@.len() == 34,
    {
        let mut buf: Vec<u8> = Vec::new();
        buf.push(pack_bool(self.is_initialized));
        self.check_program_id.append_to(&mut buf);
        buf.push(self.check_program_instruction_id);
        assert(buf@ =~= self.spec_pack());
        buf
    }

    /// Overwrites the first 34 bytes of `dst` with the record.
    pub fn pack_into_slice(&self, dst: &mut [u8])
        requires
            old(dst)@.len() >= 34,
        ensures
            final(dst)@ == self.spec_pack() + old(dst)@.subrange(34, old(dst)@.len() as int),
    {
        let buf = self.pack();
        overwrite_prefix(dst, &buf);
    }

    /// Whether the record has been initialized.
    pub fn is_initialized(&self) -> (r: bool)
        ensures
            r == self.is_initialized,
    {
        self.is_initialized
    }
}

impl Claim {
    /// Bytes that a claim record occupies.
    pub const LEN: usize = 65;

    /// The 65 bytes of the record, field after field.
    pub open spec fn spec_pack(self) -> Seq<u8> {
        seq![bool_byte(self.is_initialized)] + self.claim_type_id@ + self.subject_id@
    }

    /// The record that a buffer holds. A buffer of another length than 65
    /// and a boolean byte other than 0 and 1 are invalid account data.
    pub open spec fn spec_unpack(src: Seq<u8>) -> Result<Claim, ProgramFault> {
        if src.len() != 65 {
            Err(ProgramFault::InvalidAccountData)
        } else {
            match byte_bool(src[0]) {
                Some(is_initialized) => Ok(
                    Claim {
                        is_initialized,
                        claim_type_id: address_at(src, 1),
                        subject_id: address_at(src, 33),
                    },
                ),
                None => Err(ProgramFault::InvalidAccountData),
            }
        }
    }

    /// Decoding the bytes of a record gives the record back.
    pub proof fn lemma_round_trip(v: Claim)
        ensures
            v.spec_pack().len() == 65,
            Claim::spec_unpack(v.spec_pack()) == Ok::<Claim, ProgramFault>(v),
    {
        let s = v.spec_pack();
        assert(s.len() == 65);
        assert(s.subrange(1, 33) =~= v.claim_type_id@);
        assert(s.subrange(33, 65) =~= v.subject_id@);
        lemma_address_at_of(s, 1, v.claim_type_id);
        lemma_address_at_of(s, 33, v.subject_id);
        assert(s[0] == bool_byte(v.is_initialized));
    }

    /// A buffer shorter than the record, and one of the record's length
    /// whose first byte is no boolean, are invalid account data.
    pub proof fn lemma_rejects(src: Seq<u8>)
        requires
            src.len() < 65 || (src.len() == 65 && src[0] > 1),
        ensures
            Claim::spec_unpack(src) == Err::<Claim, ProgramFault>(ProgramFault::InvalidAccountData),
    {
    }

    /// Decodes a claim record from a buffer.
    pub fn unpack_from_slice(src: &[u8]) -> (r: Result<Claim, ProgramFault>)
        ensures
            r == Claim::spec_unpack(src@),
    {
        if src.len() != Claim::LEN {
            return Err(ProgramFault::InvalidAccountData);
        }
        let is_initialized = unpack_bool(src[0])?;
        Ok(
            Claim {
                is_initialized,
                claim_type_id: Address::read_from(src, 1),
                subject_id: Address::read_from(src, 33),
            },
        )
    }

    /// The bytes of the record in a buffer of their own.
    pub fn pack(&self) -> (r: Vec<u8>)
        ensures
            r@ == self.spec_pack(),
            r@.len() == 65,
    {
        let mut buf: Vec<u8> = Vec::new();
        buf.push(pack_bool(self.is_initialized));
        self.claim_type_id.append_to(&mut buf);
        self.subject_id.append_to(&mut buf);
        assert(buf@ =~= self.spec_pack());
        buf
    }

    /// Overwrites the first 65 bytes of `dst` with the record.
    pub fn pack_into_slice(&self, dst: &mut [u8])
        requires
            old(dst)@.len() >= 65,
        ensures
            final(dst)@ == self.spec_pack() + old(dst)@.subrange(65, old(dst)@.len() as int),
    {
        let buf = self.pack();
        overwrite_prefix(dst, &buf);
    }

    /// Whether the record has been initialized.
    pub fn is_initialized(&self) -> (r: bool)
        ensures
            r == self.is_initialized,
    {
        self.is_initialized
    }
}

impl SimpleClaimCheck {
    /// Bytes that a claim check record occupies.
    pub const LEN: usize = 513;

    /// The 513 bytes of the record: the flag, the eight slots of the
    /// subject's list, the eight slots of the issuer's list.
    pub open spec fn spec_pack(self) -> Seq<u8> {
        seq![bool_byte(self.is_initialized)] + addresses_bytes(self.subject_required_credentials)
            + addresses_bytes(self.issuer_required_credentials)
    }

    /// The record that a buffer holds. A buffer of another length than 513
    /// and a boolean byte other than 0 and 1 are invalid account data.
    pub open spec fn spec_unpack(src: Seq<u8>) -> Result<SimpleClaimCheck, ProgramFault> {
        if src.len() != 513 {
            Err(ProgramFault::InvalidAccountData)
        } else {
            match byte_bool(src[0]) {
                Some(is_initialized) => Ok(
                    SimpleClaimCheck {
                        is_initialized,
                        subject_required_credentials: addresses_at(src, 1),
                        issuer_required_credentials: addresses_at(src, 257),
                    },
                ),
                None => Err(ProgramFault::InvalidAccountData),
            }
        }
    }

    /// Decoding the bytes of a record gives the record back.
    pub proof fn lemma_round_trip(v: SimpleClaimCheck)
        ensures
            v.spec_pack().len() == 513,
            SimpleClaimCheck::spec_unpack(v.spec_pack()) == Ok::<SimpleClaimCheck, ProgramFault>(v),
    {
        let s = v.spec_pack();
        assert(addresses_bytes(v.subject_required_credentials).len() == 256);
        assert(addresses_bytes(v.issuer_required_credentials).len() == 256);
        assert(s.len() == 513);
        assert(s.subrange(1, 257) =~= addresses_bytes(v.subject_required_credentials));
        assert(s.subrange(257, 513) =~= addresses_bytes(v.issuer_required_credentials));
        lemma_addresses_at_of(s, 1, v.subject_required_credentials);
        lemma_addresses_at_of(s, 257, v.issuer_required_credentials);
        assert(s[0] == bool_byte(v.is_initialized));
    }

    /// A buffer shorter than the record, and one of the record's length
    /// whose first byte is no boolean, are invalid account data.
    pub proof fn lemma_rejects(src: Seq<u8>)
        requires
            src.len() < 513 || (src.len() == 513 && src[0] > 1),
        ensures
            SimpleClaimCheck::spec_unpack(src) == Err::<SimpleClaimCheck, ProgramFault>(
                ProgramFault::InvalidAccountData,
            ),
    {
    }

    /// Decodes a claim check record from a buffer.
    pub fn unpack_from_slice(src: &[u8]) -> (r: Result<SimpleClaimCheck, ProgramFault>)
        ensures
            r == SimpleClaimCheck::spec_unpack(src@),
    {
        if src.len() != SimpleClaimCheck::LEN {
            return Err(ProgramFault::InvalidAccountData);
        }
        let is_initialized = unpack_bool(src[0])?;
        Ok(
            SimpleClaimCheck {
                is_initialized,
                subject_required_credentials: read_addresses(src, 1),
                issuer_required_credentials: read_addresses(src, 257),
            },
        )
    }

    /// The bytes of the record in a buffer of their own.
    pub fn pack(&self) -> (r: Vec<u8>)
        ensures
            r@ == self.spec_pack(),
            r@.len() == 513,
    {
        let mut buf: Vec<u8> = Vec::new();
        buf.push(pack_bool(self.is_initialized));
        append_addresses(&self.subject_required_credentials, &mut buf);
        append_addresses(&self.issuer_required_credentials, &mut buf);
        assert(buf@ =~= self.spec_pack());
        buf
    }

    /// Overwrites the first 513 bytes of `dst` with the record.
    pub fn pack_into_slice(&self, dst: &mut [u8])
        requires
            old(dst)@.len() >= 513,
        ensures
            final(dst)@ == self.spec_pack() + old(dst)@.subrange(513, old(dst)@.len() as int),
    {
        let buf = self.pack();
        overwrite_prefix(dst, &buf);
    }

    /// Whether the record has been initialized.
    pub fn is_initialized(&self) -> (r: bool)
        ensures
            r == self.is_initialized,
    {
        self.is_initialized
    }
}

/// The byte that stands for a kind of credential.
pub open spec fn credential_byte(t: CredentialType) -> u8 {
    match t {
        CredentialType::Empty => 0u8,
        CredentialType::Minter => 1u8,
        CredentialType::DriversLicense => 2u8,
    }
}

/// The kind of credential that a byte stands for, if any.
pub open spec fn byte_credential(x: u8) -> Option<CredentialType> {
    if x == 0 {
        Some(CredentialType::Empty)
    } else if x == 1 {
        Some(CredentialType::Minter)
    } else if x == 2 {
        Some(CredentialType::DriversLicense)
    } else {
        None
    }
}

/// The credential that the 33 bytes of `s` from `o` on hold. A kind that is
/// not known is invalid account data.
pub open spec fn credential_at(s: Seq<u8>, o: int) -> Result<VerifiedCredential, ProgramFault> {
    match byte_credential(s[o]) {
        Some(credential_type) => Ok(
            VerifiedCredential { credential_type, verifier: address_at(s, o + 1) },
        ),
        None => Err(ProgramFault::InvalidAccountData),
    }
}

/// A credential is found again among bytes that hold its own at `o`.
pub proof fn lemma_credential_at_of(s: Seq<u8>, o: int, c: VerifiedCredential)
    requires
        0 <= o,
        o + 33 <= s.len(),
        s.subrange(o, o + 33) == c.spec_bytes(),
    ensures
        credential_at(s, o) == Ok::<VerifiedCredential, ProgramFault>(c),
{
    let w = s.subrange(o, o + 33);
    assert(s[o] == w[0]);
    assert(s.subrange(o + 1, o + 33) =~= w.subrange(1, 33));
    assert(w.subrange(1, 33) =~= c.verifier@);
    lemma_address_at_of(s, o + 1, c.verifier);
}

impl VerifiedCredential {
    /// Bytes that a verified credential occupies.
    pub const LEN: usize = 33;

    /// The 33 bytes of the credential: its kind, then its verifier.
    pub open spec fn spec_bytes(self) -> Seq<u8> {
        seq![credential_byte(self.credential_type)] + self.verifier@
    }

    /// Decoding the bytes of a credential gives the credential back.
    pub proof fn lemma_round_trip(c: VerifiedCredential)
        ensures
            c.spec_bytes().len() == 33,
            credential_at(c.spec_bytes(), 0) == Ok::<VerifiedCredential, ProgramFault>(c),
    {
        assert(c.spec_bytes().subrange(0, 33) =~= c.spec_bytes());
        lemma_credential_at_of(c.spec_bytes(), 0, c);
    }

    /// Whether this is the credential of an empty slot: no kind, and the
    /// null address.
    pub open spec fn is_empty(self) -> bool {
        self.credential_type == CredentialType::Empty && self.verifier.spec_is_null()
    }

    /// The credential of an empty slot.
    pub fn empty() -> (r: VerifiedCredential)
        ensures
            r.is_empty(),
    {
        VerifiedCredential { credential_type: CredentialType::Empty, verifier: Address::null() }
    }

    /// Reads the credential in the 33 bytes of `src` from `offset` on.
    pub fn read_from(src: &[u8], offset: usize) -> (r: Result<VerifiedCredential, ProgramFault>)
        requires
            offset + 33 <= src.len(),
        ensures
            r == credential_at(src@, offset as int),
    {
        let kind = src[offset];
        let credential_type = if kind == 0 {
            CredentialType::Empty
        } else if kind == 1 {
            CredentialType::Minter
        } else if kind == 2 {
            CredentialType::DriversLicense
        } else {
            return Err(ProgramFault::InvalidAccountData);
        };
        Ok(VerifiedCredential { credential_type, verifier: Address::read_from(src, offset + 1) })
    }

    /// Appends the 33 bytes of the credential to `dst`.
    pub fn append_to(&self, dst: &mut Vec<u8>)
        ensures
            final(dst)@ == old(dst)@ + self.spec_bytes(),
    {
        dst.push(
            match self.credential_type {
                CredentialType::Empty => 0,
                CredentialType::Minter => 1,
                CredentialType::DriversLicense => 2,
            },
        );
        self.verifier.append_to(dst);
        assert(dst@ =~= old(dst)@ + self.spec_bytes());
    }
}

/// The bytes of ten credentials, one after the other.
#[verifier::opaque]
pub open spec fn credentials_bytes(list: [VerifiedCredential; 10]) -> Seq<u8> {
    list[0].spec_bytes() + list[1].spec_bytes() + list[2].spec_bytes() + list[3].spec_bytes() + list[4].spec_bytes() + list[5].spec_bytes() + list[6].spec_bytes() + list[7].spec_bytes() + list[8].spec_bytes() + list[9].spec_bytes()
}

/// Whether each of the ten slots of 33 bytes of `s` from `o` on holds a
/// credential of a known kind.
#[verifier::opaque]
pub open spec fn credentials_known(s: Seq<u8>, o: int) -> bool {
    credential_at(s, o) is Ok
            && credential_at(s, o + 33) is Ok
            && credential_at(s, o + 66) is Ok
            && credential_at(s, o + 99) is Ok
            && credential_at(s, o + 132) is Ok
            && credential_at(s, o + 165) is Ok
            && credential_at(s, o + 198) is Ok
            && credential_at(s, o + 231) is Ok
            && credential_at(s, o + 264) is Ok
            && credential_at(s, o + 297) is Ok
}

/// The ten credentials that the 330 bytes of `s` from `o` on hold.
#[verifier::opaque]
pub open spec fn credentials_at(s: Seq<u8>, o: int) -> [VerifiedCredential; 10] {
    [
        credential_at(s, o)->Ok_0,
        credential_at(s, o + 33)->Ok_0,
        credential_at(s, o + 66)->Ok_0,
        credential_at(s, o + 99)->Ok_0,
        credential_at(s, o + 132)->Ok_0,
        credential_at(s, o + 165)->Ok_0,
        credential_at(s, o + 198)->Ok_0,
        credential_at(s, o + 231)->Ok_0,
        credential_at(s, o + 264)->Ok_0,
        credential_at(s, o + 297)->Ok_0,
    ]
}

/// Ten credentials are found again among bytes that hold their own at `o`.
pub proof fn lemma_credentials_at_of(s: Seq<u8>, o: int, list: [VerifiedCredential; 10])
    requires
        0 <= o,
        o + 330 <= s.len(),
        s.subrange(o, o + 330) == credentials_bytes(list),
    ensures
        credentials_known(s, o),
        credentials_at(s, o) == list,
{
    reveal(credentials_bytes);
    reveal(credentials_known);
    reveal(credentials_at);
    let w = s.subrange(o, o + 330);
    assert forall|k: int| 0 <= k < 10 implies s.subrange(o + 33 * k, o + 33 * k + 33) == (
    #[trigger] list[k]).spec_bytes() by {
        assert(s.subrange(o + 33 * k, o + 33 * k + 33) =~= w.subrange(33 * k, 33 * k + 33));
        assert(w.subrange(33 * k, 33 * k + 33) =~= list[k].spec_bytes());
    }
    lemma_credential_at_of(s, o + 0, list[0]);
    lemma_credential_at_of(s, o + 33, list[1]);
    lemma_credential_at_of(s, o + 66, list[2]);
    lemma_credential_at_of(s, o + 99, list[3]);
    lemma_credential_at_of(s, o + 132, list[4]);
    lemma_credential_at_of(s, o + 165, list[5]);
    lemma_credential_at_of(s, o + 198, list[6]);
    lemma_credential_at_of(s, o + 231, list[7]);
    lemma_credential_at_of(s, o + 264, list[8]);
    lemma_credential_at_of(s, o + 297, list[9]);
    assert(credentials_at(s, o) =~= list);
}

impl HeartToken {
    /// Bytes that a heart token record occupies.
    pub const LEN: usize = 363;

    /// The 363 bytes of the record: the flag, the owner, the ten slots.
    pub open spec fn spec_pack(self) -> Seq<u8> {
        seq![bool_byte(self.is_initialized)] + self.owner@ + credentials_bytes(
            self.verified_credentials,
        )
    }

    /// The record that a buffer holds. A buffer of another length than 363,
    /// a boolean byte other than 0 and 1, and a credential of a kind that is
    /// not known are invalid account data.
    pub open spec fn spec_unpack(src: Seq<u8>) -> Result<HeartToken, ProgramFault> {
        if src.len() != 363 {
            Err(ProgramFault::InvalidAccountData)
        } else {
            match byte_bool(src[0]) {
                Some(is_initialized) => if credentials_known(src, 33) {
                    Ok(
                        HeartToken {
                            is_initialized,
                            owner: address_at(src, 1),
                            verified_credentials: credentials_at(src, 33),
                        },
                    )
                } else {
                    Err(ProgramFault::InvalidAccountData)
                },
                None => Err(ProgramFault::InvalidAccountData),
            }
        }
    }

    /// Whether one of the ten slots holds a credential of the kind given.
    pub open spec fn spec_holds(&self, kind: CredentialType) -> bool {
        exists|k: int| 0 <= k < 10 && (#[trigger] self.verified_credentials[k]).credential_type == kind
    }

    /// Decoding the bytes of a record gives the record back.
    pub proof fn lemma_round_trip(v: HeartToken)
        ensures
            v.spec_pack().len() == 363,
            HeartToken::spec_unpack(v.spec_pack()) == Ok::<HeartToken, ProgramFault>(v),
    {
        let s = v.spec_pack();
        assert(credentials_bytes(v.verified_credentials).len() == 330) by {
            reveal(credentials_bytes);
        }
        assert(s.len() == 363);
        assert(s.subrange(1, 33) =~= v.owner@);
        assert(s.subrange(33, 363) =~= credentials_bytes(v.verified_credentials));
        lemma_address_at_of(s, 1, v.owner);
        lemma_credentials_at_of(s, 33, v.verified_credentials);
        assert(s[0] == bool_byte(v.is_initialized));
    }

    /// A buffer shorter than the record, one of the record's length whose
    /// first byte is no boolean, and one whose first slot names a kind of
    /// credential that is not known, are invalid account data.
    pub proof fn lemma_rejects(src: Seq<u8>)
        requires
            src.len() < 363 || (src.len() == 363 && (src[0] > 1 || src[33] > 2)),
        ensures
            HeartToken::spec_unpack(src) == Err::<HeartToken, ProgramFault>(
                ProgramFault::InvalidAccountData,
            ),
    {
        reveal(credentials_known);
    }

    /// Decodes a heart token record from a buffer.
    pub fn unpack_from_slice(src: &[u8]) -> (r: Result<HeartToken, ProgramFault>)
        ensures
            r == HeartToken::spec_unpack(src@),
    {
        if src.len() != HeartToken::LEN {
            return Err(ProgramFault::InvalidAccountData);
        }
        let is_initialized = unpack_bool(src[0])?;
        let offset: usize = 33;
        proof {
            reveal(credentials_known);
        }
        let c0 = VerifiedCredential::read_from(src, offset)?;
        let c1 = VerifiedCredential::read_from(src, offset + 33)?;
        let c2 = VerifiedCredential::read_from(src, offset + 66)?;
        let c3 = VerifiedCredential::read_from(src, offset + 99)?;
        let c4 = VerifiedCredential::read_from(src, offset + 132)?;
        let c5 = VerifiedCredential::read_from(src, offset + 165)?;
        let c6 = VerifiedCredential::read_from(src, offset + 198)?;
        let c7 = VerifiedCredential::read_from(src, offset + 231)?;
        let c8 = VerifiedCredential::read_from(src, offset + 264)?;
        let c9 = VerifiedCredential::read_from(src, offset + 297)?;
        let verified_credentials = [c0, c1, c2, c3, c4, c5, c6, c7, c8, c9];
        proof {
            reveal(credentials_known);
            reveal(credentials_at);
            assert(credentials_known(src@, 33));
            assert(verified_credentials =~= credentials_at(src@, 33));
        }
        Ok(HeartToken { is_initialized, owner: Address::read_from(src, 1), verified_credentials })
    }

    /// The bytes of the record in a buffer of their own.
    pub fn pack(&self) -> (r: Vec<u8>)
        ensures
            r@ == self.spec_pack(),
            r@.len() == 363,
    {
        let mut buf: Vec<u8> = Vec::new();
        buf.push(pack_bool(self.is_initialized));
        self.owner.append_to(&mut buf);
        let list = &self.verified_credentials;
        let dst = &mut buf;
        list[0].append_to(dst);
        list[1].append_to(dst);
        list[2].append_to(dst);
        list[3].append_to(dst);
        list[4].append_to(dst);
        list[5].append_to(dst);
        list[6].append_to(dst);
        list[7].append_to(dst);
        list[8].append_to(dst);
        list[9].append_to(dst);
        proof {
            reveal(credentials_bytes);
            assert(buf@ =~= self.spec_pack());
        }
        buf
    }

    /// Overwrites the first 363 bytes of `dst` with the record.
    pub fn pack_into_slice(&self, dst: &mut [u8])
        requires
            old(dst)@.len() >= 363,
        ensures
            final(dst)@ == self.spec_pack() + old(dst)@.subrange(363, old(dst)@.len() as int),
    {
        let buf = self.pack();
        overwrite_prefix(dst, &buf);
    }

    /// Whether the record has been initialized.
    pub fn is_initialized(&self) -> (r: bool)
        ensures
            r == self.is_initialized,
    {
        self.is_initialized
    }

    /// Whether one of the ten slots holds a credential of the kind given.
    #[verifier::when_used_as_spec(spec_holds)]
    pub fn holds(&self, kind: CredentialType) -> (r: bool)
        ensures
            r == self.spec_holds(kind),
    {
        let mut i: usize = 0;
        while i < 10
            invariant
                i <= 10,
                forall|k: int| 0 <= k < i ==> (#[trigger] self.verified_credentials[k]).credential_type != kind,
            decreases 10 - i,
        {
            if self.verified_credentials[i].credential_type == kind {
                return true;
            }
            i = i + 1;
        }
        false
    }
}

} // verus!
