use crate::address::{address_at, lemma_address_at_of, Address};
use crate::codec::{
    append_u64_le, bool_byte, byte_bool, lemma_option_key_at_of, lemma_u64_le_round_trip,
    option_key_at, option_key_bytes, overwrite_prefix, pack_bool, pack_coption_key, read_u64_le,
    u64_from_le, u64_to_le, unpack_bool, unpack_coption_key,
};
use crate::error::ProgramFault;
use vstd::prelude::*;

verus! {

/// The record of a configured vault, as its storage slot holds it.
#[derive(Clone, Copy, Debug, PartialEq)]
pub struct Vault {
    pub is_initialized: bool,
    pub hodl: bool,
    pub llx_token_mint_id: Address,
    pub lx_token_account: Address,
    pub x_token_account: Option<Address>,
    pub strategy_program_id: Address,
    pub strategy_program_deposit_instruction_id: u8,
    pub strategy_program_withdraw_instruction_id: u8,
    pub strategy_data_account: Option<Address>,
}

impl Vault {
    /// Bytes that a vault record occupies.
    pub const LEN: usize = 172;

    /// A vault holds its direct-custody account exactly when it is in hodl mode.
    pub open spec fn well_formed(self) -> bool {
        self.hodl == self.x_token_account.is_some()
    }

    /// The 172 bytes of the record, field after field.
    pub open spec fn spec_pack(self) -> Seq<u8> {
        seq![bool_byte(self.is_initialized), bool_byte(self.hodl)] + self.llx_token_mint_id@
            + self.lx_token_account@ + option_key_bytes(self.x_token_account)
            + self.strategy_program_id@ + seq![
            self.strategy_program_deposit_instruction_id,
            self.strategy_program_withdraw_instruction_id,
        ] + option_key_bytes(self.strategy_data_account)
    }

    /// The record that a buffer holds. A buffer of another length than 172,
    /// a boolean byte other than 0 and 1, and an option tag other than 0 and
    /// 1 are invalid account data.
    pub open spec fn spec_unpack(src: Seq<u8>) -> Result<Vault, ProgramFault> {
        if src.len() != 172 {
            Err(ProgramFault::InvalidAccountData)
        } else {
            match (
                byte_bool(src[0]),
                byte_bool(src[1]),
                option_key_at(src, 66),
                option_key_at(src, 136),
            ) {
                (Some(is_initialized), Some(hodl), Ok(x_token_account), Ok(strategy_data_account)) => Ok(
                    Vault {
                        is_initialized,
                        hodl,
                        llx_token_mint_id: address_at(src, 2),
                        lx_token_account: address_at(src, 34),
                        x_token_account,
                        strategy_program_id: address_at(src, 102),
                        strategy_program_deposit_instruction_id: src[134],
                        strategy_program_withdraw_instruction_id: src[135],
                        strategy_data_account,
                    },
                ),
                _ => Err(ProgramFault::InvalidAccountData),
            }
        }
    }

    /// Decoding the bytes of a record gives the record back.
    pub proof fn lemma_round_trip(v: Vault)
        ensures
            v.spec_pack().len() == 172,
            Vault::spec_unpack(v.spec_pack()) == Ok::<Vault, ProgramFault>(v),
    {
        let s = v.spec_pack();
        assert(option_key_bytes(v.x_token_account).len() == 36);
        assert(option_key_bytes(v.strategy_data_account).len() == 36);
        assert(s.len() == 172);
        assert(s.subrange(2, 34) =~= v.llx_token_mint_id@);
        assert(s.subrange(34, 66) =~= v.lx_token_account@);
        assert(s.subrange(66, 102) =~= option_key_bytes(v.x_token_account));
        assert(s.subrange(102, 134) =~= v.strategy_program_id@);
        assert(s.subrange(136, 172) =~= option_key_bytes(v.strategy_data_account));
        lemma_address_at_of(s, 2, v.llx_token_mint_id);
        lemma_address_at_of(s, 34, v.lx_token_account);
        lemma_address_at_of(s, 102, v.strategy_program_id);
        lemma_option_key_at_of(s, 66, v.x_token_account);
        lemma_option_key_at_of(s, 136, v.strategy_data_account);
        assert(s[0] == bool_byte(v.is_initialized));
        assert(s[1] == bool_byte(v.hodl));
        assert(s[134] == v.strategy_program_deposit_instruction_id);
        assert(s[135] == v.strategy_program_withdraw_instruction_id);
    }

    /// A buffer shorter than the record, and one of the record's length whose
    /// first or second byte is no boolean, are invalid account data.
    pub proof fn lemma_rejects(src: Seq<u8>)
        requires
            src.len() < 172 || (src.len() == 172 && (src[0] > 1 || src[1] > 1)),
        ensures
            Vault::spec_unpack(src) == Err::<Vault, ProgramFault>(ProgramFault::InvalidAccountData),
    {
    }

    /// Decodes a vault record from a buffer.
    pub fn unpack_from_slice(src: &[u8]) -> (r: Result<Vault, ProgramFault>)
        ensures
            r == Vault::spec_unpack(src@),
    {
        if src.len() != Vault::LEN {
            return Err(ProgramFault::InvalidAccountData);
        }
        let hodl = match unpack_bool(src[1]) {
            Ok(b) => b,
            Err(e) => {
                return Err(e);
            },
        };
        let is_initialized = match unpack_bool(src[0]) {
            Ok(b) => b,
            Err(e) => {
                return Err(e);
            },
        };
        let strategy_data_account = match unpack_coption_key(src, 136) {
            Ok(k) => k,
            Err(e) => {
                return Err(e);
            },
        };
        let x_token_account = match unpack_coption_key(src, 66) {
            Ok(k) => k,
            Err(e) => {
                return Err(e);
            },
        };
        Ok(
            Vault {
                is_initialized,
                hodl,
                llx_token_mint_id: Address::read_from(src, 2),
                lx_token_account: Address::read_from(src, 34),
                x_token_account,
                strategy_program_id: Address::read_from(src, 102),
                strategy_program_deposit_instruction_id: src[134],
                strategy_program_withdraw_instruction_id: src[135],
                strategy_data_account,
            },
        )
    }

    /// The bytes of the record in a buffer of their own.
    pub fn pack(&self) -> (r: Vec<u8>)
        ensures
            r@ == self.spec_pack(),
            r@.len() == 172,
    {
        let mut buf: Vec<u8> = Vec::new();
        buf.push(pack_bool(self.is_initialized));
        buf.push(pack_bool(self.hodl));
        self.llx_token_mint_id.append_to(&mut buf);
        self.lx_token_account.append_to(&mut buf);
        pack_coption_key(&self.x_token_account, &mut buf);
        self.strategy_program_id.append_to(&mut buf);
        buf.push(self.strategy_program_deposit_instruction_id);
        buf.push(self.strategy_program_withdraw_instruction_id);
        pack_coption_key(&self.strategy_data_account, &mut buf);
        assert(buf@ =~= self.spec_pack());
        buf
    }

    /// Overwrites the first 172 bytes of `dst` with the record.
    pub fn pack_into_slice(&self, dst: &mut [u8])
        requires
            old(dst)@.len() >= 172,
        ensures
            final(dst)@ == self.spec_pack() + old(dst)@.subrange(172, old(dst)@.len() as int),
    {
        let buf = self.pack();
        overwrite_prefix(dst, &buf);
    }

    /// Whether the record has been configured.
    pub fn is_initialized(&self) -> (r: bool)
        ensures
            r == self.is_initialized,
    {
        self.is_initialized
    }
}

/// The record of an escrow, as its storage slot holds it.
#[derive(Clone, Copy, Debug, PartialEq)]
pub struct Escrow {
    pub is_initialized: bool,
    pub initializer: Address,
    pub temp_account: Address,
    pub expected_receive_account: Address,
    pub expected_amount: u64,
}

impl Escrow {
    /// Bytes that an escrow record occupies.
    pub const LEN: usize = 105;

    /// The 105 bytes of the record, field after field, the amount in
    /// little-endian bytes.
    pub open spec fn spec_pack(self) -> Seq<u8> {
        seq![bool_byte(self.is_initialized)] + self.initializer@ + self.temp_account@
            + self.expected_receive_account@ + u64_to_le(self.expected_amount)
    }

    /// The record that a buffer holds. A buffer of another length than 105
    /// and a boolean byte other than 0 and 1 are invalid account data.
    pub open spec fn spec_unpack(src: Seq<u8>) -> Result<Escrow, ProgramFault> {
        if src.len() != 105 {
            Err(ProgramFault::InvalidAccountData)
        } else {
            match byte_bool(src[0]) {
                Some(is_initialized) => Ok(
                    Escrow {
                        is_initialized,
                        initializer: address_at(src, 1),
                        temp_account: address_at(src, 33),
                        expected_receive_account: address_at(src, 65),
                        expected_amount: u64_from_le(src.subrange(97, 105)) as u64,
                    },
                ),
                None => Err(ProgramFault::InvalidAccountData),
            }
        }
    }

    /// Decoding the bytes of a record gives the record back.
    pub proof fn lemma_round_trip(v: Escrow)
        ensures
            v.spec_pack().len() == 105,
            Escrow::spec_unpack(v.spec_pack()) == Ok::<Escrow, ProgramFault>(v),
    {
        let s = v.spec_pack();
        lemma_u64_le_round_trip(v.expected_amount);
        assert(s.len() == 105);
        assert(s.subrange(1, 33) =~= v.initializer@);
        assert(s.subrange(33, 65) =~= v.temp_account@);
        assert(s.subrange(65, 97) =~= v.expected_receive_account@);
        assert(s.subrange(97, 105) =~= u64_to_le(v.expected_amount));
        lemma_address_at_of(s, 1, v.initializer);
        lemma_address_at_of(s, 33, v.temp_account);
        lemma_address_at_of(s, 65, v.expected_receive_account);
        assert(s[0] == bool_byte(v.is_initialized));
    }

    /// A buffer shorter than the record, and one of the record's length
    /// whose first byte is no boolean, are invalid account data.
    pub proof fn lemma_rejects(src: Seq<u8>)
        requires
            src.len() < 105 || (src.len() == 105 && src[0] > 1),
        ensures
            Escrow::spec_unpack(src) == Err::<Escrow, ProgramFault>(ProgramFault::InvalidAccountData),
    {
    }

    /// Decodes an escrow record from a buffer.
    pub fn unpack_from_slice(src: &[u8]) -> (r: Result<Escrow, ProgramFault>)
        ensures
            r == Escrow::spec_unpack(src@),
    {
        if src.len() != Escrow::LEN {
            return Err(ProgramFault::InvalidAccountData);
        }
        let is_initialized = unpack_bool(src[0])?;
        Ok(
            Escrow {
                is_initialized,
                initializer: Address::read_from(src, 1),
                temp_account: Address::read_from(src, 33),
                expected_receive_account: Address::read_from(src, 65),
                expected_amount: read_u64_le(src, 97),
            },
        )
    }

    /// The bytes of the record in a buffer of their own.
    pub fn pack(&self) -> (r: Vec<u8>)
        ensures
            r@ == self.spec_pack(),
            r@.len() == 105,
    {
        let mut buf: Vec<u8> = Vec::new();
        buf.push(pack_bool(self.is_initialized));
        self.initializer.append_to(&mut buf);
        self.temp_account.append_to(&mut buf);
        self.expected_receive_account.append_to(&mut buf);
        append_u64_le(self.expected_amount, &mut buf);
        assert(buf@ =~= self.spec_pack());
        buf
    }

    /// Overwrites the first 105 bytes of `dst` with the record.
    pub fn pack_into_slice(&self, dst: &mut [u8])
        requires
            old(dst)@.len() >= 105,
        ensures
            final(dst)@ == self.spec_pack() + old(dst)@.subrange(105, old(dst)@.len() as int),
    {
        let buf = self.pack();
        overwrite_prefix(dst, &buf);
    }

    /// Whether the record has been initialized.
    pub fn is_initialized(&self) -> (r: bool)
        ensures
            r == self.is_initialized,
    {
        self.is_initialized
    }
}

} // verus!
