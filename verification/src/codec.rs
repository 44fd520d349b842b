use crate::address::{address_at, lemma_address_at_of, Address};
use crate::error::ProgramFault;
use vstd::prelude::*;

verus! {

/// Bytes that an optional address occupies: a 4-byte tag and a 32-byte body.
pub const OPTION_KEY_LEN: usize = 36;

/// The byte that stands for a boolean.
pub open spec fn bool_byte(b: bool) -> u8 {
    if b {
        1u8
    } else {
        0u8
    }
}

/// The boolean that a byte stands for; bytes other than 0 and 1 stand for none.
pub open spec fn byte_bool(x: u8) -> Option<bool> {
    if x == 0 {
        Some(false)
    } else if x == 1 {
        Some(true)
    } else {
        None
    }
}

/// The number that eight bytes hold, least significant byte first.
pub open spec fn u64_from_le(b: Seq<u8>) -> int
    recommends
        b.len() == 8,
{
    b[0] as int + b[1] as int * 0x100 + b[2] as int * 0x1_0000 + b[3] as int * 0x100_0000 + b[4] as int
        * 0x1_0000_0000 + b[5] as int * 0x100_0000_0000 + b[6] as int * 0x1_0000_0000_0000 + b[7] as int
        * 0x100_0000_0000_0000
}

/// The eight bytes that hold a number, least significant byte first.
pub open spec fn u64_to_le(x: u64) -> Seq<u8> {
    seq![
        (x % 0x100) as u8,
        ((x / 0x100) % 0x100) as u8,
        ((x / 0x1_0000) % 0x100) as u8,
        ((x / 0x100_0000) % 0x100) as u8,
        ((x / 0x1_0000_0000) % 0x100) as u8,
        ((x / 0x100_0000_0000) % 0x100) as u8,
        ((x / 0x1_0000_0000_0000) % 0x100) as u8,
        ((x / 0x100_0000_0000_0000) % 0x100) as u8,
    ]
}

/// Splitting off the lowest byte: the remainder is the byte, the quotient the rest.
proof fn lemma_low_byte(n: int, b: int, rest: int)
    requires
        0 <= b < 0x100,
        n == b + rest * 0x100,
    ensures
        n % 0x100 == b,
        n / 0x100 == rest,
{
    vstd::arithmetic::div_mod::lemma_fundamental_div_mod_converse(n, 0x100, rest, b);
}

/// The quotients by the powers of 256 are reached one division by 256 at a time.
proof fn lemma_byte_quotients(n: int)
    requires
        0 <= n,
    ensures
        n / 0x1_0000 == (n / 0x100) / 0x100,
        n / 0x100_0000 == (n / 0x1_0000) / 0x100,
        n / 0x1_0000_0000 == (n / 0x100_0000) / 0x100,
        n / 0x100_0000_0000 == (n / 0x1_0000_0000) / 0x100,
        n / 0x1_0000_0000_0000 == (n / 0x100_0000_0000) / 0x100,
        n / 0x100_0000_0000_0000 == (n / 0x1_0000_0000_0000) / 0x100,
{
    vstd::arithmetic::div_mod::lemma_div_denominator(n, 0x100, 0x100);
    vstd::arithmetic::div_mod::lemma_div_denominator(n, 0x1_0000, 0x100);
    vstd::arithmetic::div_mod::lemma_div_denominator(n, 0x100_0000, 0x100);
    vstd::arithmetic::div_mod::lemma_div_denominator(n, 0x1_0000_0000, 0x100);
    vstd::arithmetic::div_mod::lemma_div_denominator(n, 0x100_0000_0000, 0x100);
    vstd::arithmetic::div_mod::lemma_div_denominator(n, 0x1_0000_0000_0000, 0x100);
}

/// A number is read back from the eight bytes written for it.
pub proof fn lemma_u64_le_round_trip(x: u64)
    ensures
        u64_to_le(x).len() == 8,
        u64_from_le(u64_to_le(x)) == x,
{
    let n = x as int;
    lemma_byte_quotients(n);
    let q1 = n / 0x100;
    let q2 = n / 0x1_0000;
    let q3 = n / 0x100_0000;
    let q4 = n / 0x1_0000_0000;
    let q5 = n / 0x100_0000_0000;
    let q6 = n / 0x1_0000_0000_0000;
    let q7 = n / 0x100_0000_0000_0000;
    assert(n == n % 0x100 + q1 * 0x100);
    assert(q1 == q1 % 0x100 + q2 * 0x100);
    assert(q2 == q2 % 0x100 + q3 * 0x100);
    assert(q3 == q3 % 0x100 + q4 * 0x100);
    assert(q4 == q4 % 0x100 + q5 * 0x100);
    assert(q5 == q5 % 0x100 + q6 * 0x100);
    assert(q6 == q6 % 0x100 + q7 * 0x100);
    assert(q7 < 0x100);
    assert(q7 % 0x100 == q7);
}

/// Eight bytes hold a number that fits 64 bits, and writing it gives them back.
pub proof fn lemma_u64_le_bytes(b: Seq<u8>)
    requires
        b.len() == 8,
    ensures
        0 <= u64_from_le(b) <= u64::MAX,
        u64_to_le(u64_from_le(b) as u64) == b,
{
    let n = u64_from_le(b);
    let r7 = b[7] as int;
    let r6 = b[6] as int + r7 * 0x100;
    let r5 = b[5] as int + r6 * 0x100;
    let r4 = b[4] as int + r5 * 0x100;
    let r3 = b[3] as int + r4 * 0x100;
    let r2 = b[2] as int + r3 * 0x100;
    let r1 = b[1] as int + r2 * 0x100;
    assert(n == b[0] as int + r1 * 0x100);
    lemma_byte_quotients(n);
    lemma_low_byte(n, b[0] as int, r1);
    lemma_low_byte(r1, b[1] as int, r2);
    lemma_low_byte(r2, b[2] as int, r3);
    lemma_low_byte(r3, b[3] as int, r4);
    lemma_low_byte(r4, b[4] as int, r5);
    lemma_low_byte(r5, b[5] as int, r6);
    lemma_low_byte(r6, b[6] as int, r7);
    assert(r7 % 0x100 == r7);
    assert(u64_to_le(n as u64) =~= b);
}

/// The bytes of an optional address: tag 1 and the address, or 36 zero bytes.
pub open spec fn option_key_bytes(k: Option<Address>) -> Seq<u8> {
    match k {
        Some(a) => seq![1u8, 0u8, 0u8, 0u8] + a@,
        None => Seq::new(36, |i: int| 0u8),
    }
}

/// The optional address that the 36 bytes of `s` from `o` on hold. A tag of
/// zero means none whatever the body holds; a tag other than 0 and 1 is
/// invalid account data.
pub open spec fn option_key_at(s: Seq<u8>, o: int) -> Result<Option<Address>, ProgramFault> {
    if s[o] == 0 && s[o + 1] == 0 && s[o + 2] == 0 && s[o + 3] == 0 {
        Ok(None)
    } else if s[o] == 1 && s[o + 1] == 0 && s[o + 2] == 0 && s[o + 3] == 0 {
        Ok(Some(address_at(s, o + 4)))
    } else {
        Err(ProgramFault::InvalidAccountData)
    }
}

/// An optional address is found again among bytes that hold its own at `o`.
pub proof fn lemma_option_key_at_of(s: Seq<u8>, o: int, k: Option<Address>)
    requires
        0 <= o,
        o + 36 <= s.len(),
        s.subrange(o, o + 36) == option_key_bytes(k),
    ensures
        option_key_at(s, o) == Ok::<Option<Address>, ProgramFault>(k),
{
    let w = s.subrange(o, o + 36);
    assert(s[o] == w[0] && s[o + 1] == w[1] && s[o + 2] == w[2] && s[o + 3] == w[3]);
    match k {
        Some(a) => {
            assert(s.subrange(o + 4, o + 36) =~= w.subrange(4, 36));
            assert(w.subrange(4, 36) =~= a@);
            lemma_address_at_of(s, o + 4, a);
        },
        None => {},
    }
}

/// Reads a boolean byte; a byte other than 0 and 1 is invalid account data.
pub fn unpack_bool(x: u8) -> (r: Result<bool, ProgramFault>)
    ensures
        r == (match byte_bool(x) {
            Some(b) => Ok::<bool, ProgramFault>(b),
            None => Err::<bool, ProgramFault>(ProgramFault::InvalidAccountData),
        }),
{
    if x == 0 {
        Ok(false)
    } else if x == 1 {
        Ok(true)
    } else {
        Err(ProgramFault::InvalidAccountData)
    }
}

/// The byte written for a boolean.
pub fn pack_bool(b: bool) -> (r: u8)
    ensures
        r == bool_byte(b),
{
    if b {
        1
    } else {
        0
    }
}

/// Reads the little-endian number in the eight bytes of `src` from `offset` on.
pub fn read_u64_le(src: &[u8], offset: usize) -> (r: u64)
    requires
        offset + 8 <= src.len(),
    ensures
        r == u64_from_le(src@.subrange(offset as int, offset + 8)),
{
    let b0: u64 = src[offset] as u64;
    let b1: u64 = src[offset + 1] as u64;
    let b2: u64 = src[offset + 2] as u64;
    let b3: u64 = src[offset + 3] as u64;
    let b4: u64 = src[offset + 4] as u64;
    let b5: u64 = src[offset + 5] as u64;
    let b6: u64 = src[offset + 6] as u64;
    let b7: u64 = src[offset + 7] as u64;
    b0 + b1 * 0x100 + b2 * 0x1_0000 + b3 * 0x100_0000 + b4 * 0x1_0000_0000 + b5 * 0x100_0000_0000
        + b6 * 0x1_0000_0000_0000 + b7 * 0x100_0000_0000_0000
}

/// Appends the eight little-endian bytes of `x` to `dst`.
pub fn append_u64_le(x: u64, dst: &mut Vec<u8>)
    ensures
        final(dst)@ == old(dst)@ + u64_to_le(x),
{
    dst.push((x % 0x100) as u8);
    dst.push(((x / 0x100) % 0x100) as u8);
    dst.push(((x / 0x1_0000) % 0x100) as u8);
    dst.push(((x / 0x100_0000) % 0x100) as u8);
    dst.push(((x / 0x1_0000_0000) % 0x100) as u8);
    dst.push(((x / 0x100_0000_0000) % 0x100) as u8);
    dst.push(((x / 0x1_0000_0000_0000) % 0x100) as u8);
    dst.push(((x / 0x100_0000_0000_0000) % 0x100) as u8);
    assert(dst@ =~= old(dst)@ + u64_to_le(x));
}

/// Appends the 36 bytes of an optional address to `dst`: tag 1 and the
/// address where there is one, zeros where there is none.
pub fn pack_coption_key(src: &Option<Address>, dst: &mut Vec<u8>)
    ensures
        final(dst)@ == old(dst)@ + option_key_bytes(*src),
        option_key_bytes(*src).len() == 36,
{
    match src {
        Some(key) => {
            dst.push(1);
            dst.push(0);
            dst.push(0);
            dst.push(0);
            key.append_to(dst);
            assert(dst@ =~= old(dst)@ + option_key_bytes(*src));
        },
        None => {
            let mut i: usize = 0;
            while i < 36
                invariant
                    i <= 36,
                    dst@ == old(dst)@ + Seq::new(i as nat, |j: int| 0u8),
                decreases 36 - i,
            {
                dst.push(0);
                i = i + 1;
                assert(dst@ =~= old(dst)@ + Seq::new(i as nat, |j: int| 0u8));
            }
        },
    }
}

/// Reads the optional address in the 36 bytes of `src` from `offset` on.
pub fn unpack_coption_key(src: &[u8], offset: usize) -> (r: Result<Option<Address>, ProgramFault>)
    requires
        offset + 36 <= src.len(),
    ensures
        r == option_key_at(src@, offset as int),
{
    let t0 = src[offset];
    let t1 = src[offset + 1];
    let t2 = src[offset + 2];
    let t3 = src[offset + 3];
    if t0 == 0 && t1 == 0 && t2 == 0 && t3 == 0 {
        Ok(None)
    } else if t0 == 1 && t1 == 0 && t2 == 0 && t3 == 0 {
        Ok(Some(Address::read_from(src, offset + 4)))
    } else {
        Err(ProgramFault::InvalidAccountData)
    }
}

/// Overwrites the first bytes of `dst` with `src` and leaves the rest as it was.
pub fn overwrite_prefix(dst: &mut [u8], src: &Vec<u8>)
    requires
        src@.len() <= old(dst)@.len(),
    ensures
        final(dst)@ == src@ + old(dst)@.subrange(src@.len() as int, old(dst)@.len() as int),
{
    let n = src.len();
    let mut i: usize = 0;
    while i < n
        invariant
            i <= n,
            n == src@.len(),
            dst@.len() == old(dst)@.len(),
            n <= dst@.len(),
            forall|j: int| 0 <= j < i ==> dst@[j] == src@[j],
            forall|j: int| i <= j < dst@.len() ==> dst@[j] == old(dst)@[j],
        decreases n - i,
    {
        dst[i] = src[i];
        i = i + 1;
    }
    assert(dst@ =~= src@ + old(dst)@.subrange(src@.len() as int, old(dst)@.len() as int));
}

} // verus!
