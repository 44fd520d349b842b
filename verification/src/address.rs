use vstd::prelude::*;

verus! {

/// A fixed 32-byte identifier of an account or a program on the ledger.
#[derive(Clone, Copy, Debug)]
pub struct Address {
    pub bytes: [u8; 32],
}

impl View for Address {
    type V = Seq<u8>;

    open spec fn view(&self) -> Seq<u8> {
        self.bytes@
    }
}

impl PartialEq for Address {
    fn eq(&self, other: &Address) -> (r: bool) {
        let mut i: usize = 0;
        while i < 32
            invariant
                i <= 32,
                forall|j: int| 0 <= j < i ==> self.bytes[j] == other.bytes[j],
            decreases 32 - i,
        {
            if self.bytes[i] != other.bytes[i] {
                return false;
            }
            i = i + 1;
        }
        assert(self.bytes =~= other.bytes);
        true
    }
}

impl vstd::std_specs::cmp::PartialEqSpecImpl for Address {
    open spec fn obeys_eq_spec() -> bool {
        true
    }

    open spec fn eq_spec(&self, other: &Address) -> bool {
        *self == *other
    }
}

impl Eq for Address {

}

/// The null address, the sentinel that ends a list of required credentials:
/// 32 zero bytes.
pub open spec fn null_address() -> Address {
    Address {
        bytes: [
            0u8, 0u8, 0u8, 0u8, 0u8, 0u8, 0u8, 0u8, 0u8, 0u8, 0u8, 0u8, 0u8, 0u8, 0u8, 0u8, 0u8, 0u8,
            0u8, 0u8, 0u8, 0u8, 0u8, 0u8, 0u8, 0u8, 0u8, 0u8, 0u8, 0u8, 0u8, 0u8,
        ],
    }
}

/// The address whose bytes are the 32 bytes of `s` from position `o` on.
pub open spec fn address_at(s: Seq<u8>, o: int) -> Address {
    Address {
        bytes: [
            s[o],
            s[o + 1],
            s[o + 2],
            s[o + 3],
            s[o + 4],
            s[o + 5],
            s[o + 6],
            s[o + 7],
            s[o + 8],
            s[o + 9],
            s[o + 10],
            s[o + 11],
            s[o + 12],
            s[o + 13],
            s[o + 14],
            s[o + 15],
            s[o + 16],
            s[o + 17],
            s[o + 18],
            s[o + 19],
            s[o + 20],
            s[o + 21],
            s[o + 22],
            s[o + 23],
            s[o + 24],
            s[o + 25],
            s[o + 26],
            s[o + 27],
            s[o + 28],
            s[o + 29],
            s[o + 30],
            s[o + 31],
        ],
    }
}

/// `address_at` holds exactly the 32 bytes it names.
pub proof fn lemma_address_at(s: Seq<u8>, o: int)
    requires
        0 <= o,
        o + 32 <= s.len(),
    ensures
        address_at(s, o)@ == s.subrange(o, o + 32),
{
    assert(address_at(s, o)@ =~= s.subrange(o, o + 32));
}

/// An address is found again among bytes that hold its own at position `o`.
pub proof fn lemma_address_at_of(s: Seq<u8>, o: int, a: Address)
    requires
        0 <= o,
        o + 32 <= s.len(),
        s.subrange(o, o + 32) == a@,
    ensures
        address_at(s, o) == a,
{
    lemma_address_at(s, o);
    Address::lemma_view_injective(address_at(s, o), a);
}

impl Address {
    /// Two addresses are the same address exactly when their bytes agree.
    pub proof fn lemma_view_injective(a: Address, b: Address)
        ensures
            (a@ == b@) <==> (a == b),
    {
        if a@ == b@ {
            assert forall|i: int| 0 <= i < 32 implies a.bytes[i] == b.bytes[i] by {
                assert(a@[i] == b@[i]);
            }
            assert(a.bytes =~= b.bytes);
        }
    }

    /// Whether this is the null address.
    pub open spec fn spec_is_null(&self) -> bool {
        *self == null_address()
    }

    /// The null (all-zero) address.
    pub fn null() -> (r: Address)
        ensures
            r == null_address(),
    {
        let r = Address { bytes: [0u8; 32] };
        assert(r.bytes =~= null_address().bytes);
        r
    }

    /// Wraps 32 bytes as an address.
    pub fn new(bytes: [u8; 32]) -> (r: Address)
        ensures
            r.bytes == bytes,
            r@ == bytes@,
    {
        Address { bytes }
    }

    /// The 32 bytes of the address.
    pub fn to_bytes(&self) -> (r: [u8; 32])
        ensures
            r == self.bytes,
            r@ == self@,
    {
        self.bytes
    }

    /// Whether this is the null address.
    #[verifier::when_used_as_spec(spec_is_null)]
    pub fn is_null(&self) -> (r: bool)
        ensures
            r == self.spec_is_null(),
    {
        let mut i: usize = 0;
        while i < 32
            invariant
                i <= 32,
                forall|j: int| 0 <= j < i ==> self.bytes[j] == 0u8,
            decreases 32 - i,
        {
            if self.bytes[i] != 0 {
                assert(self.bytes[i as int] != null_address().bytes[i as int]);
                return false;
            }
            i = i + 1;
        }
        assert(self.bytes =~= null_address().bytes);
        true
    }

    /// Reads the address that occupies the 32 bytes of `src` from `offset` on.
    pub fn read_from(src: &[u8], offset: usize) -> (r: Address)
        requires
            offset + 32 <= src.len(),
        ensures
            r@ == src@.subrange(offset as int, offset + 32),
            r == address_at(src@, offset as int),
    {
        let mut bytes: [u8; 32] = [0u8; 32];
        let mut i: usize = 0;
        while i < 32
            invariant
                i <= 32,
                offset + 32 <= src.len(),
                forall|j: int| 0 <= j < i ==> bytes[j] == src@[offset + j],
            decreases 32 - i,
        {
            bytes[i] = src[offset + i];
            i = i + 1;
        }
        let r = Address { bytes };
        assert(r@ =~= src@.subrange(offset as int, offset + 32));
        proof {
            lemma_address_at_of(src@, offset as int, r);
        }
        r
    }

    /// Appends the 32 bytes of the address to `dst`.
    pub fn append_to(&self, dst: &mut Vec<u8>)
        ensures
            final(dst)@ == old(dst)@ + self@,
    {
        let mut i: usize = 0;
        while i < 32
            invariant
                i <= 32,
                dst@ == old(dst)@ + self@.subrange(0, i as int),
            decreases 32 - i,
        {
            dst.push(self.bytes[i]);
            i = i + 1;
            assert(dst@ =~= old(dst)@ + self@.subrange(0, i as int));
        }
        assert(self@.subrange(0, 32) =~= self@);
    }
}

} // verus!
