//! Ledger addresses.

use vstd::prelude::*;
use vstd::std_specs::cmp::PartialEqSpecImpl;

verus! {

/// The number of bytes in an address.
pub const ADDRESS_BYTES: usize = 32;

/// The address of a ledger record: 32 bytes, with or without a private key behind them.
#[derive(Clone, Copy, Debug, Eq)]
pub struct Address {
    /// The bytes, first to last.
    pub bytes: [u8; ADDRESS_BYTES],
}

impl View for Address {
    type V = Seq<u8>;

    open spec fn view(&self) -> Seq<u8> {
        self.bytes@
    }
}

impl DeepView for Address {
    type V = Seq<u8>;

    open spec fn deep_view(&self) -> Seq<u8> {
        self.bytes@
    }
}

impl PartialEq for Address {
    /// Two addresses are equal when all of their bytes are.
    fn eq(&self, other: &Address) -> (r: bool) {
        let mut i: usize = 0;
        while i < ADDRESS_BYTES
            invariant
                i <= ADDRESS_BYTES,
                forall|j: int| 0 <= j < i ==> self.bytes[j] == other.bytes[j],
            decreases ADDRESS_BYTES - i,
        {
            if self.bytes[i] != other.bytes[i] {
                return false;
            }
            i += 1;
        }
        assert(self.bytes =~= other.bytes);
        true
    }
}

impl PartialEqSpecImpl for Address {
    open spec fn obeys_eq_spec() -> bool {
        true
    }

    open spec fn eq_spec(&self, other: &Address) -> bool {
        *self == *other
    }
}

impl Address {
    /// The address made of the given bytes.
    pub fn new(bytes: [u8; ADDRESS_BYTES]) -> (r: Address)
        ensures
            r.bytes == bytes,
    {
        Address { bytes }
    }

    /// The bytes of the address, as a seed for a derivation.
    pub fn to_seed(&self) -> (r: Vec<u8>)
        ensures
            r@ == self@,
    {
        let mut seed: Vec<u8> = Vec::new();
        let mut i: usize = 0;
        while i < ADDRESS_BYTES
            invariant
                i <= ADDRESS_BYTES,
                seed@ == self.bytes@.take(i as int),
            decreases ADDRESS_BYTES - i,
        {
            seed.push(self.bytes[i]);
            assert(self.bytes@.take(i + 1) == self.bytes@.take(i as int).push(
                self.bytes@[i as int],
            ));
            i += 1;
        }
        assert(self.bytes@.take(ADDRESS_BYTES as int) == self.bytes@);
        seed
    }

    /// The address that has the given bytes.
    pub open spec fn with_bytes(bytes: Seq<u8>) -> Address {
        choose|a: Address| a@ == bytes
    }

    /// Every address is the one that has its bytes.
    pub proof fn lemma_with_bytes(a: Address)
        ensures
            Address::with_bytes(a@) == a,
    {
        let chosen = choose|b: Address| b@ == a@;
        assert(chosen@ == a@);
        Address::lemma_view_injective(chosen, a);
    }

    /// Addresses with the same bytes are the same address.
    pub proof fn lemma_view_injective(a: Address, b: Address)
        ensures
            a@ == b@ <==> a == b,
    {
        if a@ == b@ {
            assert(forall|i: int|
                0 <= i < ADDRESS_BYTES ==> a.bytes[i] == a@[i] && b.bytes[i] == b@[i]);
            assert(a.bytes =~= b.bytes);
        }
    }
}

} // verus!
