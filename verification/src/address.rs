use vstd::prelude::*;

verus! {

/// A 32-byte account address.
#[derive(Clone, Copy, Debug, PartialEq, Eq)]
pub struct Address {
    pub bytes: [u8; 32],
}

/// The all-zero sequence of 32 bytes (the default address).
pub open spec fn zero_address() -> Seq<u8> {
    Seq::new(32, |i: int| 0u8)
}

impl View for Address {
    type V = Seq<u8>;

    open spec fn view(&self) -> Seq<u8> {
        self.bytes@
    }
}

impl Address {
    /// Wraps a raw 32-byte array.
    pub fn new_from_array(bytes: [u8; 32]) -> (a: Address)
        ensures
            a@ == bytes@,
    {
        Address { bytes }
    }

    /// The all-zero address.
    pub fn zero() -> (a: Address)
        ensures
            a@ == zero_address(),
    {
        let a = Address { bytes: [0u8; 32] };
        assert(a@ =~= zero_address());
        a
    }

    /// Byte-wise equality of two addresses.
    pub fn equals(&self, other: &Address) -> (b: bool)
        ensures
            b == (self@ == other@),
    {
        let mut i: usize = 0;
        while i < 32
            invariant
                i <= 32,
                self@.len() == 32,
                other@.len() == 32,
                forall|j: int| 0 <= j < i ==> self@[j] == other@[j],
            decreases 32 - i,
        {
            if self.bytes[i] != other.bytes[i] {
                return false;
            }
            i = i + 1;
        }
        assert(self@ =~= other@);
        true
    }

    /// Whether every byte of the address is zero.
    pub fn is_zero(&self) -> (b: bool)
        ensures
            b == (self@ == zero_address()),
    {
        let z = Address::zero();
        self.equals(&z)
    }
}

impl Default for Address {
    fn default() -> (a: Address)
        ensures
            a@ == zero_address(),
    {
        Address::zero()
    }
}

} // verus!
