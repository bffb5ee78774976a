//! Account addresses, as the program's logic reads them.

use vstd::prelude::*;

verus! {

broadcast use vstd::array::group_array_axioms;

/// A 32-byte account address (an ed25519 public key or a program-derived
/// address), held as its raw bytes.
#[derive(Clone, Copy, Debug, PartialEq, Eq, Hash)]
pub struct Pubkey {
    pub bytes: [u8; 32],
}

impl View for Pubkey {
    type V = Seq<u8>;

    open spec fn view(&self) -> Seq<u8> {
        self.bytes@
    }
}

impl Pubkey {
    /// The address whose bytes are `bytes`.
    pub fn new_from_array(bytes: [u8; 32]) -> (r: Pubkey)
        ensures
            r.bytes == bytes,
    {
        Pubkey { bytes }
    }

    /// The raw bytes of the address.
    pub fn to_bytes(&self) -> (r: [u8; 32])
        ensures
            r == self.bytes,
    {
        self.bytes
    }

    /// Byte-wise comparison of two addresses.
    pub fn key_eq(&self, other: &Pubkey) -> (r: bool)
        ensures
            r == (*self == *other),
            r == (self@ == other@),
    {
        let mut i: usize = 0;
        while i < 32
            invariant
                0 <= i <= 32,
                forall|j: int| 0 <= j < i ==> self.bytes@[j] == other.bytes@[j],
            decreases 32 - i,
        {
            if self.bytes[i] != other.bytes[i] {
                return false;
            }
            i = i + 1;
        }
        assert(self.bytes =~= other.bytes);
        true
    }

    /// The address as a growable byte vector, the shape a PDA seed takes.
    pub fn to_seed(&self) -> (r: Vec<u8>)
        ensures
            r@ == self@,
    {
        let mut v: Vec<u8> = Vec::new();
        let mut i: usize = 0;
        while i < 32
            invariant
                0 <= i <= 32,
                v@ == self.bytes@.subrange(0, i as int),
            decreases 32 - i,
        {
            v.push(self.bytes[i]);
            i = i + 1;
        }
        assert(self.bytes@.subrange(0, 32) =~= self.bytes@);
        v
    }
}

} // verus!
