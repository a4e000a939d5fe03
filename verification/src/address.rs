//! Identities: thirty-two bytes that name a party, a token type, a holding,
//! an escrow record or the program itself.

use vstd::prelude::*;

verus! {

/// An identity or a storage address.
#[derive(Clone, Copy, Debug, PartialEq, Eq)]
pub struct Address {
    pub bytes: [u8; 32],
}

impl Address {
    /// The address made of the given bytes.
    pub fn new(bytes: [u8; 32]) -> (address: Address)
        ensures
            address.bytes == bytes,
    {
        Address { bytes }
    }

    /// Whether two addresses are the same, byte for byte.
    pub fn same(&self, other: &Address) -> (equal: bool)
        ensures
            equal == (*self == *other),
    {
        let mut i: usize = 0;
        while i < 32
            invariant
                i <= 32,
                forall|k: int| 0 <= k < i ==> self.bytes[k] == other.bytes[k],
            decreases 32 - i,
        {
            if self.bytes[i] != other.bytes[i] {
                return false;
            }
            i += 1;
        }
        assert(self.bytes =~= other.bytes);
        true
    }

    /// The bytes of the address, in order.
    pub fn to_vec(&self) -> (bytes: Vec<u8>)
        ensures
            bytes@ == self.bytes@,
    {
        let mut bytes: Vec<u8> = Vec::new();
        let mut i: usize = 0;
        while i < 32
            invariant
                i <= 32,
                bytes@.len() == i,
                forall|k: int| 0 <= k < i ==> bytes@[k] == self.bytes[k],
            decreases 32 - i,
        {
            bytes.push(self.bytes[i]);
            i += 1;
        }
        assert(bytes@ =~= self.bytes@);
        bytes
    }
}

/// Whether `found` is the address `wanted`.
pub fn is_address(found: &Option<Address>, wanted: &Address) -> (equal: bool)
    ensures
        equal == (*found == Some(*wanted)),
{
    match found {
        Some(address) => address.same(wanted),
        None => false,
    }
}

} // verus!
