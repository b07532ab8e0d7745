use vstd::prelude::*;

verus! {

/// The identity of an account: creator, donor, deployer or fee recipient.
///
/// The runtime proves that a caller controls an identity before any
/// operation runs; here identities are only stored and compared.
#[derive(Clone, Copy, Debug, PartialEq, Eq, Hash)]
pub struct Identity {
    pub bytes: [u8; 32],
}

impl Identity {
    /// The identity with the given bytes.
    pub fn new(bytes: [u8; 32]) -> (id: Identity)
        ensures
            id.bytes == bytes,
    {
        Identity { bytes }
    }

    /// The identity whose bytes are all zero, which stands where no identity
    /// has been set yet.
    pub fn zero() -> (id: Identity)
        ensures
            forall|i: int| 0 <= i < 32 ==> id.bytes[i] == 0,
    {
        Identity { bytes: [0u8; 32] }
    }

    /// The bytes of this identity.
    pub fn to_bytes(&self) -> (bytes: [u8; 32])
        ensures
            bytes == self.bytes,
    {
        self.bytes
    }

    /// Whether the two identities are the same.
    pub fn same_as(&self, other: &Identity) -> (same: bool)
        ensures
            same == (*self == *other),
    {
        let mut i: usize = 0;
        while i < 32
            invariant
                i <= 32,
                forall|j: int| 0 <= j < i ==> self.bytes[j] == other.bytes[j],
            decreases 32 - i,
        {
            if self.bytes[i] != other.bytes[i] {
                return false;
            }
            i += 1;
        }
        assert(self.bytes =~= other.bytes);
        true
    }
}

} // verus!
