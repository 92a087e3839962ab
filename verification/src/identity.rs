//! The 128-bit identity that the parts of one triplet share.
use vstd::prelude::*;

verus! {

/// The key that links the header, body and tail of one triplet.
#[derive(Clone, Copy, Debug, PartialEq, Eq, Structural, Hash)]
pub struct Identity {
    pub bits: u128,
}

/// Whether `bits` carries the marks of a randomly generated identity:
/// version 4 in bits 76 to 79 and the variant `10` in bits 62 and 63.
pub open spec fn is_random_identity(bits: u128) -> bool {
    (bits >> 76) & 0xf == 4 && (bits >> 62) & 0x3 == 2
}

/// `uuid::Uuid::new_v4`, read through `Uuid::as_u128`. The value is random;
/// the contract states only the version and variant bits that `new_v4` sets
/// on every value it returns. `new_v4` panics if the operating system
/// cannot supply random bytes.
#[verifier::external_body]
fn random_uuid_bits() -> (bits: u128)
    ensures
        is_random_identity(bits),
{
    uuid::Uuid::new_v4().as_u128()
}

impl Identity {
    /// The identity with the given bits.
    pub fn from_u128(bits: u128) -> (id: Identity)
        ensures
            id.bits == bits,
    {
        Identity { bits }
    }

    /// The bits of this identity.
    pub fn as_u128(self) -> (bits: u128)
        ensures
            bits == self.bits,
    {
        self.bits
    }

    /// A fresh random identity. Which value comes back is not determined;
    /// every one carries the version and variant marks.
    pub fn generate() -> (id: Identity)
        ensures
            is_random_identity(id.bits),
    {
        Identity { bits: random_uuid_bits() }
    }

    /// The version field of this identity: 4 for a generated one.
    pub fn version(self) -> (v: u8)
        ensures
            v == (self.bits >> 76) & 0xf,
    {
        let bits: u128 = self.bits;
        let nibble: u128 = (bits >> 76) & 0xf;
        assert(nibble <= 0xf) by (bit_vector)
            requires
                nibble == (bits >> 76) & 0xf,
        ;
        nibble as u8
    }
}

} // verus!
