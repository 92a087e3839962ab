//! The fixed-size digest that protects a record, and how two digests are
//! compared.
use vstd::prelude::*;
use vstd::std_specs::cmp::PartialEqSpecImpl;

verus! {

/// The length of a digest in bytes.
pub const DIGEST_LEN: usize = 32;

/// The SHA-256 digest of a byte sequence.
pub uninterp spec fn sha256_digest(bytes: Seq<u8>) -> Seq<u8>;

/// `sha2::Sha256::digest`: the SHA-256 digest of `bytes`, a function of the
/// bytes alone.
#[verifier::external_body]
fn sha256(bytes: &[u8]) -> (digest: [u8; 32])
    ensures
        digest@ == sha256_digest(bytes@),
{
    <sha2::Sha256 as sha2::Digest>::digest(bytes).into()
}

/// The output of the integrity hash.
#[derive(Clone, Copy, Debug)]
pub struct Digest {
    pub bytes: [u8; 32],
}

impl View for Digest {
    type V = Seq<u8>;

    open spec fn view(&self) -> Seq<u8> {
        self.bytes@
    }
}

/// The bitwise difference of two bytes, folded into `seen`, is zero exactly
/// when `seen` is zero and the bytes are equal.
proof fn fold_difference(seen: u8, a: u8, b: u8)
    ensures
        (seen | (a ^ b)) == 0 <==> (seen == 0 && a == b),
{
    assert((seen | (a ^ b)) == 0 <==> (seen == 0 && a == b)) by (bit_vector);
}

impl Digest {
    /// The digest with the given bytes.
    pub fn from_bytes(bytes: [u8; 32]) -> (digest: Digest)
        ensures
            digest@ == bytes@,
    {
        Digest { bytes }
    }

    /// The digest that `bytes` holds, if there are exactly 32 of them.
    pub fn from_slice(bytes: &[u8]) -> (r: Option<Digest>)
        ensures
            match r {
                Some(digest) => digest@ == bytes@,
                None => bytes@.len() != DIGEST_LEN,
            },
    {
        if bytes.len() != DIGEST_LEN {
            return None;
        }
        let mut held: [u8; 32] = [0u8; 32];
        let mut i: usize = 0;
        while i < DIGEST_LEN
            invariant
                0 <= i <= DIGEST_LEN,
                bytes@.len() == DIGEST_LEN,
                forall|j: int| 0 <= j < i ==> held@[j] == bytes@[j],
            decreases DIGEST_LEN - i,
        {
            held[i] = bytes[i];
            i += 1;
        }
        assert(held@ =~= bytes@);
        Some(Digest { bytes: held })
    }

    /// The SHA-256 digest of `bytes`.
    pub fn of(bytes: &[u8]) -> (digest: Digest)
        ensures
            digest@ == sha256_digest(bytes@),
    {
        Digest { bytes: sha256(bytes) }
    }

    /// The bytes of this digest.
    pub fn as_bytes(&self) -> (bytes: &[u8; 32])
        ensures
            bytes@ == self@,
    {
        &self.bytes
    }

    /// Whether the two digests hold the same bytes. Every byte is looked at,
    /// whatever the bytes before it were, so the time taken does not tell
    /// where the first difference lies.
    pub fn matches(&self, other: &Digest) -> (same: bool)
        ensures
            same == (self@ == other@),
    {
        let mut seen: u8 = 0;
        let mut i: usize = 0;
        while i < DIGEST_LEN
            invariant
                0 <= i <= DIGEST_LEN,
                seen == 0 <==> (forall|j: int| 0 <= j < i ==> self.bytes@[j] == other.bytes@[j]),
            decreases DIGEST_LEN - i,
        {
            proof {
                fold_difference(seen, self.bytes@[i as int], other.bytes@[i as int]);
            }
            seen = seen | (self.bytes[i] ^ other.bytes[i]);
            i += 1;
        }
        assert(seen == 0 ==> self@ =~= other@);
        seen == 0
    }
}

impl PartialEq for Digest {
    fn eq(&self, other: &Self) -> (same: bool) {
        self.matches(other)
    }
}

impl PartialEqSpecImpl for Digest {
    open spec fn obeys_eq_spec() -> bool {
        true
    }

    open spec fn eq_spec(&self, other: &Self) -> bool {
        self@ == other@
    }
}

impl Eq for Digest {

}

} // verus!
