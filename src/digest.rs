//! Fixed-size cryptographic digests of byte buffers.
use vstd::prelude::*;

verus! {

/// Number of bytes in a digest.
pub const DIGEST_LEN: usize = 32;

/// The BLAKE3 digest of a byte sequence.
pub uninterp spec fn blake3_of(data: Seq<u8>) -> Seq<u8>;

/// The lowercase hexadecimal digit for a value below sixteen.
pub open spec fn hex_digit(n: u8) -> char {
    seq!['0', '1', '2', '3', '4', '5', '6', '7', '8', '9', 'a', 'b', 'c', 'd', 'e', 'f'][n as int]
}

/// Lowercase hexadecimal text of a byte sequence: two digits per byte, the
/// high half first.
pub open spec fn hex_of(bytes: Seq<u8>) -> Seq<char> {
    Seq::new(
        2 * bytes.len(),
        |i: int|
            if i % 2 == 0 {
                hex_digit(bytes[i / 2] / 16)
            } else {
                hex_digit(bytes[i / 2] % 16)
            },
    )
}

/// A digest: the fixed-size value a hash function reduces a buffer to.
#[derive(Clone, Copy, Debug, Hash)]
pub struct Digest {
    bytes: [u8; 32],
}

impl Digest {
    /// The digest's bytes, as a sequence.
    pub closed spec fn view(&self) -> Seq<u8> {
        self.bytes@
    }

    /// The digest's raw bytes.
    pub fn as_bytes(&self) -> (r: &[u8; 32])
        ensures
            r@ == self@,
    {
        &self.bytes
    }

    /// Makes a digest from its raw bytes.
    pub fn from_bytes(bytes: [u8; 32]) -> (r: Digest)
        ensures
            r@ == bytes@,
    {
        Digest { bytes }
    }

    /// Hashes a buffer of any length, the empty one included.
    pub fn of(data: &[u8]) -> (r: Digest)
        ensures
            r@ == blake3_of(data@),
            r@.len() == DIGEST_LEN,
    {
        proof {
            broadcast use vstd::array::group_array_axioms;
        }
        blake3_hash(data)
    }

    /// The digest in lowercase hexadecimal, 64 characters.
    pub fn to_hex(&self) -> (r: String)
        ensures
            r@ == hex_of(self@),
    {
        blake3_hex(&self.bytes)
    }
}

impl PartialEq for Digest {
    fn eq(&self, other: &Digest) -> (r: bool)
        ensures
            r == (self@ == other@),
    {
        proof {
            broadcast use vstd::array::group_array_axioms;
        }
        let mut i: usize = 0;
        while i < DIGEST_LEN
            invariant
                0 <= i <= DIGEST_LEN,
                self@.len() == DIGEST_LEN,
                other@.len() == DIGEST_LEN,
                forall|j: int| 0 <= j < i ==> self@[j] == other@[j],
            decreases DIGEST_LEN - i,
        {
            if self.bytes[i] != other.bytes[i] {
                return false;
            }
            i = i + 1;
        }
        assert(self@ =~= other@);
        true
    }
}

impl vstd::std_specs::cmp::PartialEqSpecImpl for Digest {
    open spec fn obeys_eq_spec() -> bool {
        true
    }

    open spec fn eq_spec(&self, other: &Digest) -> bool {
        self@ == other@
    }
}

impl Eq for Digest {
}

/// Relies on `blake3::hash`: the BLAKE3 digest of the input, 32 bytes
/// (`blake3::OUT_LEN`) whatever the input's length.
#[verifier::external_body]
fn blake3_hash(data: &[u8]) -> (r: Digest)
    ensures
        r@ == blake3_of(data@),
{
    Digest { bytes: blake3::hash(data).into() }
}

/// Relies on `blake3::Hash::to_hex`: lowercase hexadecimal, two digits per
/// byte with the high half first, read from a table of `0-9a-f`.
#[verifier::external_body]
fn blake3_hex(bytes: &[u8; 32]) -> (r: String)
    ensures
        r@ == hex_of(bytes@),
{
    blake3::Hash::from_bytes(*bytes).to_hex().as_str().to_string()
}

} // verus!
