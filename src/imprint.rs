//! The fingerprint value: a head digest and, for longer files, a tail digest.
use vstd::prelude::*;
use crate::digest::{blake3_of, hex_of, Digest};
use crate::sample::{head_len, head_sample, tail_len, tail_sample, ErrorKind, SAMPLE_SIZE};

verus! {

/// What a digest, if any, holds.
pub open spec fn digest_opt_view(d: Option<Digest>) -> Option<Seq<u8>> {
    match d {
        Some(x) => Some(x@),
        None => None,
    }
}

/// What a buffer, if any, holds.
pub open spec fn bytes_opt_view(b: Option<&[u8]>) -> Option<Seq<u8>> {
    match b {
        Some(x) => Some(x@),
        None => None,
    }
}

/// The digest of a sample, if there is one.
pub open spec fn blake3_opt(b: Option<Seq<u8>>) -> Option<Seq<u8>> {
    match b {
        Some(x) => Some(blake3_of(x)),
        None => None,
    }
}

/// Whether the buffers read for a file of `len` bytes are exactly the
/// windows that `head_window` and `tail_window` give.
pub open spec fn samples_fit(len: nat, head: Seq<u8>, tail: Option<Seq<u8>>) -> bool {
    &&& head.len() == head_len(len)
    &&& match (tail_len(len), tail) {
        (None, None) => true,
        (Some(n), Some(t)) => t.len() == n,
        _ => false,
    }
}

/// The fingerprint of some content: the digest of its head sample, and the
/// digest of its tail sample when it has one.
pub open spec fn imprint_of(content: Seq<u8>) -> (Seq<u8>, Option<Seq<u8>>) {
    (blake3_of(head_sample(content)), blake3_opt(tail_sample(content)))
}

/// A file's fingerprint. Two fingerprints are equal when their head digests
/// are equal and their tail digests are both absent or both present and
/// equal. Files longer than twice `SAMPLE_SIZE` that differ only in the
/// unsampled middle have equal fingerprints.
#[derive(Clone, Copy, Debug, Hash)]
pub struct Imprint {
    head: Digest,
    tail: Option<Digest>,
}

impl Imprint {
    /// The head digest's bytes and the tail digest's bytes, if any.
    pub open spec fn view(&self) -> (Seq<u8>, Option<Seq<u8>>) {
        (self.spec_head()@, digest_opt_view(self.spec_tail()))
    }

    /// The head digest.
    pub closed spec fn spec_head(&self) -> Digest {
        self.head
    }

    /// The tail digest, if any.
    pub closed spec fn spec_tail(&self) -> Option<Digest> {
        self.tail
    }

    /// Makes the fingerprint of a file of `len` bytes from the buffers read
    /// at its head window and, when it has one, its tail window. Buffers of
    /// any other length mean the reads were not exact: `Io`.
    pub fn new(len: u64, head: &[u8], tail: Option<&[u8]>) -> (r: Result<Imprint, ErrorKind>)
        ensures
            r is Ok <==> samples_fit(len as nat, head@, bytes_opt_view(tail)),
            r matches Ok(i) ==> i@ == (blake3_of(head@), blake3_opt(bytes_opt_view(tail))),
            r matches Err(e) ==> e == ErrorKind::Io,
    {
        let head_n: u64 = if len <= SAMPLE_SIZE {
            len
        } else {
            SAMPLE_SIZE
        };
        if head.len() as u64 != head_n {
            return Err(ErrorKind::Io);
        }
        let tail_digest = match tail {
            None => {
                if len > SAMPLE_SIZE {
                    return Err(ErrorKind::Io);
                }
                None
            },
            Some(t) => {
                if len <= SAMPLE_SIZE {
                    return Err(ErrorKind::Io);
                }
                let rest = len - SAMPLE_SIZE;
                let tail_n: u64 = if rest <= SAMPLE_SIZE {
                    rest
                } else {
                    SAMPLE_SIZE
                };
                if t.len() as u64 != tail_n {
                    return Err(ErrorKind::Io);
                }
                Some(Digest::of(t))
            },
        };
        Ok(Imprint { head: Digest::of(head), tail: tail_digest })
    }

    /// Fingerprints content held in memory, sampling it as a file of the
    /// same length would be sampled.
    pub fn from_bytes(content: &[u8]) -> (r: Imprint)
        ensures
            r@ == imprint_of(content@),
    {
        let len = content.len();
        let size = SAMPLE_SIZE as usize;
        let head_end = if len <= size {
            len
        } else {
            size
        };
        let head = Digest::of(&content[0..head_end]);
        let tail = if len <= size {
            None
        } else {
            let n = if len - size <= size {
                len - size
            } else {
                size
            };
            Some(Digest::of(&content[len - n..len]))
        };
        Imprint { head, tail }
    }

    /// The digest of the head sample.
    pub fn head(&self) -> (r: Digest)
        ensures
            r@ == self@.0,
    {
        self.head
    }

    /// The digest of the tail sample, present only for files longer than
    /// `SAMPLE_SIZE`.
    pub fn tail(&self) -> (r: Option<Digest>)
        ensures
            digest_opt_view(r) == self@.1,
    {
        self.tail
    }

    /// The display form: the head digest in lowercase hexadecimal.
    pub fn to_hex(&self) -> (r: String)
        ensures
            r@ == hex_of(self@.0),
    {
        self.head.to_hex()
    }
}

impl PartialEq for Imprint {
    fn eq(&self, other: &Imprint) -> (r: bool)
        ensures
            r == (self@ == other@),
    {
        let heads = self.head == other.head;
        let tails = match (&self.tail, &other.tail) {
            (None, None) => true,
            (Some(a), Some(b)) => a == b,
            _ => false,
        };
        heads && tails
    }
}

impl vstd::std_specs::cmp::PartialEqSpecImpl for Imprint {
    open spec fn obeys_eq_spec() -> bool {
        true
    }

    open spec fn eq_spec(&self, other: &Imprint) -> bool {
        self@ == other@
    }
}

impl Eq for Imprint {
}

} // verus!
