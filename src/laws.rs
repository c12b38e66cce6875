//! Properties of fingerprints that hold across calls.
use vstd::prelude::*;
use vstd::std_specs::cmp::PartialEqSpec;
use crate::digest::blake3_of;
use crate::imprint::{blake3_opt, imprint_of, samples_fit};
use crate::metadata::FileMetadataKey;
use crate::sample::{head_sample, tail_sample, SAMPLE_SIZE};

verus! {

/// Fingerprinting is deterministic: two constructions that both read the
/// head and tail windows of the same unchanged content are both accepted by
/// `Imprint::new` and give the same fingerprint, the one `from_bytes` gives.
pub proof fn lemma_deterministic(
    content: Seq<u8>,
    head1: Seq<u8>,
    tail1: Option<Seq<u8>>,
    head2: Seq<u8>,
    tail2: Option<Seq<u8>>,
)
    requires
        head1 == head_sample(content),
        tail1 == tail_sample(content),
        head2 == head_sample(content),
        tail2 == tail_sample(content),
    ensures
        samples_fit(content.len(), head1, tail1),
        samples_fit(content.len(), head2, tail2),
        (blake3_of(head1), blake3_opt(tail1)) == (blake3_of(head2), blake3_opt(tail2)),
        (blake3_of(head1), blake3_opt(tail1)) == imprint_of(content),
{
}

/// Content of at most `SAMPLE_SIZE` bytes, the empty one and one of exactly
/// `SAMPLE_SIZE` bytes included, has no tail digest: its head digest covers
/// all of it.
pub proof fn lemma_head_only(content: Seq<u8>)
    requires
        content.len() <= SAMPLE_SIZE,
    ensures
        imprint_of(content) == (blake3_of(content), None::<Seq<u8>>),
{
    assert(head_sample(content) =~= content);
}

/// Content one byte longer than `SAMPLE_SIZE` has a tail digest, taken over
/// its last byte alone.
pub proof fn lemma_tail_at_boundary(content: Seq<u8>)
    requires
        content.len() == SAMPLE_SIZE + 1,
    ensures
        imprint_of(content).1 == Some(blake3_of(seq![content.last()])),
{
    assert(tail_sample(content).unwrap() =~= seq![content.last()]);
}

/// Content of twice `SAMPLE_SIZE` bytes is split into two adjacent windows:
/// the head digest covers its first half and the tail digest its second.
pub proof fn lemma_adjacent_windows(content: Seq<u8>)
    requires
        content.len() == 2 * SAMPLE_SIZE,
    ensures
        imprint_of(content) == (
            blake3_of(content.subrange(0, SAMPLE_SIZE as int)),
            Some(blake3_of(content.subrange(SAMPLE_SIZE as int, 2 * SAMPLE_SIZE))),
        ),
{
}

/// The middle of long content is never read: two contents of three times
/// `SAMPLE_SIZE` bytes that agree on their first and last `SAMPLE_SIZE`
/// bytes have equal fingerprints, whatever their middles hold.
pub proof fn lemma_unsampled_middle(a: Seq<u8>, b: Seq<u8>)
    requires
        a.len() == 3 * SAMPLE_SIZE,
        b.len() == 3 * SAMPLE_SIZE,
        a.subrange(0, SAMPLE_SIZE as int) == b.subrange(0, SAMPLE_SIZE as int),
        a.subrange(2 * SAMPLE_SIZE, 3 * SAMPLE_SIZE) == b.subrange(
            2 * SAMPLE_SIZE,
            3 * SAMPLE_SIZE,
        ),
    ensures
        imprint_of(a) == imprint_of(b),
{
}

/// Metadata keys are equal exactly when the lengths they were made with are
/// equal: the path and the content play no part.
pub proof fn lemma_key_length_only(a: FileMetadataKey, b: FileMetadataKey)
    ensures
        a.eq_spec(&b) <==> a.spec_length() == b.spec_length(),
{
}

} // verus!
