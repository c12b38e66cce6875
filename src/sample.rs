//! Which bytes of a file are sampled, and the check that a path names a file.
use vstd::prelude::*;

verus! {

/// Bound on each sampled window: 512 KiB.
pub const SAMPLE_SIZE: u64 = 0x80000;

/// Why a fingerprint could not be made.
#[derive(Clone, Copy, Debug, PartialEq, Eq, Structural)]
pub enum ErrorKind {
    /// The path exists but does not name a regular file.
    NotAFile,
    /// A read did not return the bytes asked for, or the file system failed.
    Io,
}

/// Length of the head window of a file of `len` bytes.
pub open spec fn head_len(len: nat) -> nat {
    if len <= SAMPLE_SIZE {
        len
    } else {
        SAMPLE_SIZE as nat
    }
}

/// Length of the tail window of a file of `len` bytes; none when the head
/// window already covers the whole file.
pub open spec fn tail_len(len: nat) -> Option<nat> {
    if len <= SAMPLE_SIZE {
        None
    } else if len - SAMPLE_SIZE <= SAMPLE_SIZE {
        Some((len - SAMPLE_SIZE) as nat)
    } else {
        Some(SAMPLE_SIZE as nat)
    }
}

/// The head sample of some content: its first `head_len` bytes.
pub open spec fn head_sample(content: Seq<u8>) -> Seq<u8> {
    content.subrange(0, head_len(content.len()) as int)
}

/// The tail sample of some content: its last `tail_len` bytes, if any.
pub open spec fn tail_sample(content: Seq<u8>) -> Option<Seq<u8>> {
    match tail_len(content.len()) {
        Some(n) => Some(content.subrange(content.len() - n, content.len() as int)),
        None => None,
    }
}

/// A contiguous range of bytes to read: `length` bytes from `offset` on.
#[derive(Clone, Copy, Debug, PartialEq, Eq, Structural)]
pub struct SampleWindow {
    pub offset: u64,
    pub length: u64,
}

/// The head window of a file of `len` bytes: it starts at offset 0.
pub fn head_window(len: u64) -> (w: SampleWindow)
    ensures
        w.offset == 0,
        w.length == head_len(len as nat),
{
    if len <= SAMPLE_SIZE {
        SampleWindow { offset: 0, length: len }
    } else {
        SampleWindow { offset: 0, length: SAMPLE_SIZE }
    }
}

/// The tail window of a file of `len` bytes, present only when the file is
/// longer than `SAMPLE_SIZE`; it ends at the file's last byte.
pub fn tail_window(len: u64) -> (w: Option<SampleWindow>)
    ensures
        w.is_none() <==> tail_len(len as nat).is_none(),
        w matches Some(t) ==> t.length == tail_len(len as nat).unwrap() && t.offset + t.length
            == len,
{
    if len <= SAMPLE_SIZE {
        None
    } else {
        let rest = len - SAMPLE_SIZE;
        let length = if rest <= SAMPLE_SIZE {
            rest
        } else {
            SAMPLE_SIZE
        };
        Some(SampleWindow { offset: len - length, length })
    }
}

/// Checks what a stat call reported: a regular file yields its length,
/// anything else is `NotAFile`.
pub fn probe(is_file: bool, len: u64) -> (r: Result<u64, ErrorKind>)
    ensures
        is_file ==> r == Ok::<u64, ErrorKind>(len),
        !is_file ==> r == Err::<u64, ErrorKind>(ErrorKind::NotAFile),
{
    if is_file {
        Ok(len)
    } else {
        Err(ErrorKind::NotAFile)
    }
}

} // verus!
