//! A coarse identity for files: their length alone.
use vstd::prelude::*;
use crate::sample::{probe, ErrorKind};

verus! {

/// A file's path and length, whose equality and hash look at the length
/// only. Files of equal length are equal under this key whatever they hold,
/// so it serves to group candidates before fingerprinting them, never as a
/// stand-in for equal contents.
#[derive(Debug)]
pub struct FileMetadataKey {
    path: String,
    length: u64,
}

impl FileMetadataKey {
    /// The path, as text.
    pub closed spec fn spec_path(&self) -> Seq<char> {
        self.path@
    }

    /// The length in bytes.
    pub closed spec fn spec_length(&self) -> u64 {
        self.length
    }

    /// Makes the key of `path` from what a stat call reported of it: a
    /// regular file of `length` bytes, or something else (`NotAFile`).
    pub fn new(path: String, is_file: bool, length: u64) -> (r: Result<FileMetadataKey, ErrorKind>)
        ensures
            is_file <==> r is Ok,
            r matches Ok(k) ==> k.spec_path() == path@ && k.spec_length() == length,
            r matches Err(e) ==> e == ErrorKind::NotAFile,
    {
        match probe(is_file, length) {
            Ok(len) => Ok(FileMetadataKey { path, length: len }),
            Err(e) => Err(e),
        }
    }

    /// The path the key was made for.
    pub fn path(&self) -> (r: &str)
        ensures
            r@ == self.spec_path(),
    {
        self.path.as_str()
    }

    /// The file's length in bytes.
    pub fn length(&self) -> (r: u64)
        ensures
            r == self.spec_length(),
    {
        self.length
    }
}

impl Clone for FileMetadataKey {
    fn clone(&self) -> (r: FileMetadataKey)
        ensures
            r.spec_path() == self.spec_path(),
            r.spec_length() == self.spec_length(),
    {
        FileMetadataKey { path: self.path.clone(), length: self.length }
    }
}

impl PartialEq for FileMetadataKey {
    fn eq(&self, other: &FileMetadataKey) -> (r: bool)
        ensures
            r == (self.spec_length() == other.spec_length()),
    {
        self.length == other.length
    }
}

impl vstd::std_specs::cmp::PartialEqSpecImpl for FileMetadataKey {
    open spec fn obeys_eq_spec() -> bool {
        true
    }

    open spec fn eq_spec(&self, other: &FileMetadataKey) -> bool {
        self.spec_length() == other.spec_length()
    }
}

impl Eq for FileMetadataKey {
}

impl core::hash::Hash for FileMetadataKey {
    fn hash<H: core::hash::Hasher>(&self, state: &mut H) {
        self.length.hash(state);
    }
}

/// Relies on `Hash for u64`: feeds the integer to the hasher. Nothing is
/// stated of the hasher's state afterwards.
pub assume_specification<H: core::hash::Hasher>[ <u64 as core::hash::Hash>::hash::<H> ](
    data: &u64,
    state: &mut H,
);

} // verus!
