//! Version files (v2): the request bodies, handed on to the v3 routes.
use vstd::prelude::*;
use crate::routes::v3::version_file as v3_version_file;

verus! {

/// A lookup of many files by hash (v2).
pub struct FileHashes {
    pub algorithm: Option<String>,
    pub hashes: Vec<String>,
}

impl FileHashes {
    /// The same lookup in its v3 shape.
    pub fn into_v3(self) -> (r: v3_version_file::FileHashes)
        ensures
            r.algorithm == self.algorithm && r.hashes == self.hashes,
    {
        v3_version_file::FileHashes { algorithm: self.algorithm, hashes: self.hashes }
    }
}

} // verus!
