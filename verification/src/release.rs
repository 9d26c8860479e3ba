//! Release bundles: what is to be installed, for which platforms, and how
//! each file is unpacked.

use vstd::prelude::*;
use crate::error::Error;

verus! {

/// How a downloaded file is unpacked.
#[derive(Debug, Clone, Copy, PartialEq, Eq, Structural)]
pub enum FileType {
    /// A plain archive.
    Zip,
    /// A password-protected archive.
    Encrypted,
}

/// One downloadable file of a bundle.
#[derive(Debug, Clone, PartialEq, Eq)]
pub struct ReleaseFile {
    /// Where the file is fetched from.
    pub url: String,
    /// Where its detached signature is fetched from, if it is signed.
    pub sig_url: Option<String>,
    /// How it is unpacked, as the release names it.
    pub file_type: String,
}

/// One deliverable unit of a release: files, and the platforms they are for.
#[derive(Debug, Clone, PartialEq, Eq)]
pub struct ReleaseBundle {
    /// The platform ids that this bundle is for.
    pub platforms: Vec<String>,
    /// The files of the bundle, in the order in which they are installed.
    pub files: Vec<ReleaseFile>,
}

/// The way of unpacking that a release calls `name`, if it is a known one.
pub open spec fn file_type_of(name: Seq<char>) -> Option<FileType> {
    if name == "zip"@ {
        Some(FileType::Zip)
    } else if name == "encrypted"@ {
        Some(FileType::Encrypted)
    } else {
        None
    }
}

impl ReleaseFile {
    /// The way this file is unpacked, if its type is a known one.
    pub open spec fn kind(self) -> Option<FileType> {
        file_type_of(self.file_type@)
    }
}

impl ReleaseBundle {
    /// Whether `platform` is one of the platforms of this bundle.
    pub open spec fn applies_to(self, platform: Seq<char>) -> bool {
        exists|i: int| 0 <= i < self.platforms@.len() && (#[trigger] self.platforms@[i])@ == platform
    }

    /// Whether this bundle is installed on `platform`.
    pub fn is_for(&self, platform: &str) -> (applies: bool)
        ensures
            applies == self.applies_to(platform@),
    {
        let mut i: usize = 0;
        while i < self.platforms.len()
            invariant
                i <= self.platforms.len(),
                forall|j: int| 0 <= j < i ==> (#[trigger] self.platforms@[j])@ != platform@,
            decreases self.platforms.len() - i,
        {
            if same_text(self.platforms[i].as_str(), platform) {
                return true;
            }
            i += 1;
        }
        false
    }
}

/// Whether two texts hold the same characters.
pub fn same_text(a: &str, b: &str) -> (same: bool)
    ensures
        same == (a@ == b@),
{
    let left: String = a.to_owned();
    let right: String = b.to_owned();
    left == right
}

/// Picks the way of unpacking for a file type as a release names it: `zip`
/// and `encrypted` are known, and every other name is refused with the name
/// in the failure.
pub fn parse_file_type(name: &str) -> (parsed: Result<FileType, Error>)
    ensures
        match file_type_of(name@) {
            Some(file_type) => parsed == Ok::<FileType, Error>(file_type),
            None => parsed matches Err(Error::UnhandledReleaseFileType { release_type })
                && release_type@ == name@,
        },
{
    if same_text(name, "zip") {
        Ok(FileType::Zip)
    } else if same_text(name, "encrypted") {
        Ok(FileType::Encrypted)
    } else {
        Err(Error::UnhandledReleaseFileType { release_type: name.to_owned() })
    }
}

} // verus!
