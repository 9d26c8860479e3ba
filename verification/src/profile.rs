//! The state of a profile folder, told from its marker file.

use vstd::prelude::*;
use crate::release::same_text;

verus! {

/// The name of the marker file, which holds the tag of the release that is
/// installed in a profile folder.
pub const TAG_FILE_NAME: &'static str = "tag.txt";

/// The name of the directory inside a profile folder that the release is
/// unpacked into.
pub const INSTALL_DIR_NAME: &'static str = "installation";

/// What is to be done with a profile folder.
#[derive(Debug, Clone, Copy, PartialEq, Eq, Structural)]
pub enum ProfileFolderState {
    /// Its state cannot be told.
    Error,
    /// The release that is wanted is installed.
    UpToDate,
    /// Another release is installed.
    UpdateRequired,
    /// Nothing is installed.
    FirstDownload,
}

/// What was found of the marker file of a profile folder.
#[derive(Debug, Clone, PartialEq, Eq)]
pub enum Marker {
    /// It could not be found out whether the file is there.
    Unknown,
    /// The file is not there.
    Missing,
    /// The file is there and could not be read.
    Unreadable,
    /// The file is there, with this in it.
    Content { text: String },
}

/// Whether a character has the Unicode property `White_Space`.
pub open spec fn is_white_space(c: char) -> bool {
    let code = c as u32;
    (0x09 <= code <= 0x0D) || code == 0x20 || code == 0x85 || code == 0xA0 || code == 0x1680 || (
    0x2000 <= code <= 0x200A) || code == 0x2028 || code == 0x2029 || code == 0x202F || code
        == 0x205F || code == 0x3000
}

/// `text` without the white space at its start.
pub open spec fn trimmed_start(text: Seq<char>) -> Seq<char>
    decreases text.len(),
{
    if text.len() > 0 && is_white_space(text.first()) {
        trimmed_start(text.drop_first())
    } else {
        text
    }
}

/// `text` without the white space at its end.
pub open spec fn trimmed_end(text: Seq<char>) -> Seq<char>
    decreases text.len(),
{
    if text.len() > 0 && is_white_space(text.last()) {
        trimmed_end(text.drop_last())
    } else {
        text
    }
}

/// `text` without the white space at its start and at its end.
pub open spec fn trimmed(text: Seq<char>) -> Seq<char> {
    trimmed_end(trimmed_start(text))
}

/// The state of a profile folder with the marker `marker`, when the
/// release with the tag `wanted_tag` is wanted.
pub open spec fn state_of(marker: Marker, wanted_tag: Seq<char>) -> ProfileFolderState {
    match marker {
        Marker::Unknown => ProfileFolderState::Error,
        Marker::Missing => ProfileFolderState::FirstDownload,
        Marker::Unreadable => ProfileFolderState::Error,
        Marker::Content { text } => if trimmed(text@) == wanted_tag {
            ProfileFolderState::UpToDate
        } else {
            ProfileFolderState::UpdateRequired
        },
    }
}

/// Takes the white space off both ends of a text with `str::trim`.
/// Trusted: what is taken off are the characters with the Unicode property
/// `White_Space`, as the documentation of `str::trim` says.
#[verifier::external_body]
fn trim(text: &str) -> (inner: &str)
    ensures
        inner@ == trimmed(text@),
{
    text.trim()
}

/// Tells the state of a profile folder from its marker file.
///
/// Without a marker file nothing is installed. A marker file that says
/// the wanted tag, white space around it aside, means that the folder is
/// up to date; one that says anything else, that an update is required.
/// Where the file could not be looked for or read, the state is an error.
pub fn folder_state(marker: &Marker, wanted_tag: &str) -> (state: ProfileFolderState)
    ensures
        state == state_of(*marker, wanted_tag@),
{
    match marker {
        Marker::Unknown => ProfileFolderState::Error,
        Marker::Missing => ProfileFolderState::FirstDownload,
        Marker::Unreadable => ProfileFolderState::Error,
        Marker::Content { text } => {
            if same_text(trim(text.as_str()), wanted_tag) {
                ProfileFolderState::UpToDate
            } else {
                ProfileFolderState::UpdateRequired
            }
        },
    }
}

} // verus!
