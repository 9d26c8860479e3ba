//! Names of the files that an installation works with, and paths as text.

use vstd::prelude::*;
use vstd::string::StringExecFns;
use crate::error::Error;
use std::path::PathBuf;

verus! {

/// A path of the file system, as a value that is carried through and read
/// as text.
#[verifier::external_type_specification]
#[verifier::external_body]
pub struct ExPathBuf(PathBuf);

/// The text of a path, where the path is valid Unicode.
pub uninterp spec fn path_text(path: &PathBuf) -> Option<Seq<char>>;

/// A path as it is shown: its text, with a replacement character in the
/// place of whatever is no valid Unicode.
pub uninterp spec fn path_shown(path: &PathBuf) -> Seq<char>;

/// The name of the temporary file that a session downloads into.
pub open spec fn temp_name(correlation_id: Seq<char>) -> Seq<char> {
    correlation_id + ".temp"@
}

/// The name of the temporary file that a session downloads signatures
/// into.
pub open spec fn signature_name(correlation_id: Seq<char>) -> Seq<char> {
    correlation_id + ".temp_sig"@
}

/// Names the temporary download file of the session with the given id.
/// Sessions with different ids get different files.
pub fn temp_file_name(correlation_id: &str) -> (name: String)
    ensures
        name@ == temp_name(correlation_id@),
{
    correlation_id.to_owned().concat(".temp")
}

/// Names the temporary signature file of the session with the given id.
pub fn signature_file_name(correlation_id: &str) -> (name: String)
    ensures
        name@ == signature_name(correlation_id@),
{
    correlation_id.to_owned().concat(".temp_sig")
}

/// Reads a path as text with `Path::to_str`. Trusted: the result is the
/// one that `path_text` names.
#[verifier::external_body]
fn path_as_text(path: &PathBuf) -> (text: Option<&str>)
    ensures
        match text {
            Some(t) => path_text(path) == Some(t@),
            None => path_text(path) is None,
        },
{
    path.to_str()
}

/// Shows a path with `Path::to_string_lossy`. Trusted: the result is the
/// one that `path_shown` names.
#[verifier::external_body]
fn show_path(path: &PathBuf) -> (shown: String)
    ensures
        shown@ == path_shown(path),
{
    path.to_string_lossy().into_owned()
}

/// Gives a path as text. A path that is no valid Unicode has no text: it
/// is refused, and the failure shows it as far as it can be shown.
pub fn path_to_string(p: &PathBuf) -> (text: Result<String, Error>)
    ensures
        match path_text(p) {
            Some(t) => text matches Ok(s) && s@ == t,
            None => text matches Err(Error::ConvertPathToStringError { path }) && path@
                == path_shown(p),
        },
{
    match path_as_text(p) {
        Some(t) => Ok(t.to_owned()),
        None => Err(Error::ConvertPathToStringError { path: show_path(p) }),
    }
}

} // verus!
