//! Detached signatures of downloaded files, checked with `minisign`.

use vstd::prelude::*;
use crate::error::{Error, ErrorInfo};
use minisign::{PError, PublicKeyBox, SignatureBox};

verus! {

/// The one public key that releases are signed with.
pub const YARG_PUB_KEY: &'static str =
    "untrusted comment: minisign public key C26EBBBEC4C1DB81\nRWSB28HEvrtuwvPn3pweVBodgVi/d+UH22xDsL3K8VBgeRqaIrDdTvps\n";

/// The byte that ends a line.
pub const LINE_FEED: u8 = 10;

/// The length of a global signature of 64 bytes, written in base64.
pub const GLOBAL_SIGNATURE_TEXT_LEN: usize = 88;

/// What is said of a signature file whose global signature is cut short.
pub const INCOMPLETE_GLOBAL_SIGNATURE: &'static str = "Global signature is incomplete";

/// The failure type of `minisign`, as a value that is carried through and
/// put into words.
#[verifier::external_type_specification]
#[verifier::external_body]
pub struct ExPError(PError);

/// Whether `minisign` reads `key` as a public key.
pub uninterp spec fn public_key_parses(key: Seq<char>) -> bool;

/// Whether `minisign` reads `signature` as a signature file.
pub uninterp spec fn signature_parses(signature: Seq<char>) -> bool;

/// The signature file `signature` as `minisign` writes it out again: four
/// lines, each ended by a line feed, the last of them the global
/// signature in base64.
pub uninterp spec fn signature_canonical(signature: Seq<char>) -> Seq<u8>;

/// Whether `minisign` finds that `signature` is a signature of `data`
/// made with the secret key that belongs to `key`.
pub uninterp spec fn signature_matches(key: Seq<char>, signature: Seq<char>, data: Seq<
    u8,
>) -> bool;

/// What the check of a signature comes to.
#[derive(Debug, Clone, Copy, PartialEq, Eq, Structural)]
pub enum Verdict {
    /// The signature is one of the data, made with the key.
    Accepted,
    /// The signature file cannot be read as one.
    Malformed,
    /// The signature file can be read, and it is no signature of the data
    /// with this key.
    Rejected,
}

/// The number of bytes at the end of `text` that are no line feed.
pub open spec fn trailing_len(text: Seq<u8>) -> nat
    decreases text.len(),
{
    if text.len() == 0 || text.last() == LINE_FEED {
        0
    } else {
        1 + trailing_len(text.drop_last())
    }
}

/// The length of the last line of `text`, without the line feed that may
/// end it.
pub open spec fn last_line_len(text: Seq<u8>) -> nat {
    if text.len() > 0 && text.last() == LINE_FEED {
        trailing_len(text.drop_last())
    } else {
        trailing_len(text)
    }
}

/// Whether the global signature in a signature file, written out as
/// `canonical`, holds the 64 bytes that a global signature has, or more.
pub open spec fn global_signature_present(canonical: Seq<u8>) -> bool {
    last_line_len(canonical) >= GLOBAL_SIGNATURE_TEXT_LEN
}

/// What the check of `signature` against `data` with `key` comes to. A
/// signature file that cannot be read is malformed, whatever the data and
/// the key are. One that can be read is accepted if the key can be read,
/// the global signature is all there, and the signature matches.
pub open spec fn verdict_of(key: Seq<char>, signature: Seq<char>, data: Seq<u8>) -> Verdict {
    if !signature_parses(signature) {
        Verdict::Malformed
    } else if public_key_parses(key) && global_signature_present(signature_canonical(signature))
        && signature_matches(key, signature, data) {
        Verdict::Accepted
    } else {
        Verdict::Rejected
    }
}

/// Whether the check with `key` stops at a global signature that is cut
/// short: the signature file and the key can be read, and the global
/// signature holds fewer than the 64 bytes that it has to hold.
pub open spec fn cut_short(key: Seq<char>, signature: Seq<char>) -> bool {
    signature_parses(signature) && public_key_parses(key) && !global_signature_present(
        signature_canonical(signature),
    )
}

/// Whether `result` is what is returned for `verdict`.
pub open spec fn reports(result: Result<(), Error>, verdict: Verdict) -> bool {
    match verdict {
        Verdict::Accepted => result is Ok,
        Verdict::Malformed => result matches Err(failure) && failure is InvalidSignatureFile,
        Verdict::Rejected => result matches Err(failure) && failure is VerifyFail,
    }
}

/// Reads a signature file with `minisign::SignatureBox::from_string` and
/// drops what was read. Trusted: it succeeds exactly on the texts that
/// `signature_parses` names.
#[verifier::external_body]
fn check_signature(signature: &str) -> (checked: Result<(), PError>)
    ensures
        checked is Ok <==> signature_parses(signature@),
{
    match SignatureBox::from_string(signature) {
        Ok(_) => Ok(()),
        Err(error) => Err(error),
    }
}

/// Reads a public key with `minisign::PublicKeyBox::into_public_key` and
/// drops what was read. Trusted: it succeeds exactly on the texts that
/// `public_key_parses` names.
#[verifier::external_body]
fn check_public_key(key: &str) -> (checked: Result<(), PError>)
    ensures
        checked is Ok <==> public_key_parses(key@),
{
    match PublicKeyBox::from(key.to_string()).into_public_key() {
        Ok(_) => Ok(()),
        Err(error) => Err(error),
    }
}

/// Writes a signature file out again with `minisign::SignatureBox::to_bytes`.
/// Trusted: the bytes are those that `signature_canonical` names. The
/// signature file has to be one that `minisign` reads.
#[verifier::external_body]
fn canonical_signature(signature: &str) -> (canonical: Vec<u8>)
    requires
        signature_parses(signature@),
    ensures
        canonical@ == signature_canonical(signature@),
{
    SignatureBox::from_string(signature).unwrap().to_bytes()
}

/// Checks data against a signature with `minisign::verify`, without
/// output and without accepting legacy signatures. Trusted: it succeeds
/// exactly where `signature_matches` says so. The key and the signature
/// file have to be such that `minisign` reads them, and the global
/// signature has to hold 64 bytes: `minisign::verify` slices that many off
/// it without looking at its length.
#[verifier::external_body]
fn run_verify(key: &str, signature: &str, data: &[u8]) -> (verified: Result<(), PError>)
    requires
        public_key_parses(key@),
        signature_parses(signature@),
        global_signature_present(signature_canonical(signature@)),
    ensures
        verified is Ok <==> signature_matches(key@, signature@, data@),
{
    let public_key = PublicKeyBox::from(key.to_string()).into_public_key().unwrap();
    let signature_box = SignatureBox::from_string(signature).unwrap();
    minisign::verify(&public_key, &signature_box, std::io::Cursor::new(data), true, false, false)
}

/// Puts a failure of `minisign` into words, with its `Display` and its
/// `Debug` form. Nothing is claimed of the words.
#[verifier::external_body]
fn describe(error: &PError) -> (info: ErrorInfo) {
    ErrorInfo { description: format!("{}", error), debug_format: format!("{:?}", error) }
}

/// Measures the last line of `text`: the bytes between the line feed that
/// may end the text and the line feed before that, or the start.
pub fn measure_last_line(text: &[u8]) -> (len: usize)
    ensures
        len == last_line_len(text@),
{
    let mut end: usize = text.len();
    if end > 0 && text[end - 1] == LINE_FEED {
        end = end - 1;
        assert(text@.subrange(0, end as int) == text@.drop_last());
    } else {
        assert(text@.subrange(0, end as int) == text@);
    }
    let mut count: usize = 0;
    while end > 0 && text[end - 1] != LINE_FEED
        invariant
            end <= text.len(),
            count + end <= text.len(),
            last_line_len(text@) == count + trailing_len(text@.subrange(0, end as int)),
        decreases end,
    {
        assert(text@.subrange(0, end as int).drop_last() == text@.subrange(0, end - 1));
        end = end - 1;
        count = count + 1;
    }
    count
}

/// Says whether the global signature of a signature file, written out as
/// `canonical`, is all there.
pub fn global_signature_complete(canonical: &[u8]) -> (complete: bool)
    ensures
        complete == global_signature_present(canonical@),
{
    measure_last_line(canonical) >= GLOBAL_SIGNATURE_TEXT_LEN
}

/// The failure that is reported for a signature file whose global
/// signature is cut short: the same fixed words for the user and for the
/// developer.
fn incomplete_global_signature() -> (info: ErrorInfo)
    ensures
        info.description@ == INCOMPLETE_GLOBAL_SIGNATURE@,
        info.debug_format@ == INCOMPLETE_GLOBAL_SIGNATURE@,
{
    ErrorInfo {
        description: INCOMPLETE_GLOBAL_SIGNATURE.to_owned(),
        debug_format: INCOMPLETE_GLOBAL_SIGNATURE.to_owned(),
    }
}

/// Says whether a signature file can be read as one. One that cannot is
/// refused as invalid, with what `minisign` says of it.
pub fn check_signature_file(signature: &str) -> (result: Result<(), Error>)
    ensures
        signature_parses(signature@) ==> result is Ok,
        !signature_parses(signature@) ==> (result matches Err(failure)
            && failure is InvalidSignatureFile),
{
    match check_signature(signature) {
        Ok(_) => Ok(()),
        Err(error) => Err(Error::InvalidSignatureFile { error: describe(&error) }),
    }
}

/// Checks `data` against the detached signature in `signature` with the
/// public key in `public_key`.
///
/// A signature file that cannot be read is refused as invalid before the
/// data or the key are looked at. Everything else that stands in the way
/// (a key that cannot be read, a global signature that is cut short, a
/// signature that does not match) is a failed verification.
pub fn verify(data: &[u8], signature: &str, public_key: &str) -> (result: Result<(), Error>)
    ensures
        reports(result, verdict_of(public_key@, signature@, data@)),
        cut_short(public_key@, signature@) ==> (result matches Err(
            Error::VerifyFail { error },
        ) && error.description@ == INCOMPLETE_GLOBAL_SIGNATURE@ && error.debug_format@
            == INCOMPLETE_GLOBAL_SIGNATURE@),
{
    match check_signature_file(signature) {
        Ok(_) => {},
        Err(failure) => {
            return Err(failure);
        },
    }
    match check_public_key(public_key) {
        Ok(_) => {},
        Err(error) => {
            return Err(Error::VerifyFail { error: describe(&error) });
        },
    }
    let canonical = canonical_signature(signature);
    if !global_signature_complete(canonical.as_slice()) {
        return Err(Error::VerifyFail { error: incomplete_global_signature() });
    }
    match run_verify(public_key, signature, data) {
        Ok(_) => Ok(()),
        Err(error) => Err(Error::VerifyFail { error: describe(&error) }),
    }
}

/// Checks `data` against the detached signature in `signature` with the
/// key that releases are signed with.
pub fn verify_release(data: &[u8], signature: &str) -> (result: Result<(), Error>)
    ensures
        reports(result, verdict_of(YARG_PUB_KEY@, signature@, data@)),
        cut_short(YARG_PUB_KEY@, signature@) ==> (result matches Err(
            Error::VerifyFail { error },
        ) && error.description@ == INCOMPLETE_GLOBAL_SIGNATURE@ && error.debug_format@
            == INCOMPLETE_GLOBAL_SIGNATURE@),
{
    verify(data, signature, YARG_PUB_KEY)
}

} // verus!
