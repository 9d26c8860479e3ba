use minisign::KeyPair;
use std::io::Cursor;
use yarc_launcher::error::{Error, ErrorKind};
use yarc_launcher::signature::{
    global_signature_complete, measure_last_line, verify, verify_release,
    GLOBAL_SIGNATURE_TEXT_LEN, YARG_PUB_KEY,
};

struct Signed {
    key: String,
    signature: String,
    data: Vec<u8>,
}

fn signed(data: &[u8]) -> Signed {
    let KeyPair { pk, sk } = KeyPair::generate_unencrypted_keypair().unwrap();
    let signature_box =
        minisign::sign(Some(&pk), &sk, Cursor::new(data), Some("release"), Some("a test"))
            .unwrap();
    Signed {
        key: pk.to_box().unwrap().to_string(),
        signature: signature_box.into_string(),
        data: data.to_vec(),
    }
}

fn kind(result: Result<(), Error>) -> Option<ErrorKind> {
    result.err().map(|error| error.kind())
}

#[test]
fn file_with_its_own_signature_passes() {
    let s = signed(b"the payload of a release");
    assert_eq!(verify(&s.data, &s.signature, &s.key), Ok(()));
}

#[test]
fn empty_file_with_its_own_signature_passes() {
    let s = signed(b"");
    assert_eq!(verify(&s.data, &s.signature, &s.key), Ok(()));
}

#[test]
fn large_file_with_its_own_signature_passes() {
    let data: Vec<u8> = (0..300_000u32).map(|i| (i % 251) as u8).collect();
    let s = signed(&data);
    assert_eq!(verify(&s.data, &s.signature, &s.key), Ok(()));
}

#[test]
fn tampered_byte_fails_verification() {
    let s = signed(b"the payload of a release");
    let mut tampered = s.data.clone();
    tampered[3] ^= 1;
    assert_eq!(kind(verify(&tampered, &s.signature, &s.key)), Some(ErrorKind::VerifyFail));
}

#[test]
fn missing_or_added_byte_fails_verification() {
    let s = signed(b"the payload of a release");
    let shorter = &s.data[..s.data.len() - 1];
    assert_eq!(kind(verify(shorter, &s.signature, &s.key)), Some(ErrorKind::VerifyFail));
    let mut longer = s.data.clone();
    longer.push(0);
    assert_eq!(kind(verify(&longer, &s.signature, &s.key)), Some(ErrorKind::VerifyFail));
}

#[test]
fn signature_of_another_key_fails_verification() {
    let s = signed(b"the payload of a release");
    let other = signed(b"the payload of a release");
    assert_eq!(kind(verify(&s.data, &s.signature, &other.key)), Some(ErrorKind::VerifyFail));
}

#[test]
fn signature_of_another_file_fails_verification() {
    let s = signed(b"the payload of a release");
    assert_eq!(
        kind(verify(b"another payload", &s.signature, &s.key)),
        Some(ErrorKind::VerifyFail)
    );
}

#[test]
fn malformed_signature_file_is_invalid() {
    let s = signed(b"the payload of a release");
    assert_eq!(
        kind(verify(&s.data, "this is no signature", &s.key)),
        Some(ErrorKind::InvalidSignatureFile)
    );
    assert_eq!(kind(verify(&s.data, "", &s.key)), Some(ErrorKind::InvalidSignatureFile));
}

#[test]
fn signature_file_cut_after_two_lines_is_invalid() {
    let s = signed(b"the payload of a release");
    let lines: Vec<&str> = s.signature.lines().collect();
    let cut = format!("{}\n{}\n", lines[0], lines[1]);
    assert_eq!(kind(verify(&s.data, &cut, &s.key)), Some(ErrorKind::InvalidSignatureFile));
}

#[test]
fn signature_file_with_a_broken_signature_line_is_invalid() {
    let s = signed(b"the payload of a release");
    let lines: Vec<&str> = s.signature.lines().collect();
    let broken = format!("{}\n{}\n{}\n{}\n", lines[0], "!!!not base64!!!", lines[2], lines[3]);
    assert_eq!(kind(verify(&s.data, &broken, &s.key)), Some(ErrorKind::InvalidSignatureFile));
}

#[test]
fn malformed_signature_file_is_invalid_whatever_the_key() {
    assert_eq!(
        kind(verify(b"data", "this is no signature", "this is no key")),
        Some(ErrorKind::InvalidSignatureFile)
    );
}

#[test]
fn key_that_cannot_be_read_fails_verification() {
    let s = signed(b"the payload of a release");
    assert_eq!(kind(verify(&s.data, &s.signature, "this is no key")), Some(ErrorKind::VerifyFail));
    assert_eq!(kind(verify(&s.data, &s.signature, "")), Some(ErrorKind::VerifyFail));
}

#[test]
fn tampered_trusted_comment_fails_verification() {
    let s = signed(b"the payload of a release");
    let lines: Vec<&str> = s.signature.lines().collect();
    let changed =
        format!("{}\n{}\ntrusted comment: another release\n{}\n", lines[0], lines[1], lines[3]);
    assert_eq!(kind(verify(&s.data, &changed, &s.key)), Some(ErrorKind::VerifyFail));
}

#[test]
fn global_signature_cut_short_fails_verification() {
    let s = signed(b"the payload of a release");
    let lines: Vec<&str> = s.signature.lines().collect();
    for short in ["", "AAAA", "QUJDREVGR0hJSktMTU5PUA=="] {
        let cut = format!("{}\n{}\n{}\n{}\n", lines[0], lines[1], lines[2], short);
        assert_eq!(kind(verify(&s.data, &cut, &s.key)), Some(ErrorKind::VerifyFail));
    }
}

#[test]
fn untrusted_comment_may_change() {
    let s = signed(b"the payload of a release");
    let lines: Vec<&str> = s.signature.lines().collect();
    let changed =
        format!("untrusted comment: anything\n{}\n{}\n{}\n", lines[1], lines[2], lines[3]);
    assert_eq!(verify(&s.data, &changed, &s.key), Ok(()));
}

#[test]
fn release_key_is_a_key() {
    assert!(YARG_PUB_KEY.starts_with("untrusted comment: minisign public key C26EBBBEC4C1DB81\n"));
    assert_eq!(YARG_PUB_KEY.lines().count(), 2);
    assert_eq!(YARG_PUB_KEY.lines().nth(1).unwrap().len(), 56);
}

#[test]
fn signature_of_a_stranger_is_no_release() {
    let s = signed(b"the payload of a release");
    assert_eq!(kind(verify_release(&s.data, &s.signature)), Some(ErrorKind::VerifyFail));
}

#[test]
fn malformed_signature_file_is_no_release() {
    assert_eq!(
        kind(verify_release(b"data", "this is no signature")),
        Some(ErrorKind::InvalidSignatureFile)
    );
}

#[test]
fn last_line_is_measured_without_its_line_feed() {
    assert_eq!(measure_last_line(b""), 0);
    assert_eq!(measure_last_line(b"\n"), 0);
    assert_eq!(measure_last_line(b"abc"), 3);
    assert_eq!(measure_last_line(b"abc\n"), 3);
    assert_eq!(measure_last_line(b"one\ntwo\nthree\n"), 5);
    assert_eq!(measure_last_line(b"one\ntwo\nthree"), 5);
    assert_eq!(measure_last_line(b"one\n\n"), 0);
    assert_eq!(measure_last_line(b"\n\nxy"), 2);
}

#[test]
fn global_signature_of_sixty_four_bytes_takes_eighty_eight_letters() {
    assert_eq!(GLOBAL_SIGNATURE_TEXT_LEN, 88);
    let full = format!("a\nb\nc\n{}\n", "A".repeat(88));
    let short = format!("a\nb\nc\n{}\n", "A".repeat(87));
    let long = format!("a\nb\nc\n{}\n", "A".repeat(92));
    assert!(global_signature_complete(full.as_bytes()));
    assert!(!global_signature_complete(short.as_bytes()));
    assert!(global_signature_complete(long.as_bytes()));
    assert!(!global_signature_complete(b""));
}

#[test]
fn written_signature_ends_in_a_complete_global_signature() {
    let s = signed(b"the payload of a release");
    assert!(global_signature_complete(s.signature.as_bytes()));
    assert_eq!(measure_last_line(s.signature.as_bytes()), 88);
}

#[test]
fn written_signature_file_can_be_read() {
    let s = signed(b"the payload of a release");
    assert_eq!(yarc_launcher::signature::check_signature_file(&s.signature), Ok(()));
}

#[test]
fn signature_file_that_cannot_be_read_is_invalid() {
    for text in ["", "one line", "untrusted comment: x\nAAAA\ntrusted comment: y\nAAAA\n"] {
        assert_eq!(
            kind(yarc_launcher::signature::check_signature_file(text)),
            Some(ErrorKind::InvalidSignatureFile)
        );
    }
}

#[test]
fn lines_after_the_fourth_are_not_part_of_the_signature() {
    let s = signed(b"the payload of a release");
    let longer = format!("{}one more line\n", s.signature);
    assert_eq!(verify(&s.data, &longer, &s.key), Ok(()));
    let mut tampered = s.data.clone();
    tampered[0] ^= 0x80;
    assert_eq!(kind(verify(&tampered, &longer, &s.key)), Some(ErrorKind::VerifyFail));
}

#[test]
fn signature_file_may_end_without_a_line_feed() {
    let s = signed(b"the payload of a release");
    let trimmed = s.signature.trim_end();
    assert_eq!(verify(&s.data, trimmed, &s.key), Ok(()));
}

#[test]
fn global_signature_cut_short_is_named_in_the_failure() {
    let s = signed(b"the payload of a release");
    let lines: Vec<&str> = s.signature.lines().collect();
    let cut = format!("{}\n{}\n{}\n{}\n", lines[0], lines[1], lines[2], "AAAA");
    match verify(&s.data, &cut, &s.key) {
        Err(Error::VerifyFail { error }) => {
            assert_eq!(error.description, "Global signature is incomplete");
            assert_eq!(error.debug_format, "Global signature is incomplete");
            assert_eq!(
                error.description,
                yarc_launcher::signature::INCOMPLETE_GLOBAL_SIGNATURE
            );
        }
        other => panic!("a cut global signature fails verification, not {other:?}"),
    }
}
