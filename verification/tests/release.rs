use yarc_launcher::error::Error;
use yarc_launcher::release::{parse_file_type, same_text, FileType, ReleaseBundle};

fn bundle(platforms: &[&str]) -> ReleaseBundle {
    ReleaseBundle { platforms: platforms.iter().map(|p| p.to_string()).collect(), files: vec![] }
}

#[test]
fn zip_is_a_plain_archive() {
    assert_eq!(parse_file_type("zip"), Ok(FileType::Zip));
}

#[test]
fn encrypted_is_a_password_protected_archive() {
    assert_eq!(parse_file_type("encrypted"), Ok(FileType::Encrypted));
}

#[test]
fn any_other_type_is_refused_with_its_name() {
    assert_eq!(
        parse_file_type("unsupported"),
        Err(Error::UnhandledReleaseFileType { release_type: "unsupported".to_string() })
    );
    assert_eq!(
        parse_file_type(""),
        Err(Error::UnhandledReleaseFileType { release_type: "".to_string() })
    );
}

#[test]
fn file_types_are_matched_to_the_letter() {
    assert!(parse_file_type("Zip").is_err());
    assert!(parse_file_type("zip ").is_err());
    assert!(parse_file_type(" zip").is_err());
    assert!(parse_file_type("ENCRYPTED").is_err());
    assert!(parse_file_type("zipp").is_err());
    assert!(parse_file_type("7z").is_err());
}

#[test]
fn bundle_is_for_each_of_its_platforms() {
    let b = bundle(&["windows", "linux"]);
    assert!(b.is_for("windows"));
    assert!(b.is_for("linux"));
    assert!(!b.is_for("macos"));
}

#[test]
fn bundle_without_platforms_is_for_none() {
    let b = bundle(&[]);
    assert!(!b.is_for("windows"));
    assert!(!b.is_for(""));
}

#[test]
fn platform_ids_are_matched_to_the_letter() {
    let b = bundle(&["windows"]);
    assert!(!b.is_for("Windows"));
    assert!(!b.is_for("window"));
    assert!(!b.is_for("windows "));
}

#[test]
fn same_text_compares_characters() {
    assert!(same_text("", ""));
    assert!(same_text("v1.2.3", "v1.2.3"));
    assert!(!same_text("v1.2.3", "v1.2.4"));
    assert!(!same_text("a", "ab"));
    assert!(same_text("ünï", "ünï"));
}
