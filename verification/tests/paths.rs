use std::path::PathBuf;
use yarc_launcher::paths::{path_to_string, signature_file_name, temp_file_name};

#[test]
fn temp_file_is_named_from_the_correlation_id() {
    assert_eq!(temp_file_name("3f2a"), "3f2a.temp");
    assert_eq!(
        temp_file_name("0b0e6d1c-7a55-4e0c-9a57-2f4f4f0f6a11"),
        "0b0e6d1c-7a55-4e0c-9a57-2f4f4f0f6a11.temp"
    );
}

#[test]
fn signature_file_is_named_from_the_correlation_id() {
    assert_eq!(signature_file_name("3f2a"), "3f2a.temp_sig");
}

#[test]
fn empty_correlation_id_leaves_the_extension() {
    assert_eq!(temp_file_name(""), ".temp");
    assert_eq!(signature_file_name(""), ".temp_sig");
}

#[test]
fn sessions_with_different_ids_get_different_files() {
    assert_ne!(temp_file_name("a"), temp_file_name("b"));
    assert_ne!(signature_file_name("a"), signature_file_name("b"));
    assert_ne!(temp_file_name("a"), signature_file_name("a"));
}

#[test]
fn unicode_path_is_given_as_text() {
    let p = PathBuf::from("/home/user/YARC/Launcher");
    assert_eq!(path_to_string(&p), Ok("/home/user/YARC/Launcher".to_string()));
    let q = PathBuf::from("/tmp/späße/日本");
    assert_eq!(path_to_string(&q), Ok("/tmp/späße/日本".to_string()));
}

#[test]
fn empty_path_is_empty_text() {
    assert_eq!(path_to_string(&PathBuf::new()), Ok(String::new()));
}

#[test]
fn path_text_keeps_dots_and_separators() {
    let p = PathBuf::from("a/../b/./c//d");
    assert_eq!(path_to_string(&p), Ok("a/../b/./c//d".to_string()));
}
