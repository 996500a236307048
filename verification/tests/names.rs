use cgroups::name::{is_nul_free, is_valid_controller_name, is_valid_group_name};

#[test]
fn ordinary_names_are_valid() {
    assert!(is_valid_group_name("foo"));
    assert!(is_valid_group_name("testgroup"));
    assert!(is_valid_group_name("parent/child"));
    assert!(is_valid_controller_name("cpuset"));
    assert!(is_valid_controller_name("memory"));
}

#[test]
fn empty_group_name_is_refused() {
    assert!(!is_valid_group_name(""));
}

#[test]
fn empty_controller_name_is_nul_free() {
    assert!(is_nul_free(""));
    assert!(is_valid_controller_name(""));
}

#[test]
fn embedded_nul_is_refused() {
    assert!(!is_nul_free("\0"));
    assert!(!is_nul_free("foo\0"));
    assert!(!is_nul_free("\0foo"));
    assert!(!is_nul_free("fo\0o"));
    assert!(!is_valid_group_name("fo\0o"));
    assert!(!is_valid_controller_name("cpu\0set"));
}

#[test]
fn names_beyond_ascii_are_read_by_character() {
    assert!(is_valid_group_name("gruppe-\u{e4}\u{f6}\u{fc}"));
    assert!(is_valid_group_name("\u{30b0}\u{30eb}\u{30fc}\u{30d7}"));
    assert!(!is_valid_group_name("\u{30b0}\0\u{30d7}"));
    assert!(!is_nul_free("\u{1f600}\0"));
}
