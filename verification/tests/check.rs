use sanity_check::check::{sanity_check_path_mode, unexpected_response};
use sanity_check::entry::EntryMode;
use sanity_check::error::ErrorKind;
use sanity_check::info::AccessorInfo;
use sanity_check::ops::Operation;

fn build_info() -> AccessorInfo {
    let mut info = AccessorInfo::default();
    info.set_scheme("test");
    info
}

#[test]
fn sanity_check_accepts_valid_file_metadata() {
    let info = build_info();
    sanity_check_path_mode(&info, Operation::Stat, "file", "file", EntryMode::File)
        .expect("valid file metadata should pass");
}

#[test]
fn sanity_check_accepts_valid_dir_metadata() {
    let info = build_info();
    sanity_check_path_mode(&info, Operation::Stat, "dir/", "dir/", EntryMode::Dir)
        .expect("valid dir metadata should pass");
}

#[test]
fn sanity_check_rejects_unknown_mode() {
    let info = build_info();
    let err = sanity_check_path_mode(&info, Operation::Stat, "file", "file", EntryMode::Unknown)
        .expect_err("unknown mode should fail");
    assert_eq!(err.kind(), ErrorKind::Unexpected);
}

#[test]
fn sanity_check_rejects_dir_without_trailing_slash() {
    let info = build_info();
    let err = sanity_check_path_mode(&info, Operation::Stat, "dir", "dir", EntryMode::Dir)
        .expect_err("dir without trailing slash should fail");
    assert_eq!(err.kind(), ErrorKind::Unexpected);
}

#[test]
fn sanity_check_rejects_file_with_trailing_slash() {
    let info = build_info();
    let err = sanity_check_path_mode(&info, Operation::Stat, "dir/", "dir/", EntryMode::File)
        .expect_err("file with trailing slash should fail");
    assert_eq!(err.kind(), ErrorKind::Unexpected);
}

#[test]
fn sanity_check_allows_root_directory() {
    let info = build_info();
    sanity_check_path_mode(&info, Operation::Stat, "/", "/", EntryMode::Dir)
        .expect("root directory should pass");
}

#[test]
fn sanity_check_rejects_root_as_file() {
    let info = build_info();
    let err = sanity_check_path_mode(&info, Operation::Stat, "/", "/", EntryMode::File)
        .expect_err("root marked as file should fail");
    assert_eq!(err.kind(), ErrorKind::Unexpected);
}

#[test]
fn unknown_mode_error_names_the_path_twice_for_stat() {
    let info = build_info();
    let err = sanity_check_path_mode(&info, Operation::Stat, "file", "file", EntryMode::Unknown)
        .expect_err("unknown mode should fail");
    assert_eq!(err.kind(), ErrorKind::Unexpected);
    assert!(err.message().contains("metadata is missing an entry mode"));
    assert_eq!(err.context_value("path"), Some("file"));
    assert_eq!(err.context_value("context_path"), Some("file"));
    assert_eq!(err.context_value("list_path"), None);
    assert_eq!(err.operation(), Some(Operation::Stat));
}

#[test]
fn unknown_mode_message_is_exact() {
    let info = build_info();
    let err = sanity_check_path_mode(&info, Operation::Stat, "file", "file", EntryMode::Unknown)
        .expect_err("unknown mode should fail");
    assert_eq!(
        err.message(),
        "service test returned an unexpected stat response: metadata is missing an entry mode"
    );
}

#[test]
fn dir_without_slash_message_is_exact() {
    let info = build_info();
    let err = sanity_check_path_mode(&info, Operation::Stat, "dir", "dir", EntryMode::Dir)
        .expect_err("dir without trailing slash should fail");
    assert!(err.message().contains("reported as a directory but does not end with `/`"));
    assert_eq!(
        err.message(),
        "service test returned an unexpected stat response: \
         path `dir` was reported as a directory but does not end with `/`"
    );
    assert_eq!(err.context_value("path"), Some("dir"));
}

#[test]
fn file_with_slash_message_is_exact() {
    let info = build_info();
    let err = sanity_check_path_mode(&info, Operation::Stat, "dir/", "dir/", EntryMode::File)
        .expect_err("file with trailing slash should fail");
    assert!(err.message().contains("reported as a file but ends with `/`"));
    assert_eq!(
        err.message(),
        "service test returned an unexpected stat response: \
         path `dir/` was reported as a file but ends with `/`"
    );
}

#[test]
fn list_failure_names_listed_directory_and_entry() {
    let info = build_info();
    let err = sanity_check_path_mode(
        &info,
        Operation::List,
        "parent/",
        "parent/child",
        EntryMode::Unknown,
    )
    .expect_err("unknown mode should fail");
    assert_eq!(err.kind(), ErrorKind::Unexpected);
    assert_eq!(err.context_value("list_path"), Some("parent/"));
    assert_eq!(err.context_value("path"), Some("parent/child"));
    assert_eq!(err.context_value("context_path"), None);
    assert_eq!(err.operation(), Some(Operation::List));
    assert_eq!(
        err.message(),
        "service test returned an unexpected list response: metadata is missing an entry mode"
    );
}

#[test]
fn context_path_does_not_appear_in_the_message() {
    let info = build_info();
    let err = sanity_check_path_mode(&info, Operation::List, "parent/", "other", EntryMode::Dir)
        .expect_err("dir without trailing slash should fail");
    assert!(!err.message().contains("parent/"));
    assert!(err.message().contains("path `other`"));
}

#[test]
fn unknown_mode_fails_for_every_operation_and_shape() {
    let info = build_info();
    let ops = [
        Operation::Read,
        Operation::Write,
        Operation::Stat,
        Operation::Delete,
        Operation::List,
    ];
    for op in ops {
        for path in ["", "/", "a", "a/", "a/b", "a/b/", "//"] {
            let err = sanity_check_path_mode(&info, op, path, path, EntryMode::Unknown)
                .expect_err("unknown mode should fail");
            assert_eq!(err.kind(), ErrorKind::Unexpected);
            assert_eq!(err.operation(), Some(op));
        }
    }
}

#[test]
fn empty_path_is_a_file_path() {
    let info = build_info();
    sanity_check_path_mode(&info, Operation::Stat, "", "", EntryMode::File)
        .expect("the empty path is not directory-shaped");
    sanity_check_path_mode(&info, Operation::Stat, "", "", EntryMode::Dir)
        .expect_err("the empty path is not directory-shaped");
}

#[test]
fn unexpected_response_builds_all_parts() {
    let info = build_info();
    let err = unexpected_response(&info, Operation::Stat, "target", "asked", "went wrong");
    assert_eq!(err.kind(), ErrorKind::Unexpected);
    assert_eq!(err.message(), "service test returned an unexpected stat response: went wrong");
    assert_eq!(err.operation(), Some(Operation::Stat));
    assert_eq!(err.context_value("path"), Some("target"));
    assert_eq!(err.context_value("context_path"), Some("asked"));
    assert_eq!(err.context_value("list_path"), None);
}

#[test]
fn unexpected_response_picks_the_key_by_operation() {
    let info = build_info();
    for op in [Operation::Read, Operation::Write, Operation::Stat, Operation::Delete] {
        let err = unexpected_response(&info, op, "t", "c", "d");
        assert_eq!(err.context_value("context_path"), Some("c"));
        assert_eq!(err.context_value("list_path"), None);
        assert_eq!(err.context_value("path"), Some("t"));
    }
    let err = unexpected_response(&info, Operation::List, "t", "c", "d");
    assert_eq!(err.context_value("list_path"), Some("c"));
    assert_eq!(err.context_value("context_path"), None);
    assert_eq!(err.context_value("path"), Some("t"));
}

#[test]
fn unexpected_response_uses_the_scheme_of_the_backend() {
    let info = AccessorInfo::new("s3");
    let err = unexpected_response(&info, Operation::List, "t", "c", "d");
    assert_eq!(err.message(), "service s3 returned an unexpected list response: d");
}
