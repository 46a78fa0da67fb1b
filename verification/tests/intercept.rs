use sanity_check::entry::{Entry, EntryMode, Metadata};
use sanity_check::error::{Error, ErrorKind};
use sanity_check::info::AccessorInfo;
use sanity_check::intercept::{checked_entry, checked_stat};
use sanity_check::ops::{Operation, RpStat};

fn reply(mode: EntryMode) -> RpStat {
    RpStat::new(Metadata::new(mode).with_content_length(9))
}

#[test]
fn checked_stat_passes_agreeing_reply() {
    let info = AccessorInfo::new("test");
    assert_eq!(checked_stat(&info, "file", Ok(reply(EntryMode::File))), Ok(reply(EntryMode::File)));
    assert_eq!(checked_stat(&info, "dir/", Ok(reply(EntryMode::Dir))), Ok(reply(EntryMode::Dir)));
    assert_eq!(checked_stat(&info, "/", Ok(reply(EntryMode::Dir))), Ok(reply(EntryMode::Dir)));
    assert_eq!(checked_stat(&info, "", Ok(reply(EntryMode::File))), Ok(reply(EntryMode::File)));
}

#[test]
fn checked_stat_replaces_disagreeing_reply() {
    let info = AccessorInfo::new("test");
    let err = checked_stat(&info, "/", Ok(reply(EntryMode::File))).expect_err("root as file");
    assert_eq!(err.kind(), ErrorKind::Unexpected);
    assert_eq!(err.operation(), Some(Operation::Stat));
    assert_eq!(err.context_value("path"), Some("/"));
    assert_eq!(err.context_value("context_path"), Some("/"));
    assert_eq!(
        err.message(),
        "service test returned an unexpected stat response: \
         path `/` was reported as a file but ends with `/`"
    );
    let err = checked_stat(&info, "x", Ok(reply(EntryMode::Unknown))).expect_err("unknown");
    assert_eq!(
        err.message(),
        "service test returned an unexpected stat response: metadata is missing an entry mode"
    );
}

#[test]
fn checked_stat_passes_failure() {
    let info = AccessorInfo::new("test");
    let inner = Error::new(ErrorKind::Unsupported, "stat is not offered");
    assert_eq!(checked_stat(&info, "dir", Err(inner.clone())), Err(inner));
}

#[test]
fn checked_entry_passes_end_of_stream_and_failure() {
    let info = AccessorInfo::new("test");
    assert_eq!(checked_entry(&info, "parent/", Ok(None)), Ok(None));
    let inner = Error::new(ErrorKind::AlreadyExists, "twice");
    assert_eq!(checked_entry(&info, "parent/", Err(inner.clone())), Err(inner));
}

#[test]
fn checked_entry_passes_agreeing_entry() {
    let info = AccessorInfo::new("test");
    let entry = Entry::new("parent/a", Metadata::new(EntryMode::File).with_content_length(5));
    assert_eq!(checked_entry(&info, "parent/", Ok(Some(entry.clone()))), Ok(Some(entry)));
}

#[test]
fn checked_entry_replaces_disagreeing_entry() {
    let info = AccessorInfo::new("fs");
    let entry = Entry::new("parent/a/", Metadata::new(EntryMode::File));
    let err = checked_entry(&info, "parent/", Ok(Some(entry))).expect_err("file with slash");
    assert_eq!(err.kind(), ErrorKind::Unexpected);
    assert_eq!(err.operation(), Some(Operation::List));
    assert_eq!(err.context_value("path"), Some("parent/a/"));
    assert_eq!(err.context_value("list_path"), Some("parent/"));
    assert_eq!(
        err.message(),
        "service fs returned an unexpected list response: \
         path `parent/a/` was reported as a file but ends with `/`"
    );
}
