use rocksdb::{Error, ErrorKind};

fn kind(m: &str) -> ErrorKind {
    Error::new(m.to_string()).kind()
}

#[test]
fn every_prefix_names_its_kind() {
    let cases = [
        ("NotFound: ", ErrorKind::NotFound),
        ("Corruption: ", ErrorKind::Corruption),
        ("Not implemented: ", ErrorKind::NotSupported),
        ("Invalid argument: ", ErrorKind::InvalidArgument),
        ("IO error: ", ErrorKind::IOError),
        ("Merge in progress: ", ErrorKind::MergeInProgress),
        ("Result incomplete: ", ErrorKind::Incomplete),
        ("Shutdown in progress: ", ErrorKind::ShutdownInProgress),
        ("Operation timed out: ", ErrorKind::TimedOut),
        ("Operation aborted: ", ErrorKind::Aborted),
        ("Resource busy: ", ErrorKind::Busy),
        ("Operation expired: ", ErrorKind::Expired),
        ("Operation failed. Try again.: ", ErrorKind::TryAgain),
        ("Compaction too large: ", ErrorKind::CompactionTooLarge),
        ("Column family dropped: ", ErrorKind::ColumnFamilyDropped),
    ];
    for (prefix, k) in cases {
        assert_eq!(kind(&format!("{prefix}some detail")), k);
    }
}

#[test]
fn only_the_text_before_the_first_colon_counts() {
    assert_eq!(kind("NotFound"), ErrorKind::NotFound);
    assert_eq!(kind("NotFound: a: b"), ErrorKind::NotFound);
    assert_eq!(kind("IO error:Corruption: x"), ErrorKind::IOError);
    assert_eq!(kind(" NotFound: x"), ErrorKind::Unknown);
    assert_eq!(kind("notfound: x"), ErrorKind::Unknown);
    assert_eq!(kind(""), ErrorKind::Unknown);
    assert_eq!(kind(": NotFound"), ErrorKind::Unknown);
}

#[test]
fn messages_are_kept() {
    let e = Error::new("Corruption: bad block".to_string());
    assert_eq!(e.as_str(), "Corruption: bad block");
    assert_eq!(e.to_string(), "Corruption: bad block");
    assert_eq!(e.clone().into_string(), "Corruption: bad block");
}
