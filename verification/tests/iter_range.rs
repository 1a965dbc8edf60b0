use rocksdb::iter_range::next_prefix;
use rocksdb::{IterateBounds, PrefixRange, ReadOptions};

fn check_prefix(start: &[u8], end: Option<&[u8]>) {
    let got = PrefixRange(start).into_bounds();
    assert_eq!((Some(start), end), (got.0.as_deref(), got.1.as_deref()));
}

#[test]
fn test_prefix_range() {
    let empty: &[u8] = &[];
    assert_eq!((None, None), PrefixRange(empty).into_bounds());
    check_prefix(b"\xff", None);
    check_prefix(b"\xff\xff\xff\xff", None);
    check_prefix(b"a", Some(b"b"));
    check_prefix(b"a\xff\xff\xff", Some(b"b"));
}

#[test]
fn next_prefix_examples() {
    assert_eq!(next_prefix(b"foo"), Some(b"fop".to_vec()));
    assert_eq!(next_prefix(b""), None);
    assert_eq!(next_prefix(b"\xff\xff"), None);
    assert_eq!(next_prefix(b"a\xfe\xff"), Some(b"a\xff".to_vec()));
    assert_eq!(next_prefix(b"\x00"), Some(b"\x01".to_vec()));
}

#[test]
fn prefix_range_of_vec() {
    let (lo, hi) = PrefixRange(b"ab".to_vec()).into_bounds();
    assert_eq!(lo, Some(b"ab".to_vec()));
    assert_eq!(hi, Some(b"ac".to_vec()));
}

#[test]
fn range_bounds() {
    let (lo, hi) = (b"a".to_vec()..b"c".to_vec()).into_bounds();
    assert_eq!(lo, Some(b"a".to_vec()));
    assert_eq!(hi, Some(b"c".to_vec()));
}

/// A prefix scan selects the same keys as the range scan over the bounds of
/// the prefix range.
#[test]
fn prefix_scan_is_range_scan() {
    let keys: Vec<&[u8]> = vec![b"", b"a", b"ab", b"ab\x00", b"ab\xff", b"ac", b"b", b"\xff", b"\xff\xff"];
    let prefixes: Vec<&[u8]> = vec![b"a", b"ab", b"\xff", b"a\xff"];
    for p in prefixes {
        let (lo, hi) = PrefixRange(p).into_bounds();
        for k in &keys {
            let in_range = lo.as_deref().map_or(true, |l| l <= *k)
                && hi.as_deref().map_or(true, |h| *k < h);
            assert_eq!(k.starts_with(p), in_range, "prefix {:?} key {:?}", p, k);
        }
    }
}

#[test]
fn set_iterate_range_sets_and_clears_bounds() {
    let mut opts = ReadOptions::default();
    opts.set_iterate_upper_bound(b"zzz".to_vec());
    opts.set_iterate_range(PrefixRange(&b"\xff"[..]));
    assert_eq!(opts.iterate_lower_bound, Some(b"\xff".to_vec()));
    assert_eq!(opts.iterate_upper_bound, None);
    opts.set_iterate_range(PrefixRange(&b"k"[..]));
    assert_eq!(opts.iterate_lower_bound, Some(b"k".to_vec()));
    assert_eq!(opts.iterate_upper_bound, Some(b"l".to_vec()));
}
