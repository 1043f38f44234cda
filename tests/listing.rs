use disk_entry::entry::{entry_from_meta, get_meta, to_unix_seconds, DiskEntry, Origin, RawMeta};
use disk_entry::walk::{build_entries, Mode, RawChild};
use disk_entry::Error;

fn file_meta(identity: u64) -> RawMeta {
    RawMeta { is_dir: false, is_link: false, created: Some(1_684_465_837), modified: 1_684_465_837, identity }
}

fn dir_meta(identity: u64) -> RawMeta {
    RawMeta { is_dir: true, is_link: false, created: None, modified: 1_684_465_837, identity }
}

fn file(path: &str, name: &str) -> RawChild {
    RawChild {
        path: path.to_string(),
        name: name.to_string(),
        meta: Some(file_meta(7)),
        contents: None,
    }
}

fn dir(path: &str, name: &str, contents: Option<Vec<RawChild>>) -> RawChild {
    RawChild {
        path: path.to_string(),
        name: name.to_string(),
        meta: Some(dir_meta(8)),
        contents,
    }
}

fn find<'a>(es: &'a [DiskEntry], name: &str) -> &'a DiskEntry {
    es.iter().find(|e| e.name == name).expect("entry present")
}

#[test]
fn flat_listing_of_file_and_empty_dir() {
    let children = vec![file("/tmp/a/f.txt", "f.txt"), dir("/tmp/a/b", "b", None)];
    let es = build_entries(&children, Origin::Unix, Mode::Levels(0));
    assert_eq!(es.len(), 2);
    let f = find(&es, "f.txt");
    assert!(!f.is_dir);
    assert!(f.sub.is_none());
    assert_eq!(f.path, "/tmp/a/f.txt");
    let b = find(&es, "b");
    assert!(b.is_dir);
    assert_eq!(b.sub.as_ref().map(|v| v.len()), Some(0));
}

#[test]
fn flat_listing_ignores_listed_contents() {
    let inner = vec![file("/d/x/y", "y")];
    let children = vec![dir("/d/x", "x", Some(inner))];
    let es = build_entries(&children, Origin::Unix, Mode::Levels(0));
    assert_eq!(es.len(), 1);
    assert_eq!(es[0].sub.as_ref().map(|v| v.len()), Some(0));
}

#[test]
fn levels_default_is_flat() {
    assert_eq!(Mode::levels(None), Mode::Levels(0));
    assert_eq!(Mode::levels(Some(3)), Mode::Levels(3));
}

#[test]
fn unreadable_child_is_left_out() {
    let children = vec![
        file("/d/a", "a"),
        RawChild { path: "/d/b".to_string(), name: "b".to_string(), meta: None, contents: None },
        file("/d/c", "c"),
    ];
    let es = build_entries(&children, Origin::Unix, Mode::Levels(0));
    let names: Vec<&str> = es.iter().map(|e| e.name.as_str()).collect();
    assert_eq!(names, vec!["a", "c"]);
}

#[test]
fn unlistable_dir_is_left_out_when_descending() {
    let children = vec![dir("/d/x", "x", None), file("/d/f", "f")];
    let es = build_entries(&children, Origin::Unix, Mode::Levels(1));
    assert_eq!(es.len(), 1);
    assert_eq!(es[0].name, "f");
}

#[test]
fn bounded_listing_stops_at_depth() {
    // /d/x/y/z: with one level below, y is listed with an empty sub.
    let z = file("/d/x/y/z", "z");
    let y = dir("/d/x/y", "y", Some(vec![z]));
    let x = dir("/d/x", "x", Some(vec![y]));
    let es = build_entries(&vec![x], Origin::Unix, Mode::Levels(1));
    assert_eq!(es.len(), 1);
    let xs = es[0].sub.as_ref().unwrap();
    assert_eq!(xs.len(), 1);
    assert_eq!(xs[0].name, "y");
    assert_eq!(xs[0].sub.as_ref().map(|v| v.len()), Some(0));
}

#[test]
fn recursive_listing_reaches_leaves() {
    let z = file("/d/x/y/z", "z");
    let y = dir("/d/x/y", "y", Some(vec![z]));
    let x = dir("/d/x", "x", Some(vec![y]));
    let es = build_entries(&vec![x], Origin::Unix, Mode::Recursive);
    let ys = es[0].sub.as_ref().unwrap();
    let zs = ys[0].sub.as_ref().unwrap();
    assert_eq!(zs.len(), 1);
    assert_eq!(zs[0].name, "z");
    assert!(zs[0].sub.is_none());
}

#[test]
fn recursive_with_depth_is_an_error() {
    match Mode::from_flags(true, 1) {
        Err(Error::Etc(_)) => {}
        _ => panic!("expected a configuration error"),
    }
    assert_eq!(Mode::from_flags(true, 0).ok(), Some(Mode::Recursive));
    assert_eq!(Mode::from_flags(false, 2).ok(), Some(Mode::Levels(2)));
}

#[test]
fn descend_counts_down() {
    assert_eq!(Mode::Levels(2).descend(), Some(Mode::Levels(1)));
    assert_eq!(Mode::Levels(0).descend(), None);
    assert_eq!(Mode::Recursive.descend(), Some(Mode::Recursive));
}

#[test]
fn lookup_of_file_has_no_children() {
    let e = entry_from_meta("/tmp/a/new.txt".to_string(), "new.txt".to_string(), &file_meta(1), Origin::Unix)
        .ok()
        .unwrap();
    assert!(!e.is_dir);
    assert!(e.sub.is_none());
    assert_eq!(e.name, "new.txt");
}

#[test]
fn lookup_of_dir_has_empty_children() {
    let e = entry_from_meta("/tmp/a".to_string(), "a".to_string(), &dir_meta(1), Origin::Unix).ok().unwrap();
    assert!(e.is_dir);
    assert_eq!(e.sub.map(|v| v.len()), Some(0));
}

#[test]
fn lookup_with_time_out_of_range_fails() {
    let m = RawMeta { is_dir: false, is_link: false, created: None, modified: i64::MAX, identity: 0 };
    match entry_from_meta("p".to_string(), "p".to_string(), &m, Origin::Unix) {
        Err(Error::Etc(_)) => {}
        _ => panic!("expected an error"),
    }
}

#[test]
fn entry_identity_halves() {
    let m = file_meta(0x1234_5678_9abc_def0);
    let n = get_meta(&m, Origin::Unix).unwrap();
    assert_eq!(n.3, 0x9abc_def0);
    assert_eq!(n.4, 0x1234_5678);
    assert_eq!(((n.4 as u64) << 32) | n.3 as u64, 0x1234_5678_9abc_def0);
}

#[test]
fn windows_origin_shifts_epoch() {
    assert_eq!(to_unix_seconds(11_644_473_600, Origin::Windows), Some(0));
    assert_eq!(to_unix_seconds(0, Origin::Windows), Some(-11_644_473_600));
    assert_eq!(to_unix_seconds(5, Origin::Unix), Some(5));
    assert_eq!(to_unix_seconds(i64::MIN, Origin::Unix), None);
    assert_eq!(to_unix_seconds(i64::MAX, Origin::Windows), None);
}

#[test]
fn times_are_rendered_in_local_form() {
    let n = get_meta(&file_meta(0), Origin::Unix).unwrap();
    for t in [&n.1, &n.2] {
        let b = t.as_bytes();
        assert!(t.len() == 26 || t.len() == 29, "{}", t);
        assert_eq!(b[4], b'-');
        assert_eq!(b[7], b'-');
        assert_eq!(b[10], b' ');
        assert_eq!(b[13], b':');
        assert_eq!(b[16], b':');
        assert_eq!(b[19], b' ');
        assert!(b[20] == b'+' || b[20] == b'-');
    }
}

#[test]
fn linked_dir_is_not_followed() {
    let inner = vec![file("/d/l/y", "y")];
    let link = RawChild {
        path: "/d/l".to_string(),
        name: "l".to_string(),
        meta: Some(RawMeta { is_link: true, ..dir_meta(9) }),
        contents: Some(inner),
    };
    let es = build_entries(&vec![link], Origin::Unix, Mode::Recursive);
    assert_eq!(es.len(), 1);
    assert!(es[0].is_dir);
    assert_eq!(es[0].sub.as_ref().map(|v| v.len()), Some(0));
}
