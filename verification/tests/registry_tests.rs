use meta_fuse_driver::registry::InodeMapper;

#[test]
fn resolve_is_idempotent() {
    let mut m = InodeMapper::new();
    let p = String::from("/data/report.txt");
    let first = m.get_or_create_ino(&p);
    let second = m.get_or_create_ino(&p);
    assert_eq!(first, second);
    assert_eq!(m.get_path(first), Some(&p));
}

#[test]
fn root_is_identifier_one_and_never_reassigned() {
    let mut m = InodeMapper::new();
    assert_eq!(m.get_path(1), Some(&String::from("/")));
    assert_eq!(m.get_or_create_ino(&String::from("/")), 1);
    let _ = m.get_or_create_ino(&String::from("/a"));
    let _ = m.get_or_create_ino(&String::from("/b"));
    assert_eq!(m.get_path(1), Some(&String::from("/")));
    assert_eq!(m.get_or_create_ino(&String::from("/")), 1);
}

#[test]
fn fresh_identifiers_are_distinct_and_skip_the_reserved_one() {
    let mut m = InodeMapper::new();
    let a = m.get_or_create_ino(&String::from("/a"));
    let b = m.get_or_create_ino(&String::from("/b"));
    let c = m.get_or_create_ino(&String::from("/a/b"));
    assert_eq!(a, 3);
    assert_eq!(b, 4);
    assert_eq!(c, 5);
    assert_ne!(a, b);
    assert_ne!(b, c);
    assert!(a != 2 && b != 2 && c != 2);
}

#[test]
fn unknown_identifiers_resolve_to_nothing() {
    let mut m = InodeMapper::new();
    assert_eq!(m.get_path(0), None);
    assert_eq!(m.get_path(2), None);
    assert_eq!(m.get_path(3), None);
    let a = m.get_or_create_ino(&String::from("/a"));
    assert_eq!(m.get_path(a), Some(&String::from("/a")));
    assert_eq!(m.get_path(a + 1), None);
}
