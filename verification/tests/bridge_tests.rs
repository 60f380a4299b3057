use meta_fuse_driver::bridge::{ApiFS, MountConfig, ReadOutcome, ReadStep, StatStep};
use meta_fuse_driver::types::{FileAttributes, FileKind, FsError, ReadResult, TimeSpec};

fn config() -> MountConfig {
    MountConfig { default_uid: 1000, default_gid: 1000, file_perm: 0o755, dir_perm: 0o755 }
}

fn file_attrs(size: u64, mode: u32) -> FileAttributes {
    FileAttributes {
        size,
        mode,
        mtime: TimeSpec { secs: 5, nanos: 0 },
        atime: TimeSpec { secs: 6, nanos: 0 },
        ctime: TimeSpec { secs: 7, nanos: 0 },
        nlink: 1,
        uid: 42,
        gid: 42,
    }
}

#[test]
fn getattr_of_the_diagnostic_identifier_fails_while_healthy() {
    let mut fs = ApiFS::new(config());
    match fs.getattr_prepare(2, 100) {
        StatStep::Absent => {}
        _ => panic!("a healthy mount must not expose the diagnostic file"),
    }
}

#[test]
fn getattr_of_an_unknown_identifier_fails() {
    let mut fs = ApiFS::new(config());
    match fs.getattr_prepare(99, 100) {
        StatStep::Absent => {}
        _ => panic!("unknown identifier must be absent"),
    }
}

#[test]
fn lookup_misses_ask_the_backend_for_the_joined_child_path() {
    let mut fs = ApiFS::new(config());
    match fs.lookup_prepare(1, &String::from("a.txt"), 100) {
        StatStep::NeedStat(p) => assert_eq!(p, "/a.txt"),
        _ => panic!("expected a stat request"),
    }
}

#[test]
fn lookup_under_a_nested_directory_appends_a_separator() {
    let mut fs = ApiFS::new(config());
    // register "/sub" first, as a successful stat would
    let r = fs.stat_complete(&String::from("/sub"), Ok(file_attrs(0, 0o040755)), 100);
    let sub_ino = r.expect("stat must succeed").ino;
    match fs.lookup_prepare(sub_ino, &String::from("x"), 100) {
        StatStep::NeedStat(p) => assert_eq!(p, "/sub/x"),
        _ => panic!("expected a stat request"),
    }
}

#[test]
fn lookup_of_an_unknown_parent_fails() {
    let mut fs = ApiFS::new(config());
    match fs.lookup_prepare(77, &String::from("x"), 100) {
        StatStep::Absent => {}
        _ => panic!("unknown parent must be absent"),
    }
}

#[test]
fn successful_stat_fills_the_cache_and_later_lookups_hit_it() {
    let mut fs = ApiFS::new(config());
    let path = String::from("/a.txt");
    let reply = fs.stat_complete(&path, Ok(file_attrs(1000, 0o100644)), 100).expect("ok");
    assert_eq!(reply.size, 1000);
    assert_eq!(reply.blocks, 2);
    assert_eq!(reply.kind, FileKind::RegularFile);
    assert_eq!(reply.perm, 0o755);
    assert_eq!(reply.uid, 1000);
    assert_eq!(reply.gid, 1000);
    // within the TTL the lookup is served from the cache, identically
    match fs.lookup_prepare(1, &String::from("a.txt"), 120) {
        StatStep::Found(a) => assert_eq!(a, reply),
        _ => panic!("expected a cache hit"),
    }
    // after the TTL it is a miss again
    match fs.lookup_prepare(1, &String::from("a.txt"), 200) {
        StatStep::NeedStat(p) => assert_eq!(p, "/a.txt"),
        _ => panic!("expected a stat request after expiry"),
    }
}

#[test]
fn failed_stat_is_not_found_and_counts_toward_degradation() {
    let mut fs = ApiFS::new(config());
    let path = String::from("/gone");
    let r = fs.stat_complete(&path, Err(String::from("boom")), 100);
    assert_eq!(r, Err(FsError::NotFound));
    assert_eq!(fs.api_health.consecutive_errors, 1);
    assert_eq!(fs.api_health.last_error_message, "boom");
    assert_eq!(fs.api_health.last_error_time, Some(100));
}

#[test]
fn directory_mode_takes_directory_permissions() {
    let mut fs = ApiFS::new(config());
    let reply = fs
        .stat_complete(&String::from("/sub"), Ok(file_attrs(0, 0o040755)), 100)
        .expect("ok");
    assert_eq!(reply.kind, FileKind::Directory);
    assert_eq!(reply.blocks, 0);
}

#[test]
fn block_count_rounds_up_without_overflow() {
    let mut fs = ApiFS::new(config());
    let a = fs.stat_complete(&String::from("/a"), Ok(file_attrs(1, 0o100644)), 100).unwrap();
    assert_eq!(a.blocks, 1);
    let b = fs.stat_complete(&String::from("/b"), Ok(file_attrs(1024, 0o100644)), 100).unwrap();
    assert_eq!(b.blocks, 2);
    let c = fs
        .stat_complete(&String::from("/c"), Ok(file_attrs(u64::MAX, 0o100644)), 100)
        .unwrap();
    assert_eq!(c.blocks, u64::MAX / 512 + 1);
}

#[test]
fn reading_the_diagnostic_file_slices_its_document() {
    let mut fs = ApiFS::new(config());
    fs.api_health.record_error(String::from("down"), 50);
    let content = fs.api_health.get_error_content();
    let bytes = content.as_bytes();
    match fs.read_prepare(2, 0, 16) {
        ReadStep::Data(d) => assert_eq!(&d[..], &bytes[..16]),
        _ => panic!("the diagnostic file is always served from memory"),
    }
    match fs.read_prepare(2, 10, 5) {
        ReadStep::Data(d) => assert_eq!(&d[..], &bytes[10..15]),
        _ => panic!("expected data"),
    }
    // a read at or past the end returns zero bytes, never an error
    match fs.read_prepare(2, bytes.len() as u64, 16) {
        ReadStep::Data(d) => assert!(d.is_empty()),
        _ => panic!("expected an empty slice"),
    }
    match fs.read_prepare(2, u64::MAX, 16) {
        ReadStep::Data(d) => assert!(d.is_empty()),
        _ => panic!("expected an empty slice"),
    }
}

#[test]
fn reading_an_unknown_identifier_fails() {
    let fs = ApiFS::new(config());
    match fs.read_prepare(55, 0, 16) {
        ReadStep::Absent => {}
        _ => panic!("unknown identifier must be absent"),
    }
}

#[test]
fn read_of_a_registered_path_asks_the_backend() {
    let mut fs = ApiFS::new(config());
    fs.stat_complete(&String::from("/a.txt"), Ok(file_attrs(5, 0o100644)), 100).unwrap();
    let ino = match fs.lookup_prepare(1, &String::from("a.txt"), 100) {
        StatStep::Found(a) => a.ino,
        _ => panic!("expected a cache hit"),
    };
    match fs.read_prepare(ino, 0, 16) {
        ReadStep::NeedRead(p) => assert_eq!(p, "/a.txt"),
        _ => panic!("expected a backend read"),
    }
}

fn empty_payload() -> ReadResult {
    ReadResult {
        source_path: None,
        webdav_url: None,
        content: None,
        content_encoding: None,
        size: 0,
    }
}

#[test]
fn unusable_read_payload_is_an_io_error() {
    let mut fs = ApiFS::new(config());
    match fs.read_complete(Ok(empty_payload()), 0, 16, 100) {
        ReadOutcome::Failed(FsError::IoError) => {}
        _ => panic!("a payload with neither form is an I/O error"),
    }
}

#[test]
fn undecodable_inline_content_is_an_io_error() {
    let mut fs = ApiFS::new(config());
    let payload = ReadResult { content: Some(String::from("%%% not base64 %%%")), ..empty_payload() };
    match fs.read_complete(Ok(payload), 0, 16, 100) {
        ReadOutcome::Failed(FsError::IoError) => {}
        _ => panic!("undecodable content is an I/O error"),
    }
}

#[test]
fn local_file_reference_is_handed_back_to_the_caller() {
    let mut fs = ApiFS::new(config());
    let payload = ReadResult { source_path: Some(String::from("/var/data/blob")), ..empty_payload() };
    match fs.read_complete(Ok(payload), 3, 16, 100) {
        ReadOutcome::NeedLocalFile(p) => assert_eq!(p, "/var/data/blob"),
        _ => panic!("expected a local-file reference"),
    }
}

#[test]
fn failed_read_call_is_not_found_and_recorded() {
    let mut fs = ApiFS::new(config());
    match fs.read_complete(Err(String::from("timeout")), 0, 16, 100) {
        ReadOutcome::Failed(FsError::NotFound) => {}
        _ => panic!("a failed backend read is folded into not-found"),
    }
    assert_eq!(fs.api_health.consecutive_errors, 1);
    assert_eq!(fs.api_health.last_error_message, "timeout");
}
