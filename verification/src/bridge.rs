//! Bridge handlers: the operations the kernel transport invokes.
//!
//! Each handler is split into steps. A `*_prepare` step consults the
//! identifier registry, the caches and the health monitor and either
//! finishes the request or names the one backend call that is needed; the
//! surrounding application performs that call and hands its outcome to the
//! matching completion step, which records health, fills the caches and
//! builds the reply. No step ever blocks on the backend itself.

use vstd::prelude::*;
use vstd::string::StringExecFns;
use vstd::utf8::encode_utf8;

use crate::b64::{base64_decode, base64_decoded};
use crate::cache::{spec_get, TtlCache};
use crate::health::{spec_bump, spec_health_content, spec_unhealthy, ApiHealth};
use crate::registry::{lemma_path_of_resolve, spec_path_of, spec_resolve, InodeMapper};
use crate::types::{
    DirEntry, FileAttr, FileAttributes, FileKind, FsError, ReadResult, TimeSpec, ERROR_FILE_INO,
    ROOT_INO,
};

verus! {

/// Name under which the synthetic diagnostic file appears at the root.
pub open spec fn spec_error_file_name() -> Seq<char> {
    "ERROR.txt"@
}

/// Whether a mode word carries the directory bit.
pub open spec fn spec_is_dir(mode: u32) -> bool {
    mode & 0o040000 != 0
}

/// The entry kind a mode word denotes.
pub open spec fn spec_kind(mode: u32) -> FileKind {
    if spec_is_dir(mode) {
        FileKind::Directory
    } else {
        FileKind::RegularFile
    }
}

/// Number of 512-byte blocks covering `size` bytes.
pub open spec fn spec_blocks(size: u64) -> u64 {
    (size / 512 + if size % 512 == 0 {
        0u64
    } else {
        1u64
    }) as u64
}

/// The child path under `parent`: the root uses its single separator, any
/// other directory appends a separator and the name.
pub open spec fn spec_join(parent: Seq<char>, name: Seq<char>) -> Seq<char> {
    if parent == "/"@ {
        "/"@ + name
    } else {
        parent + "/"@ + name
    }
}

/// The configured identity and permission defaults of the mount.
#[derive(Clone, Copy, Debug, PartialEq, Eq, Structural)]
pub struct MountConfig {
    pub default_uid: u32,
    pub default_gid: u32,
    pub file_perm: u16,
    pub dir_perm: u16,
}

/// The attribute reply for a backend attribute record: sizes and times are
/// the backend's, ownership is the statically configured default, and the
/// permission word depends only on the entry kind.
pub open spec fn spec_attr_from(ino: u64, a: FileAttributes, cfg: MountConfig) -> FileAttr {
    FileAttr {
        ino,
        size: a.size,
        blocks: spec_blocks(a.size),
        atime: a.atime,
        mtime: a.mtime,
        ctime: a.ctime,
        kind: spec_kind(a.mode),
        perm: if spec_is_dir(a.mode) {
            cfg.dir_perm
        } else {
            cfg.file_perm
        },
        nlink: a.nlink,
        uid: cfg.default_uid,
        gid: cfg.default_gid,
    }
}

/// The byte content of the diagnostic file for a monitor state.
pub open spec fn spec_diag_bytes(h: ApiHealth) -> Seq<u8> {
    encode_utf8(spec_health_content(h))
}

/// The synthetic attributes of the diagnostic file: the reserved
/// identifier, the rendered document's byte size, read-only permission.
pub open spec fn spec_diag_attr(h: ApiHealth, cfg: MountConfig) -> FileAttr {
    FileAttr {
        ino: ERROR_FILE_INO,
        size: spec_diag_bytes(h).len() as u64,
        blocks: spec_blocks(spec_diag_bytes(h).len() as u64),
        atime: TimeSpec { secs: 0, nanos: 0 },
        mtime: TimeSpec { secs: 0, nanos: 0 },
        ctime: TimeSpec { secs: 0, nanos: 0 },
        kind: FileKind::RegularFile,
        perm: 0o444,
        nlink: 1,
        uid: cfg.default_uid,
        gid: cfg.default_gid,
    }
}

/// The byte range `[offset, offset + size)` of `data`, clamped to the data:
/// empty past the end, short near it.
pub open spec fn spec_slice_clamped(data: Seq<u8>, offset: u64, size: u32) -> Seq<u8> {
    if offset >= data.len() {
        Seq::empty()
    } else if offset as int + size as int <= data.len() {
        data.subrange(offset as int, offset as int + size as int)
    } else {
        data.subrange(offset as int, data.len() as int)
    }
}

/// Joins a parent path and a child name.
fn join_path(parent: &String, name: &str) -> (r: String)
    ensures
        r@ == spec_join(parent@, name@),
{
    let root: String = "/".to_owned();
    if *parent == root {
        let mut r = parent.clone();
        r.append(name);
        r
    } else {
        let mut r = parent.clone();
        r.append("/");
        r.append(name);
        r
    }
}

/// Clones a listing.
fn clone_string_vec(v: &Vec<String>) -> (r: Vec<String>)
    ensures
        r@ == v@,
{
    let mut r: Vec<String> = Vec::new();
    let n = v.len();
    for i in 0..n
        invariant
            n == v.len(),
            r@ =~= v@.subrange(0, i as int),
    {
        r.push(v[i].clone());
    }
    proof {
        assert(r@ =~= v@);
    }
    r
}

/// Extracts the clamped byte range of a byte slice held in memory.
fn slice_range(bytes: &[u8], offset: u64, size: u32) -> (r: Vec<u8>)
    ensures
        r@ == spec_slice_clamped(bytes@, offset, size),
{
    let len: usize = bytes.len();
    if offset >= len as u64 {
        let out: Vec<u8> = Vec::new();
        proof {
            assert(out@ =~= spec_slice_clamped(bytes@, offset, size));
        }
        return out;
    }
    let off = offset as usize;
    let avail = len - off;
    let take: usize = if (size as u64) < (avail as u64) {
        size as usize
    } else {
        avail
    };
    let out = vstd::slice::slice_to_vec(vstd::slice::slice_subrange(bytes, off, off + take));
    proof {
        assert(out@ =~= spec_slice_clamped(bytes@, offset, size));
    }
    out
}

/// Extracts the clamped byte range of a document served from memory.
fn slice_clamped(content: &String, offset: u64, size: u32) -> (r: Vec<u8>)
    ensures
        r@ == spec_slice_clamped(encode_utf8(content@), offset, size),
{
    slice_range(content.as_str().as_bytes(), offset, size)
}

/// Outcome of a preparation step that may need one backend stat call.
pub enum StatStep {
    /// The reply is ready.
    Found(FileAttr),
    /// The backend must be asked to stat this path.
    NeedStat(String),
    /// The request fails as "not found" without any backend call.
    Absent,
}

/// Where a stat-backed request is routed, as a function of the bridge state.
pub enum StatRoute {
    /// Served synthetically from the health monitor.
    Diag,
    /// Served from the metadata cache for this path.
    Hit(Seq<char>, FileAttributes),
    /// The backend must be consulted for this path.
    Miss(Seq<char>),
    /// Refused as "not found".
    Absent,
}

/// Routing of a lookup of `name` under `parent`: the diagnostic entry is
/// answered first (root parent, reserved name, degraded state, in which
/// case neither registry nor caches are touched); otherwise the parent is
/// resolved, the child path joined, and the metadata cache consulted.
pub open spec fn spec_lookup_route(fs: ApiFS, parent: u64, name: Seq<char>, now: u64) -> StatRoute {
    if parent == ROOT_INO && name == spec_error_file_name() && spec_unhealthy(
        fs.api_health.consecutive_errors,
    ) {
        StatRoute::Diag
    } else {
        match spec_path_of(fs.inode_mapper@, parent) {
            None => StatRoute::Absent,
            Some(pp) => {
                let cp = spec_join(pp, name);
                match spec_get(fs.attr_cache@, cp, now) {
                    Some(a) => StatRoute::Hit(cp, a),
                    None => StatRoute::Miss(cp),
                }
            },
        }
    }
}

/// Routing of an attribute query for `ino`: the reserved identifier is
/// served synthetically while degraded and refused while healthy; any other
/// identifier is resolved and the metadata cache consulted.
pub open spec fn spec_getattr_route(fs: ApiFS, ino: u64, now: u64) -> StatRoute {
    if ino == ERROR_FILE_INO {
        if spec_unhealthy(fs.api_health.consecutive_errors) {
            StatRoute::Diag
        } else {
            StatRoute::Absent
        }
    } else {
        match spec_path_of(fs.inode_mapper@, ino) {
            None => StatRoute::Absent,
            Some(p) => match spec_get(fs.attr_cache@, p, now) {
                Some(a) => StatRoute::Hit(p, a),
                None => StatRoute::Miss(p),
            },
        }
    }
}

/// Step result of preparing a read.
pub enum ReadStep {
    /// The reply is ready (only the diagnostic file is served from memory).
    Data(Vec<u8>),
    /// The backend must be asked to read this path.
    NeedRead(String),
    /// The request fails as "not found".
    Absent,
}

/// Step result of digesting a read payload.
pub enum ReadContentStep {
    /// The requested byte range, extracted from the inline content.
    Data(Vec<u8>),
    /// The payload refers to this locally accessible file; the caller reads
    /// the range from it.
    NeedLocalFile(String),
    /// The payload carries neither decodable inline content nor a local
    /// reference.
    Unusable,
}

/// Outcome of completing a read after the backend answered.
pub enum ReadOutcome {
    /// The requested byte range.
    Data(Vec<u8>),
    /// The payload refers to this locally accessible file.
    NeedLocalFile(String),
    /// The request fails with this error.
    Failed(FsError),
}

/// Step result of preparing a directory enumeration.
pub enum ListStep {
    /// The child names, served from the listing cache.
    Listed(Vec<String>),
    /// The backend must be asked to list this path.
    NeedList(String),
    /// The request fails as "not found".
    Absent,
}

/// Step result of classifying one listed child.
pub enum ChildKindStep {
    /// The kind, served from the metadata cache.
    Known(FileKind),
    /// The backend may be asked to stat this path; on failure the child
    /// defaults to a regular file.
    NeedStat(String),
}

/// Number of entries an enumeration places before the backend-reported
/// children: `.` and `..`, plus the diagnostic entry at a degraded root.
pub open spec fn spec_header_len(ino: u64, unhealthy: bool) -> int {
    if ino == ROOT_INO && unhealthy {
        3
    } else {
        2
    }
}

/// Whether `e` is the directory entry with this identifier, kind and name.
pub open spec fn spec_dir_entry(e: DirEntry, ino: u64, kind: FileKind, name: Seq<char>) -> bool {
    e.ino == ino && e.kind == kind && e.name@ == name
}

/// The bridge: all shared state of the four handlers.
pub struct ApiFS {
    pub inode_mapper: InodeMapper,
    pub dir_cache: TtlCache<Vec<String>>,
    pub attr_cache: TtlCache<FileAttributes>,
    pub api_health: ApiHealth,
    pub cfg: MountConfig,
}

impl ApiFS {
    pub open spec fn wf(&self) -> bool {
        &&& self.inode_mapper.wf()
        &&& self.dir_cache.wf()
        &&& self.attr_cache.wf()
    }

    /// A fresh bridge: the registry knows only the root, the caches are
    /// empty, the monitor is healthy.
    pub fn new(cfg: MountConfig) -> (r: Self)
        ensures
            r.wf(),
            r.inode_mapper@ =~= seq!["/"@],
            r.dir_cache@ =~= Map::<Seq<char>, (Vec<String>, u64)>::empty(),
            r.attr_cache@ =~= Map::<Seq<char>, (FileAttributes, u64)>::empty(),
            r.api_health.consecutive_errors == 0,
            r.api_health.last_error_time is None,
            r.cfg == cfg,
    {
        ApiFS {
            inode_mapper: InodeMapper::new(),
            dir_cache: TtlCache::new(),
            attr_cache: TtlCache::new(),
            api_health: ApiHealth::new(),
            cfg,
        }
    }

    /// Converts a backend attribute record for `path` into a reply,
    /// resolving (and on first sight registering) the path's identifier.
    pub fn convert_attrs(&mut self, path: &String, attrs: &FileAttributes) -> (r: FileAttr)
        requires
            old(self).wf(),
        ensures
            final(self).wf(),
            final(self).inode_mapper@ == spec_resolve(old(self).inode_mapper@, path@).0,
            r == spec_attr_from(
                spec_resolve(old(self).inode_mapper@, path@).1,
                *attrs,
                old(self).cfg,
            ),
            final(self).dir_cache == old(self).dir_cache,
            final(self).attr_cache == old(self).attr_cache,
            final(self).api_health == old(self).api_health,
            final(self).cfg == old(self).cfg,
            spec_resolve(old(self).inode_mapper@, path@).0 == old(self).inode_mapper@
                ==> final(self).inode_mapper == old(self).inode_mapper,
    {
        let ino = self.inode_mapper.get_or_create_ino(path);
        let is_dir = attrs.mode & 0o040000 != 0;
        FileAttr {
            ino,
            size: attrs.size,
            blocks: attrs.size / 512 + if attrs.size % 512 == 0 {
                0
            } else {
                1
            },
            atime: attrs.atime,
            mtime: attrs.mtime,
            ctime: attrs.ctime,
            kind: if is_dir {
                FileKind::Directory
            } else {
                FileKind::RegularFile
            },
            perm: if is_dir {
                self.cfg.dir_perm
            } else {
                self.cfg.file_perm
            },
            nlink: attrs.nlink,
            uid: self.cfg.default_uid,
            gid: self.cfg.default_gid,
        }
    }

    /// The synthetic attributes of the diagnostic file for the current
    /// monitor state.
    pub fn get_error_file_attrs(&self) -> (r: FileAttr)
        ensures
            r == spec_diag_attr(self.api_health, self.cfg),
    {
        let content = self.api_health.get_error_content();
        let size = content.as_str().as_bytes().len() as u64;
        FileAttr {
            ino: ERROR_FILE_INO,
            size,
            blocks: size / 512 + if size % 512 == 0 {
                0
            } else {
                1
            },
            atime: TimeSpec { secs: 0, nanos: 0 },
            mtime: TimeSpec { secs: 0, nanos: 0 },
            ctime: TimeSpec { secs: 0, nanos: 0 },
            kind: FileKind::RegularFile,
            perm: 0o444,
            nlink: 1,
            uid: self.cfg.default_uid,
            gid: self.cfg.default_gid,
        }
    }

    /// Prepares a lookup of `name` under `parent`: either replies at once
    /// (synthetic diagnostic entry, cache hit, or unknown parent) or names
    /// the stat call the backend must answer first.
    pub fn lookup_prepare(&mut self, parent: u64, name: &String, now: u64) -> (r: StatStep)
        requires
            old(self).wf(),
        ensures
            final(self).wf(),
            final(self).dir_cache == old(self).dir_cache,
            final(self).attr_cache == old(self).attr_cache,
            final(self).api_health == old(self).api_health,
            final(self).cfg == old(self).cfg,
            match spec_lookup_route(*old(self), parent, name@, now) {
                StatRoute::Diag => r == StatStep::Found(
                    spec_diag_attr(old(self).api_health, old(self).cfg),
                ) && final(self).inode_mapper == old(self).inode_mapper,
                StatRoute::Hit(cp, a) => {
                    &&& final(self).inode_mapper@ == spec_resolve(old(self).inode_mapper@, cp).0
                    &&& r == StatStep::Found(
                        spec_attr_from(
                            spec_resolve(old(self).inode_mapper@, cp).1,
                            a,
                            old(self).cfg,
                        ),
                    )
                },
                StatRoute::Miss(cp) => {
                    &&& r matches StatStep::NeedStat(q) && q@ == cp
                    &&& final(self).inode_mapper == old(self).inode_mapper
                },
                StatRoute::Absent => {
                    &&& r == StatStep::Absent
                    &&& final(self).inode_mapper == old(self).inode_mapper
                },
            },
    {
        if parent == ROOT_INO {
            let error_name: String = "ERROR.txt".to_owned();
            if *name == error_name && self.api_health.is_unhealthy() {
                return StatStep::Found(self.get_error_file_attrs());
            }
        }
        let parent_path: String = match self.inode_mapper.get_path(parent) {
            Some(p) => p.clone(),
            None => {
                return StatStep::Absent;
            },
        };
        let child = join_path(&parent_path, name.as_str());
        let cached: Option<FileAttributes> = match self.attr_cache.get(&child, now) {
            Some(c) => Some(*c),
            None => None,
        };
        match cached {
            Some(a) => StatStep::Found(self.convert_attrs(&child, &a)),
            None => StatStep::NeedStat(child),
        }
    }

    /// Prepares an attribute query for `ino`: replies from the monitor (the
    /// reserved identifier), from the cache, or as "not found", or names the
    /// stat call the backend must answer first. The bridge state is left
    /// unchanged whichever way the query is routed.
    pub fn getattr_prepare(&mut self, ino: u64, now: u64) -> (r: StatStep)
        requires
            old(self).wf(),
        ensures
            final(self).wf(),
            *final(self) == *old(self),
            match spec_getattr_route(*old(self), ino, now) {
                StatRoute::Diag => r == StatStep::Found(
                    spec_diag_attr(old(self).api_health, old(self).cfg),
                ),
                StatRoute::Hit(p, a) => r == StatStep::Found(
                    spec_attr_from(ino, a, old(self).cfg),
                ),
                StatRoute::Miss(p) => r matches StatStep::NeedStat(q) && q@ == p,
                StatRoute::Absent => r == StatStep::Absent,
            },
    {
        if ino == ERROR_FILE_INO {
            if self.api_health.is_unhealthy() {
                return StatStep::Found(self.get_error_file_attrs());
            } else {
                return StatStep::Absent;
            }
        }
        let path: String = match self.inode_mapper.get_path(ino) {
            Some(p) => p.clone(),
            None => {
                return StatStep::Absent;
            },
        };
        let cached: Option<FileAttributes> = match self.attr_cache.get(&path, now) {
            Some(c) => Some(*c),
            None => None,
        };
        match cached {
            Some(a) => {
                proof {
                    lemma_path_of_resolve(self.inode_mapper@, ino, path@);
                }
                StatStep::Found(self.convert_attrs(&path, &a))
            },
            None => StatStep::NeedStat(path),
        }
    }

    /// Digests the backend's answer to the stat call a lookup or attribute
    /// query was waiting for: a success is recorded as such, cached, and
    /// converted into the reply; a failure is recorded and folded into
    /// "not found".
    pub fn stat_complete(&mut self, path: &String, result: Result<FileAttributes, String>, now: u64) -> (r:
        Result<FileAttr, FsError>)
        requires
            old(self).wf(),
        ensures
            final(self).wf(),
            final(self).dir_cache == old(self).dir_cache,
            final(self).cfg == old(self).cfg,
            match result {
                Ok(a) => {
                    &&& final(self).api_health.consecutive_errors == 0
                    &&& final(self).api_health.last_error_message == old(self).api_health.last_error_message
                    &&& final(self).api_health.last_error_time == old(self).api_health.last_error_time
                    &&& final(self).attr_cache@ == old(self).attr_cache@.insert(path@, (a, now))
                    &&& final(self).inode_mapper@ == spec_resolve(old(self).inode_mapper@, path@).0
                    &&& r == Ok::<FileAttr, FsError>(
                        spec_attr_from(
                            spec_resolve(old(self).inode_mapper@, path@).1,
                            a,
                            old(self).cfg,
                        ),
                    )
                },
                Err(msg) => {
                    &&& final(self).api_health.consecutive_errors == spec_bump(
                        old(self).api_health.consecutive_errors,
                    )
                    &&& final(self).api_health.last_error_message == msg
                    &&& final(self).api_health.last_error_time == Some(now)
                    &&& final(self).attr_cache == old(self).attr_cache
                    &&& final(self).inode_mapper == old(self).inode_mapper
                    &&& r == Err::<FileAttr, FsError>(FsError::NotFound)
                },
            },
    {
        match result {
            Ok(a) => {
                self.api_health.record_success();
                self.attr_cache.put(path, a, now);
                Ok(self.convert_attrs(path, &a))
            },
            Err(msg) => {
                self.api_health.record_error(msg, now);
                Err(FsError::NotFound)
            },
        }
    }

    /// Prepares a read of `size` bytes at `offset`: the diagnostic file is
    /// served directly from the monitor's rendered document, any other
    /// identifier is resolved to the path the backend must read. File
    /// content is never cached.
    pub fn read_prepare(&self, ino: u64, offset: u64, size: u32) -> (r: ReadStep)
        ensures
            ino == ERROR_FILE_INO ==> (r matches ReadStep::Data(d) && d@ == spec_slice_clamped(
                spec_diag_bytes(self.api_health),
                offset,
                size,
            )),
            ino != ERROR_FILE_INO ==> match spec_path_of(self.inode_mapper@, ino) {
                Some(p) => r matches ReadStep::NeedRead(q) && q@ == p,
                None => r == ReadStep::Absent,
            },
    {
        if ino == ERROR_FILE_INO {
            let content = self.api_health.get_error_content();
            return ReadStep::Data(slice_clamped(&content, offset, size));
        }
        match self.inode_mapper.get_path(ino) {
            Some(p) => ReadStep::NeedRead(p.clone()),
            None => ReadStep::Absent,
        }
    }

    /// Extracts the requested byte range from a read payload: inline content
    /// is decoded, then sliced with the same clamping as any in-memory
    /// document; a local-file reference is handed back for the caller to
    /// read; a payload with neither usable form is unusable.
    pub fn read_file_content(&self, payload: &ReadResult, offset: u64, size: u32) -> (r:
        ReadContentStep)
        ensures
            match payload.content {
                Some(c) => match base64_decoded(c@) {
                    Some(bytes) => r matches ReadContentStep::Data(d) && d@ == spec_slice_clamped(
                        bytes,
                        offset,
                        size,
                    ),
                    None => r == ReadContentStep::Unusable,
                },
                None => match payload.source_path {
                    Some(sp) => r matches ReadContentStep::NeedLocalFile(q) && q@ == sp@,
                    None => r == ReadContentStep::Unusable,
                },
            },
    {
        match &payload.content {
            Some(encoded) => match base64_decode(encoded.as_str()) {
                Ok(decoded) => ReadContentStep::Data(slice_range(decoded.as_slice(), offset, size)),
                Err(_) => ReadContentStep::Unusable,
            },
            None => match &payload.source_path {
                Some(sp) => ReadContentStep::NeedLocalFile(sp.clone()),
                None => ReadContentStep::Unusable,
            },
        }
    }

    /// Digests the backend's answer to the read call: a success is recorded
    /// and its payload mined for the requested range (an unusable payload is
    /// an I/O error); a failed call is recorded and folded into "not found".
    pub fn read_complete(
        &mut self,
        result: Result<ReadResult, String>,
        offset: u64,
        size: u32,
        now: u64,
    ) -> (r: ReadOutcome)
        requires
            old(self).wf(),
        ensures
            final(self).wf(),
            final(self).inode_mapper == old(self).inode_mapper,
            final(self).dir_cache == old(self).dir_cache,
            final(self).attr_cache == old(self).attr_cache,
            final(self).cfg == old(self).cfg,
            match result {
                Ok(payload) => {
                    &&& final(self).api_health.consecutive_errors == 0
                    &&& final(self).api_health.last_error_message == old(self).api_health.last_error_message
                    &&& final(self).api_health.last_error_time == old(self).api_health.last_error_time
                    &&& match payload.content {
                        Some(c) => match base64_decoded(c@) {
                            Some(bytes) => r matches ReadOutcome::Data(d) && d@
                                == spec_slice_clamped(bytes, offset, size),
                            None => r == ReadOutcome::Failed(FsError::IoError),
                        },
                        None => match payload.source_path {
                            Some(sp) => r matches ReadOutcome::NeedLocalFile(q) && q@ == sp@,
                            None => r == ReadOutcome::Failed(FsError::IoError),
                        },
                    }
                },
                Err(msg) => {
                    &&& final(self).api_health.consecutive_errors == spec_bump(
                        old(self).api_health.consecutive_errors,
                    )
                    &&& final(self).api_health.last_error_message == msg
                    &&& final(self).api_health.last_error_time == Some(now)
                    &&& r == ReadOutcome::Failed(FsError::NotFound)
                },
            },
    {
        match result {
            Ok(payload) => {
                self.api_health.record_success();
                match self.read_file_content(&payload, offset, size) {
                    ReadContentStep::Data(d) => ReadOutcome::Data(d),
                    ReadContentStep::NeedLocalFile(p) => ReadOutcome::NeedLocalFile(p),
                    ReadContentStep::Unusable => ReadOutcome::Failed(FsError::IoError),
                }
            },
            Err(msg) => {
                self.api_health.record_error(msg, now);
                ReadOutcome::Failed(FsError::NotFound)
            },
        }
    }

    /// Prepares a directory enumeration: resolves the identifier and
    /// consults the listing cache.
    pub fn readdir_prepare(&self, ino: u64, now: u64) -> (r: ListStep)
        requires
            self.wf(),
        ensures
            match spec_path_of(self.inode_mapper@, ino) {
                None => r == ListStep::Absent,
                Some(p) => match spec_get(self.dir_cache@, p, now) {
                    Some(cached) => r matches ListStep::Listed(v) && v@ == cached@,
                    None => r matches ListStep::NeedList(q) && q@ == p,
                },
            },
    {
        let path: String = match self.inode_mapper.get_path(ino) {
            Some(p) => p.clone(),
            None => {
                return ListStep::Absent;
            },
        };
        match self.dir_cache.get(&path, now) {
            Some(entries) => ListStep::Listed(clone_string_vec(entries)),
            None => ListStep::NeedList(path),
        }
    }

    /// Digests the backend's answer to the list call: a success is recorded,
    /// cached as the new listing (replacing any prior one), and its names
    /// returned; a failure is recorded and folded into "not found".
    pub fn readdir_list_complete(
        &mut self,
        path: &String,
        result: Result<Vec<String>, String>,
        now: u64,
    ) -> (r: Result<Vec<String>, FsError>)
        requires
            old(self).wf(),
        ensures
            final(self).wf(),
            final(self).inode_mapper == old(self).inode_mapper,
            final(self).attr_cache == old(self).attr_cache,
            final(self).cfg == old(self).cfg,
            match result {
                Ok(entries) => {
                    &&& final(self).api_health.consecutive_errors == 0
                    &&& final(self).api_health.last_error_message == old(self).api_health.last_error_message
                    &&& final(self).api_health.last_error_time == old(self).api_health.last_error_time
                    &&& final(self).dir_cache@ == old(self).dir_cache@.insert(path@, (entries, now))
                    &&& r matches Ok(v) && v@ == entries@
                },
                Err(msg) => {
                    &&& final(self).api_health.consecutive_errors == spec_bump(
                        old(self).api_health.consecutive_errors,
                    )
                    &&& final(self).api_health.last_error_message == msg
                    &&& final(self).api_health.last_error_time == Some(now)
                    &&& final(self).dir_cache == old(self).dir_cache
                    &&& r == Err::<Vec<String>, FsError>(FsError::NotFound)
                },
            },
    {
        match result {
            Ok(entries) => {
                self.api_health.record_success();
                let names = clone_string_vec(&entries);
                self.dir_cache.put(path, entries, now);
                Ok(names)
            },
            Err(msg) => {
                self.api_health.record_error(msg, now);
                Err(FsError::NotFound)
            },
        }
    }

    /// Registers one listed child and classifies it: the child path's
    /// identifier is resolved (allocating on first sight) and the kind is
    /// served from the metadata cache when fresh, otherwise left for an
    /// opportunistic backend stat.
    pub fn readdir_child_prepare(&mut self, dir_path: &String, name: &String, now: u64) -> (r: (
        u64,
        ChildKindStep,
    ))
        requires
            old(self).wf(),
        ensures
            final(self).wf(),
            final(self).dir_cache == old(self).dir_cache,
            final(self).attr_cache == old(self).attr_cache,
            final(self).api_health == old(self).api_health,
            final(self).cfg == old(self).cfg,
            ({
                let cp = spec_join(dir_path@, name@);
                &&& final(self).inode_mapper@ == spec_resolve(old(self).inode_mapper@, cp).0
                &&& r.0 == spec_resolve(old(self).inode_mapper@, cp).1
                &&& r.0 != ERROR_FILE_INO
                &&& match spec_get(old(self).attr_cache@, cp, now) {
                    Some(a) => r.1 == ChildKindStep::Known(spec_kind(a.mode)),
                    None => r.1 matches ChildKindStep::NeedStat(q) && q@ == cp,
                }
            }),
    {
        let child = join_path(dir_path, name.as_str());
        let ino = self.inode_mapper.get_or_create_ino(&child);
        let cached: Option<FileAttributes> = match self.attr_cache.get(&child, now) {
            Some(c) => Some(*c),
            None => None,
        };
        match cached {
            Some(a) => {
                let kind = if a.mode & 0o040000 != 0 {
                    FileKind::Directory
                } else {
                    FileKind::RegularFile
                };
                (ino, ChildKindStep::Known(kind))
            },
            None => (ino, ChildKindStep::NeedStat(child)),
        }
    }

    /// Digests the opportunistic stat for one child: a success fills the
    /// metadata cache and yields the kind; a failure silently defaults the
    /// child to a regular file. Neither outcome touches the health monitor —
    /// a listing must not degrade merely because one child could not be
    /// classified.
    pub fn readdir_child_complete(
        &mut self,
        child_path: &String,
        result: Result<FileAttributes, String>,
        now: u64,
    ) -> (r: FileKind)
        requires
            old(self).wf(),
        ensures
            final(self).wf(),
            final(self).inode_mapper == old(self).inode_mapper,
            final(self).dir_cache == old(self).dir_cache,
            final(self).api_health == old(self).api_health,
            final(self).cfg == old(self).cfg,
            match result {
                Ok(a) => final(self).attr_cache@ == old(self).attr_cache@.insert(
                    child_path@,
                    (a, now),
                ) && r == spec_kind(a.mode),
                Err(_) => final(self).attr_cache == old(self).attr_cache && r
                    == FileKind::RegularFile,
            },
    {
        match result {
            Ok(a) => {
                self.attr_cache.put(child_path, a, now);
                if a.mode & 0o040000 != 0 {
                    FileKind::Directory
                } else {
                    FileKind::RegularFile
                }
            },
            Err(_) => FileKind::RegularFile,
        }
    }

    /// Builds the full enumeration reply: `.` and `..` bound to the
    /// directory's own identifier, the diagnostic entry at the root while
    /// degraded, then the classified children in listing order. The caller
    /// emits this sequence from the requested resume offset.
    pub fn readdir_assemble(&self, ino: u64, children: Vec<DirEntry>) -> (r: Vec<DirEntry>)
        ensures
            ({
                let hdr = spec_header_len(ino, spec_unhealthy(self.api_health.consecutive_errors));
                &&& r@.len() == hdr + children@.len()
                &&& spec_dir_entry(r@[0], ino, FileKind::Directory, "."@)
                &&& spec_dir_entry(r@[1], ino, FileKind::Directory, ".."@)
                &&& (hdr == 3 ==> spec_dir_entry(
                    r@[2],
                    ERROR_FILE_INO,
                    FileKind::RegularFile,
                    spec_error_file_name(),
                ))
                &&& forall|i: int| 0 <= i < children@.len() ==> r@[hdr + i] == children@[i]
            }),
    {
        let mut out: Vec<DirEntry> = Vec::new();
        out.push(DirEntry { ino, kind: FileKind::Directory, name: ".".to_owned() });
        out.push(DirEntry { ino, kind: FileKind::Directory, name: "..".to_owned() });
        if ino == ROOT_INO && self.api_health.is_unhealthy() {
            out.push(
                DirEntry { ino: ERROR_FILE_INO, kind: FileKind::RegularFile, name: "ERROR.txt".to_owned() },
            );
        }
        let ghost header = out@;
        let mut rest = children;
        out.append(&mut rest);
        proof {
            assert(forall|i: int| 0 <= i < children@.len() ==> out@[header.len() + i] == children@[i]);
        }
        out
    }
}

/// Law: while degraded, the root listing contains the diagnostic entry
/// under its reserved identifier; a listing assembled while healthy never
/// contains that identifier, the registry never handing it out for any
/// backend path.
pub proof fn lemma_diag_entry_visibility(
    ino: u64,
    unhealthy: bool,
    children: Seq<DirEntry>,
    out: Seq<DirEntry>,
)
    requires
        out.len() == spec_header_len(ino, unhealthy) + children.len(),
        spec_dir_entry(out[0], ino, FileKind::Directory, "."@),
        spec_dir_entry(out[1], ino, FileKind::Directory, ".."@),
        ino == ROOT_INO && unhealthy ==> spec_dir_entry(
            out[2],
            ERROR_FILE_INO,
            FileKind::RegularFile,
            spec_error_file_name(),
        ),
        forall|i: int| 0 <= i < children.len() ==> out[spec_header_len(ino, unhealthy) + i]
            == children[i],
        forall|i: int| 0 <= i < children.len() ==> children[i].ino != ERROR_FILE_INO,
        ino != ERROR_FILE_INO,
    ensures
        ino == ROOT_INO && unhealthy ==> exists|j: int|
            0 <= j < out.len() && spec_dir_entry(
                out[j],
                ERROR_FILE_INO,
                FileKind::RegularFile,
                spec_error_file_name(),
            ),
        !unhealthy ==> forall|j: int| 0 <= j < out.len() ==> out[j].ino != ERROR_FILE_INO,
{
    let hdr = spec_header_len(ino, unhealthy);
    if ino == ROOT_INO && unhealthy {
        assert(0 <= 2 < out.len() && spec_dir_entry(
            out[2],
            ERROR_FILE_INO,
            FileKind::RegularFile,
            spec_error_file_name(),
        ));
    }
    if !unhealthy {
        assert forall|j: int| 0 <= j < out.len() implies out[j].ino != ERROR_FILE_INO by {
            if j >= hdr {
                assert(out[hdr + (j - hdr)] == children[j - hdr]);
                assert(children[j - hdr].ino != ERROR_FILE_INO);
            } else if j == 0 {
                assert(out[0].ino == ino);
            } else {
                assert(out[1].ino == ino);
            }
        }
    }
}

/// Law: a read of the diagnostic file at offset zero returns the first
/// `size` bytes of the rendered document (all of it when it is shorter),
/// and a read at or past the end returns zero bytes rather than an error.
pub proof fn lemma_diag_read_bounds(data: Seq<u8>, offset: u64, size: u32)
    ensures
        offset == 0 ==> spec_slice_clamped(data, 0, size) == data.take(
            if size as int <= data.len() {
                size as int
            } else {
                data.len() as int
            },
        ),
        offset >= data.len() ==> spec_slice_clamped(data, offset, size) == Seq::<u8>::empty(),
{
    if offset == 0 {
        if data.len() == 0 {
            assert(spec_slice_clamped(data, 0, size) =~= data.take(0));
        } else if size as int <= data.len() {
            assert(spec_slice_clamped(data, 0, size) =~= data.take(size as int));
        } else {
            assert(spec_slice_clamped(data, 0, size) =~= data.take(data.len() as int));
        }
    }
}

/// Law: attribute queries are idempotent — the route of a query, and with
/// it the reply, is a function of the bridge state alone, and preparing the
/// reply never changes that state, so repeated queries with no intervening
/// cache expiry or backend activity return bit-identical attributes.
pub proof fn lemma_getattr_idempotent(fs: ApiFS, ino: u64, now: u64, r1: StatRoute, r2: StatRoute)
    requires
        r1 == spec_getattr_route(fs, ino, now),
        r2 == spec_getattr_route(fs, ino, now),
    ensures
        r1 == r2,
{
}

} // verus!
