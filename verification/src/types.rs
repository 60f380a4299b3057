//! Shared data types of the bridge: attribute records, replies, errors.

use vstd::prelude::*;

verus! {

/// Identifier permanently bound to the root directory path "/".
pub const ROOT_INO: u64 = 1;

/// Reserved identifier of the synthetic diagnostic file; never allocated to
/// a backend path by the identifier registry.
pub const ERROR_FILE_INO: u64 = 2;

/// Error taxonomy surfaced to the kernel transport.
#[derive(Clone, Copy, Debug, PartialEq, Eq, Structural)]
pub enum FsError {
    /// Path or identifier unresolved, backend reports absence, or the
    /// backend call itself failed.
    NotFound,
    /// A read payload was structurally unusable.
    IoError,
}

/// Directory or regular file, derived from the mode word's directory bit.
#[derive(Clone, Copy, Debug, PartialEq, Eq, Structural)]
pub enum FileKind {
    Directory,
    RegularFile,
}

/// A point in time as whole seconds plus nanoseconds since the epoch.
#[derive(Clone, Copy, Debug, PartialEq, Eq, Structural)]
pub struct TimeSpec {
    pub secs: u64,
    pub nanos: u32,
}

/// Attribute record as reported by the backend for one path.
#[derive(Clone, Copy, Debug, PartialEq, Eq, Structural)]
pub struct FileAttributes {
    pub size: u64,
    pub mode: u32,
    pub mtime: TimeSpec,
    pub atime: TimeSpec,
    pub ctime: TimeSpec,
    pub nlink: u32,
    pub uid: u32,
    pub gid: u32,
}

/// Attribute reply handed to the kernel transport.
#[derive(Clone, Copy, Debug, PartialEq, Eq, Structural)]
pub struct FileAttr {
    pub ino: u64,
    pub size: u64,
    pub blocks: u64,
    pub atime: TimeSpec,
    pub mtime: TimeSpec,
    pub ctime: TimeSpec,
    pub kind: FileKind,
    pub perm: u16,
    pub nlink: u32,
    pub uid: u32,
    pub gid: u32,
}

/// Read payload returned by the backend: either inline encoded content or a
/// reference to locally accessible raw bytes.
pub struct ReadResult {
    pub source_path: Option<String>,
    pub webdav_url: Option<String>,
    pub content: Option<String>,
    pub content_encoding: Option<String>,
    pub size: u64,
}

/// Directory listing returned by the backend.
pub struct ReaddirResponse {
    pub entries: Vec<String>,
}

/// One entry of a directory enumeration reply.
pub struct DirEntry {
    pub ino: u64,
    pub kind: FileKind,
    pub name: String,
}

} // verus!
