//! Identifier registry: a bidirectional, append-only mapping between path
//! strings and stable numeric identifiers.
//!
//! Identifier 1 is permanently bound to the root path "/". Fresh identifiers
//! are allocated monotonically starting at 3, so that no backend path ever
//! receives the reserved diagnostic identifier 2. A path receives at most one
//! identifier for the lifetime of the registry; entries are never removed.

use vstd::prelude::*;

use crate::types::{ERROR_FILE_INO, ROOT_INO};

verus! {

/// Greatest number of registered paths for which a fresh identifier can
/// still be represented as a `u64`.
pub const MAPPER_CAP: u64 = u64::MAX - 2;

/// Identifier of the path stored at position `i` of the registry.
pub open spec fn ino_at(i: int) -> u64 {
    if i == 0 {
        ROOT_INO
    } else {
        (i + 2) as u64
    }
}

/// Whether some position of `m` holds the path `p`.
pub open spec fn has_path(m: Seq<Seq<char>>, p: Seq<char>) -> bool {
    exists|i: int| 0 <= i < m.len() && m[i] == p
}

/// The position of `p` in `m`; meaningful only when `has_path(m, p)`.
pub open spec fn path_index(m: Seq<Seq<char>>, p: Seq<char>) -> int {
    choose|i: int| 0 <= i < m.len() && m[i] == p
}

/// The identifier of `p` in `m`; meaningful only when `has_path(m, p)`.
pub open spec fn path_ino(m: Seq<Seq<char>>, p: Seq<char>) -> u64 {
    ino_at(path_index(m, p))
}

/// The path bound to `ino`, if any.
pub open spec fn spec_path_of(m: Seq<Seq<char>>, ino: u64) -> Option<Seq<char>> {
    if ino == ROOT_INO {
        if m.len() > 0 {
            Some(m[0])
        } else {
            None
        }
    } else if ino >= 3 && ino - 2 < m.len() {
        Some(m[ino - 2])
    } else {
        None
    }
}

/// Well-formedness of a registry state: the root path sits at position 0,
/// no path is registered twice, and every position still has a
/// representable identifier.
pub open spec fn wf_paths(m: Seq<Seq<char>>) -> bool {
    &&& m.len() >= 1
    &&& m[0] == "/"@
    &&& m.len() <= MAPPER_CAP
    &&& forall|i: int, j: int| 0 <= i < j < m.len() ==> m[i] != m[j]
}

/// One resolution step: the registry state after `resolve(p)` together with
/// the identifier returned. An absent path is appended while capacity
/// remains; a full registry is left unchanged and answers with the root
/// identifier.
pub open spec fn spec_resolve(m: Seq<Seq<char>>, p: Seq<char>) -> (Seq<Seq<char>>, u64) {
    if has_path(m, p) {
        (m, path_ino(m, p))
    } else if m.len() < MAPPER_CAP {
        (m.push(p), ino_at(m.len() as int))
    } else {
        (m, ROOT_INO)
    }
}

/// Maps virtual paths to inode numbers and back.
pub struct InodeMapper {
    paths: Vec<String>,
}

impl View for InodeMapper {
    type V = Seq<Seq<char>>;

    closed spec fn view(&self) -> Seq<Seq<char>> {
        self.paths@.map_values(|s: String| s@)
    }
}

impl InodeMapper {
    pub open spec fn wf(&self) -> bool {
        wf_paths(self@)
    }

    /// A fresh registry holding only the root path.
    pub fn new() -> (r: Self)
        ensures
            r.wf(),
            r@ =~= seq!["/"@],
    {
        let root: String = "/".to_owned();
        let mut paths: Vec<String> = Vec::new();
        paths.push(root);
        InodeMapper { paths }
    }

    /// Returns the identifier of `path`, allocating a fresh one on first
    /// sight; idempotent, and never hands out the reserved diagnostic
    /// identifier.
    pub fn get_or_create_ino(&mut self, path: &String) -> (ino: u64)
        requires
            old(self).wf(),
        ensures
            final(self).wf(),
            (final(self)@, ino) == spec_resolve(old(self)@, path@),
            ino != ERROR_FILE_INO,
            spec_resolve(old(self)@, path@).0 == old(self)@ ==> *final(self) == *old(self),
    {
        let ghost m = self@;
        let n = self.paths.len();
        for i in 0..n
            invariant
                n == self.paths.len(),
                m == self@,
                wf_paths(m),
                forall|j: int| 0 <= j < i ==> m[j] != path@,
        {
            if self.paths[i] == *path {
                assert(m[i as int] == path@);
                assert(has_path(m, path@));
                proof {
                    let w = path_index(m, path@);
                    assert(m[w] == path@);
                    if w != i {
                        assert(m[w] != m[i as int]);
                    }
                }
                if i == 0 {
                    return ROOT_INO;
                } else {
                    return i as u64 + 2;
                }
            }
        }
        assert(!has_path(m, path@));
        if (n as u64) < u64::MAX - 2 {
            let ino: u64 = n as u64 + 2;
            self.paths.push(path.clone());
            proof {
                assert(self@ =~= m.push(path@));
                assert forall|i: int, j: int| 0 <= i < j < self@.len() implies self@[i]
                    != self@[j] by {
                    if j == m.len() {
                        assert(self@[i] == m[i]);
                    }
                }
            }
            ino
        } else {
            ROOT_INO
        }
    }

    /// The path bound to `ino`, or nothing when `ino` was never handed out.
    pub fn get_path(&self, ino: u64) -> (r: Option<&String>)
        ensures
            match r {
                Some(p) => spec_path_of(self@, ino) == Some(p@),
                None => spec_path_of(self@, ino) is None,
            },
    {
        if ino == ROOT_INO {
            if self.paths.len() > 0 {
                Some(&self.paths[0])
            } else {
                None
            }
        } else if ino >= 3 && ino - 2 < self.paths.len() as u64 {
            Some(&self.paths[(ino - 2) as usize])
        } else {
            None
        }
    }
}

/// Law: resolving a path is idempotent — a second resolution returns the
/// same identifier and leaves the registry unchanged — and, while the
/// registry is not full, the identifier resolves back to the very path.
pub proof fn lemma_resolve_idempotent(m: Seq<Seq<char>>, p: Seq<char>)
    requires
        wf_paths(m),
    ensures
        wf_paths(spec_resolve(m, p).0),
        spec_resolve(spec_resolve(m, p).0, p) == spec_resolve(m, p),
        has_path(m, p) || m.len() < MAPPER_CAP ==> spec_path_of(
            spec_resolve(m, p).0,
            spec_resolve(m, p).1,
        ) == Some(p),
{
    let (m1, ino) = spec_resolve(m, p);
    if has_path(m, p) {
        let w = path_index(m, p);
        assert(0 <= w < m.len() && m[w] == p);
        lemma_index_unique(m, p, w);
    } else if m.len() < MAPPER_CAP {
        assert(m1 =~= m.push(p));
        assert forall|i: int, j: int| 0 <= i < j < m1.len() implies m1[i] != m1[j] by {
            if j == m.len() {
                assert(m1[i] == m[i]);
            }
        }
        assert(m1[m.len() as int] == p);
        assert(has_path(m1, p));
        lemma_index_unique(m1, p, m.len() as int);
        assert(spec_resolve(m1, p) == (m1, ino));
    }
}

/// Law: identifier 1 is bound to the root path "/" in every well-formed
/// registry state, and no resolution step rebinds it.
pub proof fn lemma_root_identifier(m: Seq<Seq<char>>, p: Seq<char>)
    requires
        wf_paths(m),
    ensures
        spec_path_of(m, ROOT_INO) == Some("/"@),
        has_path(m, "/"@) && path_ino(m, "/"@) == ROOT_INO,
        spec_path_of(spec_resolve(m, p).0, ROOT_INO) == Some("/"@),
        path_ino(spec_resolve(m, p).0, "/"@) == ROOT_INO,
{
    assert(m[0] == "/"@);
    assert(has_path(m, "/"@));
    lemma_index_unique(m, "/"@, 0);
    lemma_resolve_idempotent(m, p);
    let m1 = spec_resolve(m, p).0;
    assert(m1[0] == "/"@);
    assert(has_path(m1, "/"@));
    lemma_index_unique(m1, "/"@, 0);
}

/// A path read back from an identifier resolves to that same identifier,
/// and resolving it leaves the registry unchanged.
pub proof fn lemma_path_of_resolve(m: Seq<Seq<char>>, ino: u64, p: Seq<char>)
    requires
        wf_paths(m),
        spec_path_of(m, ino) == Some(p),
    ensures
        has_path(m, p),
        path_ino(m, p) == ino,
        spec_resolve(m, p) == (m, ino),
{
    let idx: int = if ino == ROOT_INO {
        0
    } else {
        ino - 2
    };
    assert(m[idx] == p);
    lemma_index_unique(m, p, idx);
}

/// In a registry without duplicate paths, the position of a path is the one
/// position that holds it.
proof fn lemma_index_unique(m: Seq<Seq<char>>, p: Seq<char>, w: int)
    requires
        forall|i: int, j: int| 0 <= i < j < m.len() ==> m[i] != m[j],
        0 <= w < m.len(),
        m[w] == p,
    ensures
        path_index(m, p) == w,
        has_path(m, p),
{
    assert(has_path(m, p));
    let v = path_index(m, p);
    assert(0 <= v < m.len() && m[v] == p);
    if v != w {
        if v < w {
            assert(m[v] != m[w]);
        } else {
            assert(m[w] != m[v]);
        }
    }
}

} // verus!
