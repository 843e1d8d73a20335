//! The mathematical model of a store: the state of each file, the transition
//! rule, and each operation as a function from state to state.
use vstd::prelude::*;

use crate::vfs_path::VfsPathView;
use crate::{ChangeKind, ChangedFile, FileId};

verus! {

/// What the store knows of one file's contents.
pub enum FileState {
    /// Never fetched or set: resolved through the loader on first read.
    Unknown,
    /// Known to be absent.
    Deleted,
    /// Known, with these exact bytes.
    Present(Seq<u8>),
}

/// The bytes that an update hands over; `None` stands for a deletion.
pub open spec fn bytes_view(c: Option<Vec<u8>>) -> Option<Seq<u8>> {
    match c {
        Some(v) => Some(v@),
        None => None,
    }
}

/// The bytes a read hands back.
pub open spec fn slice_view(c: Option<&[u8]>) -> Option<Seq<u8>> {
    match c {
        Some(s) => Some(s@),
        None => None,
    }
}

/// The state a file is in once `new` has been set.
pub open spec fn resolved(new: Option<Seq<u8>>) -> FileState {
    match new {
        Some(b) => FileState::Present(b),
        None => FileState::Deleted,
    }
}

/// The change that moving from `old` to `new` records, if any.
pub open spec fn change_kind_for(old: FileState, new: Option<Seq<u8>>) -> Option<ChangeKind> {
    match old {
        FileState::Present(b) => match new {
            Some(n) => if b == n {
                None
            } else {
                Some(ChangeKind::Modify)
            },
            None => Some(ChangeKind::Delete),
        },
        _ => match new {
            Some(_) => Some(ChangeKind::Create),
            None => None,
        },
    }
}

/// No path appears twice.
pub open spec fn distinct_paths(s: Seq<VfsPathView>) -> bool {
    forall|i: int, j: int| 0 <= i < s.len() && 0 <= j < s.len() && i != j ==> s[i] != s[j]
}

/// A store as values: the path of each handle, the state of each file, and
/// the changes not yet drained, oldest first.
pub struct VfsModel {
    pub paths: Seq<VfsPathView>,
    pub files: Seq<FileState>,
    pub changes: Seq<ChangedFile>,
}

impl VfsModel {
    /// Paths are distinct, each handle has one state, and handles fit in `u32`.
    pub open spec fn wf(self) -> bool {
        &&& distinct_paths(self.paths)
        &&& self.files.len() == self.paths.len()
        &&& self.paths.len() <= u32::MAX
    }

    /// The model of a store that has seen no path.
    pub open spec fn empty() -> VfsModel {
        VfsModel { paths: Seq::empty(), files: Seq::empty(), changes: Seq::empty() }
    }

    /// Number of handles given out.
    pub open spec fn len(self) -> nat {
        self.paths.len()
    }

    /// The handle of `p`; for a path not yet seen, the one it would get.
    pub open spec fn handle_of(self, p: VfsPathView) -> int {
        if self.paths.contains(p) {
            choose|i: int| 0 <= i < self.paths.len() && self.paths[i] == p
        } else {
            self.paths.len() as int
        }
    }

    /// The state of the file at path `p`; `Unknown` for a path not yet seen.
    pub open spec fn state_at(self, p: VfsPathView) -> FileState {
        if self.paths.contains(p) {
            self.files[self.handle_of(p)]
        } else {
            FileState::Unknown
        }
    }

    /// Interning `p`: a new path gets the next handle, in state `Unknown`.
    pub open spec fn intern(self, p: VfsPathView) -> VfsModel {
        if self.paths.contains(p) {
            self
        } else {
            VfsModel {
                paths: self.paths.push(p),
                files: self.files.push(FileState::Unknown),
                changes: self.changes,
            }
        }
    }

    /// The change that setting handle `h` to `c` records, if any.
    pub open spec fn change_for(self, h: int, c: Option<Seq<u8>>) -> Option<ChangeKind> {
        change_kind_for(self.files[h], c)
    }

    /// Setting handle `h` to `c` (`None`: deleted).
    pub open spec fn set(self, h: int, c: Option<Seq<u8>>) -> VfsModel {
        VfsModel {
            paths: self.paths,
            files: self.files.update(h, resolved(c)),
            changes: match self.change_for(h, c) {
                Some(k) => self.changes.push(ChangedFile { file_id: FileId(h as u32), change_kind: k }),
                None => self.changes,
            },
        }
    }

    /// Setting the file at path `p` to `c`, interning `p` first.
    pub open spec fn set_path(self, p: VfsPathView, c: Option<Seq<u8>>) -> VfsModel {
        self.intern(p).set(self.intern(p).handle_of(p), c)
    }

    /// Whether setting the file at path `p` to `c` records a change.
    pub open spec fn set_path_changes(self, p: VfsPathView, c: Option<Seq<u8>>) -> bool {
        self.intern(p).change_for(self.intern(p).handle_of(p), c) is Some
    }

    /// Reading handle `h`, where an `Unknown` file is set to what the loader
    /// gave (`loaded`); a resolved file is left as it is.
    pub open spec fn resolve(self, h: int, loaded: Option<Seq<u8>>) -> VfsModel {
        if self.files[h] is Unknown {
            self.set(h, loaded)
        } else {
            self
        }
    }

    /// Draining the change log.
    pub open spec fn drain(self) -> VfsModel {
        VfsModel { paths: self.paths, files: self.files, changes: Seq::empty() }
    }
}

/// In a table of distinct paths, the handle of a path is where it stands.
pub proof fn lemma_handle_of(m: VfsModel, i: int)
    requires
        distinct_paths(m.paths),
        0 <= i < m.paths.len(),
    ensures
        m.handle_of(m.paths[i]) == i,
{
    assert(m.paths.contains(m.paths[i]));
}

/// Whether `p` can be interned: it is known, or a handle is left for it.
pub open spec fn can_intern(m: VfsModel, p: VfsPathView) -> bool {
    m.paths.contains(p) || m.len() < u32::MAX
}

/// Interning keeps the store valid and gives `p` the handle where it stands;
/// every path already known keeps its handle and its state.
pub proof fn lemma_intern(m: VfsModel, p: VfsPathView)
    requires
        m.wf(),
        can_intern(m, p),
    ensures
        m.intern(p).wf(),
        m.intern(p).changes == m.changes,
        m.intern(p).len() <= m.len() + 1,
        0 <= m.intern(p).handle_of(p) < m.intern(p).len(),
        m.intern(p).paths[m.intern(p).handle_of(p)] == p,
        m.paths.contains(p) ==> m.intern(p) == m,
        !m.paths.contains(p) ==> m.intern(p).handle_of(p) == m.len(),
        !m.paths.contains(p) ==> m.intern(p).files[m.intern(p).handle_of(p)] is Unknown,
        forall|q: VfsPathView|
            #![trigger m.paths.contains(q)]
            m.paths.contains(q) ==> {
                &&& m.intern(p).paths.contains(q)
                &&& 0 <= m.handle_of(q) < m.len()
                &&& m.paths[m.handle_of(q)] == q
                &&& m.intern(p).handle_of(q) == m.handle_of(q)
                &&& m.intern(p).files[m.handle_of(q)] == m.files[m.handle_of(q)]
            },
{
    let n = m.intern(p);
    if !m.paths.contains(p) {
        assert(distinct_paths(n.paths)) by {
            assert forall|i: int, j: int|
                0 <= i < n.paths.len() && 0 <= j < n.paths.len() && i != j implies n.paths[i]
                != n.paths[j] by {
                if i == m.len() as int {
                    assert(m.paths.contains(n.paths[j]));
                } else if j == m.len() as int {
                    assert(m.paths.contains(n.paths[i]));
                }
            }
        }
    }
    lemma_handle_of(n, if m.paths.contains(p) {
        m.handle_of(p)
    } else {
        m.len() as int
    });
    assert forall|q: VfsPathView|
        #![trigger m.paths.contains(q)]
        m.paths.contains(q) implies {
        &&& n.paths.contains(q)
        &&& 0 <= m.handle_of(q) < m.len()
        &&& m.paths[m.handle_of(q)] == q
        &&& n.handle_of(q) == m.handle_of(q)
        &&& n.files[m.handle_of(q)] == m.files[m.handle_of(q)]
    } by {
        let i = m.handle_of(q);
        assert(n.paths[i] == q);
        lemma_handle_of(n, i);
    }
}

/// Setting the file at `p` gives it exactly the new state, keeps the store
/// valid, and leaves every other known path with its handle and its state.
pub proof fn lemma_set_path(m: VfsModel, p: VfsPathView, c: Option<Seq<u8>>)
    requires
        m.wf(),
        can_intern(m, p),
    ensures
        m.set_path(p, c).wf(),
        m.set_path(p, c).paths == m.intern(p).paths,
        m.set_path(p, c).len() <= m.len() + 1,
        m.set_path(p, c).paths.contains(p),
        m.set_path(p, c).handle_of(p) == m.intern(p).handle_of(p),
        m.set_path(p, c).files[m.set_path(p, c).handle_of(p)] == resolved(c),
        forall|q: VfsPathView|
            #![trigger m.paths.contains(q)]
            m.paths.contains(q) && q != p ==> {
                &&& m.set_path(p, c).paths.contains(q)
                &&& m.set_path(p, c).handle_of(q) == m.handle_of(q)
                &&& m.set_path(p, c).files[m.handle_of(q)] == m.files[m.handle_of(q)]
            },
{
    lemma_intern(m, p);
    let n = m.intern(p);
    let h = n.handle_of(p);
    let r = m.set_path(p, c);
    assert(r.paths == n.paths);
    assert(r.paths.contains(p)) by {
        assert(r.paths[h] == p);
    }
    lemma_handle_of(r, h);
    assert forall|q: VfsPathView|
        #![trigger m.paths.contains(q)]
        m.paths.contains(q) && q != p implies {
        &&& r.paths.contains(q)
        &&& r.handle_of(q) == m.handle_of(q)
        &&& r.files[m.handle_of(q)] == m.files[m.handle_of(q)]
    } by {
        let i = m.handle_of(q);
        lemma_handle_of(r, i);
    }
}

} // verus!
