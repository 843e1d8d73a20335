//! An in-memory, versioned store of file contents keyed by small integer
//! handles.
//!
//! Reading a file always returns the same bytes until the store is updated.
//! Every update that changes what a reader would see is recorded as a
//! [`ChangedFile`], and a consumer drains those with [`Vfs::take_changes`] to
//! recompute only what changed. Files that have never been set are loaded on
//! first read through a [`Loader`].
use vstd::prelude::*;

pub mod laws;
pub mod loader;
pub mod model;
mod path_interner;
pub mod vfs_path;

pub use crate::loader::Loader;
pub use crate::model::{FileState, VfsModel};
pub use crate::vfs_path::{VfsPath, VfsPathView};

use crate::model::{
    bytes_view, change_kind_for, lemma_handle_of, lemma_intern, lemma_set_path, resolved, slice_view,
};
use crate::path_interner::PathInterner;

verus! {

/// Handle to a file in a [`Vfs`]: the index of its path in the order in
/// which paths were first seen.
#[derive(Clone, Copy, Debug, PartialEq, Eq, Structural, Hash, PartialOrd, Ord)]
pub struct FileId(pub u32);

/// A change recorded in a [`Vfs`].
#[derive(Clone, Copy, Debug, PartialEq, Eq, Structural)]
pub struct ChangedFile {
    /// The file that changed.
    pub file_id: FileId,
    /// How it changed.
    pub change_kind: ChangeKind,
}

/// Kind of [file change](ChangedFile).
#[derive(Clone, Copy, Debug, PartialEq, Eq, Structural)]
pub enum ChangeKind {
    /// The file was (re-)created.
    Create,
    /// The file was modified.
    Modify,
    /// The file was deleted.
    Delete,
}

impl ChangedFile {
    /// Whether the file exists after this change: it was not deleted.
    pub fn file_exists(&self) -> (r: bool)
        ensures
            r == !(self.change_kind is Delete),
    {
        !matches!(self.change_kind, ChangeKind::Delete)
    }

    /// Whether the change is a creation or a deletion.
    pub fn is_created_or_deleted(&self) -> (r: bool)
        ensures
            r == (self.change_kind is Create || self.change_kind is Delete),
    {
        matches!(self.change_kind, ChangeKind::Create | ChangeKind::Delete)
    }
}

/// Known contents of a file; `None` means the file was deleted.
struct FileContents(Option<Vec<u8>>);

/// The state of a file as the store holds it (`None`: not resolved yet).
spec fn state_of(c: Option<FileContents>) -> FileState {
    match c {
        None => FileState::Unknown,
        Some(FileContents(None)) => FileState::Deleted,
        Some(FileContents(Some(b))) => FileState::Present(b@),
    }
}

/// Storage for the files read by a program, with a log of their changes.
pub struct Vfs<L: Loader> {
    interner: PathInterner,
    data: Vec<Option<FileContents>>,
    changes: Vec<ChangedFile>,
    /// Loads files that are read before they were ever set.
    pub loader: L,
}

impl<L: Loader> View for Vfs<L> {
    type V = VfsModel;

    closed spec fn view(&self) -> VfsModel {
        VfsModel {
            paths: self.interner@,
            files: self.data@.map_values(|c: Option<FileContents>| state_of(c)),
            changes: self.changes@,
        }
    }
}

impl<L: Loader> Vfs<L> {
    /// The store's invariant, which every operation keeps.
    pub open spec fn wf(&self) -> bool {
        self@.wf()
    }

    /// The loader as it stands: operations that load nothing leave it as is.
    pub closed spec fn spec_loader(&self) -> L {
        self.loader
    }

    /// An empty store that loads unknown files through `loader`.
    pub fn new(loader: L) -> (r: Self)
        ensures
            r.wf(),
            r@ == VfsModel::empty(),
            r.spec_loader() == loader,
    {
        let r = Vfs { loader, interner: PathInterner::new(), data: Vec::new(), changes: Vec::new() };
        assert(r@.files =~= Seq::<FileState>::empty());
        assert(r@.changes =~= Seq::<ChangedFile>::empty());
        r
    }

    /// Number of files stored, deleted ones included.
    pub fn len(&self) -> (r: usize)
        requires
            self.wf(),
        ensures
            r == self@.len(),
    {
        self.interner.len()
    }

    /// Id of `path`, if the store has seen it.
    pub fn file_id(&self, path: &VfsPath) -> (r: Option<FileId>)
        requires
            self.wf(),
        ensures
            r is None <==> !self@.paths.contains(path@),
            r matches Some(id) ==> id.0 < self@.len() && id.0 == self@.handle_of(path@),
    {
        let r = self.interner.get(path);
        proof {
            if let Some(id) = r {
                lemma_handle_of(self@, id.0 as int);
            }
        }
        r
    }

    /// Path of the file `file_id`.
    pub fn file_path(&self, file_id: FileId) -> (r: VfsPath)
        requires
            self.wf(),
            file_id.0 < self@.len(),
        ensures
            r@ == self@.paths[file_id.0 as int],
    {
        self.interner.lookup(file_id).clone()
    }

    /// Every id with its path, in ascending order of id. Loads nothing.
    pub fn iter(&self) -> (r: Vec<(FileId, VfsPath)>)
        requires
            self.wf(),
        ensures
            r@.len() == self@.len(),
            forall|i: int| 0 <= i < r@.len() ==> (#[trigger] r@[i]).0.0 == i && r@[i].1@ == self@.paths[i],
    {
        let n = self.interner.len();
        let mut r: Vec<(FileId, VfsPath)> = Vec::new();
        let mut i: usize = 0;
        while i < n
            invariant
                self.wf(),
                n == self@.len(),
                i <= n,
                r@.len() == i,
                forall|j: int| 0 <= j < i ==> (#[trigger] r@[j]).0.0 == j && r@[j].1@ == self@.paths[j],
            decreases n - i,
        {
            let file_id = FileId(i as u32);
            let path = self.interner.lookup(file_id).clone();
            r.push((file_id, path));
            i += 1;
        }
        r
    }

    /// Whether changes are waiting to be drained.
    pub fn has_changes(&self) -> (r: bool)
        ensures
            r == (self@.changes.len() > 0),
    {
        !self.changes.is_empty()
    }

    /// Drains the changes, oldest first: the log is empty afterwards.
    pub fn take_changes(&mut self) -> (r: Vec<ChangedFile>)
        requires
            old(self).wf(),
        ensures
            final(self).wf(),
            r@ == old(self)@.changes,
            final(self)@ == old(self)@.drain(),
            final(self).spec_loader() == old(self).spec_loader(),
    {
        let mut taken: Vec<ChangedFile> = Vec::new();
        std::mem::swap(&mut taken, &mut self.changes);
        assert(self@.changes =~= Seq::<ChangedFile>::empty());
        taken
    }

    /// Update the file `file_id` with `contents`; `None` means the file was
    /// deleted.
    ///
    /// Returns `true` if the file changed as a reader sees it, and records
    /// the [change](ChangedFile) then.
    pub fn set_id_contents(&mut self, file_id: FileId, contents: Option<Vec<u8>>) -> (r: bool)
        requires
            old(self).wf(),
            file_id.0 < old(self)@.len(),
        ensures
            final(self).wf(),
            final(self)@ == old(self)@.set(file_id.0 as int, bytes_view(contents)),
            r == old(self)@.change_for(file_id.0 as int, bytes_view(contents)) is Some,
            final(self).spec_loader() == old(self).spec_loader(),
    {
        let i = file_id.0 as usize;
        let change_kind = match (&self.data[i], &contents) {
            (Some(FileContents(Some(old))), Some(new)) => if bytes_equal(old, new) {
                None
            } else {
                Some(ChangeKind::Modify)
            },
            (Some(FileContents(Some(_))), None) => Some(ChangeKind::Delete),
            (_, Some(_)) => Some(ChangeKind::Create),
            (_, None) => None,
        };
        proof {
            assert(self@.files[i as int] == state_of(self.data@[i as int]));
        }
        self.data[i] = Some(FileContents(contents));
        let changed = match change_kind {
            Some(kind) => {
                self.changes.push(ChangedFile { file_id, change_kind: kind });
                true
            },
            None => false,
        };
        assert(self@.files =~= old(self)@.files.update(i as int, resolved(bytes_view(contents))));
        changed
    }

    /// Returns the id associated with `path`.
    ///
    /// A path not seen before gets the next id, and its contents are unknown
    /// until set or loaded. Records no change.
    pub fn alloc_file_id(&mut self, path: VfsPath) -> (r: FileId)
        requires
            old(self).wf(),
            old(self)@.paths.contains(path@) || old(self)@.len() < u32::MAX,
        ensures
            final(self).wf(),
            final(self)@ == old(self)@.intern(path@),
            r.0 == final(self)@.handle_of(path@),
            r.0 < final(self)@.len(),
            final(self)@.paths[r.0 as int] == path@,
            final(self)@.paths.contains(path@),
            old(self)@.paths.contains(path@) ==> r.0 == old(self)@.handle_of(path@),
            !old(self)@.paths.contains(path@) ==> r.0 == old(self)@.len(),
            final(self).spec_loader() == old(self).spec_loader(),
    {
        let ghost p = path@;
        let file_id = self.interner.intern(path);
        if self.data.len() < self.interner.len() {
            self.data.push(None);
        }
        proof {
            lemma_handle_of(self@, file_id.0 as int);
            assert(self@.files =~= old(self)@.intern(p).files);
            lemma_intern(old(self)@, p);
        }
        file_id
    }

    /// Update the file at `path` with `contents`; `None` means the file was
    /// deleted. A path not seen before gets the next id first.
    ///
    /// Returns `true` if the file changed as a reader sees it, and records
    /// the [change](ChangedFile) then.
    pub fn set_file_contents(&mut self, path: VfsPath, contents: Option<Vec<u8>>) -> (r: bool)
        requires
            old(self).wf(),
            old(self)@.paths.contains(path@) || old(self)@.len() < u32::MAX,
        ensures
            final(self).wf(),
            final(self)@ == old(self)@.set_path(path@, bytes_view(contents)),
            r == old(self)@.set_path_changes(path@, bytes_view(contents)),
            r == change_kind_for(old(self)@.state_at(path@), bytes_view(contents)) is Some,
            final(self)@.paths.contains(path@),
            final(self)@.state_at(path@) == resolved(bytes_view(contents)),
            old(self)@.paths.contains(path@) ==> final(self)@.handle_of(path@) == old(
                self,
            )@.handle_of(path@),
            !old(self)@.paths.contains(path@) ==> final(self)@.handle_of(path@) == old(
                self,
            )@.len(),
            final(self).spec_loader() == old(self).spec_loader(),
    {
        let ghost p = path@;
        let file_id = self.alloc_file_id(path);
        proof {
            lemma_intern(old(self)@, p);
        }
        let r = self.set_id_contents(file_id, contents);
        proof {
            lemma_set_path(old(self)@, p, bytes_view(contents));
        }
        r
    }

    /// Resolves the file `file_id` if its contents are unknown: loads it from
    /// disk and sets what came back, recording the change as any update does.
    fn get_or_load(&mut self, file_id: FileId)
        requires
            old(self).wf(),
            file_id.0 < old(self)@.len(),
            old(self)@.files[file_id.0 as int] is Unknown ==> old(
                self,
            )@.paths[file_id.0 as int].is_real(),
        ensures
            final(self).wf(),
            !(final(self)@.files[file_id.0 as int] is Unknown),
            exists|loaded: Option<Seq<u8>>| final(self)@ == old(self)@.resolve(file_id.0 as int, loaded),
            !(old(self)@.files[file_id.0 as int] is Unknown) ==> final(self).spec_loader() == old(
                self,
            ).spec_loader(),
    {
        let i = file_id.0 as usize;
        if self.data[i].is_none() {
            proof {
                assert(self@.files[i as int] == state_of(self.data@[i as int]));
            }
            let contents = match self.interner.lookup(file_id).as_path() {
                Some(path) => self.loader.load_sync(path),
                // A virtual file is never unknown here: the caller set it.
                None => None,
            };
            self.set_id_contents(file_id, contents);
            assert(self@ == old(self)@.resolve(i as int, bytes_view(contents)));
        } else {
            assert(self@ == old(self)@.resolve(i as int, None));
        }
    }

    /// The contents of the file `file_id`, loading it first if it has never
    /// been set or loaded.
    ///
    /// `None` when the loader finds no such file: the file is then known to
    /// be deleted. A file already known to be deleted may not be read, nor a
    /// virtual file that was never set.
    pub fn file_contents(&mut self, file_id: FileId) -> (r: Option<&[u8]>)
        requires
            old(self).wf(),
            file_id.0 < old(self)@.len(),
            !(old(self)@.files[file_id.0 as int] is Deleted),
            old(self)@.files[file_id.0 as int] is Unknown ==> old(
                self,
            )@.paths[file_id.0 as int].is_real(),
        ensures
            final(self).wf(),
            final(self)@ == old(self)@.resolve(file_id.0 as int, slice_view(r)),
            final(self)@.files[file_id.0 as int] == resolved(slice_view(r)),
            !(old(self)@.files[file_id.0 as int] is Unknown) ==> final(self).spec_loader() == old(
                self,
            ).spec_loader(),
    {
        self.get_or_load(file_id);
        let i = file_id.0 as usize;
        proof {
            assert(self@.files[i as int] == state_of(self.data@[i as int]));
        }
        match &self.data[i] {
            Some(FileContents(Some(bytes))) => Some(bytes.as_slice()),
            _ => None,
        }
    }
}

/// Whether two byte strings are equal.
fn bytes_equal(a: &Vec<u8>, b: &Vec<u8>) -> (r: bool)
    ensures
        r == (a@ == b@),
{
    if a.len() != b.len() {
        return false;
    }
    let mut i: usize = 0;
    while i < a.len()
        invariant
            a@.len() == b@.len(),
            i <= a@.len(),
            forall|j: int| 0 <= j < i ==> a@[j] == b@[j],
        decreases a@.len() - i,
    {
        if a[i] != b[i] {
            return false;
        }
        i += 1;
    }
    assert(a@ =~= b@);
    true
}

} // verus!
