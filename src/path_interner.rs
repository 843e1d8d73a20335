//! A table that gives each distinct path a dense handle.
use vstd::prelude::*;

use crate::model::distinct_paths;
use crate::vfs_path::{VfsPath, VfsPathView};
use crate::FileId;

verus! {

/// Paths in the order they were first seen: a path's handle is its index.
pub struct PathInterner {
    paths: Vec<VfsPath>,
}

impl View for PathInterner {
    type V = Seq<VfsPathView>;

    closed spec fn view(&self) -> Seq<VfsPathView> {
        self.paths@.map_values(|p: VfsPath| p@)
    }
}

impl PathInterner {
    /// Distinct paths, and every handle fits in a `u32`.
    pub open spec fn wf(&self) -> bool {
        &&& distinct_paths(self@)
        &&& self@.len() <= u32::MAX
    }

    pub fn new() -> (r: PathInterner)
        ensures
            r.wf(),
            r@ == Seq::<VfsPathView>::empty(),
    {
        let r = PathInterner { paths: Vec::new() };
        assert(r@ =~= Seq::<VfsPathView>::empty());
        r
    }

    pub fn len(&self) -> (r: usize)
        ensures
            r == self@.len(),
    {
        self.paths.len()
    }

    /// The handle of `path`, if it has been interned.
    pub fn get(&self, path: &VfsPath) -> (r: Option<FileId>)
        requires
            self.wf(),
        ensures
            r is None <==> !self@.contains(path@),
            r matches Some(id) ==> id.0 < self@.len() && self@[id.0 as int] == path@,
    {
        let mut i: usize = 0;
        while i < self.paths.len()
            invariant
                self.wf(),
                i <= self@.len(),
                forall|j: int| 0 <= j < i ==> self@[j] != path@,
            decreases self@.len() - i,
        {
            if self.paths[i].eq(path) {
                assert(self@[i as int] == path@);
                return Some(FileId(i as u32));
            }
            i += 1;
        }
        None
    }

    /// The handle of `path`, allocating the next one if the path is new.
    pub fn intern(&mut self, path: VfsPath) -> (r: FileId)
        requires
            old(self).wf(),
            old(self)@.contains(path@) || old(self)@.len() < u32::MAX,
        ensures
            final(self).wf(),
            r.0 < final(self)@.len(),
            final(self)@[r.0 as int] == path@,
            old(self)@.contains(path@) ==> final(self)@ == old(self)@,
            !old(self)@.contains(path@) ==> r.0 == old(self)@.len() && final(self)@ == old(
                self,
            )@.push(path@),
    {
        match self.get(&path) {
            Some(id) => id,
            None => {
                let id = FileId(self.paths.len() as u32);
                self.paths.push(path);
                assert(self@ =~= old(self)@.push(path@));
                id
            },
        }
    }

    /// The path that `id` was given to.
    pub fn lookup(&self, id: FileId) -> (r: &VfsPath)
        requires
            id.0 < self@.len(),
        ensures
            r@ == self@[id.0 as int],
    {
        &self.paths[id.0 as usize]
    }
}

} // verus!
