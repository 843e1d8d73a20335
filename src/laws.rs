//! Laws of the store, stated over its model and proved.
//!
//! Each operation of [`Vfs`](crate::Vfs) is specified as a function of
//! [`VfsModel`]; what is proved here therefore holds of every run of the
//! store.
use vstd::prelude::*;

use crate::model::{can_intern, lemma_intern, lemma_set_path, resolved, FileState, VfsModel};
use crate::vfs_path::VfsPathView;
use crate::{ChangeKind, ChangedFile, FileId};

verus! {

/// The state of a series of updates by path, applied in order.
pub open spec fn apply_sets(m: VfsModel, ops: Seq<(VfsPathView, Option<Seq<u8>>)>) -> VfsModel
    decreases ops.len(),
{
    if ops.len() == 0 {
        m
    } else {
        apply_sets(m, ops.drop_last()).set_path(ops.last().0, ops.last().1)
    }
}

/// The change record for handle `h`.
pub open spec fn change(h: int, k: ChangeKind) -> ChangedFile {
    ChangedFile { file_id: FileId(h as u32), change_kind: k }
}

/// A series of updates keeps the store valid and adds at most one handle
/// per update.
pub proof fn lemma_apply_sets(m: VfsModel, ops: Seq<(VfsPathView, Option<Seq<u8>>)>)
    requires
        m.wf(),
        m.len() + ops.len() <= u32::MAX,
    ensures
        apply_sets(m, ops).wf(),
        apply_sets(m, ops).len() <= m.len() + ops.len(),
    decreases ops.len(),
{
    if ops.len() > 0 {
        let prev = apply_sets(m, ops.drop_last());
        lemma_apply_sets(m, ops.drop_last());
        lemma_set_path(prev, ops.last().0, ops.last().1);
    }
}

/// After any series of updates by path, the file at a path holds exactly
/// what the last update of that path set: its bytes, or deleted for `None`.
pub proof fn law_last_update_wins(
    m: VfsModel,
    ops: Seq<(VfsPathView, Option<Seq<u8>>)>,
    j: int,
)
    requires
        m.wf(),
        m.len() + ops.len() <= u32::MAX,
        0 <= j < ops.len(),
        forall|k: int| j < k < ops.len() ==> (#[trigger] ops[k]).0 != ops[j].0,
    ensures
        apply_sets(m, ops).paths.contains(ops[j].0),
        apply_sets(m, ops).files[apply_sets(m, ops).handle_of(ops[j].0)] == resolved(ops[j].1),
    decreases ops.len(),
{
    let prev = apply_sets(m, ops.drop_last());
    lemma_apply_sets(m, ops.drop_last());
    lemma_set_path(prev, ops.last().0, ops.last().1);
    if j < ops.len() - 1 {
        let rest = ops.drop_last();
        assert forall|k: int| j < k < rest.len() implies (#[trigger] rest[k]).0 != rest[j].0 by {
            assert(rest[k] == ops[k]);
        }
        law_last_update_wins(m, rest, j);
        assert(rest[j] == ops[j]);
        assert(ops.last().0 != ops[j].0) by {
            assert(ops[ops.len() - 1] == ops.last());
        }
    } else {
        assert(ops[j] == ops.last());
    }
}

/// Setting the same bytes twice in a row: the second update changes nothing
/// and records nothing.
pub proof fn law_same_bytes_twice(m: VfsModel, p: VfsPathView, b: Seq<u8>)
    requires
        m.wf(),
        can_intern(m, p),
    ensures
        !m.set_path(p, Some(b)).set_path_changes(p, Some(b)),
        m.set_path(p, Some(b)).set_path(p, Some(b)) == m.set_path(p, Some(b)),
{
    lemma_set_path(m, p, Some(b));
    let m1 = m.set_path(p, Some(b));
    lemma_intern(m1, p);
    assert(m1.set_path(p, Some(b)).files =~= m1.files);
}

/// The first update of a new path with bytes gives it the next handle and
/// records exactly one creation of that handle.
pub proof fn law_first_set_creates(m: VfsModel, p: VfsPathView, b: Seq<u8>)
    requires
        m.wf(),
        !m.paths.contains(p),
        m.len() < u32::MAX,
    ensures
        m.set_path_changes(p, Some(b)),
        m.set_path(p, Some(b)).handle_of(p) == m.len(),
        m.set_path(p, Some(b)).changes == m.changes.push(change(m.len() as int, ChangeKind::Create)),
{
    lemma_intern(m, p);
    lemma_set_path(m, p, Some(b));
}

/// Two updates of a path with different bytes: the second records exactly
/// one modification of its handle; for a new path the log gains one
/// creation, then that modification.
pub proof fn law_second_set_modifies(m: VfsModel, p: VfsPathView, b1: Seq<u8>, b2: Seq<u8>)
    requires
        m.wf(),
        can_intern(m, p),
        b1 != b2,
    ensures
        ({
            let m1 = m.set_path(p, Some(b1));
            let h = m1.handle_of(p);
            &&& m1.set_path_changes(p, Some(b2))
            &&& m1.set_path(p, Some(b2)).handle_of(p) == h
            &&& m1.set_path(p, Some(b2)).changes == m1.changes.push(change(h, ChangeKind::Modify))
            &&& !m.paths.contains(p) ==> m1.set_path(p, Some(b2)).changes == m.changes.push(
                change(h, ChangeKind::Create),
            ).push(change(h, ChangeKind::Modify))
        }),
{
    lemma_set_path(m, p, Some(b1));
    let m1 = m.set_path(p, Some(b1));
    lemma_intern(m1, p);
    lemma_set_path(m1, p, Some(b2));
    if !m.paths.contains(p) {
        law_first_set_creates(m, p, b1);
    }
}

/// Create, delete, create again: a path whose file does not exist, set with
/// bytes, then deleted, then set again, records a creation, a deletion and
/// a second creation, all of one handle.
pub proof fn law_delete_then_recreate(m: VfsModel, p: VfsPathView, b: Seq<u8>)
    requires
        m.wf(),
        can_intern(m, p),
        m.paths.contains(p) ==> !(m.files[m.handle_of(p)] is Present),
    ensures
        ({
            let m1 = m.set_path(p, Some(b));
            let m2 = m1.set_path(p, None);
            let m3 = m2.set_path(p, Some(b));
            let h = m1.handle_of(p);
            &&& m2.handle_of(p) == h
            &&& m3.handle_of(p) == h
            &&& m3.changes == m.changes.push(change(h, ChangeKind::Create)).push(
                change(h, ChangeKind::Delete),
            ).push(change(h, ChangeKind::Create))
        }),
{
    lemma_intern(m, p);
    lemma_set_path(m, p, Some(b));
    let m1 = m.set_path(p, Some(b));
    lemma_intern(m1, p);
    lemma_set_path(m1, p, None);
    let m2 = m1.set_path(p, None);
    lemma_intern(m2, p);
    lemma_set_path(m2, p, Some(b));
}

/// Draining hands over the log as it was and leaves it empty, so draining
/// again at once yields nothing; the files are untouched.
pub proof fn law_drain_twice(m: VfsModel)
    ensures
        m.drain().changes == Seq::<ChangedFile>::empty(),
        m.drain().drain() == m.drain(),
        m.drain().paths == m.paths,
        m.drain().files == m.files,
{
}

/// Reading a file whose contents are unknown, when the loader finds bytes
/// `x`: the file then holds `x` and the log gains one creation; a second
/// read finds the file resolved, so it loads nothing and records nothing.
pub proof fn law_lazy_load_once(m: VfsModel, h: int, x: Seq<u8>)
    requires
        m.wf(),
        0 <= h < m.len(),
        m.files[h] is Unknown,
    ensures
        m.resolve(h, Some(x)).files[h] == FileState::Present(x),
        m.resolve(h, Some(x)).changes == m.changes.push(change(h, ChangeKind::Create)),
        !(m.resolve(h, Some(x)).files[h] is Unknown),
        forall|loaded: Option<Seq<u8>>|
            #[trigger] m.resolve(h, Some(x)).resolve(h, loaded) == m.resolve(h, Some(x)),
{
}

/// Interning a path twice gives the same handle, and the second time adds
/// no handle.
pub proof fn law_intern_twice(m: VfsModel, p: VfsPathView)
    requires
        m.wf(),
        can_intern(m, p),
    ensures
        m.intern(p).intern(p) == m.intern(p),
        m.intern(p).intern(p).handle_of(p) == m.intern(p).handle_of(p),
        m.intern(p).intern(p).len() == m.intern(p).len(),
{
    lemma_intern(m, p);
    assert(m.intern(p).paths.contains(p)) by {
        assert(m.intern(p).paths[m.intern(p).handle_of(p)] == p);
    }
}

} // verus!
