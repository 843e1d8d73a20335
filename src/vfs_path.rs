//! The identity of a file: a path on disk, or a virtual in-memory path.
use vstd::prelude::*;

verus! {

/// A file's identity.
///
/// `Real` names a file that exists on disk (an absolute path), and can be
/// loaded lazily. `Virtual` names an in-memory file with no backing store,
/// which must be set before it is read.
#[derive(Debug)]
pub enum VfsPath {
    Real(String),
    Virtual(String),
}

/// The mathematical value of a [`VfsPath`]: its kind and its characters.
pub enum VfsPathView {
    Real(Seq<char>),
    Virtual(Seq<char>),
}

impl View for VfsPath {
    type V = VfsPathView;

    open spec fn view(&self) -> VfsPathView {
        match self {
            VfsPath::Real(s) => VfsPathView::Real(s@),
            VfsPath::Virtual(s) => VfsPathView::Virtual(s@),
        }
    }
}

impl VfsPathView {
    /// Whether the path has an on-disk representation.
    pub open spec fn is_real(self) -> bool {
        self is Real
    }
}

impl VfsPath {
    /// The on-disk path, or `None` for a virtual path.
    pub fn as_path(&self) -> (r: Option<&str>)
        ensures
            r is Some <==> self@.is_real(),
            r is Some ==> self@ == VfsPathView::Real(r->0@),
    {
        match self {
            VfsPath::Real(s) => Some(s.as_str()),
            VfsPath::Virtual(_) => None,
        }
    }
}

impl Clone for VfsPath {
    fn clone(&self) -> (r: Self)
        ensures
            r == *self,
    {
        match self {
            VfsPath::Real(s) => VfsPath::Real(s.clone()),
            VfsPath::Virtual(s) => VfsPath::Virtual(s.clone()),
        }
    }
}

impl PartialEq for VfsPath {
    fn eq(&self, other: &VfsPath) -> (r: bool)
        ensures
            r == (self@ == other@),
    {
        match (self, other) {
            (VfsPath::Real(a), VfsPath::Real(b)) => a.eq(b),
            (VfsPath::Virtual(a), VfsPath::Virtual(b)) => a.eq(b),
            _ => false,
        }
    }
}

impl vstd::std_specs::cmp::PartialEqSpecImpl for VfsPath {
    open spec fn obeys_eq_spec() -> bool {
        true
    }

    open spec fn eq_spec(&self, other: &VfsPath) -> bool {
        self@ == other@
    }
}

} // verus!
