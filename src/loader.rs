//! The capability through which a store loads files it has not seen yet.
use vstd::prelude::*;

verus! {

/// Supplies the current on-disk contents of a file, on demand.
///
/// Implementations normalise their own I/O failures to `None`: to the store
/// an absent result means the file does not exist.
pub trait Loader {
    /// The bytes of the file at `path`, or `None` if there is no such file.
    fn load_sync(&mut self, path: &str) -> Option<Vec<u8>>;
}

} // verus!
