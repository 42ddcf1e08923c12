use vstd::prelude::*;

verus! {

/// The coarse error set that filesystem operations report.
#[derive(Debug, Clone, Copy, PartialEq, Eq, Structural)]
pub enum FsError {
    /// The entry, key or object does not exist, or a handle could not be opened.
    NotFound,
    /// Any other store failure, or a record that is present but unusable.
    Io,
    /// A local allocation failed.
    NoMemory,
    /// The store rejected an update, including a conditional-insert conflict.
    InvalidArgument,
    /// The request lies outside the supported subset.
    NotSupported,
}

} // verus!
