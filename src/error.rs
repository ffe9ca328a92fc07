use vstd::prelude::*;

verus! {

/// Failures reported by the handle table, the capability checks and the
/// resource providers behind the entries.
#[derive(Debug, Clone, Copy, PartialEq, Eq, Structural)]
pub enum Error {
    /// No entry is stored under the handle.
    BadFileDescriptor,
    /// An entry is stored under the handle, but of another kind.
    InvalidKind,
    /// The entry's granted capability set lacks a required operation.
    NotCapable,
    /// Every handle number that `push` may hand out is in use.
    TableFull,
    /// A resource provider failed; the code is the provider's own.
    Io(u32),
}

} // verus!
