//! The error kinds that the ledger reports.

use vstd::prelude::*;

verus! {

/// Why a ledger operation failed.
#[derive(Debug, Clone, Copy, PartialEq, Eq, Structural)]
pub enum CommonError {
    /// No client has the given id.
    NotFound,
    /// The balance folder could not be created.
    FolderCreationFailed,
    /// The balance folder could not be listed.
    FolderReadFailed,
    /// The shared state could not be locked for reading.
    LockReadFailed,
    /// The shared state could not be locked for writing.
    LockWriteFailed,
    /// The balance file could not be created.
    FileCreationFailed,
    /// A line could not be written to the balance file.
    FileWriteFailed,
    /// The document number belongs to a registered client already.
    Forbiden,
}

} // verus!
