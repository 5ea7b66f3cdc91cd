//! The ways in which a storage operation can fail.

use vstd::prelude::*;

verus! {

/// Why a lookup or a store did not succeed.
#[derive(Debug)]
pub enum StorageError {
    /// No redirect is recorded under the identifier that was looked up.
    NotFound,
    /// A redirect is already recorded under the identifier that was to be stored.
    AlreadyExists,
    /// The storage itself could not be used; the text says why.
    InternalError(String),
}

} // verus!
