//! The error surface of a read: any failure of the underlying database
//! layer (opening the file, inspecting the catalog, running a query) is
//! carried to the caller with its cause. A schema that merely does not
//! match is not an error; it yields an empty result instead.

use vstd::prelude::*;

verus! {

#[verifier::external_type_specification]
#[verifier::external_body]
pub struct ExRusqliteError(rusqlite::Error);

/// A failed read, carrying the underlying cause.
#[derive(Debug)]
pub enum ReadError {
    Database(rusqlite::Error),
}

} // verus!
