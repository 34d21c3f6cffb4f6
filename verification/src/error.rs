//! The error taxonomy surfaced by the library.

use vstd::prelude::*;

verus! {

/// Everything that can go wrong in the database layer.
///
/// Setup faults (`AlreadySet`, `NotSet`, `LockFailed`) come from the
/// connection life cycle; `MissingCatalogColumn` reports a catalog result
/// set without an expected column; `BadParameter` reports an invalid caller
/// parameter by its position; `Schema` and `Data` carry a driver message for
/// a failed DDL or DML statement.
#[derive(Debug)]
pub enum DbError {
    /// A connection was already set on this provider.
    AlreadySet,
    /// No connection has been set on this provider.
    NotSet,
    /// The connection lock could not be acquired.
    LockFailed,
    /// A catalog query result lacked an expected column.
    MissingCatalogColumn,
    /// A caller-supplied parameter at this position is invalid.
    BadParameter { index: i32 },
    /// A CREATE or ALTER statement failed in the driver.
    Schema(String),
    /// An insert, delete or query statement failed in the driver.
    Data(String),
}

} // verus!
