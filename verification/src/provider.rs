//! The connection life cycle and the connection strings of the file-backed
//! backends.
//!
//! A provider owns at most one connection, set exactly once: setting a
//! second one is a reported error, and every operation that needs the
//! connection fails until one is set. The connection type is generic — the
//! driver handle lives with the caller, the state machine lives here.

use vstd::prelude::*;
use vstd::string::StringExecFns;
use crate::error::DbError;
use crate::parameter::{spec_driver_name, DriverMode};
use crate::path::{cleaned_of, clean_path};

verus! {

/// The one-connection provider: `Unset` until `set_connection`, then `Set`
/// for good.
pub struct OdbcProviderImpl<C> {
    /// The one connection, present once `set_connection` has succeeded.
    pub connection: Option<C>,
}

impl<C> OdbcProviderImpl<C> {
    /// The connection, as specifications see it.
    pub open spec fn spec_connection(&self) -> Option<C> {
        self.connection
    }

    /// A fresh provider with no connection.
    pub fn new() -> (r: Self)
        ensures
            r.spec_connection() is None,
    {
        OdbcProviderImpl { connection: None }
    }

    /// Whether a connection has been set.
    pub fn is_connected(&self) -> (r: bool)
        ensures
            r == (self.spec_connection() is Some),
    {
        self.connection.is_some()
    }

    /// Sets the one connection. A provider that already holds one is left
    /// unchanged and the call reports the error instead of replacing it.
    pub fn set_connection(&mut self, connection: C) -> (r: Result<(), DbError>)
        ensures
            old(self).spec_connection() is Some ==> (*final(self) == *old(self) && (r matches Err(e)
                && e is AlreadySet)),
            old(self).spec_connection() is None ==> (final(self).spec_connection()
                == Some(connection) && r matches Ok(_)),
    {
        if self.connection.is_some() {
            return Err(DbError::AlreadySet);
        }
        self.connection = Some(connection);
        Ok(())
    }

    /// Borrows the one connection, failing while none is set.
    pub fn get_connection(&self) -> (r: Result<&C, DbError>)
        ensures
            match self.spec_connection() {
                Some(c) => r matches Ok(rc) && *rc == c,
                None => r matches Err(e) && e is NotSet,
            },
    {
        match &self.connection {
            Some(c) => Ok(c),
            None => Err(DbError::NotSet),
        }
    }
}

/// The connection string of a file-backed mode over an already cleaned
/// path: `Driver={<driver name>};DBQ=<path>;`, with the spreadsheet
/// backend's header and read-write flags appended for that mode.
pub open spec fn spec_connection_string(m: DriverMode, path: Seq<char>) -> Seq<char>
    recommends
        spec_driver_name(m) is Some,
{
    let name = match spec_driver_name(m) {
        Some(n) => n,
        None => Seq::empty(),
    };
    let base = "Driver={"@ + name + "};DBQ="@ + path + ";"@;
    if m is MsExcelFile {
        base + "FIRSTROWHASNAMES=1;READONLY=FALSE;"@
    } else {
        base
    }
}

/// Builds the connection string that opens a file-backed database at the
/// given path, cleaning the path lexically first. Modes that are not
/// file-backed have no driver name and get none.
pub fn build_connection_string(mode: &DriverMode, db_path: &str) -> (r: Option<String>)
    ensures
        r is Some <==> spec_driver_name(*mode) is Some,
        r matches Some(s) ==> s@ == spec_connection_string(*mode, cleaned_of(db_path@)),
{
    let name = match mode.get_driver_name() {
        Some(n) => n,
        None => {
            return None;
        },
    };
    let cleaned = clean_path(db_path);
    let mut s = String::from_str("Driver={");
    s.append(name);
    s.append("};DBQ=");
    s.append(cleaned.as_str());
    s.append(";");
    match mode {
        DriverMode::MsExcelFile => {
            s.append("FIRSTROWHASNAMES=1;READONLY=FALSE;");
        },
        _ => {},
    }
    Some(s)
}

} // verus!
