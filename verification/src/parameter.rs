//! The caller-facing run parameters: which backend to use, how many input
//! signals to expect, and the labels that name the connection, the table,
//! the variant and the inputs.

use vstd::prelude::*;
use crate::column::{spec_meta_registry, MetaCol};
use crate::dialect::SqlDialect;
use crate::error::DbError;
use crate::template::TemplateFile;

verus! {

/// The backend selection: three file-backed modes, a raw connection string,
/// and a server database.
#[derive(Debug, PartialEq, Eq, Structural, Clone, Copy)]
pub enum DriverMode {
    MsAccessFile,
    MsExcelFile,
    SqliteFile,
    ConnectionString,
    Postgres,
}

/// The numeric encoding of the driver mode, as the caller supplies it:
/// 1 to 5 in declaration order, everything else refused.
pub open spec fn spec_mode_of_i32(value: int) -> Option<DriverMode> {
    if value == 1 {
        Some(DriverMode::MsAccessFile)
    } else if value == 2 {
        Some(DriverMode::MsExcelFile)
    } else if value == 3 {
        Some(DriverMode::SqliteFile)
    } else if value == 4 {
        Some(DriverMode::ConnectionString)
    } else if value == 5 {
        Some(DriverMode::Postgres)
    } else {
        None
    }
}

/// The fixed ODBC driver name of a file-backed mode.
pub open spec fn spec_driver_name(m: DriverMode) -> Option<Seq<char>> {
    match m {
        DriverMode::MsAccessFile => Some("Microsoft Access Driver (*.mdb, *.accdb)"@),
        DriverMode::MsExcelFile => Some("Microsoft Excel Driver (*.xls, *.xlsx, *.xlsm, *.xlsb)"@),
        DriverMode::SqliteFile => Some("SQLite3 ODBC Driver"@),
        DriverMode::ConnectionString => None,
        DriverMode::Postgres => None,
    }
}

/// The dialect each mode formats its SQL with.
pub open spec fn spec_dialect_of(m: DriverMode) -> SqlDialect {
    match m {
        DriverMode::MsAccessFile => SqlDialect::MsAccess,
        DriverMode::MsExcelFile => SqlDialect::MsExcel,
        DriverMode::SqliteFile => SqlDialect::Sqlite,
        DriverMode::ConnectionString => SqlDialect::Generic,
        DriverMode::Postgres => SqlDialect::Postgres,
    }
}

impl DriverMode {
    /// Decodes the caller's numeric mode; values outside the closed set are
    /// refused.
    pub fn from_i32(value: i32) -> (r: Option<DriverMode>)
        ensures
            r == spec_mode_of_i32(value as int),
    {
        if value == 1 {
            Some(DriverMode::MsAccessFile)
        } else if value == 2 {
            Some(DriverMode::MsExcelFile)
        } else if value == 3 {
            Some(DriverMode::SqliteFile)
        } else if value == 4 {
            Some(DriverMode::ConnectionString)
        } else if value == 5 {
            Some(DriverMode::Postgres)
        } else {
            None
        }
    }

    /// Whether this mode connects to a file that may first have to be
    /// provisioned.
    pub fn is_file_backed(&self) -> (r: bool)
        ensures
            r == (spec_driver_name(*self) is Some),
    {
        match self {
            DriverMode::MsAccessFile | DriverMode::MsExcelFile | DriverMode::SqliteFile => true,
            _ => false,
        }
    }

    /// The formatting policy of this mode's backend.
    pub fn dialect(&self) -> (r: SqlDialect)
        ensures
            r == spec_dialect_of(*self),
    {
        match self {
            DriverMode::MsAccessFile => SqlDialect::MsAccess,
            DriverMode::MsExcelFile => SqlDialect::MsExcel,
            DriverMode::SqliteFile => SqlDialect::Sqlite,
            DriverMode::ConnectionString => SqlDialect::Generic,
            DriverMode::Postgres => SqlDialect::Postgres,
        }
    }

    /// The fixed driver name a file-backed mode's connection string names.
    pub fn get_driver_name(&self) -> (r: Option<&'static str>)
        ensures
            r is Some <==> spec_driver_name(*self) is Some,
            r matches Some(s) ==> Some(s@) == spec_driver_name(*self),
    {
        match self {
            DriverMode::MsAccessFile => Some("Microsoft Access Driver (*.mdb, *.accdb)"),
            DriverMode::MsExcelFile => Some(
                "Microsoft Excel Driver (*.xls, *.xlsx, *.xlsm, *.xlsb)",
            ),
            DriverMode::SqliteFile => Some("SQLite3 ODBC Driver"),
            _ => None,
        }
    }

    /// The template that provisions a missing file for this mode.
    pub fn get_template(&self) -> (r: Option<TemplateFile>)
        ensures
            match *self {
                DriverMode::MsAccessFile => r == Some(TemplateFile::MsAccess),
                DriverMode::MsExcelFile => r == Some(TemplateFile::MsExcel),
                DriverMode::SqliteFile => r == Some(TemplateFile::Sqlite),
                _ => r is None,
            },
    {
        match self {
            DriverMode::MsAccessFile => Some(TemplateFile::MsAccess),
            DriverMode::MsExcelFile => Some(TemplateFile::MsExcel),
            DriverMode::SqliteFile => Some(TemplateFile::Sqlite),
            _ => None,
        }
    }
}

/// One run's validated parameters. The print interval, a floating-point
/// quantity, stays with the caller that reads it; everything the database
/// layer decides on is here.
#[derive(Debug)]
pub struct Parameters {
    pub driver_mode: DriverMode,
    pub num_inputs: i32,
    pub connection_string: String,
    pub table_name: String,
    pub input_names: Vec<String>,
    pub variant_name: String,
    pub primary_keys: Vec<MetaCol>,
}

impl Parameters {
    /// Validates and assembles one run's parameters.
    ///
    /// Exactly three numeric parameters must be given (their count is
    /// `num_params`; the second and third are the driver mode and the input
    /// count, decoded by the caller). The labels are the connection string,
    /// the table name, the variant name, and then one name per input
    /// signal. Each failed check reports the offending parameter position:
    /// 0 for the count, 1 for the mode, 2 for the labels.
    pub fn new(num_params: usize, driver_mode_value: i32, num_inputs: i32, labels: Vec<String>) -> (r:
        Result<Parameters, DbError>)
        ensures
            ({
                let lv = labels@;
                if num_params != 3 {
                    r matches Err(e) && e matches DbError::BadParameter { index } && index == 0
                } else if spec_mode_of_i32(driver_mode_value as int) is None {
                    r matches Err(e) && e matches DbError::BadParameter { index } && index == 1
                } else if lv.len() < 3 || num_inputs < 0 || lv.len() - 3 != num_inputs as int {
                    r matches Err(e) && e matches DbError::BadParameter { index } && index == 2
                } else {
                    r matches Ok(p) && Some(p.driver_mode) == spec_mode_of_i32(
                        driver_mode_value as int,
                    ) && p.num_inputs == num_inputs && p.connection_string == lv[0]
                        && p.table_name == lv[1] && p.variant_name == lv[2] && p.input_names@
                        == lv.subrange(3, lv.len() as int) && p.primary_keys@
                        == spec_meta_registry()
                }
            }),
    {
        if num_params != 3 {
            return Err(DbError::BadParameter { index: 0 });
        }
        let driver_mode = match DriverMode::from_i32(driver_mode_value) {
            Some(m) => m,
            None => {
                return Err(DbError::BadParameter { index: 1 });
            },
        };
        let mut labels = labels;
        if labels.len() < 3 {
            return Err(DbError::BadParameter { index: 2 });
        }
        let input_names = labels.split_off(3);
        if num_inputs < 0 || input_names.len() != num_inputs as usize {
            return Err(DbError::BadParameter { index: 2 });
        }
        let variant_name = match labels.pop() {
            Some(s) => s,
            None => {
                return Err(DbError::BadParameter { index: 2 });
            },
        };
        let table_name = match labels.pop() {
            Some(s) => s,
            None => {
                return Err(DbError::BadParameter { index: 2 });
            },
        };
        let connection_string = match labels.pop() {
            Some(s) => s,
            None => {
                return Err(DbError::BadParameter { index: 2 });
            },
        };
        Ok(
            Parameters {
                driver_mode,
                num_inputs,
                connection_string,
                table_name,
                input_names,
                variant_name,
                primary_keys: MetaCol::all(),
            },
        )
    }
}

} // verus!
