//! The template boundary for file-backed backends: which bundled empty file
//! provisions a missing database.
//!
//! Writing the payload to disk is the caller's job; the library only says
//! which template a backend uses and what bundled file backs it. The
//! embedded-file backend ships no blob — its valid empty database is an
//! empty file.

use vstd::prelude::*;

verus! {

/// The empty-database template of a file-backed backend.
#[derive(Debug, PartialEq, Eq, Structural, Clone, Copy)]
pub enum TemplateFile {
    MsAccess,
    Sqlite,
    MsExcel,
}

/// The name of the bundled file that holds this template's payload, or
/// `None` when the payload is empty.
pub open spec fn spec_bundled_file_name(t: TemplateFile) -> Option<Seq<char>> {
    match t {
        TemplateFile::MsAccess => Some("ms-access.accdb"@),
        TemplateFile::Sqlite => None,
        TemplateFile::MsExcel => Some("ms-excel.xlsx"@),
    }
}

impl TemplateFile {
    /// The bundled file this template is read from; `None` means the
    /// template's payload is empty and the target file is simply created.
    pub fn bundled_file_name(&self) -> (r: Option<&'static str>)
        ensures
            r is Some <==> spec_bundled_file_name(*self) is Some,
            r matches Some(s) ==> Some(s@) == spec_bundled_file_name(*self),
    {
        match self {
            TemplateFile::MsAccess => Some("ms-access.accdb"),
            TemplateFile::Sqlite => None,
            TemplateFile::MsExcel => Some("ms-excel.xlsx"),
        }
    }
}

} // verus!
