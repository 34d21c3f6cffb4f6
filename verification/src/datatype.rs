//! The column model: semantic column data types and column definitions.
//!
//! A `ColDef` is identified by its name alone: two definitions with the same
//! name but different type or nullability are the same column for set
//! operations. This is deliberate — the schema reconciler removes a column
//! from its "still needed" set by name only and never compares types.

use vstd::prelude::*;

verus! {

/// The semantic data type of a column, independent of any backend.
#[derive(Debug, PartialEq, Eq, Structural, Clone, Copy)]
pub enum ColDataType {
    Text,
    Number { decimal: bool },
    DateTime,
}

/// One desired column: name, semantic type, nullability, primary-key
/// membership.
#[derive(Debug)]
pub struct ColDef {
    pub name: String,
    pub data_type: ColDataType,
    pub not_null: bool,
    pub primary_key: bool,
}

/// The mathematical value of a `ColDef`: the name as a character sequence
/// beside the plain fields.
pub struct ColDefV {
    pub name: Seq<char>,
    pub data_type: ColDataType,
    pub not_null: bool,
    pub primary_key: bool,
}

impl View for ColDef {
    type V = ColDefV;

    open spec fn view(&self) -> ColDefV {
        ColDefV {
            name: self.name@,
            data_type: self.data_type,
            not_null: self.not_null,
            primary_key: self.primary_key,
        }
    }
}

impl DeepView for ColDef {
    type V = ColDefV;

    open spec fn deep_view(&self) -> ColDefV {
        self.view()
    }
}

impl ColDef {
    pub fn new(name: &str, data_type: ColDataType, not_null: bool, primary_key: bool) -> (r: Self)
        ensures
            r@ == (ColDefV { name: name@, data_type, not_null, primary_key }),
    {
        ColDef { name: name.to_owned(), data_type, not_null, primary_key }
    }
}

impl Clone for ColDef {
    fn clone(&self) -> (r: Self)
        ensures
            r@ == self@,
    {
        ColDef {
            name: self.name.clone(),
            data_type: self.data_type,
            not_null: self.not_null,
            primary_key: self.primary_key,
        }
    }
}

impl PartialEq for ColDef {
    fn eq(&self, other: &Self) -> bool {
        self.name == other.name
    }
}

impl vstd::std_specs::cmp::PartialEqSpecImpl for ColDef {
    open spec fn obeys_eq_spec() -> bool {
        true
    }

    open spec fn eq_spec(&self, other: &ColDef) -> bool {
        self.name@ == other.name@
    }
}

/// Columns are identified by name alone: two definitions with equal names
/// compare equal whatever their type, nullability or key membership say.
pub proof fn lemma_col_def_eq_is_name_eq(a: ColDef, b: ColDef)
    ensures
        vstd::std_specs::cmp::PartialEqSpec::eq_spec(&a, &b) <==> a@.name == b@.name,
{
}

/// The type tag a driver reports for a result column. Only the tag matters
/// to the decoder; sizes and precisions are dropped.
#[derive(Debug, PartialEq, Eq, Structural, Clone, Copy)]
pub enum SqlDataType {
    Unknown,
    Char,
    WChar,
    Numeric,
    Decimal,
    Integer,
    SmallInt,
    Float,
    Real,
    Double,
    Varchar,
    WVarchar,
    LongVarchar,
    WLongVarchar,
    Date,
    Time,
    Timestamp,
    BigInt,
    TinyInt,
    Bit,
    Varbinary,
    LongVarbinary,
    Binary,
    Other,
}

pub open spec fn spec_is_text_like(t: SqlDataType) -> bool {
    t is Char || t is LongVarchar || t is Varchar || t is WChar || t is WVarchar
}

pub open spec fn spec_is_numeric(t: SqlDataType) -> bool {
    t is TinyInt || t is SmallInt || t is Integer || t is BigInt || t is Real || t is Float
        || t is Double || t is Decimal || t is Numeric
}

pub open spec fn spec_is_date_time(t: SqlDataType) -> bool {
    t is Date || t is Timestamp
}

pub open spec fn spec_is_time(t: SqlDataType) -> bool {
    t is Time
}

pub open spec fn spec_is_binary(t: SqlDataType) -> bool {
    t is Binary || t is Varbinary || t is LongVarbinary
}

impl SqlDataType {
    /// Whether values of this tag decode as text.
    pub fn is_text_like(&self) -> (r: bool)
        ensures
            r == spec_is_text_like(*self),
    {
        match self {
            SqlDataType::Char
            | SqlDataType::LongVarchar
            | SqlDataType::Varchar
            | SqlDataType::WChar
            | SqlDataType::WVarchar => true,
            _ => false,
        }
    }

    /// Whether values of this tag decode as numbers.
    pub fn is_numeric(&self) -> (r: bool)
        ensures
            r == spec_is_numeric(*self),
    {
        match self {
            SqlDataType::TinyInt
            | SqlDataType::SmallInt
            | SqlDataType::Integer
            | SqlDataType::BigInt
            | SqlDataType::Real
            | SqlDataType::Float
            | SqlDataType::Double
            | SqlDataType::Decimal
            | SqlDataType::Numeric => true,
            _ => false,
        }
    }

    /// Whether values of this tag decode as a date or a timestamp.
    pub fn is_date_time(&self) -> (r: bool)
        ensures
            r == spec_is_date_time(*self),
    {
        match self {
            SqlDataType::Date | SqlDataType::Timestamp => true,
            _ => false,
        }
    }

    /// Whether values of this tag decode as a time of day.
    pub fn is_time(&self) -> (r: bool)
        ensures
            r == spec_is_time(*self),
    {
        match self {
            SqlDataType::Time => true,
            _ => false,
        }
    }

    /// Whether values of this tag are raw binary.
    pub fn is_binary(&self) -> (r: bool)
        ensures
            r == spec_is_binary(*self),
    {
        match self {
            SqlDataType::Binary | SqlDataType::Varbinary | SqlDataType::LongVarbinary => true,
            _ => false,
        }
    }
}

} // verus!
