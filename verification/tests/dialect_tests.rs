use simdb::datatype::{ColDataType, ColDef};
use simdb::dialect::SqlDialect;

#[test]
fn dialect_type_names() {
    let access = SqlDialect::MsAccess;
    let excel = SqlDialect::MsExcel;
    let sqlite = SqlDialect::Sqlite;
    let postgres = SqlDialect::Postgres;
    let generic = SqlDialect::Generic;

    assert_eq!(access.get_text_type(), "TEXT");
    assert_eq!(excel.get_text_type(), "TEXT");

    assert_eq!(access.get_integer_type(), "INTEGER");
    assert_eq!(excel.get_integer_type(), "NUMBER");
    assert_eq!(sqlite.get_integer_type(), "INTEGER");

    assert_eq!(access.get_decimal_type(), "FLOAT");
    assert_eq!(excel.get_decimal_type(), "NUMBER");
    assert_eq!(sqlite.get_decimal_type(), "REAL");
    assert_eq!(postgres.get_decimal_type(), "DOUBLE PRECISION");
    assert_eq!(generic.get_decimal_type(), "DOUBLE");

    assert_eq!(access.get_datetime_type(), "DATETIME");
    assert_eq!(postgres.get_datetime_type(), "TIMESTAMP");
}

#[test]
fn dialect_capabilities() {
    assert!(SqlDialect::MsAccess.support_nullability());
    assert!(SqlDialect::MsAccess.support_primary_key());
    assert!(!SqlDialect::MsExcel.support_nullability());
    assert!(!SqlDialect::MsExcel.support_primary_key());
    assert!(SqlDialect::Sqlite.support_nullability());
    assert!(SqlDialect::Postgres.support_primary_key());
    assert!(SqlDialect::Generic.support_primary_key());
}

#[test]
fn format_identifier_default_brackets() {
    let d = SqlDialect::Generic;
    assert_eq!(d.format_identifier("Name"), "[Name]");
    assert_eq!(d.format_identifier(""), "[]");
}

#[test]
fn format_identifier_doubles_embedded_quote() {
    // A name holding one embedded closing bracket: the bracket is doubled,
    // so a reader of the doubled-quote convention maps it back.
    let d = SqlDialect::Generic;
    assert_eq!(d.format_identifier("a]b"), "[a]]b]");

    let p = SqlDialect::Postgres;
    assert_eq!(p.format_identifier("a\"b"), "\"a\"\"b\"");
    assert_eq!(p.format_identifier("plain"), "\"plain\"");
}

#[test]
fn col_def_str_per_dialect() {
    let x = ColDef::new("X", ColDataType::Number { decimal: true }, true, false);
    assert_eq!(SqlDialect::MsAccess.get_col_def_str(&x), "[X] FLOAT NOT NULL");
    // The spreadsheet backend supports no nullability: no NOT NULL clause.
    assert_eq!(SqlDialect::MsExcel.get_col_def_str(&x), "[X] NUMBER");
    assert_eq!(SqlDialect::Postgres.get_col_def_str(&x), "\"X\" DOUBLE PRECISION NOT NULL");

    let n = ColDef::new("N", ColDataType::Number { decimal: false }, false, false);
    assert_eq!(SqlDialect::Sqlite.get_col_def_str(&n), "[N] INTEGER");

    let t = ColDef::new("T", ColDataType::Text, false, false);
    assert_eq!(SqlDialect::Generic.get_col_def_str(&t), "[T] TEXT");

    let dt = ColDef::new("At", ColDataType::DateTime, true, false);
    assert_eq!(SqlDialect::Generic.get_col_def_str(&dt), "[At] DATETIME NOT NULL");
}

#[test]
fn primary_key_clause() {
    let cols = vec![
        ColDef::new("SimTime", ColDataType::Number { decimal: true }, true, true),
        ColDef::new("Variant", ColDataType::Text, true, true),
        ColDef::new("X", ColDataType::Number { decimal: true }, true, false),
    ];
    assert_eq!(
        SqlDialect::MsAccess.get_primary_key_str(&cols),
        "PRIMARY KEY ([SimTime], [Variant])"
    );
    // A backend without primary-key support yields no clause at all.
    assert_eq!(SqlDialect::MsExcel.get_primary_key_str(&cols), "");

    let no_keys = vec![ColDef::new("X", ColDataType::Text, false, false)];
    assert_eq!(SqlDialect::MsAccess.get_primary_key_str(&no_keys), "");
}
