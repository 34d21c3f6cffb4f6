//! Verified builders for every SQL statement the adapter issues: CREATE
//! TABLE, ALTER TABLE … ADD COLUMN, INSERT, DELETE by variant label, and
//! SELECT.
//!
//! Values inserted by `insert_query` are always bound positionally as
//! driver parameters — the statement text only ever carries `?`
//! placeholders for them. The delete-by-label statement substitutes the
//! label into the text, as the adapter has always done; the caller is
//! responsible for the label's content.

use vstd::prelude::*;
use vstd::string::StringExecFns;
use crate::column::{spec_meta_name, MetaCol};
use crate::datatype::{ColDef, ColDefV};
use crate::dialect::{spec_col_def_str, spec_format_identifier, spec_primary_key_str, SqlDialect};
use crate::strutil::{join_strings, spec_join};

verus! {

/// The fragments with the empty ones dropped.
pub open spec fn spec_nonempty(parts: Seq<Seq<char>>) -> Seq<Seq<char>>
    decreases parts.len(),
{
    if parts.len() == 0 {
        Seq::empty()
    } else {
        spec_nonempty(parts.drop_last()) + (if parts.last().len() > 0 {
            seq![parts.last()]
        } else {
            Seq::empty()
        })
    }
}

fn filter_nonempty(parts: &Vec<String>) -> (r: Vec<String>)
    ensures
        r.deep_view() == spec_nonempty(parts.deep_view()),
{
    let mut r: Vec<String> = Vec::new();
    let mut i: usize = 0;
    while i < parts.len()
        invariant
            i <= parts.len(),
            r.deep_view() == spec_nonempty(parts.deep_view().subrange(0, i as int)),
        decreases parts.len() - i,
    {
        if parts[i].as_str().unicode_len() > 0 {
            r.push(parts[i].clone());
        }
        proof {
            let pv = parts.deep_view();
            assert(pv.subrange(0, i + 1).drop_last() =~= pv.subrange(0, i as int));
            assert(pv.subrange(0, i + 1).last() == pv[i as int]);
            assert(r.deep_view() =~= spec_nonempty(pv.subrange(0, i + 1)));
        }
        i += 1;
    }
    proof {
        assert(parts.deep_view().subrange(0, parts.len() as int) =~= parts.deep_view());
    }
    r
}

fn format_identifiers(d: &SqlDialect, names: &Vec<String>) -> (r: Vec<String>)
    ensures
        r.deep_view() == names.deep_view().map_values(
            |n: Seq<char>| spec_format_identifier(*d, n),
        ),
{
    let ghost dd = *d;
    let mut r: Vec<String> = Vec::new();
    let mut i: usize = 0;
    while i < names.len()
        invariant
            i <= names.len(),
            dd == *d,
            r@.len() == i,
            forall|k: int|
                0 <= k < i ==> #[trigger] r@[k]@ == spec_format_identifier(dd, names@[k]@),
        decreases names.len() - i,
    {
        r.push(d.format_identifier(names[i].as_str()));
        i += 1;
    }
    proof {
        assert(r.deep_view() =~~= names.deep_view().map_values(
            |n: Seq<char>| spec_format_identifier(dd, n),
        ));
    }
    r
}

/// The items inside a CREATE TABLE's parentheses: the caller's extra DDL
/// fragments, then one fragment per desired column in order, then the
/// primary-key clause — empty fragments dropped.
pub open spec fn spec_create_items(
    d: SqlDialect,
    extra: Seq<Seq<char>>,
    cols: Seq<ColDefV>,
) -> Seq<Seq<char>> {
    spec_nonempty(
        extra + cols.map_values(|c: ColDefV| spec_col_def_str(d, c)) + seq![
            spec_primary_key_str(d, cols),
        ],
    )
}

/// The CREATE TABLE statement for a table that does not exist yet.
pub open spec fn spec_create_table_query(
    d: SqlDialect,
    table: Seq<char>,
    extra: Seq<Seq<char>>,
    cols: Seq<ColDefV>,
) -> Seq<char> {
    "CREATE TABLE "@ + table + " ("@ + spec_join(spec_create_items(d, extra, cols), ", "@) + ")"@
}

/// Builds the CREATE TABLE statement: extra fragments first, then every
/// desired column's DDL in order, then the primary-key clause, comma-joined
/// with empty fragments dropped.
pub fn create_table_query(
    d: &SqlDialect,
    table_name: &str,
    creation_extra_cols: &Vec<String>,
    cols: &Vec<ColDef>,
) -> (r: String)
    ensures
        r@ == spec_create_table_query(
            *d,
            table_name@,
            creation_extra_cols.deep_view(),
            cols.deep_view(),
        ),
{
    let ghost dd = *d;
    let ghost ne = creation_extra_cols@.len() as int;
    let mut parts: Vec<String> = Vec::new();
    let mut i: usize = 0;
    while i < creation_extra_cols.len()
        invariant
            i <= creation_extra_cols.len(),
            parts@.len() == i,
            forall|k: int| 0 <= k < i ==> #[trigger] parts@[k]@ == creation_extra_cols@[k]@,
        decreases creation_extra_cols.len() - i,
    {
        parts.push(creation_extra_cols[i].clone());
        i += 1;
    }
    let mut j: usize = 0;
    while j < cols.len()
        invariant
            j <= cols.len(),
            dd == *d,
            ne == creation_extra_cols@.len(),
            parts@.len() == ne + j,
            forall|k: int| 0 <= k < ne ==> #[trigger] parts@[k]@ == creation_extra_cols@[k]@,
            forall|k: int|
                ne <= k < ne + j ==> #[trigger] parts@[k]@ == spec_col_def_str(
                    dd,
                    cols@[k - ne]@,
                ),
        decreases cols.len() - j,
    {
        parts.push(d.get_col_def_str(&cols[j]));
        j += 1;
    }
    parts.push(d.get_primary_key_str(cols));
    proof {
        assert(parts.deep_view() =~~= creation_extra_cols.deep_view() + cols.deep_view().map_values(
            |c: ColDefV| spec_col_def_str(dd, c),
        ) + seq![spec_primary_key_str(dd, cols.deep_view())]);
    }
    let items = filter_nonempty(&parts);
    let joined = join_strings(&items, ", ");
    let mut r = String::from_str("CREATE TABLE ");
    r.append(table_name);
    r.append(" (");
    r.append(joined.as_str());
    r.append(")");
    r
}

/// The ALTER statement that adds one missing column.
pub open spec fn spec_alter_table_query(d: SqlDialect, table: Seq<char>, c: ColDefV) -> Seq<char> {
    "ALTER TABLE "@ + table + " ADD COLUMN "@ + spec_col_def_str(d, c)
}

/// Builds the ALTER TABLE … ADD COLUMN statement for one column.
pub fn alter_table_query(d: &SqlDialect, table_name: &str, col_def: &ColDef) -> (r: String)
    ensures
        r@ == spec_alter_table_query(*d, table_name@, col_def@),
{
    let mut r = String::from_str("ALTER TABLE ");
    r.append(table_name);
    r.append(" ADD COLUMN ");
    let col = d.get_col_def_str(col_def);
    r.append(col.as_str());
    r
}

/// The INSERT statement over the given column names: quoted names in order,
/// one positional `?` placeholder per column.
pub open spec fn spec_insert_query(
    d: SqlDialect,
    table: Seq<char>,
    names: Seq<Seq<char>>,
) -> Seq<char> {
    "INSERT INTO "@ + table + " ("@ + spec_join(
        names.map_values(|n: Seq<char>| spec_format_identifier(d, n)),
        ", "@,
    ) + ") VALUES ("@ + spec_join(Seq::new(names.len(), |i: int| "?"@), ", "@) + ")"@
}

/// Builds the parameterized INSERT statement; values are never interpolated
/// into the text.
pub fn insert_query(d: &SqlDialect, table: &str, col_names: &Vec<String>) -> (r: String)
    ensures
        r@ == spec_insert_query(*d, table@, col_names.deep_view()),
{
    let formatted = format_identifiers(d, col_names);
    let names_joined = join_strings(&formatted, ", ");
    let mut placeholders: Vec<String> = Vec::new();
    let mut i: usize = 0;
    while i < col_names.len()
        invariant
            i <= col_names.len(),
            placeholders@.len() == i,
            forall|k: int| 0 <= k < i ==> #[trigger] placeholders@[k]@ == "?"@,
        decreases col_names.len() - i,
    {
        placeholders.push(String::from_str("?"));
        i += 1;
    }
    proof {
        assert(placeholders.deep_view() =~~= Seq::new(col_names@.len(), |k: int| "?"@));
    }
    let ph_joined = join_strings(&placeholders, ", ");
    let mut r = String::from_str("INSERT INTO ");
    r.append(table);
    r.append(" (");
    r.append(names_joined.as_str());
    r.append(") VALUES (");
    r.append(ph_joined.as_str());
    r.append(")");
    r
}

/// The DELETE statement that clears one variant label's rows.
pub open spec fn spec_delete_variant_query(
    d: SqlDialect,
    table: Seq<char>,
    variant: Seq<char>,
) -> Seq<char> {
    "DELETE FROM "@ + table + " WHERE "@ + spec_format_identifier(
        d,
        spec_meta_name(MetaCol::Variant),
    ) + " = '"@ + variant + "'"@
}

/// Builds the DELETE statement used to clear a previous run's rows for the
/// same variant label.
pub fn delete_variant_query(d: &SqlDialect, table: &str, variant_name: &str) -> (r: String)
    ensures
        r@ == spec_delete_variant_query(*d, table@, variant_name@),
{
    let mut r = String::from_str("DELETE FROM ");
    r.append(table);
    r.append(" WHERE ");
    let col = d.format_identifier(MetaCol::Variant.as_str());
    r.append(col.as_str());
    r.append(" = '");
    r.append(variant_name);
    r.append("'");
    r
}

/// The SELECT statement over the given columns, with an optional trailing
/// suffix (a WHERE or ORDER BY fragment) separated by one space.
pub open spec fn spec_select_query(
    d: SqlDialect,
    table: Seq<char>,
    cols: Seq<Seq<char>>,
    additional: Option<Seq<char>>,
) -> Seq<char> {
    let base = "SELECT "@ + spec_join(
        cols.map_values(|n: Seq<char>| spec_format_identifier(d, n)),
        ", "@,
    ) + " FROM "@ + table;
    match additional {
        Some(extra) => base + " "@ + extra,
        None => base,
    }
}

/// Builds the SELECT statement for a query over named columns.
pub fn select_query(
    d: &SqlDialect,
    table: &str,
    cols: &Vec<String>,
    additional_conditions: &Option<String>,
) -> (r: String)
    ensures
        r@ == spec_select_query(
            *d,
            table@,
            cols.deep_view(),
            match additional_conditions {
                Some(s) => Some(s@),
                None => None,
            },
        ),
{
    let formatted = format_identifiers(d, cols);
    let joined = join_strings(&formatted, ", ");
    let mut r = String::from_str("SELECT ");
    r.append(joined.as_str());
    r.append(" FROM ");
    r.append(table);
    match additional_conditions {
        Some(extra) => {
            r.append(" ");
            r.append(extra.as_str());
        },
        None => {},
    }
    r
}

} // verus!
