//! The schema reconciler: given a desired column set and what the catalog
//! reports, decide the minimal additive DDL that converges the table.
//!
//! The decision is pure. The caller queries the catalog (table names for
//! existence, column names for the diff), hands the plain name lists in,
//! and executes the returned statements; nothing here retypes, resizes or
//! drops an existing column.

use vstd::prelude::*;
use vstd::string::StringExecFns;
use crate::column::{spec_meta_def, MetaCol};
use crate::datatype::{ColDef, ColDefV};
use crate::dialect::SqlDialect;
use crate::error::DbError;
use crate::statements::{
    alter_table_query,
    create_table_query,
    spec_alter_table_query,
    spec_create_table_query,
};

verus! {

/// Whether some column in the sequence carries this name.
pub open spec fn spec_contains_name(cols: Seq<ColDefV>, name: Seq<char>) -> bool {
    exists|k: int| 0 <= k < cols.len() && cols[k].name == name
}

/// Whether the string sequence holds this exact string (case-sensitive).
pub open spec fn spec_contains_str(names: Seq<Seq<char>>, s: Seq<char>) -> bool {
    exists|k: int| 0 <= k < names.len() && names[k] == s
}

/// No two columns share a name.
pub open spec fn spec_unique_names(cols: Seq<ColDefV>) -> bool {
    forall|p: int, q: int| 0 <= p < q < cols.len() ==> cols[p].name != cols[q].name
}

/// The names of the columns, in order.
pub open spec fn spec_names_of(cols: Seq<ColDefV>) -> Seq<Seq<char>> {
    cols.map_values(|c: ColDefV| c.name)
}

/// Whether some column of this exact name is already accumulated; membership
/// looks at the name alone.
pub fn contains_name(cols: &Vec<ColDef>, name: &String) -> (r: bool)
    ensures
        r == spec_contains_name(cols.deep_view(), name@),
{
    let mut i: usize = 0;
    while i < cols.len()
        invariant
            i <= cols.len(),
            forall|k: int| 0 <= k < i ==> cols.deep_view()[k].name != name@,
        decreases cols.len() - i,
    {
        if cols[i].name == *name {
            proof {
                assert(cols.deep_view()[i as int].name == name@);
            }
            return true;
        }
        i += 1;
    }
    false
}

/// Whether the list holds this exact string; the existence check over the
/// catalog's table names is this comparison and nothing looser.
pub fn contains_str(names: &Vec<String>, s: &String) -> (r: bool)
    ensures
        r == spec_contains_str(names.deep_view(), s@),
{
    let mut i: usize = 0;
    while i < names.len()
        invariant
            i <= names.len(),
            forall|k: int| 0 <= k < i ==> names.deep_view()[k] != s@,
        decreases names.len() - i,
    {
        if names[i] == *s {
            proof {
                assert(names.deep_view()[i as int] == s@);
            }
            return true;
        }
        i += 1;
    }
    false
}

/// Whether a catalog's table listing shows the table, by exact,
/// case-sensitive name match.
pub fn table_exists(catalog_tables: &Vec<String>, table_name: &String) -> (r: bool)
    ensures
        r == spec_contains_str(catalog_tables.deep_view(), table_name@),
{
    contains_str(catalog_tables, table_name)
}

/// Locates a named column in a result set's header row, as the catalog
/// contract requires: the first exact match, reported one-based.
pub fn find_col_index(col_names: &Vec<String>, col_name: &String) -> (r: Option<usize>)
    ensures
        match r {
            Some(i) => 1 <= i <= col_names@.len() && col_names.deep_view()[i - 1] == col_name@
                && forall|k: int| 0 <= k < i - 1 ==> col_names.deep_view()[k] != col_name@,
            None => forall|k: int|
                0 <= k < col_names@.len() ==> col_names.deep_view()[k] != col_name@,
        },
{
    let mut i: usize = 0;
    while i < col_names.len()
        invariant
            i <= col_names.len(),
            forall|k: int| 0 <= k < i ==> col_names.deep_view()[k] != col_name@,
        decreases col_names.len() - i,
    {
        if col_names[i] == *col_name {
            return Some(i + 1);
        }
        i += 1;
    }
    None
}

/// Locates a catalog column that the catalog contract requires: its absence
/// from the result set's header is a fatal configuration error.
pub fn required_col_index(col_names: &Vec<String>, col_name: &String) -> (r: Result<
    usize,
    DbError,
>)
    ensures
        match r {
            Ok(i) => 1 <= i <= col_names@.len() && col_names.deep_view()[i - 1] == col_name@
                && forall|k: int| 0 <= k < i - 1 ==> col_names.deep_view()[k] != col_name@,
            Err(e) => e is MissingCatalogColumn && forall|k: int|
                0 <= k < col_names@.len() ==> col_names.deep_view()[k] != col_name@,
        },
{
    match find_col_index(col_names, col_name) {
        Some(i) => Ok(i),
        None => Err(DbError::MissingCatalogColumn),
    }
}

/// One dedup step: the column joins the accumulated set unless its name is
/// already taken.
pub open spec fn spec_dedup(acc: Seq<ColDefV>, rest: Seq<ColDefV>) -> Seq<ColDefV>
    decreases rest.len(),
{
    if rest.len() == 0 {
        acc
    } else if spec_contains_name(acc, rest[0].name) {
        spec_dedup(acc, rest.drop_first())
    } else {
        spec_dedup(acc.push(rest[0]), rest.drop_first())
    }
}

/// The two meta columns, in registry order.
pub open spec fn spec_meta_defs() -> Seq<ColDefV> {
    seq![spec_meta_def(MetaCol::SimulationTime), spec_meta_def(MetaCol::Variant)]
}

/// The desired column set: meta columns first, then the caller's columns in
/// order, duplicated names dropped (meta columns take precedence).
pub open spec fn spec_desired(user: Seq<ColDefV>) -> Seq<ColDefV> {
    spec_dedup(spec_meta_defs(), user)
}

proof fn lemma_dedup_prefix(acc: Seq<ColDefV>, rest: Seq<ColDefV>)
    ensures
        spec_dedup(acc, rest).len() >= acc.len(),
        forall|k: int| 0 <= k < acc.len() ==> spec_dedup(acc, rest)[k] == acc[k],
    decreases rest.len(),
{
    if rest.len() > 0 {
        if spec_contains_name(acc, rest[0].name) {
            lemma_dedup_prefix(acc, rest.drop_first());
        } else {
            lemma_dedup_prefix(acc.push(rest[0]), rest.drop_first());
            assert forall|k: int| 0 <= k < acc.len() implies spec_dedup(acc, rest)[k]
                == acc[k] by {
                assert(spec_dedup(acc.push(rest[0]), rest.drop_first())[k] == acc.push(
                    rest[0],
                )[k]);
                assert(acc.push(rest[0])[k] == acc[k]);
            }
        }
    }
}

proof fn lemma_dedup_unique(acc: Seq<ColDefV>, rest: Seq<ColDefV>)
    requires
        spec_unique_names(acc),
    ensures
        spec_unique_names(spec_dedup(acc, rest)),
    decreases rest.len(),
{
    if rest.len() > 0 {
        if spec_contains_name(acc, rest[0].name) {
            lemma_dedup_unique(acc, rest.drop_first());
        } else {
            assert(spec_unique_names(acc.push(rest[0])));
            lemma_dedup_unique(acc.push(rest[0]), rest.drop_first());
        }
    }
}

/// Dedup keeps exactly the union of the names: a name is in the deduplicated
/// set iff it was accumulated already or occurs in the rest. Membership is
/// decided by name alone, never by type or nullability.
pub proof fn lemma_dedup_names(acc: Seq<ColDefV>, rest: Seq<ColDefV>, name: Seq<char>)
    ensures
        spec_contains_name(spec_dedup(acc, rest), name) <==> (spec_contains_name(acc, name)
            || spec_contains_name(rest, name)),
    decreases rest.len(),
{
    if rest.len() == 0 {
        assert(!spec_contains_name(rest, name));
    } else {
        let tail = rest.drop_first();
        assert(spec_contains_name(rest, name) <==> (rest[0].name == name || spec_contains_name(
            tail,
            name,
        ))) by {
            if spec_contains_name(rest, name) {
                let k = choose|k: int| 0 <= k < rest.len() && rest[k].name == name;
                if k > 0 {
                    assert(tail[k - 1].name == name);
                }
            }
            if spec_contains_name(tail, name) {
                let k = choose|k: int| 0 <= k < tail.len() && tail[k].name == name;
                assert(rest[k + 1].name == name);
            }
        }
        if spec_contains_name(acc, rest[0].name) {
            lemma_dedup_names(acc, tail, name);
        } else {
            lemma_dedup_names(acc.push(rest[0]), tail, name);
            assert(spec_contains_name(acc.push(rest[0]), name) <==> (spec_contains_name(acc, name)
                || rest[0].name == name)) by {
                if spec_contains_name(acc, name) {
                    let k = choose|k: int| 0 <= k < acc.len() && acc[k].name == name;
                    assert(acc.push(rest[0])[k].name == name);
                }
                if rest[0].name == name {
                    assert(acc.push(rest[0])[acc.len() as int].name == name);
                }
                if spec_contains_name(acc.push(rest[0]), name) {
                    let k = choose|k: int|
                        0 <= k < acc.push(rest[0]).len() && acc.push(rest[0])[k].name == name;
                    if k < acc.len() {
                        assert(acc[k].name == name);
                    }
                }
            }
        }
    }
}

/// The meta columns always occupy the leading positions of a desired
/// column set — and so of a newly created table's column list — in fixed
/// registry order, whatever user columns are supplied.
pub proof fn lemma_meta_cols_lead(user: Seq<ColDefV>)
    ensures
        spec_desired(user).len() >= 2,
        spec_desired(user)[0] == spec_meta_def(MetaCol::SimulationTime),
        spec_desired(user)[1] == spec_meta_def(MetaCol::Variant),
{
    lemma_dedup_prefix(spec_meta_defs(), user);
}

/// Builds the desired column set for a table: the meta columns in registry
/// order, then the caller's columns in order, dropping any whose name is
/// already taken. The meta columns always occupy the leading positions,
/// whatever the caller supplies, and no two columns of the result share a
/// name.
pub fn build_desired_cols(cols: Vec<ColDef>) -> (r: Vec<ColDef>)
    ensures
        r.deep_view() == spec_desired(cols.deep_view()),
        r@.len() >= 2,
        r.deep_view()[0] == spec_meta_def(MetaCol::SimulationTime),
        r.deep_view()[1] == spec_meta_def(MetaCol::Variant),
        spec_unique_names(r.deep_view()),
{
    let mut desired: Vec<ColDef> = Vec::new();
    let metas = MetaCol::all();
    let mut m: usize = 0;
    while m < metas.len()
        invariant
            m <= metas@.len(),
            metas@ == crate::column::spec_meta_registry(),
            desired@.len() == m,
            forall|k: int| 0 <= k < m ==> #[trigger] desired@[k]@ == spec_meta_def(metas@[k]),
        decreases metas.len() - m,
    {
        desired.push(metas[m].col_def());
        m += 1;
    }
    proof {
        assert(desired.deep_view() =~= spec_meta_defs());
    }
    let ghost user = cols.deep_view();
    proof {
        assert(user.subrange(0, user.len() as int) =~= user);
    }
    let mut i: usize = 0;
    while i < cols.len()
        invariant
            i <= cols.len(),
            user == cols.deep_view(),
            spec_dedup(desired.deep_view(), user.subrange(i as int, user.len() as int))
                == spec_desired(user),
        decreases cols.len() - i,
    {
        let ghost pre = desired.deep_view();
        let ghost rest = user.subrange(i as int, user.len() as int);
        proof {
            assert(rest[0] == user[i as int]);
            assert(rest.drop_first() =~= user.subrange(i + 1, user.len() as int));
        }
        if !contains_name(&desired, &cols[i].name) {
            desired.push(cols[i].clone());
            proof {
                assert(desired.deep_view() =~= pre.push(user[i as int]));
            }
        }
        i += 1;
    }
    proof {
        assert(user.subrange(user.len() as int, user.len() as int) =~= Seq::<ColDefV>::empty());
        lemma_dedup_prefix(spec_meta_defs(), user);
        assert(spec_unique_names(spec_meta_defs())) by {
            assert(spec_meta_def(MetaCol::SimulationTime).name[0] == 'S');
            assert(spec_meta_def(MetaCol::Variant).name[0] == 'V');
        }
        lemma_dedup_unique(spec_meta_defs(), user);
    }
    desired
}

/// The desired columns whose names the catalog does not show yet, in desired
/// order. A column already present by name is dropped from the plan whatever
/// its catalogued type; columns present but not desired are untouched.
pub open spec fn spec_missing(desired: Seq<ColDefV>, existing: Seq<Seq<char>>) -> Seq<ColDefV>
    decreases desired.len(),
{
    if desired.len() == 0 {
        Seq::empty()
    } else {
        spec_missing(desired.drop_last(), existing) + (if spec_contains_str(
            existing,
            desired.last().name,
        ) {
            Seq::empty()
        } else {
            seq![desired.last()]
        })
    }
}

/// Filters the desired columns down to the ones the catalog does not show,
/// comparing by name only.
pub fn missing_columns(desired: &Vec<ColDef>, existing_columns: &Vec<String>) -> (r: Vec<ColDef>)
    ensures
        r.deep_view() == spec_missing(desired.deep_view(), existing_columns.deep_view()),
{
    let mut r: Vec<ColDef> = Vec::new();
    let mut i: usize = 0;
    while i < desired.len()
        invariant
            i <= desired.len(),
            r.deep_view() == spec_missing(
                desired.deep_view().subrange(0, i as int),
                existing_columns.deep_view(),
            ),
        decreases desired.len() - i,
    {
        let ghost pre = r.deep_view();
        if !contains_str(existing_columns, &desired[i].name) {
            r.push(desired[i].clone());
            proof {
                assert(r.deep_view() =~= pre.push(desired.deep_view()[i as int]));
            }
        }
        proof {
            let dv = desired.deep_view();
            assert(dv.subrange(0, i + 1).drop_last() =~= dv.subrange(0, i as int));
            assert(dv.subrange(0, i + 1).last() == dv[i as int]);
            assert(r.deep_view() =~= spec_missing(
                dv.subrange(0, i + 1),
                existing_columns.deep_view(),
            ));
        }
        i += 1;
    }
    proof {
        assert(desired.deep_view().subrange(0, desired@.len() as int) =~= desired.deep_view());
    }
    r
}

/// Set membership in the reconciliation diff is decided by name alone: two
/// desired columns with equal names but different types, nullability or key
/// membership are dropped or kept together, whatever catalog they are held
/// against.
pub proof fn lemma_diff_by_name_only(existing: Seq<Seq<char>>, a: ColDefV, b: ColDefV)
    requires
        a.name == b.name,
    ensures
        spec_missing(seq![a], existing) == (if spec_contains_str(existing, a.name) {
            Seq::<ColDefV>::empty()
        } else {
            seq![a]
        }),
        (spec_missing(seq![a], existing) == Seq::<ColDefV>::empty()) == (spec_missing(
            seq![b],
            existing,
        ) == Seq::<ColDefV>::empty()),
{
    reveal_with_fuel(spec_missing, 2);
    let sa = seq![a];
    let sb = seq![b];
    assert(sa.drop_last() =~= Seq::<ColDefV>::empty());
    assert(sb.drop_last() =~= Seq::<ColDefV>::empty());
    assert(spec_missing(sa, existing) =~= (if spec_contains_str(existing, a.name) {
        Seq::<ColDefV>::empty()
    } else {
        sa
    }));
    assert(spec_missing(sb, existing) =~= (if spec_contains_str(existing, b.name) {
        Seq::<ColDefV>::empty()
    } else {
        sb
    }));
    if !spec_contains_str(existing, a.name) {
        assert(spec_missing(sa, existing).len() == 1);
        assert(spec_missing(sb, existing).len() == 1);
    }
}

/// The ALTER statements for the missing columns, one per column, in order.
pub open spec fn spec_alter_queries(d: SqlDialect, table: Seq<char>, cols: Seq<ColDefV>) -> Seq<
    Seq<char>,
> {
    cols.map_values(|c: ColDefV| spec_alter_table_query(d, table, c))
}

/// The DDL decision for one table: create it whole, or add the named
/// columns.
pub enum TablePlan {
    /// The table is absent: issue this CREATE TABLE statement.
    Create(String),
    /// The table exists: issue one ALTER TABLE … ADD COLUMN per statement,
    /// in order. An empty list means the table is already up to date.
    Alter(Vec<String>),
}

/// Decides what DDL converges the table to the desired shape.
///
/// `catalog_tables` is the catalog's table listing; when it shows
/// `table_name` (exact match), `existing_columns` must be the catalog's
/// column names for that table, and the plan adds exactly the desired
/// columns whose names are absent. Otherwise the plan is one CREATE TABLE
/// over the full desired set — meta columns leading — with the caller's
/// extra DDL fragments first and the primary-key clause last.
pub fn plan_ensure_table(
    d: &SqlDialect,
    table_name: &String,
    cols: Vec<ColDef>,
    creation_extra_cols: Option<Vec<String>>,
    catalog_tables: &Vec<String>,
    existing_columns: &Vec<String>,
) -> (p: TablePlan)
    ensures
        ({
            let desired = spec_desired(cols.deep_view());
            let extra = match creation_extra_cols {
                Some(e) => e.deep_view(),
                None => Seq::<Seq<char>>::empty(),
            };
            if spec_contains_str(catalog_tables.deep_view(), table_name@) {
                p matches TablePlan::Alter(stmts) && stmts.deep_view() == spec_alter_queries(
                    *d,
                    table_name@,
                    spec_missing(desired, existing_columns.deep_view()),
                )
            } else {
                p matches TablePlan::Create(stmt) && stmt@ == spec_create_table_query(
                    *d,
                    table_name@,
                    extra,
                    desired,
                )
            }
        }),
{
    let ghost dd = *d;
    let desired = build_desired_cols(cols);
    if table_exists(catalog_tables, table_name) {
        let missing = missing_columns(&desired, existing_columns);
        let ghost mv = missing.deep_view();
        let mut stmts: Vec<String> = Vec::new();
        let mut i: usize = 0;
        while i < missing.len()
            invariant
                i <= missing.len(),
                dd == *d,
                mv == missing.deep_view(),
                stmts@.len() == i,
                forall|k: int|
                    0 <= k < i ==> #[trigger] stmts@[k]@ == spec_alter_table_query(
                        dd,
                        table_name@,
                        mv[k],
                    ),
            decreases missing.len() - i,
        {
            stmts.push(alter_table_query(d, table_name.as_str(), &missing[i]));
            i += 1;
        }
        proof {
            assert(stmts.deep_view() =~~= spec_alter_queries(dd, table_name@, mv));
        }
        TablePlan::Alter(stmts)
    } else {
        let extra = match creation_extra_cols {
            Some(e) => e,
            None => Vec::new(),
        };
        proof {
            if creation_extra_cols is None {
                assert(extra.deep_view() =~= Seq::<Seq<char>>::empty());
            }
        }
        TablePlan::Create(create_table_query(d, table_name.as_str(), &extra, &desired))
    }
}

/// Reconciling is idempotent: when every desired column's name is already
/// among the existing columns — in particular right after the same desired
/// set was created or reconciled — nothing is missing, and the plan holds
/// zero ALTER statements.
pub proof fn lemma_reconcile_idempotent(desired: Seq<ColDefV>, existing: Seq<Seq<char>>)
    requires
        forall|k: int|
            0 <= k < desired.len() ==> spec_contains_str(existing, #[trigger] desired[k].name),
    ensures
        spec_missing(desired, existing) == Seq::<ColDefV>::empty(),
    decreases desired.len(),
{
    if desired.len() > 0 {
        let front = desired.drop_last();
        assert(forall|k: int|
            0 <= k < front.len() ==> spec_contains_str(existing, #[trigger] front[k].name));
        lemma_reconcile_idempotent(front, existing);
        assert(spec_contains_str(existing, desired.last().name));
        assert(spec_missing(desired, existing) =~= Seq::<ColDefV>::empty());
    }
}

/// The second run in a row issues no DDL: once the catalog shows exactly
/// the names of the desired set (as it does after the CREATE or the ALTERs
/// of a first run), the ALTER list of the next plan is empty.
pub proof fn lemma_second_run_issues_no_alters(d: SqlDialect, table: Seq<char>, user: Seq<ColDefV>)
    ensures
        spec_alter_queries(
            d,
            table,
            spec_missing(spec_desired(user), spec_names_of(spec_desired(user))),
        ) == Seq::<Seq<char>>::empty(),
{
    let desired = spec_desired(user);
    let names = spec_names_of(desired);
    assert(forall|k: int|
        0 <= k < desired.len() ==> spec_contains_str(names, #[trigger] desired[k].name)) by {
        assert forall|k: int|
            0 <= k < desired.len() implies spec_contains_str(
            names,
            #[trigger] desired[k].name,
        ) by {
            assert(names[k] == desired[k].name);
        }
    }
    lemma_reconcile_idempotent(desired, names);
    assert(spec_alter_queries(d, table, Seq::<ColDefV>::empty()) =~= Seq::<Seq<char>>::empty());
}

} // verus!
