use simdb::datatype::{ColDataType, ColDef};
use simdb::dialect::SqlDialect;
use simdb::error::DbError;
use simdb::reconcile::{
    build_desired_cols, find_col_index, missing_columns, plan_ensure_table, required_col_index,
    table_exists, TablePlan,
};

#[test]
fn col_defs_equal_by_name_alone() {
    // Same name, different type, nullability and key membership: still the
    // same column for set operations.
    let a = ColDef::new("X", ColDataType::Text, false, false);
    let b = ColDef::new("X", ColDataType::Number { decimal: true }, true, true);
    assert_eq!(a, b);

    let c = ColDef::new("Y", ColDataType::Text, false, false);
    assert_ne!(a, c);
}

#[test]
fn desired_cols_meta_lead_in_registry_order() {
    // Whatever the user columns are, the meta columns hold the first two
    // positions, SimTime before Variant.
    let user = vec![
        ColDef::new("Zed", ColDataType::Text, false, false),
        ColDef::new("Alpha", ColDataType::Number { decimal: false }, false, false),
    ];
    let desired = build_desired_cols(user);
    let names: Vec<&str> = desired.iter().map(|c| c.name.as_str()).collect();
    assert_eq!(names, vec!["SimTime", "Variant", "Zed", "Alpha"]);
    assert!(desired[0].primary_key);
    assert!(desired[1].primary_key);
}

#[test]
fn desired_cols_dedup_by_name_only() {
    // A user column that collides with a meta column by name is dropped,
    // even with a different type; so is a later duplicate of an earlier
    // user column.
    let user = vec![
        ColDef::new("SimTime", ColDataType::Text, false, false),
        ColDef::new("X", ColDataType::Number { decimal: true }, true, false),
        ColDef::new("X", ColDataType::Text, false, false),
    ];
    let desired = build_desired_cols(user);
    let names: Vec<&str> = desired.iter().map(|c| c.name.as_str()).collect();
    assert_eq!(names, vec!["SimTime", "Variant", "X"]);
    // The meta definition won: SimTime stayed numeric and key-bearing.
    assert_eq!(desired[0].data_type, ColDataType::Number { decimal: true });
    assert!(desired[0].primary_key);
    // The first X won: decimal and not-null.
    assert_eq!(desired[2].data_type, ColDataType::Number { decimal: true });
    assert!(desired[2].not_null);
}

#[test]
fn missing_columns_compare_by_name_only() {
    let desired = build_desired_cols(vec![
        ColDef::new("X", ColDataType::Number { decimal: true }, true, false),
        ColDef::new("Y", ColDataType::Number { decimal: true }, true, false),
    ]);
    // The catalog already shows SimTime, Variant and X — whatever types
    // they have there — so only Y is missing.
    let existing = vec!["SimTime".to_string(), "Variant".to_string(), "X".to_string()];
    let missing = missing_columns(&desired, &existing);
    assert_eq!(missing.len(), 1);
    assert_eq!(missing[0].name, "Y");
}

#[test]
fn table_exists_is_case_sensitive() {
    let catalog = vec!["Other".to_string(), "Results".to_string()];
    assert!(table_exists(&catalog, &"Results".to_string()));
    assert!(!table_exists(&catalog, &"results".to_string()));
    assert!(!table_exists(&catalog, &"Res".to_string()));
}

#[test]
fn find_col_index_is_one_based_first_match() {
    let names = vec![
        "TABLE_CAT".to_string(),
        "TABLE_NAME".to_string(),
        "COLUMN_NAME".to_string(),
        "TABLE_NAME".to_string(),
    ];
    assert_eq!(find_col_index(&names, &"TABLE_NAME".to_string()), Some(2));
    assert_eq!(find_col_index(&names, &"COLUMN_NAME".to_string()), Some(3));
    assert_eq!(find_col_index(&names, &"NO_SUCH".to_string()), None);
}

#[test]
fn missing_required_catalog_column_is_fatal() {
    let names = vec!["TABLE_CAT".to_string(), "TABLE_NAME".to_string()];
    assert_eq!(required_col_index(&names, &"TABLE_NAME".to_string()).ok(), Some(2));
    let r = required_col_index(&names, &"COLUMN_NAME".to_string());
    assert!(matches!(r, Err(DbError::MissingCatalogColumn)));
}

#[test]
fn plan_creates_missing_table() {
    let user = vec![ColDef::new("X", ColDataType::Number { decimal: true }, true, false)];
    let catalog = vec!["Other".to_string()];
    let plan = plan_ensure_table(
        &SqlDialect::MsAccess,
        &"T".to_string(),
        user,
        None,
        &catalog,
        &Vec::new(),
    );
    match plan {
        TablePlan::Create(stmt) => assert_eq!(
            stmt,
            "CREATE TABLE T ([SimTime] FLOAT NOT NULL, [Variant] TEXT NOT NULL, \
             [X] FLOAT NOT NULL, PRIMARY KEY ([SimTime], [Variant]))"
        ),
        TablePlan::Alter(_) => panic!("expected a CREATE plan"),
    }
}

#[test]
fn plan_alters_existing_table() {
    let user = vec![ColDef::new("X", ColDataType::Number { decimal: true }, true, false)];
    let catalog = vec!["T".to_string()];
    let existing = vec!["SimTime".to_string(), "Variant".to_string()];
    let plan = plan_ensure_table(
        &SqlDialect::MsAccess,
        &"T".to_string(),
        user,
        None,
        &catalog,
        &existing,
    );
    match plan {
        TablePlan::Alter(stmts) => {
            assert_eq!(stmts, vec!["ALTER TABLE T ADD COLUMN [X] FLOAT NOT NULL".to_string()]);
        },
        TablePlan::Create(_) => panic!("expected an ALTER plan"),
    }
}

#[test]
fn reconcile_twice_issues_zero_alters() {
    // Create-then-reconcile: after the first run the catalog shows exactly
    // the desired names; the second run's plan holds no statements.
    let mk_user = || vec![
        ColDef::new("X", ColDataType::Number { decimal: true }, true, false),
        ColDef::new("Y", ColDataType::Number { decimal: true }, true, false),
    ];
    let desired = build_desired_cols(mk_user());
    let existing: Vec<String> = desired.iter().map(|c| c.name.clone()).collect();
    let catalog = vec!["T".to_string()];
    let plan = plan_ensure_table(
        &SqlDialect::MsAccess,
        &"T".to_string(),
        mk_user(),
        None,
        &catalog,
        &existing,
    );
    match plan {
        TablePlan::Alter(stmts) => assert!(stmts.is_empty()),
        TablePlan::Create(_) => panic!("expected an ALTER plan"),
    }
}

#[test]
fn reconcile_never_drops_extra_columns() {
    // Columns that exist but are not desired are left untouched: the plan
    // only ever adds.
    let user = vec![ColDef::new("X", ColDataType::Number { decimal: true }, true, false)];
    let catalog = vec!["T".to_string()];
    let existing = vec![
        "SimTime".to_string(),
        "Variant".to_string(),
        "X".to_string(),
        "Legacy".to_string(),
    ];
    let plan = plan_ensure_table(
        &SqlDialect::MsAccess,
        &"T".to_string(),
        user,
        None,
        &catalog,
        &existing,
    );
    match plan {
        TablePlan::Alter(stmts) => assert!(stmts.is_empty()),
        TablePlan::Create(_) => panic!("expected an ALTER plan"),
    }
}
