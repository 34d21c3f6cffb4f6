use simdb::buffer::DataBuffer;
use simdb::column::MetaCol;

#[test]
fn meta_col_names_and_defs() {
    assert_eq!(MetaCol::SimulationTime.as_str(), "SimTime");
    assert_eq!(MetaCol::Variant.as_str(), "Variant");

    let sim = MetaCol::SimulationTime.col_def();
    assert_eq!(sim.name, "SimTime");
    assert!(sim.not_null);
    assert!(sim.primary_key);

    let var = MetaCol::Variant.col_def();
    assert_eq!(var.name, "Variant");
    assert!(var.not_null);
    assert!(var.primary_key);

    let all = MetaCol::all();
    assert_eq!(all, vec![MetaCol::SimulationTime, MetaCol::Variant]);
}

#[test]
fn new_buffer_defaults_to_empty_payload() {
    let b: DataBuffer<i64> = DataBuffer::new(None);
    assert!(b.input_data.is_empty());
    assert!(b.get_meta_col_keys().is_empty());

    let b2: DataBuffer<i64> = DataBuffer::new(Some(vec![1, 2, 3]));
    assert_eq!(b2.input_data, vec![1, 2, 3]);
}

#[test]
fn meta_cols_keep_registry_order() {
    // Inserted variant-first, the keys still come out SimTime-first.
    let mut b: DataBuffer<i64> = DataBuffer::new(None);
    b.insert_meta_col(MetaCol::Variant, 7);
    b.insert_meta_col(MetaCol::SimulationTime, 1);
    assert_eq!(b.get_meta_col_keys(), vec![MetaCol::SimulationTime, MetaCol::Variant]);
}

#[test]
fn insert_meta_col_replaces_earlier_value() {
    let mut b: DataBuffer<i64> = DataBuffer::new(Some(vec![5]));
    b.insert_meta_col(MetaCol::SimulationTime, 1);
    b.insert_meta_col(MetaCol::SimulationTime, 2);
    let pairs = b.into_insertable(&vec!["X".to_string()]);
    assert_eq!(pairs.len(), 2);
    assert_eq!(pairs[0].0, "SimTime");
    assert_eq!(pairs[0].1, 2);
}

#[test]
fn col_names_meta_first_then_inputs() {
    let mut b: DataBuffer<i64> = DataBuffer::new(Some(vec![1, 2]));
    b.insert_meta_col(MetaCol::SimulationTime, 0);
    b.insert_meta_col(MetaCol::Variant, 0);
    let names = b.get_col_names(vec!["A".to_string(), "B".to_string()]);
    assert_eq!(names, vec!["SimTime", "Variant", "A", "B"]);
}

#[test]
fn into_insertable_pairs_names_with_values() {
    let mut b: DataBuffer<i64> = DataBuffer::new(Some(vec![35, 42]));
    b.insert_meta_col(MetaCol::SimulationTime, 10);
    b.insert_meta_col(MetaCol::Variant, 1);
    let pairs = b.into_insertable(&vec!["X".to_string(), "Y".to_string()]);
    let as_tuples: Vec<(&str, i64)> = pairs.iter().map(|(n, v)| (n.as_str(), *v)).collect();
    assert_eq!(as_tuples, vec![("SimTime", 10), ("Variant", 1), ("X", 35), ("Y", 42)]);
}

#[test]
fn into_insertable_without_meta_cols() {
    let b: DataBuffer<i64> = DataBuffer::new(Some(vec![9]));
    let pairs = b.into_insertable(&vec!["X".to_string()]);
    assert_eq!(pairs.len(), 1);
    assert_eq!(pairs[0].0, "X");
    assert_eq!(pairs[0].1, 9);
}
