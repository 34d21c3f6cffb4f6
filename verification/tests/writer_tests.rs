use simdb::buffer::DataBuffer;
use simdb::column::MetaCol;
use simdb::writer::BatchedWriter;
use simdb::FLUSH_THRESHOLD;

fn row(t: i64) -> DataBuffer<i64> {
    let mut r = DataBuffer::new(Some(vec![t * 10]));
    r.insert_meta_col(MetaCol::SimulationTime, t);
    r.insert_meta_col(MetaCol::Variant, 1);
    r
}

#[test]
fn flush_threshold_is_240() {
    assert_eq!(FLUSH_THRESHOLD, 240);
}

#[test]
fn buffer_flushes_exactly_at_threshold() {
    // Push 239 rows below the stop time: no flush, the buffer still holds
    // all 239. The 240th empties it.
    let mut w: BatchedWriter<i64> = BatchedWriter::new();
    for i in 1..=239u32 {
        let flushed = w.end_of_timestep(i, row(i as i64), false);
        assert!(flushed.is_none());
    }
    assert_eq!(w.buffer.len(), 239);

    let flushed = w.end_of_timestep(240, row(240), false);
    let rows = flushed.expect("the 240th row must flush the buffer");
    assert_eq!(rows.len(), 240);
    assert_eq!(w.buffer.len(), 0);
}

#[test]
fn stop_time_flushes_early() {
    let mut w: BatchedWriter<i64> = BatchedWriter::new();
    assert!(w.end_of_timestep(1, row(1), false).is_none());
    assert!(w.end_of_timestep(2, row(2), false).is_none());
    let rows = w.end_of_timestep(3, row(3), true).expect("stop time must flush");
    assert_eq!(rows.len(), 3);
    assert_eq!(w.buffer.len(), 0);
}

#[test]
fn record_rate_gate_stores_one_row_per_interval() {
    // print_interval = 1.0; simulation times 0.2, 0.4 and 1.1 give record
    // numbers 0, 0 and 1 — exactly one row is appended, at t = 1.1.
    let print_interval: f64 = 1.0;
    let times: [f64; 3] = [0.2, 0.4, 1.1];
    let record_nos: Vec<u32> = times.iter().map(|t| (t / print_interval) as u32).collect();
    assert_eq!(record_nos, vec![0, 0, 1]);

    let mut w: BatchedWriter<i64> = BatchedWriter::new();
    for &no in &record_nos {
        w.end_of_timestep(no, row(no as i64), false);
    }
    assert_eq!(w.buffer.len(), 1);
    assert_eq!(w.last_recorded_no, 1);
}

#[test]
fn gate_skips_repeated_record_numbers() {
    let mut w: BatchedWriter<i64> = BatchedWriter::new();
    assert!(w.should_record(7));
    w.end_of_timestep(7, row(7), false);
    assert!(!w.should_record(7));
    w.end_of_timestep(7, row(7), false);
    w.end_of_timestep(7, row(7), false);
    assert_eq!(w.buffer.len(), 1);
    // A different record number — even a smaller one — records again.
    w.end_of_timestep(3, row(3), false);
    assert_eq!(w.buffer.len(), 2);
}

#[test]
fn take_buffer_drains_everything_in_order() {
    let mut w: BatchedWriter<i64> = BatchedWriter::new();
    w.end_of_timestep(1, row(1), false);
    w.end_of_timestep(2, row(2), false);
    let rows = w.take_buffer();
    assert_eq!(rows.len(), 2);
    assert_eq!(rows[0].input_data, vec![10]);
    assert_eq!(rows[1].input_data, vec![20]);
    assert_eq!(w.buffer.len(), 0);
    assert_eq!(w.last_recorded_no, 2);
    // A second drain hands out nothing.
    assert!(w.take_buffer().is_empty());
}

#[test]
fn is_time_to_write_buffer_policy() {
    let mut w: BatchedWriter<i64> = BatchedWriter::new();
    assert!(!w.is_time_to_write_buffer(false));
    assert!(w.is_time_to_write_buffer(true));
    for i in 1..=FLUSH_THRESHOLD as u32 {
        w.buffer.push(row(i as i64));
    }
    assert!(w.is_time_to_write_buffer(false));
}
