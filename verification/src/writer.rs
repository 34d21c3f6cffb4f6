//! The batched writer: accumulates time-indexed rows and decides when they
//! are flushed.
//!
//! A row is appended only when its record number differs from the last
//! recorded one, so several calls inside one print interval store at most
//! one row. The buffer is handed out for writing exactly when it holds
//! `FLUSH_THRESHOLD` rows or the run has reached its stop time; the final
//! flush at run end takes whatever is left.

use vstd::prelude::*;
use crate::buffer::DataBuffer;
use crate::FLUSH_THRESHOLD;

verus! {

/// The writer state: the ordered row buffer and the last recorded record
/// number.
pub struct BatchedWriter<V> {
    /// The buffered rows, oldest first.
    pub buffer: Vec<DataBuffer<V>>,
    /// The record number of the last row that was appended.
    pub last_recorded_no: u32,
}

impl<V> BatchedWriter<V> {
    /// A fresh writer: nothing buffered, record number at its initial zero.
    pub fn new() -> (r: Self)
        ensures
            r.buffer@.len() == 0,
            r.last_recorded_no == 0,
    {
        BatchedWriter { buffer: Vec::new(), last_recorded_no: 0 }
    }

    /// The record-rate gate: a row is stored only when its record number
    /// differs from the last recorded one.
    pub fn should_record(&self, record_no: u32) -> (r: bool)
        ensures
            r == (record_no != self.last_recorded_no),
    {
        record_no != self.last_recorded_no
    }

    /// The flush policy: flush exactly when the buffer has reached the row
    /// threshold or the run is at its stop time.
    pub fn is_time_to_write_buffer(&self, at_stop_time: bool) -> (r: bool)
        ensures
            r == (self.buffer@.len() >= FLUSH_THRESHOLD || at_stop_time),
    {
        self.buffer.len() >= FLUSH_THRESHOLD || at_stop_time
    }

    /// Hands out every buffered row, in order, leaving the buffer empty;
    /// the record number is kept. The caller writes the rows in this order
    /// and the buffer stays cleared whether or not every write succeeds.
    pub fn take_buffer(&mut self) -> (rows: Vec<DataBuffer<V>>)
        ensures
            rows@ == old(self).buffer@,
            final(self).buffer@.len() == 0,
            final(self).last_recorded_no == old(self).last_recorded_no,
    {
        let mut rows: Vec<DataBuffer<V>> = Vec::new();
        core::mem::swap(&mut rows, &mut self.buffer);
        rows
    }

    /// One end-of-timestep tick.
    ///
    /// When the record number equals the last recorded one, nothing
    /// changes and nothing is flushed. Otherwise the row is appended and
    /// the record number advances; the buffered rows are then handed out
    /// if and only if their count has reached `FLUSH_THRESHOLD` or the run
    /// is at its stop time.
    pub fn end_of_timestep(&mut self, record_no: u32, row: DataBuffer<V>, at_stop_time: bool) -> (r:
        Option<Vec<DataBuffer<V>>>)
        ensures
            record_no == old(self).last_recorded_no ==> (*final(self) == *old(self) && r is None),
            record_no != old(self).last_recorded_no ==> {
                let appended = old(self).buffer@.push(row);
                &&& final(self).last_recorded_no == record_no
                &&& if appended.len() >= FLUSH_THRESHOLD || at_stop_time {
                    &&& (r matches Some(rows) && rows@ == appended)
                    &&& final(self).buffer@.len() == 0
                } else {
                    &&& r is None
                    &&& final(self).buffer@ == appended
                }
            },
    {
        if !self.should_record(record_no) {
            return None;
        }
        self.buffer.push(row);
        self.last_recorded_no = record_no;
        if self.is_time_to_write_buffer(at_stop_time) {
            Some(self.take_buffer())
        } else {
            None
        }
    }
}

} // verus!
