//! One buffered row: the positional payload values paired with the
//! meta-column values set for this row.
//!
//! The value type is generic: the buffer only moves values around, so the
//! caller chooses what a cell is (a driver parameter, a number, a string).
//! A row is created at a record tick, filled once, and consumed exactly
//! once when flushed.

use vstd::prelude::*;
use crate::column::{spec_meta_name, MetaCol};

verus! {

/// One row: ordered payload values plus at most one value per meta column.
pub struct DataBuffer<V> {
    /// The positional payload, one value per input signal.
    pub input_data: Vec<V>,
    /// The value of the simulation-time meta column, if set.
    pub sim_time: Option<V>,
    /// The value of the variant meta column, if set.
    pub variant: Option<V>,
}

impl<V> DataBuffer<V> {
    /// The meta columns that are set on this row, in registry order.
    pub open spec fn spec_meta_keys(&self) -> Seq<MetaCol> {
        (match self.sim_time {
            Some(_) => seq![MetaCol::SimulationTime],
            None => Seq::empty(),
        }) + (match self.variant {
            Some(_) => seq![MetaCol::Variant],
            None => Seq::empty(),
        })
    }

    /// The set meta columns as (name, value) pairs, in registry order.
    pub open spec fn spec_meta_entries(&self) -> Seq<(Seq<char>, V)> {
        (match self.sim_time {
            Some(v) => seq![(spec_meta_name(MetaCol::SimulationTime), v)],
            None => Seq::empty(),
        }) + (match self.variant {
            Some(v) => seq![(spec_meta_name(MetaCol::Variant), v)],
            None => Seq::empty(),
        })
    }

    /// A fresh row over the given payload (empty when none is given), with
    /// no meta columns set yet.
    pub fn new(input_data: Option<Vec<V>>) -> (r: Self)
        ensures
            r.input_data@ == (match input_data {
                Some(v) => v@,
                None => Seq::<V>::empty(),
            }),
            r.sim_time is None,
            r.variant is None,
    {
        let data = match input_data {
            Some(v) => v,
            None => Vec::new(),
        };
        DataBuffer { input_data: data, sim_time: None, variant: None }
    }

    /// Sets one meta column's value for this row, replacing any earlier
    /// value of the same column and leaving everything else unchanged.
    pub fn insert_meta_col(&mut self, meta_col: MetaCol, data: V)
        ensures
            final(self).input_data == old(self).input_data,
            match meta_col {
                MetaCol::SimulationTime => final(self).sim_time == Some(data)
                    && final(self).variant == old(self).variant,
                MetaCol::Variant => final(self).variant == Some(data) && final(self).sim_time
                    == old(self).sim_time,
            },
    {
        match meta_col {
            MetaCol::SimulationTime => {
                self.sim_time = Some(data);
            },
            MetaCol::Variant => {
                self.variant = Some(data);
            },
        }
    }

    /// The meta columns set on this row, in registry order.
    pub fn get_meta_col_keys(&self) -> (r: Vec<MetaCol>)
        ensures
            r@ == self.spec_meta_keys(),
    {
        let mut r: Vec<MetaCol> = Vec::new();
        if self.sim_time.is_some() {
            r.push(MetaCol::SimulationTime);
        }
        if self.variant.is_some() {
            r.push(MetaCol::Variant);
        }
        proof {
            assert(r@ =~= self.spec_meta_keys());
        }
        r
    }

    /// The full column-name list for this row: the set meta columns'
    /// registry names first, then the input names, in order.
    pub fn get_col_names(&self, input_names: Vec<String>) -> (r: Vec<String>)
        ensures
            r@.len() == self.spec_meta_keys().len() + input_names@.len(),
            forall|k: int|
                0 <= k < self.spec_meta_keys().len() ==> #[trigger] r@[k]@ == spec_meta_name(
                    self.spec_meta_keys()[k],
                ),
            forall|k: int|
                0 <= k < input_names@.len() ==> r@[self.spec_meta_keys().len() + k]
                    == input_names@[k],
    {
        let mut r: Vec<String> = Vec::new();
        let keys = self.get_meta_col_keys();
        let mut i: usize = 0;
        while i < keys.len()
            invariant
                i <= keys@.len(),
                keys@ == self.spec_meta_keys(),
                r@.len() == i,
                forall|k: int| 0 <= k < i ==> #[trigger] r@[k]@ == spec_meta_name(keys@[k]),
            decreases keys.len() - i,
        {
            let name = keys[i].as_str();
            r.push(name.to_owned());
            i += 1;
        }
        let mut rest = input_names;
        r.append(&mut rest);
        r
    }

    /// Turns the row into the (name, value) pairs an insert consumes: the
    /// set meta columns first, in registry order, then each input name
    /// paired with its positional value.
    pub fn into_insertable(self, input_names: &Vec<String>) -> (r: Vec<(String, V)>)
        requires
            input_names@.len() == self.input_data@.len(),
        ensures
            r@.len() == self.spec_meta_entries().len() + input_names@.len(),
            forall|k: int|
                0 <= k < self.spec_meta_entries().len() ==> (#[trigger] r@[k].0@
                    == self.spec_meta_entries()[k].0 && r@[k].1 == self.spec_meta_entries()[k].1),
            forall|j: int|
                self.spec_meta_entries().len() <= j < r@.len() ==> (#[trigger] r@[j].0
                    == input_names@[j - self.spec_meta_entries().len()] && r@[j].1
                    == self.input_data@[j - self.spec_meta_entries().len()]),
    {
        let ghost entries = self.spec_meta_entries();
        let ghost orig = self.input_data@;
        let DataBuffer { input_data, sim_time, variant } = self;
        let mut r: Vec<(String, V)> = Vec::new();
        match sim_time {
            Some(v) => {
                r.push((MetaCol::SimulationTime.as_str().to_owned(), v));
            },
            None => {},
        }
        match variant {
            Some(v) => {
                r.push((MetaCol::Variant.as_str().to_owned(), v));
            },
            None => {},
        }
        proof {
            assert(r@.len() == entries.len());
            assert(forall|k: int|
                0 <= k < entries.len() ==> (#[trigger] r@[k].0@ == entries[k].0 && r@[k].1
                    == entries[k].1));
        }
        let ghost base = r@.len() as int;
        let mut data = input_data;
        proof {
            assert(data@ =~= orig.subrange(0, orig.len() as int));
        }
        let n = input_names.len();
        let mut i: usize = 0;
        while data.len() > 0
            invariant
                base == entries.len(),
                n == input_names@.len(),
                input_names@.len() == orig.len(),
                i <= orig.len(),
                i + data@.len() == input_names@.len(),
                r@.len() == base + i,
                forall|k: int|
                    0 <= k < entries.len() ==> (#[trigger] r@[k].0@ == entries[k].0 && r@[k].1
                        == entries[k].1),
                forall|j: int|
                    base <= j < r@.len() ==> (#[trigger] r@[j].0 == input_names@[j - base]
                        && r@[j].1 == orig[j - base]),
                data@ == orig.subrange(i as int, orig.len() as int),
            decreases data.len(),
        {
            let v = data.remove(0);
            proof {
                assert(v == orig[i as int]);
            }
            r.push((input_names[i].clone(), v));
            proof {
                assert(data@ =~= orig.subrange(
                    i + 1,
                    orig.len() as int,
                ));
            }
            i += 1;
        }
        proof {
            assert(r@.len() == entries.len() + input_names@.len());
            assert forall|j: int|
                self.spec_meta_entries().len() <= j < r@.len() implies (r@[j].0 == input_names@[j
                - self.spec_meta_entries().len()] && r@[j].1 == self.input_data@[j
                - self.spec_meta_entries().len()]) by {
                assert(base <= j < r@.len());
                assert(r@[j].0 == input_names@[j - base] && r@[j].1 == orig[j - base]);
            }
        }
        r
    }
}

} // verus!
