//! The per-unit instance registry: each logical unit, named by a
//! caller-supplied integer identifier, owns one isolated instance, created
//! on first touch and looked up by identifier afterwards.

use vstd::prelude::*;

verus! {

/// A registry mapping unit identifiers to instances. Identifiers are
/// unique; `instances[i]` belongs to `units[i]`.
pub struct UnitRegistry<V> {
    /// The registered identifiers, in first-touch order.
    pub units: Vec<i32>,
    /// The instances, one per registered identifier.
    pub instances: Vec<V>,
}

impl<V> UnitRegistry<V> {
    /// The registry's shape: one instance per identifier, no identifier
    /// twice.
    pub open spec fn well_formed(&self) -> bool {
        &&& self.units@.len() == self.instances@.len()
        &&& forall|p: int, q: int|
            0 <= p < q < self.units@.len() ==> self.units@[p] != self.units@[q]
    }

    /// An empty registry.
    pub fn new() -> (r: Self)
        ensures
            r.well_formed(),
            r.units@.len() == 0,
    {
        UnitRegistry { units: Vec::new(), instances: Vec::new() }
    }

    /// How many units are registered.
    pub fn len(&self) -> (r: usize)
        ensures
            r == self.units@.len(),
    {
        self.units.len()
    }

    /// The slot of a registered identifier, if any.
    pub fn find(&self, unit: i32) -> (r: Option<usize>)
        ensures
            match r {
                Some(i) => i < self.units@.len() && self.units@[i as int] == unit,
                None => forall|k: int| 0 <= k < self.units@.len() ==> self.units@[k] != unit,
            },
    {
        let mut i: usize = 0;
        while i < self.units.len()
            invariant
                i <= self.units@.len(),
                forall|k: int| 0 <= k < i ==> self.units@[k] != unit,
            decreases self.units@.len() - i,
        {
            if self.units[i] == unit {
                return Some(i);
            }
            i += 1;
        }
        None
    }

    /// The slot of this identifier, creating it with the given instance on
    /// first touch. Existing units and instances are never disturbed.
    pub fn get_or_insert(&mut self, unit: i32, instance: V) -> (i: usize)
        requires
            old(self).well_formed(),
        ensures
            final(self).well_formed(),
            i < final(self).units@.len(),
            final(self).units@[i as int] == unit,
            (exists|k: int| 0 <= k < old(self).units@.len() && old(self).units@[k] == unit)
                ==> *final(self) == *old(self),
            (forall|k: int| 0 <= k < old(self).units@.len() ==> old(self).units@[k] != unit) ==> (
            final(self).units@ == old(self).units@.push(unit) && final(self).instances@ == old(
                self,
            ).instances@.push(instance) && i == old(self).units@.len()),
    {
        match self.find(unit) {
            Some(i) => i,
            None => {
                let i = self.units.len();
                self.units.push(unit);
                self.instances.push(instance);
                i
            },
        }
    }

    /// Borrows the instance in a slot.
    pub fn get(&self, i: usize) -> (r: &V)
        requires
            self.well_formed(),
            i < self.units@.len(),
        ensures
            *r == self.instances@[i as int],
    {
        &self.instances[i]
    }

    /// Replaces the instance in a slot, handing the previous one back.
    pub fn replace(&mut self, i: usize, instance: V) -> (prev: V)
        requires
            old(self).well_formed(),
            i < old(self).units@.len(),
        ensures
            final(self).well_formed(),
            final(self).units@ == old(self).units@,
            final(self).instances@ == old(self).instances@.update(i as int, instance),
            prev == old(self).instances@[i as int],
    {
        self.instances.push(instance);
        let prev = self.instances.swap_remove(i);
        proof {
            assert(self.instances@ =~= old(self).instances@.update(i as int, instance));
        }
        prev
    }
}

} // verus!
