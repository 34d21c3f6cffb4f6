//! The meta-column registry: system-managed columns prepended to every
//! table and injected into every row.
//!
//! The registry is a closed, ordered enumeration. `SimulationTime` comes
//! first, then `Variant`; together they form the natural key of every
//! managed table (one row per simulation-time × variant-label pair).

use vstd::prelude::*;
use crate::datatype::{ColDataType, ColDef, ColDefV};

verus! {

/// A system-managed column present in every managed table.
#[derive(Debug, PartialEq, Eq, Structural, Clone, Copy)]
pub enum MetaCol {
    SimulationTime,
    Variant,
}

/// The fixed name of a meta column.
pub open spec fn spec_meta_name(m: MetaCol) -> Seq<char> {
    match m {
        MetaCol::SimulationTime => seq!['S', 'i', 'm', 'T', 'i', 'm', 'e'],
        MetaCol::Variant => seq!['V', 'a', 'r', 'i', 'a', 'n', 't'],
    }
}

/// The fixed column definition of a meta column: the simulation-time column
/// is decimal-numeric, the variant column text; both are not-null members of
/// the primary key.
pub open spec fn spec_meta_def(m: MetaCol) -> ColDefV {
    match m {
        MetaCol::SimulationTime => ColDefV {
            name: spec_meta_name(m),
            data_type: ColDataType::Number { decimal: true },
            not_null: true,
            primary_key: true,
        },
        MetaCol::Variant => ColDefV {
            name: spec_meta_name(m),
            data_type: ColDataType::Text,
            not_null: true,
            primary_key: true,
        },
    }
}

/// The registry order: every table and every row carries the meta columns
/// first, in this order.
pub open spec fn spec_meta_registry() -> Seq<MetaCol> {
    seq![MetaCol::SimulationTime, MetaCol::Variant]
}

impl MetaCol {
    /// The position of this meta column in the registry order.
    pub open spec fn spec_registry_index(self) -> int {
        match self {
            MetaCol::SimulationTime => 0,
            MetaCol::Variant => 1,
        }
    }

    pub fn as_str(&self) -> (r: &'static str)
        ensures
            r@ == spec_meta_name(*self),
    {
        proof {
            reveal_strlit("SimTime");
            reveal_strlit("Variant");
        }
        match self {
            MetaCol::SimulationTime => {
                let r = "SimTime";
                proof {
                    assert(r@ =~= spec_meta_name(MetaCol::SimulationTime));
                }
                r
            },
            MetaCol::Variant => {
                let r = "Variant";
                proof {
                    assert(r@ =~= spec_meta_name(MetaCol::Variant));
                }
                r
            },
        }
    }

    pub fn col_def(&self) -> (r: ColDef)
        ensures
            r@ == spec_meta_def(*self),
    {
        match self {
            MetaCol::SimulationTime => ColDef::new(
                self.as_str(),
                ColDataType::Number { decimal: true },
                true,
                true,
            ),
            MetaCol::Variant => ColDef::new(self.as_str(), ColDataType::Text, true, true),
        }
    }

    /// All meta columns, in registry order.
    pub fn all() -> (r: Vec<MetaCol>)
        ensures
            r@ == spec_meta_registry(),
    {
        let mut v: Vec<MetaCol> = Vec::new();
        v.push(MetaCol::SimulationTime);
        v.push(MetaCol::Variant);
        proof {
            assert(v@ =~= spec_meta_registry());
        }
        v
    }
}

} // verus!
