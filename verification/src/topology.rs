use vstd::prelude::*;

use crate::config::{Pan, MAX_CHANNELS};

verus! {

/// The declarative wiring shape for one supported (node count, channel count)
/// pair: how wide the input fan-out is and how many per-node outputs each
/// output bus combines.  `bus1_arity` is zero exactly when the shape drives a
/// single channel.
#[derive(Clone, Copy, Debug, PartialEq, Eq, Structural)]
pub struct WiringPlan {
    pub split_arity: usize,
    pub bus0_arity: usize,
    pub bus1_arity: usize,
}

/// The (node count, channel count) pairs the instrument supports.  The set is
/// enumerated on purpose: any other shape is a configuration error, not a
/// missing generalization.
pub open spec fn table_supports(n: int, c: int) -> bool {
    ||| (c == 1 && (n == 2 || n == 3 || n == 5))
    ||| (c == 2 && (n == 4 || n == 6 || n == 9 || n == 10 || n == 12))
}

/// Inputs the first output bus combines under a supported shape.
pub open spec fn spec_bus0_arity(n: int, c: int) -> int {
    if c == 1 {
        n
    } else if n == 9 {
        6
    } else {
        n / 2
    }
}

/// Inputs the second output bus combines under a supported shape.
pub open spec fn spec_bus1_arity(n: int, c: int) -> int {
    if c == 1 {
        0
    } else if n == 9 {
        3
    } else {
        n / 2
    }
}

/// Whether `plan` is the wiring shape the table declares for `(n, c)`.
pub open spec fn plan_matches(plan: WiringPlan, n: int, c: int) -> bool {
    &&& plan.split_arity == n
    &&& plan.bus0_arity == spec_bus0_arity(n, c)
    &&& plan.bus1_arity == spec_bus1_arity(n, c)
}

/// The keys of the topology table, in the order the table lists them.
pub open spec fn spec_table_keys() -> Seq<(int, int)> {
    seq![(2, 1), (3, 1), (5, 1), (4, 2), (6, 2), (9, 2), (10, 2), (12, 2)]
}

/// The enumerated mapping from (node count, channel count) to wiring shape:
/// the only network shapes the instrument accepts.
pub struct TopologyTable {
    pub entries: Vec<(usize, usize, WiringPlan)>,
}

impl TopologyTable {
    /// The table holds exactly the supported keys, each with its declared
    /// wiring shape.
    pub open spec fn wf(self) -> bool {
        &&& self.entries@.len() == spec_table_keys().len()
        &&& forall|i: int|
            0 <= i < self.entries@.len() ==> {
                let e = #[trigger] self.entries@[i];
                &&& e.0 == spec_table_keys()[i].0
                &&& e.1 == spec_table_keys()[i].1
                &&& plan_matches(e.2, spec_table_keys()[i].0, spec_table_keys()[i].1)
            }
    }

    /// Builds the table of every supported shape.
    pub fn new() -> (t: TopologyTable)
        ensures
            t.wf(),
    {
        let mut entries: Vec<(usize, usize, WiringPlan)> = Vec::new();
        entries.push((2, 1, WiringPlan { split_arity: 2, bus0_arity: 2, bus1_arity: 0 }));
        entries.push((3, 1, WiringPlan { split_arity: 3, bus0_arity: 3, bus1_arity: 0 }));
        entries.push((5, 1, WiringPlan { split_arity: 5, bus0_arity: 5, bus1_arity: 0 }));
        entries.push((4, 2, WiringPlan { split_arity: 4, bus0_arity: 2, bus1_arity: 2 }));
        entries.push((6, 2, WiringPlan { split_arity: 6, bus0_arity: 3, bus1_arity: 3 }));
        entries.push((9, 2, WiringPlan { split_arity: 9, bus0_arity: 6, bus1_arity: 3 }));
        entries.push((10, 2, WiringPlan { split_arity: 10, bus0_arity: 5, bus1_arity: 5 }));
        entries.push((12, 2, WiringPlan { split_arity: 12, bus0_arity: 6, bus1_arity: 6 }));
        TopologyTable { entries }
    }

    /// Looks a shape up.  The result is `Some` exactly for the supported
    /// pairs, and never a plan for any other pair than the one asked for.
    pub fn lookup(&self, node_count: usize, channel_count: usize) -> (r: Option<WiringPlan>)
        requires
            self.wf(),
        ensures
            r.is_some() <==> table_supports(node_count as int, channel_count as int),
            r.is_some() ==> plan_matches(r.unwrap(), node_count as int, channel_count as int),
    {
        let n = self.entries.len();
        let mut i: usize = 0;
        while i < n
            invariant
                self.wf(),
                n == self.entries@.len(),
                i <= n,
                forall|j: int|
                    0 <= j < i ==> !(#[trigger] self.entries@[j].0 == node_count
                        && self.entries@[j].1 == channel_count),
            decreases n - i,
        {
            let (en, ec, plan) = self.entries[i];
            if en == node_count && ec == channel_count {
                return Some(plan);
            }
            i += 1;
        }
        assert(!table_supports(node_count as int, channel_count as int)) by {
            if table_supports(node_count as int, channel_count as int) {
                assert(exists|k: int|
                    0 <= k < spec_table_keys().len() && spec_table_keys()[k]
                        == (node_count as int, channel_count as int)) by {
                    if node_count == 2 {
                        assert(spec_table_keys()[0] == (node_count as int, channel_count as int));
                    } else if node_count == 3 {
                        assert(spec_table_keys()[1] == (node_count as int, channel_count as int));
                    } else if node_count == 5 {
                        assert(spec_table_keys()[2] == (node_count as int, channel_count as int));
                    } else if node_count == 4 {
                        assert(spec_table_keys()[3] == (node_count as int, channel_count as int));
                    } else if node_count == 6 {
                        assert(spec_table_keys()[4] == (node_count as int, channel_count as int));
                    } else if node_count == 9 {
                        assert(spec_table_keys()[5] == (node_count as int, channel_count as int));
                    } else if node_count == 10 {
                        assert(spec_table_keys()[6] == (node_count as int, channel_count as int));
                    } else {
                        assert(spec_table_keys()[7] == (node_count as int, channel_count as int));
                    }
                }
                let k = choose|k: int|
                    0 <= k < spec_table_keys().len() && spec_table_keys()[k]
                        == (node_count as int, channel_count as int);
                assert(self.entries@[k].0 == node_count && self.entries@[k].1 == channel_count);
            }
        }
        None
    }
}

/// The output bus a node's signal merges into: right-panned nodes reach the
/// second bus when two channels are driven; everything else reaches the first.
pub open spec fn spec_bus_of(pan: Pan, channel_count: int) -> int {
    if channel_count > 1 && pan is Right {
        1
    } else {
        0
    }
}

/// Executable twin of [`spec_bus_of`].
pub fn bus_of(pan: Pan, channel_count: usize) -> (b: usize)
    ensures
        b == spec_bus_of(pan, channel_count as int),
{
    if channel_count > 1 && matches!(pan, Pan::Right) {
        1
    } else {
        0
    }
}

} // verus!
