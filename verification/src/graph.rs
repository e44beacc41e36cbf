use vstd::prelude::*;

use crate::config::{
    CompileError, EngineConfig, Node, Pan, TuningValue, SENSITIVITY_SCALE, UNIT_MICRO,
};
use crate::config::spec_channel_count;
use crate::tap::Tap;
use crate::topology::{bus_of, spec_bus_of, table_supports, TopologyTable};

verus! {

/// Whether the tuning list pairs off with the node list, entry by entry.
/// Alignment is positional on purpose: the compiler never searches for a
/// node's tuning.
pub open spec fn spec_aligned(nodes: Seq<Node>, tuning: Seq<TuningValue>) -> bool {
    &&& nodes.len() == tuning.len()
    &&& forall|i: int| 0 <= i < nodes.len() ==> #[trigger] tuning[i].f_n == nodes[i].f_n
}

/// How many of `nodes` route to output bus `b` under `c` channels.
pub open spec fn spec_count_bus(nodes: Seq<Node>, c: int, b: int) -> int
    decreases nodes.len(),
{
    if nodes.len() == 0 {
        0
    } else {
        spec_count_bus(nodes.drop_last(), c, b) + if spec_bus_of(nodes.last().pan, c) == b {
            1int
        } else {
            0int
        }
    }
}

/// How many inputs bus `b`'s combination stage declares for this node set.
/// The nine-node stereo shape is asymmetric; it faces whichever side holds
/// more nodes.
pub open spec fn spec_chosen_arity(nodes: Seq<Node>, c: int, b: int) -> int {
    let c0 = spec_count_bus(nodes, c, 0);
    let c1 = spec_count_bus(nodes, c, 1);
    if c == 1 {
        if b == 0 {
            nodes.len() as int
        } else {
            0
        }
    } else if nodes.len() == 9 {
        if c1 > c0 {
            if b == 0 {
                3
            } else {
                6
            }
        } else {
            if b == 0 {
                6
            } else {
                3
            }
        }
    } else {
        nodes.len() as int / 2
    }
}

/// Whether the nodes' pan assignment fills every declared bus port exactly.
pub open spec fn spec_split_ok(nodes: Seq<Node>, c: int) -> bool {
    &&& spec_count_bus(nodes, c, 0) == spec_chosen_arity(nodes, c, 0)
    &&& spec_count_bus(nodes, c, 1) == spec_chosen_arity(nodes, c, 1)
}

/// The bus port node `i` is wired to: one past the ports taken by the earlier
/// nodes on the same bus.
pub open spec fn spec_port(nodes: Seq<Node>, c: int, i: int) -> int {
    spec_count_bus(nodes.take(i), c, spec_bus_of(nodes[i].pan, c))
}

/// Excitation gain for a sensitivity, in millionths: unity plus the
/// sensitivity scaled up, so a more sensitive node draws more of the shared
/// input.
pub open spec fn spec_gain_micro(sensitivity_micro: int) -> int {
    UNIT_MICRO as int + SENSITIVITY_SCALE as int * sensitivity_micro
}

/// Resonance-bandwidth seed shared by all nodes of an `n`-node build, in
/// millionths.
pub open spec fn spec_q_micro(n: int) -> int {
    UNIT_MICRO as int / n
}

/// The highest-positioned node routed to bus `b`, as an index into `nodes`;
/// `-1` when the bus is empty.
pub open spec fn spec_last_on_bus(nodes: Seq<Node>, c: int, b: int) -> int
    decreases nodes.len(),
{
    if nodes.len() == 0 {
        -1
    } else if spec_bus_of(nodes.last().pan, c) == b {
        nodes.len() - 1
    } else {
        spec_last_on_bus(nodes.drop_last(), c, b)
    }
}

/// How far above its source node's range a bus's tail resonator sits.
pub open spec fn spec_res_mult(c: int, b: int) -> int {
    if c == 1 {
        5
    } else if b == 0 {
        2
    } else {
        4
    }
}

/// One per-node processing unit of a compiled network: the node's own data,
/// where it is wired, its excitation gain, and the handles of its control
/// cells and introspection tap.
#[derive(Clone, Copy, Debug, PartialEq, Eq, Structural)]
pub struct NodeUnit {
    pub f_n: usize,
    pub base_mhz: u32,
    pub max_mhz: u32,
    pub pan: Pan,
    pub bus: usize,
    pub port: usize,
    pub gain_micro: u64,
    pub center_cell: usize,
    pub q_cell: usize,
    pub freq_cell: usize,
    pub tap: usize,
}

/// One output combination stage: how many node outputs it declares, its tail
/// resonator's placement, and the handle of its introspection tap.
#[derive(Clone, Copy, Debug, PartialEq, Eq, Structural)]
pub struct Bus {
    pub arity: usize,
    pub resonator_center_mhz: u64,
    pub resonator_width_mhz: u32,
    pub tap: usize,
}

/// The per-node unit the compiler builds for position `i`.
pub open spec fn spec_unit(nodes: Seq<Node>, tuning: Seq<TuningValue>, c: int, i: int) -> NodeUnit {
    NodeUnit {
        f_n: nodes[i].f_n,
        base_mhz: nodes[i].base_mhz,
        max_mhz: nodes[i].max_mhz,
        pan: nodes[i].pan,
        bus: spec_bus_of(nodes[i].pan, c) as usize,
        port: spec_port(nodes, c, i) as usize,
        gain_micro: spec_gain_micro(tuning[i].sensitivity_micro as int) as u64,
        center_cell: (3 * i) as usize,
        q_cell: (3 * i + 1) as usize,
        freq_cell: (3 * i + 2) as usize,
        tap: i as usize,
    }
}

/// The combination stage the compiler builds for bus `b`.
pub open spec fn spec_bus_plan(nodes: Seq<Node>, c: int, b: int) -> Bus {
    let src = nodes[spec_last_on_bus(nodes, c, b)];
    Bus {
        arity: spec_chosen_arity(nodes, c, b) as usize,
        resonator_center_mhz: (src.max_mhz as int * spec_res_mult(c, b)) as u64,
        resonator_width_mhz: (src.max_mhz - src.base_mhz) as u32,
        tap: (nodes.len() + b) as usize,
    }
}

/// The control cells of a build, three per node: center frequency (millihertz),
/// resonance bandwidth (millionths), and oscillator base frequency
/// (millihertz), seeded from the tuning and node data.
pub open spec fn spec_cells(nodes: Seq<Node>, tuning: Seq<TuningValue>) -> Seq<i64> {
    Seq::new(
        3 * nodes.len(),
        |k: int|
            if k % 3 == 0 {
                tuning[k / 3].center_mhz as i64
            } else if k % 3 == 1 {
                spec_q_micro(nodes.len() as int) as i64
            } else {
                nodes[k / 3].base_mhz as i64
            },
    )
}

/// A compiled signal network: per-node units, output buses, live control
/// cells and introspection taps.  A value of this type only ever exists fully
/// wired; a plan that cannot fill every port is rejected at compile time.
#[derive(Debug, PartialEq, Eq)]
pub struct Network {
    pub node_count: usize,
    pub channel_count: usize,
    pub sample_rate_hz: u32,
    pub units: Vec<NodeUnit>,
    pub buses: Vec<Bus>,
    pub cells: Vec<i64>,
    pub taps: Vec<Tap>,
}

impl Network {
    /// Structural consistency: counts agree, every handle lands in range, and
    /// every tap respects its capacity.
    pub open spec fn wf(self) -> bool {
        &&& 1 <= self.channel_count <= 2
        &&& self.node_count == self.units@.len()
        &&& self.buses@.len() == self.channel_count
        &&& self.cells@.len() == 3 * self.node_count
        &&& self.taps@.len() == self.node_count + self.channel_count
        &&& forall|t: int| 0 <= t < self.taps@.len() ==> (#[trigger] self.taps@[t]).wf()
        &&& forall|i: int|
            0 <= i < self.units@.len() ==> {
                let u = #[trigger] self.units@[i];
                &&& u.bus < self.channel_count
                &&& u.port < self.buses@[u.bus as int].arity
                &&& u.center_cell == 3 * i
                &&& u.q_cell == 3 * i + 1
                &&& u.freq_cell == 3 * i + 2
                &&& u.tap == i
            }
        &&& forall|b: int|
            0 <= b < self.buses@.len() ==> (#[trigger] self.buses@[b]).tap == self.node_count + b
    }

    /// Whether this network is exactly the build for the given inputs.
    pub open spec fn built_from(
        self,
        config: EngineConfig,
        nodes: Seq<Node>,
        tuning: Seq<TuningValue>,
    ) -> bool {
        let c = spec_channel_count(config.groups as int);
        &&& self.node_count == nodes.len()
        &&& self.channel_count == c
        &&& self.sample_rate_hz == config.sample_rate_hz
        &&& self.units@.len() == nodes.len()
        &&& forall|i: int|
            0 <= i < nodes.len() ==> #[trigger] self.units@[i] == spec_unit(nodes, tuning, c, i)
        &&& self.buses@.len() == c
        &&& forall|b: int| 0 <= b < c ==> #[trigger] self.buses@[b] == spec_bus_plan(nodes, c, b)
        &&& self.cells@ == spec_cells(nodes, tuning)
        &&& self.taps@.len() == nodes.len() + c
        &&& forall|t: int| 0 <= t < self.taps@.len() ==> (#[trigger] self.taps@[t])@ =~= Seq::<
            u32,
        >::empty()
    }
}

/// Counting over a longer prefix counts at least as much.
proof fn lemma_count_bus_take_le(nodes: Seq<Node>, c: int, b: int, i: int, j: int)
    requires
        0 <= i <= j <= nodes.len(),
    ensures
        spec_count_bus(nodes.take(i), c, b) <= spec_count_bus(nodes.take(j), c, b),
    decreases j - i,
{
    if i < j {
        lemma_count_bus_take_le(nodes, c, b, i, j - 1);
        assert(nodes.take(j).drop_last() =~= nodes.take(j - 1));
        assert(spec_count_bus(nodes.take(j - 1), c, b) <= spec_count_bus(nodes.take(j), c, b));
    } else {
        assert(nodes.take(i) =~= nodes.take(j));
    }
}

/// Every node of a single-channel build routes to the only bus.
pub proof fn lemma_count_bus_mono(nodes: Seq<Node>)
    ensures
        spec_count_bus(nodes, 1, 0) == nodes.len(),
        spec_count_bus(nodes, 1, 1) == 0,
    decreases nodes.len(),
{
    if nodes.len() > 0 {
        lemma_count_bus_mono(nodes.drop_last());
    }
}

/// Some node is wired to every taken port: for each `p` below the number of
/// nodes on bus `b`, a node on `b` got port `p`.
proof fn lemma_port_covered(nodes: Seq<Node>, c: int, b: int, p: int)
    requires
        0 <= p < spec_count_bus(nodes, c, b),
    ensures
        exists|i: int|
            0 <= i < nodes.len() && spec_bus_of(#[trigger] nodes[i].pan, c) == b && spec_port(
                nodes,
                c,
                i,
            ) == p,
    decreases nodes.len(),
{
    let pre = nodes.drop_last();
    if spec_bus_of(nodes.last().pan, c) == b && p == spec_count_bus(pre, c, b) {
        let w = nodes.len() - 1;
        assert(nodes.take(w) =~= pre);
        assert(spec_bus_of(nodes[w].pan, c) == b && spec_port(nodes, c, w) == p);
    } else {
        lemma_port_covered(pre, c, b, p);
        let i = choose|i: int|
            0 <= i < pre.len() && spec_bus_of(#[trigger] pre[i].pan, c) == b && spec_port(
                pre,
                c,
                i,
            ) == p;
        assert(nodes.take(i) =~= pre.take(i));
        assert(nodes[i] == pre[i]);
        assert(spec_bus_of(nodes[i].pan, c) == b && spec_port(nodes, c, i) == p);
    }
}

/// Ports on one bus are taken in strictly increasing node order, so no two
/// nodes share one.
proof fn lemma_port_distinct(nodes: Seq<Node>, c: int, i: int, j: int)
    requires
        0 <= i < j < nodes.len(),
        spec_bus_of(nodes[i].pan, c) == spec_bus_of(nodes[j].pan, c),
    ensures
        spec_port(nodes, c, i) < spec_port(nodes, c, j),
{
    let b = spec_bus_of(nodes[i].pan, c);
    assert(nodes.take(i + 1).drop_last() =~= nodes.take(i));
    assert(nodes.take(i + 1).last() == nodes[i]);
    lemma_count_bus_take_le(nodes, c, b, i + 1, j);
}

/// Whether some per-node unit of `net` is wired to port `p` of bus `b`.
pub open spec fn spec_port_taken(net: Network, b: int, p: int) -> bool {
    exists|i: int|
        0 <= i < net.units@.len() && (#[trigger] net.units@[i]).bus == b && net.units@[i].port == p
}

/// The invariant behind every compiled network: it is fully connected.  Every
/// declared input port of every output bus is wired to exactly one per-node
/// unit, and no unit is wired twice.
pub proof fn lemma_network_fully_connected(
    net: Network,
    config: EngineConfig,
    nodes: Seq<Node>,
    tuning: Seq<TuningValue>,
)
    requires
        net.built_from(config, nodes, tuning),
        spec_split_ok(nodes, spec_channel_count(config.groups as int)),
    ensures
        forall|b: int, p: int|
            0 <= b < net.channel_count && 0 <= p < net.buses@[b].arity ==> #[trigger] spec_port_taken(
                net,
                b,
                p,
            ),
        forall|i: int, j: int|
            0 <= i < j < net.units@.len() && (#[trigger] net.units@[i]).bus == (
            #[trigger] net.units@[j]).bus ==> net.units@[i].port != net.units@[j].port,
{
    let c = spec_channel_count(config.groups as int);
    assert forall|b: int, p: int|
        0 <= b < net.channel_count && 0 <= p < net.buses@[b].arity implies #[trigger] spec_port_taken(
        net,
        b,
        p,
    ) by {
        assert(net.buses@[b] == spec_bus_plan(nodes, c, b));
        assert(spec_count_bus(nodes, c, b) == spec_chosen_arity(nodes, c, b));
        lemma_port_covered(nodes, c, b, p);
        let i = choose|i: int|
            0 <= i < nodes.len() && spec_bus_of(#[trigger] nodes[i].pan, c) == b && spec_port(
                nodes,
                c,
                i,
            ) == p;
        assert(net.units@[i] == spec_unit(nodes, tuning, c, i));
        assert(net.units@[i].bus == b && net.units@[i].port == p);
    }
    assert forall|i: int, j: int|
        0 <= i < j < net.units@.len() && (#[trigger] net.units@[i]).bus == (
        #[trigger] net.units@[j]).bus implies net.units@[i].port != net.units@[j].port by {
        assert(net.units@[i] == spec_unit(nodes, tuning, c, i));
        assert(net.units@[j] == spec_unit(nodes, tuning, c, j));
        lemma_port_distinct(nodes, c, i, j);
        lemma_count_bus_take_le(nodes, c, spec_bus_of(nodes[i].pan, c), 0, i);
        assert(nodes.take(0) =~= Seq::<Node>::empty());
        assert(0 <= spec_port(nodes, c, i));
        assert(spec_port(nodes, c, j) <= spec_count_bus(nodes, c, spec_bus_of(nodes[j].pan, c)))
            by {
            assert(nodes.take(j + 1).drop_last() =~= nodes.take(j));
            assert(nodes.take(j + 1).last() == nodes[j]);
            lemma_count_bus_take_le(
                nodes,
                c,
                spec_bus_of(nodes[j].pan, c),
                j + 1,
                nodes.len() as int,
            );
            assert(nodes.take(nodes.len() as int) =~= nodes);
        }
    }
}

/// A single-channel shape can always be filled: with one bus every node
/// routes to it, so compiling any table-listed mono pair with aligned data
/// succeeds.
pub proof fn lemma_mono_split_always_ok(nodes: Seq<Node>)
    ensures
        spec_split_ok(nodes, 1),
{
    lemma_count_bus_mono(nodes);
}

/// Tuning idempotence: two networks built from the same configuration, node
/// and tuning data hold identical control-cell values.
pub proof fn lemma_tuning_idempotent(
    a: Network,
    b: Network,
    config: EngineConfig,
    nodes: Seq<Node>,
    tuning: Seq<TuningValue>,
)
    requires
        a.built_from(config, nodes, tuning),
        b.built_from(config, nodes, tuning),
    ensures
        a.cells@ == b.cells@,
        a.units@ == b.units@,
        a.buses@ == b.buses@,
{
    assert(a.units@ =~= b.units@);
    assert(a.buses@ =~= b.buses@);
}

/// Builds a concrete network from a configuration, a node list and an aligned
/// tuning list.
///
/// Exactly one of four outcomes holds, decided in this order:
/// `NodeTuningMismatch` when the lists do not pair off; `TopologyUnsupported`
/// when the (node count, channel count) pair is not in the topology table;
/// `IncompleteNetwork` when the plan's bus ports cannot all be filled by the
/// nodes' pan assignment; otherwise the fully wired network, with every unit,
/// bus, control cell and tap pinned to the build rules.
pub fn compile(config: &EngineConfig, nodes: &Vec<Node>, tuning: &Vec<TuningValue>) -> (r: Result<
    Network,
    CompileError,
>)
    requires
        forall|i: int| 0 <= i < nodes@.len() ==> (#[trigger] nodes@[i]).wf(),
    ensures
        ({
            let n = nodes@.len() as int;
            let c = spec_channel_count(config.groups as int);
            let aligned = spec_aligned(nodes@, tuning@);
            let supported = table_supports(n, c);
            let split = spec_split_ok(nodes@, c);
            &&& ((r matches Err(e) && e == CompileError::NodeTuningMismatch) <==> !aligned)
            &&& ((r matches Err(e) && e == CompileError::TopologyUnsupported) <==> (aligned
                && !supported))
            &&& ((r matches Err(e) && e == CompileError::IncompleteNetwork) <==> (aligned
                && supported && !split))
            &&& (r is Ok <==> (aligned && supported && split))
            &&& (r matches Ok(net) ==> net.wf() && net.built_from(*config, nodes@, tuning@))
        }),
{
    let channels = config.channel_count();
    let size = nodes.len();

    // Positional node/tuning alignment.
    if tuning.len() != size {
        return Err(CompileError::NodeTuningMismatch);
    }
    let mut i: usize = 0;
    while i < size
        invariant
            size == nodes@.len(),
            size == tuning@.len(),
            i <= size,
            forall|j: int| 0 <= j < i ==> #[trigger] tuning@[j].f_n == nodes@[j].f_n,
        decreases size - i,
    {
        if tuning[i].f_n != nodes[i].f_n {
            return Err(CompileError::NodeTuningMismatch);
        }
        i += 1;
    }

    // The enumerated topology table decides whether this shape exists at all.
    let table = TopologyTable::new();
    let plan = match table.lookup(size, channels) {
        Some(p) => p,
        None => {
            return Err(CompileError::TopologyUnsupported);
        },
    };

    // Count how the pan assignment spreads the nodes over the buses.
    let mut count0: usize = 0;
    let mut count1: usize = 0;
    i = 0;
    while i < size
        invariant
            size == nodes@.len(),
            i <= size,
            channels == spec_channel_count(config.groups as int),
            count0 == spec_count_bus(nodes@.take(i as int), channels as int, 0),
            count1 == spec_count_bus(nodes@.take(i as int), channels as int, 1),
            count0 + count1 == i,
        decreases size - i,
    {
        proof {
            assert(nodes@.take(i + 1).drop_last() =~= nodes@.take(i as int));
            assert(nodes@.take(i + 1).last() == nodes@[i as int]);
        }
        if bus_of(nodes[i].pan, channels) == 1 {
            count1 += 1;
        } else {
            count0 += 1;
        }
        i += 1;
    }
    proof {
        assert(nodes@.take(size as int) =~= nodes@);
    }

    // The combination stages' declared widths, facing the nine-node shape
    // toward its heavier side.
    let (ar0, ar1): (usize, usize) = if channels == 1 {
        (size, 0)
    } else if size == 9 {
        if count1 > count0 {
            (3, 6)
        } else {
            (6, 3)
        }
    } else {
        (plan.bus0_arity, plan.bus1_arity)
    };
    assert(ar0 == spec_chosen_arity(nodes@, channels as int, 0));
    assert(ar1 == spec_chosen_arity(nodes@, channels as int, 1));

    // Connectivity check: every declared port must get exactly one node.
    if count0 != ar0 || count1 != ar1 {
        return Err(CompileError::IncompleteNetwork);
    }

    // Per-node units, control cells and taps.
    let q_micro: i64 = (UNIT_MICRO / size as u64) as i64;
    let mut units: Vec<NodeUnit> = Vec::new();
    let mut cells: Vec<i64> = Vec::new();
    let mut taps: Vec<Tap> = Vec::new();
    let mut p0: usize = 0;
    let mut p1: usize = 0;
    let mut last0: usize = 0;
    let mut last1: usize = 0;
    i = 0;
    while i < size
        invariant
            size == nodes@.len(),
            size == tuning@.len(),
            2 <= size <= 12,
            i <= size,
            channels == spec_channel_count(config.groups as int),
            1 <= channels <= 2,
            q_micro == spec_q_micro(size as int),
            spec_count_bus(nodes@, channels as int, 0) == ar0,
            spec_count_bus(nodes@, channels as int, 1) == ar1,
            ar0 == spec_chosen_arity(nodes@, channels as int, 0),
            ar1 == spec_chosen_arity(nodes@, channels as int, 1),
            p0 == spec_count_bus(nodes@.take(i as int), channels as int, 0),
            p1 == spec_count_bus(nodes@.take(i as int), channels as int, 1),
            p0 <= ar0,
            p1 <= ar1,
            units@.len() == i,
            cells@.len() == 3 * i,
            taps@.len() == i,
            forall|j: int|
                0 <= j < i ==> #[trigger] units@[j] == spec_unit(
                    nodes@,
                    tuning@,
                    channels as int,
                    j,
                ),
            forall|j: int|
                0 <= j < 3 * i ==> #[trigger] cells@[j] == spec_cells(nodes@, tuning@)[j],
            forall|t: int| 0 <= t < i ==> (#[trigger] taps@[t])@ =~= Seq::<u32>::empty(),
            p0 > 0 ==> last0 < i && last0 == spec_last_on_bus(
                nodes@.take(i as int),
                channels as int,
                0,
            ),
            p1 > 0 ==> last1 < i && last1 == spec_last_on_bus(
                nodes@.take(i as int),
                channels as int,
                1,
            ),
        decreases size - i,
    {
        let nd = nodes[i];
        let tv = tuning[i];
        let b = bus_of(nd.pan, channels);
        proof {
            assert(nodes@.take(i + 1).drop_last() =~= nodes@.take(i as int));
            assert(nodes@.take(i + 1).last() == nodes@[i as int]);
            lemma_count_bus_take_le(nodes@, channels as int, b as int, i + 1, size as int);
            assert(nodes@.take(size as int) =~= nodes@);
        }
        let port = if b == 1 {
            p1
        } else {
            p0
        };
        let gain_micro: u64 = UNIT_MICRO + SENSITIVITY_SCALE * tv.sensitivity_micro as u64;
        units.push(
            NodeUnit {
                f_n: nd.f_n,
                base_mhz: nd.base_mhz,
                max_mhz: nd.max_mhz,
                pan: nd.pan,
                bus: b,
                port,
                gain_micro,
                center_cell: 3 * i,
                q_cell: 3 * i + 1,
                freq_cell: 3 * i + 2,
                tap: i,
            },
        );
        cells.push(tv.center_mhz as i64);
        cells.push(q_micro);
        cells.push(nd.base_mhz as i64);
        taps.push(Tap::new());
        if b == 1 {
            p1 += 1;
            last1 = i;
        } else {
            p0 += 1;
            last0 = i;
        }
        i += 1;
        proof {
            assert(forall|j: int|
                0 <= j < 3 * i ==> #[trigger] cells@[j] == spec_cells(nodes@, tuning@)[j]);
        }
    }
    proof {
        assert(nodes@.take(size as int) =~= nodes@);
    }

    // Output combination stages, each with a tail resonator seeded from the
    // highest node it combines.
    let mut buses: Vec<Bus> = Vec::new();
    let src0 = nodes[last0];
    let mult0: u64 = if channels == 1 {
        5
    } else {
        2
    };
    buses.push(
        Bus {
            arity: ar0,
            resonator_center_mhz: src0.max_mhz as u64 * mult0,
            resonator_width_mhz: src0.max_mhz - src0.base_mhz,
            tap: size,
        },
    );
    taps.push(Tap::new());
    if channels == 2 {
        let src1 = nodes[last1];
        buses.push(
            Bus {
                arity: ar1,
                resonator_center_mhz: src1.max_mhz as u64 * 4,
                resonator_width_mhz: src1.max_mhz - src1.base_mhz,
                tap: size + 1,
            },
        );
        taps.push(Tap::new());
    }

    proof {
        assert forall|ii: int| 0 <= ii < units@.len() implies (#[trigger] units@[ii]).port
            < buses@[units@[ii].bus as int].arity by {
            let bb = spec_bus_of(nodes@[ii].pan, channels as int);
            assert(units@[ii] == spec_unit(nodes@, tuning@, channels as int, ii));
            assert(nodes@.take(ii + 1).drop_last() =~= nodes@.take(ii));
            assert(nodes@.take(ii + 1).last() == nodes@[ii]);
            lemma_count_bus_take_le(nodes@, channels as int, bb, ii + 1, nodes@.len() as int);
            assert(nodes@.take(nodes@.len() as int) =~= nodes@);
            lemma_count_bus_take_le(nodes@, channels as int, bb, 0, ii);
            assert(nodes@.take(0) =~= Seq::<Node>::empty());
            assert(spec_port(nodes@, channels as int, ii) < spec_count_bus(
                nodes@,
                channels as int,
                bb,
            ));
            assert(0 <= spec_port(nodes@, channels as int, ii));
            if bb == 1 {
                assert(buses@[1].arity == ar1);
            } else {
                assert(buses@[0].arity == ar0);
            }
        }
    }
    let net = Network {
        node_count: size,
        channel_count: channels,
        sample_rate_hz: config.sample_rate_hz,
        units,
        buses,
        cells,
        taps,
    };
    proof {
        assert(net.cells@ =~= spec_cells(nodes@, tuning@));
    }
    Ok(net)
}

} // verus!
