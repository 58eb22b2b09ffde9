//! Aggregate figures of the network, read by the economy and the overlay.

use vstd::prelude::*;
use crate::entity::EntityId;
use crate::graph::NetworkGraph;
use crate::traversal::is_connected_to_core;

verus! {

/// Network statistics. Mass is in hit points and coverage in thousandths of
/// the explorable space.
#[derive(Clone, Copy, PartialEq, Eq, Structural, Debug, Default)]
pub struct NetworkStats {
    /// Total mass (health) of the network
    pub total_mass: u64,
    /// Maximum mass achieved
    pub max_mass: u64,
    /// Number of tendril segments
    pub segment_count: u32,
    /// Number of active growth tips
    pub tip_count: u32,
    /// Territory coverage, in thousandths
    pub territory_coverage: u32,
    /// Number of segments connected to core
    pub connected_segments: u32,
    /// Number of severed segments
    pub severed_segments: u32,
}

/// How the network grows and decays.
#[derive(Clone, Copy, PartialEq, Eq, Structural, Debug)]
pub struct NetworkConfig {
    /// Length of each tendril segment in world units
    pub segment_length: u32,
    /// Health of a new segment
    pub segment_health: u64,
    /// Hit points per second that a severed segment loses
    pub decay_rate: u64,
    /// Time before a severed segment starts decaying, in microseconds
    pub decay_start_delay_micros: u64,
}

impl Default for NetworkConfig {
    fn default() -> (r: NetworkConfig)
        ensures
            r == (NetworkConfig {
                segment_length: 16,
                segment_health: 50,
                decay_rate: 10,
                decay_start_delay_micros: 2_000_000,
            }),
    {
        NetworkConfig { segment_length: 16, segment_health: 50, decay_rate: 10, decay_start_delay_micros: 2_000_000 }
    }
}

/// Whether slot `i` holds a live tendril segment (a live node other than a core).
pub open spec fn is_segment(g: NetworkGraph, i: int) -> bool {
    g.nodes@[i].alive && !g.nodes@[i].is_core
}

/// How many of the first `n` slots hold live segments.
pub open spec fn count_segments(g: NetworkGraph, n: int) -> nat
    decreases n,
{
    if n <= 0 {
        0
    } else {
        count_segments(g, n - 1) + if is_segment(g, n - 1) {
            1nat
        } else {
            0nat
        }
    }
}

/// How many of the first `n` slots hold live segments connected to `core`.
pub open spec fn count_connected(g: NetworkGraph, core: EntityId, n: int) -> nat
    decreases n,
{
    if n <= 0 {
        0
    } else {
        count_connected(g, core, n - 1) + if is_segment(g, n - 1) && g.connected(
            EntityId { index: (n - 1) as u32 },
            core,
        ) {
            1nat
        } else {
            0nat
        }
    }
}

/// How many of the first `n` slots hold live growth tips.
pub open spec fn count_tips(g: NetworkGraph, n: int) -> nat
    decreases n,
{
    if n <= 0 {
        0
    } else {
        count_tips(g, n - 1) + if g.nodes@[n - 1].alive && g.nodes@[n - 1].tip is Some {
            1nat
        } else {
            0nat
        }
    }
}

/// The health of the live nodes among the first `n` slots, added up.
pub open spec fn sum_mass(g: NetworkGraph, n: int) -> nat
    decreases n,
{
    if n <= 0 {
        0
    } else {
        sum_mass(g, n - 1) + if g.nodes@[n - 1].alive {
            g.nodes@[n - 1].health.current as nat
        } else {
            0nat
        }
    }
}

proof fn lemma_counts_bounded(g: NetworkGraph, core: EntityId, n: int)
    requires
        n >= 0,
    ensures
        count_connected(g, core, n) <= count_segments(g, n),
        count_segments(g, n) <= n,
        count_tips(g, n) <= n,
        sum_mass(g, n) <= n * 0xffff_ffff_ffff_ffff,
    decreases n,
{
    if n > 0 {
        lemma_counts_bounded(g, core, n - 1);
    }
}

/// Recount the network's figures from `graph`: segments, growth tips,
/// segments connected to `core` and severed from it, and total health, with
/// the maximum total health seen. Territory coverage is kept.
pub fn update_network_stats(stats: &mut NetworkStats, graph: &NetworkGraph, core: EntityId)
    requires
        graph.wf(),
    ensures
        ({
            let n = graph.nodes@.len() as int;
            let mass = if sum_mass(*graph, n) > u64::MAX {
                u64::MAX as int
            } else {
                sum_mass(*graph, n) as int
            };
            &&& final(stats).segment_count == count_segments(*graph, n)
            &&& final(stats).tip_count == count_tips(*graph, n)
            &&& final(stats).connected_segments == count_connected(*graph, core, n)
            &&& final(stats).severed_segments == count_segments(*graph, n) - count_connected(*graph, core, n)
            &&& final(stats).total_mass == mass
            &&& final(stats).max_mass == if mass > old(stats).max_mass {
                mass
            } else {
                old(stats).max_mass as int
            }
            &&& final(stats).territory_coverage == old(stats).territory_coverage
        }),
{
    let n = graph.nodes.len();
    let mut segments: u32 = 0;
    let mut tips: u32 = 0;
    let mut connected: u32 = 0;
    let mut mass: u128 = 0;
    let mut i: usize = 0;
    while i < n
        invariant
            graph.wf(),
            n == graph.nodes@.len(),
            i <= n,
            segments == count_segments(*graph, i as int),
            tips == count_tips(*graph, i as int),
            connected == count_connected(*graph, core, i as int),
            mass == sum_mass(*graph, i as int),
        decreases n - i,
    {
        proof {
            lemma_counts_bounded(*graph, core, i as int);
            assert(n <= u32::MAX);
        }
        let node = &graph.nodes[i];
        if node.alive {
            mass = mass + node.health.current as u128;
            if !node.is_core {
                segments = segments + 1;
                if is_connected_to_core(EntityId { index: i as u32 }, graph, core) {
                    connected = connected + 1;
                }
            }
            if node.tip.is_some() {
                tips = tips + 1;
            }
        }
        i = i + 1;
    }
    proof {
        lemma_counts_bounded(*graph, core, n as int);
    }
    let total: u64 = if mass > u64::MAX as u128 {
        u64::MAX
    } else {
        mass as u64
    };
    stats.segment_count = segments;
    stats.tip_count = tips;
    stats.connected_segments = connected;
    stats.severed_segments = segments - connected;
    stats.total_mass = total;
    if total > stats.max_mass {
        stats.max_mass = total;
    }
}

} // verus!
