//! The core node: spawned when a run starts, removed on return to the menu,
//! and the run is lost when its health runs out.

use vstd::prelude::*;
use crate::entity::{EntityId, Point, Offset};
use crate::graph::NetworkGraph;
use crate::health::Health;
use crate::state::GameState;

verus! {

/// Hit points the core node starts with.
pub const CORE_NODE_HEALTH: u64 = 100;

/// The handle of the core node, kept for quick access.
#[derive(Clone, Copy, PartialEq, Eq, Structural, Debug)]
pub struct CoreNodeEntity(pub EntityId);

/// Whether slot `i` holds a live core node.
pub open spec fn is_live_core(g: NetworkGraph, i: int) -> bool {
    0 <= i < g.nodes@.len() && g.nodes@[i].alive && g.nodes@[i].is_core
}

/// Spawn the core node: a root at the world origin with full health.
pub fn spawn_core_node(graph: &mut NetworkGraph) -> (r: CoreNodeEntity)
    requires
        old(graph).wf(),
        old(graph).can_spawn_under(None),
    ensures
        final(graph).wf(),
        r.0.index == old(graph).len(),
        final(graph).nodes@.len() == old(graph).nodes@.len() + 1,
        forall|i: int| 0 <= i < old(graph).nodes@.len() ==> final(graph).nodes@[i] == old(graph).nodes@[i],
        final(graph).live(r.0),
        final(graph).node(r.0).is_core,
        final(graph).node(r.0).parent == None::<EntityId>,
        final(graph).node(r.0).children@.len() == 0,
        final(graph).node(r.0).health == (Health { current: CORE_NODE_HEALTH, max: CORE_NODE_HEALTH }),
        final(graph).node(r.0).position == Point::origin_spec(),
        final(graph).node(r.0).tip == None::<crate::graph::GrowthTip>,
{
    let e = graph.spawn(
        None,
        Point::origin(),
        Offset { dx: 0, dy: 0 },
        Health::new(CORE_NODE_HEALTH),
        true,
        None,
    );
    CoreNodeEntity(e)
}

/// Remove every core node with everything below it, and clear the handle.
pub fn despawn_core_node(graph: &mut NetworkGraph, core: &mut Option<CoreNodeEntity>)
    requires
        old(graph).wf(),
    ensures
        final(graph).wf(),
        final(graph).len() == old(graph).len(),
        *final(core) == None::<CoreNodeEntity>,
        forall|i: int| !is_live_core(*final(graph), i),
        forall|x: EntityId| #[trigger] final(graph).live(x) ==> old(graph).live(x),
        forall|x: EntityId|
            old(graph).live(x) && !old(graph).node(x).is_core && (forall|c: EntityId|
                old(graph).live(c) && old(graph).node(c).is_core ==> !#[trigger] old(graph).connected(x, c))
                ==> #[trigger] final(graph).live(x),
{
    let ghost start = *graph;
    let n = graph.slot_count();
    let mut i: usize = 0;
    while i < n
        invariant
            graph.wf(),
            n == graph.len(),
            graph.len() == start.len(),
            i <= n,
            forall|j: int| 0 <= j < i ==> !is_live_core(*graph, j),
            forall|x: EntityId| #[trigger] graph.live(x) ==> start.live(x),
            NetworkGraph::keeps_attrs(start, *graph),
            forall|x: EntityId|
                start.live(x) && !start.node(x).is_core && (forall|c: EntityId|
                    start.live(c) && start.node(c).is_core ==> !#[trigger] start.connected(x, c))
                    ==> #[trigger] graph.live(x),
        decreases n - i,
    {
        let e = EntityId { index: i as u32 };
        if graph.contains(e) && graph.nodes[i].is_core {
            let ghost before = *graph;
            graph.despawn_recursive(e);
            proof {
                assert(start.live(e) && start.node(e).is_core);
                assert forall|x: EntityId|
                    start.live(x) && !start.node(x).is_core && (forall|c: EntityId|
                        start.live(c) && start.node(c).is_core ==> !#[trigger] start.connected(x, c))
                        implies #[trigger] graph.live(x) by {
                    assert(before.live(x));
                    if before.connected(x, e) {
                        let k = choose|k: nat| before.ancestor(x, k) == Some(e);
                        before.lemma_ancestor_shrinks(start, x, k);
                        assert(start.connected(x, e));
                    }
                }
                assert forall|j: int| 0 <= j < i + 1 implies !is_live_core(*graph, j) by {
                    if j == i {
                        assert(before.connected(e, e)) by {
                            assert(before.ancestor(e, 0) == Some(e));
                        }
                        assert(!graph.live(e));
                    } else {
                        assert(!is_live_core(before, j));
                        if is_live_core(*graph, j) {
                            assert(graph.live(EntityId { index: j as u32 }));
                        }
                    }
                }
            }
        }
        i = i + 1;
    }
    *core = None;
}

/// The state to enter when the core node has died: `GameOver` when exactly
/// one core node is live and its health is gone, `None` otherwise.
pub fn check_core_death(graph: &NetworkGraph) -> (r: Option<GameState>)
    ensures
        r == (if exists|i: int| is_live_core(*graph, i) && graph.nodes@[i].health.current == 0
            && forall|j: int| is_live_core(*graph, j) ==> j == i {
            Some(GameState::GameOver)
        } else {
            None
        }),
{
    let mut found: Option<usize> = None;
    let mut many = false;
    let mut i: usize = 0;
    while i < graph.nodes.len()
        invariant
            i <= graph.nodes@.len(),
            !many ==> match found {
                Some(k) => k < i && is_live_core(*graph, k as int) && forall|j: int|
                    0 <= j < i && is_live_core(*graph, j) ==> j == k,
                None => forall|j: int| 0 <= j < i ==> !is_live_core(*graph, j),
            },
            many ==> exists|a: int, b: int|
                0 <= a < b < i && is_live_core(*graph, a) && is_live_core(*graph, b),
        decreases graph.nodes@.len() - i,
    {
        if graph.nodes[i].alive && graph.nodes[i].is_core {
            match found {
                Some(k) => {
                    if !many {
                        assert(0 <= k < i < i + 1 && is_live_core(*graph, k as int) && is_live_core(*graph, i as int));
                    }
                    many = true;
                },
                None => {
                    found = Some(i);
                },
            }
        }
        i = i + 1;
    }
    if many {
        return None;
    }
    match found {
        Some(k) => if graph.nodes[k].health.is_dead() {
            Some(GameState::GameOver)
        } else {
            None
        },
        None => None,
    }
}

} // verus!
