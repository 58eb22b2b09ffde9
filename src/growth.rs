//! Growth-tip selection and aiming.
//!
//! A click selects the growth tip nearest to the cursor within a fixed radius,
//! and clears the selection when none is in reach. Every frame, the selected
//! tip turns toward the cursor.

use vstd::prelude::*;
use crate::entity::{EntityId, Point, dist_sq, lemma_dist_sq_symmetric, distance_squared, is_cursor_near_tip, offset, offset_between};
use crate::graph::{NetworkGraph, Node};
use crate::input::{InputActions, CursorWorldPosition};

verus! {

/// How near the cursor a growth tip must be to be picked, in world units.
pub const TIP_SELECTION_RADIUS: u32 = 12;

/// The growth tip that the player has selected, if any. The handle is not
/// cleared when its entity is despawned.
#[derive(Clone, Copy, PartialEq, Eq, Structural, Debug)]
pub struct ActiveGrowthTip(pub Option<EntityId>);

impl Default for ActiveGrowthTip {
    fn default() -> (r: ActiveGrowthTip)
        ensures
            r.0 == None::<EntityId>,
    {
        ActiveGrowthTip(None)
    }
}

/// Whether slot `i` holds a live growth tip within the selection radius of `cursor`.
pub open spec fn tip_in_reach(g: NetworkGraph, i: int, cursor: Point) -> bool {
    &&& 0 <= i < g.nodes@.len()
    &&& g.nodes@[i].alive
    &&& g.nodes@[i].tip is Some
    &&& dist_sq(g.nodes@[i].position, cursor) <= TIP_SELECTION_RADIUS * TIP_SELECTION_RADIUS
}

/// Whether slot `w` holds the tip that a click at `cursor` picks: in reach,
/// no farther than any other tip in reach, and strictly nearer than those in
/// earlier slots.
pub open spec fn is_nearest_tip(g: NetworkGraph, w: int, cursor: Point) -> bool {
    &&& tip_in_reach(g, w, cursor)
    &&& forall|j: int|
        tip_in_reach(g, j, cursor) ==> dist_sq(g.nodes@[w].position, cursor) <= dist_sq(
            g.nodes@[j].position,
            cursor,
        )
    &&& forall|j: int|
        0 <= j < w && tip_in_reach(g, j, cursor) ==> dist_sq(g.nodes@[w].position, cursor) < dist_sq(
            g.nodes@[j].position,
            cursor,
        )
}

/// The slot of the tip nearest to `cursor` in reach of it, if any.
fn nearest_tip(graph: &NetworkGraph, cursor: Point) -> (r: Option<usize>)
    ensures
        match r {
            Some(w) => is_nearest_tip(*graph, w as int, cursor),
            None => forall|j: int| !tip_in_reach(*graph, j, cursor),
        },
{
    let mut best: Option<usize> = None;
    let mut best_dist: u128 = 0;
    let mut i: usize = 0;
    while i < graph.nodes.len()
        invariant
            i <= graph.nodes@.len(),
            match best {
                Some(w) => {
                    &&& w < i
                    &&& tip_in_reach(*graph, w as int, cursor)
                    &&& best_dist == dist_sq(graph.nodes@[w as int].position, cursor)
                    &&& forall|j: int|
                        0 <= j < i && tip_in_reach(*graph, j, cursor) ==> best_dist <= dist_sq(
                            graph.nodes@[j].position,
                            cursor,
                        )
                    &&& forall|j: int|
                        0 <= j < w && tip_in_reach(*graph, j, cursor) ==> best_dist < dist_sq(
                            graph.nodes@[j].position,
                            cursor,
                        )
                },
                None => forall|j: int| 0 <= j < i ==> !tip_in_reach(*graph, j, cursor),
            },
        decreases graph.nodes@.len() - i,
    {
        let node = &graph.nodes[i];
        if node.alive && node.tip.is_some() && is_cursor_near_tip(cursor, node.position, TIP_SELECTION_RADIUS) {
            let d = distance_squared(node.position, cursor);
            proof {
                lemma_dist_sq_symmetric(cursor, node.position);
            }
            let better = match best {
                Some(_) => d < best_dist,
                None => true,
            };
            if better {
                best = Some(i);
                best_dist = d;
            }
        } else {
            proof {
                if graph.nodes@[i as int].alive && graph.nodes@[i as int].tip is Some {
                    lemma_dist_sq_symmetric(cursor, node.position);
                }
            }
        }
        i = i + 1;
    }
    best
}

/// Whether the selected flags agree with the active slot: a live growth tip is
/// selected exactly when the slot names it.
pub open spec fn selection_consistent(g: NetworkGraph, active: Option<EntityId>) -> bool {
    forall|i: int|
        0 <= i < g.nodes@.len() && g.nodes@[i].alive && #[trigger] g.nodes@[i].tip is Some ==> (
        g.nodes@[i].tip->Some_0.selected <==> active == Some(EntityId { index: i as u32 }))
}

/// The slots whose growth tip a click changes, and to what.
pub open spec fn selection_after(
    g: NetworkGraph,
    previous: Option<EntityId>,
    chosen: Option<EntityId>,
    i: int,
) -> Node {
    if chosen == Some(EntityId { index: i as u32 }) {
        NetworkGraph::with_selected(g.nodes@[i], true)
    } else if previous == Some(EntityId { index: i as u32 }) && g.nodes@[i].alive {
        NetworkGraph::with_selected(g.nodes@[i], false)
    } else {
        g.nodes@[i]
    }
}

/// On a click with the cursor in the world: deselect the previously active
/// tip, then select the tip nearest to the cursor within
/// [`TIP_SELECTION_RADIUS`], or clear the selection when none is in reach.
/// Without such a click nothing changes.
pub fn select_growth_tip(
    input: &InputActions,
    cursor_position: &CursorWorldPosition,
    active_tip: &mut ActiveGrowthTip,
    graph: &mut NetworkGraph,
)
    requires
        old(graph).wf(),
    ensures
        final(graph).wf(),
        selection_consistent(*old(graph), old(active_tip).0) ==> selection_consistent(
            *final(graph),
            final(active_tip).0,
        ),
        !(input.primary_just_pressed && cursor_position.position is Some) ==> {
            &&& *final(graph) == *old(graph)
            &&& *final(active_tip) == *old(active_tip)
        },
        input.primary_just_pressed && cursor_position.position is Some ==> {
            let cursor = cursor_position.position->Some_0;
            &&& match final(active_tip).0 {
                Some(w) => is_nearest_tip(*old(graph), w.index as int, cursor),
                None => forall|j: int| !tip_in_reach(*old(graph), j, cursor),
            }
            &&& final(graph).nodes@.len() == old(graph).nodes@.len()
            &&& forall|i: int|
                0 <= i < old(graph).nodes@.len() ==> final(graph).nodes@[i] == selection_after(
                    *old(graph),
                    old(active_tip).0,
                    final(active_tip).0,
                    i,
                )
        },
{
    if !input.primary_just_pressed {
        return;
    }
    let cursor = match cursor_position.position {
        Some(c) => c,
        None => return ,
    };
    let ghost start = *graph;
    if let Some(previous) = active_tip.0 {
        graph.set_selected(previous, false);
    }
    let ghost cleared = *graph;
    assert(cleared.nodes@.len() == start.nodes@.len());
    assert forall|j: int| 0 <= j < start.nodes@.len() implies {
        &&& #[trigger] cleared.nodes@[j].alive == start.nodes@[j].alive
        &&& cleared.nodes@[j].position == start.nodes@[j].position
        &&& cleared.nodes@[j].tip is Some == start.nodes@[j].tip is Some
        &&& cleared.nodes@[j] == (if old(active_tip).0 == Some(EntityId { index: j as u32 }) && start.nodes@[j].alive {
            NetworkGraph::with_selected(start.nodes@[j], false)
        } else {
            start.nodes@[j]
        })
    } by {
        if old(active_tip).0 is Some {
            let p = old(active_tip).0->Some_0;
            if p.index == j {
                assert(p == EntityId { index: j as u32 });
            }
        }
    }
    assert forall|j: int| #[trigger] tip_in_reach(cleared, j, cursor) == tip_in_reach(start, j, cursor) by {
        if 0 <= j < start.nodes@.len() {
            assert(cleared.nodes@[j].alive == start.nodes@[j].alive);
        }
    }
    let chosen = nearest_tip(graph, cursor);
    match chosen {
        Some(w) => {
            let e = EntityId { index: w as u32 };
            graph.set_selected(e, true);
            active_tip.0 = Some(e);
        },
        None => {
            active_tip.0 = None;
        },
    }
    proof {
        match chosen {
            Some(w) => {
                assert(is_nearest_tip(start, w as int, cursor)) by {
                    assert(cleared.nodes@[w as int].position == start.nodes@[w as int].position);
                    assert forall|j: int| tip_in_reach(start, j, cursor) implies dist_sq(
                        start.nodes@[w as int].position,
                        cursor,
                    ) <= dist_sq(start.nodes@[j].position, cursor) by {
                        assert(tip_in_reach(cleared, j, cursor));
                        assert(cleared.nodes@[j].position == start.nodes@[j].position);
                    }
                    assert forall|j: int| 0 <= j < w && tip_in_reach(start, j, cursor) implies dist_sq(
                        start.nodes@[w as int].position,
                        cursor,
                    ) < dist_sq(start.nodes@[j].position, cursor) by {
                        assert(tip_in_reach(cleared, j, cursor));
                        assert(cleared.nodes@[j].position == start.nodes@[j].position);
                    }
                }
            },
            None => {
                assert forall|j: int| !tip_in_reach(start, j, cursor) by {
                    assert(!tip_in_reach(cleared, j, cursor));
                }
            },
        }
        assert forall|i: int| 0 <= i < start.nodes@.len() implies graph.nodes@[i] == selection_after(
            start,
            old(active_tip).0,
            active_tip.0,
            i,
        ) by {
            let e = EntityId { index: i as u32 };
            assert(cleared.nodes@[i].alive == start.nodes@[i].alive);
            if active_tip.0 == Some(e) {
                assert(chosen == Some(i as usize));
                assert(cleared.nodes@[i].tip is Some);
                assert(start.nodes@[i].tip is Some);
            }
        }
        if selection_consistent(start, old(active_tip).0) {
            assert forall|i: int|
                0 <= i < graph.nodes@.len() && graph.nodes@[i].alive && #[trigger] graph.nodes@[i].tip is Some
                implies (graph.nodes@[i].tip->Some_0.selected <==> active_tip.0 == Some(
                EntityId { index: i as u32 },
            )) by {
                assert(graph.nodes@[i] == selection_after(start, old(active_tip).0, active_tip.0, i));
                assert(start.nodes@[i].tip is Some);
            }
        }
    }
}

/// Turn the selected growth tip toward the cursor. Nothing changes when the
/// cursor is outside the world, no tip is selected, or the selected handle no
/// longer names a live growth tip.
pub fn update_selected_tip_direction(
    cursor_position: &CursorWorldPosition,
    active_tip: &ActiveGrowthTip,
    graph: &mut NetworkGraph,
)
    requires
        old(graph).wf(),
    ensures
        final(graph).wf(),
        ({
            let aimed = cursor_position.position is Some && active_tip.0 is Some && old(graph).live(
                active_tip.0->Some_0,
            ) && old(graph).node(active_tip.0->Some_0).tip is Some;
            &&& !aimed ==> *final(graph) == *old(graph)
            &&& aimed ==> {
                let t = active_tip.0->Some_0;
                final(graph).nodes@ == old(graph).nodes@.update(
                    t.index as int,
                    Node {
                        facing: offset_between(old(graph).node(t).position, cursor_position.position->Some_0),
                        ..old(graph).node(t)
                    },
                )
            }
        }),
{
    let cursor = match cursor_position.position {
        Some(c) => c,
        None => return ,
    };
    let t = match active_tip.0 {
        Some(t) => t,
        None => return ,
    };
    if graph.tip(t).is_none() {
        return;
    }
    let position = graph.position(t).unwrap();
    graph.set_facing(t, offset(position, cursor));
}

} // verus!
