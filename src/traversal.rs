//! Walks over the network's parent and child links.
//!
//! All of them are total: a stale or dangling handle ends a walk with a
//! "not connected" answer rather than a failure.

use vstd::prelude::*;
use crate::entity::EntityId;
use crate::graph::NetworkGraph;

verus! {

/// Hop count from `entity` to `core` along parent links; `None` if the links
/// do not lead there.
pub fn distance_from_core(entity: EntityId, graph: &NetworkGraph, core: EntityId) -> (r: Option<u32>)
    requires
        graph.wf(),
    ensures
        match r {
            Some(d) => graph.distance(entity, core) == Some(d as nat),
            None => graph.distance(entity, core) == None::<nat>,
        },
{
    let ghost bound: nat = if graph.live(entity) { graph.node(entity).depth as nat } else { 0 };
    let mut current = entity;
    let mut steps: u32 = 0;
    loop
        invariant
            graph.wf(),
            bound <= crate::graph::MAX_DEPTH,
            graph.ancestor(entity, steps as nat) == Some(current),
            forall|j: nat| j < steps ==> graph.ancestor(entity, j) != Some(core),
            graph.live(current) ==> steps + graph.node(current).depth <= bound,
            steps <= bound + 1,
        decreases graph.rank(current),
    {
        if current == core {
            proof {
                graph.lemma_distance_unique(entity, core, steps as nat);
            }
            return Some(steps);
        }
        proof {
            graph.lemma_ancestor_step(entity, steps as nat);
        }
        match graph.parent(current) {
            Some(next) => {
                current = next;
                steps = steps + 1;
            },
            None => {
                proof {
                    assert forall|k: nat| graph.ancestor(entity, k) != Some(core) by {
                        if k > steps {
                            graph.lemma_ancestor_none_stays(entity, (steps + 1) as nat, k);
                        }
                    }
                }
                return None;
            },
        }
    }
}

/// Whether the parent links of `entity` lead to `core`.
pub fn is_connected_to_core(entity: EntityId, graph: &NetworkGraph, core: EntityId) -> (r: bool)
    requires
        graph.wf(),
    ensures
        r == graph.connected(entity, core),
{
    distance_from_core(entity, graph, core).is_some()
}

/// The nodes from `entity` to `core`, both included, in root-ward order;
/// `None` if the parent links do not lead there.
pub fn path_to_core(entity: EntityId, graph: &NetworkGraph, core: EntityId) -> (r: Option<Vec<EntityId>>)
    requires
        graph.wf(),
    ensures
        match r {
            Some(p) => graph.path(entity, core) == Some(p@),
            None => graph.path(entity, core) == None::<Seq<EntityId>>,
        },
{
    let ghost bound: nat = if graph.live(entity) { graph.node(entity).depth as nat } else { 0 };
    let mut path: Vec<EntityId> = Vec::new();
    let mut current = entity;
    let ghost mut steps: nat = 0;
    loop
        invariant
            graph.wf(),
            bound <= crate::graph::MAX_DEPTH,
            steps == path@.len(),
            graph.ancestor(entity, steps) == Some(current),
            forall|j: nat| j < steps ==> graph.ancestor(entity, j) != Some(core),
            forall|i: int| 0 <= i < steps ==> path@[i] == graph.hop(entity, i as nat),
            graph.live(current) ==> steps + graph.node(current).depth <= bound,
            steps <= bound + 1,
        decreases graph.rank(current),
    {
        path.push(current);
        if current == core {
            proof {
                graph.lemma_distance_unique(entity, core, steps);
                assert(path@ =~= Seq::new(steps + 1, |i: int| graph.hop(entity, i as nat)));
            }
            return Some(path);
        }
        proof {
            graph.lemma_ancestor_step(entity, steps);
        }
        match graph.parent(current) {
            Some(next) => {
                current = next;
                proof {
                    steps = steps + 1;
                }
            },
            None => {
                proof {
                    assert forall|k: nat| graph.ancestor(entity, k) != Some(core) by {
                        if k > steps {
                            graph.lemma_ancestor_none_stays(entity, steps + 1, k);
                        }
                    }
                }
                return None;
            },
        }
    }
}

/// How many entries of `s` are still `false`.
pub open spec fn count_unset(s: Seq<bool>) -> nat
    decreases s.len(),
{
    if s.len() == 0 {
        0
    } else {
        count_unset(s.drop_last()) + if s.last() {
            0nat
        } else {
            1nat
        }
    }
}

proof fn lemma_count_unset_set(s: Seq<bool>, i: int)
    requires
        0 <= i < s.len(),
        !s[i],
    ensures
        count_unset(s.update(i, true)) + 1 == count_unset(s),
    decreases s.len(),
{
    let t = s.update(i, true);
    if i == s.len() - 1 {
        assert(t.drop_last() =~= s.drop_last());
    } else {
        assert(t.drop_last() =~= s.drop_last().update(i, true));
        lemma_count_unset_set(s.drop_last(), i);
    }
}

/// Every live node whose parent links lead to `root` is in `found`, when
/// `found` holds `root` and the children of each of its live nodes.
proof fn lemma_closed_holds_downstream(graph: &NetworkGraph, root: EntityId, found: Seq<EntityId>, x: EntityId, k: nat)
    requires
        graph.wf(),
        graph.live(root),
        found.contains(root),
        forall|y: EntityId, c: EntityId|
            found.contains(y) && graph.live(y) && #[trigger] graph.children_of(y).contains(c) ==> found.contains(c),
        graph.ancestor(x, k) == Some(root),
    ensures
        found.contains(x),
    decreases k,
{
    if k > 0 {
        let p = graph.parent_of(x)->Some_0;
        assert(graph.ancestor(p, (k - 1) as nat) == Some(root));
        if k > 1 {
            assert(graph.parent_of(p) is Some);
        }
        assert(graph.live(p));
        lemma_closed_holds_downstream(graph, root, found, p, (k - 1) as nat);
        assert(graph.children_of(p).contains(x));
    }
}

fn push_all(stack: &mut Vec<EntityId>, items: &Vec<EntityId>)
    ensures
        final(stack)@ == old(stack)@ + items@,
{
    let mut j: usize = 0;
    while j < items.len()
        invariant
            j <= items@.len(),
            stack@ == old(stack)@ + items@.subrange(0, j as int),
        decreases items@.len() - j,
    {
        stack.push(items[j]);
        j = j + 1;
        assert(items@.subrange(0, j as int) =~= items@.subrange(0, j - 1) + seq![items@[j - 1]]);
    }
    assert(items@.subrange(0, items@.len() as int) =~= items@);
}

/// `entity` and every node below it along child links, each once, starting
/// with `entity`.
pub fn find_downstream_segments(entity: EntityId, graph: &NetworkGraph) -> (r: Vec<EntityId>)
    requires
        graph.wf(),
    ensures
        r@.len() > 0,
        r@[0] == entity,
        r@.no_duplicates(),
        graph.live(entity) ==> forall|x: EntityId| r@.contains(x) <==> graph.connected(x, entity),
        !graph.live(entity) ==> r@ == seq![entity],
{
    let n = graph.nodes.len();
    let mut visited: Vec<bool> = Vec::new();
    while visited.len() < n
        invariant
            n == graph.nodes@.len(),
            visited@.len() <= n,
            forall|i: int| 0 <= i < visited@.len() ==> !visited@[i],
        decreases n - visited.len(),
    {
        visited.push(false);
    }
    let mut result: Vec<EntityId> = Vec::new();
    let mut stack: Vec<EntityId> = Vec::new();
    stack.push(entity);
    assert(graph.ancestor(entity, 0) == Some(entity));
    while stack.len() > 0
        invariant
            graph.wf(),
            n == graph.nodes@.len(),
            visited@.len() == n,
            result@.len() == 0 ==> stack@ == seq![entity],
            result@.len() > 0 ==> result@[0] == entity,
            result@.no_duplicates(),
            forall|i: int|
                0 <= i < n ==> (visited@[i] <==> (graph.nodes@[i].alive && result@.contains(
                    EntityId { index: i as u32 },
                ))),
            forall|i: int| 0 <= i < stack@.len() ==> (stack@[i] == entity || graph.live(stack@[i])),
            forall|i: int| 0 <= i < result@.len() ==> (result@[i] == entity || graph.live(result@[i])),
            graph.live(entity) ==> forall|i: int|
                0 <= i < stack@.len() ==> graph.connected(#[trigger] stack@[i], entity),
            graph.live(entity) ==> forall|i: int|
                0 <= i < result@.len() ==> graph.connected(#[trigger] result@[i], entity),
            !graph.live(entity) ==> result@.len() == 0 || (result@ == seq![entity] && stack@.len() == 0),
            forall|y: EntityId, c: EntityId|
                result@.contains(y) && graph.live(y) && #[trigger] graph.children_of(y).contains(c)
                    ==> result@.contains(c) || stack@.contains(c),
        decreases count_unset(visited@), stack@.len(),
    {
        let ghost before = stack@;
        let ghost result_before = result@;
        let current = stack.pop().unwrap();
        assert(before == stack@.push(current));
        assert(before[before.len() - 1] == current);
        if !graph.contains(current) {
            assert(current == entity);
            assert(result@.len() == 0);
            result.push(current);
            assert(result@ =~= seq![entity]);
            assert forall|y: EntityId, c: EntityId|
                result@.contains(y) && graph.live(y) && #[trigger] graph.children_of(y).contains(c)
                implies result@.contains(c) || stack@.contains(c) by {
                assert(result@[0] == y);
            }
            continue;
        }
        let idx = current.index as usize;
        assert(current == EntityId { index: idx as u32 });
        if visited[idx] {
            assert forall|y: EntityId, c: EntityId|
                result@.contains(y) && graph.live(y) && #[trigger] graph.children_of(y).contains(c)
                implies result@.contains(c) || stack@.contains(c) by {
                if before.contains(c) && c != current {
                    let k = choose|k: int| 0 <= k < before.len() && before[k] == c;
                    assert(stack@[k] == c);
                }
            }
            continue;
        }
        proof {
            lemma_count_unset_set(visited@, idx as int);
        }
        visited.set(idx, true);
        result.push(current);
        assert(result@ == result_before.push(current));
        let ghost mid = stack@;
        push_all(&mut stack, &graph.nodes[idx].children);
        let ghost kids = graph.children_of(current);
        assert(stack@ == mid + kids);
        assert forall|i: int| 0 <= i < n implies (visited@[i] <==> (graph.nodes@[i].alive && result@.contains(
            EntityId { index: i as u32 },
        ))) by {
            if i != idx as int {
                if result@.contains(EntityId { index: i as u32 }) {
                    let k = choose|k: int| 0 <= k < result@.len() && result@[k] == EntityId { index: i as u32 };
                    if k < result_before.len() {
                        assert(result_before.contains(EntityId { index: i as u32 }));
                    }
                }
                if result_before.contains(EntityId { index: i as u32 }) {
                    let k = choose|k: int| 0 <= k < result_before.len() && result_before[k] == EntityId { index: i as u32 };
                    assert(result@[k] == EntityId { index: i as u32 });
                }
            } else {
                assert(result@[result@.len() - 1] == current);
            }
        }
        assert(!result_before.contains(current));
        assert forall|i: int| 0 <= i < stack@.len() implies (stack@[i] == entity || graph.live(stack@[i])) by {
            if i < mid.len() {
                assert(before[i] == stack@[i]);
            } else {
                assert(stack@[i] == kids[i - mid.len()]);
            }
        }
        proof {
            if graph.live(entity) {
                assert(graph.connected(current, entity));
                let k = choose|k: nat| graph.ancestor(current, k) == Some(entity);
                assert forall|i: int| 0 <= i < stack@.len() implies graph.connected(#[trigger] stack@[i], entity) by {
                    if i < mid.len() {
                        assert(before[i] == stack@[i]);
                    } else {
                        let c = kids[i - mid.len()];
                        assert(stack@[i] == c);
                        assert(graph.parent_of(c) == Some(current));
                        assert(graph.ancestor(c, k + 1) == graph.ancestor(current, k));
                    }
                }
                assert forall|i: int| 0 <= i < result@.len() implies graph.connected(#[trigger] result@[i], entity) by {
                    if i < result_before.len() {
                        assert(result_before[i] == result@[i]);
                    }
                }
            }
        }
        assert forall|i: int| 0 <= i < result@.len() implies (result@[i] == entity || graph.live(result@[i])) by {
            if i < result_before.len() {
                assert(result_before[i] == result@[i]);
            }
        }
        assert forall|y: EntityId, c: EntityId|
            result@.contains(y) && graph.live(y) && #[trigger] graph.children_of(y).contains(c)
            implies result@.contains(c) || stack@.contains(c) by {
            if y == current {
                let k = choose|k: int| 0 <= k < kids.len() && kids[k] == c;
                assert(stack@[mid.len() + k] == c);
            } else {
                let ky = choose|k: int| 0 <= k < result@.len() && result@[k] == y;
                assert(result_before[ky] == y);
                if result_before.contains(c) {
                    let k = choose|k: int| 0 <= k < result_before.len() && result_before[k] == c;
                    assert(result@[k] == c);
                } else if c == current {
                    assert(result@[result@.len() - 1] == c);
                } else {
                    let k = choose|k: int| 0 <= k < before.len() && before[k] == c;
                    assert(stack@[k] == c);
                }
            }
        }
    }
    proof {
        assert(result@.len() > 0);
        if graph.live(entity) {
            assert(result@[0] == entity);
            assert(result@.contains(entity));
            assert forall|x: EntityId| result@.contains(x) <==> graph.connected(x, entity) by {
                if graph.connected(x, entity) {
                    let k = choose|k: nat| graph.ancestor(x, k) == Some(entity);
                    lemma_closed_holds_downstream(graph, entity, result@, x, k);
                }
                if result@.contains(x) {
                    let k = choose|k: int| 0 <= k < result@.len() && result@[k] == x;
                    assert(graph.connected(result@[k], entity));
                }
            }
        }
    }
    result
}

/// For every node connected to `core`, the path to the core ends in the core
/// and holds one node more than the hop count.
pub proof fn lemma_path_matches_distance(graph: &NetworkGraph, s: EntityId, core: EntityId)
    requires
        graph.connected(s, core),
    ensures
        graph.distance(s, core) is Some,
        graph.path(s, core) is Some,
        graph.path(s, core)->Some_0.last() == core,
        graph.path(s, core)->Some_0.len() == graph.distance(s, core)->Some_0 + 1,
{
    let k = choose|k: nat| graph.ancestor(s, k) == Some(core);
    graph.lemma_least_distance(s, core, k);
    let d = choose|d: nat| d <= k && graph.is_distance(s, core, d);
    graph.lemma_distance_unique(s, core, d);
    let p = graph.path(s, core)->Some_0;
    assert(p[d as int] == graph.hop(s, d));
}

/// A node whose parent links do not lead to `core` has neither a hop count
/// nor a path to it.
pub proof fn lemma_unconnected_has_no_distance(graph: &NetworkGraph, e: EntityId, core: EntityId)
    requires
        !graph.connected(e, core),
    ensures
        graph.distance(e, core) == None::<nat>,
        graph.path(e, core) == None::<Seq<EntityId>>,
{
}

} // verus!
