//! The network store: nodes addressed by handles, with parent and child links.
//!
//! Every node but a root holds one parent handle, toward the core. A parent
//! handle may dangle: a despawned parent leaves its children severed. Child
//! lists are kept consistent with parent handles by the store's own mutation
//! methods, and depths strictly decrease toward the root, so every walk along
//! parent links ends.

use vstd::prelude::*;
use crate::entity::{EntityId, Point, Offset};
use crate::health::{Health, damaged, healed};

verus! {

/// The deepest a node may sit below its root.
pub const MAX_DEPTH: u32 = 0xffff_fffe;

/// Marks a node that the player may extend; at most one is selected.
#[derive(Clone, Copy, PartialEq, Eq, Structural, Debug)]
pub struct GrowthTip {
    pub selected: bool,
}

/// One slot of the store.
#[derive(Debug)]
pub struct Node {
    pub alive: bool,
    pub is_core: bool,
    pub parent: Option<EntityId>,
    pub children: Vec<EntityId>,
    pub depth: u32,
    pub health: Health,
    pub position: Point,
    pub facing: Offset,
    pub tip: Option<GrowthTip>,
}

/// The store of network nodes. Handles are slot indices and are never reused.
#[derive(Debug)]
pub struct NetworkGraph {
    pub nodes: Vec<Node>,
}

impl NetworkGraph {
    pub open spec fn len(self) -> nat {
        self.nodes@.len()
    }

    /// The slot that `e` addresses.
    pub open spec fn node(self, e: EntityId) -> Node {
        self.nodes@[e.index as int]
    }

    /// Whether `e` names a node that has not been despawned.
    pub open spec fn live(self, e: EntityId) -> bool {
        e.index < self.nodes@.len() && self.nodes@[e.index as int].alive
    }

    /// The parent handle of `e`; `None` for a root or a stale handle.
    pub open spec fn parent_of(self, e: EntityId) -> Option<EntityId> {
        if self.live(e) {
            self.node(e).parent
        } else {
            None
        }
    }

    /// The child handles of `e`; empty for a stale handle.
    pub open spec fn children_of(self, e: EntityId) -> Seq<EntityId> {
        if self.live(e) {
            self.node(e).children@
        } else {
            Seq::empty()
        }
    }

    /// A bound on the number of parent links that can still follow `e`.
    pub open spec fn rank(self, e: EntityId) -> nat {
        if self.live(e) {
            self.node(e).depth as nat + 1
        } else {
            0
        }
    }

    pub open spec fn wf(self) -> bool {
        &&& self.nodes@.len() <= u32::MAX
        &&& forall|e: EntityId| #[trigger] self.live(e) ==> {
            &&& self.node(e).depth <= MAX_DEPTH
            &&& self.node(e).parent is Some ==> self.node(e).parent->Some_0.index < self.nodes@.len()
        }
        &&& forall|e: EntityId, p: EntityId|
            #![trigger self.parent_of(e), self.live(p)]
            self.parent_of(e) == Some(p) && self.live(p) ==> {
                &&& self.node(p).depth < self.node(e).depth
                &&& self.children_of(p).contains(e)
            }
        &&& forall|p: EntityId, i: int|
            #![trigger self.children_of(p)[i]]
            0 <= i < self.children_of(p).len() ==> {
                &&& self.live(self.children_of(p)[i])
                &&& self.parent_of(self.children_of(p)[i]) == Some(p)
            }
    }

    /// The node reached from `e` after `k` parent links, if the walk gets there.
    pub open spec fn ancestor(self, e: EntityId, k: nat) -> Option<EntityId>
        decreases k,
    {
        if k == 0 {
            Some(e)
        } else {
            match self.parent_of(e) {
                Some(p) => self.ancestor(p, (k - 1) as nat),
                None => None,
            }
        }
    }

    /// Whether the parent links of `e` lead to `core`.
    pub open spec fn connected(self, e: EntityId, core: EntityId) -> bool {
        exists|k: nat| self.ancestor(e, k) == Some(core)
    }

    /// Whether `d` is the fewest parent links that lead from `e` to `core`.
    pub open spec fn is_distance(self, e: EntityId, core: EntityId, d: nat) -> bool {
        &&& self.ancestor(e, d) == Some(core)
        &&& forall|j: nat| j < d ==> self.ancestor(e, j) != Some(core)
    }

    /// The hop count from `e` to `core`, if they are connected.
    pub open spec fn distance(self, e: EntityId, core: EntityId) -> Option<nat> {
        if self.connected(e, core) {
            Some(choose|d: nat| self.is_distance(e, core, d))
        } else {
            None
        }
    }

    /// The `i`-th node on the walk from `e` toward the root.
    pub open spec fn hop(self, e: EntityId, i: nat) -> EntityId {
        match self.ancestor(e, i) {
            Some(a) => a,
            None => e,
        }
    }

    /// The nodes from `e` to `core`, both included, if they are connected.
    pub open spec fn path(self, e: EntityId, core: EntityId) -> Option<Seq<EntityId>> {
        match self.distance(e, core) {
            Some(d) => Some(Seq::new(d + 1, |i: int| self.hop(e, i as nat))),
            None => None,
        }
    }

    pub proof fn lemma_ancestor_step(self, e: EntityId, k: nat)
        ensures
            self.ancestor(e, k + 1) == match self.ancestor(e, k) {
                Some(a) => self.parent_of(a),
                None => None,
            },
        decreases k,
    {
        match self.parent_of(e) {
            Some(p) => {
                assert(self.ancestor(e, k + 1) == self.ancestor(p, k));
                if k == 0 {
                    assert(self.ancestor(p, 0) == Some(p));
                } else {
                    self.lemma_ancestor_step(p, (k - 1) as nat);
                    assert(self.ancestor(e, k) == self.ancestor(p, (k - 1) as nat));
                }
            },
            None => {},
        }
    }

    pub proof fn lemma_ancestor_none_stays(self, e: EntityId, n: nat, m: nat)
        requires
            self.ancestor(e, n) == None::<EntityId>,
            n <= m,
        ensures
            self.ancestor(e, m) == None::<EntityId>,
        decreases m - n,
    {
        if n < m {
            self.lemma_ancestor_step(e, n);
            self.lemma_ancestor_none_stays(e, n + 1, m);
        }
    }

    pub proof fn lemma_least_distance(self, e: EntityId, core: EntityId, k: nat)
        requires
            self.ancestor(e, k) == Some(core),
        ensures
            exists|d: nat| d <= k && self.is_distance(e, core, d),
        decreases k,
    {
        if exists|j: nat| j < k && self.ancestor(e, j) == Some(core) {
            let j = choose|j: nat| j < k && self.ancestor(e, j) == Some(core);
            self.lemma_least_distance(e, core, j);
        } else {
            assert(self.is_distance(e, core, k));
        }
    }

    pub proof fn lemma_distance_unique(self, e: EntityId, core: EntityId, d: nat)
        requires
            self.is_distance(e, core, d),
        ensures
            self.connected(e, core),
            self.distance(e, core) == Some(d),
    {
        let c = choose|c: nat| self.is_distance(e, core, c);
        assert(self.is_distance(e, core, c));
        if c < d {
            assert(self.ancestor(e, c) != Some(core));
        } else if d < c {
            assert(self.ancestor(e, d) != Some(core));
        }
    }

    /// A store with no node.
    pub fn new() -> (r: NetworkGraph)
        ensures
            r.wf(),
            r.len() == 0,
    {
        NetworkGraph { nodes: Vec::new() }
    }

    /// Whether `e` names a live node.
    pub fn contains(&self, e: EntityId) -> (r: bool)
        ensures
            r == self.live(e),
    {
        (e.index as usize) < self.nodes.len() && self.nodes[e.index as usize].alive
    }

    /// The parent handle of `e`, if `e` is live and not a root.
    pub fn parent(&self, e: EntityId) -> (r: Option<EntityId>)
        ensures
            r == self.parent_of(e),
    {
        if self.contains(e) {
            self.nodes[e.index as usize].parent
        } else {
            None
        }
    }

    /// The number of slots, live or not.
    pub fn slot_count(&self) -> (r: usize)
        ensures
            r == self.len(),
    {
        self.nodes.len()
    }

    /// Whether a node may be spawned under `parent`: the store has a free
    /// handle, and a live parent is not at the deepest depth.
    pub open spec fn can_spawn_under(self, parent: Option<EntityId>) -> bool {
        &&& self.nodes@.len() < u32::MAX
        &&& match parent {
            Some(p) => p.index < self.nodes@.len() && (self.live(p) ==> self.node(p).depth < MAX_DEPTH),
            None => true,
        }
    }

    /// The depth a node spawned under `parent` gets.
    pub open spec fn depth_under(self, parent: Option<EntityId>) -> u32 {
        match parent {
            Some(p) => if self.live(p) {
                (self.node(p).depth + 1) as u32
            } else {
                0
            },
            None => 0,
        }
    }

    /// What [`Self::spawn`] does: `old` with one more node, `n`, linked below
    /// `parent` when that parent is live.
    pub open spec fn spawned(old: NetworkGraph, new: NetworkGraph, parent: Option<EntityId>, n: Node) -> bool {
        &&& new.nodes@.len() == old.nodes@.len() + 1
        &&& new.nodes@.last() == n
        &&& forall|i: int|
            0 <= i < old.nodes@.len() && !(parent is Some && old.live(parent->Some_0) && i == parent->Some_0.index)
                ==> new.nodes@[i] == old.nodes@[i]
        &&& parent is Some && old.live(parent->Some_0) ==> {
            let p = parent->Some_0;
            let q = new.node(p);
            &&& q.children@ == old.node(p).children@.push(EntityId { index: old.nodes@.len() as u32 })
            &&& q.alive == old.node(p).alive
            &&& q.is_core == old.node(p).is_core
            &&& q.parent == old.node(p).parent
            &&& q.depth == old.node(p).depth
            &&& q.health == old.node(p).health
            &&& q.position == old.node(p).position
            &&& q.facing == old.node(p).facing
            &&& q.tip == old.node(p).tip
        }
    }

    /// Whether a node may be spawned under `parent`.
    pub fn can_spawn(&self, parent: Option<EntityId>) -> (r: bool)
        requires
            self.wf(),
        ensures
            r == self.can_spawn_under(parent),
    {
        if self.nodes.len() >= 0xffff_ffff {
            return false;
        }
        match parent {
            Some(p) => (p.index as usize) < self.nodes.len() && (!self.contains(p)
                || self.nodes[p.index as usize].depth < MAX_DEPTH),
            None => true,
        }
    }

    /// Spawn a node below `parent`, which may be stale: the node is then
    /// severed from the start. It gets a fresh handle, no children, and the
    /// given position, health, core mark and growth tip.
    pub fn spawn(
        &mut self,
        parent: Option<EntityId>,
        position: Point,
        facing: Offset,
        health: Health,
        is_core: bool,
        tip: Option<GrowthTip>,
    ) -> (r: EntityId)
        requires
            old(self).wf(),
            old(self).can_spawn_under(parent),
        ensures
            final(self).wf(),
            r.index == old(self).len(),
            final(self).live(r),
            NetworkGraph::spawned(
                *old(self),
                *final(self),
                parent,
                Node {
                    alive: true,
                    is_core,
                    parent,
                    children: final(self).node(r).children,
                    depth: old(self).depth_under(parent),
                    health,
                    position,
                    facing,
                    tip,
                },
            ),
            final(self).node(r).children@.len() == 0,
    {
        let ghost old_self = *self;
        let index = self.nodes.len() as u32;
        let r = EntityId { index };
        let depth: u32 = match parent {
            Some(p) => if self.contains(p) {
                self.nodes[p.index as usize].depth + 1
            } else {
                0
            },
            None => 0,
        };
        self.nodes.push(
            Node {
                alive: true,
                is_core,
                parent,
                children: Vec::new(),
                depth,
                health,
                position,
                facing,
                tip,
            },
        );
        match parent {
            Some(p) => if self.contains(p) {
                self.nodes[p.index as usize].children.push(r);
            },
            None => {},
        }
        proof {
            assert(forall|e: EntityId| #[trigger] self.live(e) ==> (old_self.live(e) || e == r));
            assert(forall|e: EntityId| old_self.live(e) ==> #[trigger] self.live(e));
            assert forall|e: EntityId, q: EntityId|
                #![trigger self.parent_of(e), self.live(q)]
                self.parent_of(e) == Some(q) && self.live(q) implies {
                    &&& self.node(q).depth < self.node(e).depth
                    &&& self.children_of(q).contains(e)
                } by {
                if e == r {
                    assert(self.children_of(q)[self.children_of(q).len() - 1] == r);
                } else {
                    assert(old_self.live(e));
                    assert(q != r);
                    assert(old_self.parent_of(e) == Some(q));
                    let k = choose|k: int| 0 <= k < old_self.children_of(q).len() && old_self.children_of(q)[k] == e;
                    assert(self.children_of(q)[k] == e);
                }
            }
            assert forall|q: EntityId, i: int|
                #![trigger self.children_of(q)[i]]
                0 <= i < self.children_of(q).len() implies {
                    &&& self.live(self.children_of(q)[i])
                    &&& self.parent_of(self.children_of(q)[i]) == Some(q)
                } by {
                if i < old_self.children_of(q).len() {
                    assert(self.children_of(q)[i] == old_self.children_of(q)[i]);
                }
            }
        }
        r
    }

    /// `n` with the given health, facing and growth tip.
    pub open spec fn with_attrs(n: Node, health: Health, facing: Offset, tip: Option<GrowthTip>) -> Node {
        Node { health, facing, tip, ..n }
    }

    /// Replace the health, facing and growth tip of the live node `e`.
    fn set_attrs(&mut self, e: EntityId, health: Health, facing: Offset, tip: Option<GrowthTip>)
        requires
            old(self).wf(),
            old(self).live(e),
        ensures
            final(self).wf(),
            final(self).nodes@ == old(self).nodes@.update(
                e.index as int,
                NetworkGraph::with_attrs(old(self).node(e), health, facing, tip),
            ),
    {
        let ghost old_self = *self;
        let i = e.index as usize;
        self.nodes[i].health = health;
        self.nodes[i].facing = facing;
        self.nodes[i].tip = tip;
        proof {
            assert(self.nodes@ =~= old_self.nodes@.update(
                e.index as int,
                NetworkGraph::with_attrs(old_self.node(e), health, facing, tip),
            ));
            assert(forall|x: EntityId| #[trigger] self.live(x) == old_self.live(x));
            assert(forall|x: EntityId| #[trigger] self.parent_of(x) == old_self.parent_of(x));
            assert(forall|x: EntityId| #[trigger] self.children_of(x) == old_self.children_of(x));
            assert forall|x: EntityId| #[trigger] self.live(x) implies {
                &&& self.node(x).depth <= MAX_DEPTH
                &&& self.node(x).parent is Some ==> self.node(x).parent->Some_0.index < self.nodes@.len()
            } by {
                assert(old_self.live(x));
            }
            assert forall|c: EntityId, q: EntityId|
                #![trigger self.parent_of(c), self.live(q)]
                self.parent_of(c) == Some(q) && self.live(q) implies {
                    &&& self.node(q).depth < self.node(c).depth
                    &&& self.children_of(q).contains(c)
                } by {
                assert(old_self.parent_of(c) == Some(q) && old_self.live(q));
            }
            assert forall|q: EntityId, i: int|
                #![trigger self.children_of(q)[i]]
                0 <= i < self.children_of(q).len() implies {
                    &&& self.live(self.children_of(q)[i])
                    &&& self.parent_of(self.children_of(q)[i]) == Some(q)
                } by {
                assert(old_self.children_of(q)[i] == self.children_of(q)[i]);
            }
        }
    }

    /// The health of `e`, if it is live.
    pub fn health(&self, e: EntityId) -> (r: Option<Health>)
        ensures
            r == (if self.live(e) { Some(self.node(e).health) } else { None }),
    {
        if self.contains(e) {
            Some(self.nodes[e.index as usize].health)
        } else {
            None
        }
    }

    /// Deal `amount` of damage to `e`; a stale handle changes nothing.
    pub fn damage(&mut self, e: EntityId, amount: u64)
        requires
            old(self).wf(),
        ensures
            final(self).wf(),
            !old(self).live(e) ==> *final(self) == *old(self),
            old(self).live(e) ==> final(self).nodes@ == old(self).nodes@.update(
                e.index as int,
                Node {
                    health: Health {
                        current: damaged(old(self).node(e).health.current, amount),
                        ..old(self).node(e).health
                    },
                    ..old(self).node(e)
                },
            ),
    {
        if self.contains(e) {
            let n = &self.nodes[e.index as usize];
            let mut h = n.health;
            let facing = n.facing;
            let tip = n.tip;
            h.damage(amount);
            self.set_attrs(e, h, facing, tip);
        }
    }

    /// Heal `e` by `amount`, up to its maximum; a stale handle changes nothing.
    pub fn heal(&mut self, e: EntityId, amount: u64)
        requires
            old(self).wf(),
        ensures
            final(self).wf(),
            !old(self).live(e) ==> *final(self) == *old(self),
            old(self).live(e) ==> final(self).nodes@ == old(self).nodes@.update(
                e.index as int,
                Node {
                    health: Health {
                        current: healed(old(self).node(e).health.current, amount, old(self).node(e).health.max),
                        ..old(self).node(e).health
                    },
                    ..old(self).node(e)
                },
            ),
    {
        if self.contains(e) {
            let n = &self.nodes[e.index as usize];
            let mut h = n.health;
            let facing = n.facing;
            let tip = n.tip;
            h.heal(amount);
            self.set_attrs(e, h, facing, tip);
        }
    }

    /// The growth tip of `e`, if `e` is live and carries one.
    pub fn tip(&self, e: EntityId) -> (r: Option<GrowthTip>)
        ensures
            r == (if self.live(e) { self.node(e).tip } else { None }),
    {
        if self.contains(e) {
            self.nodes[e.index as usize].tip
        } else {
            None
        }
    }

    /// `n` with its growth tip, if it has one, marked `selected`.
    pub open spec fn with_selected(n: Node, selected: bool) -> Node {
        if n.tip is Some {
            Node { tip: Some(GrowthTip { selected }), ..n }
        } else {
            n
        }
    }

    /// Mark the growth tip of `e` selected or not; a stale handle or a node
    /// without a growth tip changes nothing.
    pub fn set_selected(&mut self, e: EntityId, selected: bool)
        requires
            old(self).wf(),
        ensures
            final(self).wf(),
            !old(self).live(e) ==> *final(self) == *old(self),
            old(self).live(e) ==> final(self).nodes@ == old(self).nodes@.update(
                e.index as int,
                NetworkGraph::with_selected(old(self).node(e), selected),
            ),
    {
        if self.contains(e) {
            let n = &self.nodes[e.index as usize];
            if n.tip.is_some() {
                let h = n.health;
                let facing = n.facing;
                self.set_attrs(e, h, facing, Some(GrowthTip { selected }));
            } else {
                proof {
                    assert(self.nodes@ =~= self.nodes@.update(e.index as int, self.node(e)));
                }
            }
        }
    }

    /// The position of `e`, if it is live.
    pub fn position(&self, e: EntityId) -> (r: Option<Point>)
        ensures
            r == (if self.live(e) { Some(self.node(e).position) } else { None }),
    {
        if self.contains(e) {
            Some(self.nodes[e.index as usize].position)
        } else {
            None
        }
    }

    /// The facing of `e`, if it is live.
    pub fn facing(&self, e: EntityId) -> (r: Option<Offset>)
        ensures
            r == (if self.live(e) { Some(self.node(e).facing) } else { None }),
    {
        if self.contains(e) {
            Some(self.nodes[e.index as usize].facing)
        } else {
            None
        }
    }

    /// Turn the live node `e` to `facing`.
    pub fn set_facing(&mut self, e: EntityId, facing: Offset)
        requires
            old(self).wf(),
            old(self).live(e),
        ensures
            final(self).wf(),
            final(self).nodes@ == old(self).nodes@.update(e.index as int, Node { facing, ..old(self).node(e) }),
    {
        let n = &self.nodes[e.index as usize];
        let h = n.health;
        let tip = n.tip;
        self.set_attrs(e, h, facing, tip);
    }

    /// Whether every slot of `new` carries the links toward the root and the
    /// attributes it had in `old`; only liveness and child lists may differ.
    pub open spec fn keeps_attrs(old: NetworkGraph, new: NetworkGraph) -> bool {
        &&& new.nodes@.len() == old.nodes@.len()
        &&& forall|i: int|
            #![trigger new.nodes@[i]]
            0 <= i < old.nodes@.len() ==> {
                &&& new.nodes@[i].is_core == old.nodes@[i].is_core
                &&& new.nodes@[i].parent == old.nodes@[i].parent
                &&& new.nodes@[i].depth == old.nodes@[i].depth
                &&& new.nodes@[i].health == old.nodes@[i].health
                &&& new.nodes@[i].position == old.nodes@[i].position
                &&& new.nodes@[i].facing == old.nodes@[i].facing
                &&& new.nodes@[i].tip == old.nodes@[i].tip
            }
    }

    /// A walk in a store that only lost nodes is a walk of the store before.
    pub proof fn lemma_ancestor_shrinks(self, before: NetworkGraph, x: EntityId, k: nat)
        requires
            NetworkGraph::keeps_attrs(before, self),
            forall|y: EntityId| #[trigger] self.live(y) ==> before.live(y),
            self.ancestor(x, k) is Some,
        ensures
            before.ancestor(x, k) == self.ancestor(x, k),
        decreases k,
    {
        if k > 0 {
            let p = self.parent_of(x)->Some_0;
            assert(self.live(x));
            assert(self.nodes@[x.index as int].parent == before.nodes@[x.index as int].parent);
            self.lemma_ancestor_shrinks(before, p, (k - 1) as nat);
        }
    }

    /// What [`Self::despawn`] does: `e`, when live, is marked dead and leaves
    /// its parent's child list; nothing else changes.
    pub open spec fn despawned(old: NetworkGraph, new: NetworkGraph, e: EntityId) -> bool {
        &&& new.nodes@.len() == old.nodes@.len()
        &&& !old.live(e) ==> new.nodes@ == old.nodes@
        &&& old.live(e) ==> {
            let p = old.node(e).parent;
            let linked = p is Some && old.live(p->Some_0);
            &&& forall|i: int|
                0 <= i < old.nodes@.len() && i != e.index && !(linked && i == p->Some_0.index)
                    ==> new.nodes@[i] == old.nodes@[i]
            &&& new.node(e) == (Node { alive: false, ..old.node(e) })
            &&& linked ==> new.node(p->Some_0) == (Node {
                children: new.node(p->Some_0).children,
                ..old.node(p->Some_0)
            })
            &&& linked ==> new.node(p->Some_0).children@ == remove_all(old.node(p->Some_0).children@, e)
        }
    }

    /// Remove `e` from the store; a stale handle changes nothing. The
    /// children of `e` keep their parent handle, which now dangles.
    pub fn despawn(&mut self, e: EntityId)
        requires
            old(self).wf(),
        ensures
            final(self).wf(),
            NetworkGraph::despawned(*old(self), *final(self), e),
            NetworkGraph::keeps_attrs(*old(self), *final(self)),
            forall|x: EntityId| #[trigger] final(self).live(x) <==> old(self).live(x) && x != e,
    {
        if !self.contains(e) {
            return;
        }
        let ghost old_self = *self;
        let parent = self.nodes[e.index as usize].parent;
        self.nodes[e.index as usize].alive = false;
        match parent {
            Some(p) => if self.contains(p) {
                let kept = without(&self.nodes[p.index as usize].children, e);
                self.nodes[p.index as usize].children = kept;
            },
            None => {},
        }
        proof {
            let linked = parent is Some && old_self.live(parent->Some_0);
            assert(self.node(e) == (Node { alive: false, ..old_self.node(e) }));
            if linked {
                let p = parent->Some_0;
                assert(old_self.parent_of(e) == Some(p) && old_self.live(p));
                assert(old_self.node(p).depth < old_self.node(e).depth);
                assert(self.node(p) == (Node { children: self.node(p).children, ..old_self.node(p) }));
            }
            assert(forall|x: EntityId| #[trigger] self.live(x) <==> old_self.live(x) && x != e);
            assert forall|x: EntityId| #[trigger] self.live(x) implies {
                &&& self.node(x).depth <= MAX_DEPTH
                &&& self.node(x).parent is Some ==> self.node(x).parent->Some_0.index < self.nodes@.len()
            } by {
                assert(old_self.live(x));
            }
            assert forall|c: EntityId, q: EntityId|
                #![trigger self.parent_of(c), self.live(q)]
                self.parent_of(c) == Some(q) && self.live(q) implies {
                    &&& self.node(q).depth < self.node(c).depth
                    &&& self.children_of(q).contains(c)
                } by {
                assert(old_self.parent_of(c) == Some(q));
                assert(old_self.children_of(q).contains(c));
                if linked && q == parent->Some_0 {
                    lemma_remove_all_contains(old_self.children_of(q), e, c);
                }
            }
            assert forall|q: EntityId, i: int|
                #![trigger self.children_of(q)[i]]
                0 <= i < self.children_of(q).len() implies {
                    &&& self.live(self.children_of(q)[i])
                    &&& self.parent_of(self.children_of(q)[i]) == Some(q)
                } by {
                let c = self.children_of(q)[i];
                if linked && q == parent->Some_0 {
                    assert(self.children_of(q).contains(c));
                    lemma_remove_all_contains(old_self.children_of(q), e, c);
                    let k = choose|k: int| 0 <= k < old_self.children_of(q).len() && old_self.children_of(q)[k] == c;
                    assert(old_self.live(old_self.children_of(q)[k]));
                } else {
                    assert(old_self.children_of(q)[i] == c);
                    assert(old_self.parent_of(c) == Some(q));
                    if c == e {
                        assert(parent == Some(q));
                    }
                }
            }
        }
    }

    /// Remove `e` and everything below it along child links.
    pub fn despawn_recursive(&mut self, e: EntityId)
        requires
            old(self).wf(),
        ensures
            final(self).wf(),
            final(self).len() == old(self).len(),
            NetworkGraph::keeps_attrs(*old(self), *final(self)),
            forall|x: EntityId|
                #[trigger] final(self).live(x) <==> old(self).live(x) && !(old(self).live(e) && old(self).connected(x, e)),
    {
        let doomed = crate::traversal::find_downstream_segments(e, self);
        let ghost old_self = *self;
        let mut i: usize = 0;
        while i < doomed.len()
            invariant
                self.wf(),
                self.len() == old_self.len(),
                NetworkGraph::keeps_attrs(old_self, *self),
                0 <= i <= doomed@.len(),
                forall|x: EntityId|
                    #[trigger] self.live(x) <==> old_self.live(x) && !in_prefix(doomed@, i as int, x),
            decreases doomed@.len() - i,
        {
            self.despawn(doomed[i]);
            i = i + 1;
            proof {
                assert forall|x: EntityId|
                    #[trigger] self.live(x) <==> old_self.live(x) && !in_prefix(doomed@, i as int, x) by {
                    if in_prefix(doomed@, i - 1, x) {
                        let k = choose|k: int| 0 <= k < i - 1 && doomed@[k] == x;
                        assert(0 <= k < i && doomed@[k] == x);
                    }
                    if in_prefix(doomed@, i as int, x) && x != doomed@[i - 1] {
                        let k = choose|k: int| 0 <= k < i && doomed@[k] == x;
                        assert(0 <= k < i - 1 && doomed@[k] == x);
                    }
                    assert(0 <= i - 1 < i && doomed@[i - 1] == doomed@[i - 1]);
                }
            }
        }
        proof {
            assert forall|x: EntityId|
                #[trigger] self.live(x) <==> old_self.live(x) && !(old_self.live(e) && old_self.connected(x, e)) by {
                if in_prefix(doomed@, doomed@.len() as int, x) {
                    let k = choose|k: int| 0 <= k < doomed@.len() && doomed@[k] == x;
                    assert(doomed@.contains(x));
                }
                if old_self.live(x) && old_self.live(e) && old_self.connected(x, e) {
                    let k = choose|k: int| 0 <= k < doomed@.len() && doomed@[k] == x;
                    assert(in_prefix(doomed@, doomed@.len() as int, x));
                }
            }
        }
    }
}

/// Whether `x` occurs among the first `n` entries of `s`.
pub open spec fn in_prefix(s: Seq<EntityId>, n: int, x: EntityId) -> bool {
    exists|k: int| 0 <= k < n && s[k] == x
}

/// `s` without any occurrence of `e`, in the same order.
pub open spec fn remove_all(s: Seq<EntityId>, e: EntityId) -> Seq<EntityId>
    decreases s.len(),
{
    if s.len() == 0 {
        s
    } else if s.last() == e {
        remove_all(s.drop_last(), e)
    } else {
        remove_all(s.drop_last(), e).push(s.last())
    }
}

pub proof fn lemma_remove_all_contains(s: Seq<EntityId>, e: EntityId, x: EntityId)
    ensures
        remove_all(s, e).contains(x) <==> s.contains(x) && x != e,
    decreases s.len(),
{
    if s.len() > 0 {
        let d = s.drop_last();
        lemma_remove_all_contains(d, e, x);
        let r = remove_all(d, e);
        let last = s[s.len() - 1];
        assert(s == d.push(last));
        if s.contains(x) && x != e {
            let k = choose|k: int| 0 <= k < s.len() && s[k] == x;
            if k < s.len() - 1 {
                assert(d[k] == x);
                assert(d.contains(x));
                assert(r.contains(x));
                if last != e {
                    let j = choose|j: int| 0 <= j < r.len() && r[j] == x;
                    assert(r.push(last)[j] == x);
                }
            } else {
                assert(r.push(last)[r.len() as int] == x);
            }
        }
        if remove_all(s, e).contains(x) {
            let k = choose|k: int| 0 <= k < remove_all(s, e).len() && remove_all(s, e)[k] == x;
            if last != e && k == r.len() {
                assert(s[s.len() - 1] == x);
            } else {
                assert(r[k] == x);
                assert(r.contains(x));
                let j = choose|j: int| 0 <= j < d.len() && d[j] == x;
                assert(s[j] == x);
            }
        }
    }
}

/// The entries of `items` other than `e`, in order.
fn without(items: &Vec<EntityId>, e: EntityId) -> (r: Vec<EntityId>)
    ensures
        r@ == remove_all(items@, e),
{
    let mut out: Vec<EntityId> = Vec::new();
    let mut j: usize = 0;
    while j < items.len()
        invariant
            j <= items@.len(),
            out@ == remove_all(items@.subrange(0, j as int), e),
        decreases items@.len() - j,
    {
        assert(items@.subrange(0, j + 1).drop_last() =~= items@.subrange(0, j as int));
        if items[j] != e {
            out.push(items[j]);
        }
        j = j + 1;
    }
    assert(items@.subrange(0, items@.len() as int) =~= items@);
    out
}

} // verus!
