use mycelia::entity::{EntityId, Offset, Point};
use mycelia::graph::NetworkGraph;
use mycelia::health::Health;
use mycelia::traversal::{distance_from_core, find_downstream_segments, is_connected_to_core, path_to_core};

fn spawn(graph: &mut NetworkGraph, parent: Option<EntityId>) -> EntityId {
    graph.spawn(parent, Point::new(0, 0), Offset { dx: 0, dy: 0 }, Health::new(100), false, None)
}

#[test]
fn test_is_connected_to_core_direct() {
    let mut graph = NetworkGraph::new();
    let core = spawn(&mut graph, None);
    let segment = spawn(&mut graph, Some(core));
    assert!(is_connected_to_core(segment, &graph, core));
}

#[test]
fn test_is_connected_to_core_chain() {
    let mut graph = NetworkGraph::new();
    let core = spawn(&mut graph, None);
    let a = spawn(&mut graph, Some(core));
    let b = spawn(&mut graph, Some(a));
    let c = spawn(&mut graph, Some(b));
    assert!(is_connected_to_core(c, &graph, core));
    assert!(is_connected_to_core(b, &graph, core));
    assert!(is_connected_to_core(a, &graph, core));
}

#[test]
fn test_is_connected_to_core_not_connected() {
    let mut graph = NetworkGraph::new();
    let core = spawn(&mut graph, None);
    let orphan = spawn(&mut graph, None);
    assert!(!is_connected_to_core(orphan, &graph, core));
}

#[test]
fn test_is_connected_to_core_wrong_tree() {
    let mut graph = NetworkGraph::new();
    let core = spawn(&mut graph, None);
    let other_root = spawn(&mut graph, None);
    let segment = spawn(&mut graph, Some(other_root));
    assert!(!is_connected_to_core(segment, &graph, core));
}

#[test]
fn test_find_downstream_segments_single() {
    let mut graph = NetworkGraph::new();
    let segment = spawn(&mut graph, None);
    let result = find_downstream_segments(segment, &graph);
    assert_eq!(result.len(), 1);
    assert!(result.contains(&segment));
}

#[test]
fn test_find_downstream_segments_tree() {
    // A -> B, C; B -> D
    let mut graph = NetworkGraph::new();
    let a = spawn(&mut graph, None);
    let b = spawn(&mut graph, Some(a));
    let c = spawn(&mut graph, Some(a));
    let d = spawn(&mut graph, Some(b));
    let result = find_downstream_segments(a, &graph);
    assert_eq!(result.len(), 4);
    assert!(result.contains(&a));
    assert!(result.contains(&b));
    assert!(result.contains(&c));
    assert!(result.contains(&d));
}

#[test]
fn test_distance_from_core_direct() {
    let mut graph = NetworkGraph::new();
    let core = spawn(&mut graph, None);
    let segment = spawn(&mut graph, Some(core));
    assert_eq!(distance_from_core(segment, &graph, core), Some(1));
}

#[test]
fn test_distance_from_core_chain() {
    let mut graph = NetworkGraph::new();
    let core = spawn(&mut graph, None);
    let a = spawn(&mut graph, Some(core));
    let b = spawn(&mut graph, Some(a));
    let c = spawn(&mut graph, Some(b));
    assert_eq!(distance_from_core(core, &graph, core), Some(0));
    assert_eq!(distance_from_core(a, &graph, core), Some(1));
    assert_eq!(distance_from_core(b, &graph, core), Some(2));
    assert_eq!(distance_from_core(c, &graph, core), Some(3));
}

#[test]
fn test_distance_from_core_not_connected() {
    let mut graph = NetworkGraph::new();
    let core = spawn(&mut graph, None);
    let orphan = spawn(&mut graph, None);
    assert_eq!(distance_from_core(orphan, &graph, core), None);
}

#[test]
fn test_path_to_core() {
    let mut graph = NetworkGraph::new();
    let core = spawn(&mut graph, None);
    let a = spawn(&mut graph, Some(core));
    let b = spawn(&mut graph, Some(a));
    let path = path_to_core(b, &graph, core);
    assert!(path.is_some());
    assert_eq!(path.unwrap(), vec![b, a, core]);
}

#[test]
fn test_path_to_core_not_connected() {
    let mut graph = NetworkGraph::new();
    let core = spawn(&mut graph, None);
    let orphan = spawn(&mut graph, None);
    assert!(path_to_core(orphan, &graph, core).is_none());
}

#[test]
fn path_length_is_distance_plus_one() {
    let mut graph = NetworkGraph::new();
    let core = spawn(&mut graph, None);
    let mut tip = core;
    for _ in 0..5 {
        tip = spawn(&mut graph, Some(tip));
    }
    let d = distance_from_core(tip, &graph, core).unwrap();
    let path = path_to_core(tip, &graph, core).unwrap();
    assert_eq!(d, 5);
    assert_eq!(path.len(), d as usize + 1);
    assert_eq!(*path.last().unwrap(), core);
    assert_eq!(path[0], tip);
}

#[test]
fn path_to_core_of_core_is_core_alone() {
    let mut graph = NetworkGraph::new();
    let core = spawn(&mut graph, None);
    assert_eq!(path_to_core(core, &graph, core), Some(vec![core]));
}

#[test]
fn unconnected_node_has_no_distance_nor_path() {
    let mut graph = NetworkGraph::new();
    let core = spawn(&mut graph, None);
    let other = spawn(&mut graph, None);
    let below = spawn(&mut graph, Some(other));
    assert!(!is_connected_to_core(below, &graph, core));
    assert_eq!(distance_from_core(below, &graph, core), None);
    assert_eq!(path_to_core(below, &graph, core), None);
}

#[test]
fn stale_handles_are_not_connected() {
    let mut graph = NetworkGraph::new();
    let core = spawn(&mut graph, None);
    let a = spawn(&mut graph, Some(core));
    let b = spawn(&mut graph, Some(a));
    graph.despawn(a);
    assert!(!graph.contains(a));
    assert!(!is_connected_to_core(b, &graph, core));
    assert!(!is_connected_to_core(a, &graph, core));
    assert!(!is_connected_to_core(EntityId::from_raw(42), &graph, core));
    assert_eq!(distance_from_core(b, &graph, core), None);
    assert_eq!(graph.parent(b), Some(a));
}

#[test]
fn downstream_starts_with_entity_and_has_no_repeats() {
    let mut graph = NetworkGraph::new();
    let a = spawn(&mut graph, None);
    let b = spawn(&mut graph, Some(a));
    let c = spawn(&mut graph, Some(b));
    let _other = spawn(&mut graph, None);
    let result = find_downstream_segments(b, &graph);
    assert_eq!(result[0], b);
    assert_eq!(result.len(), 2);
    assert!(result.contains(&c));
    assert!(!result.contains(&a));
}

#[test]
fn downstream_of_stale_handle_is_itself() {
    let graph = NetworkGraph::new();
    let stale = EntityId::from_raw(7);
    assert_eq!(find_downstream_segments(stale, &graph), vec![stale]);
}

#[test]
fn despawn_recursive_removes_subtree_only() {
    let mut graph = NetworkGraph::new();
    let core = spawn(&mut graph, None);
    let a = spawn(&mut graph, Some(core));
    let b = spawn(&mut graph, Some(a));
    let c = spawn(&mut graph, Some(core));
    graph.despawn_recursive(a);
    assert!(graph.contains(core));
    assert!(!graph.contains(a));
    assert!(!graph.contains(b));
    assert!(graph.contains(c));
    assert_eq!(find_downstream_segments(core, &graph), vec![core, c]);
}

#[test]
fn damage_and_heal_stay_within_bounds() {
    let mut graph = NetworkGraph::new();
    let a = spawn(&mut graph, None);
    graph.damage(a, 40);
    graph.heal(a, 10);
    assert_eq!(graph.health(a).unwrap().current, 70);
    graph.heal(a, 1000);
    assert_eq!(graph.health(a).unwrap().current, 100);
    graph.damage(a, 1000);
    assert_eq!(graph.health(a).unwrap().current, 0);
}

#[test]
fn spawn_depth_limit_is_reported() {
    let mut graph = NetworkGraph::new();
    let a = spawn(&mut graph, None);
    assert!(graph.can_spawn(Some(a)));
    assert!(graph.can_spawn(None));
    assert!(!graph.can_spawn(Some(EntityId::from_raw(9))));
}
