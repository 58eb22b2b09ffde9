use mycelia::core_node::{check_core_death, despawn_core_node, spawn_core_node, CoreNodeEntity, CORE_NODE_HEALTH};
use mycelia::entity::{Offset, Point};
use mycelia::graph::NetworkGraph;
use mycelia::health::Health;
use mycelia::state::GameState;

fn live_cores(graph: &NetworkGraph) -> usize {
    graph.nodes.iter().filter(|n| n.alive && n.is_core).count()
}

#[test]
fn test_core_node_spawns_on_playing_enter() {
    let mut graph = NetworkGraph::new();
    spawn_core_node(&mut graph);
    assert_eq!(live_cores(&graph), 1);
}

#[test]
fn test_core_node_entity_resource_set() {
    let mut graph = NetworkGraph::new();
    let core = spawn_core_node(&mut graph);
    assert!(graph.contains(core.0));
}

#[test]
fn test_core_node_has_required_components() {
    let mut graph = NetworkGraph::new();
    let core = spawn_core_node(&mut graph).0;
    assert!(graph.nodes[core.index as usize].is_core);
    assert!(graph.health(core).is_some());
    assert!(graph.position(core).is_some());
    assert_eq!(graph.parent(core), None);
}

#[test]
fn test_core_node_spawns_at_origin() {
    let mut graph = NetworkGraph::new();
    let core = spawn_core_node(&mut graph).0;
    let position = graph.position(core).unwrap();
    assert_eq!(position.x, 0);
    assert_eq!(position.y, 0);
}

#[test]
fn test_core_death_triggers_game_over() {
    let mut graph = NetworkGraph::new();
    let core = spawn_core_node(&mut graph).0;
    assert_eq!(check_core_death(&graph), None);
    graph.damage(core, CORE_NODE_HEALTH);
    assert_eq!(check_core_death(&graph), Some(GameState::GameOver));
}

#[test]
fn test_core_node_despawns_on_menu_return() {
    let mut graph = NetworkGraph::new();
    let mut handle = Some(spawn_core_node(&mut graph));
    despawn_core_node(&mut graph, &mut handle);
    assert_eq!(live_cores(&graph), 0);
    assert!(handle.is_none());
}

#[test]
fn core_spawns_with_full_health() {
    let mut graph = NetworkGraph::new();
    let core = spawn_core_node(&mut graph).0;
    assert_eq!(graph.health(core), Some(Health { current: 100, max: 100 }));
}

#[test]
fn damage_in_one_frame_ends_the_run() {
    let mut graph = NetworkGraph::new();
    let core = spawn_core_node(&mut graph).0;
    graph.damage(core, 100);
    assert_eq!(check_core_death(&graph), Some(GameState::GameOver));
    assert_eq!(check_core_death(&graph), Some(GameState::GameOver));
}

#[test]
fn damage_then_heal_leaves_seventy() {
    let mut graph = NetworkGraph::new();
    let core = spawn_core_node(&mut graph).0;
    graph.damage(core, 40);
    graph.heal(core, 10);
    assert_eq!(graph.health(core).unwrap().current, 70);
    assert_eq!(check_core_death(&graph), None);
}

#[test]
fn no_core_means_no_game_over() {
    let graph = NetworkGraph::new();
    assert_eq!(check_core_death(&graph), None);
}

#[test]
fn two_cores_are_not_judged() {
    let mut graph = NetworkGraph::new();
    let a = spawn_core_node(&mut graph).0;
    spawn_core_node(&mut graph);
    graph.damage(a, 100);
    assert_eq!(check_core_death(&graph), None);
}

#[test]
fn despawning_the_core_takes_its_network_with_it() {
    let mut graph = NetworkGraph::new();
    let core = spawn_core_node(&mut graph);
    let segment = graph.spawn(Some(core.0), Point::new(1, 1), Offset { dx: 0, dy: 0 }, Health::new(50), false, None);
    let loose = graph.spawn(None, Point::new(9, 9), Offset { dx: 0, dy: 0 }, Health::new(50), false, None);
    let mut handle = Some(core);
    despawn_core_node(&mut graph, &mut handle);
    assert!(!graph.contains(core.0));
    assert!(!graph.contains(segment));
    assert!(graph.contains(loose));
    assert_eq!(handle, None::<CoreNodeEntity>);
}

#[test]
fn health_damage_and_heal_clamp() {
    let mut h = Health::new(100);
    h.damage(40);
    h.heal(10);
    assert_eq!(h.current, 70);
    h.damage(500);
    assert_eq!(h.current, 0);
    assert!(h.is_dead());
    h.heal(500);
    assert_eq!(h.current, 100);
    assert!(!h.is_dead());
}
