use bridge_sim::engine::{Engine, SimulationState, GRAVITY};
use bridge_sim::level::{Bridge, Coordinates, Edge, Level, VertexIndex};
use bridge_sim::scene::{Coordinates as ScenePoint, Line, Object};

fn road_level() -> Level {
    Level {
        background: String::new(),
        vertices: vec![Coordinates { x: 0, y: 0 }, Coordinates { x: 1, y: 0 }],
        anchors: vec![VertexIndex(0), VertexIndex(1)],
        road: vec![Edge(VertexIndex(0), VertexIndex(1))],
        bridge: Bridge { steel: Vec::new(), wood: Vec::new(), wire: Vec::new(), road: Vec::new() },
        vehicles: Vec::new(),
    }
}

fn road_and_wood_level() -> Level {
    let mut level = road_level();
    level.bridge.wood = vec![Edge(VertexIndex(0), VertexIndex(1))];
    level
}

fn beam_line(object: &Object) -> Line {
    match object {
        Object::Beam(beam) => beam.line,
        _ => panic!("expected a beam"),
    }
}

#[test]
fn set_level_clears_state_and_copies_static_scene() {
    let mut engine = Engine::new();
    engine.set_level(road_and_wood_level()).unwrap();
    assert!(matches!(engine.simulation_state(), SimulationState::Cleared));
    // the working scene is endpoint for endpoint the static template
    let scene = engine.get_scene();
    assert_eq!(scene.0.len(), 2);
    assert_eq!(
        beam_line(&scene.0[0]),
        Line(ScenePoint { x: 0, y: 0 }, ScenePoint { x: 1, y: 0 })
    );
    assert_eq!(
        beam_line(&scene.0[1]),
        Line(ScenePoint { x: 0, y: 0 }, ScenePoint { x: 1, y: 0 })
    );
}

#[test]
fn start_and_pause_transitions() {
    let mut engine = Engine::new();
    engine.set_level(road_level()).unwrap();

    // Cleared -> Running
    engine.start_simulation();
    assert!(matches!(engine.simulation_state(), SimulationState::Running));

    // Running -> Paused
    engine.pause_simulation();
    assert!(matches!(engine.simulation_state(), SimulationState::Paused));

    // Paused -> Running
    engine.start_simulation();
    assert!(matches!(engine.simulation_state(), SimulationState::Running));

    // start while Running is idempotent
    engine.start_simulation();
    assert!(matches!(engine.simulation_state(), SimulationState::Running));

    // pause while not Running is a no-op
    engine.reset_simulation();
    assert!(matches!(engine.simulation_state(), SimulationState::Cleared));
    engine.pause_simulation();
    assert!(matches!(engine.simulation_state(), SimulationState::Cleared));
}

#[test]
fn one_tick_moves_only_non_static_members() {
    let mut engine = Engine::new();
    engine.set_level(road_and_wood_level()).unwrap();
    engine.start_simulation();
    engine.simulate_scene_tick();

    let scene = engine.get_scene();
    let g = GRAVITY;
    // the static road beam is untouched
    assert_eq!(
        beam_line(&scene.0[0]),
        Line(ScenePoint { x: 0, y: 0 }, ScenePoint { x: 1, y: 0 })
    );
    // the wood beam moved down by exactly one gravity step
    assert_eq!(
        beam_line(&scene.0[1]),
        Line(ScenePoint { x: 0, y: -g }, ScenePoint { x: 1, y: -g })
    );
}

#[test]
fn n_ticks_displace_by_n_gravity() {
    let mut engine = Engine::new();
    engine.set_level(road_and_wood_level()).unwrap();
    engine.start_simulation();
    let n: i64 = 5;
    for _ in 0..n {
        engine.simulate_scene_tick();
    }
    let scene = engine.get_scene();
    assert_eq!(
        beam_line(&scene.0[0]),
        Line(ScenePoint { x: 0, y: 0 }, ScenePoint { x: 1, y: 0 })
    );
    assert_eq!(
        beam_line(&scene.0[1]),
        Line(ScenePoint { x: 0, y: -n * GRAVITY }, ScenePoint { x: 1, y: -n * GRAVITY })
    );
}

#[test]
fn reset_restores_static_scene_from_any_state() {
    let mut engine = Engine::new();
    engine.set_level(road_and_wood_level()).unwrap();
    engine.start_simulation();
    engine.simulate_scene_tick();
    engine.simulate_scene_tick();

    engine.reset_simulation();
    assert!(matches!(engine.simulation_state(), SimulationState::Cleared));
    let scene = engine.get_scene();
    assert_eq!(
        beam_line(&scene.0[1]),
        Line(ScenePoint { x: 0, y: 0 }, ScenePoint { x: 1, y: 0 })
    );
}

#[test]
fn failed_set_level_keeps_previous_scene() {
    let mut engine = Engine::new();
    engine.set_level(road_level()).unwrap();

    // a road edge referencing vertex 5 in a three-vertex level
    let bad_level = Level {
        background: String::new(),
        vertices: vec![
            Coordinates { x: 0, y: 0 },
            Coordinates { x: 1, y: 0 },
            Coordinates { x: 2, y: 0 },
        ],
        anchors: Vec::new(),
        road: vec![Edge(VertexIndex(0), VertexIndex(5))],
        bridge: Bridge { steel: Vec::new(), wood: Vec::new(), wire: Vec::new(), road: Vec::new() },
        vehicles: Vec::new(),
    };
    let err = engine.set_level(bad_level).unwrap_err();
    assert_eq!(err.index, 5);

    // the previously loaded scene is still retrievable, unchanged
    let scene = engine.get_scene();
    assert_eq!(scene.0.len(), 1);
    assert_eq!(
        beam_line(&scene.0[0]),
        Line(ScenePoint { x: 0, y: 0 }, ScenePoint { x: 1, y: 0 })
    );
    assert!(matches!(engine.simulation_state(), SimulationState::Cleared));
}

#[test]
fn wires_fall_with_every_tick() {
    let mut level = road_level();
    level.bridge.wire = vec![Edge(VertexIndex(0), VertexIndex(1))];
    let mut engine = Engine::new();
    engine.set_level(level).unwrap();
    engine.start_simulation();
    engine.simulate_scene_tick();
    let scene = engine.get_scene();
    match scene.0[1] {
        Object::Wire(wire) => {
            assert_eq!(
                wire.line,
                Line(ScenePoint { x: 0, y: -GRAVITY }, ScenePoint { x: 1, y: -GRAVITY })
            );
        }
        _ => panic!("expected a wire"),
    }
}
