use bridge_sim::level::{Bridge, Coordinates, Edge, Level, VertexIndex};
use bridge_sim::scene::{BeamMaterial, Coordinates as ScenePoint, Line, Object, Scene, WireMaterial};

fn empty_bridge() -> Bridge {
    Bridge { steel: Vec::new(), wood: Vec::new(), wire: Vec::new(), road: Vec::new() }
}

fn two_vertex_level() -> Level {
    Level {
        background: String::new(),
        vertices: vec![Coordinates { x: 0, y: 0 }, Coordinates { x: 1, y: 0 }],
        anchors: vec![VertexIndex(0), VertexIndex(1)],
        road: vec![Edge(VertexIndex(0), VertexIndex(1))],
        bridge: empty_bridge(),
        vehicles: Vec::new(),
    }
}

#[test]
fn road_only_level_builds_one_static_road_beam() {
    let level = two_vertex_level();
    let scene = Scene::new(&level).unwrap();
    assert_eq!(scene.0.len(), 1);
    match scene.0[0] {
        Object::Beam(beam) => {
            assert!(beam.is_static);
            assert!(matches!(beam.material, BeamMaterial::Road));
            assert_eq!(beam.line, Line(ScenePoint { x: 0, y: 0 }, ScenePoint { x: 1, y: 0 }));
        }
        _ => panic!("expected a beam"),
    }
}

#[test]
fn builder_keeps_category_counts_and_endpoints() {
    let mut level = two_vertex_level();
    level.vertices.push(Coordinates { x: 5, y: 7 });
    level.bridge.wood = vec![Edge(VertexIndex(1), VertexIndex(2))];
    level.bridge.steel = vec![
        Edge(VertexIndex(0), VertexIndex(2)),
        Edge(VertexIndex(2), VertexIndex(2)),
    ];
    level.bridge.wire = vec![Edge(VertexIndex(2), VertexIndex(0))];

    let scene = Scene::new(&level).unwrap();
    assert_eq!(scene.0.len(), 1 + 1 + 2 + 1);

    // category order: road, bridge road, wood, steel, wire
    match scene.0[1] {
        Object::Beam(beam) => {
            assert!(!beam.is_static);
            assert!(matches!(beam.material, BeamMaterial::Wood));
            assert_eq!(beam.line, Line(ScenePoint { x: 1, y: 0 }, ScenePoint { x: 5, y: 7 }));
        }
        _ => panic!("expected a wood beam"),
    }
    match scene.0[3] {
        Object::Beam(beam) => {
            assert!(matches!(beam.material, BeamMaterial::Steel));
            assert_eq!(beam.line, Line(ScenePoint { x: 5, y: 7 }, ScenePoint { x: 5, y: 7 }));
        }
        _ => panic!("expected a steel beam"),
    }
    match scene.0[4] {
        Object::Wire(wire) => {
            assert!(matches!(wire.material, WireMaterial::Steel));
            assert_eq!(wire.line, Line(ScenePoint { x: 5, y: 7 }, ScenePoint { x: 0, y: 0 }));
        }
        _ => panic!("expected a wire"),
    }
}

#[test]
fn builder_fails_on_first_out_of_range_index() {
    let mut level = two_vertex_level();
    level.bridge.wood = vec![Edge(VertexIndex(0), VertexIndex(9))];
    level.bridge.wire = vec![Edge(VertexIndex(7), VertexIndex(0))];
    let err = Scene::new(&level).unwrap_err();
    // the wood list is walked before the wire list, the first endpoint
    // before the second
    assert_eq!(err.index, 9);
}

#[test]
fn builder_checks_first_endpoint_first() {
    let mut level = two_vertex_level();
    level.road = vec![Edge(VertexIndex(4), VertexIndex(3))];
    let err = Scene::new(&level).unwrap_err();
    assert_eq!(err.index, 4);
}

#[test]
fn duplicate_copies_all_objects() {
    let level = two_vertex_level();
    let scene = Scene::new(&level).unwrap();
    let copy = scene.duplicate();
    assert_eq!(copy.0, scene.0);
}
