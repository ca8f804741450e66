//! The renderable scene: beams, wires and vehicles derived from a level.
//!
//! [`Scene::new`] resolves every edge of the level into a line between the
//! two referenced vertices, in a fixed category order. It is all-or-nothing:
//! if any edge mentions an out-of-range vertex index, it fails with an
//! [`IndexError`] naming the first offending index and returns no partial
//! scene.

use vstd::prelude::*;

use crate::level;
use crate::level::{Edge, Level, edge_in_bounds, edges_in_bounds};

verus! {

/// A position in the two-dimensional scene plane, in integer world units.
#[derive(Debug, PartialEq, Eq, Structural, Copy, Clone)]
pub struct Coordinates {
    pub x: i64,
    pub y: i64,
}

/// A pair of scene coordinates, creating a line between the pair.
#[derive(Debug, PartialEq, Eq, Structural, Copy, Clone)]
pub struct Line(pub Coordinates, pub Coordinates);

/// A backdrop line with a colour index.
#[derive(Debug, PartialEq, Eq, Structural, Copy, Clone)]
pub struct Background {
    pub line: Line,
    pub color: u16,
}

/// The material a beam is made of.
#[derive(Debug, PartialEq, Eq, Structural, Copy, Clone)]
pub enum BeamMaterial {
    Wood,
    Steel,
    Road,
}

/// A rigid structural member.
#[derive(Debug, PartialEq, Eq, Structural, Copy, Clone)]
pub struct Beam {
    pub material: BeamMaterial,
    pub line: Line,
    pub is_static: bool,
}

/// The material a wire is made of.
#[derive(Debug, PartialEq, Eq, Structural, Copy, Clone)]
pub enum WireMaterial {
    Steel,
}

/// A flexible structural member that can only maintain tension.
#[derive(Debug, PartialEq, Eq, Structural, Copy, Clone)]
pub struct Wire {
    pub material: WireMaterial,
    pub line: Line,
}

/// The type of a vehicle.
#[derive(Debug, PartialEq, Eq, Structural, Copy, Clone)]
pub enum VehicleType {
    Bus,
    Car,
}

/// A vehicle that can self-propel along a road. Rotation is in degrees.
#[derive(Debug, PartialEq, Eq, Structural, Copy, Clone)]
pub struct Vehicle {
    pub vehicle_type: VehicleType,
    pub position: Coordinates,
    pub rotation: i64,
}

/// Generalization of all scene objects.
#[derive(Debug, PartialEq, Eq, Structural, Copy, Clone)]
pub enum Object {
    Wire(Wire),
    Beam(Beam),
    Vehicle(Vehicle),
}

/// The failure of resolving an edge: a vertex index that is not smaller
/// than the length of the level's vertex list.
#[derive(Debug, PartialEq, Eq, Structural, Copy, Clone)]
pub struct IndexError {
    pub index: usize,
}

/// A level transformed into renderable objects, in category order:
/// static road beams, then the bridge's road, wood and steel beams,
/// then its wires.
#[derive(Debug, PartialEq, Default, Clone)]
pub struct Scene(pub Vec<Object>);

impl View for Scene {
    type V = Seq<Object>;

    open spec fn view(&self) -> Seq<Object> {
        self.0@
    }
}

/// The scene-plane copy of a level-plane position.
pub open spec fn scene_coordinates(c: level::Coordinates) -> Coordinates {
    Coordinates { x: c.x, y: c.y }
}

/// The line connecting the two vertices that `edge` references.
pub open spec fn line_for_edge(vertices: Seq<level::Coordinates>, edge: Edge) -> Line {
    Line(scene_coordinates(vertices[edge.0.0 as int]), scene_coordinates(vertices[edge.1.0 as int]))
}

/// The beam that the scene builder derives from one edge.
pub open spec fn beam_for_edge(
    vertices: Seq<level::Coordinates>,
    edge: Edge,
    material: BeamMaterial,
    is_static: bool,
) -> Object {
    Object::Beam(Beam { material, line: line_for_edge(vertices, edge), is_static })
}

/// The wire that the scene builder derives from one edge.
pub open spec fn wire_for_edge(
    vertices: Seq<level::Coordinates>,
    edge: Edge,
    material: WireMaterial,
) -> Object {
    Object::Wire(Wire { material, line: line_for_edge(vertices, edge) })
}

/// The beams derived from `edges`, in order.
pub open spec fn beams_spec(
    vertices: Seq<level::Coordinates>,
    edges: Seq<Edge>,
    material: BeamMaterial,
    is_static: bool,
) -> Seq<Object>
    decreases edges.len(),
{
    if edges.len() == 0 {
        Seq::empty()
    } else {
        beams_spec(vertices, edges.drop_last(), material, is_static).push(
            beam_for_edge(vertices, edges.last(), material, is_static),
        )
    }
}

/// The wires derived from `edges`, in order.
pub open spec fn wires_spec(
    vertices: Seq<level::Coordinates>,
    edges: Seq<Edge>,
    material: WireMaterial,
) -> Seq<Object>
    decreases edges.len(),
{
    if edges.len() == 0 {
        Seq::empty()
    } else {
        wires_spec(vertices, edges.drop_last(), material).push(
            wire_for_edge(vertices, edges.last(), material),
        )
    }
}

/// The whole scene derived from a level whose edges are all in bounds:
/// the level's roads as static beams, then the bridge's roads, wood and
/// steel as non-static beams, then the bridge's wires.
pub open spec fn scene_spec(level: &Level) -> Seq<Object> {
    let v = level.vertices@;
    beams_spec(v, level.road@, BeamMaterial::Road, true)
        + beams_spec(v, level.bridge.road@, BeamMaterial::Road, false)
        + beams_spec(v, level.bridge.wood@, BeamMaterial::Wood, false)
        + beams_spec(v, level.bridge.steel@, BeamMaterial::Steel, false)
        + wires_spec(v, level.bridge.wire@, WireMaterial::Steel)
}

/// The first out-of-range index of `edge` against `n` vertices, if any;
/// the first endpoint is checked before the second.
pub open spec fn edge_error(edge: Edge, n: nat) -> Option<usize> {
    if edge.0.0 >= n {
        Some(edge.0.0)
    } else if edge.1.0 >= n {
        Some(edge.1.0)
    } else {
        None
    }
}

/// The first out-of-range index among `edges[i..]`, if any.
pub open spec fn edges_error_from(edges: Seq<Edge>, n: nat, i: int) -> Option<usize>
    decreases edges.len() - i,
{
    if i < 0 || i >= edges.len() {
        None
    } else {
        match edge_error(edges[i], n) {
            Some(bad) => Some(bad),
            None => edges_error_from(edges, n, i + 1),
        }
    }
}

/// The first out-of-range index among `edges`, if any.
pub open spec fn edges_error(edges: Seq<Edge>, n: nat) -> Option<usize> {
    edges_error_from(edges, n, 0)
}

/// The first out-of-range index that the scene builder meets, walking the
/// level's edge lists in category order, if any.
pub open spec fn level_error(level: &Level) -> Option<usize> {
    let n = level.vertices@.len();
    match edges_error(level.road@, n) {
        Some(bad) => Some(bad),
        None => match edges_error(level.bridge.road@, n) {
            Some(bad) => Some(bad),
            None => match edges_error(level.bridge.wood@, n) {
                Some(bad) => Some(bad),
                None => match edges_error(level.bridge.steel@, n) {
                    Some(bad) => Some(bad),
                    None => edges_error(level.bridge.wire@, n),
                },
            },
        },
    }
}

/// Whether the scene builder succeeds on `level`: every edge of the
/// level's five edge lists is in bounds. Unlike [`Level::wf`] this does
/// not look at the anchors, which the builder never resolves.
pub open spec fn buildable(level: &Level) -> bool {
    let n = level.vertices@.len();
    &&& edges_in_bounds(level.road@, n)
    &&& edges_in_bounds(level.bridge.road@, n)
    &&& edges_in_bounds(level.bridge.wood@, n)
    &&& edges_in_bounds(level.bridge.steel@, n)
    &&& edges_in_bounds(level.bridge.wire@, n)
}

/// There is no out-of-range index among `edges[i..]` exactly when every
/// edge from `i` on is in bounds.
proof fn lemma_edges_error_from_none(edges: Seq<Edge>, n: nat, i: int)
    requires
        0 <= i <= edges.len(),
    ensures
        edges_error_from(edges, n, i) is None <==> (forall|j: int|
            i <= j < edges.len() ==> edge_in_bounds(#[trigger] edges[j], n)),
    decreases edges.len() - i,
{
    if i < edges.len() {
        lemma_edges_error_from_none(edges, n, i + 1);
    }
}

/// There is no out-of-range index among `edges` exactly when every edge
/// is in bounds.
pub proof fn lemma_edges_error_none(edges: Seq<Edge>, n: nat)
    ensures
        edges_error(edges, n) is None <==> edges_in_bounds(edges, n),
{
    lemma_edges_error_from_none(edges, n, 0);
}

/// The scene builder meets no out-of-range index exactly when the level
/// is buildable.
pub proof fn lemma_level_error_none(level: &Level)
    ensures
        level_error(level) is None <==> buildable(level),
{
    let n = level.vertices@.len();
    lemma_edges_error_none(level.road@, n);
    lemma_edges_error_none(level.bridge.road@, n);
    lemma_edges_error_none(level.bridge.wood@, n);
    lemma_edges_error_none(level.bridge.steel@, n);
    lemma_edges_error_none(level.bridge.wire@, n);
}

/// The beams derived from `edges` are one per edge, in order, each with
/// its endpoints exactly the referenced vertices' coordinates.
pub proof fn lemma_beams_spec_elements(
    vertices: Seq<level::Coordinates>,
    edges: Seq<Edge>,
    material: BeamMaterial,
    is_static: bool,
)
    ensures
        beams_spec(vertices, edges, material, is_static).len() == edges.len(),
        forall|i: int| 0 <= i < edges.len() ==> beams_spec(vertices, edges, material, is_static)[i]
            == beam_for_edge(vertices, #[trigger] edges[i], material, is_static),
    decreases edges.len(),
{
    if edges.len() > 0 {
        lemma_beams_spec_elements(vertices, edges.drop_last(), material, is_static);
        let s = beams_spec(vertices, edges, material, is_static);
        assert forall|i: int| 0 <= i < edges.len() implies s[i] == beam_for_edge(
            vertices,
            edges[i],
            material,
            is_static,
        ) by {
            if i < edges.len() - 1 {
                assert(beams_spec(vertices, edges.drop_last(), material, is_static)[i]
                    == beam_for_edge(vertices, edges.drop_last()[i], material, is_static));
                assert(edges.drop_last()[i] == edges[i]);
            } else {
                assert(edges.last() == edges[i]);
            }
        }
    }
}

/// The wires derived from `edges` are one per edge, in order, each with
/// its endpoints exactly the referenced vertices' coordinates.
pub proof fn lemma_wires_spec_elements(
    vertices: Seq<level::Coordinates>,
    edges: Seq<Edge>,
    material: WireMaterial,
)
    ensures
        wires_spec(vertices, edges, material).len() == edges.len(),
        forall|i: int| 0 <= i < edges.len() ==> wires_spec(vertices, edges, material)[i]
            == wire_for_edge(vertices, #[trigger] edges[i], material),
    decreases edges.len(),
{
    if edges.len() > 0 {
        lemma_wires_spec_elements(vertices, edges.drop_last(), material);
        let s = wires_spec(vertices, edges, material);
        assert forall|i: int| 0 <= i < edges.len() implies s[i] == wire_for_edge(
            vertices,
            edges[i],
            material,
        ) by {
            if i < edges.len() - 1 {
                assert(wires_spec(vertices, edges.drop_last(), material)[i] == wire_for_edge(
                    vertices,
                    edges.drop_last()[i],
                    material,
                ));
                assert(edges.drop_last()[i] == edges[i]);
            } else {
                assert(edges.last() == edges[i]);
            }
        }
    }
}

/// The scene builder preserves the edge count per category: the scene is
/// exactly the level's roads, the bridge's roads, wood and steel, then
/// its wires, one object per edge in that order, and each object's line
/// runs between the two vertices its edge references.
pub proof fn lemma_scene_spec_layout(level: &Level)
    ensures
        scene_spec(level).len() == level.road@.len() + level.bridge.road@.len()
            + level.bridge.wood@.len() + level.bridge.steel@.len() + level.bridge.wire@.len(),
        forall|i: int| 0 <= i < level.road@.len() ==> scene_spec(level)[i] == beam_for_edge(
            level.vertices@,
            #[trigger] level.road@[i],
            BeamMaterial::Road,
            true,
        ),
        forall|i: int| 0 <= i < level.bridge.road@.len() ==> scene_spec(level)[level.road@.len()
            + i] == beam_for_edge(
            level.vertices@,
            #[trigger] level.bridge.road@[i],
            BeamMaterial::Road,
            false,
        ),
        forall|i: int| 0 <= i < level.bridge.wood@.len() ==> scene_spec(level)[level.road@.len()
            + level.bridge.road@.len() + i] == beam_for_edge(
            level.vertices@,
            #[trigger] level.bridge.wood@[i],
            BeamMaterial::Wood,
            false,
        ),
        forall|i: int| 0 <= i < level.bridge.steel@.len() ==> scene_spec(level)[level.road@.len()
            + level.bridge.road@.len() + level.bridge.wood@.len() + i] == beam_for_edge(
            level.vertices@,
            #[trigger] level.bridge.steel@[i],
            BeamMaterial::Steel,
            false,
        ),
        forall|i: int| 0 <= i < level.bridge.wire@.len() ==> scene_spec(level)[level.road@.len()
            + level.bridge.road@.len() + level.bridge.wood@.len() + level.bridge.steel@.len() + i]
            == wire_for_edge(level.vertices@, #[trigger] level.bridge.wire@[i], WireMaterial::Steel),
{
    let v = level.vertices@;
    lemma_beams_spec_elements(v, level.road@, BeamMaterial::Road, true);
    lemma_beams_spec_elements(v, level.bridge.road@, BeamMaterial::Road, false);
    lemma_beams_spec_elements(v, level.bridge.wood@, BeamMaterial::Wood, false);
    lemma_beams_spec_elements(v, level.bridge.steel@, BeamMaterial::Steel, false);
    lemma_wires_spec_elements(v, level.bridge.wire@, WireMaterial::Steel);
}

impl Coordinates {
    /// The scene-plane copy of a level-plane position.
    fn new(level_coordinates: &level::Coordinates) -> (r: Self)
        ensures
            r == scene_coordinates(*level_coordinates),
    {
        Coordinates { x: level_coordinates.x, y: level_coordinates.y }
    }
}

impl Scene {
    /// Derives the renderable scene from `level`, resolving each edge of
    /// the level's five edge lists, in category order, into a line between
    /// the two referenced vertices. Fails with the first out-of-range
    /// vertex index and then returns no partial scene.
    pub fn new(level: &Level) -> (r: Result<Self, IndexError>)
        ensures
            match r {
                Ok(scene) => buildable(level) && scene@ == scene_spec(level),
                Err(e) => !buildable(level) && level_error(level) == Some(e.index),
            },
    {
        proof {
            lemma_level_error_none(level);
        }
        let mut objects: Vec<Object> = Vec::new();

        // Add static roads
        let mut part = Self::convert_beams(&level.vertices, &level.road, BeamMaterial::Road, true)?;
        objects.append(&mut part);

        // Add all bridge members
        let mut part = Self::convert_beams(
            &level.vertices,
            &level.bridge.road,
            BeamMaterial::Road,
            false,
        )?;
        objects.append(&mut part);
        let mut part = Self::convert_beams(
            &level.vertices,
            &level.bridge.wood,
            BeamMaterial::Wood,
            false,
        )?;
        objects.append(&mut part);
        let mut part = Self::convert_beams(
            &level.vertices,
            &level.bridge.steel,
            BeamMaterial::Steel,
            false,
        )?;
        objects.append(&mut part);
        let mut part = Self::convert_wires(&level.vertices, &level.bridge.wire, WireMaterial::Steel)?;
        objects.append(&mut part);

        proof {
            assert(objects@ =~= scene_spec(level));
        }
        Ok(Scene(objects))
    }

    /// A fresh scene holding the same objects.
    pub fn duplicate(&self) -> (r: Self)
        ensures
            r@ == self@,
    {
        let mut objects: Vec<Object> = Vec::new();
        let mut i: usize = 0;
        while i < self.0.len()
            invariant
                i <= self.0.len(),
                objects@ =~= self.0@.take(i as int),
            decreases self.0.len() - i,
        {
            objects.push(self.0[i]);
            i = i + 1;
        }
        proof {
            assert(objects@ =~= self@);
        }
        Scene(objects)
    }

    /// The beams derived from `edges`, or the first out-of-range index.
    fn convert_beams(
        vertices: &Vec<level::Coordinates>,
        edges: &Vec<Edge>,
        material: BeamMaterial,
        is_static: bool,
    ) -> (r: Result<Vec<Object>, IndexError>)
        ensures
            match r {
                Ok(objects) => {
                    &&& edges_error(edges@, vertices@.len()) is None
                    &&& objects@ == beams_spec(vertices@, edges@, material, is_static)
                },
                Err(e) => edges_error(edges@, vertices@.len()) == Some(e.index),
            },
    {
        let ghost n = vertices@.len();
        let mut objects: Vec<Object> = Vec::new();
        let mut i: usize = 0;
        while i < edges.len()
            invariant
                i <= edges@.len(),
                edges_error_from(edges@, n, 0) == edges_error_from(edges@, n, i as int),
                objects@ == beams_spec(vertices@, edges@.take(i as int), material, is_static),
                n == vertices@.len(),
            decreases edges@.len() - i,
        {
            let edge = &edges[i];
            let vertex_a = Self::get_coordinates(&edge.0, vertices)?;
            let vertex_b = Self::get_coordinates(&edge.1, vertices)?;

            objects.push(Object::Beam(Beam { material, line: Line(vertex_a, vertex_b), is_static }));
            proof {
                assert(edges@.take(i + 1).drop_last() =~= edges@.take(i as int));
                assert(edges@.take(i + 1).last() == edges@[i as int]);
            }
            i = i + 1;
        }
        proof {
            assert(edges@.take(edges@.len() as int) =~= edges@);
        }
        Ok(objects)
    }

    /// The wires derived from `edges`, or the first out-of-range index.
    fn convert_wires(
        vertices: &Vec<level::Coordinates>,
        edges: &Vec<Edge>,
        material: WireMaterial,
    ) -> (r: Result<Vec<Object>, IndexError>)
        ensures
            match r {
                Ok(objects) => {
                    &&& edges_error(edges@, vertices@.len()) is None
                    &&& objects@ == wires_spec(vertices@, edges@, material)
                },
                Err(e) => edges_error(edges@, vertices@.len()) == Some(e.index),
            },
    {
        let ghost n = vertices@.len();
        let mut objects: Vec<Object> = Vec::new();
        let mut i: usize = 0;
        while i < edges.len()
            invariant
                i <= edges@.len(),
                edges_error_from(edges@, n, 0) == edges_error_from(edges@, n, i as int),
                objects@ == wires_spec(vertices@, edges@.take(i as int), material),
                n == vertices@.len(),
            decreases edges@.len() - i,
        {
            let edge = &edges[i];
            let vertex_a = Self::get_coordinates(&edge.0, vertices)?;
            let vertex_b = Self::get_coordinates(&edge.1, vertices)?;

            objects.push(Object::Wire(Wire { material, line: Line(vertex_a, vertex_b) }));
            proof {
                assert(edges@.take(i + 1).drop_last() =~= edges@.take(i as int));
                assert(edges@.take(i + 1).last() == edges@[i as int]);
            }
            i = i + 1;
        }
        proof {
            assert(edges@.take(edges@.len() as int) =~= edges@);
        }
        Ok(objects)
    }

    /// The scene-plane position of the vertex at `index`, or `index`'s own
    /// value as the error when it is out of range.
    fn get_coordinates(
        index: &level::VertexIndex,
        vertices: &Vec<level::Coordinates>,
    ) -> (r: Result<Coordinates, IndexError>)
        ensures
            match r {
                Ok(c) => index.0 < vertices@.len() && c == scene_coordinates(vertices@[index.0 as int]),
                Err(e) => index.0 >= vertices@.len() && e.index == index.0,
            },
    {
        if index.0 < vertices.len() {
            Ok(Coordinates::new(&vertices[index.0]))
        } else {
            Err(IndexError { index: index.0 })
        }
    }
}

} // verus!
