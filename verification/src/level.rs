//! The level data model: vertices, anchors, road and bridge members, and
//! vehicles, exactly as the loader hands them to the engine.
//!
//! Positions are held in integer world units so that the physics update
//! is exact; the loader scales its fractional input into these units.

use vstd::prelude::*;

verus! {

/// A position in the two-dimensional level plane, in integer world units.
#[derive(Debug, PartialEq, Eq, Structural, Clone, Copy)]
pub struct Coordinates {
    pub x: i64,
    pub y: i64,
}

/// An index of a vertex in [`Level::vertices`].
#[derive(Debug, PartialEq, Eq, Structural, Clone, Copy)]
pub struct VertexIndex(pub usize);

/// An edge between two vertices.
#[derive(Debug, PartialEq, Eq, Structural, Clone, Copy)]
pub struct Edge(pub VertexIndex, pub VertexIndex);

/// A vehicle that will cross the bridge. Rotation is in degrees.
#[derive(Debug, PartialEq)]
pub struct Vehicle {
    pub name: String,
    pub position: Coordinates,
    pub rotation: i64,
}

/// A construction built from edges of multiple member types.
#[derive(Debug, PartialEq, Default)]
pub struct Bridge {
    pub steel: Vec<Edge>,
    pub wood: Vec<Edge>,
    pub wire: Vec<Edge>,
    pub road: Vec<Edge>,
}

/// A full level.
#[derive(Debug, PartialEq, Default)]
pub struct Level {
    pub background: String,
    pub vertices: Vec<Coordinates>,
    pub anchors: Vec<VertexIndex>,
    pub road: Vec<Edge>,
    pub bridge: Bridge,
    pub vehicles: Vec<Vehicle>,
}

/// Whether both endpoints of `edge` index into a vertex list of length `n`.
pub open spec fn edge_in_bounds(edge: Edge, n: nat) -> bool {
    edge.0.0 < n && edge.1.0 < n
}

/// Whether every edge of `edges` indexes into a vertex list of length `n`.
pub open spec fn edges_in_bounds(edges: Seq<Edge>, n: nat) -> bool {
    forall|i: int| 0 <= i < edges.len() ==> edge_in_bounds(#[trigger] edges[i], n)
}

impl Level {
    /// Whether every vertex index that the level's edge lists and anchors
    /// mention is valid against its vertex list.
    pub open spec fn wf(&self) -> bool {
        let n = self.vertices@.len();
        &&& edges_in_bounds(self.road@, n)
        &&& edges_in_bounds(self.bridge.road@, n)
        &&& edges_in_bounds(self.bridge.wood@, n)
        &&& edges_in_bounds(self.bridge.steel@, n)
        &&& edges_in_bounds(self.bridge.wire@, n)
        &&& forall|i: int| 0 <= i < self.anchors@.len() ==> (#[trigger] self.anchors@[i]).0 < n
    }
}

} // verus!
