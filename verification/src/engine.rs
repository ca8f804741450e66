//! The simulation engine: a state machine over a loaded level.
//!
//! The engine owns the level, a static scene template built from it, a
//! working copy that the physics ticks modify, and the simulation state.
//! Loading a level is build-then-swap: on failure nothing is replaced.
//! Each tick subtracts [`GRAVITY`] from the vertical coordinate of both
//! endpoints of every non-static beam and every wire; static beams and
//! vehicles are left untouched.

use vstd::prelude::*;
use vstd::pervasive::VecAdditionalExecFns;

use crate::level::{Bridge, Level};
use crate::scene::{
    Beam, Coordinates, IndexError, Line, Object, Scene, Wire, buildable, level_error, scene_spec,
};

verus! {

/// The vertical displacement, in world units, that one physics tick
/// applies to every non-static endpoint.
pub const GRAVITY: i64 = 1;

/// The playback state of the simulation.
#[derive(Debug, PartialEq, Eq, Structural, Copy, Clone)]
pub enum SimulationState {
    Paused,
    Running,
    Cleared,
}

/// `b` is `a` moved down by `d` world units.
pub open spec fn displaced_coordinates(a: Coordinates, b: Coordinates, d: int) -> bool {
    b.x == a.x && b.y == a.y - d
}

/// Both endpoints of `b` are those of `a` moved down by `d` world units.
pub open spec fn displaced_line(a: Line, b: Line, d: int) -> bool {
    displaced_coordinates(a.0, b.0, d) && displaced_coordinates(a.1, b.1, d)
}

/// `b` is `a` after a downward displacement of `d` world units: a wire's
/// or non-static beam's endpoints move down by `d`, while a static beam
/// and a vehicle are unchanged.
pub open spec fn displaced_object(a: Object, b: Object, d: int) -> bool {
    match a {
        Object::Beam(beam) => {
            &&& b matches Object::Beam(bb)
            &&& bb.material == beam.material
            &&& bb.is_static == beam.is_static
            &&& if beam.is_static {
                bb.line == beam.line
            } else {
                displaced_line(beam.line, bb.line, d)
            }
        },
        Object::Wire(wire) => {
            &&& b matches Object::Wire(wb)
            &&& wb.material == wire.material
            &&& displaced_line(wire.line, wb.line, d)
        },
        Object::Vehicle(_) => b == a,
    }
}

/// `b` is `a` object for object after a downward displacement of `d`.
pub open spec fn displaced_scene(a: Seq<Object>, b: Seq<Object>, d: int) -> bool {
    &&& b.len() == a.len()
    &&& forall|i: int| 0 <= i < a.len() ==> displaced_object(#[trigger] a[i], b[i], d)
}

/// Whether one tick's displacement of `o` stays within the coordinate
/// type: no affected endpoint's vertical coordinate may underflow.
pub open spec fn object_tick_safe(o: Object) -> bool {
    match o {
        Object::Beam(beam) => beam.is_static || (i64::MIN + GRAVITY <= beam.line.0.y
            && i64::MIN + GRAVITY <= beam.line.1.y),
        Object::Wire(wire) => i64::MIN + GRAVITY <= wire.line.0.y && i64::MIN + GRAVITY
            <= wire.line.1.y,
        Object::Vehicle(_) => true,
    }
}

/// Whether one tick's displacement of every object of `s` stays within
/// the coordinate type.
pub open spec fn scene_tick_safe(s: Seq<Object>) -> bool {
    forall|i: int| 0 <= i < s.len() ==> object_tick_safe(#[trigger] s[i])
}

/// A displacement of zero changes nothing.
pub proof fn lemma_displaced_scene_zero(a: Seq<Object>)
    ensures
        displaced_scene(a, a, 0),
{
}

/// Displacements compose: moving down by `d1` and then by `d2` is moving
/// down by `d1 + d2`.
pub proof fn lemma_displaced_scene_transitive(
    a: Seq<Object>,
    b: Seq<Object>,
    c: Seq<Object>,
    d1: int,
    d2: int,
)
    requires
        displaced_scene(a, b, d1),
        displaced_scene(b, c, d2),
    ensures
        displaced_scene(a, c, d1 + d2),
{
    assert forall|i: int| 0 <= i < a.len() implies displaced_object(#[trigger] a[i], c[i], d1 + d2) by {
        assert(displaced_object(a[i], b[i], d1));
        assert(displaced_object(b[i], c[i], d2));
    }
}

/// After a run of ticks — a history of scenes in which each scene is its
/// predecessor displaced by `d` — every non-static beam and wire endpoint
/// of the last scene sits exactly `(history.len() - 1) * d` world units
/// below its place in the first scene, and every static beam and vehicle
/// is unchanged.
pub proof fn lemma_run_displacement(history: Seq<Seq<Object>>, d: int)
    requires
        history.len() >= 1,
        forall|i: int| 0 <= i < history.len() - 1 ==> displaced_scene(
            #[trigger] history[i],
            history[i + 1],
            d,
        ),
    ensures
        displaced_scene(history[0], history.last(), (history.len() - 1) * d),
    decreases history.len(),
{
    let n = history.len() as int;
    if n == 1 {
        lemma_displaced_scene_zero(history[0]);
        assert((history.len() - 1) * d == 0) by (nonlinear_arith)
            requires history.len() == 1;
    } else {
        let prefix = history.drop_last();
        let m = prefix.len() as int;
        assert forall|i: int| 0 <= i < prefix.len() - 1 implies displaced_scene(
            #[trigger] prefix[i],
            prefix[i + 1],
            d,
        ) by {
            assert(displaced_scene(history[i], history[i + 1], d));
        }
        lemma_run_displacement(prefix, d);
        assert(prefix.last() == history[n - 2]);
        assert(displaced_scene(history[n - 2], history[n - 1], d));
        lemma_displaced_scene_transitive(
            history[0],
            history[n - 2],
            history[n - 1],
            (m - 1) * d,
            d,
        );
        assert((m - 1) * d + d == (history.len() - 1) * d) by (nonlinear_arith)
            requires m == history.len() - 1;
        assert(history.last() == history[n - 1]);
    }
}

/// Owns a level, the static scene template built from it, the working
/// copy of that scene that the ticks modify, and the simulation state.
/// Nothing outside the engine mutates the two scenes.
pub struct Engine {
    level: Level,
    static_scene: Scene,
    simulation_scene: Scene,
    simulation_state: SimulationState,
}

impl Engine {
    /// The level the engine currently holds.
    pub closed spec fn level(&self) -> Level {
        self.level
    }

    /// The objects of the static scene template.
    pub closed spec fn static_objects(&self) -> Seq<Object> {
        self.static_scene@
    }

    /// The objects of the working simulation scene.
    pub closed spec fn sim_objects(&self) -> Seq<Object> {
        self.simulation_scene@
    }

    /// The simulation state.
    pub closed spec fn state(&self) -> SimulationState {
        self.simulation_state
    }

    /// A fresh engine: empty level, empty scenes, cleared state.
    pub fn new() -> (r: Engine)
        ensures
            r.state() == SimulationState::Cleared,
            r.static_objects() == Seq::<Object>::empty(),
            r.sim_objects() == Seq::<Object>::empty(),
            r.level().background@ == Seq::<char>::empty(),
            r.level().vertices@.len() == 0,
            r.level().anchors@.len() == 0,
            r.level().road@.len() == 0,
            r.level().bridge.steel@.len() == 0,
            r.level().bridge.wood@.len() == 0,
            r.level().bridge.wire@.len() == 0,
            r.level().bridge.road@.len() == 0,
            r.level().vehicles@.len() == 0,
    {
        Engine {
            level: Level {
                background: String::new(),
                vertices: Vec::new(),
                anchors: Vec::new(),
                road: Vec::new(),
                bridge: Bridge {
                    steel: Vec::new(),
                    wood: Vec::new(),
                    wire: Vec::new(),
                    road: Vec::new(),
                },
                vehicles: Vec::new(),
            },
            static_scene: Scene(Vec::new()),
            simulation_scene: Scene(Vec::new()),
            simulation_state: SimulationState::Cleared,
        }
    }

    /// Builds the scene of `new_level` and, only on success, replaces the
    /// level, the static scene and the working copy, and clears the state.
    /// On failure the engine is left exactly as it was.
    pub fn set_level(&mut self, new_level: Level) -> (r: Result<(), IndexError>)
        ensures
            match r {
                Ok(_) => {
                    &&& buildable(&new_level)
                    &&& final(self).level() == new_level
                    &&& final(self).static_objects() == scene_spec(&new_level)
                    &&& final(self).sim_objects() == scene_spec(&new_level)
                    &&& final(self).state() == SimulationState::Cleared
                },
                Err(e) => {
                    &&& !buildable(&new_level)
                    &&& level_error(&new_level) == Some(e.index)
                    &&& *final(self) == *old(self)
                },
            },
    {
        match Scene::new(&new_level) {
            Ok(built) => {
                let working = built.duplicate();
                self.level = new_level;
                self.static_scene = built;
                self.simulation_scene = working;
                self.simulation_state = SimulationState::Cleared;
                Ok(())
            },
            Err(e) => Err(e),
        }
    }

    /// The current working scene, as the renderer reads it.
    pub fn get_scene(&self) -> (r: &Scene)
        ensures
            r@ == self.sim_objects(),
    {
        &self.simulation_scene
    }

    /// Starts the simulation; idempotent when it is already running.
    pub fn start_simulation(&mut self)
        ensures
            final(self).state() == SimulationState::Running,
            final(self).level() == old(self).level(),
            final(self).static_objects() == old(self).static_objects(),
            final(self).sim_objects() == old(self).sim_objects(),
    {
        self.simulation_state = SimulationState::Running;
    }

    /// Pauses a running simulation; a no-op in any other state.
    pub fn pause_simulation(&mut self)
        ensures
            final(self).state() == (if old(self).state() == SimulationState::Running {
                SimulationState::Paused
            } else {
                old(self).state()
            }),
            final(self).level() == old(self).level(),
            final(self).static_objects() == old(self).static_objects(),
            final(self).sim_objects() == old(self).sim_objects(),
    {
        if self.simulation_state == SimulationState::Running {
            self.simulation_state = SimulationState::Paused;
        }
    }

    /// Restores the working scene from the static template and clears the
    /// state, discarding all prior tick displacement. Legal in any state.
    pub fn reset_simulation(&mut self)
        ensures
            final(self).state() == SimulationState::Cleared,
            final(self).sim_objects() == old(self).static_objects(),
            final(self).static_objects() == old(self).static_objects(),
            final(self).level() == old(self).level(),
    {
        self.simulation_scene = self.static_scene.duplicate();
        self.simulation_state = SimulationState::Cleared;
    }

    /// The simulation state, as the transport controls read it.
    pub fn simulation_state(&self) -> (r: &SimulationState)
        ensures
            *r == self.state(),
    {
        &self.simulation_state
    }

    /// One physics tick. May be called only while the simulation runs;
    /// calling it in any other state is a caller bug, not an error value.
    pub fn simulate_scene_tick(&mut self)
        requires
            old(self).state() == SimulationState::Running,
            scene_tick_safe(old(self).sim_objects()),
        ensures
            displaced_scene(old(self).sim_objects(), final(self).sim_objects(), GRAVITY as int),
            final(self).state() == old(self).state(),
            final(self).static_objects() == old(self).static_objects(),
            final(self).level() == old(self).level(),
    {
        self.the_fancy_math();
    }

    /// The physics update itself: both endpoints of every wire and of
    /// every non-static beam move down by [`GRAVITY`].
    fn the_fancy_math(&mut self)
        requires
            scene_tick_safe(old(self).sim_objects()),
        ensures
            displaced_scene(old(self).sim_objects(), final(self).sim_objects(), GRAVITY as int),
            final(self).simulation_state == old(self).simulation_state,
            final(self).static_scene == old(self).static_scene,
            final(self).level == old(self).level,
    {
        let ghost orig = self.simulation_scene.0@;
        let length = self.simulation_scene.0.len();
        let mut i: usize = 0;
        while i < length
            invariant
                i <= length,
                length == orig.len(),
                self.simulation_scene.0@.len() == orig.len(),
                scene_tick_safe(orig),
                forall|j: int| 0 <= j < i ==> displaced_object(
                    #[trigger] orig[j],
                    self.simulation_scene.0@[j],
                    GRAVITY as int,
                ),
                forall|j: int| i <= j < orig.len() ==> self.simulation_scene.0@[j]
                    == #[trigger] orig[j],
                self.simulation_state == old(self).simulation_state,
                self.static_scene == old(self).static_scene,
                self.level == old(self).level,
            decreases length - i,
        {
            let object = self.simulation_scene.0[i];
            assert(object == orig[i as int]);
            assert(object_tick_safe(object));
            let updated = match object {
                Object::Wire(wire) => Object::Wire(
                    Wire { material: wire.material, line: lower_line(wire.line) },
                ),
                Object::Beam(beam) => if beam.is_static {
                    object
                } else {
                    Object::Beam(
                        Beam {
                            material: beam.material,
                            line: lower_line(beam.line),
                            is_static: beam.is_static,
                        },
                    )
                },
                Object::Vehicle(_) => object,
            };
            self.simulation_scene.0.set(i, updated);
            i = i + 1;
        }
    }
}

/// Both endpoints of `line` moved down by [`GRAVITY`].
fn lower_line(line: Line) -> (r: Line)
    requires
        i64::MIN + GRAVITY <= line.0.y,
        i64::MIN + GRAVITY <= line.1.y,
    ensures
        displaced_line(line, r, GRAVITY as int),
{
    Line(
        Coordinates { x: line.0.x, y: line.0.y - GRAVITY },
        Coordinates { x: line.1.x, y: line.1.y - GRAVITY },
    )
}

} // verus!
