//! A steppable bridge-building simulation with a keyboard/mouse driven
//! terminal user interface: a level data model, a scene builder that
//! resolves a level's edges into renderable beams and wires, a simulation
//! engine with a per-tick physics update, and hierarchical input dispatch
//! for the tree of user-interface nodes.
//!
//! Reading events from the terminal, drawing, level-file parsing and
//! signal handling are left to the surrounding application; the types
//! here exchange plain values with it.

pub mod level;
pub mod scene;
pub mod engine;
pub mod stop_token;
pub mod input;
pub mod dispatch;
pub mod icon_button;
pub mod list_menu;
pub mod world_menu;
pub mod main_menu;
pub mod world_view;
pub mod scene_view;
pub mod gui;
