//! Gameplay core of a 2D action game: a player roams a level among enemies
//! whose reactions to proximity, fear and damage are driven by a small finite
//! state machine, coupled to movement, combat, animation and dialogue cues.
//!
//! The engine layer (physics, rendering, asset loading, input devices, the
//! dialogue text engine) is an external collaborator: it hands this crate
//! plain values (positions, elapsed time, contact pairs, input edges) and
//! carries out the cues the crate hands back.
//!
//! Units used throughout:
//! - positions are planar coordinates in milliunits (one thousandth of a
//!   world unit), so thresholds stated in world units square exactly;
//! - time is in milliseconds;
//! - speeds are in milliunits per second.

pub mod actors;
pub mod animation;
pub mod behavior;
pub mod combat;
pub mod dialogue;
pub mod frame;
pub mod geometry;
pub mod movement;
pub mod timers;
