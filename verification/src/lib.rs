//! A split-screen scene core: one 2D scene rendered side by side through two
//! independently configured cameras sharing a window, with a hover-highlight
//! interaction on a single tracked object.
//!
//! The host runtime (windowing, rendering, picking) is an external
//! collaborator: it delivers resize and hover events as plain values and reads
//! the camera and object state back each frame. Everything that decides —
//! viewport partitioning, layer tagging, the hover state machine, the
//! diagnostic cadence — lives here and is verified.

pub mod diag;
pub mod hover;
pub mod layers;
pub mod layout;
pub mod resources;
pub mod scene;
