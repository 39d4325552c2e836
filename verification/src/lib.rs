//! Core of a minimal interactive-application framework: a virtual-input
//! model that decouples physical device codes from application semantics,
//! a two-phase scene lifecycle with an ownership-transferring transition
//! protocol, and a frame orchestrator that sequences drawing, timing,
//! input sampling and scene transitions.
//!
//! Window creation, asset loading and presentation are the embedding
//! application's business; the core works on plain values and on a
//! recorded drawing surface.

pub mod input_state;
pub mod scene;
pub mod scene_manager;
pub mod surface;
pub mod test_scene;
pub mod test_scene_deep;
pub mod text_format;
