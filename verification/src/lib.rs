//! Guided breathing sessions: technique catalog, fixed-point animation
//! helpers, a bounded particle simulation and the session state machine.

pub mod animation;
pub mod app;
pub mod audio;
pub mod celebration;
pub mod fixed;
pub mod input;
pub mod particles;
pub mod random;
pub mod techniques;
pub mod text;
pub mod theme;
