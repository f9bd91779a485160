//! Input handling for a first-person camera: which movement intents are
//! held, the state of a mouse drag, and the motions that a frame applies.

pub mod binding;
pub mod controller;
pub mod event;
pub mod intent;
pub mod laws;
pub mod model;
pub mod movement;
pub mod text;

pub use binding::Binding;
pub use controller::{FirstPersonCamera, Frame};
pub use event::Event;
pub use intent::{Intent, Motion, Sign};
pub use movement::Movement;
