//! A small interactive scene viewer, split from the engine that runs it.
//!
//! The engine owns windowing, rendering, asset streaming and input; this
//! library owns what the viewer itself decides: the lifecycle of its two
//! states (loading the scene, then running it), the requests each state
//! issues when it starts, and the text of the overlay that reports the
//! camera's field of view and aspect ratio.

pub mod decimal;
pub mod hud;
pub mod state;

pub use decimal::format_hundredths;
pub use hud::{CameraFov, ShowFov, ShowFovSystem, UiUpdate};
pub use state::{Completion, Example, Loading, StartRequest, Trans};
