//! Redraw scheduling and resource lifecycle for a video engine rendering into
//! an application-owned GPU surface with an overlay drawn on top.

pub mod engine_events;
pub mod frame;
pub mod guarantees;
pub mod reconciler;
pub mod startup;

pub use frame::{orient_rows, FrameTarget};
pub use reconciler::{Action, ContextStatus, EngineStatus, LoopEvent, Reconciler};
pub use engine_events::{DrainStep, EngineEvent, EventQueue};
pub use startup::{engine_options, load_command, log_level, media_path, StartupError, StartupStage};
