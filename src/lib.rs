//! Runtime core of a two-thread real-time application: a render thread and a
//! control thread that start in a fixed order, publish per-iteration timings
//! into a shared named-value store, and stop together.
//!
//! The library holds the decisions of both loops, the startup handshake, the
//! timing arithmetic, the thread-name table and the log-line layout. Windows,
//! threads, channels and output streams are driven by the program around it.
pub mod log;
pub mod loops;
pub mod names;
pub mod startup;
pub mod store;
pub mod timing;

pub use log::{Level, Logger};
pub use loops::{ControlLoop, ControlStep, RenderLoop, RenderStep};
pub use names::ThreadNames;
pub use startup::{Action, Event, Stage, Startup};
pub use store::{StoreError, WINDOW};
