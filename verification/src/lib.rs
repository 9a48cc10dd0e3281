//! Thalamic relay: the decision logic of a relay that watches GPU telemetry,
//! steps an in-process spiking network and answers a UDP control surface.
//!
//! - `supervisor`: the emergency-brake hysteresis of the main loop.
//! - `ipc`: reading datagrams as messages, and how `Stimuli` messages apply.
//! - `lockfile`: the single-instance guard.
//! - `gpu`: the precedence of safety verdicts and NVML power limits.
//! - `cli`: validation of numeric options.
//! - `stats`: per-step counters.
//! - `models`: fault classes and their codes.
//! - `text`: decimal numbers and white space, as the standard library reads them.

pub mod cli;
pub mod gpu;
pub mod ipc;
pub mod lockfile;
pub mod models;
pub mod stats;
pub mod supervisor;
pub mod text;

pub use cli::parse_nonzero_usize;
pub use gpu::{HardwareBridge, SafetyStatus};
pub use models::FaultClass;
