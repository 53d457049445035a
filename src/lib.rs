//! Automatic CPU power-profile switching: the state-coordination engine of a
//! daemon that applies a preset of CPU power settings depending on whether the
//! host runs on battery or on wall power, and lets a caller override the
//! preset of the current power state.
mod args;
mod config;
pub mod control;
pub mod coordinator;
pub mod cpuinfo;
pub mod monitor;
mod power_state;
mod preset;
pub mod text;

pub use args::{Args, Command};
pub use config::{Config, ConfigError};
pub use power_state::{ChargeState, PowerState};
pub use preset::{Attempt, ControlWrite, Preset, Setting, CPUFREQ_POLICIES_DIR};
