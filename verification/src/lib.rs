//! Decision core of a host-configuration toggler.
//!
//! Every function here is pure: it receives plain observations of the host
//! and returns the effects that should be carried out, together with the
//! state needed to revert them later.
pub mod advanced_modules;
pub mod detector;
pub mod effect;
pub mod gamemode;
pub mod host;
pub mod memory;
pub mod monitor;
pub mod network;
pub mod options;
pub mod power;
pub mod process;
pub mod registry;
pub mod revi_tweaks;
pub mod service_control;
pub mod settings;
pub mod store;
pub mod text;
pub mod update;
