//! Relay selection for a VPN client: a constraint model over relay records,
//! matching and subset relations, weighted sampling, port selection and the
//! resolution of obfuscation and bridge settings.

pub mod bridge;
pub mod constraints;
pub mod custom_list;
pub mod describe;
pub mod location;
pub mod logging;
pub mod net;
pub mod obfuscation;
pub mod overrides;
pub mod ports;
pub mod providers;
mod random;
pub mod relay_constraints;
pub mod relay_list;
pub mod sampling;
pub mod selector;
pub mod tunnel;
