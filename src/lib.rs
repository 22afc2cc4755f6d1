//! Resolves, provisions and launches the C# language server for an editor
//! extension: configuration merging, platform selection, the provisioning
//! state machine and the launch plan.

pub mod config;
pub mod platform;
pub mod launch;
pub mod provision;
