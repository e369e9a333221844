//! Brightness control for DDC/CI monitors and sysfs backlights: the protocol
//! spoken between the daemon and its client, the daemon's monitor bookkeeping,
//! and the decisions of both programs, with their contracts.

pub mod text;
pub mod error;
pub mod monitor;
pub mod protocol;
pub mod backlight;
pub mod ddc_monitor;
pub mod config;
pub mod monitor_manager;
pub mod fade;
pub mod server;
pub mod waybar;
pub mod client;
pub mod ipc;
pub mod daemon;
