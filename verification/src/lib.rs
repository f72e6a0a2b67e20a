//! Liveness-driven power management for a network-attached device.
//!
//! A workstation client asserts "I need the device" while its user is
//! present; the device-side server powers the device off once no client has
//! been heard from for a debounced period. This crate holds the decisions of
//! both halves, with machine-checked contracts. Sockets, HTTP, timers, files
//! and process inspection are left to the caller, who hands in what was
//! observed and carries out what is decided.
//!
//! Client: [`engine`] decides each tick, [`heartbeat`] frames and judges the
//! heartbeat, [`wol`] plans the wake packet and its deliveries.
//! Server: [`liveness`] keeps the table of clients, [`shutdown`] runs the
//! countdown to power-off.

pub mod app_state;
pub mod wake_mode;
pub mod config;
pub mod config_file;
pub mod engine;
pub mod heartbeat;
pub mod wol;
pub mod liveness;
pub mod shutdown;
pub mod user_activity;
pub mod status;
pub mod logging;
pub mod text;
pub mod wide;
