//! Switching between tailnets of a Tailscale client: merging registered
//! profiles with declared tailnets, deciding between a fast switch and a
//! fresh login, capturing the interactive authentication URL from a login
//! log, and the modal key-driven menu that turns operator input into actions.
pub mod text;
pub mod watcher;
pub mod config;
pub mod registry;
pub mod tailscale;
pub mod engine;
pub mod ui;
pub mod session;
