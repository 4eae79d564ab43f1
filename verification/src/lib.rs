//! Shared-state core of a multiplayer network service.
//!
//! The central server's side is the configuration store with its derived
//! flags and atomic reload, and the account verification store with its
//! refresher and deleter ticks. The game server's side is the player session
//! registry and the lock-protected state that holds it.

pub mod config;
pub mod mirror;
pub mod registry;
pub mod shared;
pub mod state;
pub mod verification;
