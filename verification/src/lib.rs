//! Moderation-automation engine for a federated discussion platform.
//!
//! The library holds the decision logic of an unattended moderation bot:
//! scheduling of per-plugin ticks, moderation-log filtering and
//! federated-ban replay, the private-message command protocol, message
//! pruning, and the rendering of administrator notices. Network transport,
//! JSON decoding, configuration files and the process entry point live
//! outside the library and exchange plain values with it.

pub mod bot;
pub mod clock;
pub mod commands;
pub mod config;
pub mod mod_log;
pub mod model;
pub mod notify;
pub mod private_message;
pub mod render;
pub mod schedule;
