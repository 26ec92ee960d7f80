//! Control of a motorised standing desk over a wireless link: the wire
//! protocol, device discovery, the connection state machine with bounded
//! retries, and the closed-loop movement controller, each with its contract.
//!
//! The transport itself (scanning, linking, reads and writes) is driven by
//! the caller: the state machines here say what to do next and take back
//! what happened.

pub mod config;
pub mod connection;
pub mod discovery;
pub mod icons;
pub mod menu;
pub mod protocol;
pub mod session;
