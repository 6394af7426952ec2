//! On-host agent for a remote deployment tool for declarative system
//! configurations.
//!
//! After a new configuration (a "closure") has been transferred to a target
//! host, this agent switches the host's active profile to it and protects
//! against self-lockout: when the operator's confirmation does not arrive in
//! time, the previous generation is restored automatically.
//!
//! The decision logic lives here as verified state machines and pure
//! functions; the surrounding program performs the external-process and
//! filesystem work and feeds the observed outcomes back in as events.

pub mod activate;
pub mod canary;
pub mod command;
pub mod confirm;
pub mod data;
pub mod generations;
pub mod profile;
pub mod rollback;
pub mod wait;
