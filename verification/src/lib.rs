//! A cooperative, non-blocking session layer for an SSH-style protocol engine.
//!
//! The protocol engine itself (handshake, authentication, channel and SFTP
//! framing) is an external collaborator that reports, for every attempted
//! operation, either success, a terminal error, or a "would block" condition
//! together with the transport readiness it is waiting for.  This crate
//! verifies the orchestration layer above such an engine: the error taxonomy,
//! the readiness-driven retry adapter, and the session, channel and SFTP
//! state that the adapter drives.

pub mod auth;
pub mod channel;
pub mod engine;
pub mod error;
pub mod session;
pub mod sftp;
pub mod util;

pub use crate::channel::Channel;
pub use crate::channel::ChannelData;
pub use crate::channel::Stream;

pub use crate::engine::Directions;
pub use crate::engine::Outcome;
pub use crate::engine::ScriptedEngine;
pub use crate::error::Error;
pub use crate::error::Ssh2Error;
pub use crate::session::Session;
pub use crate::util::path_to_bytes;
