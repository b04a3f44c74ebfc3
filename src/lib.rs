//! Session lifecycle and credential handling for a broker-connected sensor node.
//!
//! The modules here hold the logic of the node: the NUL-terminated credential
//! buffers handed to the secure transport, the boot configuration, the session
//! loop's decision function, and the single-slot bridge that carries sensor
//! samples to the publish step. Radio, transport and timers are driven by the
//! surrounding program, which performs the actions that the session loop asks for.

pub mod bridge;
pub mod client;
pub mod credential;
pub mod link;
pub mod session;
pub mod startup;
