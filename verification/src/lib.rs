//! Controller library for an external screen/audio recorder process.
//!
//! The recorder itself is a separate binary; this crate owns the session
//! lifecycle around it: allocating a destination, building the recorder's
//! configuration payload, generating session identifiers, probing codec
//! support, and driving the start/pause/resume/stop state machine with its
//! startup-timeout handling.  All process spawning and event-channel I/O is
//! performed by the embedding program, which reports each outcome back to the
//! state machine here.

pub mod codecs;
pub mod config;
pub mod error;
pub mod ids;
pub mod json;
pub mod locator;
pub mod session;
