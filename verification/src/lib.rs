//! Boundary layer of a speech-engine plugin for an MRCP server.
//!
//! Two components live here. The engine handle shares one engine instance
//! between the host and every open channel and shuts it down at most once,
//! only when the host gives the handle back as the last holder. The header
//! views turn a parsed, loosely typed request into typed fields whose
//! absence stays distinguishable from a value, with the documented defaults
//! applied by the accessors alone.

pub mod engine;
pub mod error;
pub mod headers;
pub mod request;
pub mod text;

pub use engine::{get_attribute, SafeEngine, Shutdown, Teardown};
pub use error::{Error, HeaderId};
pub use headers::{RecogHeaders, SynthHeaders};
