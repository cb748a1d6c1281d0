//! A verified core for a local, single-process model-inference server.
//!
//! The crate models the three components of the server as plain data with
//! verified transition functions: a model holder (a single resident model,
//! replaced by loading, never invalidated under a held borrow), a streaming
//! bridge (a bounded FIFO channel carrying framed completion events from a
//! generation task to an HTTP response body), and a server lifecycle manager
//! (idempotent start/stop of a single listener). The surrounding process —
//! HTTP transport, the async runtime, and the model-loading library — performs
//! the outside work and feeds its outcomes into these functions.

use vstd::prelude::*;

pub mod bridge;
pub mod channel;
pub mod events;
pub mod lifecycle;
pub mod model;
pub mod request;

verus! {

/// Errors surfaced by the verified core, mirroring the server's taxonomy.
#[derive(PartialEq, Eq, Debug)]
pub enum ServerError {
    InvalidArchitecture,
    ModelLoadFailed(String),
    NoModelLoaded,
    InvalidRequest,
    BindFailed(String),
    AlreadyRunning,
    NotRunning,
    GenerationFailed(String),
}

} // verus!
