//! What comes back from the backend, in the shape the reporter renders.

use vstd::prelude::*;

verus! {

/// A successful payload: either a list of rendered resources or one
/// rendered record.
#[derive(Clone, Debug)]
pub enum Payload {
    /// One rendered line of text per element.
    Items(Vec<String>),
    /// One rendered block of text.
    Record(String),
}

/// The result of executing a descriptor, rendered through exactly one
/// formatting path whatever resource or operation produced it.
#[derive(Clone, Debug)]
pub enum Outcome {
    Success { payload: Payload },
    Failure { error: String },
}

/// The backend's answer to the single call the pipeline makes: the
/// typed outcome, and — when the caller asked for it — the raw response
/// text derived from that same call.
#[derive(Clone, Debug)]
pub struct BackendView {
    pub outcome: Outcome,
    pub raw: Option<String>,
}

} // verus!
