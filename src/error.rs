//! Failures of an invocation, as opposed to negative verdicts.
use vstd::prelude::*;

verus! {

/// Why an entry point could not produce its payload.
#[derive(Debug)]
pub enum CallError {
    /// An outbound record could not be serialized.
    Encoding(serde_json::Error),
    /// An inbound payload could not be decoded; the text names the payload
    /// and the cause.
    Decoding(String),
}

} // verus!
