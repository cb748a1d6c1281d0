//! Completion requests and their validation.

use vstd::prelude::*;

verus! {

use crate::ServerError;

/// A caller-supplied text-completion request. The temperature arrives over
/// the wire as a decimal number; the core holds it in thousandths, so its
/// range can be checked exactly.
pub struct CompletionRequest {
    pub prompt: String,
    pub max_tokens: u32,
    pub temperature_milli: i64,
    pub stream: bool,
}

impl CompletionRequest {
    /// A request makes sense when its temperature is not negative;
    /// `max_tokens` cannot be negative by type.
    pub open spec fn valid(self) -> bool {
        self.temperature_milli >= 0
    }

    /// Reject nonsensical requests: a negative temperature fails with
    /// `InvalidRequest`.
    pub fn validate(&self) -> (r: Result<(), ServerError>)
        ensures
            r is Ok <==> self.valid(),
            r is Err ==> r == Err::<(), ServerError>(ServerError::InvalidRequest),
    {
        if self.temperature_milli >= 0 {
            Ok(())
        } else {
            Err(ServerError::InvalidRequest)
        }
    }
}

} // verus!
