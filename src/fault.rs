//! Captured fault payloads and their rendering as text.
use vstd::prelude::*;

verus! {

/// What a guarded call captured when it faulted.
///
/// Fault-raising facilities raise either a string literal or a string built
/// at run time; any other payload is kept only as the fact that it was there.
pub enum FaultPayload {
    /// The fault was raised with a string literal.
    Literal(&'static str),
    /// The fault was raised with a string built at run time.
    Owned(String),
    /// The fault was raised with a value of any other type.
    Other,
}

/// The outcome of one guarded call: success, or the payload of its fault.
pub type Outcome = Result<(), FaultPayload>;

/// The rendering of a payload that is not a string.
pub const OPAQUE_PAYLOAD_TEXT: &'static str = "Any { .. }";

/// The text that describes a payload.
pub open spec fn payload_text(p: FaultPayload) -> Seq<char> {
    match p {
        FaultPayload::Literal(s) => s@,
        FaultPayload::Owned(s) => s@,
        FaultPayload::Other => OPAQUE_PAYLOAD_TEXT@,
    }
}

/// Converts a captured fault payload into a string.
///
/// A literal or an owned string is returned as it is; any other payload is
/// rendered as a fixed, non-empty description. This never fails.
pub fn spawn_error_to_string(err: FaultPayload) -> (r: String)
    ensures
        r@ == payload_text(err),
        err matches FaultPayload::Literal(s) ==> r@ == s@,
        err matches FaultPayload::Owned(s) ==> r@ == s@,
        err is Other ==> r@.len() > 0,
{
    match err {
        FaultPayload::Literal(s) => s.to_string(),
        FaultPayload::Owned(s) => s,
        FaultPayload::Other => {
            proof {
                reveal_strlit("Any { .. }");
            }
            OPAQUE_PAYLOAD_TEXT.to_string()
        },
    }
}

} // verus!
