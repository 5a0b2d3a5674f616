//! The metrics endpoint's answer.
//!
//! The listener snapshots the process-global metric registry and encodes it
//! in the text exposition format; both happen outside. The reply is the
//! encoded text, or a bodiless server error when encoding failed or the
//! output was not valid UTF-8.

use vstd::prelude::*;

verus! {

/// The metrics endpoint's reply.
pub struct MetricsReply {
    /// HTTP status code.
    pub status: u16,
    /// The text exposition of the registry, on success.
    pub body: Option<String>,
}

/// The reply for one metrics snapshot: the encoded registry as the body when
/// encoding yielded valid UTF-8 text, a bodiless 500 otherwise.
pub fn metrics_reply(encoded: Option<String>) -> (r: MetricsReply)
    ensures
        encoded matches Some(text) ==> r.status == 200 && (r.body matches Some(b) && b@ == text@),
        encoded is None ==> r.status == 500 && r.body is None,
{
    match encoded {
        Some(text) => MetricsReply { status: 200, body: Some(text) },
        None => MetricsReply { status: 500, body: None },
    }
}

} // verus!
