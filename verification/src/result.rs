//! The structured result of one connectivity probe.

use vstd::prelude::*;

verus! {

/// What one probe reports back to its caller.
///
/// Every invocation of the probe produces exactly one of these; no failure
/// mode is ever propagated as an error. `code` and `reason` are populated
/// together, and only when the bounding timer elapsed before the handshake
/// resolved.
#[derive(Debug)]
pub struct ProbeResult {
    /// True iff the handshake completed before the timer.
    pub success: bool,
    /// Human-readable summary; nonempty in every branch.
    pub message: String,
    /// WebSocket-style close code; `Some(1006)` on timeout, absent otherwise.
    pub code: Option<u16>,
    /// Machine-readable tag; `Some("Timeout")` on timeout, absent otherwise.
    pub reason: Option<String>,
}

/// The mathematical shadow of [`ProbeResult`]: the same fields with strings
/// read as character sequences.
#[verifier::ext_equal]
pub ghost struct ProbeResultView {
    pub success: bool,
    pub message: Seq<char>,
    pub code: Option<u16>,
    pub reason: Option<Seq<char>>,
}

impl View for ProbeResult {
    type V = ProbeResultView;

    open spec fn view(&self) -> ProbeResultView {
        ProbeResultView {
            success: self.success,
            message: self.message@,
            code: self.code,
            reason: if self.reason is Some {
                Some(self.reason->0@)
            } else {
                None
            },
        }
    }
}

impl ProbeResultView {
    /// Well-formedness: the message is never empty, and the close code and
    /// the reason tag appear only together.
    pub open spec fn wf(self) -> bool {
        &&& self.message.len() > 0
        &&& (self.code is Some <==> self.reason is Some)
    }
}

} // verus!
