//! Classification of a bounded-time WebSocket handshake attempt, and the
//! fixed connection target it is made against.

use vstd::prelude::*;

use crate::result::{ProbeResult, ProbeResultView};
use crate::text::{contains_seq, decimal_digits, str_contains, u64_to_decimal};

verus! {

/// How the race between the handshake attempt and the bounding timer ended.
///
/// The host performs the race and reports it here; everything after that
/// point is a pure function of this value and the timeout.
pub enum HandshakeOutcome {
    /// The transport connected and the protocol upgrade completed first.
    Completed,
    /// The handshake resolved with an error first; the field holds the
    /// error's rendered text.
    Failed(String),
    /// The timer elapsed strictly before the handshake resolved.
    TimedOut,
}

/// Message reported when the handshake completed.
pub open spec fn success_text() -> Seq<char> {
    "WebSocket connection established successfully"@
}

/// Message reported when the error text indicates a rejected credential.
pub open spec fn auth_failure_text() -> Seq<char> {
    "Authentication failed — check your Deepgram API key"@
}

/// Message reported when the error text indicates insufficient permissions.
pub open spec fn permission_failure_text() -> Seq<char> {
    "Permission denied — check your Deepgram account and plan"@
}

/// Message reported for any other handshake error, with the raw error text
/// embedded for diagnosis.
pub open spec fn generic_failure_text(error: Seq<char>) -> Seq<char> {
    "WebSocket connection failed: "@ + error
}

/// Message reported when the timer won the race, embedding the timeout in
/// decimal.
pub open spec fn timeout_text(timeout_ms: u64) -> Seq<char> {
    "WebSocket probe timed out ("@ + decimal_digits(timeout_ms as nat) + "ms)"@
}

/// Reason tag reported when the timer won the race.
pub open spec fn timeout_reason() -> Seq<char> {
    "Timeout"@
}

/// Close code reported when the timer won the race: the conventional
/// WebSocket abnormal-closure code.
pub open spec fn timeout_code() -> u16 {
    1006
}

/// The error text carries an HTTP 401 / unauthorized marker.
pub open spec fn indicates_auth_failure(error: Seq<char>) -> bool {
    contains_seq(error, "401"@) || contains_seq(error, "Unauthorized"@)
}

/// The error text carries an HTTP 403 / forbidden marker.
pub open spec fn indicates_permission_failure(error: Seq<char>) -> bool {
    contains_seq(error, "403"@) || contains_seq(error, "Forbidden"@)
}

/// The result that a given race outcome classifies to. An auth marker is
/// checked before a permission marker, so an error text carrying both is
/// reported as an authentication failure.
pub open spec fn classified(outcome: HandshakeOutcome, timeout_ms: u64) -> ProbeResultView {
    match outcome {
        HandshakeOutcome::Completed => ProbeResultView {
            success: true,
            message: success_text(),
            code: None,
            reason: None,
        },
        HandshakeOutcome::Failed(error) => ProbeResultView {
            success: false,
            message: if indicates_auth_failure(error@) {
                auth_failure_text()
            } else if indicates_permission_failure(error@) {
                permission_failure_text()
            } else {
                generic_failure_text(error@)
            },
            code: None,
            reason: None,
        },
        HandshakeOutcome::TimedOut => ProbeResultView {
            success: false,
            message: timeout_text(timeout_ms),
            code: Some(timeout_code()),
            reason: Some(timeout_reason()),
        },
    }
}

/// Turns the outcome of one handshake race into the result reported to the
/// caller. Total: every outcome maps to exactly one well-formed result.
pub fn classify(outcome: HandshakeOutcome, timeout_ms: u64) -> (result: ProbeResult)
    ensures
        result@ == classified(outcome, timeout_ms),
{
    match outcome {
        HandshakeOutcome::Completed => ProbeResult {
            success: true,
            message: String::from_str("WebSocket connection established successfully"),
            code: None,
            reason: None,
        },
        HandshakeOutcome::Failed(error) => {
            let message = if str_contains(error.as_str(), "401") || str_contains(
                error.as_str(),
                "Unauthorized",
            ) {
                String::from_str("Authentication failed — check your Deepgram API key")
            } else if str_contains(error.as_str(), "403") || str_contains(
                error.as_str(),
                "Forbidden",
            ) {
                String::from_str("Permission denied — check your Deepgram account and plan")
            } else {
                let mut message = String::from_str("WebSocket connection failed: ");
                message.append(error.as_str());
                message
            };
            ProbeResult { success: false, message, code: None, reason: None }
        },
        HandshakeOutcome::TimedOut => {
            let mut message = String::from_str("WebSocket probe timed out (");
            let rendered = u64_to_decimal(timeout_ms);
            message.append(rendered.as_str());
            message.append("ms)");
            ProbeResult {
                success: false,
                message,
                code: Some(1006),
                reason: Some(String::from_str("Timeout")),
            }
        },
    }
}

/// Law: whatever the race outcome and timeout, the classification is
/// well-formed — the reported message is nonempty, and the close code and
/// reason tag appear only together, and only when the timer won the race.
pub proof fn lemma_classified_well_formed(outcome: HandshakeOutcome, timeout_ms: u64)
    ensures
        classified(outcome, timeout_ms).wf(),
        classified(outcome, timeout_ms).code is Some <==> outcome is TimedOut,
{
    reveal_strlit("WebSocket connection established successfully");
    reveal_strlit("Authentication failed — check your Deepgram API key");
    reveal_strlit("Permission denied — check your Deepgram account and plan");
    reveal_strlit("WebSocket connection failed: ");
    reveal_strlit("WebSocket probe timed out (");
}

/// Law: a handshake that completes before the timer is reported as a
/// success, with the fixed success message and neither a close code nor a
/// reason tag, whatever the credential or timeout was.
pub proof fn lemma_completed_classification(timeout_ms: u64)
    ensures
        ({
            let result = classified(HandshakeOutcome::Completed, timeout_ms);
            &&& result.success
            &&& result.message == success_text()
            &&& result.code is None
            &&& result.reason is None
        }),
{
}

/// Law: a handshake error whose text carries a 401/unauthorized marker is
/// reported as a failure with exactly the fixed authentication-failure
/// message, and neither a close code nor a reason tag.
pub proof fn lemma_auth_failure_classification(error: String, timeout_ms: u64)
    requires
        indicates_auth_failure(error@),
    ensures
        ({
            let result = classified(HandshakeOutcome::Failed(error), timeout_ms);
            &&& !result.success
            &&& result.message == auth_failure_text()
            &&& result.code is None
            &&& result.reason is None
        }),
{
}

/// Law: a handshake error whose text carries a 403/forbidden marker — and no
/// 401/unauthorized marker, which takes precedence — is reported as a
/// failure with exactly the fixed permission-failure message, and neither a
/// close code nor a reason tag.
pub proof fn lemma_permission_failure_classification(error: String, timeout_ms: u64)
    requires
        indicates_permission_failure(error@),
        !indicates_auth_failure(error@),
    ensures
        ({
            let result = classified(HandshakeOutcome::Failed(error), timeout_ms);
            &&& !result.success
            &&& result.message == permission_failure_text()
            &&& result.code is None
            &&& result.reason is None
        }),
{
}

/// Law: when the timer elapses before the handshake resolves, the result is
/// a failure carrying close code 1006 and the reason tag, and its message
/// contains the decimal rendering of the timeout that was supplied.
pub proof fn lemma_timeout_classification(timeout_ms: u64)
    ensures
        ({
            let result = classified(HandshakeOutcome::TimedOut, timeout_ms);
            &&& !result.success
            &&& result.code == Some(timeout_code())
            &&& result.reason == Some(timeout_reason())
            &&& contains_seq(result.message, decimal_digits(timeout_ms as nat))
        }),
{
    let prefix = "WebSocket probe timed out ("@;
    let digits = decimal_digits(timeout_ms as nat);
    let message = timeout_text(timeout_ms);
    assert(message.subrange(prefix.len() as int, prefix.len() + digits.len() as int) =~= digits);
}

/// Law: the classification is a function of the race outcome and the
/// timeout alone. Two probe invocations handed equal inputs report equal
/// results; nothing else — and in particular no state retained from another
/// invocation — can influence them.
pub proof fn lemma_classification_deterministic(
    outcome: HandshakeOutcome,
    timeout_ms: u64,
    first: ProbeResult,
    second: ProbeResult,
)
    requires
        first@ == classified(outcome, timeout_ms),
        second@ == classified(outcome, timeout_ms),
    ensures
        first@ == second@,
{
}

/// The fixed secure-WebSocket target address, with the credential embedded
/// verbatim as the token query parameter and all other parameters constant.
pub open spec fn listen_url_spec(credential: Seq<char>) -> Seq<char> {
    "wss://api.deepgram.com/v1/listen?token="@ + credential
        + "&model=nova-2&language=en-US&encoding=linear16&sample_rate=16000"@
}

/// Builds the connection target for a credential. No escaping is performed:
/// the credential is embedded verbatim.
pub fn listen_url(credential: &str) -> (url: String)
    ensures
        url@ == listen_url_spec(credential@),
{
    let mut url = String::from_str("wss://api.deepgram.com/v1/listen?token=");
    url.append(credential);
    url.append("&model=nova-2&language=en-US&encoding=linear16&sample_rate=16000");
    url
}

} // verus!
