//! A bounded-time WebSocket connectivity probe for a speech-recognition
//! streaming endpoint.
//!
//! The library holds everything about the probe that is a pure function of
//! its inputs: building the connection target from a credential, rendering
//! the timeout in decimal, and classifying the outcome of the handshake race
//! into a [`result::ProbeResult`]. The host around the library performs the
//! actual handshake and timer race and feeds the outcome back in as a
//! [`probe::HandshakeOutcome`].

pub mod probe;
pub mod result;
pub mod text;

use vstd::prelude::*;

verus! {

/// Greets `name`, echoing it inside a fixed salutation.
pub fn greet(name: &str) -> (greeting: String)
    ensures
        greeting@ == "Hello, "@ + name@ + "! You've been greeted from Rust!"@,
{
    let mut greeting = String::from_str("Hello, ");
    greeting.append(name);
    greeting.append("! You've been greeted from Rust!");
    greeting
}

} // verus!
