//! A probe transport for exercising the server: it counts the messages the
//! server hands it and stops at the first one that carries the stop signal.
use vstd::prelude::*;

use crate::protocol::TransportOutgoingMessage;

verus! {

/// The probe's own payload protocol.
#[derive(PartialEq, Eq, Copy, Clone, Debug, Structural)]
pub enum TestProtocol {
    Stop,
}

/// The probe's state after one message: how many it has seen, and whether
/// it stops.
pub struct ProbeStep {
    pub count: u32,
    pub stop: bool,
}

/// Counts one message (having seen `count` before it) and stops when it is a
/// `Send` whose payload decoded (`decoded`) to the stop signal, the only
/// message of the probe's protocol.
pub fn probe_message(count: u32, message: &TransportOutgoingMessage, decoded: Option<TestProtocol>) -> (step: ProbeStep)
    requires
        count < u32::MAX,
    ensures
        step.count == count + 1,
        step.stop == (message is Send && decoded is Some),
{
    let is_send = match message {
        TransportOutgoingMessage::Send(_, _) => true,
        TransportOutgoingMessage::Purge(_) => false,
    };
    let is_stop = match decoded {
        Some(TestProtocol::Stop) => true,
        _ => false,
    };
    let stop = is_send && is_stop;
    ProbeStep { count: count + 1, stop }
}

} // verus!
