//! The messages that two machines exchange.
use crate::events::{ClipboardData, ControlMessage, InputEvent};
use vstd::prelude::*;

verus! {

/// What a machine can do. No capability is told apart yet.
#[derive(Debug, Clone, Copy, PartialEq, Eq, Structural)]
pub struct Capabilities {}

impl Default for Capabilities {
    fn default() -> (r: Self)
        ensures
            r == (Capabilities {  }),
    {
        Capabilities {  }
    }
}

/// A client introduces itself.
#[derive(Debug, Clone, PartialEq, Eq)]
pub struct HelloMessage {
    pub protocol_version: String,
    pub device_name: String,
    pub device_id: String,
    pub capabilities: Capabilities,
}

/// A server asks a client to prove who it is.
#[derive(Debug, Clone, PartialEq, Eq)]
pub struct ChallengeMessage {
    pub nonce: Vec<u8>,
    pub cert_fingerprint: String,
}

/// A client answers a challenge.
#[derive(Debug, Clone, PartialEq, Eq)]
pub struct ResponseMessage {
    pub signature: Vec<u8>,
    pub cert_fingerprint: String,
}

/// A server lets a client in.
#[derive(Debug, Clone, PartialEq, Eq)]
pub struct AcceptMessage {
    pub device_name: String,
    pub capabilities: Capabilities,
    pub session_id: String,
}

/// A server turns a client away.
#[derive(Debug, Clone, PartialEq, Eq)]
pub struct RejectMessage {
    pub reason: String,
}

/// The messages of a handshake.
#[derive(Debug, Clone, PartialEq, Eq)]
pub enum HandshakeMessage {
    Hello(HelloMessage),
    Challenge(ChallengeMessage),
    Response(ResponseMessage),
    Accept(AcceptMessage),
    Reject(RejectMessage),
}

/// What a message carries.
#[derive(Debug, Clone, PartialEq, Eq)]
pub enum Payload {
    Handshake(HandshakeMessage),
    Input(InputEvent),
    Clipboard(ClipboardData),
    Control(ControlMessage),
    Heartbeat,
}

/// A message between two machines.
#[derive(Debug, Clone, PartialEq, Eq)]
pub struct Message {
    pub payload: Payload,
}

impl Message {
    /// A message that carries `payload`.
    pub fn new(payload: Payload) -> (r: Self)
        ensures
            r.payload == payload,
    {
        Message { payload }
    }
}

} // verus!
