use vstd::prelude::*;

verus! {

/// Credentials the server hands out when a session opens.
#[derive(Debug, Clone, PartialEq, Eq)]
pub struct Init {
    pub actor_id: String,
    pub connection_id: String,
    pub connection_token: String,
}

/// An error reported by the server, either for one action or for the connection.
#[derive(Debug, Clone, PartialEq, Eq)]
pub struct Error {
    pub group: String,
    pub code: String,
    pub message: String,
    pub metadata: Option<Vec<u8>>,
    pub action_id: Option<u64>,
}

/// The successful reply to one action; `output` is CBOR.
#[derive(Debug, Clone, PartialEq, Eq)]
pub struct ActionResponse {
    pub id: u64,
    pub output: Vec<u8>,
}

/// A server-initiated event; `args` is a CBOR array.
#[derive(Debug, Clone, PartialEq, Eq)]
pub struct Event {
    pub name: String,
    pub args: Vec<u8>,
}

#[derive(Debug, Clone, PartialEq, Eq)]
pub enum ToClientBody {
    Init(Init),
    Error(Error),
    ActionResponse(ActionResponse),
    Event(Event),
}

/// An envelope sent from the server to the client.
#[derive(Debug, Clone, PartialEq, Eq)]
pub struct ToClient {
    pub body: ToClientBody,
}

/// A call of a named action; `args` is a CBOR array.
#[derive(Debug, Clone, PartialEq, Eq)]
pub struct ActionRequest {
    pub id: u64,
    pub name: String,
    pub args: Vec<u8>,
}

/// A request to start or stop receiving an event.
#[derive(Debug, Clone, PartialEq, Eq)]
pub struct SubscriptionRequest {
    pub event_name: String,
    pub subscribe: bool,
}

#[derive(Debug, Clone, PartialEq, Eq)]
pub enum ToServerBody {
    ActionRequest(ActionRequest),
    SubscriptionRequest(SubscriptionRequest),
}

/// An envelope sent from the client to the server.
#[derive(Debug, Clone, PartialEq, Eq)]
pub struct ToServer {
    pub body: ToServerBody,
}

/// The WebSocket frame kind an envelope travels in.
#[derive(Debug, Clone, Copy, PartialEq, Eq, Structural)]
pub enum FrameKind {
    Text,
    Binary,
}

/// JSON envelopes travel in text frames, CBOR envelopes in binary frames.
pub open spec fn frame_kind_of(e: crate::common::EncodingKind) -> FrameKind {
    match e {
        crate::common::EncodingKind::Json => FrameKind::Text,
        crate::common::EncodingKind::Cbor => FrameKind::Binary,
    }
}

/// The frame kind that outbound envelopes of an encoding are written in.
pub fn outbound_frame_kind(e: crate::common::EncodingKind) -> (r: FrameKind)
    ensures
        r == frame_kind_of(e),
{
    match e {
        crate::common::EncodingKind::Json => FrameKind::Text,
        crate::common::EncodingKind::Cbor => FrameKind::Binary,
    }
}

/// A subscription request for `event_name`.
pub open spec fn subscription_msg(event_name: String, subscribe: bool) -> ToServer {
    ToServer {
        body: ToServerBody::SubscriptionRequest(SubscriptionRequest { event_name, subscribe }),
    }
}

/// An action request.
pub open spec fn action_msg(id: u64, name: String, args: Vec<u8>) -> ToServer {
    ToServer { body: ToServerBody::ActionRequest(ActionRequest { id, name, args }) }
}

} // verus!
