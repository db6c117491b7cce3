use vstd::prelude::*;

verus! {

/// Header carrying the envelope encoding of a unary action.
pub const HEADER_ENCODING: &'static str = "x-rivet-encoding";

/// Header carrying the JSON connection parameters of a unary action.
pub const HEADER_CONN_PARAMS: &'static str = "x-rivet-conn-params";

/// Gateway header naming the kind of target.
pub const HEADER_RIVET_TARGET: &'static str = "x-rivet-target";

/// Gateway header naming the target actor.
pub const HEADER_RIVET_ACTOR: &'static str = "x-rivet-actor";

/// Gateway header carrying the access token.
pub const HEADER_RIVET_TOKEN: &'static str = "x-rivet-token";

/// Product token sent as the user agent of every control-plane request.
pub const USER_AGENT_VALUE: &'static str = "ActorClient-Rust/0.1.0";

/// Path of the WebSocket upgrade endpoint.
pub const PATH_CONNECT_WEBSOCKET: &'static str = "/connect/websocket";

/// The transport a live connection runs over.
#[derive(Debug, Clone, Copy, PartialEq, Eq, Structural)]
pub enum TransportKind {
    WebSocket,
    Sse,
}

/// The on-wire representation of protocol envelopes.
#[derive(Debug, Clone, Copy, PartialEq, Eq, Structural)]
pub enum EncodingKind {
    Json,
    Cbor,
}

/// The name of an encoding as it appears in headers and subprotocols.
pub open spec fn encoding_name(e: EncodingKind) -> Seq<char> {
    match e {
        EncodingKind::Json => seq!['j', 's', 'o', 'n'],
        EncodingKind::Cbor => seq!['c', 'b', 'o', 'r'],
    }
}

impl EncodingKind {
    pub fn as_str(&self) -> (r: &'static str)
        ensures
            r@ == encoding_name(*self),
    {
        match self {
            EncodingKind::Json => {
                proof {
                    reveal_strlit("json");
                }
                "json"
            },
            EncodingKind::Cbor => {
                proof {
                    reveal_strlit("cbor");
                }
                "cbor"
            },
        }
    }

    pub fn to_string(&self) -> (r: String)
        ensures
            r@ == encoding_name(*self),
    {
        String::from_str(self.as_str())
    }
}

} // verus!
