use vstd::prelude::*;

verus! {

/// The failures the client surfaces to its callers.
#[derive(Debug, Clone, PartialEq, Eq)]
pub enum ClientError {
    /// A lookup by id or by key found no actor.
    ActorNotFound,
    /// The endpoint starts with neither `http://` nor `https://`.
    InvalidEndpointUrl,
    /// The configured transport cannot connect.
    UnsupportedTransport,
    /// A stateless handle was asked to resolve a `Create` query.
    QueryIsCreate,
    /// A control-plane call answered with a non-success status.
    HttpStatus { op: ControlOp, status: u16 },
    /// A control-plane reply lacked the expected actor.
    MalformedResponse { op: ControlOp },
    /// A unary action answered with a non-success status.
    ActionFailed { status: u16 },
    /// The server answered an action with an error.
    Rpc { group: String, code: String, message: String, metadata: Option<Vec<u8>> },
    /// The connection was torn down before the action was answered.
    SocketClosed,
    /// The supervisor ran out of request ids.
    IdsExhausted,
}

/// The control-plane operation a status error came from.
#[derive(Debug, Clone, Copy, PartialEq, Eq, Structural)]
pub enum ControlOp {
    GetForId,
    GetWithKey,
    GetOrCreate,
    Create,
}

} // verus!
