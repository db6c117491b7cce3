use vstd::prelude::*;

use crate::common::TransportKind;
use crate::error::ClientError;

verus! {

/// Why a driver's task ended.
#[derive(Debug, Clone, Copy, PartialEq, Eq, Structural)]
pub enum DriverStopReason {
    UserAborted,
    ServerDisconnect,
    ServerError,
    TaskError,
}

/// Whether a driver exists for `transport`: server-sent events are reserved
/// and fail every connection attempt.
pub fn check_transport(transport: TransportKind) -> (r: Result<(), ClientError>)
    ensures
        transport == TransportKind::Sse <==> r == Err::<(), ClientError>(ClientError::UnsupportedTransport),
        transport == TransportKind::WebSocket <==> r is Ok,
{
    match transport {
        TransportKind::WebSocket => Ok(()),
        TransportKind::Sse => Err(ClientError::UnsupportedTransport),
    }
}

} // verus!
