//! Client-side RTSP control plane: transport parameters, URLs, messages and
//! the connection state machine.
use vstd::prelude::*;

pub mod builders;
pub mod enums;
pub mod rtsp_connection;
pub mod rtsp_message;
pub mod rtsp_transport;
pub mod rtsp_url;
pub mod text;
pub mod transport_round_trip;

pub use crate::builders::{RTSPConnectionBuilder, RTSPTransportBuilder};
pub use crate::enums::{
    RTSPAuthMethod, RTSPHeaderField, RTSPLowerTrans, RTSPMethod, RTSPMsgType, RTSPProfile,
    RTSPResult, RTSPStatusCode, RTSPTransMode, RTSPVersion,
};
pub use crate::rtsp_connection::{ConnState, RTSPConnection, RTSPEvent};
pub use crate::rtsp_message::RTSPMessage;
pub use crate::rtsp_transport::{RTSPRange, RTSPTransport};
pub use crate::rtsp_url::RTSPUrl;

verus! {

/// Prepares the library for use. It holds no global state, so this does
/// nothing and may be called any number of times.
pub fn init() -> (r: Result<(), RTSPResult>)
    ensures
        r is Ok,
{
    Ok(())
}

} // verus!
