//! Errors of the RPC client and server.

use vstd::prelude::*;

verus! {

/// An application error that the server declares in an error response.
///
/// It travels as the payload of a response frame whose status is
/// [`crate::ops::STATUS_ERROR`].
#[derive(Debug, Clone, PartialEq, Eq)]
pub enum RpcResponseError {
    /// The request carried no data where data was needed.
    NoData,
    /// A lock on the server side was poisoned.
    PoisonError,
    /// The request was not in the Borsh encoding that the handler expects.
    NonBorshRequest,
    /// The request was not in the Serde encoding that the handler expects.
    NonSerdeRequest,
    /// The server could not deserialize the request.
    ReqDeserialize,
    /// The server could not serialize its response.
    RespSerialize,
    /// An error of the application, as opaque bytes.
    Data(Vec<u8>),
    /// An error of the application, as text.
    Text(String),
}

/// What can go wrong with a call, as seen by the client.
#[derive(Debug, Clone, PartialEq, Eq)]
pub enum Error {
    /// The connection is not open.
    NotConnected,
    /// No response arrived within the timeout.
    Timeout,
    /// The shutdown signal could not be handed to the receiver.
    ReceiverCtl,
    /// A frame is shorter than its header.
    FrameTooSmall,
    /// An error response whose payload is not a well-formed [`RpcResponseError`].
    ResponseDecodeFailure,
    /// A response with a status that is neither success nor error.
    UnknownStatusCode(u32),
    /// The server answered with an application error.
    StructuredRpcError(RpcResponseError),
    /// The request could not be serialized.
    SerializeFailure,
    /// The response payload could not be deserialized.
    DeserializeFailure,
    /// The channel on which the response was awaited was closed.
    ChannelClosed,
}

} // verus!
