//! The server side: routing of request frames and framing of responses.
//!
//! For each message of a connection the dispatcher decodes the request
//! frame, maps the opcode to an operation, has the handler compute the
//! outcome and frames it as a response under the identifier of the request.
//! A frame with an opcode that names no operation is dropped without a
//! response; the caller on the other side learns of it by its timeout.

use crate::error::Error;
use crate::error::RpcResponseError;
use crate::client::spec_resolution;
use crate::message::lemma_decode_encode;
use crate::message::spec_decode;
use crate::message::spec_frame;
use crate::message::ReqMessage;
use crate::message::RespMessage;
use crate::ops::STATUS_ERROR;
use crate::ops::STATUS_SUCCESS;
use vstd::prelude::*;
use vstd::std_specs::convert::TryFromSpec;

verus! {

/// A request that was decoded and routed.
#[derive(Debug)]
pub struct Request<'data, Ops> {
    /// Identifier that the response must carry back.
    pub id: u64,
    /// The operation that the opcode stands for.
    pub op: Ops,
    /// Payload of the request.
    pub data: &'data [u8],
}

/// What the handler of a request is to return for a response that was
/// serialized by the caller: the bytes, or
/// [`RpcResponseError::RespSerialize`] where serializing failed.
pub fn result(serialized: Option<Vec<u8>>) -> (ret: Result<Vec<u8>, RpcResponseError>)
    ensures
        ret == spec_result(serialized),
{
    match serialized {
        Some(data) => Ok(data),
        None => Err(RpcResponseError::RespSerialize),
    }
}

/// The serialized response, or [`RpcResponseError::RespSerialize`].
pub open spec fn spec_result(serialized: Option<Vec<u8>>) -> Result<Vec<u8>, RpcResponseError> {
    match serialized {
        Some(data) => Ok(data),
        None => Err(RpcResponseError::RespSerialize),
    }
}

/// The frame that answers the request `id` with the outcome of its handler.
/// A success is framed with its payload. An application error is framed with
/// its serialized form `encoded`; where it could not be serialized there is
/// no frame.
pub open spec fn spec_response_frame(
    id: u64,
    outcome: Result<Vec<u8>, RpcResponseError>,
    encoded: Option<Vec<u8>>,
) -> Option<Seq<u8>> {
    match outcome {
        Ok(data) => Some(spec_frame(id, STATUS_SUCCESS, data@)),
        Err(_) => match encoded {
            Some(bytes) => Some(spec_frame(id, STATUS_ERROR, bytes@)),
            None => None,
        },
    }
}

/// The bytes of a frame that may be absent.
pub open spec fn spec_bytes(frame: Option<Vec<u8>>) -> Option<Seq<u8>> {
    match frame {
        Some(bytes) => Some(bytes@),
        None => None,
    }
}

/// Decodes a request frame and maps its opcode to an operation.
///
/// Fails with [`Error::FrameTooSmall`] where the frame is shorter than a
/// header. Gives `None` where the opcode names no operation: the message is
/// to be dropped and no response sent.
pub fn request<'data, Ops: TryFrom<u32>>(msg: &'data [u8]) -> (ret: Result<
    Option<Request<'data, Ops>>,
    Error,
>)
    ensures
        spec_decode(msg@) is None ==> (ret matches Err(e) && e == Error::FrameTooSmall),
        spec_decode(msg@) matches Some((id, code, payload)) ==> {
            &&& ret matches Ok(found)
            &&& found matches Some(req) ==> req.id == id && req.data@ == payload
            &&& Ops::obeys_try_from_spec() ==> match Ops::try_from_spec(code) {
                Ok(op) => found matches Some(req) && req.op == op,
                Err(_) => found is None,
            }
        },
{
    let req = match ReqMessage::try_from(msg) {
        Ok(req) => req,
        Err(e) => {
            return Err(e);
        },
    };
    match Ops::try_from(req.op) {
        Ok(op) => Ok(Some(Request { id: req.id, op, data: req.data })),
        Err(_) => Ok(None),
    }
}

/// Frames the outcome of a handler as the response to the request `id`,
/// where the caller has serialized the application error, if there is one:
/// `encoded` is its serialized form, or `None` where serializing it failed.
/// It is looked at for an error only.
pub fn response(id: u64, outcome: Result<Vec<u8>, RpcResponseError>, encoded: Option<Vec<u8>>) -> (frame:
    Option<Vec<u8>>)
    ensures
        spec_bytes(frame) == spec_response_frame(id, outcome, encoded),
{
    match outcome {
        Ok(data) => {
            match RespMessage::new(id, STATUS_SUCCESS, data.as_slice()).try_to_vec() {
                Ok(frame) => Some(frame),
                Err(_) => None,
            }
        },
        Err(_) => {
            match encoded {
                Some(bytes) => {
                    match RespMessage::new(id, STATUS_ERROR, bytes.as_slice()).try_to_vec() {
                        Ok(frame) => Some(frame),
                        Err(_) => None,
                    }
                },
                None => None,
            }
        },
    }
}

/// Whether `encoded` can stand for what `encode` made of the application
/// error of `outcome`: where the outcome is an error it is what `encode`
/// returned for it, and for a success `encode` is not asked.
pub open spec fn spec_encoded_by<E: FnOnce(&RpcResponseError) -> Option<Vec<u8>>>(
    encode: E,
    outcome: Result<Vec<u8>, RpcResponseError>,
    encoded: Option<Vec<u8>>,
) -> bool {
    outcome matches Err(err) ==> call_ensures(encode, (&err,), encoded)
}

/// Frames the outcome of a handler as the response to the request `id`: a
/// success with status [`STATUS_SUCCESS`] and its payload, an application
/// error with status [`STATUS_ERROR`] and the bytes that `encode` makes of
/// it. Where `encode` makes none there is no frame and nothing is to be
/// sent. `encode` is called for an error, and not otherwise.
pub fn respond<E: FnOnce(&RpcResponseError) -> Option<Vec<u8>>>(
    id: u64,
    outcome: Result<Vec<u8>, RpcResponseError>,
    encode: E,
) -> (frame: Option<Vec<u8>>)
    requires
        forall|err: &RpcResponseError| call_requires(encode, (err,)),
    ensures
        exists|encoded: Option<Vec<u8>>|
            {
                &&& #[trigger] spec_encoded_by(encode, outcome, encoded)
                &&& spec_bytes(frame) == spec_response_frame(id, outcome, encoded)
            },
{
    let encoded = match &outcome {
        Ok(_) => None,
        Err(err) => encode(err),
    };
    assert(spec_encoded_by(encode, outcome, encoded));
    response(id, outcome, encoded)
}

/// The dispatcher of a connection, around the handler of its requests.
pub struct RpcWebSocketHandler<H> {
    rpc_handler: H,
}

impl<H> RpcWebSocketHandler<H> {
    /// The handler that this dispatcher calls.
    pub closed spec fn handler(&self) -> H {
        self.rpc_handler
    }

    /// A dispatcher that has `rpc_handler` compute the outcome of each
    /// request.
    pub fn new(rpc_handler: H) -> (dispatcher: Self)
        ensures
            dispatcher.handler() == rpc_handler,
    {
        RpcWebSocketHandler { rpc_handler }
    }

    /// Takes in one message of the connection and gives the response frame
    /// to send, if there is one.
    ///
    /// Fails with [`Error::FrameTooSmall`] where the message is shorter than
    /// a request header; the handler is not called. Gives `None` where the
    /// opcode names no operation (the handler is not called and nothing is
    /// sent), and where the handler returned an application error that
    /// `encode` could not serialize. Else the handler is called with the
    /// operation and the payload, and its outcome is framed under the
    /// identifier of the request, see [`respond`].
    pub fn message<Ops, E>(&self, msg: &[u8], encode: E) -> (ret: Result<Option<Vec<u8>>, Error>)
        where
            Ops: TryFrom<u32>,
            H: Fn(Ops, &[u8]) -> Result<Vec<u8>, RpcResponseError>,
            E: FnOnce(&RpcResponseError) -> Option<Vec<u8>>,
        requires
            forall|op: Ops, payload: &[u8]| call_requires(self.handler(), (op, payload)),
            forall|err: &RpcResponseError| call_requires(encode, (err,)),
        ensures
            spec_decode(msg@) is None ==> (ret matches Err(e) && e == Error::FrameTooSmall),
            spec_decode(msg@) matches Some((id, code, payload)) ==> {
                &&& ret matches Ok(sent)
                &&& Ops::obeys_try_from_spec() ==> match Ops::try_from_spec(code) {
                    Ok(op) => spec_answers(self.handler(), encode, id, op, payload, sent),
                    Err(_) => sent is None,
                }
            },
    {
        let req = match request::<Ops>(msg) {
            Ok(Some(req)) => req,
            Ok(None) => {
                return Ok(None);
            },
            Err(e) => {
                return Err(e);
            },
        };
        let ghost op = req.op;
        assert(call_requires(self.handler(), (req.op, req.data)));
        let outcome = (self.rpc_handler)(req.op, req.data);
        let ghost answered = outcome;
        let sent = respond(req.id, outcome, encode);
        proof {
            let encoded = choose|encoded: Option<Vec<u8>>| #[trigger]
                spec_encoded_by(encode, answered, encoded) && spec_bytes(sent)
                    == spec_response_frame(req.id, answered, encoded);
            assert(spec_handled_by(self.handler(), op, req.data@, req.data, answered));
            assert(spec_encoded_by(encode, answered, encoded));
        }
        Ok(sent)
    }
}

/// Whether `outcome` is what `handler` returned for the operation `op` and
/// the payload `payload`, which it was handed as `bytes`.
pub open spec fn spec_handled_by<Ops, H: Fn(Ops, &[u8]) -> Result<Vec<u8>, RpcResponseError>>(
    handler: H,
    op: Ops,
    payload: Seq<u8>,
    bytes: &[u8],
    outcome: Result<Vec<u8>, RpcResponseError>,
) -> bool {
    bytes@ == payload && call_ensures(handler, (op, bytes), outcome)
}

/// Whether `sent` answers the request `id` for the operation `op` with the
/// payload `payload`: it is the frame of an outcome that `handler` returned
/// for them, with the application error serialized by `encode`.
pub open spec fn spec_answers<Ops, H, E>(
    handler: H,
    encode: E,
    id: u64,
    op: Ops,
    payload: Seq<u8>,
    sent: Option<Vec<u8>>,
) -> bool where
    H: Fn(Ops, &[u8]) -> Result<Vec<u8>, RpcResponseError>,
    E: FnOnce(&RpcResponseError) -> Option<Vec<u8>>,
 {
    exists|bytes: &[u8], outcome: Result<Vec<u8>, RpcResponseError>, encoded: Option<Vec<u8>>|
        {
            &&& #[trigger] spec_handled_by(handler, op, payload, bytes, outcome)
            &&& #[trigger] spec_encoded_by(encode, outcome, encoded)
            &&& spec_bytes(sent) == spec_response_frame(id, outcome, encoded)
        }
}

/// The frame that answers a request decodes to the identifier of that
/// request, and the client resolves the call with it as the handler decided:
/// a success resolves to the payload that the handler returned, and an error
/// to the application error that the client reads from the serialized form,
/// or to [`Error::ResponseDecodeFailure`] where it reads none.
pub proof fn lemma_response_resolves_call(
    id: u64,
    outcome: Result<Vec<u8>, RpcResponseError>,
    encoded: Option<Vec<u8>>,
    decoded: Option<RpcResponseError>,
)
    requires
        spec_response_frame(id, outcome, encoded) is Some,
    ensures
        ({
            let frame = spec_response_frame(id, outcome, encoded)->Some_0;
            &&& spec_decode(frame) matches Some((carried, status, payload))
            &&& carried == id
            &&& match outcome {
                Ok(data) => spec_resolution(status, payload, decoded) == Ok::<Seq<u8>, Error>(
                    data@,
                ),
                Err(_) => payload == encoded->Some_0@ && spec_resolution(status, payload, decoded)
                    == match decoded {
                    Some(err) => Err::<Seq<u8>, Error>(Error::StructuredRpcError(err)),
                    None => Err(Error::ResponseDecodeFailure),
                },
            }
        }),
{
    match outcome {
        Ok(data) => lemma_decode_encode(id, STATUS_SUCCESS, data@),
        Err(_) => lemma_decode_encode(id, STATUS_ERROR, encoded->Some_0@),
    }
}

/// A request frame that the client has encoded reaches the handler as it was
/// sent: it decodes to the identifier, the opcode and the payload of the
/// request.
pub proof fn lemma_request_reaches_handler(id: u64, op: u32, payload: Seq<u8>)
    ensures
        spec_decode(spec_frame(id, op, payload)) == Some((id, op, payload)),
{
    lemma_decode_encode(id, op, payload);
}

} // verus!
