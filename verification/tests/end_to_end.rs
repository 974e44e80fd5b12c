use borsh::{BorshDeserialize, BorshSerialize};
use std::io::{Read, Write};
use workflow_rpc::client::{response_as, Ctl, Incoming, ReceiverAction, RpcClient};
use workflow_rpc::error::{Error, RpcResponseError};
use workflow_rpc::ops::RpcOps;
use workflow_rpc::server::{result, RpcWebSocketHandler};

#[derive(Debug, Clone, PartialEq)]
enum TestReq {
    First(u32),
    Second(u64),
    Third(String),
}

#[derive(Debug, Clone, PartialEq)]
enum TestResp {
    First(u32),
    Second(u64),
    Third(String),
}

impl BorshSerialize for TestReq {
    fn serialize<W: Write>(&self, writer: &mut W) -> std::io::Result<()> {
        match self {
            TestReq::First(v) => {
                0u8.serialize(writer)?;
                v.serialize(writer)
            }
            TestReq::Second(v) => {
                1u8.serialize(writer)?;
                v.serialize(writer)
            }
            TestReq::Third(v) => {
                2u8.serialize(writer)?;
                v.serialize(writer)
            }
        }
    }
}

impl BorshDeserialize for TestReq {
    fn deserialize_reader<R: Read>(reader: &mut R) -> std::io::Result<Self> {
        match u8::deserialize_reader(reader)? {
            0 => Ok(TestReq::First(u32::deserialize_reader(reader)?)),
            1 => Ok(TestReq::Second(u64::deserialize_reader(reader)?)),
            2 => Ok(TestReq::Third(String::deserialize_reader(reader)?)),
            _ => Err(std::io::Error::new(std::io::ErrorKind::InvalidData, "variant")),
        }
    }
}

impl BorshSerialize for TestResp {
    fn serialize<W: Write>(&self, writer: &mut W) -> std::io::Result<()> {
        match self {
            TestResp::First(v) => {
                0u8.serialize(writer)?;
                v.serialize(writer)
            }
            TestResp::Second(v) => {
                1u8.serialize(writer)?;
                v.serialize(writer)
            }
            TestResp::Third(v) => {
                2u8.serialize(writer)?;
                v.serialize(writer)
            }
        }
    }
}

impl BorshDeserialize for TestResp {
    fn deserialize_reader<R: Read>(reader: &mut R) -> std::io::Result<Self> {
        match u8::deserialize_reader(reader)? {
            0 => Ok(TestResp::First(u32::deserialize_reader(reader)?)),
            1 => Ok(TestResp::Second(u64::deserialize_reader(reader)?)),
            2 => Ok(TestResp::Third(String::deserialize_reader(reader)?)),
            _ => Err(std::io::Error::new(std::io::ErrorKind::InvalidData, "variant")),
        }
    }
}

fn encode_error(err: &RpcResponseError) -> Option<Vec<u8>> {
    let mut bytes = Vec::new();
    let written = match err {
        RpcResponseError::NoData => 0u8.serialize(&mut bytes),
        RpcResponseError::PoisonError => 1u8.serialize(&mut bytes),
        RpcResponseError::NonBorshRequest => 2u8.serialize(&mut bytes),
        RpcResponseError::NonSerdeRequest => 3u8.serialize(&mut bytes),
        RpcResponseError::ReqDeserialize => 4u8.serialize(&mut bytes),
        RpcResponseError::RespSerialize => 5u8.serialize(&mut bytes),
        RpcResponseError::Data(data) => {
            6u8.serialize(&mut bytes).and_then(|_| data.serialize(&mut bytes))
        }
        RpcResponseError::Text(text) => {
            7u8.serialize(&mut bytes).and_then(|_| text.serialize(&mut bytes))
        }
    };
    written.ok().map(|_| bytes)
}

fn decode_error(payload: &[u8]) -> Option<RpcResponseError> {
    let mut rest = payload;
    let err = match u8::deserialize(&mut rest).ok()? {
        0 => RpcResponseError::NoData,
        1 => RpcResponseError::PoisonError,
        2 => RpcResponseError::NonBorshRequest,
        3 => RpcResponseError::NonSerdeRequest,
        4 => RpcResponseError::ReqDeserialize,
        5 => RpcResponseError::RespSerialize,
        6 => RpcResponseError::Data(Vec::<u8>::deserialize(&mut rest).ok()?),
        7 => RpcResponseError::Text(String::deserialize(&mut rest).ok()?),
        _ => return None,
    };
    if rest.is_empty() {
        Some(err)
    } else {
        None
    }
}

fn handle(op: RpcOps, data: &[u8]) -> Result<Vec<u8>, RpcResponseError> {
    if op != RpcOps::Borsh {
        return Err(RpcResponseError::NonBorshRequest);
    }
    let req = TestReq::try_from_slice(data).map_err(|_| RpcResponseError::ReqDeserialize)?;
    match req {
        TestReq::First(v) => result(TestResp::First(v + 1).try_to_vec().ok()),
        TestReq::Second(888) => result(TestResp::Third(String::from("ok")).try_to_vec().ok()),
        TestReq::Second(v) => Err(RpcResponseError::Data(v.to_le_bytes().to_vec())),
        TestReq::Third(text) => Err(RpcResponseError::Text(text)),
    }
}

fn open_client() -> RpcClient<&'static str> {
    let mut client = RpcClient::new();
    client.receiver_task(Incoming::Ctl(Ctl::Open), decode_error);
    client
}

fn round_trip(
    client: &mut RpcClient<&'static str>,
    op: RpcOps,
    req: &TestReq,
) -> Result<TestResp, Error> {
    let server = RpcWebSocketHandler::new(handle);
    let sent = client.call(op.code(), req.try_to_vec().ok(), "waiting", 0)?;
    let answer = server.message::<RpcOps, _>(&sent.frame, encode_error).unwrap();
    let received = match answer {
        Some(frame) => match client.receiver_task(Incoming::Binary(frame), decode_error) {
            ReceiverAction::Complete(done) => {
                assert_eq!(done.id, sent.id);
                assert_eq!(done.callback, "waiting");
                Some(done.result)
            }
            other => panic!("unexpected action {:?}", other),
        },
        None => None,
    };
    response_as(received, |payload: &[u8]| TestResp::try_from_slice(payload).ok())
}

#[test]
fn borsh_call_end_to_end() {
    let mut client = open_client();
    let resp = round_trip(&mut client, RpcOps::Borsh, &TestReq::Second(888));
    assert_eq!(resp, Ok(TestResp::Third(String::from("ok"))));
    assert_eq!(client.pending_len(), 0);
}

#[test]
fn borsh_call_with_another_request() {
    let mut client = open_client();
    let resp = round_trip(&mut client, RpcOps::Borsh, &TestReq::First(41));
    assert_eq!(resp, Ok(TestResp::First(42)));
}

#[test]
fn application_error_end_to_end() {
    let mut client = open_client();
    let resp = round_trip(&mut client, RpcOps::Borsh, &TestReq::Second(7));
    assert_eq!(
        resp,
        Err(Error::StructuredRpcError(RpcResponseError::Data(vec![7, 0, 0, 0, 0, 0, 0, 0])))
    );
    let resp = round_trip(&mut client, RpcOps::Borsh, &TestReq::Third(String::from("no")));
    assert_eq!(resp, Err(Error::StructuredRpcError(RpcResponseError::Text(String::from("no")))));
    let resp = round_trip(&mut client, RpcOps::Raw, &TestReq::First(1));
    assert_eq!(resp, Err(Error::StructuredRpcError(RpcResponseError::NonBorshRequest)));
    assert_eq!(client.pending_len(), 0);
}

#[test]
fn call_on_a_closed_client_end_to_end() {
    let mut client: RpcClient<&'static str> = RpcClient::new();
    let before = client.pending_len();
    let resp = round_trip(&mut client, RpcOps::Borsh, &TestReq::Second(888));
    assert_eq!(resp, Err(Error::NotConnected));
    assert_eq!(client.pending_len(), before);
}

#[test]
fn response_that_is_not_the_expected_type() {
    let mut client = open_client();
    let request = TestReq::First(1).try_to_vec().ok();
    let sent = client.call(RpcOps::Borsh.code(), request, "waiting", 0).unwrap();
    let server = RpcWebSocketHandler::new(|_: RpcOps, _: &[u8]| Ok(vec![0xff, 0xff]));
    let frame = server.message::<RpcOps, _>(&sent.frame, encode_error).unwrap().unwrap();
    let received = match client.receiver_task(Incoming::Binary(frame), decode_error) {
        ReceiverAction::Complete(done) => Some(done.result),
        other => panic!("unexpected action {:?}", other),
    };
    let resp = response_as(received, |payload: &[u8]| TestResp::try_from_slice(payload).ok());
    assert_eq!(resp, Err(Error::DeserializeFailure));
}

#[test]
fn error_codec_round_trip() {
    let errors = [
        RpcResponseError::NoData,
        RpcResponseError::PoisonError,
        RpcResponseError::NonBorshRequest,
        RpcResponseError::NonSerdeRequest,
        RpcResponseError::ReqDeserialize,
        RpcResponseError::RespSerialize,
        RpcResponseError::Data(vec![1, 2, 3]),
        RpcResponseError::Text(String::from("text")),
    ];
    for err in errors {
        let bytes = encode_error(&err).unwrap();
        assert_eq!(decode_error(&bytes), Some(err));
    }
    assert_eq!(decode_error(&[]), None);
    assert_eq!(decode_error(&[8]), None);
    assert_eq!(decode_error(&[0, 0]), None);
}
