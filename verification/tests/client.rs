use std::cell::RefCell;
use std::rc::Rc;
use workflow_rpc::client::{
    deserialized, resolve, response, response_as, Completion, Ctl, Incoming, ReceiverAction,
    RpcClient, ShutdownStep, TimeoutAction, TimeoutEvent, DEFAULT_TIMEOUT_DURATION,
    DEFAULT_TIMEOUT_TIMER_INTERVAL,
};
use workflow_rpc::error::{Error, RpcResponseError};
use workflow_rpc::message::{Message, ReqMessage, RespMessage};
use workflow_rpc::ops::RPC_CTL_RECEIVER_SHUTDOWN;

fn no_error(_payload: &[u8]) -> Option<RpcResponseError> {
    None
}

fn open_client() -> RpcClient<&'static str> {
    let mut client = RpcClient::new();
    client.receiver_task(Incoming::Ctl(Ctl::Open), no_error);
    client
}

fn frame(id: u64, status: u32, payload: &[u8]) -> Vec<u8> {
    RespMessage::new(id, status, payload).try_to_vec().unwrap()
}

fn expired(action: TimeoutAction<&'static str>) -> Vec<Completion<&'static str>> {
    match action {
        TimeoutAction::Expire(done) => done,
        TimeoutAction::Exit => panic!("the sweeper was not asked to stop"),
    }
}

#[test]
fn new_client_state() {
    let client: RpcClient<()> = RpcClient::new();
    assert!(!client.is_open());
    assert!(!client.receiver_is_running());
    assert!(!client.timeout_is_running());
    assert_eq!(client.pending_len(), 0);
    assert_eq!(client.timeout_timer_interval(), 5_000);
    assert_eq!(client.timeout_duration(), 60_000);
    assert_eq!(DEFAULT_TIMEOUT_TIMER_INTERVAL, 5_000);
    assert_eq!(DEFAULT_TIMEOUT_DURATION, 60_000);
}

#[test]
fn call_on_closed_connection_is_not_connected() {
    let mut client: RpcClient<&'static str> = RpcClient::new();
    let before = client.pending_len();
    let err = client.call(1, Some(vec![1, 2, 3]), "cb", 0).unwrap_err();
    assert_eq!(err, Error::NotConnected);
    assert_eq!(client.pending_len(), before);
    assert_eq!(client.pending_len(), 0);
    let err = client.call_callback_with_buffer(1, Message::Request(b"x"), "cb", 0).unwrap_err();
    assert_eq!(err, Error::NotConnected);
    let err = client.dispatch(1, Message::Request(b"x"), "cb", 0, 7).unwrap_err();
    assert_eq!(err, Error::NotConnected);
    assert_eq!(client.pending_len(), 0);
    assert!(!client.is_pending(7));
}

#[test]
fn call_after_close_is_not_connected() {
    let mut client = open_client();
    client.dispatch(0, Message::Request(b"a"), "cb", 0, 1).unwrap();
    client.receiver_task(Incoming::Ctl(Ctl::Closed), no_error);
    assert!(!client.is_open());
    let err = client.call(0, Some(vec![]), "cb", 5).unwrap_err();
    assert_eq!(err, Error::NotConnected);
    assert_eq!(client.pending_len(), 1);
}

#[test]
fn unserialized_request_is_a_serialize_failure() {
    let mut client = open_client();
    assert_eq!(client.call(1, None, "cb", 0).unwrap_err(), Error::SerializeFailure);
    assert_eq!(client.pending_len(), 0);
    let mut closed: RpcClient<&'static str> = RpcClient::new();
    assert_eq!(closed.call(1, None, "cb", 0).unwrap_err(), Error::SerializeFailure);
}

#[test]
fn dispatch_registers_and_frames_the_request() {
    let mut client = open_client();
    let sent = client.dispatch(0x11223344, Message::Request(b"ping"), "cb", 1234, 0xa1).unwrap();
    assert_eq!(sent.id, 0xa1);
    assert_eq!(
        sent.frame,
        vec![0xa1, 0, 0, 0, 0, 0, 0, 0, 0x44, 0x33, 0x22, 0x11, b'p', b'i', b'n', b'g']
    );
    assert_eq!(client.pending_len(), 1);
    assert!(client.is_pending(0xa1));
}

#[test]
fn dispatch_moves_off_a_pending_seed() {
    let mut client = open_client();
    assert_eq!(client.dispatch(0, Message::Request(b"a"), "cb", 0, 10).unwrap().id, 10);
    assert_eq!(client.dispatch(0, Message::Request(b"b"), "cb", 0, 10).unwrap().id, 11);
    assert_eq!(client.dispatch(0, Message::Request(b"c"), "cb", 0, 10).unwrap().id, 12);
    assert_eq!(client.dispatch(0, Message::Request(b"d"), "cb", 0, u64::MAX).unwrap().id, u64::MAX);
    assert_eq!(client.dispatch(0, Message::Request(b"e"), "cb", 0, u64::MAX).unwrap().id, 0);
    assert_eq!(client.pending_len(), 5);
}

#[test]
fn random_identifiers_are_fresh() {
    let mut client = open_client();
    let mut ids = Vec::new();
    for n in 0..200u32 {
        let payload = n.to_le_bytes();
        let sent = client.call_callback_with_buffer(2, Message::Request(&payload), "cb", 0).unwrap();
        let back = ReqMessage::try_from(&sent.frame).unwrap();
        assert_eq!(back.id, sent.id);
        assert_eq!(back.op, 2);
        assert_eq!(back.data, payload);
        assert!(!ids.contains(&sent.id));
        assert!(client.is_pending(sent.id));
        ids.push(sent.id);
    }
    assert_eq!(client.pending_len(), 200);
}

#[test]
fn call_frames_the_serialized_request() {
    let mut client = open_client();
    let sent = client.call(1, Some(vec![9, 9]), "cb", 50).unwrap();
    let back = ReqMessage::try_from(&sent.frame).unwrap();
    assert_eq!(back.id, sent.id);
    assert_eq!(back.op, 1);
    assert_eq!(back.data, [9, 9]);
    assert_eq!(client.pending_len(), 1);
}

#[test]
fn success_response_resolves_with_the_payload() {
    let mut client = open_client();
    client.dispatch(0, Message::Request(b"q"), "cb", 0, 3).unwrap();
    let done = client.handle_binary_response(&frame(3, 0, b"answer"), no_error).unwrap();
    assert_eq!(done.id, 3);
    assert_eq!(done.result, Ok(b"answer".to_vec()));
    assert_eq!(client.pending_len(), 0);
}

#[test]
fn success_response_with_empty_payload() {
    let mut client = open_client();
    client.dispatch(0, Message::Request(b"q"), "cb", 0, 3).unwrap();
    let done = client.handle_binary_response(&frame(3, 0, b""), no_error).unwrap();
    assert_eq!(done.result, Ok(Vec::new()));
}

#[test]
fn error_response_resolves_with_the_application_error() {
    let mut client = open_client();
    client.dispatch(0, Message::Request(b"q"), "cb", 0, 3).unwrap();
    let done = client
        .handle_binary_response(&frame(3, 1, b"\x06boom"), |payload: &[u8]| {
            assert_eq!(payload, b"\x06boom");
            Some(RpcResponseError::Data(payload[1..].to_vec()))
        })
        .unwrap();
    assert_eq!(done.id, 3);
    assert_eq!(
        done.result,
        Err(Error::StructuredRpcError(RpcResponseError::Data(b"boom".to_vec())))
    );
    assert_eq!(client.pending_len(), 0);
}

#[test]
fn error_response_that_does_not_decode() {
    let mut client = open_client();
    client.dispatch(0, Message::Request(b"q"), "cb", 0, 3).unwrap();
    let done = client.handle_binary_response(&frame(3, 1, b"garbage"), no_error).unwrap();
    assert_eq!(done.result, Err(Error::ResponseDecodeFailure));
    assert_eq!(client.pending_len(), 0);
}

#[test]
fn unknown_status_is_passed_on() {
    let mut client = open_client();
    client.dispatch(0, Message::Request(b"q"), "cb", 0, 3).unwrap();
    client.dispatch(0, Message::Request(b"q"), "cb", 0, 4).unwrap();
    let done = client.handle_binary_response(&frame(3, 2, b"x"), no_error).unwrap();
    assert_eq!(done.result, Err(Error::UnknownStatusCode(2)));
    let done = client.handle_binary_response(&frame(4, u32::MAX, b""), no_error).unwrap();
    assert_eq!(done.result, Err(Error::UnknownStatusCode(u32::MAX)));
}

#[test]
fn decoder_is_asked_for_error_responses_only() {
    let mut client = open_client();
    client.dispatch(0, Message::Request(b"q"), "cb", 0, 1).unwrap();
    client.dispatch(0, Message::Request(b"q"), "cb", 0, 2).unwrap();
    let never = |_: &[u8]| -> Option<RpcResponseError> { panic!("not an error response") };
    assert!(client.handle_binary_response(&frame(1, 0, b"ok"), never).is_some());
    assert!(client.handle_binary_response(&frame(2, 9, b"ok"), never).is_some());
    assert!(client.handle_binary_response(&frame(5, 1, b"ok"), never).is_none());
    assert!(client.handle_binary_response(b"short", never).is_none());
}

#[test]
fn response_for_unknown_id_is_dropped() {
    let mut client = open_client();
    client.dispatch(0, Message::Request(b"q"), "cb", 77, 3).unwrap();
    assert!(client.handle_binary_response(&frame(4, 0, b"late"), no_error).is_none());
    assert_eq!(client.pending_len(), 1);
    assert!(client.is_pending(3));
    let mut idle: RpcClient<&'static str> = RpcClient::new();
    assert!(idle.handle_binary_response(&frame(4, 0, b"late"), no_error).is_none());
    assert_eq!(idle.pending_len(), 0);
}

#[test]
fn duplicate_response_is_dropped() {
    let mut client = open_client();
    client.dispatch(0, Message::Request(b"q"), "cb", 0, 3).unwrap();
    assert!(client.handle_binary_response(&frame(3, 0, b"one"), no_error).is_some());
    assert!(client.handle_binary_response(&frame(3, 0, b"two"), no_error).is_none());
    assert!(client.handle_binary_response(&frame(3, 1, b"two"), no_error).is_none());
    assert_eq!(client.pending_len(), 0);
}

#[test]
fn malformed_response_is_dropped() {
    let mut client = open_client();
    client.dispatch(0, Message::Request(b"q"), "cb", 0, 0).unwrap();
    for len in 0..12usize {
        assert!(client.handle_binary_response(&vec![0u8; len], no_error).is_none());
        assert_eq!(client.pending_len(), 1);
    }
    assert!(client.handle_binary_response(&[0u8; 12], no_error).is_some());
}

#[test]
fn pending_call_times_out() {
    let mut client = open_client();
    client.dispatch(0, Message::Request(b"q"), "cb", 1_000, 3).unwrap();
    assert!(expired(client.timeout_task(TimeoutEvent::Tick(1_000))).is_empty());
    assert!(expired(client.timeout_task(TimeoutEvent::Tick(61_000))).is_empty());
    assert_eq!(client.pending_len(), 1);
    let done = expired(client.timeout_task(TimeoutEvent::Tick(61_001)));
    assert_eq!(done.len(), 1);
    assert_eq!(done[0].id, 3);
    assert_eq!(done[0].result, Err(Error::Timeout));
    assert_eq!(client.pending_len(), 0);
    assert!(expired(client.timeout_task(TimeoutEvent::Tick(61_002))).is_empty());
}

#[test]
fn late_response_after_timeout_is_dropped() {
    let mut client = open_client();
    client.dispatch(0, Message::Request(b"q"), "cb", 0, 3).unwrap();
    assert_eq!(expired(client.timeout_task(TimeoutEvent::Tick(70_000))).len(), 1);
    assert!(client.handle_binary_response(&frame(3, 0, b"late"), no_error).is_none());
    assert_eq!(client.pending_len(), 0);
}

#[test]
fn timeout_after_response_finds_nothing() {
    let mut client = open_client();
    client.dispatch(0, Message::Request(b"q"), "cb", 0, 3).unwrap();
    assert!(client.handle_binary_response(&frame(3, 0, b"in time"), no_error).is_some());
    assert!(expired(client.timeout_task(TimeoutEvent::Tick(70_000))).is_empty());
}

#[test]
fn timeout_duration_is_tunable() {
    let mut client = open_client();
    client.set_timeout_duration(10);
    client.set_timeout_timer_interval(2);
    assert_eq!(client.timeout_duration(), 10);
    assert_eq!(client.timeout_timer_interval(), 2);
    client.dispatch(0, Message::Request(b"q"), "cb", 100, 1).unwrap();
    client.dispatch(0, Message::Request(b"q"), "cb", 105, 2).unwrap();
    assert!(expired(client.timeout_task(TimeoutEvent::Tick(110))).is_empty());
    let done = expired(client.timeout_task(TimeoutEvent::Tick(111)));
    assert_eq!(done.len(), 1);
    assert_eq!(done[0].id, 1);
    assert!(client.is_pending(2));
    let done = expired(client.timeout_task(TimeoutEvent::Tick(116)));
    assert_eq!(done.len(), 1);
    assert_eq!(done[0].id, 2);
}

#[test]
fn closed_connection_does_not_fail_pending_calls() {
    let mut client = open_client();
    client.dispatch(0, Message::Request(b"q"), "cb", 0, 3).unwrap();
    let action = client.receiver_task(Incoming::Ctl(Ctl::Closed), no_error);
    assert!(matches!(action, ReceiverAction::Continue));
    assert!(!client.is_open());
    assert_eq!(client.pending_len(), 1);
    assert!(expired(client.timeout_task(TimeoutEvent::Tick(60_000))).is_empty());
    let done = expired(client.timeout_task(TimeoutEvent::Tick(60_001)));
    assert_eq!(done.len(), 1);
    assert_eq!(done[0].result, Err(Error::Timeout));
}

type Report = Box<dyn FnOnce(Result<Vec<u8>, Error>)>;

#[test]
fn concurrent_calls_resolve_once_each_with_their_own_payload() {
    let seen: Rc<RefCell<Vec<Vec<Result<Vec<u8>, Error>>>>> =
        Rc::new(RefCell::new(vec![Vec::new(); 64]));
    let mut client: RpcClient<Report> = RpcClient::new();
    client.receiver_task(Incoming::Ctl(Ctl::Open), no_error);
    let mut calls = Vec::new();
    for n in 0..64usize {
        let payload = vec![n as u8; 3];
        let now = if n % 4 == 3 { 0 } else { 50_000 };
        let seen = seen.clone();
        let report: Report = Box::new(move |outcome| seen.borrow_mut()[n].push(outcome));
        let sent =
            client.call_callback_with_buffer(0, Message::Request(&payload), report, now).unwrap();
        calls.push((sent.id, sent.frame));
    }
    let mut resolved = 0;
    for (n, (id, request)) in calls.iter().enumerate().rev() {
        if n % 4 == 0 {
            let payload = ReqMessage::try_from(request).unwrap().data.to_vec();
            let done = client.handle_binary_response(&frame(*id, 0, &payload), no_error).unwrap();
            assert_eq!(done.id, *id);
            (done.callback)(done.result);
            resolved += 1;
        }
        if n == 32 {
            match client.timeout_task(TimeoutEvent::Tick(60_001)) {
                TimeoutAction::Expire(done) => {
                    for done in done {
                        (done.callback)(done.result);
                        resolved += 1;
                    }
                }
                TimeoutAction::Exit => panic!("the sweeper was not asked to stop"),
            }
        }
    }
    for (n, (id, request)) in calls.iter().enumerate() {
        let payload = ReqMessage::try_from(request).unwrap().data.to_vec();
        if let Some(done) = client.handle_binary_response(&frame(*id, 0, &payload), no_error) {
            assert!(n % 4 == 1 || n % 4 == 2);
            (done.callback)(done.result);
            resolved += 1;
        }
    }
    assert_eq!(client.pending_len(), 0);
    assert_eq!(resolved, 64);
    for (n, outcomes) in seen.borrow().iter().enumerate() {
        assert_eq!(outcomes.len(), 1);
        if n % 4 == 3 {
            assert_eq!(outcomes[0], Err(Error::Timeout));
        } else {
            assert_eq!(outcomes[0], Ok(vec![n as u8; 3]));
        }
    }
}

#[test]
fn completion_carries_the_callback_of_its_request() {
    let mut client: RpcClient<String> = RpcClient::new();
    client.receiver_task(Incoming::Ctl(Ctl::Open), no_error);
    for id in [5u64, 6, 7, 8] {
        client.dispatch(0, Message::Request(b"q"), format!("callback {}", id), id * 10, id).unwrap();
    }
    assert_eq!(client.pending_since(6), Some(60));
    assert_eq!(client.pending_since(9), None);
    let done = client.handle_binary_response(&frame(7, 0, b"seven"), no_error).unwrap();
    assert_eq!(done.id, 7);
    assert_eq!(done.callback, "callback 7");
    assert_eq!(done.result, Ok(b"seven".to_vec()));
    let done = client.handle_binary_response(&frame(5, 3, b""), no_error).unwrap();
    assert_eq!(done.id, 5);
    assert_eq!(done.callback, "callback 5");
    client.set_timeout_duration(0);
    let mut done = match client.timeout_task(TimeoutEvent::Tick(1_000)) {
        TimeoutAction::Expire(done) => done,
        TimeoutAction::Exit => panic!("the sweeper was not asked to stop"),
    };
    done.sort_by_key(|done| done.id);
    assert_eq!(done.len(), 2);
    assert_eq!((done[0].id, done[0].callback.as_str()), (6, "callback 6"));
    assert_eq!((done[1].id, done[1].callback.as_str()), (8, "callback 8"));
    assert_eq!(done[0].result, Err(Error::Timeout));
    assert_eq!(done[1].result, Err(Error::Timeout));
    assert_eq!(client.pending_len(), 0);
}

#[test]
fn receiver_passes_binary_messages_to_the_table() {
    let mut client = open_client();
    client.dispatch(0, Message::Request(b"q"), "cb", 0, 8).unwrap();
    match client.receiver_task(Incoming::Binary(frame(8, 0, b"r")), no_error) {
        ReceiverAction::Complete(done) => {
            assert_eq!(done.id, 8);
            assert_eq!(done.result, Ok(b"r".to_vec()));
        }
        other => panic!("unexpected action {:?}", other),
    }
    let action = client.receiver_task(Incoming::Binary(frame(8, 0, b"r")), no_error);
    assert!(matches!(action, ReceiverAction::Continue));
    let action = client.receiver_task(Incoming::Binary(vec![1, 2, 3]), no_error);
    assert!(matches!(action, ReceiverAction::Continue));
}

#[test]
fn receiver_passes_over_text() {
    let mut client = open_client();
    client.dispatch(0, Message::Request(b"q"), "cb", 0, 8).unwrap();
    let action = client.receiver_task(Incoming::Text(String::from("hello")), no_error);
    assert!(matches!(action, ReceiverAction::Continue));
    assert!(client.is_open());
    assert_eq!(client.pending_len(), 1);
}

#[test]
fn control_events_set_the_open_flag() {
    let mut client: RpcClient<()> = RpcClient::new();
    client.receiver_task(Incoming::Ctl(Ctl::Open), no_error);
    assert!(client.is_open());
    client.receiver_task(Incoming::Ctl(Ctl::Custom(0)), no_error);
    client.receiver_task(Incoming::Ctl(Ctl::Shutdown), no_error);
    client.receiver_task(Incoming::Ctl(Ctl::RpcCtl(1)), no_error);
    assert!(client.is_open());
    client.receiver_task(Incoming::Ctl(Ctl::Closed), no_error);
    assert!(!client.is_open());
    client.receiver_task(Incoming::Ctl(Ctl::Open), no_error);
    assert!(client.is_open());
}

#[test]
fn control_events_are_forwarded_to_a_registered_observer() {
    let mut client: RpcClient<()> = RpcClient::new();
    for ctl in [Ctl::Open, Ctl::Closed, Ctl::Shutdown, Ctl::RpcCtl(5), Ctl::Custom(0)] {
        let action = client.receiver_task(Incoming::Ctl(ctl), no_error);
        assert!(matches!(action, ReceiverAction::Continue));
    }
    client.init_ctl();
    for ctl in [Ctl::Open, Ctl::Closed, Ctl::Shutdown, Ctl::RpcCtl(5), Ctl::Custom(0)] {
        match client.receiver_task(Incoming::Ctl(ctl), no_error) {
            ReceiverAction::Forward(forwarded) => assert_eq!(forwarded, ctl),
            other => panic!("unexpected action {:?}", other),
        }
    }
}

#[test]
fn shutdown_code_ends_the_receiver_and_is_not_forwarded() {
    let mut client = open_client();
    client.init_ctl();
    client.start_receiver();
    client.dispatch(0, Message::Request(b"q"), "cb", 0, 8).unwrap();
    assert!(client.receiver_is_running());
    let action =
        client.receiver_task(Incoming::Ctl(Ctl::RpcCtl(RPC_CTL_RECEIVER_SHUTDOWN)), no_error);
    assert!(matches!(action, ReceiverAction::Exit));
    assert!(!client.receiver_is_running());
    assert!(client.is_open());
    assert_eq!(client.pending_len(), 1);
}

#[test]
fn sweeper_stops_on_request_without_a_sweep() {
    let mut client = open_client();
    client.start_timeout();
    assert!(client.timeout_is_running());
    client.dispatch(0, Message::Request(b"q"), "cb", 0, 8).unwrap();
    let action = client.timeout_task(TimeoutEvent::Shutdown);
    assert!(matches!(action, TimeoutAction::Exit));
    assert!(!client.timeout_is_running());
    assert_eq!(client.pending_len(), 1);
}

#[test]
fn shutdown_of_a_client_that_never_ran_is_done_at_once() {
    let client: RpcClient<()> = RpcClient::new();
    let never = |_: Ctl| -> bool { panic!("nothing to stop") };
    assert_eq!(client.shutdown(never), Ok(ShutdownStep::Done));
    assert_eq!(client.shutdown(never), Ok(ShutdownStep::Done));
}

#[test]
fn shutdown_stops_the_sweeper_before_the_receiver() {
    let mut client = open_client();
    client.start_timeout();
    client.start_receiver();
    let never = |_: Ctl| -> bool { panic!("the sweeper comes first") };
    assert_eq!(client.shutdown(never), Ok(ShutdownStep::AwaitTimeout));
    assert_eq!(client.shutdown(never), Ok(ShutdownStep::AwaitTimeout));
    client.timeout_task(TimeoutEvent::Shutdown);
    let mut injected = Vec::new();
    let step = client.shutdown(|ctl: Ctl| {
        injected.push(ctl);
        true
    });
    assert_eq!(step, Ok(ShutdownStep::AwaitReceiver));
    assert_eq!(injected, vec![Ctl::RpcCtl(RPC_CTL_RECEIVER_SHUTDOWN)]);
    client.receiver_task(Incoming::Ctl(injected[0]), no_error);
    let never = |_: Ctl| -> bool { panic!("nothing to stop") };
    assert_eq!(client.shutdown(never), Ok(ShutdownStep::Done));
    assert_eq!(client.shutdown(never), Ok(ShutdownStep::Done));
}

#[test]
fn shutdown_fails_when_the_code_cannot_be_injected() {
    let mut client: RpcClient<()> = RpcClient::new();
    client.start_receiver();
    assert_eq!(client.shutdown(|_: Ctl| false), Err(Error::ReceiverCtl));
    assert!(client.receiver_is_running());
    assert_eq!(RpcClient::<()>::stop_receiver(false), Err(Error::ReceiverCtl));
    assert_eq!(RpcClient::<()>::stop_receiver(true), Ok(ShutdownStep::AwaitReceiver));
}

#[test]
fn resolve_by_status() {
    assert_eq!(resolve(0, b"abc", None), Ok(b"abc".to_vec()));
    assert_eq!(resolve(0, b"abc", Some(RpcResponseError::NoData)), Ok(b"abc".to_vec()));
    assert_eq!(resolve(0, b"", None), Ok(Vec::new()));
    assert_eq!(resolve(1, b"abc", None), Err(Error::ResponseDecodeFailure));
    assert_eq!(
        resolve(1, b"abc", Some(RpcResponseError::Text(String::from("no")))),
        Err(Error::StructuredRpcError(RpcResponseError::Text(String::from("no"))))
    );
    assert_eq!(resolve(2, b"abc", None), Err(Error::UnknownStatusCode(2)));
    assert_eq!(
        resolve(0xffff, b"", Some(RpcResponseError::NoData)),
        Err(Error::UnknownStatusCode(0xffff))
    );
}

#[test]
fn awaited_response() {
    assert_eq!(response(None), Err(Error::ChannelClosed));
    assert_eq!(response(Some(Ok(vec![1, 2]))), Ok(vec![1, 2]));
    assert_eq!(response(Some(Err(Error::Timeout))), Err(Error::Timeout));
}

#[test]
fn awaited_response_is_deserialized() {
    let parse = |payload: &[u8]| -> Option<u32> {
        let bytes: [u8; 4] = payload.try_into().ok()?;
        Some(u32::from_le_bytes(bytes))
    };
    assert_eq!(response_as(Some(Ok(vec![1, 0, 0, 0])), parse), Ok(1u32));
    assert_eq!(response_as(Some(Ok(vec![1, 0, 0])), parse), Err(Error::DeserializeFailure));
    assert_eq!(response_as(None, parse), Err(Error::ChannelClosed));
    assert_eq!(response_as(Some(Err(Error::Timeout)), parse), Err(Error::Timeout));
    assert_eq!(
        response_as(Some(Err(Error::UnknownStatusCode(3))), parse),
        Err(Error::UnknownStatusCode(3))
    );
    let never = |_: &[u8]| -> Option<u32> { panic!("there is no payload") };
    assert_eq!(response_as(None, never), Err(Error::ChannelClosed));
    assert_eq!(deserialized(Some(5u8)), Ok(5u8));
    assert_eq!(deserialized::<u8>(None), Err(Error::DeserializeFailure));
}
