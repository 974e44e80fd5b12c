//! The client side: correlation of responses with pending requests.
//!
//! [`RpcClient`] is the state that the foreground callers and the two
//! background loops of a client share. It does no I/O and never waits. The
//! caller feeds it what happened (a request to send, a message from the
//! transport, a tick of the timer, a request to stop) and carries out what it
//! answers: send a frame, resolve a call, forward a control event, end a
//! loop. Every method runs to its end without suspending, so one lock around
//! the client serializes all access to the pending table, and the results
//! are handed back for delivery after the lock is released.

use crate::error::Error;
use crate::error::RpcResponseError;
use crate::message::spec_decode;
use crate::message::spec_frame;
use crate::message::to_ws_msg;
use crate::message::Message;
use crate::message::ReqHeader;
use crate::message::RespMessage;
use crate::ops::RPC_CTL_RECEIVER_SHUTDOWN;
use crate::ops::STATUS_ERROR;
use crate::ops::STATUS_SUCCESS;
use crate::pending::spec_expired_ids;
use crate::pending::spec_first_free;
use crate::pending::spec_row_ids;
use crate::pending::Pending;
use crate::pending::PendingTable;
use vstd::prelude::*;
use vstd::slice::slice_to_vec;

verus! {

/// The sweep interval of a new client, in milliseconds.
pub const DEFAULT_TIMEOUT_TIMER_INTERVAL: u64 = 5_000;

/// The timeout of a new client, in milliseconds.
pub const DEFAULT_TIMEOUT_DURATION: u64 = 60_000;

/// A control event of the transport.
#[derive(Clone, Copy, Debug, PartialEq, Eq, Structural)]
pub enum Ctl {
    /// The connection has opened.
    Open,
    /// The connection has closed.
    Closed,
    /// The user of the transport has asked it to disconnect.
    Shutdown,
    /// A control code reserved for the RPC client, which injects it itself.
    RpcCtl(u32),
    /// A control code of the application's own.
    Custom(u32),
}

/// What the transport hands to the receiver loop.
#[derive(Debug)]
pub enum Incoming {
    /// A binary message: a response frame.
    Binary(Vec<u8>),
    /// A text message. The protocol has none; it is passed over.
    Text(String),
    /// A control event.
    Ctl(Ctl),
}

/// The end of a call: the callback of the request, which has left the
/// table, and the outcome that it is to be called with. The caller invokes
/// the callback once it has let go of the client.
#[derive(Debug)]
pub struct Completion<C> {
    /// Identifier of the request that is resolved.
    pub id: u64,
    /// The callback that was registered with the request.
    pub callback: C,
    /// The payload of the response, or why there is none.
    pub result: Result<Vec<u8>, Error>,
}

/// What a call resolves to, with the payload as a sequence of bytes.
pub open spec fn spec_outcome(result: Result<Vec<u8>, Error>) -> Result<Seq<u8>, Error> {
    match result {
        Ok(payload) => Ok(payload@),
        Err(e) => Err(e),
    }
}

impl<C> Completion<C> {
    /// What the call resolves to, with the payload as a sequence of bytes.
    pub open spec fn outcome(&self) -> Result<Seq<u8>, Error> {
        spec_outcome(self.result)
    }

    /// Whether this is the end of the pending request `row` with the given
    /// outcome: it carries the identifier and the callback of the row.
    pub open spec fn ends(&self, row: Pending<C>, outcome: Result<Seq<u8>, Error>) -> bool {
        self.id == row.id && self.callback == row.callback && self.outcome() == outcome
    }
}

/// A request that was registered and is ready to be sent.
#[derive(Debug)]
pub struct Dispatch {
    /// Identifier under which the request is pending.
    pub id: u64,
    /// The encoded request frame, to be handed to the transport.
    pub frame: Vec<u8>,
}

/// What the receiver loop is to do after a message.
#[derive(Debug)]
pub enum ReceiverAction<C> {
    /// Nothing: wait for the next message.
    Continue,
    /// Resolve a call, then wait for the next message.
    Complete(Completion<C>),
    /// Forward the control event to the observer, then wait for the next
    /// message. A failure to forward is of no consequence.
    Forward(Ctl),
    /// End the loop and signal that it has ended.
    Exit,
}

/// What wakes the timeout sweeper.
#[derive(Clone, Copy, Debug, PartialEq, Eq, Structural)]
pub enum TimeoutEvent {
    /// The sweep interval has passed. The field is the present time in
    /// milliseconds, on the clock that stamps the requests.
    Tick(u64),
    /// The owner asks the sweeper to stop.
    Shutdown,
}

/// What the timeout sweeper is to do after an event.
#[derive(Debug)]
pub enum TimeoutAction<C> {
    /// Resolve these calls, each with [`Error::Timeout`], then sleep for the
    /// sweep interval.
    Expire(Vec<Completion<C>>),
    /// End the loop and signal that it has ended.
    Exit,
}

/// The next thing that a shutdown has to wait for.
#[derive(Clone, Copy, Debug, PartialEq, Eq, Structural)]
pub enum ShutdownStep {
    /// Signal the timeout sweeper to stop and wait until it has ended.
    AwaitTimeout,
    /// The shutdown code was handed to the transport: wait until the
    /// receiver loop has ended.
    AwaitReceiver,
    /// Both loops have ended, or never ran.
    Done,
}

/// What a response with the given status and payload resolves a call to.
/// `decoded` is the application error that the payload deserializes to, if
/// it does; it is of consequence for an error response only.
pub open spec fn spec_resolution(
    status: u32,
    payload: Seq<u8>,
    decoded: Option<RpcResponseError>,
) -> Result<Seq<u8>, Error> {
    if status == STATUS_SUCCESS {
        Ok(payload)
    } else if status == STATUS_ERROR {
        match decoded {
            Some(err) => Err(Error::StructuredRpcError(err)),
            None => Err(Error::ResponseDecodeFailure),
        }
    } else {
        Err(Error::UnknownStatusCode(status))
    }
}

/// Resolves a call from the status and payload of its response. `decoded` is
/// what deserializing the payload as an application error gave; it is looked
/// at for an error response only. A success with an empty payload is a
/// success with no bytes.
pub fn resolve(status: u32, payload: &[u8], decoded: Option<RpcResponseError>) -> (result: Result<
    Vec<u8>,
    Error,
>)
    ensures
        spec_outcome(result) == spec_resolution(status, payload@, decoded),
{
    if status == STATUS_SUCCESS {
        Ok(slice_to_vec(payload))
    } else if status == STATUS_ERROR {
        match decoded {
            Some(err) => Err(Error::StructuredRpcError(err)),
            None => Err(Error::ResponseDecodeFailure),
        }
    } else {
        Err(Error::UnknownStatusCode(status))
    }
}

/// `rand::random`: a 64-bit number from the generator of the thread. Nothing
/// is promised of the number.
#[verifier::external_body]
fn random_seed() -> u64 {
    rand::random::<u64>()
}

/// The state of a client, as the contracts see it.
pub struct ClientState<C> {
    /// The pending requests, each under its identifier.
    pub pending: Map<u64, Pending<C>>,
    /// Whether the connection is open.
    pub is_open: bool,
    /// Whether the receiver loop runs.
    pub receiver_is_running: bool,
    /// Whether the timeout sweeper runs.
    pub timeout_is_running: bool,
    /// Milliseconds between two sweeps.
    pub timeout_timer_interval: u64,
    /// Milliseconds after which a pending request times out.
    pub timeout_duration: u64,
    /// Whether an observer of control events is registered.
    pub ctl_channel: bool,
}

/// The shared state of an RPC client. `C` is the type of the callbacks that
/// wait for the calls to end.
pub struct RpcClient<C> {
    pending: PendingTable<C>,
    is_open: bool,
    receiver_is_running: bool,
    timeout_is_running: bool,
    timeout_timer_interval: u64,
    timeout_duration: u64,
    ctl_channel: bool,
}

impl<C> View for RpcClient<C> {
    type V = ClientState<C>;

    closed spec fn view(&self) -> ClientState<C> {
        ClientState {
            pending: self.pending@,
            is_open: self.is_open,
            receiver_is_running: self.receiver_is_running,
            timeout_is_running: self.timeout_is_running,
            timeout_timer_interval: self.timeout_timer_interval,
            timeout_duration: self.timeout_duration,
            ctl_channel: self.ctl_channel,
        }
    }
}

/// The state of a new client: nothing pending, the connection not open, no
/// loop running, no observer, the default interval and timeout.
pub open spec fn spec_initial<C>() -> ClientState<C> {
    ClientState {
        pending: Map::empty(),
        is_open: false,
        receiver_is_running: false,
        timeout_is_running: false,
        timeout_timer_interval: DEFAULT_TIMEOUT_TIMER_INTERVAL,
        timeout_duration: DEFAULT_TIMEOUT_DURATION,
        ctl_channel: false,
    }
}

impl<C> RpcClient<C> {
    /// The invariant of the client: that of its table of pending requests.
    pub closed spec fn wf(&self) -> bool {
        self.pending.wf()
    }

    /// In a client that meets its invariant finitely many requests are
    /// pending, and each lies under its own identifier.
    pub proof fn lemma_wf(&self)
        requires
            self.wf(),
        ensures
            self@.pending.dom().finite(),
            forall|id: u64| self@.pending.contains_key(id) ==> (#[trigger] self@.pending[id]).id
                == id,
    {
        self.pending.lemma_wf();
    }

    /// A client in its initial state.
    pub fn new() -> (client: RpcClient<C>)
        ensures
            client.wf(),
            client@ == spec_initial::<C>(),
    {
        RpcClient {
            pending: PendingTable::new(),
            is_open: false,
            receiver_is_running: false,
            timeout_is_running: false,
            timeout_timer_interval: DEFAULT_TIMEOUT_TIMER_INTERVAL,
            timeout_duration: DEFAULT_TIMEOUT_DURATION,
            ctl_channel: false,
        }
    }

    /// Registers a request and encodes its frame. `seed` proposes the
    /// identifier; the request gets the first identifier at or after `seed`,
    /// wrapping round, that is not pending, which is `seed` itself unless a
    /// pending request has it. `now` is the present time in milliseconds.
    /// The row of the request holds `now` and `callback`.
    ///
    /// Fails with [`Error::NotConnected`], before anything is changed, where
    /// the connection is not open.
    pub fn dispatch(
        &mut self,
        op: u32,
        message: Message<'_>,
        callback: C,
        now: u64,
        seed: u64,
    ) -> (ret: Result<Dispatch, Error>)
        requires
            old(self).wf(),
        ensures
            final(self).wf(),
            !old(self)@.is_open ==> {
                &&& ret matches Err(e) && e == Error::NotConnected
                &&& final(self)@ == old(self)@
            },
            old(self)@.is_open ==> {
                &&& ret matches Ok(sent)
                &&& spec_first_free(old(self)@.pending.dom(), seed, sent.id)
                &&& !old(self)@.pending.contains_key(seed) ==> sent.id == seed
                &&& sent.frame@ == spec_frame(sent.id, op, message.spec_data()@)
                &&& final(self)@ == spec_after_dispatch(old(self)@, sent.id, now, callback)
            },
    {
        if !self.is_open {
            return Err(Error::NotConnected);
        }
        let id = self.pending.vacant(seed);
        self.pending.insert(Pending::new(id, now, callback));
        let frame = to_ws_msg((ReqHeader { id, op }, message));
        Ok(Dispatch { id, frame })
    }

    /// Registers a request under a random identifier that is not pending,
    /// with the callback that is to learn how the call ends, and encodes its
    /// frame. The caller hands the frame to the transport. `now` is the
    /// present time in milliseconds.
    ///
    /// Fails with [`Error::NotConnected`], before anything is changed, where
    /// the connection is not open.
    pub fn call_callback_with_buffer(
        &mut self,
        op: u32,
        message: Message<'_>,
        callback: C,
        now: u64,
    ) -> (ret: Result<Dispatch, Error>)
        requires
            old(self).wf(),
        ensures
            final(self).wf(),
            !old(self)@.is_open ==> {
                &&& ret matches Err(e) && e == Error::NotConnected
                &&& final(self)@ == old(self)@
            },
            old(self)@.is_open ==> {
                &&& ret matches Ok(sent)
                &&& !old(self)@.pending.contains_key(sent.id)
                &&& sent.frame@ == spec_frame(sent.id, op, message.spec_data()@)
                &&& final(self)@ == spec_after_dispatch(old(self)@, sent.id, now, callback)
            },
    {
        if !self.is_open {
            return Err(Error::NotConnected);
        }
        let seed = random_seed();
        self.dispatch(op, message, callback, now, seed)
    }

    /// Takes in a response frame. Where the frame decodes and a request with
    /// its identifier is pending, the row of that request leaves the table
    /// and the call is resolved from the status and payload of the frame:
    /// a success with the payload, an error response with the application
    /// error that `decode` reads from the payload (with
    /// [`Error::ResponseDecodeFailure`] where it reads none), any other
    /// status with [`Error::UnknownStatusCode`].
    ///
    /// A frame shorter than a header, and a frame whose identifier is not
    /// pending, is dropped: nothing is returned and nothing is changed.
    /// `decode` is called for the payload of an error response to a pending
    /// request, and not otherwise.
    pub fn handle_binary_response<D: FnOnce(&[u8]) -> Option<RpcResponseError>>(
        &mut self,
        response: &[u8],
        decode: D,
    ) -> (completion: Option<Completion<C>>)
        requires
            old(self).wf(),
            forall|payload: &[u8]| call_requires(decode, (payload,)),
        ensures
            final(self).wf(),
            final(self)@ == spec_after_response(old(self)@, response@),
            completion is Some <==> spec_resolved_id(old(self)@.pending, response@) is Some,
            completion matches Some(done) ==> spec_resolves(
                decode,
                response@,
                old(self)@.pending,
                done,
            ),
    {
        let msg = match RespMessage::try_from(response) {
            Ok(msg) => msg,
            Err(_) => {
                return None;
            },
        };
        proof {
            self.pending.lemma_wf();
        }
        let row = match self.pending.remove(msg.id) {
            Some(row) => row,
            None => {
                assert(self@.pending =~= old(self)@.pending);
                return None;
            },
        };
        let decoded = if msg.status == STATUS_ERROR {
            decode(msg.data)
        } else {
            None
        };
        let done = Completion {
            id: row.id,
            callback: row.callback,
            result: resolve(msg.status, msg.data, decoded),
        };
        assert(spec_resolves(decode, response@, old(self)@.pending, done)) by {
            assert(spec_read_by(decode, msg.status, msg.data@, msg.data, decoded));
        }
        Some(done)
    }

    /// One step of the receiver loop: takes in a message of the transport
    /// and says what the loop is to do next.
    ///
    /// A binary message is a response frame, see
    /// [`RpcClient::handle_binary_response`]. A text message is passed over.
    /// A control event sets the open flag (`Open` sets it, `Closed` clears
    /// it) and is forwarded where an observer is registered. The one
    /// exception is the reserved shutdown code: it is not forwarded, the
    /// loop is marked as not running, and the answer is to end it.
    pub fn receiver_task<D: FnOnce(&[u8]) -> Option<RpcResponseError>>(
        &mut self,
        message: Incoming,
        decode: D,
    ) -> (action: ReceiverAction<C>)
        requires
            old(self).wf(),
            forall|payload: &[u8]| call_requires(decode, (payload,)),
        ensures
            final(self).wf(),
            match message {
                Incoming::Binary(data) => {
                    &&& final(self)@ == spec_after_response(old(self)@, data@)
                    &&& match action {
                        ReceiverAction::Complete(done) => {
                            &&& spec_resolved_id(old(self)@.pending, data@) is Some
                            &&& spec_resolves(decode, data@, old(self)@.pending, done)
                        },
                        ReceiverAction::Continue => spec_resolved_id(old(self)@.pending, data@)
                            is None,
                        _ => false,
                    }
                },
                Incoming::Text(_) => final(self)@ == old(self)@ && action is Continue,
                Incoming::Ctl(ctl) => {
                    &&& final(self)@ == spec_after_ctl(old(self)@, ctl)
                    &&& action == spec_ctl_action(old(self)@, ctl)
                },
            },
    {
        match message {
            Incoming::Binary(data) => {
                match self.handle_binary_response(data.as_slice(), decode) {
                    Some(done) => ReceiverAction::Complete(done),
                    None => ReceiverAction::Continue,
                }
            },
            Incoming::Text(_) => ReceiverAction::Continue,
            Incoming::Ctl(ctl) => {
                match ctl {
                    Ctl::Open => {
                        self.is_open = true;
                    },
                    Ctl::Closed => {
                        self.is_open = false;
                    },
                    Ctl::RpcCtl(code) => {
                        if code == RPC_CTL_RECEIVER_SHUTDOWN {
                            self.receiver_is_running = false;
                            return ReceiverAction::Exit;
                        }
                    },
                    Ctl::Shutdown => {},
                    Ctl::Custom(_) => {},
                }
                if self.ctl_channel {
                    ReceiverAction::Forward(ctl)
                } else {
                    ReceiverAction::Continue
                }
            },
        }
    }

    /// One step of the timeout sweeper.
    ///
    /// On a tick every request that has been pending for longer than the
    /// timeout leaves the table and is resolved with [`Error::Timeout`]; the
    /// other rows stay as they are. On a request to stop the sweeper is
    /// marked as not running and the answer is to end the loop, without a
    /// sweep.
    pub fn timeout_task(&mut self, event: TimeoutEvent) -> (action: TimeoutAction<C>)
        requires
            old(self).wf(),
        ensures
            final(self).wf(),
            final(self)@ == spec_after_timeout(old(self)@, event),
            match event {
                TimeoutEvent::Tick(now) => {
                    &&& action matches TimeoutAction::Expire(done)
                    &&& spec_timed_out(
                        done@,
                        old(self)@.pending,
                        spec_expired_ids(old(self)@.pending, now, old(self)@.timeout_duration),
                    )
                },
                TimeoutEvent::Shutdown => action is Exit,
            },
    {
        match event {
            TimeoutEvent::Tick(now) => {
                let mut purged = self.pending.sweep(now, self.timeout_duration);
                let ghost rows = purged@;
                let mut done: Vec<Completion<C>> = Vec::new();
                while purged.len() > 0
                    invariant
                        purged@.len() <= rows.len(),
                        done@.len() + purged@.len() == rows.len(),
                        purged@ == rows.subrange(0, purged@.len() as int),
                        forall|k: int|
                            0 <= k < done@.len() ==> (#[trigger] done@[k]).ends(
                                rows[rows.len() - 1 - k],
                                Err(Error::Timeout),
                            ),
                    decreases purged@.len(),
                {
                    let ghost before = done@;
                    let row = purged.pop().unwrap();
                    done.push(
                        Completion { id: row.id, callback: row.callback, result: Err(Error::Timeout) },
                    );
                    assert forall|k: int| 0 <= k < done@.len() implies (#[trigger] done@[k]).ends(
                        rows[rows.len() - 1 - k],
                        Err(Error::Timeout),
                    ) by {
                        if k < before.len() {
                            assert(done@[k] == before[k]);
                        }
                    }
                }
                proof {
                    lemma_timed_out(done@, rows, old(self)@.pending);
                }
                TimeoutAction::Expire(done)
            },
            TimeoutEvent::Shutdown => {
                self.timeout_is_running = false;
                TimeoutAction::Exit
            },
        }
    }

    /// What a shutdown gives once the receiver loop was found running and
    /// the shutdown code was handed to the transport: the loop is to be
    /// awaited where the transport took the code, and the shutdown fails
    /// with [`Error::ReceiverCtl`] where it did not.
    pub fn stop_receiver(injected: bool) -> (ret: Result<ShutdownStep, Error>)
        ensures
            ret == spec_stop_receiver(injected),
    {
        if injected {
            Ok(ShutdownStep::AwaitReceiver)
        } else {
            Err(Error::ReceiverCtl)
        }
    }

    /// The next step of a shutdown. The timeout sweeper is stopped first and
    /// the receiver loop second. A loop that does not run is passed over, so
    /// that the shutdown of a client whose loops have ended, or were never
    /// started, is done at once, however often it is asked for.
    ///
    /// `inject` hands a control code to the transport and says whether the
    /// transport took it. It is called with the shutdown code where the
    /// sweeper does not run and the receiver does, and not otherwise. The
    /// caller does what the step says and asks again.
    pub fn shutdown<I: FnOnce(Ctl) -> bool>(&self, inject: I) -> (ret: Result<ShutdownStep, Error>)
        requires
            call_requires(inject, (Ctl::RpcCtl(RPC_CTL_RECEIVER_SHUTDOWN),)),
        ensures
            exists|injected: bool|
                {
                    &&& #[trigger] spec_injected(inject, self@, injected)
                    &&& ret == spec_shutdown(self@, injected)
                },
    {
        if self.timeout_is_running {
            assert(spec_injected(inject, self@, true));
            return Ok(ShutdownStep::AwaitTimeout);
        }
        if !self.receiver_is_running {
            assert(spec_injected(inject, self@, true));
            return Ok(ShutdownStep::Done);
        }
        let injected = inject(Ctl::RpcCtl(RPC_CTL_RECEIVER_SHUTDOWN));
        assert(spec_injected(inject, self@, injected));
        Self::stop_receiver(injected)
    }

    /// Starts a call whose request was serialized by the caller. `request`
    /// is the serialized request, or `None` where serializing it failed.
    ///
    /// Fails with [`Error::SerializeFailure`] where there is no serialized
    /// request, and else with [`Error::NotConnected`] where the connection
    /// is not open; either way nothing is changed. Else the request is
    /// registered as by [`RpcClient::call_callback_with_buffer`].
    pub fn call(&mut self, op: u32, request: Option<Vec<u8>>, callback: C, now: u64) -> (ret:
        Result<Dispatch, Error>)
        requires
            old(self).wf(),
        ensures
            final(self).wf(),
            request is None ==> {
                &&& ret matches Err(e) && e == Error::SerializeFailure
                &&& final(self)@ == old(self)@
            },
            request is Some && !old(self)@.is_open ==> {
                &&& ret matches Err(e) && e == Error::NotConnected
                &&& final(self)@ == old(self)@
            },
            request is Some && old(self)@.is_open ==> {
                &&& ret matches Ok(sent)
                &&& !old(self)@.pending.contains_key(sent.id)
                &&& sent.frame@ == spec_frame(sent.id, op, request->Some_0@)
                &&& final(self)@ == spec_after_dispatch(old(self)@, sent.id, now, callback)
            },
    {
        match request {
            None => Err(Error::SerializeFailure),
            Some(data) => self.call_callback_with_buffer(
                op,
                Message::Request(data.as_slice()),
                callback,
                now,
            ),
        }
    }

    /// Marks the receiver loop as running.
    pub fn start_receiver(&mut self)
        ensures
            final(self)@ == (ClientState { receiver_is_running: true, ..old(self)@ }),
    {
        self.receiver_is_running = true;
    }

    /// Marks the timeout sweeper as running.
    pub fn start_timeout(&mut self)
        ensures
            final(self)@ == (ClientState { timeout_is_running: true, ..old(self)@ }),
    {
        self.timeout_is_running = true;
    }

    /// Registers an observer: from now on the receiver loop asks for every
    /// control event but the shutdown code to be forwarded.
    pub fn init_ctl(&mut self)
        ensures
            final(self)@ == (ClientState { ctl_channel: true, ..old(self)@ }),
    {
        self.ctl_channel = true;
    }

    /// Sets the time between two sweeps, in milliseconds.
    pub fn set_timeout_timer_interval(&mut self, millis: u64)
        ensures
            final(self)@ == (ClientState { timeout_timer_interval: millis, ..old(self)@ }),
    {
        self.timeout_timer_interval = millis;
    }

    /// Sets the time after which a pending request times out, in
    /// milliseconds.
    pub fn set_timeout_duration(&mut self, millis: u64)
        ensures
            final(self)@ == (ClientState { timeout_duration: millis, ..old(self)@ }),
    {
        self.timeout_duration = millis;
    }

    /// Whether the connection is open, as the last control event said.
    pub fn is_open(&self) -> (open: bool)
        ensures
            open == self@.is_open,
    {
        self.is_open
    }

    /// Whether the receiver loop runs.
    pub fn receiver_is_running(&self) -> (running: bool)
        ensures
            running == self@.receiver_is_running,
    {
        self.receiver_is_running
    }

    /// Whether the timeout sweeper runs.
    pub fn timeout_is_running(&self) -> (running: bool)
        ensures
            running == self@.timeout_is_running,
    {
        self.timeout_is_running
    }

    /// The time between two sweeps, in milliseconds.
    pub fn timeout_timer_interval(&self) -> (millis: u64)
        ensures
            millis == self@.timeout_timer_interval,
    {
        self.timeout_timer_interval
    }

    /// The time after which a pending request times out, in milliseconds.
    pub fn timeout_duration(&self) -> (millis: u64)
        ensures
            millis == self@.timeout_duration,
    {
        self.timeout_duration
    }

    /// The number of pending requests.
    pub fn pending_len(&self) -> (n: usize)
        requires
            self.wf(),
        ensures
            n == self@.pending.dom().len(),
    {
        self.pending.len()
    }

    /// The time at which the pending request `id` was sent, if it is
    /// pending.
    pub fn pending_since(&self, id: u64) -> (found: Option<u64>)
        requires
            self.wf(),
        ensures
            found == if self@.pending.contains_key(id) {
                Some(self@.pending[id].timestamp)
            } else {
                None
            },
    {
        self.pending.timestamp(id)
    }

    /// Whether a request with this identifier is pending.
    pub fn is_pending(&self, id: u64) -> (found: bool)
        ensures
            found == self@.pending.contains_key(id),
    {
        self.pending.contains(id)
    }
}

/// What the caller of an awaited call gets. `received` is what arrived on
/// the channel on which the call was awaited, or `None` where the channel
/// was closed with nothing sent, which gives [`Error::ChannelClosed`].
pub fn response(received: Option<Result<Vec<u8>, Error>>) -> (ret: Result<Vec<u8>, Error>)
    ensures
        ret == spec_response(received),
{
    match received {
        Some(result) => result,
        None => Err(Error::ChannelClosed),
    }
}

/// What the caller of an awaited call gets, with the payload deserialized by
/// `decode`. An error of the call is passed on as it is; a payload from
/// which `decode` reads nothing gives [`Error::DeserializeFailure`].
/// `decode` is called for the payload of a success, and not otherwise.
pub fn response_as<Resp, D: FnOnce(&[u8]) -> Option<Resp>>(
    received: Option<Result<Vec<u8>, Error>>,
    decode: D,
) -> (ret: Result<Resp, Error>)
    requires
        forall|payload: &[u8]| call_requires(decode, (payload,)),
    ensures
        match spec_response(received) {
            Ok(payload) => exists|bytes: &[u8], decoded: Option<Resp>|
                {
                    &&& bytes@ == payload@
                    &&& #[trigger] call_ensures(decode, (bytes,), decoded)
                    &&& ret == spec_deserialized(decoded)
                },
            Err(e) => ret matches Err(passed) && passed == e,
        },
{
    match response(received) {
        Ok(payload) => deserialized(decode(payload.as_slice())),
        Err(e) => Err(e),
    }
}

/// What a call gives once the payload of its response went through the
/// deserializer: the value that was read, or [`Error::DeserializeFailure`]
/// where none was.
pub fn deserialized<Resp>(decoded: Option<Resp>) -> (ret: Result<Resp, Error>)
    ensures
        ret == spec_deserialized(decoded),
{
    match decoded {
        Some(value) => Ok(value),
        None => Err(Error::DeserializeFailure),
    }
}

/// What arrived on the channel of an awaited call, or
/// [`Error::ChannelClosed`] where nothing did.
pub open spec fn spec_response(received: Option<Result<Vec<u8>, Error>>) -> Result<Vec<u8>, Error> {
    match received {
        Some(result) => result,
        None => Err(Error::ChannelClosed),
    }
}

/// The value that the deserializer read, or [`Error::DeserializeFailure`].
pub open spec fn spec_deserialized<Resp>(decoded: Option<Resp>) -> Result<Resp, Error> {
    match decoded {
        Some(value) => Ok(value),
        None => Err(Error::DeserializeFailure),
    }
}

/// The state after a control event: `Open` sets the open flag, `Closed`
/// clears it, the shutdown code marks the receiver loop as not running, and
/// any other event changes nothing.
pub open spec fn spec_after_ctl<C>(state: ClientState<C>, ctl: Ctl) -> ClientState<C> {
    match ctl {
        Ctl::Open => ClientState { is_open: true, ..state },
        Ctl::Closed => ClientState { is_open: false, ..state },
        Ctl::RpcCtl(code) => if code == RPC_CTL_RECEIVER_SHUTDOWN {
            ClientState { receiver_is_running: false, ..state }
        } else {
            state
        },
        Ctl::Shutdown => state,
        Ctl::Custom(_) => state,
    }
}

/// What the receiver loop does after a control event: it ends on the
/// shutdown code; any other event it forwards where an observer is
/// registered.
pub open spec fn spec_ctl_action<C>(state: ClientState<C>, ctl: Ctl) -> ReceiverAction<C> {
    if ctl == Ctl::RpcCtl(RPC_CTL_RECEIVER_SHUTDOWN) {
        ReceiverAction::Exit
    } else if state.ctl_channel {
        ReceiverAction::Forward(ctl)
    } else {
        ReceiverAction::Continue
    }
}

/// The state after a step of the timeout sweeper: a tick takes the rows
/// that have timed out from the table, a request to stop marks the sweeper
/// as not running.
pub open spec fn spec_after_timeout<C>(state: ClientState<C>, event: TimeoutEvent) -> ClientState<
    C,
> {
    match event {
        TimeoutEvent::Tick(now) => ClientState {
            pending: state.pending.remove_keys(
                spec_expired_ids(state.pending, now, state.timeout_duration),
            ),
            ..state
        },
        TimeoutEvent::Shutdown => ClientState { timeout_is_running: false, ..state },
    }
}

/// The identifiers that a sequence of completions carries, in order.
pub open spec fn spec_ids<C>(done: Seq<Completion<C>>) -> Seq<u64> {
    done.map_values(|c: Completion<C>| c.id)
}

/// Whether `done` resolves exactly the requests `expired` of the table
/// `pending`, each once, each with its own callback and each with
/// [`Error::Timeout`].
pub open spec fn spec_timed_out<C>(
    done: Seq<Completion<C>>,
    pending: Map<u64, Pending<C>>,
    expired: Set<u64>,
) -> bool {
    &&& spec_ids(done).no_duplicates()
    &&& spec_ids(done).to_set() == expired
    &&& forall|k: int|
        0 <= k < done.len() ==> (#[trigger] done[k]).ends(
            pending[done[k].id],
            Err(Error::Timeout),
        )
}

/// Completions made of the swept rows, last row first, resolve exactly those
/// rows.
proof fn lemma_timed_out<C>(
    done: Seq<Completion<C>>,
    rows: Seq<Pending<C>>,
    pending: Map<u64, Pending<C>>,
)
    requires
        done.len() == rows.len(),
        spec_row_ids(rows).no_duplicates(),
        forall|k: int| 0 <= k < rows.len() ==> #[trigger] rows[k] == pending[rows[k].id],
        forall|k: int|
            0 <= k < done.len() ==> (#[trigger] done[k]).ends(
                rows[rows.len() - 1 - k],
                Err(Error::Timeout),
            ),
    ensures
        spec_timed_out(done, pending, spec_row_ids(rows).to_set()),
{
    let ids = spec_ids(done);
    let row_ids = spec_row_ids(rows);
    assert forall|i: int, j: int| 0 <= i < ids.len() && 0 <= j < ids.len() && i != j implies ids[i]
        != ids[j] by {
        assert(done[i].id == rows[rows.len() - 1 - i].id);
        assert(done[j].id == rows[rows.len() - 1 - j].id);
        assert(row_ids[rows.len() - 1 - i] == rows[rows.len() - 1 - i].id);
        assert(row_ids[rows.len() - 1 - j] == rows[rows.len() - 1 - j].id);
    }
    assert(ids.to_set() =~= row_ids.to_set()) by {
        assert forall|x: u64| ids.to_set().contains(x) <==> row_ids.to_set().contains(x) by {
            if ids.contains(x) {
                let k = choose|k: int| 0 <= k < ids.len() && ids[k] == x;
                assert(done[k].id == rows[rows.len() - 1 - k].id);
                assert(row_ids[rows.len() - 1 - k] == x);
            }
            if row_ids.contains(x) {
                let k = choose|k: int| 0 <= k < row_ids.len() && row_ids[k] == x;
                assert(done[rows.len() - 1 - k].id == rows[k].id);
                assert(ids[rows.len() - 1 - k] == x);
            }
        }
    }
    assert forall|k: int| 0 <= k < done.len() implies (#[trigger] done[k]).ends(
        pending[done[k].id],
        Err(Error::Timeout),
    ) by {
        let row = rows[rows.len() - 1 - k];
        assert(done[k].ends(row, Err(Error::Timeout)));
        assert(row == pending[row.id]);
    }
}

/// What handing the shutdown code to the transport gives: the step that
/// awaits the receiver, or [`Error::ReceiverCtl`].
pub open spec fn spec_stop_receiver(injected: bool) -> Result<ShutdownStep, Error> {
    if injected {
        Ok(ShutdownStep::AwaitReceiver)
    } else {
        Err(Error::ReceiverCtl)
    }
}

/// The next step of a shutdown: the sweeper first, then the receiver, each
/// only where it runs. `injected` says whether the transport took the
/// shutdown code; it is of consequence where the receiver is to be stopped.
pub open spec fn spec_shutdown<C>(state: ClientState<C>, injected: bool) -> Result<
    ShutdownStep,
    Error,
> {
    if state.timeout_is_running {
        Ok(ShutdownStep::AwaitTimeout)
    } else if state.receiver_is_running {
        spec_stop_receiver(injected)
    } else {
        Ok(ShutdownStep::Done)
    }
}

/// Whether `injected` can stand for what `inject` said of the shutdown
/// code: where the receiver is to be stopped it is what `inject` returned,
/// and in any other state `inject` is not asked.
pub open spec fn spec_injected<C, I: FnOnce(Ctl) -> bool>(
    inject: I,
    state: ClientState<C>,
    injected: bool,
) -> bool {
    !state.timeout_is_running && state.receiver_is_running ==> call_ensures(
        inject,
        (Ctl::RpcCtl(RPC_CTL_RECEIVER_SHUTDOWN),),
        injected,
    )
}

/// Whether `decoded` can stand for what `decode` reads from the payload of a
/// response: `bytes` is that payload, and where the status is that of an
/// error response, `decoded` is what `decode` gave for it. For any other
/// status `decode` is not asked.
pub open spec fn spec_read_by<D: FnOnce(&[u8]) -> Option<RpcResponseError>>(
    decode: D,
    status: u32,
    payload: Seq<u8>,
    bytes: &[u8],
    decoded: Option<RpcResponseError>,
) -> bool {
    bytes@ == payload && (status == STATUS_ERROR ==> call_ensures(decode, (bytes,), decoded))
}

/// Whether the response frame resolves a call as `done` says: `done` carries
/// the identifier of the frame, and the outcome that the status and the
/// payload of the frame give, with the application error read by `decode`.
pub open spec fn spec_resolves<C, D: FnOnce(&[u8]) -> Option<RpcResponseError>>(
    decode: D,
    frame: Seq<u8>,
    pending: Map<u64, Pending<C>>,
    done: Completion<C>,
) -> bool {
    &&& spec_decode(frame) matches Some((id, status, payload))
    &&& pending.contains_key(id)
    &&& exists|bytes: &[u8], decoded: Option<RpcResponseError>|
        {
            &&& #[trigger] spec_read_by(decode, status, payload, bytes, decoded)
            &&& done.ends(pending[id], spec_resolution(status, payload, decoded))
        }
}

/// The identifier of the pending request that the response frame resolves:
/// the one that the frame carries, if the frame decodes and that request is
/// pending.
pub open spec fn spec_resolved_id<C>(pending: Map<u64, Pending<C>>, frame: Seq<u8>) -> Option<
    u64,
> {
    match spec_decode(frame) {
        Some((id, _, _)) => if pending.contains_key(id) {
            Some(id)
        } else {
            None
        },
        None => None,
    }
}

/// The state after a response frame was taken in: the row that the frame
/// resolves has left the table, and nothing else has changed.
pub open spec fn spec_after_response<C>(state: ClientState<C>, frame: Seq<u8>) -> ClientState<C> {
    match spec_resolved_id(state.pending, frame) {
        Some(id) => ClientState { pending: state.pending.remove(id), ..state },
        None => state,
    }
}

/// The state after a request was registered under `id` at the time `now`:
/// the table holds its row, with the callback, and nothing else has changed.
pub open spec fn spec_after_dispatch<C>(
    state: ClientState<C>,
    id: u64,
    now: u64,
    callback: C,
) -> ClientState<C> {
    ClientState {
        pending: state.pending.insert(id, Pending { id, timestamp: now, callback }),
        ..state
    }
}

/// The shutdown of a client whose loops do not run is done at once, whatever
/// the transport would say of the shutdown code, which it is not asked. This
/// holds of a new client, whose loops were never started, and it holds again
/// of the same client however often the shutdown is repeated, since asking
/// for the next step changes nothing.
pub proof fn lemma_shutdown_of_idle_client<C>(state: ClientState<C>, injected: bool)
    requires
        !state.timeout_is_running,
        !state.receiver_is_running,
    ensures
        spec_shutdown(state, injected) matches Ok(step) && step == ShutdownStep::Done,
        spec_shutdown(spec_initial::<C>(), injected) matches Ok(step) && step
            == ShutdownStep::Done,
{
}

/// A shutdown stops the sweeper before the receiver: as long as the sweeper
/// runs the next step is to await it, and the shutdown code goes to the
/// transport only once the sweeper has ended.
pub proof fn lemma_shutdown_order<C>(state: ClientState<C>, injected: bool)
    ensures
        state.timeout_is_running ==> (spec_shutdown(state, injected) matches Ok(step) && step
            == ShutdownStep::AwaitTimeout),
        (spec_shutdown(state, injected) matches Ok(step) && step == ShutdownStep::AwaitReceiver)
            ==> !state.timeout_is_running && state.receiver_is_running && injected,
        spec_shutdown(state, injected) is Err ==> spec_shutdown(state, injected)->Err_0
            == Error::ReceiverCtl && !state.timeout_is_running && state.receiver_is_running
            && !injected,
{
}

/// Once the sweeper has taken its request to stop and the receiver has taken
/// the shutdown code, the shutdown is done, and the pending requests are
/// what they were: stopping the loops resolves no call.
pub proof fn lemma_shutdown_completes<C>(state: ClientState<C>, injected: bool)
    ensures
        ({
            let stopped = spec_after_ctl(
                spec_after_timeout(state, TimeoutEvent::Shutdown),
                Ctl::RpcCtl(RPC_CTL_RECEIVER_SHUTDOWN),
            );
            &&& spec_shutdown(stopped, injected) matches Ok(step) && step == ShutdownStep::Done
            &&& stopped.pending == state.pending
        }),
{
}

/// Losing the connection resolves no call: a `Closed` event clears the open
/// flag and leaves every pending request in the table, where it waits for
/// its timeout.
pub proof fn lemma_closed_keeps_pending<C>(state: ClientState<C>)
    ensures
        spec_after_ctl(state, Ctl::Closed).pending == state.pending,
        !spec_after_ctl(state, Ctl::Closed).is_open,
        spec_ctl_action(state, Ctl::Closed) is Forward || spec_ctl_action(state, Ctl::Closed)
            is Continue,
{
}

} // verus!
