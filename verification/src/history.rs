//! Histories of the pending table.
//!
//! A history is a sequence of the things that happen to the table: a request
//! is registered, a response frame comes in, the sweeper ticks. This module
//! says what each of them does to the table and which calls it resolves, and
//! proves that over any history a registered request is resolved once and no
//! more: by its response or by its timeout, whichever comes first. Whatever
//! comes second finds no row and resolves nothing.
//!
//! The methods of [`crate::client::RpcClient`] change the table as the
//! events of this module do: `dispatch` as [`Event::Dispatch`],
//! `handle_binary_response` as [`Event::Response`], and a tick of
//! `timeout_task` as [`Event::Tick`].

use crate::client::spec_after_ctl;
use crate::client::spec_after_response;
use crate::client::spec_after_timeout;
use crate::client::spec_resolved_id;
use crate::client::ClientState;
use crate::client::Ctl;
use crate::client::TimeoutEvent;
use crate::message::spec_decode;
use crate::client::spec_after_dispatch;
use crate::pending::spec_expired_ids;
use crate::pending::Pending;
use vstd::prelude::*;

verus! {

/// Something that happens to the pending table.
pub enum Event<C> {
    /// A request is registered under `id` at the time `now`, with its
    /// callback.
    Dispatch { id: u64, now: u64, callback: C },
    /// A response frame comes in.
    Response { frame: Seq<u8> },
    /// The sweeper ticks at the time `now`, with the given timeout.
    Tick { now: u64, timeout: u64 },
}

/// The table after the event.
pub open spec fn spec_apply<C>(rows: Map<u64, Pending<C>>, event: Event<C>) -> Map<
    u64,
    Pending<C>,
> {
    match event {
        Event::Dispatch { id, now, callback } => rows.insert(
            id,
            Pending { id, timestamp: now, callback },
        ),
        Event::Response { frame } => match spec_resolved_id(rows, frame) {
            Some(id) => rows.remove(id),
            None => rows,
        },
        Event::Tick { now, timeout } => rows.remove_keys(spec_expired_ids(rows, now, timeout)),
    }
}

/// Whether the event resolves the call `id`: a response frame resolves the
/// pending request whose identifier it carries, a tick those that have timed
/// out, and registering a request resolves nothing.
pub open spec fn spec_resolves_call<C>(rows: Map<u64, Pending<C>>, event: Event<C>, id: u64) -> bool {
    match event {
        Event::Dispatch { .. } => false,
        Event::Response { frame } => spec_resolved_id(rows, frame) == Some(id),
        Event::Tick { now, timeout } => spec_expired_ids(rows, now, timeout).contains(id),
    }
}

/// Whether the event registers a request under `id`.
pub open spec fn spec_registers<C>(event: Event<C>, id: u64) -> bool {
    event matches Event::Dispatch { id: registered, .. } && registered == id
}

/// Whether the event can happen to the table: a request is registered only
/// under an identifier that is not pending.
pub open spec fn spec_admits<C>(rows: Map<u64, Pending<C>>, event: Event<C>) -> bool {
    event matches Event::Dispatch { id, .. } ==> !rows.contains_key(id)
}

/// The table after the events of `history`, in order.
pub open spec fn spec_run<C>(rows: Map<u64, Pending<C>>, history: Seq<Event<C>>) -> Map<
    u64,
    Pending<C>,
>
    decreases history.len(),
{
    if history.len() == 0 {
        rows
    } else {
        spec_run(spec_apply(rows, history[0]), history.drop_first())
    }
}

/// Whether each event of `history` can happen to the table that the events
/// before it have left.
pub open spec fn spec_admissible<C>(rows: Map<u64, Pending<C>>, history: Seq<Event<C>>) -> bool
    decreases history.len(),
{
    history.len() == 0 || (spec_admits(rows, history[0]) && spec_admissible(
        spec_apply(rows, history[0]),
        history.drop_first(),
    ))
}

/// How many events of `history` register a request under `id`.
pub open spec fn spec_registered<C>(history: Seq<Event<C>>, id: u64) -> nat
    decreases history.len(),
{
    if history.len() == 0 {
        0
    } else {
        (if spec_registers(history[0], id) {
            1nat
        } else {
            0nat
        }) + spec_registered(history.drop_first(), id)
    }
}

/// How many events of `history` resolve the call `id`.
pub open spec fn spec_resolved<C>(rows: Map<u64, Pending<C>>, history: Seq<Event<C>>, id: u64) -> nat
    decreases history.len(),
{
    if history.len() == 0 {
        0
    } else {
        (if spec_resolves_call(rows, history[0], id) {
            1nat
        } else {
            0nat
        }) + spec_resolved(spec_apply(rows, history[0]), history.drop_first(), id)
    }
}

/// One if `id` is pending and zero if it is not.
pub open spec fn spec_pending<C>(rows: Map<u64, Pending<C>>, id: u64) -> nat {
    if rows.contains_key(id) {
        1
    } else {
        0
    }
}

/// Every registered request is resolved exactly once or is still pending:
/// over any history, the requests registered under `id`, and the one that
/// was pending at the start if there was one, are as many as the times that
/// `id` was resolved, and the one that is pending at the end if there is
/// one.
pub proof fn lemma_resolved_exactly_once<C>(
    rows: Map<u64, Pending<C>>,
    history: Seq<Event<C>>,
    id: u64,
)
    requires
        spec_admissible(rows, history),
    ensures
        spec_registered(history, id) + spec_pending(rows, id) == spec_resolved(rows, history, id)
            + spec_pending(spec_run(rows, history), id),
    decreases history.len(),
{
    if history.len() > 0 {
        lemma_resolved_exactly_once(spec_apply(rows, history[0]), history.drop_first(), id);
    }
}

/// A request that was registered once, under an identifier that was not
/// pending, is never resolved twice, and is resolved once unless it is still
/// pending at the end.
pub proof fn lemma_single_call_resolved_once<C>(
    rows: Map<u64, Pending<C>>,
    history: Seq<Event<C>>,
    id: u64,
)
    requires
        spec_admissible(rows, history),
        !rows.contains_key(id),
        spec_registered(history, id) == 1,
    ensures
        spec_resolved(rows, history, id) <= 1,
        spec_resolved(rows, history, id) == 1 <==> !spec_run(rows, history).contains_key(id),
{
    lemma_resolved_exactly_once(rows, history, id);
}

/// A call is resolved only by a response frame that carries its own
/// identifier, or by a tick that finds it timed out: a response for one
/// request never resolves another.
pub proof fn lemma_no_cross_delivery<C>(rows: Map<u64, Pending<C>>, frame: Seq<u8>, id: u64)
    requires
        spec_resolves_call(rows, Event::<C>::Response { frame }, id),
    ensures
        rows.contains_key(id),
        spec_decode(frame) matches Some((carried, _, _)) && carried == id,
        forall|other: u64|
            other != id ==> !spec_resolves_call(rows, Event::<C>::Response { frame }, other),
        forall|other: u64|
            other != id && rows.contains_key(other) ==> {
                &&& spec_apply(rows, Event::Response { frame }).contains_key(other)
                &&& spec_apply(rows, Event::Response { frame })[other] == rows[other]
            },
{
}

/// As long as a request is pending its row stays as it was made: an event
/// that does not resolve the request leaves its time stamp and its callback
/// alone. So the callback that leaves the table with a request is the one
/// that was registered with it.
pub proof fn lemma_pending_row_is_stable<C>(rows: Map<u64, Pending<C>>, event: Event<C>, id: u64)
    requires
        spec_admits(rows, event),
        rows.contains_key(id),
        !spec_resolves_call(rows, event, id),
    ensures
        spec_apply(rows, event).contains_key(id),
        spec_apply(rows, event)[id] == rows[id],
{
}

/// Registering a request makes the row that holds its time stamp and its
/// callback, under an identifier that was free, and leaves the other rows
/// as they are.
pub proof fn lemma_dispatch_makes_row<C>(
    rows: Map<u64, Pending<C>>,
    id: u64,
    now: u64,
    callback: C,
    other: u64,
)
    requires
        spec_admits(rows, Event::Dispatch { id, now, callback }),
    ensures
        spec_apply(rows, Event::Dispatch { id, now, callback })[id] == (Pending {
            id,
            timestamp: now,
            callback,
        }),
        other != id ==> spec_pending(spec_apply(rows, Event::Dispatch { id, now, callback }), other)
            == spec_pending(rows, other),
        other != id && rows.contains_key(other) ==> spec_apply(
            rows,
            Event::Dispatch { id, now, callback },
        )[other] == rows[other],
{
}

/// A response frame whose identifier is not pending, and a frame that is
/// shorter than a header, resolves nothing and leaves the table as it is.
pub proof fn lemma_unknown_response_is_dropped<C>(rows: Map<u64, Pending<C>>, frame: Seq<u8>)
    requires
        spec_decode(frame) matches Some((id, _, _)) ==> !rows.contains_key(id),
    ensures
        spec_apply(rows, Event::Response { frame }) == rows,
        forall|id: u64| !spec_resolves_call(rows, Event::<C>::Response { frame }, id),
{
}

/// A tick resolves every request that has been pending for longer than the
/// timeout and takes its row from the table, and a response that comes in
/// later for such a request resolves nothing and changes nothing.
pub proof fn lemma_late_response_is_dropped<C>(
    rows: Map<u64, Pending<C>>,
    now: u64,
    timeout: u64,
    frame: Seq<u8>,
    id: u64,
)
    requires
        rows.contains_key(id),
        now >= rows[id].timestamp,
        now - rows[id].timestamp > timeout,
        spec_decode(frame) matches Some((carried, _, _)) && carried == id,
    ensures
        spec_resolves_call(rows, Event::<C>::Tick { now, timeout }, id),
        !spec_apply(rows, Event::<C>::Tick { now, timeout }).contains_key(id),
        spec_apply(spec_apply(rows, Event::<C>::Tick { now, timeout }), Event::Response { frame })
            == spec_apply(rows, Event::<C>::Tick { now, timeout }),
        forall|other: u64|
            !spec_resolves_call(
                spec_apply(rows, Event::<C>::Tick { now, timeout }),
                Event::<C>::Response { frame },
                other,
            ),
{
}

/// A tick leaves alone every request that has not been pending for longer
/// than the timeout.
pub proof fn lemma_tick_keeps_young_rows<C>(
    rows: Map<u64, Pending<C>>,
    now: u64,
    timeout: u64,
    id: u64,
)
    requires
        rows.contains_key(id),
        now < rows[id].timestamp || now - rows[id].timestamp <= timeout,
    ensures
        !spec_resolves_call(rows, Event::<C>::Tick { now, timeout }, id),
        spec_apply(rows, Event::<C>::Tick { now, timeout }).contains_key(id),
        spec_apply(rows, Event::<C>::Tick { now, timeout })[id] == rows[id],
{
}

/// The client changes its pending table as the events of a history do:
/// registering a request as [`Event::Dispatch`], taking in a response frame
/// as [`Event::Response`], and a tick of the sweeper as [`Event::Tick`] with
/// the timeout of the client. Control events and the requests to stop leave
/// the table as it is.
pub proof fn lemma_client_follows_history<C>(
    state: ClientState<C>,
    frame: Seq<u8>,
    now: u64,
    id: u64,
    callback: C,
    ctl: Ctl,
)
    ensures
        spec_after_response(state, frame).pending == spec_apply(
            state.pending,
            Event::Response { frame },
        ),
        spec_after_timeout(state, TimeoutEvent::Tick(now)).pending == spec_apply(
            state.pending,
            Event::Tick { now, timeout: state.timeout_duration },
        ),
        spec_after_dispatch(state, id, now, callback).pending == spec_apply(
            state.pending,
            Event::Dispatch { id, now, callback },
        ),
        spec_after_timeout(state, TimeoutEvent::Shutdown).pending == state.pending,
        spec_after_ctl(state, ctl).pending == state.pending,
{
}

} // verus!
