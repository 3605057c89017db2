//! A transition model of the single-flight refresh protocol: one
//! capacity-one permit serializing refresh attempts, and one store slot that
//! is only ever replaced wholesale.
//!
//! The embedding runtime realizes the permit with a capacity-one semaphore
//! and the store with an atomic-swap cell; this module states and proves the
//! safety laws of the protocol those primitives implement: at most one
//! refresh network call is ever in flight, and a concurrent reader of the
//! store only ever observes a credential that was stored whole.

use vstd::prelude::*;
use crate::authz::Authz;

verus! {

/// The shared state of one client instance, as the refresh protocol sees
/// it: who holds the refresh permit, whether the holder has already issued
/// its token-endpoint call, how many such calls are outstanding, the current
/// store contents, and every credential that was ever stored whole.
pub struct FlightState {
    /// The task holding the refresh permit, if any
    pub holder: Option<int>,
    /// Whether the holder has already issued its refresh call
    pub call_issued: bool,
    /// Refresh network calls currently outstanding
    pub calls_in_flight: nat,
    /// The store slot: the current credential, if any
    pub store: Option<Authz>,
    /// Every credential the store ever held, each stored as one whole value
    pub written: Seq<Authz>,
}

/// The initial state: nobody refreshing, no call outstanding, the store
/// holding the caller-supplied credential if one was given.
pub open spec fn flight_init(s: FlightState, initial: Option<Authz>) -> bool {
    &&& s.holder is None
    &&& !s.call_issued
    &&& s.calls_in_flight == 0
    &&& s.store == initial
    &&& s.written == match initial {
        Some(a) => seq![a],
        None => Seq::<Authz>::empty(),
    }
}

/// Task `t` acquires the refresh permit without blocking: enabled only when
/// nobody holds it.
pub open spec fn tr_acquire(pre: FlightState, post: FlightState, t: int) -> bool {
    &&& pre.holder is None
    &&& post.holder == Some(t)
    &&& !post.call_issued
    &&& post.calls_in_flight == pre.calls_in_flight
    &&& post.store == pre.store
    &&& post.written == pre.written
}

/// The permit holder issues its one token-endpoint call: enabled only for
/// the holder, and only while it has not issued one yet.
pub open spec fn tr_issue(pre: FlightState, post: FlightState, t: int) -> bool {
    &&& pre.holder == Some(t)
    &&& !pre.call_issued
    &&& post.holder == pre.holder
    &&& post.call_issued
    &&& post.calls_in_flight == pre.calls_in_flight + 1
    &&& post.store == pre.store
    &&& post.written == pre.written
}

/// The holder's refresh call succeeded: the new credential is stored as one
/// whole value and the permit is released.
pub open spec fn tr_complete_ok(pre: FlightState, post: FlightState, t: int, a: Authz) -> bool {
    &&& pre.holder == Some(t)
    &&& pre.call_issued
    &&& post.holder is None
    &&& !post.call_issued
    &&& post.calls_in_flight == pre.calls_in_flight - 1
    &&& post.store == Some(a)
    &&& post.written == pre.written.push(a)
}

/// The holder gives up without storing anything — its refresh call failed,
/// or no credential was available to refresh — and releases the permit. The
/// store is left exactly as it was.
pub open spec fn tr_complete_err(pre: FlightState, post: FlightState, t: int) -> bool {
    &&& pre.holder == Some(t)
    &&& post.holder is None
    &&& !post.call_issued
    &&& post.calls_in_flight == if pre.call_issued {
        pre.calls_in_flight - 1
    } else {
        pre.calls_in_flight as int
    }
    &&& post.store == pre.store
    &&& post.written == pre.written
}

/// Any one step of the protocol.
pub open spec fn tr_step(pre: FlightState, post: FlightState) -> bool {
    ||| exists|t: int| tr_acquire(pre, post, t)
    ||| exists|t: int| tr_issue(pre, post, t)
    ||| exists|t: int, a: Authz| tr_complete_ok(pre, post, t, a)
    ||| exists|t: int| tr_complete_err(pre, post, t)
}

/// The protocol invariant: refresh calls are in flight exactly while the
/// permit holder has issued one — so never more than one — and the store
/// only ever holds a credential that was stored whole.
pub open spec fn flight_inv(s: FlightState) -> bool {
    &&& s.calls_in_flight == if s.call_issued {
        1nat
    } else {
        0nat
    }
    &&& (s.call_issued ==> s.holder is Some)
    &&& (s.store matches Some(a) ==> s.written.contains(a))
}

/// The initial state satisfies the invariant.
pub proof fn lemma_flight_init(s: FlightState, initial: Option<Authz>)
    requires
        flight_init(s, initial),
    ensures
        flight_inv(s),
{
    if initial is Some {
        assert(s.written[0] == initial.unwrap());
    }
}

/// Every protocol step preserves the invariant.
pub proof fn lemma_flight_step(pre: FlightState, post: FlightState)
    requires
        flight_inv(pre),
        tr_step(pre, post),
    ensures
        flight_inv(post),
{
    if exists|t: int, a: Authz| tr_complete_ok(pre, post, t, a) {
        let (t, a) = choose|t: int, a: Authz| tr_complete_ok(pre, post, t, a);
        assert(post.written[post.written.len() - 1] == a);
        assert(post.written.contains(a));
    }
}

/// A state sequence that starts in an initial state and moves only by
/// protocol steps.
pub open spec fn flight_trace(tr: Seq<FlightState>, initial: Option<Authz>) -> bool {
    &&& tr.len() > 0
    &&& flight_init(tr[0], initial)
    &&& forall|i: int| 0 < i < tr.len() ==> #[trigger] tr_step(tr[i - 1], tr[i])
}

/// The invariant holds in every reachable state of the protocol.
pub proof fn lemma_flight_trace_inv(tr: Seq<FlightState>, initial: Option<Authz>, i: int)
    requires
        flight_trace(tr, initial),
        0 <= i < tr.len(),
    ensures
        flight_inv(tr[i]),
    decreases i,
{
    if i == 0 {
        lemma_flight_init(tr[0], initial);
    } else {
        lemma_flight_trace_inv(tr, initial, i - 1);
        lemma_flight_step(tr[i - 1], tr[i]);
    }
}

/// Single-flight: in every reachable state at most one refresh network call
/// is outstanding, however many concurrent callers detected an expired
/// credential.
pub proof fn lemma_single_flight(tr: Seq<FlightState>, initial: Option<Authz>, i: int)
    requires
        flight_trace(tr, initial),
        0 <= i < tr.len(),
    ensures
        tr[i].calls_in_flight <= 1,
{
    lemma_flight_trace_inv(tr, initial, i);
}

/// While one caller's refresh call is pending, no caller — the holder
/// included — can issue another one.
pub proof fn lemma_no_second_issue(s: FlightState, post: FlightState, t: int)
    requires
        s.call_issued,
    ensures
        !tr_issue(s, post, t),
{
}

/// Either way a refresh cycle completes — storing the merged credential on
/// success, or leaving the store untouched on failure — the holder has a
/// legal protocol step to take, and the invariant survives it.
pub proof fn lemma_completion_is_a_step(pre: FlightState, t: int, outcome: Option<Authz>)
    requires
        flight_inv(pre),
        pre.holder == Some(t),
        pre.call_issued,
    ensures
        outcome matches Some(a) ==> {
            let post = FlightState {
                holder: None,
                call_issued: false,
                calls_in_flight: (pre.calls_in_flight - 1) as nat,
                store: Some(a),
                written: pre.written.push(a),
            };
            &&& tr_complete_ok(pre, post, t, a)
            &&& tr_step(pre, post)
            &&& flight_inv(post)
        },
        outcome is None ==> {
            let post = FlightState {
                holder: None,
                call_issued: false,
                calls_in_flight: (pre.calls_in_flight - 1) as nat,
                store: pre.store,
                written: pre.written,
            };
            &&& tr_complete_err(pre, post, t)
            &&& tr_step(pre, post)
            &&& flight_inv(post)
        },
{
    match outcome {
        Some(a) => {
            let post = FlightState {
                holder: None,
                call_issued: false,
                calls_in_flight: (pre.calls_in_flight - 1) as nat,
                store: Some(a),
                written: pre.written.push(a),
            };
            assert(tr_complete_ok(pre, post, t, a));
            lemma_flight_step(pre, post);
        },
        None => {
            let post = FlightState {
                holder: None,
                call_issued: false,
                calls_in_flight: (pre.calls_in_flight - 1) as nat,
                store: pre.store,
                written: pre.written,
            };
            assert(tr_complete_err(pre, post, t));
            lemma_flight_step(pre, post);
        },
    }
}

/// Atomic swap: whatever moment a concurrent reader samples the store at, it
/// observes either no credential or one that was stored as a single whole
/// value — the initial credential or the complete result of some refresh —
/// never a mixture of fields of two credentials.
pub proof fn lemma_reader_sees_whole_credential(
    tr: Seq<FlightState>,
    initial: Option<Authz>,
    i: int,
)
    requires
        flight_trace(tr, initial),
        0 <= i < tr.len(),
    ensures
        tr[i].store matches Some(a) ==> tr[i].written.contains(a),
{
    lemma_flight_trace_inv(tr, initial, i);
}

} // verus!
