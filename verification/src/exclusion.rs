//! Serialization discipline of the shared channel, as a transition system.
//!
//! Every exchange holds the channel's lock for its full duration: lock, send
//! the request, block for the reply, unlock. A trace records these events in
//! the order a recording transport would observe them; a trace is valid
//! exactly when every event was allowed by the discipline. The law proved
//! here is mutual exclusion: in a valid trace the `[send, receive]` intervals
//! of two distinct exchanges never overlap — between any two sends there is
//! always a receive.

use vstd::prelude::*;
use vstd::assert_by_contradiction;

verus! {

/// One event a recording transport observes on the shared channel. The
/// caller identifies which service front (or thread) performs the exchange.
#[derive(Clone, Copy, PartialEq, Eq, Structural, Debug)]
pub enum ChannelEvent {
    /// The caller took the channel lock.
    Lock { caller: u32 },
    /// The caller put its request on the transport.
    Send { caller: u32 },
    /// The caller received its reply from the transport.
    Recv { caller: u32 },
    /// The caller released the channel lock.
    Unlock { caller: u32 },
}

/// Where the channel stands between events.
#[derive(Clone, Copy, PartialEq, Eq, Structural, Debug)]
pub enum HolderState {
    /// Nobody holds the lock; no exchange is in flight.
    Idle,
    /// The caller holds the lock and has not sent yet.
    Locked { caller: u32 },
    /// The caller's request is in flight on the transport.
    Sent { caller: u32 },
    /// The caller has its reply and still holds the lock.
    Received { caller: u32 },
}

/// The discipline: which event is allowed in which state, and where it leads.
pub open spec fn step_spec(s: HolderState, e: ChannelEvent) -> Option<HolderState> {
    match (s, e) {
        (HolderState::Idle, ChannelEvent::Lock { caller }) => Some(
            HolderState::Locked { caller },
        ),
        (HolderState::Locked { caller: c }, ChannelEvent::Send { caller }) => if c == caller {
            Some(HolderState::Sent { caller })
        } else {
            None
        },
        (HolderState::Sent { caller: c }, ChannelEvent::Recv { caller }) => if c == caller {
            Some(HolderState::Received { caller })
        } else {
            None
        },
        (HolderState::Received { caller: c }, ChannelEvent::Unlock { caller }) => if c == caller {
            Some(HolderState::Idle)
        } else {
            None
        },
        _ => None,
    }
}

/// The state after a trace, or `None` once any event broke the discipline.
pub open spec fn state_after(trace: Seq<ChannelEvent>) -> Option<HolderState>
    decreases trace.len(),
{
    if trace.len() == 0 {
        Some(HolderState::Idle)
    } else {
        match state_after(trace.drop_last()) {
            Some(s) => step_spec(s, trace.last()),
            None => None,
        }
    }
}

/// A trace every event of which was allowed by the discipline.
pub open spec fn valid_trace(trace: Seq<ChannelEvent>) -> bool {
    state_after(trace) is Some
}

/// One step of the discipline, for a checker or a test transport.
pub fn step_channel(s: HolderState, e: ChannelEvent) -> (r: Option<HolderState>)
    ensures
        r == step_spec(s, e),
{
    match (s, e) {
        (HolderState::Idle, ChannelEvent::Lock { caller }) => Some(HolderState::Locked { caller }),
        (HolderState::Locked { caller: c }, ChannelEvent::Send { caller }) => if c == caller {
            Some(HolderState::Sent { caller })
        } else {
            None
        },
        (HolderState::Sent { caller: c }, ChannelEvent::Recv { caller }) => if c == caller {
            Some(HolderState::Received { caller })
        } else {
            None
        },
        (HolderState::Received { caller: c }, ChannelEvent::Unlock { caller }) => if c == caller {
            Some(HolderState::Idle)
        } else {
            None
        },
        _ => None,
    }
}

/// Checks a recorded trace against the discipline: `true` exactly when every
/// event was allowed.
pub fn check_trace(events: &Vec<ChannelEvent>) -> (ok: bool)
    ensures
        ok == valid_trace(events@),
{
    let mut st = HolderState::Idle;
    let mut i: usize = 0;
    proof {
        assert(events@.take(0) =~= Seq::<ChannelEvent>::empty());
    }
    while i < events.len()
        invariant
            i <= events@.len(),
            state_after(events@.take(i as int)) == Some(st),
        decreases events@.len() - i,
    {
        let e = events[i];
        proof {
            assert(events@.take(i + 1).drop_last() =~= events@.take(i as int));
            assert(events@.take(i + 1).last() == events@[i as int]);
        }
        match step_channel(st, e) {
            Some(s2) => {
                st = s2;
            },
            None => {
                proof {
                    lemma_invalid_prefix(events@, i + 1);
                }
                return false;
            },
        }
        i = i + 1;
    }
    proof {
        assert(events@.take(events@.len() as int) =~= events@);
    }
    true
}

/// Once a prefix of a trace breaks the discipline, the whole trace does.
proof fn lemma_invalid_prefix(trace: Seq<ChannelEvent>, n: int)
    requires
        0 <= n <= trace.len(),
        state_after(trace.take(n)) is None,
    ensures
        state_after(trace) is None,
    decreases trace.len() - n,
{
    if n == trace.len() {
        assert(trace.take(n) =~= trace);
    } else {
        assert(trace.take(n + 1).drop_last() =~= trace.take(n));
        lemma_invalid_prefix(trace, n + 1);
    }
}

/// Every prefix of a valid trace is valid.
proof fn lemma_prefix_valid(trace: Seq<ChannelEvent>, n: int)
    requires
        valid_trace(trace),
        0 <= n <= trace.len(),
    ensures
        state_after(trace.take(n)) is Some,
{
    assert_by_contradiction!(state_after(trace.take(n)) is Some, {
        lemma_invalid_prefix(trace, n);
    });
}

/// While a request is in flight and no receive has happened, the channel
/// stays in the same `Sent` state — in fact nothing but the matching receive
/// can happen at all.
proof fn lemma_sent_persists(trace: Seq<ChannelEvent>, c: u32, s: int, k: int)
    requires
        valid_trace(trace),
        0 <= s <= k <= trace.len(),
        state_after(trace.take(s)) == Some(HolderState::Sent { caller: c }),
        forall|m: int| s <= m < k ==> !(trace[m] is Recv),
    ensures
        state_after(trace.take(k)) == Some(HolderState::Sent { caller: c }),
    decreases k - s,
{
    if s < k {
        lemma_prefix_valid(trace, s + 1);
        assert(trace.take(s + 1).drop_last() =~= trace.take(s));
        assert(trace.take(s + 1).last() == trace[s]);
        // the only event the discipline allows from `Sent` is the matching
        // receive, which the premise rules out
        assert(state_after(trace.take(s + 1)) == step_spec(
            HolderState::Sent { caller: c },
            trace[s],
        ));
        assert(false);
    }
}

/// Law: a request goes out only while its caller holds the channel lock.
pub proof fn lemma_send_requires_lock(trace: Seq<ChannelEvent>, i: int)
    requires
        valid_trace(trace),
        0 <= i < trace.len(),
        trace[i] is Send,
    ensures
        state_after(trace.take(i)) == Some(
            HolderState::Locked { caller: trace[i]->Send_caller },
        ),
{
    lemma_prefix_valid(trace, i);
    lemma_prefix_valid(trace, i + 1);
    assert(trace.take(i + 1).drop_last() =~= trace.take(i));
    assert(trace.take(i + 1).last() == trace[i]);
}

/// Law (mutual exclusion): in a valid trace of the shared channel, two send
/// events are always separated by a receive, so the `[send, receive]`
/// intervals of two distinct exchanges never overlap on the transport.
pub proof fn lemma_exchanges_never_overlap(trace: Seq<ChannelEvent>, i1: int, i2: int)
    requires
        valid_trace(trace),
        0 <= i1 < i2 < trace.len(),
        trace[i1] is Send,
        trace[i2] is Send,
    ensures
        exists|r: int| i1 < r < i2 && trace[r] is Recv,
{
    lemma_prefix_valid(trace, i1 + 1);
    assert(trace.take(i1 + 1).drop_last() =~= trace.take(i1));
    assert(trace.take(i1 + 1).last() == trace[i1]);
    let c = trace[i1]->Send_caller;
    assert(state_after(trace.take(i1 + 1)) == Some(HolderState::Sent { caller: c }));
    assert_by_contradiction!(exists|r: int| i1 < r < i2 && trace[r] is Recv, {
        lemma_sent_persists(trace, c, i1 + 1, i2);
        lemma_prefix_valid(trace, i2 + 1);
        assert(trace.take(i2 + 1).drop_last() =~= trace.take(i2));
        assert(trace.take(i2 + 1).last() == trace[i2]);
        // a second send from the `Sent` state is never allowed
        assert(state_after(trace.take(i2 + 1)) == step_spec(
            HolderState::Sent { caller: c },
            trace[i2],
        ));
    });
}

} // verus!
