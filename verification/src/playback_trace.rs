//! Playback event traces.
//!
//! The playback coordinator keeps a ghost trace of interpreter events:
//! the start of a program, the emission of one frame, and a stop. A
//! well-formed trace tags every frame with the program that was running
//! when the frame was produced, a program can only start while no program
//! is running, and a stop requires one to be running. From this the crate
//! proves that two frames of two different programs always have a stop
//! between them: a program swap can never straddle a frame boundary.

use vstd::prelude::*;

verus! {

/// One observable event of the playback loop. `Started` and `Frame` carry
/// the bytes of the program concerned.
pub enum PlayEvent {
    Started(Seq<u8>),
    Frame(Seq<u8>),
    Stopped,
}

/// The program running after `ev`, given the program running before it.
pub open spec fn event_step(cur: Option<Seq<u8>>, ev: PlayEvent) -> Option<Seq<u8>> {
    match ev {
        PlayEvent::Started(p) => Some(p),
        PlayEvent::Frame(_) => cur,
        PlayEvent::Stopped => None,
    }
}

/// Whether `ev` is legal while `cur` is the running program: frames come
/// from the running program, starts need an idle interpreter, stops need
/// a running one.
pub open spec fn event_ok(cur: Option<Seq<u8>>, ev: PlayEvent) -> bool {
    match ev {
        PlayEvent::Started(_) => cur is None,
        PlayEvent::Frame(p) => cur == Some(p),
        PlayEvent::Stopped => cur is Some,
    }
}

/// The program running after the whole trace, starting from `init`.
pub open spec fn trace_end(tr: Seq<PlayEvent>, init: Option<Seq<u8>>) -> Option<Seq<u8>>
    decreases tr.len(),
{
    if tr.len() == 0 {
        init
    } else {
        event_step(trace_end(tr.drop_last(), init), tr.last())
    }
}

/// Every event of the trace is legal in the state it occurs in.
pub open spec fn trace_ok(tr: Seq<PlayEvent>, init: Option<Seq<u8>>) -> bool
    decreases tr.len(),
{
    if tr.len() == 0 {
        true
    } else {
        trace_ok(tr.drop_last(), init) && event_ok(trace_end(tr.drop_last(), init), tr.last())
    }
}

/// Appending one event steps the final state, and keeps the trace legal
/// exactly when the event is legal at its point.
pub proof fn lemma_trace_push(tr: Seq<PlayEvent>, init: Option<Seq<u8>>, ev: PlayEvent)
    ensures
        trace_end(tr.push(ev), init) == event_step(trace_end(tr, init), ev),
        trace_ok(tr.push(ev), init) <==> trace_ok(tr, init) && event_ok(trace_end(tr, init), ev),
{
    assert(tr.push(ev).drop_last() =~= tr);
    assert(tr.push(ev).last() == ev);
}

/// Extending a prefix by its next event steps the prefix's final state.
pub proof fn lemma_trace_end_take_step(tr: Seq<PlayEvent>, init: Option<Seq<u8>>, j: int)
    requires
        0 <= j < tr.len(),
    ensures
        trace_end(tr.take(j + 1), init) == event_step(trace_end(tr.take(j), init), tr[j]),
    decreases tr.len(),
{
    assert(tr.take(j + 1).drop_last() =~= tr.take(j));
    assert(tr.take(j + 1).last() == tr[j]);
}

/// In a legal trace, each event is legal in the state its prefix ends in.
pub proof fn lemma_trace_ok_at(tr: Seq<PlayEvent>, init: Option<Seq<u8>>, j: int)
    requires
        trace_ok(tr, init),
        0 <= j < tr.len(),
    ensures
        event_ok(trace_end(tr.take(j), init), tr[j]),
    decreases tr.len(),
{
    if j == tr.len() - 1 {
        assert(tr.take(j) =~= tr.drop_last());
        assert(tr[j] == tr.last());
    } else {
        assert(tr.drop_last().take(j) =~= tr.take(j));
        assert(tr.drop_last()[j] == tr[j]);
        lemma_trace_ok_at(tr.drop_last(), init, j);
    }
}

/// While no stop occurs, the running program stays what it was.
pub proof fn lemma_no_stop_keeps_current(
    tr: Seq<PlayEvent>,
    init: Option<Seq<u8>>,
    i: int,
    j: int,
    p: Seq<u8>,
)
    requires
        trace_ok(tr, init),
        0 <= i <= j <= tr.len(),
        trace_end(tr.take(i), init) == Some(p),
        forall|k: int| i <= k < j ==> !(#[trigger] tr[k] is Stopped),
    ensures
        trace_end(tr.take(j), init) == Some(p),
    decreases j - i,
{
    if i < j {
        lemma_no_stop_keeps_current(tr, init, i, j - 1, p);
        lemma_trace_ok_at(tr, init, j - 1);
        lemma_trace_end_take_step(tr, init, j - 1);
    }
}

/// Two frames from a legal trace that carry different programs have a
/// stop strictly between them: frame N and frame N+1 never straddle a
/// program swap without the old program being stopped first.
pub proof fn lemma_program_swap_needs_stop(
    tr: Seq<PlayEvent>,
    i: int,
    j: int,
    p: Seq<u8>,
    q: Seq<u8>,
)
    requires
        trace_ok(tr, None),
        0 <= i < j < tr.len(),
        tr[i] == PlayEvent::Frame(p),
        tr[j] == PlayEvent::Frame(q),
        p != q,
    ensures
        exists|k: int| i < k < j && (#[trigger] tr[k] is Stopped),
{
    if !(exists|k: int| i < k < j && (#[trigger] tr[k] is Stopped)) {
        lemma_trace_ok_at(tr, None, i);
        lemma_trace_end_take_step(tr, None, i);
        assert(trace_end(tr.take(i + 1), None) == Some(p));
        lemma_no_stop_keeps_current(tr, None, i + 1, j, p);
        lemma_trace_ok_at(tr, None, j);
        assert(false);
    }
}

} // verus!
