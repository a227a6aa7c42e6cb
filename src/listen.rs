//! The listening loop as a state machine: it consumes incoming updates one at
//! a time, hands each to the handler in arrival order, and stops for good when
//! the stream ends, fails, or the operator interrupts.
use vstd::prelude::*;

verus! {

/// Something that happens while listening.
#[derive(Debug, PartialEq, Eq)]
pub enum ListenEvent<T> {
    /// The transport yielded an update.
    Update(T),
    /// The update stream ended.
    StreamEnded,
    /// Fetching the next update failed.
    StreamFailed,
    /// The operator asked the listener to stop.
    Interrupted,
}

#[derive(Debug, Clone, Copy, PartialEq, Eq)]
pub enum ListenState {
    Running,
    /// Stopped cleanly: the stream was exhausted.
    Exhausted,
    /// Stopped by the operator; any in-flight work is abandoned.
    Cancelled,
    /// Stopped by a transport failure.
    Failed,
}

#[derive(Debug, PartialEq, Eq)]
pub enum DispatchError {
    /// The transport failed while fetching the next update.
    Transport,
}

/// One transition: the next state, and the update to hand to the handler.
pub open spec fn next<T>(state: ListenState, event: ListenEvent<T>) -> (ListenState, Option<T>) {
    match state {
        ListenState::Running => match event {
            ListenEvent::Update(u) => (ListenState::Running, Some(u)),
            ListenEvent::StreamEnded => (ListenState::Exhausted, None),
            ListenEvent::StreamFailed => (ListenState::Failed, None),
            ListenEvent::Interrupted => (ListenState::Cancelled, None),
        },
        _ => (state, None),
    }
}

/// Takes one event. An update seen while running is returned for the handler
/// and the loop keeps running; the end of the stream, a failure or an
/// interrupt stops it; once stopped, nothing changes and nothing is handled.
pub fn step<T>(state: ListenState, event: ListenEvent<T>) -> (r: (ListenState, Option<T>))
    ensures
        r == next(state, event),
{
    match state {
        ListenState::Running => match event {
            ListenEvent::Update(u) => (ListenState::Running, Some(u)),
            ListenEvent::StreamEnded => (ListenState::Exhausted, None),
            ListenEvent::StreamFailed => (ListenState::Failed, None),
            ListenEvent::Interrupted => (ListenState::Cancelled, None),
        },
        _ => (state, None),
    }
}

pub open spec fn is_stopped(state: ListenState) -> bool {
    state != ListenState::Running
}

/// The result reported once the loop has stopped: only a transport failure
/// is an error; the end of the stream and an interrupt are clean.
pub open spec fn outcome(state: ListenState) -> Result<(), DispatchError> {
    if state == ListenState::Failed {
        Err(DispatchError::Transport)
    } else {
        Ok(())
    }
}

pub fn finish(state: ListenState) -> (r: Result<(), DispatchError>)
    requires
        is_stopped(state),
    ensures
        r == outcome(state),
{
    match state {
        ListenState::Failed => Err(DispatchError::Transport),
        _ => Ok(()),
    }
}

pub open spec fn handled<T>(x: Option<T>) -> Seq<T> {
    match x {
        Some(u) => seq![u],
        None => Seq::empty(),
    }
}

/// The state after a sequence of events, starting from `Running`, and the
/// updates handed to the handler on the way, in order.
pub open spec fn run<T>(events: Seq<ListenEvent<T>>) -> (ListenState, Seq<T>)
    decreases events.len(),
{
    if events.len() == 0 {
        (ListenState::Running, Seq::empty())
    } else {
        let (s, done) = run(events.drop_last());
        let (s2, x) = next(s, events.last());
        (s2, done + handled(x))
    }
}

/// Runs the loop over a finite stream of events: returns the final state and
/// the updates handed to the handler, in the order they were handled.
pub fn dispatch<T>(events: Vec<ListenEvent<T>>) -> (r: (ListenState, Vec<T>))
    ensures
        r.0 == run(events@).0,
        r.1@ == run(events@).1,
{
    let ghost all = events@;
    let mut rest = events;
    let mut state = ListenState::Running;
    let mut out: Vec<T> = Vec::new();
    let n: usize = rest.len();
    let mut i: usize = 0;
    while rest.len() > 0
        invariant
            all.len() == n,
            i + rest@.len() == all.len(),
            rest@ == all.subrange(i as int, all.len() as int),
            (state, out@) == run(all.subrange(0, i as int)),
        decreases rest@.len(),
    {
        let ev = rest.remove(0);
        proof {
            assert(ev == all[i as int]);
            let pre = all.subrange(0, i as int + 1);
            assert(pre.drop_last() =~= all.subrange(0, i as int));
            assert(pre.last() == all[i as int]);
        }
        let (s2, x) = step(state, ev);
        state = s2;
        match x {
            Some(u) => {
                out.push(u);
            },
            None => {},
        }
        i = i + 1;
        proof {
            assert(rest@ =~= all.subrange(i as int, all.len() as int));
        }
    }
    proof {
        assert(all.subrange(0, i as int) =~= all);
    }
    (state, out)
}

} // verus!
