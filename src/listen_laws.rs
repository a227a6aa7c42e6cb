//! Properties of the listening loop, proved over `run`, the specification of
//! `dispatch`.
use vstd::prelude::*;
use crate::listen::{ListenEvent, ListenState, handled, is_stopped, next, outcome, run};

verus! {

/// The events of a stream that yields these updates, in order.
pub open spec fn arrivals<T>(updates: Seq<T>) -> Seq<ListenEvent<T>> {
    updates.map_values(|u: T| ListenEvent::Update(u))
}

/// With no interrupt, every update that arrives is handled exactly once, in
/// arrival order: while the stream is open the loop keeps running, and when
/// it ends the loop stops cleanly.
pub proof fn lemma_updates_handled_in_order<T>(updates: Seq<T>)
    ensures
        run(arrivals(updates)) == (ListenState::Running, updates),
        run(arrivals(updates).push(ListenEvent::StreamEnded)) == (ListenState::Exhausted, updates),
        outcome(ListenState::Exhausted) is Ok,
    decreases updates.len(),
{
    let evs = arrivals(updates);
    if updates.len() > 0 {
        lemma_updates_handled_in_order(updates.drop_last());
        assert(evs.drop_last() =~= arrivals(updates.drop_last()));
        assert(evs.last() == ListenEvent::Update(updates.last()));
        assert(updates.drop_last() + seq![updates.last()] =~= updates);
    } else {
        assert(evs =~= Seq::<ListenEvent<T>>::empty());
    }
    assert(run(evs) == (ListenState::Running, updates));
    let ended = evs.push(ListenEvent::StreamEnded);
    assert(ended.drop_last() =~= evs);
    assert(ended.last() == ListenEvent::<T>::StreamEnded);
    assert(next(ListenState::Running, ended.last()) == (ListenState::Exhausted, None::<T>));
    assert(updates + handled(None::<T>) =~= updates);
}

/// An interrupt before any update arrives stops the loop as cancelled, with
/// no update handled, whatever would have come after it, and with no error.
pub proof fn lemma_interrupt_before_updates<T>(events: Seq<ListenEvent<T>>)
    requires
        events.len() > 0,
        events[0] == ListenEvent::<T>::Interrupted,
    ensures
        run(events) == (ListenState::Cancelled, Seq::<T>::empty()),
        outcome(run(events).0) is Ok,
    decreases events.len(),
{
    let prev = run(events.drop_last());
    if events.len() > 1 {
        assert(events.drop_last()[0] == events[0]);
        lemma_interrupt_before_updates(events.drop_last());
        assert(prev.0 == ListenState::Cancelled);
        assert(next(prev.0, events.last()) == (ListenState::Cancelled, None::<T>));
    } else {
        assert(events.drop_last() =~= Seq::<ListenEvent<T>>::empty());
        assert(prev == (ListenState::Running, Seq::<T>::empty()));
        assert(events.last() == events[0]);
        assert(next(prev.0, events.last()) == (ListenState::Cancelled, None::<T>));
    }
    assert(prev.1 + handled(None::<T>) =~= Seq::<T>::empty());
}

/// Once the loop has stopped, later events change nothing: the state and the
/// handled updates after all events are those after the first `k`.
pub proof fn lemma_stopped_is_final<T>(events: Seq<ListenEvent<T>>, k: int)
    requires
        0 <= k <= events.len(),
        is_stopped(run(events.subrange(0, k)).0),
    ensures
        run(events) == run(events.subrange(0, k)),
    decreases events.len() - k,
{
    if events.len() > k {
        assert(events.drop_last().subrange(0, k) =~= events.subrange(0, k));
        lemma_stopped_is_final(events.drop_last(), k);
        let prev = run(events.drop_last());
        assert(next(prev.0, events.last()) == (prev.0, None::<T>));
        assert(prev.1 + handled(None::<T>) =~= prev.1);
    } else {
        assert(events.subrange(0, k) =~= events);
    }
}

/// An interrupt that comes after some updates stops the loop as cancelled:
/// exactly the updates before it were handled, in order, nothing that
/// arrives afterwards is, and the loop ends without error.
pub proof fn lemma_interrupt_stops<T>(before: Seq<T>, after: Seq<ListenEvent<T>>)
    ensures
        run(arrivals(before).push(ListenEvent::Interrupted) + after) == (ListenState::Cancelled, before),
        outcome(ListenState::Cancelled) is Ok,
{
    let head = arrivals(before).push(ListenEvent::Interrupted);
    let events = head + after;
    lemma_updates_handled_in_order(before);
    assert(head.drop_last() =~= arrivals(before));
    assert(before + Seq::<T>::empty() =~= before);
    assert(run(head) == (ListenState::Cancelled, before));
    assert(events.subrange(0, head.len() as int) =~= head);
    lemma_stopped_is_final(events, head.len() as int);
}

} // verus!
