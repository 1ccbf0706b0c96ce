//! What a relay does over a whole connection: the bytes that it takes from
//! one side and those that it hands to the other.

use vstd::prelude::*;
use crate::relay::{
    Action, Event, Outcome, Phase, RelayState, Side, Step, action_in, consistent, ended_with,
    initial, next,
};

verus! {

/// The other socket of the pair.
pub open spec fn opposite(side: Side) -> Side {
    match side {
        Side::Client => Side::Backend,
        Side::Backend => Side::Client,
    }
}

/// The read from `side`.
pub open spec fn read_of(side: Side) -> Step {
    match side {
        Side::Client => Step::ReadClient,
        Side::Backend => Step::ReadBackend,
    }
}

/// The write to `side`.
pub open spec fn write_of(side: Side) -> Step {
    match side {
        Side::Client => Step::WriteClient,
        Side::Backend => Step::WriteBackend,
    }
}

/// Whether `state` is that of a relay that ended on a failed operation.
pub open spec fn failed(state: RelayState) -> bool {
    state.phase matches Phase::Closed(Outcome::Failed(_))
}

/// The state that a new relay reaches on `events`, taken in order.
pub open spec fn run(events: Seq<Event>) -> RelayState
    decreases events.len(),
{
    if events.len() == 0 {
        initial()
    } else {
        next(run(events.drop_last()), events.last())
    }
}

/// The bytes that `event` brings in from `side` when it reaches a relay in
/// `state`.
pub open spec fn taken_by(state: RelayState, event: Event, side: Side) -> Seq<u8> {
    match event {
        Event::Data(bytes) => if state.phase == Phase::Awaiting(read_of(side)) {
            bytes@
        } else {
            Seq::empty()
        },
        _ => Seq::empty(),
    }
}

/// The bytes that `event` reports as written to `side` when it reaches a
/// relay in `state`.
pub open spec fn passed_by(state: RelayState, event: Event, side: Side) -> Seq<u8> {
    if event == Event::Written && state.phase == Phase::Awaiting(write_of(side)) {
        state.chunk
    } else {
        Seq::empty()
    }
}

/// All the bytes that a new relay has taken from `side` over `events`.
pub open spec fn received(events: Seq<Event>, side: Side) -> Seq<u8>
    decreases events.len(),
{
    if events.len() == 0 {
        Seq::empty()
    } else {
        received(events.drop_last(), side) + taken_by(run(events.drop_last()), events.last(), side)
    }
}

/// All the bytes that a new relay has had written to `side` over `events`.
pub open spec fn delivered(events: Seq<Event>, side: Side) -> Seq<u8>
    decreases events.len(),
{
    if events.len() == 0 {
        Seq::empty()
    } else {
        delivered(events.drop_last(), side) + passed_by(run(events.drop_last()), events.last(), side)
    }
}

/// The bytes that `state` holds for a write to `side` that has not ended.
pub open spec fn in_flight(state: RelayState, side: Side) -> Seq<u8> {
    if state.phase == Phase::Awaiting(write_of(side)) {
        state.chunk
    } else {
        Seq::empty()
    }
}

/// Byte fidelity. Whatever happens to a relay, what it has had written to
/// one side is the beginning of what it has taken from the other: nothing
/// is changed, doubled, left out or moved. Unless an operation has failed,
/// the rest is exactly the chunk whose write is pending, so a relay that
/// awaits a read or has ended on the end of a stream has passed on
/// everything.
pub proof fn lemma_fidelity(events: Seq<Event>, to: Side)
    ensures
        consistent(run(events)),
        delivered(events, to).is_prefix_of(received(events, opposite(to))),
        !failed(run(events)) ==> received(events, opposite(to)) == delivered(events, to)
            + in_flight(run(events), to),
    decreases events.len(),
{
    let from = opposite(to);
    if events.len() == 0 {
        assert(received(events, from) =~= delivered(events, to) + in_flight(run(events), to));
    } else {
        let earlier = events.drop_last();
        lemma_fidelity(earlier, to);
        if failed(run(events)) {
            assert(received(events, from) =~= received(earlier, from));
            assert(delivered(events, to) =~= delivered(earlier, to));
        } else {
            assert(received(events, from) =~= delivered(events, to) + in_flight(run(events), to));
        }
    }
}

/// A relay that has ended on the end of a stream has passed on, in both
/// directions, all that it took.
pub proof fn lemma_end_of_stream_is_complete(events: Seq<Event>, to: Side)
    requires
        run(events).phase == Phase::Closed(Outcome::ClientClosed) || run(events).phase
            == Phase::Closed(Outcome::BackendClosed),
    ensures
        delivered(events, to) == received(events, opposite(to)),
{
    lemma_fidelity(events, to);
    assert(delivered(events, to) + in_flight(run(events), to) =~= delivered(events, to));
}

/// Nothing reaches the client's socket before the connection to the backend
/// stands, and nothing at all if it cannot be made: a new relay whose first
/// event is a failure is closed with the connect as the failed operation.
pub proof fn lemma_refused_backend(events: Seq<Event>, to: Side)
    requires
        events.len() > 0,
        events[0] == Event::Failed,
    ensures
        run(events).phase == Phase::Closed(Outcome::Failed(Step::Connect)),
        delivered(events, to) == Seq::<u8>::empty(),
        received(events, to) == Seq::<u8>::empty(),
    decreases events.len(),
{
    let earlier = events.drop_last();
    if earlier.len() == 0 {
        assert(events.last() == events[0]);
        assert(delivered(earlier, to) =~= Seq::<u8>::empty());
        assert(received(earlier, to) =~= Seq::<u8>::empty());
    } else {
        assert(earlier[0] == events[0]);
        lemma_refused_backend(earlier, to);
    }
    assert(delivered(events, to) =~= Seq::<u8>::empty());
    assert(received(events, to) =~= Seq::<u8>::empty());
}

/// The end of the client's stream. A relay that awaits the client's next
/// chunk and is told that the read returned nothing is closed, with the
/// normal outcome, and holds nothing that was not passed on.
pub proof fn lemma_client_end_of_stream(state: RelayState, event: Event)
    requires
        state.phase == Phase::Awaiting(Step::ReadClient),
        event matches Event::Data(bytes) && bytes@.len() == 0,
    ensures
        next(state, event) == ended_with(Outcome::ClientClosed),
        action_in(next(state, event).phase) == Action::Close(Outcome::ClientClosed),
{
}

/// A closed relay stays as it is, whatever it is told.
pub proof fn lemma_closed_is_final(state: RelayState, event: Event)
    requires
        state.phase matches Phase::Closed(_),
    ensures
        next(state, event) == state,
{
}

} // verus!
