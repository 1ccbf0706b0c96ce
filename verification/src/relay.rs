//! The handler of one connection, as a state machine.
//!
//! A relay never touches a socket. It names the operation to perform next
//! ([`Action`]) and is told how that operation ended ([`Event`]). The
//! exchange is half duplex: one chunk from the client goes to the backend,
//! then one chunk from the backend goes to the client, and so on. A backend
//! that speaks without being asked, or that answers in more than one chunk
//! to a client that waits for all of it, is not served well by this.
//! Nothing is retried and no operation has a deadline.

use vstd::prelude::*;

verus! {

/// The most bytes that one read is asked for.
pub const RELAY_CHUNK: usize = 4096;

/// One of the two sockets of a connection pair.
#[derive(Clone, Copy, Debug, PartialEq, Eq, Structural)]
pub enum Side {
    Client,
    Backend,
}

/// The operations of a relay: the connect, once, and then the four of each
/// round of the exchange, in this order.
#[derive(Clone, Copy, Debug, PartialEq, Eq, Structural)]
pub enum Step {
    Connect,
    ReadClient,
    WriteBackend,
    ReadBackend,
    WriteClient,
}

/// How a relay ended.
#[derive(Clone, Copy, Debug, PartialEq, Eq, Structural)]
pub enum Outcome {
    /// The client had no more to send: the one normal end.
    ClientClosed,
    /// The backend answered a chunk with the end of its stream. There is
    /// nothing to pass on and nobody to ask again, so the relay ends.
    BackendClosed,
    /// The operation failed. Nothing was retried.
    Failed(Step),
}

/// Where a relay stands.
#[derive(Clone, Copy, Debug, PartialEq, Eq, Structural)]
pub enum Phase {
    /// The operation is under way and its end is awaited.
    Awaiting(Step),
    /// The relay is over and both sockets are to be closed.
    Closed(Outcome),
}

/// What the owner of the sockets does next.
#[derive(Clone, Copy, Debug, PartialEq, Eq, Structural)]
pub enum Action {
    /// Open the connection to the backend.
    Connect,
    /// Read once from `from`, at most `max` bytes.
    Read { from: Side, max: usize },
    /// Write the whole of the relay's chunk to `to`, in as many writes as it
    /// takes.
    Write { to: Side },
    /// Close both sockets and report the outcome.
    Close(Outcome),
}

/// How the operation that was asked for ended.
#[derive(Debug, PartialEq, Eq)]
pub enum Event {
    /// The connection to the backend stands.
    Connected,
    /// The read returned these bytes; none at the end of the stream.
    Data(Vec<u8>),
    /// The chunk was written in full.
    Written,
    /// The operation failed.
    Failed,
}

/// A relay as the contracts see it.
pub struct RelayState {
    pub phase: Phase,
    /// The bytes that wait to be written; empty unless a write is awaited.
    pub chunk: Seq<u8>,
}

impl Outcome {
    /// Whether the relay ended as it should: on the end of the client's
    /// stream. Every other end is to be reported.
    pub fn is_normal(&self) -> (r: bool)
        ensures
            r == (*self == Outcome::ClientClosed),
    {
        match self {
            Outcome::ClientClosed => true,
            _ => false,
        }
    }
}

/// The state of a relay that was just made.
pub open spec fn initial() -> RelayState {
    RelayState { phase: Phase::Awaiting(Step::Connect), chunk: Seq::empty() }
}

/// The state in which `step` is awaited and no chunk is held.
pub open spec fn awaiting(step: Step) -> RelayState {
    RelayState { phase: Phase::Awaiting(step), chunk: Seq::empty() }
}

/// The state of a relay that ended with `outcome`.
pub open spec fn ended_with(outcome: Outcome) -> RelayState {
    RelayState { phase: Phase::Closed(outcome), chunk: Seq::empty() }
}

/// The state after a read that `step` asked for has returned `bytes`: the
/// end of either stream ends the relay, anything else is to be written to
/// the other side.
pub open spec fn after_read(step: Step, bytes: Seq<u8>) -> RelayState {
    if step == Step::ReadClient {
        if bytes.len() == 0 {
            ended_with(Outcome::ClientClosed)
        } else {
            RelayState { phase: Phase::Awaiting(Step::WriteBackend), chunk: bytes }
        }
    } else {
        if bytes.len() == 0 {
            ended_with(Outcome::BackendClosed)
        } else {
            RelayState { phase: Phase::Awaiting(Step::WriteClient), chunk: bytes }
        }
    }
}

/// Whether `event` can be the end of `step`.
pub open spec fn answers(step: Step, event: Event) -> bool {
    match event {
        Event::Failed => true,
        Event::Connected => step == Step::Connect,
        Event::Data(_) => step == Step::ReadClient || step == Step::ReadBackend,
        Event::Written => step == Step::WriteBackend || step == Step::WriteClient,
    }
}

/// The state that follows `state` on `event`. A failure ends the relay. An
/// event that cannot be the end of the awaited operation changes nothing,
/// and nothing changes a relay that is closed.
pub open spec fn next(state: RelayState, event: Event) -> RelayState {
    match state.phase {
        Phase::Closed(_) => state,
        Phase::Awaiting(step) => {
            if !answers(step, event) {
                state
            } else {
                match event {
                    Event::Failed => ended_with(Outcome::Failed(step)),
                    Event::Connected => awaiting(Step::ReadClient),
                    Event::Data(bytes) => after_read(step, bytes@),
                    Event::Written => if step == Step::WriteBackend {
                        awaiting(Step::ReadBackend)
                    } else {
                        awaiting(Step::ReadClient)
                    },
                }
            }
        },
    }
}

/// What is to be done in `phase`.
pub open spec fn action_in(phase: Phase) -> Action {
    match phase {
        Phase::Closed(outcome) => Action::Close(outcome),
        Phase::Awaiting(Step::Connect) => Action::Connect,
        Phase::Awaiting(Step::ReadClient) => (Action::Read { from: Side::Client, max: RELAY_CHUNK }),
        Phase::Awaiting(Step::WriteBackend) => (Action::Write { to: Side::Backend }),
        Phase::Awaiting(Step::ReadBackend) => (Action::Read { from: Side::Backend, max: RELAY_CHUNK }),
        Phase::Awaiting(Step::WriteClient) => (Action::Write { to: Side::Client }),
    }
}

/// Whether a state holds a chunk exactly when it awaits a write.
pub open spec fn consistent(state: RelayState) -> bool {
    state.chunk.len() > 0 <==> (state.phase == Phase::Awaiting(Step::WriteBackend) || state.phase
        == Phase::Awaiting(Step::WriteClient))
}

/// The handler of one connection pair.
pub struct Relay {
    phase: Phase,
    chunk: Vec<u8>,
}

impl View for Relay {
    type V = RelayState;

    closed spec fn view(&self) -> RelayState {
        RelayState { phase: self.phase, chunk: self.chunk@ }
    }
}

impl Relay {
    #[verifier::type_invariant]
    spec fn well_formed(self) -> bool {
        consistent(self@)
    }

    /// A relay that has yet to connect to its backend.
    pub fn new() -> (r: Relay)
        ensures
            r@ == initial(),
    {
        Relay { phase: Phase::Awaiting(Step::Connect), chunk: Vec::new() }
    }

    /// Where the relay stands.
    pub fn phase(&self) -> (p: Phase)
        ensures
            p == self@.phase,
    {
        self.phase
    }

    /// The bytes that the pending write is to send; none unless a write is
    /// pending.
    pub fn chunk(&self) -> (bytes: &[u8])
        ensures
            bytes@ == self@.chunk,
            consistent(self@),
    {
        proof {
            use_type_invariant(self);
        }
        self.chunk.as_slice()
    }

    /// What is to be done next.
    pub fn action(&self) -> (a: Action)
        ensures
            a == action_in(self@.phase),
    {
        match self.phase {
            Phase::Closed(outcome) => Action::Close(outcome),
            Phase::Awaiting(Step::Connect) => Action::Connect,
            Phase::Awaiting(Step::ReadClient) => Action::Read { from: Side::Client, max: RELAY_CHUNK },
            Phase::Awaiting(Step::WriteBackend) => Action::Write { to: Side::Backend },
            Phase::Awaiting(Step::ReadBackend) => Action::Read { from: Side::Backend, max: RELAY_CHUNK },
            Phase::Awaiting(Step::WriteClient) => Action::Write { to: Side::Client },
        }
    }

    /// Takes in how the pending operation ended and says what is to be done
    /// next.
    pub fn step(&mut self, event: Event) -> (a: Action)
        ensures
            final(self)@ == next(old(self)@, event),
            a == action_in(final(self)@.phase),
            consistent(final(self)@),
    {
        proof {
            use_type_invariant(&*self);
        }
        match self.phase {
            Phase::Closed(_) => {},
            Phase::Awaiting(step) => {
                match event {
                    Event::Failed => {
                        *self = Relay { phase: Phase::Closed(Outcome::Failed(step)), chunk: Vec::new() };
                    },
                    Event::Connected => {
                        if step == Step::Connect {
                            *self = Relay { phase: Phase::Awaiting(Step::ReadClient), chunk: Vec::new() };
                        }
                    },
                    Event::Data(bytes) => {
                        if step == Step::ReadClient || step == Step::ReadBackend {
                            let ended: bool = bytes.len() == 0;
                            let phase = if step == Step::ReadClient {
                                if ended {
                                    Phase::Closed(Outcome::ClientClosed)
                                } else {
                                    Phase::Awaiting(Step::WriteBackend)
                                }
                            } else {
                                if ended {
                                    Phase::Closed(Outcome::BackendClosed)
                                } else {
                                    Phase::Awaiting(Step::WriteClient)
                                }
                            };
                            proof {
                                if ended {
                                    assert(bytes@ =~= Seq::<u8>::empty());
                                }
                            }
                            *self = Relay { phase, chunk: bytes };
                        }
                    },
                    Event::Written => {
                        if step == Step::WriteBackend {
                            *self = Relay { phase: Phase::Awaiting(Step::ReadBackend), chunk: Vec::new() };
                        } else if step == Step::WriteClient {
                            *self = Relay { phase: Phase::Awaiting(Step::ReadClient), chunk: Vec::new() };
                        }
                    },
                }
            },
        }
        self.action()
    }
}

} // verus!
