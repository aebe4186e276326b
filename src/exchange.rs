use vstd::prelude::*;

use crate::delta::{fold_min, min_of, modular_delta, round_trip_delta};

verus! {

/// Round trips that each participant completes before it stops.
pub const ROUND_TRIPS: u64 = 10_000;

/// Slots in each direction of the channel pair.
pub const CHANNEL_CAPACITY: usize = 10;

/// What the surrounding driver reports back to a participant after carrying
/// out the previous action.
#[derive(PartialEq, Eq, Structural, Clone, Copy, Debug)]
pub enum Event {
    /// The participant is about to run; no action has been asked for yet.
    Start,
    /// The hardware counter was read and gave this value.
    Clock(u64),
    /// The value was handed to the outgoing channel.
    Sent,
    /// This value arrived on the incoming channel.
    Received(u64),
    /// The peer's end of a channel is gone: a send or a receive failed.
    ChannelClosed,
}

/// What a participant asks its driver to do next.
#[derive(PartialEq, Eq, Structural, Clone, Copy, Debug)]
pub enum Action {
    /// Read the hardware counter and report `Event::Clock`.
    ReadClock,
    /// Send this value on the outgoing channel and report `Event::Sent`.
    Send(u64),
    /// Wait for a value on the incoming channel and report `Event::Received`.
    Receive,
    /// Print this minimum round-trip time; the run is over.
    Report(u64),
    /// The run is over and there is nothing to report.
    Done,
    /// The run cannot go on: the benchmark has no valid result.
    Abort,
}

/// Where the initiating participant stands in its loop.
#[derive(PartialEq, Eq, Structural, Clone, Copy, Debug)]
pub enum InitiatorPhase {
    /// Not started.
    Ready,
    /// About to read the counter for the next round trip.
    Timing,
    /// The timestamp is being sent.
    Sending,
    /// Waiting for the responder's acknowledgment.
    AwaitingAck,
    /// All round trips are done.
    Finished,
    /// A channel failed; the run has no result.
    Failed,
}

/// The participant that drives the cadence: it reads the counter, sends the
/// value, and waits for the acknowledgment before it starts the next round.
pub struct Initiator {
    pub phase: InitiatorPhase,
    pub completed: u64,
}

impl Initiator {
    /// The round-trip count fits the phase: zero before the start, below the
    /// total while the loop runs, the total once finished.
    pub open spec fn wf(self) -> bool {
        &&& self.completed <= ROUND_TRIPS
        &&& (self.phase == InitiatorPhase::Ready ==> self.completed == 0)
        &&& (self.phase == InitiatorPhase::Timing || self.phase == InitiatorPhase::Sending
            || self.phase == InitiatorPhase::AwaitingAck) ==> self.completed < ROUND_TRIPS
        &&& (self.phase == InitiatorPhase::Finished ==> self.completed == ROUND_TRIPS)
    }

    /// Timestamps sent whose acknowledgment has not arrived yet.
    pub open spec fn outstanding(self) -> nat {
        if self.phase == InitiatorPhase::Sending || self.phase == InitiatorPhase::AwaitingAck {
            1
        } else {
            0
        }
    }

    /// The transition on one event: the next state and the action asked for.
    pub open spec fn spec_step(self, e: Event) -> (Initiator, Action) {
        let fail = (Initiator { phase: InitiatorPhase::Failed, ..self }, Action::Abort);
        match (self.phase, e) {
            (InitiatorPhase::Finished, _) => (self, Action::Done),
            (InitiatorPhase::Failed, _) => (self, Action::Abort),
            (InitiatorPhase::Ready, Event::Start) => (
                Initiator { phase: InitiatorPhase::Timing, ..self },
                Action::ReadClock,
            ),
            (InitiatorPhase::Timing, Event::Clock(t)) => (
                Initiator { phase: InitiatorPhase::Sending, ..self },
                Action::Send(t),
            ),
            (InitiatorPhase::Sending, Event::Sent) => (
                Initiator { phase: InitiatorPhase::AwaitingAck, ..self },
                Action::Receive,
            ),
            (InitiatorPhase::AwaitingAck, Event::Received(_)) => {
                let c = (self.completed + 1) as u64;
                if c == ROUND_TRIPS {
                    (Initiator { phase: InitiatorPhase::Finished, completed: c }, Action::Done)
                } else {
                    (Initiator { phase: InitiatorPhase::Timing, completed: c }, Action::ReadClock)
                }
            },
            _ => fail,
        }
    }

    pub fn new() -> (r: Initiator)
        ensures
            r.wf(),
            r.phase == InitiatorPhase::Ready,
            r.completed == 0,
    {
        Initiator { phase: InitiatorPhase::Ready, completed: 0 }
    }

    /// Takes the event that the last action produced and returns the next action.
    pub fn step(&mut self, e: Event) -> (r: Action)
        requires
            old(self).wf(),
        ensures
            final(self).wf(),
            (*final(self), r) == old(self).spec_step(e),
    {
        match (self.phase, e) {
            (InitiatorPhase::Finished, _) => Action::Done,
            (InitiatorPhase::Failed, _) => Action::Abort,
            (InitiatorPhase::Ready, Event::Start) => {
                self.phase = InitiatorPhase::Timing;
                Action::ReadClock
            },
            (InitiatorPhase::Timing, Event::Clock(t)) => {
                self.phase = InitiatorPhase::Sending;
                Action::Send(t)
            },
            (InitiatorPhase::Sending, Event::Sent) => {
                self.phase = InitiatorPhase::AwaitingAck;
                Action::Receive
            },
            (InitiatorPhase::AwaitingAck, Event::Received(_)) => {
                self.completed = self.completed + 1;
                if self.completed == ROUND_TRIPS {
                    self.phase = InitiatorPhase::Finished;
                    Action::Done
                } else {
                    self.phase = InitiatorPhase::Timing;
                    Action::ReadClock
                }
            },
            _ => {
                self.phase = InitiatorPhase::Failed;
                Action::Abort
            },
        }
    }
}

/// Where the responding participant stands in its loop.
#[derive(PartialEq, Eq, Structural, Clone, Copy, Debug)]
pub enum ResponderPhase {
    /// Not started.
    Ready,
    /// Waiting for the next timestamp.
    Receiving,
    /// A timestamp arrived; the counter is to be read to close the round trip.
    Timing(u64),
    /// The acknowledgment is being sent.
    Acking,
    /// All round trips are done and the minimum was reported.
    Reported,
    /// A channel failed; the run has no result.
    Failed,
}

/// The participant that measures: it receives each timestamp, reads the
/// counter, keeps the least round-trip delta, and echoes its own reading back.
pub struct Responder {
    pub phase: ResponderPhase,
    pub completed: u64,
    pub min_diff: u64,
    /// Every delta measured so far, in order.
    pub samples: Ghost<Seq<u64>>,
}

impl Responder {
    /// One sample per completed round trip, the running minimum equal to the
    /// least of them, and the count fitting the phase.
    pub open spec fn wf(self) -> bool {
        &&& self.completed <= ROUND_TRIPS
        &&& self.samples@.len() == self.completed
        &&& self.min_diff == min_of(self.samples@)
        &&& (self.phase == ResponderPhase::Ready ==> self.completed == 0)
        &&& (self.phase == ResponderPhase::Receiving || self.phase is Timing)
            ==> self.completed < ROUND_TRIPS
        &&& (self.phase == ResponderPhase::Reported ==> self.completed == ROUND_TRIPS)
    }

    /// The transition on one event: the next state and the action asked for.
    pub open spec fn spec_step(self, e: Event) -> (Responder, Action) {
        let fail = (Responder { phase: ResponderPhase::Failed, ..self }, Action::Abort);
        match (self.phase, e) {
            (ResponderPhase::Reported, _) => (self, Action::Done),
            (ResponderPhase::Failed, _) => (self, Action::Abort),
            (ResponderPhase::Ready, Event::Start) => (
                Responder { phase: ResponderPhase::Receiving, ..self },
                Action::Receive,
            ),
            (ResponderPhase::Receiving, Event::Received(t_send)) => (
                Responder { phase: ResponderPhase::Timing(t_send), ..self },
                Action::ReadClock,
            ),
            (ResponderPhase::Timing(t_send), Event::Clock(t_recv)) => {
                let d = modular_delta(t_send, t_recv);
                (
                    Responder {
                        phase: ResponderPhase::Acking,
                        completed: (self.completed + 1) as u64,
                        min_diff: if d < self.min_diff { d } else { self.min_diff },
                        samples: Ghost(self.samples@.push(d)),
                    },
                    Action::Send(t_recv),
                )
            },
            (ResponderPhase::Acking, Event::Sent) => {
                if self.completed == ROUND_TRIPS {
                    (
                        Responder { phase: ResponderPhase::Reported, ..self },
                        Action::Report(self.min_diff),
                    )
                } else {
                    (Responder { phase: ResponderPhase::Receiving, ..self }, Action::Receive)
                }
            },
            _ => fail,
        }
    }

    pub fn new() -> (r: Responder)
        ensures
            r.wf(),
            r.phase == ResponderPhase::Ready,
            r.completed == 0,
            r.min_diff == u64::MAX,
            r.samples@ == Seq::<u64>::empty(),
    {
        Responder {
            phase: ResponderPhase::Ready,
            completed: 0,
            min_diff: u64::MAX,
            samples: Ghost(Seq::empty()),
        }
    }

    /// Takes the event that the last action produced and returns the next action.
    pub fn step(&mut self, e: Event) -> (r: Action)
        requires
            old(self).wf(),
        ensures
            final(self).wf(),
            (*final(self), r) == old(self).spec_step(e),
    {
        match (self.phase, e) {
            (ResponderPhase::Reported, _) => Action::Done,
            (ResponderPhase::Failed, _) => Action::Abort,
            (ResponderPhase::Ready, Event::Start) => {
                self.phase = ResponderPhase::Receiving;
                Action::Receive
            },
            (ResponderPhase::Receiving, Event::Received(t_send)) => {
                self.phase = ResponderPhase::Timing(t_send);
                Action::ReadClock
            },
            (ResponderPhase::Timing(t_send), Event::Clock(t_recv)) => {
                let d = round_trip_delta(t_send, t_recv);
                self.phase = ResponderPhase::Acking;
                self.completed = self.completed + 1;
                self.min_diff = fold_min(self.min_diff, d);
                self.samples = Ghost(self.samples@.push(d));
                assert(self.samples@.drop_last() =~= old(self).samples@);
                Action::Send(t_recv)
            },
            (ResponderPhase::Acking, Event::Sent) => {
                if self.completed == ROUND_TRIPS {
                    self.phase = ResponderPhase::Reported;
                    Action::Report(self.min_diff)
                } else {
                    self.phase = ResponderPhase::Receiving;
                    Action::Receive
                }
            },
            _ => {
                self.phase = ResponderPhase::Failed;
                Action::Abort
            },
        }
    }
}

} // verus!
