use vstd::prelude::*;

use crate::delta::{lemma_min_of_is_least, min_of, modular_delta};
use crate::exchange::{
    Action, Event, Initiator, InitiatorPhase, Responder, ResponderPhase, ROUND_TRIPS,
};

verus! {

/// A responder reports only once it has measured all `ROUND_TRIPS` round
/// trips, and what it reports is the true minimum of those deltas: no larger
/// than any of them, and equal to one of them.
pub proof fn lemma_report_is_minimum_of_all_round_trips(r: Responder, e: Event)
    requires
        r.wf(),
    ensures
        ({
            let (n, a) = r.spec_step(e);
            a is Report ==> {
                &&& n.completed == ROUND_TRIPS
                &&& n.samples@.len() == ROUND_TRIPS
                &&& a->Report_0 == min_of(n.samples@)
                &&& forall|i: int| 0 <= i < n.samples@.len() ==> a->Report_0 <= #[trigger] n.samples@[i]
                &&& exists|i: int| 0 <= i < n.samples@.len() && a->Report_0 == #[trigger] n.samples@[i]
            }
        }),
{
    lemma_min_of_is_least(r.samples@);
}

/// Each round trip adds exactly one sample, the modular delta between the
/// timestamp that arrived and the counter value read after it; no other
/// event adds or changes a sample.
pub proof fn lemma_one_sample_per_round_trip(r: Responder, e: Event)
    requires
        r.wf(),
    ensures
        ({
            let (n, a) = r.spec_step(e);
            if r.phase is Timing && e is Clock {
                &&& n.samples@ == r.samples@.push(modular_delta(r.phase->Timing_0, e->Clock_0))
                &&& n.completed == r.completed + 1
                &&& a == Action::Send(e->Clock_0)
            } else {
                &&& n.samples@ == r.samples@
                &&& n.completed == r.completed
            }
        }),
{
}

/// The initiator is done only after exactly `ROUND_TRIPS` acknowledged round
/// trips, and counts one round trip per acknowledgment.
pub proof fn lemma_initiator_done_after_all_round_trips(i: Initiator, e: Event)
    requires
        i.wf(),
    ensures
        ({
            let (n, a) = i.spec_step(e);
            &&& a == Action::Done ==> n.completed == ROUND_TRIPS
            &&& n.completed == i.completed || n.completed == i.completed + 1
            &&& n.completed == i.completed + 1 ==> (i.phase == InitiatorPhase::AwaitingAck
                && e is Received)
        }),
{
}

/// The initiator never has two timestamps in flight: it asks to send only
/// when nothing is outstanding, and afterwards exactly one is.
pub proof fn lemma_one_outstanding_send(i: Initiator, e: Event)
    requires
        i.wf(),
    ensures
        ({
            let (n, a) = i.spec_step(e);
            &&& n.outstanding() <= 1
            &&& a is Send ==> i.outstanding() == 0 && n.outstanding() == 1
        }),
{
}

/// The responder asks for the next timestamp only at the start or right after
/// its acknowledgment of the previous one went out, and it echoes the counter
/// value it read.
pub proof fn lemma_responder_alternates(r: Responder, e: Event)
    requires
        r.wf(),
    ensures
        ({
            let (n, a) = r.spec_step(e);
            &&& a == Action::Receive ==> (r.phase == ResponderPhase::Ready && e == Event::Start)
                || (r.phase == ResponderPhase::Acking && e == Event::Sent)
            &&& a is Send ==> r.phase is Timing && e == Event::Clock(a->Send_0)
        }),
{
}

/// A closed channel ends the run abnormally for a participant still in its
/// loop, and a failed participant never reports or finishes afterwards.
pub proof fn lemma_channel_closed_aborts(i: Initiator, r: Responder, e: Event)
    requires
        i.wf(),
        r.wf(),
    ensures
        i.phase != InitiatorPhase::Finished ==> i.spec_step(Event::ChannelClosed) == (
        Initiator { phase: InitiatorPhase::Failed, ..i }, Action::Abort),
        r.phase != ResponderPhase::Reported ==> r.spec_step(Event::ChannelClosed) == (
        Responder { phase: ResponderPhase::Failed, ..r }, Action::Abort),
        i.phase == InitiatorPhase::Failed ==> i.spec_step(e) == (i, Action::Abort),
        r.phase == ResponderPhase::Failed ==> r.spec_step(e) == (r, Action::Abort),
{
}

} // verus!
