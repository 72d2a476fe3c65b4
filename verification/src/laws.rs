//! Laws of the dispatcher, proved over whole traces of events.
//!
//! An `Event` is one interaction with the machine: a submission, a
//! receiver dropped, one turn of the loop, a read, the queue closing.
//! `run` folds a sequence of events over a state; the lemmas here state
//! what every such trace preserves: well-formedness, the finality of
//! cancellation and of closure, the one-shot discipline of a sent value,
//! and FIFO processing order.

use vstd::prelude::*;

use crate::dispatch::{
    ChannelState, DispatcherModel, close_model, drop_receiver_model, lemma_drop_preserves_wf,
    lemma_read_preserves_wf, lemma_step_preserves_wf, lemma_submit_preserves_wf, read_model,
    step_model, submit_model, terminated, wf_model,
};
use crate::rest::{HttpOutcome, Request, outcome_result};

verus! {

/// One interaction with the dispatcher.
pub ghost enum Event {
    /// A producer submits a request.
    Submit(Request),
    /// A submitter drops the receiver of the channel with this ticket.
    DropReceiver(int),
    /// The loop resolves the front entry, whose HTTP call had this
    /// outcome.
    Step(HttpOutcome),
    /// The receiver of the channel with this ticket reads it.
    Read(int),
    /// The last producer handle is dropped: the queue closes.
    Close,
}

/// When an event can happen in a state. Submission needs a live producer
/// handle, so a closed queue enables no submission.
pub open spec fn enabled(m: DispatcherModel, e: Event) -> bool {
    match e {
        Event::Submit(_) => !m.closed && m.channels.len() < usize::MAX,
        Event::DropReceiver(t) => 0 <= t < m.channels.len() && m.channels[t] is Waiting,
        Event::Step(_) => m.queue.len() > 0,
        Event::Read(t) => 0 <= t < m.channels.len(),
        Event::Close => true,
    }
}

/// The state after an event.
pub open spec fn next(m: DispatcherModel, e: Event) -> DispatcherModel {
    match e {
        Event::Submit(r) => submit_model(m, r),
        Event::DropReceiver(t) => drop_receiver_model(m, t),
        Event::Step(o) => step_model(m, o),
        Event::Read(t) => read_model(m, t),
        Event::Close => close_model(m),
    }
}

/// A sequence of events, each enabled in the state the ones before it
/// produced.
pub open spec fn valid_trace(m: DispatcherModel, evs: Seq<Event>) -> bool
    decreases evs.len(),
{
    evs.len() == 0 || (enabled(m, evs[0]) && valid_trace(next(m, evs[0]), evs.skip(1)))
}

/// The state a trace of events leads to.
pub open spec fn run(m: DispatcherModel, evs: Seq<Event>) -> DispatcherModel
    decreases evs.len(),
{
    if evs.len() == 0 {
        m
    } else {
        run(next(m, evs[0]), evs.skip(1))
    }
}

/// Every enabled event preserves well-formedness.
pub proof fn lemma_wf_preserved(m: DispatcherModel, e: Event)
    requires
        wf_model(m),
        enabled(m, e),
    ensures
        wf_model(next(m, e)),
{
    match e {
        Event::Submit(r) => lemma_submit_preserves_wf(m, r),
        Event::DropReceiver(t) => lemma_drop_preserves_wf(m, t),
        Event::Step(o) => lemma_step_preserves_wf(m, o),
        Event::Read(t) => lemma_read_preserves_wf(m, t),
        Event::Close => {},
    }
}

/// No event forgets a channel: the channel store only grows.
pub proof fn lemma_channels_grow(m: DispatcherModel, e: Event)
    requires
        wf_model(m),
        enabled(m, e),
    ensures
        next(m, e).channels.len() >= m.channels.len(),
{
}

/// Cancellation is final for one event: a closed channel is still closed
/// after any enabled event, and in particular never carries a value.
pub proof fn lemma_closed_stays_closed(m: DispatcherModel, e: Event, t: int)
    requires
        wf_model(m),
        enabled(m, e),
        0 <= t < m.channels.len(),
        m.channels[t] is Closed,
    ensures
        next(m, e).channels[t] is Closed,
{
}

/// Cancellation is final, over any whole trace: once a submitter has
/// dropped its receiver, no sequence of events whatsoever puts a value
/// on that channel. The loop itself is not stopped: every later event
/// remains as enabled as it was.
pub proof fn lemma_closed_forever(m: DispatcherModel, evs: Seq<Event>, t: int)
    requires
        wf_model(m),
        valid_trace(m, evs),
        0 <= t < m.channels.len(),
        m.channels[t] is Closed,
    ensures
        run(m, evs).channels[t] is Closed,
    decreases evs.len(),
{
    if evs.len() > 0 {
        let m1 = next(m, evs[0]);
        lemma_wf_preserved(m, evs[0]);
        lemma_channels_grow(m, evs[0]);
        lemma_closed_stays_closed(m, evs[0], t);
        lemma_closed_forever(m1, evs.skip(1), t);
    }
}

/// A one-shot channel carries at most one value: after a value was sent,
/// any enabled event leaves exactly that value in place, or consumes it —
/// through a read of that very channel — never replaces it and never
/// returns the channel to `Waiting`.
pub proof fn lemma_sent_is_final(m: DispatcherModel, e: Event, t: int)
    requires
        wf_model(m),
        enabled(m, e),
        0 <= t < m.channels.len(),
        m.channels[t] is Sent,
    ensures
        next(m, e).channels[t] == m.channels[t] || (e == Event::Read(t) && next(m, e).channels[t]
            is Consumed),
{
    match e {
        Event::Step(_) => {
            assert(m.queue[0].ticket != t);
        },
        _ => {},
    }
}

/// A consumed channel stays consumed: the single value cannot be read, or
/// delivered, twice.
pub proof fn lemma_consumed_stays_consumed(m: DispatcherModel, e: Event, t: int)
    requires
        wf_model(m),
        enabled(m, e),
        0 <= t < m.channels.len(),
        m.channels[t] is Consumed,
    ensures
        next(m, e).channels[t] is Consumed,
{
    match e {
        Event::Step(_) => {
            assert(m.queue[0].ticket != t);
        },
        _ => {},
    }
}

/// The one-shot discipline over any whole trace: from the moment a value
/// was sent on a channel, every later state shows exactly that value on
/// it, or shows it consumed — after its receiver's read — and then
/// consumed for good. No channel ever carries a second value.
pub proof fn lemma_at_most_one_value(m: DispatcherModel, evs: Seq<Event>, t: int)
    requires
        wf_model(m),
        valid_trace(m, evs),
        0 <= t < m.channels.len(),
        m.channels[t] is Sent,
    ensures
        run(m, evs).channels[t] == m.channels[t] || run(m, evs).channels[t] is Consumed,
    decreases evs.len(),
{
    if evs.len() > 0 {
        let m1 = next(m, evs[0]);
        lemma_wf_preserved(m, evs[0]);
        lemma_channels_grow(m, evs[0]);
        lemma_sent_is_final(m, evs[0], t);
        if m1.channels[t] is Consumed {
            lemma_consumed_forever(m1, evs.skip(1), t);
        } else {
            lemma_at_most_one_value(m1, evs.skip(1), t);
        }
    }
}

/// A consumed channel stays consumed over any whole trace.
pub proof fn lemma_consumed_forever(m: DispatcherModel, evs: Seq<Event>, t: int)
    requires
        wf_model(m),
        valid_trace(m, evs),
        0 <= t < m.channels.len(),
        m.channels[t] is Consumed,
    ensures
        run(m, evs).channels[t] is Consumed,
    decreases evs.len(),
{
    if evs.len() > 0 {
        let m1 = next(m, evs[0]);
        lemma_wf_preserved(m, evs[0]);
        lemma_channels_grow(m, evs[0]);
        lemma_consumed_stays_consumed(m, evs[0], t);
        lemma_consumed_forever(m1, evs.skip(1), t);
    }
}

/// FIFO: a run of loop turns resolves entries strictly in submission
/// order. After `evs.len()` consecutive steps exactly the first
/// `evs.len()` entries — and no others — have left the queue, front
/// first; the rest stand unmoved. Such a run is always enabled: the loop
/// never gets stuck on any entry's outcome.
pub proof fn lemma_fifo(m: DispatcherModel, evs: Seq<Event>)
    requires
        wf_model(m),
        forall|i: int| 0 <= i < evs.len() ==> evs[i] is Step,
        evs.len() <= m.queue.len(),
    ensures
        valid_trace(m, evs),
        run(m, evs).queue == m.queue.skip(evs.len() as int),
        run(m, evs).closed == m.closed,
        wf_model(run(m, evs)),
    decreases evs.len(),
{
    if evs.len() == 0 {
        assert(run(m, evs).queue =~= m.queue.skip(0));
    } else {
        let m1 = next(m, evs[0]);
        lemma_wf_preserved(m, evs[0]);
        assert(m1.queue == m.queue.subrange(1, m.queue.len() as int));
        lemma_fifo(m1, evs.skip(1));
        assert(run(m1, evs.skip(1)).queue == m1.queue.skip(evs.len() - 1));
        assert(m1.queue.skip(evs.len() - 1) =~= m.queue.skip(evs.len() as int));
    }
}

/// Closure is permanent and stops all submission: once the queue is
/// closed, no enabled event is a submission, and every enabled event
/// leaves the queue closed.
pub proof fn lemma_close_is_permanent(m: DispatcherModel, e: Event)
    requires
        wf_model(m),
        enabled(m, e),
        m.closed,
    ensures
        next(m, e).closed,
        !(e is Submit),
{
}

/// The loop's clean exit: with the queue closed, draining the remaining
/// entries — one step each, whatever their outcomes — always ends in the
/// terminated state.
pub proof fn lemma_closed_queue_drains_to_termination(m: DispatcherModel, evs: Seq<Event>)
    requires
        wf_model(m),
        m.closed,
        forall|i: int| 0 <= i < evs.len() ==> evs[i] is Step,
        evs.len() == m.queue.len(),
    ensures
        valid_trace(m, evs),
        terminated(run(m, evs)),
{
    lemma_fifo(m, evs);
}

/// Round trip: submitting a request to an idle dispatcher and letting the
/// loop take its turn delivers exactly one result — the classification of
/// the call's outcome — on the submitter's own channel, and empties the
/// queue again.
pub proof fn lemma_round_trip(m: DispatcherModel, request: Request, outcome: HttpOutcome)
    requires
        wf_model(m),
        !m.closed,
        m.queue.len() == 0,
        m.channels.len() < usize::MAX,
    ensures
        ({
            let t = m.channels.len() as int;
            let after = step_model(submit_model(m, request), outcome);
            &&& after.channels[t] == ChannelState::Sent(outcome_result(outcome))
            &&& after.queue.len() == 0
            &&& wf_model(after)
        }),
{
    let s1 = submit_model(m, request);
    lemma_submit_preserves_wf(m, request);
    lemma_step_preserves_wf(s1, outcome);
}

} // verus!
