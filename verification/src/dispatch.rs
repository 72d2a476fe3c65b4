//! The request queue, the one-shot result channels and the dispatch loop,
//! as a state machine.
//!
//! A `Dispatcher` holds the FIFO queue of pending entries and the state of
//! every result channel ever handed out, indexed by ticket. Submission
//! appends an entry and a fresh `Waiting` channel and never fails, whatever
//! the queue depth. One `step` resolves exactly the front entry: if its
//! channel is still `Waiting` the classified outcome is sent into it; if
//! the submitter already dropped its receiver (`Closed`) no value is ever
//! produced for that entry. A channel carries at most one value: it moves
//! from `Waiting` to `Sent` at most once, and from `Sent` only to
//! `Consumed` when the receiver reads the value.
//!
//! The awaiting itself — the next queue entry, the HTTP call, the
//! receiver-drop signal — is outside work; the surrounding process drives
//! this machine with the events it observes.

use vstd::prelude::*;

use crate::rest::{DispatchResult, HttpOutcome, Request, outcome_result, outcome_to_result};

verus! {

/// A queued pair: the request and the ticket of the one-shot channel its
/// result will be delivered through. Exactly one step ever resolves a
/// given entry.
#[derive(Debug)]
pub struct QueueEntry {
    pub request: Request,
    pub ticket: usize,
}

/// The state of one one-shot result channel.
#[derive(Debug)]
pub enum ChannelState {
    /// The receiver is waiting; nothing has been sent.
    Waiting,
    /// Exactly one value was sent and has not yet been read.
    Sent(DispatchResult),
    /// The single value was read by the receiver.
    Consumed,
    /// The receiver was dropped before a value was sent: the cancellation
    /// signal. No value is ever delivered through this channel.
    Closed,
}

/// The mathematical state of a dispatcher: the pending queue in FIFO
/// order, every channel ever created, indexed by ticket, and whether the
/// queue has been closed by the last producer handle going away.
pub ghost struct DispatcherModel {
    pub queue: Seq<QueueEntry>,
    pub channels: Seq<ChannelState>,
    pub closed: bool,
}

/// The one normal exit of the dispatch loop: the queue was closed — every
/// producer handle dropped — and the remaining entries are drained. There
/// is no explicit stop signal.
pub open spec fn terminated(m: DispatcherModel) -> bool {
    m.closed && m.queue.len() == 0
}

/// A channel an entry may still be queued on: no value has been sent yet.
pub open spec fn unresolved(c: ChannelState) -> bool {
    c is Waiting || c is Closed
}

/// Well-formedness: every queued ticket names a channel; queued tickets
/// are strictly increasing (so entries sit in submission order and no two
/// entries share a channel); and a queued entry's channel has not been
/// resolved yet.
pub open spec fn wf_model(m: DispatcherModel) -> bool {
    &&& forall|i: int|
        0 <= i < m.queue.len() ==> (#[trigger] m.queue[i]).ticket < m.channels.len()
    &&& forall|i: int, j: int|
        #![trigger m.queue[i], m.queue[j]]
        0 <= i < j < m.queue.len() ==> m.queue[i].ticket < m.queue[j].ticket
    &&& forall|i: int|
        0 <= i < m.queue.len() ==> unresolved(m.channels[(#[trigger] m.queue[i]).ticket as int])
}

/// Submission: push the entry at the back of the queue, with a fresh
/// `Waiting` channel whose ticket is the next index.
pub open spec fn submit_model(m: DispatcherModel, request: Request) -> DispatcherModel {
    DispatcherModel {
        queue: m.queue.push(QueueEntry { request, ticket: m.channels.len() as usize }),
        channels: m.channels.push(ChannelState::Waiting),
        ..m
    }
}

/// The last producer handle is dropped: the queue is closed for good. No
/// further entry can arrive; what is already queued is still drained.
pub open spec fn close_model(m: DispatcherModel) -> DispatcherModel {
    DispatcherModel { closed: true, ..m }
}

/// Cancellation: the submitter drops its receiver, closing the channel.
/// The queue is untouched; the loop discovers the closed channel when the
/// entry reaches the front.
pub open spec fn drop_receiver_model(m: DispatcherModel, ticket: int) -> DispatcherModel {
    DispatcherModel { channels: m.channels.update(ticket, ChannelState::Closed), ..m }
}

/// One turn of the dispatch loop: the front entry leaves the queue; its
/// channel receives the classified outcome if the receiver is still
/// waiting, and is left untouched if it was already closed.
pub open spec fn step_model(m: DispatcherModel, outcome: HttpOutcome) -> DispatcherModel {
    let t = m.queue[0].ticket as int;
    DispatcherModel {
        queue: m.queue.subrange(1, m.queue.len() as int),
        channels: if m.channels[t] is Waiting {
            m.channels.update(t, ChannelState::Sent(outcome_result(outcome)))
        } else {
            m.channels
        },
        ..m
    }
}

/// The receiver reads: a sent value is consumed; any other state is left
/// as it is.
pub open spec fn read_model(m: DispatcherModel, ticket: int) -> DispatcherModel {
    if m.channels[ticket] is Sent {
        DispatcherModel { channels: m.channels.update(ticket, ChannelState::Consumed), ..m }
    } else {
        m
    }
}

/// Submission preserves well-formedness: the fresh ticket is larger than
/// every queued one, and its channel starts out `Waiting`.
pub proof fn lemma_submit_preserves_wf(m: DispatcherModel, request: Request)
    requires
        wf_model(m),
        m.channels.len() < usize::MAX,
    ensures
        wf_model(submit_model(m, request)),
{
    let post = submit_model(m, request);
    assert forall|i: int| 0 <= i < post.queue.len() implies (#[trigger] post.queue[i]).ticket
        < post.channels.len() by {
        if i < m.queue.len() {
            assert(post.queue[i] == m.queue[i]);
        }
    }
    assert forall|i: int|
        0 <= i < post.queue.len() implies unresolved(
        post.channels[(#[trigger] post.queue[i]).ticket as int],
    ) by {
        if i < m.queue.len() {
            assert(post.queue[i] == m.queue[i]);
            assert(post.channels[post.queue[i].ticket as int]
                == m.channels[m.queue[i].ticket as int]);
        }
    }
}

/// Closing a channel preserves well-formedness: `Closed` is still an
/// unresolved state.
pub proof fn lemma_drop_preserves_wf(m: DispatcherModel, ticket: int)
    requires
        wf_model(m),
        0 <= ticket < m.channels.len(),
    ensures
        wf_model(drop_receiver_model(m, ticket)),
{
}

/// A step preserves well-formedness: the resolved ticket leaves the queue,
/// and no other queued ticket shares its channel.
pub proof fn lemma_step_preserves_wf(m: DispatcherModel, outcome: HttpOutcome)
    requires
        wf_model(m),
        m.queue.len() > 0,
    ensures
        wf_model(step_model(m, outcome)),
{
    let post = step_model(m, outcome);
    let t = m.queue[0].ticket as int;
    assert forall|i: int|
        0 <= i < post.queue.len() implies unresolved(
        post.channels[(#[trigger] post.queue[i]).ticket as int],
    ) by {
        assert(post.queue[i] == m.queue[i + 1]);
        assert(m.queue[0].ticket < m.queue[i + 1].ticket);
    }
    assert forall|i: int| 0 <= i < post.queue.len() implies (#[trigger] post.queue[i]).ticket
        < post.channels.len() by {
        assert(post.queue[i] == m.queue[i + 1]);
    }
}

/// A read preserves well-formedness: it touches only a `Sent` channel, and
/// a `Sent` channel is never still queued.
pub proof fn lemma_read_preserves_wf(m: DispatcherModel, ticket: int)
    requires
        wf_model(m),
        0 <= ticket < m.channels.len(),
    ensures
        wf_model(read_model(m, ticket)),
{
    let post = read_model(m, ticket);
    if m.channels[ticket] is Sent {
        assert forall|i: int|
            0 <= i < post.queue.len() implies unresolved(
            post.channels[(#[trigger] post.queue[i]).ticket as int],
        ) by {
            assert(unresolved(m.channels[m.queue[i].ticket as int]));
        }
    }
}

/// The dispatcher: the sole consumer of the queue and the sole holder of
/// the HTTP client. All channel states live here, indexed by ticket.
pub struct Dispatcher {
    queue: Vec<QueueEntry>,
    channels: Vec<ChannelState>,
    closed: bool,
}

impl View for Dispatcher {
    type V = DispatcherModel;

    closed spec fn view(&self) -> DispatcherModel {
        DispatcherModel { queue: self.queue@, channels: self.channels@, closed: self.closed }
    }
}

impl Dispatcher {
    pub open spec fn wf(&self) -> bool {
        wf_model(self@)
    }

    /// A fresh dispatcher: empty queue, no channels yet, open for
    /// submissions.
    pub fn new() -> (d: Dispatcher)
        ensures
            d.wf(),
            d@.queue == Seq::<QueueEntry>::empty(),
            d@.channels == Seq::<ChannelState>::empty(),
            !d@.closed,
    {
        Dispatcher { queue: Vec::new(), channels: Vec::new(), closed: false }
    }

    /// Submit a request: enqueue it behind every earlier entry with a
    /// fresh `Waiting` one-shot channel, and hand the caller its ticket.
    /// There is no capacity bound and no failure path: a producer is never
    /// blocked, whatever the queue depth. Submitting needs a live producer
    /// handle, so it cannot happen once the queue is closed.
    pub fn submit(&mut self, request: Request) -> (ticket: usize)
        requires
            old(self).wf(),
            !old(self)@.closed,
            old(self)@.channels.len() < usize::MAX,
        ensures
            final(self).wf(),
            final(self)@ == submit_model(old(self)@, request),
            ticket == old(self)@.channels.len(),
            final(self)@.channels[ticket as int] is Waiting,
            final(self)@.queue.len() == old(self)@.queue.len() + 1,
    {
        proof {
            lemma_submit_preserves_wf(self@, request);
        }
        let ticket = self.channels.len();
        self.channels.push(ChannelState::Waiting);
        self.queue.push(QueueEntry { request, ticket });
        ticket
    }

    /// The submitter abandons interest: close the channel of a still
    /// pending entry. This is the sole cancellation mechanism; the queue
    /// itself is untouched.
    pub fn drop_receiver(&mut self, ticket: usize)
        requires
            old(self).wf(),
            ticket < old(self)@.channels.len(),
            old(self)@.channels[ticket as int] is Waiting,
        ensures
            final(self).wf(),
            final(self)@ == drop_receiver_model(old(self)@, ticket as int),
    {
        proof {
            lemma_drop_preserves_wf(self@, ticket as int);
        }
        self.channels[ticket] = ChannelState::Closed;
    }

    /// One turn of the dispatch loop: take the front entry — strictly the
    /// oldest — and resolve it. If the submitter is still waiting, the
    /// outcome of its HTTP call is classified and sent as the channel's
    /// single value; if the receiver is gone, the entry is abandoned and
    /// no value is ever produced. Either way the entry is finished before
    /// the next one can begin: no two executions overlap.
    pub fn step(&mut self, outcome: HttpOutcome) -> (delivered: bool)
        requires
            old(self).wf(),
            old(self)@.queue.len() > 0,
        ensures
            final(self).wf(),
            final(self)@ == step_model(old(self)@, outcome),
            delivered == (old(self)@.channels[old(self)@.queue[0].ticket as int] is Waiting),
    {
        proof {
            lemma_step_preserves_wf(self@, outcome);
        }
        let entry = self.queue.remove(0);
        let waiting = match self.channels[entry.ticket] {
            ChannelState::Waiting => true,
            _ => false,
        };
        if waiting {
            let result = outcome_to_result(outcome);
            self.channels[entry.ticket] = ChannelState::Sent(result);
            true
        } else {
            false
        }
    }

    /// The receiver's read of its one-shot channel: the sent value, if one
    /// is there, is handed out exactly once; a channel that has nothing to
    /// deliver is left unchanged and yields nothing.
    pub fn try_read(&mut self, ticket: usize) -> (r: Option<DispatchResult>)
        requires
            old(self).wf(),
            ticket < old(self)@.channels.len(),
        ensures
            final(self).wf(),
            final(self)@ == read_model(old(self)@, ticket as int),
            old(self)@.channels[ticket as int] matches ChannelState::Sent(v) ==> r == Some(v),
            !(old(self)@.channels[ticket as int] is Sent) ==> r is None,
    {
        proof {
            lemma_read_preserves_wf(self@, ticket as int);
        }
        let current = self.channels.remove(ticket);
        match current {
            ChannelState::Sent(v) => {
                self.channels.insert(ticket, ChannelState::Consumed);
                proof {
                    assert(self.channels@ =~= old(self).channels@.update(
                        ticket as int,
                        ChannelState::Consumed,
                    ));
                }
                Some(v)
            },
            other => {
                self.channels.insert(ticket, other);
                proof {
                    assert(self.channels@ =~= old(self).channels@);
                }
                None
            },
        }
    }

    /// The last producer handle goes away: the queue is closed for good.
    /// Nothing new can arrive; the entries already queued are still
    /// drained, one step at a time.
    pub fn close(&mut self)
        requires
            old(self).wf(),
        ensures
            final(self).wf(),
            final(self)@ == close_model(old(self)@),
            final(self)@.closed,
    {
        self.closed = true;
    }

    /// Whether the loop has reached its one normal exit: the queue closed
    /// and drained.
    pub fn is_terminated(&self) -> (r: bool)
        ensures
            r == terminated(self@),
    {
        self.closed && self.queue.len() == 0
    }

    /// How many entries are pending.
    pub fn queue_len(&self) -> (n: usize)
        ensures
            n == self@.queue.len(),
    {
        self.queue.len()
    }

    /// How many channels were ever created: the next ticket.
    pub fn channel_count(&self) -> (n: usize)
        ensures
            n == self@.channels.len(),
    {
        self.channels.len()
    }
}

} // verus!
