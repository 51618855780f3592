//! The decisions of the task that owns one stream: read more, hand an event to the
//! consumer, or exit. The task itself (network reads, the channel) runs outside; it
//! reports what happened and asks what to do next.

use vstd::prelude::*;
use crate::framing::Framing;
use crate::guarantees::terminal_only_at_end;
use crate::normalize::{NormalizedEvent, is_terminal};
use crate::pipeline::{DecoderView, StreamDecoder, bytes_run, byte_step, eof_step, error_step, initial};

verus! {

/// What the task does next.
#[derive(Debug, Clone, PartialEq, Eq)]
pub enum TaskAction {
    /// Wait for the next chunk from the transport.
    Read,
    /// Send this event to the consumer, then ask again.
    Deliver(NormalizedEvent),
    /// Stop: release the connection and end the task.
    Exit,
}

/// The state of a stream task.
pub struct TaskView {
    pub decoder: DecoderView,
    /// Whether the consumer has gone away.
    pub cancelled: bool,
    /// The events handed out for delivery so far, in order.
    pub handed_out: Seq<NormalizedEvent>,
}

/// The events decoded but not yet handed out.
pub open spec fn backlog(tv: TaskView) -> Seq<NormalizedEvent> {
    tv.decoder.emitted.subrange(tv.handed_out.len() as int, tv.decoder.emitted.len() as int)
}

/// Asking for the next action: exit once the consumer is gone; else hand out the oldest
/// undelivered event; else exit once the stream has ended; else read.
pub open spec fn pull(tv: TaskView) -> (TaskView, TaskAction) {
    if tv.cancelled {
        (tv, TaskAction::Exit)
    } else if backlog(tv).len() > 0 {
        (
            TaskView { handed_out: tv.handed_out.push(backlog(tv)[0]), ..tv },
            TaskAction::Deliver(backlog(tv)[0]),
        )
    } else if tv.decoder.done {
        (tv, TaskAction::Exit)
    } else {
        (tv, TaskAction::Read)
    }
}

/// Something the task reports, or its request for the next action.
pub enum TaskStep {
    /// A chunk of bytes arrived.
    Chunk(Seq<u8>),
    /// The transport failed with this message.
    Failure(String),
    /// The transport has no more data.
    End,
    /// The consumer's end of the channel is closed.
    Gone,
    /// The task asks what to do next.
    Pull,
}

/// The state after one step. Once the consumer is gone the decoder is left alone.
pub open spec fn task_step(tv: TaskView, step: TaskStep) -> TaskView {
    match step {
        TaskStep::Chunk(c) => if tv.cancelled {
            tv
        } else {
            TaskView { decoder: bytes_run(tv.decoder, c), ..tv }
        },
        TaskStep::Failure(m) => if tv.cancelled {
            tv
        } else {
            TaskView { decoder: error_step(tv.decoder, m), ..tv }
        },
        TaskStep::End => if tv.cancelled {
            tv
        } else {
            TaskView { decoder: eof_step(tv.decoder), ..tv }
        },
        TaskStep::Gone => TaskView { cancelled: true, ..tv },
        TaskStep::Pull => pull(tv).0,
    }
}

/// The state after a sequence of steps.
pub open spec fn task_run(tv: TaskView, steps: Seq<TaskStep>) -> TaskView
    decreases steps.len(),
{
    if steps.len() == 0 {
        tv
    } else {
        task_step(task_run(tv, steps.drop_last()), steps.last())
    }
}

/// Cancellation: once the consumer is gone, whatever happens next, the task hands out
/// nothing more, reads nothing more, and its only action is to exit.
pub proof fn cancelled_task_only_exits(tv: TaskView, steps: Seq<TaskStep>)
    requires
        tv.cancelled,
    ensures
        task_run(tv, steps) == tv,
        pull(task_run(tv, steps)).1 == TaskAction::Exit,
    decreases steps.len(),
{
    if steps.len() > 0 {
        cancelled_task_only_exits(tv, steps.drop_last());
    }
}

proof fn lemma_byte_step_grows(st: DecoderView, b: u8)
    ensures
        st.emitted.is_prefix_of(byte_step(st, b).emitted),
{
    let n = byte_step(st, b);
    assert(n.emitted.subrange(0, st.emitted.len() as int) =~= st.emitted);
}

/// Decoded events are never withdrawn: feeding more bytes only appends to them.
pub proof fn lemma_emitted_grows(st: DecoderView, bytes: Seq<u8>)
    ensures
        st.emitted.is_prefix_of(bytes_run(st, bytes).emitted),
        bytes_run(st, bytes).framing == st.framing,
        bytes_run(st, bytes).max_line == st.max_line,
    decreases bytes.len(),
{
    if bytes.len() > 0 {
        lemma_emitted_grows(st, bytes.drop_last());
        lemma_byte_step_grows(bytes_run(st, bytes.drop_last()), bytes.last());
    }
}

/// Drives the decoding of one stream and decides what its task does next.
pub struct StreamTask {
    decoder: StreamDecoder,
    outbox: Vec<NormalizedEvent>,
    cancelled: bool,
    handed_out: Ghost<Seq<NormalizedEvent>>,
}

impl View for StreamTask {
    type V = TaskView;

    closed spec fn view(&self) -> TaskView {
        TaskView { decoder: self.decoder@, cancelled: self.cancelled, handed_out: self.handed_out@ }
    }
}

impl StreamTask {
    /// Whether the undelivered events are held in order.
    pub closed spec fn wf(&self) -> bool {
        &&& self.handed_out@.is_prefix_of(self.decoder@.emitted)
        &&& !self.cancelled ==> self.outbox@ == backlog(self@)
    }

    /// A task for a fresh stream in `framing`, with lines of up to `max_line` bytes.
    pub fn new(framing: Framing, max_line: usize) -> (r: StreamTask)
        ensures
            r.wf(),
            r@ == (TaskView {
                decoder: initial(framing, max_line as nat),
                cancelled: false,
                handed_out: Seq::empty(),
            }),
    {
        let r = StreamTask {
            decoder: StreamDecoder::new(framing, max_line),
            outbox: Vec::new(),
            cancelled: false,
            handed_out: Ghost(Seq::empty()),
        };
        assert(r.outbox@ =~= backlog(r@));
        r
    }

    /// Queues newly decoded events behind the undelivered ones.
    fn enqueue(&mut self, mut events: Vec<NormalizedEvent>, Ghost(before): Ghost<DecoderView>)
        requires
            old(self).handed_out@.is_prefix_of(before.emitted),
            !old(self).cancelled ==> old(self).outbox@ == before.emitted.subrange(
                old(self).handed_out@.len() as int,
                before.emitted.len() as int,
            ),
            old(self).decoder@.emitted == before.emitted + events@,
        ensures
            final(self).wf(),
            final(self)@ == old(self)@,
    {
        let ghost h = self.handed_out@;
        let ghost e = events@;
        self.outbox.append(&mut events);
        proof {
            let all = self.decoder@.emitted;
            assert(all.subrange(0, h.len() as int) =~= before.emitted.subrange(0, h.len() as int));
            if !self.cancelled {
                assert(self.outbox@ =~= all.subrange(h.len() as int, all.len() as int));
            }
        }
    }

    /// A chunk of bytes arrived from the transport.
    pub fn on_chunk(&mut self, chunk: &[u8])
        requires
            old(self).wf(),
        ensures
            final(self).wf(),
            final(self)@ == task_step(old(self)@, TaskStep::Chunk(chunk@)),
    {
        if self.cancelled {
            return;
        }
        let ghost before = self.decoder@;
        let events = self.decoder.feed(chunk);
        self.enqueue(events, Ghost(before));
    }

    /// The transport failed with `message`.
    pub fn on_failure(&mut self, message: String)
        requires
            old(self).wf(),
        ensures
            final(self).wf(),
            final(self)@ == task_step(old(self)@, TaskStep::Failure(message)),
    {
        if self.cancelled {
            return;
        }
        let ghost before = self.decoder@;
        let events = self.decoder.fail(message);
        self.enqueue(events, Ghost(before));
    }

    /// The transport has no more data.
    pub fn on_end(&mut self)
        requires
            old(self).wf(),
        ensures
            final(self).wf(),
            final(self)@ == task_step(old(self)@, TaskStep::End),
    {
        if self.cancelled {
            return;
        }
        let ghost before = self.decoder@;
        let events = self.decoder.finish();
        self.enqueue(events, Ghost(before));
    }

    /// The consumer's end of the channel is closed: a delivery failed.
    pub fn on_consumer_gone(&mut self)
        requires
            old(self).wf(),
        ensures
            final(self).wf(),
            final(self)@ == task_step(old(self)@, TaskStep::Gone),
    {
        self.cancelled = true;
        self.outbox = Vec::new();
    }

    /// What to do next; an event handed out is gone from the queue.
    pub fn next_action(&mut self) -> (r: TaskAction)
        requires
            old(self).wf(),
        ensures
            final(self).wf(),
            (final(self)@, r) == pull(old(self)@),
    {
        if self.cancelled {
            return TaskAction::Exit;
        }
        if self.outbox.len() > 0 {
            let ev = self.outbox.remove(0);
            proof {
                let all = self.decoder@.emitted;
                let h = self.handed_out@;
                assert(all[h.len() as int] == ev);
                self.handed_out@ = h.push(ev);
                assert(self.handed_out@ =~= all.subrange(0, h.len() as int + 1));
                assert(self.outbox@ =~= all.subrange(h.len() as int + 1, all.len() as int));
            }
            return TaskAction::Deliver(ev);
        }
        if self.decoder.is_done() {
            TaskAction::Exit
        } else {
            TaskAction::Read
        }
    }
}

/// The consumer receives exactly the decoded events, in the order they were decoded:
/// what has been handed out is always a prefix of what the decoder emitted.
pub proof fn delivery_keeps_order(task: &StreamTask)
    requires
        task.wf(),
    ensures
        task@.handed_out.is_prefix_of(task@.decoder.emitted),
{
}


/// Exactly one terminal event reaches the consumer, as the last: once a terminal event
/// has been handed out, none was handed out before it and the task's next action is to
/// exit.
pub proof fn terminal_delivery_is_last(tv: TaskView)
    requires
        tv.handed_out.is_prefix_of(tv.decoder.emitted),
        terminal_only_at_end(tv.decoder),
        tv.handed_out.len() > 0,
        is_terminal(tv.handed_out.last()),
    ensures
        forall|i: int| 0 <= i < tv.handed_out.len() - 1 ==> !is_terminal(#[trigger] tv.handed_out[i]),
        pull(tv).1 == TaskAction::Exit,
{
    let h = tv.handed_out;
    let e = tv.decoder.emitted;
    assert(h[h.len() - 1] == e[h.len() - 1]);
    assert(h.len() == e.len());
    assert forall|i: int| 0 <= i < h.len() - 1 implies !is_terminal(#[trigger] h[i]) by {
        assert(h[i] == e[i]);
    }
    assert(backlog(tv).len() == 0);
}

} // verus!
