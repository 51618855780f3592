//! Streams whose transport delivers whole messages (RPC server streaming): no line
//! buffer or framing, each message maps straight onto normalized events.

use vstd::prelude::*;
use crate::normalize::{FinishCode, NormalizedEvent, StreamErrorKind, is_terminal, text_part, usage_part};
use crate::proto::{finish_reason_of_code, proto_finish_reason_to_core};
use crate::types::Usage;

verus! {

/// One message of an RPC stream.
#[derive(Debug, Clone, PartialEq, Eq)]
pub struct StreamMessage {
    /// The text this message adds.
    pub content: String,
    /// Whether this is the last message.
    pub is_final: bool,
    /// Token counts, usually only in the last message.
    pub usage: Option<Usage>,
    /// The RPC code of the finish reason, usually only in the last message.
    pub finish_reason: Option<i32>,
}

/// The events of one message, and whether they end the stream: its text (if not
/// empty), usage, finish reason, and `StreamEnd` if it is the last.
pub open spec fn message_events(m: StreamMessage) -> (Seq<NormalizedEvent>, bool) {
    (
        text_part(Some(m.content)) + usage_part(m.usage) + match m.finish_reason {
            Some(code) => seq![NormalizedEvent::FinishReason(FinishCode::Known(finish_reason_of_code(code)))],
            None => seq![],
        } + if m.is_final {
            seq![NormalizedEvent::StreamEnd]
        } else {
            seq![]
        },
        m.is_final,
    )
}

/// Maps one message onto normalized events; the flag says whether they end the stream.
pub fn message_to_events(m: StreamMessage) -> (r: (Vec<NormalizedEvent>, bool))
    ensures
        r.0@ == message_events(m).0,
        r.1 == message_events(m).1,
{
    let ghost m0 = m;
    let mut out: Vec<NormalizedEvent> = Vec::new();
    let StreamMessage { content, is_final, usage, finish_reason } = m;
    if content.unicode_len() > 0 {
        out.push(NormalizedEvent::ContentDelta(content));
    }
    if let Some(u) = usage {
        out.push(NormalizedEvent::UsageFinal(u));
    }
    if let Some(code) = finish_reason {
        out.push(NormalizedEvent::FinishReason(FinishCode::Known(proto_finish_reason_to_core(code))));
    }
    if is_final {
        out.push(NormalizedEvent::StreamEnd);
    }
    assert(out@ =~= message_events(m0).0);
    (out, is_final)
}

/// The state of a message stream: the events emitted so far and whether it has ended.
pub struct MessageStreamView {
    pub done: bool,
    pub emitted: Seq<NormalizedEvent>,
}

/// One message more; nothing changes after the end.
pub open spec fn message_step(st: MessageStreamView, m: StreamMessage) -> MessageStreamView {
    if st.done {
        st
    } else {
        MessageStreamView { done: message_events(m).1, emitted: st.emitted + message_events(m).0 }
    }
}

/// A failed transport, or a message that could not be read: the stream ends with an error.
pub open spec fn message_error_step(st: MessageStreamView, message: String) -> MessageStreamView {
    if st.done {
        st
    } else {
        MessageStreamView {
            done: true,
            emitted: st.emitted.push(NormalizedEvent::StreamError(StreamErrorKind::Network, Some(message))),
        }
    }
}

/// The transport closed: the stream ends with `StreamEnd` unless it has ended.
pub open spec fn message_end_step(st: MessageStreamView) -> MessageStreamView {
    if st.done {
        st
    } else {
        MessageStreamView { done: true, emitted: st.emitted.push(NormalizedEvent::StreamEnd) }
    }
}

/// Whether no event but the last one ends the stream, and the stream counts as ended
/// exactly when the last one does.
pub open spec fn message_terminal_only_at_end(st: MessageStreamView) -> bool {
    &&& forall|i: int| 0 <= i < st.emitted.len() - 1 ==> !is_terminal(#[trigger] st.emitted[i])
    &&& st.done <==> (st.emitted.len() > 0 && is_terminal(st.emitted.last()))
}

/// Single terminal event for message streams: the property is kept by every step.
pub proof fn message_stream_single_terminal(st: MessageStreamView, m: StreamMessage, message: String)
    requires
        message_terminal_only_at_end(st),
    ensures
        message_terminal_only_at_end(message_step(st, m)),
        message_terminal_only_at_end(message_error_step(st, message)),
        message_terminal_only_at_end(message_end_step(st)),
{
    if !st.done {
        let (e, t) = message_events(m);
        let body = text_part(Some(m.content)) + usage_part(m.usage) + match m.finish_reason {
            Some(code) => seq![NormalizedEvent::FinishReason(FinishCode::Known(finish_reason_of_code(code)))],
            None => seq![],
        };
        let all = st.emitted + e;
        assert forall|i: int| 0 <= i < body.len() implies !is_terminal(#[trigger] body[i]) by {}
        assert forall|i: int| 0 <= i < all.len() - 1 implies !is_terminal(#[trigger] all[i]) by {
            if i >= st.emitted.len() {
                assert(all[i] == e[i - st.emitted.len()]);
                if t {
                    assert(e == body.push(NormalizedEvent::StreamEnd));
                } else {
                    assert(e == body);
                }
            }
        }
        if t {
            assert(e == body.push(NormalizedEvent::StreamEnd));
            assert(all.last() == NormalizedEvent::StreamEnd);
        } else {
            assert(e == body);
            if all.len() > 0 {
                if e.len() > 0 {
                    assert(all[all.len() - 1] == e[e.len() - 1]);
                } else {
                    assert(all == st.emitted);
                }
            }
        }
    }
}

/// Decodes one RPC stream.
pub struct MessageStreamDecoder {
    done: bool,
    emitted: Ghost<Seq<NormalizedEvent>>,
}

impl View for MessageStreamDecoder {
    type V = MessageStreamView;

    closed spec fn view(&self) -> MessageStreamView {
        MessageStreamView { done: self.done, emitted: self.emitted@ }
    }
}

impl MessageStreamDecoder {
    /// A decoder for a fresh stream.
    pub fn new() -> (r: MessageStreamDecoder)
        ensures
            r@ == (MessageStreamView { done: false, emitted: Seq::empty() }),
    {
        MessageStreamDecoder { done: false, emitted: Ghost(Seq::empty()) }
    }

    /// Whether the stream has ended.
    pub fn is_done(&self) -> (r: bool)
        ensures
            r == self@.done,
    {
        self.done
    }

    /// Takes one message and returns its events.
    pub fn on_message(&mut self, m: StreamMessage) -> (r: Vec<NormalizedEvent>)
        ensures
            final(self)@ == message_step(old(self)@, m),
            final(self)@.emitted == old(self)@.emitted + r@,
    {
        if self.done {
            assert(old(self)@.emitted + Seq::<NormalizedEvent>::empty() =~= old(self)@.emitted);
            return Vec::new();
        }
        let ghost m0 = m;
        let (events, t) = message_to_events(m);
        self.done = t;
        proof {
            self.emitted@ = self.emitted@ + events@;
        }
        assert(self@ == message_step(old(self)@, m0));
        events
    }

    /// The transport failed with `message`.
    pub fn on_error(&mut self, message: String) -> (r: Vec<NormalizedEvent>)
        ensures
            final(self)@ == message_error_step(old(self)@, message),
            final(self)@.emitted == old(self)@.emitted + r@,
    {
        if self.done {
            assert(old(self)@.emitted + Seq::<NormalizedEvent>::empty() =~= old(self)@.emitted);
            return Vec::new();
        }
        let ev = NormalizedEvent::StreamError(StreamErrorKind::Network, Some(message));
        self.done = true;
        proof {
            self.emitted@ = self.emitted@.push(ev);
        }
        let out = vec![ev];
        assert(self@.emitted =~= old(self)@.emitted + out@);
        out
    }

    /// The transport closed.
    pub fn on_end(&mut self) -> (r: Vec<NormalizedEvent>)
        ensures
            final(self)@ == message_end_step(old(self)@),
            final(self)@.emitted == old(self)@.emitted + r@,
    {
        if self.done {
            assert(old(self)@.emitted + Seq::<NormalizedEvent>::empty() =~= old(self)@.emitted);
            return Vec::new();
        }
        self.done = true;
        proof {
            self.emitted@ = self.emitted@.push(NormalizedEvent::StreamEnd);
        }
        let out = vec![NormalizedEvent::StreamEnd];
        assert(self@.emitted =~= old(self)@.emitted + out@);
        out
    }
}

} // verus!
