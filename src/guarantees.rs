//! What holds of every stream the decoder reads, whatever the bytes and their chunking.

use vstd::prelude::*;
use crate::buffer::NEWLINE;
use crate::decoder::ProviderEvent;
use crate::normalize::{NormalizedEvent, is_terminal, normalized, text_part, tool_part, usage_part, finish_part};
use crate::pipeline::{
    DecoderView, byte_step, bytes_run, eof_step, error_step, initial, is_malformed, line_events,
};

verus! {

/// Feeding `a + b` at once is feeding `a`, then `b`.
pub proof fn lemma_bytes_run_append(st: DecoderView, a: Seq<u8>, b: Seq<u8>)
    ensures
        bytes_run(st, a + b) == bytes_run(bytes_run(st, a), b),
    decreases b.len(),
{
    if b.len() == 0 {
        assert(a + b == a);
    } else {
        assert((a + b).drop_last() == a + b.drop_last());
        assert((a + b).last() == b.last());
        lemma_bytes_run_append(st, a, b.drop_last());
    }
}

/// After the end, bytes change nothing.
pub proof fn lemma_done_absorbs(st: DecoderView, bytes: Seq<u8>)
    requires
        st.done,
    ensures
        bytes_run(st, bytes) == st,
    decreases bytes.len(),
{
    if bytes.len() > 0 {
        lemma_done_absorbs(st, bytes.drop_last());
    }
}

/// The state after feeding `chunks` one after the other, as `StreamDecoder::feed` does.
pub open spec fn chunks_run(st: DecoderView, chunks: Seq<Seq<u8>>) -> DecoderView
    decreases chunks.len(),
{
    if chunks.len() == 0 {
        st
    } else {
        chunks_run(bytes_run(st, chunks[0]), chunks.drop_first())
    }
}

proof fn lemma_chunks_run_flatten(st: DecoderView, chunks: Seq<Seq<u8>>)
    ensures
        chunks_run(st, chunks) == bytes_run(st, chunks.flatten()),
    decreases chunks.len(),
{
    if chunks.len() > 0 {
        lemma_chunks_run_flatten(bytes_run(st, chunks[0]), chunks.drop_first());
        lemma_bytes_run_append(st, chunks[0], chunks.drop_first().flatten());
    }
}

/// Chunk-boundary invariance: two ways of cutting the same bytes into chunks lead to the
/// same state, so to the same events, also once the transport's data ends.
pub proof fn chunking_does_not_matter(st: DecoderView, c1: Seq<Seq<u8>>, c2: Seq<Seq<u8>>)
    requires
        c1.flatten() == c2.flatten(),
    ensures
        chunks_run(st, c1) == chunks_run(st, c2),
        chunks_run(st, c1).emitted == chunks_run(st, c2).emitted,
        eof_step(chunks_run(st, c1)) == eof_step(chunks_run(st, c2)),
{
    lemma_chunks_run_flatten(st, c1);
    lemma_chunks_run_flatten(st, c2);
}

/// Whether `line` holds no newline.
pub open spec fn newline_free(line: Seq<u8>) -> bool {
    forall|i: int| 0 <= i < line.len() ==> line[i] != NEWLINE
}

/// Lines of at most `max_line` bytes and no newline.
pub open spec fn proper_lines(lines: Seq<Seq<u8>>, max_line: nat) -> bool {
    forall|i: int| 0 <= i < lines.len() ==> newline_free(#[trigger] lines[i]) && lines[i].len() <= max_line
}

/// The bytes of `lines`, each followed by a newline.
pub open spec fn joined(lines: Seq<Seq<u8>>) -> Seq<u8> {
    lines.map_values(|l: Seq<u8>| l.push(NEWLINE)).flatten()
}

/// The events of a sequence of frames: each frame's events in turn, up to and including
/// the first that ends the stream; and whether one did.
pub open spec fn frames_events(framing: crate::framing::Framing, lines: Seq<Seq<u8>>) -> (
    Seq<NormalizedEvent>,
    bool,
)
    decreases lines.len(),
{
    if lines.len() == 0 {
        (seq![], false)
    } else {
        let (e, t) = line_events(framing, lines[0]);
        if t {
            (e, true)
        } else {
            let (rest, t2) = frames_events(framing, lines.drop_first());
            (e + rest, t2)
        }
    }
}

proof fn lemma_open_line(st: DecoderView, line: Seq<u8>)
    requires
        !st.done,
        newline_free(line),
        st.pending.len() + line.len() <= st.max_line,
    ensures
        bytes_run(st, line) == (DecoderView { pending: st.pending + line, ..st }),
    decreases line.len(),
{
    if line.len() == 0 {
        assert(st.pending + line == st.pending);
    } else {
        lemma_open_line(st, line.drop_last());
        assert(st.pending + line.drop_last() + seq![line.last()] == st.pending + line);
        assert((st.pending + line.drop_last()).push(line.last()) == st.pending + line);
    }
}

proof fn lemma_one_line(st: DecoderView, line: Seq<u8>)
    requires
        !st.done,
        st.pending.len() == 0,
        newline_free(line),
        line.len() <= st.max_line,
    ensures
        bytes_run(st, line.push(NEWLINE)) == (DecoderView {
            pending: Seq::empty(),
            done: line_events(st.framing, line).1,
            emitted: st.emitted + line_events(st.framing, line).0,
            ..st
        }),
{
    lemma_open_line(st, line);
    assert(line.push(NEWLINE).drop_last() == line);
    assert(st.pending + line == line);
}

/// Order preservation: fed whole lines, the decoder emits each frame's events in the
/// order of the frames, stopping after the first frame that ends the stream.
pub proof fn events_follow_frame_order(st: DecoderView, lines: Seq<Seq<u8>>)
    requires
        !st.done,
        st.pending.len() == 0,
        proper_lines(lines, st.max_line),
    ensures
        bytes_run(st, joined(lines)) == (DecoderView {
            pending: Seq::empty(),
            done: frames_events(st.framing, lines).1,
            emitted: st.emitted + frames_events(st.framing, lines).0,
            ..st
        }),
    decreases lines.len(),
{
    if lines.len() == 0 {
        assert(joined(lines) =~= Seq::<u8>::empty());
        assert(st.emitted + Seq::<NormalizedEvent>::empty() == st.emitted);
        assert(st.pending == Seq::<u8>::empty());
    } else {
        let first = lines[0];
        let rest = lines.drop_first();
        let mapped = lines.map_values(|l: Seq<u8>| l.push(NEWLINE));
        assert(mapped.drop_first() =~= rest.map_values(|l: Seq<u8>| l.push(NEWLINE)));
        assert(joined(lines) == first.push(NEWLINE) + joined(rest));
        assert(newline_free(lines[0]) && lines[0].len() <= st.max_line);
        lemma_one_line(st, first);
        lemma_bytes_run_append(st, first.push(NEWLINE), joined(rest));
        let mid = bytes_run(st, first.push(NEWLINE));
        let (e, t) = line_events(st.framing, first);
        if t {
            lemma_done_absorbs(mid, joined(rest));
        } else {
            assert(proper_lines(rest, st.max_line)) by {
                assert forall|i: int| 0 <= i < rest.len() implies newline_free(#[trigger] rest[i])
                    && rest[i].len() <= st.max_line by {
                    assert(rest[i] == lines[i + 1]);
                }
            }
            events_follow_frame_order(mid, rest);
            assert(st.emitted + e + frames_events(st.framing, rest).0 == st.emitted + (e
                + frames_events(st.framing, rest).0));
        }
    }
}

/// Soft-failure isolation: a malformed frame between two frames changes nothing. The
/// stream reads as if it were absent: both other frames' events are emitted, and it does
/// not end the stream.
pub proof fn malformed_frame_is_skipped(
    st: DecoderView,
    first: Seq<u8>,
    bad: Seq<u8>,
    second: Seq<u8>,
)
    requires
        !st.done,
        st.pending.len() == 0,
        proper_lines(seq![first, bad, second], st.max_line),
        is_malformed(st.framing, bad),
    ensures
        bytes_run(st, joined(seq![first, bad, second])) == bytes_run(st, joined(seq![first, second])),
        !line_events(st.framing, first).1 ==> bytes_run(st, joined(seq![first, bad, second])).emitted
            == st.emitted + line_events(st.framing, first).0 + line_events(st.framing, second).0,
        !line_events(st.framing, first).1 && !line_events(st.framing, second).1 ==> !bytes_run(
            st,
            joined(seq![first, bad, second]),
        ).done,
{
    let three = seq![first, bad, second];
    let two = seq![first, second];
    assert(proper_lines(two, st.max_line)) by {
        assert(two[0] == three[0] && two[1] == three[2]);
    }
    events_follow_frame_order(st, three);
    events_follow_frame_order(st, two);
    assert(line_events(st.framing, bad) == (Seq::<NormalizedEvent>::empty(), false));
    assert(three.drop_first() =~= seq![bad, second]);
    assert(seq![bad, second].drop_first() =~= seq![second]);
    assert(two.drop_first() =~= seq![second]);
    assert(seq![second].drop_first() =~= Seq::<Seq<u8>>::empty());
    let f = st.framing;
    let (e2, t2) = line_events(f, second);
    assert(frames_events(f, Seq::<Seq<u8>>::empty()) == (Seq::<NormalizedEvent>::empty(), false));
    assert(frames_events(f, seq![second]).0 =~= e2);
    assert(frames_events(f, seq![second]).1 == t2);
    assert(frames_events(f, seq![bad, second]).0 =~= e2);
    assert(frames_events(f, seq![bad, second]).1 == t2);
    assert(frames_events(f, three) == frames_events(f, two));
    let e1 = line_events(st.framing, first).0;
    assert(st.emitted + (e1 + e2) == st.emitted + e1 + e2);
}

/// Whether no event but the last of `emitted` ends the stream, and the stream counts as
/// ended exactly when the last one does.
pub open spec fn terminal_only_at_end(st: DecoderView) -> bool {
    &&& forall|i: int| 0 <= i < st.emitted.len() - 1 ==> !is_terminal(#[trigger] st.emitted[i])
    &&& st.done <==> (st.emitted.len() > 0 && is_terminal(st.emitted.last()))
}

/// Whether no event of `s` ends a stream.
pub open spec fn none_terminal(s: Seq<NormalizedEvent>) -> bool {
    forall|i: int| 0 <= i < s.len() ==> !is_terminal(#[trigger] s[i])
}

proof fn lemma_normalized_shape(ev: ProviderEvent)
    ensures
        normalized(ev).1 ==> normalized(ev).0.len() > 0 && is_terminal(normalized(ev).0.last())
            && none_terminal(normalized(ev).0.drop_last()),
        !normalized(ev).1 ==> none_terminal(normalized(ev).0),
{
    match ev {
        ProviderEvent::Data { text, tool_fragment, usage, finish, done } => {
            let body = text_part(text) + tool_part(tool_fragment) + usage_part(usage)
                + finish_part(finish);
            assert(none_terminal(body));
            if done {
                assert(normalized(ev).0 == body.push(NormalizedEvent::StreamEnd));
                assert(normalized(ev).0.drop_last() == body);
            } else {
                assert(normalized(ev).0 == body);
            }
        },
        ProviderEvent::Stop => {
            assert(normalized(ev).0.drop_last() =~= Seq::<NormalizedEvent>::empty());
        },
        ProviderEvent::Error(_) => {
            assert(normalized(ev).0.drop_last() =~= Seq::<NormalizedEvent>::empty());
        },
        ProviderEvent::Heartbeat => {},
    }
}

proof fn lemma_line_shape(framing: crate::framing::Framing, line: Seq<u8>)
    ensures
        line_events(framing, line).1 ==> line_events(framing, line).0.len() > 0 && is_terminal(
            line_events(framing, line).0.last(),
        ) && none_terminal(line_events(framing, line).0.drop_last()),
        !line_events(framing, line).1 ==> none_terminal(line_events(framing, line).0),
{
    match crate::framing::frame_view(framing, crate::framing::line_text(line)) {
        crate::framing::FrameView::Payload(p) => match crate::json::json_parsed(p) {
            Some(j) => match crate::pipeline::decoded(framing, j) {
                Some(ev) => lemma_normalized_shape(ev),
                None => {},
            },
            None => {},
        },
        crate::framing::FrameView::End => {
            assert(seq![NormalizedEvent::StreamEnd].drop_last() =~= Seq::<NormalizedEvent>::empty());
        },
        crate::framing::FrameView::Ignorable => {},
    }
}

proof fn lemma_append_events(st: DecoderView, e: Seq<NormalizedEvent>, t: bool)
    requires
        terminal_only_at_end(st),
        !st.done,
        t ==> e.len() > 0 && is_terminal(e.last()) && none_terminal(e.drop_last()),
        !t ==> none_terminal(e),
    ensures
        terminal_only_at_end(DecoderView { done: t, emitted: st.emitted + e, ..st }),
{
    let all = st.emitted + e;
    assert(none_terminal(st.emitted));
    if t {
        assert(all.last() == e.last());
        assert forall|i: int| 0 <= i < all.len() - 1 implies !is_terminal(#[trigger] all[i]) by {
            if i >= st.emitted.len() {
                assert(all[i] == e.drop_last()[i - st.emitted.len()]);
            }
        }
    } else {
        assert(none_terminal(all));
        if all.len() > 0 {
            assert(!is_terminal(all[all.len() - 1]));
        }
    }
}

proof fn lemma_byte_step_keeps(st: DecoderView, b: u8)
    requires
        terminal_only_at_end(st),
    ensures
        terminal_only_at_end(byte_step(st, b)),
{
    if !st.done {
        if b == NEWLINE {
            lemma_line_shape(st.framing, st.pending);
            let (e, t) = line_events(st.framing, st.pending);
            lemma_append_events(DecoderView { pending: Seq::empty(), ..st }, e, t);
        } else if st.pending.len() >= st.max_line {
            let one = seq![crate::pipeline::overflow_event()];
            assert(one.drop_last() =~= Seq::<NormalizedEvent>::empty());
            lemma_append_events(st, one, true);
            assert(st.emitted + one == st.emitted.push(crate::pipeline::overflow_event()));
        }
    }
}

proof fn lemma_bytes_run_keeps(st: DecoderView, bytes: Seq<u8>)
    requires
        terminal_only_at_end(st),
    ensures
        terminal_only_at_end(bytes_run(st, bytes)),
    decreases bytes.len(),
{
    if bytes.len() > 0 {
        lemma_bytes_run_keeps(st, bytes.drop_last());
        lemma_byte_step_keeps(bytes_run(st, bytes.drop_last()), bytes.last());
    }
}

/// Single terminal event: starting from a fresh decoder, or from any state where it
/// holds, no event is ever emitted after a `StreamEnd` or `StreamError`, whatever bytes
/// follow and however the transport ends; and once the stream has ended, more bytes,
/// the end of the data or a transport failure change nothing.
pub proof fn single_terminal_event(st: DecoderView, bytes: Seq<u8>, message: String)
    requires
        terminal_only_at_end(st),
    ensures
        terminal_only_at_end(bytes_run(st, bytes)),
        terminal_only_at_end(eof_step(st)),
        terminal_only_at_end(error_step(st, message)),
        st.done ==> bytes_run(st, bytes) == st && eof_step(st) == st && error_step(st, message)
            == st,
{
    lemma_bytes_run_keeps(st, bytes);
    if st.done {
        lemma_done_absorbs(st, bytes);
    } else {
        let (e, t) = if st.pending.len() > 0 {
            line_events(st.framing, st.pending)
        } else {
            (seq![], false)
        };
        if st.pending.len() > 0 {
            lemma_line_shape(st.framing, st.pending);
        }
        let tail = if t {
            Seq::<NormalizedEvent>::empty()
        } else {
            seq![NormalizedEvent::StreamEnd]
        };
        let all = e + tail;
        if t {
            assert(all == e);
        } else {
            assert(all.drop_last() == e);
        }
        lemma_append_events(DecoderView { pending: Seq::empty(), ..st }, all, true);
        assert(st.emitted + e + tail == st.emitted + all);
        let err = NormalizedEvent::StreamError(crate::normalize::StreamErrorKind::Network, Some(message));
        let one = seq![err];
        assert(one.drop_last() =~= Seq::<NormalizedEvent>::empty());
        lemma_append_events(st, one, true);
        assert(st.emitted + one == st.emitted.push(err));
    }
}

/// A fresh decoder has emitted nothing and has not ended.
pub proof fn fresh_decoder_is_sound(framing: crate::framing::Framing, max_line: nat)
    ensures
        terminal_only_at_end(initial(framing, max_line)),
{
}

} // verus!
