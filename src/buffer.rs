//! Accumulates raw bytes and cuts complete lines out of them.

use vstd::prelude::*;

verus! {

/// The line delimiter, `\n`.
pub const NEWLINE: u8 = 10;

/// Complete lines found so far, and the bytes of the line still open.
pub type LineSplit = (Seq<Seq<u8>>, Seq<u8>);

/// One byte more: a newline closes the open line, any other byte extends it.
pub open spec fn split_step(st: LineSplit, b: u8) -> LineSplit {
    if b == NEWLINE {
        (st.0.push(st.1), Seq::empty())
    } else {
        (st.0, st.1.push(b))
    }
}

/// The lines found in `bytes`, starting from `st`, one byte at a time.
pub open spec fn split_run(st: LineSplit, bytes: Seq<u8>) -> LineSplit
    decreases bytes.len(),
{
    if bytes.len() == 0 {
        st
    } else {
        split_step(split_run(st, bytes.drop_last()), bytes.last())
    }
}

/// Splitting `a + b` is splitting `a`, then `b` from where `a` left off.
pub proof fn lemma_split_run_append(st: LineSplit, a: Seq<u8>, b: Seq<u8>)
    ensures
        split_run(st, a + b) == split_run(split_run(st, a), b),
    decreases b.len(),
{
    if b.len() == 0 {
        assert(a + b == a);
    } else {
        assert((a + b).drop_last() == a + b.drop_last());
        assert((a + b).last() == b.last());
        lemma_split_run_append(st, a, b.drop_last());
    }
}

/// The views of a sequence of lines.
pub open spec fn line_views(lines: Seq<Vec<u8>>) -> Seq<Seq<u8>> {
    lines.map_values(|l: Vec<u8>| l@)
}

/// Holds the bytes of the line that has not been terminated yet.
///
/// Bytes are only appended to it, and leave it only as part of a complete line.
pub struct ChunkBuffer {
    pending: Vec<u8>,
}

impl View for ChunkBuffer {
    type V = Seq<u8>;

    closed spec fn view(&self) -> Seq<u8> {
        self.pending@
    }
}

impl ChunkBuffer {
    /// An empty buffer.
    pub fn new() -> (r: ChunkBuffer)
        ensures
            r@ == Seq::<u8>::empty(),
    {
        ChunkBuffer { pending: Vec::new() }
    }

    /// The number of bytes of the open line.
    pub fn pending_len(&self) -> (r: usize)
        ensures
            r == self@.len(),
    {
        self.pending.len()
    }

    /// Takes one byte: a newline hands out the open line and starts a new one.
    pub fn push_byte(&mut self, b: u8) -> (r: Option<Vec<u8>>)
        ensures
            b == NEWLINE ==> r is Some && r->0@ == old(self)@ && final(self)@ == Seq::<u8>::empty(),
            b != NEWLINE ==> r is None && final(self)@ == old(self)@.push(b),
    {
        if b == NEWLINE {
            let mut line: Vec<u8> = Vec::new();
            std::mem::swap(&mut line, &mut self.pending);
            Some(line)
        } else {
            self.pending.push(b);
            None
        }
    }

    /// Appends a chunk and returns the lines it completes, in order, without their
    /// newlines; the bytes after the last newline stay for the next call.
    pub fn append(&mut self, chunk: &[u8]) -> (r: Vec<Vec<u8>>)
        ensures
            split_run((Seq::empty(), old(self)@), chunk@) == (line_views(r@), final(self)@),
    {
        let mut out: Vec<Vec<u8>> = Vec::new();
        let mut i: usize = 0;
        let ghost start: LineSplit = (Seq::empty(), old(self)@);
        assert(chunk@.subrange(0, 0) =~= Seq::<u8>::empty());
        assert(line_views(out@) =~= Seq::<Seq<u8>>::empty());
        while i < chunk.len()
            invariant
                i <= chunk@.len(),
                split_run(start, chunk@.subrange(0, i as int)) == (line_views(out@), self@),
            decreases chunk.len() - i,
        {
            let b = chunk[i];
            assert(chunk@.subrange(0, i + 1).drop_last() == chunk@.subrange(0, i as int));
            match self.push_byte(b) {
                Some(line) => {
                    let ghost before = out@;
                    out.push(line);
                    assert(line_views(out@) =~= line_views(before).push(line@));
                },
                None => {},
            }
            i = i + 1;
        }
        assert(chunk@.subrange(0, chunk@.len() as int) == chunk@);
        out
    }
}

} // verus!
