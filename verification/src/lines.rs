//! Splitter for newline-delimited streaming responses.
//!
//! Events and build/pull progress arrive as structured records, one per
//! newline-terminated line. Transport chunk boundaries carry no
//! meaning: a chunk may hold many lines and a line may span many
//! chunks, so a carry-over buffer holds the trailing, not-yet-terminated
//! partial line between pulls.

use vstd::prelude::*;

use crate::bytebuf::{append_bytes, copy_range};

verus! {

/// The line terminator.
pub open spec fn nl() -> u8 {
    10
}

/// Index of the first line terminator in `b`, or `b.len()` if none.
pub open spec fn first_nl(b: Seq<u8>) -> nat
    decreases b.len(),
{
    if b.len() == 0 {
        0
    } else if b[0] == nl() {
        0
    } else {
        1 + first_nl(b.skip(1))
    }
}

/// What splitting a complete byte sequence yields: the terminated
/// lines at its front, each with the terminator stripped, and the
/// trailing bytes after the last terminator.
#[verifier::ext_equal]
pub struct SplitResult {
    pub lines: Seq<Seq<u8>>,
    pub rest: Seq<u8>,
}

/// Split a byte sequence at line terminators, greedily from the front.
pub open spec fn split_lines(b: Seq<u8>) -> SplitResult
    decreases b.len(),
{
    let i = first_nl(b);
    if i >= b.len() {
        SplitResult { lines: seq![], rest: b }
    } else {
        let r = split_lines(b.skip(i as int + 1));
        SplitResult { lines: seq![b.take(i as int)] + r.lines, rest: r.rest }
    }
}

proof fn lemma_first_nl_bounds(b: Seq<u8>)
    ensures
        0 <= first_nl(b) <= b.len(),
        forall|j: int| 0 <= j < first_nl(b) ==> b[j] != nl(),
        first_nl(b) < b.len() ==> b[first_nl(b) as int] == nl(),
    decreases b.len(),
{
    if b.len() == 0 {
    } else if b[0] == nl() {
    } else {
        lemma_first_nl_bounds(b.skip(1));
        assert(forall|j: int| 1 <= j < first_nl(b) ==> b[j] == b.skip(1)[j - 1]);
    }
}

/// A terminator-free prefix does not change where the first terminator
/// of what follows it lies.
proof fn lemma_first_nl_append(h: Seq<u8>, c: Seq<u8>)
    requires
        first_nl(h) < h.len(),
    ensures
        first_nl(h + c) == first_nl(h),
    decreases h.len(),
{
    if h[0] == nl() {
        assert((h + c)[0] == h[0]);
    } else {
        assert((h + c)[0] == h[0]);
        assert((h + c).skip(1) =~= h.skip(1) + c);
        lemma_first_nl_append(h.skip(1), c);
    }
}

/// A sequence without a terminator pushes the first terminator of an
/// extension past its own length.
proof fn lemma_first_nl_extend(h: Seq<u8>, c: Seq<u8>)
    requires
        first_nl(h) >= h.len(),
    ensures
        first_nl(h + c) == h.len() + first_nl(c),
    decreases h.len(),
{
    if h.len() == 0 {
        assert(h + c =~= c);
    } else {
        assert((h + c)[0] == h[0]);
        assert((h + c).skip(1) =~= h.skip(1) + c);
        lemma_first_nl_extend(h.skip(1), c);
    }
}

/// Splitting consumes terminated lines from the front, so feeding `h`
/// and then `c` splits exactly as feeding `h + c` at once: the
/// carry-over of `h` joined with `c` accounts for everything `h + c`
/// adds beyond `h` alone.
pub proof fn lemma_split_extend(h: Seq<u8>, c: Seq<u8>)
    ensures
        split_lines(h + c).lines == split_lines(h).lines + split_lines(
            split_lines(h).rest + c,
        ).lines,
        split_lines(h + c).rest == split_lines(split_lines(h).rest + c).rest,
    decreases h.len(),
{
    let i = first_nl(h);
    lemma_first_nl_bounds(h);
    if i >= h.len() {
        assert(split_lines(h).rest + c =~= h + c);
        assert(split_lines(h + c).lines =~= split_lines(h).lines + split_lines(
            split_lines(h).rest + c,
        ).lines);
    } else {
        lemma_first_nl_append(h, c);
        assert((h + c).take(i as int) =~= h.take(i as int));
        assert((h + c).skip(i as int + 1) =~= h.skip(i as int + 1) + c);
        lemma_split_extend(h.skip(i as int + 1), c);
        assert(split_lines(h).rest == split_lines(h.skip(i as int + 1)).rest);
        assert(split_lines(h + c).lines =~= split_lines(h).lines + split_lines(
            split_lines(h).rest + c,
        ).lines);
    }
}

/// A byte sequence holds no line terminator.
pub open spec fn terminator_free(b: Seq<u8>) -> bool {
    forall|j: int| 0 <= j < b.len() ==> b[j] != nl()
}

/// Serialize lines by terminating each with a newline.
pub open spec fn join_lines(ls: Seq<Seq<u8>>) -> Seq<u8>
    decreases ls.len(),
{
    if ls.len() == 0 {
        seq![]
    } else {
        ls[0] + seq![nl()] + join_lines(ls.skip(1))
    }
}

proof fn lemma_first_nl_of_free(b: Seq<u8>)
    requires
        terminator_free(b),
    ensures
        first_nl(b) >= b.len(),
    decreases b.len(),
{
    if b.len() > 0 {
        assert(forall|j: int| 0 <= j < b.skip(1).len() ==> b.skip(1)[j] == b[j + 1]);
        lemma_first_nl_of_free(b.skip(1));
    }
}

/// Round trip of the line framing: joining any terminator-free lines
/// with newlines and re-splitting reproduces exactly those lines, in
/// order, with an empty carry-over. Because
/// [`LineDecoder::push_chunk`] ties what a session emits to
/// `split_lines` of the concatenated input alone, the lines come back
/// whatever the chunk boundaries — down to one byte per chunk.
pub proof fn lemma_lines_round_trip(ls: Seq<Seq<u8>>)
    requires
        forall|i: int| 0 <= i < ls.len() ==> terminator_free(#[trigger] ls[i]),
    ensures
        split_lines(join_lines(ls)) == (SplitResult { lines: ls, rest: Seq::<u8>::empty() }),
    decreases ls.len(),
{
    if ls.len() == 0 {
        assert(split_lines(join_lines(ls)) =~= (SplitResult {
            lines: ls,
            rest: Seq::<u8>::empty(),
        }));
    } else {
        let b = join_lines(ls);
        let l0 = ls[0];
        let tail = join_lines(ls.skip(1));
        lemma_first_nl_of_free(l0);
        lemma_first_nl_extend(l0, seq![nl()] + tail);
        assert((seq![nl()] + tail)[0] == nl());
        assert(first_nl(seq![nl()] + tail) == 0);
        assert(b =~= l0 + (seq![nl()] + tail));
        assert(first_nl(b) == l0.len());
        assert(b.take(l0.len() as int) =~= l0);
        assert(b.skip(l0.len() as int + 1) =~= tail);
        lemma_lines_round_trip(ls.skip(1));
        assert(split_lines(b).lines =~= ls);
        assert(split_lines(b) =~= (SplitResult { lines: ls, rest: Seq::<u8>::empty() }));
    }
}

/// Decoder for one streaming session: turns arbitrarily chunked bytes
/// into ordered, terminator-stripped lines.
///
/// Ghost state records every byte ever consumed and every line ever
/// emitted, so the contracts pin the emitted lines to exactly
/// `split_lines` of the concatenated input, whatever the chunking.
pub struct LineDecoder {
    buf: Vec<u8>,
    history: Ghost<Seq<u8>>,
    emitted: Ghost<Seq<Seq<u8>>>,
}

/// The views of a sequence of byte vectors.
pub open spec fn byte_views(s: Seq<Vec<u8>>) -> Seq<Seq<u8>> {
    s.map_values(|v: Vec<u8>| v@)
}

impl LineDecoder {
    /// Every byte consumed so far, in arrival order.
    pub closed spec fn history(self) -> Seq<u8> {
        self.history@
    }

    /// Every line emitted so far, in emission order.
    pub closed spec fn emitted(self) -> Seq<Seq<u8>> {
        self.emitted@
    }

    /// The decoder's invariant: what was emitted is exactly the
    /// terminated lines of the consumed bytes, and the carry-over
    /// buffer holds exactly the trailing unterminated partial line.
    pub closed spec fn wf(self) -> bool {
        &&& self.emitted@ == split_lines(self.history@).lines
        &&& self.buf@ == split_lines(self.history@).rest
    }

    /// Open a decode session.
    pub fn new() -> (d: LineDecoder)
        ensures
            d.wf(),
            d.history() == Seq::<u8>::empty(),
            d.emitted() == Seq::<Seq<u8>>::empty(),
    {
        let d = LineDecoder {
            buf: Vec::new(),
            history: Ghost(Seq::empty()),
            emitted: Ghost(Seq::empty()),
        };
        proof {
            assert(first_nl(Seq::<u8>::empty()) == 0);
            assert(split_lines(Seq::<u8>::empty()).lines =~= Seq::<Seq<u8>>::empty());
        }
        d
    }

    /// Consume one transport chunk and return the lines it completes,
    /// terminators stripped, in arrival order. The lines returned
    /// across all calls are exactly `split_lines` of the concatenated
    /// chunks.
    #[verifier::loop_isolation(false)]
    pub fn push_chunk(&mut self, chunk: &[u8]) -> (out: Vec<Vec<u8>>)
        requires
            old(self).wf(),
        ensures
            final(self).wf(),
            final(self).history() == old(self).history() + chunk@,
            final(self).emitted() == old(self).emitted() + byte_views(out@),
            byte_views(out@) == split_lines(split_lines(old(self).history()).rest + chunk@).lines,
            split_lines(final(self).history()).lines == split_lines(old(self).history()).lines
                + byte_views(out@),
    {
        append_bytes(&mut self.buf, chunk);
        let ghost w = self.buf@;
        let ghost h2 = old(self).history() + chunk@;
        proof {
            lemma_split_extend(old(self).history(), chunk@);
            assert(split_lines(h2).lines == old(self).emitted() + split_lines(w).lines);
            assert(split_lines(h2).rest == split_lines(w).rest);
        }
        let mut out: Vec<Vec<u8>> = Vec::new();
        let mut offset: usize = 0;
        let mut scan: usize = 0;
        proof {
            assert(w.skip(0) =~= w);
            assert(byte_views(out@) =~= Seq::<Seq<u8>>::empty());
            assert(split_lines(w).lines =~= byte_views(out@) + split_lines(w.skip(0)).lines);
        }
        while scan < self.buf.len()
            invariant
                self.buf@ == w,
                offset <= scan <= self.buf.len(),
                self.history@ == old(self).history(),
                self.emitted@ == old(self).emitted(),
                split_lines(w).lines == byte_views(out@) + split_lines(w.skip(offset as int)).lines,
                split_lines(w).rest == split_lines(w.skip(offset as int)).rest,
                forall|j: int| offset <= j < scan ==> w[j] != nl(),
            decreases self.buf.len() - scan,
        {
            let ghost ws = w.skip(offset as int);
            if self.buf[scan] == 10 {
                proof {
                    lemma_first_nl_bounds(ws);
                    assert(forall|j: int|
                        0 <= j < scan - offset ==> ws[j] == w[j + offset] && ws[j] != nl());
                    assert(ws[scan - offset] == nl());
                    assert(first_nl(ws) == scan - offset) by {
                        if first_nl(ws) < scan - offset {
                            assert(ws[first_nl(ws) as int] == nl());
                        }
                        if first_nl(ws) > scan - offset {
                            assert(ws[scan - offset] != nl());
                        }
                    }
                }
                let line = copy_range(&self.buf, offset, scan);
                let ghost prev = out@;
                let ghost lg = line;
                out.push(line);
                proof {
                    let i = scan - offset;
                    assert(lg@ =~= ws.take(i));
                    assert(w.skip(scan + 1) =~= ws.skip(i + 1));
                    assert(split_lines(ws).lines == seq![ws.take(i)] + split_lines(
                        w.skip(scan + 1),
                    ).lines);
                    assert(split_lines(ws).rest == split_lines(w.skip(scan + 1)).rest);
                    assert(out@ == prev.push(lg));
                    assert(byte_views(out@) =~= byte_views(prev).push(lg@));
                    assert(byte_views(prev) + split_lines(ws).lines =~= byte_views(out@)
                        + split_lines(w.skip(scan + 1)).lines);
                }
                offset = scan + 1;
            }
            scan = scan + 1;
        }
        let ghost ws = w.skip(offset as int);
        proof {
            lemma_first_nl_bounds(ws);
            assert(forall|j: int| 0 <= j < ws.len() ==> ws[j] == w[j + offset] && ws[j] != nl());
            assert(first_nl(ws) >= ws.len()) by {
                if first_nl(ws) < ws.len() {
                    assert(ws[first_nl(ws) as int] == nl());
                }
            }
            assert(split_lines(ws).lines =~= Seq::<Seq<u8>>::empty());
            assert(split_lines(w).lines =~= byte_views(out@));
        }
        let tail = copy_range(&self.buf, offset, self.buf.len());
        self.buf = tail;
        proof {
            assert(self.buf@ =~= ws);
            self.history@ = h2;
            self.emitted@ = self.emitted@ + byte_views(out@);
        }
        out
    }

    /// Close the session at end of stream, handing back the trailing
    /// unterminated partial line if there is one. An empty carry-over
    /// is a normal completion.
    pub fn finish(&self) -> (r: Option<Vec<u8>>)
        requires
            self.wf(),
        ensures
            r matches Some(t) ==> t@ == split_lines(self.history()).rest && t@.len() > 0,
            r is None ==> split_lines(self.history()).rest.len() == 0,
    {
        if self.buf.len() == 0 {
            None
        } else {
            Some(copy_range(&self.buf, 0, self.buf.len()))
        }
    }
}

} // verus!
