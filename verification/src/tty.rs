//! Demultiplexer for the daemon's binary stream framing.
//!
//! A multiplexed response interleaves the stdin/stdout/stderr of a
//! remote process on one connection. Each unit on the wire is an
//! 8-byte header — byte 0 a stream-type tag, bytes 1-3 reserved, bytes
//! 4-7 the payload length as a big-endian unsigned integer — followed
//! by exactly that many payload bytes. Transport chunk boundaries carry
//! no meaning: a chunk may hold many units and a unit may span many
//! chunks. When the daemon allocates a pseudo-terminal it disables
//! multiplexing, and the stream degrades to a raw passthrough.

use vstd::prelude::*;

use crate::bytebuf::{append_bytes, copy_range};
use crate::error::ProtocolError;

verus! {

/// Origin stream of one frame of process output.
#[derive(Clone, Copy, Debug, PartialEq, Eq, Structural)]
pub enum FrameKind {
    Stdin,
    Stdout,
    Stderr,
}

/// One demultiplexed unit of process output.
#[derive(Clone, Debug)]
pub struct Frame {
    pub kind: FrameKind,
    pub payload: Vec<u8>,
}

/// Mathematical value of a [`Frame`].
#[verifier::ext_equal]
pub struct FrameView {
    pub kind: FrameKind,
    pub payload: Seq<u8>,
}

impl View for Frame {
    type V = FrameView;

    open spec fn view(&self) -> FrameView {
        FrameView { kind: self.kind, payload: self.payload@ }
    }
}

/// The views of a sequence of frames.
pub open spec fn frame_views(s: Seq<Frame>) -> Seq<FrameView> {
    s.map_values(|f: Frame| f@)
}

/// Wire encoding of one frame, fixed when a stream session is opened.
#[derive(Clone, Copy, Debug, PartialEq, Eq, Structural)]
pub enum StreamMode {
    /// The 8-byte-header framing described at module level.
    Multiplexed,
    /// Every transport chunk passes through verbatim as one frame.
    Raw,
}

/// The stream-type tag that encodes a frame kind on the wire.
pub open spec fn tag_of_kind(k: FrameKind) -> u8 {
    match k {
        FrameKind::Stdin => 0,
        FrameKind::Stdout => 1,
        FrameKind::Stderr => 2,
    }
}

/// The frame kind named by a wire tag.
pub open spec fn kind_of_tag(t: u8) -> FrameKind
    recommends
        t <= 2,
{
    if t == 0 {
        FrameKind::Stdin
    } else if t == 1 {
        FrameKind::Stdout
    } else {
        FrameKind::Stderr
    }
}

/// The value of four big-endian bytes.
pub open spec fn be_u32(b: Seq<u8>) -> int
    recommends
        b.len() == 4,
{
    b[0] * 0x1000000 + b[1] * 0x10000 + b[2] * 0x100 + b[3]
}

/// The four big-endian bytes of a value below 2^32.
pub open spec fn be_bytes(n: int) -> Seq<u8>
    recommends
        0 <= n < 0x100000000,
{
    seq![
        (n / 0x1000000) as u8,
        ((n % 0x1000000) / 0x10000) as u8,
        ((n % 0x10000) / 0x100) as u8,
        (n % 0x100) as u8,
    ]
}

/// A frame whose payload length the wire format can carry: the header
/// declares the length in four bytes.
pub open spec fn valid_frame(f: FrameView) -> bool {
    f.payload.len() < 0x100000000
}

pub open spec fn valid_frames(fs: Seq<FrameView>) -> bool {
    forall|i: int| 0 <= i < fs.len() ==> valid_frame(#[trigger] fs[i])
}

/// Wire encoding of one frame: tag byte, three reserved zero bytes,
/// big-endian payload length, payload.
pub open spec fn encode_frame(f: FrameView) -> Seq<u8>
    recommends
        valid_frame(f),
{
    seq![tag_of_kind(f.kind), 0u8, 0u8, 0u8] + be_bytes(f.payload.len() as int) + f.payload
}

/// Wire encoding of a sequence of frames, in order.
pub open spec fn encode_frames(fs: Seq<FrameView>) -> Seq<u8>
    decreases fs.len(),
{
    if fs.len() == 0 {
        seq![]
    } else {
        encode_frame(fs[0]) + encode_frames(fs.skip(1))
    }
}

/// What demultiplexing a complete byte sequence yields: the frames of
/// the complete units at its front, the trailing bytes that do not yet
/// form a unit, and whether every header seen so far carried a known
/// stream-type tag.
#[verifier::ext_equal]
pub struct DemuxResult {
    pub frames: Seq<FrameView>,
    pub rest: Seq<u8>,
    pub ok: bool,
}

/// Demultiplex a byte sequence: consume complete units greedily from
/// the front, stopping at the first incomplete unit or unknown tag.
pub open spec fn demux(b: Seq<u8>) -> DemuxResult
    decreases b.len(),
{
    if b.len() < 8 {
        DemuxResult { frames: seq![], rest: b, ok: true }
    } else if b[0] > 2 {
        DemuxResult { frames: seq![], rest: b, ok: false }
    } else {
        let n = be_u32(b.subrange(4, 8));
        if b.len() < 8 + n {
            DemuxResult { frames: seq![], rest: b, ok: true }
        } else {
            let f = FrameView { kind: kind_of_tag(b[0]), payload: b.subrange(8, 8 + n) };
            let r = demux(b.skip(8 + n));
            DemuxResult { frames: seq![f] + r.frames, rest: r.rest, ok: r.ok }
        }
    }
}

/// Demultiplexing consumes units from the front, so feeding `h` and
/// then `c` decodes exactly as feeding `h + c` at once: the carry-over
/// of `h` joined with `c` accounts for everything `h + c` adds beyond
/// `h` alone. This is what makes the decoder insensitive to chunk
/// boundaries.
pub proof fn lemma_demux_extend(h: Seq<u8>, c: Seq<u8>)
    ensures
        demux(h + c).frames == demux(h).frames + demux(demux(h).rest + c).frames,
        demux(h + c).rest == demux(demux(h).rest + c).rest,
        demux(h + c).ok == (demux(h).ok && demux(demux(h).rest + c).ok),
    decreases h.len(),
{
    if h.len() < 8 {
        assert(demux(h).rest + c =~= h + c);
        assert(demux(h + c).frames =~= demux(h).frames + demux(demux(h).rest + c).frames);
    } else if h[0] > 2 {
        assert(demux(h).rest + c =~= h + c);
        assert((h + c)[0] == h[0]);
        assert(demux(h + c).frames =~= demux(h).frames + demux(demux(h).rest + c).frames);
    } else {
        let n = be_u32(h.subrange(4, 8));
        assert((h + c).subrange(4, 8) =~= h.subrange(4, 8));
        if h.len() < 8 + n {
            assert(demux(h).rest + c =~= h + c);
            assert(demux(h + c).frames =~= demux(h).frames + demux(demux(h).rest + c).frames);
        } else {
            let hs = h.skip(8 + n);
            assert((h + c)[0] == h[0]);
            assert((h + c).subrange(8, 8 + n) =~= h.subrange(8, 8 + n));
            assert((h + c).skip(8 + n) =~= hs + c);
            lemma_demux_extend(hs, c);
            assert(demux(h).rest == demux(hs).rest);
            assert(demux(h + c).frames =~= demux(h).frames + demux(demux(h).rest + c).frames);
        }
    }
}

/// The four big-endian bytes of a value below 2^32 read back as that
/// value.
pub proof fn lemma_be_round_trip(n: int)
    requires
        0 <= n < 0x100000000,
    ensures
        be_u32(be_bytes(n)) == n,
{
    let r1 = n % 0x1000000;
    let r2 = n % 0x10000;
    vstd::arithmetic::div_mod::lemma_fundamental_div_mod(n, 0x1000000);
    vstd::arithmetic::div_mod::lemma_fundamental_div_mod(r1, 0x10000);
    vstd::arithmetic::div_mod::lemma_fundamental_div_mod(r2, 0x100);
    vstd::arithmetic::div_mod::lemma_mod_mod(n, 0x10000, 0x100);
    vstd::arithmetic::div_mod::lemma_mod_mod(n, 0x100, 0x100);
    assert(0x10000 * 0x100 == 0x1000000);
    assert(0x100 * 0x100 == 0x10000);
    assert(n / 0x1000000 < 0x100) by (nonlinear_arith)
        requires
            0 <= n < 0x100000000,
    ;
    assert(r1 / 0x10000 < 0x100) by (nonlinear_arith)
        requires
            0 <= r1 < 0x1000000,
    ;
    assert(r2 / 0x100 < 0x100) by (nonlinear_arith)
        requires
            0 <= r2 < 0x10000,
    ;
}

/// Demultiplexing a wire encoding of frames followed by any suffix
/// yields those frames followed by whatever the suffix alone yields:
/// complete units decode independently of what comes after them.
pub proof fn lemma_demux_prepend(fs: Seq<FrameView>, suffix: Seq<u8>)
    requires
        valid_frames(fs),
    ensures
        demux(encode_frames(fs) + suffix) == (DemuxResult {
            frames: fs + demux(suffix).frames,
            rest: demux(suffix).rest,
            ok: demux(suffix).ok,
        }),
    decreases fs.len(),
{
    if fs.len() == 0 {
        assert(encode_frames(fs) + suffix =~= suffix);
        assert(fs + demux(suffix).frames =~= demux(suffix).frames);
        assert(demux(encode_frames(fs) + suffix) =~= (DemuxResult {
            frames: fs + demux(suffix).frames,
            rest: demux(suffix).rest,
            ok: demux(suffix).ok,
        }));
    } else {
        let f = fs[0];
        let n = f.payload.len() as int;
        let b = encode_frames(fs) + suffix;
        let tail = encode_frames(fs.skip(1)) + suffix;
        lemma_be_round_trip(n);
        assert(valid_frame(f));
        assert(encode_frame(f).len() == 8 + n);
        assert(b =~= encode_frame(f) + tail);
        assert(b.len() >= 8 + n);
        assert(b[0] == tag_of_kind(f.kind));
        assert(b[0] <= 2);
        assert(b.subrange(4, 8) =~= be_bytes(n));
        assert(be_u32(b.subrange(4, 8)) == n);
        assert(b.subrange(8, 8 + n) =~= f.payload);
        assert(b.skip(8 + n) =~= tail);
        assert(kind_of_tag(tag_of_kind(f.kind)) == f.kind);
        lemma_demux_prepend(fs.skip(1), suffix);
        assert(demux(b).frames =~= fs + demux(suffix).frames);
        assert(demux(b).rest == demux(suffix).rest);
        assert(demux(b).ok == demux(suffix).ok);
    }
}

/// Round trip of the multiplex framing: encoding any sequence of
/// frames and demultiplexing the resulting bytes reproduces exactly
/// those frames, in order, ending on a unit boundary with every tag
/// recognized. Because [`FrameDecoder::push_chunk`] ties what a session
/// emits to `demux` of the concatenated input alone, the frames come
/// back whatever the chunk boundaries — down to one byte per chunk.
pub proof fn lemma_round_trip(fs: Seq<FrameView>)
    requires
        valid_frames(fs),
    ensures
        demux(encode_frames(fs)) == (DemuxResult {
            frames: fs,
            rest: Seq::<u8>::empty(),
            ok: true,
        }),
{
    lemma_demux_prepend(fs, Seq::<u8>::empty());
    assert(encode_frames(fs) + Seq::<u8>::empty() =~= encode_frames(fs));
    assert(fs + demux(Seq::<u8>::empty()).frames =~= fs);
}

/// A strict prefix of one wire unit: a partial header, or a full
/// header with a recognized tag whose declared payload has not fully
/// arrived.
pub open spec fn incomplete_unit(t: Seq<u8>) -> bool {
    t.len() > 0 && (t.len() < 8 || (t[0] <= 2 && t.len() < 8 + be_u32(t.subrange(4, 8))))
}

/// Truncation detection: a multiplexed byte sequence that ends
/// mid-header or mid-payload decodes to exactly the frames of its
/// complete units — no partial frame is emitted for the trailing
/// bytes — and leaves a non-empty carry-over, on which
/// [`FrameDecoder::finish`] reports a truncated frame.
pub proof fn lemma_truncation_detected(fs: Seq<FrameView>, t: Seq<u8>)
    requires
        valid_frames(fs),
        incomplete_unit(t),
    ensures
        demux(encode_frames(fs) + t) == (DemuxResult { frames: fs, rest: t, ok: true }),
        demux(encode_frames(fs) + t).rest.len() > 0,
{
    lemma_demux_prepend(fs, t);
    assert(demux(t) =~= (DemuxResult { frames: Seq::<FrameView>::empty(), rest: t, ok: true }));
    assert(fs + demux(t).frames =~= fs);
}

/// Concatenation of the payloads of a sequence of frames.
pub open spec fn concat_payloads(fs: Seq<FrameView>) -> Seq<u8>
    decreases fs.len(),
{
    if fs.len() == 0 {
        seq![]
    } else {
        fs[0].payload + concat_payloads(fs.skip(1))
    }
}

proof fn lemma_concat_payloads_push(fs: Seq<FrameView>, f: FrameView)
    ensures
        concat_payloads(fs.push(f)) == concat_payloads(fs) + f.payload,
    decreases fs.len(),
{
    if fs.len() == 0 {
        assert(fs.push(f)[0] == f);
        assert(fs.push(f).skip(1) =~= Seq::<FrameView>::empty());
        assert(concat_payloads(fs.push(f)) == f.payload + concat_payloads(Seq::<
            FrameView,
        >::empty()));
        assert(concat_payloads(fs.push(f)) =~= concat_payloads(fs) + f.payload);
    } else {
        assert(fs.push(f)[0] == fs[0]);
        assert(fs.push(f).skip(1) =~= fs.skip(1).push(f));
        lemma_concat_payloads_push(fs.skip(1), f);
        assert(concat_payloads(fs.push(f)) == fs[0].payload + (concat_payloads(fs.skip(1))
            + f.payload));
        assert(concat_payloads(fs.push(f)) =~= concat_payloads(fs) + f.payload);
    }
}

/// Decoder for one streaming session: turns arbitrarily chunked bytes
/// into ordered frames.
///
/// The decoder is driven pull-by-pull: each transport chunk goes
/// through [`FrameDecoder::push_chunk`], and when the transport closes,
/// [`FrameDecoder::finish`] says whether the stream ended on a unit
/// boundary. Ghost state records every byte ever consumed and every
/// frame ever emitted, so the contracts pin the emitted frames to
/// exactly `demux` of the concatenated input, whatever the chunking.
pub struct FrameDecoder {
    mode: StreamMode,
    buf: Vec<u8>,
    failed: bool,
    history: Ghost<Seq<u8>>,
    emitted: Ghost<Seq<FrameView>>,
}

impl FrameDecoder {
    /// The wire encoding this session was opened with.
    pub closed spec fn mode(self) -> StreamMode {
        self.mode
    }

    /// Every byte consumed so far, in arrival order.
    pub closed spec fn history(self) -> Seq<u8> {
        self.history@
    }

    /// Every frame emitted so far, in emission order.
    pub closed spec fn emitted(self) -> Seq<FrameView> {
        self.emitted@
    }

    /// Whether the session has terminally failed on an unknown tag.
    pub closed spec fn failed(self) -> bool {
        self.failed
    }

    /// The decoder's invariant: what was emitted is exactly what
    /// demultiplexing the consumed bytes yields, and the carry-over
    /// buffer holds exactly the trailing incomplete unit. In raw mode
    /// the emitted payloads concatenate to the consumed bytes and
    /// every frame is tagged stdout.
    pub closed spec fn wf(self) -> bool {
        match self.mode {
            StreamMode::Multiplexed => {
                let d = demux(self.history@);
                &&& self.emitted@ == d.frames
                &&& if self.failed {
                    !d.ok
                } else {
                    d.ok && self.buf@ == d.rest
                }
            },
            StreamMode::Raw => {
                &&& !self.failed
                &&& concat_payloads(self.emitted@) == self.history@
                &&& forall|i: int|
                    0 <= i < self.emitted@.len() ==> (#[trigger] self.emitted@[i]).kind
                        == FrameKind::Stdout
                &&& self.buf@ == Seq::<u8>::empty()
            },
        }
    }

    /// Open a decode session. The mode is fixed for the session's life.
    pub fn new(mode: StreamMode) -> (d: FrameDecoder)
        ensures
            d.wf(),
            d.mode() == mode,
            d.history() == Seq::<u8>::empty(),
            d.emitted() == Seq::<FrameView>::empty(),
            !d.failed(),
    {
        let d = FrameDecoder {
            mode,
            buf: Vec::new(),
            failed: false,
            history: Ghost(Seq::empty()),
            emitted: Ghost(Seq::empty()),
        };
        proof {
            assert(demux(Seq::<u8>::empty()).frames =~= Seq::<FrameView>::empty());
        }
        d
    }

    /// Consume one transport chunk and return the frames it completes,
    /// along with the terminal protocol error if a header carried an
    /// unknown stream-type tag. Frames completed before such an error
    /// are still returned: partial output is never retracted.
    ///
    /// In multiplexed mode the frames returned across all calls are
    /// exactly `demux` of the concatenated chunks; in raw mode the
    /// chunk comes back verbatim as one stdout-tagged frame.
    pub fn push_chunk(&mut self, chunk: &[u8]) -> (r: (Vec<Frame>, Option<ProtocolError>))
        requires
            old(self).wf(),
            !old(self).failed(),
        ensures
            final(self).wf(),
            final(self).mode() == old(self).mode(),
            final(self).history() == old(self).history() + chunk@,
            final(self).emitted() == old(self).emitted() + frame_views(r.0@),
            r.1 matches Some(e) ==> {
                &&& e == ProtocolError::UnknownFrameKind
                &&& final(self).failed()
                &&& old(self).mode() == StreamMode::Multiplexed
                &&& !demux(final(self).history()).ok
            },
            r.1 is None ==> !final(self).failed(),
            old(self).mode() == StreamMode::Multiplexed && r.1 is None ==> demux(
                final(self).history(),
            ).ok,
            old(self).mode() == StreamMode::Raw ==> {
                &&& r.1 is None
                &&& r.0@.len() == 1
                &&& r.0@[0]@ == (FrameView { kind: FrameKind::Stdout, payload: chunk@ })
            },
    {
        match self.mode {
            StreamMode::Raw => {
                let payload = vstd::slice::slice_to_vec(chunk);
                let f = Frame { kind: FrameKind::Stdout, payload };
                let mut out: Vec<Frame> = Vec::new();
                out.push(f);
                proof {
                    lemma_concat_payloads_push(self.emitted@, out@[0]@);
                    self.history@ = self.history@ + chunk@;
                    self.emitted@ = self.emitted@.push(out@[0]@);
                    assert(frame_views(out@) =~= seq![out@[0]@]);
                    assert(self.emitted@ =~= old(self).emitted() + frame_views(out@));
                }
                (out, None)
            },
            StreamMode::Multiplexed => self.push_multiplexed(chunk),
        }
    }

    /// The multiplexed-mode body of [`FrameDecoder::push_chunk`].
    #[verifier::loop_isolation(false)]
    fn push_multiplexed(&mut self, chunk: &[u8]) -> (r: (Vec<Frame>, Option<ProtocolError>))
        requires
            old(self).wf(),
            !old(self).failed(),
            old(self).mode() == StreamMode::Multiplexed,
        ensures
            final(self).wf(),
            final(self).mode() == old(self).mode(),
            final(self).history() == old(self).history() + chunk@,
            final(self).emitted() == old(self).emitted() + frame_views(r.0@),
            r.1 matches Some(e) ==> {
                &&& e == ProtocolError::UnknownFrameKind
                &&& final(self).failed()
                &&& !demux(final(self).history()).ok
            },
            r.1 is None ==> !final(self).failed() && demux(final(self).history()).ok,
    {
        append_bytes(&mut self.buf, chunk);
        let ghost w = self.buf@;
        let ghost h2 = old(self).history() + chunk@;
        proof {
            lemma_demux_extend(old(self).history(), chunk@);
            assert(demux(h2).frames == old(self).emitted() + demux(w).frames);
            assert(demux(h2).rest == demux(w).rest);
            assert(demux(h2).ok == demux(w).ok);
        }
        let mut out: Vec<Frame> = Vec::new();
        let mut offset: usize = 0;
        proof {
            assert(w.skip(0) =~= w);
            assert(frame_views(out@) =~= Seq::<FrameView>::empty());
            assert(demux(w).frames =~= frame_views(out@) + demux(w.skip(0)).frames);
        }
        let mut done: bool = false;
        while !done
            invariant
                self.buf@ == w,
                offset <= self.buf.len(),
                self.mode == StreamMode::Multiplexed,
                !self.failed,
                self.history@ == old(self).history(),
                self.emitted@ == old(self).emitted(),
                demux(w).frames == frame_views(out@) + demux(w.skip(offset as int)).frames,
                demux(w).rest == demux(w.skip(offset as int)).rest,
                demux(w).ok == demux(w.skip(offset as int)).ok,
                done ==> demux(w.skip(offset as int)) == (DemuxResult {
                    frames: Seq::<FrameView>::empty(),
                    rest: w.skip(offset as int),
                    ok: true,
                }),
            decreases self.buf.len() - offset, (if done { 0int } else { 1int }),
        {
            let ghost ws = w.skip(offset as int);
            let rem = self.buf.len() - offset;
            if rem < 8 {
                proof {
                    assert(ws.len() == rem);
                    assert(demux(ws) =~= (DemuxResult {
                        frames: Seq::<FrameView>::empty(),
                        rest: ws,
                        ok: true,
                    }));
                }
                done = true;
            } else {
                assert(ws.len() == rem >= 8);
                let tag = self.buf[offset];
                assert(ws[0] == w[offset as int]);
                if tag > 2 {
                    proof {
                        assert(demux(ws).frames =~= Seq::<FrameView>::empty());
                        assert(!demux(ws).ok);
                        assert(demux(w).frames =~= frame_views(out@));
                        self.history@ = h2;
                        self.emitted@ = self.emitted@ + frame_views(out@);
                    }
                    self.failed = true;
                    return (out, Some(ProtocolError::UnknownFrameKind));
                }
                let b4 = self.buf[offset + 4];
                let b5 = self.buf[offset + 5];
                let b6 = self.buf[offset + 6];
                let b7 = self.buf[offset + 7];
                let n: u32 = (b4 as u32) * 0x1000000 + (b5 as u32) * 0x10000 + (b6 as u32) * 0x100
                    + (b7 as u32);
                proof {
                    assert(ws.subrange(4, 8) =~= seq![b4, b5, b6, b7]);
                    assert(be_u32(ws.subrange(4, 8)) == n);
                }
                if ((rem - 8) as u64) < (n as u64) {
                    proof {
                        assert(ws.len() < 8 + n);
                        assert(demux(ws) =~= (DemuxResult {
                            frames: Seq::<FrameView>::empty(),
                            rest: ws,
                            ok: true,
                        }));
                    }
                    done = true;
                } else {
                    assert(ws.len() >= 8 + n);
                    let payload = copy_range(&self.buf, offset + 8, offset + 8 + (n as usize));
                    proof {
                        assert(payload@ =~= ws.subrange(8, 8 + n as int));
                    }
                    let f = Frame { kind: kind_from_tag(tag), payload };
                    let ghost prev = out@;
                    let ghost fg = f;
                    let ghost fv = f@;
                    out.push(f);
                    let ghost next = offset + 8 + n as int;
                    proof {
                        assert(w.skip(next) =~= ws.skip(8 + n as int));
                        assert(demux(ws).frames == seq![fv] + demux(w.skip(next)).frames);
                        assert(demux(ws).rest == demux(w.skip(next)).rest);
                        assert(demux(ws).ok == demux(w.skip(next)).ok);
                        assert(out@ == prev.push(fg));
                        assert(frame_views(out@) =~= frame_views(prev).push(fv));
                        assert(frame_views(prev) + demux(ws).frames =~= frame_views(out@) + demux(
                            w.skip(next),
                        ).frames);
                        assert(demux(w).frames == frame_views(out@) + demux(w.skip(next)).frames);
                    }
                    offset = offset + 8 + (n as usize);
                }
            }
        }
        let ghost ws = w.skip(offset as int);
        proof {
            assert(demux(w).frames =~= frame_views(out@));
        }
        let tail = copy_range(&self.buf, offset, self.buf.len());
        self.buf = tail;
        proof {
            assert(self.buf@ =~= ws);
            self.history@ = h2;
            self.emitted@ = self.emitted@ + frame_views(out@);
        }
        (out, None)
    }

    /// Close the session at end of stream. A multiplexed stream that
    /// ends with buffered bytes — mid-header or mid-payload — is
    /// truncated and no partial frame is emitted for it; ending exactly
    /// on a unit boundary is a normal completion. A raw stream always
    /// completes.
    pub fn finish(&self) -> (r: Result<(), ProtocolError>)
        requires
            self.wf(),
            !self.failed(),
        ensures
            r is Ok <==> (self.mode() == StreamMode::Raw || demux(self.history()).rest.len() == 0),
            r matches Err(e) ==> e == ProtocolError::TruncatedFrame,
    {
        match self.mode {
            StreamMode::Raw => Ok(()),
            StreamMode::Multiplexed => {
                if self.buf.len() == 0 {
                    Ok(())
                } else {
                    Err(ProtocolError::TruncatedFrame)
                }
            },
        }
    }
}

/// What a multiplexed session has emitted is exactly the decoded units
/// of what it consumed: the frames of `demux` over the concatenated
/// chunks, in order. With [`FrameDecoder::push_chunk`]'s history
/// clause this makes the emitted frames a pure function of the bytes,
/// whatever the chunking — so byte-identical streams decode alike, a
/// wire encoding comes back as exactly its frames
/// ([`lemma_round_trip`]), a truncated tail emits no partial frame
/// ([`lemma_truncation_detected`]), and an unknown tag emits nothing
/// from its unit on.
pub proof fn lemma_multiplexed_emitted(d: FrameDecoder)
    requires
        d.wf(),
        d.mode() == StreamMode::Multiplexed,
    ensures
        d.emitted() == demux(d.history()).frames,
        d.failed() == !demux(d.history()).ok,
{
}

/// Raw-mode identity: over any session in raw passthrough mode, the
/// concatenation of all emitted frame payloads equals the concatenation
/// of all input chunks, whatever the chunking was.
pub proof fn lemma_raw_identity(d: FrameDecoder)
    requires
        d.wf(),
        d.mode() == StreamMode::Raw,
    ensures
        concat_payloads(d.emitted()) == d.history(),
{
}

/// The stream-type tag of a frame kind, as executable code.
fn tag_from_kind(k: FrameKind) -> (t: u8)
    ensures
        t == tag_of_kind(k),
{
    match k {
        FrameKind::Stdin => 0,
        FrameKind::Stdout => 1,
        FrameKind::Stderr => 2,
    }
}

/// Encode one frame into its wire unit: tag byte, three reserved zero
/// bytes, big-endian payload length, payload.
pub fn encode_frame_bytes(f: &Frame) -> (out: Vec<u8>)
    requires
        valid_frame(f@),
    ensures
        out@ == encode_frame(f@),
{
    let mut out: Vec<u8> = Vec::new();
    out.push(tag_from_kind(f.kind));
    out.push(0);
    out.push(0);
    out.push(0);
    let l: u64 = f.payload.len() as u64;
    out.push((l / 0x1000000) as u8);
    out.push(((l % 0x1000000) / 0x10000) as u8);
    out.push(((l % 0x10000) / 0x100) as u8);
    out.push((l % 0x100) as u8);
    proof {
        assert(out@ =~= seq![tag_of_kind(f.kind), 0u8, 0u8, 0u8] + be_bytes(
            f.payload.len() as int,
        ));
    }
    append_bytes(&mut out, f.payload.as_slice());
    proof {
        assert(out@ =~= encode_frame(f@));
    }
    out
}

/// The frame kind named by a wire tag, as executable code.
fn kind_from_tag(t: u8) -> (k: FrameKind)
    requires
        t <= 2,
    ensures
        k == kind_of_tag(t),
{
    if t == 0 {
        FrameKind::Stdin
    } else if t == 1 {
        FrameKind::Stdout
    } else {
        FrameKind::Stderr
    }
}

} // verus!
