//! Per-stream session state machines: the layer an I/O driver polls.
//!
//! A streaming operation pairs a one-shot preparatory request with the
//! chunk sequence of its response. The preparation — serializing the
//! body, computing the endpoint — happens eagerly here, before any
//! chunk arrives. The driver then runs a strictly pull-based loop: it
//! pulls a chunk only while the session asks for one, hands it in, and
//! hands in end-of-stream once; the session decides everything else.
//! A session reaches exactly one terminal phase and then asks for no
//! further pull, so a driver that follows [`TtySession::wants_pull`]
//! stops touching the transport the moment the stream completes,
//! fails, or is abandoned.

use vstd::prelude::*;

use crate::conn::{HttpMethod, PreparedRequest};
use crate::error::{ClientError, ProtocolError};
use crate::exec::{exec_opts_json, Exec, ExecContainerOpts};
use crate::lines::split_lines;
use crate::records::{all_ok, json_ok, ok_prefix, RecordDecoder};
use crate::tty::{
    concat_payloads, demux, frame_views, lemma_multiplexed_emitted, lemma_raw_identity, Frame,
    FrameDecoder, FrameKind, FrameView, StreamMode,
};

verus! {

/// Where a stream session stands: pulling, or in its one terminal
/// state.
#[derive(Clone, Copy, Debug, PartialEq, Eq, Structural)]
pub enum StreamPhase {
    /// The session wants the next chunk.
    Running,
    /// The daemon closed the stream on a clean boundary.
    Completed,
    /// The stream ended in a terminal failure; no further record or
    /// frame follows.
    Failed(ProtocolError),
    /// The consumer walked away before a terminal state; the transport
    /// must not be pulled again.
    Abandoned,
}

/// The request that creates an exec instance under a container, shaped
/// eagerly from the options.
pub fn prepare_exec_create(container_id: &str, opts: &ExecContainerOpts) -> (r: Result<
    PreparedRequest,
    ClientError,
>)
    ensures
        r matches Ok(p) && {
            &&& p.method == HttpMethod::Post
            &&& p.path@ == "/containers/"@ + container_id@ + "/exec"@
            &&& p.body matches Some(b) && b@ == exec_opts_json(opts@)
        },
{
    let body = match opts.serialize() {
        Ok(b) => b,
        Err(e) => { return Err(e) },
    };
    Ok(
        PreparedRequest {
            method: HttpMethod::Post,
            path: Exec::create_endpoint(container_id),
            body: Some(body),
        },
    )
}

/// The request that starts an exec instance; its response is the
/// stream a [`TtySession`] decodes.
pub fn prepare_exec_start(exec: &Exec) -> (p: PreparedRequest)
    ensures
        p.method == HttpMethod::Post,
        p.path@ == "/exec/"@ + exec@ + "/start"@,
        p.body matches Some(b) && b@ == "{}"@,
{
    PreparedRequest {
        method: HttpMethod::Post,
        path: exec.start_endpoint(),
        body: Some(String::from_str("{}")),
    }
}

/// One multiplexed (or raw) output stream being consumed.
pub struct TtySession {
    phase: StreamPhase,
    decoder: FrameDecoder,
}

impl TtySession {
    /// Where the session stands.
    pub closed spec fn phase(self) -> StreamPhase {
        self.phase
    }

    /// Whether the driver should pull another chunk: only while
    /// running. Every terminal phase is absorbing — no method accepts a
    /// session that left `Running` — so once this turns false it stays
    /// false, and the transport is never pulled again.
    pub open spec fn wants_pull(self) -> bool {
        self.phase() == StreamPhase::Running
    }

    /// The wire encoding this session was opened with.
    pub closed spec fn mode(self) -> StreamMode {
        self.decoder.mode()
    }

    /// Every byte consumed so far.
    pub closed spec fn history(self) -> Seq<u8> {
        self.decoder.history()
    }

    /// Every frame emitted so far.
    pub closed spec fn emitted(self) -> Seq<FrameView> {
        self.decoder.emitted()
    }

    /// The session's invariant.
    pub closed spec fn wf(self) -> bool {
        &&& self.decoder.wf()
        &&& self.phase == StreamPhase::Running ==> !self.decoder.failed()
    }

    /// Open a session in the mode the exec instance was created with:
    /// raw passthrough when it got a pseudo-terminal, multiplexed
    /// otherwise.
    pub fn new(mode: StreamMode) -> (s: TtySession)
        ensures
            s.wf(),
            s.phase() == StreamPhase::Running,
            s.mode() == mode,
            s.history() == Seq::<u8>::empty(),
            s.emitted() == Seq::<FrameView>::empty(),
    {
        TtySession { phase: StreamPhase::Running, decoder: FrameDecoder::new(mode) }
    }

    /// Whether the session still wants the next chunk, as executable
    /// code for the driver's loop condition.
    pub fn is_running(&self) -> (r: bool)
        ensures
            r == self.wants_pull(),
    {
        self.phase == StreamPhase::Running
    }

    /// Hand in one pulled chunk; out come the frames it completes, and
    /// the terminal error if the stream just failed. Frames returned
    /// beside an error were completed before it and stay valid.
    pub fn on_chunk(&mut self, chunk: &[u8]) -> (r: (Vec<Frame>, Option<ProtocolError>))
        requires
            old(self).wf(),
            old(self).phase() == StreamPhase::Running,
        ensures
            final(self).wf(),
            final(self).mode() == old(self).mode(),
            final(self).history() == old(self).history() + chunk@,
            final(self).emitted() == old(self).emitted() + frame_views(r.0@),
            r.1 matches Some(e) ==> final(self).phase() == StreamPhase::Failed(e) && e
                == ProtocolError::UnknownFrameKind,
            r.1 is None ==> final(self).phase() == StreamPhase::Running && (old(self).mode()
                == StreamMode::Multiplexed ==> demux(final(self).history()).ok),
            old(self).mode() == StreamMode::Raw ==> r.1 is None && r.0@.len() == 1 && r.0@[0]@ == (
            FrameView { kind: FrameKind::Stdout, payload: chunk@ }),
    {
        let (frames, err) = self.decoder.push_chunk(chunk);
        match err {
            Some(e) => {
                self.phase = StreamPhase::Failed(e);
                (frames, Some(e))
            },
            None => (frames, None),
        }
    }

    /// Hand in end of stream: the daemon closed the connection. A
    /// multiplexed stream that ends with buffered bytes is truncated;
    /// ending on a unit boundary, or any raw stream, completes.
    pub fn on_eof(&mut self) -> (r: Result<(), ProtocolError>)
        requires
            old(self).wf(),
            old(self).phase() == StreamPhase::Running,
        ensures
            final(self).wf(),
            final(self).history() == old(self).history(),
            final(self).emitted() == old(self).emitted(),
            r is Ok <==> (old(self).mode() == StreamMode::Raw || demux(
                old(self).history(),
            ).rest.len() == 0),
            r matches Ok(u) ==> final(self).phase() == StreamPhase::Completed,
            r matches Err(e) ==> e == ProtocolError::TruncatedFrame && final(self).phase()
                == StreamPhase::Failed(e),
    {
        match self.decoder.finish() {
            Ok(()) => {
                self.phase = StreamPhase::Completed;
                Ok(())
            },
            Err(e) => {
                self.phase = StreamPhase::Failed(e);
                Err(e)
            },
        }
    }

    /// Walk away from the stream before it reaches a terminal state.
    /// The session asks for no further pull, so the driver drops the
    /// response body — and with it the connection resource — at once.
    pub fn abandon(&mut self)
        requires
            old(self).wf(),
            old(self).phase() == StreamPhase::Running,
        ensures
            final(self).wf(),
            final(self).phase() == StreamPhase::Abandoned,
            !final(self).wants_pull(),
            final(self).history() == old(self).history(),
            final(self).emitted() == old(self).emitted(),
    {
        self.phase = StreamPhase::Abandoned;
    }
}

/// The frames a multiplexed session has emitted are exactly the
/// decoded units of the bytes it consumed. With
/// [`TtySession::on_chunk`]'s history clause, the frames a driver has
/// collected are a pure function of the concatenated chunks: two
/// sessions fed byte-identical streams yield identical frames whatever
/// the chunk boundaries, a wire encoding yields back exactly its
/// frames, and a truncated or unknown-tagged tail yields no partial
/// frame.
pub proof fn lemma_session_frames(s: TtySession)
    requires
        s.wf(),
        s.mode() == StreamMode::Multiplexed,
    ensures
        s.emitted() == demux(s.history()).frames,
{
    lemma_multiplexed_emitted(s.decoder);
}

/// Raw-mode identity at the session level: the emitted payloads
/// concatenate to exactly the consumed bytes.
pub proof fn lemma_session_raw_identity(s: TtySession)
    requires
        s.wf(),
        s.mode() == StreamMode::Raw,
    ensures
        concat_payloads(s.emitted()) == s.history(),
{
    lemma_raw_identity(s.decoder);
}

/// Cancellation and completion stop the pulling: a session in any
/// terminal phase — completed, failed, or abandoned after consuming
/// any number of frames — asks for no further pull against the
/// transport, and no method of the session accepts it again, so no
/// work follows abandonment.
pub proof fn lemma_terminal_never_pulls(s: TtySession)
    requires
        s.phase() != StreamPhase::Running,
    ensures
        !s.wants_pull(),
{
}

/// One newline-delimited record stream being consumed.
pub struct RecordSession {
    phase: StreamPhase,
    decoder: RecordDecoder,
}

impl RecordSession {
    /// Where the session stands.
    pub closed spec fn phase(self) -> StreamPhase {
        self.phase
    }

    /// Whether the driver should pull another chunk; as for
    /// [`TtySession::wants_pull`], terminal phases are absorbing.
    pub open spec fn wants_pull(self) -> bool {
        self.phase() == StreamPhase::Running
    }

    /// Every byte consumed so far.
    pub closed spec fn history(self) -> Seq<u8> {
        self.decoder.history()
    }

    /// The lines whose records have been emitted.
    pub closed spec fn emitted_lines(self) -> Seq<Seq<u8>> {
        self.decoder.emitted_lines()
    }

    /// The session's invariant.
    pub closed spec fn wf(self) -> bool {
        &&& self.decoder.wf()
        &&& self.phase == StreamPhase::Running ==> !self.decoder.failed()
    }

    /// Open a session.
    pub fn new() -> (s: RecordSession)
        ensures
            s.wf(),
            s.phase() == StreamPhase::Running,
            s.history() == Seq::<u8>::empty(),
            s.emitted_lines() == Seq::<Seq<u8>>::empty(),
    {
        RecordSession { phase: StreamPhase::Running, decoder: RecordDecoder::new() }
    }

    /// Whether the session still wants the next chunk, as executable
    /// code for the driver's loop condition.
    pub fn is_running(&self) -> (r: bool)
        ensures
            r == self.wants_pull(),
    {
        self.phase == StreamPhase::Running
    }

    /// Hand in one pulled chunk; out come the records of the lines it
    /// completes, or the malformed-record failure. Records emitted by
    /// earlier calls stay valid; none after a malformed line are ever
    /// emitted.
    pub fn on_chunk(&mut self, chunk: &[u8]) -> (r: (
        Vec<serde_json::Value>,
        Option<ProtocolError>,
    ))
        requires
            old(self).wf(),
            old(self).phase() == StreamPhase::Running,
        ensures
            final(self).wf(),
            final(self).history() == old(self).history() + chunk@,
            final(self).emitted_lines() == ok_prefix(split_lines(final(self).history()).lines),
            r.1 is None <==> all_ok(split_lines(final(self).history()).lines),
            old(self).emitted_lines().len() + r.0@.len() == final(self).emitted_lines().len(),
            r.1 is None ==> final(self).phase() == StreamPhase::Running,
            r.1 matches Some(e) ==> e == ProtocolError::MalformedRecord && final(self).phase()
                == StreamPhase::Failed(e),
    {
        let (vals, err) = self.decoder.push_chunk(chunk);
        match err {
            Some(e) => {
                self.phase = StreamPhase::Failed(e);
                (vals, Some(e))
            },
            None => (vals, None),
        }
    }

    /// Hand in end of stream. A trailing unterminated line that parses
    /// on its own comes back as the final record; the session always
    /// completes.
    pub fn on_eof(&mut self) -> (r: Option<serde_json::Value>)
        requires
            old(self).wf(),
            old(self).phase() == StreamPhase::Running,
        ensures
            final(self).wf(),
            final(self).phase() == StreamPhase::Completed,
            final(self).history() == old(self).history(),
            r is Some <==> split_lines(old(self).history()).rest.len() > 0 && json_ok(
                split_lines(old(self).history()).rest,
            ),
    {
        let tail = self.decoder.finish();
        self.phase = StreamPhase::Completed;
        tail
    }

    /// Walk away from the stream before it reaches a terminal state;
    /// no further pull is asked for.
    pub fn abandon(&mut self)
        requires
            old(self).wf(),
            old(self).phase() == StreamPhase::Running,
        ensures
            final(self).wf(),
            final(self).phase() == StreamPhase::Abandoned,
            !final(self).wants_pull(),
            final(self).history() == old(self).history(),
    {
        self.phase = StreamPhase::Abandoned;
    }
}

} // verus!
