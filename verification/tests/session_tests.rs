use docker_api::error::ProtocolError;
use docker_api::session::{RecordSession, TtySession};
use docker_api::tty::{encode_frame_bytes, Frame, FrameKind, StreamMode};

fn wire_of(frames: &[(FrameKind, &str)]) -> Vec<u8> {
    let mut wire: Vec<u8> = Vec::new();
    for (kind, payload) in frames {
        let f = Frame { kind: *kind, payload: payload.as_bytes().to_vec() };
        wire.extend_from_slice(&encode_frame_bytes(&f));
    }
    wire
}

#[test]
fn tty_session_runs_to_completion() {
    let wire = wire_of(&[(FrameKind::Stdout, "one"), (FrameKind::Stderr, "two")]);
    let mut s = TtySession::new(StreamMode::Multiplexed);
    let mut got: Vec<Frame> = Vec::new();
    for part in wire.chunks(3) {
        assert!(s.is_running());
        let (frames, err) = s.on_chunk(part);
        assert!(err.is_none());
        got.extend(frames);
    }
    assert!(s.is_running());
    assert!(s.on_eof().is_ok());
    assert!(!s.is_running());
    assert_eq!(got.len(), 2);
    assert_eq!(got[0].payload, b"one".to_vec());
    assert_eq!(got[1].payload, b"two".to_vec());
}

#[test]
fn tty_session_truncation_is_terminal() {
    let mut s = TtySession::new(StreamMode::Multiplexed);
    let (frames, err) = s.on_chunk(&[1, 0, 0, 0, 0, 0]);
    assert!(frames.is_empty());
    assert!(err.is_none());
    assert_eq!(s.on_eof(), Err(ProtocolError::TruncatedFrame));
    assert!(!s.is_running());
}

#[test]
fn tty_session_unknown_tag_is_terminal() {
    let mut s = TtySession::new(StreamMode::Multiplexed);
    let (_, err) = s.on_chunk(&[9, 0, 0, 0, 0, 0, 0, 0]);
    assert_eq!(err, Some(ProtocolError::UnknownFrameKind));
    assert!(!s.is_running());
}

#[test]
fn abandoned_session_asks_for_no_further_pull() {
    let wire = wire_of(&[
        (FrameKind::Stdout, "first"),
        (FrameKind::Stdout, "second"),
        (FrameKind::Stdout, "never pulled"),
    ]);
    let mut s = TtySession::new(StreamMode::Multiplexed);
    // The driver pulls chunk by chunk; the consumer walks away after
    // two frames, before the stream is exhausted.
    let mut seen: usize = 0;
    let mut pulls: usize = 0;
    for part in wire.chunks(13) {
        if !s.is_running() {
            break;
        }
        pulls += 1;
        let (frames, err) = s.on_chunk(part);
        assert!(err.is_none());
        seen += frames.len();
        if seen >= 2 {
            s.abandon();
        }
    }
    assert!(!s.is_running());
    assert!(pulls < wire.chunks(13).count());
}

#[test]
fn record_session_emits_and_completes() {
    let mut s = RecordSession::new();
    let (first, err) = s.on_chunk(b"{\"a\":1}\n{\"b\"");
    assert!(err.is_none());
    assert_eq!(first.len(), 1);
    let (second, err) = s.on_chunk(b":2}\n");
    assert!(err.is_none());
    assert_eq!(second.len(), 1);
    assert!(s.is_running());
    assert!(s.on_eof().is_none());
    assert!(!s.is_running());
}

#[test]
fn record_session_malformed_is_terminal() {
    let mut s = RecordSession::new();
    let (vals, err) = s.on_chunk(b"{\"fine\":true}\nnonsense\n{\"ignored\":0}\n");
    assert_eq!(vals.len(), 1);
    assert_eq!(err, Some(ProtocolError::MalformedRecord));
    assert!(!s.is_running());
}

#[test]
fn record_session_trailing_record_at_eof() {
    let mut s = RecordSession::new();
    let (vals, err) = s.on_chunk(b"null");
    assert!(err.is_none());
    assert!(vals.is_empty());
    let tail = s.on_eof().expect("final record");
    assert_eq!(tail, serde_json::Value::Null);
}
