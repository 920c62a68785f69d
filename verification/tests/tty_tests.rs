use docker_api::error::ProtocolError;
use docker_api::tty::{encode_frame_bytes, Frame, FrameDecoder, FrameKind, StreamMode};

fn frame(kind: FrameKind, payload: &str) -> Frame {
    Frame { kind, payload: payload.as_bytes().to_vec() }
}

fn encode_all(frames: &[Frame]) -> Vec<u8> {
    let mut wire: Vec<u8> = Vec::new();
    for f in frames {
        wire.extend_from_slice(&encode_frame_bytes(f));
    }
    wire
}

fn assert_same_frames(got: &[Frame], want: &[Frame]) {
    assert_eq!(got.len(), want.len());
    for (g, w) in got.iter().zip(want.iter()) {
        assert_eq!(g.kind, w.kind);
        assert_eq!(g.payload, w.payload);
    }
}

#[test]
fn encode_frame_exact_bytes() {
    let f = frame(FrameKind::Stdout, "AB");
    let bytes = encode_frame_bytes(&f);
    assert_eq!(bytes, vec![1, 0, 0, 0, 0, 0, 0, 2, b'A', b'B']);
    let f = frame(FrameKind::Stderr, "");
    assert_eq!(encode_frame_bytes(&f), vec![2, 0, 0, 0, 0, 0, 0, 0]);
}

#[test]
fn round_trip_one_byte_chunks() {
    let want = vec![
        frame(FrameKind::Stdout, "hello "),
        frame(FrameKind::Stderr, "oops"),
        frame(FrameKind::Stdout, "world\n"),
    ];
    let wire = encode_all(&want);
    let mut d = FrameDecoder::new(StreamMode::Multiplexed);
    let mut got: Vec<Frame> = Vec::new();
    for b in &wire {
        let (frames, err) = d.push_chunk(&[*b]);
        assert!(err.is_none());
        got.extend(frames);
    }
    assert!(d.finish().is_ok());
    assert_same_frames(&got, &want);
}

#[test]
fn round_trip_single_chunk() {
    let want = vec![frame(FrameKind::Stdin, "in"), frame(FrameKind::Stderr, "err")];
    let wire = encode_all(&want);
    let mut d = FrameDecoder::new(StreamMode::Multiplexed);
    let (got, err) = d.push_chunk(&wire);
    assert!(err.is_none());
    assert!(d.finish().is_ok());
    assert_same_frames(&got, &want);
}

#[test]
fn frame_spans_many_chunks() {
    let want = vec![frame(FrameKind::Stdout, "a longer payload than any chunk")];
    let wire = encode_all(&want);
    let mut d = FrameDecoder::new(StreamMode::Multiplexed);
    let mut got: Vec<Frame> = Vec::new();
    for part in wire.chunks(5) {
        let (frames, err) = d.push_chunk(part);
        assert!(err.is_none());
        got.extend(frames);
    }
    assert!(d.finish().is_ok());
    assert_same_frames(&got, &want);
}

#[test]
fn empty_stream_completes() {
    let d = FrameDecoder::new(StreamMode::Multiplexed);
    assert!(d.finish().is_ok());
}

#[test]
fn truncated_mid_header_fails() {
    let mut d = FrameDecoder::new(StreamMode::Multiplexed);
    let (frames, err) = d.push_chunk(&[1, 0, 0]);
    assert!(frames.is_empty());
    assert!(err.is_none());
    assert_eq!(d.finish(), Err(ProtocolError::TruncatedFrame));
}

#[test]
fn truncated_mid_payload_fails_without_partial_frame() {
    let want = vec![frame(FrameKind::Stdout, "whole")];
    let mut wire = encode_all(&want);
    wire.extend_from_slice(&[2, 0, 0, 0, 0, 0, 0, 4, b'x', b'y']);
    let mut d = FrameDecoder::new(StreamMode::Multiplexed);
    let (got, err) = d.push_chunk(&wire);
    assert!(err.is_none());
    assert_same_frames(&got, &want);
    assert_eq!(d.finish(), Err(ProtocolError::TruncatedFrame));
}

#[test]
fn unknown_tag_fails_after_earlier_frames() {
    let want = vec![frame(FrameKind::Stderr, "ok")];
    let mut wire = encode_all(&want);
    wire.extend_from_slice(&[7, 0, 0, 0, 0, 0, 0, 1, b'z']);
    let mut d = FrameDecoder::new(StreamMode::Multiplexed);
    let (got, err) = d.push_chunk(&wire);
    assert_eq!(err, Some(ProtocolError::UnknownFrameKind));
    assert_same_frames(&got, &want);
}

#[test]
fn raw_mode_identity() {
    let chunks: Vec<&[u8]> = vec![b"abc", b"", b"defg", b"\x01\x00zz"];
    let mut d = FrameDecoder::new(StreamMode::Raw);
    let mut all_payloads: Vec<u8> = Vec::new();
    let mut all_input: Vec<u8> = Vec::new();
    for c in &chunks {
        all_input.extend_from_slice(c);
        let (frames, err) = d.push_chunk(c);
        assert!(err.is_none());
        assert_eq!(frames.len(), 1);
        assert_eq!(frames[0].kind, FrameKind::Stdout);
        all_payloads.extend_from_slice(&frames[0].payload);
    }
    assert!(d.finish().is_ok());
    assert_eq!(all_payloads, all_input);
}
