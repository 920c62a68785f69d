use docker_api::error::ProtocolError;
use docker_api::lines::LineDecoder;
use docker_api::records::RecordDecoder;

fn sample_records() -> Vec<serde_json::Value> {
    let mut obj = serde_json::Map::new();
    obj.insert("status".to_string(), serde_json::Value::String("pulling".to_string()));
    obj.insert("id".to_string(), serde_json::Value::String("layer1".to_string()));
    vec![
        serde_json::Value::Object(obj),
        serde_json::Value::String("plain".to_string()),
        serde_json::Value::Bool(true),
        serde_json::Value::Array(vec![
            serde_json::Value::Number(serde_json::Number::from(1u64)),
            serde_json::Value::Number(serde_json::Number::from(2u64)),
        ]),
    ]
}

fn joined(records: &[serde_json::Value]) -> Vec<u8> {
    let mut wire: Vec<u8> = Vec::new();
    for r in records {
        wire.extend_from_slice(serde_json::to_string(r).unwrap().as_bytes());
        wire.push(b'\n');
    }
    wire
}

#[test]
fn line_decoder_splits_across_chunks() {
    let mut d = LineDecoder::new();
    let mut lines: Vec<Vec<u8>> = Vec::new();
    lines.extend(d.push_chunk(b"alpha\nbe"));
    lines.extend(d.push_chunk(b"ta\ngam"));
    lines.extend(d.push_chunk(b"ma"));
    assert_eq!(lines, vec![b"alpha".to_vec(), b"beta".to_vec()]);
    assert_eq!(d.finish(), Some(b"gamma".to_vec()));
}

#[test]
fn line_decoder_empty_lines_and_clean_end() {
    let mut d = LineDecoder::new();
    let lines = d.push_chunk(b"\na\n\n");
    assert_eq!(lines, vec![b"".to_vec(), b"a".to_vec(), b"".to_vec()]);
    assert_eq!(d.finish(), None);
}

#[test]
fn record_round_trip_at_arbitrary_boundaries() {
    let want = sample_records();
    let wire = joined(&want);
    for chunk_len in [1usize, 2, 3, 7, wire.len()] {
        let mut d = RecordDecoder::new();
        let mut got: Vec<serde_json::Value> = Vec::new();
        for part in wire.chunks(chunk_len) {
            let (vals, err) = d.push_chunk(part);
            assert!(err.is_none());
            got.extend(vals);
        }
        assert!(d.finish().is_none());
        assert_eq!(got, want);
    }
}

#[test]
fn trailing_unterminated_record_is_emitted() {
    let mut d = RecordDecoder::new();
    let (got, err) = d.push_chunk(b"{\"done\":false}\n{\"done\":true}");
    assert!(err.is_none());
    assert_eq!(got.len(), 1);
    let tail = d.finish().expect("final record");
    assert_eq!(tail, serde_json::from_str::<serde_json::Value>("{\"done\":true}").unwrap());
}

#[test]
fn trailing_undecodable_bytes_are_discarded() {
    let mut d = RecordDecoder::new();
    let (got, err) = d.push_chunk(b"17\n{\"partial\":");
    assert!(err.is_none());
    assert_eq!(got.len(), 1);
    assert!(d.finish().is_none());
}

#[test]
fn malformed_first_line_fails_fast() {
    let mut d = RecordDecoder::new();
    let (got, err) = d.push_chunk(b"not json at all\n{\"valid\":1}\n{\"also\":2}\n");
    assert!(got.is_empty());
    assert_eq!(err, Some(ProtocolError::MalformedRecord));
}

#[test]
fn malformed_line_after_valid_records() {
    let mut d = RecordDecoder::new();
    let (got, err) = d.push_chunk(b"1\n2\n");
    assert!(err.is_none());
    assert_eq!(got.len(), 2);
    let (rest, err) = d.push_chunk(b"}{broken\n3\n");
    assert!(rest.is_empty());
    assert_eq!(err, Some(ProtocolError::MalformedRecord));
}
