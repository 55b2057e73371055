//! Framing across whole streams: several messages, boundaries, truncation.

use jsonl::{read, Json, MemSink, MemSource, RecvError};

#[test]
fn two_messages_read_back_in_order() {
    let v1 = Json::Obj(vec![("n".to_string(), Json::Int(1))]);
    let v2 = Json::Arr(vec![Json::Str("x".to_string()), Json::Bool(true)]);

    let mut sink = MemSink::new();
    jsonl::write(&mut sink, &v1).unwrap();
    jsonl::write(&mut sink, &v2).unwrap();

    let mut source = MemSource::new(sink.into_bytes());
    assert_eq!(read(&mut source).unwrap(), v1);
    assert_eq!(read(&mut source).unwrap(), v2);
    assert!(matches!(read(&mut source), Err(RecvError::Deserialize)));
}

#[test]
fn each_frame_ends_with_exactly_one_newline() {
    let v = Json::Obj(vec![("text".to_string(), Json::Str("a\nb".to_string()))]);
    let mut sink = MemSink::new();
    jsonl::write(&mut sink, &v).unwrap();
    let first = sink.bytes().clone();
    assert_eq!(first.iter().filter(|b| **b == b'\n').count(), 1);
    assert_eq!(*first.last().unwrap(), b'\n');

    jsonl::write(&mut sink, &v).unwrap();
    let both = sink.into_bytes();
    assert_eq!(both.iter().filter(|b| **b == b'\n').count(), 2);
    assert_eq!(both.len(), 2 * first.len());
    assert_eq!(&both[..first.len()], &first[..]);
}

#[test]
fn truncated_final_line_is_handed_out_whole() {
    let mut source = MemSource::new(b"7".to_vec());
    assert_eq!(read(&mut source).unwrap(), Json::Int(7));

    let mut source = MemSource::new(b"{\"a\"".to_vec());
    assert!(matches!(read(&mut source), Err(RecvError::Deserialize)));
}

#[test]
fn bad_line_is_consumed_and_reading_goes_on() {
    let mut source = MemSource::new(b"bad\n5\n".to_vec());
    assert!(matches!(read(&mut source), Err(RecvError::Deserialize)));
    assert_eq!(read(&mut source).unwrap(), Json::Int(5));
}

#[test]
fn empty_stream_is_deserialize_failure() {
    let mut source = MemSource::new(Vec::new());
    assert!(matches!(read(&mut source), Err(RecvError::Deserialize)));
}

#[test]
fn mem_sink_accumulates_writes() {
    let mut sink = MemSink::new();
    jsonl::write(&mut sink, &Json::Int(1)).unwrap();
    jsonl::write(&mut sink, &Json::Int(2)).unwrap();
    assert_eq!(sink.into_bytes(), b"1\n2\n".to_vec());
}
