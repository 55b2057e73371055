//! The Connection pairing and the error taxonomy.

use jsonl::{Connection, Json, MemSink, MemSource, RecvError, SendError, Sink, Source};

#[test]
fn connection_reads_and_writes() {
    let source = MemSource::new(b"1\n2\n".to_vec());
    let sink = MemSink::new();
    let mut conn = Connection::new(source, sink);

    assert_eq!(conn.read().unwrap(), Json::Int(1));
    conn.write(&Json::Int(3)).unwrap();
    assert_eq!(conn.read().unwrap(), Json::Int(2));
    conn.flush().unwrap();

    let (_, sink) = conn.into_parts();
    assert_eq!(sink.into_bytes(), b"3\n".to_vec());
}

struct FailSource;

impl Source for FailSource {
    fn remaining(&self) -> jsonl::ByteSeq {
        unreachable!()
    }

    fn read_one_line(&mut self) -> Result<Vec<u8>, std::io::Error> {
        Err(std::io::Error::new(std::io::ErrorKind::UnexpectedEof, "gone"))
    }
}

struct FailSink;

impl Sink for FailSink {
    fn sent(&self) -> jsonl::ByteSeq {
        unreachable!()
    }

    fn write_all_bytes(&mut self, _buf: &[u8]) -> Result<(), std::io::Error> {
        Err(std::io::Error::new(std::io::ErrorKind::BrokenPipe, "gone"))
    }

    fn flush(&mut self) -> Result<(), std::io::Error> {
        Err(std::io::Error::new(std::io::ErrorKind::BrokenPipe, "gone"))
    }
}

#[test]
fn failed_read_is_a_read_error() {
    let r = jsonl::read(&mut FailSource);
    assert!(matches!(r, Err(RecvError::Read(_))));
}

#[test]
fn failed_write_is_a_write_error() {
    let r = jsonl::write(&mut FailSink, &Json::Null);
    assert!(matches!(r, Err(SendError::Write(_))));
}

#[test]
fn failed_connection_calls_keep_the_kind() {
    let mut conn = Connection::new(FailSource, FailSink);
    assert!(matches!(conn.read(), Err(RecvError::Read(_))));
    assert!(matches!(conn.write(&Json::Int(1)), Err(SendError::Write(_))));
    assert!(conn.flush().is_err());
}

#[test]
fn errors_describe_themselves() {
    assert_eq!(RecvError::Deserialize.describe(), "failed deserializing JSON");
    assert_eq!(SendError::Serialize.describe(), "failed serializing JSON");
    let io = std::io::Error::new(std::io::ErrorKind::UnexpectedEof, "gone");
    assert_eq!(RecvError::Read(io).describe(), "failed reading message data from source");
    let io = std::io::Error::new(std::io::ErrorKind::BrokenPipe, "gone");
    assert_eq!(SendError::Write(io).describe(), "failed writing message data to sink");
}
