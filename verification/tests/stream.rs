use rl_bc_uploader::framing::{Framer, Scan, StreamBuffer};

/// Walks a buffer with serde_json's stream reader, as the listener does, and
/// returns the envelopes' texts and how many bytes are done with.
fn walk(bytes: &[u8]) -> (Vec<String>, usize) {
    let mut iter = serde_json::Deserializer::from_slice(bytes).into_iter::<serde_json::Value>();
    let mut framer = Framer::new(bytes.len());
    let mut seen = Vec::new();
    while !framer.done {
        let scan = match iter.next() {
            None => Scan::Exhausted { end: iter.byte_offset() },
            Some(Ok(v)) => {
                if v.get("Event").and_then(|e| e.as_str()).is_some() {
                    seen.push(v["Event"].as_str().unwrap().to_string());
                    Scan::Envelope { end: iter.byte_offset() }
                } else {
                    Scan::Malformed
                }
            }
            Some(Err(e)) if e.is_eof() => Scan::Incomplete,
            Some(Err(_)) => Scan::Malformed,
        };
        assert!(framer.fits(scan));
        framer.step(scan);
    }
    (seen, framer.consumed)
}

#[test]
fn envelopes_split_across_reads_are_handled_once() {
    let a = br#"{"Event":"MatchCreated","Data":"{}"}"#;
    let b = br#"{"Event":"MatchEnded","Data":"{\"MatchGuid\":\"G\",\"WinnerTeamNum\":0}"}"#;
    let mut stream: Vec<u8> = Vec::new();
    stream.extend_from_slice(a);
    stream.extend_from_slice(b);
    stream.extend_from_slice(b"\r\n");

    let mut buf = StreamBuffer::new();
    let mut events = Vec::new();
    for chunk in stream.chunks(17) {
        buf.receive(chunk);
        let (seen, consumed) = walk(buf.as_slice());
        events.extend(seen);
        buf.discard(consumed);
    }
    assert_eq!(events, vec!["MatchCreated".to_string(), "MatchEnded".to_string()]);
    assert_eq!(buf.len(), 0);
}

#[test]
fn garbage_is_dropped_one_byte_per_walk() {
    let mut buf = StreamBuffer::new();
    buf.receive(b"xx{\"Event\":\"RoundStarted\",\"Data\":\"{}\"}");
    let (seen, consumed) = walk(buf.as_slice());
    assert!(seen.is_empty());
    assert_eq!(consumed, 1);
    buf.discard(consumed);
    let (seen, consumed) = walk(buf.as_slice());
    assert!(seen.is_empty());
    assert_eq!(consumed, 1);
    buf.discard(consumed);
    let (seen, consumed) = walk(buf.as_slice());
    assert_eq!(seen, vec!["RoundStarted".to_string()]);
    assert_eq!(consumed, buf.len());
}
