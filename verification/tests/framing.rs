use rl_bc_uploader::framing::{Framer, Scan, StreamBuffer};

#[test]
fn complete_envelopes_and_trailing_space_are_all_consumed() {
    let mut f = Framer::new(40);
    f.step(Scan::Envelope { end: 15 });
    assert!(!f.done);
    f.step(Scan::Envelope { end: 30 });
    f.step(Scan::Exhausted { end: 40 });
    assert!(f.done);
    assert_eq!(f.consumed, 40);
}

#[test]
fn cut_off_envelope_is_kept_for_the_next_read() {
    let mut f = Framer::new(40);
    f.step(Scan::Envelope { end: 15 });
    f.step(Scan::Incomplete);
    assert!(f.done);
    assert_eq!(f.consumed, 15);
}

#[test]
fn malformed_input_drops_one_byte_after_the_last_envelope() {
    let mut f = Framer::new(40);
    f.step(Scan::Envelope { end: 15 });
    assert!(f.fits(Scan::Malformed));
    f.step(Scan::Malformed);
    assert_eq!(f.consumed, 16);
    let mut g = Framer::new(3);
    g.step(Scan::Malformed);
    assert_eq!(g.consumed, 1);
}

#[test]
fn reports_that_cannot_come_from_the_reader_do_not_fit() {
    let f = Framer::new(10);
    assert!(!f.fits(Scan::Envelope { end: 0 }));
    assert!(!f.fits(Scan::Envelope { end: 11 }));
    assert!(!f.fits(Scan::Exhausted { end: 11 }));
    assert!(f.fits(Scan::Exhausted { end: 10 }));
    assert!(!Framer::new(0).fits(Scan::Malformed));
}

#[test]
fn buffer_keeps_bytes_in_order() {
    let mut b = StreamBuffer::new();
    b.receive(b"{\"a\":1}");
    b.receive(b" {\"b\"");
    assert_eq!(b.as_slice(), b"{\"a\":1} {\"b\"");
    b.discard(7);
    assert_eq!(b.as_slice(), b" {\"b\"");
    assert_eq!(b.len(), 5);
    b.receive(b":2}");
    assert_eq!(b.as_slice(), b" {\"b\":2}");
    b.discard(b.len());
    assert_eq!(b.len(), 0);
}
