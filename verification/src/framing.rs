//! The byte stream of the Stats API: JSON envelopes sent one after another
//! with no delimiter between them, arriving in reads of any size.
//!
//! [`StreamBuffer`] holds the bytes received and not yet dealt with.
//! [`Framer`] decides, from what a JSON reader reports while it walks the
//! buffer envelope by envelope, how many leading bytes are done with: every
//! complete envelope, the white space after the last one, and one byte at a
//! place where the reader finds no envelope. A value cut off by the end of
//! the buffer is kept for the next read.
use vstd::prelude::*;

verus! {

/// The bytes received and not yet dealt with, in order.
pub struct StreamBuffer {
    bytes: Vec<u8>,
    /// Every byte received so far.
    received: Ghost<Seq<u8>>,
    /// The bytes dealt with (dropped from the front) so far.
    dropped: Ghost<Seq<u8>>,
}

impl View for StreamBuffer {
    type V = Seq<u8>;

    closed spec fn view(&self) -> Seq<u8> {
        self.bytes@
    }
}

impl StreamBuffer {
    /// Every byte received so far.
    pub closed spec fn received(&self) -> Seq<u8> {
        self.received@
    }

    /// Every byte dealt with so far.
    pub closed spec fn dropped(&self) -> Seq<u8> {
        self.dropped@
    }

    /// The buffer's invariant: what was received is what was dealt with
    /// followed by what is held, so that no byte is lost, repeated or
    /// reordered.
    pub open spec fn wf(&self) -> bool {
        self.received() == self.dropped() + self@
    }

    /// An empty buffer, with nothing received.
    pub fn new() -> (b: StreamBuffer)
        ensures
            b.wf(),
            b@ == Seq::<u8>::empty(),
            b.received() == Seq::<u8>::empty(),
            b.dropped() == Seq::<u8>::empty(),
    {
        let b = StreamBuffer {
            bytes: Vec::new(),
            received: Ghost(Seq::empty()),
            dropped: Ghost(Seq::empty()),
        };
        assert(b.received@ =~= b.dropped@ + b.bytes@);
        b
    }

    /// Appends the bytes of one read.
    pub fn receive(&mut self, chunk: &[u8])
        requires
            old(self).wf(),
        ensures
            final(self).wf(),
            final(self)@ == old(self)@ + chunk@,
            final(self).received() == old(self).received() + chunk@,
            final(self).dropped() == old(self).dropped(),
    {
        let mut i: usize = 0;
        let ghost start = self.bytes@;
        let ghost r0 = self.received@;
        let ghost d0 = self.dropped@;
        while i < chunk.len()
            invariant
                i <= chunk@.len(),
                self.received@ == r0,
                self.dropped@ == d0,
                r0 == d0 + start,
                self.bytes@ == start + chunk@.take(i as int),
            decreases chunk@.len() - i,
        {
            self.bytes.push(chunk[i]);
            i = i + 1;
            assert(self.bytes@ =~= start + chunk@.take(i as int));
        }
        assert(chunk@.take(chunk@.len() as int) =~= chunk@);
        self.received = Ghost(self.received@ + chunk@);
        assert(self.received@ =~= self.dropped@ + self.bytes@);
    }

    /// The bytes held.
    pub fn as_slice(&self) -> (s: &[u8])
        ensures
            s@ == self@,
    {
        self.bytes.as_slice()
    }

    /// The number of bytes held.
    pub fn len(&self) -> (n: usize)
        ensures
            n == self@.len(),
    {
        self.bytes.len()
    }

    /// Drops the first `n` bytes held: they are dealt with.
    pub fn discard(&mut self, n: usize)
        requires
            old(self).wf(),
            n <= old(self)@.len(),
        ensures
            final(self).wf(),
            final(self)@ == old(self)@.skip(n as int),
            final(self).dropped() == old(self).dropped() + old(self)@.take(n as int),
            final(self).received() == old(self).received(),
    {
        let ghost front = self.bytes@.take(n as int);
        let rest = self.bytes.split_off(n);
        self.bytes = rest;
        self.dropped = Ghost(self.dropped@ + front);
        assert(self.received@ =~= self.dropped@ + self.bytes@);
        assert(self.bytes@ =~= old(self)@.skip(n as int));
    }
}

/// What the JSON reader reports when asked for the next envelope.
#[derive(Debug, Clone, Copy, PartialEq, Eq, Structural)]
pub enum Scan {
    /// Nothing but white space was left; the reader now stands at `end`.
    Exhausted { end: usize },
    /// An envelope was read; it ends at `end`.
    Envelope { end: usize },
    /// The next value runs past the end of the buffer.
    Incomplete,
    /// What follows is not an envelope.
    Malformed,
}

/// The decisions taken while one buffer is walked.
pub struct Framer {
    /// The length of the buffer walked.
    pub len: usize,
    /// Where the last envelope read ends (0 before the first).
    pub pos: usize,
    /// How many leading bytes are dealt with.
    pub consumed: usize,
    /// Whether the walk is over.
    pub done: bool,
}

/// Whether a report can come from the reader at this point of the walk: an
/// envelope takes at least one byte and ends inside the buffer, the reader
/// only stops on white space inside the buffer, and a place without an
/// envelope holds at least one byte.
pub open spec fn scan_fits(f: Framer, scan: Scan) -> bool {
    match scan {
        Scan::Exhausted { end } => f.pos <= end <= f.len,
        Scan::Envelope { end } => f.pos < end <= f.len,
        Scan::Incomplete => true,
        Scan::Malformed => f.pos < f.len,
    }
}

/// The walk after one report: an envelope moves past it and deals with it;
/// white space to the end deals with everything; a cut-off value stops the
/// walk and keeps it; a place without an envelope stops the walk and deals
/// with exactly one byte after the last envelope.
pub open spec fn after_scan(f: Framer, scan: Scan) -> Framer {
    match scan {
        Scan::Exhausted { end } => Framer { consumed: end, done: true, ..f },
        Scan::Envelope { end } => Framer { pos: end, consumed: end, ..f },
        Scan::Incomplete => Framer { done: true, ..f },
        Scan::Malformed => Framer { consumed: (f.pos + 1) as usize, done: true, ..f },
    }
}

impl Framer {
    /// The framer's invariant: nothing beyond the buffer is dealt with, and
    /// while the walk goes on exactly the envelopes read so far are.
    pub open spec fn wf(&self) -> bool {
        &&& self.pos <= self.consumed <= self.len
        &&& !self.done ==> self.consumed == self.pos
    }

    /// The start of a walk over a buffer of `len` bytes.
    pub fn new(len: usize) -> (f: Framer)
        ensures
            f.wf(),
            f == (Framer { len, pos: 0, consumed: 0, done: false }),
    {
        Framer { len, pos: 0, consumed: 0, done: false }
    }

    /// Whether a report fits the walk at this point (see [`scan_fits`]).
    pub fn fits(&self, scan: Scan) -> (r: bool)
        ensures
            r == scan_fits(*self, scan),
    {
        match scan {
            Scan::Exhausted { end } => self.pos <= end && end <= self.len,
            Scan::Envelope { end } => self.pos < end && end <= self.len,
            Scan::Incomplete => true,
            Scan::Malformed => self.pos < self.len,
        }
    }

    /// Takes in one report of the reader.
    pub fn step(&mut self, scan: Scan)
        requires
            old(self).wf(),
            !old(self).done,
            scan_fits(*old(self), scan),
        ensures
            final(self).wf(),
            *final(self) == after_scan(*old(self), scan),
    {
        match scan {
            Scan::Exhausted { end } => {
                self.consumed = end;
                self.done = true;
            },
            Scan::Envelope { end } => {
                self.pos = end;
                self.consumed = end;
            },
            Scan::Incomplete => {
                self.done = true;
            },
            Scan::Malformed => {
                self.consumed = self.pos + 1;
                self.done = true;
            },
        }
    }
}

/// The walk after a whole run of reports, taken in order until one ends it.
pub open spec fn after_scans(f: Framer, scans: Seq<Scan>) -> Framer
    decreases scans.len(),
{
    if scans.len() == 0 || f.done {
        f
    } else {
        after_scans(after_scan(f, scans[0]), scans.drop_first())
    }
}

/// Whether every report of a run fits the walk at the point where it comes.
pub open spec fn scans_fit(f: Framer, scans: Seq<Scan>) -> bool
    decreases scans.len(),
{
    if scans.len() == 0 || f.done {
        true
    } else {
        scan_fits(f, scans[0]) && scans_fit(after_scan(f, scans[0]), scans.drop_first())
    }
}

/// Whatever the reader reports, a walk never deals with more bytes than the
/// buffer holds, never takes back what it dealt with, and every envelope
/// read lies inside what it deals with; a buffer that ends in complete
/// envelopes and white space is dealt with entirely.
pub proof fn walk_stays_in_buffer(f: Framer, scans: Seq<Scan>)
    requires
        f.wf(),
        scans_fit(f, scans),
    ensures
        after_scans(f, scans).wf(),
        after_scans(f, scans).len == f.len,
        f.consumed <= after_scans(f, scans).consumed <= f.len,
        f.pos <= after_scans(f, scans).pos,
        forall|i: int|
            0 <= i < scans.len() && (forall|j: int| 0 <= j < i ==> #[trigger] scans[j] is Envelope)
                && !f.done ==> (#[trigger] scans[i] matches Scan::Envelope { end } ==> end
                <= after_scans(f, scans).consumed),
        (!f.done && scans.len() > 0 && scans.last() == (Scan::Exhausted { end: f.len }) && (
        forall|j: int| 0 <= j < scans.len() - 1 ==> #[trigger] scans[j] is Envelope))
            ==> after_scans(f, scans).consumed == f.len,
    decreases scans.len(),
{
    if scans.len() == 0 || f.done {
    } else {
        let g = after_scan(f, scans[0]);
        let rest = scans.drop_first();
        walk_stays_in_buffer(g, rest);
        assert forall|i: int|
            0 <= i < scans.len() && (forall|j: int| 0 <= j < i ==> #[trigger] scans[j] is Envelope)
                && !f.done implies (#[trigger] scans[i] matches Scan::Envelope { end } ==> end
            <= after_scans(f, scans).consumed) by {
            if i > 0 {
                assert(scans[0] is Envelope);
                assert(rest[i - 1] == scans[i]);
                assert forall|j: int| 0 <= j < i - 1 implies #[trigger] rest[j] is Envelope by {
                    assert(rest[j] == scans[j + 1]);
                }
            }
        }
        {
            if scans.last() == (Scan::Exhausted { end: f.len }) && (forall|j: int| 0 <= j < scans.len() - 1 ==> #[trigger] scans[j] is Envelope) {
                if scans.len() > 1 {
                    assert(scans[0] is Envelope);
                    assert(rest.last() == scans.last());
                    assert forall|j: int| 0 <= j < rest.len() - 1 implies #[trigger] rest[j] is Envelope by {
                        assert(rest[j] == scans[j + 1]);
                    }
                }
            }
        }
    }
}

/// One report at a time: an envelope is dealt with up to its end and the
/// walk goes on after it; white space to the end deals with everything the
/// reader passed; a value cut off by the end of the buffer is kept whole (no
/// byte after the last envelope is dealt with); a place without an envelope
/// costs exactly one byte. Every report but an envelope ends the walk.
pub proof fn each_report_deals_with_its_bytes(f: Framer, scan: Scan)
    requires
        f.wf(),
        !f.done,
        scan_fits(f, scan),
    ensures
        after_scan(f, scan).len == f.len,
        scan matches Scan::Envelope { end } ==> after_scan(f, scan).consumed == end
            && after_scan(f, scan).pos == end && !after_scan(f, scan).done,
        scan matches Scan::Exhausted { end } ==> after_scan(f, scan).consumed == end
            && after_scan(f, scan).done,
        scan is Incomplete ==> after_scan(f, scan).consumed == f.pos && after_scan(f, scan).done,
        scan is Malformed ==> after_scan(f, scan).consumed == f.pos + 1 && after_scan(f, scan).done,
        after_scan(f, scan).consumed <= f.len,
{
}

} // verus!
