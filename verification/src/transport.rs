//! Bus transaction framing and the transport capability.
//!
//! A transaction is an ordered run of segments — writes of given bytes and
//! reads of given lengths — addressed to one device on the shared serial
//! bus. A transport executes one transaction atomically with respect to
//! every other use of the same physical line and reports the first failure
//! instead of fabricating data.

use vstd::prelude::*;

use crate::fault::AcquisitionFault;

verus! {

/// One step of a bus transaction: a write of the given bytes to the
/// addressed device, or a read of the given number of bytes from it.
#[derive(Debug, PartialEq, Eq)]
pub enum Segment {
    Write(Vec<u8>),
    Read(usize),
}

/// The lengths requested by the read segments of a transaction, in segment
/// order. A reply vector matches a transaction exactly when its entry
/// lengths equal this sequence.
pub open spec fn read_lens(segs: Seq<Segment>) -> Seq<nat>
    decreases segs.len(),
{
    if segs.len() == 0 {
        Seq::empty()
    } else {
        match segs.last() {
            Segment::Read(n) => read_lens(segs.drop_last()).push(n as nat),
            Segment::Write(_) => read_lens(segs.drop_last()),
        }
    }
}

/// The replies fit the transaction: one reply per read segment, in segment
/// order, each filled to exactly the requested length.
pub open spec fn reply_shape(segs: Seq<Segment>, replies: Seq<Vec<u8>>) -> bool {
    &&& replies.len() == read_lens(segs).len()
    &&& forall|i: int| 0 <= i < replies.len() ==> (#[trigger] replies[i])@.len() == read_lens(segs)[i]
}

/// Executes transactions against a byte-addressed serial bus where several
/// chips sit at distinct addresses. The settle wait of a forced conversion
/// is also a capability of the environment, so it lives here too.
pub trait BusTransport {
    /// Execute the segments in order against the device at `addr`,
    /// atomically with respect to any other use of the line. On success the
    /// returned vector holds one reply per read segment, in segment order,
    /// each filled to the requested length before the call returns. An
    /// absent device or an I/O fault is reported as `TransportFault`, never
    /// as zeroed data.
    fn transfer(&mut self, addr: u16, segs: &Vec<Segment>) -> (r: Result<
        Vec<Vec<u8>>,
        AcquisitionFault,
    >)
        ensures
            r matches Ok(replies) ==> reply_shape(segs@, replies@),
            r matches Err(f) ==> f is TransportFault,
    ;

    /// Block the calling thread for at least `ms` milliseconds.
    fn wait_ms(&mut self, ms: u64);
}

/// Checks the byte returned by a chip's identity register against the
/// expected identity constant. The handshake succeeds exactly when the two
/// agree; a mismatch is fatal to construction.
pub fn check_identity(expected: u8, found: u8) -> (r: Result<(), AcquisitionFault>)
    ensures
        r is Ok <==> found == expected,
        r matches Err(f) ==> f == (AcquisitionFault::UnexpectedDevice { expected, found }),
{
    if found == expected {
        Ok(())
    } else {
        Err(AcquisitionFault::UnexpectedDevice { expected, found })
    }
}

/// A transaction of one write segment: select a register, then write
/// nothing further. Used for control-register updates.
pub fn write_transaction(bytes: Vec<u8>) -> (segs: Vec<Segment>)
    ensures
        segs@ == seq![Segment::Write(bytes)],
        read_lens(segs@) == Seq::<nat>::empty(),
{
    let ghost b = bytes;
    let mut segs: Vec<Segment> = Vec::new();
    segs.push(Segment::Write(bytes));
    proof {
        assert(segs@ =~= seq![Segment::Write(b)]);
        assert(segs@.drop_last() =~= Seq::<Segment>::empty());
        assert(read_lens(Seq::<Segment>::empty()) =~= Seq::<nat>::empty());
        assert(read_lens(segs@) =~= Seq::<nat>::empty());
    }
    segs
}

/// A transaction of two write segments, executed as one uninterrupted
/// sequence. Used where a chip takes several register blocks in one go.
pub fn write_write_transaction(first: Vec<u8>, second: Vec<u8>) -> (segs: Vec<Segment>)
    ensures
        segs@ == seq![Segment::Write(first), Segment::Write(second)],
        read_lens(segs@) == Seq::<nat>::empty(),
{
    let ghost a = first;
    let ghost b = second;
    let mut segs: Vec<Segment> = Vec::new();
    segs.push(Segment::Write(first));
    segs.push(Segment::Write(second));
    proof {
        assert(segs@ =~= seq![Segment::Write(a), Segment::Write(b)]);
        assert(segs@.drop_last() =~= seq![Segment::Write(a)]);
        assert(segs@.drop_last().drop_last() =~= Seq::<Segment>::empty());
        assert(read_lens(Seq::<Segment>::empty()) =~= Seq::<nat>::empty());
        assert(read_lens(segs@.drop_last()) =~= Seq::<nat>::empty());
        assert(read_lens(segs@) =~= Seq::<nat>::empty());
    }
    segs
}

/// The write-then-read convention: select a register by one write segment,
/// then read `n` bytes starting there, as one uninterrupted sequence.
pub fn write_read_transaction(select: Vec<u8>, n: usize) -> (segs: Vec<Segment>)
    ensures
        segs@ == seq![Segment::Write(select), Segment::Read(n)],
        read_lens(segs@) == seq![n as nat],
{
    let ghost s = select;
    let mut segs: Vec<Segment> = Vec::new();
    segs.push(Segment::Write(select));
    segs.push(Segment::Read(n));
    proof {
        assert(segs@ =~= seq![Segment::Write(s), Segment::Read(n)]);
        assert(segs@.drop_last() =~= seq![Segment::Write(s)]);
        assert(segs@.drop_last().drop_last() =~= Seq::<Segment>::empty());
        assert(read_lens(Seq::<Segment>::empty()) =~= Seq::<nat>::empty());
        assert(read_lens(segs@.drop_last()) =~= Seq::<nat>::empty());
        assert(read_lens(segs@) =~= seq![n as nat]);
    }
    segs
}

/// Copies a byte buffer element by element.
fn copy_bytes(v: &Vec<u8>) -> (r: Vec<u8>)
    ensures
        r@ == v@,
{
    let mut r: Vec<u8> = Vec::new();
    let mut i: usize = 0;
    while i < v.len()
        invariant
            0 <= i <= v@.len(),
            r@ == v@.take(i as int),
        decreases v@.len() - i,
    {
        r.push(v[i]);
        proof {
            assert(r@ =~= v@.take(i + 1));
        }
        i += 1;
    }
    proof {
        assert(v@.take(v@.len() as int) =~= v@);
    }
    r
}

/// Two segments carry the same request: the same bytes written, or the same
/// number of bytes asked for.
pub open spec fn segment_matches(a: Segment, b: Segment) -> bool {
    match (a, b) {
        (Segment::Write(x), Segment::Write(y)) => x@ == y@,
        (Segment::Read(m), Segment::Read(n)) => m == n,
        _ => false,
    }
}

/// Copies a transaction's segments so they can be recorded.
fn copy_segments(v: &Vec<Segment>) -> (r: Vec<Segment>)
    ensures
        r@.len() == v@.len(),
        forall|i: int| 0 <= i < v@.len() ==> segment_matches(#[trigger] r@[i], v@[i]),
{
    let mut r: Vec<Segment> = Vec::new();
    let mut i: usize = 0;
    while i < v.len()
        invariant
            0 <= i <= v@.len(),
            r@.len() == i,
            forall|j: int| 0 <= j < i ==> segment_matches(#[trigger] r@[j], v@[j]),
        decreases v@.len() - i,
    {
        let copy = match &v[i] {
            Segment::Write(bytes) => Segment::Write(copy_bytes(bytes)),
            Segment::Read(n) => Segment::Read(*n),
        };
        r.push(copy);
        i += 1;
    }
    r
}

/// One recorded transaction: the addressed device and the segments that
/// were executed against it as one uninterrupted sequence.
#[derive(Debug)]
pub struct LoggedTransaction {
    pub addr: u16,
    pub segs: Vec<Segment>,
}

/// A stand-in transport for use where no physical bus is present. Replies
/// to read segments are taken from a pre-loaded script, consumed front to
/// back; a reply whose length differs from the read segment's request, or a
/// script that runs dry, is reported as a transport fault. Every executed
/// transaction and every wait is recorded, so a caller can check what
/// reached the bus, and in what order.
pub struct ScriptedTransport {
    /// The replies still to be handed out, indexed from `served` on.
    pub replies: Vec<Vec<u8>>,
    /// How many scripted replies have been consumed.
    pub served: usize,
    /// Every transaction handed to `transfer`, in execution order.
    pub log: Vec<LoggedTransaction>,
    /// Every wait handed to `wait_ms`, in milliseconds, in order.
    pub waits: Vec<u64>,
}

impl ScriptedTransport {
    /// A transport that will answer successive read segments with the given
    /// replies.
    pub fn new(replies: Vec<Vec<u8>>) -> (t: ScriptedTransport)
        ensures
            t.log@.len() == 0,
            t.waits@.len() == 0,
    {
        ScriptedTransport { replies, served: 0, log: Vec::new(), waits: Vec::new() }
    }
}

impl BusTransport for ScriptedTransport {
    fn transfer(&mut self, addr: u16, segs: &Vec<Segment>) -> (r: Result<
        Vec<Vec<u8>>,
        AcquisitionFault,
    >)
        ensures
            final(self).log@.len() == old(self).log@.len() + 1,
    {
        let copy = copy_segments(segs);
        self.log.push(LoggedTransaction { addr, segs: copy });
        let mut out: Vec<Vec<u8>> = Vec::new();
        let mut i: usize = 0;
        while i < segs.len()
            invariant
                0 <= i <= segs@.len(),
                reply_shape(segs@.take(i as int), out@),
                self.log@.len() == old(self).log@.len() + 1,
            decreases segs@.len() - i,
        {
            proof {
                assert(segs@.take(i + 1).drop_last() =~= segs@.take(i as int));
                assert(segs@.take(i + 1).last() == segs@[i as int]);
            }
            match &segs[i] {
                Segment::Write(_) => {},
                Segment::Read(n) => {
                    if self.served >= self.replies.len() {
                        return Err(AcquisitionFault::TransportFault);
                    }
                    let reply = copy_bytes(&self.replies[self.served]);
                    self.served = self.served + 1;
                    if reply.len() != *n {
                        return Err(AcquisitionFault::TransportFault);
                    }
                    out.push(reply);
                },
            }
            i += 1;
        }
        proof {
            assert(segs@.take(segs@.len() as int) =~= segs@);
        }
        Ok(out)
    }

    fn wait_ms(&mut self, ms: u64) {
        self.waits.push(ms);
    }
}

} // verus!
