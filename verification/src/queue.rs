//! Bounded-latency ingest queue: a FIFO buffer of packets supporting append
//! and drain-all. The queue itself is a plainly owned value; a host that
//! shares it between producers and consumers wraps it in its own
//! mutual-exclusion primitive and maps a poisoned lock to
//! [`IngestError::Unavailable`].

use vstd::prelude::*;

use crate::packet::TachyonPacket;
use crate::packet::spec_payload_head;

verus! {

/// Why an ingest operation failed.
#[derive(Clone, Copy, Debug, PartialEq, Eq, Structural)]
pub enum IngestError {
    /// The payload's length cannot be represented in the packet's 32-bit
    /// length field.
    Overflow,
    /// The mutual-exclusion primitive guarding the shared queue is in an
    /// unusable (poisoned) state. Never produced by the queue itself; hosts
    /// that wrap the queue in a lock surface this condition with it.
    Unavailable,
}

impl IngestError {
    /// A short human-readable description of the failure.
    pub fn message(&self) -> (m: &'static str)
        ensures
            (*self is Overflow) ==> m@ == "payload exceeds u32::MAX"@,
            (*self is Unavailable) ==> m@ == "packet queue lock poisoned"@,
    {
        match self {
            IngestError::Overflow => "payload exceeds u32::MAX",
            IngestError::Unavailable => "packet queue lock poisoned",
        }
    }
}

/// FIFO buffer of event packets: packets come out of a drain in exactly the
/// order they were submitted.
pub struct PacketIngestQueue {
    packets: Vec<TachyonPacket>,
}

impl View for PacketIngestQueue {
    type V = Seq<TachyonPacket>;

    closed spec fn view(&self) -> Seq<TachyonPacket> {
        self.packets@
    }
}

impl PacketIngestQueue {
    /// An empty queue with room reserved for roughly `capacity_hint` packets.
    /// The hint only pre-sizes the buffer; it is not an upper bound.
    pub fn new(capacity_hint: usize) -> (q: Self)
        ensures
            q@ == Seq::<TachyonPacket>::empty(),
    {
        PacketIngestQueue { packets: Vec::with_capacity(capacity_hint) }
    }

    /// Current queue depth.
    pub fn len(&self) -> (n: usize)
        ensures
            n == self@.len(),
    {
        self.packets.len()
    }

    /// Appends one packet at the tail and returns the depth immediately
    /// after the append. Never rejects on capacity.
    pub fn submit(&mut self, packet: TachyonPacket) -> (depth: usize)
        ensures
            final(self)@ == old(self)@.push(packet),
            depth == old(self)@.len() + 1,
    {
        self.packets.push(packet);
        self.packets.len()
    }

    /// Removes every queued packet at once, returning how many were removed
    /// together with the packets themselves in submission order, and leaves
    /// the queue empty.
    pub fn drain_all(&mut self) -> (r: (usize, Vec<TachyonPacket>))
        ensures
            final(self)@ == Seq::<TachyonPacket>::empty(),
            r.1@ == old(self)@,
            r.0 == old(self)@.len(),
    {
        let mut drained: Vec<TachyonPacket> = Vec::new();
        core::mem::swap(&mut self.packets, &mut drained);
        let count = drained.len();
        (count, drained)
    }
}

/// The 128-bit event identifier assembled from its two 64-bit halves.
pub open spec fn spec_compose_event_id(hi: u64, lo: u64) -> u128 {
    ((hi as u128) << 64) | (lo as u128)
}

/// Whether `p` is exactly the packet that submitting the given fields builds.
pub open spec fn packet_matches(
    p: TachyonPacket,
    event_id_hi: u64,
    event_id_lo: u64,
    sequence: u64,
    unix_ns: u64,
    payload: Seq<u8>,
    flags: u16,
) -> bool {
    &&& p.event_id == spec_compose_event_id(event_id_hi, event_id_lo)
    &&& p.sequence == sequence
    &&& p.unix_ns == unix_ns
    &&& p.payload_len == payload.len()
    &&& p.flags == flags
    &&& p.reserved == 0
    &&& p.payload_head@ == spec_payload_head(payload)
}

/// Builds a packet from raw submission fields and appends it to the queue,
/// returning the new queue depth. Rejects, leaving the queue unchanged, a
/// payload whose length does not fit in the packet's 32-bit length field.
pub fn submit_packet(
    queue: &mut PacketIngestQueue,
    event_id_hi: u64,
    event_id_lo: u64,
    sequence: u64,
    unix_ns: u64,
    payload: &[u8],
    flags: u16,
) -> (r: Result<usize, IngestError>)
    ensures
        payload@.len() <= u32::MAX ==> {
            &&& r matches Ok(depth) && depth == old(queue)@.len() + 1
            &&& final(queue)@.len() == old(queue)@.len() + 1
            &&& final(queue)@.subrange(0, old(queue)@.len() as int) == old(queue)@
            &&& packet_matches(
                final(queue)@.last(),
                event_id_hi,
                event_id_lo,
                sequence,
                unix_ns,
                payload@,
                flags,
            )
        },
        payload@.len() > u32::MAX ==> {
            &&& r == Err::<usize, IngestError>(IngestError::Overflow)
            &&& final(queue)@ == old(queue)@
        },
{
    if payload.len() > u32::MAX as usize {
        return Err(IngestError::Overflow);
    }
    let event_id: u128 = ((event_id_hi as u128) << 64) | (event_id_lo as u128);
    let packet = TachyonPacket::new(event_id, sequence, unix_ns, payload, flags);
    let depth = queue.submit(packet);
    proof {
        assert(queue@.subrange(0, old(queue)@.len() as int) =~= old(queue)@);
    }
    Ok(depth)
}

/// Empties the queue and reports how many packets it held.
pub fn drain_packet_count(queue: &mut PacketIngestQueue) -> (count: usize)
    ensures
        count == old(queue)@.len(),
        final(queue)@ == Seq::<TachyonPacket>::empty(),
{
    let (count, _drained) = queue.drain_all();
    count
}

/// The queue contents after submitting `ps` one by one onto contents `q`.
pub open spec fn spec_submit_all(
    q: Seq<TachyonPacket>,
    ps: Seq<TachyonPacket>,
) -> Seq<TachyonPacket>
    decreases ps.len(),
{
    if ps.len() == 0 {
        q
    } else {
        spec_submit_all(q.push(ps[0]), ps.drop_first())
    }
}

/// Submitting packets and then draining loses nothing, duplicates nothing,
/// and keeps submission order: after any run of submissions the queue holds
/// exactly the prior contents followed by the submitted packets, which is
/// what a drain then returns before leaving the queue empty.
pub proof fn lemma_submit_then_drain(q: Seq<TachyonPacket>, ps: Seq<TachyonPacket>)
    ensures
        spec_submit_all(q, ps) == q + ps,
    decreases ps.len(),
{
    if ps.len() == 0 {
        assert(spec_submit_all(q, ps) =~= q + ps);
    } else {
        lemma_submit_then_drain(q.push(ps[0]), ps.drop_first());
        assert(q.push(ps[0]) + ps.drop_first() =~= q + ps);
    }
}

/// A drain landing between any two submissions neither loses nor duplicates
/// a packet: the packets drained before the boundary and the packets drained
/// after it together are exactly the submitted packets, each exactly once,
/// in submission order.
pub proof fn lemma_drain_boundary_partitions(ps: Seq<TachyonPacket>, boundary: int)
    requires
        0 <= boundary <= ps.len(),
    ensures
        spec_submit_all(Seq::empty(), ps.take(boundary)) + spec_submit_all(
            Seq::empty(),
            ps.skip(boundary),
        ) == ps,
{
    lemma_submit_then_drain(Seq::empty(), ps.take(boundary));
    lemma_submit_then_drain(Seq::empty(), ps.skip(boundary));
    assert(Seq::empty() + ps.take(boundary) =~= ps.take(boundary));
    assert(Seq::empty() + ps.skip(boundary) =~= ps.skip(boundary));
    assert(ps.take(boundary) + ps.skip(boundary) =~= ps);
}

} // verus!
