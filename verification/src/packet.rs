//! Fixed-layout event record: a 64-byte, 64-byte-aligned packet carrying an
//! event identifier, ordering metadata, and a fixed-size prefix of the
//! event's payload.

use vstd::prelude::*;

verus! {

/// Number of payload bytes captured in each packet's fixed-size head.
pub const PAYLOAD_HEAD_LEN: usize = 20;

/// One ingested event: identifier, ordering metadata, true payload length,
/// and a fixed-size payload prefix. Hosts that move packets across a
/// zero-copy boundary re-declare this record with an explicit 64-byte
/// aligned layout, which the verifier does not accept here.
#[derive(Clone, Copy, Debug, PartialEq, Eq)]
pub struct TachyonPacket {
    pub event_id: u128,
    pub sequence: u64,
    pub unix_ns: u64,
    pub payload_len: u32,
    pub flags: u16,
    pub reserved: u16,
    pub payload_head: [u8; PAYLOAD_HEAD_LEN],
}

/// The head captured for a payload: its first `PAYLOAD_HEAD_LEN` bytes,
/// zero-padded when the payload is shorter.
pub open spec fn spec_payload_head(payload: Seq<u8>) -> Seq<u8> {
    Seq::new(
        PAYLOAD_HEAD_LEN as nat,
        |i: int| if i < payload.len() { payload[i] } else { 0u8 },
    )
}

/// A sequence of `n` zero bytes.
pub open spec fn zero_bytes(n: nat) -> Seq<u8> {
    Seq::new(n, |i: int| 0u8)
}

impl TachyonPacket {
    /// Builds a packet whose head holds the first `min(payload.len(), PAYLOAD_HEAD_LEN)`
    /// bytes of the payload, zero-padded, while `payload_len` records the
    /// payload's true length. Callers must reject payloads whose length does
    /// not fit in the 32-bit length field.
    pub fn new(
        event_id: u128,
        sequence: u64,
        unix_ns: u64,
        payload: &[u8],
        flags: u16,
    ) -> (p: Self)
        requires
            payload@.len() <= u32::MAX,
        ensures
            p.event_id == event_id,
            p.sequence == sequence,
            p.unix_ns == unix_ns,
            p.payload_len == payload@.len(),
            p.flags == flags,
            p.reserved == 0,
            p.payload_head@ == spec_payload_head(payload@),
    {
        let mut payload_head: [u8; PAYLOAD_HEAD_LEN] = [0u8; PAYLOAD_HEAD_LEN];
        let prefix_len: usize = if payload.len() < PAYLOAD_HEAD_LEN {
            payload.len()
        } else {
            PAYLOAD_HEAD_LEN
        };
        let mut i: usize = 0;
        while i < prefix_len
            invariant
                i <= prefix_len,
                prefix_len <= payload@.len(),
                prefix_len <= PAYLOAD_HEAD_LEN,
                payload_head@.len() == PAYLOAD_HEAD_LEN,
                forall|j: int| 0 <= j < i ==> payload_head@[j] == payload@[j],
                forall|j: int| i <= j < PAYLOAD_HEAD_LEN ==> payload_head@[j] == 0u8,
            decreases prefix_len - i,
        {
            payload_head[i] = payload[i];
            i += 1;
        }
        proof {
            assert(payload_head@ =~= spec_payload_head(payload@));
        }
        Self {
            event_id,
            sequence,
            unix_ns,
            payload_len: payload.len() as u32,
            flags,
            reserved: 0,
            payload_head,
        }
    }
}

/// For a payload no longer than the head, the captured head is the whole
/// payload followed by zero padding up to `PAYLOAD_HEAD_LEN` bytes.
pub proof fn lemma_payload_head_short(payload: Seq<u8>)
    requires
        payload.len() <= PAYLOAD_HEAD_LEN,
    ensures
        spec_payload_head(payload) == payload + zero_bytes((PAYLOAD_HEAD_LEN - payload.len()) as nat),
{
    assert(spec_payload_head(payload) =~= payload + zero_bytes(
        (PAYLOAD_HEAD_LEN - payload.len()) as nat,
    ));
}

/// For a payload longer than the head, the captured head is exactly the
/// payload's first `PAYLOAD_HEAD_LEN` bytes.
pub proof fn lemma_payload_head_long(payload: Seq<u8>)
    requires
        payload.len() > PAYLOAD_HEAD_LEN,
    ensures
        spec_payload_head(payload) == payload.take(PAYLOAD_HEAD_LEN as int),
{
    assert(spec_payload_head(payload) =~= payload.take(PAYLOAD_HEAD_LEN as int));
}

} // verus!
