//! RTP packetizer: frames an A-law byte stream into RTP packets whose
//! sequence numbers are contiguous modulo 2^16 and whose timestamps advance
//! by exactly the payload length (one byte is one sample at 8 kHz).

use vstd::prelude::*;

verus! {

/// An RTP packet as this library sees it: header fields and payload as plain
/// values.  The transport layer turns it into the wire representation.
pub struct RtpPacket {
    pub pt: u8,
    pub sequence_number: u16,
    pub timestamp: u32,
    pub ssrc: u32,
    pub payload: Vec<u8>,
}

/// Produces the packets of one direction of one call.  The SSRC is fixed per
/// call; sequence and timestamp start at zero and advance on every packet.
pub struct RtpFactory {
    rtp_sequence_number: u16,
    rtp_timestamp: u32,
    rtp_pt: u8,
}

impl RtpFactory {
    /// Sequence number of the next packet.
    pub closed spec fn seq(self) -> u16 {
        self.rtp_sequence_number
    }

    /// Timestamp of the next packet.
    pub closed spec fn ts(self) -> u32 {
        self.rtp_timestamp
    }

    /// Payload type stamped on every packet.
    pub closed spec fn pt(self) -> u8 {
        self.rtp_pt
    }

    pub fn new(rtp_pt: u8) -> (r: Self)
        ensures
            r.seq() == 0,
            r.ts() == 0,
            r.pt() == rtp_pt,
    {
        Self { rtp_sequence_number: 0, rtp_timestamp: 0, rtp_pt }
    }

    /// Wraps one payload into the next packet of the stream: the packet
    /// carries the current sequence number and timestamp, the sequence number
    /// advances by one modulo 2^16 and the timestamp by the payload length
    /// modulo 2^32.
    pub fn create_rtp_packet(&mut self, payload: Vec<u8>) -> (p: RtpPacket)
        requires
            payload@.len() <= u32::MAX,
        ensures
            p.pt == old(self).pt(),
            p.sequence_number == old(self).seq(),
            p.timestamp == old(self).ts(),
            p.ssrc == 0,
            p.payload@ == payload@,
            final(self).pt() == old(self).pt(),
            final(self).seq() == (old(self).seq() + 1) % 0x1_0000,
            final(self).ts() == (old(self).ts() + payload@.len()) % 0x1_0000_0000,
    {
        let payload_len: usize = payload.len();
        let packet = RtpPacket {
            pt: self.rtp_pt,
            sequence_number: self.rtp_sequence_number,
            timestamp: self.rtp_timestamp,
            ssrc: 0,
            payload,
        };

        self.rtp_sequence_number = self.rtp_sequence_number.wrapping_add(1);
        self.rtp_timestamp = self.rtp_timestamp.wrapping_add(payload_len as u32);
        proof {
            lemma_wrap_is_mod(old(self).seq() as int, 1, 0x1_0000);
            lemma_wrap_is_mod(old(self).ts() as int, payload_len as int, 0x1_0000_0000);
        }
        packet
    }
}

/// For `0 <= a < m` and `0 <= b < m`, adding with wrap-around agrees with
/// addition modulo `m`.
proof fn lemma_wrap_is_mod(a: int, b: int, m: int)
    requires
        0 < m,
        0 <= a < m,
        0 <= b < m,
    ensures
        (a + b) % m == if a + b < m { a + b } else { a + b - m },
{
    if a + b < m {
        vstd::arithmetic::div_mod::lemma_small_mod((a + b) as nat, m as nat);
    } else {
        vstd::arithmetic::div_mod::lemma_mod_multiples_vanish(1, a + b - m, m);
        vstd::arithmetic::div_mod::lemma_small_mod((a + b - m) as nat, m as nat);
    }
}

/// Sum of the first `i` payload lengths of a stream.
pub open spec fn len_sum(lens: Seq<int>, i: int) -> int
    decreases i,
{
    if i <= 0 {
        0
    } else {
        len_sum(lens, i - 1) + lens[i - 1]
    }
}

/// Within one direction of a call, the packets produced by an `RtpFactory`
/// that started fresh have contiguous sequence numbers modulo 2^16, and each
/// timestamp is the sum of the payload lengths that came before it; as long
/// as that sum does not exceed 2^32 - 1 the timestamps are non-decreasing.
///
/// `seqs[i]`, `tss[i]` and `lens[i]` are the sequence number, the timestamp
/// and the payload length of the `i`-th packet, as `create_rtp_packet`'s
/// contract gives them.
pub proof fn lemma_rtp_stream_contiguous(seqs: Seq<int>, tss: Seq<int>, lens: Seq<int>, n: int)
    requires
        0 <= n,
        seqs.len() >= n,
        tss.len() >= n,
        lens.len() >= n,
        n > 0 ==> seqs[0] == 0 && tss[0] == 0,
        forall|i: int| 0 <= i < n ==> 0 <= #[trigger] lens[i],
        forall|i: int| 0 < i < n ==> #[trigger] seqs[i] == (seqs[i - 1] + 1) % 0x1_0000,
        forall|i: int| 0 < i < n ==> #[trigger] tss[i] == tss[i - 1] + lens[i - 1],
    ensures
        forall|i: int| 0 <= i < n ==> #[trigger] seqs[i] == i % 0x1_0000,
        forall|i: int| 0 <= i < n ==> #[trigger] tss[i] == len_sum(lens, i),
        forall|i: int, j: int| 0 <= i <= j < n ==> tss[i] <= tss[j],
    decreases n,
{
    if n > 1 {
        lemma_rtp_stream_contiguous(seqs, tss, lens, n - 1);
        assert(seqs[n - 1] == (seqs[n - 2] + 1) % 0x1_0000);
        assert(seqs[n - 2] == (n - 2) % 0x1_0000);
        assert((((n - 2) % 0x1_0000) + 1) % 0x1_0000 == (n - 1) % 0x1_0000) by {
            vstd::arithmetic::div_mod::lemma_add_mod_noop(n - 2, 1, 0x1_0000);
            vstd::arithmetic::div_mod::lemma_mod_twice(n - 2 + 1, 0x1_0000);
            vstd::arithmetic::div_mod::lemma_mod_twice(1, 0x1_0000);
        }
        assert(tss[n - 1] == len_sum(lens, n - 1));
        assert forall|i: int, j: int| 0 <= i <= j < n implies tss[i] <= tss[j] by {
            if j == n - 1 && i < j {
                assert(tss[i] <= tss[n - 2]);
            }
        }
    }
}

} // verus!
