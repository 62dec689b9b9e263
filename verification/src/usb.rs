//! USB helpers for STM32F469I-Discovery: packetisation of bulk writes.
//!
//! USB bulk transfers use max-packet-size chunks. The host cannot distinguish
//! "end of transfer" from "more data coming" when the final packet is exactly
//! `max_packet_size` bytes — it will wait for another packet. Sending a
//! zero-length packet (ZLP) signals that the transfer is complete.
//!
//! [`PacketSplitter`] yields the packets of such a write: `data` in packet-sized
//! chunks, plus a ZLP when the total length is a non-empty exact multiple of
//! `max_packet_size`.

use vstd::prelude::*;

verus! {

/// Retries granted to the USB core, after a first read, for AHB idle and for its
/// soft reset to complete: at most 100 000 reads of the status register.
pub const USB_RESET_POLL_ATTEMPTS: u32 = 99_999;

/// Byte ranges `[start, end)` of the data packets that carry `data[offset..len]`
/// in chunks of at most `max` bytes.
pub open spec fn chunks_from(offset: int, len: int, max: int) -> Seq<(int, int)>
    decreases len - offset,
{
    if offset >= len || max <= 0 {
        Seq::empty()
    } else {
        let end = if len - offset > max {
            offset + max
        } else {
            len
        };
        seq![(offset, end)] + chunks_from(end, len, max)
    }
}

/// Whether a transfer of `len` bytes needs a terminating zero-length packet.
pub open spec fn needs_zlp(len: int, max: int) -> bool {
    len > 0 && max > 0 && len % max == 0
}

/// Byte ranges of the packets of a transfer of `len` bytes: the data chunks,
/// then the zero-length packet `(len, len)` when one is needed.
pub open spec fn usb_packets(len: int, max: int) -> Seq<(int, int)> {
    chunks_from(0, len, max) + if needs_zlp(len, max) {
        seq![(len, len)]
    } else {
        Seq::empty()
    }
}

/// Splits a write of `len` bytes into USB packets of at most `max` bytes.
///
/// A packet size of 0 is a caller error: such a splitter never advances and,
/// for a non-empty write, hands out the same empty packet forever.
pub struct PacketSplitter {
    len: usize,
    max: usize,
    offset: usize,
    zlp_sent: bool,
}

impl PacketSplitter {
    /// Packets not handed out yet.
    pub closed spec fn remaining(&self) -> Seq<(int, int)> {
        chunks_from(self.offset as int, self.len as int, self.max as int) + if needs_zlp(
            self.len as int,
            self.max as int,
        ) && !self.zlp_sent {
            seq![(self.len as int, self.len as int)]
        } else {
            Seq::empty()
        }
    }

    /// Largest packet size.
    pub closed spec fn max_packet(&self) -> usize {
        self.max
    }

    /// Start of the data not handed out yet.
    pub closed spec fn position(&self) -> usize {
        self.offset
    }

    /// Data is left but the packet size is 0: no packet can carry it.
    pub open spec fn stalled(&self) -> bool {
        self.max_packet() == 0 && self.remaining_bytes() > 0
    }

    /// Bytes of the data not handed out yet.
    pub closed spec fn remaining_bytes(&self) -> int {
        self.len - self.offset
    }

    /// Splitter for a write of `len` bytes with packets of at most `max` bytes.
    pub fn new(len: usize, max: usize) -> (s: Self)
        ensures
            s.max_packet() == max,
            s.position() == 0,
            s.remaining_bytes() == len,
            max > 0 ==> s.remaining() == usb_packets(len as int, max as int),
    {
        PacketSplitter { len, max, offset: 0, zlp_sent: false }
    }

    /// The next packet, as the byte range `[start, end)` of the data (a
    /// zero-length packet is the empty range at the end), or `None` when the
    /// write is complete. With a packet size of 0 and data left, the empty
    /// range at the current position, and nothing changes.
    pub fn next_packet(&mut self) -> (p: Option<(usize, usize)>)
        ensures
            final(self).max_packet() == old(self).max_packet(),
            old(self).stalled() ==> p == Some((old(self).position(), old(self).position()))
                && *final(self) == *old(self),
            !old(self).stalled() ==> (p matches Some(r) ==> old(self).remaining() == seq![
                (r.0 as int, r.1 as int),
            ] + final(self).remaining()),
            !old(self).stalled() && p is None ==> old(self).remaining().len() == 0,
            p is None ==> final(self).remaining().len() == 0,
    {
        if self.offset < self.len && self.max == 0 {
            Some((self.offset, self.offset))
        } else if self.offset < self.len {
            let start = self.offset;
            let end = if self.len - self.offset > self.max {
                self.offset + self.max
            } else {
                self.len
            };
            self.offset = end;
            Some((start, end))
        } else if !self.zlp_sent && self.len > 0 && self.max > 0 && self.len % self.max == 0 {
            proof {
                assert(chunks_from(self.offset as int, self.len as int, self.max as int) =~= Seq::<
                    (int, int),
                >::empty());
            }
            self.zlp_sent = true;
            Some((self.len, self.len))
        } else {
            None
        }
    }
}

/// The data chunks from `offset` tile `[offset, len)` in order, each holding
/// between 1 and `max` bytes; every chunk but the last is full, and the last one
/// is full exactly when `len - offset` is a multiple of `max`.
pub proof fn lemma_chunks_tile(offset: int, len: int, max: int)
    requires
        max > 0,
        0 <= offset <= len,
    ensures
        ({
            let s = chunks_from(offset, len, max);
            &&& (s.len() == 0) <==> (offset == len)
            &&& s.len() > 0 ==> s[0].0 == offset
            &&& s.len() > 0 ==> s.last().1 == len
            &&& forall|i: int| 0 <= i < s.len() ==> s[i].0 < #[trigger] s[i].1 <= s[i].0 + max
            &&& forall|i: int| 0 <= i < s.len() - 1 ==> #[trigger] s[i].1 == s[i + 1].0
            &&& forall|i: int| 0 <= i < s.len() - 1 ==> #[trigger] s[i].1 - s[i].0 == max
            &&& s.len() > 0 ==> ((s.last().1 - s.last().0 == max) <==> ((len - offset) % max
                == 0))
        }),
    decreases len - offset,
{
    if offset < len {
        let end = if len - offset > max {
            offset + max
        } else {
            len
        };
        lemma_chunks_tile(end, len, max);
        let rest = chunks_from(end, len, max);
        let s = chunks_from(offset, len, max);
        assert(s == seq![(offset, end)] + rest);
        if end < len {
            assert((len - offset) % max == (len - end) % max) by {
                vstd::arithmetic::div_mod::lemma_mod_add_multiples_vanish(len - end, max);
            }
        } else {
            assert(rest.len() == 0);
            assert(((len - offset) == max) <==> ((len - offset) % max == 0)) by {
                if (len - offset) < max {
                    vstd::arithmetic::div_mod::lemma_small_mod((len - offset) as nat, max as nat);
                } else {
                    vstd::arithmetic::div_mod::lemma_mod_self_0(max);
                }
            }
        }
        assert forall|i: int| 0 <= i < s.len() - 1 implies #[trigger] s[i].1 == s[i + 1].0 by {
            if i > 0 {
                assert(s[i] == rest[i - 1]);
                assert(s[i + 1] == rest[i]);
            }
        }
        assert forall|i: int| 0 <= i < s.len() - 1 implies #[trigger] s[i].1 - s[i].0 == max by {
            if i > 0 {
                assert(s[i] == rest[i - 1]);
            }
        }
        assert forall|i: int| 0 <= i < s.len() implies s[i].0 < #[trigger] s[i].1 <= s[i].0
            + max by {
            if i > 0 {
                assert(s[i] == rest[i - 1]);
            }
        }
    }
}

/// A non-empty USB write always ends with a short packet (shorter than `max`),
/// which tells the host the transfer is complete: either the last data chunk is
/// short, or a zero-length packet follows a full one. The data packets carry the
/// bytes `0..len` in order, each at most `max` bytes, and an empty write sends
/// no packet at all.
pub proof fn lemma_write_ends_with_short_packet(len: int, max: int)
    requires
        max > 0,
        len >= 0,
    ensures
        ({
            let p = usb_packets(len, max);
            &&& len == 0 ==> p.len() == 0
            &&& len > 0 ==> p.len() > 0 && p.last().1 - p.last().0 < max
            &&& len > 0 ==> p[0].0 == 0
            &&& forall|i: int| 0 <= i < p.len() - 1 ==> #[trigger] p[i].1 == p[i + 1].0
            &&& forall|i: int| 0 <= i < p.len() ==> p[i].0 <= #[trigger] p[i].1 <= p[i].0 + max
            &&& p.len() > 0 ==> p.last().1 == len
            &&& (p.len() > 0 && p.last().0 == p.last().1) <==> needs_zlp(len, max)
        }),
{
    lemma_chunks_tile(0, len, max);
    let c = chunks_from(0, len, max);
    let p = usb_packets(len, max);
    if needs_zlp(len, max) {
        assert(p == c.push((len, len)));
        assert forall|i: int| 0 <= i < p.len() - 1 implies #[trigger] p[i].1 == p[i + 1].0 by {
            if i < c.len() - 1 {
                assert(p[i] == c[i] && p[i + 1] == c[i + 1]);
            } else {
                assert(p[i] == c.last());
            }
        }
        assert forall|i: int| 0 <= i < p.len() implies p[i].0 <= #[trigger] p[i].1 <= p[i].0
            + max by {
            if i < c.len() {
                assert(p[i] == c[i]);
            }
        }
    } else {
        assert(p =~= c);
    }
}

/// Only the last packet of a write may be short, and a zero-length packet is
/// sent exactly when the data is non-empty and its length is a multiple of the
/// packet size, that is exactly when the last data packet is full. Every packet
/// but the last is full, and no packet other than the last is empty.
pub proof fn lemma_zero_length_packet_rule(len: int, max: int)
    requires
        max > 0,
        len >= 0,
    ensures
        ({
            let p = usb_packets(len, max);
            &&& forall|i: int| 0 <= i < p.len() - 1 ==> #[trigger] p[i].1 - p[i].0 == max
            &&& forall|i: int| 0 <= i < p.len() && #[trigger] p[i].0 == p[i].1 ==> i == p.len() - 1
            &&& (p.len() > 0 && p.last().0 == p.last().1) <==> (len > 0 && len % max == 0)
            &&& (len > 0 && len % max != 0) ==> p.last().1 - p.last().0 == len % max
        }),
{
    lemma_chunks_tile(0, len, max);
    let c = chunks_from(0, len, max);
    let p = usb_packets(len, max);
    if len > 0 && len % max == 0 {
        assert(p == c.push((len, len)));
        assert forall|i: int| 0 <= i < p.len() - 1 implies #[trigger] p[i].1 - p[i].0 == max by {
            assert(p[i] == c[i]);
        }
        assert forall|i: int| 0 <= i < p.len() && #[trigger] p[i].0 == p[i].1 implies i == p.len()
            - 1 by {
            if i < c.len() {
                assert(p[i] == c[i]);
            }
        }
    } else {
        assert(p =~= c);
        if len > 0 {
            let l = c.last();
            assert(l.1 == len);
            assert(l.1 - l.0 < max);
            assert(l.1 - l.0 == len % max) by {
                assert((len - l.0) % max == len % max) by {
                    let k = c.len() - 1;
                    lemma_chunk_starts(0, len, max, k);
                    assert(l.0 == k * max);
                    vstd::arithmetic::div_mod::lemma_mod_multiples_vanish(k, len - k * max, max);
                    assert(max * k == k * max) by (nonlinear_arith);
                }
                vstd::arithmetic::div_mod::lemma_small_mod((l.1 - l.0) as nat, max as nat);
            }
        }
    }
}

/// The `i`-th data chunk from `offset` starts `i` full packets after `offset`.
proof fn lemma_chunk_starts(offset: int, len: int, max: int, i: int)
    requires
        max > 0,
        0 <= offset <= len,
        0 <= i < chunks_from(offset, len, max).len(),
    ensures
        chunks_from(offset, len, max)[i].0 == offset + i * max,
    decreases len - offset,
{
    let s = chunks_from(offset, len, max);
    if i > 0 {
        let end = if len - offset > max {
            offset + max
        } else {
            len
        };
        let rest = chunks_from(end, len, max);
        assert(s == seq![(offset, end)] + rest);
        if len - offset <= max {
            assert(rest.len() == 0);
        }
        assert(end == offset + max);
        lemma_chunk_starts(end, len, max, i - 1);
        assert(s[i] == rest[i - 1]);
        assert((i - 1) * max + max == i * max) by (nonlinear_arith);
    }
}

} // verus!
