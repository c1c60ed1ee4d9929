//! Framing of the length-prefixed packet stream a Cynthion capture yields:
//! each packet is a four-byte little-endian length followed by that many
//! bytes.

use vstd::prelude::*;
use std::collections::VecDeque;
use std::sync::mpsc::Receiver;

verus! {

/// The byte at `i`, or zero past the end.
pub open spec fn byte_or_zero(s: Seq<u8>, i: int) -> int {
    if 0 <= i < s.len() { s[i] as int } else { 0 }
}

/// The little-endian 32-bit value of the first four bytes, missing bytes
/// read as zero.
pub open spec fn spec_length_prefix(s: Seq<u8>) -> int {
    byte_or_zero(s, 0) + 256 * byte_or_zero(s, 1) + 65536 * byte_or_zero(s, 2)
        + 16777216 * byte_or_zero(s, 3)
}

/// What taking the next packet does to a buffer: the packet, if the buffer
/// holds a complete one, and the buffer that is left.
pub open spec fn spec_next_packet(buf: Seq<u8>) -> (Option<Seq<u8>>, Seq<u8>) {
    if buf.len() >= 4 && buf.len() >= spec_length_prefix(buf) + 4 {
        let n = spec_length_prefix(buf);
        (Some(buf.subrange(4, 4 + n)), buf.subrange(4 + n, buf.len() as int))
    } else {
        (None, buf)
    }
}

/// The four-byte little-endian length prefix of a packet of `n` bytes.
pub open spec fn spec_length_bytes(n: nat) -> Seq<u8> {
    seq![(n % 256) as u8, ((n / 256) % 256) as u8, ((n / 65536) % 256) as u8, ((n / 16777216) % 256) as u8]
}

/// A packet as it travels in the stream: its length prefix, then its bytes.
pub open spec fn spec_frame(p: Seq<u8>) -> Seq<u8> {
    spec_length_bytes(p.len()) + p
}

/// The bytes of several messages, one after another.
pub open spec fn spec_concat(ms: Seq<Seq<u8>>) -> Seq<u8>
    decreases ms.len(),
{
    if ms.len() == 0 {
        Seq::empty()
    } else {
        spec_concat(ms.drop_last()) + ms.last()
    }
}

/// The buffer `b0` after the first `j` of the messages `ms` were appended.
pub open spec fn spec_fed(b0: Seq<u8>, ms: Seq<Seq<u8>>, j: int) -> Seq<u8> {
    b0 + spec_concat(ms.take(j))
}

/// Whether taking the next packet from buffer `b0`, having taken the
/// messages `ms` from the channel, gives `r` and leaves buffer `b1`: a
/// message is taken only while the buffer holds no complete packet; then
/// either the buffer, grown by all of `ms`, yields the packet `r`, or no
/// packet is complete, `r` is `None` and every taken byte stays buffered.
pub open spec fn spec_pulled(b0: Seq<u8>, ms: Seq<Seq<u8>>, r: Option<Seq<u8>>, b1: Seq<u8>) -> bool {
    &&& forall|j: int| 0 <= j < ms.len() ==> (#[trigger] spec_next_packet(spec_fed(b0, ms, j))).0 is None
    &&& match r {
        Some(p) => spec_next_packet(spec_fed(b0, ms, ms.len() as int)) == (Some(p), b1),
        None => spec_next_packet(spec_fed(b0, ms, ms.len() as int)).0 is None && b1 == spec_fed(b0, ms, ms.len() as int),
    }
}

/// The bytes of an optional packet.
pub open spec fn spec_opt_bytes(p: Option<Vec<u8>>) -> Option<Seq<u8>> {
    match p {
        Some(v) => Some(v@),
        None => None,
    }
}

/// The receiving end of a channel of byte messages.
#[verifier::external_type_specification]
#[verifier::external_body]
#[verifier::reject_recursive_types(T)]
pub struct ExReceiver<T>(Receiver<T>);

/// The next message waiting in the channel, through `Receiver::try_recv`:
/// `Some` with a message that was sent and not yet received, or `None` when
/// none is waiting or every sender is gone. What comes back depends on the
/// other threads, so nothing is stated of it.
#[verifier::external_body]
fn try_take(rx: &Receiver<Vec<u8>>) -> (m: Option<Vec<u8>>) {
    match rx.try_recv() {
        Ok(data) => Some(data),
        Err(_) => None,
    }
}

/// Buffer of captured bytes, cut into length-prefixed packets.
pub struct CynthionStream {
    receiver: Receiver<Vec<u8>>,
    buffer: VecDeque<u8>,
}

impl View for CynthionStream {
    type V = Seq<u8>;

    /// The bytes received and not yet taken as packets.
    closed spec fn view(&self) -> Seq<u8> {
        self.buffer@
    }
}

impl CynthionStream {
    /// A stream that reads from `receiver`, with nothing buffered.
    pub fn new(receiver: Receiver<Vec<u8>>) -> (s: CynthionStream)
        ensures
            s@ == Seq::<u8>::empty(),
    {
        CynthionStream { receiver, buffer: VecDeque::new() }
    }

    /// Appends received bytes to the buffer.
    fn append(&mut self, data: &[u8])
        ensures
            final(self)@ == old(self)@ + data@,
    {
        let mut i: usize = 0;
        while i < data.len()
            invariant
                i <= data@.len(),
                self.buffer@ == old(self).buffer@ + data@.subrange(0, i as int),
            decreases data@.len() - i,
        {
            self.buffer.push_back(data[i]);
            i += 1;
            assert(self.buffer@ =~= old(self).buffer@ + data@.subrange(0, i as int));
        }
        assert(data@.subrange(0, data@.len() as int) =~= data@);
    }

    /// The length announced by the first four buffered bytes, little-endian;
    /// bytes not yet received count as zero.
    pub fn peek_packet_len(&self) -> (n: usize)
        ensures
            n == spec_length_prefix(self@),
    {
        let len = self.buffer.len();
        let b0: u32 = if len > 0 { self.buffer[0] as u32 } else { 0 };
        let b1: u32 = if len > 1 { self.buffer[1] as u32 } else { 0 };
        let b2: u32 = if len > 2 { self.buffer[2] as u32 } else { 0 };
        let b3: u32 = if len > 3 { self.buffer[3] as u32 } else { 0 };
        let v: u32 = b0 + 256 * b1 + 65536 * b2 + 16777216 * b3;
        v as usize
    }

    /// Takes a packet of `packet_len` bytes off the front of the buffer,
    /// after its four-byte length prefix.
    pub fn extract_packet(&mut self, packet_len: usize) -> (p: Vec<u8>)
        requires
            old(self)@.len() >= packet_len + 4,
        ensures
            p@ == old(self)@.subrange(4, 4 + packet_len),
            final(self)@ == old(self)@.subrange(4 + packet_len, old(self)@.len() as int),
    {
        let ghost start = self.buffer@;
        let mut k: usize = 0;
        while k < 4
            invariant
                k <= 4,
                start.len() >= packet_len + 4,
                self.buffer@ == start.subrange(k as int, start.len() as int),
            decreases 4 - k,
        {
            self.buffer.pop_front();
            k += 1;
            assert(self.buffer@ =~= start.subrange(k as int, start.len() as int));
        }
        let mut packet: Vec<u8> = Vec::new();
        let mut i: usize = 0;
        while i < packet_len
            invariant
                i <= packet_len,
                start.len() >= packet_len + 4,
                self.buffer@ == start.subrange(4 + i, start.len() as int),
                packet@ == start.subrange(4, 4 + i),
            decreases packet_len - i,
        {
            let b = self.buffer.pop_front();
            match b {
                Some(byte) => packet.push(byte),
                None => {},
            }
            i += 1;
            assert(packet@ =~= start.subrange(4, 4 + i));
            assert(self.buffer@ =~= start.subrange(4 + i, start.len() as int));
        }
        packet
    }

    /// Takes the next complete packet off the buffer, if it holds one.
    fn buffered_packet(&mut self) -> (p: Option<Vec<u8>>)
        ensures
            match p {
                Some(v) => spec_next_packet(old(self)@) == (Some(v@), final(self)@),
                None => spec_next_packet(old(self)@).0 is None && final(self)@ == old(self)@,
            },
    {
        if self.buffer.len() >= 4 {
            let packet_len = self.peek_packet_len();
            if self.buffer.len() - 4 >= packet_len {
                return Some(self.extract_packet(packet_len));
            }
        }
        None
    }

    /// The next complete packet: while the buffer holds none, messages
    /// waiting in the channel are appended to it one at a time; once a
    /// packet is complete it is taken off the buffer. `None` when the
    /// channel runs dry (or after `usize::MAX` messages) with no packet
    /// complete; every byte taken stays buffered.
    pub fn next_packet(&mut self) -> (p: Option<Vec<u8>>)
        ensures
            exists|ms: Seq<Seq<u8>>| #[trigger] spec_pulled(
                old(self)@,
                ms,
                spec_opt_bytes(p),
                final(self)@,
            ),
    {
        let ghost b0 = self@;
        let ghost mut ms: Seq<Seq<u8>> = Seq::empty();
        let mut pulls: usize = 0;
        assert(ms.take(0) =~= Seq::<Seq<u8>>::empty());
        assert(spec_fed(b0, ms, 0) =~= b0);
        loop
            invariant
                b0 == old(self)@,
                pulls == ms.len(),
                self@ == spec_fed(b0, ms, ms.len() as int),
                forall|j: int| 0 <= j < ms.len() ==> (#[trigger] spec_next_packet(spec_fed(b0, ms, j))).0 is None,
            decreases usize::MAX - pulls,
        {
            let ghost before = self@;
            match self.buffered_packet() {
                Some(v) => {
                    assert(spec_pulled(b0, ms, spec_opt_bytes(Some(v)), self@));
                    return Some(v);
                },
                None => {},
            }
            if pulls == usize::MAX {
                assert(spec_pulled(b0, ms, spec_opt_bytes(None), self@));
                return None;
            }
            match try_take(&self.receiver) {
                Some(m) => {
                    self.append(m.as_slice());
                    proof {
                        let ms2 = ms.push(m@);
                        assert(ms2.take(ms2.len() as int).drop_last() =~= ms.take(ms.len() as int));
                        assert(ms2.take(ms2.len() as int) =~= ms2);
                        assert(ms.take(ms.len() as int) =~= ms);
                        assert(ms2.drop_last() =~= ms);
                        assert(spec_fed(b0, ms2, ms2.len() as int) =~= before + m@);
                        assert forall|j: int| 0 <= j < ms2.len() implies (#[trigger] spec_next_packet(spec_fed(b0, ms2, j))).0 is None by {
                            if j < ms.len() {
                                assert(ms2.take(j) =~= ms.take(j));
                                assert(spec_fed(b0, ms2, j) == spec_fed(b0, ms, j));
                            } else {
                                assert(ms2.take(j) =~= ms.take(ms.len() as int));
                                assert(spec_fed(b0, ms2, j) == before);
                            }
                        }
                        ms = ms2;
                    }
                    pulls = pulls + 1;
                },
                None => {
                    assert(spec_pulled(b0, ms, spec_opt_bytes(None), self@));
                    return None;
                },
            }
        }
    }
}

} // verus!
