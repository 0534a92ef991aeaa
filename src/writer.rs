//! Builds outbound frames field by field.
use vstd::prelude::*;

use crate::codec::{
    append_bytes, encode_le, frame_bytes, i32_list_bytes, i32s_bytes, le_bytes,
    lemma_le_bytes_len, osu_string_bytes, push_osu_string, Readable,
};
use crate::constants::Packets;

verus! {

/// One outbound packet under construction: its type and the payload so far.
pub struct PacketWriter {
    packet: Packets,
    data: Vec<u8>,
}

impl PacketWriter {
    /// The packet type being built.
    pub closed spec fn kind(&self) -> Packets {
        self.packet
    }

    /// The payload written so far.
    pub closed spec fn payload(&self) -> Seq<u8> {
        self.data@
    }

    /// Same packet type, with `extra` appended to the payload.
    pub open spec fn extended(&self, next: &PacketWriter, extra: Seq<u8>) -> bool {
        next.kind() == self.kind() && next.payload() == self.payload() + extra
    }

    pub fn new(packet: Packets) -> (r: Self)
        ensures
            r.kind() == packet,
            r.payload() == Seq::<u8>::empty(),
    {
        Self { packet: packet, data: Vec::new() }
    }

    /// Appends a fixed-width integer.
    pub fn write_int<T: Readable>(&mut self, value: T)
        ensures
            old(self).extended(final(self), T::spec_to_le(value)),
    {
        let b = T::le_encode(value);
        append_bytes(&mut self.data, b.as_slice());
    }

    /// Appends a length-prefixed string.
    pub fn write_str(&mut self, value: &str)
        ensures
            old(self).extended(final(self), osu_string_bytes(value@)),
    {
        push_osu_string(&mut self.data, value);
    }

    /// Appends an integer list: a 16-bit count, then the entries.
    pub fn write_i32_list(&mut self, list: &Vec<i32>)
        ensures
            old(self).extended(final(self), i32_list_bytes(list@)),
    {
        let count = encode_le(list.len() as u64, 2);
        proof {
            lemma_le_bytes_len(list.len() as nat, 2);
            assert(le_bytes(list.len() as u64 as nat, 2) == le_bytes(list@.len(), 2));
        }
        append_bytes(&mut self.data, count.as_slice());
        let ghost start = self.data@;
        let mut i: usize = 0;
        while i < list.len()
            invariant
                i <= list@.len(),
                self.packet == old(self).packet,
                self.data@ == start + i32s_bytes(list@.subrange(0, i as int)),
            decreases list@.len() - i,
        {
            let b = <i32 as Readable>::le_encode(list[i]);
            append_bytes(&mut self.data, b.as_slice());
            proof {
                let sub = list@.subrange(0, i + 1);
                assert(sub.drop_last() =~= list@.subrange(0, i as int));
                assert(sub.last() == list@[i as int]);
            }
            i = i + 1;
        }
        assert(list@.subrange(0, i as int) =~= list@);
        assert(self.data@ =~= old(self).data@ + i32_list_bytes(list@));
    }

    /// Appends raw bytes.
    pub fn write_bytes(&mut self, bytes: &[u8])
        ensures
            old(self).extended(final(self), bytes@),
    {
        append_bytes(&mut self.data, bytes);
    }

    /// Appends another writer's payload.
    pub fn add(&mut self, other: PacketWriter)
        ensures
            old(self).extended(final(self), other.payload()),
    {
        append_bytes(&mut self.data, other.data.as_slice());
    }

    /// The finished frame: id, a zero byte, the payload length and the
    /// payload. The payload is handed over, leaving the writer empty.
    pub fn serialise(&mut self) -> (r: Vec<u8>)
        ensures
            r@ == frame_bytes(old(self).kind().spec_id(), old(self).payload()),
            final(self).kind() == old(self).kind(),
            final(self).payload() == Seq::<u8>::empty(),
    {
        let mut out = <u16 as Readable>::le_encode(self.packet.id());
        out.push(0);
        let len = encode_le(self.data.len() as u64, 4);
        append_bytes(&mut out, len.as_slice());
        out.append(&mut self.data);
        assert(out@ =~= frame_bytes(old(self).kind().spec_id(), old(self).payload()));
        out
    }
}

} // verus!
