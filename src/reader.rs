//! Forward-only cursor over one inbound buffer.
use vstd::prelude::*;
use vstd::utf8::*;

use crate::codec::{
    header_read, i32_at, i32_list_read, le_value, lemma_le_value_bound, lemma_pow128_values,
    lemma_pow256_values, lemma_uleb_parse_len, osu_string_read, pow128, string_from_utf8,
    uleb_parse, uleb_read, Readable, HEADER_LEN, ULEB_MAX_BYTES,
};

verus! {

/// A cursor over the bytes of one request.
pub struct Reader {
    buf: Vec<u8>,
    offset: usize,
}

impl Reader {
    /// The whole buffer.
    pub closed spec fn bytes(&self) -> Seq<u8> {
        self.buf@
    }

    /// The cursor position; it may lie past the end after a skip.
    pub closed spec fn pos(&self) -> nat {
        self.offset as nat
    }

    /// The bytes from the cursor on.
    pub open spec fn rest(&self) -> Seq<u8> {
        if self.pos() <= self.bytes().len() {
            self.bytes().subrange(self.pos() as int, self.bytes().len() as int)
        } else {
            Seq::empty()
        }
    }

    /// The same buffer, with the cursor `n` bytes further on.
    pub open spec fn advanced(&self, r: &Reader, n: nat) -> bool {
        r.bytes() == self.bytes() && r.pos() == self.pos() + n
    }

    pub fn new(packet: Vec<u8>) -> (r: Self)
        ensures
            r.bytes() == packet@,
            r.pos() == 0,
    {
        Self { buf: packet, offset: 0 }
    }

    /// Moves the cursor `amount` bytes on.
    pub fn incr_offset(&mut self, amount: usize)
        requires
            old(self).pos() + amount <= usize::MAX,
        ensures
            old(self).advanced(final(self), amount as nat),
    {
        self.offset = self.offset + amount;
    }

    /// Number of bytes left from the cursor on.
    pub fn remaining(&self) -> (r: usize)
        ensures
            r == self.rest().len(),
            self.bytes().len() <= usize::MAX,
            self.pos() <= usize::MAX,
            r > 0 ==> self.pos() + r == self.bytes().len(),
    {
        if self.offset >= self.buf.len() {
            0
        } else {
            self.buf.len() - self.offset
        }
    }

    /// The `n` bytes at the cursor, the cursor unmoved.
    fn peek_bytes(&self, n: usize) -> (r: Vec<u8>)
        requires
            n <= self.rest().len(),
        ensures
            r@ == self.rest().subrange(0, n as int),
    {
        let mut r: Vec<u8> = Vec::new();
        let mut i: usize = 0;
        while i < n
            invariant
                i <= n,
                n <= self.rest().len(),
                n == 0 || self.offset + n <= self.buf.len(),
                r@ == self.rest().subrange(0, i as int),
            decreases n - i,
        {
            r.push(self.buf[self.offset + i]);
            i = i + 1;
            assert(r@ =~= self.rest().subrange(0, i as int));
        }
        r
    }

    /// Reads a fixed-width integer; `None`, the cursor unmoved, when too few
    /// bytes are left.
    pub fn read_int<T: Readable>(&mut self) -> (r: Option<T>)
        ensures
            old(self).rest().len() >= T::byte_len() ==> r == Some(
                T::spec_from_le(old(self).rest().subrange(0, T::byte_len() as int)),
            ) && old(self).advanced(final(self), T::byte_len()),
            old(self).rest().len() < T::byte_len() ==> r is None && old(self).advanced(final(self), 0),
    {
        let n = T::size();
        if self.remaining() < n {
            return None;
        }
        let bytes = self.peek_bytes(n);
        let value = T::from_le_bytes(bytes.as_slice());
        assert(self.offset + n <= self.buf.len());
        self.offset = self.offset + n;
        Some(value)
    }

    /// Reads a ULEB128 varint of at most five bytes, reduced to 32 bits.
    pub fn read_uleb128(&mut self) -> (r: Option<u32>)
        ensures
            match uleb_read(old(self).rest()) {
                Some((v, n)) => r == Some(v) && old(self).advanced(final(self), n),
                None => r is None && old(self).advanced(final(self), 0),
            },
    {
        let ghost s = self.rest();
        let left = self.remaining();
        let mut i: usize = 0;
        let mut acc: u64 = 0;
        let mut mult: u64 = 1;
        proof {
            lemma_pow128_values();
            assert(s.subrange(0, s.len() as int) =~= s);
        }
        while i < ULEB_MAX_BYTES
            invariant
                i <= ULEB_MAX_BYTES,
                old(self).advanced(self, 0),
                left == s.len(),
                s == self.rest(),
                self.offset <= self.buf.len() || left == 0,
                mult == pow128(i as nat),
                acc < mult,
                forall|j: int| 0 <= j < i ==> s[j] >= 128,
                i <= left,
                uleb_parse(s, ULEB_MAX_BYTES as nat) == shifted(
                    uleb_parse(s.subrange(i as int, s.len() as int), (ULEB_MAX_BYTES - i) as nat),
                    acc as nat,
                    mult as nat,
                    i as nat,
                ),
            decreases ULEB_MAX_BYTES - i,
        {
            let ghost cur = s.subrange(i as int, s.len() as int);
            if i >= left {
                assert(cur.len() == 0);
                return None;
            }
            let b = self.buf[self.offset + i];
            assert(b == cur[0]);
            assert(mult <= 0x1000_0000) by {
                lemma_pow128_values();
                if i == 0 {
                } else if i == 1 {
                } else if i == 2 {
                } else if i == 3 {
                } else {
                }
            }
            if b < 128 {
                proof {
                    assert(acc + mult * b < 0x1_0000_0000_0000) by (nonlinear_arith)
                        requires
                            acc < mult,
                            mult <= 0x1000_0000,
                            b < 128,
                    ;
                }
                let v = acc + mult * (b as u64);
                self.offset = self.offset + i + 1;
                return Some((v % 0x1_0000_0000) as u32);
            }
            proof {
                assert(cur.drop_first() =~= s.subrange(i + 1, s.len() as int));
                let w = (b - 128) as nat;
                let next = uleb_parse(
                    s.subrange(i + 1, s.len() as int),
                    (ULEB_MAX_BYTES - i - 1) as nat,
                );
                if let Some((x, m)) = next {
                    assert(acc + mult * (w + 128 * x) == (acc + mult * w) + (mult * 128) * x)
                        by (nonlinear_arith);
                }
                assert(acc + mult * w < mult * 128) by (nonlinear_arith)
                    requires
                        acc < mult,
                        w < 128,
                ;
                reveal_with_fuel(pow128, 2);
            }
            acc = acc + mult * ((b - 128) as u64);
            mult = mult * 128;
            i = i + 1;
        }
        proof {
            let cur = s.subrange(i as int, s.len() as int);
            assert(uleb_parse(cur, 0) is None);
        }
        None
    }

    /// Reads a length-prefixed string; `None`, the cursor unmoved, when the
    /// buffer ends inside it.
    pub fn read_str(&mut self) -> (r: Option<String>)
        ensures
            match osu_string_read(old(self).rest()) {
                Some((v, n)) => r matches Some(s) && s@ == v && old(self).advanced(final(self), n),
                None => r is None && old(self).advanced(final(self), 0),
            },
    {
        let ghost s = self.rest();
        let saved = self.offset;
        let flag = match self.read_int::<u8>() {
            Some(f) => f,
            None => return None,
        };
        proof {
            lemma_pow256_values();
            assert(s.subrange(0, 1) =~= seq![s[0]]);
            assert(le_value(s.subrange(0, 1)) == s[0]) by {
                reveal_with_fuel(le_value, 2);
                assert(s.subrange(0, 1).drop_first() =~= Seq::<u8>::empty());
            }
        }
        if flag != 0x0b {
            return Some(String::new());
        }
        proof {
            assert(self.rest() =~= s.drop_first());
        }
        let len = match self.read_uleb128() {
            Some(l) => l,
            None => {
                self.offset = saved;
                return None;
            },
        };
        if self.remaining() < len as usize {
            self.offset = saved;
            return None;
        }
        let ghost n = (self.pos() - saved) as nat;
        proof {
            if let Some((v, m)) = uleb_parse(s.drop_first(), ULEB_MAX_BYTES as nat) {
                lemma_uleb_parse_len(s.drop_first(), ULEB_MAX_BYTES as nat);
            }
            assert(self.pos() <= self.bytes().len());
            assert(n + len <= s.len());
        }
        let body = self.peek_bytes(len as usize);
        proof {
            assert(body@ =~= s.subrange(n as int, n + len));
        }
        assert(self.offset + len as usize <= self.buf.len());
        self.offset = self.offset + len as usize;
        match string_from_utf8(body) {
            Some(text) => {
                proof {
                    broadcast use encode_utf8_decode_utf8;

                }
                Some(text)
            },
            None => Some(String::new()),
        }
    }

    /// Reads an integer list; `None`, the cursor unmoved, when the buffer ends
    /// inside it.
    pub fn read_i32_list(&mut self) -> (r: Option<Vec<i32>>)
        ensures
            match i32_list_read(old(self).rest()) {
                Some((v, n)) => r matches Some(l) && l@ == v && old(self).advanced(final(self), n),
                None => r is None && old(self).advanced(final(self), 0),
            },
    {
        let ghost s = self.rest();
        let saved = self.offset;
        let count = match self.read_int::<u16>() {
            Some(c) => c,
            None => return None,
        };
        proof {
            lemma_pow256_values();
            lemma_le_value_bound(s.subrange(0, 2));
        }
        if self.remaining() / 4 < count as usize {
            self.offset = saved;
            return None;
        }
        let mut l: Vec<i32> = Vec::new();
        let mut i: usize = 0;
        while i < count as usize
            invariant
                i <= count,
                self.bytes() == old(self).bytes(),
                self.pos() == saved + 2 + 4 * i,
                s == old(self).rest(),
                saved == old(self).pos(),
                saved + 2 + 4 * count <= self.bytes().len(),
                l@.len() == i,
                forall|k: int| 0 <= k < i ==> l@[k] == i32_at(s, k),
            decreases count - i,
        {
            let ghost before = self.rest();
            let v = self.read_int::<i32>();
            let v = match v {
                Some(v) => v,
                None => {
                    assert(false);
                    return None;
                },
            };
            proof {
                assert(before.subrange(0, 4) =~= s.subrange(2 + 4 * i, 6 + 4 * i));
            }
            l.push(v);
            i = i + 1;
        }
        assert(l@ =~= Seq::new(count as nat, |k: int| i32_at(s, k)));
        Some(l)
    }

    /// Reads a frame header: packet id and declared payload length.
    pub fn read_header(&mut self) -> (r: Option<(i32, u32)>)
        ensures
            match header_read(old(self).rest()) {
                Some((id, len)) => r == Some((id as i32, len)) && old(self).advanced(
                    final(self),
                    HEADER_LEN as nat,
                ),
                None => r is None && old(self).advanced(final(self), 0),
            },
    {
        let ghost s = self.rest();
        if self.remaining() < HEADER_LEN {
            return None;
        }
        let id = self.read_int::<u16>().unwrap();
        assert(self.offset + 1 <= self.buf.len());
        self.offset = self.offset + 1;
        proof {
            assert(self.rest() =~= s.subrange(3, s.len() as int));
        }
        let len = self.read_int::<u32>().unwrap();
        proof {
            assert(s.subrange(3, 7) =~= s.subrange(3, s.len() as int).subrange(0, 4));
        }
        Some((id as i32, len))
    }

    /// Reads `n` raw bytes.
    pub fn read_raw(&mut self, n: usize) -> (r: Option<Vec<u8>>)
        ensures
            n <= old(self).rest().len() ==> (r matches Some(b) && b@ == old(self).rest().subrange(
                0,
                n as int,
            ) && old(self).advanced(final(self), n as nat)),
            n > old(self).rest().len() ==> r is None && old(self).advanced(final(self), 0),
    {
        if self.remaining() < n {
            return None;
        }
        let b = self.peek_bytes(n);
        assert(n == 0 || self.offset + n <= self.buf.len());
        self.offset = self.offset + n;
        Some(b)
    }

    /// Whether the cursor has reached the end of the buffer.
    pub fn empty(&self) -> (r: bool)
        ensures
            r == (self.pos() >= self.bytes().len()),
    {
        self.buf.len() <= self.offset
    }
}

/// After a move of `n` bytes, the rest is what followed them.
pub proof fn lemma_advanced_rest(a: &Reader, b: &Reader, n: nat)
    requires
        a.advanced(b, n),
        n <= a.rest().len(),
    ensures
        b.rest() == a.rest().subrange(n as int, a.rest().len() as int),
        b.rest().len() == a.rest().len() - n,
{
    assert(b.rest() =~= a.rest().subrange(n as int, a.rest().len() as int));
}

/// A varint parse of the bytes after `i` already-read bytes worth `acc`,
/// seen from the start.
pub open spec fn shifted(p: Option<(nat, nat)>, acc: nat, mult: nat, i: nat) -> Option<(nat, nat)> {
    match p {
        Some((v, n)) => Some((acc + mult * v, i + n)),
        None => None,
    }
}

} // verus!
