//! Bit-exact wire encoding: fixed-width little-endian integers, ULEB128
//! varints, length-prefixed strings, integer lists and frame headers.
use vstd::prelude::*;
use vstd::utf8::*;

verus! {

/// `256^n`.
pub open spec fn pow256(n: nat) -> nat
    decreases n,
{
    if n == 0 {
        1
    } else {
        256 * pow256((n - 1) as nat)
    }
}

/// The unsigned value of a little-endian byte sequence.
pub open spec fn le_value(b: Seq<u8>) -> nat
    decreases b.len(),
{
    if b.len() == 0 {
        0
    } else {
        b[0] as nat + 256 * le_value(b.drop_first())
    }
}

/// The `n` low-order bytes of `v`, least significant first.
pub open spec fn le_bytes(v: nat, n: nat) -> Seq<u8>
    decreases n,
{
    if n == 0 {
        Seq::empty()
    } else {
        seq![(v % 256) as u8] + le_bytes(v / 256, (n - 1) as nat)
    }
}

/// Two's-complement image of a signed value on `n` bytes.
pub open spec fn to_unsigned(v: int, n: nat) -> nat {
    if v < 0 {
        (v + pow256(n)) as nat
    } else {
        v as nat
    }
}

/// Signed reading of an unsigned value on `n` bytes.
pub open spec fn to_signed(u: nat, n: nat) -> int {
    if 2 * u >= pow256(n) {
        u - pow256(n)
    } else {
        u as int
    }
}

pub proof fn lemma_pow256_values()
    ensures
        pow256(0) == 1,
        pow256(1) == 0x100,
        pow256(2) == 0x1_0000,
        pow256(3) == 0x100_0000,
        pow256(4) == 0x1_0000_0000,
        pow256(5) == 0x100_0000_0000,
        pow256(6) == 0x1_0000_0000_0000,
        pow256(7) == 0x100_0000_0000_0000,
        pow256(8) == 0x1_0000_0000_0000_0000,
{
    reveal_with_fuel(pow256, 9);
}

pub proof fn lemma_pow256_mono(a: nat, b: nat)
    requires
        a <= b,
    ensures
        pow256(a) <= pow256(b),
        pow256(a) >= 1,
    decreases b,
{
    if b > a {
        lemma_pow256_mono(a, (b - 1) as nat);
    } else if a > 0 {
        lemma_pow256_mono((a - 1) as nat, (a - 1) as nat);
    }
}

pub proof fn lemma_le_value_bound(b: Seq<u8>)
    ensures
        le_value(b) < pow256(b.len()),
    decreases b.len(),
{
    if b.len() > 0 {
        lemma_le_value_bound(b.drop_first());
    }
}

/// Decoding the `n` low bytes of a value that fits in `n` bytes gives it back.
pub proof fn lemma_le_round_trip(v: nat, n: nat)
    requires
        v < pow256(n),
    ensures
        le_bytes(v, n).len() == n,
        le_value(le_bytes(v, n)) == v,
    decreases n,
{
    if n > 0 {
        lemma_le_round_trip(v / 256, (n - 1) as nat);
        let s = le_bytes(v, n);
        assert(s.drop_first() =~= le_bytes(v / 256, (n - 1) as nat));
    }
}

pub proof fn lemma_le_bytes_len(v: nat, n: nat)
    ensures
        le_bytes(v, n).len() == n,
    decreases n,
{
    if n > 0 {
        lemma_le_bytes_len(v / 256, (n - 1) as nat);
    }
}

/// Signed values survive the two's-complement round trip.
pub proof fn lemma_signed_round_trip(v: int, n: nat)
    requires
        n >= 1,
        -pow256(n) <= 2 * v < pow256(n),
    ensures
        to_unsigned(v, n) < pow256(n),
        to_signed(to_unsigned(v, n), n) == v,
{
}

/// The `n` low-order bytes of `v`, least significant first.
pub fn encode_le(v: u64, n: usize) -> (r: Vec<u8>)
    ensures
        r@ == le_bytes(v as nat, n as nat),
{
    let mut r: Vec<u8> = Vec::new();
    let mut x: u64 = v;
    let mut i: usize = 0;
    while i < n
        invariant
            i <= n,
            r@ + le_bytes(x as nat, (n - i) as nat) == le_bytes(v as nat, n as nat),
        decreases n - i,
    {
        let ghost rest = le_bytes(x as nat / 256, (n - i - 1) as nat);
        assert(le_bytes(x as nat, (n - i) as nat) == seq![(x % 256) as u8] + rest);
        let ghost before = r@;
        r.push((x % 256) as u8);
        assert(r@ + rest =~= before + (seq![(x % 256) as u8] + rest));
        x = x / 256;
        i = i + 1;
    }
    assert(le_bytes(x as nat, 0) =~= Seq::<u8>::empty());
    assert(r@ + Seq::<u8>::empty() =~= r@);
    r
}

/// The unsigned value of at most eight little-endian bytes.
pub fn decode_le(b: &[u8]) -> (r: u64)
    requires
        b@.len() <= 8,
    ensures
        r as nat == le_value(b@),
{
    let n = b.len();
    let mut acc: u64 = 0;
    let mut i: usize = n;
    proof {
        lemma_pow256_values();
        assert(b@.subrange(n as int, n as int) =~= Seq::<u8>::empty());
    }
    while i > 0
        invariant
            i <= n,
            n == b@.len(),
            n <= 8,
            acc as nat == le_value(b@.subrange(i as int, n as int)),
        decreases i,
    {
        let ghost tail = b@.subrange(i as int, n as int);
        i = i - 1;
        let ghost cur = b@.subrange(i as int, n as int);
        proof {
            assert(cur.drop_first() =~= tail);
            lemma_le_value_bound(cur);
            lemma_pow256_mono(cur.len(), 8);
            lemma_pow256_values();
        }
        acc = b[i] as u64 + acc * 256;
    }
    assert(b@.subrange(0, n as int) =~= b@);
    acc
}

/// Fixed-width integers read back as written, whatever follows them.
pub proof fn lemma_primitive_round_trip<T: Readable>(x: T, rest: Seq<u8>)
    ensures
        T::spec_from_le((T::spec_to_le(x) + rest).subrange(0, T::byte_len() as int)) == x,
{
    T::lemma_round_trip(x);
    assert((T::spec_to_le(x) + rest).subrange(0, T::byte_len() as int) =~= T::spec_to_le(x));
}

/// A fixed-width integer carried on the wire in little-endian order.
pub trait Readable: Sized {
    /// Number of bytes on the wire.
    spec fn byte_len() -> nat;

    /// The value that `byte_len()` little-endian bytes stand for.
    spec fn spec_from_le(b: Seq<u8>) -> Self;

    /// The wire bytes of `x`.
    spec fn spec_to_le(x: Self) -> Seq<u8>;

    fn size() -> (r: usize)
        ensures
            r as nat == Self::byte_len(),
            1 <= r <= 8,
    ;

    fn from_le_bytes(bytes: &[u8]) -> (r: Self)
        requires
            bytes@.len() == Self::byte_len(),
        ensures
            r == Self::spec_from_le(bytes@),
    ;

    fn le_encode(x: Self) -> (r: Vec<u8>)
        ensures
            r@ == Self::spec_to_le(x),
    ;

    /// Encoding then decoding gives the value back.
    proof fn lemma_round_trip(x: Self)
        ensures
            Self::spec_to_le(x).len() == Self::byte_len(),
            Self::spec_from_le(Self::spec_to_le(x)) == x,
    ;
}

impl Readable for u8 {
    open spec fn byte_len() -> nat {
        1
    }

    open spec fn spec_from_le(b: Seq<u8>) -> u8 {
        le_value(b) as u8
    }

    open spec fn spec_to_le(x: u8) -> Seq<u8> {
        le_bytes(x as nat, 1)
    }

    fn size() -> (r: usize) {
        1
    }

    fn from_le_bytes(bytes: &[u8]) -> (r: u8) {
        proof {
            lemma_le_value_bound(bytes@);
            lemma_pow256_values();
        }
        decode_le(bytes) as u8
    }

    fn le_encode(x: u8) -> (r: Vec<u8>) {
        encode_le(x as u64, 1)
    }

    proof fn lemma_round_trip(x: u8) {
        lemma_pow256_values();
        lemma_le_round_trip(x as nat, 1);
    }
}

impl Readable for u16 {
    open spec fn byte_len() -> nat {
        2
    }

    open spec fn spec_from_le(b: Seq<u8>) -> u16 {
        le_value(b) as u16
    }

    open spec fn spec_to_le(x: u16) -> Seq<u8> {
        le_bytes(x as nat, 2)
    }

    fn size() -> (r: usize) {
        2
    }

    fn from_le_bytes(bytes: &[u8]) -> (r: u16) {
        proof {
            lemma_le_value_bound(bytes@);
            lemma_pow256_values();
        }
        decode_le(bytes) as u16
    }

    fn le_encode(x: u16) -> (r: Vec<u8>) {
        encode_le(x as u64, 2)
    }

    proof fn lemma_round_trip(x: u16) {
        lemma_pow256_values();
        lemma_le_round_trip(x as nat, 2);
    }
}

impl Readable for u32 {
    open spec fn byte_len() -> nat {
        4
    }

    open spec fn spec_from_le(b: Seq<u8>) -> u32 {
        le_value(b) as u32
    }

    open spec fn spec_to_le(x: u32) -> Seq<u8> {
        le_bytes(x as nat, 4)
    }

    fn size() -> (r: usize) {
        4
    }

    fn from_le_bytes(bytes: &[u8]) -> (r: u32) {
        proof {
            lemma_le_value_bound(bytes@);
            lemma_pow256_values();
        }
        decode_le(bytes) as u32
    }

    fn le_encode(x: u32) -> (r: Vec<u8>) {
        encode_le(x as u64, 4)
    }

    proof fn lemma_round_trip(x: u32) {
        lemma_pow256_values();
        lemma_le_round_trip(x as nat, 4);
    }
}

impl Readable for u64 {
    open spec fn byte_len() -> nat {
        8
    }

    open spec fn spec_from_le(b: Seq<u8>) -> u64 {
        le_value(b) as u64
    }

    open spec fn spec_to_le(x: u64) -> Seq<u8> {
        le_bytes(x as nat, 8)
    }

    fn size() -> (r: usize) {
        8
    }

    fn from_le_bytes(bytes: &[u8]) -> (r: u64) {
        proof {
            lemma_le_value_bound(bytes@);
            lemma_pow256_values();
        }
        decode_le(bytes) as u64
    }

    fn le_encode(x: u64) -> (r: Vec<u8>) {
        encode_le(x as u64, 8)
    }

    proof fn lemma_round_trip(x: u64) {
        lemma_pow256_values();
        lemma_le_round_trip(x as nat, 8);
    }
}

impl Readable for i8 {
    open spec fn byte_len() -> nat {
        1
    }

    open spec fn spec_from_le(b: Seq<u8>) -> i8 {
        to_signed(le_value(b), 1) as i8
    }

    open spec fn spec_to_le(x: i8) -> Seq<u8> {
        le_bytes(to_unsigned(x as int, 1), 1)
    }

    fn size() -> (r: usize) {
        1
    }

    fn from_le_bytes(bytes: &[u8]) -> (r: i8) {
        proof {
            lemma_le_value_bound(bytes@);
            lemma_pow256_values();
        }
        let u: u64 = decode_le(bytes);
        if u >= 0x80 {
            (u as i128 - 0x100) as i8
        } else {
            u as i8
        }
    }

    fn le_encode(x: i8) -> (r: Vec<u8>) {
        proof {
            lemma_pow256_values();
        }
        let u: u64 = if x < 0 {
            (x as i128 + 0x100) as u64
        } else {
            x as u64
        };
        encode_le(u, 1)
    }

    proof fn lemma_round_trip(x: i8) {
        lemma_pow256_values();
        lemma_signed_round_trip(x as int, 1);
        lemma_le_round_trip(to_unsigned(x as int, 1), 1);
    }
}

impl Readable for i16 {
    open spec fn byte_len() -> nat {
        2
    }

    open spec fn spec_from_le(b: Seq<u8>) -> i16 {
        to_signed(le_value(b), 2) as i16
    }

    open spec fn spec_to_le(x: i16) -> Seq<u8> {
        le_bytes(to_unsigned(x as int, 2), 2)
    }

    fn size() -> (r: usize) {
        2
    }

    fn from_le_bytes(bytes: &[u8]) -> (r: i16) {
        proof {
            lemma_le_value_bound(bytes@);
            lemma_pow256_values();
        }
        let u: u64 = decode_le(bytes);
        if u >= 0x8000 {
            (u as i128 - 0x10000) as i16
        } else {
            u as i16
        }
    }

    fn le_encode(x: i16) -> (r: Vec<u8>) {
        proof {
            lemma_pow256_values();
        }
        let u: u64 = if x < 0 {
            (x as i128 + 0x10000) as u64
        } else {
            x as u64
        };
        encode_le(u, 2)
    }

    proof fn lemma_round_trip(x: i16) {
        lemma_pow256_values();
        lemma_signed_round_trip(x as int, 2);
        lemma_le_round_trip(to_unsigned(x as int, 2), 2);
    }
}

impl Readable for i32 {
    open spec fn byte_len() -> nat {
        4
    }

    open spec fn spec_from_le(b: Seq<u8>) -> i32 {
        to_signed(le_value(b), 4) as i32
    }

    open spec fn spec_to_le(x: i32) -> Seq<u8> {
        le_bytes(to_unsigned(x as int, 4), 4)
    }

    fn size() -> (r: usize) {
        4
    }

    fn from_le_bytes(bytes: &[u8]) -> (r: i32) {
        proof {
            lemma_le_value_bound(bytes@);
            lemma_pow256_values();
        }
        let u: u64 = decode_le(bytes);
        if u >= 0x80000000 {
            (u as i128 - 0x100000000) as i32
        } else {
            u as i32
        }
    }

    fn le_encode(x: i32) -> (r: Vec<u8>) {
        proof {
            lemma_pow256_values();
        }
        let u: u64 = if x < 0 {
            (x as i128 + 0x100000000) as u64
        } else {
            x as u64
        };
        encode_le(u, 4)
    }

    proof fn lemma_round_trip(x: i32) {
        lemma_pow256_values();
        lemma_signed_round_trip(x as int, 4);
        lemma_le_round_trip(to_unsigned(x as int, 4), 4);
    }
}

impl Readable for i64 {
    open spec fn byte_len() -> nat {
        8
    }

    open spec fn spec_from_le(b: Seq<u8>) -> i64 {
        to_signed(le_value(b), 8) as i64
    }

    open spec fn spec_to_le(x: i64) -> Seq<u8> {
        le_bytes(to_unsigned(x as int, 8), 8)
    }

    fn size() -> (r: usize) {
        8
    }

    fn from_le_bytes(bytes: &[u8]) -> (r: i64) {
        proof {
            lemma_le_value_bound(bytes@);
            lemma_pow256_values();
        }
        let u: u64 = decode_le(bytes);
        if u >= 0x8000000000000000 {
            (u as i128 - 0x10000000000000000) as i64
        } else {
            u as i64
        }
    }

    fn le_encode(x: i64) -> (r: Vec<u8>) {
        proof {
            lemma_pow256_values();
        }
        let u: u64 = if x < 0 {
            (x as i128 + 0x10000000000000000) as u64
        } else {
            x as u64
        };
        encode_le(u, 8)
    }

    proof fn lemma_round_trip(x: i64) {
        lemma_pow256_values();
        lemma_signed_round_trip(x as int, 8);
        lemma_le_round_trip(to_unsigned(x as int, 8), 8);
    }
}

/// Appends `src` to `dst`.
pub fn append_bytes(dst: &mut Vec<u8>, src: &[u8])
    ensures
        final(dst)@ == old(dst)@ + src@,
{
    let mut i: usize = 0;
    while i < src.len()
        invariant
            i <= src@.len(),
            dst@ == old(dst)@ + src@.subrange(0, i as int),
        decreases src@.len() - i,
    {
        dst.push(src[i]);
        i = i + 1;
        assert(dst@ =~= old(dst)@ + src@.subrange(0, i as int));
    }
    assert(src@.subrange(0, i as int) =~= src@);
}

/// Largest number of bytes a ULEB128 varint may take here (enough for 32 bits).
pub const ULEB_MAX_BYTES: usize = 5;

/// `128^n`.
pub open spec fn pow128(n: nat) -> nat
    decreases n,
{
    if n == 0 {
        1
    } else {
        128 * pow128((n - 1) as nat)
    }
}

/// ULEB128 encoding of `v`: seven bits per byte, low bits first, the high bit
/// set on every byte but the last.
pub open spec fn uleb_bytes(v: nat) -> Seq<u8>
    decreases v,
{
    if v < 128 {
        seq![v as u8]
    } else {
        seq![(v % 128 + 128) as u8] + uleb_bytes(v / 128)
    }
}

/// The varint at the front of `s`, if it ends within `fuel` bytes: its value
/// and the number of bytes it takes.
pub open spec fn uleb_parse(s: Seq<u8>, fuel: nat) -> Option<(nat, nat)>
    decreases fuel,
{
    if fuel == 0 || s.len() == 0 {
        None
    } else if s[0] < 128 {
        Some((s[0] as nat, 1))
    } else {
        match uleb_parse(s.drop_first(), (fuel - 1) as nat) {
            Some((v, n)) => Some((((s[0] - 128) + 128 * v) as nat, n + 1)),
            None => None,
        }
    }
}

/// What a varint read yields: the value reduced to 32 bits, and its length.
pub open spec fn uleb_read(s: Seq<u8>) -> Option<(u32, nat)> {
    match uleb_parse(s, ULEB_MAX_BYTES as nat) {
        Some((v, n)) => Some(((v % 0x1_0000_0000) as u32, n)),
        None => None,
    }
}

/// A varint takes at least one byte and no more than `s` holds.
pub proof fn lemma_uleb_parse_len(s: Seq<u8>, fuel: nat)
    ensures
        uleb_parse(s, fuel) matches Some((v, n)) ==> 1 <= n <= s.len() && n <= fuel,
    decreases fuel,
{
    if fuel > 0 && s.len() > 0 && s[0] >= 128 {
        lemma_uleb_parse_len(s.drop_first(), (fuel - 1) as nat);
    }
}

pub proof fn lemma_pow128_values()
    ensures
        pow128(0) == 1,
        pow128(1) == 0x80,
        pow128(2) == 0x4000,
        pow128(3) == 0x20_0000,
        pow128(4) == 0x1000_0000,
        pow128(5) == 0x8_0000_0000,
{
    reveal_with_fuel(pow128, 6);
}

/// A varint of a value below `128^k` is read back whole from `k` bytes of fuel,
/// whatever follows it.
pub proof fn lemma_uleb_parse_bytes(v: nat, k: nat, rest: Seq<u8>)
    requires
        k >= 1,
        v < pow128(k),
    ensures
        uleb_bytes(v).len() <= k,
        uleb_parse(uleb_bytes(v) + rest, k) == Some((v, uleb_bytes(v).len())),
    decreases v,
{
    let s = uleb_bytes(v) + rest;
    if v < 128 {
        assert(s[0] == v as u8);
    } else {
        if k == 1 {
            assert(pow128(1) == 128) by {
                reveal_with_fuel(pow128, 2);
            }
        }
        assert(v / 128 < pow128((k - 1) as nat));
        lemma_uleb_parse_bytes(v / 128, (k - 1) as nat, rest);
        assert(s[0] == (v % 128 + 128) as u8);
        assert(s.drop_first() =~= uleb_bytes(v / 128) + rest);
    }
}

/// ULEB128 round trip over the 32-bit range.
pub proof fn lemma_uleb_round_trip(v: u32, rest: Seq<u8>)
    ensures
        uleb_read(uleb_bytes(v as nat) + rest) == Some((v, uleb_bytes(v as nat).len())),
{
    lemma_pow128_values();
    lemma_uleb_parse_bytes(v as nat, ULEB_MAX_BYTES as nat, rest);
}

/// ULEB128 varint of any 64-bit value.
pub fn uleb_encode(value: u64) -> (r: Vec<u8>)
    ensures
        r@ == uleb_bytes(value as nat),
{
    let mut bytes: Vec<u8> = Vec::new();
    let mut x: u64 = value;
    while x >= 128
        invariant
            bytes@ + uleb_bytes(x as nat) == uleb_bytes(value as nat),
        decreases x,
    {
        let ghost before = bytes@;
        bytes.push((x % 128 + 128) as u8);
        assert(bytes@ + uleb_bytes(x as nat / 128) =~= before + uleb_bytes(x as nat));
        x = x / 128;
    }
    let ghost before = bytes@;
    bytes.push(x as u8);
    assert(bytes@ =~= before + uleb_bytes(x as nat));
    bytes
}

/// Encodes `value` as a ULEB128 varint.
pub fn write_uleb128(value: u32) -> (r: Vec<u8>)
    ensures
        r@ == uleb_bytes(value as nat),
        1 <= r@.len() <= ULEB_MAX_BYTES,
{
    proof {
        lemma_pow128_values();
        lemma_uleb_parse_bytes(value as nat, 5, Seq::empty());
    }
    uleb_encode(value as u64)
}

/// Wire form of a string: a lone `0x00` when empty, else `0x0B`, the ULEB128
/// byte length and the UTF-8 bytes.
pub open spec fn osu_string_bytes(s: Seq<char>) -> Seq<u8> {
    let b = encode_utf8(s);
    if b.len() == 0 {
        seq![0u8]
    } else {
        seq![0x0bu8] + uleb_bytes(b.len()) + b
    }
}

/// The string at the front of `s` and the bytes it takes. A first byte other
/// than `0x0B` stands for the empty string; a body that is not UTF-8 reads as
/// the empty string.
pub open spec fn osu_string_read(s: Seq<u8>) -> Option<(Seq<char>, nat)> {
    if s.len() == 0 {
        None
    } else if s[0] != 0x0b {
        Some((Seq::empty(), 1))
    } else {
        match uleb_read(s.drop_first()) {
            Some((len, n)) => {
                let end: nat = (1 + n + len) as nat;
                if end <= s.len() {
                    let body = s.subrange(1 + n as int, end as int);
                    Some((if valid_utf8(body) { decode_utf8(body) } else { Seq::empty() }, end))
                } else {
                    None
                }
            },
            None => None,
        }
    }
}

/// A string read takes at least one byte and no more than there are.
pub proof fn lemma_osu_string_read_len(s: Seq<u8>)
    ensures
        osu_string_read(s) matches Some((v, n)) ==> 1 <= n <= s.len(),
{
}

/// An integer list read takes no more bytes than there are.
pub proof fn lemma_i32_list_read_len(s: Seq<u8>)
    ensures
        i32_list_read(s) matches Some((v, n)) ==> 2 <= n <= s.len(),
{
}

/// A string whose UTF-8 form fits a 32-bit length can be carried on the wire.
pub open spec fn osu_string_fits(s: Seq<char>) -> bool {
    encode_utf8(s).len() <= u32::MAX
}

/// Strings, the empty one included, read back as written.
pub proof fn lemma_osu_string_round_trip(s: Seq<char>, rest: Seq<u8>)
    requires
        osu_string_fits(s),
    ensures
        osu_string_read(osu_string_bytes(s) + rest) == Some((s, osu_string_bytes(s).len())),
{
    broadcast use encode_utf8_valid_utf8, encode_utf8_decode_utf8;

    let b = encode_utf8(s);
    let w = osu_string_bytes(s) + rest;
    if b.len() == 0 {
        assert(decode_utf8(b) == s);
        assert(s =~= Seq::<char>::empty());
    } else {
        let len = b.len() as u32;
        assert(w.drop_first() =~= uleb_bytes(len as nat) + (b + rest));
        lemma_uleb_round_trip(len, b + rest);
        let n = uleb_bytes(len as nat).len();
        assert(w.subrange(1 + n as int, 1 + n + len) =~= b);
    }
}

/// Relies on `String::from_utf8`: `Ok` exactly on valid UTF-8, with a string
/// whose bytes are the input.
#[verifier::external_body]
pub(crate) fn string_from_utf8(b: Vec<u8>) -> (r: Option<String>)
    ensures
        r is Some <==> valid_utf8(b@),
        r matches Some(s) ==> encode_utf8(s@) == b@,
{
    String::from_utf8(b).ok()
}

/// Appends the wire form of `s` to `dst`.
pub fn push_osu_string(dst: &mut Vec<u8>, s: &str)
    ensures
        final(dst)@ == old(dst)@ + osu_string_bytes(s@),
{
    let b = s.as_bytes();
    if b.len() == 0 {
        dst.push(0);
    } else {
        dst.push(0x0b);
        let len = uleb_encode(b.len() as u64);
        append_bytes(dst, len.as_slice());
        append_bytes(dst, b);
    }
    assert(dst@ =~= old(dst)@ + osu_string_bytes(s@));
}

/// Encodes a string in its wire form.
pub fn write_osu_string(value: String) -> (r: Vec<u8>)
    ensures
        r@ == osu_string_bytes(value@),
{
    let mut bytes: Vec<u8> = Vec::new();
    push_osu_string(&mut bytes, value.as_str());
    assert(bytes@ =~= osu_string_bytes(value@));
    bytes
}

/// Wire bytes of a sequence of `i32`s, one after another.
pub open spec fn i32s_bytes(l: Seq<i32>) -> Seq<u8>
    decreases l.len(),
{
    if l.len() == 0 {
        Seq::empty()
    } else {
        i32s_bytes(l.drop_last()) + <i32 as Readable>::spec_to_le(l.last())
    }
}

/// Wire form of an integer list: a 16-bit count, then each `i32`.
pub open spec fn i32_list_bytes(l: Seq<i32>) -> Seq<u8> {
    le_bytes(l.len(), 2) + i32s_bytes(l)
}

/// The `k`th entry of an integer list at the front of `s`.
pub open spec fn i32_at(s: Seq<u8>, k: int) -> i32 {
    <i32 as Readable>::spec_from_le(s.subrange(2 + 4 * k, 6 + 4 * k))
}

/// The integer list at the front of `s` and the bytes it takes.
pub open spec fn i32_list_read(s: Seq<u8>) -> Option<(Seq<i32>, nat)> {
    if s.len() < 2 {
        None
    } else {
        let count = le_value(s.subrange(0, 2));
        let end = 2 + 4 * count;
        if end <= s.len() {
            Some((Seq::new(count, |k: int| i32_at(s, k)), end))
        } else {
            None
        }
    }
}

pub proof fn lemma_i32s_bytes(l: Seq<i32>)
    ensures
        i32s_bytes(l).len() == 4 * l.len(),
        forall|k: int|
            0 <= k < l.len() ==> #[trigger] i32s_bytes(l).subrange(4 * k, 4 * k + 4)
                == <i32 as Readable>::spec_to_le(l[k]),
    decreases l.len(),
{
    if l.len() > 0 {
        let init = l.drop_last();
        lemma_i32s_bytes(init);
        <i32 as Readable>::lemma_round_trip(l.last());
        let all = i32s_bytes(l);
        assert forall|k: int| 0 <= k < l.len() implies #[trigger] all.subrange(4 * k, 4 * k + 4)
            == <i32 as Readable>::spec_to_le(l[k]) by {
            if k < init.len() {
                assert(all.subrange(4 * k, 4 * k + 4) =~= i32s_bytes(init).subrange(4 * k, 4 * k + 4));
                assert(init[k] == l[k]);
            } else {
                assert(all.subrange(4 * k, 4 * k + 4) =~= <i32 as Readable>::spec_to_le(l.last()));
            }
        }
    }
}

/// Integer lists of up to 65535 entries, the empty one included, read back as written.
pub proof fn lemma_i32_list_round_trip(l: Seq<i32>, rest: Seq<u8>)
    requires
        l.len() <= u16::MAX,
    ensures
        i32_list_read(i32_list_bytes(l) + rest) == Some((l, i32_list_bytes(l).len())),
{
    let w = i32_list_bytes(l) + rest;
    lemma_pow256_values();
    lemma_le_round_trip(l.len(), 2);
    lemma_i32s_bytes(l);
    assert(w.subrange(0, 2) =~= le_bytes(l.len(), 2));
    let read = Seq::new(l.len(), |k: int| i32_at(w, k));
    assert forall|k: int| 0 <= k < l.len() implies read[k] == l[k] by {
        assert(w.subrange(2 + 4 * k, 6 + 4 * k) =~= i32s_bytes(l).subrange(4 * k, 4 * k + 4));
        <i32 as Readable>::lemma_round_trip(l[k]);
    }
    assert(read =~= l);
}

/// Size of a frame header: packet id, reserved byte, payload length.
pub const HEADER_LEN: usize = 7;

/// A whole frame: the 16-bit packet id, a zero byte, the 32-bit payload length
/// and the payload.
pub open spec fn frame_bytes(id: u16, payload: Seq<u8>) -> Seq<u8> {
    le_bytes(id as nat, 2) + seq![0u8] + le_bytes(payload.len(), 4) + payload
}

/// The header at the front of `s`: packet id and declared payload length.
pub open spec fn header_read(s: Seq<u8>) -> Option<(u16, u32)> {
    if s.len() < HEADER_LEN {
        None
    } else {
        Some((le_value(s.subrange(0, 2)) as u16, le_value(s.subrange(3, 7)) as u32))
    }
}

/// A frame's header reads back its id and payload length.
pub proof fn lemma_frame_header_round_trip(id: u16, payload: Seq<u8>, rest: Seq<u8>)
    requires
        payload.len() <= u32::MAX,
    ensures
        header_read(frame_bytes(id, payload) + rest) == Some((id, payload.len() as u32)),
        frame_bytes(id, payload).len() == HEADER_LEN + payload.len(),
{
    let w = frame_bytes(id, payload) + rest;
    lemma_pow256_values();
    lemma_le_round_trip(id as nat, 2);
    lemma_le_round_trip(payload.len(), 4);
    assert(w.subrange(0, 2) =~= le_bytes(id as nat, 2));
    assert(w.subrange(3, 7) =~= le_bytes(payload.len(), 4));
}

} // verus!
