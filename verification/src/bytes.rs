//! Fixed-width integers and byte arrays read from, and written to, byte strings.

use vstd::prelude::*;

verus! {

/// The little-endian `u16` at offset `at` of `s`.
pub open spec fn u16_le_at(s: Seq<u8>, at: int) -> int {
    s[at] as int + 256 * (s[at + 1] as int)
}

/// The little-endian `u32` at offset `at` of `s`.
pub open spec fn u32_le_at(s: Seq<u8>, at: int) -> int {
    s[at] as int + 256 * (s[at + 1] as int) + 65536 * (s[at + 2] as int) + 16777216 * (s[at
        + 3] as int)
}

/// The little-endian `u64` at offset `at` of `s`.
pub open spec fn u64_le_at(s: Seq<u8>, at: int) -> int {
    u32_le_at(s, at) + 4294967296 * u32_le_at(s, at + 4)
}

/// The big-endian `u16` at offset `at` of `s`.
pub open spec fn u16_be_at(s: Seq<u8>, at: int) -> int {
    256 * (s[at] as int) + s[at + 1] as int
}

/// The big-endian `u32` at offset `at` of `s`.
pub open spec fn u32_be_at(s: Seq<u8>, at: int) -> int {
    16777216 * (s[at] as int) + 65536 * (s[at + 1] as int) + 256 * (s[at + 2] as int) + s[at
        + 3] as int
}

/// The big-endian `u64` at offset `at` of `s`.
pub open spec fn u64_be_at(s: Seq<u8>, at: int) -> int {
    4294967296 * u32_be_at(s, at) + u32_be_at(s, at + 4)
}

/// The two bytes of `x`, most significant first.
pub open spec fn u16_be(x: u16) -> Seq<u8> {
    seq![(x / 256) as u8, (x % 256) as u8]
}

/// The eight bytes of `x`, most significant first.
pub open spec fn u64_be(x: u64) -> Seq<u8> {
    seq![
        (x / 72057594037927936) as u8,
        (x / 281474976710656 % 256) as u8,
        (x / 1099511627776 % 256) as u8,
        (x / 4294967296 % 256) as u8,
        (x / 16777216 % 256) as u8,
        (x / 65536 % 256) as u8,
        (x / 256 % 256) as u8,
        (x % 256) as u8,
    ]
}

/// Two 16-bit integers with the same big-endian bytes are equal.
pub proof fn lemma_u16_be_injective(x: u16, y: u16)
    requires
        u16_be(x) == u16_be(y),
    ensures
        x == y,
{
    assert(u16_be(x)[0] == u16_be(y)[0]);
    assert(u16_be(x)[1] == u16_be(y)[1]);
}

/// A 64-bit integer is the sum of its big-endian bytes, each at its weight.
pub proof fn lemma_u64_be_sum(x: u64)
    ensures
        x == (x / 72057594037927936) * 72057594037927936 + (x / 281474976710656 % 256)
            * 281474976710656 + (x / 1099511627776 % 256) * 1099511627776 + (x / 4294967296
            % 256) * 4294967296 + (x / 16777216 % 256) * 16777216 + (x / 65536 % 256) * 65536 + (x
            / 256 % 256) * 256 + x % 256,
{
    assert(x == (x / 72057594037927936) * 72057594037927936 + (x / 281474976710656 % 256)
        * 281474976710656 + (x / 1099511627776 % 256) * 1099511627776 + (x / 4294967296 % 256)
        * 4294967296 + (x / 16777216 % 256) * 16777216 + (x / 65536 % 256) * 65536 + (x / 256
        % 256) * 256 + x % 256) by (bit_vector);
}

/// Two 64-bit integers with the same big-endian bytes are equal.
pub proof fn lemma_u64_be_injective(x: u64, y: u64)
    requires
        u64_be(x) == u64_be(y),
    ensures
        x == y,
{
    lemma_u64_be_sum(x);
    lemma_u64_be_sum(y);
    assert(u64_be(x)[0] == u64_be(y)[0]);
    assert(u64_be(x)[1] == u64_be(y)[1]);
    assert(u64_be(x)[2] == u64_be(y)[2]);
    assert(u64_be(x)[3] == u64_be(y)[3]);
    assert(u64_be(x)[4] == u64_be(y)[4]);
    assert(u64_be(x)[5] == u64_be(y)[5]);
    assert(u64_be(x)[6] == u64_be(y)[6]);
    assert(u64_be(x)[7] == u64_be(y)[7]);
    assert(x / 72057594037927936 < 256);
}

/// Reads the little-endian `u16` at offset `at` of `s`.
pub fn read_u16_le(s: &[u8], at: usize) -> (r: u16)
    requires
        at + 2 <= s@.len(),
    ensures
        r == u16_le_at(s@, at as int),
{
    let lo: u16 = s[at] as u16;
    let hi: u16 = s[at + 1] as u16;
    lo + 256 * hi
}

/// Reads the little-endian `u32` at offset `at` of `s`.
pub fn read_u32_le(s: &[u8], at: usize) -> (r: u32)
    requires
        at + 4 <= s@.len(),
    ensures
        r == u32_le_at(s@, at as int),
{
    let b0: u32 = s[at] as u32;
    let b1: u32 = s[at + 1] as u32;
    let b2: u32 = s[at + 2] as u32;
    let b3: u32 = s[at + 3] as u32;
    b0 + 256 * b1 + 65536 * b2 + 16777216 * b3
}

/// Reads the little-endian `u64` at offset `at` of `s`.
pub fn read_u64_le(s: &[u8], at: usize) -> (r: u64)
    requires
        at + 8 <= s@.len(),
    ensures
        r == u64_le_at(s@, at as int),
{
    let total: usize = s.len();
    assert(at + 8 <= total);
    let lo: u64 = read_u32_le(s, at) as u64;
    let hi: u64 = read_u32_le(s, at + 4) as u64;
    lo + 4294967296 * hi
}

/// Reads the big-endian `u16` at offset `at` of `s`.
pub fn read_u16_be(s: &[u8], at: usize) -> (r: u16)
    requires
        at + 2 <= s@.len(),
    ensures
        r == u16_be_at(s@, at as int),
{
    let hi: u16 = s[at] as u16;
    let lo: u16 = s[at + 1] as u16;
    256 * hi + lo
}

/// Reads the big-endian `u32` at offset `at` of `s`.
pub fn read_u32_be(s: &[u8], at: usize) -> (r: u32)
    requires
        at + 4 <= s@.len(),
    ensures
        r == u32_be_at(s@, at as int),
{
    let b0: u32 = s[at] as u32;
    let b1: u32 = s[at + 1] as u32;
    let b2: u32 = s[at + 2] as u32;
    let b3: u32 = s[at + 3] as u32;
    16777216 * b0 + 65536 * b1 + 256 * b2 + b3
}

/// Reads the big-endian `u64` at offset `at` of `s`.
pub fn read_u64_be(s: &[u8], at: usize) -> (r: u64)
    requires
        at + 8 <= s@.len(),
    ensures
        r == u64_be_at(s@, at as int),
{
    let total: usize = s.len();
    assert(at + 8 <= total);
    let hi: u64 = read_u32_be(s, at) as u64;
    let lo: u64 = read_u32_be(s, at + 4) as u64;
    4294967296 * hi + lo
}

/// The 32 bytes of `s` that start at offset `at`.
pub fn read_array32(s: &[u8], at: usize) -> (r: [u8; 32])
    requires
        at + 32 <= s@.len(),
    ensures
        r@ == s@.subrange(at as int, at + 32),
{
    let total: usize = s.len();
    let mut out: [u8; 32] = [0u8; 32];
    let mut i: usize = 0;
    while i < 32
        invariant
            i <= 32,
            at + 32 <= s@.len() == total,
            forall|j: int| 0 <= j < i ==> out@[j] == s@[at + j],
        decreases 32 - i,
    {
        out[i] = s[at + i];
        i += 1;
    }
    assert(out@ =~= s@.subrange(at as int, at + 32));
    out
}

/// A copy of the bytes of `s` from offset `from` to offset `to`.
pub fn copy_range(s: &[u8], from: usize, to: usize) -> (r: Vec<u8>)
    requires
        from <= to <= s@.len(),
    ensures
        r@ == s@.subrange(from as int, to as int),
{
    let mut out: Vec<u8> = Vec::new();
    let mut i: usize = from;
    while i < to
        invariant
            from <= i <= to <= s@.len(),
            out@ == s@.subrange(from as int, i as int),
        decreases to - i,
    {
        out.push(s[i]);
        i += 1;
        assert(out@ =~= s@.subrange(from as int, i as int));
    }
    out
}

/// Whether two 32-byte values hold the same bytes.
pub fn same_bytes(a: &[u8; 32], b: &[u8; 32]) -> (r: bool)
    ensures
        r == (a@ == b@),
{
    let mut i: usize = 0;
    while i < 32
        invariant
            i <= 32,
            forall|j: int| 0 <= j < i ==> a@[j] == b@[j],
        decreases 32 - i,
    {
        if a[i] != b[i] {
            return false;
        }
        i += 1;
    }
    assert(a@ =~= b@);
    true
}

/// The two bytes of `x`, most significant first.
pub fn u16_be_bytes(x: u16) -> (r: Vec<u8>)
    ensures
        r@ == u16_be(x),
{
    let mut out: Vec<u8> = Vec::new();
    out.push((x / 256) as u8);
    out.push((x % 256) as u8);
    assert(out@ =~= u16_be(x));
    out
}

/// The eight bytes of `x`, most significant first.
pub fn u64_be_bytes(x: u64) -> (r: Vec<u8>)
    ensures
        r@ == u64_be(x),
{
    let mut out: Vec<u8> = Vec::new();
    out.push((x / 72057594037927936) as u8);
    out.push((x / 281474976710656 % 256) as u8);
    out.push((x / 1099511627776 % 256) as u8);
    out.push((x / 4294967296 % 256) as u8);
    out.push((x / 16777216 % 256) as u8);
    out.push((x / 65536 % 256) as u8);
    out.push((x / 256 % 256) as u8);
    out.push((x % 256) as u8);
    assert(out@ =~= u64_be(x));
    out
}

/// A copy of the 32 bytes of `a` as a vector.
pub fn array32_to_vec(a: &[u8; 32]) -> (r: Vec<u8>)
    ensures
        r@ == a@,
{
    let mut out: Vec<u8> = Vec::new();
    let mut i: usize = 0;
    while i < 32
        invariant
            i <= 32,
            out@.len() == i,
            forall|j: int| 0 <= j < i ==> out@[j] == a@[j],
        decreases 32 - i,
    {
        out.push(a[i]);
        i += 1;
    }
    assert(out@ =~= a@);
    out
}

} // verus!
