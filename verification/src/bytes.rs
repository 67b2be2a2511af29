//! Byte strings as the generator reads them: all-zero strings, bytewise XOR,
//! the big-endian counter and the 32-bit length fields.

use vstd::prelude::*;

verus! {

/// The string of `n` zero bytes.
pub open spec fn zeros(n: nat) -> Seq<u8> {
    Seq::new(n, |i: int| 0u8)
}

/// `a` XORed bytewise onto `b`; the result is as long as `b`.
pub open spec fn xor_bytes(a: Seq<u8>, b: Seq<u8>) -> Seq<u8> {
    Seq::new(b.len(), |i: int| a[i] ^ b[i])
}

/// `s` read as a big-endian number, plus one; the carry runs from the last
/// byte towards the first, and a string of `0xff` bytes wraps to all zero.
pub open spec fn increment(s: Seq<u8>) -> Seq<u8>
    decreases s.len(),
{
    if s.len() == 0 {
        s
    } else if s.last() == 255u8 {
        increment(s.drop_last()).push(0u8)
    } else {
        s.drop_last().push((s.last() + 1) as u8)
    }
}

/// `s` incremented `n` times.
pub open spec fn advance(s: Seq<u8>, n: nat) -> Seq<u8>
    decreases n,
{
    if n == 0 {
        s
    } else {
        increment(advance(s, (n - 1) as nat))
    }
}

/// Block `m` of `s`, counting from zero: sixteen bytes.
pub open spec fn block(s: Seq<u8>, m: nat) -> Seq<u8> {
    s.subrange(16 * (m as int), 16 * (m as int) + 16)
}

/// The four bytes of `n` as a big-endian 32-bit number.
pub open spec fn be32(n: nat) -> Seq<u8> {
    seq![
        ((n / 0x100_0000) % 256) as u8,
        ((n / 0x1_0000) % 256) as u8,
        ((n / 0x100) % 256) as u8,
        (n % 256) as u8,
    ]
}

/// What `increment` comes to, told byte by byte: `t` is `s` with its trailing
/// `0xff` bytes, which start at `i`, turned to zero and the byte before them,
/// if there is one, raised by one.
pub open spec fn carried(s: Seq<u8>, t: Seq<u8>, i: int) -> bool {
    &&& s.len() == t.len()
    &&& 0 <= i <= s.len()
    &&& forall|j: int| i <= j < s.len() ==> s[j] == 255u8 && t[j] == 0u8
    &&& i > 0 ==> s[i - 1] != 255u8 && t[i - 1] == s[i - 1] + 1
    &&& forall|j: int| 0 <= j < i - 1 ==> t[j] == s[j]
}

/// A string that is `carried` from `s` is `increment(s)`.
pub proof fn lemma_carried_is_increment(s: Seq<u8>, t: Seq<u8>, i: int)
    requires
        carried(s, t, i),
    ensures
        t == increment(s),
    decreases s.len(),
{
    if s.len() > 0 && s.last() == 255u8 {
        lemma_carried_is_increment(s.drop_last(), t.drop_last(), i);
    }
}

/// `increment` keeps the length.
pub proof fn lemma_increment_len(s: Seq<u8>)
    ensures
        increment(s).len() == s.len(),
    decreases s.len(),
{
    if s.len() > 0 && s.last() == 255u8 {
        lemma_increment_len(s.drop_last());
    }
}

/// `advance` keeps the length.
pub proof fn lemma_advance_len(s: Seq<u8>, n: nat)
    ensures
        advance(s, n).len() == s.len(),
    decreases n,
{
    if n > 0 {
        lemma_advance_len(s, (n - 1) as nat);
        lemma_increment_len(advance(s, (n - 1) as nat));
    }
}

/// Adds one to the counter block, read as a big-endian number.
pub fn increment_counter(counter: &mut [u8; 16])
    ensures
        final(counter)@ == increment(old(counter)@),
{
    let mut i: usize = 16;
    while i > 0
        invariant_except_break
            i <= 16,
            forall|j: int| i <= j < 16 ==> old(counter)@[j] == 255u8 && counter@[j] == 0u8,
            forall|j: int| 0 <= j < i ==> counter@[j] == old(counter)@[j],
        ensures
            carried(old(counter)@, counter@, i as int),
        decreases i,
    {
        let next: u8 = counter[i - 1].wrapping_add(1);
        counter[i - 1] = next;
        if next != 0 {
            break;
        }
        i -= 1;
    }
    proof {
        lemma_carried_is_increment(old(counter)@, counter@, i as int);
    }
}

/// XORs the sixteen bytes of `src` that start at `at` onto the block `dst`.
pub(crate) fn xor_block(dst: &mut [u8; 16], src: &[u8], at: usize)
    requires
        at + 16 <= src@.len(),
    ensures
        final(dst)@ == xor_bytes(old(dst)@, src@.subrange(at as int, at + 16)),
{
    let len: usize = src.len();
    let mut i: usize = 0;
    while i < 16
        invariant
            i <= 16,
            at + 16 <= len == src@.len(),
            forall|j: int| 0 <= j < i ==> dst@[j] == old(dst)@[j] ^ src@[at + j],
            forall|j: int| i <= j < 16 ==> dst@[j] == old(dst)@[j],
        decreases 16 - i,
    {
        dst[i] = dst[i] ^ src[at + i];
        i += 1;
    }
}

/// XORs `src` onto the seed-length string `dst`.
pub(crate) fn xor_seed(dst: &mut [u8; 48], src: &[u8; 48])
    ensures
        final(dst)@ == xor_bytes(old(dst)@, src@),
{
    let mut i: usize = 0;
    while i < 48
        invariant
            i <= 48,
            forall|j: int| 0 <= j < i ==> dst@[j] == old(dst)@[j] ^ src@[j],
            forall|j: int| i <= j < 48 ==> dst@[j] == old(dst)@[j],
        decreases 48 - i,
    {
        dst[i] = dst[i] ^ src[i];
        i += 1;
    }
}

/// Writes `block` over the sixteen bytes of `dst` that start at `at`.
pub(crate) fn put_block(dst: &mut [u8; 48], at: usize, block: &[u8; 16])
    requires
        at + 16 <= 48,
    ensures
        final(dst)@ == old(dst)@.take(at as int) + block@ + old(dst)@.skip(at + 16),
{
    let mut i: usize = 0;
    while i < 16
        invariant
            i <= 16,
            at + 16 <= 48,
            forall|j: int| at <= j < at + i ==> dst@[j] == block@[j - at],
            forall|j: int| 0 <= j < at || at + i <= j < 48 ==> dst@[j] == old(dst)@[j],
        decreases 16 - i,
    {
        dst[at + i] = block[i];
        i += 1;
    }
}

/// The sixteen bytes of `src` that start at `at`.
pub(crate) fn block_at(src: &[u8; 48], at: usize) -> (block: [u8; 16])
    requires
        at + 16 <= 48,
    ensures
        block@ == src@.subrange(at as int, at + 16),
{
    let mut block: [u8; 16] = [0u8; 16];
    let mut i: usize = 0;
    while i < 16
        invariant
            i <= 16,
            at + 16 <= 48,
            forall|j: int| 0 <= j < i ==> block@[j] == src@[at + j],
        decreases 16 - i,
    {
        block[i] = src[at + i];
        i += 1;
    }
    block
}

/// The first thirty-two bytes of `src`: the key part of a seed-length string.
pub(crate) fn key_part(src: &[u8; 48]) -> (key: [u8; 32])
    ensures
        key@ == src@.subrange(0, 32),
{
    let mut key: [u8; 32] = [0u8; 32];
    let mut i: usize = 0;
    while i < 32
        invariant
            i <= 32,
            forall|j: int| 0 <= j < i ==> key@[j] == src@[j],
        decreases 32 - i,
    {
        key[i] = src[i];
        i += 1;
    }
    key
}

/// The four bytes of `n`, most significant first.
pub fn be32_bytes(n: u32) -> (out: [u8; 4])
    ensures
        out@ == be32(n as nat),
{
    let b0: u8 = (n >> 24) as u8;
    let b1: u8 = ((n >> 16) & 0xff) as u8;
    let b2: u8 = ((n >> 8) & 0xff) as u8;
    let b3: u8 = (n & 0xff) as u8;
    assert(b0 == (n / 0x100_0000) % 256) by (bit_vector)
        requires
            b0 == (n >> 24) as u8,
    ;
    assert(b1 == (n / 0x1_0000) % 256) by (bit_vector)
        requires
            b1 == ((n >> 16) & 0xff) as u8,
    ;
    assert(b2 == (n / 0x100) % 256) by (bit_vector)
        requires
            b2 == ((n >> 8) & 0xff) as u8,
    ;
    assert(b3 == n % 256) by (bit_vector)
        requires
            b3 == (n & 0xff) as u8,
    ;
    let out: [u8; 4] = [b0, b1, b2, b3];
    out
}

} // verus!
