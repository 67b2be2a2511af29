//! The derivation function: it condenses an input of any length up to the
//! limit into one seed, with the block cipher alone. A first stage chains the
//! cipher over the framed input under a fixed key, once for each block of the
//! seed; a second stage takes key and start block from what the first left
//! and encrypts the block over and over to give the seed.

use vstd::prelude::*;
use crate::bytes::{
    be32, be32_bytes, block, block_at, key_part, put_block, xor_block, xor_bytes, zeros,
};
use crate::cipher::{aes256_encrypt, encrypt_block};
use crate::error::DrbgError;
use crate::params::{MBEDTLS_CTR_DRBG_MAX_SEED_INPUT, MBEDTLS_CTR_DRBG_SEEDLEN};
use crate::wipe::{wipe, wipe_vec};

verus! {

/// The fixed key of the first stage: the bytes 0, 1, 2, up to 31.
pub open spec fn df_key() -> Seq<u8> {
    Seq::new(32, |i: int| i as u8)
}

/// The input in its frame: its length and the seed length as 32-bit
/// big-endian numbers, the input itself, and the byte `0x80`.
pub open spec fn df_message(data: Seq<u8>) -> Seq<u8> {
    be32(data.len()) + be32(MBEDTLS_CTR_DRBG_SEEDLEN as nat) + data + seq![0x80u8]
}

/// `s` with as few zero bytes behind it as fill its last block.
pub open spec fn pad_to_block(s: Seq<u8>) -> Seq<u8> {
    s + zeros(((16 - s.len() % 16) % 16) as nat)
}

/// The block that the first stage puts before the message in its round `j`:
/// `j` as a 32-bit big-endian number, then zeros.
pub open spec fn df_iv(j: nat) -> Seq<u8> {
    be32(j) + zeros(12)
}

/// The cipher chained over `blocks`, whose length is a multiple of the block
/// size: each block is XORed onto the chaining value, which starts as zero,
/// and the result encrypted under `key`.
pub open spec fn bcc(key: Seq<u8>, blocks: Seq<u8>) -> Seq<u8>
    decreases blocks.len(),
{
    if blocks.len() < 16 {
        zeros(16)
    } else {
        let n = blocks.len() - 16;
        aes256_encrypt(key, xor_bytes(bcc(key, blocks.take(n)), blocks.skip(n)))
    }
}

/// Block `j` of what the first stage leaves of `data`.
pub open spec fn df_chain(data: Seq<u8>, j: nat) -> Seq<u8> {
    bcc(df_key(), df_iv(j) + pad_to_block(df_message(data)))
}

/// What the first stage leaves of `data`: three blocks.
pub open spec fn df_reduce(data: Seq<u8>) -> Seq<u8> {
    df_chain(data, 0) + df_chain(data, 1) + df_chain(data, 2)
}

/// `block` encrypted `n` times in a row under `key`.
pub open spec fn encrypt_times(key: Seq<u8>, block: Seq<u8>, n: nat) -> Seq<u8>
    decreases n,
{
    if n == 0 {
        block
    } else {
        aes256_encrypt(key, encrypt_times(key, block, (n - 1) as nat))
    }
}

/// The second stage: the first thirty-two bytes of `t` are the key, the rest
/// the start block, and the seed is that block encrypted once, twice and three
/// times.
pub open spec fn df_expand(t: Seq<u8>) -> Seq<u8> {
    let key = t.subrange(0, 32);
    let start = t.subrange(32, 48);
    encrypt_times(key, start, 1) + encrypt_times(key, start, 2) + encrypt_times(key, start, 3)
}

/// The seed that the derivation function makes of `data`.
pub open spec fn df_seed(data: Seq<u8>) -> Seq<u8> {
    df_expand(df_reduce(data))
}

/// Leaves the derivation function: erases its working buffers, and the output
/// too where `ret` is an error, and hands `ret` on.
pub fn fun_exit(
    buf: &mut Vec<u8>,
    tmp: &mut [u8; 48],
    key: &mut [u8; 32],
    chain: &mut [u8; 16],
    ret: Result<(), DrbgError>,
    output: &mut [u8; 48],
) -> (r: Result<(), DrbgError>)
    ensures
        r == ret,
        final(buf)@ == Seq::<u8>::empty(),
        final(tmp)@ == zeros(48),
        final(key)@ == zeros(32),
        final(chain)@ == zeros(16),
        final(output)@ == if ret is Err { zeros(48) } else { old(output)@ },
{
    wipe_vec(buf);
    wipe(tmp);
    wipe(key);
    wipe(chain);
    if ret.is_err() {
        wipe(output);
    }
    ret
}

/// The buffer that the first stage runs over in its round 0: the block of
/// that round, then the framed input, padded.
fn df_input(data: &[u8]) -> (buf: Vec<u8>)
    requires
        data@.len() <= MBEDTLS_CTR_DRBG_MAX_SEED_INPUT,
    ensures
        buf@ == df_iv(0) + pad_to_block(df_message(data@)),
        buf@.len() % 16 == 0,
        buf@.len() >= 32,
{
    let mut buf: Vec<u8> = Vec::new();
    let mut i: usize = 0;
    while i < 16
        invariant
            i <= 16,
            buf@ == zeros(i as nat),
        decreases 16 - i,
    {
        buf.push(0u8);
        i += 1;
    }
    let input_len: [u8; 4] = be32_bytes(data.len() as u32);
    let seed_len: [u8; 4] = be32_bytes(MBEDTLS_CTR_DRBG_SEEDLEN as u32);
    buf.push(input_len[0]);
    buf.push(input_len[1]);
    buf.push(input_len[2]);
    buf.push(input_len[3]);
    buf.push(seed_len[0]);
    buf.push(seed_len[1]);
    buf.push(seed_len[2]);
    buf.push(seed_len[3]);
    let ghost head = zeros(16) + be32(data@.len()) + be32(MBEDTLS_CTR_DRBG_SEEDLEN as nat);
    i = 0;
    while i < data.len()
        invariant
            i <= data@.len(),
            head.len() == 24,
            buf@ == head + data@.take(i as int),
        decreases data@.len() - i,
    {
        buf.push(data[i]);
        i += 1;
    }
    buf.push(0x80u8);
    let ghost framed = zeros(16) + df_message(data@);
    let pad: usize = (16 - buf.len() % 16) % 16;
    i = 0;
    while i < pad
        invariant
            i <= pad,
            buf@ == framed + zeros(i as nat),
        decreases pad - i,
    {
        buf.push(0u8);
        i += 1;
    }
    buf
}

/// The cipher chained over the whole of `buf`.
fn bcc_over(key: &[u8; 32], buf: &Vec<u8>) -> (chain: [u8; 16])
    requires
        buf@.len() % 16 == 0,
    ensures
        chain@ == bcc(key@, buf@),
{
    let mut chain: [u8; 16] = [0u8; 16];
    let len: usize = buf.len();
    let mut k: usize = 0;
    while k < len
        invariant
            k <= len == buf@.len(),
            k % 16 == 0,
            buf@.len() % 16 == 0,
            chain@ == bcc(key@, buf@.take(k as int)),
        decreases buf@.len() - k,
    {
        xor_block(&mut chain, buf.as_slice(), k);
        proof {
            let upto = buf@.take(k + 16);
            assert(upto.take(k as int) =~= buf@.take(k as int));
            assert(upto.skip(k as int) =~= buf@.subrange(k as int, k + 16));
        }
        chain = encrypt_block(key, &chain);
        k += 16;
    }
    assert(buf@.take(k as int) =~= buf@);
    chain
}

/// The derivation function. An input longer than the limit is refused with
/// `InputTooBig`; any other gives its seed, `df_seed` of it, in `output`. The
/// seed depends on the input alone: what was derived before, and from what,
/// leaves no trace in it. Where the function fails, `output` is left all
/// zero.
pub fn block_cipher_df(output: &mut [u8; 48], data: &[u8]) -> (r: Result<(), DrbgError>)
    ensures
        data@.len() > MBEDTLS_CTR_DRBG_MAX_SEED_INPUT ==> r == Err::<(), DrbgError>(
            DrbgError::InputTooBig,
        ) && final(output)@ == zeros(48),
        data@.len() <= MBEDTLS_CTR_DRBG_MAX_SEED_INPUT ==> r == Ok::<(), DrbgError>(())
            && final(output)@ == df_seed(data@),
{
    if data.len() > MBEDTLS_CTR_DRBG_MAX_SEED_INPUT {
        wipe(output);
        return Err(DrbgError::InputTooBig);
    }
    let mut buf: Vec<u8> = df_input(data);
    let mut tmp: [u8; 48] = [0u8; 48];
    let mut key: [u8; 32] = [0u8; 32];
    let mut chain: [u8; 16] = [0u8; 16];
    let ghost message = pad_to_block(df_message(data@));

    let mut i: usize = 0;
    while i < 32
        invariant
            i <= 32,
            forall|j: int| 0 <= j < i ==> key@[j] == j as u8,
        decreases 32 - i,
    {
        key[i] = i as u8;
        i += 1;
    }

    // Reduce the input to one seed length.
    let mut j: usize = 0;
    while j < 3
        invariant
            j <= 3,
            key@ == df_key(),
            buf@.len() >= 32,
            buf@.len() % 16 == 0,
            j < 3 ==> buf@ == df_iv(j as nat) + message,
            message == pad_to_block(df_message(data@)),
            forall|m: nat| m < j ==> block(tmp@, m) == #[trigger] df_chain(data@, m),
        decreases 3 - j,
    {
        chain = bcc_over(&key, &buf);
        put_block(&mut tmp, 16 * j, &chain);
        // Move on to the next round's first block.
        buf.set(3, (j + 1) as u8);
        j += 1;
    }
    assert(tmp@ == df_reduce(data@));

    // Encrypt under the reduced data to get the seed.
    key = key_part(&tmp);
    chain = block_at(&tmp, 32);
    let ghost start = chain@;
    j = 0;
    while j < 3
        invariant
            j <= 3,
            key@ == tmp@.subrange(0, 32),
            start == tmp@.subrange(32, 48),
            chain@ == encrypt_times(key@, start, j as nat),
            forall|m: nat|
                1 <= m <= j ==> block(output@, (m - 1) as nat) == #[trigger] encrypt_times(
                    key@,
                    start,
                    m,
                ),
        decreases 3 - j,
    {
        chain = encrypt_block(&key, &chain);
        put_block(output, 16 * j, &chain);
        j += 1;
    }
    fun_exit(&mut buf, &mut tmp, &mut key, &mut chain, Ok(()), output)
}

} // verus!
