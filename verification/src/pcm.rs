//! Conversion of the decoder's raw output into PCM chunks.
//!
//! The decoder writes signed 16-bit little-endian samples. A chunk is what one
//! read of that stream yields once every byte pair has been joined into a
//! sample; an odd trailing byte belongs to no pair and is dropped.

use vstd::prelude::*;

verus! {

/// Number of bytes requested from the decoder per read.
pub const READ_BLOCK_BYTES: usize = 8192;

/// Number of chunks the channel between producer and source holds before the
/// producer blocks.
pub const CHANNEL_DEPTH: usize = 10;

/// The sample that a byte pair stands for: `lo` holds the low eight bits and
/// `hi` the high eight bits of a two's-complement 16-bit number.
pub open spec fn sample_value(lo: u8, hi: u8) -> int {
    let raw = lo as int + 256 * (hi as int);
    if raw < 32768 {
        raw
    } else {
        raw - 65536
    }
}

/// The low byte of a sample's little-endian encoding.
pub open spec fn low_byte(sample: i16) -> int {
    (sample as int) % 256
}

/// The high byte of a sample's little-endian encoding.
pub open spec fn high_byte(sample: i16) -> int {
    ((sample as int + 65536) / 256) % 256
}

/// The chunk that a block of raw bytes decodes to: sample `k` comes from bytes
/// `2k` and `2k + 1`.
pub open spec fn samples_of(bytes: Seq<u8>) -> Seq<i16> {
    Seq::new(bytes.len() / 2, |k: int| sample_value(bytes[2 * k], bytes[2 * k + 1]) as i16)
}

/// The little-endian encoding of a chunk: two bytes per sample, low byte first.
pub open spec fn bytes_of(samples: Seq<i16>) -> Seq<u8> {
    Seq::new(
        2 * samples.len(),
        |j: int|
            if j % 2 == 0 {
                low_byte(samples[j / 2]) as u8
            } else {
                high_byte(samples[j / 2]) as u8
            },
    )
}

/// Joins a low and a high byte into the sample they encode.
pub fn pair_to_sample(lo: u8, hi: u8) -> (sample: i16)
    ensures
        sample == sample_value(lo, hi),
{
    let lo16: u16 = lo as u16;
    let hi16: u16 = hi as u16;
    let raw: u16 = (hi16 << 8) | lo16;
    assert(raw == lo16 + 256 * hi16) by (bit_vector)
        requires
            raw == (hi16 << 8) | lo16,
            lo16 < 256,
            hi16 < 256,
    ;
    let sample: i16 = #[verifier::truncate]
    (raw as i16);
    assert(sample == if raw < 32768 {
        raw as int
    } else {
        raw - 65536
    }) by (bit_vector)
        requires
            sample == raw as i16,
    ;
    sample
}

/// Converts one block read from the decoder into a chunk of samples.
pub fn samples_from_bytes(bytes: &[u8]) -> (samples: Vec<i16>)
    ensures
        samples@ == samples_of(bytes@),
{
    let n: usize = bytes.len();
    let mut samples: Vec<i16> = Vec::with_capacity(n / 2);
    let mut i: usize = 0;
    while n - i >= 2
        invariant
            n == bytes@.len(),
            i <= n,
            i % 2 == 0,
            samples@.len() == i / 2,
            forall|k: int|
                0 <= k < samples@.len() ==> samples@[k] == sample_value(
                    bytes@[2 * k],
                    bytes@[2 * k + 1],
                ),
        decreases n - i,
    {
        let sample = pair_to_sample(bytes[i], bytes[i + 1]);
        samples.push(sample);
        i += 2;
    }
    samples
}

/// The chunk that the producer sends on after a read, if it goes on at all. A
/// read that failed and a read of no bytes, which marks the end of the
/// decoder's output, both end the producer; any other read is sent on as the
/// chunk it decodes to.
pub open spec fn chunk_after(read: Option<&[u8]>) -> Option<Seq<i16>> {
    match read {
        Some(bytes) => if bytes@.len() > 0 {
            Some(samples_of(bytes@))
        } else {
            None
        },
        None => None,
    }
}

/// Decides what the producer does after a read: `read` holds the bytes that
/// the read filled in, or nothing if it failed. The answer is the chunk to
/// send on, or nothing when the producer is to end.
pub fn next_chunk(read: Option<&[u8]>) -> (chunk: Option<Vec<i16>>)
    ensures
        match chunk {
            Some(samples) => chunk_after(read) == Some(samples@),
            None => chunk_after(read) is None,
        },
{
    match read {
        Some(bytes) => if bytes.len() > 0 {
            Some(samples_from_bytes(bytes))
        } else {
            None
        },
        None => None,
    }
}

/// Decoding is lossless on whole pairs: re-encoding the chunk decoded from a
/// block of even length gives back the block, byte for byte and in order.
pub proof fn lemma_decode_is_lossless(bytes: Seq<u8>)
    requires
        bytes.len() % 2 == 0,
    ensures
        bytes_of(samples_of(bytes)) == bytes,
{
    let back = bytes_of(samples_of(bytes));
    assert forall|j: int| 0 <= j < bytes.len() implies back[j] == bytes[j] by {
        let pair = j / 2;
        assert(samples_of(bytes)[pair] == sample_value(bytes[2 * pair], bytes[2 * pair + 1]));
    }
}

/// An odd trailing byte is dropped: a block of odd length decodes to the same
/// chunk as the block without its last byte.
pub proof fn lemma_odd_tail_is_dropped(bytes: Seq<u8>)
    requires
        bytes.len() % 2 == 1,
    ensures
        samples_of(bytes) == samples_of(bytes.drop_last()),
{
}

/// Decoding keeps arrival order across blocks: a block that follows one of even
/// length contributes its samples after that one's.
pub proof fn lemma_decode_keeps_order(first: Seq<u8>, second: Seq<u8>)
    requires
        first.len() % 2 == 0,
    ensures
        samples_of(first + second) == samples_of(first) + samples_of(second),
{
    let whole = samples_of(first + second);
    let parts = samples_of(first) + samples_of(second);
    assert forall|k: int| 0 <= k < whole.len() implies whole[k] == parts[k] by {
        let half = first.len() / 2;
        if k >= half {
            assert((first + second)[2 * k] == second[2 * (k - half)]);
        }
    }
}

} // verus!
