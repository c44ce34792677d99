use plaza_term_rs::pcm::{
    next_chunk, pair_to_sample, samples_from_bytes, CHANNEL_DEPTH, READ_BLOCK_BYTES,
};

#[test]
fn pair_joins_low_byte_first() {
    assert_eq!(pair_to_sample(0x34, 0x12), 0x1234);
    assert_eq!(pair_to_sample(0x00, 0x00), 0);
    assert_eq!(pair_to_sample(0x01, 0x00), 1);
    assert_eq!(pair_to_sample(0x00, 0x01), 256);
}

#[test]
fn pair_is_twos_complement() {
    assert_eq!(pair_to_sample(0xff, 0xff), -1);
    assert_eq!(pair_to_sample(0x00, 0x80), i16::MIN);
    assert_eq!(pair_to_sample(0xff, 0x7f), i16::MAX);
    assert_eq!(pair_to_sample(0xfe, 0xff), -2);
}

#[test]
fn pair_agrees_with_little_endian_decoding_everywhere() {
    for hi in 0..=255u8 {
        for lo in 0..=255u8 {
            assert_eq!(pair_to_sample(lo, hi), i16::from_le_bytes([lo, hi]));
        }
    }
}

#[test]
fn block_decodes_in_order() {
    assert_eq!(
        samples_from_bytes(&[0x01, 0x00, 0x02, 0x00, 0xff, 0xff, 0x00, 0x80]),
        vec![1, 2, -1, i16::MIN]
    );
}

#[test]
fn odd_trailing_byte_is_dropped() {
    assert_eq!(samples_from_bytes(&[1, 0, 2, 0, 9]), vec![1, 2]);
    assert_eq!(samples_from_bytes(&[7]), Vec::<i16>::new());
    assert_eq!(samples_from_bytes(&[]), Vec::<i16>::new());
}

#[test]
fn even_block_survives_a_round_trip() {
    let bytes: Vec<u8> = (0..=255u8).rev().collect();
    let samples = samples_from_bytes(&bytes);
    assert_eq!(samples.len(), 128);
    let mut back: Vec<u8> = Vec::new();
    for sample in samples {
        back.push(sample.to_le_bytes()[0]);
        back.push(sample.to_le_bytes()[1]);
    }
    assert_eq!(back, bytes);
}

#[test]
fn full_block_gives_half_as_many_samples() {
    let block = vec![0x11u8; READ_BLOCK_BYTES];
    let samples = samples_from_bytes(&block);
    assert_eq!(samples.len(), 4096);
    assert!(samples.iter().all(|sample| *sample == 0x1111));
    assert_eq!(CHANNEL_DEPTH, 10);
}

#[test]
fn producer_ends_on_end_of_output_and_on_failure() {
    assert_eq!(next_chunk(Some(&[])), None);
    assert_eq!(next_chunk(None), None);
}

#[test]
fn producer_sends_on_what_it_read() {
    assert_eq!(next_chunk(Some(&[2, 0, 3, 0])), Some(vec![2, 3]));
    assert_eq!(next_chunk(Some(&[2])), Some(vec![]));
    assert_eq!(next_chunk(Some(&[0xff, 0xff, 1])), Some(vec![-1]));
}
