use elevenlabs_rs::audio::{decode_base64_pcm, decode_base64_pcm_checked, UpmixMonoToStereo};
use elevenlabs_rs::error::Error;

#[test]
fn upmix_repeats_each_sample_for_both_channels() {
    let mono: Vec<i16> = vec![1, -2, 300];
    assert_eq!(mono.upmix_mono_to_stereo(), vec![1, 1, -2, -2, 300, 300]);
}

#[test]
fn upmix_of_nothing_is_nothing() {
    let mono: Vec<i16> = Vec::new();
    assert!(mono.upmix_mono_to_stereo().is_empty());
}

#[test]
fn decode_base64_pcm_reads_two_bytes_per_sample() {
    // bytes 01 00 02 00 ff ff
    let samples = decode_base64_pcm("AQACAP//").unwrap();
    assert_eq!(samples.len(), 3);
    let expected: Vec<i16> = vec![
        i16::from_ne_bytes([1, 0]),
        i16::from_ne_bytes([2, 0]),
        i16::from_ne_bytes([0xff, 0xff]),
    ];
    assert_eq!(samples, expected);
}

#[test]
fn decode_base64_pcm_rejects_text_that_is_not_base64() {
    assert!(matches!(decode_base64_pcm("not base64!"), Err(Error::Base64DecodeError)));
}

#[test]
fn decode_base64_pcm_checked_refuses_half_a_sample() {
    // one byte: 01
    assert!(decode_base64_pcm_checked("AQ==").is_none());
    assert!(decode_base64_pcm_checked("AQAC").is_none());
    let whole = decode_base64_pcm_checked("AQACAA==").unwrap().unwrap();
    assert_eq!(whole.len(), 2);
    assert!(matches!(decode_base64_pcm_checked("%%%"), Some(Err(Error::Base64DecodeError))));
}
