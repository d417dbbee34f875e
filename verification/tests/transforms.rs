use stripe_entropy::chacha20_encrypt;
use stripe_entropy::new_cipher;
use stripe_entropy::run_transforms;
use stripe_entropy::stripe_transform;
use stripe_entropy::striped_encryption_coordinator;
use stripe_entropy::KeystreamMode;
use stripe_entropy::MeasureError;

#[test]
fn full_transform_preserves_length() {
    let data = vec![1u8, 2, 3, 4, 5];
    assert_eq!(chacha20_encrypt(&data).len(), 5);
    assert_eq!(chacha20_encrypt(&[]).len(), 0);
}

#[test]
fn full_transform_changes_zero_bytes() {
    let data = vec![0u8; 64];
    let out = chacha20_encrypt(&data);
    assert_eq!(out.len(), 64);
    assert!(out.iter().any(|b| *b != 0));
}

#[test]
fn keystream_matches_known_chacha20_block() {
    let mut cipher = new_cipher([0u8; 32], [0u8; 12]);
    let out = cipher.apply(&[0u8; 16]);
    let expected: Vec<u8> = vec![
        0x76, 0xb8, 0xe0, 0xad, 0xa0, 0xf1, 0x3d, 0x90, 0x40, 0x5d, 0x6a, 0xe5, 0x53, 0x86, 0xbd,
        0x28,
    ];
    assert_eq!(out, expected);
}

#[test]
fn split_apply_equals_whole_apply() {
    let data = vec![9u8; 100];
    let mut split = new_cipher([3u8; 32], [1u8; 12]);
    let mut first = split.apply(&data[..37]);
    let second = split.apply(&data[37..]);
    first.extend_from_slice(&second);
    let mut whole = new_cipher([3u8; 32], [1u8; 12]);
    assert_eq!(first, whole.apply(&data));
}

#[test]
fn reset_returns_keystream_to_start() {
    let data = vec![0u8; 32];
    let mut cipher = new_cipher([5u8; 32], [6u8; 12]);
    let first = cipher.apply(&data);
    cipher.reset();
    let second = cipher.apply(&data);
    assert_eq!(first, second);
}

#[test]
fn full_transform_is_deterministic() {
    let data: Vec<u8> = (0u8..=255).collect();
    assert_eq!(chacha20_encrypt(&data), chacha20_encrypt(&data));
}

#[test]
fn full_transform_twice_recovers_input() {
    let data: Vec<u8> = (0u8..=255).cycle().take(1000).collect();
    let once = chacha20_encrypt(&data);
    let twice = chacha20_encrypt(&once);
    assert_eq!(twice, data);
    assert_ne!(once, data);
}

#[test]
fn single_stripe_equals_full_transform() {
    let data: Vec<u8> = (0u8..100).collect();
    let full = chacha20_encrypt(&data);
    let striped = stripe_transform(&data, data.len(), 0, KeystreamMode::ResetPerStripe).unwrap();
    assert_eq!(striped, full);
    let coordinated = striped_encryption_coordinator(data.clone(), data.len(), 0);
    assert_eq!(coordinated, full);
}

#[test]
fn continuous_mode_without_skip_equals_full_transform() {
    let data: Vec<u8> = (0u8..100).collect();
    let full = chacha20_encrypt(&data);
    let striped = stripe_transform(&data, 7, 0, KeystreamMode::Continuous).unwrap();
    assert_eq!(striped, full);
}

#[test]
fn reset_mode_repeats_the_keystream_segment() {
    let data = vec![0u8; 20];
    let reset = stripe_transform(&data, 10, 0, KeystreamMode::ResetPerStripe).unwrap();
    assert_eq!(reset[..10], reset[10..]);
    let continuous = stripe_transform(&data, 10, 0, KeystreamMode::Continuous).unwrap();
    assert_ne!(continuous[..10], continuous[10..]);
    assert_eq!(reset[..10], continuous[..10]);
}

#[test]
fn striped_transform_preserves_length() {
    for (len, stripe, skip) in [(100, 10, 10), (25, 10, 3), (5, 10, 0), (17, 1, 0), (0, 4, 2)] {
        let data = vec![0xabu8; len];
        let out = stripe_transform(&data, stripe, skip, KeystreamMode::ResetPerStripe).unwrap();
        assert_eq!(out.len(), len);
    }
}

#[test]
fn striped_zeros_mask_only_the_stripes() {
    let data = vec![0u8; 100];
    let out = striped_encryption_coordinator(data, 10, 10);
    let mask = chacha20_encrypt(&[0u8; 10]);
    assert_eq!(out.len(), 100);
    for block in 0..5 {
        let start = 20 * block;
        assert_eq!(out[start..start + 10], mask[..]);
        assert!(out[start + 10..start + 20].iter().all(|b| *b == 0));
    }
    assert!(mask.iter().any(|b| *b != 0));
}

#[test]
fn partial_final_window_is_masked_as_it_stands() {
    let data = vec![0x55u8; 18];
    let out = stripe_transform(&data, 10, 3, KeystreamMode::ResetPerStripe).unwrap();
    let mask = chacha20_encrypt(&vec![0x55u8; 10]);
    assert_eq!(out[0..10], mask[..]);
    assert_eq!(out[10..13], data[10..13]);
    assert_eq!(out[13..18], mask[..5]);
}

#[test]
fn zero_stripe_is_a_config_error() {
    let data = vec![1u8, 2, 3];
    assert!(matches!(
        stripe_transform(&data, 0, 4, KeystreamMode::ResetPerStripe),
        Err(MeasureError::ConfigError)
    ));
    assert!(matches!(
        run_transforms(&data, 0, 4, KeystreamMode::ResetPerStripe),
        Err(MeasureError::ConfigError)
    ));
}

#[test]
fn short_buffer_is_a_size_error() {
    let data = vec![0u8; 5];
    assert!(matches!(
        run_transforms(&data, 10, 0, KeystreamMode::ResetPerStripe),
        Err(MeasureError::SizeError)
    ));
}

#[test]
fn run_transforms_produces_both_copies() {
    let data: Vec<u8> = (0u8..50).collect();
    let outcome = run_transforms(&data, 8, 4, KeystreamMode::ResetPerStripe).unwrap();
    assert_eq!(outcome.full, chacha20_encrypt(&data));
    assert_eq!(
        outcome.striped,
        stripe_transform(&data, 8, 4, KeystreamMode::ResetPerStripe).unwrap()
    );
    assert_eq!((0u8..50).collect::<Vec<u8>>(), data);
}
