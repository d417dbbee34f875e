use entropy::shannon_entropy;
use stripe_entropy::byte_histogram;
use stripe_entropy::striped_encryption_coordinator;

#[test]
fn histogram_of_empty_buffer_is_all_zero() {
    let h = byte_histogram(&[]);
    assert_eq!(h.len(), 256);
    assert!(h.iter().all(|c| *c == 0));
}

#[test]
fn histogram_counts_each_byte_value() {
    let data = vec![1u8, 1, 2, 255, 2, 1, 0];
    let h = byte_histogram(&data);
    assert_eq!(h[0], 1);
    assert_eq!(h[1], 3);
    assert_eq!(h[2], 2);
    assert_eq!(h[255], 1);
    assert_eq!(h.iter().sum::<usize>(), data.len());
}

#[test]
fn histogram_of_repeated_byte_fills_one_bucket() {
    let data = vec![7u8; 100];
    let h = byte_histogram(&data);
    assert_eq!(h[7], 100);
    assert_eq!(h.iter().sum::<usize>(), 100);
}

#[test]
fn entropy_of_empty_buffer_is_zero() {
    assert_eq!(shannon_entropy(&[] as &[u8]), 0.0);
}

#[test]
fn entropy_of_repeated_byte_is_zero() {
    assert_eq!(shannon_entropy(&vec![7u8; 100]), 0.0);
    assert_eq!(shannon_entropy(&vec![0u8; 1]), 0.0);
}

#[test]
fn entropy_stays_between_zero_and_eight() {
    let samples: Vec<Vec<u8>> = vec![
        vec![],
        vec![42u8; 17],
        (0u8..=255).collect(),
        b"hello, world".to_vec(),
        vec![0u8, 1, 0, 1, 0, 1],
    ];
    for s in samples {
        let e = shannon_entropy(&s);
        assert!((0.0..=8.0).contains(&e));
    }
}

#[test]
fn entropy_of_uniform_buffers_approaches_eight() {
    let mut previous = 0.0f32;
    for bits in [1u32, 2, 4, 8] {
        let values = 1usize << bits;
        let data: Vec<u8> = (0..values).map(|v| v as u8).collect();
        let e = shannon_entropy(&data);
        assert_eq!(e, bits as f32);
        assert!(e > previous || bits == 1);
        previous = e;
    }
    let four_rounds: Vec<u8> = (0u8..=255).cycle().take(1024).collect();
    assert_eq!(shannon_entropy(&four_rounds), 8.0);
}

#[test]
fn striping_zeroes_raises_their_entropy() {
    let data = vec![0u8; 100];
    let baseline = shannon_entropy(&data);
    let striped = striped_encryption_coordinator(data, 10, 10);
    assert_eq!(baseline, 0.0);
    assert!(shannon_entropy(&striped) > baseline);
}
