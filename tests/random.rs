use twine_codec::{fill_random_bytes, random_range_u16, scale_random_u16};

#[test]
fn fill_random_bytes_fills_buffer() {
    let mut buffer = [0u8; 16];
    fill_random_bytes(&mut buffer).unwrap();
    // Extremely unlikely that all bytes remain zero after random fill
    assert!(buffer.iter().any(|&b| b != 0));
}

#[test]
fn fill_random_bytes_produces_different_values() {
    let mut buffer1 = [0u8; 16];
    let mut buffer2 = [0u8; 16];
    fill_random_bytes(&mut buffer1).unwrap();
    fill_random_bytes(&mut buffer2).unwrap();
    // Extremely unlikely that two random fills produce identical results
    assert_ne!(buffer1, buffer2);
}

#[test]
fn random_range_u16_within_bounds() {
    for _ in 0..1000 {
        let value = random_range_u16(10, 20);
        assert!(
            value >= 10 && value <= 20,
            "value {} out of range 10..=20",
            value
        );
    }
}

#[test]
fn random_range_u16_single_value() {
    for _ in 0..100 {
        let value = random_range_u16(42, 42);
        assert_eq!(value, 42);
    }
}

#[test]
fn random_range_u16_full_range() {
    // Test with a wider range to ensure distribution works
    let mut seen_low = false;
    let mut seen_high = false;
    for _ in 0..1000 {
        let value = random_range_u16(0, 100);
        if value < 20 {
            seen_low = true;
        }
        if value > 80 {
            seen_high = true;
        }
    }
    assert!(seen_low, "never saw values in low range");
    assert!(seen_high, "never saw values in high range");
}

#[test]
fn random_range_u16_edge_values() {
    for _ in 0..1000 {
        let value = random_range_u16(0, u16::MAX);
        // Just verify it doesn't panic and returns a valid u16
        let _ = value;
    }
}

#[test]
fn scale_random_u16_exact_values() {
    assert_eq!(scale_random_u16(0, 10, 20), 10);
    assert_eq!(scale_random_u16(u16::MAX, 10, 20), 20);
    assert_eq!(scale_random_u16(0x8000, 0, 100), 50);
    assert_eq!(scale_random_u16(1234, 7, 7), 7);
}
