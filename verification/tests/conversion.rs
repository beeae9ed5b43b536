//! Checks of the pure unit conversions on concrete values.

use mlx9061x::{celsius_from_raw_as_int, device_id_from_four_words, device_id_from_two_words};

#[test]
fn celsius_as_int_concrete_values() {
    // 0x3A00 = 14848 raw: 14848 * 2 / 100 - 273 = 23.
    assert_eq!(celsius_from_raw_as_int(0x3A00), 0x17);
    // 0x3A26 = 14886 raw: 14886 * 2 / 100 - 273 = 24.
    assert_eq!(celsius_from_raw_as_int(0x3A26), 0x18);
    // 14817 raw corresponds to 23.19 degrees exactly; the integer path
    // truncates to 23.
    assert_eq!(celsius_from_raw_as_int(14817), 23);
}

#[test]
fn celsius_as_int_agrees_with_float_conversion() {
    // Over the physically meaningful range the integer result lies
    // within one degree of the exact conversion.
    for raw in (13650u16..=32767).step_by(7) {
        let exact = f32::from(raw) * 0.02 - 273.15;
        let int_approx = celsius_from_raw_as_int(raw);
        assert!((f32::from(int_approx) - exact).abs() < 1.0);
    }
}

#[test]
fn celsius_as_int_wraps_like_fixed_width_arithmetic() {
    // Below 273 scaled units the 16-bit subtraction wraps around.
    assert_eq!(
        celsius_from_raw_as_int(0),
        0u16.wrapping_mul(2).wrapping_div(100).wrapping_sub(273)
    );
    // Above 32767 raw the 16-bit doubling wraps around.
    assert_eq!(
        celsius_from_raw_as_int(40000),
        40000u16.wrapping_mul(2).wrapping_div(100).wrapping_sub(273)
    );
}

#[test]
fn device_id_words_assemble_most_significant_first() {
    assert_eq!(
        device_id_from_four_words(0x1234, 0x5678, 0x9ABC, 0xDEF0),
        0x1234_5678_9ABC_DEF0
    );
    assert_eq!(device_id_from_four_words(0, 0, 0, 1), 1);
    assert_eq!(device_id_from_four_words(1, 0, 0, 0), 0x0001_0000_0000_0000);
    assert_eq!(device_id_from_two_words(0x1234, 0x5678), 0x1234_5678);
    assert_eq!(device_id_from_two_words(0, 1), 1);
    assert_eq!(device_id_from_two_words(1, 0), 0x0001_0000);
}

#[test]
fn emissivity_encoding_of_seven_tenths() {
    // 0.7 of the MLX90614 full scale encodes to 0xB333 = 45875.
    let encoded = (0.7f32 * 65535.0 + 0.5) as u16;
    assert_eq!(encoded, 45875);
    assert_eq!(encoded, 0xB333);
    // 0.7 of the MLX90615 full scale encodes to 0x2CCD = 11469.
    let encoded = (0.7f32 * 16384.0 + 0.5) as u16;
    assert_eq!(encoded, 0x2CCD);
}

#[test]
fn emissivity_round_trip_within_one_encoding_step() {
    // Encoding a ratio and decoding the encoded word straight back
    // stays within the encoding's own rounding error of the original.
    for i in 0..=100u32 {
        let ratio = i as f32 / 100.0;
        let encoded = (ratio * 65535.0 + 0.5) as u16;
        let decoded = f32::from(encoded) / 65535.0;
        assert!((decoded - ratio).abs() <= 1.0 / 65535.0);

        let encoded = (ratio * 16384.0 + 0.5) as u16;
        let decoded = f32::from(encoded) / 16384.0;
        assert!((decoded - ratio).abs() <= 1.0 / 16384.0);
    }
}
