use sink::float::DeconstructedFloat32;

#[test]
fn one_point_zero() {
    let parts = DeconstructedFloat32::new(1.0f32.to_bits());
    assert_eq!(parts.bits(), 0x3F80_0000);
    assert_eq!(parts.sign_bit(), 0);
    assert_eq!(parts.exponent_byte(), 127);
    assert_eq!(parts.mantissa_bytes(), [0, 0, 0]);
    assert_eq!(parts.sign_text(), "0");
    assert_eq!(parts.exponent_text(), "01111111");
    assert_eq!(parts.mantissa_text(), "00000000000000000000000");
}

#[test]
fn negative_fraction() {
    // -42.42 is 0xC229AE14
    let parts = DeconstructedFloat32::new((-42.42f32).to_bits());
    assert_eq!(parts.bits(), 0xC229_AE14);
    assert_eq!(parts.sign_bit(), 1);
    assert_eq!(parts.exponent_byte(), 0x84);
    assert_eq!(parts.mantissa_bytes(), [0x29, 0xAE, 0x14]);
    assert_eq!(parts.sign_text(), "1");
    assert_eq!(parts.exponent_text(), "10000100");
    assert_eq!(parts.mantissa_text(), "01010011010111000010100");
}

#[test]
fn extreme_patterns() {
    let zero = DeconstructedFloat32::new(0);
    assert_eq!((zero.sign_bit(), zero.exponent_byte(), zero.mantissa_bytes()), (0, 0, [0, 0, 0]));
    let ones = DeconstructedFloat32::new(u32::MAX);
    assert_eq!((ones.sign_bit(), ones.exponent_byte(), ones.mantissa_bytes()), (1, 255, [0x7F, 0xFF, 0xFF]));
    assert_eq!(ones.mantissa_text(), "1".repeat(23));
    assert_eq!(ones.exponent_text(), "1".repeat(8));
    let max = DeconstructedFloat32::new(f32::MAX.to_bits());
    assert_eq!((max.sign_bit(), max.exponent_byte(), max.mantissa_bytes()), (0, 254, [0x7F, 0xFF, 0xFF]));
}

#[test]
fn texts_agree_with_standard_formatting() {
    for bits in [0u32, 1, 0x8000_0000, 0x0080_0000, 0x007F_FFFF, 0x3EAA_AAAB, 0xC229_AE14, 0x7F80_0001, 0x1234_5678, 0xFEDC_BA98] {
        let parts = DeconstructedFloat32::new(bits);
        let m = parts.mantissa_bytes();
        assert_eq!(parts.sign_text(), format!("{:b}", parts.sign_bit()));
        assert_eq!(parts.exponent_text(), format!("{:08b}", parts.exponent_byte()));
        assert_eq!(parts.mantissa_text(), format!("{:07b}{:08b}{:08b}", m[0], m[1], m[2]));
        let whole = format!("{}{}{}", parts.sign_text(), parts.exponent_text(), parts.mantissa_text());
        assert_eq!(whole, format!("{:032b}", bits));
    }
}

#[test]
fn layout_places_each_field_in_its_row() {
    let parts = DeconstructedFloat32::new(0xC229_AE14);
    let rows = parts.layout("<s>", "<e>", "<m>");
    assert_eq!(
        rows,
        vec![
            "| input (bits) | 11000010001010011010111000010100 |",
            "| sign         | <s>0000000000000000000000000000000 |",
            "| exponent     | 0<e>00000000000000000000000 |",
            "| mantissa     | 000000000<m> |",
        ]
    );
    let plain = parts.layout(&parts.sign_text(), &parts.exponent_text(), &parts.mantissa_text());
    assert_eq!(plain[1], format!("| sign         | {:032b} |", 0x8000_0000u32));
    assert_eq!(plain[2], format!("| exponent     | {:032b} |", 0xC229_AE14u32 & 0x7F80_0000));
    assert_eq!(plain[3], format!("| mantissa     | {:032b} |", 0xC229_AE14u32 & 0x007F_FFFF));
}

#[test]
fn report_highlights_each_field() {
    let parts = DeconstructedFloat32::new(0xC229_AE14);

    colored::control::set_override(true);
    assert_eq!(
        parts.report(),
        vec![
            "| input (bits) | 11000010001010011010111000010100 |",
            "| sign         | \x1b[41m1\x1b[0m0000000000000000000000000000000 |",
            "| exponent     | 0\x1b[41m10000100\x1b[0m00000000000000000000000 |",
            "| mantissa     | 000000000\x1b[41m01010011010111000010100\x1b[0m |",
        ]
    );

    colored::control::set_override(false);
    assert_eq!(
        parts.report(),
        vec![
            "| input (bits) | 11000010001010011010111000010100 |",
            "| sign         | 10000000000000000000000000000000 |",
            "| exponent     | 01000010000000000000000000000000 |",
            "| mantissa     | 00000000001010011010111000010100 |",
        ]
    );
    colored::control::unset_override();
}
