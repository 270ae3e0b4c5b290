use blueshift_custody::bytes::{read_i64_le, read_u64_le, u64_to_le_bytes};

#[test]
fn reads_one_from_its_little_endian_bytes() {
    assert_eq!(read_u64_le(&[1, 0, 0, 0, 0, 0, 0, 0], 0), 1);
}

#[test]
fn weighs_each_byte_by_its_position() {
    assert_eq!(read_u64_le(&[0, 1, 0, 0, 0, 0, 0, 0], 0), 256);
    assert_eq!(read_u64_le(&[0, 0, 0, 0, 0, 0, 0, 1], 0), 1u64 << 56);
    assert_eq!(
        read_u64_le(&[0x08, 0x07, 0x06, 0x05, 0x04, 0x03, 0x02, 0x01], 0),
        0x0102_0304_0506_0708
    );
}

#[test]
fn reads_the_largest_unsigned_value() {
    assert_eq!(read_u64_le(&[0xff; 8], 0), u64::MAX);
}

#[test]
fn reads_at_an_offset() {
    let data = [9, 9, 9, 0xf4, 0x01, 0, 0, 0, 0, 0, 0, 9];
    assert_eq!(read_u64_le(&data, 3), 500);
}

#[test]
fn reading_agrees_with_the_standard_decoding() {
    let samples: [u64; 6] = [0, 1, 255, 256, 0xdead_beef_cafe_f00d, u64::MAX - 1];
    for x in samples {
        assert_eq!(read_u64_le(&x.to_le_bytes(), 0), x);
    }
}

#[test]
fn writes_least_significant_byte_first() {
    assert_eq!(
        u64_to_le_bytes(0x0102_0304_0506_0708),
        [0x08, 0x07, 0x06, 0x05, 0x04, 0x03, 0x02, 0x01]
    );
    assert_eq!(u64_to_le_bytes(1), [1, 0, 0, 0, 0, 0, 0, 0]);
    assert_eq!(u64_to_le_bytes(u64::MAX), [0xff; 8]);
}

#[test]
fn writing_agrees_with_the_standard_encoding() {
    let samples: [u64; 6] = [0, 1, 255, 256, 0xdead_beef_cafe_f00d, u64::MAX - 1];
    for x in samples {
        assert_eq!(u64_to_le_bytes(x), x.to_le_bytes());
    }
}

#[test]
fn reading_undoes_writing() {
    let samples: [u64; 5] = [0, 500, 1000, 1 << 63, u64::MAX];
    for x in samples {
        assert_eq!(read_u64_le(&u64_to_le_bytes(x), 0), x);
    }
}

#[test]
fn reads_signed_values_in_twos_complement() {
    assert_eq!(read_i64_le(&[0xff; 8], 0), -1);
    assert_eq!(read_i64_le(&[0, 0, 0, 0, 0, 0, 0, 0x80], 0), i64::MIN);
    assert_eq!(read_i64_le(&[0xff, 0xff, 0xff, 0xff, 0xff, 0xff, 0xff, 0x7f], 0), i64::MAX);
    assert_eq!(read_i64_le(&[0x10, 0x27, 0, 0, 0, 0, 0, 0], 0), 10_000);
    assert_eq!(read_i64_le(&[0xfe, 0xff, 0xff, 0xff, 0xff, 0xff, 0xff, 0xff], 0), -2);
}

#[test]
fn signed_reading_agrees_with_the_standard_decoding() {
    let samples: [i64; 7] = [0, 1, -1, 1_700_000_000, -1_700_000_000, i64::MIN, i64::MAX];
    for x in samples {
        assert_eq!(read_i64_le(&x.to_le_bytes(), 0), x);
    }
}
