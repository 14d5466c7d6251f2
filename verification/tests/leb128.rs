use dwarf_support::leb128::to_leb;

/// Standard unsigned LEB128 decode: low seven bits of each byte, least
/// significant chunk first.
fn decode(bytes: &[u8]) -> u64 {
    let mut value: u64 = 0;
    let mut shift: u32 = 0;
    for b in bytes {
        value |= ((b & 0x7f) as u64) << shift;
        shift += 7;
    }
    value
}

#[test]
fn encodes_zero_as_single_zero_byte() {
    assert_eq!(to_leb(0), vec![0x00u8]);
}

#[test]
fn encodes_127_as_single_byte() {
    assert_eq!(to_leb(127), vec![0x7fu8]);
}

#[test]
fn encodes_128_as_two_bytes() {
    assert_eq!(to_leb(128), vec![0x80u8, 0x01u8]);
}

#[test]
fn encodes_known_multi_byte_values() {
    assert_eq!(to_leb(300), vec![0xacu8, 0x02u8]);
    assert_eq!(to_leb(624485), vec![0xe5u8, 0x8eu8, 0x26u8]);
    assert_eq!(to_leb(u32::MAX), vec![0xffu8, 0xffu8, 0xffu8, 0xffu8, 0x0fu8]);
}

#[test]
fn every_byte_but_the_last_has_the_continuation_bit() {
    let encodings: Vec<Vec<u8>> = vec![to_leb(0), to_leb(1), to_leb(127), to_leb(128), to_leb(
        16384,
    ), to_leb(u32::MAX)];
    for bytes in &encodings {
        let last: usize = bytes.len() - 1;
        for (i, b) in bytes.iter().enumerate() {
            if i == last {
                assert_eq!(b & 0x80, 0);
            } else {
                assert_ne!(b & 0x80, 0);
            }
        }
    }
}

#[test]
fn round_trips_through_standard_decode() {
    let samples: Vec<u32> = vec![
        0,
        1,
        2,
        63,
        64,
        127,
        128,
        129,
        255,
        300,
        16383,
        16384,
        624485,
        2097151,
        2097152,
        268435455,
        268435456,
        4000000000,
        u32::MAX,
    ];
    for n in samples {
        assert_eq!(decode(&to_leb(n)), n as u64);
    }
}
