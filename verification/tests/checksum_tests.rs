use simplebgc::{checksum_bgc_v1, checksum_bgc_v2};

#[test]
fn additive_checksum_values() {
    assert_eq!(checksum_bgc_v1(&[]), 0);
    assert_eq!(checksum_bgc_v1(&[0x01]), 0x01);
    assert_eq!(checksum_bgc_v1(&[0xFF, 0x01]), 0x00);
    assert_eq!(checksum_bgc_v1(&[0x10, 0x20, 0x30]), 0x60);
    assert_eq!(checksum_bgc_v1(&[0xFF, 0xFF, 0xFF]), 0xFD);
}

#[test]
fn crc16_arc_known_values() {
    // The CRC-16/ARC check value over the digits 1 through 9.
    assert_eq!(checksum_bgc_v2(b"123456789"), 0xBB3D);
    assert_eq!(checksum_bgc_v2(&[]), 0);
    // The value inside the v2 read-params frame of one profile byte.
    assert_eq!(checksum_bgc_v2(&[0x01]), 0xC0C1);
}

#[test]
fn crc16_matches_reference_implementation() {
    let samples: Vec<Vec<u8>> = vec![
        vec![],
        vec![0x00],
        vec![0xFF],
        vec![0x52, 0x01, 0x01],
        b"123456789".to_vec(),
        (0..=255u8).collect(),
        vec![0xAA; 300],
    ];
    for sample in samples {
        assert_eq!(
            checksum_bgc_v2(&sample[..]),
            crc16::State::<crc16::ARC>::calculate(&sample[..])
        );
    }
}

#[test]
fn checksums_detect_single_byte_changes() {
    let base = [0x10u8, 0x20, 0x30, 0x40];
    let sum = checksum_bgc_v1(&base);
    let crc = checksum_bgc_v2(&base);
    for i in 0..base.len() {
        for v in 0..=255u8 {
            if v != base[i] {
                let mut changed = base;
                changed[i] = v;
                assert_ne!(checksum_bgc_v1(&changed), sum);
                assert_ne!(checksum_bgc_v2(&changed), crc);
            }
        }
    }
}
