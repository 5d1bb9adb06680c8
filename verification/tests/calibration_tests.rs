use enviro_phat::calibration::{decode_calibration, encode_calibration, CalibrationData};

fn sample_calibration() -> CalibrationData {
    CalibrationData {
        dig_t1: 27504,
        dig_t2: 26435,
        dig_t3: -1000,
        dig_p1: 36477,
        dig_p2: -10685,
        dig_p3: 3024,
        dig_p4: 2855,
        dig_p5: 140,
        dig_p6: -7,
        dig_p7: 15500,
        dig_p8: -14600,
        dig_p9: 6000,
    }
}

#[test]
fn decode_reads_little_endian_layout() {
    let block: Vec<u8> = vec![
        0x70, 0x6b, // dig_t1 = 27504
        0x43, 0x67, // dig_t2 = 26435
        0x18, 0xfc, // dig_t3 = -1000
        0x7d, 0x8e, // dig_p1 = 36477
        0x43, 0xd6, // dig_p2 = -10685
        0xd0, 0x0b, // dig_p3 = 3024
        0x27, 0x0b, // dig_p4 = 2855
        0x8c, 0x00, // dig_p5 = 140
        0xf9, 0xff, // dig_p6 = -7
        0x8c, 0x3c, // dig_p7 = 15500
        0xf8, 0xc6, // dig_p8 = -14600
        0x70, 0x17, // dig_p9 = 6000
    ];
    let c = decode_calibration(&block);
    assert_eq!(c, sample_calibration());
}

#[test]
fn encode_writes_little_endian_layout() {
    let block = encode_calibration(&sample_calibration());
    assert_eq!(block.len(), 24);
    assert_eq!(&block[0..6], &[0x70, 0x6b, 0x43, 0x67, 0x18, 0xfc]);
    assert_eq!(&block[6..12], &[0x7d, 0x8e, 0x43, 0xd6, 0xd0, 0x0b]);
    assert_eq!(&block[12..18], &[0x27, 0x0b, 0x8c, 0x00, 0xf9, 0xff]);
    assert_eq!(&block[18..24], &[0x8c, 0x3c, 0xf8, 0xc6, 0x70, 0x17]);
}

#[test]
fn calibration_round_trips_through_a_block() {
    let original = sample_calibration();
    let block = encode_calibration(&original);
    let decoded = decode_calibration(&block);
    assert_eq!(decoded, original);
}

#[test]
fn calibration_round_trips_at_extremes() {
    let original = CalibrationData {
        dig_t1: 0,
        dig_t2: i16::MIN,
        dig_t3: i16::MAX,
        dig_p1: u16::MAX,
        dig_p2: -1,
        dig_p3: 0,
        dig_p4: 1,
        dig_p5: i16::MIN,
        dig_p6: i16::MAX,
        dig_p7: -256,
        dig_p8: 255,
        dig_p9: -32767,
    };
    let block = encode_calibration(&original);
    let decoded = decode_calibration(&block);
    assert_eq!(decoded, original);
}
