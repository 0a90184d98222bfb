use rp2040_dshot::telemetry::TelemetryFrame;

fn frame_with_crc(body: [u8; 9]) -> [u8; 10] {
    let mut data = [0u8; 10];
    data[..9].copy_from_slice(&body);
    data[9] = TelemetryFrame::compute_crc(&body);
    data
}

#[test]
fn crc8_check_value() {
    assert_eq!(TelemetryFrame::compute_crc(b"123456789"), 0xF4);
    assert_eq!(TelemetryFrame::compute_crc(&[1, 2, 3, 4, 5, 6, 7, 8, 9]), 133);
    assert_eq!(TelemetryFrame::compute_crc(&[]), 0);
}

#[test]
fn telemetry_round_trip() {
    let data = frame_with_crc([25, 0x34, 0x12, 0x10, 0x00, 0xE8, 0x03, 0x64, 0x00]);
    assert_eq!(data[9], 20);
    let f = TelemetryFrame::from_bytes(&data).unwrap();
    assert_eq!(f.temp, 25);
    assert_eq!(f.voltage, 0x1234);
    assert_eq!(f.current, 16);
    assert_eq!(f.consumption, 1000);
    assert_eq!(f.e_rpm, 100);
    assert_eq!(f.crc, 20);
}

#[test]
fn telemetry_bit_flip_rejected() {
    let data = frame_with_crc([1, 2, 3, 4, 5, 6, 7, 8, 9]);
    assert!(TelemetryFrame::from_bytes(&data).is_some());
    for i in 0..10 {
        for bit in 0..8 {
            let mut bad = data;
            bad[i] ^= 1 << bit;
            assert!(TelemetryFrame::from_bytes(&bad).is_none(), "byte {} bit {}", i, bit);
        }
    }
}
