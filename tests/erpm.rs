use rp2040_dshot::driver::telemetry_from_raw;
use rp2040_dshot::erpm::{
    decode_capture, decode_gcr, ERpmVarient, ExtendedERpmData, ExtendedERpmFrame,
    PeriodComputationResult, StandardERpmFrame,
};
use rp2040_dshot::Error;

#[test]
fn gcr_decodes_value() {
    assert_eq!(decode_gcr(0xCDBB2), Some(0x0642));
    assert_eq!(decode_capture(0x892DC), Some(0x0642));
}

#[test]
fn gcr_reserved_symbols_rejected() {
    let valid = [9u32, 10, 11, 13, 14, 15, 18, 19, 21, 22, 23, 25, 26, 27, 29, 30];
    let good = 0xCDBB2u32;
    let mut reserved = 0;
    for sym in 0..32u32 {
        if valid.contains(&sym) {
            continue;
        }
        reserved += 1;
        for k in 0..4 {
            let word = (good & !(0x1F << (5 * k))) | (sym << (5 * k));
            assert_eq!(decode_gcr(word), None);
        }
    }
    assert_eq!(reserved, 16);
}

#[test]
fn standard_erpm_period_and_rpm() {
    let f = StandardERpmFrame::from_raw(0x0642).unwrap();
    assert_eq!(f.shift(), 0);
    assert_eq!(f.base(), 100);
    assert_eq!(f.crc(), 2);
    assert_eq!(f.compute_period_us(), Some(100));
    assert_eq!(f.compute_rpm(), 600_000);
    let g = StandardERpmFrame::from_raw(0x6C82).unwrap();
    assert_eq!(g.shift(), 3);
    assert_eq!(g.base(), 200);
    assert_eq!(g.compute_period_us(), Some(1600));
    assert_eq!(g.compute_rpm(), 37_500);
}

#[test]
fn stopped_motor_is_zero_rpm() {
    let f = StandardERpmFrame::from_raw(0xA00A).unwrap();
    assert_eq!(f.base(), 0);
    assert_eq!(f.compute_period_us(), None);
    assert_eq!(f.compute_rpm(), 0);
    // In an extended frame an even non-zero tag selects a telemetry type, so a
    // stopped motor reads as the all-zero value.
    assert_eq!(ExtendedERpmFrame::from_raw(0xA00A).unwrap().data(), ExtendedERpmData::Debug2(0));
    let e = ExtendedERpmFrame::from_raw(0x0000).unwrap();
    assert_eq!(e.compute_period_us(), Err(PeriodComputationResult::StoppedMotor));
    assert_eq!(e.compute_rpm(), Ok(0));
}

#[test]
fn erpm_bad_checksum_rejected() {
    assert!(StandardERpmFrame::from_raw(0x0643).is_none());
    assert!(ExtendedERpmFrame::from_raw(0x0643).is_none());
    assert_eq!(telemetry_from_raw::<StandardERpmFrame>(0x0643), Err(Error::InvalidTelemetryChecksum));
    assert_eq!(telemetry_from_raw::<StandardERpmFrame>(0x0642).unwrap().base(), 100);
}

#[test]
fn extended_frames() {
    let t = ExtendedERpmFrame::from_raw(0x2376).unwrap();
    assert_eq!(t.data(), ExtendedERpmData::Temperature(55));
    assert_eq!(t.compute_rpm(), Err(PeriodComputationResult::NotRpmPacket));
    assert_eq!(t.compute_period_us(), Err(PeriodComputationResult::NotRpmPacket));
    assert_eq!(t.shift(), None);
    assert_eq!(t.base(), None);
    let r = ExtendedERpmFrame::from_raw(0x0642).unwrap();
    assert_eq!(r.data(), ExtendedERpmData::Rpm { shift: 0, base: 100 });
    assert_eq!(r.compute_rpm(), Ok(600_000));
    assert_eq!(r.shift(), Some(0));
    assert_eq!(r.base(), Some(100));
    assert_eq!(ExtendedERpmData::from_raw(0x4000 | (7 << 4)), ExtendedERpmData::Voltage(7));
    assert_eq!(ExtendedERpmData::from_raw(0xE000 | (9 << 4)), ExtendedERpmData::StateOrEvent(9));
}
