use rp2040_dshot::encoder::{
    compute_crc, checksum_matches, Command, DShotSpeed, DShotVariant, Frame, InvertedDShotVariant,
    StandardDShotVariant,
};

#[test]
fn test_gcr_rate_ratio() {
    // GCR encoding ratio should be exactly 1.25 (5/4)
    for speed in [
        DShotSpeed::DShot150,
        DShotSpeed::DShot300,
        DShotSpeed::DShot600,
        DShotSpeed::DShot1200,
    ] {
        let normal_rate = speed.bit_rate_hz();
        let gcr_rate = speed.gcr_bit_rate_hz();
        let ratio = gcr_rate as f32 / normal_rate as f32;

        assert!(
            (ratio - 1.25).abs() < 0.01,
            "GCR ratio should be 1.25 for {:?}, got {}",
            speed,
            ratio
        );
    }
}

#[test]
fn bit_rates_are_exact() {
    assert_eq!(DShotSpeed::DShot150.bit_rate_hz(), 150_000);
    assert_eq!(DShotSpeed::DShot300.bit_rate_hz(), 300_000);
    assert_eq!(DShotSpeed::DShot600.bit_rate_hz(), 600_000);
    assert_eq!(DShotSpeed::DShot1200.bit_rate_hz(), 1_200_000);
    assert_eq!(DShotSpeed::DShot300.gcr_bit_rate_hz(), 375_000);
}

#[test]
fn throttle_frame_has_exact_word() {
    let f = Frame::from_throttle(1000, false, DShotVariant::Standard).unwrap();
    assert_eq!(f.inner(), 0x830B);
    assert_eq!(f.crc(), 0xB);
    let t = Frame::from_throttle(1000, true, DShotVariant::Standard).unwrap();
    assert_eq!(t.inner(), 0x831A);
    let i = Frame::from_throttle(1000, false, DShotVariant::Inverted).unwrap();
    assert_eq!(i.inner(), 0x8304);
}

#[test]
fn throttle_round_trip_all_values() {
    for variant in [DShotVariant::Standard, DShotVariant::Inverted] {
        for t in [false, true] {
            for v in 0..2000u16 {
                let f = Frame::from_throttle(v, t, variant).unwrap();
                assert_eq!(f.speed(), Some(v));
                assert_eq!(f.telemetry_enabled(), t);
                assert!(f.checksum_valid());
            }
        }
    }
}

#[test]
fn throttle_edges() {
    assert_eq!(Frame::from_throttle(0, false, DShotVariant::Standard).unwrap().inner(), 0x0606);
    assert_eq!(Frame::from_throttle(1999, true, DShotVariant::Standard).unwrap().inner(), 0xFFFF);
    assert!(Frame::from_throttle(2000, false, DShotVariant::Standard).is_none());
    assert!(Frame::from_throttle(u16::MAX, true, DShotVariant::Inverted).is_none());
}

#[test]
fn command_frames_validate() {
    let mut count = 0;
    for code in 0..=255u8 {
        if let Some(c) = Command::from_code(code) {
            assert_eq!(c.code(), code);
            count += 1;
            for variant in [DShotVariant::Standard, DShotVariant::Inverted] {
                for t in [false, true] {
                    let f = Frame::from_command(c, t, variant);
                    assert!(f.checksum_valid());
                    assert_eq!(f.speed(), None);
                    assert_eq!(f.inner() >> 5, code as u16);
                }
            }
        }
    }
    assert_eq!(count, 37);
    assert_eq!(Frame::from_command(Command::Beep1, true, DShotVariant::Standard).inner(), 0x33);
    assert_eq!(Frame::from_command(Command::SignalLineTemperatureTelemetry, false, DShotVariant::Standard).inner(), 0x541);
    assert!(Command::from_code(15).is_none());
    assert!(Command::from_code(41).is_none());
    assert!(Command::from_code(48).is_none());
}

#[test]
fn checksum_detects_corruption() {
    let f = Frame::from_throttle(1000, false, DShotVariant::Standard).unwrap();
    assert!(checksum_matches(DShotVariant::Standard, f.inner()));
    assert!(!checksum_matches(DShotVariant::Standard, f.inner() ^ 0x0100));
    assert!(!checksum_matches(DShotVariant::Inverted, f.inner()));
    assert_eq!(compute_crc(DShotVariant::Standard, 0x8300), 0xB);
    assert_eq!(compute_crc(DShotVariant::Inverted, 0x8300), 0x4);
}

#[test]
fn variant_markers() {
    let s = StandardDShotVariant::new(DShotSpeed::DShot600);
    assert_eq!(s.inner(), DShotSpeed::DShot600);
    assert_eq!(StandardDShotVariant::compute_crc(0x8300), 0xB);
    let i = InvertedDShotVariant::new(DShotSpeed::DShot150);
    assert_eq!(i.inner(), DShotSpeed::DShot150);
    assert_eq!(InvertedDShotVariant::compute_crc(0x8300), 0x4);
}
