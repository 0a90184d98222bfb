use rp2040_dshot::encoder::DShotSpeed;
use rp2040_dshot::program::{
    bit_period_cycles, generate_bd_dshot_program, generate_standard_dshot_program, BitTimingDelays,
    FrameTimingDelays, TimingError,
};
use rp2040_dshot::{BdDShotTimings, StandardDShotTimings};

#[test]
fn dshot300_timing_is_exact() {
    assert_eq!(bit_period_cycles(DShotSpeed::DShot300, 8_000_000), 26);
    let t = StandardDShotTimings::new(DShotSpeed::DShot300, 8_000_000, 8_000).unwrap();
    let b = t.bit_timings;
    assert_eq!((b.one_high_delay, b.zero_high_delay, b.one_low_delay, b.zero_low_delay), (14, 6, 6, 14));
    let f = t.frame_timings;
    assert_eq!((f.frame_delay_count, f.frame_delay_remainder, f.frame_delay), (16, 31, 30));
    let one = b.one_high_delay as u32 + b.one_low_delay as u32 + 6;
    let zero = b.zero_high_delay as u32 + b.zero_low_delay as u32 + 6;
    assert_eq!(one, 26);
    assert_eq!(zero, 26);
    let padding = f.frame_delay_remainder as u32
        + f.frame_delay_count as u32 * (f.frame_delay as u32 + 2)
        + f.frame_delay as u32
        + 1;
    assert_eq!(10 + padding + 16 * 26, 8_000_000 / 8_000);
}

#[test]
fn bit_delays_and_errors() {
    let b = BitTimingDelays::new(26).unwrap();
    assert_eq!(b.one_high_delay, 14);
    assert_eq!(BitTimingDelays::new(5), Err(TimingError::NegativeDelay));
    assert_eq!(BitTimingDelays::new(60), Err(TimingError::DelayTooLong));
}

#[test]
fn frame_padding_errors() {
    assert_eq!(FrameTimingDelays::from_total_delay(30), Err(TimingError::NegativeDelay));
    let f = FrameTimingDelays::from_total_delay(31).unwrap();
    assert_eq!((f.frame_delay_count, f.frame_delay_remainder), (0, 0));
    assert_eq!(FrameTimingDelays::from_total_delay(31 + 32 * 32), Err(TimingError::DelayTooLong));
    assert_eq!(FrameTimingDelays::new_standard(26, 8_000_000, 4_000), Err(TimingError::DelayTooLong));
    assert_eq!(FrameTimingDelays::new_standard(26, 8_000_000, 20_000), Err(TimingError::NegativeDelay));
    assert_eq!(
        StandardDShotTimings::new(DShotSpeed::DShot150, 8_000_000, 8_000),
        Err(TimingError::DelayTooLong)
    );
}

#[test]
fn bidirectional_timing() {
    let t = BdDShotTimings::new(DShotSpeed::DShot300, 8_000_000, 8_000).unwrap();
    assert_eq!(t.gcr_bit_read_delay, 19);
    assert_eq!(t.gcr_initial_read_delay, 8);
    assert_eq!((t.frame_timings.frame_delay_count, t.frame_timings.frame_delay_remainder), (2, 30));
    assert_eq!(
        FrameTimingDelays::new_bidirectional(26, 21, 8_000_000, 8_000).unwrap(),
        t.frame_timings
    );
    assert_eq!(
        BdDShotTimings::new(DShotSpeed::DShot300, 8_000_000, 4_000),
        Err(TimingError::DelayTooLong)
    );
}

#[test]
fn programs_have_fixed_length() {
    let t = StandardDShotTimings::new(DShotSpeed::DShot300, 8_000_000, 8_000).unwrap();
    let p = generate_standard_dshot_program(&t);
    assert_eq!(p.code.len(), 22);
    let bd = BdDShotTimings::new(DShotSpeed::DShot300, 8_000_000, 8_000).unwrap();
    let q = generate_bd_dshot_program(&bd);
    assert_eq!(q.code.len(), 33);
    // The delay field (bits 8..=12) of the nop before the padding loop.
    assert_eq!((p.code[4] >> 8) & 0x1F, 31);
    assert_eq!((q.code[4] >> 8) & 0x1F, 30);
}

#[test]
fn standard_program_words() {
    let t = StandardDShotTimings::new(DShotSpeed::DShot300, 8_000_000, 8_000).unwrap();
    let p = generate_standard_dshot_program(&t);
    let expected: [u16; 22] = [
        0x0008, 0xA046, 0x0068, 0x8080, 0xBF42, 0xE050, 0x1E69, 0x0086, 0x80A0, 0xA027, 0x0028,
        0x6050, 0x00EE, 0x0001, 0x6041, 0x0073, 0xEE01, 0xE600, 0x000C, 0xE601, 0xEE00, 0x000C,
    ];
    assert_eq!(p.code.as_slice(), &expected[..]);
}

#[test]
fn bidirectional_program_words() {
    let t = BdDShotTimings::new(DShotSpeed::DShot300, 8_000_000, 8_000).unwrap();
    let q = generate_bd_dshot_program(&t);
    let expected: [u16; 33] = [
        0x0008, 0xA046, 0x0068, 0x8080, 0xBE42, 0xE042, 0x1E69, 0x0086, 0x80A0, 0xA027, 0x0028,
        0x6050, 0x00EE, 0x0016, 0x6041, 0x0073, 0xEE01, 0xE600, 0x000C, 0xE601, 0xEE00, 0x000C,
        0xE080, 0x2020, 0x20A0, 0xE034, 0xA842, 0x5301, 0x005B, 0x8060, 0xC010, 0xE081, 0x0001,
    ];
    assert_eq!(q.code.as_slice(), &expected[..]);
}
