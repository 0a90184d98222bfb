//! Timing tables for the DShot sequencer programs, derived from the bit rate,
//! the sequencer clock and the frame update rate.
//!
//! Every delay lands in a 5-bit instruction delay field (0..=31); a table whose
//! delays would be negative or too long is refused instead of wrapped.
use vstd::prelude::*;
use crate::encoder::DShotSpeed;
use crate::assembly::{
    appended, asm_code, asm_encodes, assemble, emit_in, emit_irq, emit_jmp, emit_mov, emit_nop,
    emit_out, emit_pull, emit_push, emit_set, emit_wait, in_word, irq_word, jmp_word, label_at,
    mov_word, new_assembler, nop_word, out_word, pio_word, program_code, pull_word, push_word, set_word,
    wait_word,
};
use pio::{
    Assembler, InSource, IrqIndexMode, JmpCondition, MovDestination, MovOperation, MovSource,
    OutDestination, Program, SetDestination, WaitSource,
};

verus! {

/// Why no timing table exists for a configuration.
#[derive(Debug, Clone, Copy, PartialEq, Eq, Structural)]
pub enum TimingError {
    /// Some delay would be negative: the frame or bit period is too short.
    NegativeDelay,
    /// Some delay does not fit a 5-bit delay field.
    DelayTooLong,
}

/// Largest value of an instruction's delay field (and of a `set` operand).
pub const MAX_DELAY: u32 = 31;
/// Cycles of one pass of the padding loop: a jump with delay 30 and a decrement.
pub const PADDING_LOOP_CYCLES: u32 = 32;
/// Delay of the padding loop's first jump.
pub const PADDING_LOOP_DELAY: u8 = 30;
/// Cycles of the padding loop's exit jump (its delay included).
pub const PADDING_EXIT_CYCLES: u32 = 31;
/// Cycles of the fixed instructions of a frame besides the bits and the padding:
/// five before the loop (the remainder delay aside), three to load the frame, two
/// to leave the bit loop.
pub const FRAME_OVERHEAD: u32 = 10;
/// Cycles of a high phase besides its delay.
pub const HIGH_INSTRUCTION_OVERHEAD: u32 = 1;
/// Cycles of a low phase besides its delay.
pub const LOW_INSTRUCTION_OVERHEAD: u32 = 5;
/// Bits per DShot frame.
pub const BITS_PER_FRAME: u32 = 16;
/// Telemetry bits read back in bidirectional mode: one alignment read and 20 data bits.
pub const GCR_BITS_TO_READ: u32 = 21;
/// Cycles of switching the pin to input and back in bidirectional mode.
pub const BIDIRECTIONAL_OVERHEAD: u32 = 8;
/// Cycles of a telemetry read besides its delay.
pub const GCR_BIT_READ_OVERHEAD: u32 = 2;
/// Cycles of the initial half-bit wait besides its delay.
pub const GCR_INITIAL_READ_OVERHEAD: u32 = 2;

pub open spec fn one_high_cycles(bit_period: int) -> int {
    bit_period * 3 / 5
}

pub open spec fn zero_high_cycles(bit_period: int) -> int {
    bit_period * 3 / 10
}

/// The four bit-phase delays: one-high, zero-high, one-low, zero-low.
pub open spec fn bit_delays(bit_period: int) -> (int, int, int, int) {
    (
        one_high_cycles(bit_period) - 1,
        zero_high_cycles(bit_period) - 1,
        bit_period - one_high_cycles(bit_period) - 5,
        bit_period - zero_high_cycles(bit_period) - 5,
    )
}

/// The error, if any, for a list of delays: negative first, then too long.
pub open spec fn delays_error(d: Seq<int>) -> Option<TimingError> {
    if exists|i: int| 0 <= i < d.len() && d[i] < 0 {
        Some(TimingError::NegativeDelay)
    } else if exists|i: int| 0 <= i < d.len() && d[i] > 31 {
        Some(TimingError::DelayTooLong)
    } else {
        None
    }
}

pub open spec fn bit_delays_seq(bit_period: int) -> Seq<int> {
    let (a, b, c, d) = bit_delays(bit_period);
    seq![a, b, c, d]
}

/// Delays of the high and low phase of each symbol.
#[derive(Debug, Clone, Copy, PartialEq, Eq, Structural)]
pub struct BitTimingDelays {
    pub one_high_delay: u8,
    pub zero_high_delay: u8,
    pub one_low_delay: u8,
    pub zero_low_delay: u8,
}

impl BitTimingDelays {
    /// The delays that `bit_period` gives.
    pub open spec fn from_period(self, bit_period: int) -> bool {
        let (a, b, c, d) = bit_delays(bit_period);
        self.one_high_delay == a && self.zero_high_delay == b && self.one_low_delay == c
            && self.zero_low_delay == d
    }

    /// Cycles of a one symbol and of a zero symbol in the program: each phase
    /// instruction takes one cycle plus its delay, and four more instructions
    /// fetch and test the bit.
    pub open spec fn one_cycles(self) -> int {
        self.one_high_delay + self.one_low_delay + 6
    }

    pub open spec fn zero_cycles(self) -> int {
        self.zero_high_delay + self.zero_low_delay + 6
    }

    /// Splits a bit period (in cycles) into high and low phases: 60% high for a
    /// one and 30% for a zero (narrower than the nominal 75% and 37.5%, for margin),
    /// less the cycles the phase instructions take themselves.
    pub fn new(bit_period: u32) -> (r: Result<Self, TimingError>)
        ensures
            match delays_error(bit_delays_seq(bit_period as int)) {
                Some(e) => r == Err::<Self, TimingError>(e),
                None => r matches Ok(t) && t.from_period(bit_period as int),
            },
            r matches Ok(t) ==> t.one_cycles() == bit_period && t.zero_cycles() == bit_period,
    {
        let bp = bit_period as u64;
        let one_high = (bp * 3) / 5;
        let zero_high = (bp * 3) / 10;
        let one_low = bp - one_high;
        let zero_low = bp - zero_high;
        let ghost d = bit_delays_seq(bit_period as int);
        let high_overhead = HIGH_INSTRUCTION_OVERHEAD as u64;
        let low_overhead = LOW_INSTRUCTION_OVERHEAD as u64;
        if one_high < high_overhead || zero_high < high_overhead || one_low < low_overhead || zero_low
            < low_overhead {
            assert(d[0] < 0 || d[1] < 0 || d[2] < 0 || d[3] < 0);
            return Err(TimingError::NegativeDelay);
        }
        assert(forall|i: int| 0 <= i < 4 ==> d[i] >= 0);
        let max = MAX_DELAY as u64;
        if one_high - high_overhead > max || zero_high - high_overhead > max || one_low - low_overhead > max
            || zero_low - low_overhead > max {
            assert(d[0] > 31 || d[1] > 31 || d[2] > 31 || d[3] > 31);
            return Err(TimingError::DelayTooLong);
        }
        assert(forall|i: int| 0 <= i < 4 ==> d[i] <= 31);
        Ok(BitTimingDelays {
            one_high_delay: (one_high - high_overhead) as u8,
            zero_high_delay: (zero_high - high_overhead) as u8,
            one_low_delay: (one_low - low_overhead) as u8,
            zero_low_delay: (zero_low - low_overhead) as u8,
        })
    }
}

} // verus!

verus! {

/// The error, if any, for `total` cycles of padding: the loop exit alone takes
/// 31 cycles, and the loop count must fit a `set` operand.
pub open spec fn padding_error(total: int) -> Option<TimingError> {
    if total < 31 {
        Some(TimingError::NegativeDelay)
    } else if (total - 31) / 32 > 31 {
        Some(TimingError::DelayTooLong)
    } else {
        None
    }
}

/// The split of `total` padding cycles (without error): the loop's exit, then as
/// many 32-cycle passes as fit, then the remainder.
pub open spec fn padding_split(total: int) -> FrameTimingDelays {
    FrameTimingDelays {
        frame_delay_count: ((total - 31) / 32) as u8,
        frame_delay_remainder: ((total - 31) % 32) as u8,
        frame_delay: 30,
    }
}

/// Padding cycles of a standard frame: the frame period less the bits and the
/// fixed instructions.
pub open spec fn standard_padding(bit_period: int, pio_clock: int, update_rate: int) -> int {
    pio_clock / update_rate - 16 * bit_period - 10
}

/// Padding cycles of a bidirectional frame, which also reads 21 telemetry bits and
/// switches the pin's direction twice.
pub open spec fn bidirectional_padding(
    dshot_bit_period: int,
    gcr_bit_period: int,
    pio_clock: int,
    update_rate: int,
) -> int {
    pio_clock / update_rate - 16 * dshot_bit_period - 21 * gcr_bit_period - 8 - 10
}

/// The padding between frames, spent in a counted loop of 32-cycle passes.
#[derive(Debug, Clone, Copy, PartialEq, Eq, Structural)]
pub struct FrameTimingDelays {
    /// Passes of the padding loop.
    pub frame_delay_count: u8,
    /// Delay of the instruction before the loop.
    pub frame_delay_remainder: u8,
    /// Delay of the loop's jump.
    pub frame_delay: u8,
}

impl FrameTimingDelays {
    /// Cycles that the padding takes: the remainder delay, the passes of the loop
    /// and its exit jump.
    pub open spec fn padding_cycles(self) -> int {
        self.frame_delay_remainder + self.frame_delay_count * (self.frame_delay + 2) + self.frame_delay + 1
    }

    pub open spec fn fits(self) -> bool {
        self.frame_delay_count <= 31 && self.frame_delay_remainder <= 31 && self.frame_delay <= 31
    }

    /// Padding for a standard frame.
    pub fn new_standard(bit_period: u32, pio_clock: u32, update_rate: u32) -> (r: Result<Self, TimingError>)
        requires
            update_rate > 0,
        ensures
            ({
                let total = standard_padding(bit_period as int, pio_clock as int, update_rate as int);
                &&& match padding_error(total) {
                    Some(e) => r == Err::<Self, TimingError>(e),
                    None => r == Ok::<Self, TimingError>(padding_split(total)),
                }
                &&& r matches Ok(t) ==> t.fits() && t.padding_cycles() == total
            }),
    {
        let frame_period = (pio_clock / update_rate) as u64;
        let used = BITS_PER_FRAME as u64 * bit_period as u64 + FRAME_OVERHEAD as u64;
        if frame_period < used {
            return Err(TimingError::NegativeDelay);
        }
        Self::from_total_delay(frame_period - used)
    }

    /// Padding for a bidirectional frame.
    pub fn new_bidirectional(
        dshot_bit_period: u32,
        gcr_bit_period: u32,
        pio_clock: u32,
        update_rate: u32,
    ) -> (r: Result<Self, TimingError>)
        requires
            update_rate > 0,
        ensures
            ({
                let total = bidirectional_padding(
                    dshot_bit_period as int,
                    gcr_bit_period as int,
                    pio_clock as int,
                    update_rate as int,
                );
                &&& match padding_error(total) {
                    Some(e) => r == Err::<Self, TimingError>(e),
                    None => r == Ok::<Self, TimingError>(padding_split(total)),
                }
                &&& r matches Ok(t) ==> t.fits() && t.padding_cycles() == total
            }),
    {
        let frame_period = (pio_clock / update_rate) as u64;
        let transmission_time = BITS_PER_FRAME as u64 * dshot_bit_period as u64;
        let reception_time = GCR_BITS_TO_READ as u64 * gcr_bit_period as u64;
        let used = transmission_time + reception_time + BIDIRECTIONAL_OVERHEAD as u64
            + FRAME_OVERHEAD as u64;
        if frame_period < used {
            return Err(TimingError::NegativeDelay);
        }
        Self::from_total_delay(frame_period - used)
    }

    /// Splits `total` cycles into the loop's exit, whole passes and a remainder.
    pub fn from_total_delay(total: u64) -> (r: Result<Self, TimingError>)
        ensures
            match padding_error(total as int) {
                Some(e) => r == Err::<Self, TimingError>(e),
                None => r == Ok::<Self, TimingError>(padding_split(total as int)),
            },
            r matches Ok(t) ==> t.fits() && t.padding_cycles() == total,
    {
        if total < PADDING_EXIT_CYCLES as u64 {
            return Err(TimingError::NegativeDelay);
        }
        let looped = total - PADDING_EXIT_CYCLES as u64;
        let count = looped / PADDING_LOOP_CYCLES as u64;
        if count > MAX_DELAY as u64 {
            return Err(TimingError::DelayTooLong);
        }
        let remainder = looped % PADDING_LOOP_CYCLES as u64;
        assert(looped == count * 32 + remainder) by (nonlinear_arith)
            requires
                count == looped / 32,
                remainder == looped % 32,
        ;
        Ok(FrameTimingDelays {
            frame_delay_count: count as u8,
            frame_delay_remainder: remainder as u8,
            frame_delay: PADDING_LOOP_DELAY,
        })
    }
}

} // verus!

verus! {

/// Sequencer cycles per DShot bit: the clock divided by the bit rate.
pub open spec fn bit_period_of(speed: DShotSpeed, pio_clock: u32) -> int {
    pio_clock as int / speed.spec_bit_rate_hz() as int
}

/// Sequencer cycles per telemetry bit in bidirectional mode.
pub open spec fn gcr_bit_period_of(speed: DShotSpeed, pio_clock: u32) -> int {
    pio_clock as int / speed.spec_gcr_bit_rate_hz() as int
}

/// Sequencer cycles per DShot bit (integer division of the clock by the bit rate).
pub fn bit_period_cycles(speed: DShotSpeed, pio_clock: u32) -> (r: u32)
    ensures
        r == bit_period_of(speed, pio_clock),
        r <= u32::MAX / 150_000,
{
    let rate = speed.bit_rate_hz();
    proof {
        vstd::arithmetic::div_mod::lemma_div_is_ordered_by_denominator(pio_clock as int, 150_000, rate as int);
    }
    pio_clock / rate
}

/// Timing table of the transmit-only program.
#[derive(Debug, Clone, Copy, PartialEq, Eq, Structural)]
pub struct StandardDShotTimings {
    pub bit_timings: BitTimingDelays,
    pub frame_timings: FrameTimingDelays,
}

impl StandardDShotTimings {
    /// Cycles that the transmit-only program spends on one frame holding `ones`
    /// one-bits: the fixed instructions, the padding and the sixteen bits.
    pub open spec fn frame_cycles(self, ones: int) -> int {
        10 + self.frame_timings.padding_cycles() + ones * self.bit_timings.one_cycles() + (16 - ones)
            * self.bit_timings.zero_cycles()
    }

    /// The error, if any, for a configuration: bit delays first, then padding.
    pub open spec fn config_error(speed: DShotSpeed, pio_clock: u32, update_rate: u32) -> Option<TimingError> {
        let bp = bit_period_of(speed, pio_clock);
        if delays_error(bit_delays_seq(bp)) is Some {
            delays_error(bit_delays_seq(bp))
        } else {
            padding_error(standard_padding(bp, pio_clock as int, update_rate as int))
        }
    }

    /// Derives the table for a speed, a sequencer clock and a frame update rate.
    /// Every frame of the program assembled from it then takes exactly
    /// `pio_clock / update_rate` cycles, whatever its bits.
    pub fn new(dshot_speed: DShotSpeed, pio_clock: u32, update_rate: u32) -> (r: Result<Self, TimingError>)
        requires
            update_rate > 0,
        ensures
            match Self::config_error(dshot_speed, pio_clock, update_rate) {
                Some(e) => r == Err::<Self, TimingError>(e),
                None => r is Ok,
            },
            r matches Ok(t) ==> {
                &&& t.bit_timings.from_period(bit_period_of(dshot_speed, pio_clock))
                &&& t.frame_timings == padding_split(
                    standard_padding(bit_period_of(dshot_speed, pio_clock), pio_clock as int, update_rate as int),
                )
                &&& t.fits()
                &&& forall|ones: int|
                    0 <= ones <= 16 ==> #[trigger] t.frame_cycles(ones) == pio_clock / update_rate
                &&& forall|ones: int|
                    0 <= ones <= 16 ==> #[trigger] repeat_frame_cycles(standard_program(t), ones)
                        == pio_clock / update_rate
            },
    {
        let bit_period = bit_period_cycles(dshot_speed, pio_clock);
        let bit_timings = match BitTimingDelays::new(bit_period) {
            Ok(b) => b,
            Err(e) => return Err(e),
        };
        let frame_timings = match FrameTimingDelays::new_standard(bit_period, pio_clock, update_rate) {
            Ok(f) => f,
            Err(e) => return Err(e),
        };
        let t = StandardDShotTimings { bit_timings, frame_timings };
        assert forall|ones: int| 0 <= ones <= 16 implies #[trigger] t.frame_cycles(ones) == pio_clock / update_rate by {
            let bp = bit_period as int;
            assert(ones * bp + (16 - ones) * bp == 16 * bp) by (nonlinear_arith);
        }
        assert forall|ones: int| 0 <= ones <= 16 implies #[trigger] repeat_frame_cycles(standard_program(t), ones)
            == pio_clock / update_rate by {
            lemma_standard_program_cycles(t, ones);
            assert(t.frame_cycles(ones) == pio_clock / update_rate);
        }
        Ok(t)
    }
}

} // verus!

verus! {

/// The two telemetry-read delays of bidirectional mode: per bit, and the initial
/// half-bit wait that centres the samples.
pub open spec fn gcr_delays_seq(gcr_bit_period: int) -> Seq<int> {
    seq![gcr_bit_period - 2, gcr_bit_period / 2 - 2]
}

/// Timing table of the transmit-and-receive program.
#[derive(Debug, Clone, Copy, PartialEq, Eq, Structural)]
pub struct BdDShotTimings {
    pub bit_timings: BitTimingDelays,
    pub frame_timings: FrameTimingDelays,
    pub gcr_bit_read_delay: u8,
    pub gcr_initial_read_delay: u8,
}

impl BdDShotTimings {
    /// The error, if any, for a configuration: bit delays, then read delays, then
    /// padding.
    pub open spec fn config_error(speed: DShotSpeed, pio_clock: u32, update_rate: u32) -> Option<TimingError> {
        let bp = bit_period_of(speed, pio_clock);
        let gbp = gcr_bit_period_of(speed, pio_clock);
        if delays_error(bit_delays_seq(bp)) is Some {
            delays_error(bit_delays_seq(bp))
        } else if delays_error(gcr_delays_seq(gbp)) is Some {
            delays_error(gcr_delays_seq(gbp))
        } else {
            padding_error(bidirectional_padding(bp, gbp, pio_clock as int, update_rate as int))
        }
    }

    /// Derives the table for a speed, a sequencer clock and a frame update rate.
    pub fn new(dshot_speed: DShotSpeed, pio_clock: u32, update_rate: u32) -> (r: Result<Self, TimingError>)
        requires
            update_rate > 0,
        ensures
            match Self::config_error(dshot_speed, pio_clock, update_rate) {
                Some(e) => r == Err::<Self, TimingError>(e),
                None => r is Ok,
            },
            r matches Ok(t) ==> {
                let gbp = gcr_bit_period_of(dshot_speed, pio_clock);
                &&& t.bit_timings.from_period(bit_period_of(dshot_speed, pio_clock))
                &&& t.fits()
                &&& t.frame_timings == padding_split(bidirectional_padding(
                    bit_period_of(dshot_speed, pio_clock),
                    gbp,
                    pio_clock as int,
                    update_rate as int,
                ))
                &&& t.frame_timings.padding_cycles() == bidirectional_padding(
                    bit_period_of(dshot_speed, pio_clock),
                    gbp,
                    pio_clock as int,
                    update_rate as int,
                )
                &&& t.gcr_bit_read_delay == gbp - 2
                &&& t.gcr_initial_read_delay == gbp / 2 - 2
            },
    {
        let dshot_bit_period = bit_period_cycles(dshot_speed, pio_clock);
        let gcr_rate = dshot_speed.gcr_bit_rate_hz();
        let gcr_bit_period = pio_clock / gcr_rate;
        let bit_timings = match BitTimingDelays::new(dshot_bit_period) {
            Ok(b) => b,
            Err(e) => return Err(e),
        };
        let ghost g = gcr_delays_seq(gcr_bit_period as int);
        if gcr_bit_period < GCR_BIT_READ_OVERHEAD || gcr_bit_period / 2 < GCR_INITIAL_READ_OVERHEAD {
            assert(g[0] < 0 || g[1] < 0);
            return Err(TimingError::NegativeDelay);
        }
        assert(forall|i: int| 0 <= i < 2 ==> g[i] >= 0);
        if gcr_bit_period - GCR_BIT_READ_OVERHEAD > MAX_DELAY || gcr_bit_period / 2 - GCR_INITIAL_READ_OVERHEAD > MAX_DELAY {
            assert(g[0] > 31 || g[1] > 31);
            return Err(TimingError::DelayTooLong);
        }
        assert(forall|i: int| 0 <= i < 2 ==> g[i] <= 31);
        let frame_timings = match FrameTimingDelays::new_bidirectional(
            dshot_bit_period,
            gcr_bit_period,
            pio_clock,
            update_rate,
        ) {
            Ok(f) => f,
            Err(e) => return Err(e),
        };
        Ok(BdDShotTimings {
            bit_timings,
            frame_timings,
            gcr_bit_read_delay: (gcr_bit_period - GCR_BIT_READ_OVERHEAD) as u8,
            gcr_initial_read_delay: (gcr_bit_period / 2 - GCR_INITIAL_READ_OVERHEAD) as u8,
        })
    }
}

} // verus!

verus! {

impl BitTimingDelays {
    pub open spec fn fits(self) -> bool {
        self.one_high_delay <= 31 && self.zero_high_delay <= 31 && self.one_low_delay <= 31
            && self.zero_low_delay <= 31
    }
}

impl StandardDShotTimings {
    /// Every delay fits its instruction field.
    pub open spec fn fits(self) -> bool {
        self.bit_timings.fits() && self.frame_timings.fits()
    }
}

impl BdDShotTimings {
    /// Every delay fits its instruction field.
    pub open spec fn fits(self) -> bool {
        &&& self.bit_timings.fits()
        &&& self.frame_timings.fits()
        &&& self.gcr_bit_read_delay <= 31
        &&& self.gcr_initial_read_delay <= 31
    }
}

/// Instructions of the transmit-only program.
pub const STANDARD_DSHOT_PROGRAM_SIZE: usize = 22;
/// Instructions of the transmit-and-receive program.
pub const BD_DSHOT_PROGRAM_SIZE: usize = 33;

/// Offsets of the jump targets in both programs.
pub const MAYBE_PULL: u8 = 1;
pub const FRAME_DELAY_LOOP: u8 = 6;
pub const BLOCKING_PULL: u8 = 8;
pub const START_FRAME: u8 = 9;
pub const CHECK_BIT: u8 = 12;
pub const START_BIT: u8 = 14;
pub const DO_ZERO: u8 = 19;
/// Offsets of the jump targets of the receive part.
pub const WAIT_FOR_ERPM: u8 = 22;
pub const READ_BIT: u8 = 27;

/// The start shared by both programs (offsets 0..=11): idle pacing in repeat
/// mode, the blocking pull of the first frame, and the frame load.
pub open spec fn prologue_words(frame: FrameTimingDelays) -> Seq<u16> {
    seq![
        // 0, init
        jmp_word(JmpCondition::Always, BLOCKING_PULL, 0),
        // 1, maybe_pull: without a new frame, resend the last one
        mov_word(MovDestination::Y, MovOperation::None, MovSource::ISR),
        jmp_word(JmpCondition::YIsZero, BLOCKING_PULL, 0),
        pull_word(false, false),
        nop_word(frame.frame_delay_remainder),
        set_word(SetDestination::Y, frame.frame_delay_count, 0),
        // 6, frame_delay_loop
        jmp_word(JmpCondition::YIsZero, START_FRAME, frame.frame_delay),
        jmp_word(JmpCondition::YDecNonZero, FRAME_DELAY_LOOP, 0),
        // 8, blocking_pull
        pull_word(false, true),
        // 9, start_frame: keep the frame; a zero word waits for a real one
        mov_word(MovDestination::X, MovOperation::None, MovSource::OSR),
        jmp_word(JmpCondition::XIsZero, BLOCKING_PULL, 0),
        out_word(OutDestination::Y, 16),
    ]
}

/// The sixteen bit phases (offsets 12..=21); once the frame is out, jump to `done`.
pub open spec fn bit_words(bits: BitTimingDelays, done: u8) -> Seq<u16> {
    seq![
        // 12, check_bit
        jmp_word(JmpCondition::OutputShiftRegisterNotEmpty, START_BIT, 0),
        jmp_word(JmpCondition::Always, done, 0),
        // 14, start_bit
        out_word(OutDestination::Y, 1),
        jmp_word(JmpCondition::YIsZero, DO_ZERO, 0),
        // 16, do_one
        set_word(SetDestination::PINS, 1, bits.one_high_delay),
        set_word(SetDestination::PINS, 0, bits.one_low_delay),
        jmp_word(JmpCondition::Always, CHECK_BIT, 0),
        // 19, do_zero
        set_word(SetDestination::PINS, 1, bits.zero_high_delay),
        set_word(SetDestination::PINS, 0, bits.zero_low_delay),
        jmp_word(JmpCondition::Always, CHECK_BIT, 0),
    ]
}

/// The receive part (offsets 22..=32): turn the pin to input, wait for the
/// ESC's falling then rising edge, wait half a bit, sample 21 bits (X counts
/// 20 down to 0), push them with an interrupt, drive the pin again, back to idle.
pub open spec fn receive_words(gcr_initial_read_delay: u8, gcr_bit_read_delay: u8) -> Seq<u16> {
    seq![
        // 22, wait_for_erpm
        set_word(SetDestination::PINDIRS, 0, 0),
        wait_word(0, WaitSource::PIN, 0, false),
        wait_word(1, WaitSource::PIN, 0, false),
        set_word(SetDestination::X, 20, 0),
        nop_word(gcr_initial_read_delay),
        // 27, read_bit
        in_word(InSource::PINS, 1, gcr_bit_read_delay),
        jmp_word(JmpCondition::XDecNonZero, READ_BIT, 0),
        // 29, cleanup
        push_word(true, true),
        irq_word(false, false, 0, IrqIndexMode::REL),
        set_word(SetDestination::PINDIRS, 1, 0),
        jmp_word(JmpCondition::Always, MAYBE_PULL, 0),
    ]
}

/// The transmit-only program: after the bits, back to idle.
pub open spec fn standard_program(t: StandardDShotTimings) -> Seq<u16> {
    prologue_words(t.frame_timings) + bit_words(t.bit_timings, MAYBE_PULL)
}

/// The transmit-and-receive program: after the bits, the receive part.
pub open spec fn bd_program(t: BdDShotTimings) -> Seq<u16> {
    prologue_words(t.frame_timings) + bit_words(t.bit_timings, WAIT_FOR_ERPM) + receive_words(
        t.gcr_initial_read_delay,
        t.gcr_bit_read_delay,
    )
}

/// Appends a jump to `target`.
fn jump(a: &mut Assembler<33>, condition: JmpCondition, target: u8, delay: u8)
    requires
        asm_code(*old(a)).len() < 33,
        asm_encodes(*old(a)),
        delay <= 31,
    ensures
        appended(*old(a), *final(a), jmp_word(condition, target, delay)),
{
    let mut label = label_at(a, target);
    emit_jmp(a, condition, &mut label, delay);
}

fn emit_prologue(a: &mut Assembler<33>, frame: FrameTimingDelays)
    requires
        asm_code(*old(a)).len() == 0,
        asm_encodes(*old(a)),
        frame.fits(),
    ensures
        asm_code(*final(a)) == prologue_words(frame),
        asm_encodes(*final(a)),
{
    jump(a, JmpCondition::Always, BLOCKING_PULL, 0);
    emit_mov(a, MovDestination::Y, MovOperation::None, MovSource::ISR);
    jump(a, JmpCondition::YIsZero, BLOCKING_PULL, 0);
    emit_pull(a, false, false);
    emit_nop(a, frame.frame_delay_remainder);
    emit_set(a, SetDestination::Y, frame.frame_delay_count, 0);
    jump(a, JmpCondition::YIsZero, START_FRAME, frame.frame_delay);
    jump(a, JmpCondition::YDecNonZero, FRAME_DELAY_LOOP, 0);
    emit_pull(a, false, true);
    emit_mov(a, MovDestination::X, MovOperation::None, MovSource::OSR);
    jump(a, JmpCondition::XIsZero, BLOCKING_PULL, 0);
    emit_out(a, OutDestination::Y, 16);
    assert(asm_code(*a) =~= prologue_words(frame));
}

fn emit_bits(a: &mut Assembler<33>, bits: BitTimingDelays, done: u8)
    requires
        asm_code(*old(a)).len() == 12,
        asm_encodes(*old(a)),
        bits.fits(),
    ensures
        asm_code(*final(a)) == asm_code(*old(a)) + bit_words(bits, done),
        asm_encodes(*final(a)),
{
    jump(a, JmpCondition::OutputShiftRegisterNotEmpty, START_BIT, 0);
    jump(a, JmpCondition::Always, done, 0);
    emit_out(a, OutDestination::Y, 1);
    jump(a, JmpCondition::YIsZero, DO_ZERO, 0);
    emit_set(a, SetDestination::PINS, 1, bits.one_high_delay);
    emit_set(a, SetDestination::PINS, 0, bits.one_low_delay);
    jump(a, JmpCondition::Always, CHECK_BIT, 0);
    emit_set(a, SetDestination::PINS, 1, bits.zero_high_delay);
    emit_set(a, SetDestination::PINS, 0, bits.zero_low_delay);
    jump(a, JmpCondition::Always, CHECK_BIT, 0);
    assert(asm_code(*a) =~= asm_code(*old(a)) + bit_words(bits, done));
}

/// Assembles the transmit-only program: idle, blocking pull, load frame, sixteen
/// high/low bit phases, back to idle.
pub fn generate_standard_dshot_program(timings: &StandardDShotTimings) -> (r: Program<33>)
    requires
        timings.fits(),
    ensures
        program_code(r) == standard_program(*timings),
        program_code(r).len() == STANDARD_DSHOT_PROGRAM_SIZE,
{
    let mut a = new_assembler();
    emit_prologue(&mut a, timings.frame_timings);
    emit_bits(&mut a, timings.bit_timings, MAYBE_PULL);
    assemble(a)
}

/// Assembles the transmit-and-receive program: as the transmit-only one, then
/// turn the pin around, wait for the ESC's reply, sample 21 telemetry bits, push
/// them with an interrupt, and drive the pin again.
pub fn generate_bd_dshot_program(timings: &BdDShotTimings) -> (r: Program<33>)
    requires
        timings.fits(),
    ensures
        program_code(r) == bd_program(*timings),
        program_code(r).len() == BD_DSHOT_PROGRAM_SIZE,
{
    let mut a = new_assembler();
    emit_prologue(&mut a, timings.frame_timings);
    emit_bits(&mut a, timings.bit_timings, WAIT_FOR_ERPM);
    let ghost transmit = asm_code(a);
    emit_set(&mut a, SetDestination::PINDIRS, 0, 0);
    emit_wait(&mut a, 0, WaitSource::PIN, 0, false);
    emit_wait(&mut a, 1, WaitSource::PIN, 0, false);
    emit_set(&mut a, SetDestination::X, 20, 0);
    emit_nop(&mut a, timings.gcr_initial_read_delay);
    emit_in(&mut a, InSource::PINS, 1, timings.gcr_bit_read_delay);
    jump(&mut a, JmpCondition::XDecNonZero, READ_BIT, 0);
    emit_push(&mut a, true, true);
    emit_irq(&mut a, false, false, 0, IrqIndexMode::REL);
    emit_set(&mut a, SetDestination::PINDIRS, 1, 0);
    jump(&mut a, JmpCondition::Always, MAYBE_PULL, 0);
    assert(asm_code(a) =~= transmit + receive_words(timings.gcr_initial_read_delay, timings.gcr_bit_read_delay));
    assert(asm_code(a) =~= bd_program(*timings));
    assemble(a)
}

} // verus!

verus! {

/// Delay field of an instruction word without side-set.
pub open spec fn delay_field(w: u16) -> int {
    ((w >> 8u16) & 0x1Fu16) as int
}

/// Data field of a `set` word.
pub open spec fn data_field(w: u16) -> int {
    (w & 0x1Fu16) as int
}

/// Cycles that instruction `i` of `p` takes: one, plus its delay.
pub open spec fn instr_cycles(p: Seq<u16>, i: int) -> int {
    1 + delay_field(p[i])
}

/// Cycles that the transmit-only program `p` spends on a frame with `ones`
/// one-bits in repeat mode, following the instructions it runs: the pacing
/// (offsets 1..=5), the padding loop run as often as `set y` (offset 5) says and
/// its exit, the frame load (9..=11), each bit (check, shift, test, then the
/// one-phases 16..=18 or the zero-phases 19..=21), and leaving the bit loop (12, 13).
pub open spec fn repeat_frame_cycles(p: Seq<u16>, ones: int) -> int {
    let pacing = instr_cycles(p, 1) + instr_cycles(p, 2) + instr_cycles(p, 3) + instr_cycles(p, 4)
        + instr_cycles(p, 5);
    let padding = data_field(p[5]) * (instr_cycles(p, 6) + instr_cycles(p, 7)) + instr_cycles(p, 6);
    let load = instr_cycles(p, 9) + instr_cycles(p, 10) + instr_cycles(p, 11);
    let fetch = instr_cycles(p, 12) + instr_cycles(p, 14) + instr_cycles(p, 15);
    let one = fetch + instr_cycles(p, 16) + instr_cycles(p, 17) + instr_cycles(p, 18);
    let zero = fetch + instr_cycles(p, 19) + instr_cycles(p, 20) + instr_cycles(p, 21);
    let leave = instr_cycles(p, 12) + instr_cycles(p, 13);
    pacing + padding + load + ones * one + (16 - ones) * zero + leave
}

proof fn lemma_word_fields(opcode: u16, o0: u8, o1: u8, delay: u8)
    requires
        opcode < 8,
        o0 < 8,
        o1 < 32,
        delay < 32,
    ensures
        delay_field(pio_word(opcode, o0, o1, delay)) == delay,
        data_field(pio_word(opcode, o0, o1, delay)) == o1,
{
    let w = pio_word(opcode, o0, o1, delay);
    assert((w >> 8u16) & 0x1Fu16 == delay as u16 && w & 0x1Fu16 == o1 as u16) by (bit_vector)
        requires
            opcode < 8,
            o0 < 8,
            o1 < 32,
            delay < 32,
            w == (opcode << 13u16) | ((o0 as u16) << 5u16) | (o1 as u16) | ((delay as u16) << 8u16),
    ;
}

/// The cycle count of the transmit-only program, read off its instructions, is
/// the table's `frame_cycles`.
pub proof fn lemma_standard_program_cycles(t: StandardDShotTimings, ones: int)
    requires
        t.fits(),
    ensures
        repeat_frame_cycles(standard_program(t), ones) == t.frame_cycles(ones),
{
    let p = standard_program(t);
    let f = t.frame_timings;
    let b = t.bit_timings;
    assert(p[1] == mov_word(MovDestination::Y, MovOperation::None, MovSource::ISR));
    lemma_word_fields(5, 2, 6, 0);
    assert(p[2] == jmp_word(JmpCondition::YIsZero, 8, 0));
    lemma_word_fields(0, 3, 8, 0);
    assert(p[3] == pull_word(false, false));
    assert(4u8 | (0u8 << 1u8) | 0u8 == 4u8) by (bit_vector);
    lemma_word_fields(4, 4, 0, 0);
    assert(p[4] == nop_word(f.frame_delay_remainder));
    lemma_word_fields(5, 2, 2, f.frame_delay_remainder);
    assert(p[5] == set_word(SetDestination::Y, f.frame_delay_count, 0));
    lemma_word_fields(7, 2, f.frame_delay_count, 0);
    assert(p[6] == jmp_word(JmpCondition::YIsZero, 9, f.frame_delay));
    lemma_word_fields(0, 3, 9, f.frame_delay);
    assert(p[7] == jmp_word(JmpCondition::YDecNonZero, 6, 0));
    lemma_word_fields(0, 4, 6, 0);
    assert(p[9] == mov_word(MovDestination::X, MovOperation::None, MovSource::OSR));
    lemma_word_fields(5, 1, 7, 0);
    assert(p[10] == jmp_word(JmpCondition::XIsZero, 8, 0));
    lemma_word_fields(0, 1, 8, 0);
    assert(p[11] == out_word(OutDestination::Y, 16));
    assert(16u8 & 0x1Fu8 == 16u8 && 1u8 & 0x1Fu8 == 1u8) by (bit_vector);
    lemma_word_fields(3, 2, 16, 0);
    assert(p[12] == jmp_word(JmpCondition::OutputShiftRegisterNotEmpty, 14, 0));
    lemma_word_fields(0, 7, 14, 0);
    assert(p[13] == jmp_word(JmpCondition::Always, 1, 0));
    lemma_word_fields(0, 0, 1, 0);
    assert(p[14] == out_word(OutDestination::Y, 1));
    lemma_word_fields(3, 2, 1, 0);
    assert(p[15] == jmp_word(JmpCondition::YIsZero, 19, 0));
    lemma_word_fields(0, 3, 19, 0);
    assert(p[16] == set_word(SetDestination::PINS, 1, b.one_high_delay));
    lemma_word_fields(7, 0, 1, b.one_high_delay);
    assert(p[17] == set_word(SetDestination::PINS, 0, b.one_low_delay));
    lemma_word_fields(7, 0, 0, b.one_low_delay);
    assert(p[18] == jmp_word(JmpCondition::Always, 12, 0));
    lemma_word_fields(0, 0, 12, 0);
    assert(p[19] == set_word(SetDestination::PINS, 1, b.zero_high_delay));
    lemma_word_fields(7, 0, 1, b.zero_high_delay);
    assert(p[20] == set_word(SetDestination::PINS, 0, b.zero_low_delay));
    lemma_word_fields(7, 0, 0, b.zero_low_delay);
    assert(p[21] == jmp_word(JmpCondition::Always, 12, 0));
    assert((0u8 << 3u8) | 6u8 == 6u8 && (0u8 << 3u8) | 7u8 == 7u8) by (bit_vector);
}

} // verus!
