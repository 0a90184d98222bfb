//! DShot command frames: speeds, checksum polarity, throttle and command encoding.
use vstd::prelude::*;

verus! {

/// The four standard DShot bit rates.
#[derive(Debug, Clone, Copy, PartialEq, Eq, Structural)]
pub enum DShotSpeed {
    DShot150,
    DShot300,
    DShot600,
    DShot1200,
}

impl DShotSpeed {
    pub open spec fn spec_bit_rate_hz(self) -> u32 {
        match self {
            DShotSpeed::DShot150 => 150_000,
            DShotSpeed::DShot300 => 300_000,
            DShotSpeed::DShot600 => 600_000,
            DShotSpeed::DShot1200 => 1_200_000,
        }
    }

    /// Bit rate of the return channel, which runs at 5/4 of the command rate.
    pub open spec fn spec_gcr_bit_rate_hz(self) -> u32 {
        (self.spec_bit_rate_hz() * 5 / 4) as u32
    }

    /// Returns the bit rate in hertz.
    pub fn bit_rate_hz(&self) -> (r: u32)
        ensures
            r == self.spec_bit_rate_hz(),
            r >= 150_000,
    {
        match self {
            DShotSpeed::DShot150 => 150_000,
            DShotSpeed::DShot300 => 300_000,
            DShotSpeed::DShot600 => 600_000,
            DShotSpeed::DShot1200 => 1_200_000,
        }
    }

    /// Returns the bit rate in hertz of the run-length coded telemetry that an ESC
    /// sends back in bidirectional mode.
    pub fn gcr_bit_rate_hz(&self) -> (r: u32)
        ensures
            r == self.spec_gcr_bit_rate_hz(),
            r >= 187_500,
    {
        match self {
            DShotSpeed::DShot150 => 187_500,
            DShotSpeed::DShot300 => 375_000,
            DShotSpeed::DShot600 => 750_000,
            DShotSpeed::DShot1200 => 1_500_000,
        }
    }
}

} // verus!

verus! {

/// Checksum polarity of a DShot link: bidirectional links send the complement
/// of the standard checksum.
#[derive(Debug, Clone, Copy, PartialEq, Eq, Structural)]
pub enum DShotVariant {
    Standard,
    Inverted,
}

/// XOR of the three nibbles above the checksum nibble of a 16-bit frame word.
pub open spec fn nibble_xor(word: u16) -> u16 {
    ((word >> 4u16) ^ (word >> 8u16) ^ (word >> 12u16)) & 0x0Fu16
}

/// The checksum that a frame word of the given polarity carries in its low nibble.
pub open spec fn frame_checksum(variant: DShotVariant, word: u16) -> u16 {
    match variant {
        DShotVariant::Standard => nibble_xor(word),
        DShotVariant::Inverted => (!nibble_xor(word)) & 0x0Fu16,
    }
}

/// Whether the low nibble of `word` is the checksum of its upper twelve bits.
pub open spec fn checksum_ok(variant: DShotVariant, word: u16) -> bool {
    word & 0x0Fu16 == frame_checksum(variant, word)
}

/// The frame word for an 11-bit payload and telemetry-request flag.
pub open spec fn encode_word(variant: DShotVariant, payload: u16, request_telemetry: bool) -> u16 {
    let data = (payload << 5u16) | (if request_telemetry { 0x10u16 } else { 0u16 });
    data | frame_checksum(variant, data)
}

pub open spec fn payload_of(word: u16) -> u16 {
    word >> 5u16
}

pub open spec fn telemetry_bit_of(word: u16) -> bool {
    word & 0x10u16 != 0
}

/// The throttle (0..=1999) that a frame word carries, or `None` for a command.
pub open spec fn throttle_of(word: u16) -> Option<u16> {
    if payload_of(word) >= 48 {
        Some((payload_of(word) - 48) as u16)
    } else {
        None
    }
}

/// Computes the checksum nibble of a frame word for the given polarity.
pub fn compute_crc(variant: DShotVariant, value: u16) -> (r: u8)
    ensures
        r as u16 == frame_checksum(variant, value),
        r < 16,
{
    let x = (value >> 4u16) ^ (value >> 8u16) ^ (value >> 12u16);
    match variant {
        DShotVariant::Standard => {
            assert((x & 0x0Fu16) < 16) by (bit_vector);
            (x & 0x0F) as u8
        },
        DShotVariant::Inverted => {
            assert((!x & 0x0Fu16) < 16) by (bit_vector);
            assert((!(x & 0x0Fu16)) & 0x0Fu16 == !x & 0x0Fu16) by (bit_vector);
            ((!x) & 0x0F) as u8
        },
    }
}

/// Whether the low nibble of a received frame word matches its checksum.
pub fn checksum_matches(variant: DShotVariant, word: u16) -> (r: bool)
    ensures
        r == checksum_ok(variant, word),
{
    compute_crc(variant, word) as u16 == word & 0x0F
}

/// Standard-polarity protocol marker, carrying the link speed.
#[derive(Debug, Clone, Copy, PartialEq, Eq, Structural)]
pub struct StandardDShotVariant {
    inner: DShotSpeed,
}

impl StandardDShotVariant {
    pub closed spec fn link_speed(self) -> DShotSpeed {
        self.inner
    }

    pub fn new(speed: DShotSpeed) -> (r: Self)
        ensures
            r.link_speed() == speed,
    {
        StandardDShotVariant { inner: speed }
    }

    /// Standard checksum of a frame word.
    pub fn compute_crc(value: u16) -> (r: u8)
        ensures
            r as u16 == frame_checksum(DShotVariant::Standard, value),
    {
        compute_crc(DShotVariant::Standard, value)
    }

    pub fn inner(&self) -> (r: DShotSpeed)
        ensures
            r == self.link_speed(),
    {
        self.inner
    }
}

/// Inverted-polarity protocol marker, carrying the link speed.
#[derive(Debug, Clone, Copy, PartialEq, Eq, Structural)]
pub struct InvertedDShotVariant {
    inner: DShotSpeed,
}

impl InvertedDShotVariant {
    pub closed spec fn link_speed(self) -> DShotSpeed {
        self.inner
    }

    pub fn new(speed: DShotSpeed) -> (r: Self)
        ensures
            r.link_speed() == speed,
    {
        InvertedDShotVariant { inner: speed }
    }

    /// Inverted checksum of a frame word.
    pub fn compute_crc(value: u16) -> (r: u8)
        ensures
            r as u16 == frame_checksum(DShotVariant::Inverted, value),
    {
        compute_crc(DShotVariant::Inverted, value)
    }

    pub fn inner(&self) -> (r: DShotSpeed)
        ensures
            r == self.link_speed(),
    {
        self.inner
    }
}

/// A 16-bit DShot frame: 11-bit payload, telemetry-request bit, 4-bit checksum.
#[derive(Debug, Clone, Copy, PartialEq, Eq, Structural)]
pub struct Frame {
    inner: u16,
    variant: DShotVariant,
}

impl Frame {
    pub closed spec fn word(self) -> u16 {
        self.inner
    }

    pub closed spec fn polarity(self) -> DShotVariant {
        self.variant
    }

    /// Encodes a throttle (0..=1999); `None` when the throttle is out of range.
    pub fn from_throttle(throttle: u16, request_telemetry: bool, variant: DShotVariant) -> (r: Option<Self>)
        ensures
            r.is_some() <==> throttle < 2000,
            r matches Some(f) ==> f.word() == encode_word(variant, (throttle + 48) as u16, request_telemetry)
                && f.polarity() == variant,
    {
        if throttle >= 2000 {
            return None;
        }
        Some(Self::construct_frame(throttle + 48, request_telemetry, variant))
    }

    /// Encodes a command.
    pub fn from_command(command: Command, request_telemetry: bool, variant: DShotVariant) -> (r: Self)
        ensures
            r.word() == encode_word(variant, command.spec_code() as u16, request_telemetry),
            r.polarity() == variant,
    {
        Self::construct_frame(command.code() as u16, request_telemetry, variant)
    }

    fn construct_frame(payload: u16, request_telemetry: bool, variant: DShotVariant) -> (r: Self)
        requires
            payload < 2048,
        ensures
            r.word() == encode_word(variant, payload, request_telemetry),
            r.polarity() == variant,
    {
        let telemetry_bit: u16 = if request_telemetry { 0x10 } else { 0 };
        let data: u16 = (payload << 5u16) | telemetry_bit;
        let crc = compute_crc(variant, data);
        Frame { inner: data | crc as u16, variant }
    }

    /// The throttle carried by the frame, or `None` for a command frame.
    pub fn speed(&self) -> (r: Option<u16>)
        ensures
            r == throttle_of(self.word()),
    {
        (self.inner >> 5u16).checked_sub(48)
    }

    /// Whether the frame asks the ESC for telemetry.
    pub fn telemetry_enabled(&self) -> (r: bool)
        ensures
            r == telemetry_bit_of(self.word()),
    {
        (self.inner & 0x10) != 0
    }

    /// The checksum nibble.
    pub fn crc(&self) -> (r: u16)
        ensures
            r == self.word() & 0x0Fu16,
    {
        self.inner & 0x0F
    }

    /// The raw 16-bit frame word.
    pub fn inner(&self) -> (r: u16)
        ensures
            r == self.word(),
    {
        self.inner
    }

    /// Whether the frame's checksum nibble matches its upper twelve bits.
    pub fn checksum_valid(&self) -> (r: bool)
        ensures
            r == checksum_ok(self.polarity(), self.word()),
    {
        checksum_matches(self.variant, self.inner)
    }
}

} // verus!

verus! {

/// ESC commands, which occupy payload values 0..=47 (15..=19 and 36..=41 are unassigned).
#[derive(Debug, Clone, Copy, PartialEq, Eq, Structural)]
pub enum Command {
    MotorStop,
    /// Wait at least 260ms before next command.
    Beep1,
    Beep2,
    Beep3,
    Beep4,
    Beep5,
    /// Wait at least 12ms before next command.
    ESCInfo,
    SpinDirection1,
    SpinDirection2,
    ThreeDModeOn,
    ThreeDModeOff,
    SettingsRequest,
    /// Needs 6 transmissions. Wait at least 35ms before next command.
    SettingsSave,
    ExtendedTelemetryEnable,
    ExtendedTelemetryDisable,
    SpinDirectionNormal,
    SpinDirectonReversed,
    Led0On,
    Led1On,
    Led2On,
    Led3On,
    Led0Off,
    Led1Off,
    Led2Off,
    Led3Off,
    AudioStreamModeToggle,
    SilentModeToggle,
    SignalLineTelemetryEnable,
    SignalLineTelemetryDisable,
    SignalLineContinuousERPMTelemetry,
    SignalLineContinuousERPMPeriodTelemetry,
    /// 1 degree C per LSB.
    SignalLineTemperatureTelemetry,
    /// 10mV per LSB, 40.95V max.
    SignalLineVoltageTelemetry,
    /// 100mA per LSB, 409.5A max.
    SignalLineCurrentTelemetry,
    /// 10mAh per LSB, 40.95Ah max.
    SignalLineConsumptionTelemetry,
    /// 100erpm per LSB, 409500erpm max.
    SignalLineERPMTelemetry,
    /// 16us per LSB, 65520us max.
    SignalLineERPMPeriodTelemetry,
}

impl Command {
    /// The payload value of the command.
    pub open spec fn spec_code(self) -> u8 {
        match self {
            Command::MotorStop => 0,
            Command::Beep1 => 1,
            Command::Beep2 => 2,
            Command::Beep3 => 3,
            Command::Beep4 => 4,
            Command::Beep5 => 5,
            Command::ESCInfo => 6,
            Command::SpinDirection1 => 7,
            Command::SpinDirection2 => 8,
            Command::ThreeDModeOn => 9,
            Command::ThreeDModeOff => 10,
            Command::SettingsRequest => 11,
            Command::SettingsSave => 12,
            Command::ExtendedTelemetryEnable => 13,
            Command::ExtendedTelemetryDisable => 14,
            Command::SpinDirectionNormal => 20,
            Command::SpinDirectonReversed => 21,
            Command::Led0On => 22,
            Command::Led1On => 23,
            Command::Led2On => 24,
            Command::Led3On => 25,
            Command::Led0Off => 26,
            Command::Led1Off => 27,
            Command::Led2Off => 28,
            Command::Led3Off => 29,
            Command::AudioStreamModeToggle => 30,
            Command::SilentModeToggle => 31,
            Command::SignalLineTelemetryEnable => 32,
            Command::SignalLineTelemetryDisable => 33,
            Command::SignalLineContinuousERPMTelemetry => 34,
            Command::SignalLineContinuousERPMPeriodTelemetry => 35,
            Command::SignalLineTemperatureTelemetry => 42,
            Command::SignalLineVoltageTelemetry => 43,
            Command::SignalLineCurrentTelemetry => 44,
            Command::SignalLineConsumptionTelemetry => 45,
            Command::SignalLineERPMTelemetry => 46,
            Command::SignalLineERPMPeriodTelemetry => 47,
        }
    }

    /// Whether a payload value is assigned to a command.
    pub open spec fn is_code(code: u8) -> bool {
        code <= 14 || (20 <= code <= 35) || (42 <= code <= 47)
    }

    /// The payload value of the command.
    pub fn code(&self) -> (r: u8)
        ensures
            r == self.spec_code(),
            Self::is_code(r),
    {
        match self {
            Command::MotorStop => 0,
            Command::Beep1 => 1,
            Command::Beep2 => 2,
            Command::Beep3 => 3,
            Command::Beep4 => 4,
            Command::Beep5 => 5,
            Command::ESCInfo => 6,
            Command::SpinDirection1 => 7,
            Command::SpinDirection2 => 8,
            Command::ThreeDModeOn => 9,
            Command::ThreeDModeOff => 10,
            Command::SettingsRequest => 11,
            Command::SettingsSave => 12,
            Command::ExtendedTelemetryEnable => 13,
            Command::ExtendedTelemetryDisable => 14,
            Command::SpinDirectionNormal => 20,
            Command::SpinDirectonReversed => 21,
            Command::Led0On => 22,
            Command::Led1On => 23,
            Command::Led2On => 24,
            Command::Led3On => 25,
            Command::Led0Off => 26,
            Command::Led1Off => 27,
            Command::Led2Off => 28,
            Command::Led3Off => 29,
            Command::AudioStreamModeToggle => 30,
            Command::SilentModeToggle => 31,
            Command::SignalLineTelemetryEnable => 32,
            Command::SignalLineTelemetryDisable => 33,
            Command::SignalLineContinuousERPMTelemetry => 34,
            Command::SignalLineContinuousERPMPeriodTelemetry => 35,
            Command::SignalLineTemperatureTelemetry => 42,
            Command::SignalLineVoltageTelemetry => 43,
            Command::SignalLineCurrentTelemetry => 44,
            Command::SignalLineConsumptionTelemetry => 45,
            Command::SignalLineERPMTelemetry => 46,
            Command::SignalLineERPMPeriodTelemetry => 47,
        }
    }

    /// The command with the given payload value, if one is assigned.
    pub fn from_code(code: u8) -> (r: Option<Command>)
        ensures
            r.is_some() <==> Self::is_code(code),
            r matches Some(c) ==> c.spec_code() == code,
    {
        match code {
            0 => Some(Command::MotorStop),
            1 => Some(Command::Beep1),
            2 => Some(Command::Beep2),
            3 => Some(Command::Beep3),
            4 => Some(Command::Beep4),
            5 => Some(Command::Beep5),
            6 => Some(Command::ESCInfo),
            7 => Some(Command::SpinDirection1),
            8 => Some(Command::SpinDirection2),
            9 => Some(Command::ThreeDModeOn),
            10 => Some(Command::ThreeDModeOff),
            11 => Some(Command::SettingsRequest),
            12 => Some(Command::SettingsSave),
            13 => Some(Command::ExtendedTelemetryEnable),
            14 => Some(Command::ExtendedTelemetryDisable),
            20 => Some(Command::SpinDirectionNormal),
            21 => Some(Command::SpinDirectonReversed),
            22 => Some(Command::Led0On),
            23 => Some(Command::Led1On),
            24 => Some(Command::Led2On),
            25 => Some(Command::Led3On),
            26 => Some(Command::Led0Off),
            27 => Some(Command::Led1Off),
            28 => Some(Command::Led2Off),
            29 => Some(Command::Led3Off),
            30 => Some(Command::AudioStreamModeToggle),
            31 => Some(Command::SilentModeToggle),
            32 => Some(Command::SignalLineTelemetryEnable),
            33 => Some(Command::SignalLineTelemetryDisable),
            34 => Some(Command::SignalLineContinuousERPMTelemetry),
            35 => Some(Command::SignalLineContinuousERPMPeriodTelemetry),
            42 => Some(Command::SignalLineTemperatureTelemetry),
            43 => Some(Command::SignalLineVoltageTelemetry),
            44 => Some(Command::SignalLineCurrentTelemetry),
            45 => Some(Command::SignalLineConsumptionTelemetry),
            46 => Some(Command::SignalLineERPMTelemetry),
            47 => Some(Command::SignalLineERPMPeriodTelemetry),
            _ => None,
        }
    }
}

} // verus!

verus! {

proof fn lemma_encode_fields(variant: DShotVariant, payload: u16, request_telemetry: bool)
    requires
        payload < 2048,
    ensures
        payload_of(encode_word(variant, payload, request_telemetry)) == payload,
        telemetry_bit_of(encode_word(variant, payload, request_telemetry)) == request_telemetry,
        checksum_ok(variant, encode_word(variant, payload, request_telemetry)),
{
    let t: u16 = if request_telemetry { 0x10u16 } else { 0u16 };
    let data = (payload << 5u16) | t;
    assert(t == 0x10u16 || t == 0u16);
    assert(request_telemetry <==> t == 0x10u16);
    assert(((data >> 4u16) ^ (data >> 8u16) ^ (data >> 12u16)) & 0x0Fu16 == nibble_xor(data));
    let c = frame_checksum(variant, data);
    assert(c < 16) by {
        let x = nibble_xor(data);
        assert(x & 0x0Fu16 < 16) by (bit_vector);
        assert(nibble_xor(data) < 16) by (bit_vector);
        assert((!x) & 0x0Fu16 < 16) by (bit_vector);
    }
    let w = data | c;
    assert(w >> 5u16 == payload && (w & 0x10u16 != 0) == (t == 0x10u16)) by (bit_vector)
        requires
            payload < 2048,
            t == 0x10u16 || t == 0u16,
            data == (payload << 5u16) | t,
            c < 16,
            w == data | c,
    ;
    assert(w & 0x0Fu16 == c && nibble_xor(w) == nibble_xor(data)) by (bit_vector)
        requires
            payload < 2048,
            t == 0x10u16 || t == 0u16,
            data == (payload << 5u16) | t,
            c < 16,
            w == data | c,
    ;
}

/// A throttle frame decodes to the throttle and telemetry flag it was built from,
/// and its checksum validates.
pub proof fn lemma_throttle_round_trip(throttle: u16, request_telemetry: bool, variant: DShotVariant)
    requires
        throttle < 2000,
    ensures
        throttle_of(encode_word(variant, (throttle + 48) as u16, request_telemetry)) == Some(throttle),
        telemetry_bit_of(encode_word(variant, (throttle + 48) as u16, request_telemetry)) == request_telemetry,
        checksum_ok(variant, encode_word(variant, (throttle + 48) as u16, request_telemetry)),
{
    lemma_encode_fields(variant, (throttle + 48) as u16, request_telemetry);
}

/// A command frame carries the command's code and telemetry flag, and its checksum
/// validates.
pub proof fn lemma_command_checksum(command: Command, request_telemetry: bool, variant: DShotVariant)
    ensures
        payload_of(encode_word(variant, command.spec_code() as u16, request_telemetry)) == command.spec_code() as u16,
        telemetry_bit_of(encode_word(variant, command.spec_code() as u16, request_telemetry)) == request_telemetry,
        checksum_ok(variant, encode_word(variant, command.spec_code() as u16, request_telemetry)),
        throttle_of(encode_word(variant, command.spec_code() as u16, request_telemetry)) is None,
{
    lemma_encode_fields(variant, command.spec_code() as u16, request_telemetry);
}

} // verus!
