//! Bidirectional telemetry: run-length (GCR) decoding and eRPM frames.
use vstd::prelude::*;
use crate::encoder::{checksum_ok, DShotVariant, checksum_matches};

verus! {

/// The nibble that a 5-bit GCR symbol stands for; `None` for the reserved symbols.
pub open spec fn gcr_nibble(symbol: u32) -> Option<u16> {
    match symbol {
        9 => Some(9u16),
        10 => Some(10u16),
        11 => Some(11u16),
        13 => Some(13u16),
        14 => Some(14u16),
        15 => Some(15u16),
        18 => Some(2u16),
        19 => Some(3u16),
        21 => Some(5u16),
        22 => Some(6u16),
        23 => Some(7u16),
        25 => Some(0u16),
        26 => Some(8u16),
        27 => Some(1u16),
        29 => Some(4u16),
        30 => Some(12u16),
        _ => None,
    }
}

/// The 5-bit symbol of a GCR word that starts at bit `shift`.
pub open spec fn gcr_symbol(gcr: u32, shift: u32) -> u32 {
    (gcr >> shift) & 0x1Fu32
}

/// The 16-bit value of the four symbols in the low twenty bits of a GCR word, or
/// `None` when any of them is reserved.
pub open spec fn gcr_value(gcr: u32) -> Option<u16> {
    match (
        gcr_nibble(gcr_symbol(gcr, 0)),
        gcr_nibble(gcr_symbol(gcr, 5)),
        gcr_nibble(gcr_symbol(gcr, 10)),
        gcr_nibble(gcr_symbol(gcr, 15)),
    ) {
        (Some(n0), Some(n1), Some(n2), Some(n3)) => Some(
            (n0 as int + 16 * n1 as int + 256 * n2 as int + 4096 * n3 as int) as u16,
        ),
        _ => None,
    }
}

/// Undoes the line coding of a captured word: each captured bit marks a level change.
pub open spec fn deinterleave(captured: u32) -> u32 {
    captured ^ (captured >> 1u32)
}

fn gcr_lookup(symbol: u32) -> (r: Option<u16>)
    ensures
        r == gcr_nibble(symbol),
        r matches Some(n) ==> n < 16,
{
    match symbol {
        9 => Some(9),
        10 => Some(10),
        11 => Some(11),
        13 => Some(13),
        14 => Some(14),
        15 => Some(15),
        18 => Some(2),
        19 => Some(3),
        21 => Some(5),
        22 => Some(6),
        23 => Some(7),
        25 => Some(0),
        26 => Some(8),
        27 => Some(1),
        29 => Some(4),
        30 => Some(12),
        _ => None,
    }
}

/// Decodes the four GCR symbols in the low twenty bits of `gcr` into a 16-bit value.
pub fn decode_gcr(gcr: u32) -> (r: Option<u16>)
    ensures
        r == gcr_value(gcr),
{
    let n0 = match gcr_lookup((gcr >> 0u32) & 0x1F) {
        Some(n) => n,
        None => return None,
    };
    let n1 = match gcr_lookup((gcr >> 5u32) & 0x1F) {
        Some(n) => n,
        None => return None,
    };
    let n2 = match gcr_lookup((gcr >> 10u32) & 0x1F) {
        Some(n) => n,
        None => return None,
    };
    let n3 = match gcr_lookup((gcr >> 15u32) & 0x1F) {
        Some(n) => n,
        None => return None,
    };
    let value = n0 | (n1 << 4u16) | (n2 << 8u16) | (n3 << 12u16);
    assert(value == (n0 as int + 16 * n1 as int + 256 * n2 as int + 4096 * n3 as int) as u16)
        by (bit_vector)
        requires
            n0 < 16 && n1 < 16 && n2 < 16 && n3 < 16,
            value == n0 | (n1 << 4u16) | (n2 << 8u16) | (n3 << 12u16),
    ;
    Some(value)
}

/// Decodes a captured return-channel word: undo the line coding, then the GCR code.
pub fn decode_capture(captured: u32) -> (r: Option<u16>)
    ensures
        r == gcr_value(deinterleave(captured)),
{
    decode_gcr(captured ^ (captured >> 1u32))
}

} // verus!

verus! {

/// The 3-bit period exponent of an eRPM value.
pub open spec fn exponent_of(raw: u16) -> u8 {
    ((raw >> 13u16) & 0x07u16) as u8
}

/// The 9-bit period mantissa (microseconds) of an eRPM value.
pub open spec fn mantissa_of(raw: u16) -> u16 {
    (raw >> 4u16) & 0x01FFu16
}

/// The 4-bit type tag of an extended telemetry value.
pub open spec fn tag_of(raw: u16) -> u16 {
    raw >> 12u16
}

/// The 8-bit payload of an extended telemetry value.
pub open spec fn data_of(raw: u16) -> u8 {
    ((raw >> 4u16) & 0xFFu16) as u8
}

/// Motor period in microseconds, or `None` when the mantissa is 0 (motor stopped).
pub open spec fn period_us(exponent: u8, mantissa: u16) -> Option<u32> {
    if mantissa == 0 {
        None
    } else {
        Some((mantissa as u32) << (exponent as u32))
    }
}

/// RPM of a period: 60,000,000 microseconds divided by the period; 0 when stopped.
pub open spec fn rpm_of(exponent: u8, mantissa: u16) -> u32 {
    match period_us(exponent, mantissa) {
        Some(p) => (60_000_000u32 / p) as u32,
        None => 0,
    }
}

fn exponent_field(raw: u16) -> (r: u8)
    ensures
        r == exponent_of(raw),
        r < 8,
{
    assert((raw >> 13u16) & 0x07u16 < 8) by (bit_vector);
    ((raw >> 13u16) & 0x07) as u8
}

fn mantissa_field(raw: u16) -> (r: u16)
    ensures
        r == mantissa_of(raw),
        r < 512,
{
    assert((raw >> 4u16) & 0x01FFu16 < 512) by (bit_vector);
    (raw >> 4u16) & 0x01FF
}

/// Computes `mantissa << exponent`, a non-zero period, or `None` when stopped.
fn compute_period(exponent: u8, mantissa: u16) -> (r: Option<u32>)
    requires
        exponent < 8,
        mantissa < 512,
    ensures
        r == period_us(exponent, mantissa),
        r matches Some(p) ==> p > 0,
{
    if mantissa == 0 {
        return None;
    }
    let m = mantissa as u32;
    let e = exponent as u32;
    let p = m << e;
    assert(m << e >= 1 && m << e <= 65408) by (bit_vector)
        requires
            1 <= m < 512,
            e < 8,
    ;
    Some(p)
}

fn rpm_from_period(period: Option<u32>) -> (r: u32)
    requires
        period matches Some(p) ==> p > 0,
    ensures
        r == match period {
            Some(p) => (60_000_000u32 / p) as u32,
            None => 0u32,
        },
{
    match period {
        Some(p) => 60_000_000 / p,
        None => 0,
    }
}

/// A frame format of the return channel (standard or extended telemetry). Its
/// checksum is always the standard one, whatever the command link's polarity.
pub trait ERpmVarient: Sized {
    /// Decodes a GCR-decoded 16-bit value; `None` when its checksum does not match.
    fn from_raw(raw: u16) -> (r: Option<Self>)
        ensures
            r.is_some() <==> checksum_ok(DShotVariant::Standard, raw),
            r matches Some(f) ==> f.checksum() as u16 == raw & 0x0Fu16;

    /// The checksum nibble that the value carried.
    spec fn checksum(&self) -> u8;

    /// The checksum nibble.
    fn crc(&self) -> (r: u8)
        ensures
            r == self.checksum();
}

/// Checksum nibble of a return-channel value.
fn crc_from_raw(raw: u16) -> (r: u8)
    ensures
        r as u16 == raw & 0x0Fu16,
        r < 16,
{
    assert(raw & 0x0Fu16 < 16) by (bit_vector);
    (raw & 0x0F) as u8
}

/// Standard eRPM frame: 3-bit exponent, 9-bit mantissa, 4-bit checksum.
#[derive(Debug, Clone, Copy, PartialEq, Eq, Structural)]
pub struct StandardERpmFrame {
    shift: u8,
    base: u16,
    crc: u8,
}

impl StandardERpmFrame {
    pub closed spec fn spec_shift(self) -> u8 {
        self.shift
    }

    pub closed spec fn spec_base(self) -> u16 {
        self.base
    }

    pub closed spec fn spec_crc(self) -> u8 {
        self.crc
    }

    pub closed spec fn wf(self) -> bool {
        self.shift < 8 && self.base < 512 && self.crc < 16
    }

    /// The frame decoded from a raw value whose checksum matches.
    pub open spec fn decoded(self, raw: u16) -> bool {
        self.spec_shift() == exponent_of(raw) && self.spec_base() == mantissa_of(raw)
            && self.spec_crc() as u16 == raw & 0x0Fu16 && self.wf()
    }

    /// Decodes a raw value, with its fields; `None` when the checksum does not match.
    pub fn decode(raw: u16) -> (r: Option<Self>)
        ensures
            r.is_some() <==> checksum_ok(DShotVariant::Standard, raw),
            r matches Some(f) ==> f.decoded(raw),
    {
        if !checksum_matches(DShotVariant::Standard, raw) {
            return None;
        }
        Some(StandardERpmFrame { shift: exponent_field(raw), base: mantissa_field(raw), crc: crc_from_raw(raw) })
    }

    /// Motor period in microseconds; `None` when the motor is stopped (mantissa 0).
    pub fn compute_period_us(&self) -> (r: Option<u32>)
        requires
            self.wf(),
        ensures
            r == period_us(self.spec_shift(), self.spec_base()),
            r matches Some(p) ==> p > 0,
    {
        compute_period(self.shift, self.base)
    }

    /// Motor RPM; 0 when the motor is stopped.
    pub fn compute_rpm(&self) -> (r: u32)
        requires
            self.wf(),
        ensures
            r == rpm_of(self.spec_shift(), self.spec_base()),
    {
        rpm_from_period(self.compute_period_us())
    }

    /// The 3-bit period exponent.
    pub fn shift(&self) -> (r: u8)
        ensures
            r == self.spec_shift(),
    {
        self.shift
    }

    /// The 9-bit period mantissa.
    pub fn base(&self) -> (r: u16)
        ensures
            r == self.spec_base(),
    {
        self.base
    }
}

impl ERpmVarient for StandardERpmFrame {
    fn from_raw(raw: u16) -> (r: Option<Self>) {
        Self::decode(raw)
    }

    open spec fn checksum(&self) -> u8 {
        self.spec_crc()
    }

    fn crc(&self) -> (r: u8) {
        self.crc
    }
}

} // verus!

verus! {

/// What an extended telemetry value carries, selected by its type tag.
#[derive(Debug, Clone, Copy, PartialEq, Eq, Structural)]
pub enum ExtendedERpmData {
    /// Period exponent and mantissa, as in a standard frame.
    Rpm { shift: u8, base: u16 },
    /// Degrees C.
    Temperature(u8),
    /// 0.25 V per step.
    Voltage(u8),
    /// Amps.
    Current(u8),
    Debug1(u8),
    Debug2(u8),
    Debug3(u8),
    StateOrEvent(u8),
}

/// The data that an extended telemetry value carries.
pub open spec fn extended_data_of(raw: u16) -> ExtendedERpmData {
    let d = data_of(raw);
    if tag_of(raw) == 0x2 {
        ExtendedERpmData::Temperature(d)
    } else if tag_of(raw) == 0x4 {
        ExtendedERpmData::Voltage(d)
    } else if tag_of(raw) == 0x6 {
        ExtendedERpmData::Current(d)
    } else if tag_of(raw) == 0x8 {
        ExtendedERpmData::Debug1(d)
    } else if tag_of(raw) == 0xA {
        ExtendedERpmData::Debug2(d)
    } else if tag_of(raw) == 0xC {
        ExtendedERpmData::Debug3(d)
    } else if tag_of(raw) == 0xE {
        ExtendedERpmData::StateOrEvent(d)
    } else {
        ExtendedERpmData::Rpm { shift: exponent_of(raw), base: mantissa_of(raw) }
    }
}

impl ExtendedERpmData {
    pub open spec fn wf(self) -> bool {
        self matches ExtendedERpmData::Rpm { shift, base } ==> shift < 8 && base < 512
    }

    /// Splits a raw extended telemetry value by its type tag.
    pub fn from_raw(raw: u16) -> (r: Self)
        ensures
            r == extended_data_of(raw),
            r.wf(),
    {
        assert((raw >> 4u16) & 0xFFu16 < 256) by (bit_vector);
        let data = ((raw >> 4u16) & 0xFF) as u8;
        let tag = raw >> 12u16;
        if tag == 0x2 {
            ExtendedERpmData::Temperature(data)
        } else if tag == 0x4 {
            ExtendedERpmData::Voltage(data)
        } else if tag == 0x6 {
            ExtendedERpmData::Current(data)
        } else if tag == 0x8 {
            ExtendedERpmData::Debug1(data)
        } else if tag == 0xA {
            ExtendedERpmData::Debug2(data)
        } else if tag == 0xC {
            ExtendedERpmData::Debug3(data)
        } else if tag == 0xE {
            ExtendedERpmData::StateOrEvent(data)
        } else {
            ExtendedERpmData::Rpm { shift: exponent_field(raw), base: mantissa_field(raw) }
        }
    }
}

/// Why an extended frame yields no period.
#[derive(Debug, Clone, Copy, PartialEq, Eq, Structural)]
pub enum PeriodComputationResult {
    /// The value is not an RPM value.
    NotRpmPacket,
    /// The motor is stopped (mantissa 0).
    StoppedMotor,
}

/// Extended telemetry frame: typed data and a 4-bit checksum.
#[derive(Debug, Clone, Copy, PartialEq, Eq, Structural)]
pub struct ExtendedERpmFrame {
    data: ExtendedERpmData,
    crc: u8,
}

impl ExtendedERpmFrame {
    pub closed spec fn spec_data(self) -> ExtendedERpmData {
        self.data
    }

    pub closed spec fn spec_crc(self) -> u8 {
        self.crc
    }

    /// The frame decoded from a raw value whose checksum matches.
    pub open spec fn decoded(self, raw: u16) -> bool {
        self.spec_data() == extended_data_of(raw) && self.spec_crc() as u16 == raw & 0x0Fu16
    }

    pub closed spec fn wf(self) -> bool {
        self.data.wf()
    }

    /// Decodes a raw value, with its data; `None` when the checksum does not match.
    pub fn decode(raw: u16) -> (r: Option<Self>)
        ensures
            r.is_some() <==> checksum_ok(DShotVariant::Standard, raw),
            r matches Some(f) ==> f.decoded(raw) && f.wf(),
    {
        if !checksum_matches(DShotVariant::Standard, raw) {
            return None;
        }
        Some(ExtendedERpmFrame { data: ExtendedERpmData::from_raw(raw), crc: crc_from_raw(raw) })
    }

    /// Motor period in microseconds; an error for a stopped motor or a value
    /// that is not an RPM value.
    pub fn compute_period_us(&self) -> (r: Result<u32, PeriodComputationResult>)
        requires
            self.wf(),
        ensures
            match self.spec_data() {
                ExtendedERpmData::Rpm { shift, base } => match period_us(shift, base) {
                    Some(p) => r == Ok::<u32, PeriodComputationResult>(p),
                    None => r == Err::<u32, PeriodComputationResult>(PeriodComputationResult::StoppedMotor),
                },
                _ => r == Err::<u32, PeriodComputationResult>(PeriodComputationResult::NotRpmPacket),
            },
            r matches Ok(p) ==> p > 0,
    {
        match self.data {
            ExtendedERpmData::Rpm { shift, base } => match compute_period(shift, base) {
                Some(p) => Ok(p),
                None => Err(PeriodComputationResult::StoppedMotor),
            },
            _ => Err(PeriodComputationResult::NotRpmPacket),
        }
    }

    /// Motor RPM (0 when stopped); an error when the value is not an RPM value.
    pub fn compute_rpm(&self) -> (r: Result<u32, PeriodComputationResult>)
        requires
            self.wf(),
        ensures
            match self.spec_data() {
                ExtendedERpmData::Rpm { shift, base } => r == Ok::<u32, PeriodComputationResult>(
                    rpm_of(shift, base),
                ),
                _ => r == Err::<u32, PeriodComputationResult>(PeriodComputationResult::NotRpmPacket),
            },
    {
        match self.compute_period_us() {
            Ok(period) => Ok(60_000_000 / period),
            Err(PeriodComputationResult::StoppedMotor) => Ok(0),
            Err(e) => Err(e),
        }
    }

    /// The period exponent; `None` when the value is not an RPM value.
    pub fn shift(&self) -> (r: Option<u8>)
        ensures
            r == match self.spec_data() {
                ExtendedERpmData::Rpm { shift, .. } => Some(shift),
                _ => None::<u8>,
            },
    {
        match self.data {
            ExtendedERpmData::Rpm { shift, .. } => Some(shift),
            _ => None,
        }
    }

    /// The period mantissa; `None` when the value is not an RPM value.
    pub fn base(&self) -> (r: Option<u16>)
        ensures
            r == match self.spec_data() {
                ExtendedERpmData::Rpm { base, .. } => Some(base),
                _ => None::<u16>,
            },
    {
        match self.data {
            ExtendedERpmData::Rpm { base, .. } => Some(base),
            _ => None,
        }
    }

    /// The typed data.
    pub fn data(&self) -> (r: ExtendedERpmData)
        ensures
            r == self.spec_data(),
    {
        self.data
    }
}

impl ERpmVarient for ExtendedERpmFrame {
    fn from_raw(raw: u16) -> (r: Option<Self>) {
        Self::decode(raw)
    }

    open spec fn checksum(&self) -> u8 {
        self.spec_crc()
    }

    fn crc(&self) -> (r: u8) {
        self.crc
    }
}

} // verus!

verus! {

/// A word with a reserved symbol in any of its four positions decodes to nothing.
pub proof fn lemma_reserved_symbol_rejected(gcr: u32, shift: u32)
    requires
        shift == 0 || shift == 5 || shift == 10 || shift == 15,
        gcr_nibble(gcr_symbol(gcr, shift)) is None,
    ensures
        gcr_value(gcr) is None,
{
}

/// A zero mantissa means a stopped motor: no period, and 0 RPM rather than a
/// division by zero.
pub proof fn lemma_stopped_motor(exponent: u8)
    ensures
        period_us(exponent, 0) is None,
        rpm_of(exponent, 0) == 0,
{
}

} // verus!
