//! Serial telemetry frames: ten bytes protected by CRC-8 (polynomial 0x07).
use vstd::prelude::*;

verus! {

/// One shift of the CRC-8 register, MSB first, polynomial 0x07.
pub open spec fn crc8_shift(c: u8) -> u8 {
    if c & 0x80u8 != 0 {
        ((c << 1u8) ^ 0x07u8) as u8
    } else {
        (c << 1u8) as u8
    }
}

/// `n` shifts of the CRC-8 register.
pub open spec fn crc8_shifts(c: u8, n: nat) -> u8
    decreases n,
{
    if n == 0 {
        c
    } else {
        crc8_shift(crc8_shifts(c, (n - 1) as nat))
    }
}

/// The eight shifts that absorb one byte.
pub open spec fn crc8_round(c: u8) -> u8 {
    crc8_shift(crc8_shift(crc8_shift(crc8_shift(crc8_shift(crc8_shift(crc8_shift(crc8_shift(c))))))))
}

/// CRC-8 (polynomial 0x07, initial value 0, no reflection) of a byte sequence.
pub open spec fn crc8(s: Seq<u8>) -> u8
    decreases s.len(),
{
    if s.len() == 0 {
        0
    } else {
        crc8_round(crc8(s.drop_last()) ^ s.last())
    }
}

/// Little-endian 16-bit value of two bytes.
pub open spec fn le16(lo: u8, hi: u8) -> u16 {
    (lo as int + 256 * hi as int) as u16
}

proof fn lemma_shifts_round(c: u8)
    ensures
        crc8_shifts(c, 8) == crc8_round(c),
{
    reveal_with_fuel(crc8_shifts, 9);
}

/// A decoded serial telemetry frame.
#[derive(Debug, Clone, Copy, PartialEq, Eq, Structural)]
pub struct TelemetryFrame {
    /// Degrees C.
    pub temp: u8,
    /// Centivolts.
    pub voltage: u16,
    /// Centiamps.
    pub current: u16,
    /// mAh.
    pub consumption: u16,
    /// Electrical RPM / 100.
    pub e_rpm: u16,
    /// Checksum byte.
    pub crc: u8,
}

/// Whether the tenth byte of a ten-byte frame is the CRC-8 of the first nine.
pub open spec fn telemetry_valid(s: Seq<u8>) -> bool {
    s.len() == 10 && s[9] == crc8(s.subrange(0, 9))
}

/// The fields that a ten-byte frame holds.
pub open spec fn telemetry_fields(s: Seq<u8>) -> TelemetryFrame {
    TelemetryFrame {
        temp: s[0],
        voltage: le16(s[1], s[2]),
        current: le16(s[3], s[4]),
        consumption: le16(s[5], s[6]),
        e_rpm: le16(s[7], s[8]),
        crc: s[9],
    }
}

fn read_le16(lo: u8, hi: u8) -> (r: u16)
    ensures
        r == le16(lo, hi),
{
    let r = (lo as u16) | ((hi as u16) << 8u16);
    assert(r == (lo as int + 256 * hi as int) as u16) by (bit_vector)
        requires
            r == (lo as u16) | ((hi as u16) << 8u16),
    ;
    r
}

fn crc8_absorb(crc: u8, byte: u8) -> (r: u8)
    ensures
        r == crc8_round(crc ^ byte),
{
    let ghost start = crc ^ byte;
    let mut c: u8 = crc ^ byte;
    let mut j: u8 = 0;
    while j < 8
        invariant
            j <= 8,
            c == crc8_shifts(start, j as nat),
        decreases 8 - j,
    {
        if c & 0x80 != 0 {
            c = (c << 1u8) ^ 0x07;
        } else {
            c = c << 1u8;
        }
        j = j + 1;
    }
    proof {
        lemma_shifts_round(start);
    }
    c
}

fn crc8_prefix(data: &[u8], n: usize) -> (r: u8)
    requires
        n <= data@.len(),
    ensures
        r == crc8(data@.subrange(0, n as int)),
{
    let mut crc: u8 = 0;
    let mut i: usize = 0;
    while i < n
        invariant
            i <= n,
            n <= data@.len(),
            crc == crc8(data@.subrange(0, i as int)),
        decreases n - i,
    {
        proof {
            let next = data@.subrange(0, i + 1);
            assert(next.drop_last() =~= data@.subrange(0, i as int));
        }
        crc = crc8_absorb(crc, data[i]);
        i = i + 1;
    }
    crc
}

impl TelemetryFrame {
    /// Decodes a ten-byte frame; `None` when the checksum byte does not match.
    pub fn from_bytes(data: &[u8; 10]) -> (r: Option<Self>)
        ensures
            r.is_some() <==> telemetry_valid(data@),
            r matches Some(f) ==> f == telemetry_fields(data@),
    {
        let crc = crc8_prefix(data, 9);
        if crc != data[9] {
            return None;
        }
        Some(TelemetryFrame {
            temp: data[0],
            voltage: read_le16(data[1], data[2]),
            current: read_le16(data[3], data[4]),
            consumption: read_le16(data[5], data[6]),
            e_rpm: read_le16(data[7], data[8]),
            crc: data[9],
        })
    }

    /// CRC-8 (polynomial 0x07, initial value 0) of a byte slice.
    pub fn compute_crc(data: &[u8]) -> (r: u8)
        ensures
            r == crc8(data@),
    {
        proof {
            assert(data@.subrange(0, data@.len() as int) =~= data@);
        }
        crc8_prefix(data, data.len())
    }
}

} // verus!

verus! {

proof fn lemma_round_injective(x: u8, y: u8)
    requires
        x != y,
    ensures
        crc8_round(x) != crc8_round(y),
{
    assert(x != y ==> crc8_round(x) != crc8_round(y)) by (bit_vector);
}

proof fn lemma_crc8_detects(a: Seq<u8>, b: Seq<u8>, i: int)
    requires
        a.len() == b.len(),
        0 <= i < a.len(),
        a[i] != b[i],
        forall|k: int| 0 <= k < a.len() && k != i ==> a[k] == b[k],
    ensures
        crc8(a) != crc8(b),
    decreases a.len(),
{
    let n = a.len() - 1;
    if i == n {
        assert(a.drop_last() =~= b.drop_last());
        let c = crc8(a.drop_last());
        let (p, q) = (a.last(), b.last());
        assert(c ^ p != c ^ q) by (bit_vector)
            requires
                p != q,
        ;
        lemma_round_injective(c ^ p, c ^ q);
    } else {
        lemma_crc8_detects(a.drop_last(), b.drop_last(), i);
        let ca = crc8(a.drop_last());
        let cb = crc8(b.drop_last());
        let l = a.last();
        assert(b.last() == l);
        assert(ca ^ l != cb ^ l) by (bit_vector)
            requires
                ca != cb,
        ;
        lemma_round_injective(ca ^ l, cb ^ l);
    }
}

/// Appending the CRC-8 of nine bytes gives a frame that decodes to exactly those
/// bytes' fields.
pub proof fn lemma_telemetry_round_trip(body: Seq<u8>)
    requires
        body.len() == 9,
    ensures
        telemetry_valid(body.push(crc8(body))),
        telemetry_fields(body.push(crc8(body))).temp == body[0],
        telemetry_fields(body.push(crc8(body))).voltage == le16(body[1], body[2]),
        telemetry_fields(body.push(crc8(body))).current == le16(body[3], body[4]),
        telemetry_fields(body.push(crc8(body))).consumption == le16(body[5], body[6]),
        telemetry_fields(body.push(crc8(body))).e_rpm == le16(body[7], body[8]),
{
    assert(body.push(crc8(body)).subrange(0, 9) =~= body);
}

/// Changing any bits of any one byte of a valid frame, without recomputing the
/// checksum, makes the frame invalid.
pub proof fn lemma_telemetry_corruption_detected(frame: Seq<u8>, i: int, mask: u8)
    requires
        telemetry_valid(frame),
        0 <= i < 10,
        mask != 0,
    ensures
        !telemetry_valid(frame.update(i, frame[i] ^ mask)),
{
    let bad = frame.update(i, frame[i] ^ mask);
    let x = frame[i];
    assert(x ^ mask != x) by (bit_vector)
        requires
            mask != 0,
    ;
    if i == 9 {
        assert(bad.subrange(0, 9) =~= frame.subrange(0, 9));
    } else {
        lemma_crc8_detects(frame.subrange(0, 9), bad.subrange(0, 9), i);
    }
}

} // verus!
