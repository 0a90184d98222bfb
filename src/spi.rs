//! Clock divisors of the host link's serial peripheral: the output rate is the
//! peripheral clock divided by an even prescale (2..=254) and a post-divider.
use vstd::prelude::*;

verus! {

/// Whether prescale `p` brings the peripheral clock under the post-divider's range
/// for `baud_rate` (the bound saturates at `u32::MAX`).
pub open spec fn prescale_fits(peri_frequency_hz: u32, baud_rate: u32, p: int) -> bool {
    let bound = (p + 2) * 256 * baud_rate;
    peri_frequency_hz < (if bound > u32::MAX { u32::MAX as int } else { bound })
}

/// Whether post-divider `d` keeps the rate above `baud_rate`.
pub open spec fn postdiv_above(peri_frequency_hz: u32, baud_rate: u32, prescale: int, d: int) -> bool {
    peri_frequency_hz as int / (prescale * d) > baud_rate
}

/// The divisors chosen for a peripheral clock and a baud rate.
#[derive(Debug, Clone, Copy, PartialEq, Eq, Structural)]
pub struct SpiDivisors {
    /// Smallest even prescale in 2..=254 that fits; 255 when none does.
    pub prescale: u8,
    /// Largest post-divider in 1..=255 that keeps the rate above the baud rate; 0
    /// when none does.
    pub postdiv: u8,
    /// The rate obtained: the clock divided by prescale times (1 + postdiv).
    pub achieved_hz: u32,
}

/// Chooses the divisors for `baud_rate` from a peripheral clock of
/// `peri_frequency_hz`.
pub fn spi_divisors(peri_frequency_hz: u32, baud_rate: u32) -> (r: SpiDivisors)
    ensures
        r.prescale == 255 ==> forall|p: int|
            2 <= p <= 254 && p % 2 == 0 ==> !prescale_fits(peri_frequency_hz, baud_rate, p),
        r.prescale != 255 ==> {
            &&& 2 <= r.prescale <= 254
            &&& r.prescale % 2 == 0
            &&& prescale_fits(peri_frequency_hz, baud_rate, r.prescale as int)
            &&& forall|p: int|
                2 <= p < r.prescale && p % 2 == 0 ==> !prescale_fits(peri_frequency_hz, baud_rate, p)
        },
        r.postdiv == 0 ==> forall|d: int|
            1 <= d <= 255 ==> !postdiv_above(peri_frequency_hz, baud_rate, r.prescale as int, d),
        r.postdiv != 0 ==> {
            &&& postdiv_above(peri_frequency_hz, baud_rate, r.prescale as int, r.postdiv as int)
            &&& forall|d: int|
                r.postdiv < d <= 255 ==> !postdiv_above(peri_frequency_hz, baud_rate, r.prescale as int, d)
        },
        r.achieved_hz == peri_frequency_hz as int / (r.prescale as int * (1 + r.postdiv as int)),
{
    let mut prescale: u8 = 255;
    let mut p: u32 = 2;
    let mut found = false;
    while !found && p <= 254
        invariant
            2 <= p <= 256,
            p % 2 == 0,
            found ==> 2 <= prescale <= 254 && prescale % 2 == 0 && prescale_fits(
                peri_frequency_hz,
                baud_rate,
                prescale as int,
            ),
            !found ==> prescale == 255,
            forall|q: int|
                2 <= q < (if found { prescale as int } else { p as int }) && q % 2 == 0 ==> !prescale_fits(
                    peri_frequency_hz,
                    baud_rate,
                    q,
                ),
        decreases 256 - p + (if found { 0int } else { 1int }),
    {
        assert((p + 2) * 256 * baud_rate <= 258 * 256 * 0xFFFF_FFFF) by (nonlinear_arith)
            requires
                p <= 256,
                baud_rate <= 0xFFFF_FFFF,
        ;
        let product = (p as u64 + 2) * 256 * baud_rate as u64;
        let bound: u64 = if product > u32::MAX as u64 { u32::MAX as u64 } else { product };
        if (peri_frequency_hz as u64) < bound {
            prescale = p as u8;
            found = true;
        } else {
            p = p + 2;
        }
    }
    let mut postdiv: u8 = 0;
    let mut d: u32 = 255;
    let mut done = false;
    while !done && d >= 1
        invariant
            d <= 255,
            done ==> 1 <= postdiv <= 255 && postdiv_above(
                peri_frequency_hz,
                baud_rate,
                prescale as int,
                postdiv as int,
            ),
            !done ==> postdiv == 0,
            2 <= prescale <= 255,
            forall|e: int|
                (if done { postdiv as int } else { d as int }) < e <= 255 ==> !postdiv_above(
                    peri_frequency_hz,
                    baud_rate,
                    prescale as int,
                    e,
                ),
        decreases d + (if done { 0int } else { 1int }),
    {
        assert(1 <= prescale as u32 * d <= 255 * 255) by (nonlinear_arith)
            requires
                2 <= prescale <= 255,
                1 <= d <= 255,
        ;
        let divisor = prescale as u32 * d;
        if peri_frequency_hz / divisor > baud_rate {
            postdiv = d as u8;
            done = true;
        } else {
            d = d - 1;
        }
    }
    assert(1 <= prescale as u32 * (1 + postdiv as u32) <= 255 * 256) by (nonlinear_arith)
        requires
            2 <= prescale <= 255,
            postdiv <= 255,
    ;
    let achieved_hz = peri_frequency_hz / (prescale as u32 * (1 + postdiv as u32));
    SpiDivisors { prescale, postdiv, achieved_hz }
}

} // verus!
