use rp2040_dshot::spi::spi_divisors;

#[test]
fn divisors_for_one_megabaud() {
    let d = spi_divisors(125_000_000, 1_000_000);
    assert_eq!(d.prescale, 2);
    assert_eq!(d.postdiv, 62);
    assert_eq!(d.achieved_hz, 125_000_000 / (2 * 63));
}

#[test]
fn divisors_when_nothing_fits() {
    // A clock far above what the largest prescale can bring into range.
    let d = spi_divisors(u32::MAX, 1);
    assert_eq!(d.prescale, 255);
    assert_eq!(d.postdiv, 255);
    assert_eq!(d.achieved_hz, u32::MAX / (255 * 256));
}
