use stm32f4_clock::clock_frequency::{Hertz, KiloHertz, MegaHertz};

#[test]
fn megahertz_from_hertz_truncates() {
    assert_eq!(MegaHertz::from(16_000_000u32), MegaHertz(16));
    assert_eq!(MegaHertz::from(16_999_999u32), MegaHertz(16));
    assert_eq!(MegaHertz::from(999_999u32), MegaHertz(0));
}

#[test]
fn kilohertz_from_hertz_truncates() {
    assert_eq!(KiloHertz::from(999u32), KiloHertz(0));
    assert_eq!(KiloHertz::from(1_000u32), KiloHertz(1));
    assert_eq!(KiloHertz::from(1_999u32), KiloHertz(1));
}

#[test]
fn hertz_from_raw_value_is_exact() {
    assert_eq!(Hertz::from(123_456u32), Hertz(123_456));
}

#[test]
fn widening_conversions_are_exact() {
    assert_eq!(KiloHertz(5).to_hertz(), Hertz(5_000));
    assert_eq!(MegaHertz(16).to_hertz(), Hertz(16_000_000));
    assert_eq!(MegaHertz(3).to_kilohertz(), KiloHertz(3_000));
}
