use stm32f4_clock::pll_calculator::{PllCalculator, PllFactors};
use stm32f4_clock::rcc_pll_config_register::RccPllConfigurationError;

#[test]
fn valid_factors_pass_validation() {
    let factors = PllFactors { m: 16, n: 336, p: 2, q: 4 };
    assert_eq!(factors.validate(), Ok(()));
}

#[test]
fn documented_example_reaches_168_megahertz() {
    let factors = PllFactors { m: 16, n: 336, p: 2, q: 4 };
    assert_eq!(
        PllCalculator::system_clock_frequency(16_000_000, &factors),
        Ok(168_000_000)
    );
}

#[test]
fn each_division_step_truncates() {
    // 10 / 3 truncates to 3 before the multiplication: 3 * 50 / 2 = 75,
    // not the 83 a rounded pre-divide would give.
    let factors = PllFactors { m: 3, n: 50, p: 2, q: 2 };
    assert_eq!(PllCalculator::system_clock_frequency(10, &factors), Ok(75));
}

#[test]
fn m_below_minimum_is_rejected() {
    let factors = PllFactors { m: 1, n: 336, p: 2, q: 4 };
    assert_eq!(
        factors.validate(),
        Err(RccPllConfigurationError::WrongPllMConfiguration(1))
    );
    assert_eq!(
        PllCalculator::system_clock_frequency(16_000_000, &factors),
        Err(RccPllConfigurationError::WrongPllMConfiguration(1))
    );
}

#[test]
fn n_above_maximum_is_rejected() {
    let factors = PllFactors { m: 16, n: 433, p: 2, q: 4 };
    assert_eq!(
        factors.validate(),
        Err(RccPllConfigurationError::WrongPllNConfiguration(433))
    );
}

#[test]
fn p_outside_enumerated_set_is_rejected() {
    let factors = PllFactors { m: 16, n: 336, p: 3, q: 4 };
    assert_eq!(
        factors.validate(),
        Err(RccPllConfigurationError::WrongPllPConfiguration(3))
    );
}

#[test]
fn q_above_maximum_is_rejected() {
    let factors = PllFactors { m: 16, n: 336, p: 2, q: 16 };
    assert_eq!(
        factors.validate(),
        Err(RccPllConfigurationError::WrongPllQConfiguration(16))
    );
}

#[test]
fn timer_clock_doubles_when_apb_divides() {
    assert_eq!(PllCalculator::timer_clock_frequency(42_000_000, 4), 84_000_000);
    assert_eq!(PllCalculator::timer_clock_frequency(84_000_000, 2), 168_000_000);
}

#[test]
fn timer_clock_equals_peripheral_clock_without_division() {
    assert_eq!(PllCalculator::timer_clock_frequency(16_000_000, 1), 16_000_000);
}

#[test]
fn prescaler_division_truncates() {
    assert_eq!(PllCalculator::divided_clock_frequency(168_000_000, 4), 42_000_000);
    assert_eq!(PllCalculator::divided_clock_frequency(5, 2), 2);
}
