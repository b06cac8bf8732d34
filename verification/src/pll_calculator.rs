//! PLL calculator: pure frequency arithmetic and factor validation.
//!
//! The PLL multiplies a base oscillator frequency into the system clock:
//! `vco = base / m * n`, `system_clock = vco / p`, and the bus clocks
//! follow by prescaler division, every division truncating toward zero.
//! Each factor has a hardware-mandated range; a factor outside its range
//! is a configuration error naming the factor and its value, never a
//! silently clamped value.

use vstd::prelude::*;
use crate::rcc_pll_config_register::RccPllConfigurationError;

verus! {

/// The PLL input pre-divider M must lie in 2..=63.
pub open spec fn spec_valid_pll_m(m: u32) -> bool {
    2 <= m && m <= 63
}

/// The PLL multiplier N must lie in 50..=432.
pub open spec fn spec_valid_pll_n(n: u32) -> bool {
    50 <= n && n <= 432
}

/// The PLL system post-divider P must be one of 2, 4, 6, 8.
pub open spec fn spec_valid_pll_p(p: u32) -> bool {
    p == 2 || p == 4 || p == 6 || p == 8
}

/// The PLL auxiliary post-divider Q must lie in 2..=15.
pub open spec fn spec_valid_pll_q(q: u32) -> bool {
    2 <= q && q <= 15
}

/// The voltage-controlled oscillator frequency: the base frequency
/// pre-divided by M (truncating) and multiplied by N.
pub open spec fn spec_vco_frequency(base_frequency: int, m: int, n: int) -> int {
    base_frequency / m * n
}

/// The system clock: the VCO frequency post-divided by P (truncating).
pub open spec fn spec_system_clock_frequency(base_frequency: int, m: int, n: int, p: int) -> int {
    spec_vco_frequency(base_frequency, m, n) / p
}

/// A clock derived from another through a prescaler: truncating division.
pub open spec fn spec_divided_clock_frequency(clock: int, divisor: int) -> int {
    clock / divisor
}

/// The timer clock of an APB bus: the bus's peripheral clock, doubled
/// whenever the APB prescaler divides by more than one.
pub open spec fn spec_timer_clock_frequency(peripheral_clock: int, apb_divisor: int) -> int {
    if apb_divisor == 1 {
        peripheral_clock
    } else {
        2 * peripheral_clock
    }
}

/// The four PLL factors M, N, P, Q.
#[derive(Clone, Copy, Debug, PartialEq, Eq, Structural)]
pub struct PllFactors {
    pub m: u32,
    pub n: u32,
    pub p: u32,
    pub q: u32,
}

impl PllFactors {
    /// All four factors lie in their hardware-mandated ranges.
    pub open spec fn valid(self) -> bool {
        spec_valid_pll_m(self.m) && spec_valid_pll_n(self.n) && spec_valid_pll_p(self.p)
            && spec_valid_pll_q(self.q)
    }

    /// The validation result: the first factor out of its range, in the
    /// order M, N, P, Q, together with the offending value.
    pub open spec fn spec_validation(self) -> Result<(), RccPllConfigurationError> {
        if !spec_valid_pll_m(self.m) {
            Err(RccPllConfigurationError::WrongPllMConfiguration(self.m as u16))
        } else if !spec_valid_pll_n(self.n) {
            Err(RccPllConfigurationError::WrongPllNConfiguration(self.n as u16))
        } else if !spec_valid_pll_p(self.p) {
            Err(RccPllConfigurationError::WrongPllPConfiguration(self.p as u16))
        } else if !spec_valid_pll_q(self.q) {
            Err(RccPllConfigurationError::WrongPllQConfiguration(self.q as u16))
        } else {
            Ok(())
        }
    }

    /// Check every factor against its hardware range.
    pub fn validate(&self) -> (r: Result<(), RccPllConfigurationError>)
        ensures
            r == self.spec_validation(),
            r is Ok <==> self.valid(),
    {
        if !(2 <= self.m && self.m <= 63) {
            Err(RccPllConfigurationError::WrongPllMConfiguration(self.m as u16))
        } else if !(50 <= self.n && self.n <= 432) {
            Err(RccPllConfigurationError::WrongPllNConfiguration(self.n as u16))
        } else if !(self.p == 2 || self.p == 4 || self.p == 6 || self.p == 8) {
            Err(RccPllConfigurationError::WrongPllPConfiguration(self.p as u16))
        } else if !(2 <= self.q && self.q <= 15) {
            Err(RccPllConfigurationError::WrongPllQConfiguration(self.q as u16))
        } else {
            Ok(())
        }
    }
}

/// The PLL calculator: maps a base frequency and factor choices to the
/// derived clock frequencies, validating the factors first.
pub struct PllCalculator {}

impl PllCalculator {
    /// The system clock a base frequency and factor choice produce:
    /// `base / m * n / p`, truncating at each division. Rejects factors
    /// outside their ranges before computing anything.
    pub fn system_clock_frequency(base_frequency_in_hertz: u32, factors: &PllFactors) -> (r:
        Result<u64, RccPllConfigurationError>)
        ensures
            r is Ok <==> factors.valid(),
            factors.valid() ==> r == Ok::<u64, RccPllConfigurationError>(
                spec_system_clock_frequency(
                    base_frequency_in_hertz as int,
                    factors.m as int,
                    factors.n as int,
                    factors.p as int,
                ) as u64,
            ),
            !factors.valid() ==> (r matches Err(e) && factors.spec_validation() == Err::<
                (),
                RccPllConfigurationError,
            >(e)),
    {
        match factors.validate() {
            Err(e) => Err(e),
            Ok(()) => {
                let base = base_frequency_in_hertz as u64;
                let pre_divided = base / (factors.m as u64);
                assert(pre_divided <= 0xFFFF_FFFF) by {
                    assert(base / (factors.m as u64) <= base) by (nonlinear_arith)
                        requires
                            factors.m >= 1,
                            base >= 0,
                    ;
                };
                assert(pre_divided * (factors.n as u64) <= 0xFFFF_FFFFu64 * 432) by (
                nonlinear_arith)
                    requires
                        pre_divided <= 0xFFFF_FFFF,
                        factors.n <= 432,
                ;
                let vco = pre_divided * (factors.n as u64);
                Ok(vco / (factors.p as u64))
            },
        }
    }

    /// The CPU (AHB) clock: the system clock divided by the AHB
    /// prescaler, truncating.
    pub fn divided_clock_frequency(clock_in_hertz: u64, divisor: u32) -> (r: u64)
        requires
            1 <= divisor,
        ensures
            r == spec_divided_clock_frequency(clock_in_hertz as int, divisor as int),
    {
        clock_in_hertz / (divisor as u64)
    }

    /// The timer clock of an APB bus, from that bus's peripheral clock:
    /// doubled exactly when the APB prescaler divides by more than one.
    pub fn timer_clock_frequency(peripheral_clock_in_hertz: u64, apb_divisor: u32) -> (r: u64)
        requires
            1 <= apb_divisor,
            2 * peripheral_clock_in_hertz <= u64::MAX,
        ensures
            r == spec_timer_clock_frequency(peripheral_clock_in_hertz as int, apb_divisor as int),
    {
        if apb_divisor == 1 {
            peripheral_clock_in_hertz
        } else {
            2 * peripheral_clock_in_hertz
        }
    }
}

/// Law: every choice of factors inside the legal ranges passes
/// validation, so the calculator owes a result on all of them.
pub proof fn lemma_valid_factors_accepted(factors: PllFactors)
    requires
        factors.valid(),
    ensures
        factors.spec_validation() == Ok::<(), RccPllConfigurationError>(()),
{
}

/// Law: for every peripheral clock and APB prescaler, the timer clock
/// equals twice the peripheral clock whenever the prescaler divides by
/// more than one, and equals the peripheral clock when it is one.
pub proof fn lemma_timer_clock_doubling(peripheral_clock: int, apb_divisor: int)
    requires
        1 <= apb_divisor,
    ensures
        apb_divisor == 1 ==> spec_timer_clock_frequency(peripheral_clock, apb_divisor)
            == peripheral_clock,
        apb_divisor > 1 ==> spec_timer_clock_frequency(peripheral_clock, apb_divisor) == 2
            * peripheral_clock,
{
}

} // verus!
