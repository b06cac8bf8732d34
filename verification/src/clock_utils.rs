//! The clock source state machine and the resulting clock profile.
//!
//! Setup runs a fixed sequence over the register space: reset the clock
//! control register, wait for the selected oscillator, program and
//! enable the PLL, program flash latency and bus prescalers, and switch
//! the system clock multiplexer — each step gated by the hardware
//! readiness handshake before it. Requesting the internal oscillator
//! directly is the hardware default after reset, so it produces the
//! profile without touching the PLL or switch registers. The sequence's
//! ordering obligation — the PLL is never enabled before the selected
//! oscillator was observed ready — is stated over the recorded access
//! trace and proved of every run.

use vstd::prelude::*;
use crate::clock_frequency::MegaHertz;
use crate::register_space::{RegisterSpace, RegisterAccess, spec_is_pll_enable_write,
    spec_observes_control_bit};
use crate::rcc_clock_control_register::{RccClockControlRegister, RCC_CR_HSI_IS_STABLE,
    RCC_CR_HSE_IS_STABLE, RCC_CR_RESET_VALUE, RCC_CR_HSE_IS_ON, RCC_CR_MAIN_PLL_IS_ON,
    spec_is_clock_control_read, lemma_clock_control_literal_facts};
use crate::rcc_clock_config_register::{RccClockConfigurationRegister, RccSystemClockSwtich,
    spec_system_clock_switch_bits, spec_bus_prescaler_register_bits,
    lemma_bus_prescaler_bits_no_switch_field, RCC_CFGR_SYS_CLOCK_SWITCH_AND_STATUS_CLEAR};
use crate::rcc_pll_config_register::{RccPllConfigurationRegister, RccPllConfigurationError,
    spec_pll_register_bits};
use crate::pll_calculator::{PllFactors, PllCalculator, spec_timer_clock_frequency};
use crate::flash_access_control_register::{FlashAccessControlRegister, FlashReadLatency,
    spec_flash_configuration_value, spec_flash_wait_states_for_cpu_frequency};
use crate::rcc_clock_settings::{RCC_CR, HSI_FREQUENCY, HSE_FREQUENCY, AHB_PRESCALER_FOR_HSI,
    AHB_PRESCALER_FOR_HSE, APB1_PRESCALER_FOR_HSI, APB1_PRESCALER_FOR_HSE, APB2_PRESCALER_FOR_HSI,
    APB2_PRESCALER_FOR_HSE, PLL_M_PRESCALER_FOR_HSI, PLL_N_PRESCALER_FOR_HSI,
    PLL_P_PRESCALER_FOR_HSI, PLL_Q_PRESCALER_FOR_HSI, PLL_M_PRESCALER_FOR_HSE,
    PLL_N_PRESCALER_FOR_HSE, PLL_P_PRESCALER_FOR_HSE, PLL_Q_PRESCALER_FOR_HSE};

verus! {

/// The clock source chosen at startup, immutable afterwards.
#[derive(Clone, Copy, Debug, PartialEq, Eq, Structural)]
pub enum ClockSource {
    Hsi,
    HsiThroughPll,
    HseThroughPll,
}

/// The readiness handshake a failed setup ran out of poll budget on.
#[derive(Clone, Copy, Debug, PartialEq, Eq, Structural)]
pub enum StabilityWait {
    Oscillator,
    MainPll,
    SystemClockSwitch,
}

/// Why clock setup failed: a PLL factor out of range (rejected before
/// any register write), or a handshake whose ready bit never appeared
/// within the poll budget.
#[derive(Clone, Copy, Debug, PartialEq, Eq, Structural)]
pub enum ClockSetupError {
    InvalidPllFactor(RccPllConfigurationError),
    HardwareNeverStabilized(StabilityWait),
}

/// The derived clock snapshot: oscillator, system, CPU and bus clock
/// frequencies, and the PLL factors when the PLL is in use. Created
/// once by setup and read-only afterwards.
#[derive(Clone, Copy, Debug, PartialEq, Eq, Structural)]
pub struct RccClocks {
    pub hsi: Option<MegaHertz>,
    pub hse: Option<MegaHertz>,
    pub clock_source: ClockSource,
    pub system_clock: Option<MegaHertz>,
    pub hardware_cpu_clock: Option<MegaHertz>,
    pub ahb_prescaler: Option<u32>,
    pub pll_m: Option<u32>,
    pub pll_n: Option<u32>,
    pub pll_p: Option<u32>,
    pub pll_q: Option<u32>,
    pub apb1_peripheral_clock: Option<MegaHertz>,
    pub apb1_timer_clock: Option<MegaHertz>,
    pub apb2_peripheral_clock: Option<MegaHertz>,
    pub apb2_timer_clock: Option<MegaHertz>,
}

/// A frequency in hertz, narrowed to whole megahertz.
pub open spec fn spec_megahertz_of(hertz: int) -> Option<MegaHertz> {
    Some(MegaHertz((hertz / 1_000_000) as u32))
}

/// Whether a clock source runs the PLL from the external oscillator.
pub open spec fn spec_uses_hse(clock_source: ClockSource) -> bool {
    clock_source == ClockSource::HseThroughPll
}

/// The board's PLL factor table for a clock source's oscillator.
pub open spec fn spec_board_pll_factors(clock_source: ClockSource) -> PllFactors {
    if spec_uses_hse(clock_source) {
        PllFactors {
            m: PLL_M_PRESCALER_FOR_HSE,
            n: PLL_N_PRESCALER_FOR_HSE,
            p: PLL_P_PRESCALER_FOR_HSE,
            q: PLL_Q_PRESCALER_FOR_HSE,
        }
    } else {
        PllFactors {
            m: PLL_M_PRESCALER_FOR_HSI,
            n: PLL_N_PRESCALER_FOR_HSI,
            p: PLL_P_PRESCALER_FOR_HSI,
            q: PLL_Q_PRESCALER_FOR_HSI,
        }
    }
}

/// The board's AHB divisor for a clock source.
pub open spec fn spec_board_ahb_divisor(clock_source: ClockSource) -> int {
    if spec_uses_hse(clock_source) {
        AHB_PRESCALER_FOR_HSE as int
    } else {
        AHB_PRESCALER_FOR_HSI as int
    }
}

/// The board's APB1 divisor for a clock source.
pub open spec fn spec_board_apb1_divisor(clock_source: ClockSource) -> int {
    if spec_uses_hse(clock_source) {
        APB1_PRESCALER_FOR_HSE as int
    } else {
        APB1_PRESCALER_FOR_HSI as int
    }
}

/// The board's APB2 divisor for a clock source.
pub open spec fn spec_board_apb2_divisor(clock_source: ClockSource) -> int {
    if spec_uses_hse(clock_source) {
        APB2_PRESCALER_FOR_HSE as int
    } else {
        APB2_PRESCALER_FOR_HSI as int
    }
}

/// The system clock a clock source reaches on this board, in hertz:
/// the raw internal oscillator, or the source's oscillator run through
/// its PLL table with truncating division at each step.
pub open spec fn spec_board_system_clock_in_hertz(clock_source: ClockSource) -> int {
    match clock_source {
        ClockSource::Hsi => HSI_FREQUENCY as int,
        ClockSource::HsiThroughPll => crate::pll_calculator::spec_system_clock_frequency(
            HSI_FREQUENCY as int,
            PLL_M_PRESCALER_FOR_HSI as int,
            PLL_N_PRESCALER_FOR_HSI as int,
            PLL_P_PRESCALER_FOR_HSI as int,
        ),
        ClockSource::HseThroughPll => crate::pll_calculator::spec_system_clock_frequency(
            HSE_FREQUENCY as int,
            PLL_M_PRESCALER_FOR_HSE as int,
            PLL_N_PRESCALER_FOR_HSE as int,
            PLL_P_PRESCALER_FOR_HSE as int,
        ),
    }
}

/// The CPU (AHB) clock a clock source reaches on this board, in hertz.
pub open spec fn spec_board_cpu_clock_in_hertz(clock_source: ClockSource) -> int {
    spec_board_system_clock_in_hertz(clock_source) / spec_board_ahb_divisor(clock_source)
}

/// The profile each clock source yields on this board: the system clock
/// from the source's PLL table (or the raw internal oscillator), the
/// CPU clock through the AHB prescaler, and each APB bus's peripheral
/// and timer clocks, the latter doubled when its prescaler divides.
pub open spec fn spec_rcc_clocks(clock_source: ClockSource) -> RccClocks {
    let system_clock = spec_board_system_clock_in_hertz(clock_source);
    let cpu_clock = spec_board_cpu_clock_in_hertz(clock_source);
    let apb1_clock = cpu_clock / spec_board_apb1_divisor(clock_source);
    let apb2_clock = cpu_clock / spec_board_apb2_divisor(clock_source);
    let factors = spec_board_pll_factors(clock_source);
    RccClocks {
        hsi: spec_megahertz_of(HSI_FREQUENCY as int),
        hse: spec_megahertz_of(HSE_FREQUENCY as int),
        clock_source: clock_source,
        system_clock: spec_megahertz_of(system_clock),
        hardware_cpu_clock: spec_megahertz_of(cpu_clock),
        ahb_prescaler: if clock_source == ClockSource::Hsi {
            None
        } else {
            Some(spec_board_ahb_divisor(clock_source) as u32)
        },
        pll_m: if clock_source == ClockSource::Hsi {
            None
        } else {
            Some(factors.m)
        },
        pll_n: if clock_source == ClockSource::Hsi {
            None
        } else {
            Some(factors.n)
        },
        pll_p: if clock_source == ClockSource::Hsi {
            None
        } else {
            Some(factors.p)
        },
        pll_q: if clock_source == ClockSource::Hsi {
            None
        } else {
            Some(factors.q)
        },
        apb1_peripheral_clock: spec_megahertz_of(apb1_clock),
        apb1_timer_clock: spec_megahertz_of(
            spec_timer_clock_frequency(apb1_clock, spec_board_apb1_divisor(clock_source)),
        ),
        apb2_peripheral_clock: spec_megahertz_of(apb2_clock),
        apb2_timer_clock: spec_megahertz_of(
            spec_timer_clock_frequency(apb2_clock, spec_board_apb2_divisor(clock_source)),
        ),
    }
}

/// The ready bit of the oscillator a clock source selects.
pub open spec fn spec_oscillator_ready_bit(clock_source: ClockSource) -> u32 {
    match clock_source {
        ClockSource::Hsi => RCC_CR_HSI_IS_STABLE,
        ClockSource::HsiThroughPll => RCC_CR_HSI_IS_STABLE,
        ClockSource::HseThroughPll => RCC_CR_HSE_IS_STABLE,
    }
}

/// The setup ordering obligation over a recorded trace: wherever the
/// trace writes the PLL enable bit, an earlier access read the clock
/// control register and observed the selected oscillator's ready bit.
pub open spec fn spec_pll_enable_gated_by_oscillator(
    clock_source: ClockSource,
    trace: Seq<RegisterAccess>,
) -> bool {
    forall|i: int|
        0 <= i < trace.len() && spec_is_pll_enable_write(#[trigger] trace[i]) ==> exists|j: int|
            0 <= j < i && spec_observes_control_bit(
                #[trigger] trace[j],
                spec_oscillator_ready_bit(clock_source),
            )
}

/// What setup returns, determined by the clock source and the device's
/// injected stabilization behavior: the profile when every handshake
/// fits the poll budget, else the first handshake that does not.
pub open spec fn spec_setup_outcome(
    d: crate::register_space::RegisterSpaceView,
    clock_source: ClockSource,
    max_polls: u32,
) -> Result<RccClocks, ClockSetupError> {
    match clock_source {
        ClockSource::Hsi => Ok(spec_rcc_clocks(clock_source)),
        ClockSource::HsiThroughPll => {
            if max_polls < 1 {
                Err(ClockSetupError::HardwareNeverStabilized(StabilityWait::Oscillator))
            } else if d.pll_stabilize_polls >= max_polls {
                Err(ClockSetupError::HardwareNeverStabilized(StabilityWait::MainPll))
            } else if d.switch_stabilize_polls >= max_polls {
                Err(ClockSetupError::HardwareNeverStabilized(StabilityWait::SystemClockSwitch))
            } else {
                Ok(spec_rcc_clocks(clock_source))
            }
        },
        ClockSource::HseThroughPll => {
            if d.hse_stabilize_polls >= max_polls {
                Err(ClockSetupError::HardwareNeverStabilized(StabilityWait::Oscillator))
            } else if d.pll_stabilize_polls >= max_polls {
                Err(ClockSetupError::HardwareNeverStabilized(StabilityWait::MainPll))
            } else if d.switch_stabilize_polls >= max_polls {
                Err(ClockSetupError::HardwareNeverStabilized(StabilityWait::SystemClockSwitch))
            } else {
                Ok(spec_rcc_clocks(clock_source))
            }
        },
    }
}

impl RccClocks {
    /// The CPU clock frequency of the profile, in hertz.
    pub fn get_cpu_clock_frequency_in_hertz(&self) -> (r: u32)
        requires
            self.hardware_cpu_clock is Some,
            self.hardware_cpu_clock matches Some(m) ==> m.0 * 1_000_000 <= u32::MAX,
        ensures
            self.hardware_cpu_clock matches Some(m) ==> r == m.0 * 1_000_000,
    {
        match self.hardware_cpu_clock {
            Some(m) => m.to_hertz().0,
            None => 0,
        }
    }

    /// The profile a clock source yields: the board's fixed table run
    /// through the PLL arithmetic, with every frequency narrowed to
    /// whole megahertz.
    pub fn create_rcc_clocks(clock_source: &ClockSource) -> (r: RccClocks)
        ensures
            r == spec_rcc_clocks(*clock_source),
    {
        match clock_source {
            ClockSource::Hsi => {
                let system_clock_speed = HSI_FREQUENCY;
                let cpu_clock_speed = system_clock_speed / AHB_PRESCALER_FOR_HSI;
                let apb1_peripheral_clock_speed = cpu_clock_speed / APB1_PRESCALER_FOR_HSI;
                let apb2_peripheral_clock_speed = cpu_clock_speed / APB2_PRESCALER_FOR_HSI;
                let apb1_timer_clock_speed = PllCalculator::timer_clock_frequency(
                    apb1_peripheral_clock_speed as u64,
                    APB1_PRESCALER_FOR_HSI,
                ) as u32;
                let apb2_timer_clock_speed = PllCalculator::timer_clock_frequency(
                    apb2_peripheral_clock_speed as u64,
                    APB2_PRESCALER_FOR_HSI,
                ) as u32;
                RccClocks {
                    hsi: Some(MegaHertz::from(HSI_FREQUENCY)),
                    hse: Some(MegaHertz::from(HSE_FREQUENCY)),
                    clock_source: *clock_source,
                    system_clock: Some(MegaHertz::from(system_clock_speed)),
                    hardware_cpu_clock: Some(MegaHertz::from(cpu_clock_speed)),
                    ahb_prescaler: None,
                    pll_m: None,
                    pll_n: None,
                    pll_p: None,
                    pll_q: None,
                    apb1_peripheral_clock: Some(MegaHertz::from(apb1_peripheral_clock_speed)),
                    apb1_timer_clock: Some(MegaHertz::from(apb1_timer_clock_speed)),
                    apb2_peripheral_clock: Some(MegaHertz::from(apb2_peripheral_clock_speed)),
                    apb2_timer_clock: Some(MegaHertz::from(apb2_timer_clock_speed)),
                }
            },
            ClockSource::HsiThroughPll => {
                let system_clock_speed = HSI_FREQUENCY / PLL_M_PRESCALER_FOR_HSI
                    * PLL_N_PRESCALER_FOR_HSI / PLL_P_PRESCALER_FOR_HSI;
                let cpu_clock_speed = system_clock_speed / AHB_PRESCALER_FOR_HSI;
                let apb1_peripheral_clock_speed = cpu_clock_speed / APB1_PRESCALER_FOR_HSI;
                let apb2_peripheral_clock_speed = cpu_clock_speed / APB2_PRESCALER_FOR_HSI;
                let apb1_timer_clock_speed = PllCalculator::timer_clock_frequency(
                    apb1_peripheral_clock_speed as u64,
                    APB1_PRESCALER_FOR_HSI,
                ) as u32;
                let apb2_timer_clock_speed = PllCalculator::timer_clock_frequency(
                    apb2_peripheral_clock_speed as u64,
                    APB2_PRESCALER_FOR_HSI,
                ) as u32;
                RccClocks {
                    hsi: Some(MegaHertz::from(HSI_FREQUENCY)),
                    hse: Some(MegaHertz::from(HSE_FREQUENCY)),
                    clock_source: *clock_source,
                    system_clock: Some(MegaHertz::from(system_clock_speed)),
                    hardware_cpu_clock: Some(MegaHertz::from(cpu_clock_speed)),
                    ahb_prescaler: Some(AHB_PRESCALER_FOR_HSI),
                    pll_m: Some(PLL_M_PRESCALER_FOR_HSI),
                    pll_n: Some(PLL_N_PRESCALER_FOR_HSI),
                    pll_p: Some(PLL_P_PRESCALER_FOR_HSI),
                    pll_q: Some(PLL_Q_PRESCALER_FOR_HSI),
                    apb1_peripheral_clock: Some(MegaHertz::from(apb1_peripheral_clock_speed)),
                    apb1_timer_clock: Some(MegaHertz::from(apb1_timer_clock_speed)),
                    apb2_peripheral_clock: Some(MegaHertz::from(apb2_peripheral_clock_speed)),
                    apb2_timer_clock: Some(MegaHertz::from(apb2_timer_clock_speed)),
                }
            },
            ClockSource::HseThroughPll => {
                let system_clock_speed = HSE_FREQUENCY / PLL_M_PRESCALER_FOR_HSE
                    * PLL_N_PRESCALER_FOR_HSE / PLL_P_PRESCALER_FOR_HSE;
                let cpu_clock_speed = system_clock_speed / AHB_PRESCALER_FOR_HSE;
                let apb1_peripheral_clock_speed = cpu_clock_speed / APB1_PRESCALER_FOR_HSE;
                let apb2_peripheral_clock_speed = cpu_clock_speed / APB2_PRESCALER_FOR_HSE;
                let apb1_timer_clock_speed = PllCalculator::timer_clock_frequency(
                    apb1_peripheral_clock_speed as u64,
                    APB1_PRESCALER_FOR_HSE,
                ) as u32;
                let apb2_timer_clock_speed = PllCalculator::timer_clock_frequency(
                    apb2_peripheral_clock_speed as u64,
                    APB2_PRESCALER_FOR_HSE,
                ) as u32;
                RccClocks {
                    hsi: Some(MegaHertz::from(HSI_FREQUENCY)),
                    hse: Some(MegaHertz::from(HSE_FREQUENCY)),
                    clock_source: *clock_source,
                    system_clock: Some(MegaHertz::from(system_clock_speed)),
                    hardware_cpu_clock: Some(MegaHertz::from(cpu_clock_speed)),
                    ahb_prescaler: Some(AHB_PRESCALER_FOR_HSE),
                    pll_m: Some(PLL_M_PRESCALER_FOR_HSE),
                    pll_n: Some(PLL_N_PRESCALER_FOR_HSE),
                    pll_p: Some(PLL_P_PRESCALER_FOR_HSE),
                    pll_q: Some(PLL_Q_PRESCALER_FOR_HSE),
                    apb1_peripheral_clock: Some(MegaHertz::from(apb1_peripheral_clock_speed)),
                    apb1_timer_clock: Some(MegaHertz::from(apb1_timer_clock_speed)),
                    apb2_peripheral_clock: Some(MegaHertz::from(apb2_peripheral_clock_speed)),
                    apb2_timer_clock: Some(MegaHertz::from(apb2_timer_clock_speed)),
                }
            },
        }
    }
}

/// Every element of a sequence's preserved prefix is unchanged.
proof fn lemma_prefix_elements(b: Seq<RegisterAccess>, a: Seq<RegisterAccess>)
    requires
        a.len() <= b.len(),
        b.subrange(0, a.len() as int) == a,
    ensures
        forall|k: int| 0 <= k < a.len() ==> b[k] == a[k],
{
    assert forall|k: int| 0 <= k < a.len() implies b[k] == a[k] by {
        assert(b.subrange(0, a.len() as int)[k] == b[k]);
    }
}

/// The bookkeeping the setup sequence carries once the PLL has been
/// programmed: the caller's trace is a preserved prefix, an access
/// before position `p0` observed the selected oscillator ready, and no
/// access before `p0` enabled the PLL.
pub open spec fn spec_setup_trace_state(
    t: Seq<RegisterAccess>,
    trace0: Seq<RegisterAccess>,
    p0: int,
    j: int,
    clock_source: ClockSource,
) -> bool {
    &&& trace0.len() <= j < p0 <= t.len()
    &&& t.subrange(0, trace0.len() as int) == trace0
    &&& spec_observes_control_bit(t[j], spec_oscillator_ready_bit(clock_source))
    &&& forall|k: int|
        trace0.len() <= k < p0 ==> !spec_is_pll_enable_write(#[trigger] t[k])
}

/// Extending the trace preserves the setup bookkeeping.
proof fn lemma_setup_trace_state_step(
    tprev: Seq<RegisterAccess>,
    tnew: Seq<RegisterAccess>,
    trace0: Seq<RegisterAccess>,
    p0: int,
    j: int,
    clock_source: ClockSource,
)
    requires
        spec_setup_trace_state(tprev, trace0, p0, j, clock_source),
        tprev.len() <= tnew.len(),
        tnew.subrange(0, tprev.len() as int) == tprev,
    ensures
        spec_setup_trace_state(tnew, trace0, p0, j, clock_source),
{
    lemma_prefix_elements(tnew, tprev);
    assert(tnew.subrange(0, trace0.len() as int) =~= trace0);
    assert forall|k: int|
        trace0.len() <= k < p0 implies !spec_is_pll_enable_write(#[trigger] tnew[k]) by {
        assert(tnew[k] == tprev[k]);
    }
}

/// The setup bookkeeping establishes the gating obligation: any PLL
/// enable write lies at or after `p0`, and the ready observation before
/// `p0` precedes it.
proof fn lemma_gating_from_trace_state(
    t: Seq<RegisterAccess>,
    trace0: Seq<RegisterAccess>,
    p0: int,
    j: int,
    clock_source: ClockSource,
)
    requires
        spec_setup_trace_state(t, trace0, p0, j, clock_source),
    ensures
        spec_pll_enable_gated_by_oscillator(
            clock_source,
            t.subrange(trace0.len() as int, t.len() as int),
        ),
{
    let t0 = trace0.len() as int;
    let suffix = t.subrange(t0, t.len() as int);
    assert forall|i: int|
        0 <= i < suffix.len() && spec_is_pll_enable_write(#[trigger] suffix[i]) implies exists|
            jj: int,
        |
            0 <= jj < i && spec_observes_control_bit(
                #[trigger] suffix[jj],
                spec_oscillator_ready_bit(clock_source),
            ) by {
        assert(suffix[i] == t[t0 + i]);
        assert(t0 + i >= p0);
        let jj = j - t0;
        assert(suffix[jj] == t[j]);
        assert(0 <= jj < i && spec_observes_control_bit(
            suffix[jj],
            spec_oscillator_ready_bit(clock_source),
        ));
    }
}

/// A trace suffix without any PLL enable write meets the gating
/// obligation outright.
proof fn lemma_gating_vacuous(
    t: Seq<RegisterAccess>,
    trace0: Seq<RegisterAccess>,
    clock_source: ClockSource,
)
    requires
        trace0.len() <= t.len(),
        t.subrange(0, trace0.len() as int) == trace0,
        forall|k: int|
            trace0.len() <= k < t.len() ==> !spec_is_pll_enable_write(#[trigger] t[k]),
    ensures
        spec_pll_enable_gated_by_oscillator(
            clock_source,
            t.subrange(trace0.len() as int, t.len() as int),
        ),
{
    let t0 = trace0.len() as int;
    let suffix = t.subrange(t0, t.len() as int);
    assert forall|i: int|
        0 <= i < suffix.len() && spec_is_pll_enable_write(#[trigger] suffix[i]) implies exists|
            jj: int,
        |
            0 <= jj < i && spec_observes_control_bit(
                #[trigger] suffix[jj],
                spec_oscillator_ready_bit(clock_source),
            ) by {
        assert(suffix[i] == t[t0 + i]);
    }
}

impl RccClocks {
    /// Reset the clock control block.
    pub fn init_rcc_clock(dev: &mut RegisterSpace)
        ensures
            final(dev)@ == old(dev)@.write(RCC_CR, RCC_CR_RESET_VALUE),
    {
        RccClockControlRegister::reset(dev);
    }

    /// Run the clock source state machine to its terminal state: reset,
    /// oscillator handshake, PLL configuration and handshake, flash
    /// latency and bus prescalers, and the system clock switch
    /// handshake, in that order, each busy-wait bounded by `max_polls`.
    ///
    /// The outcome is a function of the clock source and the device's
    /// injected stabilization behavior alone; the internal oscillator
    /// path touches neither the PLL nor the switch registers. On every
    /// run, whatever the outcome, the recorded accesses satisfy the
    /// gating obligation: the PLL enable bit is never written before a
    /// read observed the selected oscillator ready.
    pub fn setup_system_clock(
        dev: &mut RegisterSpace,
        clock_source: ClockSource,
        max_polls: u32,
    ) -> (r: Result<RccClocks, ClockSetupError>)
        requires
            !old(dev)@.switch_pending,
            old(dev)@.completed_switch == 0,
        ensures
            r == spec_setup_outcome(old(dev)@, clock_source, max_polls),
            final(dev)@.trace.len() >= old(dev)@.trace.len(),
            final(dev)@.trace.subrange(0, old(dev)@.trace.len() as int) == old(dev)@.trace,
            spec_pll_enable_gated_by_oscillator(
                clock_source,
                final(dev)@.trace.subrange(
                    old(dev)@.trace.len() as int,
                    final(dev)@.trace.len() as int,
                ),
            ),
            clock_source == ClockSource::Hsi ==> final(dev)@ == old(dev)@.write(
                RCC_CR,
                RCC_CR_RESET_VALUE,
            ),
            r is Ok && clock_source != ClockSource::Hsi ==> final(dev)@.rcc_cr == (if
            spec_uses_hse(clock_source) {
                RCC_CR_RESET_VALUE | RCC_CR_HSE_IS_ON | RCC_CR_HSE_IS_STABLE
                    | RCC_CR_MAIN_PLL_IS_ON
            } else {
                RCC_CR_RESET_VALUE | RCC_CR_MAIN_PLL_IS_ON
            }) && final(dev)@.rcc_pllcfgr == spec_pll_register_bits(
                spec_board_pll_factors(clock_source),
                spec_uses_hse(clock_source),
            ) && final(dev)@.flash_acr == spec_flash_configuration_value(
                spec_flash_wait_states_for_cpu_frequency(
                    spec_board_cpu_clock_in_hertz(clock_source) as u32,
                ),
            ) && final(dev)@.rcc_cfgr == (spec_bus_prescaler_register_bits(
                spec_uses_hse(clock_source),
            ) & RCC_CFGR_SYS_CLOCK_SWITCH_AND_STATUS_CLEAR | spec_system_clock_switch_bits(
                RccSystemClockSwtich::PllSelectedAsSytemClock,
            )) && final(dev)@.completed_switch == spec_system_clock_switch_bits(
                RccSystemClockSwtich::PllSelectedAsSytemClock,
            ) && !final(dev)@.switch_pending,
    {
        let ghost trace0 = old(dev)@.trace;
        let ghost t0: int = trace0.len() as int;
        Self::init_rcc_clock(dev);
        proof {
            lemma_clock_control_literal_facts();
            assert(dev@.trace.subrange(0, t0) =~= trace0);
        }
        let rcc_clock = Self::create_rcc_clocks(&clock_source);
        if clock_source == ClockSource::Hsi {
            proof {
                lemma_gating_vacuous(dev@.trace, trace0, clock_source);
            }
            return Ok(rcc_clock);
        }
        let use_hse = clock_source == ClockSource::HseThroughPll;
        let ghost trace_r = dev@.trace;
        match clock_source {
            ClockSource::HsiThroughPll => {
                let wait = RccClockControlRegister::wait_for_hsi_stable(dev, max_polls);
                proof {
                    lemma_clock_control_literal_facts();
                    lemma_prefix_elements(dev@.trace, trace_r);
                    assert(dev@.trace.subrange(0, t0) =~= trace0);
                    assert forall|k: int|
                        t0 <= k < dev@.trace.len() implies !spec_is_pll_enable_write(
                        #[trigger] dev@.trace[k],
                    ) by {
                        if k == t0 {
                            assert(dev@.trace[k] == trace_r[t0]);
                        } else {
                            assert(spec_is_clock_control_read(dev@.trace[k]));
                        }
                    }
                }
                match wait {
                    Ok(()) => {},
                    Err(_) => {
                        proof {
                            lemma_gating_vacuous(dev@.trace, trace0, clock_source);
                        }
                        return Err(
                            ClockSetupError::HardwareNeverStabilized(StabilityWait::Oscillator),
                        );
                    },
                }
            },
            ClockSource::HseThroughPll => {
                let wait = RccClockControlRegister::enable_hse_as_clock_source_and_wait_for_it_stable(
                    dev,
                    max_polls,
                );
                proof {
                    lemma_clock_control_literal_facts();
                    lemma_prefix_elements(dev@.trace, trace_r);
                    assert(dev@.trace.subrange(0, t0) =~= trace0);
                    assert forall|k: int|
                        t0 <= k < dev@.trace.len() implies !spec_is_pll_enable_write(
                        #[trigger] dev@.trace[k],
                    ) by {
                        if k == t0 {
                            assert(dev@.trace[k] == trace_r[t0]);
                        } else if k == t0 + 2 {
                            assert(dev@.trace[k] == (RegisterAccess::Write {
                                address: RCC_CR,
                                value: RCC_CR_RESET_VALUE | RCC_CR_HSE_IS_ON,
                            }));
                        } else {
                            assert(spec_is_clock_control_read(dev@.trace[k]));
                        }
                    }
                }
                match wait {
                    Ok(()) => {},
                    Err(_) => {
                        proof {
                            lemma_gating_vacuous(dev@.trace, trace0, clock_source);
                        }
                        return Err(
                            ClockSetupError::HardwareNeverStabilized(StabilityWait::Oscillator),
                        );
                    },
                }
            },
            ClockSource::Hsi => {},
        }
        let ghost trace_osc = dev@.trace;
        let ghost j_abs: int = trace_osc.len() - 1;
        proof {
            assert(spec_observes_control_bit(
                trace_osc[j_abs],
                spec_oscillator_ready_bit(clock_source),
            ));
        }
        let factors = PllFactors {
            m: if use_hse {
                PLL_M_PRESCALER_FOR_HSE
            } else {
                PLL_M_PRESCALER_FOR_HSI
            },
            n: if use_hse {
                PLL_N_PRESCALER_FOR_HSE
            } else {
                PLL_N_PRESCALER_FOR_HSI
            },
            p: if use_hse {
                PLL_P_PRESCALER_FOR_HSE
            } else {
                PLL_P_PRESCALER_FOR_HSI
            },
            q: if use_hse {
                PLL_Q_PRESCALER_FOR_HSE
            } else {
                PLL_Q_PRESCALER_FOR_HSI
            },
        };
        match RccPllConfigurationRegister::set_pll_mnpq(dev, &factors, use_hse) {
            Ok(()) => {},
            Err(e) => {
                return Err(ClockSetupError::InvalidPllFactor(e));
            },
        }
        let ghost p0: int = dev@.trace.len() as int;
        proof {
            assert(dev@.trace.subrange(0, trace_osc.len() as int) =~= trace_osc);
            lemma_prefix_elements(dev@.trace, trace_osc);
            assert(dev@.trace.subrange(0, t0) =~= trace0);
            assert forall|k: int|
                t0 <= k < p0 implies !spec_is_pll_enable_write(#[trigger] dev@.trace[k]) by {
                if k < trace_osc.len() {
                    assert(dev@.trace[k] == trace_osc[k]);
                } else {
                    assert(dev@.trace[k] matches RegisterAccess::Write { address, .. }
                        && address == crate::rcc_clock_settings::RCC_PLLCFGR);
                }
            }
            assert(spec_setup_trace_state(dev@.trace, trace0, p0, j_abs, clock_source));
        }
        let ghost trace_p = dev@.trace;
        match RccClockControlRegister::enable_pll_and_wait_for_it_stable(dev, max_polls) {
            Ok(()) => {},
            Err(_) => {
                proof {
                    lemma_setup_trace_state_step(
                        trace_p,
                        dev@.trace,
                        trace0,
                        p0,
                        j_abs,
                        clock_source,
                    );
                    lemma_gating_from_trace_state(dev@.trace, trace0, p0, j_abs, clock_source);
                }
                return Err(ClockSetupError::HardwareNeverStabilized(StabilityWait::MainPll));
            },
        }
        proof {
            lemma_setup_trace_state_step(trace_p, dev@.trace, trace0, p0, j_abs, clock_source);
        }
        let ghost trace_pll = dev@.trace;
        let cpu_clock_frequency = rcc_clock.get_cpu_clock_frequency_in_hertz();
        let flash_latency = FlashReadLatency::for_cpu_frequency(cpu_clock_frequency);
        FlashAccessControlRegister::set_flash_latency(dev, flash_latency.to_register_bits());
        proof {
            assert(dev@.trace.subrange(0, trace_pll.len() as int) =~= trace_pll);
            lemma_setup_trace_state_step(trace_pll, dev@.trace, trace0, p0, j_abs, clock_source);
        }
        let ghost trace_f = dev@.trace;
        RccClockConfigurationRegister::set_bus_prescaler(dev, use_hse);
        proof {
            lemma_bus_prescaler_bits_no_switch_field(use_hse);
            assert(dev@.trace.subrange(0, trace_f.len() as int) =~= trace_f);
            lemma_setup_trace_state_step(trace_f, dev@.trace, trace0, p0, j_abs, clock_source);
        }
        let ghost trace_b = dev@.trace;
        match RccClockConfigurationRegister::switch_clock_source_and_wait_for_stable(
            dev,
            RccSystemClockSwtich::PllSelectedAsSytemClock,
            max_polls,
        ) {
            Ok(()) => {},
            Err(_) => {
                proof {
                    lemma_setup_trace_state_step(
                        trace_b,
                        dev@.trace,
                        trace0,
                        p0,
                        j_abs,
                        clock_source,
                    );
                    lemma_gating_from_trace_state(dev@.trace, trace0, p0, j_abs, clock_source);
                }
                return Err(
                    ClockSetupError::HardwareNeverStabilized(StabilityWait::SystemClockSwitch),
                );
            },
        }
        proof {
            lemma_setup_trace_state_step(trace_b, dev@.trace, trace0, p0, j_abs, clock_source);
            lemma_gating_from_trace_state(dev@.trace, trace0, p0, j_abs, clock_source);
            match clock_source {
                ClockSource::Hsi => {},
                ClockSource::HsiThroughPll => {
                    assert(spec_board_system_clock_in_hertz(clock_source) == 168_000_000);
                    assert(spec_board_ahb_divisor(clock_source) == 1);
                    assert(168_000_000int / 1int == 168_000_000);
                    assert(spec_board_cpu_clock_in_hertz(clock_source) == 168_000_000);
                },
                ClockSource::HseThroughPll => {
                    assert(spec_board_system_clock_in_hertz(clock_source) == 168_000_000);
                    assert(spec_board_ahb_divisor(clock_source) == 1);
                    assert(168_000_000int / 1int == 168_000_000);
                    assert(spec_board_cpu_clock_in_hertz(clock_source) == 168_000_000);
                },
            }
            assert(spec_board_cpu_clock_in_hertz(clock_source) == 168_000_000);
            assert(cpu_clock_frequency == 168_000_000);
            assert(spec_flash_wait_states_for_cpu_frequency(168_000_000) == 5);
            assert(crate::flash_access_control_register::spec_flash_latency_register_bits(
                crate::flash_access_control_register::spec_flash_latency_from_wait_states(5),
            ) == 5);
        }
        Ok(rcc_clock)
    }
}

} // verus!
