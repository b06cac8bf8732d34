//! RCC clock control register (RCC_CR): bit layout and decoding.
//!
//! This register turns the clock sources on and off and reports, in
//! read-only status bits, which of them have stabilized. Writing it is
//! part of the clock setup sequence; decoding it is how diagnostics and
//! the readiness handshakes interpret what the hardware reports.

use vstd::prelude::*;
use crate::register_space::{
    RegisterSpace, RegisterAccess, HardwareNeverStabilized, spec_observes_control_bit,
};
use crate::rcc_clock_settings::RCC_CR;

verus! {

/// Bit 0: internal oscillator (HSI) enable.
pub const RCC_CR_HSI_IS_ON: u32 = 0x0000_0001;

/// Bit 1: internal oscillator (HSI) ready (read-only).
pub const RCC_CR_HSI_IS_STABLE: u32 = 0x0000_0002;

/// Bit 16: external oscillator (HSE) enable.
pub const RCC_CR_HSE_IS_ON: u32 = 0x0001_0000;

/// Bit 17: external oscillator (HSE) ready (read-only).
pub const RCC_CR_HSE_IS_STABLE: u32 = 0x0002_0000;

/// Bit 18: HSE bypassed with an external clock.
pub const RCC_CR_HSE_BYPASS: u32 = 0x0004_0000;

/// Bit 19: clock security system enable.
pub const RCC_CR_CLOCK_SECURITY_IS_ON: u32 = 0x0008_0000;

/// Bit 24: main PLL enable.
pub const RCC_CR_MAIN_PLL_IS_ON: u32 = 0x0100_0000;

/// Bit 25: main PLL ready (read-only).
pub const RCC_CR_MAIN_PLL_IS_READY: u32 = 0x0200_0000;

/// Bit 26: I2S PLL enable.
pub const RCC_CR_PLLI2S_IS_ON: u32 = 0x0400_0000;

/// Bit 27: I2S PLL ready (read-only).
pub const RCC_CR_PLLI2S_IS_READY: u32 = 0x0800_0000;

/// Value the reset step writes: every source off except the always-on
/// internal oscillator, PLL enable bits cleared, trim at its default.
pub const RCC_CR_RESET_VALUE: u32 = 0x0000_0083;

/// The clock control register decoded into its boolean fields.
#[derive(Clone, Copy, Debug, PartialEq, Eq, Structural)]
pub struct RccClockControlFields {
    pub hsi_is_on: bool,
    pub hsi_is_stable: bool,
    pub hse_is_on: bool,
    pub hse_is_stable: bool,
    pub hse_bypass: bool,
    pub clock_security_is_on: bool,
    pub main_pll_is_on: bool,
    pub main_pll_is_ready: bool,
    pub pll_i2s_is_on: bool,
    pub pll_i2s_is_ready: bool,
}

/// The clock control register: reset, source enabling, and readiness
/// handshakes.
pub struct RccClockControlRegister {}

impl RccClockControlRegister {
    /// Decode a raw register value into its boolean fields.
    pub fn decode(register_value: u32) -> (r: RccClockControlFields)
        ensures
            r.hsi_is_on == (register_value & RCC_CR_HSI_IS_ON != 0),
            r.hsi_is_stable == (register_value & RCC_CR_HSI_IS_STABLE != 0),
            r.hse_is_on == (register_value & RCC_CR_HSE_IS_ON != 0),
            r.hse_is_stable == (register_value & RCC_CR_HSE_IS_STABLE != 0),
            r.hse_bypass == (register_value & RCC_CR_HSE_BYPASS != 0),
            r.clock_security_is_on == (register_value & RCC_CR_CLOCK_SECURITY_IS_ON != 0),
            r.main_pll_is_on == (register_value & RCC_CR_MAIN_PLL_IS_ON != 0),
            r.main_pll_is_ready == (register_value & RCC_CR_MAIN_PLL_IS_READY != 0),
            r.pll_i2s_is_on == (register_value & RCC_CR_PLLI2S_IS_ON != 0),
            r.pll_i2s_is_ready == (register_value & RCC_CR_PLLI2S_IS_READY != 0),
    {
        RccClockControlFields {
            hsi_is_on: register_value & RCC_CR_HSI_IS_ON != 0,
            hsi_is_stable: register_value & RCC_CR_HSI_IS_STABLE != 0,
            hse_is_on: register_value & RCC_CR_HSE_IS_ON != 0,
            hse_is_stable: register_value & RCC_CR_HSE_IS_STABLE != 0,
            hse_bypass: register_value & RCC_CR_HSE_BYPASS != 0,
            clock_security_is_on: register_value & RCC_CR_CLOCK_SECURITY_IS_ON != 0,
            main_pll_is_on: register_value & RCC_CR_MAIN_PLL_IS_ON != 0,
            main_pll_is_ready: register_value & RCC_CR_MAIN_PLL_IS_READY != 0,
            pll_i2s_is_on: register_value & RCC_CR_PLLI2S_IS_ON != 0,
            pll_i2s_is_ready: register_value & RCC_CR_PLLI2S_IS_READY != 0,
        }
    }

    /// Whether a clock control register value reports the external
    /// oscillator stable.
    pub fn hse_is_stable(register_value: u32) -> (r: bool)
        ensures
            r == (register_value & RCC_CR_HSE_IS_STABLE != 0),
    {
        register_value & RCC_CR_HSE_IS_STABLE != 0
    }

    /// Whether a clock control register value reports the internal
    /// oscillator stable.
    pub fn hsi_is_stable(register_value: u32) -> (r: bool)
        ensures
            r == (register_value & RCC_CR_HSI_IS_STABLE != 0),
    {
        register_value & RCC_CR_HSI_IS_STABLE != 0
    }

    /// Whether a clock control register value reports the main PLL ready.
    pub fn main_pll_is_ready(register_value: u32) -> (r: bool)
        ensures
            r == (register_value & RCC_CR_MAIN_PLL_IS_READY != 0),
    {
        register_value & RCC_CR_MAIN_PLL_IS_READY != 0
    }

    /// Write the reset pattern: every source off except the always-on
    /// internal oscillator, PLL enable bits cleared. Always succeeds.
    pub fn reset(dev: &mut RegisterSpace)
        ensures
            final(dev)@ == old(dev)@.write(RCC_CR, RCC_CR_RESET_VALUE),
    {
        dev.write_register(RCC_CR, RCC_CR_RESET_VALUE);
    }

    /// Busy-poll the clock control register until the internal
    /// oscillator reads stable, at most `max_polls` times. Expects the
    /// register as the reset step leaves it, where the internal
    /// oscillator is on and therefore reads stable at the first poll.
    pub fn wait_for_hsi_stable(dev: &mut RegisterSpace, max_polls: u32) -> (r: Result<
        (),
        HardwareNeverStabilized,
    >)
        requires
            old(dev)@.rcc_cr == RCC_CR_RESET_VALUE,
        ensures
            r is Ok <==> max_polls >= 1,
            final(dev)@ == (crate::register_space::RegisterSpaceView {
                trace: final(dev)@.trace,
                ..old(dev)@
            }),
            final(dev)@.trace.len() >= old(dev)@.trace.len(),
            final(dev)@.trace.subrange(0, old(dev)@.trace.len() as int) == old(dev)@.trace,
            forall|k: int|
                old(dev)@.trace.len() <= k < final(dev)@.trace.len()
                    ==> #[trigger] spec_is_clock_control_read(final(dev)@.trace[k]),
            r is Ok ==> final(dev)@.trace.len() > old(dev)@.trace.len()
                && spec_observes_control_bit(final(dev)@.trace.last(), RCC_CR_HSI_IS_STABLE),
    {
        proof {
            lemma_clock_control_literal_facts();
        }
        let ghost t0: int = old(dev)@.trace.len() as int;
        proof {
            assert(dev@.trace.subrange(0, t0) =~= old(dev)@.trace);
        }
        let mut polls: u32 = 0;
        while polls < max_polls
            invariant
                polls == 0,
                old(dev)@.trace.len() == t0,
                old(dev)@.rcc_cr == RCC_CR_RESET_VALUE,
                dev@ == (crate::register_space::RegisterSpaceView {
                    trace: dev@.trace,
                    ..old(dev)@
                }),
                dev@.rcc_cr == RCC_CR_RESET_VALUE,
                dev@.trace.len() == t0 + polls,
                dev@.trace.subrange(0, t0) == old(dev)@.trace,
                forall|k: int|
                    t0 <= k < dev@.trace.len() ==> #[trigger] spec_is_clock_control_read(
                        dev@.trace[k],
                    ),
            decreases max_polls - polls,
        {
            proof {
                lemma_clock_control_literal_facts();
            }
            let v = dev.read_register(RCC_CR);
            proof {
                assert(dev@.trace.subrange(0, t0) =~= old(dev)@.trace);
            }
            if Self::hsi_is_stable(v) {
                return Ok(());
            }
            polls = polls + 1;
        }
        Err(HardwareNeverStabilized)
    }

    /// Turn the external oscillator on — a read-modify-write that sets
    /// only its enable bit, leaving the internal oscillator's enable
    /// and trim bits as the reset step left them — then busy-poll the
    /// register until the oscillator reads stable, at most `max_polls`
    /// times. Succeeds exactly when the oscillator stabilizes within
    /// the budget; on success the last recorded read observed the ready
    /// bit. Expects the register as the reset step leaves it.
    pub fn enable_hse_as_clock_source_and_wait_for_it_stable(
        dev: &mut RegisterSpace,
        max_polls: u32,
    ) -> (r: Result<(), HardwareNeverStabilized>)
        requires
            old(dev)@.rcc_cr == RCC_CR_RESET_VALUE,
        ensures
            r is Ok <==> old(dev)@.hse_stabilize_polls < max_polls,
            final(dev)@.rcc_cr == (old(dev)@.rcc_cr | RCC_CR_HSE_IS_ON),
            final(dev)@ == (crate::register_space::RegisterSpaceView {
                rcc_cr: final(dev)@.rcc_cr,
                hse_stabilize_polls: final(dev)@.hse_stabilize_polls,
                trace: final(dev)@.trace,
                ..old(dev)@
            }),
            r is Ok ==> final(dev)@.hse_stabilize_polls == 0,
            final(dev)@.trace.len() > old(dev)@.trace.len() + 1,
            final(dev)@.trace.subrange(0, old(dev)@.trace.len() as int) == old(dev)@.trace,
            spec_is_clock_control_read(final(dev)@.trace[old(dev)@.trace.len() as int]),
            final(dev)@.trace[old(dev)@.trace.len() as int + 1] == (RegisterAccess::Write {
                address: RCC_CR,
                value: old(dev)@.rcc_cr | RCC_CR_HSE_IS_ON,
            }),
            forall|k: int|
                old(dev)@.trace.len() + 2 <= k < final(dev)@.trace.len()
                    ==> #[trigger] spec_is_clock_control_read(final(dev)@.trace[k]),
            r is Ok ==> spec_observes_control_bit(final(dev)@.trace.last(), RCC_CR_HSE_IS_STABLE),
    {
        proof {
            lemma_clock_control_literal_facts();
        }
        let ghost t0: int = old(dev)@.trace.len() as int;
        let current = dev.read_register(RCC_CR);
        dev.write_register(RCC_CR, current | RCC_CR_HSE_IS_ON);
        proof {
            assert(dev@.trace.subrange(0, t0) =~= old(dev)@.trace);
        }
        let mut polls: u32 = 0;
        while polls < max_polls
            invariant
                polls <= max_polls,
                old(dev)@.trace.len() == t0,
                old(dev)@.rcc_cr == RCC_CR_RESET_VALUE,
                dev@.rcc_cr == (RCC_CR_RESET_VALUE | RCC_CR_HSE_IS_ON),
                dev@ == (crate::register_space::RegisterSpaceView {
                    rcc_cr: dev@.rcc_cr,
                    hse_stabilize_polls: dev@.hse_stabilize_polls,
                    trace: dev@.trace,
                    ..old(dev)@
                }),
                old(dev)@.hse_stabilize_polls >= polls,
                dev@.hse_stabilize_polls == old(dev)@.hse_stabilize_polls - polls,
                dev@.trace.len() == t0 + 2 + polls,
                dev@.trace.subrange(0, t0) == old(dev)@.trace,
                spec_is_clock_control_read(dev@.trace[t0]),
                dev@.trace[t0 + 1] == (RegisterAccess::Write {
                    address: RCC_CR,
                    value: RCC_CR_RESET_VALUE | RCC_CR_HSE_IS_ON,
                }),
                forall|k: int|
                    t0 + 2 <= k < dev@.trace.len() ==> #[trigger] spec_is_clock_control_read(
                        dev@.trace[k],
                    ),
            decreases max_polls - polls,
        {
            proof {
                lemma_clock_control_literal_facts();
            }
            let v = dev.read_register(RCC_CR);
            proof {
                assert(dev@.trace.subrange(0, t0) =~= old(dev)@.trace);
            }
            if Self::hse_is_stable(v) {
                return Ok(());
            }
            polls = polls + 1;
        }
        Err(HardwareNeverStabilized)
    }

    /// Turn the main PLL on — a read-modify-write that sets only its
    /// enable bit, leaving the oscillator enables untouched so the
    /// PLL's source keeps running while it locks — then busy-poll the
    /// register until the PLL reads ready, at most `max_polls` times.
    /// The write carries back the read-only status bits the read
    /// observed, which the hardware ignores. Succeeds exactly when the
    /// PLL stabilizes within the budget. Expects the register as the
    /// oscillator handshake leaves it: as reset left it (internal
    /// path), or with the external oscillator enabled and stable.
    pub fn enable_pll_and_wait_for_it_stable(dev: &mut RegisterSpace, max_polls: u32) -> (r:
        Result<(), HardwareNeverStabilized>)
        requires
            old(dev)@.rcc_cr == RCC_CR_RESET_VALUE || (old(dev)@.rcc_cr == (RCC_CR_RESET_VALUE
                | RCC_CR_HSE_IS_ON) && old(dev)@.hse_stabilize_polls == 0),
        ensures
            r is Ok <==> old(dev)@.pll_stabilize_polls < max_polls,
            final(dev)@.rcc_cr == (old(dev)@.read_value(RCC_CR) | RCC_CR_MAIN_PLL_IS_ON),
            final(dev)@ == (crate::register_space::RegisterSpaceView {
                rcc_cr: final(dev)@.rcc_cr,
                pll_stabilize_polls: final(dev)@.pll_stabilize_polls,
                trace: final(dev)@.trace,
                ..old(dev)@
            }),
            r is Ok ==> final(dev)@.pll_stabilize_polls == 0,
            final(dev)@.trace.len() > old(dev)@.trace.len() + 1,
            final(dev)@.trace.subrange(0, old(dev)@.trace.len() as int) == old(dev)@.trace,
            spec_is_clock_control_read(final(dev)@.trace[old(dev)@.trace.len() as int]),
            final(dev)@.trace[old(dev)@.trace.len() as int + 1] == (RegisterAccess::Write {
                address: RCC_CR,
                value: old(dev)@.read_value(RCC_CR) | RCC_CR_MAIN_PLL_IS_ON,
            }),
            forall|k: int|
                old(dev)@.trace.len() + 2 <= k < final(dev)@.trace.len()
                    ==> #[trigger] spec_is_clock_control_read(final(dev)@.trace[k]),
            r is Ok ==> spec_observes_control_bit(
                final(dev)@.trace.last(),
                RCC_CR_MAIN_PLL_IS_READY,
            ),
    {
        proof {
            lemma_clock_control_literal_facts();
        }
        let ghost t0: int = old(dev)@.trace.len() as int;
        let current = dev.read_register(RCC_CR);
        dev.write_register(RCC_CR, current | RCC_CR_MAIN_PLL_IS_ON);
        proof {
            assert(dev@.trace.subrange(0, t0) =~= old(dev)@.trace);
        }
        let mut polls: u32 = 0;
        while polls < max_polls
            invariant
                polls <= max_polls,
                old(dev)@.trace.len() == t0,
                old(dev)@.rcc_cr == RCC_CR_RESET_VALUE || (old(dev)@.rcc_cr == (RCC_CR_RESET_VALUE
                    | RCC_CR_HSE_IS_ON) && old(dev)@.hse_stabilize_polls == 0),
                old(dev)@.rcc_cr == RCC_CR_RESET_VALUE ==> dev@.rcc_cr == (RCC_CR_RESET_VALUE
                    | RCC_CR_MAIN_PLL_IS_ON),
                old(dev)@.rcc_cr != RCC_CR_RESET_VALUE ==> dev@.rcc_cr == (RCC_CR_RESET_VALUE
                    | RCC_CR_HSE_IS_ON | RCC_CR_HSE_IS_STABLE | RCC_CR_MAIN_PLL_IS_ON),
                dev@.rcc_cr == (old(dev)@.read_value(RCC_CR) | RCC_CR_MAIN_PLL_IS_ON),
                dev@ == (crate::register_space::RegisterSpaceView {
                    rcc_cr: dev@.rcc_cr,
                    pll_stabilize_polls: dev@.pll_stabilize_polls,
                    trace: dev@.trace,
                    ..old(dev)@
                }),
                old(dev)@.pll_stabilize_polls >= polls,
                dev@.pll_stabilize_polls == old(dev)@.pll_stabilize_polls - polls,
                dev@.trace.len() == t0 + 2 + polls,
                dev@.trace.subrange(0, t0) == old(dev)@.trace,
                spec_is_clock_control_read(dev@.trace[t0]),
                dev@.trace[t0 + 1] == (RegisterAccess::Write {
                    address: RCC_CR,
                    value: old(dev)@.read_value(RCC_CR) | RCC_CR_MAIN_PLL_IS_ON,
                }),
                forall|k: int|
                    t0 + 2 <= k < dev@.trace.len() ==> #[trigger] spec_is_clock_control_read(
                        dev@.trace[k],
                    ),
            decreases max_polls - polls,
        {
            proof {
                lemma_clock_control_literal_facts();
            }
            let v = dev.read_register(RCC_CR);
            proof {
                assert(dev@.trace.subrange(0, t0) =~= old(dev)@.trace);
            }
            if Self::main_pll_is_ready(v) {
                return Ok(());
            }
            polls = polls + 1;
        }
        Err(HardwareNeverStabilized)
    }
}

/// A recorded access that reads the clock control register.
pub open spec fn spec_is_clock_control_read(access: RegisterAccess) -> bool {
    access matches RegisterAccess::Read { address, .. } && address == RCC_CR
}

/// Bit-level evaluations of the concrete clock control values the setup
/// sequence stores, as the simulated reads derive status bits from them
/// and the read-modify-writes accumulate enable bits onto the reset
/// pattern.
pub(crate) proof fn lemma_clock_control_literal_facts()
    ensures
        RCC_CR_RESET_VALUE & RCC_CR_HSI_IS_ON != 0,
        RCC_CR_RESET_VALUE & RCC_CR_HSE_IS_ON == 0,
        RCC_CR_RESET_VALUE & RCC_CR_MAIN_PLL_IS_ON == 0,
        (RCC_CR_RESET_VALUE | RCC_CR_HSI_IS_STABLE | 0 | 0) & RCC_CR_HSI_IS_STABLE != 0,
        (RCC_CR_RESET_VALUE | RCC_CR_HSI_IS_STABLE | 0 | 0) == RCC_CR_RESET_VALUE,
        (RCC_CR_RESET_VALUE | RCC_CR_HSE_IS_ON) & RCC_CR_HSI_IS_ON != 0,
        (RCC_CR_RESET_VALUE | RCC_CR_HSE_IS_ON) & RCC_CR_HSE_IS_ON != 0,
        (RCC_CR_RESET_VALUE | RCC_CR_HSE_IS_ON) & RCC_CR_MAIN_PLL_IS_ON == 0,
        ((RCC_CR_RESET_VALUE | RCC_CR_HSE_IS_ON) | RCC_CR_HSI_IS_STABLE | 0 | 0)
            & RCC_CR_HSE_IS_STABLE == 0,
        ((RCC_CR_RESET_VALUE | RCC_CR_HSE_IS_ON) | RCC_CR_HSI_IS_STABLE | RCC_CR_HSE_IS_STABLE
            | 0) & RCC_CR_HSE_IS_STABLE != 0,
        ((RCC_CR_RESET_VALUE | RCC_CR_HSE_IS_ON) | RCC_CR_HSI_IS_STABLE | RCC_CR_HSE_IS_STABLE
            | 0) == (RCC_CR_RESET_VALUE | RCC_CR_HSE_IS_ON | RCC_CR_HSE_IS_STABLE),
        (RCC_CR_RESET_VALUE | RCC_CR_MAIN_PLL_IS_ON) & RCC_CR_HSI_IS_ON != 0,
        (RCC_CR_RESET_VALUE | RCC_CR_MAIN_PLL_IS_ON) & RCC_CR_HSE_IS_ON == 0,
        (RCC_CR_RESET_VALUE | RCC_CR_MAIN_PLL_IS_ON) & RCC_CR_MAIN_PLL_IS_ON != 0,
        ((RCC_CR_RESET_VALUE | RCC_CR_MAIN_PLL_IS_ON) | RCC_CR_HSI_IS_STABLE | 0 | 0)
            & RCC_CR_MAIN_PLL_IS_READY == 0,
        ((RCC_CR_RESET_VALUE | RCC_CR_MAIN_PLL_IS_ON) | RCC_CR_HSI_IS_STABLE | 0
            | RCC_CR_MAIN_PLL_IS_READY) & RCC_CR_MAIN_PLL_IS_READY != 0,
        ((RCC_CR_RESET_VALUE | RCC_CR_HSE_IS_ON | RCC_CR_HSE_IS_STABLE)
            | RCC_CR_MAIN_PLL_IS_ON) == (RCC_CR_RESET_VALUE | RCC_CR_HSE_IS_ON
            | RCC_CR_HSE_IS_STABLE | RCC_CR_MAIN_PLL_IS_ON),
        (RCC_CR_RESET_VALUE | RCC_CR_HSE_IS_ON | RCC_CR_HSE_IS_STABLE | RCC_CR_MAIN_PLL_IS_ON)
            & RCC_CR_HSI_IS_ON != 0,
        (RCC_CR_RESET_VALUE | RCC_CR_HSE_IS_ON | RCC_CR_HSE_IS_STABLE | RCC_CR_MAIN_PLL_IS_ON)
            & RCC_CR_HSE_IS_ON != 0,
        (RCC_CR_RESET_VALUE | RCC_CR_HSE_IS_ON | RCC_CR_HSE_IS_STABLE | RCC_CR_MAIN_PLL_IS_ON)
            & RCC_CR_MAIN_PLL_IS_ON != 0,
        ((RCC_CR_RESET_VALUE | RCC_CR_HSE_IS_ON | RCC_CR_HSE_IS_STABLE | RCC_CR_MAIN_PLL_IS_ON)
            | RCC_CR_HSI_IS_STABLE | RCC_CR_HSE_IS_STABLE | 0) & RCC_CR_MAIN_PLL_IS_READY == 0,
        ((RCC_CR_RESET_VALUE | RCC_CR_HSE_IS_ON | RCC_CR_HSE_IS_STABLE | RCC_CR_MAIN_PLL_IS_ON)
            | RCC_CR_HSI_IS_STABLE | RCC_CR_HSE_IS_STABLE | RCC_CR_MAIN_PLL_IS_READY)
            & RCC_CR_MAIN_PLL_IS_READY != 0,
{
    assert((0x0000_0083u32 & 0x0000_0001u32 != 0) && (0x0000_0083u32 & 0x0001_0000u32 == 0) && (
    0x0000_0083u32 & 0x0100_0000u32 == 0) && ((0x0000_0083u32 | 0x0000_0002u32 | 0u32 | 0u32)
        & 0x0000_0002u32 != 0) && ((0x0000_0083u32 | 0x0000_0002u32 | 0u32 | 0u32)
        == 0x0000_0083u32) && ((0x0000_0083u32 | 0x0001_0000u32) & 0x0000_0001u32 != 0) && ((
    0x0000_0083u32 | 0x0001_0000u32) & 0x0001_0000u32 != 0) && ((0x0000_0083u32 | 0x0001_0000u32)
        & 0x0100_0000u32 == 0) && (((0x0000_0083u32 | 0x0001_0000u32) | 0x0000_0002u32 | 0u32
        | 0u32) & 0x0002_0000u32 == 0) && (((0x0000_0083u32 | 0x0001_0000u32) | 0x0000_0002u32
        | 0x0002_0000u32 | 0u32) & 0x0002_0000u32 != 0) && (((0x0000_0083u32 | 0x0001_0000u32)
        | 0x0000_0002u32 | 0x0002_0000u32 | 0u32) == (0x0000_0083u32 | 0x0001_0000u32
        | 0x0002_0000u32)) && ((0x0000_0083u32 | 0x0100_0000u32) & 0x0000_0001u32 != 0) && ((
    0x0000_0083u32 | 0x0100_0000u32) & 0x0001_0000u32 == 0) && ((0x0000_0083u32 | 0x0100_0000u32)
        & 0x0100_0000u32 != 0) && (((0x0000_0083u32 | 0x0100_0000u32) | 0x0000_0002u32 | 0u32
        | 0u32) & 0x0200_0000u32 == 0) && (((0x0000_0083u32 | 0x0100_0000u32) | 0x0000_0002u32
        | 0u32 | 0x0200_0000u32) & 0x0200_0000u32 != 0) && (((0x0000_0083u32 | 0x0001_0000u32
        | 0x0002_0000u32) | 0x0100_0000u32) == (0x0000_0083u32 | 0x0001_0000u32 | 0x0002_0000u32
        | 0x0100_0000u32)) && ((0x0000_0083u32 | 0x0001_0000u32 | 0x0002_0000u32
        | 0x0100_0000u32) & 0x0000_0001u32 != 0) && ((0x0000_0083u32 | 0x0001_0000u32
        | 0x0002_0000u32 | 0x0100_0000u32) & 0x0001_0000u32 != 0) && ((0x0000_0083u32
        | 0x0001_0000u32 | 0x0002_0000u32 | 0x0100_0000u32) & 0x0100_0000u32 != 0) && (((
    0x0000_0083u32 | 0x0001_0000u32 | 0x0002_0000u32 | 0x0100_0000u32) | 0x0000_0002u32
        | 0x0002_0000u32 | 0u32) & 0x0200_0000u32 == 0) && (((0x0000_0083u32 | 0x0001_0000u32
        | 0x0002_0000u32 | 0x0100_0000u32) | 0x0000_0002u32 | 0x0002_0000u32 | 0x0200_0000u32)
        & 0x0200_0000u32 != 0)) by (bit_vector);
}

} // verus!
