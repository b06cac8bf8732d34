use stm32f4_clock::clock_frequency::MegaHertz;
use stm32f4_clock::clock_utils::{ClockSetupError, ClockSource, RccClocks, StabilityWait};
use stm32f4_clock::pll_calculator::PllFactors;
use stm32f4_clock::rcc_pll_config_register::{
    RccPllConfigurationError, RccPllConfigurationRegister,
};
use stm32f4_clock::rcc_clock_config_register::{
    RccClockConfigurationRegister, RccSystemClockSwtich,
};
use stm32f4_clock::register_space::{HardwareNeverStabilized, RegisterAccess, RegisterSpace};

const RCC_CR_ADDRESS: u32 = 0x4002_3800;
const HSE_READY_BIT: u32 = 1 << 17;
const HSI_READY_BIT: u32 = 1 << 1;
const PLL_ENABLE_BIT: u32 = 1 << 24;

#[test]
fn internal_oscillator_profile() {
    let profile = RccClocks::create_rcc_clocks(&ClockSource::Hsi);
    assert_eq!(profile.clock_source, ClockSource::Hsi);
    assert_eq!(profile.system_clock, Some(MegaHertz(16)));
    assert_eq!(profile.hardware_cpu_clock, Some(MegaHertz(16)));
    assert_eq!(profile.pll_m, None);
    assert_eq!(profile.apb1_peripheral_clock, Some(MegaHertz(4)));
    assert_eq!(profile.apb1_timer_clock, Some(MegaHertz(8)));
    assert_eq!(profile.apb2_peripheral_clock, Some(MegaHertz(8)));
    assert_eq!(profile.apb2_timer_clock, Some(MegaHertz(16)));
}

#[test]
fn internal_oscillator_through_pll_reaches_168_megahertz() {
    let mut dev = RegisterSpace::new(0, 0, 0, 0);
    let profile = RccClocks::setup_system_clock(&mut dev, ClockSource::HsiThroughPll, 8)
        .expect("setup should succeed");
    assert_eq!(profile.system_clock, Some(MegaHertz(168)));
    assert_eq!(profile.hardware_cpu_clock, Some(MegaHertz(168)));
    assert_eq!(profile.pll_m, Some(16));
    assert_eq!(profile.pll_n, Some(336));
    assert_eq!(profile.pll_p, Some(2));
    assert_eq!(profile.pll_q, Some(4));
    assert_eq!(profile.ahb_prescaler, Some(1));
    assert_eq!(profile.apb1_peripheral_clock, Some(MegaHertz(42)));
    assert_eq!(profile.apb1_timer_clock, Some(MegaHertz(84)));
    assert_eq!(profile.apb2_peripheral_clock, Some(MegaHertz(84)));
    assert_eq!(profile.apb2_timer_clock, Some(MegaHertz(168)));
}

#[test]
fn external_oscillator_path_programs_the_registers() {
    let mut dev = RegisterSpace::new(2, 3, 1, 0);
    let profile = RccClocks::setup_system_clock(&mut dev, ClockSource::HseThroughPll, 8)
        .expect("setup should succeed");
    assert_eq!(profile.system_clock, Some(MegaHertz(168)));
    // The enable steps accumulate onto the reset pattern: HSI stays on,
    // HSE and PLL enables are added (the stable bit written back by the
    // read-modify-write is a read-only status bit the hardware ignores).
    assert_eq!(dev.rcc_cr, 0x83 | (1 << 16) | (1 << 17) | (1 << 24));
    assert_eq!(dev.rcc_pllcfgr, 8 | (336 << 6) | (4 << 24) | (1 << 22));
    assert_eq!(dev.flash_acr, 0x0705);
    assert_eq!(dev.rcc_cfgr, (0b101 << 10) | (0b100 << 13) | 0b10);
    assert_eq!(dev.completed_switch, 0b10);
    assert!(!dev.switch_pending);
}

#[test]
fn enabling_the_pll_keeps_the_internal_oscillator_running() {
    let mut dev = RegisterSpace::new(0, 0, 0, 0);
    RccClocks::setup_system_clock(&mut dev, ClockSource::HsiThroughPll, 8)
        .expect("setup should succeed");
    assert_eq!(dev.rcc_cr, 0x83 | (1 << 24));
    assert_ne!(dev.rcc_cr & 0x1, 0, "the HSI enable bit must survive the PLL enable");
}

#[test]
fn enabling_the_hse_keeps_the_internal_oscillator_running() {
    let mut dev = RegisterSpace::new(1, 0, 0, 0);
    stm32f4_clock::rcc_clock_control_register::RccClockControlRegister::reset(&mut dev);
    stm32f4_clock::rcc_clock_control_register::RccClockControlRegister::enable_hse_as_clock_source_and_wait_for_it_stable(
        &mut dev, 4,
    )
    .expect("the oscillator stabilizes within budget");
    assert_eq!(dev.rcc_cr, 0x83 | (1 << 16));
    assert_ne!(dev.rcc_cr & 0x1, 0, "the HSI enable bit must survive the HSE enable");
}

#[test]
fn internal_oscillator_touches_neither_pll_nor_switch_registers() {
    let mut dev = RegisterSpace::new(0, 0, 0, 0);
    RccClocks::setup_system_clock(&mut dev, ClockSource::Hsi, 8).expect("setup should succeed");
    assert_eq!(dev.trace.len(), 1);
    assert_eq!(
        dev.trace[0],
        RegisterAccess::Write { address: RCC_CR_ADDRESS, value: 0x0000_0083 }
    );
    assert_eq!(dev.rcc_pllcfgr, 0);
    assert_eq!(dev.rcc_cfgr, 0);
}

fn assert_pll_enable_gated(trace: &[RegisterAccess], ready_bit: u32) {
    let pll_write = trace.iter().position(|access| match access {
        RegisterAccess::Write { address, value } => {
            *address == RCC_CR_ADDRESS && value & PLL_ENABLE_BIT != 0
        }
        _ => false,
    });
    let pll_write = pll_write.expect("the PLL enable write should be recorded");
    let ready_read = trace[..pll_write].iter().any(|access| match access {
        RegisterAccess::Read { address, value } => {
            *address == RCC_CR_ADDRESS && value & ready_bit != 0
        }
        _ => false,
    });
    assert!(
        ready_read,
        "the PLL enable write must come after the oscillator was observed ready"
    );
}

#[test]
fn pll_enable_follows_hse_ready_observation() {
    let mut dev = RegisterSpace::new(3, 2, 1, 0);
    RccClocks::setup_system_clock(&mut dev, ClockSource::HseThroughPll, 8)
        .expect("setup should succeed");
    assert_pll_enable_gated(&dev.trace, HSE_READY_BIT);
}

#[test]
fn pll_enable_follows_hsi_ready_observation() {
    let mut dev = RegisterSpace::new(0, 2, 1, 0);
    RccClocks::setup_system_clock(&mut dev, ClockSource::HsiThroughPll, 8)
        .expect("setup should succeed");
    assert_pll_enable_gated(&dev.trace, HSI_READY_BIT);
}

#[test]
fn oscillator_that_never_stabilizes_is_reported() {
    let mut dev = RegisterSpace::new(10, 0, 0, 0);
    assert_eq!(
        RccClocks::setup_system_clock(&mut dev, ClockSource::HseThroughPll, 5),
        Err(ClockSetupError::HardwareNeverStabilized(StabilityWait::Oscillator))
    );
}

#[test]
fn pll_that_never_stabilizes_is_reported() {
    let mut dev = RegisterSpace::new(0, 10, 0, 0);
    assert_eq!(
        RccClocks::setup_system_clock(&mut dev, ClockSource::HsiThroughPll, 5),
        Err(ClockSetupError::HardwareNeverStabilized(StabilityWait::MainPll))
    );
}

#[test]
fn switch_that_never_completes_is_reported() {
    let mut dev = RegisterSpace::new(0, 0, 10, 0);
    assert_eq!(
        RccClocks::setup_system_clock(&mut dev, ClockSource::HseThroughPll, 5),
        Err(ClockSetupError::HardwareNeverStabilized(StabilityWait::SystemClockSwitch))
    );
}

#[test]
fn invalid_factor_writes_no_register() {
    let mut dev = RegisterSpace::new(0, 0, 0, 0);
    let factors = PllFactors { m: 1, n: 336, p: 2, q: 4 };
    assert_eq!(
        RccPllConfigurationRegister::set_pll_mnpq(&mut dev, &factors, false),
        Err(RccPllConfigurationError::WrongPllMConfiguration(1))
    );
    assert!(dev.trace.is_empty());
    assert_eq!(dev.rcc_pllcfgr, 0);
}

#[test]
fn switching_to_the_source_already_in_use_completes_at_once() {
    let mut dev = RegisterSpace::new(0, 0, 100, 0);
    assert_eq!(
        RccClockConfigurationRegister::switch_clock_source_and_wait_for_stable(
            &mut dev,
            RccSystemClockSwtich::HsiSelectedAsSytemClock,
            1,
        ),
        Ok(())
    );
}

#[test]
fn switch_echoes_the_requested_source_after_its_polls() {
    let mut dev = RegisterSpace::new(0, 0, 2, 0);
    assert_eq!(
        RccClockConfigurationRegister::switch_clock_source_and_wait_for_stable(
            &mut dev,
            RccSystemClockSwtich::PllSelectedAsSytemClock,
            5,
        ),
        Ok(())
    );
    assert_eq!(dev.completed_switch, 0b10);
}

#[test]
fn switch_out_of_poll_budget_fails() {
    let mut dev = RegisterSpace::new(0, 0, 10, 0);
    assert_eq!(
        RccClockConfigurationRegister::switch_clock_source_and_wait_for_stable(
            &mut dev,
            RccSystemClockSwtich::PllSelectedAsSytemClock,
            2,
        ),
        Err(HardwareNeverStabilized)
    );
}

#[test]
fn cpu_clock_frequency_in_hertz_widens_the_profile() {
    let mut dev = RegisterSpace::new(0, 0, 0, 0);
    let profile = RccClocks::setup_system_clock(&mut dev, ClockSource::HsiThroughPll, 8)
        .expect("setup should succeed");
    assert_eq!(profile.get_cpu_clock_frequency_in_hertz(), 168_000_000);
}
