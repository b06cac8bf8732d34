use stm32f4_clock::flash_access_control_register::{
    FlashAccessControlRegister, FlashReadLatency,
};
use stm32f4_clock::pll_calculator::PllFactors;
use stm32f4_clock::rcc_clock_config_register::{
    RccAhbPrescaler, RccApbPrescaler, RccClockConfigurationRegister, RccSystemClockSwtich,
    RccSystemClockSwtichStatus,
};
use stm32f4_clock::rcc_clock_control_register::RccClockControlRegister;
use stm32f4_clock::rcc_pll_config_register::RccPllConfigurationRegister;
use stm32f4_clock::system_tick_timer_register::SystemTickTimer;

#[test]
fn ahb_prescaler_register_bits_round_trip() {
    let members = [
        RccAhbPrescaler::SystemClockNotDivided,
        RccAhbPrescaler::SystemClockDividedBy2,
        RccAhbPrescaler::SystemClockDividedBy4,
        RccAhbPrescaler::SystemClockDividedBy8,
        RccAhbPrescaler::SystemClockDividedBy16,
        RccAhbPrescaler::SystemClockDividedBy64,
        RccAhbPrescaler::SystemClockDividedBy128,
        RccAhbPrescaler::SystemClockDividedBy256,
        RccAhbPrescaler::SystemClockDividedBy512,
    ];
    for member in members {
        assert_eq!(RccAhbPrescaler::from_register_bits(member.to_register_bits()), member);
    }
}

#[test]
fn apb_prescaler_register_bits_round_trip() {
    let members = [
        RccApbPrescaler::AhbClockNotDivided,
        RccApbPrescaler::AhbClockDividedBy2,
        RccApbPrescaler::AhbClockDividedBy4,
        RccApbPrescaler::AhbClockDividedBy8,
        RccApbPrescaler::AhbClockDividedBy16,
    ];
    for member in members {
        assert_eq!(RccApbPrescaler::from_register_bits(member.to_register_bits()), member);
    }
}

#[test]
fn system_clock_switch_register_bits_round_trip() {
    let members = [
        RccSystemClockSwtich::NotAllowed,
        RccSystemClockSwtich::HsiSelectedAsSytemClock,
        RccSystemClockSwtich::HseSelectedAsSytemClock,
        RccSystemClockSwtich::PllSelectedAsSytemClock,
    ];
    for member in members {
        assert_eq!(RccSystemClockSwtich::from_register_bits(member.to_register_bits()), member);
    }
}

#[test]
fn prescaler_divisor_round_trips() {
    for divisor in [1u32, 2, 4, 8, 16, 64, 128, 256, 512] {
        let prescaler = RccAhbPrescaler::from(divisor);
        assert_eq!(u32::from(prescaler), divisor);
    }
    for divisor in [1u32, 2, 4, 8, 16] {
        let prescaler = RccApbPrescaler::from(divisor);
        assert_eq!(u32::from(prescaler), divisor);
    }
}

#[test]
fn unlisted_divisors_mean_not_divided() {
    assert_eq!(RccAhbPrescaler::from(3u32), RccAhbPrescaler::SystemClockNotDivided);
    assert_eq!(RccApbPrescaler::from(32u32), RccApbPrescaler::AhbClockNotDivided);
}

#[test]
fn flash_latency_wait_state_encoding() {
    assert_eq!(FlashReadLatency::from(0u32), FlashReadLatency::ZeroWaitState1CpuCycle);
    assert_eq!(FlashReadLatency::from(7u32), FlashReadLatency::SevenWaitState8CpuCycles);
    assert_eq!(FlashReadLatency::from(9u32), FlashReadLatency::WrongSetting);
    assert_eq!(FlashReadLatency::from(3u32).to_register_bits(), 3);
}

#[test]
fn flash_latency_table_by_cpu_frequency() {
    assert_eq!(
        FlashReadLatency::for_cpu_frequency(30_000_000),
        FlashReadLatency::ZeroWaitState1CpuCycle
    );
    assert_eq!(
        FlashReadLatency::for_cpu_frequency(30_000_001),
        FlashReadLatency::OneWaitState2CpuCycles
    );
    assert_eq!(
        FlashReadLatency::for_cpu_frequency(168_000_000),
        FlashReadLatency::FiveWaitState6CpuCycles
    );
    assert_eq!(
        FlashReadLatency::for_cpu_frequency(1_000_000_000),
        FlashReadLatency::SevenWaitState8CpuCycles
    );
}

#[test]
fn flash_configuration_value_sets_caches_and_latency() {
    assert_eq!(FlashAccessControlRegister::configuration_value(5), 0x0705);
    let fields = FlashAccessControlRegister::decode(0x0705);
    assert_eq!(fields.read_latency, FlashReadLatency::FiveWaitState6CpuCycles);
    assert!(fields.prefetch_enabled);
    assert!(fields.instruction_cache_enabled);
    assert!(fields.data_cache_enabled);
}

#[test]
fn clock_control_decode_reset_value() {
    let fields = RccClockControlRegister::decode(0x0000_0083);
    assert!(fields.hsi_is_on);
    assert!(fields.hsi_is_stable);
    assert!(!fields.hse_is_on);
    assert!(!fields.hse_is_stable);
    assert!(!fields.hse_bypass);
    assert!(!fields.clock_security_is_on);
    assert!(!fields.main_pll_is_on);
    assert!(!fields.main_pll_is_ready);
    assert!(!fields.pll_i2s_is_on);
    assert!(!fields.pll_i2s_is_ready);
}

#[test]
fn clock_configuration_decode() {
    let value = 0b10 | (0b10 << 2) | (0b1001 << 4) | (0b101 << 10) | (0b100 << 13);
    let fields = RccClockConfigurationRegister::decode(value);
    assert_eq!(fields.system_clock_switch, RccSystemClockSwtich::PllSelectedAsSytemClock);
    assert_eq!(
        fields.system_clock_switch_status,
        RccSystemClockSwtichStatus::PllUsedAsSytemClock
    );
    assert_eq!(fields.ahb_prescaler, RccAhbPrescaler::SystemClockDividedBy4);
    assert_eq!(fields.apb1_prescaler, RccApbPrescaler::AhbClockDividedBy4);
    assert_eq!(fields.apb2_prescaler, RccApbPrescaler::AhbClockDividedBy2);
}

#[test]
fn pll_configuration_bits_decode_back() {
    let factors = PllFactors { m: 8, n: 336, p: 2, q: 4 };
    let value = RccPllConfigurationRegister::pll_register_bits(&factors, true);
    assert_eq!(value, 8 | (336 << 6) | (4 << 24) | (1 << 22));
    let fields = RccPllConfigurationRegister::decode(value);
    assert_eq!(fields.pll_m, Ok(8));
    assert_eq!(fields.pll_n, Ok(336));
    assert_eq!(fields.pll_p, 2);
    assert_eq!(fields.pll_q, Ok(4));
    assert!(fields.pll_source_is_hse);
}

#[test]
fn system_tick_decode() {
    let fields = SystemTickTimer::decode(0x7 | (1 << 16), 15_999);
    assert!(fields.counter_enabled);
    assert!(fields.exception_request_enabled);
    assert!(fields.use_cpu_clock_frequency);
    assert!(fields.countdown_reached_zero);
    assert_eq!(fields.reload_value, 15_999);
}
