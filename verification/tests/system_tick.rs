use stm32f4_clock::register_space::RegisterSpace;
use stm32f4_clock::system_tick_timer_register::{
    system_tick_exception_handler, SystemTickError, SystemTickTimer,
};

#[test]
fn reload_for_16_megahertz() {
    let mut dev = RegisterSpace::new(0, 0, 0, 0);
    let config = SystemTickTimer::enable(&mut dev, 16_000_000, false).expect("reload fits");
    assert_eq!(config.reload_value, 15_999);
    assert!(config.use_cpu_clock);
    assert!(!config.interrupt_enabled);
    assert_eq!(dev.stk_load, 15_999);
    assert_eq!(dev.stk_val, 0);
    assert_eq!(dev.stk_ctrl, 0b101);
}

#[test]
fn reload_for_168_megahertz() {
    let mut dev = RegisterSpace::new(0, 0, 0, 0);
    let config = SystemTickTimer::enable(&mut dev, 168_000_000, false).expect("reload fits");
    assert_eq!(config.reload_value, 167_999);
    assert_eq!(dev.stk_load, 167_999);
}

#[test]
fn enabling_the_exception_sets_its_control_bit() {
    let mut dev = RegisterSpace::new(0, 0, 0, 0);
    let config = SystemTickTimer::enable(&mut dev, 16_000_000, true).expect("reload fits");
    assert!(config.interrupt_enabled);
    assert_eq!(dev.stk_ctrl, 0b111);
}

#[test]
fn reload_beyond_24_bits_is_rejected() {
    let mut dev = RegisterSpace::new(0, 0, 0, 0);
    assert_eq!(
        SystemTickTimer::enable(&mut dev, 16_777_217_000, false),
        Err(SystemTickError::ReloadOverflow)
    );
    assert!(dev.trace.is_empty());
    assert_eq!(dev.stk_load, 0);
}

#[test]
fn largest_fitting_reload_is_accepted() {
    let mut dev = RegisterSpace::new(0, 0, 0, 0);
    let config = SystemTickTimer::enable(&mut dev, 16_777_216_000, false).expect("reload fits");
    assert_eq!(config.reload_value, 0x00FF_FFFF);
}

#[test]
fn countdown_value_reads_the_live_counter() {
    let mut dev = RegisterSpace::new(0, 0, 0, 0);
    SystemTickTimer::enable(&mut dev, 16_000_000, false).expect("reload fits");
    let before = dev.trace.len();
    assert_eq!(SystemTickTimer::get_current_countdown_value(&mut dev), 0);
    assert_eq!(dev.trace.len(), before + 1);
}

#[test]
fn countdown_steps_down_as_it_is_observed() {
    let mut dev = RegisterSpace::new(0, 0, 0, 0);
    SystemTickTimer::enable(&mut dev, 16_000_000, false).expect("reload fits");
    assert_eq!(SystemTickTimer::get_current_countdown_value(&mut dev), 0);
    assert_eq!(SystemTickTimer::get_current_countdown_value(&mut dev), 15_999);
    assert_eq!(SystemTickTimer::get_current_countdown_value(&mut dev), 15_998);
}

#[test]
fn countdown_does_not_advance_while_the_timer_is_off() {
    let mut dev = RegisterSpace::new(0, 0, 0, 0);
    assert_eq!(SystemTickTimer::get_current_countdown_value(&mut dev), 0);
    assert_eq!(SystemTickTimer::get_current_countdown_value(&mut dev), 0);
}

#[test]
fn delay_completes_when_the_countdown_flag_shows() {
    let mut dev = RegisterSpace::new(0, 0, 0, 2);
    assert_eq!(SystemTickTimer::delay(&mut dev, 16_000_000, 3, 5), Ok(()));
}

#[test]
fn delay_of_zero_milliseconds_returns_at_once() {
    let mut dev = RegisterSpace::new(0, 0, 0, 10);
    assert_eq!(SystemTickTimer::delay(&mut dev, 16_000_000, 0, 3), Ok(()));
}

#[test]
fn delay_reports_a_flag_that_never_shows() {
    let mut dev = RegisterSpace::new(0, 0, 0, 10);
    assert_eq!(
        SystemTickTimer::delay(&mut dev, 16_000_000, 1, 3),
        Err(SystemTickError::HardwareNeverStabilized)
    );
}

#[test]
fn exception_handler_counts_one_millisecond_per_call() {
    let mut milliseconds: u32 = 0;
    system_tick_exception_handler(&mut milliseconds);
    assert_eq!(milliseconds, 1);
    system_tick_exception_handler(&mut milliseconds);
    assert_eq!(milliseconds, 2);
}
