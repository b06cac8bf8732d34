pub mod clock_frequency;
pub mod clock_utils;
pub mod flash_access_control_register;
pub mod pll_calculator;
pub mod rcc_clock_config_register;
pub mod rcc_clock_control_register;
pub mod rcc_clock_settings;
pub mod rcc_pll_config_register;
pub mod register_space;
pub mod system_tick_timer_register;
