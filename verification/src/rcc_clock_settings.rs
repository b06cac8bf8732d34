//! Register addresses and the board clock profile.
//!
//! The addresses name the memory-mapped registers of the reset and clock
//! control block (RCC), the flash interface, and the system tick timer.
//! The profile constants describe one target board: the fixed oscillator
//! frequencies and, for each oscillator, the PLL factor and bus prescaler
//! table that reaches the board's maximum operating frequency. The core
//! treats these as an opaque configuration table supplied by the board
//! layer; it validates them but never derives them.

use vstd::prelude::*;

verus! {

// ------ Register addresses ----------------------------------

/// RCC clock control register (RCC_CR).
pub const RCC_CR: u32 = 0x4002_3800;

/// RCC PLL configuration register (RCC_PLLCFGR).
pub const RCC_PLLCFGR: u32 = 0x4002_3804;

/// RCC clock configuration register (RCC_CFGR).
pub const RCC_CFGR: u32 = 0x4002_3808;

/// Flash access control register (FLASH_ACR).
pub const FLASH_ACR: u32 = 0x4002_3C00;

/// System tick timer control and status register (STK_CTRL).
pub const STK_CTRL: u32 = 0xE000_E010;

/// System tick timer reload value register (STK_LOAD).
pub const STK_LOAD: u32 = 0xE000_E014;

/// System tick timer current value register (STK_VAL).
pub const STK_VAL: u32 = 0xE000_E018;

// ------ Board clock profile ---------------------------------

/// Highest system clock frequency the board supports, in hertz.
pub const SYS_CLOCK_MAX_SPEED: u32 = 168_000_000;

/// Frequency of the internal RC oscillator (HSI), in hertz.
pub const HSI_FREQUENCY: u32 = 16_000_000;

/// Frequency of the external crystal oscillator (HSE), in hertz.
pub const HSE_FREQUENCY: u32 = 8_000_000;

// Factor table used when the PLL runs from the internal oscillator.
// M, N and P are chosen so that 16 MHz / M * N / P reaches the maximum
// system clock frequency.

pub const AHB_PRESCALER_FOR_HSI: u32 = 1;

pub const APB1_PRESCALER_FOR_HSI: u32 = 4;

pub const APB2_PRESCALER_FOR_HSI: u32 = 2;

/// PLL input pre-divider M for the internal oscillator; legal range 2..=63.
pub const PLL_M_PRESCALER_FOR_HSI: u32 = 16;

/// PLL multiplier N for the internal oscillator; legal range 50..=432.
pub const PLL_N_PRESCALER_FOR_HSI: u32 = 336;

/// PLL system post-divider P for the internal oscillator; one of 2, 4, 6, 8.
pub const PLL_P_PRESCALER_FOR_HSI: u32 = 2;

/// PLL auxiliary post-divider Q for the internal oscillator; legal range 2..=15.
pub const PLL_Q_PRESCALER_FOR_HSI: u32 = 4;

// Factor table used when the PLL runs from the external oscillator.

pub const AHB_PRESCALER_FOR_HSE: u32 = 1;

pub const APB1_PRESCALER_FOR_HSE: u32 = 4;

pub const APB2_PRESCALER_FOR_HSE: u32 = 2;

/// PLL input pre-divider M for the external oscillator; legal range 2..=63.
pub const PLL_M_PRESCALER_FOR_HSE: u32 = 8;

/// PLL multiplier N for the external oscillator; legal range 50..=432.
pub const PLL_N_PRESCALER_FOR_HSE: u32 = 336;

/// PLL system post-divider P for the external oscillator; one of 2, 4, 6, 8.
pub const PLL_P_PRESCALER_FOR_HSE: u32 = 2;

/// PLL auxiliary post-divider Q for the external oscillator; legal range 2..=15.
pub const PLL_Q_PRESCALER_FOR_HSE: u32 = 4;

} // verus!
