//! RCC clock configuration register (RCC_CFGR): bit layout, the system
//! clock switch and bus prescaler encodings, and decoding.
//!
//! Every enumerated field has a total encode/decode pair: encoding a
//! member yields its documented bit pattern, and decoding any legal bit
//! pattern yields exactly one member (patterns the hardware treats as
//! "no division" all decode to the undivided member). The round-trip
//! laws at the end of the module state this once and for all members.

use vstd::prelude::*;
use crate::register_space::{RegisterSpace, RegisterAccess, HardwareNeverStabilized};
use crate::rcc_clock_settings::{RCC_CFGR, AHB_PRESCALER_FOR_HSI, AHB_PRESCALER_FOR_HSE,
    APB1_PRESCALER_FOR_HSI, APB1_PRESCALER_FOR_HSE, APB2_PRESCALER_FOR_HSI,
    APB2_PRESCALER_FOR_HSE};

verus! {

/// Bits 0..=1: system clock switch (SW), the requested clock source.
pub const RCC_CFGR_SYS_CLOCK_SWITCH_BITS: u32 = 0x0000_0003;

/// Bit offset of the system clock switch field.
pub const RCC_CFGR_SYS_CLOCK_SWITCH_START_BIT: u32 = 0;

/// Bits 2..=3: system clock switch status (SWS), the source in use.
pub const RCC_CFGR_SYS_CLOCK_SWITCH_STATUS_BITS: u32 = 0x0000_000C;

/// Bit offset of the system clock switch status field.
pub const RCC_CFGR_SYS_CLOCK_SWITCH_STATUS_START_BIT: u32 = 2;

/// Bits 4..=7: AHB prescaler (HPRE).
pub const RCC_CFGR_AHB_PRESCALER_BITS: u32 = 0x0000_00F0;

/// Bit offset of the AHB prescaler field.
pub const RCC_CFGR_AHB_PRESCALER_START_BIT: u32 = 4;

/// Bits 10..=12: APB1 (low speed) prescaler (PPRE1).
pub const RCC_CFGR_APB1_LOW_SPEED_PRESCALER_BITS: u32 = 0x0000_1C00;

/// Bit offset of the APB1 prescaler field.
pub const RCC_CFGR_APB1_LOW_SPEED_PRESCALER_START_BIT: u32 = 10;

/// Bits 13..=15: APB2 (high speed) prescaler (PPRE2).
pub const RCC_CFGR_APB2_HIGH_SPEED_PRESCALER_BITS: u32 = 0x0000_E000;

/// Bit offset of the APB2 prescaler field.
pub const RCC_CFGR_APB2_HIGH_SPEED_PRESCALER_START_BIT: u32 = 13;

/// All bits of RCC_CFGR except the switch status field.
pub const RCC_CFGR_SYS_CLOCK_SWITCH_STATUS_CLEAR: u32 = 0xFFFF_FFF3;

/// All bits of RCC_CFGR except the switch and switch status fields.
pub const RCC_CFGR_SYS_CLOCK_SWITCH_AND_STATUS_CLEAR: u32 = 0xFFFF_FFF0;

/// The requested system clock source, as the 2-bit switch field encodes it.
#[derive(Clone, Copy, Debug, PartialEq, Eq, Structural)]
pub enum RccSystemClockSwtich {
    NotAllowed,
    HsiSelectedAsSytemClock,
    HseSelectedAsSytemClock,
    PllSelectedAsSytemClock,
}

/// The system clock source in use, as the 2-bit status field reports it.
#[derive(Clone, Copy, Debug, PartialEq, Eq, Structural)]
pub enum RccSystemClockSwtichStatus {
    NotApplicable,
    HsiUsedAsSytemClock,
    HseUsedAsSytemClock,
    PllUsedAsSytemClock,
}

/// Divisor applied to the system clock to derive the AHB (CPU) clock.
#[derive(Clone, Copy, Debug, PartialEq, Eq, Structural)]
pub enum RccAhbPrescaler {
    SystemClockNotDivided,
    SystemClockDividedBy2,
    SystemClockDividedBy4,
    SystemClockDividedBy8,
    SystemClockDividedBy16,
    SystemClockDividedBy64,
    SystemClockDividedBy128,
    SystemClockDividedBy256,
    SystemClockDividedBy512,
}

/// Divisor applied to the AHB clock to derive an APB bus clock.
#[derive(Clone, Copy, Debug, PartialEq, Eq, Structural)]
pub enum RccApbPrescaler {
    AhbClockNotDivided,
    AhbClockDividedBy2,
    AhbClockDividedBy4,
    AhbClockDividedBy8,
    AhbClockDividedBy16,
}

/// Bit pattern of a requested system clock source.
pub open spec fn spec_system_clock_switch_bits(value: RccSystemClockSwtich) -> u32 {
    match value {
        RccSystemClockSwtich::NotAllowed => 0b11,
        RccSystemClockSwtich::HsiSelectedAsSytemClock => 0b00,
        RccSystemClockSwtich::HseSelectedAsSytemClock => 0b01,
        RccSystemClockSwtich::PllSelectedAsSytemClock => 0b10,
    }
}

/// Requested system clock source a 2-bit switch pattern decodes to.
pub open spec fn spec_system_clock_switch_from_bits(bits: u32) -> RccSystemClockSwtich {
    if bits == 0b00 {
        RccSystemClockSwtich::HsiSelectedAsSytemClock
    } else if bits == 0b01 {
        RccSystemClockSwtich::HseSelectedAsSytemClock
    } else if bits == 0b10 {
        RccSystemClockSwtich::PllSelectedAsSytemClock
    } else {
        RccSystemClockSwtich::NotAllowed
    }
}

/// Source-in-use a 2-bit status pattern decodes to.
pub open spec fn spec_system_clock_switch_status_from_bits(bits: u32) -> RccSystemClockSwtichStatus {
    if bits == 0b00 {
        RccSystemClockSwtichStatus::HsiUsedAsSytemClock
    } else if bits == 0b01 {
        RccSystemClockSwtichStatus::HseUsedAsSytemClock
    } else if bits == 0b10 {
        RccSystemClockSwtichStatus::PllUsedAsSytemClock
    } else {
        RccSystemClockSwtichStatus::NotApplicable
    }
}

/// Bit pattern of an AHB prescaler.
pub open spec fn spec_ahb_prescaler_register_bits(value: RccAhbPrescaler) -> u32 {
    match value {
        RccAhbPrescaler::SystemClockNotDivided => 0b0000,
        RccAhbPrescaler::SystemClockDividedBy2 => 0b1000,
        RccAhbPrescaler::SystemClockDividedBy4 => 0b1001,
        RccAhbPrescaler::SystemClockDividedBy8 => 0b1010,
        RccAhbPrescaler::SystemClockDividedBy16 => 0b1011,
        RccAhbPrescaler::SystemClockDividedBy64 => 0b1100,
        RccAhbPrescaler::SystemClockDividedBy128 => 0b1101,
        RccAhbPrescaler::SystemClockDividedBy256 => 0b1110,
        RccAhbPrescaler::SystemClockDividedBy512 => 0b1111,
    }
}

/// AHB prescaler a 4-bit pattern decodes to; patterns without the top
/// bit set all mean "not divided".
pub open spec fn spec_ahb_prescaler_from_register_bits(bits: u32) -> RccAhbPrescaler {
    if bits == 0b1000 {
        RccAhbPrescaler::SystemClockDividedBy2
    } else if bits == 0b1001 {
        RccAhbPrescaler::SystemClockDividedBy4
    } else if bits == 0b1010 {
        RccAhbPrescaler::SystemClockDividedBy8
    } else if bits == 0b1011 {
        RccAhbPrescaler::SystemClockDividedBy16
    } else if bits == 0b1100 {
        RccAhbPrescaler::SystemClockDividedBy64
    } else if bits == 0b1101 {
        RccAhbPrescaler::SystemClockDividedBy128
    } else if bits == 0b1110 {
        RccAhbPrescaler::SystemClockDividedBy256
    } else if bits == 0b1111 {
        RccAhbPrescaler::SystemClockDividedBy512
    } else {
        RccAhbPrescaler::SystemClockNotDivided
    }
}

/// Division factor of an AHB prescaler.
pub open spec fn spec_ahb_prescaler_divisor(value: RccAhbPrescaler) -> u32 {
    match value {
        RccAhbPrescaler::SystemClockNotDivided => 1,
        RccAhbPrescaler::SystemClockDividedBy2 => 2,
        RccAhbPrescaler::SystemClockDividedBy4 => 4,
        RccAhbPrescaler::SystemClockDividedBy8 => 8,
        RccAhbPrescaler::SystemClockDividedBy16 => 16,
        RccAhbPrescaler::SystemClockDividedBy64 => 64,
        RccAhbPrescaler::SystemClockDividedBy128 => 128,
        RccAhbPrescaler::SystemClockDividedBy256 => 256,
        RccAhbPrescaler::SystemClockDividedBy512 => 512,
    }
}

/// AHB prescaler with a given division factor; unlisted factors mean
/// "not divided".
pub open spec fn spec_ahb_prescaler_from_divisor(value: u32) -> RccAhbPrescaler {
    if value == 2 {
        RccAhbPrescaler::SystemClockDividedBy2
    } else if value == 4 {
        RccAhbPrescaler::SystemClockDividedBy4
    } else if value == 8 {
        RccAhbPrescaler::SystemClockDividedBy8
    } else if value == 16 {
        RccAhbPrescaler::SystemClockDividedBy16
    } else if value == 64 {
        RccAhbPrescaler::SystemClockDividedBy64
    } else if value == 128 {
        RccAhbPrescaler::SystemClockDividedBy128
    } else if value == 256 {
        RccAhbPrescaler::SystemClockDividedBy256
    } else if value == 512 {
        RccAhbPrescaler::SystemClockDividedBy512
    } else {
        RccAhbPrescaler::SystemClockNotDivided
    }
}

/// Bit pattern of an APB prescaler.
pub open spec fn spec_apb_prescaler_register_bits(value: RccApbPrescaler) -> u32 {
    match value {
        RccApbPrescaler::AhbClockNotDivided => 0b000,
        RccApbPrescaler::AhbClockDividedBy2 => 0b100,
        RccApbPrescaler::AhbClockDividedBy4 => 0b101,
        RccApbPrescaler::AhbClockDividedBy8 => 0b110,
        RccApbPrescaler::AhbClockDividedBy16 => 0b111,
    }
}

/// APB prescaler a 3-bit pattern decodes to; patterns without the top
/// bit set all mean "not divided".
pub open spec fn spec_apb_prescaler_from_register_bits(bits: u32) -> RccApbPrescaler {
    if bits == 0b100 {
        RccApbPrescaler::AhbClockDividedBy2
    } else if bits == 0b101 {
        RccApbPrescaler::AhbClockDividedBy4
    } else if bits == 0b110 {
        RccApbPrescaler::AhbClockDividedBy8
    } else if bits == 0b111 {
        RccApbPrescaler::AhbClockDividedBy16
    } else {
        RccApbPrescaler::AhbClockNotDivided
    }
}

/// Division factor of an APB prescaler.
pub open spec fn spec_apb_prescaler_divisor(value: RccApbPrescaler) -> u32 {
    match value {
        RccApbPrescaler::AhbClockNotDivided => 1,
        RccApbPrescaler::AhbClockDividedBy2 => 2,
        RccApbPrescaler::AhbClockDividedBy4 => 4,
        RccApbPrescaler::AhbClockDividedBy8 => 8,
        RccApbPrescaler::AhbClockDividedBy16 => 16,
    }
}

/// APB prescaler with a given division factor; unlisted factors mean
/// "not divided".
pub open spec fn spec_apb_prescaler_from_divisor(value: u32) -> RccApbPrescaler {
    if value == 2 {
        RccApbPrescaler::AhbClockDividedBy2
    } else if value == 4 {
        RccApbPrescaler::AhbClockDividedBy4
    } else if value == 8 {
        RccApbPrescaler::AhbClockDividedBy8
    } else if value == 16 {
        RccApbPrescaler::AhbClockDividedBy16
    } else {
        RccApbPrescaler::AhbClockNotDivided
    }
}

impl RccSystemClockSwtich {
    /// Encode the requested source as its 2-bit switch pattern.
    pub fn to_register_bits(&self) -> (r: u32)
        ensures
            r == spec_system_clock_switch_bits(*self),
    {
        match self {
            RccSystemClockSwtich::NotAllowed => 0b11,
            RccSystemClockSwtich::HsiSelectedAsSytemClock => 0b00,
            RccSystemClockSwtich::HseSelectedAsSytemClock => 0b01,
            RccSystemClockSwtich::PllSelectedAsSytemClock => 0b10,
        }
    }

    /// Decode a 2-bit switch pattern into the requested source.
    pub fn from_register_bits(bits: u32) -> (r: RccSystemClockSwtich)
        ensures
            r == spec_system_clock_switch_from_bits(bits),
    {
        if bits == 0b00 {
            RccSystemClockSwtich::HsiSelectedAsSytemClock
        } else if bits == 0b01 {
            RccSystemClockSwtich::HseSelectedAsSytemClock
        } else if bits == 0b10 {
            RccSystemClockSwtich::PllSelectedAsSytemClock
        } else {
            RccSystemClockSwtich::NotAllowed
        }
    }
}

impl RccSystemClockSwtichStatus {
    /// Decode a 2-bit status pattern into the source in use.
    pub fn from_register_bits(bits: u32) -> (r: RccSystemClockSwtichStatus)
        ensures
            r == spec_system_clock_switch_status_from_bits(bits),
    {
        if bits == 0b00 {
            RccSystemClockSwtichStatus::HsiUsedAsSytemClock
        } else if bits == 0b01 {
            RccSystemClockSwtichStatus::HseUsedAsSytemClock
        } else if bits == 0b10 {
            RccSystemClockSwtichStatus::PllUsedAsSytemClock
        } else {
            RccSystemClockSwtichStatus::NotApplicable
        }
    }
}

impl RccAhbPrescaler {
    /// Encode the prescaler as its 4-bit register pattern.
    pub fn to_register_bits(&self) -> (r: u32)
        ensures
            r == spec_ahb_prescaler_register_bits(*self),
    {
        match self {
            RccAhbPrescaler::SystemClockNotDivided => 0b0000,
            RccAhbPrescaler::SystemClockDividedBy2 => 0b1000,
            RccAhbPrescaler::SystemClockDividedBy4 => 0b1001,
            RccAhbPrescaler::SystemClockDividedBy8 => 0b1010,
            RccAhbPrescaler::SystemClockDividedBy16 => 0b1011,
            RccAhbPrescaler::SystemClockDividedBy64 => 0b1100,
            RccAhbPrescaler::SystemClockDividedBy128 => 0b1101,
            RccAhbPrescaler::SystemClockDividedBy256 => 0b1110,
            RccAhbPrescaler::SystemClockDividedBy512 => 0b1111,
        }
    }

    /// Decode a 4-bit register pattern into the prescaler it selects.
    pub fn from_register_bits(bits: u32) -> (r: RccAhbPrescaler)
        ensures
            r == spec_ahb_prescaler_from_register_bits(bits),
    {
        if bits == 0b1000 {
            RccAhbPrescaler::SystemClockDividedBy2
        } else if bits == 0b1001 {
            RccAhbPrescaler::SystemClockDividedBy4
        } else if bits == 0b1010 {
            RccAhbPrescaler::SystemClockDividedBy8
        } else if bits == 0b1011 {
            RccAhbPrescaler::SystemClockDividedBy16
        } else if bits == 0b1100 {
            RccAhbPrescaler::SystemClockDividedBy64
        } else if bits == 0b1101 {
            RccAhbPrescaler::SystemClockDividedBy128
        } else if bits == 0b1110 {
            RccAhbPrescaler::SystemClockDividedBy256
        } else if bits == 0b1111 {
            RccAhbPrescaler::SystemClockDividedBy512
        } else {
            RccAhbPrescaler::SystemClockNotDivided
        }
    }
}

impl From<RccAhbPrescaler> for u32 {
    /// Division factor of the prescaler.
    fn from(value: RccAhbPrescaler) -> (r: u32) {
        match value {
            RccAhbPrescaler::SystemClockNotDivided => 1,
            RccAhbPrescaler::SystemClockDividedBy2 => 2,
            RccAhbPrescaler::SystemClockDividedBy4 => 4,
            RccAhbPrescaler::SystemClockDividedBy8 => 8,
            RccAhbPrescaler::SystemClockDividedBy16 => 16,
            RccAhbPrescaler::SystemClockDividedBy64 => 64,
            RccAhbPrescaler::SystemClockDividedBy128 => 128,
            RccAhbPrescaler::SystemClockDividedBy256 => 256,
            RccAhbPrescaler::SystemClockDividedBy512 => 512,
        }
    }
}

impl vstd::std_specs::convert::FromSpecImpl<RccAhbPrescaler> for u32 {
    open spec fn obeys_from_spec() -> bool {
        true
    }

    open spec fn from_spec(v: RccAhbPrescaler) -> u32 {
        spec_ahb_prescaler_divisor(v)
    }
}

impl From<u32> for RccAhbPrescaler {
    /// Prescaler with the given division factor; unlisted factors mean
    /// "not divided".
    fn from(value: u32) -> (r: RccAhbPrescaler) {
        if value == 2 {
            RccAhbPrescaler::SystemClockDividedBy2
        } else if value == 4 {
            RccAhbPrescaler::SystemClockDividedBy4
        } else if value == 8 {
            RccAhbPrescaler::SystemClockDividedBy8
        } else if value == 16 {
            RccAhbPrescaler::SystemClockDividedBy16
        } else if value == 64 {
            RccAhbPrescaler::SystemClockDividedBy64
        } else if value == 128 {
            RccAhbPrescaler::SystemClockDividedBy128
        } else if value == 256 {
            RccAhbPrescaler::SystemClockDividedBy256
        } else if value == 512 {
            RccAhbPrescaler::SystemClockDividedBy512
        } else {
            RccAhbPrescaler::SystemClockNotDivided
        }
    }
}

impl vstd::std_specs::convert::FromSpecImpl<u32> for RccAhbPrescaler {
    open spec fn obeys_from_spec() -> bool {
        true
    }

    open spec fn from_spec(v: u32) -> RccAhbPrescaler {
        spec_ahb_prescaler_from_divisor(v)
    }
}

impl RccApbPrescaler {
    /// Encode the prescaler as its 3-bit register pattern.
    pub fn to_register_bits(&self) -> (r: u32)
        ensures
            r == spec_apb_prescaler_register_bits(*self),
    {
        match self {
            RccApbPrescaler::AhbClockNotDivided => 0b000,
            RccApbPrescaler::AhbClockDividedBy2 => 0b100,
            RccApbPrescaler::AhbClockDividedBy4 => 0b101,
            RccApbPrescaler::AhbClockDividedBy8 => 0b110,
            RccApbPrescaler::AhbClockDividedBy16 => 0b111,
        }
    }

    /// Decode a 3-bit register pattern into the prescaler it selects.
    pub fn from_register_bits(bits: u32) -> (r: RccApbPrescaler)
        ensures
            r == spec_apb_prescaler_from_register_bits(bits),
    {
        if bits == 0b100 {
            RccApbPrescaler::AhbClockDividedBy2
        } else if bits == 0b101 {
            RccApbPrescaler::AhbClockDividedBy4
        } else if bits == 0b110 {
            RccApbPrescaler::AhbClockDividedBy8
        } else if bits == 0b111 {
            RccApbPrescaler::AhbClockDividedBy16
        } else {
            RccApbPrescaler::AhbClockNotDivided
        }
    }
}

impl From<RccApbPrescaler> for u32 {
    /// Division factor of the prescaler.
    fn from(value: RccApbPrescaler) -> (r: u32) {
        match value {
            RccApbPrescaler::AhbClockNotDivided => 1,
            RccApbPrescaler::AhbClockDividedBy2 => 2,
            RccApbPrescaler::AhbClockDividedBy4 => 4,
            RccApbPrescaler::AhbClockDividedBy8 => 8,
            RccApbPrescaler::AhbClockDividedBy16 => 16,
        }
    }
}

impl vstd::std_specs::convert::FromSpecImpl<RccApbPrescaler> for u32 {
    open spec fn obeys_from_spec() -> bool {
        true
    }

    open spec fn from_spec(v: RccApbPrescaler) -> u32 {
        spec_apb_prescaler_divisor(v)
    }
}

impl From<u32> for RccApbPrescaler {
    /// Prescaler with the given division factor; unlisted factors mean
    /// "not divided".
    fn from(value: u32) -> (r: RccApbPrescaler) {
        if value == 2 {
            RccApbPrescaler::AhbClockDividedBy2
        } else if value == 4 {
            RccApbPrescaler::AhbClockDividedBy4
        } else if value == 8 {
            RccApbPrescaler::AhbClockDividedBy8
        } else if value == 16 {
            RccApbPrescaler::AhbClockDividedBy16
        } else {
            RccApbPrescaler::AhbClockNotDivided
        }
    }
}

impl vstd::std_specs::convert::FromSpecImpl<u32> for RccApbPrescaler {
    open spec fn obeys_from_spec() -> bool {
        true
    }

    open spec fn from_spec(v: u32) -> RccApbPrescaler {
        spec_apb_prescaler_from_divisor(v)
    }
}

/// Law: encoding any requested system clock source and decoding the
/// pattern yields the source again.
pub proof fn lemma_system_clock_switch_bits_round_trip(value: RccSystemClockSwtich)
    ensures
        spec_system_clock_switch_from_bits(spec_system_clock_switch_bits(value)) == value,
{
}

/// Law: encoding any AHB prescaler and decoding the pattern yields the
/// prescaler again.
pub proof fn lemma_ahb_prescaler_register_bits_round_trip(value: RccAhbPrescaler)
    ensures
        spec_ahb_prescaler_from_register_bits(spec_ahb_prescaler_register_bits(value)) == value,
{
}

/// Law: encoding any APB prescaler and decoding the pattern yields the
/// prescaler again.
pub proof fn lemma_apb_prescaler_register_bits_round_trip(value: RccApbPrescaler)
    ensures
        spec_apb_prescaler_from_register_bits(spec_apb_prescaler_register_bits(value)) == value,
{
}

/// Law: every AHB prescaler's division factor converts back to the same
/// prescaler.
pub proof fn lemma_ahb_prescaler_divisor_round_trip(value: RccAhbPrescaler)
    ensures
        spec_ahb_prescaler_from_divisor(spec_ahb_prescaler_divisor(value)) == value,
{
}

/// Law: every APB prescaler's division factor converts back to the same
/// prescaler.
pub proof fn lemma_apb_prescaler_divisor_round_trip(value: RccApbPrescaler)
    ensures
        spec_apb_prescaler_from_divisor(spec_apb_prescaler_divisor(value)) == value,
{
}

/// The value that programs the board's AHB, APB1 and APB2 prescalers for
/// the chosen oscillator table in one write.
pub open spec fn spec_bus_prescaler_register_bits(use_hse: bool) -> u32 {
    (spec_ahb_prescaler_register_bits(
        spec_ahb_prescaler_from_divisor(
            if use_hse {
                AHB_PRESCALER_FOR_HSE
            } else {
                AHB_PRESCALER_FOR_HSI
            },
        ),
    ) << RCC_CFGR_AHB_PRESCALER_START_BIT) | (spec_apb_prescaler_register_bits(
        spec_apb_prescaler_from_divisor(
            if use_hse {
                APB1_PRESCALER_FOR_HSE
            } else {
                APB1_PRESCALER_FOR_HSI
            },
        ),
    ) << RCC_CFGR_APB1_LOW_SPEED_PRESCALER_START_BIT) | (spec_apb_prescaler_register_bits(
        spec_apb_prescaler_from_divisor(
            if use_hse {
                APB2_PRESCALER_FOR_HSE
            } else {
                APB2_PRESCALER_FOR_HSI
            },
        ),
    ) << RCC_CFGR_APB2_HIGH_SPEED_PRESCALER_START_BIT)
}

/// A recorded access, read or write, of the clock configuration register.
pub open spec fn spec_is_clock_config_access(access: RegisterAccess) -> bool {
    (access matches RegisterAccess::Read { address, .. } && address == RCC_CFGR) || (
    access matches RegisterAccess::Write { address, .. } && address == RCC_CFGR)
}

/// The clock configuration register decoded into its fields.
#[derive(Clone, Copy, Debug, PartialEq, Eq, Structural)]
pub struct RccClockConfigurationFields {
    pub system_clock_switch: RccSystemClockSwtich,
    pub system_clock_switch_status: RccSystemClockSwtichStatus,
    pub ahb_prescaler: RccAhbPrescaler,
    pub apb1_prescaler: RccApbPrescaler,
    pub apb2_prescaler: RccApbPrescaler,
}

/// The clock configuration register: bus prescaler programming, the
/// system clock switch handshake, and decoding.
pub struct RccClockConfigurationRegister {}

impl RccClockConfigurationRegister {
    /// The register value that programs the board's bus prescalers for
    /// the chosen oscillator table.
    pub fn prescaler_register_bits(use_hse: bool) -> (r: u32)
        ensures
            r == spec_bus_prescaler_register_bits(use_hse),
    {
        let ahb_prescaler = RccAhbPrescaler::from(
            if use_hse {
                AHB_PRESCALER_FOR_HSE
            } else {
                AHB_PRESCALER_FOR_HSI
            },
        );
        let apb1_prescaler = RccApbPrescaler::from(
            if use_hse {
                APB1_PRESCALER_FOR_HSE
            } else {
                APB1_PRESCALER_FOR_HSI
            },
        );
        let apb2_prescaler = RccApbPrescaler::from(
            if use_hse {
                APB2_PRESCALER_FOR_HSE
            } else {
                APB2_PRESCALER_FOR_HSI
            },
        );
        (ahb_prescaler.to_register_bits() << RCC_CFGR_AHB_PRESCALER_START_BIT) | (
        apb1_prescaler.to_register_bits() << RCC_CFGR_APB1_LOW_SPEED_PRESCALER_START_BIT) | (
        apb2_prescaler.to_register_bits() << RCC_CFGR_APB2_HIGH_SPEED_PRESCALER_START_BIT)
    }

    /// Program the AHB, APB1 and APB2 prescaler fields in one write. On
    /// hardware the new factors take effect within 1 to 16 AHB cycles of
    /// the write; a production caller inserts that settle delay before
    /// the next step.
    pub fn set_bus_prescaler(dev: &mut RegisterSpace, use_hse: bool)
        ensures
            final(dev)@ == old(dev)@.write(RCC_CFGR, spec_bus_prescaler_register_bits(use_hse)),
    {
        let bits = Self::prescaler_register_bits(use_hse);
        dev.write_register(RCC_CFGR, bits);
    }

    /// Request a system clock source: keep every other field, write the
    /// switch field, then busy-poll the status field until it echoes the
    /// request, at most `max_polls` times. Succeeds exactly when the
    /// switch takes effect within the budget (at once if the requested
    /// source is already in use).
    pub fn switch_clock_source_and_wait_for_stable(
        dev: &mut RegisterSpace,
        clock_source: RccSystemClockSwtich,
        max_polls: u32,
    ) -> (r: Result<(), HardwareNeverStabilized>)
        requires
            !old(dev)@.switch_pending,
            old(dev)@.completed_switch <= 3,
        ensures
            r is Ok <==> (if spec_system_clock_switch_bits(clock_source) == old(
                dev,
            )@.completed_switch {
                max_polls >= 1
            } else {
                old(dev)@.switch_stabilize_polls < max_polls
            }),
            final(dev)@.rcc_cfgr == (old(dev)@.rcc_cfgr & RCC_CFGR_SYS_CLOCK_SWITCH_AND_STATUS_CLEAR
                | spec_system_clock_switch_bits(clock_source)),
            final(dev)@ == (crate::register_space::RegisterSpaceView {
                rcc_cfgr: final(dev)@.rcc_cfgr,
                completed_switch: final(dev)@.completed_switch,
                switch_pending: final(dev)@.switch_pending,
                switch_stabilize_polls: final(dev)@.switch_stabilize_polls,
                trace: final(dev)@.trace,
                ..old(dev)@
            }),
            final(dev)@.completed_switch <= 3,
            r is Ok ==> final(dev)@.completed_switch == spec_system_clock_switch_bits(clock_source)
                && !final(dev)@.switch_pending,
            final(dev)@.trace.len() > old(dev)@.trace.len(),
            final(dev)@.trace.subrange(0, old(dev)@.trace.len() as int) == old(dev)@.trace,
            forall|k: int|
                old(dev)@.trace.len() <= k < final(dev)@.trace.len()
                    ==> #[trigger] spec_is_clock_config_access(final(dev)@.trace[k]),
    {
        proof {
            lemma_switch_bits_in_range(clock_source);
        }
        let ghost t0: int = old(dev)@.trace.len() as int;
        let ghost gs: u32 = spec_system_clock_switch_bits(clock_source);
        let bits = clock_source.to_register_bits();
        let current = dev.read_register(RCC_CFGR);
        proof {
            lemma_switch_read_keeps_other_fields(old(dev)@.rcc_cfgr, old(dev)@.completed_switch);
        }
        let target = (current & RCC_CFGR_SYS_CLOCK_SWITCH_AND_STATUS_CLEAR) | bits;
        dev.write_register(RCC_CFGR, target);
        proof {
            lemma_switch_field_insert(old(dev)@.rcc_cfgr, gs);
            assert(dev@.trace.subrange(0, t0) =~= old(dev)@.trace);
        }
        let mut polls: u32 = 0;
        while polls < max_polls
            invariant
                polls <= max_polls,
                old(dev)@.trace.len() == t0,
                !old(dev)@.switch_pending,
                old(dev)@.completed_switch <= 3,
                gs == spec_system_clock_switch_bits(clock_source),
                gs <= 3,
                bits == gs,
                dev@.rcc_cfgr == (old(dev)@.rcc_cfgr & RCC_CFGR_SYS_CLOCK_SWITCH_AND_STATUS_CLEAR
                    | gs),
                dev@.rcc_cfgr & RCC_CFGR_SYS_CLOCK_SWITCH_BITS == gs,
                dev@ == (crate::register_space::RegisterSpaceView {
                    rcc_cfgr: dev@.rcc_cfgr,
                    completed_switch: dev@.completed_switch,
                    switch_pending: dev@.switch_pending,
                    switch_stabilize_polls: dev@.switch_stabilize_polls,
                    trace: dev@.trace,
                    ..old(dev)@
                }),
                gs == old(dev)@.completed_switch ==> polls == 0 && !dev@.switch_pending
                    && dev@.completed_switch == old(dev)@.completed_switch
                    && dev@.switch_stabilize_polls == old(dev)@.switch_stabilize_polls,
                gs != old(dev)@.completed_switch ==> dev@.switch_pending && dev@.completed_switch
                    == old(dev)@.completed_switch && old(dev)@.switch_stabilize_polls >= polls
                    && dev@.switch_stabilize_polls == old(dev)@.switch_stabilize_polls - polls,
                dev@.trace.len() == t0 + 2 + polls,
                dev@.trace.subrange(0, t0) == old(dev)@.trace,
                forall|k: int|
                    t0 <= k < dev@.trace.len() ==> #[trigger] spec_is_clock_config_access(
                        dev@.trace[k],
                    ),
            decreases max_polls - polls,
        {
            let v = dev.read_register(RCC_CFGR);
            let status = (v & RCC_CFGR_SYS_CLOCK_SWITCH_STATUS_BITS)
                >> RCC_CFGR_SYS_CLOCK_SWITCH_STATUS_START_BIT;
            proof {
                lemma_switch_status_extract(
                    old(dev)@.rcc_cfgr & RCC_CFGR_SYS_CLOCK_SWITCH_AND_STATUS_CLEAR | gs,
                    old(dev)@.completed_switch,
                );
                lemma_switch_status_extract(
                    old(dev)@.rcc_cfgr & RCC_CFGR_SYS_CLOCK_SWITCH_AND_STATUS_CLEAR | gs,
                    gs,
                );
                assert(dev@.trace.subrange(0, t0) =~= old(dev)@.trace);
            }
            if status == bits {
                return Ok(());
            }
            polls = polls + 1;
        }
        Err(HardwareNeverStabilized)
    }

    /// Decode a raw register value into its enumerated fields.
    pub fn decode(register_value: u32) -> (r: RccClockConfigurationFields)
        ensures
            r.system_clock_switch == spec_system_clock_switch_from_bits(
                register_value & RCC_CFGR_SYS_CLOCK_SWITCH_BITS,
            ),
            r.system_clock_switch_status == spec_system_clock_switch_status_from_bits(
                (register_value & RCC_CFGR_SYS_CLOCK_SWITCH_STATUS_BITS)
                    >> RCC_CFGR_SYS_CLOCK_SWITCH_STATUS_START_BIT,
            ),
            r.ahb_prescaler == spec_ahb_prescaler_from_register_bits(
                (register_value & RCC_CFGR_AHB_PRESCALER_BITS) >> RCC_CFGR_AHB_PRESCALER_START_BIT,
            ),
            r.apb1_prescaler == spec_apb_prescaler_from_register_bits(
                (register_value & RCC_CFGR_APB1_LOW_SPEED_PRESCALER_BITS)
                    >> RCC_CFGR_APB1_LOW_SPEED_PRESCALER_START_BIT,
            ),
            r.apb2_prescaler == spec_apb_prescaler_from_register_bits(
                (register_value & RCC_CFGR_APB2_HIGH_SPEED_PRESCALER_BITS)
                    >> RCC_CFGR_APB2_HIGH_SPEED_PRESCALER_START_BIT,
            ),
    {
        RccClockConfigurationFields {
            system_clock_switch: RccSystemClockSwtich::from_register_bits(
                register_value & RCC_CFGR_SYS_CLOCK_SWITCH_BITS,
            ),
            system_clock_switch_status: RccSystemClockSwtichStatus::from_register_bits(
                (register_value & RCC_CFGR_SYS_CLOCK_SWITCH_STATUS_BITS)
                    >> RCC_CFGR_SYS_CLOCK_SWITCH_STATUS_START_BIT,
            ),
            ahb_prescaler: RccAhbPrescaler::from_register_bits(
                (register_value & RCC_CFGR_AHB_PRESCALER_BITS) >> RCC_CFGR_AHB_PRESCALER_START_BIT,
            ),
            apb1_prescaler: RccApbPrescaler::from_register_bits(
                (register_value & RCC_CFGR_APB1_LOW_SPEED_PRESCALER_BITS)
                    >> RCC_CFGR_APB1_LOW_SPEED_PRESCALER_START_BIT,
            ),
            apb2_prescaler: RccApbPrescaler::from_register_bits(
                (register_value & RCC_CFGR_APB2_HIGH_SPEED_PRESCALER_BITS)
                    >> RCC_CFGR_APB2_HIGH_SPEED_PRESCALER_START_BIT,
            ),
        }
    }
}

/// The bus prescaler fields sit above the switch field, so programming
/// them leaves the switch request at its reset value.
pub(crate) proof fn lemma_bus_prescaler_bits_no_switch_field(use_hse: bool)
    ensures
        spec_bus_prescaler_register_bits(use_hse) & RCC_CFGR_SYS_CLOCK_SWITCH_BITS == 0,
{
    assert(((0b0000u32 << 4u32) | (0b101u32 << 10u32) | (0b100u32 << 13u32)) & 0x3u32 == 0) by (
    bit_vector);
}

/// Every switch encoding fits the 2-bit field.
pub(crate) proof fn lemma_switch_bits_in_range(value: RccSystemClockSwtich)
    ensures
        spec_system_clock_switch_bits(value) <= 3,
{
}

/// Writing a switch request over the cleared switch fields leaves that
/// request in the switch field.
pub(crate) proof fn lemma_switch_field_insert(c: u32, s: u32)
    requires
        s <= 3,
    ensures
        (c & RCC_CFGR_SYS_CLOCK_SWITCH_AND_STATUS_CLEAR | s) & RCC_CFGR_SYS_CLOCK_SWITCH_BITS == s,
{
    assert(s <= 3 ==> ((c & 0xFFFF_FFF0u32 | s) & 0x3u32) == s) by (bit_vector);
}

/// A read of the configuration register reports the stored value with
/// the status field substituted; masking both switch fields away gives
/// back the stored register's other fields.
pub(crate) proof fn lemma_switch_read_keeps_other_fields(c: u32, s: u32)
    requires
        s <= 3,
    ensures
        ((c & RCC_CFGR_SYS_CLOCK_SWITCH_STATUS_CLEAR) | (s
            << RCC_CFGR_SYS_CLOCK_SWITCH_STATUS_START_BIT))
            & RCC_CFGR_SYS_CLOCK_SWITCH_AND_STATUS_CLEAR == c
            & RCC_CFGR_SYS_CLOCK_SWITCH_AND_STATUS_CLEAR,
{
    assert(s <= 3 ==> ((((c & 0xFFFF_FFF3u32) | (s << 2u32)) & 0xFFFF_FFF0u32) == (c
        & 0xFFFF_FFF0u32))) by (bit_vector);
}

/// Extracting the status field of a reported configuration value gives
/// the substituted status.
pub(crate) proof fn lemma_switch_status_extract(c: u32, s: u32)
    requires
        s <= 3,
    ensures
        (((c & RCC_CFGR_SYS_CLOCK_SWITCH_STATUS_CLEAR) | (s
            << RCC_CFGR_SYS_CLOCK_SWITCH_STATUS_START_BIT)) & RCC_CFGR_SYS_CLOCK_SWITCH_STATUS_BITS)
            >> RCC_CFGR_SYS_CLOCK_SWITCH_STATUS_START_BIT == s,
{
    assert(s <= 3 ==> ((((c & 0xFFFF_FFF3u32) | (s << 2u32)) & 0xCu32) >> 2u32) == s) by (
    bit_vector);
}

} // verus!
