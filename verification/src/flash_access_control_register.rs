//! Flash access control register (FLASH_ACR): read latency and caches.
//!
//! Flash reads need more wait states as the CPU clock rises. The latency
//! is an enumerated wait-state count chosen from the target CPU frequency
//! by a fixed voltage/frequency table; the register write that applies it
//! also turns on the prefetch unit and both caches.

use vstd::prelude::*;
use crate::register_space::RegisterSpace;
use crate::rcc_clock_settings::FLASH_ACR;

verus! {

/// Bits 0..=2: flash read latency in wait states.
pub const FLASH_ACR_LATENCY_BITS: u32 = 0x0000_0007;

/// Bit offset of the latency field.
pub const FLASH_ACR_LATENCY_START_BIT: u32 = 0;

/// Bit 8: prefetch enable.
pub const FLASH_ACR_PREFETCH_ENABLE_BITS: u32 = 0x0000_0100;

/// Bit 9: instruction cache enable.
pub const FLASH_ACR_INSTRUCTION_CACHE_ENABLE_BITS: u32 = 0x0000_0200;

/// Bit 10: data cache enable.
pub const FLASH_ACR_DATA_CACHE_ENABLE_BITS: u32 = 0x0000_0400;

/// Width in hertz of one row of the latency table: each additional wait
/// state covers another 30 MHz of CPU clock.
pub const FLASH_LATENCY_STEP_FREQUENCY: u32 = 30_000_000;

/// Flash read latency: how many wait states (extra CPU cycles) a flash
/// access takes.
#[derive(Clone, Copy, Debug, PartialEq, Eq, Structural)]
pub enum FlashReadLatency {
    WrongSetting,
    ZeroWaitState1CpuCycle,
    OneWaitState2CpuCycles,
    TwoWaitState3CpuCycles,
    ThreeWaitState4CpuCycles,
    FourWaitState5CpuCycles,
    FiveWaitState6CpuCycles,
    SixWaitState7CpuCycles,
    SevenWaitState8CpuCycles,
}

/// Latency a wait-state count selects; counts above seven are not a
/// valid setting.
pub open spec fn spec_flash_latency_from_wait_states(value: u32) -> FlashReadLatency {
    if value == 0 {
        FlashReadLatency::ZeroWaitState1CpuCycle
    } else if value == 1 {
        FlashReadLatency::OneWaitState2CpuCycles
    } else if value == 2 {
        FlashReadLatency::TwoWaitState3CpuCycles
    } else if value == 3 {
        FlashReadLatency::ThreeWaitState4CpuCycles
    } else if value == 4 {
        FlashReadLatency::FourWaitState5CpuCycles
    } else if value == 5 {
        FlashReadLatency::FiveWaitState6CpuCycles
    } else if value == 6 {
        FlashReadLatency::SixWaitState7CpuCycles
    } else if value == 7 {
        FlashReadLatency::SevenWaitState8CpuCycles
    } else {
        FlashReadLatency::WrongSetting
    }
}

/// Bit pattern of a latency; the invalid setting encodes as zero wait
/// states, the safe reset value.
pub open spec fn spec_flash_latency_register_bits(value: FlashReadLatency) -> u32 {
    match value {
        FlashReadLatency::WrongSetting => 0b000,
        FlashReadLatency::ZeroWaitState1CpuCycle => 0b000,
        FlashReadLatency::OneWaitState2CpuCycles => 0b001,
        FlashReadLatency::TwoWaitState3CpuCycles => 0b010,
        FlashReadLatency::ThreeWaitState4CpuCycles => 0b011,
        FlashReadLatency::FourWaitState5CpuCycles => 0b100,
        FlashReadLatency::FiveWaitState6CpuCycles => 0b101,
        FlashReadLatency::SixWaitState7CpuCycles => 0b110,
        FlashReadLatency::SevenWaitState8CpuCycles => 0b111,
    }
}

/// Wait states the latency table asks of a CPU frequency: one more for
/// every started 30 MHz beyond the first, capped at seven.
pub open spec fn spec_flash_wait_states_for_cpu_frequency(frequency_in_hertz: u32) -> u32 {
    if frequency_in_hertz <= FLASH_LATENCY_STEP_FREQUENCY {
        0
    } else if (frequency_in_hertz - 1) / (FLASH_LATENCY_STEP_FREQUENCY as int) >= 8 {
        7
    } else {
        ((frequency_in_hertz - 1) / (FLASH_LATENCY_STEP_FREQUENCY as int)) as u32
    }
}

impl From<u32> for FlashReadLatency {
    /// Latency for a wait-state count; counts above seven are not a
    /// valid setting.
    fn from(value: u32) -> (r: FlashReadLatency) {
        if value == 0 {
            FlashReadLatency::ZeroWaitState1CpuCycle
        } else if value == 1 {
            FlashReadLatency::OneWaitState2CpuCycles
        } else if value == 2 {
            FlashReadLatency::TwoWaitState3CpuCycles
        } else if value == 3 {
            FlashReadLatency::ThreeWaitState4CpuCycles
        } else if value == 4 {
            FlashReadLatency::FourWaitState5CpuCycles
        } else if value == 5 {
            FlashReadLatency::FiveWaitState6CpuCycles
        } else if value == 6 {
            FlashReadLatency::SixWaitState7CpuCycles
        } else if value == 7 {
            FlashReadLatency::SevenWaitState8CpuCycles
        } else {
            FlashReadLatency::WrongSetting
        }
    }
}

impl vstd::std_specs::convert::FromSpecImpl<u32> for FlashReadLatency {
    open spec fn obeys_from_spec() -> bool {
        true
    }

    open spec fn from_spec(v: u32) -> FlashReadLatency {
        spec_flash_latency_from_wait_states(v)
    }
}

impl FlashReadLatency {
    /// Encode the latency as its 3-bit register pattern.
    pub fn to_register_bits(&self) -> (r: u32)
        ensures
            r == spec_flash_latency_register_bits(*self),
    {
        match self {
            FlashReadLatency::WrongSetting => 0b000,
            FlashReadLatency::ZeroWaitState1CpuCycle => 0b000,
            FlashReadLatency::OneWaitState2CpuCycles => 0b001,
            FlashReadLatency::TwoWaitState3CpuCycles => 0b010,
            FlashReadLatency::ThreeWaitState4CpuCycles => 0b011,
            FlashReadLatency::FourWaitState5CpuCycles => 0b100,
            FlashReadLatency::FiveWaitState6CpuCycles => 0b101,
            FlashReadLatency::SixWaitState7CpuCycles => 0b110,
            FlashReadLatency::SevenWaitState8CpuCycles => 0b111,
        }
    }

    /// Latency the table asks of a CPU frequency.
    pub fn for_cpu_frequency(frequency_in_hertz: u32) -> (r: FlashReadLatency)
        ensures
            r == spec_flash_latency_from_wait_states(
                spec_flash_wait_states_for_cpu_frequency(frequency_in_hertz),
            ),
    {
        if frequency_in_hertz <= FLASH_LATENCY_STEP_FREQUENCY {
            FlashReadLatency::ZeroWaitState1CpuCycle
        } else {
            let steps = (frequency_in_hertz - 1) / FLASH_LATENCY_STEP_FREQUENCY;
            if steps >= 8 {
                FlashReadLatency::SevenWaitState8CpuCycles
            } else {
                FlashReadLatency::from(steps)
            }
        }
    }
}

/// The flash access control register decoded into its fields.
#[derive(Clone, Copy, Debug, PartialEq, Eq, Structural)]
pub struct FlashAccessControlFields {
    pub read_latency: FlashReadLatency,
    pub prefetch_enabled: bool,
    pub instruction_cache_enabled: bool,
    pub data_cache_enabled: bool,
}

/// The flash access control register: latency programming and decoding.
pub struct FlashAccessControlRegister {}

impl FlashAccessControlRegister {
    /// Value the setup sequence writes: the given wait-state count in the
    /// latency field, with prefetch and both caches enabled.
    pub fn configuration_value(wait_state: u32) -> (r: u32)
        ensures
            r == spec_flash_configuration_value(wait_state),
    {
        let latency: FlashReadLatency = FlashReadLatency::from(wait_state);
        FLASH_ACR_INSTRUCTION_CACHE_ENABLE_BITS | FLASH_ACR_DATA_CACHE_ENABLE_BITS
            | FLASH_ACR_PREFETCH_ENABLE_BITS | latency.to_register_bits()
    }

    /// Program the read latency, prefetch and cache enables in one
    /// write.
    pub fn set_flash_latency(dev: &mut RegisterSpace, wait_state: u32)
        ensures
            final(dev)@ == old(dev)@.write(FLASH_ACR, spec_flash_configuration_value(wait_state)),
    {
        let value = Self::configuration_value(wait_state);
        dev.write_register(FLASH_ACR, value);
    }

    /// Decode a raw register value into its fields.
    pub fn decode(register_value: u32) -> (r: FlashAccessControlFields)
        ensures
            r.read_latency == spec_flash_latency_from_wait_states(
                register_value & FLASH_ACR_LATENCY_BITS,
            ),
            r.prefetch_enabled == (register_value & FLASH_ACR_PREFETCH_ENABLE_BITS != 0),
            r.instruction_cache_enabled == (register_value & FLASH_ACR_INSTRUCTION_CACHE_ENABLE_BITS
                != 0),
            r.data_cache_enabled == (register_value & FLASH_ACR_DATA_CACHE_ENABLE_BITS != 0),
    {
        FlashAccessControlFields {
            read_latency: FlashReadLatency::from(register_value & FLASH_ACR_LATENCY_BITS),
            prefetch_enabled: register_value & FLASH_ACR_PREFETCH_ENABLE_BITS != 0,
            instruction_cache_enabled: register_value & FLASH_ACR_INSTRUCTION_CACHE_ENABLE_BITS
                != 0,
            data_cache_enabled: register_value & FLASH_ACR_DATA_CACHE_ENABLE_BITS != 0,
        }
    }
}

/// Register value that applies a wait-state count together with prefetch
/// and cache enables.
pub open spec fn spec_flash_configuration_value(wait_state: u32) -> u32 {
    FLASH_ACR_INSTRUCTION_CACHE_ENABLE_BITS | FLASH_ACR_DATA_CACHE_ENABLE_BITS
        | FLASH_ACR_PREFETCH_ENABLE_BITS | spec_flash_latency_register_bits(
        spec_flash_latency_from_wait_states(wait_state),
    )
}

} // verus!
