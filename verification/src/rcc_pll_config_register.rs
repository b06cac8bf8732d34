//! RCC PLL configuration register (RCC_PLLCFGR): bit layout, factor
//! packing and decoding.
//!
//! M, N and Q are written as their plain values into fields wide enough
//! to hold every legal value. P, a 2-bit field, is written encoded:
//! pattern `(p / 2) - 1` selects the divisor p, so 00, 01, 10, 11 select
//! 2, 4, 6, 8 — every pattern of the field decodes to a legal divisor.

use vstd::prelude::*;
use crate::pll_calculator::{
    PllFactors, spec_valid_pll_m, spec_valid_pll_n, spec_valid_pll_q,
};
use crate::register_space::RegisterSpace;
use crate::rcc_clock_settings::RCC_PLLCFGR;

verus! {

/// Bits 0..=5: PLL input pre-divider M, written as its value.
pub const RCC_PLLCFGR_PLL_M_BITS: u32 = 0x0000_003F;

/// Bit offset of the M field.
pub const RCC_PLLCFGR_PLL_M_START_BIT: u32 = 0;

/// Bits 6..=14: PLL multiplier N, written as its value.
pub const RCC_PLLCFGR_PLL_N_BITS: u32 = 0x0000_7FC0;

/// Bit offset of the N field.
pub const RCC_PLLCFGR_PLL_N_START_BIT: u32 = 6;

/// Bits 16..=17: PLL system post-divider P, written encoded.
pub const RCC_PLLCFGR_PLL_P_BITS: u32 = 0x0003_0000;

/// Bit offset of the P field.
pub const RCC_PLLCFGR_PLL_P_START_BIT: u32 = 16;

/// Bit 22: PLL source select; set means the external oscillator feeds
/// the PLL, clear means the internal one does.
pub const RCC_PLLCFGR_PLL_SRC_IS_HSE_BITS: u32 = 0x0040_0000;

/// Bit offset of the PLL source select bit.
pub const RCC_PLLCFGR_PLL_SRC_IS_HSE_START_BIT: u32 = 22;

/// Bits 24..=27: PLL auxiliary post-divider Q, written as its value.
pub const RCC_PLLCFGR_PLL_Q_BITS: u32 = 0x0F00_0000;

/// Bit offset of the Q field.
pub const RCC_PLLCFGR_PLL_Q_START_BIT: u32 = 24;

/// A PLL factor lies outside its hardware-mandated range; the variant
/// names the factor and carries the offending value.
#[derive(Clone, Copy, Debug, PartialEq, Eq, Structural)]
pub enum RccPllConfigurationError {
    WrongPllMConfiguration(u16),
    WrongPllNConfiguration(u16),
    WrongPllPConfiguration(u16),
    WrongPllQConfiguration(u16),
}

/// Encoding of the system post-divider P into its 2-bit field.
pub open spec fn spec_pll_p_field(p: u32) -> u32 {
    (((p - 2) / 2) % 4) as u32
}

/// Divisor a 2-bit P field pattern selects.
pub open spec fn spec_pll_p_divisor(field: u32) -> u32 {
    (field * 2 + 2) as u32
}

/// The register value that programs a factor choice and the PLL source.
pub open spec fn spec_pll_register_bits(factors: PllFactors, use_hse: bool) -> u32 {
    factors.m | (factors.n << RCC_PLLCFGR_PLL_N_START_BIT) | (spec_pll_p_field(factors.p)
        << RCC_PLLCFGR_PLL_P_START_BIT) | (factors.q << RCC_PLLCFGR_PLL_Q_START_BIT) | (if use_hse {
        RCC_PLLCFGR_PLL_SRC_IS_HSE_BITS
    } else {
        0
    })
}

/// The M field of a register value, validated against M's range.
pub open spec fn spec_decoded_pll_m(register_value: u32) -> Result<u32, RccPllConfigurationError> {
    let m = register_value & RCC_PLLCFGR_PLL_M_BITS;
    if spec_valid_pll_m(m) {
        Ok(m)
    } else {
        Err(RccPllConfigurationError::WrongPllMConfiguration(m as u16))
    }
}

/// The N field of a register value, validated against N's range.
pub open spec fn spec_decoded_pll_n(register_value: u32) -> Result<u32, RccPllConfigurationError> {
    let n = (register_value & RCC_PLLCFGR_PLL_N_BITS) >> RCC_PLLCFGR_PLL_N_START_BIT;
    if spec_valid_pll_n(n) {
        Ok(n)
    } else {
        Err(RccPllConfigurationError::WrongPllNConfiguration(n as u16))
    }
}

/// The P divisor a register value selects; every pattern is legal.
pub open spec fn spec_decoded_pll_p(register_value: u32) -> u32 {
    spec_pll_p_divisor((register_value & RCC_PLLCFGR_PLL_P_BITS) >> RCC_PLLCFGR_PLL_P_START_BIT)
}

/// The Q field of a register value, validated against Q's range.
pub open spec fn spec_decoded_pll_q(register_value: u32) -> Result<u32, RccPllConfigurationError> {
    let q = (register_value & RCC_PLLCFGR_PLL_Q_BITS) >> RCC_PLLCFGR_PLL_Q_START_BIT;
    if spec_valid_pll_q(q) {
        Ok(q)
    } else {
        Err(RccPllConfigurationError::WrongPllQConfiguration(q as u16))
    }
}

/// The PLL configuration register decoded into its fields.
#[derive(Clone, Copy, Debug, PartialEq, Eq)]
pub struct RccPllConfigurationFields {
    pub pll_m: Result<u32, RccPllConfigurationError>,
    pub pll_n: Result<u32, RccPllConfigurationError>,
    pub pll_p: u32,
    pub pll_q: Result<u32, RccPllConfigurationError>,
    pub pll_source_is_hse: bool,
}

/// The PLL configuration register: factor packing and decoding.
pub struct RccPllConfigurationRegister {}

impl RccPllConfigurationRegister {
    /// The register value that programs a factor choice and the PLL
    /// source in one write.
    pub fn pll_register_bits(factors: &PllFactors, use_hse: bool) -> (r: u32)
        requires
            factors.valid(),
        ensures
            r == spec_pll_register_bits(*factors, use_hse),
    {
        let p_field = ((factors.p - 2) / 2) % 4;
        let source_bit = if use_hse {
            RCC_PLLCFGR_PLL_SRC_IS_HSE_BITS
        } else {
            0
        };
        factors.m | (factors.n << RCC_PLLCFGR_PLL_N_START_BIT) | (p_field
            << RCC_PLLCFGR_PLL_P_START_BIT) | (factors.q << RCC_PLLCFGR_PLL_Q_START_BIT)
            | source_bit
    }

    /// Validate the factors, then program them together with the PLL
    /// source select in one register write. A factor outside its range
    /// is rejected before any register is touched: on an error the
    /// register space is exactly as it was.
    pub fn set_pll_mnpq(dev: &mut RegisterSpace, factors: &PllFactors, use_hse: bool) -> (r:
        Result<(), RccPllConfigurationError>)
        ensures
            r == factors.spec_validation(),
            r is Ok ==> final(dev)@ == old(dev)@.write(
                RCC_PLLCFGR,
                spec_pll_register_bits(*factors, use_hse),
            ),
            r is Err ==> *final(dev) == *old(dev),
    {
        match factors.validate() {
            Err(e) => Err(e),
            Ok(()) => {
                let bits = Self::pll_register_bits(factors, use_hse);
                dev.write_register(RCC_PLLCFGR, bits);
                Ok(())
            },
        }
    }

    /// Decode a raw register value into its validated fields.
    pub fn decode(register_value: u32) -> (r: RccPllConfigurationFields)
        ensures
            r.pll_m == spec_decoded_pll_m(register_value),
            r.pll_n == spec_decoded_pll_n(register_value),
            r.pll_p == spec_decoded_pll_p(register_value),
            r.pll_q == spec_decoded_pll_q(register_value),
            r.pll_source_is_hse == (register_value & RCC_PLLCFGR_PLL_SRC_IS_HSE_BITS != 0),
    {
        let m = register_value & RCC_PLLCFGR_PLL_M_BITS;
        let pll_m = if 2 <= m && m <= 63 {
            Ok(m)
        } else {
            Err(RccPllConfigurationError::WrongPllMConfiguration(m as u16))
        };
        let n = (register_value & RCC_PLLCFGR_PLL_N_BITS) >> RCC_PLLCFGR_PLL_N_START_BIT;
        let pll_n = if 50 <= n && n <= 432 {
            Ok(n)
        } else {
            Err(RccPllConfigurationError::WrongPllNConfiguration(n as u16))
        };
        let p_field = (register_value & RCC_PLLCFGR_PLL_P_BITS) >> RCC_PLLCFGR_PLL_P_START_BIT;
        assert((register_value & RCC_PLLCFGR_PLL_P_BITS) >> RCC_PLLCFGR_PLL_P_START_BIT <= 3) by {
            assert((register_value & 0x0003_0000u32) >> 16u32 <= 3) by (bit_vector);
        };
        let pll_p = p_field * 2 + 2;
        let q = (register_value & RCC_PLLCFGR_PLL_Q_BITS) >> RCC_PLLCFGR_PLL_Q_START_BIT;
        let pll_q = if 2 <= q && q <= 15 {
            Ok(q)
        } else {
            Err(RccPllConfigurationError::WrongPllQConfiguration(q as u16))
        };
        RccPllConfigurationFields {
            pll_m,
            pll_n,
            pll_p,
            pll_q,
            pll_source_is_hse: register_value & RCC_PLLCFGR_PLL_SRC_IS_HSE_BITS != 0,
        }
    }
}

/// Law: for every legal system post-divider, packing it into its 2-bit
/// field and reading the field back yields the same divisor.
pub proof fn lemma_pll_p_field_round_trip(p: u32)
    requires
        p == 2 || p == 4 || p == 6 || p == 8,
    ensures
        spec_pll_p_divisor(spec_pll_p_field(p)) == p,
{
}

} // verus!
