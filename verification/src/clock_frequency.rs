//! Frequency value types.
//!
//! A frequency crossing a component boundary is wrapped in one of three
//! unit types so that the unit is always explicit. Narrowing a value to a
//! coarser unit divides and truncates toward zero (999 Hz is 0 kHz);
//! widening multiplies exactly and is only allowed when the product fits
//! in 32 bits.

use vstd::prelude::*;

verus! {

/// A frequency in hertz.
#[derive(Clone, Copy, Debug, PartialEq, Eq, Structural)]
pub struct Hertz(pub u32);

/// A frequency in kilohertz.
#[derive(Clone, Copy, Debug, PartialEq, Eq, Structural)]
pub struct KiloHertz(pub u32);

/// A frequency in megahertz.
#[derive(Clone, Copy, Debug, PartialEq, Eq, Structural)]
pub struct MegaHertz(pub u32);

impl From<u32> for Hertz {
    fn from(value: u32) -> (r: Hertz) {
        Hertz(value)
    }
}

impl vstd::std_specs::convert::FromSpecImpl<u32> for Hertz {
    open spec fn obeys_from_spec() -> bool {
        true
    }

    open spec fn from_spec(v: u32) -> Hertz {
        Hertz(v)
    }
}

impl From<u32> for KiloHertz {
    fn from(value: u32) -> (r: KiloHertz) {
        KiloHertz(value / 1_000)
    }
}

impl vstd::std_specs::convert::FromSpecImpl<u32> for KiloHertz {
    open spec fn obeys_from_spec() -> bool {
        true
    }

    open spec fn from_spec(v: u32) -> KiloHertz {
        KiloHertz((v / 1_000) as u32)
    }
}

impl From<u32> for MegaHertz {
    fn from(value: u32) -> (r: MegaHertz) {
        MegaHertz(value / 1_000_000)
    }
}

impl vstd::std_specs::convert::FromSpecImpl<u32> for MegaHertz {
    open spec fn obeys_from_spec() -> bool {
        true
    }

    open spec fn from_spec(v: u32) -> MegaHertz {
        MegaHertz((v / 1_000_000) as u32)
    }
}

impl KiloHertz {
    /// Widen to hertz; exact, so the product must fit in 32 bits.
    pub fn to_hertz(self) -> (r: Hertz)
        requires
            self.0 * 1_000 <= u32::MAX,
        ensures
            r.0 == self.0 * 1_000,
    {
        Hertz(self.0 * 1_000)
    }
}

impl MegaHertz {
    /// Widen to hertz; exact, so the product must fit in 32 bits.
    pub fn to_hertz(self) -> (r: Hertz)
        requires
            self.0 * 1_000_000 <= u32::MAX,
        ensures
            r.0 == self.0 * 1_000_000,
    {
        Hertz(self.0 * 1_000_000)
    }

    /// Widen to kilohertz; exact, so the product must fit in 32 bits.
    pub fn to_kilohertz(self) -> (r: KiloHertz)
        requires
            self.0 * 1_000 <= u32::MAX,
        ensures
            r.0 == self.0 * 1_000,
    {
        KiloHertz(self.0 * 1_000)
    }
}

} // verus!
