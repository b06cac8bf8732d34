//! The simulated register space the verified clock code drives.
//!
//! On hardware every register access is a single volatile read or write
//! of a memory-mapped address. This module models that address space as
//! a value: writes store into the register the address names, reads
//! return what the hardware would report, and every access is appended
//! to a trace so ordering obligations can be stated and checked. The
//! hardware's asynchronous side — an oscillator or PLL stabilizing, the
//! clock switch taking effect, the tick counter reaching zero — is
//! injected as a poll count: the ready bit appears once the register has
//! been polled that many times, which lets a harness simulate both
//! "stabilizes after N polls" and "never stabilizes within budget".

use vstd::prelude::*;
use crate::rcc_clock_settings::{RCC_CR, RCC_PLLCFGR, RCC_CFGR, FLASH_ACR, STK_CTRL, STK_LOAD,
    STK_VAL};
use crate::rcc_clock_control_register::{RCC_CR_HSI_IS_ON, RCC_CR_HSI_IS_STABLE, RCC_CR_HSE_IS_ON,
    RCC_CR_HSE_IS_STABLE, RCC_CR_MAIN_PLL_IS_ON, RCC_CR_MAIN_PLL_IS_READY};
use crate::rcc_clock_config_register::{RCC_CFGR_SYS_CLOCK_SWITCH_BITS,
    RCC_CFGR_SYS_CLOCK_SWITCH_STATUS_START_BIT, RCC_CFGR_SYS_CLOCK_SWITCH_STATUS_CLEAR};
use crate::system_tick_timer_register::{STK_CTRL_ENABLE_BIT, STK_CTRL_COUNTDOWN_TO_ZERO_BIT};

verus! {

/// One recorded hardware access.
#[derive(Clone, Copy, Debug, PartialEq, Eq, Structural)]
pub enum RegisterAccess {
    Read { address: u32, value: u32 },
    Write { address: u32, value: u32 },
}

/// A bounded busy-wait ran out of its poll budget before the hardware
/// reported ready.
#[derive(Clone, Copy, Debug, PartialEq, Eq, Structural)]
pub struct HardwareNeverStabilized;

/// The access that writes the clock control register with the main PLL
/// enable bit set — the write the oscillator handshake must precede.
pub open spec fn spec_is_pll_enable_write(access: RegisterAccess) -> bool {
    access matches RegisterAccess::Write { address, value } && address == RCC_CR && value
        & RCC_CR_MAIN_PLL_IS_ON != 0
}

/// An access that reads the clock control register and observes the
/// given status bit set.
pub open spec fn spec_observes_control_bit(access: RegisterAccess, bit: u32) -> bool {
    access matches RegisterAccess::Read { address, value } && address == RCC_CR && value & bit != 0
}

/// The register space as specifications see it.
pub ghost struct RegisterSpaceView {
    pub rcc_cr: u32,
    pub rcc_pllcfgr: u32,
    pub rcc_cfgr: u32,
    pub flash_acr: u32,
    pub stk_ctrl: u32,
    pub stk_load: u32,
    pub stk_val: u32,
    /// The switch status (SWS) value the hardware currently reports.
    pub completed_switch: u32,
    /// A switch request differing from the reported status is under way.
    pub switch_pending: bool,
    /// Polls of RCC_CR left before the external oscillator reads ready.
    pub hse_stabilize_polls: u32,
    /// Polls of RCC_CR left before the main PLL reads ready.
    pub pll_stabilize_polls: u32,
    /// Polls of RCC_CFGR left before a pending switch takes effect.
    pub switch_stabilize_polls: u32,
    /// Polls of STK_CTRL from one countdown-reached-zero flag to the next.
    pub tick_countdown_polls: u32,
    /// Polls of STK_CTRL left before the flag shows again.
    pub ticks_remaining: u32,
    pub trace: Seq<RegisterAccess>,
}

impl RegisterSpaceView {
    /// State after writing a value to the register an address names.
    /// Writing the tick timer's current-value register clears it and
    /// restarts the simulated countdown; writing the clock configuration
    /// register starts a switch when its switch field differs from the
    /// reported status.
    pub open spec fn write(self, address: u32, value: u32) -> RegisterSpaceView {
        let s = RegisterSpaceView {
            trace: self.trace.push(RegisterAccess::Write { address: address, value: value }),
            ..self
        };
        if address == RCC_CR {
            RegisterSpaceView { rcc_cr: value, ..s }
        } else if address == RCC_PLLCFGR {
            RegisterSpaceView { rcc_pllcfgr: value, ..s }
        } else if address == RCC_CFGR {
            RegisterSpaceView {
                rcc_cfgr: value,
                switch_pending: value & RCC_CFGR_SYS_CLOCK_SWITCH_BITS != self.completed_switch,
                ..s
            }
        } else if address == FLASH_ACR {
            RegisterSpaceView { flash_acr: value, ..s }
        } else if address == STK_CTRL {
            RegisterSpaceView { stk_ctrl: value, ..s }
        } else if address == STK_LOAD {
            RegisterSpaceView { stk_load: value, ..s }
        } else if address == STK_VAL {
            RegisterSpaceView { stk_val: 0, ticks_remaining: self.tick_countdown_polls, ..s }
        } else {
            s
        }
    }

    /// The switch status field a read of the clock configuration
    /// register reports: the requested source once a pending switch has
    /// been polled enough, the old status until then.
    pub open spec fn reported_switch_status(self) -> u32 {
        if self.switch_pending && self.switch_stabilize_polls == 0 {
            self.rcc_cfgr & RCC_CFGR_SYS_CLOCK_SWITCH_BITS
        } else {
            self.completed_switch
        }
    }

    /// Value a read of the register an address names returns. Status
    /// bits the hardware owns — oscillator and PLL ready, the switch
    /// status, the countdown flag — are derived, not stored.
    pub open spec fn read_value(self, address: u32) -> u32 {
        if address == RCC_CR {
            self.rcc_cr | (if self.rcc_cr & RCC_CR_HSI_IS_ON != 0 {
                RCC_CR_HSI_IS_STABLE
            } else {
                0u32
            }) | (if self.rcc_cr & RCC_CR_HSE_IS_ON != 0 && self.hse_stabilize_polls == 0 {
                RCC_CR_HSE_IS_STABLE
            } else {
                0u32
            }) | (if self.rcc_cr & RCC_CR_MAIN_PLL_IS_ON != 0 && self.pll_stabilize_polls == 0 {
                RCC_CR_MAIN_PLL_IS_READY
            } else {
                0u32
            })
        } else if address == RCC_PLLCFGR {
            self.rcc_pllcfgr
        } else if address == RCC_CFGR {
            (self.rcc_cfgr & RCC_CFGR_SYS_CLOCK_SWITCH_STATUS_CLEAR) | (
            self.reported_switch_status() << RCC_CFGR_SYS_CLOCK_SWITCH_STATUS_START_BIT)
        } else if address == FLASH_ACR {
            self.flash_acr
        } else if address == STK_CTRL {
            if self.stk_ctrl & STK_CTRL_ENABLE_BIT != 0 && self.ticks_remaining == 0 {
                self.stk_ctrl | STK_CTRL_COUNTDOWN_TO_ZERO_BIT
            } else {
                self.stk_ctrl
            }
        } else if address == STK_LOAD {
            self.stk_load
        } else if address == STK_VAL {
            self.stk_val
        } else {
            0
        }
    }

    /// State after reading the register an address names: the read is
    /// recorded, and reading a polled register advances its simulated
    /// countdown — a ready countdown while its enable bit is set, a
    /// pending switch, or the tick countdown while the timer runs (a
    /// shown flag is consumed and the countdown restarts). Reading the
    /// live counter while the timer runs steps it coarsely: one count
    /// down per observation, reloading after zero.
    pub open spec fn read_state(self, address: u32) -> RegisterSpaceView {
        let s = RegisterSpaceView {
            trace: self.trace.push(
                RegisterAccess::Read { address: address, value: self.read_value(address) },
            ),
            ..self
        };
        if address == RCC_CR {
            RegisterSpaceView {
                hse_stabilize_polls: if self.rcc_cr & RCC_CR_HSE_IS_ON != 0
                    && self.hse_stabilize_polls > 0 {
                    (self.hse_stabilize_polls - 1) as u32
                } else {
                    self.hse_stabilize_polls
                },
                pll_stabilize_polls: if self.rcc_cr & RCC_CR_MAIN_PLL_IS_ON != 0
                    && self.pll_stabilize_polls > 0 {
                    (self.pll_stabilize_polls - 1) as u32
                } else {
                    self.pll_stabilize_polls
                },
                ..s
            }
        } else if address == RCC_CFGR {
            if self.switch_pending {
                if self.switch_stabilize_polls == 0 {
                    RegisterSpaceView {
                        completed_switch: self.rcc_cfgr & RCC_CFGR_SYS_CLOCK_SWITCH_BITS,
                        switch_pending: false,
                        ..s
                    }
                } else {
                    RegisterSpaceView {
                        switch_stabilize_polls: (self.switch_stabilize_polls - 1) as u32,
                        ..s
                    }
                }
            } else {
                s
            }
        } else if address == STK_CTRL {
            if self.stk_ctrl & STK_CTRL_ENABLE_BIT != 0 {
                if self.ticks_remaining == 0 {
                    RegisterSpaceView { ticks_remaining: self.tick_countdown_polls, ..s }
                } else {
                    RegisterSpaceView { ticks_remaining: (self.ticks_remaining - 1) as u32, ..s }
                }
            } else {
                s
            }
        } else if address == STK_VAL {
            if self.stk_ctrl & STK_CTRL_ENABLE_BIT != 0 {
                if self.stk_val == 0 {
                    RegisterSpaceView { stk_val: self.stk_load, ..s }
                } else {
                    RegisterSpaceView { stk_val: (self.stk_val - 1) as u32, ..s }
                }
            } else {
                s
            }
        } else {
            s
        }
    }
}

/// The simulated register space: the registers the clock setup and tick
/// timer touch, the injected stabilization behavior, and the trace of
/// every access.
pub struct RegisterSpace {
    pub rcc_cr: u32,
    pub rcc_pllcfgr: u32,
    pub rcc_cfgr: u32,
    pub flash_acr: u32,
    pub stk_ctrl: u32,
    pub stk_load: u32,
    pub stk_val: u32,
    pub completed_switch: u32,
    pub switch_pending: bool,
    pub hse_stabilize_polls: u32,
    pub pll_stabilize_polls: u32,
    pub switch_stabilize_polls: u32,
    pub tick_countdown_polls: u32,
    pub ticks_remaining: u32,
    pub trace: Vec<RegisterAccess>,
}

impl View for RegisterSpace {
    type V = RegisterSpaceView;

    open spec fn view(&self) -> RegisterSpaceView {
        RegisterSpaceView {
            rcc_cr: self.rcc_cr,
            rcc_pllcfgr: self.rcc_pllcfgr,
            rcc_cfgr: self.rcc_cfgr,
            flash_acr: self.flash_acr,
            stk_ctrl: self.stk_ctrl,
            stk_load: self.stk_load,
            stk_val: self.stk_val,
            completed_switch: self.completed_switch,
            switch_pending: self.switch_pending,
            hse_stabilize_polls: self.hse_stabilize_polls,
            pll_stabilize_polls: self.pll_stabilize_polls,
            switch_stabilize_polls: self.switch_stabilize_polls,
            tick_countdown_polls: self.tick_countdown_polls,
            ticks_remaining: self.ticks_remaining,
            trace: self.trace@,
        }
    }
}

impl RegisterSpace {
    /// A register space as the hardware leaves it at power-on: every
    /// register zero, the internal oscillator reported as the clock
    /// source, and the given stabilization behavior injected.
    pub fn new(
        hse_stabilize_polls: u32,
        pll_stabilize_polls: u32,
        switch_stabilize_polls: u32,
        tick_countdown_polls: u32,
    ) -> (r: RegisterSpace)
        ensures
            r@ == (RegisterSpaceView {
                rcc_cr: 0,
                rcc_pllcfgr: 0,
                rcc_cfgr: 0,
                flash_acr: 0,
                stk_ctrl: 0,
                stk_load: 0,
                stk_val: 0,
                completed_switch: 0,
                switch_pending: false,
                hse_stabilize_polls,
                pll_stabilize_polls,
                switch_stabilize_polls,
                tick_countdown_polls,
                ticks_remaining: tick_countdown_polls,
                trace: Seq::<RegisterAccess>::empty(),
            }),
    {
        RegisterSpace {
            rcc_cr: 0,
            rcc_pllcfgr: 0,
            rcc_cfgr: 0,
            flash_acr: 0,
            stk_ctrl: 0,
            stk_load: 0,
            stk_val: 0,
            completed_switch: 0,
            switch_pending: false,
            hse_stabilize_polls,
            pll_stabilize_polls,
            switch_stabilize_polls,
            tick_countdown_polls,
            ticks_remaining: tick_countdown_polls,
            trace: Vec::new(),
        }
    }

    /// Perform one hardware write: store the value and record the access.
    pub fn write_register(&mut self, address: u32, value: u32)
        ensures
            final(self)@ == old(self)@.write(address, value),
    {
        if address == RCC_CR {
            self.rcc_cr = value;
        } else if address == RCC_PLLCFGR {
            self.rcc_pllcfgr = value;
        } else if address == RCC_CFGR {
            self.switch_pending = value & RCC_CFGR_SYS_CLOCK_SWITCH_BITS != self.completed_switch;
            self.rcc_cfgr = value;
        } else if address == FLASH_ACR {
            self.flash_acr = value;
        } else if address == STK_CTRL {
            self.stk_ctrl = value;
        } else if address == STK_LOAD {
            self.stk_load = value;
        } else if address == STK_VAL {
            self.stk_val = 0;
            self.ticks_remaining = self.tick_countdown_polls;
        }
        self.trace.push(RegisterAccess::Write { address, value });
    }

    /// Perform one hardware read: return what the hardware reports,
    /// advance the simulated countdowns, and record the access.
    pub fn read_register(&mut self, address: u32) -> (value: u32)
        ensures
            value == old(self)@.read_value(address),
            final(self)@ == old(self)@.read_state(address),
    {
        let value: u32 = if address == RCC_CR {
            let v = self.rcc_cr | (if self.rcc_cr & RCC_CR_HSI_IS_ON != 0 {
                RCC_CR_HSI_IS_STABLE
            } else {
                0u32
            }) | (if self.rcc_cr & RCC_CR_HSE_IS_ON != 0 && self.hse_stabilize_polls == 0 {
                RCC_CR_HSE_IS_STABLE
            } else {
                0u32
            }) | (if self.rcc_cr & RCC_CR_MAIN_PLL_IS_ON != 0 && self.pll_stabilize_polls == 0 {
                RCC_CR_MAIN_PLL_IS_READY
            } else {
                0u32
            });
            if self.rcc_cr & RCC_CR_HSE_IS_ON != 0 && self.hse_stabilize_polls > 0 {
                self.hse_stabilize_polls = self.hse_stabilize_polls - 1;
            }
            if self.rcc_cr & RCC_CR_MAIN_PLL_IS_ON != 0 && self.pll_stabilize_polls > 0 {
                self.pll_stabilize_polls = self.pll_stabilize_polls - 1;
            }
            v
        } else if address == RCC_PLLCFGR {
            self.rcc_pllcfgr
        } else if address == RCC_CFGR {
            let status: u32 = if self.switch_pending && self.switch_stabilize_polls == 0 {
                self.rcc_cfgr & RCC_CFGR_SYS_CLOCK_SWITCH_BITS
            } else {
                self.completed_switch
            };
            let v = (self.rcc_cfgr & RCC_CFGR_SYS_CLOCK_SWITCH_STATUS_CLEAR) | (status
                << RCC_CFGR_SYS_CLOCK_SWITCH_STATUS_START_BIT);
            if self.switch_pending {
                if self.switch_stabilize_polls == 0 {
                    self.completed_switch = self.rcc_cfgr & RCC_CFGR_SYS_CLOCK_SWITCH_BITS;
                    self.switch_pending = false;
                } else {
                    self.switch_stabilize_polls = self.switch_stabilize_polls - 1;
                }
            }
            v
        } else if address == FLASH_ACR {
            self.flash_acr
        } else if address == STK_CTRL {
            let v = if self.stk_ctrl & STK_CTRL_ENABLE_BIT != 0 && self.ticks_remaining == 0 {
                self.stk_ctrl | STK_CTRL_COUNTDOWN_TO_ZERO_BIT
            } else {
                self.stk_ctrl
            };
            if self.stk_ctrl & STK_CTRL_ENABLE_BIT != 0 {
                if self.ticks_remaining == 0 {
                    self.ticks_remaining = self.tick_countdown_polls;
                } else {
                    self.ticks_remaining = self.ticks_remaining - 1;
                }
            }
            v
        } else if address == STK_LOAD {
            self.stk_load
        } else if address == STK_VAL {
            let v = self.stk_val;
            if self.stk_ctrl & STK_CTRL_ENABLE_BIT != 0 {
                if self.stk_val == 0 {
                    self.stk_val = self.stk_load;
                } else {
                    self.stk_val = self.stk_val - 1;
                }
            }
            v
        } else {
            0
        };
        self.trace.push(RegisterAccess::Read { address, value });
        value
    }
}

} // verus!
