//! System tick timer (SysTick): bit layout, reload computation, and the
//! millisecond time base.
//!
//! The timer counts a 24-bit value down to zero once per CPU clock
//! cycle. Loading it with `cpu_frequency / 1000 - 1` makes each full
//! countdown last one millisecond; a requested frequency whose reload
//! does not fit the 24-bit register is rejected rather than truncated,
//! because truncation would silently produce a wrong period.

use vstd::prelude::*;
use crate::register_space::RegisterSpace;
use crate::rcc_clock_settings::{STK_CTRL, STK_LOAD, STK_VAL};

verus! {

/// Bit 0: counter enable.
pub const STK_CTRL_ENABLE_BIT: u32 = 0x0000_0001;

/// Bit offset of the counter enable bit.
pub const STK_CTRL_ENABLE_START_BIT: u32 = 0;

/// Bit 1: exception request on countdown to zero.
pub const STK_CTRL_EXCEPTION_REQUEST_ENABLE_BIT: u32 = 0x0000_0002;

/// Bit offset of the exception request enable bit.
pub const STK_CTRL_EXCEPTION_REQUEST_ENABLE_START_BIT: u32 = 1;

/// Bit 2: clock source select; set means the CPU clock, clear means the
/// CPU clock divided by eight.
pub const STK_CTRL_USE_CPU_CLOCK_FREQUENCY_BIT: u32 = 0x0000_0004;

/// Bit offset of the clock source select bit.
pub const STK_CTRL_USE_CPU_CLOCK_FREQUENCY_START_BIT: u32 = 2;

/// Bit 16: the counter reached zero since this register was last read
/// (read-only, cleared by reading).
pub const STK_CTRL_COUNTDOWN_TO_ZERO_BIT: u32 = 0x0001_0000;

/// Bit offset of the countdown-reached-zero flag.
pub const STK_CTRL_COUNTDOWN_TO_ZERO_START_BIT: u32 = 16;

/// Largest reload value the 24-bit countdown register holds.
pub const STK_RELOAD_MAX: u32 = 0x00FF_FFFF;

/// Why the tick timer could not be configured or polled: the computed
/// reload exceeds the 24-bit register, or the countdown flag never
/// showed within the poll budget.
#[derive(Clone, Copy, Debug, PartialEq, Eq, Structural)]
pub enum SystemTickError {
    ReloadOverflow,
    HardwareNeverStabilized,
}

/// The tick timer configuration a CPU frequency yields: the reload
/// value for a one millisecond period, the clock source select, and
/// whether the countdown raises the tick exception.
#[derive(Clone, Copy, Debug, PartialEq, Eq, Structural)]
pub struct TickTimerConfig {
    pub reload_value: u32,
    pub use_cpu_clock: bool,
    pub interrupt_enabled: bool,
}

impl TickTimerConfig {
    /// The control register value this configuration programs.
    pub fn control_register_value(&self) -> (r: u32)
        requires
            self.use_cpu_clock,
        ensures
            r == spec_tick_control_bits(self.interrupt_enabled),
    {
        if self.interrupt_enabled {
            STK_CTRL_USE_CPU_CLOCK_FREQUENCY_BIT | STK_CTRL_EXCEPTION_REQUEST_ENABLE_BIT
                | STK_CTRL_ENABLE_BIT
        } else {
            STK_CTRL_USE_CPU_CLOCK_FREQUENCY_BIT | STK_CTRL_ENABLE_BIT
        }
    }
}

/// Reload value for a one millisecond period: one less than the number
/// of CPU cycles per millisecond.
pub open spec fn spec_tick_reload_value(cpu_clock_frequency_in_hertz: u64) -> int {
    cpu_clock_frequency_in_hertz as int / 1000 - 1
}

/// Control register value that runs the counter from the CPU clock,
/// with or without the tick exception.
pub open spec fn spec_tick_control_bits(enable_exception: bool) -> u32 {
    if enable_exception {
        STK_CTRL_USE_CPU_CLOCK_FREQUENCY_BIT | STK_CTRL_EXCEPTION_REQUEST_ENABLE_BIT
            | STK_CTRL_ENABLE_BIT
    } else {
        STK_CTRL_USE_CPU_CLOCK_FREQUENCY_BIT | STK_CTRL_ENABLE_BIT
    }
}

/// The tick timer's control and reload registers decoded into fields.
#[derive(Clone, Copy, Debug, PartialEq, Eq, Structural)]
pub struct SystemTickTimerFields {
    pub counter_enabled: bool,
    pub exception_request_enabled: bool,
    pub use_cpu_clock_frequency: bool,
    pub countdown_reached_zero: bool,
    pub reload_value: u32,
}

/// The system tick timer: reload computation, enabling, the live
/// countdown, and millisecond busy-waits.
pub struct SystemTickTimer {}

impl SystemTickTimer {
    /// The configuration a CPU frequency yields for a one millisecond
    /// period. A frequency whose reload exceeds the 24-bit register is
    /// rejected rather than truncated.
    pub fn tick_timer_config(cpu_clock_frequency_in_hertz: u64, enable_exception: bool) -> (r:
        Result<TickTimerConfig, SystemTickError>)
        requires
            cpu_clock_frequency_in_hertz >= 1000,
        ensures
            r is Ok <==> spec_tick_reload_value(cpu_clock_frequency_in_hertz) <= STK_RELOAD_MAX,
            spec_tick_reload_value(cpu_clock_frequency_in_hertz) <= STK_RELOAD_MAX ==> r == Ok::<
                TickTimerConfig,
                SystemTickError,
            >(
                TickTimerConfig {
                    reload_value: spec_tick_reload_value(cpu_clock_frequency_in_hertz) as u32,
                    use_cpu_clock: true,
                    interrupt_enabled: enable_exception,
                },
            ),
            spec_tick_reload_value(cpu_clock_frequency_in_hertz) > STK_RELOAD_MAX ==> r == Err::<
                TickTimerConfig,
                SystemTickError,
            >(SystemTickError::ReloadOverflow),
    {
        let reload_countdown = cpu_clock_frequency_in_hertz / 1000 - 1;
        if reload_countdown > STK_RELOAD_MAX as u64 {
            Err(SystemTickError::ReloadOverflow)
        } else {
            Ok(
                TickTimerConfig {
                    reload_value: reload_countdown as u32,
                    use_cpu_clock: true,
                    interrupt_enabled: enable_exception,
                },
            )
        }
    }

    /// Program the timer for a one millisecond period: write the reload
    /// value, clear the current count, and set the control bits (CPU
    /// clock source, counter enable, optionally the tick exception). A
    /// reload that does not fit is rejected before any register write.
    pub fn enable(
        dev: &mut RegisterSpace,
        cpu_clock_frequency_in_hertz: u64,
        enable_exception: bool,
    ) -> (r: Result<TickTimerConfig, SystemTickError>)
        requires
            cpu_clock_frequency_in_hertz >= 1000,
        ensures
            r is Ok <==> spec_tick_reload_value(cpu_clock_frequency_in_hertz) <= STK_RELOAD_MAX,
            spec_tick_reload_value(cpu_clock_frequency_in_hertz) <= STK_RELOAD_MAX ==> r == Ok::<
                TickTimerConfig,
                SystemTickError,
            >(
                TickTimerConfig {
                    reload_value: spec_tick_reload_value(cpu_clock_frequency_in_hertz) as u32,
                    use_cpu_clock: true,
                    interrupt_enabled: enable_exception,
                },
            ) && final(dev)@ == old(dev)@.write(
                STK_LOAD,
                spec_tick_reload_value(cpu_clock_frequency_in_hertz) as u32,
            ).write(STK_VAL, 0).write(STK_CTRL, spec_tick_control_bits(enable_exception)),
            spec_tick_reload_value(cpu_clock_frequency_in_hertz) > STK_RELOAD_MAX ==> r == Err::<
                TickTimerConfig,
                SystemTickError,
            >(SystemTickError::ReloadOverflow) && *final(dev) == *old(dev),
    {
        let config = match Self::tick_timer_config(cpu_clock_frequency_in_hertz, enable_exception) {
            Err(e) => {
                return Err(e);
            },
            Ok(config) => config,
        };
        let set_bits = if enable_exception {
            STK_CTRL_USE_CPU_CLOCK_FREQUENCY_BIT | STK_CTRL_EXCEPTION_REQUEST_ENABLE_BIT
                | STK_CTRL_ENABLE_BIT
        } else {
            STK_CTRL_USE_CPU_CLOCK_FREQUENCY_BIT | STK_CTRL_ENABLE_BIT
        };
        dev.write_register(STK_LOAD, config.reload_value);
        dev.write_register(STK_VAL, 0x0000_0000);
        dev.write_register(STK_CTRL, set_bits);
        Ok(config)
    }

    /// A peek at the live down-counter. The simulated counter advances
    /// coarsely, one count per observation while the timer runs,
    /// reloading after zero.
    pub fn get_current_countdown_value(dev: &mut RegisterSpace) -> (r: u32)
        ensures
            r == old(dev)@.read_value(STK_VAL),
            final(dev)@ == old(dev)@.read_state(STK_VAL),
    {
        dev.read_register(STK_VAL)
    }

    /// Busy-wait for the given number of milliseconds: program the
    /// timer for a one millisecond period, then, for each millisecond,
    /// clear the counter (restarting the countdown) and poll the
    /// control register until the countdown flag shows, at most
    /// `max_polls` times. The 24-bit counter cannot hold multi-second
    /// spans, hence the per-millisecond loop.
    pub fn delay(
        dev: &mut RegisterSpace,
        cpu_clock_frequency_in_hertz: u64,
        milliseconds: u32,
        max_polls: u32,
    ) -> (r: Result<(), SystemTickError>)
        requires
            cpu_clock_frequency_in_hertz >= 1000,
        ensures
            r is Ok <==> (spec_tick_reload_value(cpu_clock_frequency_in_hertz) <= STK_RELOAD_MAX
                && (milliseconds == 0 || old(dev)@.tick_countdown_polls < max_polls)),
            spec_tick_reload_value(cpu_clock_frequency_in_hertz) > STK_RELOAD_MAX ==> r == Err::<
                (),
                SystemTickError,
            >(SystemTickError::ReloadOverflow) && *final(dev) == *old(dev),
            spec_tick_reload_value(cpu_clock_frequency_in_hertz) <= STK_RELOAD_MAX && milliseconds
                > 0 && old(dev)@.tick_countdown_polls >= max_polls ==> r == Err::<
                (),
                SystemTickError,
            >(SystemTickError::HardwareNeverStabilized),
            spec_tick_reload_value(cpu_clock_frequency_in_hertz) <= STK_RELOAD_MAX ==> final(dev)@
                == (crate::register_space::RegisterSpaceView {
                stk_ctrl: spec_tick_control_bits(false),
                stk_load: spec_tick_reload_value(cpu_clock_frequency_in_hertz) as u32,
                stk_val: 0,
                ticks_remaining: final(dev)@.ticks_remaining,
                trace: final(dev)@.trace,
                ..old(dev)@
            }),
            final(dev)@.trace.len() >= old(dev)@.trace.len(),
            final(dev)@.trace.subrange(0, old(dev)@.trace.len() as int) == old(dev)@.trace,
    {
        proof {
            lemma_tick_literal_facts();
        }
        let ghost t0: int = old(dev)@.trace.len() as int;
        let reload = match Self::enable(dev, cpu_clock_frequency_in_hertz, false) {
            Err(e) => {
                proof {
                    assert(dev@.trace.subrange(0, t0) =~= old(dev)@.trace);
                }
                return Err(e);
            },
            Ok(config) => config.reload_value,
        };
        proof {
            assert(dev@.trace.subrange(0, t0) =~= old(dev)@.trace);
        }
        let mut waited: u32 = 0;
        while waited < milliseconds
            invariant
                waited <= milliseconds,
                waited > 0 ==> old(dev)@.tick_countdown_polls < max_polls,
                spec_tick_reload_value(cpu_clock_frequency_in_hertz) <= STK_RELOAD_MAX,
                old(dev)@.trace.len() == t0,
                dev@ == (crate::register_space::RegisterSpaceView {
                    stk_ctrl: spec_tick_control_bits(false),
                    stk_load: spec_tick_reload_value(cpu_clock_frequency_in_hertz) as u32,
                    stk_val: 0,
                    ticks_remaining: dev@.tick_countdown_polls,
                    trace: dev@.trace,
                    ..old(dev)@
                }),
                dev@.trace.len() >= t0,
                dev@.trace.subrange(0, t0) == old(dev)@.trace,
            decreases milliseconds - waited,
        {
            proof {
                lemma_tick_literal_facts();
            }
            let ghost t_ms: int = dev@.trace.len() as int;
            dev.write_register(STK_VAL, 0x0000_0000);
            proof {
                assert(dev@.trace.subrange(0, t0) =~= old(dev)@.trace);
            }
            let mut polls: u32 = 0;
            let mut flag_seen = false;
            while polls < max_polls && !flag_seen
                invariant
                    polls <= max_polls,
                    spec_tick_reload_value(cpu_clock_frequency_in_hertz) <= STK_RELOAD_MAX,
                    old(dev)@.trace.len() == t0,
                    !flag_seen ==> old(dev)@.tick_countdown_polls >= polls,
                    !flag_seen ==> dev@ == (crate::register_space::RegisterSpaceView {
                        stk_ctrl: spec_tick_control_bits(false),
                        stk_load: spec_tick_reload_value(cpu_clock_frequency_in_hertz) as u32,
                        stk_val: 0,
                        ticks_remaining: (old(dev)@.tick_countdown_polls - polls) as u32,
                        trace: dev@.trace,
                        ..old(dev)@
                    }),
                    flag_seen ==> dev@ == (crate::register_space::RegisterSpaceView {
                        stk_ctrl: spec_tick_control_bits(false),
                        stk_load: spec_tick_reload_value(cpu_clock_frequency_in_hertz) as u32,
                        stk_val: 0,
                        ticks_remaining: dev@.tick_countdown_polls,
                        trace: dev@.trace,
                        ..old(dev)@
                    }),
                    flag_seen ==> old(dev)@.tick_countdown_polls < max_polls,
                    dev@.trace.len() >= t0,
                    dev@.trace.subrange(0, t0) == old(dev)@.trace,
                decreases max_polls - polls + (if flag_seen {
                    0int
                } else {
                    1int
                }),
            {
                proof {
                    lemma_tick_literal_facts();
                }
                let v = dev.read_register(STK_CTRL);
                proof {
                    assert(dev@.trace.subrange(0, t0) =~= old(dev)@.trace);
                }
                if v & STK_CTRL_COUNTDOWN_TO_ZERO_BIT != 0 {
                    flag_seen = true;
                } else {
                    polls = polls + 1;
                }
            }
            if !flag_seen {
                return Err(SystemTickError::HardwareNeverStabilized);
            }
            waited = waited + 1;
        }
        Ok(())
    }
}

/// One tick of the process-wide millisecond counter, exactly as the
/// tick exception handler performs it once per interrupt.
pub fn system_tick_exception_handler(current_past_milliseconds_count: &mut u32)
    requires
        *old(current_past_milliseconds_count) < u32::MAX,
    ensures
        *final(current_past_milliseconds_count) == *old(current_past_milliseconds_count) + 1,
{
    *current_past_milliseconds_count = *current_past_milliseconds_count + 1;
}

/// Decode the timer's control and reload register values into fields.
impl SystemTickTimer {
    pub fn decode(control_value: u32, reload_register_value: u32) -> (r: SystemTickTimerFields)
        ensures
            r.counter_enabled == (control_value & STK_CTRL_ENABLE_BIT != 0),
            r.exception_request_enabled == (control_value & STK_CTRL_EXCEPTION_REQUEST_ENABLE_BIT
                != 0),
            r.use_cpu_clock_frequency == (control_value & STK_CTRL_USE_CPU_CLOCK_FREQUENCY_BIT
                != 0),
            r.countdown_reached_zero == (control_value & STK_CTRL_COUNTDOWN_TO_ZERO_BIT != 0),
            r.reload_value == reload_register_value,
    {
        SystemTickTimerFields {
            counter_enabled: control_value & STK_CTRL_ENABLE_BIT != 0,
            exception_request_enabled: control_value & STK_CTRL_EXCEPTION_REQUEST_ENABLE_BIT != 0,
            use_cpu_clock_frequency: control_value & STK_CTRL_USE_CPU_CLOCK_FREQUENCY_BIT != 0,
            countdown_reached_zero: control_value & STK_CTRL_COUNTDOWN_TO_ZERO_BIT != 0,
            reload_value: reload_register_value,
        }
    }
}

/// Bit-level evaluations of the control values the tick timer stores,
/// as the simulated reads derive the countdown flag from them.
pub(crate) proof fn lemma_tick_literal_facts()
    ensures
        spec_tick_control_bits(false) & STK_CTRL_ENABLE_BIT != 0,
        spec_tick_control_bits(true) & STK_CTRL_ENABLE_BIT != 0,
        spec_tick_control_bits(false) & STK_CTRL_COUNTDOWN_TO_ZERO_BIT == 0,
        spec_tick_control_bits(true) & STK_CTRL_COUNTDOWN_TO_ZERO_BIT == 0,
        (spec_tick_control_bits(false) | STK_CTRL_COUNTDOWN_TO_ZERO_BIT)
            & STK_CTRL_COUNTDOWN_TO_ZERO_BIT != 0,
        (spec_tick_control_bits(true) | STK_CTRL_COUNTDOWN_TO_ZERO_BIT)
            & STK_CTRL_COUNTDOWN_TO_ZERO_BIT != 0,
{
    assert((((0x4u32 | 0x1u32) & 0x1u32) != 0) && (((0x4u32 | 0x2u32 | 0x1u32) & 0x1u32) != 0) && (
    ((0x4u32 | 0x1u32) & 0x1_0000u32) == 0) && (((0x4u32 | 0x2u32 | 0x1u32) & 0x1_0000u32) == 0)
        && ((((0x4u32 | 0x1u32) | 0x1_0000u32) & 0x1_0000u32) != 0) && ((((0x4u32 | 0x2u32
        | 0x1u32) | 0x1_0000u32) & 0x1_0000u32) != 0)) by (bit_vector);
}

} // verus!
