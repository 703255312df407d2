//! Programmable-interval-timer setup and tick accounting.
//!
//! The timer fires on a fixed frequency; every tick bumps the process-wide
//! tick counter, and every timeslice worth of ticks the scheduler must be
//! invoked.  A much longer period drives a diagnostic heartbeat.

use vstd::prelude::*;
use crate::controller::PortWrite;

verus! {

/// The timer's main counting channel.
pub const PIT_CHANNEL0_PORT: u16 = 0x40;

/// The timer's mode/command register.
pub const PIT_COMMAND_PORT: u16 = 0x43;

/// Command byte selecting channel 0, lobyte/hibyte access, square-wave mode.
pub const PIT_COMMAND_BYTE: u8 = 0x36;

/// The timer's input frequency: it counts down from a divisor of this.
pub const PIT_DIVIDEND_HZ: u32 = 1193182;

/// The chosen interrupt frequency of the timer, in Hertz.
pub const PIT_FREQUENCY_HZ: u64 = 100;

/// The preemption timeslice, in milliseconds.
pub const TIMESLICE_PERIOD_MS: u64 = 100;

/// The diagnostic heartbeat period, in milliseconds.
pub const HEARTBEAT_PERIOD_MS: u64 = 10000;

/// Ticks per timeslice: the scheduler runs every this many ticks.
pub const TIMESLICE_TICKS: u64 = TIMESLICE_PERIOD_MS * PIT_FREQUENCY_HZ / 1000;

/// Ticks per heartbeat.
pub const HEARTBEAT_TICKS: u64 = HEARTBEAT_PERIOD_MS * PIT_FREQUENCY_HZ / 1000;

/// The writes that program the timer to `freq_hertz`: the command byte,
/// then the divisor's low byte and high byte on the counting channel.
pub open spec fn pit_program_sequence(freq_hertz: u32) -> Seq<PortWrite>
    recommends
        freq_hertz >= 19,
{
    let divisor = PIT_DIVIDEND_HZ as int / freq_hertz as int;
    seq![
        PortWrite { port: PIT_COMMAND_PORT, value: PIT_COMMAND_BYTE },
        PortWrite { port: PIT_CHANNEL0_PORT, value: (divisor % 256) as u8 },
        PortWrite { port: PIT_CHANNEL0_PORT, value: (divisor / 256) as u8 },
    ]
}

/// Program the timer to fire at `freq_hertz`.  Frequencies below 19 Hz need
/// a divisor wider than the hardware's 16-bit reload register and are ruled
/// out.
pub fn init(freq_hertz: u32) -> (w: Vec<PortWrite>)
    requires
        freq_hertz >= 19,
    ensures
        w@ == pit_program_sequence(freq_hertz),
{
    let divisor: u32 = PIT_DIVIDEND_HZ / freq_hertz;
    assert(divisor <= 0xFFFF) by (nonlinear_arith)
        requires
            divisor == PIT_DIVIDEND_HZ as int / freq_hertz as int,
            freq_hertz >= 19,
    ;
    let mut w: Vec<PortWrite> = Vec::new();
    w.push(PortWrite { port: PIT_COMMAND_PORT, value: PIT_COMMAND_BYTE });
    w.push(PortWrite { port: PIT_CHANNEL0_PORT, value: (divisor % 256) as u8 });
    w.push(PortWrite { port: PIT_CHANNEL0_PORT, value: (divisor / 256) as u8 });
    assert(w@ =~= pit_program_sequence(freq_hertz));
    w
}

/// What one timer tick asks of the caller.  When `invoke_scheduler` holds,
/// the controller acknowledge must be sent before the scheduler is invoked:
/// the scheduler may switch away without returning to this frame, and an
/// acknowledge that never runs would leave the interrupt in service forever.
#[derive(Clone, Copy, PartialEq, Eq, Structural, Debug)]
pub struct TimerDecision {
    pub invoke_scheduler: bool,
    pub heartbeat: bool,
}

/// Account for one timer tick: the counter increases by exactly one
/// (wrapping), the scheduler is owed an invocation exactly on every
/// [`TIMESLICE_TICKS`]th tick, and the heartbeat fires exactly on every
/// [`HEARTBEAT_TICKS`]th tick.
pub fn handle_timer_interrupt(ticks: &mut u64) -> (d: TimerDecision)
    ensures
        *final(ticks) == (if *old(ticks) == u64::MAX {
            0u64
        } else {
            (*old(ticks) + 1) as u64
        }),
        d.invoke_scheduler <==> *final(ticks) % TIMESLICE_TICKS == 0,
        d.heartbeat <==> *final(ticks) % HEARTBEAT_TICKS == 0,
{
    *ticks = ticks.wrapping_add(1);
    let t: u64 = *ticks;
    TimerDecision { invoke_scheduler: t % TIMESLICE_TICKS == 0, heartbeat: t % HEARTBEAT_TICKS == 0 }
}

/// The frequency the real-time clock is programmed to, in Hertz.
pub const RTC_FREQUENCY_HZ: u64 = 128;

/// Real-time-clock ticks per timeslice.
pub const RTC_TIMESLICE_TICKS: u64 = TIMESLICE_PERIOD_MS * RTC_FREQUENCY_HZ / 1000;

/// The real-time-clock flavour of timeslice accounting: the clock driver
/// hands over its tick count (or `None` when that system-wide state cannot
/// be read, which only logs), and the scheduler is owed an invocation
/// exactly on every [`RTC_TIMESLICE_TICKS`]th tick.
pub fn rtc_interrupt_func(rtc_ticks: Option<u64>) -> (invoke_scheduler: bool)
    ensures
        invoke_scheduler <==> (rtc_ticks matches Some(t) && t % RTC_TIMESLICE_TICKS == 0),
{
    match rtc_ticks {
        Some(t) => t % RTC_TIMESLICE_TICKS == 0,
        None => false,
    }
}

} // verus!
