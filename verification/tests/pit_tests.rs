use nano_core::controller::PortWrite;
use nano_core::pit::RTC_TIMESLICE_TICKS;
use nano_core::pit::TIMESLICE_TICKS;
use nano_core::pit::handle_timer_interrupt;
use nano_core::pit::init;
use nano_core::pit::rtc_interrupt_func;

#[test]
fn timeslice_is_ten_ticks_for_the_configured_rates() {
    // timeslice_period_ms = 100 and tick_frequency_hz = 100
    assert_eq!(TIMESLICE_TICKS, 10);
}

#[test]
fn scheduler_runs_exactly_once_per_ten_ticks_over_a_thousand() {
    let mut ticks: u64 = 0;
    let mut invocations: u64 = 0;
    for i in 1..=1000u64 {
        let d = handle_timer_interrupt(&mut ticks);
        assert_eq!(ticks, i);
        assert_eq!(d.invoke_scheduler, i % 10 == 0, "tick {}", i);
        if d.invoke_scheduler {
            invocations += 1;
        }
    }
    assert_eq!(invocations, 100);
}

#[test]
fn heartbeat_fires_every_thousand_ticks() {
    let mut ticks: u64 = 0;
    let mut beats: u64 = 0;
    for i in 1..=2000u64 {
        let d = handle_timer_interrupt(&mut ticks);
        assert_eq!(d.heartbeat, i % 1000 == 0);
        if d.heartbeat {
            beats += 1;
        }
    }
    assert_eq!(beats, 2);
}

#[test]
fn tick_counter_wraps_at_the_top() {
    let mut ticks: u64 = u64::MAX;
    let _ = handle_timer_interrupt(&mut ticks);
    assert_eq!(ticks, 0);
}

#[test]
fn timer_program_for_hundred_hertz() {
    let w = init(100);
    // 1193182 / 100 = 11931 = 0x2E9B, low byte first
    assert_eq!(
        w,
        vec![
            PortWrite { port: 0x43, value: 0x36 },
            PortWrite { port: 0x40, value: 0x9B },
            PortWrite { port: 0x40, value: 0x2E },
        ]
    );
}

#[test]
fn timer_program_for_the_slowest_supported_rate() {
    let w = init(19);
    // 1193182 / 19 = 62799 = 0xF54F still fits the 16-bit reload register
    assert_eq!(w[1].value, 0x4F);
    assert_eq!(w[2].value, 0xF5);
}

#[test]
fn rtc_accounting_invokes_scheduler_on_its_own_period() {
    // 100 ms of a 128 Hz clock, rounded down
    assert_eq!(RTC_TIMESLICE_TICKS, 12);
    assert!(rtc_interrupt_func(Some(24)));
    assert!(!rtc_interrupt_func(Some(25)));
    assert!(rtc_interrupt_func(Some(0)));
    assert!(!rtc_interrupt_func(None));
}
