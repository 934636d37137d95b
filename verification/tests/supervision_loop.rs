use bringup::device::{Device, RegEvent, SRC_PLL};
use bringup::supervise::{supervision_run, wdt_ticks_for_ms};

#[test]
fn three_rounds_with_margin_never_expire() {
    // Three rounds of the loop, a 3.9 s pause each: the refresh always
    // arrives before the countdown runs out.
    let mut dev = Device::new(2, 1, 0, 1);
    let ticks = wdt_ticks_for_ms(3900);
    assert!(ticks < 4095);
    supervision_run(&mut dev, 3, ticks);
    assert!(!dev.wdt.expired);
    assert!(dev.wdt.running);
    assert_eq!(dev.wdt.counter, 4095);
    assert_eq!(dev.clk.sysclk_status, SRC_PLL);
}

#[test]
fn loop_after_arming_issues_only_refresh_keys() {
    let mut dev = Device::new(2, 1, 0, 1);
    let before = {
        let mut probe = Device::new(2, 1, 0, 1);
        bringup::clock::clock_init(&mut probe);
        bringup::watchdog::wdt_init(&mut probe);
        probe.trace.len()
    };
    supervision_run(&mut dev, 3, wdt_ticks_for_ms(3900));
    assert_eq!(dev.trace.len(), before + 3);
    for ev in dev.trace.iter().skip(before) {
        assert_eq!(*ev, RegEvent::WdtKeyWrite(0xAAAA));
    }
}

#[test]
fn interval_of_a_full_reload_expires() {
    // At the nominal tick rate the configured 4000 ms pause converts to
    // 4096 ticks, one more than the reload value: the countdown runs out
    // before the first refresh.
    let mut dev = Device::new(2, 1, 0, 1);
    let ticks = wdt_ticks_for_ms(4000);
    assert_eq!(ticks, 4096);
    supervision_run(&mut dev, 3, ticks);
    assert!(dev.wdt.expired);
}

#[test]
fn zero_rounds_leave_the_watchdog_armed() {
    let mut dev = Device::new(0, 0, 0, 1);
    supervision_run(&mut dev, 0, 0);
    assert!(dev.wdt.running);
    assert!(!dev.wdt.expired);
    assert_eq!(dev.wdt.counter, 4095);
}
