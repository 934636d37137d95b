use bringup::device::{Device, RegEvent};
use bringup::watchdog::{wdt_init, wdt_refresh};

#[test]
fn arm_programs_prescaler_and_reload() {
    let mut dev = Device::new(0, 0, 0, 1);
    wdt_init(&mut dev);
    assert_eq!(dev.wdt.reload, 4095);
    assert_eq!(dev.wdt.prescaler, 3);
    assert_eq!(dev.wdt.counter, 4095);
    assert!(dev.wdt.running);
    assert!(!dev.wdt.unlocked);
    assert!(!dev.wdt.expired);
}

#[test]
fn refresh_resets_countdown_and_nothing_else() {
    let mut dev = Device::new(0, 0, 0, 1);
    wdt_init(&mut dev);
    dev.advance_ticks(100);
    assert_eq!(dev.wdt.counter, 3995);
    wdt_refresh(&mut dev);
    assert_eq!(dev.wdt.counter, 4095);
    assert_eq!(dev.wdt.reload, 4095);
    assert_eq!(dev.wdt.prescaler, 3);
    assert!(dev.wdt.running);
    assert!(!dev.wdt.expired);
}

#[test]
fn arm_issues_keys_in_order() {
    // The update flag is initially set: it stays pending for two reads.
    let mut dev = Device::new(0, 0, 2, 1);
    wdt_init(&mut dev);
    let keys: Vec<u32> = dev
        .trace
        .iter()
        .filter_map(|ev| match ev {
            RegEvent::WdtKeyWrite(k) => Some(*k),
            _ => None,
        })
        .collect();
    assert_eq!(keys, vec![0xCCCC, 0x5555, 0xAAAA]);
}

#[test]
fn config_writes_wait_for_clear_flag() {
    // The update flag is initially set; the prescaler and reload writes may
    // come only after a read observed it clear.
    let mut dev = Device::new(0, 0, 3, 2);
    wdt_init(&mut dev);
    let mut first_clear_read: Option<usize> = None;
    let mut prescaler_at: Option<usize> = None;
    let mut reload_at: Option<usize> = None;
    for (i, ev) in dev.trace.iter().enumerate() {
        match ev {
            RegEvent::WdtPendingRead(false) => {
                if first_clear_read.is_none() {
                    first_clear_read = Some(i);
                }
            }
            RegEvent::WdtPrescalerWrite(_) => {
                prescaler_at = Some(i);
            }
            RegEvent::WdtReloadWrite(_) => {
                reload_at = Some(i);
            }
            _ => {}
        }
    }
    let clear = first_clear_read.expect("the flag must be observed clear");
    let pr = prescaler_at.expect("the prescaler must be written");
    let rl = reload_at.expect("the reload must be written");
    assert!(clear < pr, "prescaler written before the flag was seen clear");
    assert!(pr < rl, "reload written before the prescaler");
    // The writes took effect despite the initially pending flag.
    assert_eq!(dev.wdt.prescaler, 3);
    assert_eq!(dev.wdt.reload, 4095);
}

#[test]
fn refresh_is_idempotent() {
    let mut dev = Device::new(0, 0, 0, 1);
    wdt_init(&mut dev);
    wdt_refresh(&mut dev);
    let once = dev.wdt;
    wdt_refresh(&mut dev);
    assert_eq!(dev.wdt, once);
    wdt_refresh(&mut dev);
    wdt_refresh(&mut dev);
    assert_eq!(dev.wdt, once);
}

#[test]
fn config_write_dropped_while_locked() {
    let mut dev = Device::new(0, 0, 0, 1);
    // No unlock key was written: the write must be silently dropped.
    dev.wdt_set_prescaler(3);
    assert_eq!(dev.wdt.prescaler, 0);
}

#[test]
fn config_write_dropped_while_update_pending() {
    let mut dev = Device::new(0, 0, 3, 1);
    dev.wdt_write_key(0x5555);
    // Unlocked, but the update flag is still pending: dropped.
    dev.wdt_set_reload(100);
    assert_eq!(dev.wdt.reload, 4095);
}
