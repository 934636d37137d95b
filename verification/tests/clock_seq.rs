use bringup::clock::clock_init;
use bringup::device::{Device, RegEvent, SRC_HSI, SRC_PLL};

#[test]
fn pll_selected_after_init() {
    // A reference device whose PLL locks after three reads and whose source
    // switch takes two reads.
    let mut dev = Device::new(3, 2, 0, 1);
    clock_init(&mut dev);
    assert_eq!(dev.clk.sysclk_status, SRC_PLL);
    assert_eq!(dev.clk.sysclk_sel, SRC_PLL);
    assert_eq!(dev.clk.flash_latency, 2);
    assert_eq!(dev.clk.pll_n, 336);
    assert_eq!(dev.clk.pll_p, 4);
    assert_eq!(dev.clk.pll_m, 16);
    assert_eq!(dev.clk.apb1_div, 2);
    assert!(dev.clk.pll_on);
}

#[test]
fn init_trace_is_exact() {
    let mut dev = Device::new(1, 1, 0, 1);
    clock_init(&mut dev);
    let expected = vec![
        RegEvent::PllPWrite(4),
        RegEvent::PllNWrite(336),
        RegEvent::Apb1DivWrite(2),
        RegEvent::PllEnable,
        RegEvent::PllReadyRead(false),
        RegEvent::PllReadyRead(true),
        RegEvent::FlashLatencyWrite(2),
        RegEvent::SysclkSelWrite(SRC_PLL),
        RegEvent::SysclkStatusRead(SRC_HSI),
        RegEvent::SysclkStatusRead(SRC_PLL),
    ];
    assert_eq!(dev.trace, expected);
}

#[test]
fn latency_written_after_lock_and_before_switch() {
    let mut dev = Device::new(5, 4, 0, 1);
    clock_init(&mut dev);
    let mut lock_observed_at: Option<usize> = None;
    let mut latency_at: Option<usize> = None;
    let mut switch_at: Option<usize> = None;
    let mut latency_writes: usize = 0;
    let mut switch_writes: usize = 0;
    for (i, ev) in dev.trace.iter().enumerate() {
        match ev {
            RegEvent::PllReadyRead(true) => {
                lock_observed_at = Some(i);
            }
            RegEvent::FlashLatencyWrite(_) => {
                latency_at = Some(i);
                latency_writes += 1;
            }
            RegEvent::SysclkSelWrite(_) => {
                switch_at = Some(i);
                switch_writes += 1;
            }
            _ => {}
        }
    }
    let lock = lock_observed_at.expect("the PLL lock must be observed");
    let lat = latency_at.expect("the latency must be written");
    let sw = switch_at.expect("the source must be switched");
    assert!(lock < lat, "latency written before the PLL lock was observed");
    assert!(lat < sw, "source switched before the latency was written");
    assert_eq!(latency_writes, 1);
    assert_eq!(switch_writes, 1);
}
