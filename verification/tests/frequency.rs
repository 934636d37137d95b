use bringup::config::{
    compute_sysclk_hz, flash_latency_for, FLASH_LATENCY_TARGET, HSI_HZ, PLL_M_DEFAULT, PLL_N,
    PLL_P_DIV, REFRESH_INTERVAL_MS, SYSCLK_TARGET_HZ, WDT_RELOAD,
};
use bringup::supervise::wdt_ticks_for_ms;

#[test]
fn target_sysclk_is_84_mhz() {
    assert_eq!(SYSCLK_TARGET_HZ, 84_000_000);
    assert_eq!(
        compute_sysclk_hz(HSI_HZ, PLL_M_DEFAULT, PLL_N, PLL_P_DIV),
        84_000_000
    );
}

#[test]
fn latency_matches_target_sysclk() {
    assert_eq!(flash_latency_for(SYSCLK_TARGET_HZ), FLASH_LATENCY_TARGET);
    assert_eq!(flash_latency_for(SYSCLK_TARGET_HZ), 2);
}

#[test]
fn latency_bands_follow_datasheet_table() {
    assert_eq!(flash_latency_for(0), 0);
    assert_eq!(flash_latency_for(16_000_000), 0);
    assert_eq!(flash_latency_for(30_000_000), 0);
    assert_eq!(flash_latency_for(30_000_001), 1);
    assert_eq!(flash_latency_for(45_000_000), 1);
    assert_eq!(flash_latency_for(60_000_000), 1);
    assert_eq!(flash_latency_for(60_000_001), 2);
    assert_eq!(flash_latency_for(84_000_000), 2);
}

#[test]
fn other_valid_configs_compute_their_own_band() {
    // 16 MHz / 16 * 192 / 4 = 48 MHz: one wait state.
    let hz = compute_sysclk_hz(16_000_000, 16, 192, 4);
    assert_eq!(hz, 48_000_000);
    assert_eq!(flash_latency_for(hz), 1);
    // 16 MHz / 16 * 192 / 8 = 24 MHz: zero wait states.
    let hz = compute_sysclk_hz(16_000_000, 16, 192, 8);
    assert_eq!(hz, 24_000_000);
    assert_eq!(flash_latency_for(hz), 0);
}

#[test]
fn tick_conversion_at_nominal_rate() {
    assert_eq!(wdt_ticks_for_ms(1000), 1024);
    assert_eq!(wdt_ticks_for_ms(0), 0);
    assert_eq!(wdt_ticks_for_ms(3900), 3993);
}

#[test]
fn chosen_interval_covers_a_full_reload() {
    // The configured pause converts to more ticks than the reload value:
    // the margin of the chosen pair is negative at the nominal clock rate.
    assert_eq!(wdt_ticks_for_ms(REFRESH_INTERVAL_MS), 4096);
    assert!(wdt_ticks_for_ms(REFRESH_INTERVAL_MS) > WDT_RELOAD);
}
