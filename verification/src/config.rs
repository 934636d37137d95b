//! The fixed configuration the sequencer programs, with the frequency and
//! timing arithmetic that justifies it.

use vstd::prelude::*;

verus! {

/// Nominal frequency of the internal RC oscillator that feeds the PLL.
pub const HSI_HZ: u32 = 16_000_000;

/// Power-on default of the PLL input divider M; the sequencer leaves it alone.
pub const PLL_M_DEFAULT: u32 = 16;

/// PLL multiplier N programmed by the sequencer.
pub const PLL_N: u32 = 336;

/// PLL output divider P programmed by the sequencer (the divisor itself).
pub const PLL_P_DIV: u32 = 4;

/// Divider applied to the system clock for the slow peripheral bus, whose
/// rated maximum is below the core's.
pub const APB1_DIV: u32 = 2;

/// Highest system clock frequency the device is rated for.
pub const SYSCLK_MAX_HZ: u32 = 84_000_000;

/// System clock that the chosen divider chain produces from the internal
/// oscillator: 16 MHz / M * N / P.
pub const SYSCLK_TARGET_HZ: u32 = HSI_HZ / PLL_M_DEFAULT * PLL_N / PLL_P_DIV;

/// Width of one flash wait-state band in the datasheet table.
pub const FLASH_BAND_HZ: u32 = 30_000_000;

/// Flash wait states for the band that [`SYSCLK_TARGET_HZ`] falls in.
pub const FLASH_LATENCY_TARGET: u32 = 2;

/// Key that starts the watchdog countdown.
pub const WDT_KEY_START: u32 = 0xCCCC;

/// Key that lifts the write protection of the watchdog configuration
/// registers.
pub const WDT_KEY_UNLOCK: u32 = 0x5555;

/// Key that re-arms the countdown from the reload register.
pub const WDT_KEY_REFRESH: u32 = 0xAAAA;

/// Prescaler code the sequencer programs; code 3 divides the watchdog clock
/// by 32.
pub const WDT_PRESCALER_CODE: u32 = 3;

/// Division factor that [`WDT_PRESCALER_CODE`] selects.
pub const WDT_PRESCALER_DIV: u32 = 32;

/// Reload value the sequencer programs: the largest value of the 12-bit
/// register, for the longest timeout the chosen prescaler allows.
pub const WDT_RELOAD: u32 = 4095;

/// Largest value the 12-bit reload register can hold.
pub const WDT_RELOAD_MAX: u32 = 4095;

/// Nominal frequency of the independent clock that feeds the watchdog.
pub const WDT_CLOCK_HZ: u32 = 32_768;

/// Rate at which the armed watchdog counts down.
pub const WDT_TICK_HZ: u32 = WDT_CLOCK_HZ / WDT_PRESCALER_DIV;

/// Pause between two refreshes of the supervision loop, in milliseconds.
pub const REFRESH_INTERVAL_MS: u32 = 4000;

/// Frequency the PLL input divider presents to the phase comparator.
pub open spec fn vco_input_hz(input_hz: nat, m: nat) -> nat
    recommends
        m > 0,
{
    input_hz / m
}

/// Frequency of the voltage-controlled oscillator: the divided input,
/// multiplied up by N.
pub open spec fn vco_output_hz(input_hz: nat, m: nat, n: nat) -> nat
    recommends
        m > 0,
{
    (input_hz / m) * n
}

/// System clock a PLL configuration produces: input / M * N / P.
pub open spec fn sysclk_hz(input_hz: nat, m: nat, n: nat, p: nat) -> nat
    recommends
        m > 0,
        p > 0,
{
    (input_hz / m) * n / p
}

/// The documented ranges a PLL configuration must sit in: the divider,
/// multiplier and output-divider fields, the band the phase comparator
/// accepts, the band the voltage-controlled oscillator can produce, and the
/// rated maximum of the system clock itself.
pub open spec fn pll_config_valid(input_hz: nat, m: nat, n: nat, p: nat) -> bool {
    &&& 2 <= m <= 63
    &&& 50 <= n <= 432
    &&& (p == 2 || p == 4 || p == 6 || p == 8)
    &&& 1_000_000 <= vco_input_hz(input_hz, m) <= 2_000_000
    &&& 192_000_000 <= vco_output_hz(input_hz, m, n) <= 432_000_000
    &&& sysclk_hz(input_hz, m, n, p) <= SYSCLK_MAX_HZ
}

/// Wait states the datasheet table assigns to a system clock frequency:
/// one more for every further 30 MHz band.
pub open spec fn flash_latency_for_hz(hz: nat) -> nat {
    if hz <= FLASH_BAND_HZ {
        0
    } else if hz <= 2 * FLASH_BAND_HZ {
        1
    } else {
        2
    }
}

/// A wait-state setting suits a frequency when the frequency lies inside
/// the 30 MHz band that the setting is specified for.
pub open spec fn latency_matches(ws: nat, hz: nat) -> bool {
    &&& hz <= (ws + 1) * FLASH_BAND_HZ
    &&& (ws == 0 || ws * FLASH_BAND_HZ < hz)
}

/// Computes the system clock a PLL configuration produces.
pub fn compute_sysclk_hz(input_hz: u32, m: u32, n: u32, p: u32) -> (hz: u32)
    requires
        pll_config_valid(input_hz as nat, m as nat, n as nat, p as nat),
    ensures
        hz as nat == sysclk_hz(input_hz as nat, m as nat, n as nat, p as nat),
        hz <= SYSCLK_MAX_HZ,
{
    input_hz / m * n / p
}

/// Selects the flash wait states for a system clock frequency, per the
/// datasheet table.
pub fn flash_latency_for(hz: u32) -> (ws: u32)
    requires
        hz <= SYSCLK_MAX_HZ,
    ensures
        ws as nat == flash_latency_for_hz(hz as nat),
{
    if hz <= FLASH_BAND_HZ {
        0
    } else if hz <= 2 * FLASH_BAND_HZ {
        1
    } else {
        2
    }
}

/// For every PLL configuration inside the documented ranges, the system
/// clock stays within the rated maximum and the wait-state setting chosen
/// for it lands in the datasheet band that contains that clock.
pub proof fn lemma_latency_matches_sysclk(input_hz: nat, m: nat, n: nat, p: nat)
    requires
        pll_config_valid(input_hz, m, n, p),
    ensures
        sysclk_hz(input_hz, m, n, p) <= SYSCLK_MAX_HZ as nat,
        latency_matches(
            flash_latency_for_hz(sysclk_hz(input_hz, m, n, p)),
            sysclk_hz(input_hz, m, n, p),
        ),
{
}

/// Division factor a watchdog prescaler code selects: four for code zero,
/// doubling with each further code.
pub open spec fn wdt_prescaler_div_of(code: nat) -> nat
    decreases code,
{
    if code == 0 {
        4
    } else {
        2 * wdt_prescaler_div_of((code - 1) as nat)
    }
}

/// The named division-factor constant is the one the programmed prescaler
/// code selects, and the tick-rate constant follows from it.
pub proof fn lemma_prescaler_constants()
    ensures
        wdt_prescaler_div_of(WDT_PRESCALER_CODE as nat) == WDT_PRESCALER_DIV as nat,
        WDT_TICK_HZ == 1024,
{
    assert(wdt_prescaler_div_of(0) == 4);
    assert(wdt_prescaler_div_of(1) == 8);
    assert(wdt_prescaler_div_of(2) == 16);
    assert(wdt_prescaler_div_of(3) == 32);
}

/// The concrete configuration the sequencer programs is inside the
/// documented ranges, produces exactly the target clock, and the wait-state
/// constant it writes is the one the table assigns to that clock.
pub proof fn lemma_target_config()
    ensures
        pll_config_valid(HSI_HZ as nat, PLL_M_DEFAULT as nat, PLL_N as nat, PLL_P_DIV as nat),
        sysclk_hz(HSI_HZ as nat, PLL_M_DEFAULT as nat, PLL_N as nat, PLL_P_DIV as nat)
            == SYSCLK_TARGET_HZ as nat,
        SYSCLK_TARGET_HZ == 84_000_000,
        flash_latency_for_hz(SYSCLK_TARGET_HZ as nat) == FLASH_LATENCY_TARGET as nat,
{
}

} // verus!
