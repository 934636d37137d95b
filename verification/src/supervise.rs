//! The supervision loop: one bring-up, one arm, then periodic refreshes.
//!
//! The loop on the board never returns; here it runs for an injectable
//! number of rounds, with an injectable number of watchdog ticks elapsing in
//! each round, so the liveness of the design is a theorem: the contract of
//! [`supervision_run`] states exactly when the countdown survives — it
//! expires if and only if a round lets at least a full reload's worth of
//! ticks pass.

use vstd::prelude::*;
use crate::clock::{clock_init, clock_init_events};
use crate::config::{
    PLL_M_DEFAULT, REFRESH_INTERVAL_MS, WDT_KEY_REFRESH, WDT_PRESCALER_CODE, WDT_RELOAD,
    WDT_TICK_HZ,
};
use crate::device::{Device, RegEvent, SRC_PLL, WdtRegs, wdt_after_ticks, wdt_key_write};
use crate::watchdog::{wdt_init, wdt_init_events, wdt_refresh};

verus! {

/// The refresh key writes the periodic loop issues, one per round.
pub open spec fn refresh_events(rounds: nat) -> Seq<RegEvent> {
    Seq::new(rounds, |i: int| RegEvent::WdtKeyWrite(WDT_KEY_REFRESH))
}

/// Watchdog ticks that elapse in a pause of `ms` milliseconds, at the rate
/// the armed prescaler yields.
pub open spec fn ticks_in_ms(ms: nat) -> nat {
    (ms * WDT_TICK_HZ / 1000) as nat
}

/// Computes how many watchdog ticks elapse in a pause of `ms` milliseconds.
pub fn wdt_ticks_for_ms(ms: u32) -> (ticks: u32)
    requires
        ms <= 4_000_000,
    ensures
        ticks as nat == ticks_in_ms(ms as nat),
{
    let rate: u64 = WDT_TICK_HZ as u64;
    assert(rate == 1024);
    let wide: u64 = (ms as u64) * rate / 1000;
    wide as u32
}

/// Brings the device up and supervises it for `rounds` rounds: runs the
/// clock sequence once, arms the watchdog once, then `rounds` times lets
/// `interval_ticks` watchdog ticks pass and refreshes.  The countdown
/// expires if and only if there is a round and the interval covers a full
/// reload; with any shorter interval the refresh always arrives first.
#[verifier::loop_isolation(false)]
pub fn supervision_run(dev: &mut Device, rounds: u32, interval_ticks: u32)
    requires
        old(dev).clk.sysclk_status != SRC_PLL,
        old(dev).clk.pll_m == PLL_M_DEFAULT,
        !old(dev).wdt.expired,
    ensures
        final(dev).wdt == (WdtRegs {
            running: true,
            unlocked: false,
            prescaler: WDT_PRESCALER_CODE,
            reload: WDT_RELOAD,
            counter: WDT_RELOAD,
            expired: rounds > 0 && interval_ticks >= WDT_RELOAD,
        }),
        final(dev).clk.sysclk_status == SRC_PLL,
        final(dev).trace@ == old(dev).trace@ + clock_init_events(
            old(dev).pll_lock_reads as nat,
            old(dev).switch_reads as nat,
            old(dev).clk.sysclk_status,
        ) + wdt_init_events(old(dev).wdt_update_reads as nat, old(dev).wdt_update_latency as nat)
            + refresh_events(rounds as nat),
{
    let ghost armed = old(dev).trace@ + clock_init_events(
        old(dev).pll_lock_reads as nat,
        old(dev).switch_reads as nat,
        old(dev).clk.sysclk_status,
    ) + wdt_init_events(old(dev).wdt_update_reads as nat, old(dev).wdt_update_latency as nat);

    clock_init(dev);
    wdt_init(dev);
    proof {
        assert(dev.trace@ =~= armed + refresh_events(0));
    }

    let mut round: u32 = 0;
    while round < rounds
        invariant
            round <= rounds,
            dev.wdt == (WdtRegs {
                running: true,
                unlocked: false,
                prescaler: WDT_PRESCALER_CODE,
                reload: WDT_RELOAD,
                counter: WDT_RELOAD,
                expired: round > 0 && interval_ticks >= WDT_RELOAD,
            }),
            dev.clk.sysclk_status == SRC_PLL,
            dev.trace@ == armed + refresh_events(round as nat),
        decreases rounds - round,
    {
        dev.advance_ticks(interval_ticks);
        wdt_refresh(dev);
        round = round + 1;
        proof {
            assert(dev.trace@ =~= armed + refresh_events(round as nat));
        }
    }
}

/// Timeout of the armed watchdog in milliseconds: a full reload at the tick
/// rate the programmed prescaler yields.
pub open spec fn wdt_timeout_ms() -> nat {
    WDT_RELOAD as nat * 1000 / WDT_TICK_HZ as nat
}

/// The chosen pause has no margin at the nominal clock rate: it converts to
/// one tick more than a full reload, and the computed timeout is below the
/// pause itself.  The survival contract of [`supervision_run`] therefore
/// covers every interval strictly inside a reload, but not the configured
/// pause.
pub proof fn lemma_no_margin_at_nominal_rate()
    ensures
        ticks_in_ms(REFRESH_INTERVAL_MS as nat) == WDT_RELOAD + 1,
        wdt_timeout_ms() < REFRESH_INTERVAL_MS as nat,
{
}

/// One round of the periodic loop keeps an armed, freshly refreshed
/// watchdog alive exactly when the interval is shorter than a full reload:
/// after the ticks pass and the refresh arrives, the countdown stands at
/// the reload value again and has expired if and only if the interval
/// covered it.
pub proof fn lemma_round_survival(w: WdtRegs, interval_ticks: nat)
    requires
        w.running,
        !w.expired,
        w.counter == w.reload,
    ensures
        wdt_key_write(wdt_after_ticks(w, interval_ticks), WDT_KEY_REFRESH).counter == w.reload,
        wdt_key_write(wdt_after_ticks(w, interval_ticks), WDT_KEY_REFRESH).expired == (
        interval_ticks >= w.reload),
        !wdt_after_ticks(w, interval_ticks).expired <==> interval_ticks < w.reload,
{
}

} // verus!
