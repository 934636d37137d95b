//! The clock sequencer: brings the system clock from the internal
//! oscillator to the PLL without glitching execution.
//!
//! The contract of [`clock_init`] pins down the final register state and the
//! exact access trace, and [`lemma_latency_after_lock_before_switch`] proves
//! the ordering invariant of the sequence: the flash wait states are written
//! strictly after the PLL is observed locked and strictly before the clock
//! source is switched.

use vstd::prelude::*;
use crate::config::{
    APB1_DIV, FLASH_LATENCY_TARGET, HSI_HZ, PLL_M_DEFAULT, PLL_N, PLL_P_DIV,
    flash_latency_for_hz, lemma_target_config, sysclk_hz,
};
use crate::device::{ClockRegs, Device, RegEvent, SRC_PLL};

verus! {

/// Reads of the PLL-ready flag that found it not yet locked.
pub open spec fn pll_wait_reads(k: nat) -> Seq<RegEvent> {
    Seq::new(k, |i: int| RegEvent::PllReadyRead(false))
}

/// A complete poll of the PLL-ready flag: `k` reads that found it not yet
/// locked, then the one that observed the lock.
pub open spec fn pll_poll_events(k: nat) -> Seq<RegEvent> {
    pll_wait_reads(k).push(RegEvent::PllReadyRead(true))
}

/// Reads of the source status that still found the previous source
/// `prior` in effect.
pub open spec fn switch_wait_reads(k: nat, prior: u32) -> Seq<RegEvent> {
    Seq::new(k, |i: int| RegEvent::SysclkStatusRead(prior))
}

/// A complete poll of the source status: `k` reads that still found
/// `prior`, then the one that observed the PLL in effect.
pub open spec fn switch_poll_events(k: nat, prior: u32) -> Seq<RegEvent> {
    switch_wait_reads(k, prior).push(RegEvent::SysclkStatusRead(SRC_PLL))
}

/// The writes that program the divider chain and start the PLL.
pub open spec fn clock_setup_writes() -> Seq<RegEvent> {
    seq![
        RegEvent::PllPWrite(PLL_P_DIV),
        RegEvent::PllNWrite(PLL_N),
        RegEvent::Apb1DivWrite(APB1_DIV),
        RegEvent::PllEnable,
    ]
}

/// The writes that commit to the new clock once the PLL is locked: first
/// the flash wait states, then the source switch.
pub open spec fn clock_commit_writes() -> Seq<RegEvent> {
    seq![
        RegEvent::FlashLatencyWrite(FLASH_LATENCY_TARGET),
        RegEvent::SysclkSelWrite(SRC_PLL),
    ]
}

/// The exact access trace of one run of [`clock_init`] on a device whose
/// PLL locks after `lock_reads` reads, whose source status turns over after
/// `switch_reads` reads, and whose source status read `prior` before.
pub open spec fn clock_init_events(lock_reads: nat, switch_reads: nat, prior: u32) -> Seq<
    RegEvent,
> {
    clock_setup_writes() + pll_poll_events(lock_reads) + clock_commit_writes()
        + switch_poll_events(switch_reads, prior)
}

/// Transitions the system clock source from the internal oscillator to the
/// PLL-derived frequency: programs the output divider P and the multiplier
/// N (the input divider M stays at its power-on default), divides the slow
/// peripheral bus by two, starts the PLL and polls until it locks, writes
/// the flash wait states for the target frequency, then switches the source
/// selector to the PLL and polls until the switch is in effect.
#[verifier::loop_isolation(false)]
pub fn clock_init(dev: &mut Device)
    requires
        old(dev).clk.sysclk_status != SRC_PLL,
        old(dev).clk.pll_m == PLL_M_DEFAULT,
    ensures
        final(dev).clk == (ClockRegs {
            pll_p: PLL_P_DIV,
            pll_n: PLL_N,
            apb1_div: APB1_DIV,
            pll_on: true,
            flash_latency: FLASH_LATENCY_TARGET,
            sysclk_sel: SRC_PLL,
            sysclk_status: SRC_PLL,
            ..old(dev).clk
        }),
        final(dev).clk.flash_latency as nat == flash_latency_for_hz(
            sysclk_hz(HSI_HZ as nat, PLL_M_DEFAULT as nat, PLL_N as nat, PLL_P_DIV as nat),
        ),
        final(dev).wdt == old(dev).wdt,
        final(dev).pll_lock_reads == 0,
        final(dev).switch_reads == 0,
        final(dev).wdt_update_reads == old(dev).wdt_update_reads,
        final(dev).wdt_update_latency == old(dev).wdt_update_latency,
        final(dev).trace@ == old(dev).trace@ + clock_init_events(
            old(dev).pll_lock_reads as nat,
            old(dev).switch_reads as nat,
            old(dev).clk.sysclk_status,
        ),
{
    let ghost base = dev.trace@;
    let ghost k1 = dev.pll_lock_reads as nat;
    let ghost k2 = dev.switch_reads as nat;
    let ghost prior = dev.clk.sysclk_status;

    dev.set_pll_p(PLL_P_DIV);
    dev.set_pll_n(PLL_N);
    dev.set_apb1_div(APB1_DIV);
    dev.enable_pll();
    proof {
        assert(dev.trace@ =~= base + clock_setup_writes());
    }

    let mut ready = dev.read_pll_ready();
    proof {
        if ready {
            assert(dev.trace@ =~= base + clock_setup_writes() + pll_poll_events(k1));
        } else {
            assert(dev.trace@ =~= base + clock_setup_writes() + pll_wait_reads(
                (k1 - dev.pll_lock_reads) as nat,
            ));
        }
    }
    while !ready
        invariant
            dev.clk == (ClockRegs {
                pll_p: PLL_P_DIV,
                pll_n: PLL_N,
                apb1_div: APB1_DIV,
                pll_on: true,
                ..old(dev).clk
            }),
            dev.wdt == old(dev).wdt,
            dev.switch_reads == old(dev).switch_reads,
            dev.wdt_update_reads == old(dev).wdt_update_reads,
            dev.wdt_update_latency == old(dev).wdt_update_latency,
            dev.pll_lock_reads <= k1,
            ready ==> dev.pll_lock_reads == 0,
            ready ==> dev.trace@ == base + clock_setup_writes() + pll_poll_events(k1),
            !ready ==> dev.trace@ == base + clock_setup_writes() + pll_wait_reads(
                (k1 - dev.pll_lock_reads) as nat,
            ),
        decreases (if ready { 0int } else { dev.pll_lock_reads + 1 }),
    {
        ready = dev.read_pll_ready();
        proof {
            if ready {
                assert(dev.trace@ =~= base + clock_setup_writes() + pll_poll_events(k1));
            } else {
                assert(dev.trace@ =~= base + clock_setup_writes() + pll_wait_reads(
                    (k1 - dev.pll_lock_reads) as nat,
                ));
            }
        }
    }

    proof {
        lemma_target_config();
    }
    dev.set_flash_latency(FLASH_LATENCY_TARGET);
    dev.select_sysclk(SRC_PLL);
    proof {
        assert(dev.trace@ =~= base + clock_setup_writes() + pll_poll_events(k1)
            + clock_commit_writes());
    }

    let mut src = dev.read_sysclk_status();
    proof {
        if src == SRC_PLL {
            assert(dev.trace@ =~= base + clock_setup_writes() + pll_poll_events(k1)
                + clock_commit_writes() + switch_poll_events(k2, prior));
        } else {
            assert(dev.trace@ =~= base + clock_setup_writes() + pll_poll_events(k1)
                + clock_commit_writes() + switch_wait_reads(
                (k2 - dev.switch_reads) as nat,
                prior,
            ));
        }
    }
    while src != SRC_PLL
        invariant
            dev.clk == (ClockRegs {
                pll_p: PLL_P_DIV,
                pll_n: PLL_N,
                apb1_div: APB1_DIV,
                pll_on: true,
                flash_latency: FLASH_LATENCY_TARGET,
                sysclk_sel: SRC_PLL,
                sysclk_status: src,
                ..old(dev).clk
            }),
            dev.wdt == old(dev).wdt,
            dev.pll_lock_reads == 0,
            dev.wdt_update_reads == old(dev).wdt_update_reads,
            dev.wdt_update_latency == old(dev).wdt_update_latency,
            dev.switch_reads <= k2,
            src == SRC_PLL ==> dev.switch_reads == 0,
            src != SRC_PLL ==> src == prior,
            src == SRC_PLL ==> dev.trace@ == base + clock_setup_writes() + pll_poll_events(k1)
                + clock_commit_writes() + switch_poll_events(k2, prior),
            src != SRC_PLL ==> dev.trace@ == base + clock_setup_writes() + pll_poll_events(k1)
                + clock_commit_writes() + switch_wait_reads((k2 - dev.switch_reads) as nat, prior),
        decreases (if src == SRC_PLL { 0int } else { dev.switch_reads + 1 }),
    {
        src = dev.read_sysclk_status();
        proof {
            if src == SRC_PLL {
                assert(dev.trace@ =~= base + clock_setup_writes() + pll_poll_events(k1)
                    + clock_commit_writes() + switch_poll_events(k2, prior));
            } else {
                assert(dev.trace@ =~= base + clock_setup_writes() + pll_poll_events(k1)
                    + clock_commit_writes() + switch_wait_reads(
                    (k2 - dev.switch_reads) as nat,
                    prior,
                ));
            }
        }
    }

    proof {
        assert(dev.trace@ =~= base + clock_init_events(k1, k2, prior));
    }
}

/// Where each access of one run of the clock sequence stands in its trace.
pub proof fn lemma_clock_init_event_at(k1: nat, k2: nat, prior: u32, i: int)
    requires
        0 <= i < k1 + k2 + 8,
    ensures
        clock_init_events(k1, k2, prior).len() == k1 + k2 + 8,
        clock_init_events(k1, k2, prior)[i] == (if i == 0 {
            RegEvent::PllPWrite(PLL_P_DIV)
        } else if i == 1 {
            RegEvent::PllNWrite(PLL_N)
        } else if i == 2 {
            RegEvent::Apb1DivWrite(APB1_DIV)
        } else if i == 3 {
            RegEvent::PllEnable
        } else if i < 4 + k1 {
            RegEvent::PllReadyRead(false)
        } else if i == 4 + k1 {
            RegEvent::PllReadyRead(true)
        } else if i == 5 + k1 {
            RegEvent::FlashLatencyWrite(FLASH_LATENCY_TARGET)
        } else if i == 6 + k1 {
            RegEvent::SysclkSelWrite(SRC_PLL)
        } else if i < 7 + k1 + k2 {
            RegEvent::SysclkStatusRead(prior)
        } else {
            RegEvent::SysclkStatusRead(SRC_PLL)
        }),
{
    assert(clock_setup_writes().len() == 4);
    assert(pll_poll_events(k1).len() == k1 + 1);
    assert(clock_commit_writes().len() == 2);
    assert(switch_poll_events(k2, prior).len() == k2 + 1);
}

/// The sequencing invariant of the clock bring-up: in every run, the one
/// flash wait-state write stands strictly after the one read that observed
/// the PLL locked, and strictly before the one write that switches the
/// system clock source.
pub proof fn lemma_latency_after_lock_before_switch(k1: nat, k2: nat, prior: u32)
    ensures
        ({
            let ev = clock_init_events(k1, k2, prior);
            &&& ev.len() == k1 + k2 + 8
            &&& ev[4 + k1 as int] == RegEvent::PllReadyRead(true)
            &&& ev[5 + k1 as int] == RegEvent::FlashLatencyWrite(FLASH_LATENCY_TARGET)
            &&& ev[6 + k1 as int] == RegEvent::SysclkSelWrite(SRC_PLL)
            &&& forall|i: int|
                0 <= i < ev.len() && ev[i] == RegEvent::PllReadyRead(true) ==> i == 4 + k1
            &&& forall|i: int| 0 <= i < ev.len() && ev[i] is FlashLatencyWrite ==> i == 5 + k1
            &&& forall|i: int| 0 <= i < ev.len() && ev[i] is SysclkSelWrite ==> i == 6 + k1
        }),
{
    let ev = clock_init_events(k1, k2, prior);
    lemma_clock_init_event_at(k1, k2, prior, 4 + k1 as int);
    lemma_clock_init_event_at(k1, k2, prior, 5 + k1 as int);
    lemma_clock_init_event_at(k1, k2, prior, 6 + k1 as int);
    assert forall|i: int|
        0 <= i < ev.len() && ev[i] == RegEvent::PllReadyRead(true) implies i == 4 + k1 by {
        lemma_clock_init_event_at(k1, k2, prior, i);
    }
    assert forall|i: int| 0 <= i < ev.len() && ev[i] is FlashLatencyWrite implies i == 5 + k1 by {
        lemma_clock_init_event_at(k1, k2, prior, i);
    }
    assert forall|i: int| 0 <= i < ev.len() && ev[i] is SysclkSelWrite implies i == 6 + k1 by {
        lemma_clock_init_event_at(k1, k2, prior, i);
    }
}

} // verus!
