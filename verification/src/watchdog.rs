//! The watchdog controller: arms the independent hardware countdown and
//! exposes the idempotent refresh.
//!
//! The contract of [`wdt_init`] pins down the final register state and the
//! exact access trace; [`lemma_arm_key_order`] proves the key handshake of
//! the arm sequence, and [`lemma_refresh_idempotent`] that repeated
//! refreshes change nothing beyond re-arming the countdown.

use vstd::prelude::*;
use crate::config::{
    WDT_KEY_REFRESH, WDT_KEY_START, WDT_KEY_UNLOCK, WDT_PRESCALER_CODE, WDT_RELOAD,
};
use crate::device::{Device, RegEvent, WdtRegs, same_polls, wdt_key_write};

verus! {

/// Reads of the update-pending flag that still found it set.
pub open spec fn wdt_wait_reads(k: nat) -> Seq<RegEvent> {
    Seq::new(k, |i: int| RegEvent::WdtPendingRead(true))
}

/// A complete poll of the update-pending flag: `k` reads that still found
/// it set, then the one that observed it clear.
pub open spec fn wdt_poll_events(k: nat) -> Seq<RegEvent> {
    wdt_wait_reads(k).push(RegEvent::WdtPendingRead(false))
}

/// The exact access trace of one run of [`wdt_init`] on a device whose
/// update-pending flag stays set for `pre` reads at entry, and for `post`
/// reads after each reload-register write.
pub open spec fn wdt_init_events(pre: nat, post: nat) -> Seq<RegEvent> {
    seq![
        RegEvent::WdtKeyWrite(WDT_KEY_START),
        RegEvent::WdtKeyWrite(WDT_KEY_UNLOCK),
    ] + wdt_poll_events(pre) + seq![
        RegEvent::WdtPrescalerWrite(WDT_PRESCALER_CODE),
        RegEvent::WdtReloadWrite(WDT_RELOAD),
    ] + wdt_poll_events(post) + seq![RegEvent::WdtKeyWrite(WDT_KEY_REFRESH)]
}

/// Arms the watchdog: starts the countdown with the start key, lifts the
/// register write protection with the unlock key, polls the update-pending
/// flag until it is observed clear, programs the prescaler and the reload
/// value, polls the flag clear again, then re-arms the countdown from the
/// new reload value with the refresh key, which also closes the unlock
/// window.
#[verifier::loop_isolation(false)]
pub fn wdt_init(dev: &mut Device)
    ensures
        final(dev).wdt == (WdtRegs {
            running: true,
            unlocked: false,
            prescaler: WDT_PRESCALER_CODE,
            reload: WDT_RELOAD,
            counter: WDT_RELOAD,
            expired: old(dev).wdt.expired,
        }),
        final(dev).clk == old(dev).clk,
        final(dev).pll_lock_reads == old(dev).pll_lock_reads,
        final(dev).switch_reads == old(dev).switch_reads,
        final(dev).wdt_update_reads == 0,
        final(dev).wdt_update_latency == old(dev).wdt_update_latency,
        final(dev).trace@ == old(dev).trace@ + wdt_init_events(
            old(dev).wdt_update_reads as nat,
            old(dev).wdt_update_latency as nat,
        ),
{
    let ghost base = dev.trace@;
    let ghost pre = dev.wdt_update_reads as nat;
    let ghost post = dev.wdt_update_latency as nat;
    let ghost head = seq![
        RegEvent::WdtKeyWrite(WDT_KEY_START),
        RegEvent::WdtKeyWrite(WDT_KEY_UNLOCK),
    ];

    dev.wdt_write_key(WDT_KEY_START);
    dev.wdt_write_key(WDT_KEY_UNLOCK);
    proof {
        assert(dev.trace@ =~= base + head);
    }

    let mut pending = dev.read_wdt_pending();
    proof {
        if pending {
            assert(dev.trace@ =~= base + head + wdt_wait_reads(
                (pre - dev.wdt_update_reads) as nat,
            ));
        } else {
            assert(dev.trace@ =~= base + head + wdt_poll_events(pre));
        }
    }
    while pending
        invariant
            dev.wdt == (WdtRegs {
                running: true,
                unlocked: true,
                counter: old(dev).wdt.reload,
                ..old(dev).wdt
            }),
            dev.clk == old(dev).clk,
            dev.pll_lock_reads == old(dev).pll_lock_reads,
            dev.switch_reads == old(dev).switch_reads,
            dev.wdt_update_latency == old(dev).wdt_update_latency,
            dev.wdt_update_reads <= pre,
            !pending ==> dev.wdt_update_reads == 0,
            !pending ==> dev.trace@ == base + head + wdt_poll_events(pre),
            pending ==> dev.trace@ == base + head + wdt_wait_reads(
                (pre - dev.wdt_update_reads) as nat,
            ),
        decreases (if pending { dev.wdt_update_reads + 1 } else { 0int }),
    {
        pending = dev.read_wdt_pending();
        proof {
            if pending {
                assert(dev.trace@ =~= base + head + wdt_wait_reads(
                    (pre - dev.wdt_update_reads) as nat,
                ));
            } else {
                assert(dev.trace@ =~= base + head + wdt_poll_events(pre));
            }
        }
    }

    let ghost mid = seq![
        RegEvent::WdtPrescalerWrite(WDT_PRESCALER_CODE),
        RegEvent::WdtReloadWrite(WDT_RELOAD),
    ];
    dev.wdt_set_prescaler(WDT_PRESCALER_CODE);
    dev.wdt_set_reload(WDT_RELOAD);
    proof {
        assert(dev.trace@ =~= base + head + wdt_poll_events(pre) + mid);
    }

    let mut pending2 = dev.read_wdt_pending();
    proof {
        if pending2 {
            assert(dev.trace@ =~= base + head + wdt_poll_events(pre) + mid + wdt_wait_reads(
                (post - dev.wdt_update_reads) as nat,
            ));
        } else {
            assert(dev.trace@ =~= base + head + wdt_poll_events(pre) + mid + wdt_poll_events(
                post,
            ));
        }
    }
    while pending2
        invariant
            dev.wdt == (WdtRegs {
                running: true,
                unlocked: true,
                prescaler: WDT_PRESCALER_CODE,
                reload: WDT_RELOAD,
                counter: old(dev).wdt.reload,
                expired: old(dev).wdt.expired,
            }),
            dev.clk == old(dev).clk,
            dev.pll_lock_reads == old(dev).pll_lock_reads,
            dev.switch_reads == old(dev).switch_reads,
            dev.wdt_update_latency == old(dev).wdt_update_latency,
            dev.wdt_update_reads <= post,
            !pending2 ==> dev.wdt_update_reads == 0,
            !pending2 ==> dev.trace@ == base + head + wdt_poll_events(pre) + mid
                + wdt_poll_events(post),
            pending2 ==> dev.trace@ == base + head + wdt_poll_events(pre) + mid + wdt_wait_reads(
                (post - dev.wdt_update_reads) as nat,
            ),
        decreases (if pending2 { dev.wdt_update_reads + 1 } else { 0int }),
    {
        pending2 = dev.read_wdt_pending();
        proof {
            if pending2 {
                assert(dev.trace@ =~= base + head + wdt_poll_events(pre) + mid + wdt_wait_reads(
                    (post - dev.wdt_update_reads) as nat,
                ));
            } else {
                assert(dev.trace@ =~= base + head + wdt_poll_events(pre) + mid + wdt_poll_events(
                    post,
                ));
            }
        }
    }

    dev.wdt_write_key(WDT_KEY_REFRESH);
    proof {
        assert(dev.trace@ =~= base + wdt_init_events(pre, post));
    }
}

/// Resets the countdown to the reload value by writing the refresh key.
/// Nothing else changes: the configuration stays as armed, and the unlock
/// window, were one open, closes.
pub fn wdt_refresh(dev: &mut Device)
    ensures
        final(dev).wdt == wdt_key_write(old(dev).wdt, WDT_KEY_REFRESH),
        final(dev).wdt == (WdtRegs {
            unlocked: false,
            counter: old(dev).wdt.reload,
            ..old(dev).wdt
        }),
        final(dev).clk == old(dev).clk,
        same_polls(*old(dev), *final(dev)),
        final(dev).trace@ == old(dev).trace@.push(RegEvent::WdtKeyWrite(WDT_KEY_REFRESH)),
{
    dev.wdt_write_key(WDT_KEY_REFRESH);
}

/// Refreshing is idempotent: a second refresh right after a first leaves
/// exactly the state the first left, and a refresh changes nothing but the
/// countdown and the unlock window.
pub proof fn lemma_refresh_idempotent(w: WdtRegs)
    ensures
        wdt_key_write(wdt_key_write(w, WDT_KEY_REFRESH), WDT_KEY_REFRESH) == wdt_key_write(
            w,
            WDT_KEY_REFRESH,
        ),
        wdt_key_write(w, WDT_KEY_REFRESH).counter == w.reload,
        wdt_key_write(w, WDT_KEY_REFRESH).reload == w.reload,
        wdt_key_write(w, WDT_KEY_REFRESH).prescaler == w.prescaler,
        wdt_key_write(w, WDT_KEY_REFRESH).running == w.running,
        wdt_key_write(w, WDT_KEY_REFRESH).expired == w.expired,
        !wdt_key_write(w, WDT_KEY_REFRESH).unlocked,
{
}

/// Where each access of one run of the arm sequence stands in its trace.
pub proof fn lemma_wdt_init_event_at(pre: nat, post: nat, i: int)
    requires
        0 <= i < pre + post + 7,
    ensures
        wdt_init_events(pre, post).len() == pre + post + 7,
        wdt_init_events(pre, post)[i] == (if i == 0 {
            RegEvent::WdtKeyWrite(WDT_KEY_START)
        } else if i == 1 {
            RegEvent::WdtKeyWrite(WDT_KEY_UNLOCK)
        } else if i < 2 + pre {
            RegEvent::WdtPendingRead(true)
        } else if i == 2 + pre {
            RegEvent::WdtPendingRead(false)
        } else if i == 3 + pre {
            RegEvent::WdtPrescalerWrite(WDT_PRESCALER_CODE)
        } else if i == 4 + pre {
            RegEvent::WdtReloadWrite(WDT_RELOAD)
        } else if i < 5 + pre + post {
            RegEvent::WdtPendingRead(true)
        } else if i == 5 + pre + post {
            RegEvent::WdtPendingRead(false)
        } else {
            RegEvent::WdtKeyWrite(WDT_KEY_REFRESH)
        }),
{
    assert(wdt_poll_events(pre).len() == pre + 1);
    assert(wdt_poll_events(post).len() == post + 1);
}

/// The key handshake of the arm sequence: in every run the keys issued are
/// exactly start, then unlock, then refresh, in that order; the one
/// prescaler write and the one reload write stand between the unlock key
/// and the refresh key, and an observation of the update-pending flag as
/// clear stands immediately before them.
pub proof fn lemma_arm_key_order(pre: nat, post: nat)
    ensures
        ({
            let ev = wdt_init_events(pre, post);
            &&& ev.len() == pre + post + 7
            &&& ev[0] == RegEvent::WdtKeyWrite(WDT_KEY_START)
            &&& ev[1] == RegEvent::WdtKeyWrite(WDT_KEY_UNLOCK)
            &&& ev[2 + pre as int] == RegEvent::WdtPendingRead(false)
            &&& ev[3 + pre as int] == RegEvent::WdtPrescalerWrite(WDT_PRESCALER_CODE)
            &&& ev[4 + pre as int] == RegEvent::WdtReloadWrite(WDT_RELOAD)
            &&& ev[ev.len() - 1] == RegEvent::WdtKeyWrite(WDT_KEY_REFRESH)
            &&& forall|i: int|
                0 <= i < ev.len() && ev[i] is WdtKeyWrite ==> (i == 0 || i == 1 || i == ev.len()
                    - 1)
            &&& forall|i: int| 0 <= i < ev.len() && ev[i] is WdtPrescalerWrite ==> i == 3 + pre
            &&& forall|i: int| 0 <= i < ev.len() && ev[i] is WdtReloadWrite ==> i == 4 + pre
        }),
{
    let ev = wdt_init_events(pre, post);
    lemma_wdt_init_event_at(pre, post, 0);
    lemma_wdt_init_event_at(pre, post, 1);
    lemma_wdt_init_event_at(pre, post, 2 + pre as int);
    lemma_wdt_init_event_at(pre, post, 3 + pre as int);
    lemma_wdt_init_event_at(pre, post, 4 + pre as int);
    lemma_wdt_init_event_at(pre, post, pre as int + post as int + 6);
    assert forall|i: int|
        0 <= i < ev.len() && ev[i] is WdtKeyWrite implies (i == 0 || i == 1 || i == ev.len()
        - 1) by {
        lemma_wdt_init_event_at(pre, post, i);
    }
    assert forall|i: int| 0 <= i < ev.len() && ev[i] is WdtPrescalerWrite implies i == 3 + pre by {
        lemma_wdt_init_event_at(pre, post, i);
    }
    assert forall|i: int| 0 <= i < ev.len() && ev[i] is WdtReloadWrite implies i == 4 + pre by {
        lemma_wdt_init_event_at(pre, post, i);
    }
}

} // verus!
