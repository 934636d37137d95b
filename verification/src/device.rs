//! A model of the memory-mapped registers the sequencer touches.
//!
//! A [`Device`] holds the clock-tree and watchdog registers as plain values,
//! together with injectable poll delays: each busy-polled status flag turns
//! ready after a chosen number of reads, so that every poll terminates and a
//! test can pick the schedule.  Every register access is appended to a trace,
//! which the sequencing contracts pin down exactly.

use vstd::prelude::*;
use crate::config::{
    WDT_KEY_START, WDT_KEY_UNLOCK, WDT_KEY_REFRESH, WDT_RELOAD_MAX,
};

verus! {

/// The system clock source selector value for the internal oscillator.
pub const SRC_HSI: u32 = 0;

/// The system clock source selector value for the PLL.
pub const SRC_PLL: u32 = 2;

/// One observable access to the memory-mapped registers, oldest first in
/// [`Device::trace`].
#[derive(Clone, Copy, PartialEq, Eq, Structural, Debug)]
pub enum RegEvent {
    /// Write of the PLL output divider P (the divisor itself).
    PllPWrite(u32),
    /// Write of the PLL multiplier N.
    PllNWrite(u32),
    /// Write of the divider for the slow peripheral bus.
    Apb1DivWrite(u32),
    /// Write that switches the PLL on.
    PllEnable,
    /// Read of the PLL-ready flag, with the value it returned.
    PllReadyRead(bool),
    /// Write of the flash wait-state setting.
    FlashLatencyWrite(u32),
    /// Write of the system clock source selector.
    SysclkSelWrite(u32),
    /// Read of the system clock source status, with the value it returned.
    SysclkStatusRead(u32),
    /// Write of a key to the watchdog key register.
    WdtKeyWrite(u32),
    /// Write of the watchdog prescaler code.
    WdtPrescalerWrite(u32),
    /// Write of the watchdog reload register.
    WdtReloadWrite(u32),
    /// Read of the watchdog update-pending flag, with the value it returned.
    WdtPendingRead(bool),
}

/// The clock-tree registers.
#[derive(Clone, Copy, PartialEq, Eq, Structural, Debug)]
pub struct ClockRegs {
    /// PLL input divider M.
    pub pll_m: u32,
    /// PLL multiplier N.
    pub pll_n: u32,
    /// PLL output divider P, held as the divisor itself.
    pub pll_p: u32,
    /// Divider for the slow peripheral bus.
    pub apb1_div: u32,
    /// Whether the PLL is switched on.
    pub pll_on: bool,
    /// Flash wait states.
    pub flash_latency: u32,
    /// System clock source selector, as last written.
    pub sysclk_sel: u32,
    /// System clock source actually in effect, as last observed.
    pub sysclk_status: u32,
}

/// The watchdog registers and countdown.
#[derive(Clone, Copy, PartialEq, Eq, Structural, Debug)]
pub struct WdtRegs {
    /// Whether the countdown has been started.
    pub running: bool,
    /// Whether the configuration registers are writable (the unlock key was
    /// the last key written).
    pub unlocked: bool,
    /// Prescaler code.
    pub prescaler: u32,
    /// Reload value the countdown restarts from.
    pub reload: u32,
    /// Current countdown value.
    pub counter: u32,
    /// Whether the countdown ever hit zero; a real watchdog resets the
    /// device then, so the flag is sticky.
    pub expired: bool,
}

/// Effect of writing `key` to the watchdog key register: the start key
/// begins the countdown from the reload value, the refresh key re-arms the
/// countdown from the reload value, and only the unlock key leaves the
/// configuration registers writable.
pub open spec fn wdt_key_write(w: WdtRegs, key: u32) -> WdtRegs {
    WdtRegs {
        running: w.running || key == WDT_KEY_START,
        unlocked: key == WDT_KEY_UNLOCK,
        counter: if key == WDT_KEY_START || key == WDT_KEY_REFRESH {
            w.reload
        } else {
            w.counter
        },
        ..w
    }
}

/// Effect of `ticks` watchdog clock ticks: a running countdown falls by one
/// per tick and expires when it reaches zero.
pub open spec fn wdt_after_ticks(w: WdtRegs, ticks: nat) -> WdtRegs {
    if !w.running || w.expired {
        w
    } else if ticks < w.counter {
        WdtRegs { counter: (w.counter - ticks) as u32, ..w }
    } else {
        WdtRegs { counter: 0, expired: true, ..w }
    }
}

/// The clock-tree registers at power-on reset.
pub open spec fn reset_clock_regs() -> ClockRegs {
    ClockRegs {
        pll_m: 16,
        pll_n: 192,
        pll_p: 2,
        apb1_div: 1,
        pll_on: false,
        flash_latency: 0,
        sysclk_sel: SRC_HSI,
        sysclk_status: SRC_HSI,
    }
}

/// The watchdog registers at power-on reset.
pub open spec fn reset_wdt_regs() -> WdtRegs {
    WdtRegs {
        running: false,
        unlocked: false,
        prescaler: 0,
        reload: WDT_RELOAD_MAX,
        counter: WDT_RELOAD_MAX,
        expired: false,
    }
}

/// The registers the sequencer works on, with the injectable poll schedule
/// and the access trace.
pub struct Device {
    /// Clock-tree registers.
    pub clk: ClockRegs,
    /// Watchdog registers.
    pub wdt: WdtRegs,
    /// Reads of the PLL-ready flag, while the PLL is on, until it reports
    /// locked.
    pub pll_lock_reads: u32,
    /// Reads of the source status, once the PLL is selected, until it
    /// reports the PLL.
    pub switch_reads: u32,
    /// Reads of the watchdog update-pending flag until it reports clear.
    pub wdt_update_reads: u32,
    /// Value `wdt_update_reads` takes after each write of the reload
    /// register.
    pub wdt_update_latency: u32,
    /// Every register access so far, oldest first.
    pub trace: Vec<RegEvent>,
}

/// Holds of two device values whose poll schedule is the same.
pub open spec fn same_polls(pre: Device, post: Device) -> bool {
    &&& post.pll_lock_reads == pre.pll_lock_reads
    &&& post.switch_reads == pre.switch_reads
    &&& post.wdt_update_reads == pre.wdt_update_reads
    &&& post.wdt_update_latency == pre.wdt_update_latency
}

impl Device {
    /// A device in its power-on reset state, with the poll schedule given:
    /// how many reads each busy-polled flag stays not-ready for, and how
    /// long a reload-register write keeps the update flag pending.
    pub fn new(
        pll_lock_reads: u32,
        switch_reads: u32,
        wdt_update_reads: u32,
        wdt_update_latency: u32,
    ) -> (dev: Device)
        ensures
            dev.clk == reset_clock_regs(),
            dev.wdt == reset_wdt_regs(),
            dev.pll_lock_reads == pll_lock_reads,
            dev.switch_reads == switch_reads,
            dev.wdt_update_reads == wdt_update_reads,
            dev.wdt_update_latency == wdt_update_latency,
            dev.trace@ == Seq::<RegEvent>::empty(),
    {
        Device {
            clk: ClockRegs {
                pll_m: 16,
                pll_n: 192,
                pll_p: 2,
                apb1_div: 1,
                pll_on: false,
                flash_latency: 0,
                sysclk_sel: SRC_HSI,
                sysclk_status: SRC_HSI,
            },
            wdt: WdtRegs {
                running: false,
                unlocked: false,
                prescaler: 0,
                reload: WDT_RELOAD_MAX,
                counter: WDT_RELOAD_MAX,
                expired: false,
            },
            pll_lock_reads,
            switch_reads,
            wdt_update_reads,
            wdt_update_latency,
            trace: Vec::new(),
        }
    }

    /// Writes the PLL output divider P.
    pub fn set_pll_p(&mut self, div: u32)
        requires
            div == 2 || div == 4 || div == 6 || div == 8,
        ensures
            final(self).clk == (ClockRegs { pll_p: div, ..old(self).clk }),
            final(self).wdt == old(self).wdt,
            same_polls(*old(self), *final(self)),
            final(self).trace@ == old(self).trace@.push(RegEvent::PllPWrite(div)),
    {
        self.clk.pll_p = div;
        self.trace.push(RegEvent::PllPWrite(div));
    }

    /// Writes the PLL multiplier N.
    pub fn set_pll_n(&mut self, n: u32)
        requires
            n < 512,
        ensures
            final(self).clk == (ClockRegs { pll_n: n, ..old(self).clk }),
            final(self).wdt == old(self).wdt,
            same_polls(*old(self), *final(self)),
            final(self).trace@ == old(self).trace@.push(RegEvent::PllNWrite(n)),
    {
        self.clk.pll_n = n;
        self.trace.push(RegEvent::PllNWrite(n));
    }

    /// Writes the divider for the slow peripheral bus.
    pub fn set_apb1_div(&mut self, div: u32)
        requires
            div == 1 || div == 2 || div == 4 || div == 8 || div == 16,
        ensures
            final(self).clk == (ClockRegs { apb1_div: div, ..old(self).clk }),
            final(self).wdt == old(self).wdt,
            same_polls(*old(self), *final(self)),
            final(self).trace@ == old(self).trace@.push(RegEvent::Apb1DivWrite(div)),
    {
        self.clk.apb1_div = div;
        self.trace.push(RegEvent::Apb1DivWrite(div));
    }

    /// Switches the PLL on.
    pub fn enable_pll(&mut self)
        ensures
            final(self).clk == (ClockRegs { pll_on: true, ..old(self).clk }),
            final(self).wdt == old(self).wdt,
            same_polls(*old(self), *final(self)),
            final(self).trace@ == old(self).trace@.push(RegEvent::PllEnable),
    {
        self.clk.pll_on = true;
        self.trace.push(RegEvent::PllEnable);
    }

    /// Reads the PLL-ready flag.  The flag reports locked once the PLL is on
    /// and the scheduled lock delay has been consumed; while the PLL is off
    /// it never does.
    pub fn read_pll_ready(&mut self) -> (ready: bool)
        ensures
            ready == (old(self).clk.pll_on && old(self).pll_lock_reads == 0),
            final(self).clk == old(self).clk,
            final(self).wdt == old(self).wdt,
            final(self).pll_lock_reads == (
                if old(self).clk.pll_on && old(self).pll_lock_reads > 0 {
                    (old(self).pll_lock_reads - 1) as u32
                } else {
                    old(self).pll_lock_reads
                }
            ),
            final(self).switch_reads == old(self).switch_reads,
            final(self).wdt_update_reads == old(self).wdt_update_reads,
            final(self).wdt_update_latency == old(self).wdt_update_latency,
            final(self).trace@ == old(self).trace@.push(RegEvent::PllReadyRead(ready)),
    {
        let ready: bool = self.clk.pll_on && self.pll_lock_reads == 0;
        if self.clk.pll_on && self.pll_lock_reads > 0 {
            self.pll_lock_reads = self.pll_lock_reads - 1;
        }
        self.trace.push(RegEvent::PllReadyRead(ready));
        ready
    }

    /// Writes the flash wait-state setting.
    pub fn set_flash_latency(&mut self, ws: u32)
        requires
            ws <= 15,
        ensures
            final(self).clk == (ClockRegs { flash_latency: ws, ..old(self).clk }),
            final(self).wdt == old(self).wdt,
            same_polls(*old(self), *final(self)),
            final(self).trace@ == old(self).trace@.push(RegEvent::FlashLatencyWrite(ws)),
    {
        self.clk.flash_latency = ws;
        self.trace.push(RegEvent::FlashLatencyWrite(ws));
    }

    /// Writes the system clock source selector.
    pub fn select_sysclk(&mut self, src: u32)
        requires
            src == SRC_HSI || src == SRC_PLL,
        ensures
            final(self).clk == (ClockRegs { sysclk_sel: src, ..old(self).clk }),
            final(self).wdt == old(self).wdt,
            same_polls(*old(self), *final(self)),
            final(self).trace@ == old(self).trace@.push(RegEvent::SysclkSelWrite(src)),
    {
        self.clk.sysclk_sel = src;
        self.trace.push(RegEvent::SysclkSelWrite(src));
    }

    /// Reads the system clock source status.  Once the PLL is selected and
    /// the scheduled switch delay has been consumed, the status reports the
    /// PLL; until then it keeps its previous value.  The observed value is
    /// latched as the status in effect.
    pub fn read_sysclk_status(&mut self) -> (src: u32)
        ensures
            src == (
                if old(self).clk.sysclk_sel == SRC_PLL && old(self).switch_reads == 0 {
                    SRC_PLL
                } else {
                    old(self).clk.sysclk_status
                }
            ),
            final(self).clk == (ClockRegs { sysclk_status: src, ..old(self).clk }),
            final(self).wdt == old(self).wdt,
            final(self).switch_reads == (
                if old(self).clk.sysclk_sel == SRC_PLL && old(self).switch_reads > 0 {
                    (old(self).switch_reads - 1) as u32
                } else {
                    old(self).switch_reads
                }
            ),
            final(self).pll_lock_reads == old(self).pll_lock_reads,
            final(self).wdt_update_reads == old(self).wdt_update_reads,
            final(self).wdt_update_latency == old(self).wdt_update_latency,
            final(self).trace@ == old(self).trace@.push(RegEvent::SysclkStatusRead(src)),
    {
        let src: u32 = if self.clk.sysclk_sel == SRC_PLL && self.switch_reads == 0 {
            SRC_PLL
        } else {
            self.clk.sysclk_status
        };
        if self.clk.sysclk_sel == SRC_PLL && self.switch_reads > 0 {
            self.switch_reads = self.switch_reads - 1;
        }
        self.clk.sysclk_status = src;
        self.trace.push(RegEvent::SysclkStatusRead(src));
        src
    }

    /// Writes a key to the watchdog key register; see [`wdt_key_write`] for
    /// the effect.
    pub fn wdt_write_key(&mut self, key: u32)
        ensures
            final(self).wdt == wdt_key_write(old(self).wdt, key),
            final(self).clk == old(self).clk,
            same_polls(*old(self), *final(self)),
            final(self).trace@ == old(self).trace@.push(RegEvent::WdtKeyWrite(key)),
    {
        if key == WDT_KEY_START {
            self.wdt.running = true;
            self.wdt.counter = self.wdt.reload;
        }
        if key == WDT_KEY_REFRESH {
            self.wdt.counter = self.wdt.reload;
        }
        self.wdt.unlocked = key == WDT_KEY_UNLOCK;
        self.trace.push(RegEvent::WdtKeyWrite(key));
    }

    /// Writes the watchdog prescaler code.  The write is silently dropped
    /// unless the configuration registers are unlocked and the update flag
    /// is clear.
    pub fn wdt_set_prescaler(&mut self, code: u32)
        requires
            code <= 7,
        ensures
            final(self).wdt == (
                if old(self).wdt.unlocked && old(self).wdt_update_reads == 0 {
                    WdtRegs { prescaler: code, ..old(self).wdt }
                } else {
                    old(self).wdt
                }
            ),
            final(self).clk == old(self).clk,
            same_polls(*old(self), *final(self)),
            final(self).trace@ == old(self).trace@.push(RegEvent::WdtPrescalerWrite(code)),
    {
        if self.wdt.unlocked && self.wdt_update_reads == 0 {
            self.wdt.prescaler = code;
        }
        self.trace.push(RegEvent::WdtPrescalerWrite(code));
    }

    /// Writes the watchdog reload register.  The write is silently dropped
    /// unless the configuration registers are unlocked and the update flag
    /// is clear; a successful write leaves the update flag pending for the
    /// scheduled latency.
    pub fn wdt_set_reload(&mut self, val: u32)
        requires
            val <= WDT_RELOAD_MAX,
        ensures
            final(self).wdt == (
                if old(self).wdt.unlocked && old(self).wdt_update_reads == 0 {
                    WdtRegs { reload: val, ..old(self).wdt }
                } else {
                    old(self).wdt
                }
            ),
            final(self).wdt_update_reads == (
                if old(self).wdt.unlocked && old(self).wdt_update_reads == 0 {
                    old(self).wdt_update_latency
                } else {
                    old(self).wdt_update_reads
                }
            ),
            final(self).clk == old(self).clk,
            final(self).pll_lock_reads == old(self).pll_lock_reads,
            final(self).switch_reads == old(self).switch_reads,
            final(self).wdt_update_latency == old(self).wdt_update_latency,
            final(self).trace@ == old(self).trace@.push(RegEvent::WdtReloadWrite(val)),
    {
        if self.wdt.unlocked && self.wdt_update_reads == 0 {
            self.wdt.reload = val;
            self.wdt_update_reads = self.wdt_update_latency;
        }
        self.trace.push(RegEvent::WdtReloadWrite(val));
    }

    /// Reads the watchdog update-pending flag.  The flag reports pending
    /// until the scheduled delay has been consumed.
    pub fn read_wdt_pending(&mut self) -> (pending: bool)
        ensures
            pending == (old(self).wdt_update_reads > 0),
            final(self).clk == old(self).clk,
            final(self).wdt == old(self).wdt,
            final(self).wdt_update_reads == (
                if old(self).wdt_update_reads > 0 {
                    (old(self).wdt_update_reads - 1) as u32
                } else {
                    0u32
                }
            ),
            final(self).pll_lock_reads == old(self).pll_lock_reads,
            final(self).switch_reads == old(self).switch_reads,
            final(self).wdt_update_latency == old(self).wdt_update_latency,
            final(self).trace@ == old(self).trace@.push(RegEvent::WdtPendingRead(pending)),
    {
        let pending: bool = self.wdt_update_reads > 0;
        if self.wdt_update_reads > 0 {
            self.wdt_update_reads = self.wdt_update_reads - 1;
        }
        self.trace.push(RegEvent::WdtPendingRead(pending));
        pending
    }

    /// Lets `ticks` watchdog clock ticks pass; see [`wdt_after_ticks`] for
    /// the effect.  Time is not a register access, so the trace is
    /// unchanged.
    pub fn advance_ticks(&mut self, ticks: u32)
        ensures
            final(self).wdt == wdt_after_ticks(old(self).wdt, ticks as nat),
            final(self).clk == old(self).clk,
            same_polls(*old(self), *final(self)),
            final(self).trace@ == old(self).trace@,
    {
        if self.wdt.running && !self.wdt.expired {
            if ticks < self.wdt.counter {
                self.wdt.counter = self.wdt.counter - ticks;
            } else {
                self.wdt.counter = 0;
                self.wdt.expired = true;
            }
        }
    }
}

} // verus!
