//! Higher-level sleep API: block the caller for a duration expressed in wake
//! timer ticks.
//!
//! Two interchangeable strategies are provided. [`Busy`] arms the timer and
//! spins on its match flag, keeping the core fully awake; it suits short
//! delays and bring-up code. [`Regular`] arms the timer and halts the core
//! inside a critical section: the timer's interrupt is unmasked at the
//! controller so its pending state wakes the halted core, while handler
//! dispatch stays suppressed, so control returns right after the halt; the
//! interrupt is masked again before the critical section ends, so no stale
//! handler runs afterwards.
//!
//! Both strategies take their peripherals over for their lifetime, which
//! statically prevents a second concurrent sleep or a conflicting direct
//! manipulation of the same timer and power registers.

use vstd::prelude::*;

use crate::wkt::{PollResult, TimerEvent, TimerState, WakeTimer};

verus! {

/// Addition on a hardware event counter: saturates instead of wrapping.
pub open spec fn sat_add64(a: u64, b: u64) -> u64 {
    if a + b <= u64::MAX {
        (a + b) as u64
    } else {
        u64::MAX
    }
}

fn saturating_add64(a: u64, b: u64) -> (r: u64)
    ensures
        r == sat_add64(a, b),
{
    if b <= u64::MAX - a {
        a + b
    } else {
        u64::MAX
    }
}

proof fn lemma_sat_add64_step(a: u64, k: u64)
    requires
        k < u64::MAX,
    ensures
        sat_add64(sat_add64(a, k), 1) == sat_add64(a, (k + 1) as u64),
{
}

/// The interrupt-controller handle, reduced to the one line this subsystem
/// touches: whether the wake timer's interrupt is masked, that is whether
/// its pending state is kept away from handler dispatch.
pub struct Nvic {
    wkt_masked: bool,
}

impl Nvic {
    /// Whether the wake timer's interrupt is masked at the controller.
    pub closed spec fn wkt_masked(&self) -> bool {
        self.wkt_masked
    }

    /// The controller in its reset state: the wake timer's interrupt is
    /// masked.
    pub fn new() -> (n: Nvic)
        ensures
            n.wkt_masked(),
    {
        Nvic { wkt_masked: true }
    }

    /// Whether the wake timer's interrupt is masked, for callers outside the
    /// proof.
    pub fn is_wkt_masked(&self) -> (r: bool)
        ensures
            r == self.wkt_masked(),
    {
        self.wkt_masked
    }

    pub(crate) fn unmask_wkt(&mut self)
        ensures
            !final(self).wkt_masked(),
    {
        self.wkt_masked = false;
    }

    pub(crate) fn mask_wkt(&mut self)
        ensures
            final(self).wkt_masked(),
    {
        self.wkt_masked = true;
    }
}

/// The core's sleep-control handle. It carries no observable state of its
/// own; holding it exclusively is what matters, since whoever holds it is
/// the only one who can halt the core.
pub struct Scb {}

impl Scb {
    /// The core's sleep-control handle.
    pub fn new() -> Scb {
        Scb {  }
    }
}

/// The power-management handle. Entering sleep mode through it is the only
/// suspension point in the whole subsystem; the model counts how often the
/// core was halted.
pub struct Pmu {
    sleeps: u64,
}

impl Pmu {
    /// How often the core has been halted through this handle.
    pub closed spec fn sleep_count(&self) -> u64 {
        self.sleeps
    }

    /// A power-management handle that has never halted the core.
    pub fn new() -> (p: Pmu)
        ensures
            p.sleep_count() == 0,
    {
        Pmu { sleeps: 0 }
    }

    /// How often the core has been halted, for callers outside the proof.
    pub fn sleeps(&self) -> (n: u64)
        ensures
            n == self.sleep_count(),
    {
        self.sleeps
    }

    /// Halt the core in regular sleep mode until a wake event arrives. The
    /// core resumes at the next statement; which event woke it is for the
    /// caller to find out by polling.
    pub(crate) fn enter_sleep_mode(&mut self, scb: &mut Scb)
        ensures
            final(self).sleep_count() == sat_add64(old(self).sleep_count(), 1),
            *final(scb) == *old(scb),
    {
        self.sleeps = saturating_add64(self.sleeps, 1);
    }
}

/// Trait for putting the processor to sleep. There is typically one
/// implementation per sleep mode available on a given microcontroller.
pub trait Sleep {
    /// What the strategy demands of its peripherals before a sleep call.
    spec fn sleep_pre(&self, ticks: u32) -> bool;

    /// Put the processor to sleep for `ticks` ticks of the wake timer's
    /// clock. A zero-tick request returns immediately without arming the
    /// timer: a zero-length countdown never fires, so waiting on it would
    /// hang forever.
    fn sleep(&mut self, ticks: u32)
        requires
            old(self).sleep_pre(ticks),
    ;
}

/// Sleep mode based on busy waiting.
///
/// Arms the wake timer and polls it in a tight loop until it fires. No
/// interrupt is involved and the core stays fully active, which is
/// energy-inefficient: suitable only for simple examples or very short wait
/// times.
pub struct Busy {
    wkt: WakeTimer,
}

impl Busy {
    /// The wake timer the strategy holds.
    pub closed spec fn wkt(&self) -> WakeTimer {
        self.wkt
    }

    /// Prepare busy sleep mode. Takes the wake timer over for as long as the
    /// strategy exists; `release` hands it back.
    pub fn prepare(wkt: WakeTimer) -> (s: Busy)
        ensures
            s.wkt() == wkt,
    {
        Busy { wkt }
    }

    /// Dissolve the strategy and hand the wake timer back.
    pub fn release(self) -> (wkt: WakeTimer)
        ensures
            wkt == self.wkt(),
    {
        self.wkt
    }
}

impl Sleep for Busy {
    /// For a non-zero wait the timer must have its clock selected; this
    /// strategy does not select one.
    open spec fn sleep_pre(&self, ticks: u32) -> bool {
        ticks > 0 ==> self.wkt().clock_is_selected()
    }

    /// Arm the timer and poll until it fires. A zero-tick request returns
    /// at once, leaving the timer exactly as it was: it is never armed.
    fn sleep(&mut self, ticks: u32)
        ensures
            ticks == 0 ==> *final(self) == *old(self),
            ticks > 0 ==> final(self).wkt().is_fired() && final(self).wkt().clock_is_selected()
                && final(self).wkt().log() == old(self).wkt().log().push(
                TimerEvent::Start(ticks),
            ) + Seq::new(ticks as nat, |i: int| TimerEvent::Poll),
    {
        if ticks == 0 {
            return ;
        }
        let ghost log0 = self.wkt.log();
        self.wkt.start(ticks);
        loop
            invariant_except_break
                self.wkt.clock_is_selected(),
                self.wkt.state() is Armed,
                1 <= self.wkt.fuel() <= ticks,
                self.wkt.log() == log0.push(TimerEvent::Start(ticks)) + Seq::new(
                    (ticks - self.wkt.fuel()) as nat,
                    |i: int| TimerEvent::Poll,
                ),
            ensures
                self.wkt.is_fired(),
                self.wkt.clock_is_selected(),
                self.wkt.log() == log0.push(TimerEvent::Start(ticks)) + Seq::new(
                    ticks as nat,
                    |i: int| TimerEvent::Poll,
                ),
            decreases self.wkt.fuel(),
        {
            let ghost fuel0 = self.wkt.fuel();
            let r = self.wkt.poll();
            proof {
                assert(self.wkt.log() =~= log0.push(TimerEvent::Start(ticks)) + Seq::new(
                    (ticks - fuel0 + 1) as nat,
                    |i: int| TimerEvent::Poll,
                ));
            }
            match r {
                PollResult::Fired => {
                    break ;
                },
                PollResult::Pending => {
                },
            }
        }
    }
}

/// Regular sleep mode.
///
/// Arms the wake timer and halts the core until the timer's interrupt wakes
/// it, inside a critical section that suppresses handler dispatch: the
/// interrupt is unmasked at the controller so the halted core resumes, and
/// masked again before the section ends, so no stale handler runs. The
/// caller observes ordinary blocking-call semantics while the core is
/// suspended for the bulk of the wait.
pub struct Regular {
    nvic: Nvic,
    pmu: Pmu,
    scb: Scb,
    wkt: WakeTimer,
}

impl Regular {
    /// The interrupt-controller handle the strategy holds.
    pub closed spec fn nvic(&self) -> Nvic {
        self.nvic
    }

    /// The power-management handle the strategy holds.
    pub closed spec fn pmu(&self) -> Pmu {
        self.pmu
    }

    /// The sleep-control handle the strategy holds.
    pub closed spec fn scb(&self) -> Scb {
        self.scb
    }

    /// The wake timer the strategy holds.
    pub closed spec fn wkt(&self) -> WakeTimer {
        self.wkt
    }

    /// Prepare regular sleep mode. Takes the interrupt-controller,
    /// power-management and sleep-control handles and the wake timer over
    /// for as long as the strategy exists; `release` hands them back.
    pub fn prepare(nvic: Nvic, pmu: Pmu, scb: Scb, wkt: WakeTimer) -> (s: Regular)
        ensures
            s.nvic() == nvic,
            s.pmu() == pmu,
            s.scb() == scb,
            s.wkt() == wkt,
    {
        Regular { nvic, pmu, scb, wkt }
    }

    /// Dissolve the strategy and hand every peripheral back.
    pub fn release(self) -> (parts: (Nvic, Pmu, Scb, WakeTimer))
        ensures
            parts.0 == self.nvic(),
            parts.1 == self.pmu(),
            parts.2 == self.scb(),
            parts.3 == self.wkt(),
    {
        (self.nvic, self.pmu, self.scb, self.wkt)
    }
}

impl Sleep for Regular {
    /// The wake timer's interrupt must be masked on entry; it is masked
    /// again when the call returns.
    open spec fn sleep_pre(&self, ticks: u32) -> bool {
        self.nvic().wkt_masked()
    }

    /// Select the timer's clock, arm it, and halt the core until the timer
    /// fires, re-polling and halting again on every unrelated wake event. A
    /// zero-tick request returns at once, leaving everything as it was.
    fn sleep(&mut self, ticks: u32)
        ensures
            final(self).nvic().wkt_masked(),
            ticks == 0 ==> *final(self) == *old(self),
            ticks > 0 ==> final(self).wkt().is_fired() && final(self).wkt().clock_is_selected()
                && final(self).wkt().log() == old(self).wkt().log().push(
                TimerEvent::SelectClock,
            ).push(TimerEvent::Start(ticks)) + Seq::new(ticks as nat, |i: int| TimerEvent::Poll)
                && final(self).pmu().sleep_count() == sat_add64(
                old(self).pmu().sleep_count(),
                (ticks - 1) as u64,
            ) && final(self).nvic() == old(self).nvic() && final(self).scb() == old(self).scb(),
    {
        if ticks == 0 {
            return ;
        }
        let ghost log0 = self.wkt.log();
        let ghost sleeps0 = self.pmu.sleep_count();
        self.wkt.select_clock();
        self.wkt.start(ticks);
        // The region between unmask and mask is the critical section:
        // handler dispatch is suppressed throughout, while the unmasked
        // interrupt's pending state still wakes the halted core, so control
        // returns to the statement after the halt instead of a handler.
        self.nvic.unmask_wkt();
        loop
            invariant_except_break
                self.wkt.clock_is_selected(),
                self.wkt.state() is Armed,
                1 <= self.wkt.fuel() <= ticks,
                self.wkt.log() == log0.push(TimerEvent::SelectClock).push(TimerEvent::Start(ticks))
                    + Seq::new((ticks - self.wkt.fuel()) as nat, |i: int| TimerEvent::Poll),
                self.pmu.sleep_count() == sat_add64(sleeps0, (ticks - self.wkt.fuel()) as u64),
                !self.nvic.wkt_masked(),
            ensures
                self.wkt.is_fired(),
                self.wkt.clock_is_selected(),
                self.wkt.log() == log0.push(TimerEvent::SelectClock).push(TimerEvent::Start(ticks))
                    + Seq::new(ticks as nat, |i: int| TimerEvent::Poll),
                self.pmu.sleep_count() == sat_add64(sleeps0, (ticks - 1) as u64),
                !self.nvic.wkt_masked(),
            decreases self.wkt.fuel(),
        {
            let ghost fuel0 = self.wkt.fuel();
            let r = self.wkt.poll();
            proof {
                assert(self.wkt.log() =~= log0.push(TimerEvent::SelectClock).push(
                    TimerEvent::Start(ticks),
                ) + Seq::new((ticks - fuel0 + 1) as nat, |i: int| TimerEvent::Poll));
            }
            match r {
                PollResult::Fired => {
                    break ;
                },
                PollResult::Pending => {
                    // Halt here: the only suspension point in the subsystem.
                    self.pmu.enter_sleep_mode(&mut self.scb);
                    proof {
                        lemma_sat_add64_step(sleeps0, (ticks - fuel0) as u64);
                    }
                },
            }
        }
        // Mask again before leaving the critical section, so that no stale
        // interrupt dispatch fires on exit.
        self.nvic.mask_wkt();
    }
}

} // verus!
