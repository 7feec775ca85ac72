//! The self-wake timer: a countdown peripheral with a non-blocking
//! "has it fired" query.
//!
//! The timer is modeled with an explicit lifecycle: idle, armed with a
//! remaining tick count, fired. Arming loads a count and clears a previous
//! match; each poll witnesses one elapsed tick of the selected clock and
//! reports whether the countdown has reached its match. A countdown loaded
//! with zero ticks would never fire, which is why the sleep strategies guard
//! against zero before arming.
//!
//! Every operation is recorded in an event log, so a caller's claim that it
//! never armed the timer, or that it polled it at least once, is observable.

use vstd::prelude::*;

verus! {

/// The lifecycle state of the countdown.
#[derive(Clone, Copy, PartialEq, Eq, Structural, Debug)]
pub enum TimerState {
    /// No countdown has been loaded since reset.
    Idle,
    /// A countdown is loaded and running.
    Armed {
        /// Ticks left until the match fires.
        remaining: u32,
    },
    /// The countdown reached its match; the flag stays set until the timer
    /// is armed again.
    Fired,
}

/// What a poll reports.
#[derive(Clone, Copy, PartialEq, Eq, Structural, Debug)]
pub enum PollResult {
    /// The countdown has not reached its match.
    Pending,
    /// The countdown has fired.
    Fired,
}

/// One logged timer operation.
#[derive(Clone, Copy, PartialEq, Eq, Structural, Debug)]
pub enum TimerEvent {
    /// The clock source was selected.
    SelectClock,
    /// The countdown was armed with this many ticks.
    Start(u32),
    /// The match flag was queried.
    Poll,
}

/// The self-wake timer.
pub struct WakeTimer {
    clock_selected: bool,
    state: TimerState,
    log: Vec<TimerEvent>,
}

impl WakeTimer {
    /// Whether a clock source has been selected, a prerequisite of arming.
    pub closed spec fn clock_is_selected(&self) -> bool {
        self.clock_selected
    }

    /// The countdown's lifecycle state.
    pub closed spec fn state(&self) -> TimerState {
        self.state
    }

    /// The operations performed on the timer, oldest first.
    pub closed spec fn log(&self) -> Seq<TimerEvent> {
        self.log@
    }

    /// Whether the countdown has fired.
    pub open spec fn is_fired(&self) -> bool {
        self.state() == TimerState::Fired
    }

    /// Ticks left until the timer fires; zero when it is not armed or can
    /// never fire.
    pub open spec fn fuel(&self) -> nat {
        match self.state() {
            TimerState::Armed { remaining } => remaining as nat,
            _ => 0,
        }
    }

    /// A timer in its reset state: idle, no clock selected, nothing logged.
    pub fn new() -> (t: WakeTimer)
        ensures
            !t.clock_is_selected(),
            t.state() == TimerState::Idle,
            t.log() == Seq::<TimerEvent>::empty(),
    {
        let log: Vec<TimerEvent> = Vec::new();
        assert(log@ =~= Seq::<TimerEvent>::empty());
        WakeTimer { clock_selected: false, state: TimerState::Idle, log }
    }

    /// Select the timer's clock source. Must happen before the first start.
    pub fn select_clock(&mut self)
        ensures
            final(self).clock_is_selected(),
            final(self).state() == old(self).state(),
            final(self).log() == old(self).log().push(TimerEvent::SelectClock),
    {
        self.clock_selected = true;
        self.log.push(TimerEvent::SelectClock);
    }

    /// Arm the countdown with `ticks` ticks of the selected clock, clearing
    /// a previous match. A zero count is refused here: it would never fire,
    /// and a caller waiting on it would hang forever.
    pub fn start(&mut self, ticks: u32)
        requires
            old(self).clock_is_selected(),
            ticks > 0,
        ensures
            final(self).clock_is_selected(),
            final(self).state() == (TimerState::Armed { remaining: ticks }),
            final(self).log() == old(self).log().push(TimerEvent::Start(ticks)),
    {
        self.state = TimerState::Armed { remaining: ticks };
        self.log.push(TimerEvent::Start(ticks));
    }

    /// Query the match flag without blocking. Each query witnesses one
    /// elapsed tick of the running countdown; the match fires when the count
    /// reaches zero and stays fired until the next start. Polling an idle
    /// timer reports pending forever.
    pub fn poll(&mut self) -> (r: PollResult)
        ensures
            final(self).clock_is_selected() == old(self).clock_is_selected(),
            final(self).log() == old(self).log().push(TimerEvent::Poll),
            match old(self).state() {
                TimerState::Idle => r == PollResult::Pending && final(self).state()
                    == TimerState::Idle,
                TimerState::Armed { remaining } => {
                    if remaining == 1 {
                        r == PollResult::Fired && final(self).state() == TimerState::Fired
                    } else if remaining == 0 {
                        r == PollResult::Pending && final(self).state() == (TimerState::Armed {
                            remaining: 0,
                        })
                    } else {
                        r == PollResult::Pending && final(self).state() == (TimerState::Armed {
                            remaining: (remaining - 1) as u32,
                        })
                    }
                },
                TimerState::Fired => r == PollResult::Fired && final(self).state()
                    == TimerState::Fired,
            },
    {
        self.log.push(TimerEvent::Poll);
        match self.state {
            TimerState::Idle => PollResult::Pending,
            TimerState::Armed { remaining } => {
                if remaining == 1 {
                    self.state = TimerState::Fired;
                    PollResult::Fired
                } else if remaining == 0 {
                    PollResult::Pending
                } else {
                    self.state = TimerState::Armed { remaining: remaining - 1 };
                    PollResult::Pending
                }
            },
            TimerState::Fired => PollResult::Fired,
        }
    }

    /// The countdown's lifecycle state, for callers outside the proof.
    pub fn read_state(&self) -> (s: TimerState)
        ensures
            s == self.state(),
    {
        self.state
    }

    /// Whether a clock source has been selected, for callers outside the
    /// proof.
    pub fn clock_selected(&self) -> (r: bool)
        ensures
            r == self.clock_is_selected(),
    {
        self.clock_selected
    }

    /// The operation log, for callers outside the proof.
    pub fn event_log(&self) -> (l: &Vec<TimerEvent>)
        ensures
            l@ == self.log(),
    {
        &self.log
    }
}

} // verus!
