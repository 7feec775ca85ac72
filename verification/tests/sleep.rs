use lpc8xx_hal::sleep::{Busy, Nvic, Pmu, Regular, Scb, Sleep};
use lpc8xx_hal::wkt::{PollResult, TimerEvent, TimerState, WakeTimer};

#[test]
fn timer_lifecycle_idle_armed_fired() {
    let mut wkt = WakeTimer::new();
    assert_eq!(wkt.read_state(), TimerState::Idle);
    assert!(!wkt.clock_selected());
    wkt.select_clock();
    assert!(wkt.clock_selected());
    wkt.start(2);
    assert_eq!(wkt.read_state(), TimerState::Armed { remaining: 2 });
    assert_eq!(wkt.poll(), PollResult::Pending);
    assert_eq!(wkt.read_state(), TimerState::Armed { remaining: 1 });
    assert_eq!(wkt.poll(), PollResult::Fired);
    assert_eq!(wkt.read_state(), TimerState::Fired);
    assert_eq!(wkt.poll(), PollResult::Fired, "the match flag stays set");
    // Arming again clears the previous match.
    wkt.start(1);
    assert_eq!(wkt.read_state(), TimerState::Armed { remaining: 1 });
}

#[test]
fn polling_an_idle_timer_reports_pending_forever() {
    let mut wkt = WakeTimer::new();
    assert_eq!(wkt.poll(), PollResult::Pending);
    assert_eq!(wkt.poll(), PollResult::Pending);
    assert_eq!(wkt.read_state(), TimerState::Idle);
}

#[test]
fn busy_sleep_zero_ticks_never_arms_the_timer() {
    let mut wkt = WakeTimer::new();
    wkt.select_clock();
    let log_before = wkt.event_log().clone();
    let mut strategy = Busy::prepare(wkt);
    strategy.sleep(0);
    let wkt = strategy.release();
    assert_eq!(*wkt.event_log(), log_before, "no start, no poll");
    assert_eq!(wkt.read_state(), TimerState::Idle);
}

#[test]
fn busy_sleep_polls_until_the_timer_fires() {
    let mut wkt = WakeTimer::new();
    wkt.select_clock();
    let mut strategy = Busy::prepare(wkt);
    strategy.sleep(3);
    let wkt = strategy.release();
    assert_eq!(wkt.read_state(), TimerState::Fired, "no return before the match");
    let log = wkt.event_log();
    assert_eq!(
        *log,
        vec![
            TimerEvent::SelectClock,
            TimerEvent::Start(3),
            TimerEvent::Poll,
            TimerEvent::Poll,
            TimerEvent::Poll,
        ],
    );
}

#[test]
fn busy_sleep_single_tick_polls_once() {
    let mut wkt = WakeTimer::new();
    wkt.select_clock();
    let mut strategy = Busy::prepare(wkt);
    strategy.sleep(1);
    let wkt = strategy.release();
    assert_eq!(wkt.read_state(), TimerState::Fired);
    assert_eq!(
        *wkt.event_log(),
        vec![TimerEvent::SelectClock, TimerEvent::Start(1), TimerEvent::Poll],
    );
}

#[test]
fn regular_sleep_masks_the_interrupt_at_both_boundaries() {
    let nvic = Nvic::new();
    assert!(nvic.is_wkt_masked(), "precondition: masked before entry");
    let mut strategy = Regular::prepare(nvic, Pmu::new(), Scb::new(), WakeTimer::new());
    strategy.sleep(2);
    let (nvic, pmu, _scb, wkt) = strategy.release();
    assert!(nvic.is_wkt_masked(), "postcondition: masked after return");
    assert_eq!(wkt.read_state(), TimerState::Fired);
    assert_eq!(
        *wkt.event_log(),
        vec![
            TimerEvent::SelectClock,
            TimerEvent::Start(2),
            TimerEvent::Poll,
            TimerEvent::Poll,
        ],
    );
    assert_eq!(pmu.sleeps(), 1, "one halt between the two polls");
}

#[test]
fn regular_sleep_zero_ticks_changes_nothing() {
    let mut strategy = Regular::prepare(Nvic::new(), Pmu::new(), Scb::new(), WakeTimer::new());
    strategy.sleep(0);
    let (nvic, pmu, _scb, wkt) = strategy.release();
    assert!(nvic.is_wkt_masked());
    assert_eq!(pmu.sleeps(), 0);
    assert_eq!(wkt.read_state(), TimerState::Idle);
    assert_eq!(wkt.event_log().len(), 0);
}

#[test]
fn regular_sleep_selects_its_own_clock() {
    // Unlike the busy strategy, the regular one selects the clock source
    // itself, so an unselected timer is fine here.
    let timer = WakeTimer::new();
    assert!(!timer.clock_selected());
    let mut strategy = Regular::prepare(Nvic::new(), Pmu::new(), Scb::new(), timer);
    strategy.sleep(1);
    let (_nvic, pmu, _scb, wkt) = strategy.release();
    assert!(wkt.clock_selected());
    assert_eq!(wkt.read_state(), TimerState::Fired);
    assert_eq!(pmu.sleeps(), 0, "the first poll already reports the match");
}

#[test]
fn regular_sleep_halt_count_grows_with_the_wait() {
    let mut strategy = Regular::prepare(Nvic::new(), Pmu::new(), Scb::new(), WakeTimer::new());
    strategy.sleep(5);
    strategy.sleep(3);
    let (_nvic, pmu, _scb, _wkt) = strategy.release();
    assert_eq!(pmu.sleeps(), 4 + 2);
}
