use rimer::{Command, Event, State, TimerCore, Wait, NANOS_PER_SEC};

const T0: u128 = 1_700_000_000 * NANOS_PER_SEC;

fn secs(n: u128) -> u128 {
    n * NANOS_PER_SEC
}

fn start(name: &str, duration: u128, step: u128) -> TimerCore {
    let (t, o) = TimerCore::start(name.to_string(), secs(duration), secs(step), "x".to_string(), T0);
    let u = o.update.expect("first update");
    assert_eq!(u.elapsed, 0);
    assert_eq!(u.state, State::Running);
    assert!(o.report.is_none());
    assert!(!o.announce_halt);
    assert_eq!(o.wait, Wait::Timeout(secs(step)));
    t
}

#[test]
fn countdown_runs_to_completion_and_halts() {
    let mut t = start("t1", 30, 6);
    for k in 1..5u128 {
        let o = t.on_event(Event::Tick, T0 + secs(6 * k));
        let u = o.update.expect("tick update");
        assert_eq!(u.elapsed, secs(6 * k));
        assert_eq!(u.state, State::Running);
        assert!(!o.announce_halt);
        assert_eq!(o.wait, Wait::Timeout(secs(6)));
    }
    let o = t.on_event(Event::Tick, T0 + secs(30));
    let u = o.update.expect("final update");
    assert_eq!(u.elapsed, secs(30));
    assert_eq!(u.state, State::Halted);
    assert!(o.announce_halt);
    assert_eq!(o.wait, Wait::Forever);
}

#[test]
fn elapsed_is_clamped_to_duration() {
    let mut t = start("late", 10, 10);
    let o = t.on_event(Event::Tick, T0 + secs(12));
    let u = o.update.expect("final update");
    assert_eq!(u.elapsed, secs(10));
    assert_eq!(u.state, State::Halted);
    assert!(o.announce_halt);
}

#[test]
fn step_shrinks_so_the_last_tick_lands_on_the_duration() {
    let mut t = start("s", 10, 4);
    let o = t.on_event(Event::Tick, T0 + secs(4));
    assert_eq!(o.wait, Wait::Timeout(secs(4)));
    let o = t.on_event(Event::Tick, T0 + secs(8));
    assert_eq!(o.wait, Wait::Timeout(secs(2)));
    let o = t.on_event(Event::Tick, T0 + secs(10));
    assert_eq!(o.update.unwrap().state, State::Halted);
}

#[test]
fn step_longer_than_duration_is_cut() {
    let (_, o) = TimerCore::start("c".to_string(), secs(5), secs(60), String::new(), T0);
    assert_eq!(o.wait, Wait::Timeout(secs(5)));
}

#[test]
fn pause_resume_preserves_elapsed() {
    let mut t = start("t2", 20, 5);
    let o = t.on_event(Event::Received(Command::Pause), T0 + secs(3));
    let u = o.update.expect("pause update");
    assert_eq!(u.state, State::Paused);
    assert_eq!(u.elapsed, secs(3));
    assert_eq!(o.wait, Wait::Forever);

    let o = t.on_event(Event::Received(Command::Report), T0 + secs(6));
    let r = o.report.expect("report while paused");
    assert_eq!(r.elapsed, secs(3));
    assert_eq!(r.state, State::Paused);

    let o = t.on_event(Event::Received(Command::Resume), T0 + secs(8));
    let u = o.update.expect("resume update");
    assert_eq!(u.state, State::Running);
    assert_eq!(u.elapsed, secs(3));

    let o = t.on_event(Event::Received(Command::Report), T0 + secs(8));
    let r = o.report.expect("report after resume");
    assert_eq!(r.elapsed, secs(3));
    assert_eq!(r.state, State::Running);

    let o = t.on_event(Event::Tick, T0 + secs(10));
    assert_eq!(o.update.unwrap().elapsed, secs(5));
}

#[test]
fn report_twice_drifts_only_by_the_time_between() {
    let mut t = start("r", 60, 10);
    let a = t.on_event(Event::Received(Command::Report), T0 + secs(7));
    let b = t.on_event(Event::Received(Command::Report), T0 + secs(7) + 250_000_000);
    let (a, b) = (a.report.unwrap(), b.report.unwrap());
    assert_eq!(a.name, b.name);
    assert_eq!(a.duration, b.duration);
    assert_eq!(a.state, b.state);
    assert_eq!(a.arg, b.arg);
    assert_eq!(b.elapsed - a.elapsed, 250_000_000);
}

#[test]
fn report_while_running_also_updates() {
    let mut t = start("u", 60, 10);
    let o = t.on_event(Event::Received(Command::Report), T0 + secs(2));
    assert_eq!(o.report.unwrap().elapsed, secs(2));
    assert_eq!(o.update.unwrap().elapsed, secs(2));
    assert_eq!(o.wait, Wait::Timeout(secs(10)));
}

#[test]
fn halt_is_immediate_and_final() {
    let mut t = start("h", 60, 10);
    let o = t.on_event(Event::Received(Command::Halt), T0 + secs(4));
    let u = o.update.expect("halt update");
    assert_eq!(u.state, State::Halted);
    assert_eq!(u.elapsed, secs(4));
    assert!(o.announce_halt);

    for c in [Command::Halt, Command::Pause, Command::Resume] {
        let o = t.on_event(Event::Received(c), T0 + secs(5));
        assert!(o.update.is_none());
        assert!(o.report.is_none());
        assert!(!o.announce_halt);
        assert_eq!(o.wait, Wait::Forever);
    }
    let o = t.on_event(Event::Received(Command::Report), T0 + secs(9));
    let r = o.report.expect("drain report");
    assert_eq!(r.state, State::Halted);
    assert_eq!(r.elapsed, secs(4));

    let o = t.on_event(Event::Received(Command::ConfirmHalt), T0 + secs(9));
    assert_eq!(o.wait, Wait::Stop);
    let o = t.on_event(Event::Received(Command::Report), T0 + secs(9));
    assert!(o.report.is_none());
    assert_eq!(o.wait, Wait::Stop);
}

#[test]
fn halt_while_paused_keeps_frozen_elapsed() {
    let mut t = start("hp", 60, 10);
    t.on_event(Event::Received(Command::Pause), T0 + secs(2));
    let o = t.on_event(Event::Received(Command::Halt), T0 + secs(40));
    let u = o.update.unwrap();
    assert_eq!(u.state, State::Halted);
    assert_eq!(u.elapsed, secs(2));
    assert!(o.announce_halt);
}

#[test]
fn closed_queue_stops_the_timer() {
    let mut t = start("q", 60, 10);
    let o = t.on_event(Event::Closed, T0 + secs(1));
    assert_eq!(o.wait, Wait::Stop);
    assert!(o.update.is_none());
    assert!(!o.announce_halt);
}

#[test]
fn clock_moving_back_keeps_elapsed() {
    let mut t = start("b", 60, 10);
    t.on_event(Event::Tick, T0 + secs(10));
    let o = t.on_event(Event::Tick, T0 - secs(100));
    assert_eq!(o.update.unwrap().elapsed, secs(10));
    let o = t.on_event(Event::Tick, T0 - secs(95));
    assert_eq!(o.update.unwrap().elapsed, secs(15));
}

#[test]
fn snapshot_and_name_of_a_started_timer() {
    let t = start("named", 60, 10);
    assert_eq!(t.name(), "named");
    let s = t.snapshot();
    assert_eq!(s.name, "named");
    assert_eq!(s.arg, "x");
    assert_eq!(s.duration, secs(60));
    assert_eq!(t.wait(), Wait::Timeout(secs(10)));
}
