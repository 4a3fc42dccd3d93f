use rimer::{command_args, handle_update, secs_text, Snapshot, State, NANOS_PER_SEC};

fn snap(elapsed_ms: u128, duration_s: u128, state: State) -> Snapshot {
    Snapshot {
        name: "tea".to_string(),
        duration: duration_s * NANOS_PER_SEC,
        elapsed: elapsed_ms * 1_000_000,
        state,
        arg: "cup".to_string(),
    }
}

#[test]
fn first_second_always_notifies() {
    let mut last = 5 * NANOS_PER_SEC;
    let r = handle_update(&snap(500, 60, State::Running), &mut last);
    assert!(r.is_some());
    assert_eq!(last, 59_500_000_000);
}

#[test]
fn nothing_announced_notifies() {
    let mut last = 0;
    assert!(handle_update(&snap(10_000, 60, State::Running), &mut last).is_some());
    assert_eq!(last, 50 * NANOS_PER_SEC);
}

#[test]
fn unchanged_remaining_above_last_is_debounced_twice() {
    let mut last = 40 * NANOS_PER_SEC;
    let s = snap(10_000, 60, State::Running);
    assert!(handle_update(&s, &mut last).is_none());
    assert!(handle_update(&s, &mut last).is_none());
    assert_eq!(last, 40 * NANOS_PER_SEC);
}

#[test]
fn remaining_down_to_last_notifies() {
    let mut last = 50 * NANOS_PER_SEC;
    assert!(handle_update(&snap(10_000, 60, State::Running), &mut last).is_some());
    assert_eq!(last, 50 * NANOS_PER_SEC);
}

#[test]
fn debounce_is_shared_across_timers() {
    let mut last = 0;
    let mut a = snap(10_000, 60, State::Running);
    a.name = "a".to_string();
    let mut b = snap(10_000, 120, State::Running);
    b.name = "b".to_string();
    assert!(handle_update(&a, &mut last).is_some());
    assert!(handle_update(&b, &mut last).is_none());
}

#[test]
fn pause_always_notifies_and_resets() {
    let mut last = 10 * NANOS_PER_SEC;
    assert!(handle_update(&snap(10_000, 60, State::Paused), &mut last).is_some());
    assert_eq!(last, 0);
}

#[test]
fn halt_always_notifies() {
    let mut last = 10 * NANOS_PER_SEC;
    assert!(handle_update(&snap(60_000, 60, State::Halted), &mut last).is_some());
    assert_eq!(last, 0);
    let mut last = 10 * NANOS_PER_SEC;
    assert!(handle_update(&snap(20_000, 60, State::Halted), &mut last).is_some());
    assert_eq!(last, 40 * NANOS_PER_SEC);
}

#[test]
fn notifier_arguments() {
    let mut last = 0;
    let r = handle_update(&snap(12_700, 30, State::Running), &mut last).unwrap();
    assert_eq!(r, vec!["tea", "12", "30", "running", "cup"]);
    assert_eq!(
        command_args(&snap(0, 5, State::Paused)),
        vec!["tea", "0", "5", "paused", "cup"]
    );
}

#[test]
fn whole_seconds_in_decimal() {
    assert_eq!(secs_text(0), "0");
    assert_eq!(secs_text(999_999_999), "0");
    assert_eq!(secs_text(12_500_000_000), "12");
    assert_eq!(secs_text(18_446_744_073_709_551_615 * NANOS_PER_SEC), "18446744073709551615");
}

#[test]
fn snapshot_line_and_equality() {
    let s = snap(3_500, 20, State::Running);
    assert_eq!(s.to_string(), "tea 3 20 running cup");
    let mut other = snap(9_000, 90, State::Halted);
    assert!(s == other);
    other.name = "coffee".to_string();
    assert!(s != other);
    let c = s.clone();
    assert_eq!(c.elapsed, s.elapsed);
    assert_eq!(c.arg, s.arg);
}
