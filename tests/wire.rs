use rimer::{Config, Error, Request, TimerState, TimerStateFlag};

#[test]
fn error_sentences() {
    assert_eq!(Error::NameExists.to_string(), "Timer with this name already exists");
    assert_eq!(Error::NameNotExists.to_string(), "Timer with this name does not exist yet");
    assert_eq!(
        Error::InvalidDuration.to_string(),
        "Provided duration is zero or bigger than max u64"
    );
    assert_eq!(Error::Generic { message: "bad json".to_string() }.to_string(), "bad json");
}

#[test]
fn state_flag_codes() {
    let mut f = TimerStateFlag::new();
    assert_eq!(f.get(), TimerState::Running);
    assert!(!f.is_halted());
    f.pause();
    assert_eq!(f.get(), TimerState::Paused);
    f.resume();
    assert_eq!(f.get(), TimerState::Running);
    f.halt();
    assert_eq!(f.get(), TimerState::Halted);
    assert!(f.is_halted());
    assert!(TimerState::Halted.is_halted());
    assert!(!TimerState::Paused.is_halted());
    assert_eq!(TimerState::Paused.to_string(), "paused");
}

#[test]
fn config_carries_a_request() {
    let c = Config::Client { request: Request::Pause { name: "t".to_string() } };
    match c {
        Config::Client { request: Request::Pause { name } } => assert_eq!(name, "t"),
        _ => panic!("wrong config"),
    }
    let s = Config::Server { callback: "notify-send".to_string() };
    assert!(matches!(s, Config::Server { .. }));
}
