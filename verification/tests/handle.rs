use spinners_rs::{Event, Finish, Spinner, SpinnerError, Spinners};

#[test]
fn a_new_spinner_is_stopped_with_the_default_interval() {
    let sp = Spinner::new(Spinners::Dots, "Loading");
    assert_eq!(sp.spinner(), Spinners::Dots);
    assert_eq!(sp.message(), "Loading");
    assert_eq!(sp.interval(), 100);
    assert!(!sp.is_running());
}

#[test]
fn the_default_interval_rounds_down() {
    assert_eq!(Spinner::new(Spinners::Star2, "").interval(), 333);
    assert_eq!(Spinner::new(Spinners::Dots8Bit, "").interval(), 3);
    assert_eq!(Spinner::new(Spinners::Material, "").interval(), 10);
    assert_eq!(Spinner::new(Spinners::Toggle, "").interval(), 500);
}

#[test]
fn from_name_resolves_the_animation() {
    let sp = Spinner::from_name("dots", "Loading").unwrap();
    assert_eq!(sp.spinner(), Spinners::Dots);
    assert_eq!(sp.message(), "Loading");
    assert_eq!(sp.interval(), 100);
    assert!(!sp.is_running());
}

#[test]
fn from_name_fails_on_an_unknown_name() {
    let err = Spinner::from_name("Dots", "Loading").unwrap_err();
    assert_eq!(err, SpinnerError::UnknownAnimation("Dots".to_string()));
    assert_eq!(err.message(), "unknown animation: Dots");
    let err = Spinner::from_name("", "x").unwrap_err();
    assert_eq!(err, SpinnerError::UnknownAnimation(String::new()));
}

#[test]
fn error_messages() {
    assert_eq!(
        SpinnerError::UnknownAnimation("wobble".to_string()).message(),
        "unknown animation: wobble"
    );
    assert_eq!(
        SpinnerError::InvalidInterval.message(),
        "invalid interval: must be at least 1 ms"
    );
}

#[test]
fn a_spinner_from_an_animation_has_no_message() {
    let sp: Spinner = Spinners::Dots.into();
    assert_eq!(sp.spinner(), Spinners::Dots);
    assert_eq!(sp.message(), "");
    assert_eq!(sp.interval(), 100);
    assert!(!sp.is_running());
    assert_eq!(sp.get_name(), "Dots");
}

#[test]
fn get_name_capitalises_the_first_letter() {
    assert_eq!(Spinner::new(Spinners::Dots, "").get_name(), "Dots");
    assert_eq!(Spinner::new(Spinners::BouncingBall, "").get_name(), "BouncingBall");
    assert_eq!(Spinner::new(Spinners::Dots8Bit, "").get_name(), "Dots8Bit");
    assert_eq!(Spinner::new(Spinners::Toggle10, "").get_name(), "Toggle10");
}

#[test]
fn start_hands_out_one_loop_only() {
    let mut sp = Spinner::new(Spinners::Dots, "Loading");
    let first = sp.start();
    assert!(first.is_some());
    assert!(sp.is_running());
    assert!(sp.start().is_none());
    assert!(sp.start().is_none());
    assert!(sp.is_running());
}

#[test]
fn stop_reports_whether_a_loop_was_running() {
    let mut sp = Spinner::new(Spinners::Dots, "Loading");
    assert_eq!(sp.stop(), None);
    assert!(!sp.is_running());
    assert!(sp.start().is_some());
    assert_eq!(sp.stop(), Some(Event::Stop));
    assert!(!sp.is_running());
    assert_eq!(sp.stop(), None);
}

#[test]
fn a_spinner_can_be_started_again_with_its_state() {
    let mut sp = Spinner::new(Spinners::Dots, "one");
    assert!(sp.start().is_some());
    assert_eq!(sp.set_message("two"), Some(Event::SetMessage("two".to_string())));
    assert_eq!(sp.set_interval(40), Ok(Some(Event::SetInterval(40))));
    assert_eq!(sp.stop(), Some(Event::Stop));
    let mut lp = sp.start().unwrap();
    let tick = lp.step(&[]).unwrap();
    assert_eq!(tick.line, "\r⠋ two");
    assert_eq!(tick.wait, 40);
}

#[test]
fn set_interval_rejects_zero() {
    let mut sp = Spinner::new(Spinners::Dots, "Loading");
    assert_eq!(sp.set_interval(0), Err(SpinnerError::InvalidInterval));
    assert_eq!(sp.interval(), 100);
    assert!(sp.start().is_some());
    assert_eq!(sp.set_interval(0), Err(SpinnerError::InvalidInterval));
    assert_eq!(sp.interval(), 100);
    assert!(sp.is_running());
}

#[test]
fn set_interval_while_stopped_sends_nothing() {
    let mut sp = Spinner::new(Spinners::Dots, "Loading");
    assert_eq!(sp.set_interval(1), Ok(None));
    assert_eq!(sp.interval(), 1);
    assert_eq!(sp.set_interval(u64::MAX), Ok(None));
    assert_eq!(sp.interval(), u64::MAX);
}

#[test]
fn set_interval_while_running_signals_the_loop() {
    let mut sp = Spinner::new(Spinners::Dots, "Loading");
    assert!(sp.start().is_some());
    assert_eq!(sp.set_interval(250), Ok(Some(Event::SetInterval(250))));
    assert_eq!(sp.interval(), 250);
}

#[test]
fn set_message_while_stopped_sends_nothing() {
    let mut sp = Spinner::new(Spinners::Dots, "Loading");
    assert_eq!(sp.set_message("Working"), None);
    assert_eq!(sp.message(), "Working");
}

#[test]
fn set_message_while_running_signals_the_loop() {
    let mut sp = Spinner::new(Spinners::Dots, "Loading");
    assert!(sp.start().is_some());
    assert_eq!(sp.set_message("Working"), Some(Event::SetMessage("Working".to_string())));
    assert_eq!(sp.message(), "Working");
}

#[test]
fn set_spinner_keeps_the_interval() {
    let mut sp = Spinner::new(Spinners::Dots, "Loading");
    assert_eq!(sp.set_spinner(Spinners::Christmas), None);
    assert_eq!(sp.spinner(), Spinners::Christmas);
    assert_eq!(sp.interval(), 100);
    assert_eq!(sp.get_name(), "Christmas");
}

#[test]
fn set_spinner_while_running_signals_the_frames() {
    let mut sp = Spinner::new(Spinners::Dots, "Loading");
    assert!(sp.start().is_some());
    assert_eq!(
        sp.set_spinner(Spinners::Dqpb),
        Some(Event::SetFrames(&["d", "q", "p", "b"]))
    );
    assert_eq!(sp.spinner(), Spinners::Dqpb);
}

#[test]
fn stop_with_message_replaces_the_line() {
    let mut sp = Spinner::new(Spinners::Dots, "Loading");
    assert!(sp.start().is_some());
    let fin = sp.stop_with_message("done");
    assert_eq!(fin, Finish { signal: Some(Event::Stop), line: "\rdone".to_string() });
    assert!(!sp.is_running());
}

#[test]
fn stop_with_message_on_a_stopped_spinner() {
    let mut sp = Spinner::new(Spinners::Dots, "Loading");
    let fin = sp.stop_with_message("We've finished that thing!");
    assert_eq!(fin.signal, None);
    assert_eq!(fin.line, "\rWe've finished that thing!");
}

#[test]
fn stop_with_symbol_keeps_the_last_message() {
    let mut sp = Spinner::new(Spinners::Dots, "Loading");
    assert!(sp.start().is_some());
    assert!(sp.set_message("Almost").is_some());
    let fin = sp.stop_with_symbol("✓");
    assert_eq!(fin, Finish { signal: Some(Event::Stop), line: "\r✓ Almost".to_string() });
    assert!(!sp.is_running());
    assert_eq!(sp.message(), "Almost");
}

#[test]
fn a_clone_holds_the_same_state() {
    let mut sp = Spinner::new(Spinners::Moon, "Loading");
    assert_eq!(sp.set_interval(7), Ok(None));
    assert!(sp.start().is_some());
    let copy = sp.clone();
    assert_eq!(copy.spinner(), Spinners::Moon);
    assert_eq!(copy.message(), "Loading");
    assert_eq!(copy.interval(), 7);
    assert!(copy.is_running());
}
