use spinners_rs::{Event, RenderLoop, Spinner, Spinners, Tick};

fn started(spinner: Spinners, message: &str) -> (Spinner, RenderLoop) {
    let mut sp = Spinner::new(spinner, message);
    let lp = sp.start().unwrap();
    (sp, lp)
}

fn tick(line: &str, wait: u64) -> Option<Tick> {
    Some(Tick { line: line.to_string(), wait })
}

#[test]
fn the_first_frame_is_the_first_glyph() {
    let (_sp, mut lp) = started(Spinners::Dots, "Loading");
    assert!(lp.is_alive());
    assert_eq!(lp.step(&[]), tick("\r⠋ Loading", 100));
}

#[test]
fn frames_come_in_order_and_wrap() {
    let (_sp, mut lp) = started(Spinners::Dqpb, "x");
    let mut lines = Vec::new();
    for _ in 0..9 {
        lines.push(lp.step(&[]).unwrap().line);
    }
    assert_eq!(
        lines,
        vec!["\rd x", "\rq x", "\rp x", "\rb x", "\rd x", "\rq x", "\rp x", "\rb x", "\rd x"]
    );
}

#[test]
fn every_animation_plays_one_full_cycle() {
    for s in Spinners::list() {
        let (_sp, mut lp) = started(s, "m");
        let frames = s.get_frames();
        for round in 0..2 {
            for glyph in frames.iter() {
                let t = lp.step(&[]).unwrap();
                assert_eq!(t.line, format!("\r{} m", glyph), "{:?} round {}", s, round);
                assert_eq!(t.wait, 1000 / frames.len() as u64);
            }
        }
    }
}

#[test]
fn a_message_set_before_the_start_is_on_the_first_frame() {
    let mut sp = Spinner::new(Spinners::Dots, "Loading");
    assert_eq!(sp.set_message("Doing some cool things..."), None);
    let mut lp = sp.start().unwrap();
    assert_eq!(lp.step(&[]), tick("\r⠋ Doing some cool things...", 100));
}

#[test]
fn an_interval_set_before_the_start_is_on_the_first_frame() {
    let mut sp = Spinner::new(Spinners::Dots, "Loading");
    assert_eq!(sp.set_interval(500), Ok(None));
    let mut lp = sp.start().unwrap();
    assert_eq!(lp.step(&[]), tick("\r⠋ Loading", 500));
}

#[test]
fn a_stop_right_after_the_start_renders_nothing() {
    let (mut sp, mut lp) = started(Spinners::Dots, "Loading");
    let stop = sp.stop().unwrap();
    assert_eq!(lp.step(&[stop]), None);
    assert!(!lp.is_alive());
    assert!(!sp.is_running());
    for _ in 0..5 {
        assert_eq!(lp.step(&[]), None);
    }
}

#[test]
fn a_stop_after_the_first_frame_leaves_one_frame() {
    let (mut sp, mut lp) = started(Spinners::Dots, "Loading");
    let mut written = Vec::new();
    written.extend(lp.step(&[]));
    let stop = sp.stop().unwrap();
    written.extend(lp.step(&[stop]));
    written.extend(lp.step(&[]));
    written.extend(lp.step(&[]));
    assert_eq!(written.len(), 1);
    assert!(!lp.is_alive());
}

#[test]
fn nothing_is_rendered_after_stop_with_message() {
    let (mut sp, mut lp) = started(Spinners::Dots, "Loading");
    let mut screen = String::new();
    for _ in 0..3 {
        screen.push_str(&lp.step(&[]).unwrap().line);
    }
    let fin = sp.stop_with_message("done");
    let signal = fin.signal.unwrap();
    // The worker reads the signal and ends; the final line follows.
    if let Some(t) = lp.step(&[signal]) {
        screen.push_str(&t.line);
    }
    screen.push_str(&fin.line);
    // Two more intervals pass.
    for _ in 0..2 {
        if let Some(t) = lp.step(&[]) {
            screen.push_str(&t.line);
        }
    }
    assert_eq!(screen.rsplit('\r').next(), Some("done"));
}

#[test]
fn a_stopped_loop_ignores_later_signals() {
    let (_sp, mut lp) = started(Spinners::Dots, "Loading");
    assert_eq!(
        lp.step(&[
            Event::Stop,
            Event::SetMessage("late".to_string()),
            Event::SetFrames(Spinners::Dqpb.get_frames()),
        ]),
        None
    );
    assert_eq!(lp.step(&[Event::SetInterval(5)]), None);
    lp.apply(&Event::SetMessage("later".to_string()));
    assert!(!lp.is_alive());
    assert_eq!(lp.step(&[]), None);
}

#[test]
fn a_new_message_is_on_the_next_frame_and_stays() {
    let (mut sp, mut lp) = started(Spinners::Dots, "Loading");
    assert_eq!(lp.step(&[]), tick("\r⠋ Loading", 100));
    let ev = sp.set_message("Working").unwrap();
    assert_eq!(lp.step(&[ev]), tick("\r⠙ Working", 100));
    assert_eq!(lp.step(&[]), tick("\r⠹ Working", 100));
}

#[test]
fn a_new_interval_is_on_the_next_frame_and_stays() {
    let (mut sp, mut lp) = started(Spinners::Dots, "Loading");
    assert_eq!(lp.step(&[]), tick("\r⠋ Loading", 100));
    let ev = sp.set_interval(500).unwrap().unwrap();
    assert_eq!(lp.step(&[ev]), tick("\r⠙ Loading", 500));
    assert_eq!(lp.step(&[]), tick("\r⠹ Loading", 500));
}

#[test]
fn a_new_animation_starts_at_its_first_frame() {
    let (mut sp, mut lp) = started(Spinners::Dots, "Loading");
    for _ in 0..7 {
        assert!(lp.step(&[]).is_some());
    }
    let ev = sp.set_spinner(Spinners::Dqpb).unwrap();
    assert_eq!(lp.step(&[ev]), tick("\rd Loading", 100));
    assert_eq!(lp.step(&[]), tick("\rq Loading", 100));
    assert_eq!(lp.step(&[]), tick("\rp Loading", 100));
    assert_eq!(lp.step(&[]), tick("\rb Loading", 100));
    assert_eq!(lp.step(&[]), tick("\rd Loading", 100));
}

#[test]
fn the_same_animation_set_again_restarts_it() {
    let (mut sp, mut lp) = started(Spinners::Dqpb, "x");
    assert_eq!(lp.step(&[]), tick("\rd x", 250));
    assert_eq!(lp.step(&[]), tick("\rq x", 250));
    let ev = sp.set_spinner(Spinners::Dqpb).unwrap();
    assert_eq!(lp.step(&[ev]), tick("\rd x", 250));
}

#[test]
fn a_batch_is_applied_in_order() {
    let (_sp, mut lp) = started(Spinners::Dots, "Loading");
    assert_eq!(lp.step(&[]), tick("\r⠋ Loading", 100));
    let batch = [
        Event::SetMessage("one".to_string()),
        Event::SetInterval(10),
        Event::SetFrames(Spinners::Star2.get_frames()),
        Event::SetMessage("two".to_string()),
        Event::SetInterval(20),
        Event::SetFrames(Spinners::Dqpb.get_frames()),
    ];
    assert_eq!(lp.step(&batch), tick("\rd two", 20));
    assert_eq!(lp.step(&[]), tick("\rq two", 20));
}

#[test]
fn a_zero_interval_signal_is_ignored() {
    let (_sp, mut lp) = started(Spinners::Dots, "Loading");
    assert_eq!(lp.step(&[Event::SetInterval(0)]), tick("\r⠋ Loading", 100));
    assert_eq!(lp.step(&[Event::SetInterval(30), Event::SetInterval(0)]), tick("\r⠙ Loading", 30));
}

#[test]
fn an_empty_animation_signal_is_ignored() {
    let (_sp, mut lp) = started(Spinners::Dots, "Loading");
    assert_eq!(lp.step(&[]), tick("\r⠋ Loading", 100));
    assert_eq!(lp.step(&[Event::SetFrames(&[])]), tick("\r⠙ Loading", 100));
    assert!(lp.is_alive());
}

#[test]
fn apply_takes_one_signal() {
    let (_sp, mut lp) = started(Spinners::Dots, "Loading");
    lp.apply(&Event::SetMessage("Working".to_string()));
    lp.apply(&Event::SetInterval(5));
    assert_eq!(lp.step(&[]), tick("\r⠋ Working", 5));
    lp.apply(&Event::Stop);
    assert!(!lp.is_alive());
    assert_eq!(lp.step(&[]), None);
}

#[test]
fn an_empty_glyph_is_rendered_as_it_is() {
    let (_sp, mut lp) = started(Spinners::Line, "x");
    assert_eq!(lp.step(&[]), tick("\r- x", 250));
    assert_eq!(lp.step(&[]), tick("\r x", 250));
    assert_eq!(lp.step(&[]), tick("\r| x", 250));
}

#[test]
fn a_second_of_dots_then_a_symbol() {
    let mut sp = Spinner::from_name("dots", "Loading").unwrap();
    let mut lp = sp.start().unwrap();
    let mut elapsed: u64 = 0;
    let mut written: Vec<String> = Vec::new();
    let mut screen = String::new();
    while elapsed < 1050 {
        let t = lp.step(&[]).unwrap();
        screen.push_str(&t.line);
        written.push(t.line);
        elapsed += t.wait;
    }
    assert_eq!(written.len(), 11);
    let mut distinct = written.clone();
    distinct.sort();
    distinct.dedup();
    assert!(distinct.len() >= 2);
    assert_eq!(distinct.len(), 10);
    let fin = sp.stop_with_symbol("✔");
    assert_eq!(lp.step(&[fin.signal.unwrap()]), None);
    screen.push_str(&fin.line);
    assert_eq!(fin.line, "\r✔ Loading");
    assert_eq!(screen.rsplit('\r').next(), Some("✔ Loading"));
    assert!(!sp.is_running());
    assert!(!lp.is_alive());
}
