use spinners_rs::{Spinner, SpinnerError, Spinners};

fn lower_first(s: &str) -> String {
    let mut chars = s.chars();
    match chars.next() {
        Some(c) => c.to_lowercase().collect::<String>() + chars.as_str(),
        None => String::new(),
    }
}

#[test]
fn lookup_finds_a_registered_name() {
    assert_eq!(Spinners::lookup("dots"), Ok(Spinners::Dots));
    assert_eq!(Spinners::lookup("bouncingBall"), Ok(Spinners::BouncingBall));
    assert_eq!(Spinners::lookup("dots8Bit"), Ok(Spinners::Dots8Bit));
    assert_eq!(Spinners::lookup("toggle13"), Ok(Spinners::Toggle13));
    assert_eq!(Spinners::lookup("simpleDotsScrolling"), Ok(Spinners::SimpleDotsScrolling));
    assert_eq!(Spinners::lookup("circleQuaters"), Ok(Spinners::CircleQuaters));
}

#[test]
fn lookup_is_exact_and_case_sensitive() {
    assert_eq!(
        Spinners::lookup("Dots"),
        Err(SpinnerError::UnknownAnimation("Dots".to_string()))
    );
    assert_eq!(
        Spinners::lookup("DOTS"),
        Err(SpinnerError::UnknownAnimation("DOTS".to_string()))
    );
    assert_eq!(
        Spinners::lookup("dots "),
        Err(SpinnerError::UnknownAnimation("dots ".to_string()))
    );
    assert_eq!(
        Spinners::lookup("bouncingball"),
        Err(SpinnerError::UnknownAnimation("bouncingball".to_string()))
    );
    assert_eq!(
        Spinners::lookup("dot"),
        Err(SpinnerError::UnknownAnimation("dot".to_string()))
    );
}

#[test]
fn lookup_rejects_unregistered_names() {
    assert_eq!(
        Spinners::lookup("nope"),
        Err(SpinnerError::UnknownAnimation("nope".to_string()))
    );
    assert_eq!(Spinners::lookup(""), Err(SpinnerError::UnknownAnimation(String::new())));
    assert_eq!(
        Spinners::lookup("dots12"),
        Err(SpinnerError::UnknownAnimation("dots12".to_string()))
    );
    assert_eq!(
        Spinners::lookup("⠋"),
        Err(SpinnerError::UnknownAnimation("⠋".to_string()))
    );
}

#[test]
fn list_holds_every_animation_once() {
    let all = Spinners::list();
    assert_eq!(all.len(), 81);
    assert_eq!(all[0], Spinners::Dots);
    assert_eq!(all[11], Spinners::Dots8Bit);
    assert_eq!(all[12], Spinners::Arrow);
    assert_eq!(all[80], Spinners::SimpleDotsScrolling);
    for (i, a) in all.iter().enumerate() {
        for (j, b) in all.iter().enumerate() {
            assert_eq!(i == j, a == b);
        }
    }
}

#[test]
fn list_is_stable() {
    assert_eq!(Spinners::list(), Spinners::list());
}

#[test]
fn every_name_resolves_to_its_animation() {
    for s in Spinners::list() {
        assert_eq!(Spinners::lookup(s.name()), Ok(s));
    }
}

#[test]
fn names_are_the_variants_in_camel_case() {
    for s in Spinners::list() {
        let variant = format!("{:?}", s);
        assert_eq!(s.name(), lower_first(&variant));
    }
    assert_eq!(Spinners::Dots.name(), "dots");
    assert_eq!(Spinners::Dots8Bit.name(), "dots8Bit");
    assert_eq!(Spinners::BoxBounce2.name(), "boxBounce2");
    assert_eq!(Spinners::OrangeBluePulse.name(), "orangeBluePulse");
    assert_eq!(Spinners::Dqpb.name(), "dqpb");
}

#[test]
fn names_are_distinct() {
    let all = Spinners::list();
    for a in all.iter() {
        for b in all.iter() {
            assert_eq!(a.name() == b.name(), a == b);
        }
    }
}

#[test]
fn display_names_are_the_variants() {
    for s in Spinners::list() {
        assert_eq!(s.display_name(), format!("{:?}", s));
    }
    assert_eq!(Spinners::Dots.display_name(), "Dots");
    assert_eq!(Spinners::BouncingBar.display_name(), "BouncingBar");
}

#[test]
fn every_animation_has_a_frame() {
    let mut total = 0;
    for s in Spinners::list() {
        let frames = s.get_frames();
        assert!(!frames.is_empty());
        assert!(frames.len() <= 1000);
        total += frames.len();
    }
    assert_eq!(total, 952);
}

#[test]
fn frames_of_dots() {
    assert_eq!(
        Spinners::Dots.get_frames(),
        &["⠋", "⠙", "⠹", "⠸", "⠼", "⠴", "⠦", "⠧", "⠇", "⠏"][..]
    );
}

#[test]
fn frames_of_short_animations() {
    assert_eq!(Spinners::Dqpb.get_frames(), &["d", "q", "p", "b"][..]);
    assert_eq!(Spinners::Star2.get_frames(), &["+", "x", "*"][..]);
    assert_eq!(Spinners::Christmas.get_frames(), &["🌲", "🎄"][..]);
    assert_eq!(Spinners::Toggle.get_frames(), &["⊶", "⊷"][..]);
    assert_eq!(Spinners::Arrow.get_frames(), &["←", "↖", "↑", "↗", "→", "↘", "↓", "↙"][..]);
    assert_eq!(Spinners::SimpleDots.get_frames(), &[".  ", ".. ", "...", "   "][..]);
}

#[test]
fn frames_of_line_hold_an_empty_glyph() {
    assert_eq!(Spinners::Line.get_frames(), &["-", "", "|", "/"][..]);
}

#[test]
fn frames_keep_their_order() {
    let frames = Spinners::Dots8Bit.get_frames();
    assert_eq!(frames.len(), 256);
    assert_eq!(frames[0], "⠀");
    assert_eq!(frames[1], "⠁");
    assert_eq!(frames[255], "⣿");
    let pong = Spinners::Pong.get_frames();
    assert_eq!(pong.len(), 30);
    assert_eq!(pong[0], "▐⠂       ▌");
    assert_eq!(pong[29], "▐⠠       ▌");
}

#[test]
fn default_interval_is_a_second_over_the_frame_count() {
    assert_eq!(Spinners::Dots.interval(), 100);
    assert_eq!(Spinners::Christmas.interval(), 500);
    assert_eq!(Spinners::Star2.interval(), 333);
    assert_eq!(Spinners::Dots5.interval(), 58);
    assert_eq!(Spinners::Dots8Bit.interval(), 3);
    for s in Spinners::list() {
        assert_eq!(s.interval(), 1000 / s.get_frames().len() as u64);
        assert!(s.interval() >= 1);
    }
}

#[test]
fn a_spinner_made_from_its_name_has_the_same_animation() {
    for s in Spinners::list() {
        let sp = Spinner::new(s, "");
        let again = Spinner::from_name(sp.spinner().name(), "").unwrap();
        assert_eq!(again.spinner(), s);
        assert_eq!(again.spinner().get_frames(), s.get_frames());
        assert_eq!(again.get_name(), sp.get_name());
    }
}

#[test]
fn frame_counts_in_catalog_order() {
    let expected: [usize; 81] = [
        10, 8, 10, 14, 17, 24, 24, 29, 8, 7, 8, 256, 8, 8, 6, 15, 10, 2, 4, 5, 12, 3, 92, 8, 2,
        30, 26, 4, 23, 2, 14, 5, 3, 7, 6, 7, 12, 14, 4, 5, 5, 8, 12, 8, 8, 6, 3, 12, 3, 10, 12,
        14, 7, 3, 4, 4, 4, 4, 6, 3, 4, 4, 4, 2, 2, 2, 2, 4, 2, 2, 2, 2, 2, 3, 2, 2, 3, 4, 6, 4, 6,
    ];
    let all = Spinners::list();
    for (s, n) in all.iter().zip(expected.iter()) {
        assert_eq!(s.get_frames().len(), *n, "{:?}", s);
    }
}

#[test]
fn the_whole_table_has_its_checksum() {
    // FNV-1a over every name and glyph, each followed by a zero byte, one
    // line feed after each animation.
    let mut h: u64 = 0xcbf29ce484222325;
    let mut feed = |bytes: &[u8]| {
        for b in bytes {
            h ^= *b as u64;
            h = h.wrapping_mul(0x100000001b3);
        }
    };
    for s in Spinners::list() {
        feed(s.name().as_bytes());
        feed(&[0]);
        for glyph in s.get_frames() {
            feed(glyph.as_bytes());
            feed(&[0]);
        }
        feed(b"\n");
    }
    assert_eq!(h, 0x65bc04621be1ab23);
}
