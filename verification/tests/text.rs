use spinners_rs::text::{
    capitalized, compose_final_line, compose_frame_line, str_eq, to_ascii_upper,
};

#[test]
fn str_eq_compares_the_characters() {
    assert!(str_eq("", ""));
    assert!(str_eq("dots", "dots"));
    assert!(!str_eq("dots", "dots2"));
    assert!(!str_eq("dots2", "dots"));
    assert!(!str_eq("dots2", "dots3"));
    assert!(!str_eq("Dots", "dots"));
    assert!(!str_eq("", "a"));
    assert!(str_eq("⠋⠙", "⠋⠙"));
    assert!(!str_eq("⠋⠙", "⠋⠹"));
    assert!(!str_eq("é", "e"));
}

#[test]
fn to_ascii_upper_maps_the_ascii_letters() {
    assert_eq!(to_ascii_upper('a'), 'A');
    assert_eq!(to_ascii_upper('m'), 'M');
    assert_eq!(to_ascii_upper('z'), 'Z');
    assert_eq!(to_ascii_upper('A'), 'A');
    assert_eq!(to_ascii_upper('Z'), 'Z');
    assert_eq!(to_ascii_upper('0'), '0');
    assert_eq!(to_ascii_upper('`'), '`');
    assert_eq!(to_ascii_upper('{'), '{');
    assert_eq!(to_ascii_upper('é'), 'é');
    assert_eq!(to_ascii_upper('⠋'), '⠋');
    for c in 'a'..='z' {
        assert_eq!(to_ascii_upper(c), c.to_ascii_uppercase());
    }
}

#[test]
fn capitalized_touches_the_first_character_only() {
    assert_eq!(capitalized("dots"), "Dots");
    assert_eq!(capitalized("bouncingBall"), "BouncingBall");
    assert_eq!(capitalized("Dots"), "Dots");
    assert_eq!(capitalized("d"), "D");
    assert_eq!(capitalized(""), "");
    assert_eq!(capitalized("8bit"), "8bit");
    assert_eq!(capitalized("aaa"), "Aaa");
    assert_eq!(capitalized("⠋dots"), "⠋dots");
    assert_eq!(capitalized("a⠋b"), "A⠋b");
}

#[test]
fn a_frame_line_is_return_glyph_space_message() {
    assert_eq!(compose_frame_line("⠋", "Loading"), "\r⠋ Loading");
    assert_eq!(compose_frame_line("", ""), "\r ");
    assert_eq!(compose_frame_line("✔", "Loading"), "\r✔ Loading");
    assert_eq!(compose_frame_line("a b", " c"), "\ra b  c");
}

#[test]
fn a_final_line_is_return_and_text() {
    assert_eq!(compose_final_line("done"), "\rdone");
    assert_eq!(compose_final_line(""), "\r");
    assert_eq!(compose_final_line("✔ ok"), "\r✔ ok");
}
