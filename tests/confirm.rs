use workshop_fetch::confirm::{confirmation_hint, parse_confirmation};

#[test]
fn yes_answers_accept() {
    for a in ["y", "Y", "yes", "YES", "Yes", "yEs"] {
        assert!(parse_confirmation(a, false), "{a}");
    }
}

#[test]
fn no_answers_decline() {
    for a in ["n", "no", "N", "NO", "nO"] {
        assert!(!parse_confirmation(a, true), "{a}");
    }
}

#[test]
fn other_answers_give_default() {
    for a in ["", "maybe", "yess", "ye", "o", "nope", "y y"] {
        assert!(parse_confirmation(a, true), "{a}");
        assert!(!parse_confirmation(a, false), "{a}");
    }
}

#[test]
fn surrounding_white_space_is_ignored() {
    assert!(parse_confirmation("yes\n", false));
    assert!(parse_confirmation("  y\r\n", false));
    assert!(!parse_confirmation("\tno \n", true));
    assert!(!parse_confirmation("\u{3000}n\u{a0}", true));
    assert!(parse_confirmation(" \n ", true));
    assert!(!parse_confirmation(" \n ", false));
}

#[test]
fn hint_shows_default() {
    assert_eq!(confirmation_hint(true), "(Y/n)");
    assert_eq!(confirmation_hint(false), "y/N");
}
