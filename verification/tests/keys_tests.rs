use sdl2xinput::keys::{get_key_code, get_mouse_button, str_eq, Action};

#[test]
fn key_codes_of_letters_digits_and_named_keys() {
    assert_eq!(get_key_code("a"), Some(0x04));
    assert_eq!(get_key_code("z"), Some(0x1D));
    assert_eq!(get_key_code("1"), Some(0x1E));
    assert_eq!(get_key_code("0"), Some(0x27));
    assert_eq!(get_key_code("enter"), Some(0x28));
    assert_eq!(get_key_code("escape"), Some(0x29));
    assert_eq!(get_key_code("space"), Some(0x2C));
    assert_eq!(get_key_code("semicolon"), Some(0x33));
    assert_eq!(get_key_code("f1"), Some(0x3A));
    assert_eq!(get_key_code("f12"), Some(0x45));
    assert_eq!(get_key_code("pagedown"), Some(0x4E));
    assert_eq!(get_key_code("up"), Some(0x52));
    assert_eq!(get_key_code("numlock"), Some(0x53));
    assert_eq!(get_key_code("mute"), Some(0x7F));
    assert_eq!(get_key_code("volumeup"), Some(0x80));
    assert_eq!(get_key_code("volumedown"), Some(0x81));
}

#[test]
fn key_names_ignore_spaces_and_underscores() {
    assert_eq!(get_key_code("page_up"), Some(0x4B));
    assert_eq!(get_key_code("page up"), Some(0x4B));
    assert_eq!(get_key_code("left_brace"), Some(0x2F));
    assert_eq!(get_key_code("_ caps _ lock _"), Some(0x39));
    assert_eq!(get_key_code("print screen"), Some(0x46));
}

#[test]
fn unknown_or_upper_case_key_names_are_not_found() {
    assert_eq!(get_key_code(""), None);
    assert_eq!(get_key_code("f13"), None);
    assert_eq!(get_key_code("A"), None);
    assert_eq!(get_key_code("\ta"), None);
    assert_eq!(get_key_code("mouseleft"), None);
}

#[test]
fn mouse_button_names_and_aliases() {
    assert_eq!(get_mouse_button("mouseleft"), Some(0x01));
    assert_eq!(get_mouse_button("leftclick"), Some(0x01));
    assert_eq!(get_mouse_button("mouse_left"), Some(0x01));
    assert_eq!(get_mouse_button("left click"), Some(0x01));
    assert_eq!(get_mouse_button("mouseright"), Some(0x02));
    assert_eq!(get_mouse_button("right_click"), Some(0x02));
    assert_eq!(get_mouse_button("mousemiddle"), Some(0x04));
    assert_eq!(get_mouse_button("middleclick"), Some(0x04));
    assert_eq!(get_mouse_button("mouse back"), Some(0x08));
    assert_eq!(get_mouse_button("mouse_forward"), Some(0x10));
    assert_eq!(get_mouse_button("backclick"), None);
    assert_eq!(get_mouse_button("a"), None);
}

#[test]
fn parse_trims_and_lowercases() {
    // Fails if the trimming were skipped: a tab is no separator.
    assert_eq!(Action::parse("\ta\n"), Action::Keyboard(0x04));
    // Fails if the lower-casing were skipped.
    assert_eq!(Action::parse("MouseLeft"), Action::Mouse(0x01));
    assert_eq!(Action::parse("  MouseRight "), Action::Mouse(0x02));
    assert_eq!(Action::parse("Page_Up"), Action::Keyboard(0x4B));
    assert_eq!(Action::parse("F5"), Action::Keyboard(0x3E));
}

#[test]
fn parse_blank_none_and_unknown_give_no_action() {
    assert_eq!(Action::parse(""), Action::NoAction);
    assert_eq!(Action::parse("   "), Action::NoAction);
    assert_eq!(Action::parse("none"), Action::NoAction);
    assert_eq!(Action::parse(" NONE "), Action::NoAction);
    assert_eq!(Action::parse("no such key"), Action::NoAction);
}

#[test]
fn parse_uses_unicode_lower_casing() {
    // U+212A KELVIN SIGN lower-cases to the ASCII letter k.
    assert_eq!(Action::parse("\u{212A}"), Action::Keyboard(0x0E));
}

#[test]
fn from_normalized_takes_the_name_as_given() {
    assert_eq!(Action::from_normalized("mouseleft"), Action::Mouse(0x01));
    assert_eq!(Action::from_normalized("MouseLeft"), Action::NoAction);
    assert_eq!(Action::from_normalized("none"), Action::NoAction);
    assert_eq!(Action::from_normalized(""), Action::NoAction);
    assert_eq!(Action::from_normalized("enter"), Action::Keyboard(0x28));
}

#[test]
fn str_eq_compares_characters() {
    assert!(str_eq("abc", "abc"));
    assert!(!str_eq("abc", "abd"));
    assert!(!str_eq("abc", "ab"));
    assert!(str_eq("", ""));
}

#[test]
fn parse_trims_unicode_white_space() {
    for ws in ["\u{9}", "\u{b}", "\u{c}", "\r", "\u{85}", "\u{a0}", "\u{1680}", "\u{2000}", "\u{200a}", "\u{2028}", "\u{2029}", "\u{202f}", "\u{205f}", "\u{3000}"] {
        let name = format!("{}A{}", ws, ws);
        assert_eq!(Action::parse(&name), Action::Keyboard(0x04), "whitespace {:?}", ws);
    }
    // U+200B ZERO WIDTH SPACE and U+180E are not White_Space.
    assert_eq!(Action::parse("\u{200b}a"), Action::NoAction);
    assert_eq!(Action::parse("\u{180e}a"), Action::NoAction);
}

#[test]
fn unknown_names_are_reported() {
    assert!(Action::is_unknown_name("no such key"));
    assert!(Action::is_unknown_name("f13"));
    assert!(!Action::is_unknown_name(""));
    assert!(!Action::is_unknown_name("  "));
    assert!(!Action::is_unknown_name(" None "));
    assert!(!Action::is_unknown_name("MouseLeft"));
    assert!(!Action::is_unknown_name("Page_Up"));
}

#[test]
fn mouse_names_are_not_key_names() {
    for name in ["mouseleft", "leftclick", "mouseright", "rightclick", "mousemiddle", "middleclick", "mouseback", "mouseforward"] {
        assert!(get_mouse_button(name).is_some());
        assert_eq!(get_key_code(name), None);
    }
}

#[test]
fn parsing_a_normalized_name_again_changes_nothing() {
    for name in [" Page_Up ", "\tMouseLeft", "F5", "NONE", " Left Click ", "bogus"] {
        let n = name.trim().to_lowercase();
        assert_eq!(Action::parse(&n), Action::parse(name));
    }
}
