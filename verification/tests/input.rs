use scribe_client::input::{
    char_to_control_byte, char_utf8, encode, token_from_key_name, translate_named_special,
    xterm_modifier_param, KeyDownEvent, KeyInput, KeyLocation, KeyState, KeyToken, KeyUpEvent,
    Keystroke, KittyFlags, Modifiers, NamedKey, TerminalMode,
};

fn mods(control: bool, alt: bool, shift: bool) -> Modifiers {
    Modifiers { control, alt, shift, ..Modifiers::default() }
}

fn none() -> Modifiers {
    Modifiers::default()
}

fn typed(c: char, modifiers: Modifiers) -> KeyInput {
    KeyInput {
        token: KeyToken::Char(c),
        base: Some(c.to_ascii_lowercase()),
        text: Some(c.to_string()),
        modifiers,
        location: KeyLocation::Standard,
        state: KeyState::Pressed,
    }
}

fn named(key: NamedKey, modifiers: Modifiers) -> KeyInput {
    KeyInput {
        token: KeyToken::Named(key),
        base: None,
        text: None,
        modifiers,
        location: KeyLocation::Standard,
        state: KeyState::Pressed,
    }
}

fn legacy(input: &KeyInput) -> Option<Vec<u8>> {
    encode(input, TerminalMode::legacy())
}

fn kitty(input: &KeyInput, flags: KittyFlags) -> Option<Vec<u8>> {
    encode(input, TerminalMode { kitty: flags, ..TerminalMode::legacy() })
}

fn bytes(text: &str) -> Option<Vec<u8>> {
    Some(text.as_bytes().to_vec())
}

fn disambiguated() -> KittyFlags {
    KittyFlags::legacy_set().with_disambiguate(true)
}

// ---- legacy ----

#[test]
fn plain_characters_send_their_text() {
    assert_eq!(legacy(&typed('a', none())), bytes("a"));
    assert_eq!(legacy(&typed('A', mods(false, false, true))), bytes("A"));
    assert_eq!(legacy(&typed('ü', none())), bytes("ü"));
    assert_eq!(legacy(&typed('a', mods(false, true, false))), bytes("\x1ba"));
}

#[test]
fn control_sends_control_bytes() {
    assert_eq!(legacy(&typed('c', mods(true, false, false))), Some(vec![3]));
    assert_eq!(legacy(&typed('C', mods(true, false, true))), Some(vec![3]));
    assert_eq!(legacy(&typed('c', mods(true, true, false))), Some(vec![0x1b, 3]));
    assert_eq!(char_to_control_byte('z'), Some(26));
    assert_eq!(char_to_control_byte('A'), Some(1));
    assert_eq!(char_to_control_byte('@'), None);
    assert_eq!(char_to_control_byte('é'), None);
}

#[test]
fn special_keys_send_their_bytes() {
    assert_eq!(legacy(&named(NamedKey::Enter, none())), bytes("\r"));
    assert_eq!(legacy(&named(NamedKey::Enter, mods(false, true, false))), bytes("\x1b\r"));
    assert_eq!(legacy(&named(NamedKey::Tab, none())), bytes("\t"));
    assert_eq!(legacy(&named(NamedKey::Tab, mods(false, false, true))), bytes("\x1b[Z"));
    assert_eq!(legacy(&named(NamedKey::Escape, none())), bytes("\x1b"));
    assert_eq!(legacy(&named(NamedKey::Space, mods(true, false, false))), Some(vec![0]));
    let backspace = |m| legacy(&named(NamedKey::Backspace, m));
    assert_eq!(backspace(none()), Some(vec![0x7f]));
    assert_eq!(backspace(mods(true, false, false)), Some(vec![8]));
    assert_eq!(backspace(mods(false, true, false)), Some(vec![0x1b, 0x7f]));
    assert_eq!(backspace(mods(true, true, false)), Some(vec![0x1b, 8]));
}

#[test]
fn cursor_keys_follow_the_cursor_mode() {
    let up = named(NamedKey::ArrowUp, none());
    assert_eq!(legacy(&up), bytes("\x1b[A"));
    let app = TerminalMode { app_cursor: true, ..TerminalMode::legacy() };
    assert_eq!(encode(&up, app), bytes("\x1bOA"));
    let chord = named(NamedKey::ArrowUp, mods(true, false, true));
    assert_eq!(encode(&chord, app), bytes("\x1b[1;6A"));
    assert_eq!(legacy(&named(NamedKey::Delete, none())), bytes("\x1b[3~"));
    assert_eq!(legacy(&named(NamedKey::PageUp, mods(true, false, false))), bytes("\x1b[5;5~"));
}

#[test]
fn function_keys_send_their_codes() {
    assert_eq!(legacy(&named(NamedKey::F1, none())), bytes("\x1bOP"));
    assert_eq!(legacy(&named(NamedKey::F1, mods(false, false, true))), bytes("\x1b[1;2P"));
    assert_eq!(legacy(&named(NamedKey::F5, none())), bytes("\x1b[15~"));
    assert_eq!(legacy(&named(NamedKey::F12, mods(false, true, false))), bytes("\x1b[24;3~"));
}

#[test]
fn the_keypad_follows_the_keypad_mode() {
    let mode = TerminalMode { app_keypad: true, ..TerminalMode::legacy() };
    let five = KeyInput { location: KeyLocation::Numpad, ..typed('5', none()) };
    assert_eq!(encode(&five, mode), bytes("\x1bOu"));
    assert_eq!(legacy(&five), bytes("5"));
    assert_eq!(encode(&typed('5', none()), mode), bytes("5"));
    let chord = KeyInput { location: KeyLocation::Numpad, ..typed('5', mods(false, true, false)) };
    assert_eq!(encode(&chord, mode), bytes("\x1b5"));
}

#[test]
fn releases_send_nothing() {
    let up = KeyInput { state: KeyState::Released, ..typed('a', none()) };
    assert_eq!(legacy(&up), None);
    assert_eq!(kitty(&up, disambiguated()), None);
    let held = KeyInput { state: KeyState::Repeat, ..typed('a', none()) };
    assert_eq!(legacy(&held), bytes("a"));
}

// ---- Kitty ----

#[test]
fn disambiguation_keeps_tab_and_control_i_apart() {
    let chord = typed('i', mods(true, false, false));
    assert_eq!(kitty(&chord, disambiguated()), bytes("\x1b[105;5u"));
    assert_eq!(kitty(&named(NamedKey::Tab, none()), disambiguated()), bytes("\x1b[9u"));
    assert_eq!(kitty(&named(NamedKey::Space, none()), disambiguated()), bytes(" "));
    assert_eq!(legacy(&chord), legacy(&named(NamedKey::Tab, none())));
}

#[test]
fn disambiguation_leaves_plain_text_alone() {
    assert_eq!(kitty(&typed('a', none()), disambiguated()), bytes("a"));
    assert_eq!(kitty(&typed('A', mods(false, false, true)), disambiguated()), bytes("A"));
}

#[test]
fn event_types_are_reported() {
    let flags = disambiguated().with_report_event_types(true).with_report_all_keys(true);
    let up = KeyInput { state: KeyState::Released, ..typed('a', none()) };
    assert_eq!(kitty(&up, flags), bytes("\x1b[97;1:3u"));
    let held = KeyInput { state: KeyState::Repeat, ..typed('a', none()) };
    assert_eq!(kitty(&held, flags), bytes("\x1b[97;1:2u"));
}

#[test]
fn alternates_are_reported() {
    let flags = disambiguated().with_report_alternate_keys(true);
    assert_eq!(kitty(&typed('A', mods(false, false, true)), flags), bytes("\x1b[97:65;2u"));
}

#[test]
fn associated_text_is_reported_without_controls() {
    let flags = KittyFlags::legacy_set().with_report_all_keys(true).with_report_associated_text(true);
    let mut shifted = typed('A', mods(false, false, true));
    shifted.text = Some("A\u{7}".into());
    assert_eq!(kitty(&shifted, flags), bytes("\x1b[97;2;65u"));
}

#[test]
fn every_key_can_be_reported() {
    let flags = KittyFlags::legacy_set().with_report_all_keys(true);
    assert_eq!(kitty(&named(NamedKey::Enter, none()), flags), bytes("\x1b[13u"));
    let mut right = named(NamedKey::Shift, none());
    right.location = KeyLocation::Right;
    assert_eq!(kitty(&right, flags), bytes("\x1b[57447u"));
}

#[test]
fn flags_are_read_back() {
    let flags = disambiguated();
    assert!(flags.disambiguate() && flags.is_any() && !flags.legacy());
    assert!(!flags.report_event_types() && !flags.report_all_keys());
    assert!(!flags.report_alternate_keys() && !flags.report_associated_text());
    assert!(flags.with_disambiguate(false).disambiguate());
    assert!(KittyFlags::default().legacy());
}

// ---- events ----

fn stroke(key: &str, key_char: Option<&str>, modifiers: Modifiers) -> Keystroke {
    Keystroke { modifiers, key: key.into(), key_char: key_char.map(|c| c.to_owned()) }
}

#[test]
fn key_names_are_known() {
    assert_eq!(token_from_key_name("enter"), Some(KeyToken::Named(NamedKey::Enter)));
    assert_eq!(token_from_key_name("cmd"), Some(KeyToken::Named(NamedKey::Super)));
    assert_eq!(token_from_key_name("f20"), Some(KeyToken::Named(NamedKey::F20)));
    assert_eq!(token_from_key_name("ü"), Some(KeyToken::Char('ü')));
    assert_eq!(token_from_key_name("f21"), None);
    assert_eq!(token_from_key_name(""), None);
}

#[test]
fn events_become_inputs() {
    let event = KeyDownEvent {
        keystroke: stroke("a", Some("A"), mods(false, false, true)),
        is_held: false,
    };
    let input = KeyInput::from_key_down(&event).unwrap();
    assert_eq!(input.token, KeyToken::Char('A'));
    assert_eq!(input.base, Some('a'));
    assert_eq!(input.text.as_deref(), Some("A"));
    assert!(input.is_down() && !input.is_repeat());
    let held = KeyDownEvent { keystroke: stroke("up", None, none()), is_held: true };
    let input = KeyInput::from_key_down(&held).unwrap();
    assert_eq!(input.token, KeyToken::Named(NamedKey::ArrowUp));
    assert!(input.is_down() && input.is_repeat());
    let up = KeyUpEvent { keystroke: stroke("a", None, none()) };
    assert!(!KeyInput::from_key_up(&up).unwrap().is_down());
    let odd = KeyUpEvent { keystroke: stroke("volumeup", None, none()) };
    assert!(KeyInput::from_key_up(&odd).is_none());
}

#[test]
fn modifiers_are_counted() {
    assert_eq!(xterm_modifier_param(none()), None);
    assert_eq!(xterm_modifier_param(mods(false, false, true)), Some(2));
    assert_eq!(xterm_modifier_param(mods(true, true, true)), Some(8));
    let platform = Modifiers { platform: true, ..none() };
    assert_eq!(xterm_modifier_param(platform), None);
    assert_eq!(legacy(&typed('a', platform)), None);
}

#[test]
fn characters_are_encoded_as_std_does() {
    for c in ['a', 'ß', '€', '😀', '\u{10ffff}'] {
        assert_eq!(char_utf8(c), c.to_string().into_bytes());
    }
}

#[test]
fn alt_puts_an_escape_before_special_keys() {
    for key in [NamedKey::Backspace, NamedKey::Enter] {
        for (control, shift) in [(false, false), (true, false), (false, true), (true, true)] {
            let plain = legacy(&named(key, mods(control, false, shift))).unwrap();
            let alt = legacy(&named(key, mods(control, true, shift))).unwrap();
            assert_eq!(alt, [vec![0x1b], plain].concat());
        }
    }
}

#[test]
fn special_keys_are_translated_alone() {
    let bytes = |key, modifiers| translate_named_special(key, modifiers);
    assert_eq!(bytes(NamedKey::Backspace, none()), Some(vec![0x7f]));
    assert_eq!(bytes(NamedKey::Backspace, mods(true, false, false)), Some(vec![0x08]));
    assert_eq!(bytes(NamedKey::Backspace, mods(true, true, false)), Some(vec![0x1b, 0x08]));
    assert_eq!(bytes(NamedKey::Enter, mods(false, true, false)), Some(vec![0x1b, 0x0d]));
    assert_eq!(bytes(NamedKey::Escape, none()), Some(vec![0x1b]));
    assert_eq!(bytes(NamedKey::ArrowUp, none()), None);
}

#[test]
fn legacy_states_are_one_state() {
    assert_eq!(KittyFlags::default(), KittyFlags::legacy_set());
    assert_eq!(TerminalMode::default(), TerminalMode::legacy());
    assert_ne!(disambiguated(), KittyFlags::legacy_set());
    let keypad = TerminalMode { app_keypad: true, ..TerminalMode::legacy() };
    assert_ne!(keypad, TerminalMode::legacy());
}
