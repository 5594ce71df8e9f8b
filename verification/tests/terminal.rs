use gpui_libghostty::{
    key_dispatch, key_down, key_up, validate_spawn, KeyAction, KeyDispatch, KeyModifiers,
    Keystroke, TerminalColor, TerminalConfiguration, TerminalOptions, TerminalTheme,
};

fn stroke(key: &str, key_char: Option<&str>, control: bool) -> Keystroke {
    Keystroke {
        key: key.to_string(),
        key_char: key_char.map(|text| text.to_string()),
        modifiers: KeyModifiers { shift: false, control, alt: false, platform: false },
    }
}

#[test]
fn options_focus_the_terminal_on_spawn() {
    let options = TerminalOptions::new("bash".to_string(), "/home".to_string());
    assert_eq!(options.command, "bash");
    assert_eq!(options.working_directory, "/home");
    assert!(options.focus_on_spawn);
    assert!(validate_spawn(&options).is_ok());
}

#[test]
fn nul_bytes_are_refused_before_spawning() {
    let options = TerminalOptions::new("ba\0sh".to_string(), "/ho\0me".to_string());
    assert_eq!(
        validate_spawn(&options).err().unwrap(),
        "terminal working directory contains a NUL byte: /ho\0me"
    );
    let options = TerminalOptions::new("ba\0sh".to_string(), "/home".to_string());
    assert_eq!(validate_spawn(&options).err().unwrap(), "terminal command contains a NUL byte");
}

#[test]
fn coded_keys_become_key_events() {
    match key_down(true, &stroke("j", Some("j"), true)) {
        KeyDispatch::Key(event) => {
            assert_eq!(event.action, KeyAction::Repeat);
            assert_eq!(event.keycode, 38);
            assert_eq!(event.modifiers.bits(), 2);
            assert_eq!(event.consumed_modifiers.bits(), 0);
            assert_eq!(event.text.as_deref(), Some("j"));
            assert_eq!(event.unshifted_codepoint, 'j' as u32);
        }
        _ => panic!("j has a key code"),
    }
    match key_up(&stroke("enter", Some("a\0"), false)) {
        KeyDispatch::Key(event) => {
            assert_eq!(event.action, KeyAction::Release);
            assert_eq!(event.keycode, 36);
            assert_eq!(event.text, None);
            assert_eq!(event.unshifted_codepoint, 'e' as u32);
        }
        _ => panic!("enter has a key code"),
    }
}

#[test]
fn other_keys_are_typed_as_text_when_pressed_plainly() {
    match key_down(false, &stroke("é", Some("é"), false)) {
        KeyDispatch::Text(text) => assert_eq!(text, "é"),
        _ => panic!("plain text is typed"),
    }
    assert!(matches!(
        key_down(false, &stroke("é", Some("é"), true)),
        KeyDispatch::Ignored
    ));
    assert!(matches!(key_up(&stroke("é", Some("é"), false)), KeyDispatch::Ignored));
    assert!(matches!(
        key_dispatch(KeyAction::Press, &stroke("f1", None, false)),
        KeyDispatch::Ignored
    ));
    assert!(matches!(
        key_dispatch(KeyAction::Press, &stroke("ü", Some("\0"), false)),
        KeyDispatch::Ignored
    ));
}

#[test]
fn options_start_from_bare_defaults() {
    let mut options = TerminalOptions::new("bash".to_string(), "/p".to_string());
    assert_eq!(options.configuration, TerminalConfiguration::Default);
    options.configuration = TerminalConfiguration::UserDefault;
    assert_eq!(options.configuration, TerminalConfiguration::UserDefault);
}

#[test]
fn themes_hold_the_supplied_colors() {
    let palette = [TerminalColor::new(1, 2, 3); 16];
    let theme = TerminalTheme::new(
        TerminalColor::new(0x1d, 0x20, 0x21),
        TerminalColor::new(0xd5, 0xc4, 0xa1),
        palette,
    );
    assert_eq!(theme.background, TerminalColor { r: 0x1d, g: 0x20, b: 0x21 });
    assert_eq!(theme.foreground, TerminalColor { r: 0xd5, g: 0xc4, b: 0xa1 });
    assert_eq!(theme.palette, palette);
    let custom = TerminalConfiguration::Custom(theme);
    assert_ne!(custom, TerminalConfiguration::UserDefaultWithOverride(theme));
}
