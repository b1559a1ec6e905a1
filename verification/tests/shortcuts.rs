//! Tests of the shortcut grammar and the binding transaction.

use openvoice::shortcut::{
    default_chord, parse_or_default, parse_shortcut, Key, Modifiers, Shortcut, ShortcutError,
    ShortcutManager, DEFAULT_SHORTCUT,
};

fn mods(control: bool, shift: bool, alt: bool, meta: bool) -> Modifiers {
    Modifiers { control, shift, alt, meta }
}

#[test]
fn ctrl_shift_v_parses_to_control_shift_and_v() {
    let parsed = parse_shortcut("Ctrl+Shift+V").unwrap();
    assert_eq!(parsed, Shortcut { modifiers: mods(true, true, false, false), key: Key::V });
}

#[test]
fn escape_parses_to_bare_escape() {
    let parsed = parse_shortcut("Escape").unwrap();
    assert_eq!(parsed, Shortcut { modifiers: mods(false, false, false, false), key: Key::Escape });
}

#[test]
fn trailing_empty_token_fails() {
    assert_eq!(parse_shortcut("Ctrl+"), Err(ShortcutError::InvalidShortcut));
}

#[test]
fn unknown_token_fails() {
    assert_eq!(parse_shortcut("Ctrl+Shift+Banana"), Err(ShortcutError::InvalidShortcut));
}

#[test]
fn parsing_is_case_insensitive_and_trims() {
    let parsed = parse_shortcut(" ctrl + shift + v ").unwrap();
    assert_eq!(parsed, Shortcut { modifiers: mods(true, true, false, false), key: Key::V });
}

#[test]
fn modifier_aliases_are_recognized() {
    let parsed = parse_shortcut("Cmd+Return").unwrap();
    assert_eq!(parsed, Shortcut { modifiers: mods(false, false, false, true), key: Key::Enter });
    let parsed = parse_shortcut("Control+Alt+Del").unwrap();
    assert_eq!(parsed, Shortcut { modifiers: mods(true, false, true, false), key: Key::Delete });
    let parsed = parse_shortcut("Super+ArrowUp").unwrap();
    assert_eq!(parsed, Shortcut { modifiers: mods(false, false, false, true), key: Key::Up });
}

#[test]
fn digits_and_function_keys_parse() {
    let parsed = parse_shortcut("Alt+7").unwrap();
    assert_eq!(parsed, Shortcut { modifiers: mods(false, false, true, false), key: Key::Digit7 });
    let parsed = parse_shortcut("F11").unwrap();
    assert_eq!(parsed, Shortcut { modifiers: mods(false, false, false, false), key: Key::F11 });
}

#[test]
fn a_modifier_alone_has_no_key_and_fails() {
    assert_eq!(parse_shortcut("Ctrl"), Err(ShortcutError::InvalidShortcut));
    assert_eq!(parse_shortcut(""), Err(ShortcutError::InvalidShortcut));
}

#[test]
fn the_last_key_token_wins() {
    let parsed = parse_shortcut("Ctrl+A+B").unwrap();
    assert_eq!(parsed, Shortcut { modifiers: mods(true, false, false, false), key: Key::B });
}

#[test]
fn the_default_shortcut_parses_to_the_default_chord() {
    assert_eq!(parse_shortcut(DEFAULT_SHORTCUT).unwrap(), default_chord());
    assert_eq!(parse_or_default("Banana"), default_chord());
    assert_eq!(
        parse_or_default("Alt+X"),
        Shortcut { modifiers: mods(false, false, true, false), key: Key::X }
    );
}

#[test]
fn rebind_replaces_the_binding_only_after_registration() {
    let mut mgr = ShortcutManager::new();
    assert!(mgr.current().is_none());
    mgr.install(default_chord(), DEFAULT_SHORTCUT.to_string());
    assert!(mgr.current().is_some());

    // A specification that does not parse leaves the binding alone.
    let err = mgr.begin_rebind("Nope+").unwrap_err();
    assert_eq!(err, ShortcutError::InvalidShortcut);
    assert!(mgr.current().is_some());

    // A good specification clears the stored binding for the swap window.
    let (chord, taken) = mgr.begin_rebind("Alt+F4").unwrap();
    assert_eq!(chord, Shortcut { modifiers: mods(false, false, true, false), key: Key::F4 });
    assert_eq!(taken.unwrap().raw, DEFAULT_SHORTCUT);
    assert!(mgr.current().is_none());

    // Failed registration leaves the stored reference cleared.
    let err = mgr.commit_rebind(chord, "Alt+F4".to_string(), false).unwrap_err();
    assert_eq!(err, ShortcutError::RegistrationFailed);
    assert!(mgr.current().is_none());

    // Successful registration stores the new binding.
    mgr.commit_rebind(chord, "Alt+F4".to_string(), true).unwrap();
    let current = mgr.current().as_ref().unwrap();
    assert_eq!(current.raw, "Alt+F4");
    assert_eq!(current.chord, chord);
}
