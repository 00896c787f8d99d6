use tui_runtime::action::Action;
use tui_runtime::config::parse_key_event;
use tui_runtime::config::KeyMap;
use tui_runtime::keys::KeyCode;
use tui_runtime::keys::KeyEvent;
use tui_runtime::keys::KeyMods;

fn mods(ctrl: bool, alt: bool, shift: bool) -> KeyMods {
    KeyMods { ctrl, alt, shift }
}

#[test]
fn test_simple_keys() {
    assert_eq!(
        parse_key_event("a").unwrap(),
        KeyEvent::new(KeyCode::Char('a'), KeyMods::empty())
    );

    assert_eq!(
        parse_key_event("enter").unwrap(),
        KeyEvent::new(KeyCode::Enter, KeyMods::empty())
    );

    assert_eq!(
        parse_key_event("esc").unwrap(),
        KeyEvent::new(KeyCode::Esc, KeyMods::empty())
    );
}

#[test]
fn test_with_modifiers() {
    assert_eq!(
        parse_key_event("ctrl-a").unwrap(),
        KeyEvent::new(KeyCode::Char('a'), mods(true, false, false))
    );

    assert_eq!(
        parse_key_event("alt-enter").unwrap(),
        KeyEvent::new(KeyCode::Enter, mods(false, true, false))
    );

    assert_eq!(
        parse_key_event("shift-esc").unwrap(),
        KeyEvent::new(KeyCode::Esc, mods(false, false, true))
    );
}

#[test]
fn test_multiple_modifiers() {
    assert_eq!(
        parse_key_event("ctrl-alt-a").unwrap(),
        KeyEvent::new(KeyCode::Char('a'), mods(true, true, false))
    );

    assert_eq!(
        parse_key_event("ctrl-shift-enter").unwrap(),
        KeyEvent::new(KeyCode::Enter, mods(true, false, true))
    );
}

#[test]
fn test_invalid_keys() {
    assert!(parse_key_event("invalid-key").is_err());
    assert!(parse_key_event("ctrl-invalid-key").is_err());
}

#[test]
fn test_case_insensitivity() {
    assert_eq!(
        parse_key_event("CTRL-a").unwrap(),
        KeyEvent::new(KeyCode::Char('a'), mods(true, false, false))
    );

    assert_eq!(
        parse_key_event("AlT-eNtEr").unwrap(),
        KeyEvent::new(KeyCode::Enter, mods(false, true, false))
    );
}

#[test]
fn test_unknown_word_rejected() {
    assert!(parse_key_event("foo").is_err());
    assert!(parse_key_event("").is_err());
    assert!(parse_key_event("ctrl-").is_err());
}

#[test]
fn test_named_keys() {
    assert_eq!(
        parse_key_event("f10").unwrap(),
        KeyEvent::new(KeyCode::F(10), KeyMods::empty())
    );
    assert_eq!(
        parse_key_event("space").unwrap(),
        KeyEvent::new(KeyCode::Char(' '), KeyMods::empty())
    );
    assert_eq!(
        parse_key_event("minus").unwrap(),
        KeyEvent::new(KeyCode::Char('-'), KeyMods::empty())
    );
    // backtab carries an implicit shift
    assert_eq!(
        parse_key_event("backtab").unwrap(),
        KeyEvent::new(KeyCode::BackTab, mods(false, false, true))
    );
}

#[test]
fn test_shift_uppercases_bare_character() {
    assert_eq!(
        parse_key_event("shift-a").unwrap(),
        KeyEvent::new(KeyCode::Char('A'), mods(false, false, true))
    );
    // a named key is not uppercased by shift
    assert_eq!(
        parse_key_event("shift-space").unwrap(),
        KeyEvent::new(KeyCode::Char(' '), mods(false, false, true))
    );
}

#[test]
fn test_keymap_insert_and_get() {
    let mut km = KeyMap::new();
    let q = KeyEvent::new(KeyCode::Char('q'), KeyMods::empty());
    let j = KeyEvent::new(KeyCode::Char('j'), KeyMods::empty());
    assert_eq!(km.get(&q), None);
    km.insert(q, Action::Quit);
    km.insert(j, Action::ScheduleIncrement);
    assert_eq!(km.get(&q), Some(Action::Quit));
    assert_eq!(km.get(&j), Some(Action::ScheduleIncrement));
    // a later binding of the same key wins
    km.insert(q, Action::Suspend);
    assert_eq!(km.get(&q), Some(Action::Suspend));
    let other = KeyEvent::new(KeyCode::Esc, KeyMods::empty());
    assert_eq!(km.get(&other), None);
}
