use notty::datatypes::key::{char_key, term_key, tilde_key};
use notty::datatypes::{InputMode, Key, Modifiers};
use std::borrow::Cow;

fn mods(shift: bool, caps: bool, ctrl: bool, alt: bool) -> Modifiers {
    Modifiers { shift, caps, ctrl, alt }
}

fn code(key: Key, mode: InputMode, modifiers: Modifiers) -> Option<String> {
    assert!(key.is_covered(mode));
    key.as_code(mode, modifiers)
}

fn some(text: &str) -> Option<String> {
    Some(String::from(text))
}

/// The rows of the modifier table: shift or caps, ctrl, alt, and the
/// parameter that goes with them.
fn rows() -> Vec<(bool, bool, bool, char)> {
    vec![
        (true, false, false, '2'),
        (false, false, true, '3'),
        (true, false, true, '4'),
        (false, true, false, '5'),
        (true, true, false, '6'),
        (false, true, true, '7'),
        (true, true, true, '8'),
    ]
}

fn arrows() -> Vec<(Key, char)> {
    vec![(Key::Up(true), 'A'), (Key::Down(true), 'B'), (Key::Right(true), 'C'), (Key::Left(true), 'D')]
}

#[test]
fn new_modifiers_hold_nothing() {
    let m = Modifiers::new();
    assert!(!m.shift && !m.caps && !m.ctrl && !m.alt);
    assert_eq!(m.triplet(), (false, false, false));
}

#[test]
fn triplet_folds_caps_into_shift() {
    assert_eq!(mods(true, false, false, false).triplet(), (true, false, false));
    assert_eq!(mods(false, true, false, false).triplet(), (true, false, false));
    assert_eq!(mods(true, true, false, false).triplet(), (true, false, false));
    assert_eq!(mods(false, false, true, false).triplet(), (false, true, false));
    assert_eq!(mods(false, false, false, true).triplet(), (false, false, true));
    assert_eq!(mods(false, true, true, true).triplet(), (true, true, true));
}

#[test]
fn plain_arrows_in_ansi_mode() {
    let m = Modifiers::new();
    assert_eq!(code(Key::Up(true), InputMode::Ansi, m), some("\x1b[A"));
    assert_eq!(code(Key::Down(true), InputMode::Ansi, m), some("\x1b[B"));
    assert_eq!(code(Key::Right(true), InputMode::Ansi, m), some("\x1b[C"));
    assert_eq!(code(Key::Left(true), InputMode::Ansi, m), some("\x1b[D"));
}

#[test]
fn plain_arrows_in_application_mode() {
    let m = Modifiers::new();
    assert_eq!(code(Key::Up(true), InputMode::Application, m), some("\x1bOA"));
    assert_eq!(code(Key::Down(true), InputMode::Application, m), some("\x1bOB"));
    assert_eq!(code(Key::Right(true), InputMode::Application, m), some("\x1bOC"));
    assert_eq!(code(Key::Left(true), InputMode::Application, m), some("\x1bOD"));
}

#[test]
fn modified_arrows_follow_the_table_in_both_modes() {
    for (key, letter) in arrows() {
        for (shift, ctrl, alt, n) in rows() {
            let expected = format!("\x1b[1;{}{}", n, letter);
            for mode in [InputMode::Ansi, InputMode::Application] {
                assert_eq!(code(key.clone(), mode, mods(shift, false, ctrl, alt)), Some(expected.clone()));
                // caps lock alone stands for shift
                assert_eq!(code(key.clone(), mode, mods(false, shift, ctrl, alt)), Some(expected.clone()));
            }
        }
    }
}

#[test]
fn shifted_up_is_exactly_six_bytes() {
    let sent = code(Key::Up(true), InputMode::Ansi, mods(true, false, false, false)).unwrap();
    assert_eq!(sent.as_bytes(), &[0x1b, b'[', b'1', b';', b'2', b'A']);
}

#[test]
fn ctrl_and_alt_with_characters() {
    assert_eq!(code(Key::Char(true, 'A'), InputMode::Ansi, mods(false, false, true, false)), some("\x01"));
    assert_eq!(code(Key::Char(true, '?'), InputMode::Ansi, mods(false, false, true, false)), None);
    assert_eq!(code(Key::Char(true, 'a'), InputMode::Ansi, mods(false, false, false, true)), some("\x1ba"));
    assert_eq!(code(Key::Char(true, 'A'), InputMode::Ansi, mods(false, false, true, true)), some("\x1b\x01"));
}

#[test]
fn ctrl_a_is_one_byte() {
    let sent = code(Key::Char(true, 'A'), InputMode::Application, mods(false, false, true, false)).unwrap();
    assert_eq!(sent.as_bytes(), &[0x01]);
}

#[test]
fn plain_character_is_itself() {
    let m = Modifiers::new();
    assert_eq!(code(Key::Char(true, 'x'), InputMode::Ansi, m), some("x"));
    assert_eq!(code(Key::Char(true, '\u{e9}'), InputMode::Application, m), some("\u{e9}"));
    assert_eq!(code(Key::Char(true, '\u{1F600}'), InputMode::Ansi, m), some("\u{1F600}"));
    // shift and caps do not change what a character sends
    assert_eq!(code(Key::Char(true, 'x'), InputMode::Ansi, mods(true, true, false, false)), some("x"));
}

#[test]
fn alt_prefixes_any_character_with_escape() {
    let alt = mods(false, false, false, true);
    assert_eq!(code(Key::Char(true, '?'), InputMode::Ansi, alt), some("\x1b?"));
    assert_eq!(code(Key::Char(true, '\u{e9}'), InputMode::Ansi, alt), some("\x1b\u{e9}"));
}

#[test]
fn control_range_edges() {
    let ctrl = mods(false, false, true, false);
    let both = mods(false, false, true, true);
    // '@' is the first character with a control code: NUL
    assert_eq!(code(Key::Char(true, '@'), InputMode::Ansi, ctrl), some("\x00"));
    assert_eq!(code(Key::Char(true, '@'), InputMode::Ansi, both), some("\x1b\x00"));
    // '~' is the last
    assert_eq!(code(Key::Char(true, '~'), InputMode::Ansi, ctrl), some("\x1e"));
    assert_eq!(code(Key::Char(true, '~'), InputMode::Ansi, both), some("\x1b\x1e"));
    // DEL lies outside, and so does everything beyond ASCII
    assert_eq!(code(Key::Char(true, '\x7f'), InputMode::Ansi, ctrl), None);
    assert_eq!(code(Key::Char(true, '\x7f'), InputMode::Ansi, both), None);
    assert_eq!(code(Key::Char(true, '\u{e9}'), InputMode::Ansi, ctrl), None);
    assert_eq!(code(Key::Char(true, '\u{140}'), InputMode::Ansi, ctrl), None);
    assert_eq!(code(Key::Char(true, '\x3f'), InputMode::Ansi, both), None);
}

#[test]
fn control_codes_keep_the_low_five_bits() {
    let ctrl = mods(false, false, true, false);
    assert_eq!(code(Key::Char(true, 'a'), InputMode::Ansi, ctrl), some("\x01"));
    assert_eq!(code(Key::Char(true, 'z'), InputMode::Ansi, ctrl), some("\x1a"));
    assert_eq!(code(Key::Char(true, 'Z'), InputMode::Ansi, ctrl), some("\x1a"));
    assert_eq!(code(Key::Char(true, '['), InputMode::Ansi, ctrl), some("\x1b"));
    assert_eq!(code(Key::Char(true, '`'), InputMode::Ansi, ctrl), some("\x00"));
    assert_eq!(code(Key::Char(true, '_'), InputMode::Ansi, ctrl), some("\x1f"));
}

#[test]
fn home_and_end_ignore_the_mode() {
    for mode in [InputMode::Ansi, InputMode::Application] {
        assert_eq!(code(Key::Home(true), mode, Modifiers::new()), some("\x1b[H"));
        assert_eq!(code(Key::End(true), mode, Modifiers::new()), some("\x1b[F"));
        for (shift, ctrl, alt, n) in rows() {
            let m = mods(shift, false, ctrl, alt);
            assert_eq!(code(Key::Home(true), mode, m), Some(format!("\x1b[1;{}H", n)));
            assert_eq!(code(Key::End(true), mode, m), Some(format!("\x1b[1;{}F", n)));
        }
    }
}

#[test]
fn navigation_keys_without_modifiers() {
    for mode in [InputMode::Ansi, InputMode::Application] {
        let m = Modifiers::new();
        assert_eq!(code(Key::PageUp(true), mode, m), some("\x1b[5~"));
        assert_eq!(code(Key::PageDown(true), mode, m), some("\x1b[6~"));
        assert_eq!(code(Key::Insert(true), mode, m), some("\x1b[2~"));
        assert_eq!(code(Key::Delete(true), mode, m), some("\x1b[3~"));
    }
}

#[test]
fn navigation_keys_with_shift() {
    for m in [mods(true, false, false, false), mods(false, true, false, false)] {
        assert_eq!(code(Key::PageUp(true), InputMode::Ansi, m), some("\x1b[5;2~"));
        assert_eq!(code(Key::PageDown(true), InputMode::Ansi, m), some("\x1b[6;2~"));
        assert_eq!(code(Key::Insert(true), InputMode::Ansi, m), some("\x1b[2;2~"));
        assert_eq!(code(Key::Delete(true), InputMode::Ansi, m), some("\x1b[3;2~"));
    }
}

#[test]
fn navigation_keys_follow_the_table() {
    let keys = vec![(Key::Insert(true), '2'), (Key::Delete(true), '3'), (Key::PageUp(true), '5'), (Key::PageDown(true), '6')];
    for (key, digit) in keys {
        for (shift, ctrl, alt, n) in rows() {
            let expected = format!("\x1b[{};{}~", digit, n);
            assert_eq!(code(key.clone(), InputMode::Application, mods(shift, false, ctrl, alt)), Some(expected));
        }
    }
}

#[test]
fn releases_send_nothing() {
    let released = vec![
        Key::Char(false, 'a'),
        Key::Up(false),
        Key::Down(false),
        Key::Left(false),
        Key::Right(false),
        Key::PageUp(false),
        Key::PageDown(false),
        Key::Home(false),
        Key::End(false),
        Key::Insert(false),
        Key::Delete(false),
        Key::MetaLeft(false),
        Key::MetaRight(false),
        Key::Enter(false),
    ];
    for key in released {
        for mode in [InputMode::Ansi, InputMode::Application] {
            assert_eq!(code(key.clone(), mode, Modifiers::new()), None);
            assert_eq!(code(key.clone(), mode, mods(true, false, true, true)), None);
        }
    }
}

#[test]
fn meta_and_confirmation_key_send_nothing() {
    for mode in [InputMode::Ansi, InputMode::Application] {
        assert_eq!(code(Key::MetaLeft(true), mode, Modifiers::new()), None);
        assert_eq!(code(Key::MetaRight(true), mode, Modifiers::new()), None);
        assert_eq!(code(Key::Enter(true), mode, Modifiers::new()), None);
    }
}

#[test]
fn literal_command_is_sent_unchanged() {
    let borrowed = Key::Cmd(Cow::Borrowed("\x1b[200~paste"));
    let owned = Key::Cmd(Cow::Owned(String::from("42")));
    for mode in [InputMode::Ansi, InputMode::Application] {
        assert_eq!(code(borrowed.clone(), mode, Modifiers::new()), some("\x1b[200~paste"));
        assert_eq!(code(borrowed.clone(), mode, mods(true, true, true, true)), some("\x1b[200~paste"));
        assert_eq!(code(owned.clone(), mode, mods(false, false, true, false)), some("42"));
    }
    assert_eq!(code(Key::Cmd(Cow::Borrowed("")), InputMode::Ansi, Modifiers::new()), some(""));
}

#[test]
fn keys_without_a_table_are_not_covered() {
    let bare = vec![
        Key::ShiftLeft(true),
        Key::ShiftRight(false),
        Key::CtrlLeft(true),
        Key::CtrlRight(false),
        Key::AltLeft(true),
        Key::AltRight(false),
        Key::CapsLock(true),
        Key::NumLock(true),
        Key::ScrollLock(false),
        Key::Function(true, 1),
        Key::Function(false, 12),
    ];
    for key in bare {
        assert!(!key.is_covered(InputMode::Ansi));
        assert!(!key.is_covered(InputMode::Application));
        assert!(!key.is_covered(InputMode::Extended));
    }
}

#[test]
fn extended_mode_covers_no_key() {
    let keys = vec![Key::Char(true, 'a'), Key::Up(true), Key::Home(false), Key::MetaLeft(true), Key::Cmd(Cow::Borrowed("x"))];
    for key in keys {
        assert!(key.is_covered(InputMode::Ansi));
        assert!(key.is_covered(InputMode::Application));
        assert!(!key.is_covered(InputMode::Extended));
    }
}

#[test]
fn compatible_code_takes_the_flavor() {
    let m = Modifiers::new();
    assert_eq!(Key::Left(true).compatible_code(m, true), some("\x1b[D"));
    assert_eq!(Key::Left(true).compatible_code(m, false), some("\x1bOD"));
    assert_eq!(Key::End(true).compatible_code(m, false), some("\x1b[F"));
    assert_eq!(Key::Delete(true).compatible_code(m, false), some("\x1b[3~"));
}

#[test]
fn term_key_builds_cursor_sequences() {
    assert_eq!(term_key(Modifiers::new(), 'Q', true), some("\x1b[Q"));
    assert_eq!(term_key(Modifiers::new(), 'Q', false), some("\x1bOQ"));
    assert_eq!(term_key(mods(false, false, true, false), 'Q', false), some("\x1b[1;5Q"));
    assert_eq!(term_key(mods(true, true, true, true), 'H', true), some("\x1b[1;8H"));
}

#[test]
fn tilde_key_builds_tilde_sequences() {
    assert_eq!(tilde_key(Modifiers::new(), '7'), some("\x1b[7~"));
    assert_eq!(tilde_key(mods(false, false, false, true), '7'), some("\x1b[7;3~"));
    assert_eq!(tilde_key(mods(false, true, true, false), '2'), some("\x1b[2;6~"));
}

#[test]
fn char_key_covers_the_four_combinations() {
    assert_eq!(char_key(mods(true, false, false, false), 'q'), some("q"));
    assert_eq!(char_key(mods(false, false, true, false), 'q'), some("\x11"));
    assert_eq!(char_key(mods(false, false, false, true), 'q'), some("\x1bq"));
    assert_eq!(char_key(mods(false, false, true, true), 'q'), some("\x1b\x11"));
    assert_eq!(char_key(mods(false, false, true, false), '1'), None);
    assert_eq!(char_key(mods(false, false, true, true), '1'), None);
}

#[test]
fn key_sequences_are_seven_bit_clean() {
    let keys = vec![
        Key::Up(true),
        Key::Down(true),
        Key::Left(true),
        Key::Right(true),
        Key::Home(true),
        Key::End(true),
        Key::PageUp(true),
        Key::PageDown(true),
        Key::Insert(true),
        Key::Delete(true),
    ];
    for key in keys {
        for (shift, ctrl, alt, _) in rows() {
            for mode in [InputMode::Ansi, InputMode::Application] {
                let sent = code(key.clone(), mode, mods(shift, false, ctrl, alt)).unwrap();
                let bytes = sent.as_bytes();
                assert_eq!(bytes[0], 0x1b);
                assert!(bytes[1..].iter().all(|b| (0x20..0x7f).contains(b)));
            }
        }
    }
}

#[test]
fn cloned_key_equals_its_source() {
    let keys = vec![
        Key::Char(true, 'k'),
        Key::Function(false, 5),
        Key::CapsLock(true),
        Key::Cmd(Cow::Borrowed("lit")),
        Key::Cmd(Cow::Owned(String::from("owned"))),
    ];
    for key in keys {
        assert_eq!(key.clone(), key);
    }
    assert_ne!(Key::Up(true).clone(), Key::Up(false));
}
