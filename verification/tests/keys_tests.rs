use typewriter::keys::{
    is_controlled, is_shifted, shifted_symbol, to_lower, to_upper, translate, type_char, Command,
    Key, KeyAction, KeyPress, LEFT_CTRL, LEFT_SHIFT, RIGHT_CTRL, RIGHT_SHIFT,
};

fn key_named(key: Key, name: &str, mods: u16, repeat: bool) -> KeyPress {
    KeyPress { key, name: name.chars().collect(), mods, repeat }
}

#[test]
fn plain_letter_is_lower_case() {
    assert_eq!(translate(&key_named(Key::Other, "A", 0, false)), KeyAction::Emit('a'));
    assert_eq!(translate(&key_named(Key::S, "S", 0, false)), KeyAction::Emit('s'));
    assert_eq!(translate(&key_named(Key::Other, "7", 0, false)), KeyAction::Emit('7'));
    assert_eq!(translate(&key_named(Key::Other, ";", 0, false)), KeyAction::Emit(';'));
}

#[test]
fn every_plain_ascii_key_types_its_lower_case() {
    for b in 0u8..128 {
        let c = b as char;
        let press = KeyPress { key: Key::Other, name: vec![c], mods: 0, repeat: false };
        assert_eq!(translate(&press), KeyAction::Emit(c.to_ascii_lowercase()));
        let press = KeyPress { key: Key::Other, name: vec![c], mods: RIGHT_SHIFT, repeat: false };
        let lower = c.to_ascii_lowercase();
        let want = match shifted_symbol(lower) {
            Some(s) => s,
            None => lower.to_ascii_uppercase(),
        };
        assert_eq!(translate(&press), KeyAction::Emit(want));
    }
}

#[test]
fn shifted_one_is_exclamation_mark() {
    assert_eq!(translate(&key_named(Key::Other, "1", LEFT_SHIFT, false)), KeyAction::Emit('!'));
    assert_eq!(translate(&key_named(Key::Other, "1", RIGHT_SHIFT, false)), KeyAction::Emit('!'));
}

#[test]
fn shift_map_is_complete() {
    let pairs = [
        ('1', '!'), ('2', '@'), ('3', '#'), ('4', '$'), ('5', '%'), ('6', '^'), ('7', '&'),
        ('8', '*'), ('9', '('), ('0', ')'), ('-', '_'), ('=', '+'), ('[', '{'), (']', '}'),
        ('\\', '|'), (';', ':'), ('\'', '"'), (',', '<'), ('.', '>'), ('/', '?'), ('`', '~'),
    ];
    for (plain, shifted) in pairs {
        assert_eq!(shifted_symbol(plain), Some(shifted));
        assert_eq!(type_char(plain, true), shifted);
        assert_eq!(type_char(plain, false), plain);
    }
    assert_eq!(shifted_symbol('a'), None);
    assert_eq!(shifted_symbol('!'), None);
}

#[test]
fn shifted_letter_is_upper_case() {
    assert_eq!(translate(&key_named(Key::Other, "A", LEFT_SHIFT, false)), KeyAction::Emit('A'));
    assert_eq!(translate(&key_named(Key::Q, "Q", RIGHT_SHIFT, false)), KeyAction::Emit('Q'));
    assert_eq!(type_char('z', true), 'Z');
    assert_eq!(type_char('Z', false), 'z');
}

#[test]
fn case_of_letters_only() {
    assert_eq!(to_lower('A'), 'a');
    assert_eq!(to_lower('Z'), 'z');
    assert_eq!(to_lower('@'), '@');
    assert_eq!(to_lower('['), '[');
    assert_eq!(to_upper('a'), 'A');
    assert_eq!(to_upper('z'), 'Z');
    assert_eq!(to_upper('`'), '`');
    assert_eq!(to_upper('{'), '{');
}

#[test]
fn modifier_bits() {
    assert!(!is_shifted(0));
    assert!(is_shifted(LEFT_SHIFT));
    assert!(is_shifted(RIGHT_SHIFT | 0x1000));
    assert!(!is_shifted(LEFT_CTRL | RIGHT_CTRL | 0x0004));
    assert!(!is_controlled(0));
    assert!(is_controlled(LEFT_CTRL));
    assert!(is_controlled(RIGHT_CTRL | LEFT_SHIFT));
    assert!(!is_controlled(LEFT_SHIFT | RIGHT_SHIFT | 0x0100));
}

#[test]
fn control_keys_are_commands() {
    assert_eq!(
        translate(&key_named(Key::S, "S", LEFT_CTRL, false)),
        KeyAction::Command(Command::Save)
    );
    assert_eq!(
        translate(&key_named(Key::O, "O", RIGHT_CTRL, false)),
        KeyAction::Command(Command::OpenNew)
    );
    assert_eq!(
        translate(&key_named(Key::Q, "Q", LEFT_CTRL, false)),
        KeyAction::Command(Command::QuitAndSave)
    );
    assert_eq!(
        translate(&key_named(Key::Q, "Q", LEFT_CTRL | LEFT_SHIFT, false)),
        KeyAction::Command(Command::QuitDiscard)
    );
    assert_eq!(
        translate(&key_named(Key::S, "S", LEFT_CTRL | LEFT_SHIFT, false)),
        KeyAction::Command(Command::Save)
    );
}

#[test]
fn control_with_another_key_types_it() {
    assert_eq!(translate(&key_named(Key::Other, "A", LEFT_CTRL, false)), KeyAction::Emit('a'));
}

#[test]
fn commands_ignore_the_repeat_flag() {
    assert_eq!(
        translate(&key_named(Key::S, "S", LEFT_CTRL, true)),
        KeyAction::Command(Command::Save)
    );
}

#[test]
fn repeat_types_nothing() {
    assert_eq!(translate(&key_named(Key::Other, "A", 0, true)), KeyAction::Nothing);
    assert_eq!(translate(&key_named(Key::S, "S", LEFT_SHIFT, true)), KeyAction::Nothing);
}

#[test]
fn edits_ignore_the_repeat_flag() {
    for repeat in [false, true] {
        assert_eq!(
            translate(&key_named(Key::Backspace, "Backspace", 0, repeat)),
            KeyAction::Backspace
        );
        assert_eq!(translate(&key_named(Key::Return, "Return", 0, repeat)), KeyAction::Newline);
        assert_eq!(translate(&key_named(Key::Space, "Space", 0, repeat)), KeyAction::Space);
    }
    assert_eq!(translate(&key_named(Key::Underscore, "_", 0, true)), KeyAction::Underscore);
    assert_eq!(translate(&key_named(Key::Underscore, "_", 0, false)), KeyAction::Emit('_'));
}

#[test]
fn other_keys_do_nothing() {
    assert_eq!(translate(&key_named(Key::Other, "Escape", 0, false)), KeyAction::Nothing);
    assert_eq!(translate(&key_named(Key::Other, "F1", LEFT_SHIFT, false)), KeyAction::Nothing);
    assert_eq!(translate(&key_named(Key::Other, "", 0, false)), KeyAction::Nothing);
    // one character of more than one byte is no typing key
    assert_eq!(translate(&key_named(Key::Other, "\u{e9}", 0, false)), KeyAction::Nothing);
}
