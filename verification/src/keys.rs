//! Key translation: from a key, the modifiers held with it and the repeat
//! flag to what the editor is asked to do. Nothing is remembered between keys.

use vstd::prelude::*;

verus! {

/// Modifier bit of the left shift key.
pub const LEFT_SHIFT: u16 = 0x0001;

/// Modifier bit of the right shift key.
pub const RIGHT_SHIFT: u16 = 0x0002;

/// Modifier bit of the left control key.
pub const LEFT_CTRL: u16 = 0x0040;

/// Modifier bit of the right control key.
pub const RIGHT_CTRL: u16 = 0x0080;

/// The keys that the editor tells apart by themselves; every other key is
/// known by its name alone.
#[derive(Clone, Copy, Debug, PartialEq, Eq, Structural)]
pub enum Key {
    Backspace,
    Return,
    Space,
    Underscore,
    S,
    O,
    Q,
    Other,
}

/// One key-down event.
#[derive(Debug)]
pub struct KeyPress {
    /// Which key went down.
    pub key: Key,
    /// The name of the key, as the keyboard layout gives it.
    pub name: Vec<char>,
    /// The modifier keys held, one bit each.
    pub mods: u16,
    /// True when the event comes from holding the key down.
    pub repeat: bool,
}

/// What a command key asks for.
#[derive(Clone, Copy, Debug, PartialEq, Eq, Structural)]
pub enum Command {
    Save,
    OpenNew,
    QuitAndSave,
    QuitDiscard,
}

/// The outcome of translating one key-down event.
#[derive(Clone, Copy, Debug, PartialEq, Eq, Structural)]
pub enum KeyAction {
    /// A character is typed.
    Emit(char),
    /// A command key with control held.
    Command(Command),
    /// The last character goes.
    Backspace,
    /// Enter: a newline in an open file, the answer to the prompt otherwise.
    Newline,
    /// A blank is typed.
    Space,
    /// An underscore is typed.
    Underscore,
    /// The key means nothing to the editor.
    Nothing,
}

/// True when a shift key is among the modifiers.
pub open spec fn shift_held(mods: u16) -> bool {
    mods & (LEFT_SHIFT | RIGHT_SHIFT) != 0
}

/// True when a control key is among the modifiers.
pub open spec fn ctrl_held(mods: u16) -> bool {
    mods & (LEFT_CTRL | RIGHT_CTRL) != 0
}

/// The symbol that shift makes of a symbol key, where the key has one.
pub open spec fn shift_symbol(c: char) -> Option<char> {
    match c {
        '1' => Some('!'),
        '2' => Some('@'),
        '3' => Some('#'),
        '4' => Some('$'),
        '5' => Some('%'),
        '6' => Some('^'),
        '7' => Some('&'),
        '8' => Some('*'),
        '9' => Some('('),
        '0' => Some(')'),
        '-' => Some('_'),
        '=' => Some('+'),
        '[' => Some('{'),
        ']' => Some('}'),
        '\\' => Some('|'),
        ';' => Some(':'),
        '\'' => Some('"'),
        ',' => Some('<'),
        '.' => Some('>'),
        '/' => Some('?'),
        '`' => Some('~'),
        _ => None,
    }
}

/// The lower-case form of a character of the basic Latin alphabet; any other
/// character is its own lower case here.
pub open spec fn lower(c: char) -> char {
    if 'A' <= c <= 'Z' {
        ((c as u8) + 32) as u8 as char
    } else {
        c
    }
}

/// The upper-case form of a character of the basic Latin alphabet; any other
/// character is its own upper case here.
pub open spec fn upper(c: char) -> char {
    if 'a' <= c <= 'z' {
        ((c as u8) - 32) as u8 as char
    } else {
        c
    }
}

/// True for the name of a key that types a character: one character, of one byte.
pub open spec fn types_character(name: Seq<char>) -> bool {
    name.len() == 1 && (name[0] as u32) < 128
}

/// The character that a key named `c` types.
pub open spec fn typed_char(c: char, shifted: bool) -> char {
    if !shifted {
        lower(c)
    } else {
        match shift_symbol(lower(c)) {
            Some(s) => s,
            None => upper(lower(c)),
        }
    }
}

/// True for the keys that are commands while control is held.
pub open spec fn is_command_key(key: Key) -> bool {
    key == Key::S || key == Key::O || key == Key::Q
}

/// The command of a command key. Only quitting looks at shift: with shift the
/// document is not saved first.
pub open spec fn command_of(key: Key, shifted: bool) -> Command {
    match key {
        Key::S => Command::Save,
        Key::O => Command::OpenNew,
        _ => if shifted {
            Command::QuitDiscard
        } else {
            Command::QuitAndSave
        },
    }
}

/// What a key does when it is neither a command nor types its name.
pub open spec fn edit_of(key: Key) -> KeyAction {
    match key {
        Key::Backspace => KeyAction::Backspace,
        Key::Return => KeyAction::Newline,
        Key::Space => KeyAction::Space,
        Key::Underscore => KeyAction::Underscore,
        _ => KeyAction::Nothing,
    }
}

/// The meaning of a key-down event. A command key with control held is a
/// command, repeated or not. Otherwise a key that types a character emits it,
/// unless the event is a repeat. Otherwise the key is an edit or nothing.
pub open spec fn translated(key: Key, name: Seq<char>, mods: u16, repeat: bool) -> KeyAction {
    if ctrl_held(mods) && is_command_key(key) {
        KeyAction::Command(command_of(key, shift_held(mods)))
    } else if !repeat && types_character(name) {
        KeyAction::Emit(typed_char(name[0], shift_held(mods)))
    } else {
        edit_of(key)
    }
}

/// Tells whether a shift key is held.
pub fn is_shifted(mods: u16) -> (b: bool)
    ensures
        b == shift_held(mods),
{
    mods & (LEFT_SHIFT | RIGHT_SHIFT) != 0
}

/// Tells whether a control key is held.
pub fn is_controlled(mods: u16) -> (b: bool)
    ensures
        b == ctrl_held(mods),
{
    mods & (LEFT_CTRL | RIGHT_CTRL) != 0
}

/// Looks a symbol key up in the shift map.
pub fn shifted_symbol(c: char) -> (r: Option<char>)
    ensures
        r == shift_symbol(c),
{
    match c {
        '1' => Some('!'),
        '2' => Some('@'),
        '3' => Some('#'),
        '4' => Some('$'),
        '5' => Some('%'),
        '6' => Some('^'),
        '7' => Some('&'),
        '8' => Some('*'),
        '9' => Some('('),
        '0' => Some(')'),
        '-' => Some('_'),
        '=' => Some('+'),
        '[' => Some('{'),
        ']' => Some('}'),
        '\\' => Some('|'),
        ';' => Some(':'),
        '\'' => Some('"'),
        ',' => Some('<'),
        '.' => Some('>'),
        '/' => Some('?'),
        '`' => Some('~'),
        _ => None,
    }
}

/// Lower case of a character of the basic Latin alphabet.
pub fn to_lower(c: char) -> (r: char)
    ensures
        r == lower(c),
{
    if 'A' <= c && c <= 'Z' {
        ((c as u8) + 32u8) as char
    } else {
        c
    }
}

/// Upper case of a character of the basic Latin alphabet.
pub fn to_upper(c: char) -> (r: char)
    ensures
        r == upper(c),
{
    if 'a' <= c && c <= 'z' {
        ((c as u8) - 32u8) as char
    } else {
        c
    }
}

/// The character that the key named `c` types, with or without shift.
pub fn type_char(c: char, shifted: bool) -> (r: char)
    ensures
        r == typed_char(c, shifted),
{
    let base = to_lower(c);
    if !shifted {
        base
    } else {
        match shifted_symbol(base) {
            Some(s) => s,
            None => to_upper(base),
        }
    }
}

/// Translates one key-down event.
pub fn translate(press: &KeyPress) -> (action: KeyAction)
    ensures
        action == translated(press.key, press.name@, press.mods, press.repeat),
{
    let shifted = is_shifted(press.mods);
    if is_controlled(press.mods) {
        match press.key {
            Key::S => {
                return KeyAction::Command(Command::Save);
            },
            Key::O => {
                return KeyAction::Command(Command::OpenNew);
            },
            Key::Q => {
                if shifted {
                    return KeyAction::Command(Command::QuitDiscard);
                } else {
                    return KeyAction::Command(Command::QuitAndSave);
                }
            },
            _ => {},
        }
    }
    if !press.repeat && press.name.len() == 1 && (press.name[0] as u32) < 128 {
        return KeyAction::Emit(type_char(press.name[0], shifted));
    }
    match press.key {
        Key::Backspace => KeyAction::Backspace,
        Key::Return => KeyAction::Newline,
        Key::Space => KeyAction::Space,
        Key::Underscore => KeyAction::Underscore,
        _ => KeyAction::Nothing,
    }
}

/// A key that types a character, pressed once with no modifier held, emits
/// its lower-case character. With shift it emits the symbol that the shift
/// map gives for that character, or its upper case where the map has none.
/// Control changes this for the command keys only.
pub proof fn lemma_typing(key: Key, name: Seq<char>, mods: u16)
    requires
        types_character(name),
    ensures
        mods == 0 ==> translated(key, name, mods, false) == KeyAction::Emit(lower(name[0])),
        !shift_held(mods) && !(ctrl_held(mods) && is_command_key(key)) ==> translated(
            key,
            name,
            mods,
            false,
        ) == KeyAction::Emit(lower(name[0])),
        shift_held(mods) && !(ctrl_held(mods) && is_command_key(key)) ==> translated(
            key,
            name,
            mods,
            false,
        ) == KeyAction::Emit(
            match shift_symbol(lower(name[0])) {
                Some(symbol) => symbol,
                None => upper(lower(name[0])),
            },
        ),
{
    assert(0u16 & (0x0001u16 | 0x0002u16) == 0) by (bit_vector);
    assert(0u16 & (0x0040u16 | 0x0080u16) == 0) by (bit_vector);
}

/// A repeated key-down event never types the name of its key: it is a
/// command, an edit or nothing.
pub proof fn lemma_repeat_types_no_name(key: Key, name: Seq<char>, mods: u16)
    ensures
        translated(key, name, mods, true) == if ctrl_held(mods) && is_command_key(key) {
            KeyAction::Command(command_of(key, shift_held(mods)))
        } else {
            edit_of(key)
        },
        !(translated(key, name, mods, true) is Emit),
{
}

} // verus!
