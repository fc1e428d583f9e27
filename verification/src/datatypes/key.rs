//! Logical keys, modifier state, and the key encoder.
//!
//! The encoder is a pure function of the key, the input mode and the modifier
//! state. What it sends is defined by the spec functions [`char_seq`],
//! [`term_seq`], [`tilde_seq`] and [`Key::code`]; the executable functions are
//! proved to produce exactly those sequences.

use super::InputMode;
use std::borrow::Cow;
use vstd::pervasive::unreached;
use vstd::prelude::*;
use vstd::string::StringExecFns;

verus! {

/// `String::push` appends one character to the end of the string and leaves
/// what was there in place.
pub assume_specification[ String::push ](s: &mut String, c: char)
    ensures
        final(s)@ == old(s)@.push(c),
;

/// The escape character, which opens every control sequence.
pub const ESC: char = '\x1b';

/// A logical input event. A flag of `true` is a press, `false` a release.
#[derive(Debug, PartialEq, Eq)]
pub enum Key {
    /// A printable character.
    Char(bool, char),
    Up(bool),
    Down(bool),
    Left(bool),
    Right(bool),
    /// The confirmation key, which picks the highlighted entry of a menu.
    Enter(bool),
    ShiftLeft(bool),
    ShiftRight(bool),
    CtrlLeft(bool),
    CtrlRight(bool),
    AltLeft(bool),
    AltRight(bool),
    MetaLeft(bool),
    MetaRight(bool),
    PageUp(bool),
    PageDown(bool),
    Home(bool),
    End(bool),
    Insert(bool),
    Delete(bool),
    CapsLock(bool),
    NumLock(bool),
    ScrollLock(bool),
    /// A function key, numbered from 1.
    Function(bool, u8),
    /// A literal command, sent exactly as it stands.
    Cmd(Cow<'static, str>),
}

impl Clone for Key {
    fn clone(&self) -> (copy: Key)
        ensures
            copy == *self,
    {
        match self {
            Key::Char(press, c) => Key::Char(*press, *c),
            Key::Up(press) => Key::Up(*press),
            Key::Down(press) => Key::Down(*press),
            Key::Left(press) => Key::Left(*press),
            Key::Right(press) => Key::Right(*press),
            Key::Enter(press) => Key::Enter(*press),
            Key::ShiftLeft(press) => Key::ShiftLeft(*press),
            Key::ShiftRight(press) => Key::ShiftRight(*press),
            Key::CtrlLeft(press) => Key::CtrlLeft(*press),
            Key::CtrlRight(press) => Key::CtrlRight(*press),
            Key::AltLeft(press) => Key::AltLeft(*press),
            Key::AltRight(press) => Key::AltRight(*press),
            Key::MetaLeft(press) => Key::MetaLeft(*press),
            Key::MetaRight(press) => Key::MetaRight(*press),
            Key::PageUp(press) => Key::PageUp(*press),
            Key::PageDown(press) => Key::PageDown(*press),
            Key::Home(press) => Key::Home(*press),
            Key::End(press) => Key::End(*press),
            Key::Insert(press) => Key::Insert(*press),
            Key::Delete(press) => Key::Delete(*press),
            Key::CapsLock(press) => Key::CapsLock(*press),
            Key::NumLock(press) => Key::NumLock(*press),
            Key::ScrollLock(press) => Key::ScrollLock(*press),
            Key::Function(press, n) => Key::Function(*press, *n),
            Key::Cmd(text) => Key::Cmd(
                match text {
                    Cow::Borrowed(text) => Cow::Borrowed(*text),
                    Cow::Owned(text) => Cow::Owned(text.clone()),
                },
            ),
        }
    }
}

/// The state of the modifier keys that accompanies a key event.
#[derive(Copy, Clone, Debug, PartialEq, Eq, Structural)]
pub struct Modifiers {
    pub shift: bool,
    pub caps: bool,
    pub ctrl: bool,
    pub alt: bool,
}

impl Modifiers {
    /// The three flags every encoding table is keyed on: shift or caps lock,
    /// ctrl, alt.
    pub open spec fn reduced(&self) -> (bool, bool, bool) {
        (self.shift || self.caps, self.ctrl, self.alt)
    }

    /// The modifier parameter of a control sequence: 1 when nothing is held,
    /// plus 1 for shift or caps lock, 2 for alt and 4 for ctrl.
    pub open spec fn param(&self) -> int {
        1 + (if self.shift || self.caps { 1int } else { 0 })
          + (if self.alt { 2int } else { 0 })
          + (if self.ctrl { 4int } else { 0 })
    }

    /// No modifier held.
    pub fn new() -> (m: Modifiers)
        ensures
            m == (Modifiers { shift: false, caps: false, ctrl: false, alt: false }),
    {
        Modifiers { shift: false, caps: false, ctrl: false, alt: false }
    }

    /// Folds caps lock into shift.
    #[verifier::when_used_as_spec(reduced)]
    pub fn triplet(&self) -> (t: (bool, bool, bool))
        ensures
            t == self.reduced(),
    {
        (self.shift || self.caps, self.ctrl, self.alt)
    }
}

/// The decimal digit for `n`, where `0 <= n <= 9`.
pub open spec fn digit(n: int) -> char
    recommends
        0 <= n <= 9,
{
    ('0' as int + n) as char
}

/// Whether ctrl turns `c` into a control code: `c` lies from `'@'` up to, but
/// not including, DEL.
pub open spec fn has_control_code(c: char) -> bool {
    0x40 <= c as int && (c as int) < 0x7f
}

/// The control code of `c`: its low five bits.
pub open spec fn control_code(c: char) -> char
    recommends
        has_control_code(c),
{
    (c as int % 32) as char
}

/// What a pressed character sends. Ctrl replaces the character by its control
/// code and sends nothing where it has none; alt puts an escape in front.
pub open spec fn char_seq(modifiers: Modifiers, c: char) -> Option<Seq<char>> {
    if modifiers.ctrl && !has_control_code(c) {
        None
    } else {
        let sent = if modifiers.ctrl { control_code(c) } else { c };
        Some(if modifiers.alt { seq![ESC, sent] } else { seq![sent] })
    }
}

/// The cursor-key sequence that ends in `term`. Without modifiers it is
/// `ESC [ term`, or `ESC O term` outside the ansi flavor; with modifiers it is
/// `ESC [ 1 ; n term`, where `n` is the modifier parameter.
pub open spec fn term_seq(modifiers: Modifiers, term: char, ansi: bool) -> Seq<char> {
    if modifiers.param() == 1 {
        seq![ESC, if ansi { '[' } else { 'O' }, term]
    } else {
        seq![ESC, '[', '1', ';', digit(modifiers.param()), term]
    }
}

/// The tilde sequence that opens with `init`: `ESC [ init ~` without
/// modifiers, `ESC [ init ; n ~` with modifier parameter `n`.
pub open spec fn tilde_seq(modifiers: Modifiers, init: char) -> Seq<char> {
    if modifiers.param() == 1 {
        seq![ESC, '[', init, '~']
    } else {
        seq![ESC, '[', init, ';', digit(modifiers.param()), '~']
    }
}

/// Whether `s` is one escape followed by printable ASCII only.
pub open spec fn escape_sequence(s: Seq<char>) -> bool {
    &&& s.len() >= 2
    &&& s[0] == ESC
    &&& forall|i: int| 1 <= i < s.len() ==> ' ' <= #[trigger] s[i] <= '~'
}

impl Key {
    /// Whether the compatible tables have a row for this key. They have none
    /// for a bare shift, ctrl, alt or caps lock, nor for num lock, scroll lock
    /// and the function keys.
    pub open spec fn compatible(&self) -> bool {
        !(self is ShiftLeft || self is ShiftRight || self is CtrlLeft || self is CtrlRight
            || self is AltLeft || self is AltRight || self is CapsLock || self is NumLock
            || self is ScrollLock || self is Function)
    }

    /// The letter that ends the sequence of a pressed arrow key.
    pub open spec fn arrow_letter(&self) -> Option<char> {
        match *self {
            Key::Up(true) => Some('A'),
            Key::Down(true) => Some('B'),
            Key::Right(true) => Some('C'),
            Key::Left(true) => Some('D'),
            _ => None,
        }
    }

    /// Whether this is the release of a character, arrow or navigation key.
    pub open spec fn released(&self) -> bool {
        match *self {
            Key::Char(false, _) | Key::Up(false) | Key::Down(false) | Key::Left(false)
            | Key::Right(false) | Key::PageUp(false) | Key::PageDown(false) | Key::Home(false)
            | Key::End(false) | Key::Insert(false) | Key::Delete(false) => true,
            _ => false,
        }
    }

    /// Whether an encoding table is defined for this key in `mode`.
    pub open spec fn covered(&self, mode: InputMode) -> bool {
        mode != InputMode::Extended && self.compatible()
    }

    /// What this key sends under the compatible tables, if anything. Only a
    /// press sends; a literal command is sent as it stands; Home and End keep
    /// the ansi flavor whatever `ansi` says; a Meta key and the confirmation
    /// key send nothing. Of a key without a row nothing is said.
    pub open spec fn compatible_seq(&self, modifiers: Modifiers, ansi: bool) -> Option<Seq<char>>
        recommends
            self.compatible(),
    {
        match *self {
            Key::Char(true, c) => char_seq(modifiers, c),
            Key::Cmd(s) => Some(s@),
            Key::Up(true) => Some(term_seq(modifiers, 'A', ansi)),
            Key::Down(true) => Some(term_seq(modifiers, 'B', ansi)),
            Key::Right(true) => Some(term_seq(modifiers, 'C', ansi)),
            Key::Left(true) => Some(term_seq(modifiers, 'D', ansi)),
            Key::Home(true) => Some(term_seq(modifiers, 'H', true)),
            Key::End(true) => Some(term_seq(modifiers, 'F', true)),
            Key::Insert(true) => Some(tilde_seq(modifiers, '2')),
            Key::Delete(true) => Some(tilde_seq(modifiers, '3')),
            Key::PageUp(true) => Some(tilde_seq(modifiers, '5')),
            Key::PageDown(true) => Some(tilde_seq(modifiers, '6')),
            Key::ShiftLeft(_) | Key::ShiftRight(_) | Key::CtrlLeft(_) | Key::CtrlRight(_)
            | Key::AltLeft(_) | Key::AltRight(_) | Key::CapsLock(_) | Key::NumLock(_)
            | Key::ScrollLock(_) | Key::Function(..) => arbitrary(),
            _ => None,
        }
    }

    /// What this key sends in `mode` with `modifiers` held, if anything. Of
    /// the extended mode nothing is said.
    pub open spec fn code(&self, mode: InputMode, modifiers: Modifiers) -> Option<Seq<char>>
        recommends
            self.covered(mode),
    {
        match mode {
            InputMode::Ansi => self.compatible_seq(modifiers, true),
            InputMode::Application => self.compatible_seq(modifiers, false),
            InputMode::Extended => arbitrary(),
        }
    }

    /// Tells whether an encoding table is defined for this key in `mode`, that
    /// is, whether [`Key::as_code`] may be called.
    #[verifier::when_used_as_spec(covered)]
    pub fn is_covered(&self, mode: InputMode) -> (b: bool)
        ensures
            b == self.covered(mode),
    {
        match mode {
            InputMode::Extended => false,
            _ => match self {
                Key::ShiftLeft(_) | Key::ShiftRight(_) | Key::CtrlLeft(_) | Key::CtrlRight(_)
                | Key::AltLeft(_) | Key::AltRight(_) | Key::CapsLock(_) | Key::NumLock(_)
                | Key::ScrollLock(_) | Key::Function(..) => false,
                _ => true,
            },
        }
    }

    /// Encodes this key for the controlling process.
    ///
    /// The result is `None` where the key sends nothing: a release, a Meta
    /// key, the confirmation key, or a character that ctrl cannot encode.
    pub fn as_code(&self, mode: InputMode, modifiers: Modifiers) -> (code: Option<String>)
        requires
            self.covered(mode),
        ensures
            code.deep_view() == self.code(mode, modifiers),
    {
        match mode {
            InputMode::Ansi => self.compatible_code(modifiers, true),
            InputMode::Application => self.compatible_code(modifiers, false),
            InputMode::Extended => unreached(),
        }
    }

    /// Encodes this key under the compatible tables, in the ansi flavor or the
    /// application flavor.
    pub fn compatible_code(&self, modifiers: Modifiers, ansi: bool) -> (code: Option<String>)
        requires
            self.compatible(),
        ensures
            code.deep_view() == self.compatible_seq(modifiers, ansi),
    {
        match self {
            Key::Char(true, c) => char_key(modifiers, *c),
            Key::Cmd(s) => Some(
                match s {
                    Cow::Borrowed(text) => String::from_str(text),
                    Cow::Owned(text) => text.clone(),
                },
            ),
            Key::Up(true) => term_key(modifiers, 'A', ansi),
            Key::Down(true) => term_key(modifiers, 'B', ansi),
            Key::Left(true) => term_key(modifiers, 'D', ansi),
            Key::Right(true) => term_key(modifiers, 'C', ansi),
            Key::ShiftLeft(_) | Key::ShiftRight(_) | Key::CtrlLeft(_) | Key::CtrlRight(_)
            | Key::AltLeft(_) | Key::AltRight(_) | Key::CapsLock(_) => unreached(),
            Key::MetaLeft(true) | Key::MetaRight(true) => None,
            Key::PageUp(true) => tilde_key(modifiers, '5'),
            Key::PageDown(true) => tilde_key(modifiers, '6'),
            Key::Home(true) => term_key(modifiers, 'H', true),
            Key::End(true) => term_key(modifiers, 'F', true),
            Key::Insert(true) => tilde_key(modifiers, '2'),
            Key::Delete(true) => tilde_key(modifiers, '3'),
            Key::NumLock(_) | Key::ScrollLock(_) | Key::Function(..) => unreached(),
            _ => None,
        }
    }
}

/// Encodes a pressed character.
pub fn char_key(modifiers: Modifiers, c: char) -> (code: Option<String>)
    ensures
        code.deep_view() == char_seq(modifiers, c),
{
    match (modifiers.ctrl, modifiers.alt) {
        (false, false) => {
            let mut s = String::new();
            s.push(c);
            Some(s)
        },
        (true, false) => {
            if c >= '@' && c <= '~' {
                let mut s = String::new();
                s.push(control(c));
                Some(s)
            } else {
                None
            }
        },
        (false, true) => {
            let mut s = String::new();
            s.push(ESC);
            s.push(c);
            Some(s)
        },
        (true, true) => {
            if c >= '@' && c <= '~' {
                let mut s = String::new();
                s.push(ESC);
                s.push(control(c));
                Some(s)
            } else {
                None
            }
        },
    }
}

/// Masks off all but the low five bits of `c`.
fn control(c: char) -> (code: char)
    requires
        has_control_code(c),
    ensures
        code == control_code(c),
{
    let byte: u8 = c as u8;
    assert(byte & 0b0001_1111 == byte % 32) by (bit_vector);
    (byte & 0b0001_1111) as char
}

/// Encodes a cursor key whose sequence ends in `term`.
pub fn term_key(modifiers: Modifiers, term: char, ansi: bool) -> (code: Option<String>)
    ensures
        code.deep_view() == Some(term_seq(modifiers, term, ansi)),
{
    proof {
        reveal_strlit("\x1b[");
        reveal_strlit("\x1bO");
        reveal_strlit("\x1b[1;2");
        reveal_strlit("\x1b[1;3");
        reveal_strlit("\x1b[1;4");
        reveal_strlit("\x1b[1;5");
        reveal_strlit("\x1b[1;6");
        reveal_strlit("\x1b[1;7");
        reveal_strlit("\x1b[1;8");
    }
    let head = match modifiers.triplet() {
        (false, false, false) => if ansi { "\x1b[" } else { "\x1bO" },
        (true, false, false) => "\x1b[1;2",
        (false, false, true) => "\x1b[1;3",
        (true, false, true) => "\x1b[1;4",
        (false, true, false) => "\x1b[1;5",
        (true, true, false) => "\x1b[1;6",
        (false, true, true) => "\x1b[1;7",
        (true, true, true) => "\x1b[1;8",
    };
    let mut s = String::from_str(head);
    s.push(term);
    Some(s)
}

/// Encodes a navigation key whose sequence opens with `init` and ends in a
/// tilde.
pub fn tilde_key(modifiers: Modifiers, init: char) -> (code: Option<String>)
    ensures
        code.deep_view() == Some(tilde_seq(modifiers, init)),
{
    proof {
        reveal_strlit("\x1b[");
        reveal_strlit("~");
        reveal_strlit(";2~");
        reveal_strlit(";3~");
        reveal_strlit(";4~");
        reveal_strlit(";5~");
        reveal_strlit(";6~");
        reveal_strlit(";7~");
        reveal_strlit(";8~");
    }
    let tail = match modifiers.triplet() {
        (false, false, false) => "~",
        (true, false, false) => ";2~",
        (false, false, true) => ";3~",
        (true, false, true) => ";4~",
        (false, true, false) => ";5~",
        (true, true, false) => ";6~",
        (false, true, true) => ";7~",
        (true, true, true) => ";8~",
    };
    let mut s = String::from_str("\x1b[");
    s.push(init);
    s.append(tail);
    Some(s)
}

/// A pressed arrow key with no modifier held sends `ESC [` and its letter in
/// ANSI mode, and `ESC O` and the same letter in application mode.
pub proof fn lemma_plain_arrow(key: Key, modifiers: Modifiers)
    requires
        key.arrow_letter() is Some,
        modifiers.reduced() == (false, false, false),
    ensures
        key.code(InputMode::Ansi, modifiers) == Some(seq![ESC, '[', key.arrow_letter()->0]),
        key.code(InputMode::Application, modifiers) == Some(seq![ESC, 'O', key.arrow_letter()->0]),
{
}

/// A pressed arrow key with a modifier held sends `ESC [ 1 ; n` and its
/// letter, where `n` runs from 2 to 8 over the seven combinations of shift or
/// caps lock, alt and ctrl; ANSI mode and application mode send the same.
pub proof fn lemma_modified_arrow(key: Key, mode: InputMode, modifiers: Modifiers)
    requires
        key.arrow_letter() is Some,
        mode != InputMode::Extended,
    ensures
        modifiers.reduced() == (true, false, false) ==> key.code(mode, modifiers) == Some(
            seq![ESC, '[', '1', ';', '2', key.arrow_letter()->0],
        ),
        modifiers.reduced() == (false, false, true) ==> key.code(mode, modifiers) == Some(
            seq![ESC, '[', '1', ';', '3', key.arrow_letter()->0],
        ),
        modifiers.reduced() == (true, false, true) ==> key.code(mode, modifiers) == Some(
            seq![ESC, '[', '1', ';', '4', key.arrow_letter()->0],
        ),
        modifiers.reduced() == (false, true, false) ==> key.code(mode, modifiers) == Some(
            seq![ESC, '[', '1', ';', '5', key.arrow_letter()->0],
        ),
        modifiers.reduced() == (true, true, false) ==> key.code(mode, modifiers) == Some(
            seq![ESC, '[', '1', ';', '6', key.arrow_letter()->0],
        ),
        modifiers.reduced() == (false, true, true) ==> key.code(mode, modifiers) == Some(
            seq![ESC, '[', '1', ';', '7', key.arrow_letter()->0],
        ),
        modifiers.reduced() == (true, true, true) ==> key.code(mode, modifiers) == Some(
            seq![ESC, '[', '1', ';', '8', key.arrow_letter()->0],
        ),
        modifiers.reduced() != (false, false, false) ==> key.code(InputMode::Ansi, modifiers)
            == key.code(InputMode::Application, modifiers),
{
}

/// Home and End send the same in application mode as in ANSI mode: the
/// cursor-key sequence of the ansi flavor, ending in `H` and `F`.
pub proof fn lemma_home_end_ignore_mode(mode: InputMode, modifiers: Modifiers)
    requires
        mode != InputMode::Extended,
    ensures
        Key::Home(true).code(mode, modifiers) == Some(term_seq(modifiers, 'H', true)),
        Key::End(true).code(mode, modifiers) == Some(term_seq(modifiers, 'F', true)),
        modifiers.reduced() == (false, false, false) ==> {
            &&& Key::Home(true).code(mode, modifiers) == Some(seq![ESC, '[', 'H'])
            &&& Key::End(true).code(mode, modifiers) == Some(seq![ESC, '[', 'F'])
        },
{
}

/// Page up, page down, insert and delete send `ESC [ d ~` with the digits 5,
/// 6, 2 and 3 when no modifier is held, and `ESC [ d ; 2 ~` when only shift or
/// caps lock is.
pub proof fn lemma_navigation_keys(mode: InputMode, modifiers: Modifiers)
    requires
        mode != InputMode::Extended,
        !modifiers.ctrl,
        !modifiers.alt,
    ensures
        !(modifiers.shift || modifiers.caps) ==> {
            &&& Key::PageUp(true).code(mode, modifiers) == Some(seq![ESC, '[', '5', '~'])
            &&& Key::PageDown(true).code(mode, modifiers) == Some(seq![ESC, '[', '6', '~'])
            &&& Key::Insert(true).code(mode, modifiers) == Some(seq![ESC, '[', '2', '~'])
            &&& Key::Delete(true).code(mode, modifiers) == Some(seq![ESC, '[', '3', '~'])
        },
        modifiers.shift || modifiers.caps ==> {
            &&& Key::PageUp(true).code(mode, modifiers) == Some(seq![ESC, '[', '5', ';', '2', '~'])
            &&& Key::PageDown(true).code(mode, modifiers) == Some(
                seq![ESC, '[', '6', ';', '2', '~'],
            )
            &&& Key::Insert(true).code(mode, modifiers) == Some(seq![ESC, '[', '2', ';', '2', '~'])
            &&& Key::Delete(true).code(mode, modifiers) == Some(seq![ESC, '[', '3', ';', '2', '~'])
        },
{
}

/// The release of a character, arrow or navigation key sends nothing.
pub proof fn lemma_release_sends_nothing(key: Key, mode: InputMode, modifiers: Modifiers)
    requires
        key.released(),
        mode != InputMode::Extended,
    ensures
        key.covered(mode),
        key.code(mode, modifiers) is None,
{
}

/// A literal command is sent as it stands, whatever modifiers are held.
pub proof fn lemma_literal_command_verbatim(key: Key, mode: InputMode, modifiers: Modifiers)
    requires
        key is Cmd,
        mode != InputMode::Extended,
    ensures
        key.covered(mode),
        key.code(mode, modifiers) == Some(key->Cmd_0@),
{
}

/// The modifiers count only through the three flags they reduce to: caps lock
/// does what shift does.
pub proof fn lemma_code_depends_on_triplet(
    key: Key,
    mode: InputMode,
    held: Modifiers,
    other: Modifiers,
)
    requires
        held.reduced() == other.reduced(),
    ensures
        key.code(mode, held) == key.code(mode, other),
{
}

/// Whatever a key other than a character or a literal command sends is
/// seven-bit clean: one escape, then printable ASCII, with no NUL and no
/// second escape in it.
pub proof fn lemma_key_codes_are_clean(key: Key, mode: InputMode, modifiers: Modifiers)
    requires
        key.covered(mode),
        !(key is Char),
        !(key is Cmd),
    ensures
        key.code(mode, modifiers) matches Some(s) ==> escape_sequence(s),
{
}

} // verus!
