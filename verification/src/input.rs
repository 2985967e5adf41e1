//! The bytes that a key event sends to the terminal.
//!
//! Covered are the legacy xterm encoding with its application cursor and keypad
//! modes, and the Kitty keyboard protocol with its five progressive
//! enhancements. Every sequence is stated as the bytes that it consists of.

use vstd::prelude::*;
use vstd::utf8::encode_utf8;

use crate::text::{ascii_lower, ascii_lower_char, chars_of, is_control, is_control_char, str_eq};

verus! {

/// The keys that are not characters.
#[derive(Debug, Clone, Copy, PartialEq, Eq, Structural)]
pub enum NamedKey {
    Enter,
    Tab,
    Escape,
    Backspace,
    Space,
    ArrowUp,
    ArrowDown,
    ArrowLeft,
    ArrowRight,
    Home,
    End,
    Insert,
    Delete,
    PageUp,
    PageDown,
    F1,
    F2,
    F3,
    F4,
    F5,
    F6,
    F7,
    F8,
    F9,
    F10,
    F11,
    F12,
    F13,
    F14,
    F15,
    F16,
    F17,
    F18,
    F19,
    F20,
    Shift,
    Control,
    Alt,
    Super,
    CapsLock,
    NumLock,
}

/// Where a key sits on the keyboard.
#[derive(Debug, Clone, Copy, PartialEq, Eq, Structural)]
pub enum KeyLocation {
    /// In the main section, or on the left-hand side.
    Standard,
    /// On the numeric keypad.
    Numpad,
    /// On the right-hand side, where a key exists on both.
    Right,
}

impl Default for KeyLocation {
    fn default() -> (r: Self)
        ensures
            r == KeyLocation::Standard,
    {
        KeyLocation::Standard
    }
}

/// A key: a character, as typed, or a named key.
#[derive(Debug, Clone, Copy, PartialEq, Eq, Structural)]
pub enum KeyToken {
    /// A character, as typed: `'A'` where Shift and the A key are held.
    Char(char),
    Named(NamedKey),
}

/// What a key does.
#[derive(Debug, Clone, Copy, PartialEq, Eq, Structural)]
pub enum KeyState {
    /// It goes down.
    Pressed,
    /// It is held.
    Repeat,
    /// It goes up.
    Released,
}

/// The modifier keys that are held.
#[derive(Debug, Clone, Copy, PartialEq, Eq, Structural)]
pub struct Modifiers {
    pub control: bool,
    pub alt: bool,
    pub shift: bool,
    /// Command, Super or the Windows key.
    pub platform: bool,
    pub function: bool,
}

impl Default for Modifiers {
    fn default() -> (r: Self)
        ensures
            r == (Modifiers {
                control: false,
                alt: false,
                shift: false,
                platform: false,
                function: false,
            }),
    {
        Modifiers { control: false, alt: false, shift: false, platform: false, function: false }
    }
}

/// A key as the window system names it.
#[derive(Debug)]
pub struct Keystroke {
    pub modifiers: Modifiers,
    /// The key without modifiers, by its name: `"a"` where Shift and the A key
    /// are held.
    pub key: String,
    /// What was typed, where anything was: `"A"` where Shift and the A key are
    /// held.
    pub key_char: Option<String>,
}

/// A key goes down, or is held.
#[derive(Debug)]
pub struct KeyDownEvent {
    pub keystroke: Keystroke,
    pub is_held: bool,
}

/// A key goes up.
#[derive(Debug)]
pub struct KeyUpEvent {
    pub keystroke: Keystroke,
}

/// A key event, as the encoder sees it.
#[derive(Debug)]
pub struct KeyInput {
    pub token: KeyToken,
    /// The character of the key without modifiers, where it is known.
    pub base: Option<char>,
    /// The text that the event types, where it types any.
    pub text: Option<String>,
    pub modifiers: Modifiers,
    pub location: KeyLocation,
    pub state: KeyState,
}

/// The named key that goes by a name.
pub open spec fn named_key(name: Seq<char>) -> Option<NamedKey> {
    if name == "enter"@ {
        Some(NamedKey::Enter)
    } else if name == "tab"@ {
        Some(NamedKey::Tab)
    } else if name == "escape"@ {
        Some(NamedKey::Escape)
    } else if name == "backspace"@ {
        Some(NamedKey::Backspace)
    } else if name == "space"@ {
        Some(NamedKey::Space)
    } else if name == "up"@ {
        Some(NamedKey::ArrowUp)
    } else if name == "down"@ {
        Some(NamedKey::ArrowDown)
    } else if name == "left"@ {
        Some(NamedKey::ArrowLeft)
    } else if name == "right"@ {
        Some(NamedKey::ArrowRight)
    } else if name == "home"@ {
        Some(NamedKey::Home)
    } else if name == "end"@ {
        Some(NamedKey::End)
    } else if name == "insert"@ {
        Some(NamedKey::Insert)
    } else if name == "delete"@ {
        Some(NamedKey::Delete)
    } else if name == "pageup"@ {
        Some(NamedKey::PageUp)
    } else if name == "pagedown"@ {
        Some(NamedKey::PageDown)
    } else if name == "f1"@ {
        Some(NamedKey::F1)
    } else if name == "f2"@ {
        Some(NamedKey::F2)
    } else if name == "f3"@ {
        Some(NamedKey::F3)
    } else if name == "f4"@ {
        Some(NamedKey::F4)
    } else if name == "f5"@ {
        Some(NamedKey::F5)
    } else if name == "f6"@ {
        Some(NamedKey::F6)
    } else if name == "f7"@ {
        Some(NamedKey::F7)
    } else if name == "f8"@ {
        Some(NamedKey::F8)
    } else if name == "f9"@ {
        Some(NamedKey::F9)
    } else if name == "f10"@ {
        Some(NamedKey::F10)
    } else if name == "f11"@ {
        Some(NamedKey::F11)
    } else if name == "f12"@ {
        Some(NamedKey::F12)
    } else if name == "f13"@ {
        Some(NamedKey::F13)
    } else if name == "f14"@ {
        Some(NamedKey::F14)
    } else if name == "f15"@ {
        Some(NamedKey::F15)
    } else if name == "f16"@ {
        Some(NamedKey::F16)
    } else if name == "f17"@ {
        Some(NamedKey::F17)
    } else if name == "f18"@ {
        Some(NamedKey::F18)
    } else if name == "f19"@ {
        Some(NamedKey::F19)
    } else if name == "f20"@ {
        Some(NamedKey::F20)
    } else if name == "shift"@ {
        Some(NamedKey::Shift)
    } else if name == "control"@ {
        Some(NamedKey::Control)
    } else if name == "ctrl"@ {
        Some(NamedKey::Control)
    } else if name == "alt"@ {
        Some(NamedKey::Alt)
    } else if name == "super"@ {
        Some(NamedKey::Super)
    } else if name == "cmd"@ {
        Some(NamedKey::Super)
    } else if name == "platform"@ {
        Some(NamedKey::Super)
    } else if name == "win"@ {
        Some(NamedKey::Super)
    } else if name == "capslock"@ {
        Some(NamedKey::CapsLock)
    } else if name == "numlock"@ {
        Some(NamedKey::NumLock)
    } else {
        None
    }
}

/// The key that goes by a name: a named key, or else the one character that the
/// name consists of.
pub open spec fn key_token(name: Seq<char>) -> Option<KeyToken> {
    if named_key(name) is Some {
        Some(KeyToken::Named(named_key(name)->0))
    } else if name.len() == 1 {
        Some(KeyToken::Char(name[0]))
    } else {
        None
    }
}

fn named_key_of(key: &str) -> (r: Option<NamedKey>)
    ensures
        r == named_key(key@),
{
    if str_eq(key, "enter") {
        Some(NamedKey::Enter)
    } else if str_eq(key, "tab") {
        Some(NamedKey::Tab)
    } else if str_eq(key, "escape") {
        Some(NamedKey::Escape)
    } else if str_eq(key, "backspace") {
        Some(NamedKey::Backspace)
    } else if str_eq(key, "space") {
        Some(NamedKey::Space)
    } else if str_eq(key, "up") {
        Some(NamedKey::ArrowUp)
    } else if str_eq(key, "down") {
        Some(NamedKey::ArrowDown)
    } else if str_eq(key, "left") {
        Some(NamedKey::ArrowLeft)
    } else if str_eq(key, "right") {
        Some(NamedKey::ArrowRight)
    } else if str_eq(key, "home") {
        Some(NamedKey::Home)
    } else if str_eq(key, "end") {
        Some(NamedKey::End)
    } else if str_eq(key, "insert") {
        Some(NamedKey::Insert)
    } else if str_eq(key, "delete") {
        Some(NamedKey::Delete)
    } else if str_eq(key, "pageup") {
        Some(NamedKey::PageUp)
    } else if str_eq(key, "pagedown") {
        Some(NamedKey::PageDown)
    } else if str_eq(key, "f1") {
        Some(NamedKey::F1)
    } else if str_eq(key, "f2") {
        Some(NamedKey::F2)
    } else if str_eq(key, "f3") {
        Some(NamedKey::F3)
    } else if str_eq(key, "f4") {
        Some(NamedKey::F4)
    } else if str_eq(key, "f5") {
        Some(NamedKey::F5)
    } else if str_eq(key, "f6") {
        Some(NamedKey::F6)
    } else if str_eq(key, "f7") {
        Some(NamedKey::F7)
    } else if str_eq(key, "f8") {
        Some(NamedKey::F8)
    } else if str_eq(key, "f9") {
        Some(NamedKey::F9)
    } else if str_eq(key, "f10") {
        Some(NamedKey::F10)
    } else if str_eq(key, "f11") {
        Some(NamedKey::F11)
    } else if str_eq(key, "f12") {
        Some(NamedKey::F12)
    } else if str_eq(key, "f13") {
        Some(NamedKey::F13)
    } else if str_eq(key, "f14") {
        Some(NamedKey::F14)
    } else if str_eq(key, "f15") {
        Some(NamedKey::F15)
    } else if str_eq(key, "f16") {
        Some(NamedKey::F16)
    } else if str_eq(key, "f17") {
        Some(NamedKey::F17)
    } else if str_eq(key, "f18") {
        Some(NamedKey::F18)
    } else if str_eq(key, "f19") {
        Some(NamedKey::F19)
    } else if str_eq(key, "f20") {
        Some(NamedKey::F20)
    } else if str_eq(key, "shift") {
        Some(NamedKey::Shift)
    } else if str_eq(key, "control") {
        Some(NamedKey::Control)
    } else if str_eq(key, "ctrl") {
        Some(NamedKey::Control)
    } else if str_eq(key, "alt") {
        Some(NamedKey::Alt)
    } else if str_eq(key, "super") {
        Some(NamedKey::Super)
    } else if str_eq(key, "cmd") {
        Some(NamedKey::Super)
    } else if str_eq(key, "platform") {
        Some(NamedKey::Super)
    } else if str_eq(key, "win") {
        Some(NamedKey::Super)
    } else if str_eq(key, "capslock") {
        Some(NamedKey::CapsLock)
    } else if str_eq(key, "numlock") {
        Some(NamedKey::NumLock)
    } else {
        None
    }
}

/// The one character of a text, where it has just one.
pub open spec fn only_char(text: Seq<char>) -> Option<char> {
    if text.len() == 1 {
        Some(text[0])
    } else {
        None
    }
}

fn only_char_of(text: &str) -> (r: Option<char>)
    ensures
        r == only_char(text@),
{
    let chars = chars_of(text);
    if chars.len() == 1 {
        Some(chars[0])
    } else {
        None
    }
}

/// The key that goes by a name.
pub fn token_from_key_name(key: &str) -> (r: Option<KeyToken>)
    ensures
        r == key_token(key@),
{
    match named_key_of(key) {
        Some(named) => Some(KeyToken::Named(named)),
        None => match only_char_of(key) {
            Some(c) => Some(KeyToken::Char(c)),
            None => None,
        },
    }
}

/// What was typed, as characters.
pub open spec fn typed(key_char: Option<String>) -> Option<Seq<char>> {
    match key_char {
        Some(text) => Some(text@),
        None => None,
    }
}

impl KeyInput {
    /// The key of a keystroke: the character that was typed takes the place of
    /// the key's own.
    pub open spec fn token_of(keystroke: Keystroke) -> Option<KeyToken> {
        match key_token(keystroke.key@) {
            Some(KeyToken::Char(c)) => match keystroke.key_char {
                Some(text) if text@.len() > 0 => Some(KeyToken::Char(text@[0])),
                _ => Some(KeyToken::Char(c)),
            },
            other => other,
        }
    }

    /// Whether `input` is what a keystroke in the given state comes to.
    pub open spec fn comes_from(keystroke: Keystroke, state: KeyState, input: KeyInput) -> bool {
        &&& Self::token_of(keystroke) == Some(input.token)
        &&& input.base == only_char(keystroke.key@)
        &&& typed(input.text) == typed(keystroke.key_char)
        &&& input.modifiers == keystroke.modifiers
        &&& input.location == KeyLocation::Standard
        &&& input.state == state
    }

    /// Whether the key is down: pressed or held.
    pub open spec fn down(&self) -> bool {
        self.state != KeyState::Released
    }

    /// Whether the key is down: pressed or held.
    pub fn is_down(&self) -> (r: bool)
        ensures
            r == self.down(),
    {
        self.state != KeyState::Released
    }

    /// Whether the key is held.
    pub fn is_repeat(&self) -> (r: bool)
        ensures
            r == (self.state == KeyState::Repeat),
    {
        self.state == KeyState::Repeat
    }

    fn from_keystroke(keystroke: &Keystroke, state: KeyState) -> (r: Option<Self>)
        ensures
            r is Some <==> key_token(keystroke.key@) is Some,
            r matches Some(input) ==> Self::comes_from(*keystroke, state, input),
    {
        let token = match token_from_key_name(keystroke.key.as_str()) {
            Some(token) => token,
            None => {
                return None;
            },
        };
        let base = only_char_of(keystroke.key.as_str());
        let token = match token {
            KeyToken::Char(c) => match &keystroke.key_char {
                Some(text) => {
                    let chars = chars_of(text.as_str());
                    if chars.len() > 0 {
                        KeyToken::Char(chars[0])
                    } else {
                        KeyToken::Char(c)
                    }
                },
                None => KeyToken::Char(c),
            },
            KeyToken::Named(named) => KeyToken::Named(named),
        };
        let text = match &keystroke.key_char {
            Some(text) => Some(text.clone()),
            None => None,
        };
        Some(
            KeyInput {
                token,
                base,
                text,
                modifiers: keystroke.modifiers,
                location: KeyLocation::Standard,
                state,
            },
        )
    }

    /// The input of a key that goes down or is held; `None` where the key has no
    /// name that is known.
    pub fn from_key_down(event: &KeyDownEvent) -> (r: Option<Self>)
        ensures
            r is Some <==> key_token(event.keystroke.key@) is Some,
            r matches Some(input) ==> Self::comes_from(
                event.keystroke,
                if event.is_held {
                    KeyState::Repeat
                } else {
                    KeyState::Pressed
                },
                input,
            ),
    {
        let state = if event.is_held {
            KeyState::Repeat
        } else {
            KeyState::Pressed
        };
        Self::from_keystroke(&event.keystroke, state)
    }

    /// The input of a key that goes up.
    pub fn from_key_up(event: &KeyUpEvent) -> (r: Option<Self>)
        ensures
            r is Some <==> key_token(event.keystroke.key@) is Some,
            r matches Some(input) ==> Self::comes_from(
                event.keystroke,
                KeyState::Released,
                input,
            ),
    {
        Self::from_keystroke(&event.keystroke, KeyState::Released)
    }
}

/// The enhancements of the Kitty keyboard protocol that an application asked
/// for.
#[derive(Debug, Clone, Copy, PartialEq, Eq, Structural)]
pub struct KittyFlags {
    disambiguates: bool,
    event_types: bool,
    alternate_keys: bool,
    all_keys: bool,
    associated_text: bool,
}

impl Default for KittyFlags {
    fn default() -> (r: Self)
        ensures
            !r.any(),
    {
        KittyFlags::legacy_set()
    }
}

impl KittyFlags {
    /// Escape codes are disambiguated.
    pub closed spec fn disambiguates(&self) -> bool {
        self.disambiguates
    }

    /// Press, repeat and release are told apart.
    pub closed spec fn event_types(&self) -> bool {
        self.event_types
    }

    /// The shifted character is reported too.
    pub closed spec fn alternate_keys(&self) -> bool {
        self.alternate_keys
    }

    /// Every key is reported as an escape code.
    pub closed spec fn all_keys(&self) -> bool {
        self.all_keys
    }

    /// The text that a key types is reported.
    pub closed spec fn associated_text(&self) -> bool {
        self.associated_text
    }

    /// Some enhancement is on.
    pub open spec fn any(&self) -> bool {
        self.disambiguates() || self.event_types() || self.alternate_keys() || self.all_keys()
            || self.associated_text()
    }

    /// No enhancement.
    pub fn legacy_set() -> (r: Self)
        ensures
            !r.any(),
    {
        KittyFlags {
            disambiguates: false,
            event_types: false,
            alternate_keys: false,
            all_keys: false,
            associated_text: false,
        }
    }

    /// Escape codes are disambiguated, if `on`; a flag that is on stays on.
    pub fn with_disambiguate(self, on: bool) -> (r: Self)
        ensures
            r.disambiguates() == (self.disambiguates() || on),
            r.event_types() == self.event_types(),
            r.alternate_keys() == self.alternate_keys(),
            r.all_keys() == self.all_keys(),
            r.associated_text() == self.associated_text(),
    {
        KittyFlags { disambiguates: self.disambiguates || on, ..self }
    }

    /// Press, repeat and release are told apart, if `on`; a flag that is on stays on.
    pub fn with_report_event_types(self, on: bool) -> (r: Self)
        ensures
            r.event_types() == (self.event_types() || on),
            r.disambiguates() == self.disambiguates(),
            r.alternate_keys() == self.alternate_keys(),
            r.all_keys() == self.all_keys(),
            r.associated_text() == self.associated_text(),
    {
        KittyFlags { event_types: self.event_types || on, ..self }
    }

    /// The shifted character is reported too, if `on`; a flag that is on stays on.
    pub fn with_report_alternate_keys(self, on: bool) -> (r: Self)
        ensures
            r.alternate_keys() == (self.alternate_keys() || on),
            r.disambiguates() == self.disambiguates(),
            r.event_types() == self.event_types(),
            r.all_keys() == self.all_keys(),
            r.associated_text() == self.associated_text(),
    {
        KittyFlags { alternate_keys: self.alternate_keys || on, ..self }
    }

    /// Every key is reported as an escape code, if `on`; a flag that is on stays on.
    pub fn with_report_all_keys(self, on: bool) -> (r: Self)
        ensures
            r.all_keys() == (self.all_keys() || on),
            r.disambiguates() == self.disambiguates(),
            r.event_types() == self.event_types(),
            r.alternate_keys() == self.alternate_keys(),
            r.associated_text() == self.associated_text(),
    {
        KittyFlags { all_keys: self.all_keys || on, ..self }
    }

    /// The text that a key types is reported, if `on`; a flag that is on stays on.
    pub fn with_report_associated_text(self, on: bool) -> (r: Self)
        ensures
            r.associated_text() == (self.associated_text() || on),
            r.disambiguates() == self.disambiguates(),
            r.event_types() == self.event_types(),
            r.alternate_keys() == self.alternate_keys(),
            r.all_keys() == self.all_keys(),
    {
        KittyFlags { associated_text: self.associated_text || on, ..self }
    }

    /// Escape codes are disambiguated.
    pub fn disambiguate(self) -> (r: bool)
        ensures
            r == self.disambiguates(),
    {
        self.disambiguates
    }

    /// Press, repeat and release are told apart.
    pub fn report_event_types(self) -> (r: bool)
        ensures
            r == self.event_types(),
    {
        self.event_types
    }

    /// The shifted character is reported too.
    pub fn report_alternate_keys(self) -> (r: bool)
        ensures
            r == self.alternate_keys(),
    {
        self.alternate_keys
    }

    /// Every key is reported as an escape code.
    pub fn report_all_keys(self) -> (r: bool)
        ensures
            r == self.all_keys(),
    {
        self.all_keys
    }

    /// The text that a key types is reported.
    pub fn report_associated_text(self) -> (r: bool)
        ensures
            r == self.associated_text(),
    {
        self.associated_text
    }

    /// Some enhancement is on.
    pub fn is_any(self) -> (r: bool)
        ensures
            r == self.any(),
    {
        self.disambiguates || self.event_types || self.alternate_keys || self.all_keys
            || self.associated_text
    }

    /// No enhancement is on.
    pub fn legacy(self) -> (r: bool)
        ensures
            r == !self.any(),
    {
        !self.is_any()
    }
}

/// The state of a terminal that decides how keys are encoded.
#[derive(Debug, Clone, Copy, PartialEq, Eq, Structural)]
pub struct TerminalMode {
    pub kitty: KittyFlags,
    /// Application cursor keys.
    pub app_cursor: bool,
    /// Application keypad.
    pub app_keypad: bool,
}

impl Default for TerminalMode {
    fn default() -> (r: Self)
        ensures
            !r.kitty.any(),
            !r.app_cursor,
            !r.app_keypad,
    {
        TerminalMode::legacy()
    }
}

impl TerminalMode {
    /// No enhancement and no application mode.
    pub fn legacy() -> (r: Self)
        ensures
            !r.kitty.any(),
            !r.app_cursor,
            !r.app_keypad,
    {
        TerminalMode { kitty: KittyFlags::legacy_set(), app_cursor: false, app_keypad: false }
    }
}

// ---- Bytes ----

/// The bytes of an optional sequence.
pub open spec fn bytes_of(r: Option<Vec<u8>>) -> Option<Seq<u8>> {
    match r {
        Some(bytes) => Some(bytes@),
        None => None,
    }
}

/// `n` in decimal notation.
pub open spec fn decimal_bytes(n: nat) -> Seq<u8>
    decreases n,
{
    if n < 10 {
        seq![(0x30 + n) as u8]
    } else {
        decimal_bytes(n / 10).push((0x30 + n % 10) as u8)
    }
}

fn push_number(seq: &mut Vec<u8>, n: u32)
    ensures
        final(seq)@ == old(seq)@ + decimal_bytes(n as nat),
    decreases n,
{
    if n >= 10 {
        push_number(seq, n / 10);
    }
    seq.push(0x30 + (n % 10) as u8);
    proof {
        assert(seq@ =~= old(seq)@ + decimal_bytes(n as nat));
    }
}

/// A character in UTF-8.
pub fn char_utf8(c: char) -> (r: Vec<u8>)
    ensures
        r@ == encode_utf8(seq![c]),
{
    let mut text = String::new();
    text.push(c);
    proof {
        assert(text@ =~= seq![c]);
    }
    text.as_str().as_bytes_vec()
}

fn one_byte(a: u8) -> (r: Vec<u8>)
    ensures
        r@ == seq![a],
{
    let mut v: Vec<u8> = Vec::new();
    v.push(a);
    v
}

fn two_bytes(a: u8, b: u8) -> (r: Vec<u8>)
    ensures
        r@ == seq![a, b],
{
    let mut v: Vec<u8> = Vec::new();
    v.push(a);
    v.push(b);
    v
}

fn three_bytes(a: u8, b: u8, c: u8) -> (r: Vec<u8>)
    ensures
        r@ == seq![a, b, c],
{
    let mut v: Vec<u8> = Vec::new();
    v.push(a);
    v.push(b);
    v.push(c);
    v
}

/// `ESC O` and a letter.
pub open spec fn ss3(letter: u8) -> Seq<u8> {
    seq![0x1bu8, 0x4f, letter]
}

/// The modifiers as a number: one, and one for Shift, two for Alt and four for
/// Control; nothing where none of the three is held.
pub open spec fn modifier_param(m: Modifiers) -> Option<u8> {
    let n = 1 + (if m.shift {
        1int
    } else {
        0
    }) + (if m.alt {
        2int
    } else {
        0
    }) + (if m.control {
        4int
    } else {
        0
    });
    if n > 1 {
        Some(n as u8)
    } else {
        None
    }
}

/// The modifiers as a number.
pub fn xterm_modifier_param(modifiers: Modifiers) -> (r: Option<u8>)
    ensures
        r == modifier_param(modifiers),
{
    let mut param: u8 = 1;
    if modifiers.shift {
        param += 1;
    }
    if modifiers.alt {
        param += 2;
    }
    if modifiers.control {
        param += 4;
    }
    if param > 1 {
        Some(param)
    } else {
        None
    }
}

/// The parameter for modifiers and event type: the modifiers, one where none is
/// held, then a colon and the event type where there is one.
pub open spec fn modifier_field(modifiers: Option<u8>, event: Option<u8>) -> Seq<u8> {
    decimal_bytes(
        if modifiers is Some {
            modifiers->0 as nat
        } else {
            1
        },
    ) + (if event is Some {
        seq![0x3au8] + decimal_bytes(event->0 as nat)
    } else {
        Seq::empty()
    })
}

fn push_modifier_field(seq: &mut Vec<u8>, modifiers: Option<u8>, event: Option<u8>)
    ensures
        final(seq)@ == old(seq)@ + modifier_field(modifiers, event),
{
    let m: u8 = match modifiers {
        Some(m) => m,
        None => 1,
    };
    push_number(seq, m as u32);
    if let Some(ev) = event {
        seq.push(0x3a);
        push_number(seq, ev as u32);
    }
    proof {
        assert(seq@ =~= old(seq)@ + modifier_field(modifiers, event));
    }
}

/// `ESC [` and a letter; with modifiers or an event type, `ESC [ 1 ;`, the
/// parameter and the letter.
pub open spec fn csi_letter(letter: u8, modifiers: Option<u8>, event: Option<u8>) -> Seq<u8> {
    if modifiers is None && event is None {
        seq![0x1bu8, 0x5b, letter]
    } else {
        seq![0x1bu8, 0x5b, 0x31, 0x3b] + modifier_field(modifiers, event) + seq![letter]
    }
}

/// `ESC [`, a number and a tilde; with modifiers or an event type, a semicolon
/// and the parameter before the tilde.
pub open spec fn csi_tilde(code: u8, modifiers: Option<u8>, event: Option<u8>) -> Seq<u8> {
    seq![0x1bu8, 0x5b] + decimal_bytes(code as nat) + (if modifiers is None && event is None {
        Seq::empty()
    } else {
        seq![0x3bu8] + modifier_field(modifiers, event)
    }) + seq![0x7eu8]
}

/// Each number after a colon.
pub open spec fn colon_numbers(numbers: Seq<u32>) -> Seq<u8>
    decreases numbers.len(),
{
    if numbers.len() == 0 {
        Seq::empty()
    } else {
        colon_numbers(numbers.drop_last()) + seq![0x3au8] + decimal_bytes(numbers.last() as nat)
    }
}

/// The numbers with colons between them.
pub open spec fn colon_separated(numbers: Seq<u32>) -> Seq<u8>
    decreases numbers.len(),
{
    if numbers.len() == 0 {
        Seq::empty()
    } else if numbers.len() == 1 {
        decimal_bytes(numbers[0] as nat)
    } else {
        colon_separated(numbers.drop_last()) + seq![0x3au8] + decimal_bytes(numbers.last() as nat)
    }
}

/// `ESC [`, the code point and its alternates; the parameter for modifiers and
/// event type where there is any; the code points of the text where there is
/// any; and the letter `u`.
pub open spec fn csi_u(
    codepoint: u32,
    alternates: Seq<u32>,
    modifiers: Option<u8>,
    event: Option<u8>,
    text: Seq<u32>,
) -> Seq<u8> {
    seq![0x1bu8, 0x5b] + decimal_bytes(codepoint as nat) + colon_numbers(alternates) + (
    if modifiers is None && event is None {
        Seq::empty()
    } else {
        seq![0x3bu8] + modifier_field(modifiers, event)
    }) + (if text.len() == 0 {
        Seq::empty()
    } else {
        seq![0x3bu8] + colon_separated(text)
    }) + seq![0x75u8]
}

fn build_csi_letter_seq(letter: u8, modifier_param: Option<u8>, event_type: Option<u8>) -> (r: Vec<
    u8,
>)
    ensures
        r@ == csi_letter(letter, modifier_param, event_type),
{
    if modifier_param.is_none() && event_type.is_none() {
        return three_bytes(0x1b, 0x5b, letter);
    }
    let mut seq: Vec<u8> = two_bytes(0x1b, 0x5b);
    seq.push(0x31);
    seq.push(0x3b);
    push_modifier_field(&mut seq, modifier_param, event_type);
    seq.push(letter);
    proof {
        assert(seq@ =~= csi_letter(letter, modifier_param, event_type));
    }
    seq
}

fn build_csi_tilde_seq(code: u8, modifier_param: Option<u8>, event_type: Option<u8>) -> (r: Vec<u8>)
    ensures
        r@ == csi_tilde(code, modifier_param, event_type),
{
    let mut seq: Vec<u8> = two_bytes(0x1b, 0x5b);
    push_number(&mut seq, code as u32);
    if modifier_param.is_some() || event_type.is_some() {
        seq.push(0x3b);
        push_modifier_field(&mut seq, modifier_param, event_type);
    }
    seq.push(0x7e);
    proof {
        assert(seq@ =~= csi_tilde(code, modifier_param, event_type));
    }
    seq
}

fn build_csi_u_seq(
    codepoint: u32,
    alternates: &[u32],
    modifier_param: Option<u8>,
    event_type: Option<u8>,
    text_codepoints: &[u32],
) -> (r: Vec<u8>)
    ensures
        r@ == csi_u(codepoint, alternates@, modifier_param, event_type, text_codepoints@),
{
    let mut seq: Vec<u8> = two_bytes(0x1b, 0x5b);
    push_number(&mut seq, codepoint);
    let ghost head = seq@;
    let mut i: usize = 0;
    proof {
        assert(alternates@.take(0) =~= Seq::<u32>::empty());
        assert(head + colon_numbers(alternates@.take(0)) =~= head);
    }
    while i < alternates.len()
        invariant
            i <= alternates@.len(),
            seq@ == head + colon_numbers(alternates@.take(i as int)),
        decreases alternates@.len() - i,
    {
        let ghost before = colon_numbers(alternates@.take(i as int));
        seq.push(0x3a);
        push_number(&mut seq, alternates[i]);
        i += 1;
        proof {
            assert(alternates@.take(i as int).drop_last() =~= alternates@.take(i - 1));
            assert(seq@ =~= head + (before + seq![0x3au8] + decimal_bytes(
                alternates@[i - 1] as nat,
            )));
        }
    }
    proof {
        assert(alternates@.take(alternates@.len() as int) =~= alternates@);
    }
    if modifier_param.is_some() || event_type.is_some() {
        seq.push(0x3b);
        push_modifier_field(&mut seq, modifier_param, event_type);
    }
    let ghost front = seq@;
    if text_codepoints.len() > 0 {
        seq.push(0x3b);
        push_number(&mut seq, text_codepoints[0]);
        let mut j: usize = 1;
        proof {
            assert(text_codepoints@.take(1) =~= seq![text_codepoints@[0]]);
            assert(seq@ =~= front + seq![0x3bu8] + colon_separated(text_codepoints@.take(1)));
        }
        while j < text_codepoints.len()
            invariant
                1 <= j <= text_codepoints@.len(),
                seq@ == front + seq![0x3bu8] + colon_separated(text_codepoints@.take(j as int)),
            decreases text_codepoints@.len() - j,
        {
            let ghost before = colon_separated(text_codepoints@.take(j as int));
            seq.push(0x3a);
            push_number(&mut seq, text_codepoints[j]);
            j += 1;
            proof {
                assert(text_codepoints@.take(j as int).drop_last() =~= text_codepoints@.take(
                    j - 1,
                ));
                assert(seq@ =~= front + seq![0x3bu8] + (before + seq![0x3au8] + decimal_bytes(
                    text_codepoints@[j - 1] as nat,
                )));
            }
        }
        proof {
            assert(text_codepoints@.take(text_codepoints@.len() as int) =~= text_codepoints@);
        }
    }
    seq.push(0x75);
    proof {
        assert(seq@ =~= csi_u(
            codepoint,
            alternates@,
            modifier_param,
            event_type,
            text_codepoints@,
        ));
    }
    seq
}

// ---- Tables ----

/// The letter of an arrow key, Home or End.
pub open spec fn cursor_letter(named: NamedKey) -> Option<u8> {
    match named {
        NamedKey::ArrowUp => Some(0x41),
        NamedKey::ArrowDown => Some(0x42),
        NamedKey::ArrowRight => Some(0x43),
        NamedKey::ArrowLeft => Some(0x44),
        NamedKey::Home => Some(0x48),
        NamedKey::End => Some(0x46),
        _ => None,
    }
}

fn csi_letter_for_named(named: NamedKey) -> (r: Option<u8>)
    ensures
        r == cursor_letter(named),
{
    match named {
        NamedKey::ArrowUp => Some(0x41),
        NamedKey::ArrowDown => Some(0x42),
        NamedKey::ArrowRight => Some(0x43),
        NamedKey::ArrowLeft => Some(0x44),
        NamedKey::Home => Some(0x48),
        NamedKey::End => Some(0x46),
        _ => None,
    }
}

/// The number of an editing key.
pub open spec fn editing_code(named: NamedKey) -> Option<u8> {
    match named {
        NamedKey::Insert => Some(2),
        NamedKey::Delete => Some(3),
        NamedKey::PageUp => Some(5),
        NamedKey::PageDown => Some(6),
        _ => None,
    }
}

fn csi_tilde_code_for_named(named: NamedKey) -> (r: Option<u8>)
    ensures
        r == editing_code(named),
{
    match named {
        NamedKey::Insert => Some(2),
        NamedKey::Delete => Some(3),
        NamedKey::PageUp => Some(5),
        NamedKey::PageDown => Some(6),
        _ => None,
    }
}

/// The letter of F1 to F4.
pub open spec fn function_letter(named: NamedKey) -> Option<u8> {
    match named {
        NamedKey::F1 => Some(0x50),
        NamedKey::F2 => Some(0x51),
        NamedKey::F3 => Some(0x52),
        NamedKey::F4 => Some(0x53),
        _ => None,
    }
}

fn ss3_letter_for_fkey(named: NamedKey) -> (r: Option<u8>)
    ensures
        r == function_letter(named),
{
    match named {
        NamedKey::F1 => Some(0x50),
        NamedKey::F2 => Some(0x51),
        NamedKey::F3 => Some(0x52),
        NamedKey::F4 => Some(0x53),
        _ => None,
    }
}

/// The number of F5 to F20.
pub open spec fn function_code(named: NamedKey) -> Option<u8> {
    match named {
        NamedKey::F5 => Some(15),
        NamedKey::F6 => Some(17),
        NamedKey::F7 => Some(18),
        NamedKey::F8 => Some(19),
        NamedKey::F9 => Some(20),
        NamedKey::F10 => Some(21),
        NamedKey::F11 => Some(23),
        NamedKey::F12 => Some(24),
        NamedKey::F13 => Some(25),
        NamedKey::F14 => Some(26),
        NamedKey::F15 => Some(28),
        NamedKey::F16 => Some(29),
        NamedKey::F17 => Some(31),
        NamedKey::F18 => Some(32),
        NamedKey::F19 => Some(33),
        NamedKey::F20 => Some(34),
        _ => None,
    }
}

fn fkey_tilde_code(named: NamedKey) -> (r: Option<u8>)
    ensures
        r == function_code(named),
{
    match named {
        NamedKey::F5 => Some(15),
        NamedKey::F6 => Some(17),
        NamedKey::F7 => Some(18),
        NamedKey::F8 => Some(19),
        NamedKey::F9 => Some(20),
        NamedKey::F10 => Some(21),
        NamedKey::F11 => Some(23),
        NamedKey::F12 => Some(24),
        NamedKey::F13 => Some(25),
        NamedKey::F14 => Some(26),
        NamedKey::F15 => Some(28),
        NamedKey::F16 => Some(29),
        NamedKey::F17 => Some(31),
        NamedKey::F18 => Some(32),
        NamedKey::F19 => Some(33),
        NamedKey::F20 => Some(34),
        _ => None,
    }
}

/// The letter of F1, F2 and F4 where event types are reported.
pub open spec fn kitty_function_letter(named: NamedKey) -> Option<u8> {
    match named {
        NamedKey::F1 => Some(0x50),
        NamedKey::F2 => Some(0x51),
        NamedKey::F4 => Some(0x53),
        _ => None,
    }
}

fn kitty_csi_letter_for_fkey(named: NamedKey) -> (r: Option<u8>)
    ensures
        r == kitty_function_letter(named),
{
    match named {
        NamedKey::F1 => Some(0x50),
        NamedKey::F2 => Some(0x51),
        NamedKey::F4 => Some(0x53),
        _ => None,
    }
}

/// The number of F3 and of F5 to F12 where event types are reported.
pub open spec fn kitty_function_code(named: NamedKey) -> Option<u8> {
    match named {
        NamedKey::F3 => Some(13),
        NamedKey::F5 => Some(15),
        NamedKey::F6 => Some(17),
        NamedKey::F7 => Some(18),
        NamedKey::F8 => Some(19),
        NamedKey::F9 => Some(20),
        NamedKey::F10 => Some(21),
        NamedKey::F11 => Some(23),
        NamedKey::F12 => Some(24),
        _ => None,
    }
}

fn kitty_fkey_tilde_code(named: NamedKey) -> (r: Option<u8>)
    ensures
        r == kitty_function_code(named),
{
    match named {
        NamedKey::F3 => Some(13),
        NamedKey::F5 => Some(15),
        NamedKey::F6 => Some(17),
        NamedKey::F7 => Some(18),
        NamedKey::F8 => Some(19),
        NamedKey::F9 => Some(20),
        NamedKey::F10 => Some(21),
        NamedKey::F11 => Some(23),
        NamedKey::F12 => Some(24),
        _ => None,
    }
}

/// The letter of a key on the application keypad.
pub open spec fn keypad_letter(c: char) -> Option<u8> {
    match c {
        '0' => Some(0x70),
        '1' => Some(0x71),
        '2' => Some(0x72),
        '3' => Some(0x73),
        '4' => Some(0x74),
        '5' => Some(0x75),
        '6' => Some(0x76),
        '7' => Some(0x77),
        '8' => Some(0x78),
        '9' => Some(0x79),
        '.' => Some(0x6e),
        ',' => Some(0x6c),
        '-' => Some(0x6d),
        '+' => Some(0x6b),
        '*' => Some(0x6a),
        '/' => Some(0x6f),
        '=' => Some(0x58),
        _ => None,
    }
}

fn numpad_char_ss3_letter(c: char) -> (r: Option<u8>)
    ensures
        r == keypad_letter(c),
{
    match c {
        '0' => Some(0x70),
        '1' => Some(0x71),
        '2' => Some(0x72),
        '3' => Some(0x73),
        '4' => Some(0x74),
        '5' => Some(0x75),
        '6' => Some(0x76),
        '7' => Some(0x77),
        '8' => Some(0x78),
        '9' => Some(0x79),
        '.' => Some(0x6e),
        ',' => Some(0x6c),
        '-' => Some(0x6d),
        '+' => Some(0x6b),
        '*' => Some(0x6a),
        '/' => Some(0x6f),
        '=' => Some(0x58),
        _ => None,
    }
}

/// The private code point of a modifier or lock key.
pub open spec fn modifier_codepoint(named: NamedKey, location: KeyLocation) -> Option<u32> {
    let right = location == KeyLocation::Right;
    match named {
        NamedKey::Shift => Some(if right {
            57447
        } else {
            57441
        }),
        NamedKey::Control => Some(if right {
            57448
        } else {
            57442
        }),
        NamedKey::Alt => Some(if right {
            57449
        } else {
            57443
        }),
        NamedKey::Super => Some(if right {
            57450
        } else {
            57444
        }),
        NamedKey::CapsLock => Some(57358),
        NamedKey::NumLock => Some(57360),
        _ => None,
    }
}

fn kitty_modifier_lock_codepoint(named: NamedKey, location: KeyLocation) -> (r: Option<u32>)
    ensures
        r == modifier_codepoint(named, location),
{
    let right = location == KeyLocation::Right;
    match named {
        NamedKey::Shift => Some(if right {
            57447
        } else {
            57441
        }),
        NamedKey::Control => Some(if right {
            57448
        } else {
            57442
        }),
        NamedKey::Alt => Some(if right {
            57449
        } else {
            57443
        }),
        NamedKey::Super => Some(if right {
            57450
        } else {
            57444
        }),
        NamedKey::CapsLock => Some(57358),
        NamedKey::NumLock => Some(57360),
        _ => None,
    }
}

/// The code point of a key that types a control character or a space, and of F13 to F20.
pub open spec fn special_codepoint(named: NamedKey) -> Option<u32> {
    match named {
        NamedKey::Escape => Some(27),
        NamedKey::Enter => Some(13),
        NamedKey::Tab => Some(9),
        NamedKey::Backspace => Some(127),
        NamedKey::Space => Some(32),
        NamedKey::F13 => Some(57376),
        NamedKey::F14 => Some(57377),
        NamedKey::F15 => Some(57378),
        NamedKey::F16 => Some(57379),
        NamedKey::F17 => Some(57380),
        NamedKey::F18 => Some(57381),
        NamedKey::F19 => Some(57382),
        NamedKey::F20 => Some(57383),
        _ => None,
    }
}

fn kitty_special_codepoint(named: NamedKey) -> (r: Option<u32>)
    ensures
        r == special_codepoint(named),
{
    match named {
        NamedKey::Escape => Some(27),
        NamedKey::Enter => Some(13),
        NamedKey::Tab => Some(9),
        NamedKey::Backspace => Some(127),
        NamedKey::Space => Some(32),
        NamedKey::F13 => Some(57376),
        NamedKey::F14 => Some(57377),
        NamedKey::F15 => Some(57378),
        NamedKey::F16 => Some(57379),
        NamedKey::F17 => Some(57380),
        NamedKey::F18 => Some(57381),
        NamedKey::F19 => Some(57382),
        NamedKey::F20 => Some(57383),
        _ => None,
    }
}

/// The code point that stands for a named key, where it has one.
pub open spec fn functional_codepoint(named: NamedKey, location: KeyLocation) -> Option<u32> {
    if modifier_codepoint(named, location) is Some {
        modifier_codepoint(named, location)
    } else {
        special_codepoint(named)
    }
}

fn kitty_functional_codepoint(named: NamedKey, location: KeyLocation) -> (r: Option<u32>)
    ensures
        r == functional_codepoint(named, location),
{
    match kitty_modifier_lock_codepoint(named, location) {
        Some(codepoint) => Some(codepoint),
        None => kitty_special_codepoint(named),
    }
}

/// Escape, Enter, Tab and Backspace, by code point.
pub open spec fn is_text_special(codepoint: u32) -> bool {
    codepoint == 27 || codepoint == 13 || codepoint == 9 || codepoint == 127
}

fn is_kitty_text_special(codepoint: u32) -> (r: bool)
    ensures
        r == is_text_special(codepoint),
{
    codepoint == 27 || codepoint == 13 || codepoint == 9 || codepoint == 127
}

/// The modifier and lock keys, by code point.
pub open spec fn is_modifier(codepoint: u32) -> bool {
    57441 <= codepoint <= 57444 || 57447 <= codepoint <= 57450 || codepoint == 57358 || codepoint
        == 57360
}

fn is_kitty_modifier_codepoint(codepoint: u32) -> (r: bool)
    ensures
        r == is_modifier(codepoint),
{
    (57441 <= codepoint && codepoint <= 57444) || (57447 <= codepoint && codepoint <= 57450)
        || codepoint == 57358 || codepoint == 57360
}

// ---- The legacy encoding ----

/// The control byte of an ASCII letter.
pub open spec fn control_byte(c: char) -> Option<u8> {
    if 'a' <= c <= 'z' {
        Some((c as u32 - 'a' as u32 + 1) as u8)
    } else if 'A' <= c <= 'Z' {
        Some((c as u32 - 'A' as u32 + 1) as u8)
    } else {
        None
    }
}

/// The control byte of an ASCII letter.
pub fn char_to_control_byte(c: char) -> (r: Option<u8>)
    ensures
        r == control_byte(c),
{
    if 'a' <= c && c <= 'z' {
        Some(((c as u32) - 0x61 + 1) as u8)
    } else if 'A' <= c && c <= 'Z' {
        Some(((c as u32) - 0x41 + 1) as u8)
    } else {
        None
    }
}

/// A character: its control byte under Control, itself otherwise, after `ESC`
/// under Alt, and nothing under the platform key.
pub open spec fn legacy_char(c: char, m: Modifiers) -> Option<Seq<u8>> {
    if m.platform {
        None
    } else if m.control {
        match control_byte(c) {
            None => None,
            Some(b) => Some(
                if m.alt {
                    seq![0x1b, b]
                } else {
                    seq![b]
                },
            ),
        }
    } else if m.alt {
        Some(seq![0x1bu8] + encode_utf8(seq![c]))
    } else {
        Some(encode_utf8(seq![c]))
    }
}

fn translate_character_with_modifiers(c: char, modifiers: Modifiers) -> (r: Option<Vec<u8>>)
    ensures
        bytes_of(r) == legacy_char(c, modifiers),
{
    if modifiers.platform {
        return None;
    }
    if modifiers.control {
        match char_to_control_byte(c) {
            None => None,
            Some(b) => if modifiers.alt {
                Some(two_bytes(0x1b, b))
            } else {
                Some(one_byte(b))
            },
        }
    } else if modifiers.alt {
        let mut bytes = one_byte(0x1b);
        let mut tail = char_utf8(c);
        bytes.append(&mut tail);
        Some(bytes)
    } else {
        Some(char_utf8(c))
    }
}

/// Backspace, Space, Enter, Tab and Escape.
pub open spec fn legacy_special(named: NamedKey, m: Modifiers) -> Option<Seq<u8>> {
    match named {
        NamedKey::Backspace => Some(
            if m.control && m.alt {
                seq![0x1bu8, 0x08]
            } else if m.alt {
                seq![0x1bu8, 0x7f]
            } else if m.control {
                seq![0x08u8]
            } else {
                seq![0x7fu8]
            },
        ),
        NamedKey::Space => Some(
            if m.control {
                seq![0u8]
            } else if m.alt {
                seq![0x1bu8, 0x20]
            } else {
                seq![0x20u8]
            },
        ),
        NamedKey::Enter => Some(
            if m.alt {
                seq![0x1bu8, 0x0d]
            } else {
                seq![0x0du8]
            },
        ),
        NamedKey::Tab => Some(
            if m.shift {
                seq![0x1bu8, 0x5b, 0x5a]
            } else {
                seq![0x09u8]
            },
        ),
        NamedKey::Escape => Some(seq![0x1bu8]),
        _ => None,
    }
}

/// What a key with bytes of its own sends without the Kitty protocol.
pub fn translate_named_special(named: NamedKey, modifiers: Modifiers) -> (r: Option<Vec<u8>>)
    ensures
        bytes_of(r) == legacy_special(named, modifiers),
{
    match named {
        NamedKey::Backspace => Some(
            if modifiers.control && modifiers.alt {
                two_bytes(0x1b, 0x08)
            } else if modifiers.alt {
                two_bytes(0x1b, 0x7f)
            } else if modifiers.control {
                one_byte(0x08)
            } else {
                one_byte(0x7f)
            },
        ),
        NamedKey::Space => Some(
            if modifiers.control {
                one_byte(0)
            } else if modifiers.alt {
                two_bytes(0x1b, 0x20)
            } else {
                one_byte(0x20)
            },
        ),
        NamedKey::Enter => Some(
            if modifiers.alt {
                two_bytes(0x1b, 0x0d)
            } else {
                one_byte(0x0d)
            },
        ),
        NamedKey::Tab => Some(
            if modifiers.shift {
                three_bytes(0x1b, 0x5b, 0x5a)
            } else {
                one_byte(0x09)
            },
        ),
        NamedKey::Escape => Some(one_byte(0x1b)),
        _ => None,
    }
}

/// An arrow key, Home or End: on application cursor keys `ESC O` and the letter,
/// unless modifiers or an event type have to be carried.
pub open spec fn cursor_seq(
    named: NamedKey,
    modifiers: Option<u8>,
    event: Option<u8>,
    app_cursor: bool,
) -> Option<Seq<u8>> {
    match cursor_letter(named) {
        None => None,
        Some(letter) => Some(
            if app_cursor && modifiers is None && event is None {
                ss3(letter)
            } else {
                csi_letter(letter, modifiers, event)
            },
        ),
    }
}

fn translate_named_csi_letter_with_event(
    named: NamedKey,
    modifier_param: Option<u8>,
    event_type: Option<u8>,
    app_cursor: bool,
) -> (r: Option<Vec<u8>>)
    ensures
        bytes_of(r) == cursor_seq(named, modifier_param, event_type, app_cursor),
{
    match csi_letter_for_named(named) {
        None => None,
        Some(letter) => Some(
            if app_cursor && modifier_param.is_none() && event_type.is_none() {
                three_bytes(0x1b, 0x4f, letter)
            } else {
                build_csi_letter_seq(letter, modifier_param, event_type)
            },
        ),
    }
}

/// An editing key.
pub open spec fn editing_seq(
    named: NamedKey,
    modifiers: Option<u8>,
    event: Option<u8>,
) -> Option<Seq<u8>> {
    match editing_code(named) {
        None => None,
        Some(code) => Some(csi_tilde(code, modifiers, event)),
    }
}

fn translate_named_csi_tilde_with_event(
    named: NamedKey,
    modifier_param: Option<u8>,
    event_type: Option<u8>,
) -> (r: Option<Vec<u8>>)
    ensures
        bytes_of(r) == editing_seq(named, modifier_param, event_type),
{
    match csi_tilde_code_for_named(named) {
        None => None,
        Some(code) => Some(build_csi_tilde_seq(code, modifier_param, event_type)),
    }
}

/// A function key in the legacy encoding.
pub open spec fn function_seq(named: NamedKey, modifiers: Option<u8>) -> Option<Seq<u8>> {
    match function_letter(named) {
        Some(letter) => Some(
            if modifiers is None {
                ss3(letter)
            } else {
                csi_letter(letter, modifiers, None)
            },
        ),
        None => match function_code(named) {
            Some(code) => Some(csi_tilde(code, modifiers, None)),
            None => None,
        },
    }
}

fn translate_named_function_key(named: NamedKey, modifier_param: Option<u8>) -> (r: Option<Vec<u8>>)
    ensures
        bytes_of(r) == function_seq(named, modifier_param),
{
    match ss3_letter_for_fkey(named) {
        Some(letter) => Some(
            if modifier_param.is_none() {
                three_bytes(0x1b, 0x4f, letter)
            } else {
                build_csi_letter_seq(letter, modifier_param, None)
            },
        ),
        None => match fkey_tilde_code(named) {
            Some(code) => Some(build_csi_tilde_seq(code, modifier_param, None)),
            None => None,
        },
    }
}

/// The first of three answers that there is.
pub open spec fn first_of(
    a: Option<Seq<u8>>,
    b: Option<Seq<u8>>,
    c: Option<Seq<u8>>,
) -> Option<Seq<u8>> {
    if a is Some {
        a
    } else if b is Some {
        b
    } else {
        c
    }
}

/// A named key in the legacy encoding; nothing under the platform key.
pub open spec fn legacy_named(named: NamedKey, m: Modifiers, app_cursor: bool) -> Option<Seq<u8>> {
    let p = modifier_param(m);
    if m.platform {
        None
    } else if legacy_special(named, m) is Some {
        legacy_special(named, m)
    } else {
        first_of(
            cursor_seq(named, p, None, app_cursor),
            editing_seq(named, p, None),
            function_seq(named, p),
        )
    }
}

fn translate_named_legacy(named: NamedKey, modifiers: Modifiers, app_cursor: bool) -> (r: Option<
    Vec<u8>,
>)
    ensures
        bytes_of(r) == legacy_named(named, modifiers, app_cursor),
{
    if modifiers.platform {
        return None;
    }
    if let Some(bytes) = translate_named_special(named, modifiers) {
        return Some(bytes);
    }
    let modifier_param = xterm_modifier_param(modifiers);
    if let Some(bytes) = translate_named_csi_letter_with_event(
        named,
        modifier_param,
        None,
        app_cursor,
    ) {
        return Some(bytes);
    }
    if let Some(bytes) = translate_named_csi_tilde_with_event(named, modifier_param, None) {
        return Some(bytes);
    }
    translate_named_function_key(named, modifier_param)
}

/// A key of the application keypad.
pub open spec fn keypad_seq(input: KeyInput) -> Option<Seq<u8>> {
    if input.location != KeyLocation::Numpad {
        None
    } else {
        match input.token {
            KeyToken::Char(c) => match keypad_letter(c) {
                Some(letter) => Some(ss3(letter)),
                None => None,
            },
            KeyToken::Named(named) => if named == NamedKey::Enter {
                Some(ss3(0x4d))
            } else {
                None
            },
        }
    }
}

fn translate_numpad_app_keypad(input: &KeyInput) -> (r: Option<Vec<u8>>)
    ensures
        bytes_of(r) == keypad_seq(*input),
{
    if input.location != KeyLocation::Numpad {
        return None;
    }
    match input.token {
        KeyToken::Char(c) => match numpad_char_ss3_letter(c) {
            Some(letter) => Some(three_bytes(0x1b, 0x4f, letter)),
            None => None,
        },
        KeyToken::Named(named) => if named == NamedKey::Enter {
            Some(three_bytes(0x1b, 0x4f, 0x4d))
        } else {
            None
        },
    }
}

// ---- The Kitty protocol ----

/// The event type, where event types are reported: 2 for repeat, 3 for release,
/// and nothing for a press.
pub open spec fn event_type(state: KeyState, flags: KittyFlags) -> Option<u8> {
    if !flags.event_types() {
        None
    } else {
        match state {
            KeyState::Released => Some(3),
            KeyState::Repeat => Some(2),
            KeyState::Pressed => None,
        }
    }
}

fn kitty_event_type(input: &KeyInput, flags: KittyFlags) -> (r: Option<u8>)
    ensures
        r == event_type(input.state, flags),
{
    if !flags.report_event_types() {
        return None;
    }
    match input.state {
        KeyState::Released => Some(3),
        KeyState::Repeat => Some(2),
        KeyState::Pressed => None,
    }
}

/// The code point of the key without modifiers: of its base character where that
/// is known, and else of the character in lower case.
pub open spec fn base_codepoint(input: KeyInput, logical: char) -> u32 {
    match input.base {
        Some(base) => base as u32,
        None => ascii_lower(logical) as u32,
    }
}

fn base_codepoint_for_character(input: &KeyInput, logical: char) -> (r: u32)
    ensures
        r == base_codepoint(*input, logical),
{
    match input.base {
        Some(base) => base as u32,
        None => ascii_lower_char(logical) as u32,
    }
}

/// The shifted character, where alternates are reported and it differs from the
/// key's own.
pub open spec fn alternates(logical: char, base: u32, flags: KittyFlags) -> Seq<u32> {
    if flags.alternate_keys() && logical as u32 != 0 && logical as u32 != base {
        seq![logical as u32]
    } else {
        Seq::empty()
    }
}

fn alternate_codepoints(logical: char, base: u32, flags: KittyFlags) -> (r: Vec<u32>)
    ensures
        r@ == alternates(logical, base, flags),
{
    let mut r: Vec<u32> = Vec::new();
    let shifted: u32 = logical as u32;
    if flags.report_alternate_keys() && shifted != 0 && shifted != base {
        r.push(shifted);
    }
    r
}

/// The code points of a text, but for control characters.
pub open spec fn printable_codepoints(text: Seq<char>) -> Seq<u32>
    decreases text.len(),
{
    if text.len() == 0 {
        Seq::empty()
    } else if is_control(text.last()) {
        printable_codepoints(text.drop_last())
    } else {
        printable_codepoints(text.drop_last()).push(text.last() as u32)
    }
}

/// The code points of the text that an event types, where they are reported. A
/// release types nothing.
pub open spec fn text_codepoints(input: KeyInput, flags: KittyFlags) -> Seq<u32> {
    if !flags.associated_text() || input.state == KeyState::Released {
        Seq::empty()
    } else {
        match input.text {
            Some(text) => printable_codepoints(text@),
            None => Seq::empty(),
        }
    }
}

fn associated_text_codepoints(input: &KeyInput, flags: KittyFlags) -> (r: Vec<u32>)
    ensures
        r@ == text_codepoints(*input, flags),
{
    let mut r: Vec<u32> = Vec::new();
    if !flags.report_associated_text() || input.state == KeyState::Released {
        return r;
    }
    if let Some(text) = &input.text {
        let chars = chars_of(text.as_str());
        let mut i: usize = 0;
        proof {
            assert(chars@.take(0) =~= Seq::<char>::empty());
        }
        while i < chars.len()
            invariant
                i <= chars@.len(),
                r@ == printable_codepoints(chars@.take(i as int)),
            decreases chars@.len() - i,
        {
            proof {
                assert(chars@.take(i + 1).drop_last() =~= chars@.take(i as int));
            }
            if !is_control_char(chars[i]) {
                r.push(chars[i] as u32);
            }
            i += 1;
        }
        proof {
            assert(chars@.take(chars@.len() as int) =~= chars@);
        }
    }
    r
}

/// Whether a character has to be sent as an escape code: every key is, another
/// modifier than Shift is held, an event type has to be carried, or its shifted
/// alternate does.
pub open spec fn char_needs_csi(input: KeyInput, flags: KittyFlags) -> bool {
    let m = input.modifiers;
    flags.all_keys() || m.control || m.alt || m.platform || event_type(input.state, flags) is Some
        || (flags.alternate_keys() && m.shift)
}

/// A character in the Kitty protocol: the text that it types, or else an escape
/// code.
pub open spec fn kitty_char(input: KeyInput, logical: char, flags: KittyFlags) -> Option<Seq<u8>> {
    let base = base_codepoint(input, logical);
    if !char_needs_csi(input, flags) {
        match input.text {
            Some(text) => Some(encode_utf8(text@)),
            None => Some(encode_utf8(seq![logical])),
        }
    } else {
        Some(
            csi_u(
                base,
                alternates(logical, base, flags),
                modifier_param(input.modifiers),
                event_type(input.state, flags),
                text_codepoints(input, flags),
            ),
        )
    }
}

fn translate_character_kitty(input: &KeyInput, logical: char, flags: KittyFlags) -> (r: Option<
    Vec<u8>,
>)
    ensures
        bytes_of(r) == kitty_char(*input, logical, flags),
{
    let modifiers = input.modifiers;
    let base = base_codepoint_for_character(input, logical);
    let modifier_param = xterm_modifier_param(modifiers);
    let event_type = kitty_event_type(input, flags);
    let has_forcing_modifier = modifiers.control || modifiers.alt || modifiers.platform;
    let needs_csi = flags.report_all_keys() || has_forcing_modifier || event_type.is_some() || (
    flags.report_alternate_keys() && modifiers.shift);
    if !needs_csi {
        return match &input.text {
            Some(text) => Some(text.as_str().as_bytes_vec()),
            None => Some(char_utf8(logical)),
        };
    }
    let alternates = alternate_codepoints(logical, base, flags);
    let text_codepoints = associated_text_codepoints(input, flags);
    Some(
        build_csi_u_seq(
            base,
            alternates.as_slice(),
            modifier_param,
            event_type,
            text_codepoints.as_slice(),
        ),
    )
}

/// A function key where event types are reported.
pub open spec fn kitty_function_seq(
    named: NamedKey,
    modifiers: Option<u8>,
    event: Option<u8>,
) -> Option<Seq<u8>> {
    match kitty_function_letter(named) {
        Some(letter) => Some(csi_letter(letter, modifiers, event)),
        None => match kitty_function_code(named) {
            Some(code) => Some(csi_tilde(code, modifiers, event)),
            None => None,
        },
    }
}

fn translate_named_kitty_function_key_with_event(
    named: NamedKey,
    modifier_param: Option<u8>,
    event_type: Option<u8>,
) -> (r: Option<Vec<u8>>)
    ensures
        bytes_of(r) == kitty_function_seq(named, modifier_param, event_type),
{
    match kitty_csi_letter_for_fkey(named) {
        Some(letter) => Some(build_csi_letter_seq(letter, modifier_param, event_type)),
        None => match kitty_fkey_tilde_code(named) {
            Some(code) => Some(build_csi_tilde_seq(code, modifier_param, event_type)),
            None => None,
        },
    }
}

/// The keys that keep their legacy form and carry the event type in it.
pub open spec fn kitty_legacy_form(
    named: NamedKey,
    modifiers: Option<u8>,
    event: Option<u8>,
    app_cursor: bool,
) -> Option<Seq<u8>> {
    first_of(
        cursor_seq(named, modifiers, event, app_cursor),
        editing_seq(named, modifiers, event),
        kitty_function_seq(named, modifiers, event),
    )
}

fn translate_named_kitty_legacy_functional(
    named: NamedKey,
    modifier_param: Option<u8>,
    event_type: Option<u8>,
    app_cursor: bool,
) -> (r: Option<Vec<u8>>)
    ensures
        bytes_of(r) == kitty_legacy_form(named, modifier_param, event_type, app_cursor),
{
    if let Some(bytes) = translate_named_csi_letter_with_event(
        named,
        modifier_param,
        event_type,
        app_cursor,
    ) {
        return Some(bytes);
    }
    if let Some(bytes) = translate_named_csi_tilde_with_event(named, modifier_param, event_type) {
        return Some(bytes);
    }
    translate_named_kitty_function_key_with_event(named, modifier_param, event_type)
}

/// Whether a named key with a code point has to be sent as an escape code.
pub open spec fn named_needs_csi(codepoint: u32, input: KeyInput, flags: KittyFlags) -> bool {
    (is_text_special(codepoint) && flags.disambiguates()) || flags.all_keys() || modifier_param(
        input.modifiers,
    ) is Some || event_type(input.state, flags) is Some || is_modifier(codepoint)
}

/// A named key in the Kitty protocol. A modifier or lock key is reported only
/// where all keys or event types are; a key that no enhancement asks to change
/// keeps its legacy form.
pub open spec fn kitty_named(input: KeyInput, named: NamedKey, mode: TerminalMode) -> Option<
    Seq<u8>,
> {
    let flags = mode.kitty;
    let p = modifier_param(input.modifiers);
    let event = event_type(input.state, flags);
    let legacy = if input.down() {
        legacy_named(named, input.modifiers, mode.app_cursor)
    } else {
        None
    };
    if event is Some && kitty_legacy_form(named, p, event, mode.app_cursor) is Some {
        kitty_legacy_form(named, p, event, mode.app_cursor)
    } else {
        match functional_codepoint(named, input.location) {
            None => legacy,
            Some(cp) => if is_modifier(cp) && !flags.all_keys() && !flags.event_types() {
                None
            } else if named_needs_csi(cp, input, flags) {
                Some(csi_u(cp, Seq::empty(), p, event, text_codepoints(input, flags)))
            } else {
                legacy
            },
        }
    }
}

fn translate_named_kitty(input: &KeyInput, named: NamedKey, mode: TerminalMode) -> (r: Option<
    Vec<u8>,
>)
    ensures
        bytes_of(r) == kitty_named(*input, named, mode),
{
    let flags = mode.kitty;
    let event_type = kitty_event_type(input, flags);
    let text_codepoints = associated_text_codepoints(input, flags);
    let modifier_param = xterm_modifier_param(input.modifiers);
    if event_type.is_some() {
        if let Some(bytes) = translate_named_kitty_legacy_functional(
            named,
            modifier_param,
            event_type,
            mode.app_cursor,
        ) {
            return Some(bytes);
        }
    }
    if let Some(cp) = kitty_functional_codepoint(named, input.location) {
        if is_kitty_modifier_codepoint(cp) && !flags.report_all_keys()
            && !flags.report_event_types() {
            return None;
        }
        let always_csi = is_kitty_text_special(cp) && flags.disambiguate();
        let needs_csi = always_csi || flags.report_all_keys() || modifier_param.is_some()
            || event_type.is_some() || is_kitty_modifier_codepoint(cp);
        if needs_csi {
            let alternates: Vec<u32> = Vec::new();
            return Some(
                build_csi_u_seq(
                    cp,
                    alternates.as_slice(),
                    modifier_param,
                    event_type,
                    text_codepoints.as_slice(),
                ),
            );
        }
    }
    if !input.is_down() {
        return None;
    }
    translate_named_legacy(named, input.modifiers, mode.app_cursor)
}

/// A key in the Kitty protocol. A release is reported only where event types
/// are, and the platform key alone is not for the terminal.
pub open spec fn kitty_key(input: KeyInput, mode: TerminalMode) -> Option<Seq<u8>> {
    let m = input.modifiers;
    if !mode.kitty.event_types() && !input.down() {
        None
    } else if m.platform && !m.control && !m.alt && !m.shift {
        None
    } else {
        match input.token {
            KeyToken::Char(c) => kitty_char(input, c, mode.kitty),
            KeyToken::Named(named) => kitty_named(input, named, mode),
        }
    }
}

fn translate_key_kitty(input: &KeyInput, mode: TerminalMode) -> (r: Option<Vec<u8>>)
    ensures
        bytes_of(r) == kitty_key(*input, mode),
{
    if !mode.kitty.report_event_types() && !input.is_down() {
        return None;
    }
    let m = input.modifiers;
    if m.platform && !m.control && !m.alt && !m.shift {
        return None;
    }
    match input.token {
        KeyToken::Char(c) => translate_character_kitty(input, c, mode.kitty),
        KeyToken::Named(named) => translate_named_kitty(input, named, mode),
    }
}

/// Control, Alt, Shift and the platform key are all up.
pub open spec fn no_modifiers(m: Modifiers) -> bool {
    !m.control && !m.alt && !m.shift && !m.platform
}

fn mods_empty(m: Modifiers) -> (r: bool)
    ensures
        r == no_modifiers(m),
{
    !m.control && !m.alt && !m.shift && !m.platform
}

/// The bytes of a key in the legacy encoding. A release sends nothing.
pub open spec fn legacy_key(input: KeyInput, app_cursor: bool) -> Option<Seq<u8>> {
    if !input.down() {
        None
    } else {
        match input.token {
            KeyToken::Char(c) => legacy_char(c, input.modifiers),
            KeyToken::Named(named) => legacy_named(named, input.modifiers, app_cursor),
        }
    }
}

/// The bytes that a key event sends, if any. An unmodified key of the
/// application keypad goes first; then the encoding is the Kitty protocol's
/// where any of its enhancements is on, and the legacy one where none is.
pub open spec fn encoded(input: KeyInput, mode: TerminalMode) -> Option<Seq<u8>> {
    if mode.app_keypad && input.down() && no_modifiers(input.modifiers) && keypad_seq(
        input,
    ) is Some {
        keypad_seq(input)
    } else if !mode.kitty.any() {
        legacy_key(input, mode.app_cursor)
    } else {
        kitty_key(input, mode)
    }
}

/// The bytes that a key event sends to the terminal; `None` where it sends none.
pub fn encode(input: &KeyInput, mode: TerminalMode) -> (r: Option<Vec<u8>>)
    ensures
        bytes_of(r) == encoded(*input, mode),
{
    if mode.app_keypad && input.is_down() && mods_empty(input.modifiers) {
        if let Some(bytes) = translate_numpad_app_keypad(input) {
            return Some(bytes);
        }
    }
    if mode.kitty.legacy() {
        if !input.is_down() {
            return None;
        }
        return match input.token {
            KeyToken::Char(c) => translate_character_with_modifiers(c, input.modifiers),
            KeyToken::Named(named) => translate_named_legacy(
                named,
                input.modifiers,
                mode.app_cursor,
            ),
        };
    }
    translate_key_kitty(input, mode)
}

// ---- Laws ----

/// A release sends nothing unless the application asked for event types.
pub proof fn releases_are_silent(input: KeyInput, mode: TerminalMode)
    requires
        input.state == KeyState::Released,
        !mode.kitty.event_types(),
    ensures
        encoded(input, mode) is None,
{
}

/// A key under the platform key and no other modifier never reaches the terminal.
pub proof fn platform_shortcuts_are_silent(input: KeyInput, mode: TerminalMode)
    requires
        input.modifiers.platform,
        !input.modifiers.control,
        !input.modifiers.alt,
        !input.modifiers.shift,
    ensures
        encoded(input, mode) is None,
{
}

/// In the Kitty protocol a character under Control, Alt or the platform key is
/// always an escape code, so that Control and I is not taken for Tab.
pub proof fn control_characters_stay_distinct(input: KeyInput, c: char, mode: TerminalMode)
    requires
        mode.kitty.any(),
        input.token == KeyToken::Char(c),
        input.down(),
        input.modifiers.control || input.modifiers.alt,
    ensures
        encoded(input, mode) matches Some(bytes) && bytes.len() >= 3 && bytes[0] == 0x1b && bytes[1]
            == 0x5b && bytes.last() == 0x75,
{
    csi_u_shape(
        base_codepoint(input, c),
        alternates(c, base_codepoint(input, c), mode.kitty),
        modifier_param(input.modifiers),
        event_type(input.state, mode.kitty),
        text_codepoints(input, mode.kitty),
    );
}

/// Escape codes that are disambiguated: Escape, Enter, Tab and Backspace never
/// send the bytes that a control character could.
pub proof fn special_keys_stay_distinct(input: KeyInput, named: NamedKey, mode: TerminalMode)
    requires
        mode.kitty.disambiguates(),
        input.token == KeyToken::Named(named),
        input.location != KeyLocation::Numpad,
        named == NamedKey::Escape || named == NamedKey::Enter || named == NamedKey::Tab || named
            == NamedKey::Backspace,
        encoded(input, mode) is Some,
    ensures
        encoded(input, mode) matches Some(bytes) && bytes.len() >= 3 && bytes[0] == 0x1b && bytes[1]
            == 0x5b && bytes.last() == 0x75,
{
    let cp = functional_codepoint(named, input.location)->0;
    csi_u_shape(
        cp,
        Seq::empty(),
        modifier_param(input.modifiers),
        event_type(input.state, mode.kitty),
        text_codepoints(input, mode.kitty),
    );
}

proof fn csi_u_shape(
    codepoint: u32,
    alternates: Seq<u32>,
    modifiers: Option<u8>,
    event: Option<u8>,
    text: Seq<u32>,
)
    ensures
        csi_u(codepoint, alternates, modifiers, event, text).len() >= 3,
        csi_u(codepoint, alternates, modifiers, event, text)[0] == 0x1b,
        csi_u(codepoint, alternates, modifiers, event, text)[1] == 0x5b,
        csi_u(codepoint, alternates, modifiers, event, text).last() == 0x75,
{
}

/// A plain character that no enhancement asks to change is sent as in the legacy
/// encoding.
pub proof fn plain_characters_keep_their_legacy_bytes(
    input: KeyInput,
    c: char,
    mode: TerminalMode,
)
    requires
        mode.kitty.any(),
        input.token == KeyToken::Char(c),
        input.down(),
        !char_needs_csi(input, mode.kitty),
        input.text matches Some(text) ==> text@ == seq![c],
    ensures
        kitty_key(input, mode) == legacy_key(input, mode.app_cursor),
{
}

/// Where no event type is told, a named key that has no code point of its own sends
/// what it sends in the legacy encoding.
pub proof fn cursor_and_editing_keys_keep_their_legacy_bytes(
    input: KeyInput,
    named: NamedKey,
    mode: TerminalMode,
)
    requires
        input.token == KeyToken::Named(named),
        input.down(),
        functional_codepoint(named, input.location) is None,
        event_type(input.state, mode.kitty) is None,
        !input.modifiers.platform,
    ensures
        kitty_key(input, mode) == legacy_key(input, mode.app_cursor),
{
}

/// Under Alt, Backspace and Enter send an escape byte and then what they send
/// without Alt. Exactly Backspace, Space, Enter, Tab and Escape have bytes of this
/// kind, whatever the modifiers.
pub proof fn alt_goes_before_special_keys(named: NamedKey, m: Modifiers)
    ensures
        !m.alt && (named == NamedKey::Backspace || named == NamedKey::Enter) ==> legacy_special(
            named,
            (Modifiers { alt: true, ..m }),
        ) == Some(seq![0x1bu8] + legacy_special(named, m)->0),
        legacy_special(named, m) is Some <==> named == NamedKey::Backspace || named
            == NamedKey::Space || named == NamedKey::Enter || named == NamedKey::Tab || named
            == NamedKey::Escape,
{
    if !m.alt && (named == NamedKey::Backspace || named == NamedKey::Enter) {
        let under_alt = legacy_special(named, Modifiers { alt: true, ..m })->0;
        assert(under_alt =~= seq![0x1bu8] + legacy_special(named, m)->0);
    }
}

/// Flags with the same enhancements are the same.
pub proof fn flags_are_their_enhancements(a: KittyFlags, b: KittyFlags)
    ensures
        a == b <==> a.disambiguates() == b.disambiguates() && a.event_types() == b.event_types()
            && a.alternate_keys() == b.alternate_keys() && a.all_keys() == b.all_keys()
            && a.associated_text() == b.associated_text(),
{
}

/// Without any enhancement there is one terminal state for each pair of application
/// modes.
pub proof fn legacy_modes_are_their_switches(a: TerminalMode, b: TerminalMode)
    requires
        !a.kitty.any(),
        !b.kitty.any(),
    ensures
        a == b <==> a.app_cursor == b.app_cursor && a.app_keypad == b.app_keypad,
{
    flags_are_their_enhancements(a.kitty, b.kitty);
}

// ---- The bytes, written out ----

/// The digit that tells modifiers: `1`, one more for Shift, two for Alt and four for
/// Control.
pub open spec fn modifier_digit(m: Modifiers) -> u8 {
    (0x31 + (if m.shift {
        1int
    } else {
        0
    }) + (if m.alt {
        2int
    } else {
        0
    }) + (if m.control {
        4int
    } else {
        0
    })) as u8
}

proof fn modifier_digits(m: Modifiers)
    ensures
        modifier_param(m) is Some <==> m.shift || m.alt || m.control,
        modifier_param(m) is Some ==> modifier_field(modifier_param(m), None) =~= seq![
            modifier_digit(m),
        ],
        modifier_param(m) is None ==> modifier_digit(m) == 0x31,
{
}

/// Whether a key goes down in the legacy encoding, without the platform key.
pub open spec fn legacy_press(input: KeyInput, mode: TerminalMode) -> bool {
    !mode.kitty.any() && input.down() && !input.modifiers.platform
}

/// What an arrow key, Home or End sends, given its letter: `ESC [` and the letter,
/// `ESC O` and the letter on application cursor keys, and `ESC [ 1 ;`, the digit and
/// the letter under modifiers.
pub open spec fn sends_letter(input: KeyInput, mode: TerminalMode, letter: u8) -> bool {
    let m = input.modifiers;
    encoded(input, mode) == Some(
        if m.shift || m.alt || m.control {
            seq![0x1bu8, 0x5b, 0x31, 0x3b, modifier_digit(m), letter]
        } else if mode.app_cursor {
            seq![0x1bu8, 0x4f, letter]
        } else {
            seq![0x1bu8, 0x5b, letter]
        },
    )
}

/// Up, Down, Right, Left, Home and End send `A`, `B`, `C`, `D`, `H` and `F`.
pub proof fn cursor_keys_send_their_letters(input: KeyInput, mode: TerminalMode)
    requires
        legacy_press(input, mode),
    ensures
        input.token == KeyToken::Named(NamedKey::ArrowUp) ==> sends_letter(input, mode, 0x41),
        input.token == KeyToken::Named(NamedKey::ArrowDown) ==> sends_letter(input, mode, 0x42),
        input.token == KeyToken::Named(NamedKey::ArrowRight) ==> sends_letter(input, mode, 0x43),
        input.token == KeyToken::Named(NamedKey::ArrowLeft) ==> sends_letter(input, mode, 0x44),
        input.token == KeyToken::Named(NamedKey::Home) ==> sends_letter(input, mode, 0x48),
        input.token == KeyToken::Named(NamedKey::End) ==> sends_letter(input, mode, 0x46),
{
    modifier_digits(input.modifiers);
    if let KeyToken::Named(named) = input.token {
        if let Some(letter) = cursor_letter(named) {
            let m = input.modifiers;
            assert(encoded(input, mode)->0 =~= if m.shift || m.alt || m.control {
                seq![0x1bu8, 0x5b, 0x31, 0x3b, modifier_digit(m), letter]
            } else if mode.app_cursor {
                seq![0x1bu8, 0x4f, letter]
            } else {
                seq![0x1bu8, 0x5b, letter]
            });
        }
    }
}

/// Without modifiers and application cursor keys, the bytes of the cursor keys.
pub proof fn plain_cursor_keys(input: KeyInput, mode: TerminalMode)
    requires
        !mode.kitty.any(),
        !mode.app_cursor,
        input.down(),
        no_modifiers(input.modifiers),
    ensures
        input.token == KeyToken::Named(NamedKey::ArrowUp) ==> encoded(input, mode) == Some(
            seq![0x1bu8, 0x5b, 0x41],
        ),
        input.token == KeyToken::Named(NamedKey::ArrowDown) ==> encoded(input, mode) == Some(
            seq![0x1bu8, 0x5b, 0x42],
        ),
        input.token == KeyToken::Named(NamedKey::ArrowRight) ==> encoded(input, mode) == Some(
            seq![0x1bu8, 0x5b, 0x43],
        ),
        input.token == KeyToken::Named(NamedKey::ArrowLeft) ==> encoded(input, mode) == Some(
            seq![0x1bu8, 0x5b, 0x44],
        ),
        input.token == KeyToken::Named(NamedKey::Home) ==> encoded(input, mode) == Some(
            seq![0x1bu8, 0x5b, 0x48],
        ),
        input.token == KeyToken::Named(NamedKey::End) ==> encoded(input, mode) == Some(
            seq![0x1bu8, 0x5b, 0x46],
        ),
{
}

/// What a key with a number sends, given the digits: `ESC [`, the digits and a tilde,
/// with a semicolon and the modifier digit before the tilde under modifiers.
pub open spec fn sends_number(input: KeyInput, mode: TerminalMode, digits: Seq<u8>) -> bool {
    let m = input.modifiers;
    encoded(input, mode) == Some(
        seq![0x1bu8, 0x5b] + digits + if m.shift || m.alt || m.control {
            seq![0x3bu8, modifier_digit(m), 0x7e]
        } else {
            seq![0x7eu8]
        },
    )
}

proof fn numbers_are_sent(input: KeyInput, mode: TerminalMode, code: u8, digits: Seq<u8>)
    requires
        encoded(input, mode) == Some(csi_tilde(code, modifier_param(input.modifiers), None)),
        decimal_bytes(code as nat) == digits,
    ensures
        sends_number(input, mode, digits),
{
    let m = input.modifiers;
    modifier_digits(m);
    assert(encoded(input, mode)->0 =~= seq![0x1bu8, 0x5b] + digits + if m.shift || m.alt
        || m.control {
        seq![0x3bu8, modifier_digit(m), 0x7e]
    } else {
        seq![0x7eu8]
    });
}

/// Insert, Delete, Page Up and Page Down send 2, 3, 5 and 6.
pub proof fn editing_keys_send_their_numbers(input: KeyInput, mode: TerminalMode)
    requires
        legacy_press(input, mode),
    ensures
        input.token == KeyToken::Named(NamedKey::Insert) ==> sends_number(
            input,
            mode,
            seq![0x32u8],
        ),
        input.token == KeyToken::Named(NamedKey::Delete) ==> sends_number(
            input,
            mode,
            seq![0x33u8],
        ),
        input.token == KeyToken::Named(NamedKey::PageUp) ==> sends_number(
            input,
            mode,
            seq![0x35u8],
        ),
        input.token == KeyToken::Named(NamedKey::PageDown) ==> sends_number(
            input,
            mode,
            seq![0x36u8],
        ),
{
    match input.token {
        KeyToken::Named(NamedKey::Insert) => numbers_are_sent(input, mode, 2, seq![0x32u8]),
        KeyToken::Named(NamedKey::Delete) => numbers_are_sent(input, mode, 3, seq![0x33u8]),
        KeyToken::Named(NamedKey::PageUp) => numbers_are_sent(input, mode, 5, seq![0x35u8]),
        KeyToken::Named(NamedKey::PageDown) => numbers_are_sent(input, mode, 6, seq![0x36u8]),
        _ => {},
    }
}

/// What F1 to F4 send, given the letter: `ESC O` and the letter, and `ESC [ 1 ;`, the
/// digit and the letter under modifiers.
pub open spec fn sends_function_letter(input: KeyInput, mode: TerminalMode, letter: u8) -> bool {
    let m = input.modifiers;
    encoded(input, mode) == Some(
        if m.shift || m.alt || m.control {
            seq![0x1bu8, 0x5b, 0x31, 0x3b, modifier_digit(m), letter]
        } else {
            seq![0x1bu8, 0x4f, letter]
        },
    )
}

proof fn function_letters_are_sent(input: KeyInput, mode: TerminalMode, letter: u8)
    requires
        encoded(input, mode) == Some(
            if modifier_param(input.modifiers) is None {
                ss3(letter)
            } else {
                csi_letter(letter, modifier_param(input.modifiers), None)
            },
        ),
    ensures
        sends_function_letter(input, mode, letter),
{
    let m = input.modifiers;
    modifier_digits(m);
    assert(encoded(input, mode)->0 =~= if m.shift || m.alt || m.control {
        seq![0x1bu8, 0x5b, 0x31, 0x3b, modifier_digit(m), letter]
    } else {
        seq![0x1bu8, 0x4f, letter]
    });
}

/// F1 to F4 send `P`, `Q`, `R` and `S`; F5 to F20 send 15, 17 to 21, 23 to 26, 28, 29
/// and 31 to 34.
pub proof fn function_keys_send_their_own(input: KeyInput, mode: TerminalMode)
    requires
        legacy_press(input, mode),
    ensures
        match input.token {
            KeyToken::Named(NamedKey::F1) => sends_function_letter(input, mode, 0x50),
            KeyToken::Named(NamedKey::F2) => sends_function_letter(input, mode, 0x51),
            KeyToken::Named(NamedKey::F3) => sends_function_letter(input, mode, 0x52),
            KeyToken::Named(NamedKey::F4) => sends_function_letter(input, mode, 0x53),
            KeyToken::Named(NamedKey::F5) => sends_number(input, mode, seq![0x31u8, 0x35]),
            KeyToken::Named(NamedKey::F6) => sends_number(input, mode, seq![0x31u8, 0x37]),
            KeyToken::Named(NamedKey::F7) => sends_number(input, mode, seq![0x31u8, 0x38]),
            KeyToken::Named(NamedKey::F8) => sends_number(input, mode, seq![0x31u8, 0x39]),
            KeyToken::Named(NamedKey::F9) => sends_number(input, mode, seq![0x32u8, 0x30]),
            KeyToken::Named(NamedKey::F10) => sends_number(input, mode, seq![0x32u8, 0x31]),
            KeyToken::Named(NamedKey::F11) => sends_number(input, mode, seq![0x32u8, 0x33]),
            KeyToken::Named(NamedKey::F12) => sends_number(input, mode, seq![0x32u8, 0x34]),
            KeyToken::Named(NamedKey::F13) => sends_number(input, mode, seq![0x32u8, 0x35]),
            KeyToken::Named(NamedKey::F14) => sends_number(input, mode, seq![0x32u8, 0x36]),
            KeyToken::Named(NamedKey::F15) => sends_number(input, mode, seq![0x32u8, 0x38]),
            KeyToken::Named(NamedKey::F16) => sends_number(input, mode, seq![0x32u8, 0x39]),
            KeyToken::Named(NamedKey::F17) => sends_number(input, mode, seq![0x33u8, 0x31]),
            KeyToken::Named(NamedKey::F18) => sends_number(input, mode, seq![0x33u8, 0x32]),
            KeyToken::Named(NamedKey::F19) => sends_number(input, mode, seq![0x33u8, 0x33]),
            KeyToken::Named(NamedKey::F20) => sends_number(input, mode, seq![0x33u8, 0x34]),
            _ => true,
        },
{
    reveal_with_fuel(decimal_bytes, 3);
    if let KeyToken::Named(named) = input.token {
        match function_letter(named) {
            Some(letter) => function_letters_are_sent(input, mode, letter),
            None => match function_code(named) {
                Some(code) => {
                    let digits = seq![(0x30 + code / 10) as u8, (0x30 + code % 10) as u8];
                    assert(decimal_bytes(code as nat) =~= digits);
                    numbers_are_sent(input, mode, code, digits);
                },
                None => {},
            },
        }
    }
}

/// The keys with bytes of their own: Backspace, Space, Enter, Tab and Escape.
pub proof fn special_keys_send_their_bytes(input: KeyInput, mode: TerminalMode)
    requires
        legacy_press(input, mode),
        !mode.app_keypad || input.location != KeyLocation::Numpad,
    ensures
        ({
            let m = input.modifiers;
            let escape = if m.alt {
                seq![0x1bu8]
            } else {
                Seq::empty()
            };
            match input.token {
                KeyToken::Named(NamedKey::Backspace) => encoded(input, mode) == Some(
                    escape + if m.control {
                        seq![0x08u8]
                    } else {
                        seq![0x7fu8]
                    },
                ),
                KeyToken::Named(NamedKey::Enter) => encoded(input, mode) == Some(
                    escape + seq![0x0du8],
                ),
                KeyToken::Named(NamedKey::Space) => encoded(input, mode) == Some(
                    if m.control {
                        seq![0x00u8]
                    } else {
                        escape + seq![0x20u8]
                    },
                ),
                KeyToken::Named(NamedKey::Tab) => encoded(input, mode) == Some(
                    if m.shift {
                        seq![0x1bu8, 0x5b, 0x5a]
                    } else {
                        seq![0x09u8]
                    },
                ),
                KeyToken::Named(NamedKey::Escape) => encoded(input, mode) == Some(seq![0x1bu8]),
                KeyToken::Named(NamedKey::Shift) => encoded(input, mode) is None,
                KeyToken::Named(NamedKey::Control) => encoded(input, mode) is None,
                KeyToken::Named(NamedKey::Alt) => encoded(input, mode) is None,
                KeyToken::Named(NamedKey::Super) => encoded(input, mode) is None,
                KeyToken::Named(NamedKey::CapsLock) => encoded(input, mode) is None,
                KeyToken::Named(NamedKey::NumLock) => encoded(input, mode) is None,
                _ => true,
            }
        }),
{
    let m = input.modifiers;
    let escape = if m.alt {
        seq![0x1bu8]
    } else {
        Seq::empty()
    };
    match input.token {
        KeyToken::Named(NamedKey::Backspace) => {
            assert(encoded(input, mode)->0 =~= escape + if m.control {
                seq![0x08u8]
            } else {
                seq![0x7fu8]
            });
        },
        KeyToken::Named(NamedKey::Enter) => {
            assert(encoded(input, mode)->0 =~= escape + seq![0x0du8]);
        },
        KeyToken::Named(NamedKey::Space) => {
            assert(encoded(input, mode)->0 =~= if m.control {
                seq![0x00u8]
            } else {
                escape + seq![0x20u8]
            });
        },
        _ => {},
    }
}

/// A character sends itself in UTF-8. Under Control a letter, in either case, sends
/// the byte of its place in the alphabet, and nothing else sends any. Alt puts an
/// escape byte before it.
pub proof fn characters_send_themselves(input: KeyInput, c: char, mode: TerminalMode)
    requires
        legacy_press(input, mode),
        input.token == KeyToken::Char(c),
        !mode.app_keypad || input.location != KeyLocation::Numpad,
    ensures
        ({
            let m = input.modifiers;
            let escape = if m.alt {
                seq![0x1bu8]
            } else {
                Seq::empty()
            };
            &&& !m.control ==> encoded(input, mode) == Some(escape + encode_utf8(seq![c]))
            &&& m.control && 'a' <= c <= 'z' ==> encoded(input, mode) == Some(
                escape + seq![(c as u32 - 0x60) as u8],
            )
            &&& m.control && 'A' <= c <= 'Z' ==> encoded(input, mode) == Some(
                escape + seq![(c as u32 - 0x40) as u8],
            )
            &&& m.control && !('a' <= c <= 'z') && !('A' <= c <= 'Z') ==> encoded(
                input,
                mode,
            ) is None
        }),
{
    let m = input.modifiers;
    let escape = if m.alt {
        seq![0x1bu8]
    } else {
        Seq::empty()
    };
    if !m.control {
        assert(encoded(input, mode)->0 =~= escape + encode_utf8(seq![c]));
    } else if let Some(b) = control_byte(c) {
        assert(encoded(input, mode)->0 =~= escape + seq![b]);
    }
}

/// On the application keypad an unmodified key sends `ESC O` and a letter: the digits
/// `p` to `y`, Enter `M`, and the signs their own. Off it, on another key or under
/// modifiers, the keypad makes no difference.
pub proof fn keypad_keys_send_their_letters(input: KeyInput, mode: TerminalMode)
    requires
        input.down(),
    ensures
        ({
            let plain = TerminalMode { app_keypad: false, ..mode };
            let on = mode.app_keypad && no_modifiers(input.modifiers) && input.location
                == KeyLocation::Numpad;
            let sent = |letter: u8| encoded(input, mode) == Some(seq![0x1bu8, 0x4f, letter]);
            &&& !on ==> encoded(input, mode) == encoded(input, plain)
            &&& on ==> match input.token {
                KeyToken::Char(c) => {
                    &&& '0' <= c <= '9' ==> sent((0x70 + (c as u32 - 0x30)) as u8)
                    &&& c == '.' ==> sent(0x6e)
                    &&& c == ',' ==> sent(0x6c)
                    &&& c == '-' ==> sent(0x6d)
                    &&& c == '+' ==> sent(0x6b)
                    &&& c == '*' ==> sent(0x6a)
                    &&& c == '/' ==> sent(0x6f)
                    &&& c == '=' ==> sent(0x58)
                    &&& !('0' <= c <= '9') && c != '.' && c != ',' && c != '-' && c != '+' && c
                        != '*' && c != '/' && c != '=' ==> encoded(input, mode) == encoded(
                        input,
                        plain,
                    )
                },
                KeyToken::Named(named) => if named == NamedKey::Enter {
                    sent(0x4d)
                } else {
                    encoded(input, mode) == encoded(input, plain)
                },
            }
        }),
{
}

/// The number that decimal digits write.
pub open spec fn written_number(digits: Seq<u8>) -> nat
    decreases digits.len(),
{
    if digits.len() == 0 {
        0
    } else {
        10 * written_number(digits.drop_last()) + (digits.last() - 0x30) as nat
    }
}

/// Numbers are written in decimal digits that read back as the number, without
/// leading zeros.
pub proof fn numbers_are_written_in_decimal(n: nat)
    ensures
        written_number(decimal_bytes(n)) == n,
        forall|i: int|
            0 <= i < decimal_bytes(n).len() ==> 0x30 <= (#[trigger] decimal_bytes(n)[i]) <= 0x39,
        decimal_bytes(n).len() > 0,
        n > 0 ==> decimal_bytes(n)[0] != 0x30,
    decreases n,
{
    let d = decimal_bytes(n);
    if n < 10 {
        assert(d.drop_last() =~= Seq::<u8>::empty());
        assert(written_number(Seq::<u8>::empty()) == 0);
    } else {
        numbers_are_written_in_decimal(n / 10);
        assert(d.drop_last() =~= decimal_bytes(n / 10));
        assert(d[0] == decimal_bytes(n / 10)[0]);
    }
}

/// The part of an escape code that tells modifiers and what the key does: nothing
/// where there is nothing to tell, or else a semicolon and the digit, and then a
/// colon and `2` for a repeat or `3` for a release, where that is told.
pub open spec fn told_part(input: KeyInput, flags: KittyFlags) -> Seq<u8> {
    let m = input.modifiers;
    let e = flags.event_types() && input.state != KeyState::Pressed;
    if e {
        seq![
            0x3bu8,
            modifier_digit(m),
            0x3a,
            if input.state == KeyState::Repeat {
                0x32
            } else {
                0x33
            },
        ]
    } else if m.shift || m.alt || m.control {
        seq![0x3bu8, modifier_digit(m)]
    } else {
        Seq::empty()
    }
}

proof fn told_parts(input: KeyInput, flags: KittyFlags)
    ensures
        ({
            let p = modifier_param(input.modifiers);
            let e = event_type(input.state, flags);
            told_part(input, flags) =~= if p is None && e is None {
                Seq::<u8>::empty()
            } else {
                seq![0x3bu8] + modifier_field(p, e)
            }
        }),
{
    modifier_digits(input.modifiers);
}

/// Whether a key event is one that the Kitty protocol reports at all: with some
/// enhancement on, not under the platform key alone, a release only where event
/// types are told, and no key of the application keypad.
pub open spec fn kitty_event(input: KeyInput, mode: TerminalMode) -> bool {
    let m = input.modifiers;
    &&& mode.kitty.any()
    &&& !(m.platform && !m.control && !m.alt && !m.shift)
    &&& input.down() || mode.kitty.event_types()
    &&& !mode.app_keypad || input.location != KeyLocation::Numpad
}

/// A character that no enhancement asks to report otherwise types its text. It is
/// reported as an escape code where all keys are, under Control, Alt or the platform
/// key, for a repeat or a release where event types are told, and under Shift where
/// shifted characters are told.
pub proof fn kitty_characters(input: KeyInput, c: char, mode: TerminalMode)
    requires
        kitty_event(input, mode),
        input.token == KeyToken::Char(c),
        input.text is None,
    ensures
        ({
            let m = input.modifiers;
            let flags = mode.kitty;
            let reported = flags.all_keys() || m.control || m.alt || m.platform || (
            flags.event_types() && input.state != KeyState::Pressed) || (flags.alternate_keys()
                && m.shift);
            let key = match input.base {
                Some(base) => base as u32 as nat,
                None => if 'A' <= c <= 'Z' {
                    (c as u32 + 32) as nat
                } else {
                    c as u32 as nat
                },
            };
            encoded(input, mode) == Some(
                if reported {
                    seq![0x1bu8, 0x5b] + decimal_bytes(key) + (if flags.alternate_keys() && c
                        != '\0' && c as u32 as nat != key {
                        seq![0x3au8] + decimal_bytes(c as u32 as nat)
                    } else {
                        Seq::empty()
                    }) + told_part(input, flags) + seq![0x75u8]
                } else {
                    encode_utf8(seq![c])
                },
            )
        }),
{
    let flags = mode.kitty;
    told_parts(input, flags);
    reveal_with_fuel(colon_numbers, 2);
    if char_needs_csi(input, flags) {
        let base = base_codepoint(input, c);
        let more = alternates(c, base, flags);
        if more.len() > 0 {
            assert(more.drop_last() =~= Seq::<u32>::empty());
            assert(colon_numbers(more) =~= seq![0x3au8] + decimal_bytes(c as u32 as nat));
        }
        assert(encoded(input, mode)->0 =~= seq![0x1bu8, 0x5b] + decimal_bytes(base as nat) + (if
        more.len() > 0 {
            seq![0x3au8] + decimal_bytes(c as u32 as nat)
        } else {
            Seq::empty()
        }) + told_part(input, flags) + seq![0x75u8]);
    }
}

/// The text that a character types is sent as it is where the character is not
/// reported as an escape code. Where it is, and text is told, its code points follow;
/// control characters and releases have none.
pub proof fn kitty_texts(input: KeyInput, c: char, text: char, mode: TerminalMode)
    requires
        kitty_event(input, mode),
        input.token == KeyToken::Char(c),
        input.text matches Some(t) && t@ == seq![text],
    ensures
        ({
            let bare = KeyInput { text: None, ..input };
            let told = mode.kitty.associated_text() && input.state != KeyState::Released
                && !is_control(text);
            if char_needs_csi(input, mode.kitty) {
                &&& !told ==> encoded(input, mode) == encoded(bare, mode)
                &&& told ==> encoded(input, mode) == Some(
                    encoded(bare, mode)->0.drop_last() + seq![0x3bu8] + decimal_bytes(
                        text as u32 as nat,
                    ) + seq![0x75u8],
                )
            } else {
                encoded(input, mode) == Some(encode_utf8(seq![text]))
            }
        }),
{
    let bare = KeyInput { text: None, ..input };
    let t = input.text->0@;
    let flags = mode.kitty;
    reveal_with_fuel(printable_codepoints, 2);
    reveal_with_fuel(colon_separated, 2);
    assert(t.drop_last() =~= Seq::<char>::empty());
    assert(printable_codepoints(t) =~= if is_control(text) {
        Seq::<u32>::empty()
    } else {
        seq![text as u32]
    });
    if char_needs_csi(input, flags) {
        let base = base_codepoint(input, c);
        let p = modifier_param(input.modifiers);
        let e = event_type(input.state, flags);
        let more = alternates(c, base, flags);
        assert(encoded(bare, mode) == Some(csi_u(base, more, p, e, Seq::empty())));
        let told = text_codepoints(input, flags);
        assert(encoded(input, mode) == Some(csi_u(base, more, p, e, told)));
        if flags.associated_text() && input.state != KeyState::Released && !is_control(text) {
            assert(text_codepoints(input, flags) =~= seq![text as u32]);
            assert(encoded(input, mode)->0 =~= encoded(bare, mode)->0.drop_last() + seq![0x3bu8]
                + decimal_bytes(text as u32 as nat) + seq![0x75u8]);
        } else {
            assert(text_codepoints(input, flags) =~= Seq::<u32>::empty());
        }
    }
}

/// Whether a key is reported as an escape code of the given number, with what is to
/// be told of it and without text.
pub open spec fn reports(input: KeyInput, mode: TerminalMode, digits: Seq<u8>) -> bool {
    encoded(input, mode) == Some(
        seq![0x1bu8, 0x5b] + digits + told_part(input, mode.kitty) + seq![0x75u8],
    )
}

proof fn code_points_are_reported(input: KeyInput, mode: TerminalMode, cp: u32, digits: Seq<u8>)
    requires
        encoded(input, mode) == Some(
            csi_u(
                cp,
                Seq::empty(),
                modifier_param(input.modifiers),
                event_type(input.state, mode.kitty),
                Seq::empty(),
            ),
        ),
        decimal_bytes(cp as nat) == digits,
    ensures
        reports(input, mode, digits),
{
    told_parts(input, mode.kitty);
    assert(encoded(input, mode)->0 =~= seq![0x1bu8, 0x5b] + digits + told_part(input, mode.kitty)
        + seq![0x75u8]);
}

/// Escape, Enter, Tab and Backspace are reported as 27, 13, 9 and 127 where escape
/// codes are disambiguated or all keys are reported, under modifiers, and for a repeat
/// or a release where event types are told; Space as 32 in the same cases but the
/// first. Otherwise they send what they send without the protocol.
pub proof fn kitty_special_keys(input: KeyInput, named: NamedKey, mode: TerminalMode)
    requires
        kitty_event(input, mode),
        input.token == KeyToken::Named(named),
        input.text is None,
    ensures
        ({
            let m = input.modifiers;
            let flags = mode.kitty;
            let asked = flags.all_keys() || m.shift || m.alt || m.control || (flags.event_types()
                && input.state != KeyState::Pressed);
            let legacy = legacy_named(named, m, mode.app_cursor);
            let pick = |digits: Seq<u8>, always: bool|
                if asked || (always && flags.disambiguates()) {
                    reports(input, mode, digits)
                } else {
                    encoded(input, mode) == legacy
                };
            match named {
                NamedKey::Escape => pick(seq![0x32u8, 0x37], true),
                NamedKey::Enter => pick(seq![0x31u8, 0x33], true),
                NamedKey::Tab => pick(seq![0x39u8], true),
                NamedKey::Backspace => pick(seq![0x31u8, 0x32, 0x37], true),
                NamedKey::Space => pick(seq![0x33u8, 0x32], false),
                _ => true,
            }
        }),
{
    reveal_with_fuel(decimal_bytes, 4);
    modifier_digits(input.modifiers);
    if let Some(cp) = special_codepoint(named) {
        if named_needs_csi(cp, input, mode.kitty) {
            assert(text_codepoints(input, mode.kitty) =~= Seq::<u32>::empty());
            code_points_are_reported(input, mode, cp, decimal_bytes(cp as nat));
            assert(decimal_bytes(27) =~= seq![0x32u8, 0x37]);
            assert(decimal_bytes(13) =~= seq![0x31u8, 0x33]);
            assert(decimal_bytes(9) =~= seq![0x39u8]);
            assert(decimal_bytes(127) =~= seq![0x31u8, 0x32, 0x37]);
            assert(decimal_bytes(32) =~= seq![0x33u8, 0x32]);
        }
    }
}

/// The modifier and lock keys are reported where all keys are or event types are told,
/// left and right apart, and not otherwise.
pub proof fn kitty_modifier_keys(input: KeyInput, named: NamedKey, mode: TerminalMode)
    requires
        kitty_event(input, mode),
        input.token == KeyToken::Named(named),
        input.text is None,
    ensures
        ({
            let asked = mode.kitty.all_keys() || mode.kitty.event_types();
            let right = input.location == KeyLocation::Right;
            let pick = |cp: nat|
                if asked {
                    reports(input, mode, decimal_bytes(cp))
                } else {
                    encoded(input, mode) is None
                };
            match named {
                NamedKey::Shift => pick(if right {
                    57447
                } else {
                    57441
                }),
                NamedKey::Control => pick(if right {
                    57448
                } else {
                    57442
                }),
                NamedKey::Alt => pick(if right {
                    57449
                } else {
                    57443
                }),
                NamedKey::Super => pick(if right {
                    57450
                } else {
                    57444
                }),
                NamedKey::CapsLock => pick(57358),
                NamedKey::NumLock => pick(57360),
                _ => true,
            }
        }),
{
    if let Some(cp) = modifier_codepoint(named, input.location) {
        if mode.kitty.all_keys() || mode.kitty.event_types() {
            assert(text_codepoints(input, mode.kitty) =~= Seq::<u32>::empty());
            code_points_are_reported(input, mode, cp, decimal_bytes(cp as nat));
        }
    }
}

/// A repeat or a release of a cursor key, an editing key or F1 to F12 is told inside
/// the key's own form, where event types are told: `ESC [ 1`, what is told and the
/// letter, or `ESC [`, the number, what is told and a tilde. F3 is 13 here.
pub proof fn kitty_keys_tell_what_happens(input: KeyInput, named: NamedKey, mode: TerminalMode)
    requires
        kitty_event(input, mode),
        input.token == KeyToken::Named(named),
        mode.kitty.event_types(),
        input.state != KeyState::Pressed,
    ensures
        ({
            let told = told_part(input, mode.kitty);
            let letter = |b: u8|
                encoded(input, mode) == Some(seq![0x1bu8, 0x5b, 0x31] + told + seq![b]);
            let number = |n: nat|
                encoded(input, mode) == Some(
                    seq![0x1bu8, 0x5b] + decimal_bytes(n) + told + seq![0x7eu8],
                );
            match named {
                NamedKey::ArrowUp => letter(0x41),
                NamedKey::ArrowDown => letter(0x42),
                NamedKey::ArrowRight => letter(0x43),
                NamedKey::ArrowLeft => letter(0x44),
                NamedKey::Home => letter(0x48),
                NamedKey::End => letter(0x46),
                NamedKey::F1 => letter(0x50),
                NamedKey::F2 => letter(0x51),
                NamedKey::F4 => letter(0x53),
                NamedKey::Insert => number(2),
                NamedKey::Delete => number(3),
                NamedKey::PageUp => number(5),
                NamedKey::PageDown => number(6),
                NamedKey::F3 => number(13),
                NamedKey::F5 => number(15),
                NamedKey::F6 => number(17),
                NamedKey::F7 => number(18),
                NamedKey::F8 => number(19),
                NamedKey::F9 => number(20),
                NamedKey::F10 => number(21),
                NamedKey::F11 => number(23),
                NamedKey::F12 => number(24),
                _ => true,
            }
        }),
{
    told_parts(input, mode.kitty);
    let p = modifier_param(input.modifiers);
    let e = event_type(input.state, mode.kitty);
    let told = told_part(input, mode.kitty);
    let letter = if cursor_letter(named) is Some {
        cursor_letter(named)
    } else {
        kitty_function_letter(named)
    };
    let code = if editing_code(named) is Some {
        editing_code(named)
    } else {
        kitty_function_code(named)
    };
    if letter is Some {
        assert(encoded(input, mode) == Some(csi_letter(letter->0, p, e)));
        assert(encoded(input, mode)->0 =~= seq![0x1bu8, 0x5b, 0x31] + told + seq![letter->0]);
    } else if code is Some {
        assert(encoded(input, mode) == Some(csi_tilde(code->0, p, e)));
        assert(encoded(input, mode)->0 =~= seq![0x1bu8, 0x5b] + decimal_bytes(code->0 as nat)
            + told + seq![0x7eu8]);
    }
}

/// F13 to F20 are reported as 57376 to 57383 in the cases in which Space is.
pub proof fn kitty_high_function_keys(input: KeyInput, named: NamedKey, mode: TerminalMode)
    requires
        kitty_event(input, mode),
        input.token == KeyToken::Named(named),
        input.text is None,
    ensures
        ({
            let m = input.modifiers;
            let asked = mode.kitty.all_keys() || m.shift || m.alt || m.control || (
            mode.kitty.event_types() && input.state != KeyState::Pressed);
            let pick = |cp: nat|
                if asked {
                    reports(input, mode, decimal_bytes(cp))
                } else {
                    encoded(input, mode) == legacy_named(named, m, mode.app_cursor)
                };
            match named {
                NamedKey::F13 => pick(57376),
                NamedKey::F14 => pick(57377),
                NamedKey::F15 => pick(57378),
                NamedKey::F16 => pick(57379),
                NamedKey::F17 => pick(57380),
                NamedKey::F18 => pick(57381),
                NamedKey::F19 => pick(57382),
                NamedKey::F20 => pick(57383),
                _ => true,
            }
        }),
{
    modifier_digits(input.modifiers);
    if let Some(cp) = special_codepoint(named) {
        if named_needs_csi(cp, input, mode.kitty) {
            assert(text_codepoints(input, mode.kitty) =~= Seq::<u32>::empty());
            code_points_are_reported(input, mode, cp, decimal_bytes(cp as nat));
        }
    }
}

/// What the encoder gives is what the laws speak of; an unmodified arrow, for one, sends
/// its three bytes.
pub proof fn the_encoder_sends_what_is_encoded(
    input: &KeyInput,
    mode: TerminalMode,
    r: Option<Vec<u8>>,
)
    requires
        call_ensures(encode, (input, mode), r),
    ensures
        bytes_of(r) == encoded(*input, mode),
        !mode.kitty.any() && !mode.app_cursor && input.down() && no_modifiers(input.modifiers) ==> {
            &&& input.token == KeyToken::Named(NamedKey::ArrowUp) ==> bytes_of(r) == Some(
                seq![0x1bu8, 0x5b, 0x41],
            )
            &&& input.token == KeyToken::Named(NamedKey::ArrowDown) ==> bytes_of(r) == Some(
                seq![0x1bu8, 0x5b, 0x42],
            )
            &&& input.token == KeyToken::Named(NamedKey::ArrowRight) ==> bytes_of(r) == Some(
                seq![0x1bu8, 0x5b, 0x43],
            )
            &&& input.token == KeyToken::Named(NamedKey::ArrowLeft) ==> bytes_of(r) == Some(
                seq![0x1bu8, 0x5b, 0x44],
            )
        },
{
    if !mode.kitty.any() && !mode.app_cursor && input.down() && no_modifiers(input.modifiers) {
        plain_cursor_keys(*input, mode);
    }
}

/// A key that goes down is pressed, or held where the event says so; its modifiers and its
/// text are those of the event, and a key that is named keeps its name whatever it types.
pub proof fn key_events_are_taken_as_they_are(event: &KeyDownEvent, r: Option<KeyInput>)
    requires
        call_ensures(KeyInput::from_key_down, (event,), r),
    ensures
        r is Some <==> named_key(event.keystroke.key@) is Some || event.keystroke.key@.len() == 1,
        r matches Some(input) ==> {
            &&& input.state == if event.is_held {
                KeyState::Repeat
            } else {
                KeyState::Pressed
            }
            &&& input.modifiers == event.keystroke.modifiers
            &&& named_key(event.keystroke.key@) matches Some(key) ==> input.token
                == KeyToken::Named(key)
            &&& event.keystroke.key@.len() == 1 ==> input.base == Some(event.keystroke.key@[0])
            &&& event.keystroke.key@.len() != 1 ==> input.base is None
            &&& named_key(event.keystroke.key@) is None ==> input.token == KeyToken::Char(
                if event.keystroke.key_char is Some && event.keystroke.key_char->0@.len() > 0 {
                    event.keystroke.key_char->0@[0]
                } else {
                    event.keystroke.key@[0]
                },
            )
        },
{
}

/// A key that goes up is released.
pub proof fn key_releases_are_taken_as_they_are(event: &KeyUpEvent, r: Option<KeyInput>)
    requires
        call_ensures(KeyInput::from_key_up, (event,), r),
    ensures
        r is Some <==> named_key(event.keystroke.key@) is Some || event.keystroke.key@.len() == 1,
        r matches Some(input) ==> input.state == KeyState::Released && input.modifiers
            == event.keystroke.modifiers,
{
}

} // verus!
