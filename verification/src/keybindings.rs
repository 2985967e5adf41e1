//! Key bindings: how they are written, which key events they match, and what a
//! key event does before it is encoded for the terminal.

use vstd::prelude::*;

use crate::input::{
    cursor_keys_send_their_letters, editing_keys_send_their_numbers, encoded, modifier_digit,
    named_key, KeyInput, KeyState, KeyToken, Keystroke, Modifiers, NamedKey, TerminalMode,
};
use crate::text::{
    ascii_lower, ascii_lower_char, chars_of, find_unique, is_space, lowercase, split, split_on,
    str_eq, string_of, strings, texts, to_lowercase, trim, trim_start, trimmed,
};

verus! {

/// The bindings of one action.
pub type BindingSet = Vec<Keybinding>;

/// The key that a binding asks for.
#[derive(Debug, Clone, Copy, PartialEq, Eq, Structural)]
pub enum KeyMatch {
    Character(char),
    Named(NamedKey),
}

/// A binding: the modifiers that have to be held, and the key.
#[derive(Debug, Clone, Copy, PartialEq, Eq, Structural)]
pub struct Keybinding {
    /// The function key takes no part in a match.
    pub modifiers: Modifiers,
    pub key: KeyMatch,
}

/// How key bindings are written: for each action a list of combinations, such as
/// `ctrl+shift+w`.
#[derive(Debug)]
pub struct KeybindingsConfig {
    pub split_vertical: Vec<String>,
    pub split_horizontal: Vec<String>,
    pub close_pane: Vec<String>,
    pub cycle_pane: Vec<String>,
    pub focus_left: Vec<String>,
    pub focus_right: Vec<String>,
    pub focus_up: Vec<String>,
    pub focus_down: Vec<String>,
    pub equalize: Vec<String>,
    pub workspace_split_vertical: Vec<String>,
    pub workspace_split_horizontal: Vec<String>,
    pub workspace_focus_left: Vec<String>,
    pub workspace_focus_right: Vec<String>,
    pub workspace_focus_up: Vec<String>,
    pub workspace_focus_down: Vec<String>,
    pub new_tab: Vec<String>,
    pub new_claude_tab: Vec<String>,
    pub new_claude_resume_tab: Vec<String>,
    pub new_codex_tab: Vec<String>,
    pub new_codex_resume_tab: Vec<String>,
    pub new_pi_tab: Vec<String>,
    pub close_tab: Vec<String>,
    pub next_tab: Vec<String>,
    pub prev_tab: Vec<String>,
    pub select_tab_1: Vec<String>,
    pub select_tab_2: Vec<String>,
    pub select_tab_3: Vec<String>,
    pub select_tab_4: Vec<String>,
    pub select_tab_5: Vec<String>,
    pub select_tab_6: Vec<String>,
    pub select_tab_7: Vec<String>,
    pub select_tab_8: Vec<String>,
    pub select_tab_9: Vec<String>,
    pub copy: Vec<String>,
    pub paste: Vec<String>,
    pub scroll_up: Vec<String>,
    pub scroll_down: Vec<String>,
    pub scroll_top: Vec<String>,
    pub scroll_bottom: Vec<String>,
    pub find: Vec<String>,
    pub prompt_jump_up: Vec<String>,
    pub prompt_jump_down: Vec<String>,
    pub jump_to_failure: Vec<String>,
    pub zoom_in: Vec<String>,
    pub zoom_out: Vec<String>,
    pub zoom_reset: Vec<String>,
    pub new_window: Vec<String>,
    pub command_palette: Vec<String>,
    pub settings: Vec<String>,
    pub word_left: Vec<String>,
    pub word_right: Vec<String>,
    pub delete_word_backward: Vec<String>,
    pub delete_word_backward_ctrl: Vec<String>,
    pub delete_word_forward: Vec<String>,
    pub line_start: Vec<String>,
    pub line_end: Vec<String>,
}

/// The bindings of every action.
#[derive(Debug)]
pub struct Bindings {
    pub split_vertical: BindingSet,
    pub split_horizontal: BindingSet,
    pub close_pane: BindingSet,
    pub cycle_pane: BindingSet,
    pub focus_left: BindingSet,
    pub focus_right: BindingSet,
    pub focus_up: BindingSet,
    pub focus_down: BindingSet,
    pub equalize: BindingSet,
    pub workspace_split_vertical: BindingSet,
    pub workspace_split_horizontal: BindingSet,
    pub workspace_focus_left: BindingSet,
    pub workspace_focus_right: BindingSet,
    pub workspace_focus_up: BindingSet,
    pub workspace_focus_down: BindingSet,
    pub new_tab: BindingSet,
    pub new_claude_tab: BindingSet,
    pub new_claude_resume_tab: BindingSet,
    pub new_codex_tab: BindingSet,
    pub new_codex_resume_tab: BindingSet,
    pub new_pi_tab: BindingSet,
    pub close_tab: BindingSet,
    pub next_tab: BindingSet,
    pub prev_tab: BindingSet,
    pub select_tab_1: BindingSet,
    pub select_tab_2: BindingSet,
    pub select_tab_3: BindingSet,
    pub select_tab_4: BindingSet,
    pub select_tab_5: BindingSet,
    pub select_tab_6: BindingSet,
    pub select_tab_7: BindingSet,
    pub select_tab_8: BindingSet,
    pub select_tab_9: BindingSet,
    pub copy: BindingSet,
    pub paste: BindingSet,
    pub scroll_up: BindingSet,
    pub scroll_down: BindingSet,
    pub scroll_top: BindingSet,
    pub scroll_bottom: BindingSet,
    pub find: BindingSet,
    pub prompt_jump_up: BindingSet,
    pub prompt_jump_down: BindingSet,
    pub jump_to_failure: BindingSet,
    pub zoom_in: BindingSet,
    pub zoom_out: BindingSet,
    pub zoom_reset: BindingSet,
    pub new_window: BindingSet,
    pub command_palette: BindingSet,
    pub settings: BindingSet,
    pub word_left: BindingSet,
    pub word_right: BindingSet,
    pub delete_word_backward: BindingSet,
    pub delete_word_backward_ctrl: BindingSet,
    pub delete_word_forward: BindingSet,
    pub line_start: BindingSet,
    pub line_end: BindingSet,
}

// ---- Writing ----

/// The key that goes by a name in lower case.
pub open spec fn key_named(name: Seq<char>) -> Option<KeyMatch> {
    if name == "tab"@ {
        Some(KeyMatch::Named(NamedKey::Tab))
    } else if name == "enter"@ {
        Some(KeyMatch::Named(NamedKey::Enter))
    } else if name == "return"@ {
        Some(KeyMatch::Named(NamedKey::Enter))
    } else if name == "space"@ {
        Some(KeyMatch::Named(NamedKey::Space))
    } else if name == "backspace"@ {
        Some(KeyMatch::Named(NamedKey::Backspace))
    } else if name == "escape"@ {
        Some(KeyMatch::Named(NamedKey::Escape))
    } else if name == "esc"@ {
        Some(KeyMatch::Named(NamedKey::Escape))
    } else if name == "delete"@ {
        Some(KeyMatch::Named(NamedKey::Delete))
    } else if name == "left"@ {
        Some(KeyMatch::Named(NamedKey::ArrowLeft))
    } else if name == "right"@ {
        Some(KeyMatch::Named(NamedKey::ArrowRight))
    } else if name == "up"@ {
        Some(KeyMatch::Named(NamedKey::ArrowUp))
    } else if name == "down"@ {
        Some(KeyMatch::Named(NamedKey::ArrowDown))
    } else if name == "pageup"@ {
        Some(KeyMatch::Named(NamedKey::PageUp))
    } else if name == "pagedown"@ {
        Some(KeyMatch::Named(NamedKey::PageDown))
    } else if name == "home"@ {
        Some(KeyMatch::Named(NamedKey::Home))
    } else if name == "end"@ {
        Some(KeyMatch::Named(NamedKey::End))
    } else if name.len() == 1 {
        Some(KeyMatch::Character(name[0]))
    } else {
        None
    }
}

fn key_named_of(name: &str) -> (r: Option<KeyMatch>)
    ensures
        r == key_named(name@),
{
    if str_eq(name, "tab") {
        Some(KeyMatch::Named(NamedKey::Tab))
    } else if str_eq(name, "enter") {
        Some(KeyMatch::Named(NamedKey::Enter))
    } else if str_eq(name, "return") {
        Some(KeyMatch::Named(NamedKey::Enter))
    } else if str_eq(name, "space") {
        Some(KeyMatch::Named(NamedKey::Space))
    } else if str_eq(name, "backspace") {
        Some(KeyMatch::Named(NamedKey::Backspace))
    } else if str_eq(name, "escape") {
        Some(KeyMatch::Named(NamedKey::Escape))
    } else if str_eq(name, "esc") {
        Some(KeyMatch::Named(NamedKey::Escape))
    } else if str_eq(name, "delete") {
        Some(KeyMatch::Named(NamedKey::Delete))
    } else if str_eq(name, "left") {
        Some(KeyMatch::Named(NamedKey::ArrowLeft))
    } else if str_eq(name, "right") {
        Some(KeyMatch::Named(NamedKey::ArrowRight))
    } else if str_eq(name, "up") {
        Some(KeyMatch::Named(NamedKey::ArrowUp))
    } else if str_eq(name, "down") {
        Some(KeyMatch::Named(NamedKey::ArrowDown))
    } else if str_eq(name, "pageup") {
        Some(KeyMatch::Named(NamedKey::PageUp))
    } else if str_eq(name, "pagedown") {
        Some(KeyMatch::Named(NamedKey::PageDown))
    } else if str_eq(name, "home") {
        Some(KeyMatch::Named(NamedKey::Home))
    } else if str_eq(name, "end") {
        Some(KeyMatch::Named(NamedKey::End))
    } else {
        let chars = chars_of(name);
        if chars.len() == 1 {
            Some(KeyMatch::Character(chars[0]))
        } else {
            None
        }
    }
}

/// Whether a part of a combination names a modifier.
pub open spec fn is_modifier_name(part: Seq<char>) -> bool {
    part == "ctrl"@ || part == "shift"@ || part == "alt"@ || part == "cmd"@ || part == "super"@
}

/// The modifiers that the parts of a combination name.
pub open spec fn modifiers_named(parts: Seq<Seq<char>>) -> Modifiers {
    Modifiers {
        control: parts.contains("ctrl"@),
        alt: parts.contains("alt"@),
        shift: parts.contains("shift"@),
        platform: parts.contains("cmd"@) || parts.contains("super"@),
        function: false,
    }
}

/// The last part that names no modifier.
pub open spec fn key_part(parts: Seq<Seq<char>>) -> Option<Seq<char>>
    decreases parts.len(),
{
    if parts.len() == 0 {
        None
    } else if is_modifier_name(parts.last()) {
        key_part(parts.drop_last())
    } else {
        Some(parts.last())
    }
}

/// The binding that the parts of a combination, in lower case, stand for.
pub open spec fn binding_of(parts: Seq<Seq<char>>) -> Option<Keybinding> {
    match key_part(parts) {
        None => None,
        Some(name) => match key_named(name) {
            None => None,
            Some(key) => Some(Keybinding { modifiers: modifiers_named(parts), key }),
        },
    }
}

/// The parts of a combination: what stands between plus signs, trimmed and in
/// lower case.
pub open spec fn combo_parts(combo: Seq<char>) -> Seq<Seq<char>> {
    Seq::new(split(combo, '+').len(), |i: int| lowercase(trim(split(combo, '+')[i])))
}

/// The bindings that a list of combinations stands for; what cannot be read is
/// left out.
pub open spec fn bindings_of(list: Seq<String>) -> Seq<Keybinding>
    decreases list.len(),
{
    if list.len() == 0 {
        Seq::empty()
    } else {
        let front = bindings_of(list.drop_last());
        match binding_of(combo_parts(list.last()@)) {
            Some(binding) => front.push(binding),
            None => front,
        }
    }
}

proof fn contains_push(parts: Seq<Seq<char>>, part: Seq<char>, name: Seq<char>)
    ensures
        parts.push(part).contains(name) == (parts.contains(name) || part == name),
{
    let all = parts.push(part);
    if parts.contains(name) {
        let i = choose|i: int| 0 <= i < parts.len() && parts[i] == name;
        assert(all[i] == name);
    }
    if part == name {
        assert(all[parts.len() as int] == name);
    }
    if all.contains(name) && part != name {
        let i = choose|i: int| 0 <= i < all.len() && all[i] == name;
        assert(parts[i] == name);
    }
}

impl Keybinding {
    /// The binding that the parts of a combination, in lower case, stand for;
    /// `None` where no key is named, or none that is known.
    pub fn from_parts(parts: &Vec<String>) -> (r: Option<Self>)
        ensures
            r == binding_of(strings(parts@)),
    {
        let ghost all = strings(parts@);
        let mut modifiers = Modifiers::default();
        let mut key: Option<usize> = None;
        let mut i: usize = 0;
        proof {
            assert(all.take(0) =~= Seq::<Seq<char>>::empty());
        }
        while i < parts.len()
            invariant
                i <= parts@.len(),
                all == strings(parts@),
                modifiers == modifiers_named(all.take(i as int)),
                match key {
                    Some(n) => n < i && key_part(all.take(i as int)) == Some(all[n as int]),
                    None => key_part(all.take(i as int)) is None,
                },
            decreases parts@.len() - i,
        {
            let part = parts[i].as_str();
            proof {
                assert(all.take(i + 1).drop_last() =~= all.take(i as int));
                assert(all.take(i + 1) =~= all.take(i as int).push(part@));
                contains_push(all.take(i as int), part@, "ctrl"@);
                contains_push(all.take(i as int), part@, "shift"@);
                contains_push(all.take(i as int), part@, "alt"@);
                contains_push(all.take(i as int), part@, "cmd"@);
                contains_push(all.take(i as int), part@, "super"@);
                modifier_names_differ();
            }
            if str_eq(part, "ctrl") {
                modifiers.control = true;
            } else if str_eq(part, "shift") {
                modifiers.shift = true;
            } else if str_eq(part, "alt") {
                modifiers.alt = true;
            } else if str_eq(part, "cmd") || str_eq(part, "super") {
                modifiers.platform = true;
            } else {
                key = Some(i);
            }
            i += 1;
        }
        proof {
            assert(all.take(all.len() as int) =~= all);
        }
        match key {
            None => None,
            Some(n) => match key_named_of(parts[n].as_str()) {
                None => None,
                Some(key) => Some(Keybinding { modifiers, key }),
            },
        }
    }

    /// The binding that a combination such as `ctrl+shift+w` stands for.
    pub fn parse(s: &str) -> (r: Option<Self>)
        ensures
            r == binding_of(combo_parts(s@)),
    {
        let chars = chars_of(s);
        let pieces = split_on(chars.as_slice(), '+');
        let ghost all = split(s@, '+');
        let mut parts: Vec<String> = Vec::new();
        let mut i: usize = 0;
        while i < pieces.len()
            invariant
                i <= pieces@.len(),
                all == texts(pieces@),
                strings(parts@) == Seq::new(i as nat, |k: int| lowercase(trim(all[k]))),
            decreases pieces@.len() - i,
        {
            let ghost before = strings(parts@);
            let part = string_of(trimmed(pieces[i].as_slice()));
            parts.push(to_lowercase(part.as_str()));
            i += 1;
            proof {
                assert(all[i - 1] == pieces@[i - 1]@);
                assert(strings(parts@) =~= before.push(lowercase(trim(all[i - 1]))));
                assert(strings(parts@) =~= Seq::new(i as nat, |k: int| lowercase(trim(all[k]))));
            }
        }
        proof {
            assert(strings(parts@) =~= combo_parts(s@));
        }
        Self::from_parts(&parts)
    }
}

proof fn modifier_names_differ()
    ensures
        "ctrl"@ != "shift"@,
        "ctrl"@ != "alt"@,
        "ctrl"@ != "cmd"@,
        "ctrl"@ != "super"@,
        "shift"@ != "alt"@,
        "shift"@ != "cmd"@,
        "shift"@ != "super"@,
        "alt"@ != "cmd"@,
        "alt"@ != "super"@,
        "cmd"@ != "super"@,
{
    reveal_strlit("ctrl");
    reveal_strlit("shift");
    reveal_strlit("alt");
    reveal_strlit("cmd");
    reveal_strlit("super");
    assert("ctrl"@[0] == 'c' && "ctrl"@.len() == 4);
    assert("shift"@[1] == 'h' && "shift"@.len() == 5);
    assert("alt"@[0] == 'a' && "alt"@.len() == 3);
    assert("cmd"@[0] == 'c' && "cmd"@.len() == 3);
    assert("super"@[1] == 'u' && "super"@.len() == 5);
}

/// The bindings that a list of combinations stands for.
fn parse_set(list: &Vec<String>) -> (r: BindingSet)
    ensures
        r@ == bindings_of(list@),
{
    let ghost all = list@;
    let mut out: Vec<Keybinding> = Vec::new();
    let mut i: usize = 0;
    proof {
        assert(all.take(0) =~= Seq::<String>::empty());
    }
    while i < list.len()
        invariant
            i <= list@.len(),
            all == list@,
            out@ == bindings_of(all.take(i as int)),
        decreases list@.len() - i,
    {
        proof {
            assert(all.take(i + 1).drop_last() =~= all.take(i as int));
            assert(all.take(i + 1).last() == all[i as int]);
        }
        if let Some(binding) = Keybinding::parse(list[i].as_str()) {
            out.push(binding);
        }
        i += 1;
    }
    proof {
        assert(all.take(all.len() as int) =~= all);
    }
    out
}

impl Bindings {
    /// Whether these are the bindings of a configuration: of each list, those
    /// combinations that can be read, in order.
    pub open spec fn reads(&self, config: KeybindingsConfig) -> bool {
        &&& self.split_vertical@ == bindings_of(config.split_vertical@)
        &&& self.split_horizontal@ == bindings_of(config.split_horizontal@)
        &&& self.close_pane@ == bindings_of(config.close_pane@)
        &&& self.cycle_pane@ == bindings_of(config.cycle_pane@)
        &&& self.focus_left@ == bindings_of(config.focus_left@)
        &&& self.focus_right@ == bindings_of(config.focus_right@)
        &&& self.focus_up@ == bindings_of(config.focus_up@)
        &&& self.focus_down@ == bindings_of(config.focus_down@)
        &&& self.equalize@ == bindings_of(config.equalize@)
        &&& self.workspace_split_vertical@ == bindings_of(config.workspace_split_vertical@)
        &&& self.workspace_split_horizontal@ == bindings_of(config.workspace_split_horizontal@)
        &&& self.workspace_focus_left@ == bindings_of(config.workspace_focus_left@)
        &&& self.workspace_focus_right@ == bindings_of(config.workspace_focus_right@)
        &&& self.workspace_focus_up@ == bindings_of(config.workspace_focus_up@)
        &&& self.workspace_focus_down@ == bindings_of(config.workspace_focus_down@)
        &&& self.new_tab@ == bindings_of(config.new_tab@)
        &&& self.new_claude_tab@ == bindings_of(config.new_claude_tab@)
        &&& self.new_claude_resume_tab@ == bindings_of(config.new_claude_resume_tab@)
        &&& self.new_codex_tab@ == bindings_of(config.new_codex_tab@)
        &&& self.new_codex_resume_tab@ == bindings_of(config.new_codex_resume_tab@)
        &&& self.new_pi_tab@ == bindings_of(config.new_pi_tab@)
        &&& self.close_tab@ == bindings_of(config.close_tab@)
        &&& self.next_tab@ == bindings_of(config.next_tab@)
        &&& self.prev_tab@ == bindings_of(config.prev_tab@)
        &&& self.select_tab_1@ == bindings_of(config.select_tab_1@)
        &&& self.select_tab_2@ == bindings_of(config.select_tab_2@)
        &&& self.select_tab_3@ == bindings_of(config.select_tab_3@)
        &&& self.select_tab_4@ == bindings_of(config.select_tab_4@)
        &&& self.select_tab_5@ == bindings_of(config.select_tab_5@)
        &&& self.select_tab_6@ == bindings_of(config.select_tab_6@)
        &&& self.select_tab_7@ == bindings_of(config.select_tab_7@)
        &&& self.select_tab_8@ == bindings_of(config.select_tab_8@)
        &&& self.select_tab_9@ == bindings_of(config.select_tab_9@)
        &&& self.copy@ == bindings_of(config.copy@)
        &&& self.paste@ == bindings_of(config.paste@)
        &&& self.scroll_up@ == bindings_of(config.scroll_up@)
        &&& self.scroll_down@ == bindings_of(config.scroll_down@)
        &&& self.scroll_top@ == bindings_of(config.scroll_top@)
        &&& self.scroll_bottom@ == bindings_of(config.scroll_bottom@)
        &&& self.find@ == bindings_of(config.find@)
        &&& self.prompt_jump_up@ == bindings_of(config.prompt_jump_up@)
        &&& self.prompt_jump_down@ == bindings_of(config.prompt_jump_down@)
        &&& self.jump_to_failure@ == bindings_of(config.jump_to_failure@)
        &&& self.zoom_in@ == bindings_of(config.zoom_in@)
        &&& self.zoom_out@ == bindings_of(config.zoom_out@)
        &&& self.zoom_reset@ == bindings_of(config.zoom_reset@)
        &&& self.new_window@ == bindings_of(config.new_window@)
        &&& self.command_palette@ == bindings_of(config.command_palette@)
        &&& self.settings@ == bindings_of(config.settings@)
        &&& self.word_left@ == bindings_of(config.word_left@)
        &&& self.word_right@ == bindings_of(config.word_right@)
        &&& self.delete_word_backward@ == bindings_of(config.delete_word_backward@)
        &&& self.delete_word_backward_ctrl@ == bindings_of(config.delete_word_backward_ctrl@)
        &&& self.delete_word_forward@ == bindings_of(config.delete_word_forward@)
        &&& self.line_start@ == bindings_of(config.line_start@)
        &&& self.line_end@ == bindings_of(config.line_end@)
    }

    /// The bindings of a configuration. A combination that cannot be read is
    /// left out.
    pub fn parse(config: &KeybindingsConfig) -> (r: Self)
        ensures
            r.reads(*config),
    {
        Bindings {
            split_vertical: parse_set(&config.split_vertical),
            split_horizontal: parse_set(&config.split_horizontal),
            close_pane: parse_set(&config.close_pane),
            cycle_pane: parse_set(&config.cycle_pane),
            focus_left: parse_set(&config.focus_left),
            focus_right: parse_set(&config.focus_right),
            focus_up: parse_set(&config.focus_up),
            focus_down: parse_set(&config.focus_down),
            equalize: parse_set(&config.equalize),
            workspace_split_vertical: parse_set(&config.workspace_split_vertical),
            workspace_split_horizontal: parse_set(&config.workspace_split_horizontal),
            workspace_focus_left: parse_set(&config.workspace_focus_left),
            workspace_focus_right: parse_set(&config.workspace_focus_right),
            workspace_focus_up: parse_set(&config.workspace_focus_up),
            workspace_focus_down: parse_set(&config.workspace_focus_down),
            new_tab: parse_set(&config.new_tab),
            new_claude_tab: parse_set(&config.new_claude_tab),
            new_claude_resume_tab: parse_set(&config.new_claude_resume_tab),
            new_codex_tab: parse_set(&config.new_codex_tab),
            new_codex_resume_tab: parse_set(&config.new_codex_resume_tab),
            new_pi_tab: parse_set(&config.new_pi_tab),
            close_tab: parse_set(&config.close_tab),
            next_tab: parse_set(&config.next_tab),
            prev_tab: parse_set(&config.prev_tab),
            select_tab_1: parse_set(&config.select_tab_1),
            select_tab_2: parse_set(&config.select_tab_2),
            select_tab_3: parse_set(&config.select_tab_3),
            select_tab_4: parse_set(&config.select_tab_4),
            select_tab_5: parse_set(&config.select_tab_5),
            select_tab_6: parse_set(&config.select_tab_6),
            select_tab_7: parse_set(&config.select_tab_7),
            select_tab_8: parse_set(&config.select_tab_8),
            select_tab_9: parse_set(&config.select_tab_9),
            copy: parse_set(&config.copy),
            paste: parse_set(&config.paste),
            scroll_up: parse_set(&config.scroll_up),
            scroll_down: parse_set(&config.scroll_down),
            scroll_top: parse_set(&config.scroll_top),
            scroll_bottom: parse_set(&config.scroll_bottom),
            find: parse_set(&config.find),
            prompt_jump_up: parse_set(&config.prompt_jump_up),
            prompt_jump_down: parse_set(&config.prompt_jump_down),
            jump_to_failure: parse_set(&config.jump_to_failure),
            zoom_in: parse_set(&config.zoom_in),
            zoom_out: parse_set(&config.zoom_out),
            zoom_reset: parse_set(&config.zoom_reset),
            new_window: parse_set(&config.new_window),
            command_palette: parse_set(&config.command_palette),
            settings: parse_set(&config.settings),
            word_left: parse_set(&config.word_left),
            word_right: parse_set(&config.word_right),
            delete_word_backward: parse_set(&config.delete_word_backward),
            delete_word_backward_ctrl: parse_set(&config.delete_word_backward_ctrl),
            delete_word_forward: parse_set(&config.delete_word_forward),
            line_start: parse_set(&config.line_start),
            line_end: parse_set(&config.line_end),
        }
    }
}

// ---- Matching ----

/// The character that a key of the US layout types under Shift, where that is
/// another symbol.
pub open spec fn shifted_symbol(key: char) -> Option<char> {
    match key {
        '`' => Some('~'),
        '1' => Some('!'),
        '2' => Some('@'),
        '3' => Some('#'),
        '4' => Some('$'),
        '5' => Some('%'),
        '6' => Some('^'),
        '7' => Some('&'),
        '8' => Some('*'),
        '9' => Some('('),
        '0' => Some(')'),
        '-' => Some('_'),
        '=' => Some('+'),
        '[' => Some('{'),
        ']' => Some('}'),
        '\\' => Some('|'),
        ';' => Some(':'),
        '\'' => Some('"'),
        ',' => Some('<'),
        '.' => Some('>'),
        '/' => Some('?'),
        _ => None,
    }
}

/// The character that a key of the US layout types under Shift.
pub fn shifted_ascii(key: char) -> (r: Option<char>)
    ensures
        r == shifted_symbol(key),
{
    match key {
        '`' => Some('~'),
        '1' => Some('!'),
        '2' => Some('@'),
        '3' => Some('#'),
        '4' => Some('$'),
        '5' => Some('%'),
        '6' => Some('^'),
        '7' => Some('&'),
        '8' => Some('*'),
        '9' => Some('('),
        '0' => Some(')'),
        '-' => Some('_'),
        '=' => Some('+'),
        '[' => Some('{'),
        ']' => Some('}'),
        '\\' => Some('|'),
        ';' => Some(':'),
        '\'' => Some('"'),
        ',' => Some('<'),
        '.' => Some('>'),
        '/' => Some('?'),
        _ => None,
    }
}

/// Whether two states of the modifiers agree, but for the function key.
pub open spec fn same_modifiers(required: Modifiers, actual: Modifiers) -> bool {
    required.control == actual.control && required.alt == actual.alt && required.shift
        == actual.shift && required.platform == actual.platform
}

fn modifiers_match(required: Modifiers, actual: Modifiers) -> (r: bool)
    ensures
        r == same_modifiers(required, actual),
{
    required.control == actual.control && required.alt == actual.alt && required.shift
        == actual.shift && required.platform == actual.platform
}

impl Keybinding {
    /// Whether a binding to a character matches. Under Shift the key may be
    /// reported by its shifted symbol, with Shift held or not.
    pub open spec fn char_fits(&self, target: char, input: KeyInput) -> bool {
        match input.base {
            None => false,
            Some(base) => {
                let symbol = self.modifiers.shift && shifted_symbol(target) == Some(base);
                ||| same_modifiers(self.modifiers, input.modifiers) && (ascii_lower(base)
                    == ascii_lower(target) || symbol)
                ||| symbol && same_modifiers(
                    Modifiers { shift: false, ..self.modifiers },
                    input.modifiers,
                )
            },
        }
    }

    /// Whether the binding matches a key event: the key is down, it is the right
    /// key, and exactly the right modifiers are held.
    pub open spec fn fits(&self, input: KeyInput) -> bool {
        input.down() && match self.key {
            KeyMatch::Character(c) => self.char_fits(c, input),
            KeyMatch::Named(named) => same_modifiers(self.modifiers, input.modifiers)
                && input.token == KeyToken::Named(named),
        }
    }

    fn character_matches(&self, target: char, input: &KeyInput) -> (r: bool)
        ensures
            r == self.char_fits(target, *input),
    {
        let base = match input.base {
            Some(base) => base,
            None => {
                return false;
            },
        };
        let symbol = match shifted_ascii(target) {
            Some(shifted) => self.modifiers.shift && shifted == base,
            None => false,
        };
        if modifiers_match(self.modifiers, input.modifiers) {
            if ascii_lower_char(base) == ascii_lower_char(target) || symbol {
                return true;
            }
        }
        if !symbol || input.modifiers.shift {
            return false;
        }
        let m = self.modifiers;
        let folded = Modifiers {
            control: m.control,
            alt: m.alt,
            shift: false,
            platform: m.platform,
            function: m.function,
        };
        modifiers_match(folded, input.modifiers)
    }

    /// Whether the binding matches a key event.
    pub fn matches(&self, input: &KeyInput) -> (r: bool)
        ensures
            r == self.fits(*input),
    {
        if !input.is_down() {
            return false;
        }
        match self.key {
            KeyMatch::Character(c) => self.character_matches(c, input),
            KeyMatch::Named(named) => {
                modifiers_match(self.modifiers, input.modifiers) && input.token
                    == KeyToken::Named(named)
            },
        }
    }
}

/// Whether some binding matches a key event.
pub open spec fn set_matches(set: Seq<Keybinding>, input: KeyInput) -> bool {
    exists|i: int| 0 <= i < set.len() && (#[trigger] set[i]).fits(input)
}

/// Whether some binding matches a key event.
pub fn any_matches(set: &BindingSet, input: &KeyInput) -> (r: bool)
    ensures
        r == set_matches(set@, *input),
{
    let mut i: usize = 0;
    while i < set.len()
        invariant
            i <= set@.len(),
            forall|k: int| 0 <= k < i ==> !(#[trigger] set@[k]).fits(*input),
        decreases set@.len() - i,
    {
        if set[i].matches(input) {
            return true;
        }
        i += 1;
    }
    false
}

// ---- What a key event does ----

/// What the window does on a key.
#[derive(Debug, Clone, Copy, PartialEq, Eq, Structural)]
pub enum LayoutAction {
    /// Split the focused pane side by side.
    SplitVertical,
    /// Split the focused pane top and bottom.
    SplitHorizontal,
    /// Close the focused pane.
    ClosePane,
    /// Focus the next pane.
    FocusNext,
    /// Focus the pane to the left.
    FocusLeft,
    /// Focus the pane to the right.
    FocusRight,
    /// Focus the pane above.
    FocusUp,
    /// Focus the pane below.
    FocusDown,
    /// Give every split equal space.
    Equalize,
    /// Split the window into workspaces side by side.
    WorkspaceSplitVertical,
    /// Split the window into workspaces top and bottom.
    WorkspaceSplitHorizontal,
    /// Focus the workspace to the left.
    WorkspaceFocusLeft,
    /// Focus the workspace to the right.
    WorkspaceFocusRight,
    /// Focus the workspace above.
    WorkspaceFocusUp,
    /// Focus the workspace below.
    WorkspaceFocusDown,
    /// Open a tab.
    NewTab,
    /// Open a tab that runs the first coding assistant.
    NewClaudeTab,
    /// Open a tab that resumes the first coding assistant.
    NewClaudeResumeTab,
    /// Open a tab that runs Codex.
    NewCodexTab,
    /// Open a tab that resumes Codex.
    NewCodexResumeTab,
    /// Open a tab that runs Pi.
    NewPiTab,
    /// Close the tab.
    CloseTab,
    /// Go to the next tab.
    NextTab,
    /// Go to the previous tab.
    PrevTab,
    /// Go to a tab, counted from zero.
    SelectTab(usize),
    /// Open a window.
    NewWindow,
    /// Copy the selection.
    CopySelection,
    /// Paste the clipboard.
    PasteClipboard,
    /// Scroll up by a page.
    ScrollUp,
    /// Scroll down by a page.
    ScrollDown,
    /// Scroll to the top.
    ScrollTop,
    /// Scroll to the bottom.
    ScrollBottom,
    /// Go to the previous prompt.
    PromptJumpUp,
    /// Go to the next prompt.
    PromptJumpDown,
    /// Go to the last command that failed.
    JumpToFailure,
    /// Make the text larger.
    ZoomIn,
    /// Make the text smaller.
    ZoomOut,
    /// Give the text its configured size.
    ZoomReset,
}

/// What a key event does.
#[derive(Debug, PartialEq, Eq)]
pub enum KeyAction {
    /// It sends bytes to the terminal.
    Terminal(Vec<u8>),
    Layout(LayoutAction),
    OpenSettings,
    OpenCommandPalette,
    OpenFind,
}

/// What a [`KeyAction`] amounts to.
#[verifier::ext_equal]
pub enum ActionModel {
    Terminal(Seq<u8>),
    Layout(LayoutAction),
    OpenSettings,
    OpenCommandPalette,
    OpenFind,
}

impl View for KeyAction {
    type V = ActionModel;

    open spec fn view(&self) -> ActionModel {
        match *self {
            KeyAction::Terminal(bytes) => ActionModel::Terminal(bytes@),
            KeyAction::Layout(action) => ActionModel::Layout(action),
            KeyAction::OpenSettings => ActionModel::OpenSettings,
            KeyAction::OpenCommandPalette => ActionModel::OpenCommandPalette,
            KeyAction::OpenFind => ActionModel::OpenFind,
        }
    }
}

/// What an optional action amounts to.
pub open spec fn action_view(r: Option<KeyAction>) -> Option<ActionModel> {
    match r {
        Some(action) => Some(action@),
        None => None,
    }
}

/// What a key does to panes.
pub open spec fn pane_action_of(input: KeyInput, bindings: Bindings) -> Option<LayoutAction> {
    if set_matches(bindings.split_vertical@, input) {
        Some(LayoutAction::SplitVertical)
    } else if set_matches(bindings.split_horizontal@, input) {
        Some(LayoutAction::SplitHorizontal)
    } else if set_matches(bindings.close_pane@, input) {
        Some(LayoutAction::ClosePane)
    } else if set_matches(bindings.cycle_pane@, input) {
        Some(LayoutAction::FocusNext)
    } else if set_matches(bindings.focus_left@, input) {
        Some(LayoutAction::FocusLeft)
    } else if set_matches(bindings.focus_right@, input) {
        Some(LayoutAction::FocusRight)
    } else if set_matches(bindings.focus_up@, input) {
        Some(LayoutAction::FocusUp)
    } else if set_matches(bindings.focus_down@, input) {
        Some(LayoutAction::FocusDown)
    } else if set_matches(bindings.equalize@, input) {
        Some(LayoutAction::Equalize)
    } else {
        None
    }
}

fn pane_action(input: &KeyInput, bindings: &Bindings) -> (r: Option<LayoutAction>)
    ensures
        r == pane_action_of(*input, *bindings),
{
    if any_matches(&bindings.split_vertical, input) {
        Some(LayoutAction::SplitVertical)
    } else if any_matches(&bindings.split_horizontal, input) {
        Some(LayoutAction::SplitHorizontal)
    } else if any_matches(&bindings.close_pane, input) {
        Some(LayoutAction::ClosePane)
    } else if any_matches(&bindings.cycle_pane, input) {
        Some(LayoutAction::FocusNext)
    } else if any_matches(&bindings.focus_left, input) {
        Some(LayoutAction::FocusLeft)
    } else if any_matches(&bindings.focus_right, input) {
        Some(LayoutAction::FocusRight)
    } else if any_matches(&bindings.focus_up, input) {
        Some(LayoutAction::FocusUp)
    } else if any_matches(&bindings.focus_down, input) {
        Some(LayoutAction::FocusDown)
    } else if any_matches(&bindings.equalize, input) {
        Some(LayoutAction::Equalize)
    } else {
        None
    }
}

/// What a key does to workspaces.
pub open spec fn workspace_action_of(input: KeyInput, bindings: Bindings) -> Option<LayoutAction> {
    if set_matches(bindings.workspace_split_vertical@, input) {
        Some(LayoutAction::WorkspaceSplitVertical)
    } else if set_matches(bindings.workspace_split_horizontal@, input) {
        Some(LayoutAction::WorkspaceSplitHorizontal)
    } else if set_matches(bindings.workspace_focus_left@, input) {
        Some(LayoutAction::WorkspaceFocusLeft)
    } else if set_matches(bindings.workspace_focus_right@, input) {
        Some(LayoutAction::WorkspaceFocusRight)
    } else if set_matches(bindings.workspace_focus_up@, input) {
        Some(LayoutAction::WorkspaceFocusUp)
    } else if set_matches(bindings.workspace_focus_down@, input) {
        Some(LayoutAction::WorkspaceFocusDown)
    } else {
        None
    }
}

fn workspace_action(input: &KeyInput, bindings: &Bindings) -> (r: Option<LayoutAction>)
    ensures
        r == workspace_action_of(*input, *bindings),
{
    if any_matches(&bindings.workspace_split_vertical, input) {
        Some(LayoutAction::WorkspaceSplitVertical)
    } else if any_matches(&bindings.workspace_split_horizontal, input) {
        Some(LayoutAction::WorkspaceSplitHorizontal)
    } else if any_matches(&bindings.workspace_focus_left, input) {
        Some(LayoutAction::WorkspaceFocusLeft)
    } else if any_matches(&bindings.workspace_focus_right, input) {
        Some(LayoutAction::WorkspaceFocusRight)
    } else if any_matches(&bindings.workspace_focus_up, input) {
        Some(LayoutAction::WorkspaceFocusUp)
    } else if any_matches(&bindings.workspace_focus_down, input) {
        Some(LayoutAction::WorkspaceFocusDown)
    } else {
        None
    }
}

/// What a key does to tabs and windows.
pub open spec fn tab_action_of(input: KeyInput, bindings: Bindings) -> Option<LayoutAction> {
    if set_matches(bindings.new_window@, input) {
        Some(LayoutAction::NewWindow)
    } else if set_matches(bindings.new_claude_tab@, input) {
        Some(LayoutAction::NewClaudeTab)
    } else if set_matches(bindings.new_claude_resume_tab@, input) {
        Some(LayoutAction::NewClaudeResumeTab)
    } else if set_matches(bindings.new_codex_tab@, input) {
        Some(LayoutAction::NewCodexTab)
    } else if set_matches(bindings.new_codex_resume_tab@, input) {
        Some(LayoutAction::NewCodexResumeTab)
    } else if set_matches(bindings.new_pi_tab@, input) {
        Some(LayoutAction::NewPiTab)
    } else if set_matches(bindings.new_tab@, input) {
        Some(LayoutAction::NewTab)
    } else if set_matches(bindings.close_tab@, input) {
        Some(LayoutAction::CloseTab)
    } else if set_matches(bindings.next_tab@, input) {
        Some(LayoutAction::NextTab)
    } else if set_matches(bindings.prev_tab@, input) {
        Some(LayoutAction::PrevTab)
    } else if set_matches(bindings.select_tab_1@, input) {
        Some(LayoutAction::SelectTab(0))
    } else if set_matches(bindings.select_tab_2@, input) {
        Some(LayoutAction::SelectTab(1))
    } else if set_matches(bindings.select_tab_3@, input) {
        Some(LayoutAction::SelectTab(2))
    } else if set_matches(bindings.select_tab_4@, input) {
        Some(LayoutAction::SelectTab(3))
    } else if set_matches(bindings.select_tab_5@, input) {
        Some(LayoutAction::SelectTab(4))
    } else if set_matches(bindings.select_tab_6@, input) {
        Some(LayoutAction::SelectTab(5))
    } else if set_matches(bindings.select_tab_7@, input) {
        Some(LayoutAction::SelectTab(6))
    } else if set_matches(bindings.select_tab_8@, input) {
        Some(LayoutAction::SelectTab(7))
    } else if set_matches(bindings.select_tab_9@, input) {
        Some(LayoutAction::SelectTab(8))
    } else {
        None
    }
}

fn tab_action(input: &KeyInput, bindings: &Bindings) -> (r: Option<LayoutAction>)
    ensures
        r == tab_action_of(*input, *bindings),
{
    if any_matches(&bindings.new_window, input) {
        Some(LayoutAction::NewWindow)
    } else if any_matches(&bindings.new_claude_tab, input) {
        Some(LayoutAction::NewClaudeTab)
    } else if any_matches(&bindings.new_claude_resume_tab, input) {
        Some(LayoutAction::NewClaudeResumeTab)
    } else if any_matches(&bindings.new_codex_tab, input) {
        Some(LayoutAction::NewCodexTab)
    } else if any_matches(&bindings.new_codex_resume_tab, input) {
        Some(LayoutAction::NewCodexResumeTab)
    } else if any_matches(&bindings.new_pi_tab, input) {
        Some(LayoutAction::NewPiTab)
    } else if any_matches(&bindings.new_tab, input) {
        Some(LayoutAction::NewTab)
    } else if any_matches(&bindings.close_tab, input) {
        Some(LayoutAction::CloseTab)
    } else if any_matches(&bindings.next_tab, input) {
        Some(LayoutAction::NextTab)
    } else if any_matches(&bindings.prev_tab, input) {
        Some(LayoutAction::PrevTab)
    } else if any_matches(&bindings.select_tab_1, input) {
        Some(LayoutAction::SelectTab(0))
    } else if any_matches(&bindings.select_tab_2, input) {
        Some(LayoutAction::SelectTab(1))
    } else if any_matches(&bindings.select_tab_3, input) {
        Some(LayoutAction::SelectTab(2))
    } else if any_matches(&bindings.select_tab_4, input) {
        Some(LayoutAction::SelectTab(3))
    } else if any_matches(&bindings.select_tab_5, input) {
        Some(LayoutAction::SelectTab(4))
    } else if any_matches(&bindings.select_tab_6, input) {
        Some(LayoutAction::SelectTab(5))
    } else if any_matches(&bindings.select_tab_7, input) {
        Some(LayoutAction::SelectTab(6))
    } else if any_matches(&bindings.select_tab_8, input) {
        Some(LayoutAction::SelectTab(7))
    } else if any_matches(&bindings.select_tab_9, input) {
        Some(LayoutAction::SelectTab(8))
    } else {
        None
    }
}

/// What a key does to the clipboard, the view and the size of the text.
pub open spec fn view_action_of(input: KeyInput, bindings: Bindings) -> Option<LayoutAction> {
    if set_matches(bindings.copy@, input) {
        Some(LayoutAction::CopySelection)
    } else if set_matches(bindings.paste@, input) {
        Some(LayoutAction::PasteClipboard)
    } else if set_matches(bindings.scroll_up@, input) {
        Some(LayoutAction::ScrollUp)
    } else if set_matches(bindings.scroll_down@, input) {
        Some(LayoutAction::ScrollDown)
    } else if set_matches(bindings.scroll_top@, input) {
        Some(LayoutAction::ScrollTop)
    } else if set_matches(bindings.scroll_bottom@, input) {
        Some(LayoutAction::ScrollBottom)
    } else if set_matches(bindings.prompt_jump_up@, input) {
        Some(LayoutAction::PromptJumpUp)
    } else if set_matches(bindings.prompt_jump_down@, input) {
        Some(LayoutAction::PromptJumpDown)
    } else if set_matches(bindings.jump_to_failure@, input) {
        Some(LayoutAction::JumpToFailure)
    } else if set_matches(bindings.zoom_in@, input) {
        Some(LayoutAction::ZoomIn)
    } else if set_matches(bindings.zoom_out@, input) {
        Some(LayoutAction::ZoomOut)
    } else if set_matches(bindings.zoom_reset@, input) {
        Some(LayoutAction::ZoomReset)
    } else {
        None
    }
}

fn view_action(input: &KeyInput, bindings: &Bindings) -> (r: Option<LayoutAction>)
    ensures
        r == view_action_of(*input, *bindings),
{
    if any_matches(&bindings.copy, input) {
        Some(LayoutAction::CopySelection)
    } else if any_matches(&bindings.paste, input) {
        Some(LayoutAction::PasteClipboard)
    } else if any_matches(&bindings.scroll_up, input) {
        Some(LayoutAction::ScrollUp)
    } else if any_matches(&bindings.scroll_down, input) {
        Some(LayoutAction::ScrollDown)
    } else if any_matches(&bindings.scroll_top, input) {
        Some(LayoutAction::ScrollTop)
    } else if any_matches(&bindings.scroll_bottom, input) {
        Some(LayoutAction::ScrollBottom)
    } else if any_matches(&bindings.prompt_jump_up, input) {
        Some(LayoutAction::PromptJumpUp)
    } else if any_matches(&bindings.prompt_jump_down, input) {
        Some(LayoutAction::PromptJumpDown)
    } else if any_matches(&bindings.jump_to_failure, input) {
        Some(LayoutAction::JumpToFailure)
    } else if any_matches(&bindings.zoom_in, input) {
        Some(LayoutAction::ZoomIn)
    } else if any_matches(&bindings.zoom_out, input) {
        Some(LayoutAction::ZoomOut)
    } else if any_matches(&bindings.zoom_reset, input) {
        Some(LayoutAction::ZoomReset)
    } else {
        None
    }
}

/// What the window does on a key: what the panes, the workspaces, the tabs and the
/// view are bound to, in this order.
pub open spec fn layout_shortcut(input: KeyInput, bindings: Bindings) -> Option<LayoutAction> {
    if pane_action_of(input, bindings) is Some {
        pane_action_of(input, bindings)
    } else if workspace_action_of(input, bindings) is Some {
        workspace_action_of(input, bindings)
    } else if tab_action_of(input, bindings) is Some {
        tab_action_of(input, bindings)
    } else {
        view_action_of(input, bindings)
    }
}

/// What the window does on a key.
pub fn translate_layout_shortcut(input: &KeyInput, bindings: &Bindings) -> (r: Option<
    LayoutAction,
>)
    ensures
        r == layout_shortcut(*input, *bindings),
{
    if let Some(action) = pane_action(input, bindings) {
        return Some(action);
    }
    if let Some(action) = workspace_action(input, bindings) {
        return Some(action);
    }
    if let Some(action) = tab_action(input, bindings) {
        return Some(action);
    }
    view_action(input, bindings)
}

/// The bytes that a key is bound to send to the terminal.
pub open spec fn terminal_shortcut(input: KeyInput, bindings: Bindings) -> Option<Seq<u8>> {
    if set_matches(bindings.word_left@, input) {
        Some(seq![0x1bu8, 0x5b, 0x31, 0x3b, 0x35, 0x44])
    } else if set_matches(bindings.word_right@, input) {
        Some(seq![0x1bu8, 0x5b, 0x31, 0x3b, 0x35, 0x43])
    } else if set_matches(bindings.delete_word_backward@, input) {
        Some(seq![0x1bu8, 0x7f])
    } else if set_matches(bindings.delete_word_backward_ctrl@, input) {
        Some(seq![0x08u8])
    } else if set_matches(bindings.delete_word_forward@, input) {
        Some(seq![0x1bu8, 0x5b, 0x33, 0x3b, 0x35, 0x7e])
    } else if set_matches(bindings.line_start@, input) {
        Some(seq![0x1bu8, 0x5b, 0x31, 0x3b, 0x35, 0x48])
    } else if set_matches(bindings.line_end@, input) {
        Some(seq![0x1bu8, 0x5b, 0x31, 0x3b, 0x35, 0x46])
    } else {
        None
    }
}

/// The bytes that a key is bound to send to the terminal.
pub fn translate_terminal_shortcut(input: &KeyInput, bindings: &Bindings) -> (r: Option<Vec<u8>>)
    ensures
        crate::input::bytes_of(r) == terminal_shortcut(*input, *bindings),
{
    if any_matches(&bindings.word_left, input) {
        Some(byte_vec(&[0x1b, 0x5b, 0x31, 0x3b, 0x35, 0x44]))
    } else if any_matches(&bindings.word_right, input) {
        Some(byte_vec(&[0x1b, 0x5b, 0x31, 0x3b, 0x35, 0x43]))
    } else if any_matches(&bindings.delete_word_backward, input) {
        Some(byte_vec(&[0x1b, 0x7f]))
    } else if any_matches(&bindings.delete_word_backward_ctrl, input) {
        Some(byte_vec(&[0x08]))
    } else if any_matches(&bindings.delete_word_forward, input) {
        Some(byte_vec(&[0x1b, 0x5b, 0x33, 0x3b, 0x35, 0x7e]))
    } else if any_matches(&bindings.line_start, input) {
        Some(byte_vec(&[0x1b, 0x5b, 0x31, 0x3b, 0x35, 0x48]))
    } else if any_matches(&bindings.line_end, input) {
        Some(byte_vec(&[0x1b, 0x5b, 0x31, 0x3b, 0x35, 0x46]))
    } else {
        None
    }
}

fn byte_vec(bytes: &[u8]) -> (r: Vec<u8>)
    ensures
        r@ == bytes@,
{
    let mut out: Vec<u8> = Vec::new();
    let mut i: usize = 0;
    while i < bytes.len()
        invariant
            i <= bytes@.len(),
            out@ == bytes@.take(i as int),
        decreases bytes@.len() - i,
    {
        out.push(bytes[i]);
        i += 1;
        proof {
            assert(bytes@.take(i as int) =~= bytes@.take(i - 1).push(bytes@[i - 1]));
        }
    }
    proof {
        assert(bytes@.take(bytes@.len() as int) =~= bytes@);
    }
    out
}

/// What a key event is bound to, if anything: first what the window does, then
/// the palette, the settings and the search, and last bytes for the terminal.
pub open spec fn key_action(input: KeyInput, bindings: Bindings) -> Option<ActionModel> {
    if !input.down() {
        None
    } else if layout_shortcut(input, bindings) is Some {
        Some(ActionModel::Layout(layout_shortcut(input, bindings)->0))
    } else if set_matches(bindings.command_palette@, input) {
        Some(ActionModel::OpenCommandPalette)
    } else if set_matches(bindings.settings@, input) {
        Some(ActionModel::OpenSettings)
    } else if set_matches(bindings.find@, input) {
        Some(ActionModel::OpenFind)
    } else if terminal_shortcut(input, bindings) is Some {
        Some(ActionModel::Terminal(terminal_shortcut(input, bindings)->0))
    } else {
        None
    }
}

/// What a key event is bound to; `None` where it is for the terminal as it is.
pub fn translate_key_action(input: &KeyInput, bindings: &Bindings) -> (r: Option<KeyAction>)
    ensures
        action_view(r) == key_action(*input, *bindings),
{
    if !input.is_down() {
        return None;
    }
    if let Some(action) = translate_layout_shortcut(input, bindings) {
        return Some(KeyAction::Layout(action));
    }
    if any_matches(&bindings.command_palette, input) {
        return Some(KeyAction::OpenCommandPalette);
    }
    if any_matches(&bindings.settings, input) {
        return Some(KeyAction::OpenSettings);
    }
    if any_matches(&bindings.find, input) {
        return Some(KeyAction::OpenFind);
    }
    match translate_terminal_shortcut(input, bindings) {
        Some(bytes) => Some(KeyAction::Terminal(bytes)),
        None => None,
    }
}

/// An overlay that opens on a fixed key.
#[derive(Debug, Clone, Copy, PartialEq, Eq, Structural)]
pub enum OverlayChord {
    /// The tooltip demonstration.
    TooltipDemo,
    /// The dialog that confirms closing.
    CloseDialog,
    /// The dialog that confirms clipboard access.
    ClipboardDialog,
    /// The copy mode.
    ViMode,
}

impl OverlayChord {
    /// The fixed key of an overlay: Control, Shift and a key of its own.
    pub open spec fn chord(self) -> Keybinding {
        Keybinding {
            modifiers: Modifiers {
                control: true,
                alt: false,
                shift: true,
                platform: false,
                function: false,
            },
            key: match self {
                OverlayChord::TooltipDemo => KeyMatch::Character('u'),
                OverlayChord::CloseDialog => KeyMatch::Character('d'),
                OverlayChord::ClipboardDialog => KeyMatch::Character('k'),
                OverlayChord::ViMode => KeyMatch::Named(NamedKey::Space),
            },
        }
    }

    /// How the key of an overlay is written.
    pub open spec fn written(self) -> Seq<char> {
        match self {
            OverlayChord::TooltipDemo => "ctrl+shift+u"@,
            OverlayChord::CloseDialog => "ctrl+shift+d"@,
            OverlayChord::ClipboardDialog => "ctrl+shift+k"@,
            OverlayChord::ViMode => "ctrl+shift+space"@,
        }
    }

    /// The fixed key of an overlay.
    pub fn binding(self) -> (r: Keybinding)
        ensures
            r == self.chord(),
    {
        let modifiers = Modifiers {
            control: true,
            alt: false,
            shift: true,
            platform: false,
            function: false,
        };
        let key = match self {
            OverlayChord::TooltipDemo => KeyMatch::Character('u'),
            OverlayChord::CloseDialog => KeyMatch::Character('d'),
            OverlayChord::ClipboardDialog => KeyMatch::Character('k'),
            OverlayChord::ViMode => KeyMatch::Named(NamedKey::Space),
        };
        Keybinding { modifiers, key }
    }
}

/// The fixed keys, as they are written.
pub fn overlay_chords() -> (r: [(&'static str, OverlayChord); 4])
    ensures
        r@.len() == 4,
        r@[0].1 == OverlayChord::TooltipDemo,
        r@[1].1 == OverlayChord::CloseDialog,
        r@[2].1 == OverlayChord::ClipboardDialog,
        r@[3].1 == OverlayChord::ViMode,
        forall|i: int| 0 <= i < 4 ==> (#[trigger] r@[i]).0@ == r@[i].1.written(),
{
    [
        ("ctrl+shift+u", OverlayChord::TooltipDemo),
        ("ctrl+shift+d", OverlayChord::CloseDialog),
        ("ctrl+shift+k", OverlayChord::ClipboardDialog),
        ("ctrl+shift+space", OverlayChord::ViMode),
    ]
}

/// The overlay that a key event opens, unless the key is bound to anything else.
pub open spec fn overlay_chord(input: KeyInput, bindings: Bindings) -> Option<OverlayChord> {
    if !input.down() || key_action(input, bindings) is Some {
        None
    } else if OverlayChord::TooltipDemo.chord().fits(input) {
        Some(OverlayChord::TooltipDemo)
    } else if OverlayChord::CloseDialog.chord().fits(input) {
        Some(OverlayChord::CloseDialog)
    } else if OverlayChord::ClipboardDialog.chord().fits(input) {
        Some(OverlayChord::ClipboardDialog)
    } else if OverlayChord::ViMode.chord().fits(input) {
        Some(OverlayChord::ViMode)
    } else {
        None
    }
}

/// The overlay that a key event opens, unless the key is bound to anything else.
pub fn translate_overlay_chord(input: &KeyInput, bindings: &Bindings) -> (r: Option<OverlayChord>)
    ensures
        r == overlay_chord(*input, *bindings),
{
    if !input.is_down() {
        return None;
    }
    if translate_key_action(input, bindings).is_some() {
        return None;
    }
    if OverlayChord::TooltipDemo.binding().matches(input) {
        Some(OverlayChord::TooltipDemo)
    } else if OverlayChord::CloseDialog.binding().matches(input) {
        Some(OverlayChord::CloseDialog)
    } else if OverlayChord::ClipboardDialog.binding().matches(input) {
        Some(OverlayChord::ClipboardDialog)
    } else if OverlayChord::ViMode.binding().matches(input) {
        Some(OverlayChord::ViMode)
    } else {
        None
    }
}

// ---- Laws ----

/// A configured binding always wins over an overlay.
pub proof fn configured_bindings_win(input: KeyInput, bindings: Bindings)
    ensures
        key_action(input, bindings) is Some ==> overlay_chord(input, bindings) is None,
        overlay_chord(input, bindings) is Some ==> key_action(input, bindings) is None,
{
}

/// A key that goes up is bound to nothing.
pub proof fn releases_match_nothing(input: KeyInput, binding: Keybinding, bindings: Bindings)
    requires
        !input.down(),
    ensures
        !binding.fits(input),
        key_action(input, bindings) is None,
        overlay_chord(input, bindings) is None,
{
}

/// The function key neither makes nor breaks a match.
pub proof fn function_key_is_ignored(binding: Keybinding, input: KeyInput, other: KeyInput)
    requires
        other == (KeyInput {
            modifiers: Modifiers {
                function: !input.modifiers.function,
                ..input.modifiers
            },
            ..input
        }),
    ensures
        binding.fits(input) == binding.fits(other),
{
}

/// A binding matches a press of exactly what it names.
pub proof fn bindings_match_their_own_key(binding: Keybinding, input: KeyInput)
    requires
        input.down(),
        same_modifiers(binding.modifiers, input.modifiers),
        match binding.key {
            KeyMatch::Character(c) => input.base == Some(c),
            KeyMatch::Named(named) => input.token == KeyToken::Named(named),
        },
    ensures
        binding.fits(input),
{
}

/// A match asks for exactly the named modifiers; only Shift may go missing, and
/// only where the key is reported by its shifted symbol.
pub proof fn matches_need_exact_modifiers(binding: Keybinding, input: KeyInput)
    requires
        binding.fits(input),
    ensures
        input.modifiers.control == binding.modifiers.control,
        input.modifiers.alt == binding.modifiers.alt,
        input.modifiers.platform == binding.modifiers.platform,
        input.modifiers.shift != binding.modifiers.shift ==> {
            &&& binding.modifiers.shift
            &&& binding.key matches KeyMatch::Character(c) && input.base is Some
                && shifted_symbol(c) == input.base
        },
{
}

/// The name of an overlay's own key.
spec fn overlay_key(chord: OverlayChord) -> Seq<char> {
    match chord {
        OverlayChord::TooltipDemo => "u"@,
        OverlayChord::CloseDialog => "d"@,
        OverlayChord::ClipboardDialog => "k"@,
        OverlayChord::ViMode => "space"@,
    }
}

proof fn overlay_keys_are_named(chord: OverlayChord)
    ensures
        key_named(overlay_key(chord)) == Some(chord.chord().key),
        !is_modifier_name(overlay_key(chord)),
{
    reveal_strlit("u");
    reveal_strlit("d");
    reveal_strlit("k");
    reveal_strlit("space");
    reveal_strlit("ctrl");
    reveal_strlit("shift");
    reveal_strlit("alt");
    reveal_strlit("cmd");
    reveal_strlit("super");
    reveal_strlit("tab");
    reveal_strlit("enter");
    reveal_strlit("return");
    reveal_strlit("backspace");
    reveal_strlit("escape");
    reveal_strlit("esc");
    reveal_strlit("delete");
    reveal_strlit("left");
    reveal_strlit("right");
    reveal_strlit("up");
    reveal_strlit("down");
    reveal_strlit("pageup");
    reveal_strlit("pagedown");
    reveal_strlit("home");
    reveal_strlit("end");
    assert("space"@[1] == 'p' && "shift"@[1] == 'h' && "super"@[1] == 'u');
    assert("enter"@[0] == 'e' && "space"@[0] == 's');
    assert("tab"@.len() == 3 && "enter"@.len() == 5 && "return"@.len() == 6);
    assert("backspace"@.len() == 9 && "escape"@.len() == 6 && "esc"@.len() == 3);
    assert("delete"@.len() == 6 && "left"@.len() == 4 && "right"@.len() == 5);
    assert("up"@.len() == 2 && "down"@.len() == 4 && "pageup"@.len() == 6);
    assert("pagedown"@.len() == 8 && "home"@.len() == 4 && "end"@.len() == 3);
    assert("space"@.len() == 5);
}

proof fn overlay_keys_are_split(chord: OverlayChord)
    ensures
        split(chord.written(), '+') == seq!["ctrl"@, "shift"@, overlay_key(chord)],
{
    reveal_strlit("ctrl+shift+u");
    reveal_strlit("ctrl+shift+d");
    reveal_strlit("ctrl+shift+k");
    reveal_strlit("ctrl+shift+space");
    reveal_strlit("u");
    reveal_strlit("d");
    reveal_strlit("k");
    reveal_strlit("space");
    reveal_strlit("ctrl");
    reveal_strlit("shift");
    let s = chord.written();
    let rest = s.skip(5);
    let last = rest.skip(6);
    let name = overlay_key(chord);
    assert(s =~= "ctrl"@ + seq!['+'] + "shift"@ + seq!['+'] + name);
    assert forall|i: int| 0 <= i < name.len() implies (#[trigger] name[i]) != '+' by {}
    find_unique(s, '+', 4);
    assert(s.take(4) =~= "ctrl"@);
    find_unique(rest, '+', 5);
    assert(rest.take(5) =~= "shift"@);
    assert(last =~= name);
    find_unique(last, '+', last.len() as int);
    assert(split(last, '+') =~= seq![name]);
    assert(split(rest, '+') =~= seq!["shift"@, name]);
    assert(split(s, '+') =~= seq!["ctrl"@, "shift"@, name]);
}

/// A text that neither starts nor ends with white space stays as it is.
proof fn trimming_nothing(s: Seq<char>)
    requires
        s.len() > 0,
        !is_space(s[0]),
        !is_space(s.last()),
    ensures
        trim(s) == s,
{
    assert(trim_start(s) =~= s);
    assert(trim(s) =~= s);
}

/// The key of each overlay is the binding that its written form stands for.
/// Reading it goes through lower case, which is to leave its parts as they are.
pub proof fn overlay_chords_read_as_written(chord: OverlayChord)
    ensures
        binding_of(split(chord.written(), '+')) == Some(chord.chord()),
        (forall|i: int|
            0 <= i < 3 ==> lowercase(#[trigger] split(chord.written(), '+')[i]) == split(
                chord.written(),
                '+',
            )[i]) ==> binding_of(combo_parts(chord.written())) == Some(chord.chord()),
{
    let parts = split(chord.written(), '+');
    let name = overlay_key(chord);
    overlay_keys_are_split(chord);
    overlay_keys_are_named(chord);
    modifier_names_differ();
    assert(parts[0] == "ctrl"@ && parts[1] == "shift"@ && parts[2] == name);
    assert(key_part(parts) == Some(name));
    assert(modifiers_named(parts) == chord.chord().modifiers);
    assert forall|i: int| 0 <= i < 3 implies trim(#[trigger] parts[i]) == parts[i] by {
        reveal_strlit("u");
        reveal_strlit("d");
        reveal_strlit("k");
        reveal_strlit("space");
        reveal_strlit("ctrl");
        reveal_strlit("shift");
        trimming_nothing(parts[i]);
    }
    if forall|i: int| 0 <= i < 3 ==> lowercase(#[trigger] parts[i]) == parts[i] {
        assert(combo_parts(chord.written()) =~= parts);
    }
}

// ---- What the names stand for ----

/// How the names are spelled, as far as it takes to tell them apart.
proof fn names_are_spelled()
    ensures
        "alt"@.len() == 3,
        "alt"@[0] == 'a' && "alt"@[1] == 'l' && "alt"@[2] == 't',
        "backspace"@.len() == 9,
        "backspace"@[0] == 'b' && "backspace"@[1] == 'a' && "backspace"@[2] == 'c',
        "capslock"@.len() == 8,
        "capslock"@[0] == 'c' && "capslock"@[1] == 'a' && "capslock"@[2] == 'p',
        "cmd"@.len() == 3,
        "cmd"@[0] == 'c' && "cmd"@[1] == 'm' && "cmd"@[2] == 'd',
        "control"@.len() == 7,
        "control"@[0] == 'c' && "control"@[1] == 'o' && "control"@[2] == 'n',
        "ctrl"@.len() == 4,
        "ctrl"@[0] == 'c' && "ctrl"@[1] == 't' && "ctrl"@[2] == 'r',
        "delete"@.len() == 6,
        "delete"@[0] == 'd' && "delete"@[1] == 'e' && "delete"@[2] == 'l',
        "down"@.len() == 4,
        "down"@[0] == 'd' && "down"@[1] == 'o' && "down"@[2] == 'w',
        "end"@.len() == 3,
        "end"@[0] == 'e' && "end"@[1] == 'n' && "end"@[2] == 'd',
        "enter"@.len() == 5,
        "enter"@[0] == 'e' && "enter"@[1] == 'n' && "enter"@[2] == 't',
        "esc"@.len() == 3,
        "esc"@[0] == 'e' && "esc"@[1] == 's' && "esc"@[2] == 'c',
        "escape"@.len() == 6,
        "escape"@[0] == 'e' && "escape"@[1] == 's' && "escape"@[2] == 'c',
        "f1"@.len() == 2,
        "f1"@[0] == 'f' && "f1"@[1] == '1',
        "f10"@.len() == 3,
        "f10"@[0] == 'f' && "f10"@[1] == '1' && "f10"@[2] == '0',
        "f11"@.len() == 3,
        "f11"@[0] == 'f' && "f11"@[1] == '1' && "f11"@[2] == '1',
        "f12"@.len() == 3,
        "f12"@[0] == 'f' && "f12"@[1] == '1' && "f12"@[2] == '2',
        "f13"@.len() == 3,
        "f13"@[0] == 'f' && "f13"@[1] == '1' && "f13"@[2] == '3',
        "f14"@.len() == 3,
        "f14"@[0] == 'f' && "f14"@[1] == '1' && "f14"@[2] == '4',
        "f15"@.len() == 3,
        "f15"@[0] == 'f' && "f15"@[1] == '1' && "f15"@[2] == '5',
        "f16"@.len() == 3,
        "f16"@[0] == 'f' && "f16"@[1] == '1' && "f16"@[2] == '6',
        "f17"@.len() == 3,
        "f17"@[0] == 'f' && "f17"@[1] == '1' && "f17"@[2] == '7',
        "f18"@.len() == 3,
        "f18"@[0] == 'f' && "f18"@[1] == '1' && "f18"@[2] == '8',
        "f19"@.len() == 3,
        "f19"@[0] == 'f' && "f19"@[1] == '1' && "f19"@[2] == '9',
        "f2"@.len() == 2,
        "f2"@[0] == 'f' && "f2"@[1] == '2',
        "f20"@.len() == 3,
        "f20"@[0] == 'f' && "f20"@[1] == '2' && "f20"@[2] == '0',
        "f3"@.len() == 2,
        "f3"@[0] == 'f' && "f3"@[1] == '3',
        "f4"@.len() == 2,
        "f4"@[0] == 'f' && "f4"@[1] == '4',
        "f5"@.len() == 2,
        "f5"@[0] == 'f' && "f5"@[1] == '5',
        "f6"@.len() == 2,
        "f6"@[0] == 'f' && "f6"@[1] == '6',
        "f7"@.len() == 2,
        "f7"@[0] == 'f' && "f7"@[1] == '7',
        "f8"@.len() == 2,
        "f8"@[0] == 'f' && "f8"@[1] == '8',
        "f9"@.len() == 2,
        "f9"@[0] == 'f' && "f9"@[1] == '9',
        "home"@.len() == 4,
        "home"@[0] == 'h' && "home"@[1] == 'o' && "home"@[2] == 'm',
        "insert"@.len() == 6,
        "insert"@[0] == 'i' && "insert"@[1] == 'n' && "insert"@[2] == 's',
        "left"@.len() == 4,
        "left"@[0] == 'l' && "left"@[1] == 'e' && "left"@[2] == 'f',
        "numlock"@.len() == 7,
        "numlock"@[0] == 'n' && "numlock"@[1] == 'u' && "numlock"@[2] == 'm',
        "pagedown"@.len() == 8,
        "pagedown"@[0] == 'p' && "pagedown"@[1] == 'a' && "pagedown"@[2] == 'g',
        "pageup"@.len() == 6,
        "pageup"@[0] == 'p' && "pageup"@[1] == 'a' && "pageup"@[2] == 'g',
        "platform"@.len() == 8,
        "platform"@[0] == 'p' && "platform"@[1] == 'l' && "platform"@[2] == 'a',
        "return"@.len() == 6,
        "return"@[0] == 'r' && "return"@[1] == 'e' && "return"@[2] == 't',
        "right"@.len() == 5,
        "right"@[0] == 'r' && "right"@[1] == 'i' && "right"@[2] == 'g',
        "shift"@.len() == 5,
        "shift"@[0] == 's' && "shift"@[1] == 'h' && "shift"@[2] == 'i',
        "space"@.len() == 5,
        "space"@[0] == 's' && "space"@[1] == 'p' && "space"@[2] == 'a',
        "super"@.len() == 5,
        "super"@[0] == 's' && "super"@[1] == 'u' && "super"@[2] == 'p',
        "tab"@.len() == 3,
        "tab"@[0] == 't' && "tab"@[1] == 'a' && "tab"@[2] == 'b',
        "up"@.len() == 2,
        "up"@[0] == 'u' && "up"@[1] == 'p',
        "win"@.len() == 3,
        "win"@[0] == 'w' && "win"@[1] == 'i' && "win"@[2] == 'n',
{
    reveal_strlit("alt");
    reveal_strlit("backspace");
    reveal_strlit("capslock");
    reveal_strlit("cmd");
    reveal_strlit("control");
    reveal_strlit("ctrl");
    reveal_strlit("delete");
    reveal_strlit("down");
    reveal_strlit("end");
    reveal_strlit("enter");
    reveal_strlit("esc");
    reveal_strlit("escape");
    reveal_strlit("f1");
    reveal_strlit("f10");
    reveal_strlit("f11");
    reveal_strlit("f12");
    reveal_strlit("f13");
    reveal_strlit("f14");
    reveal_strlit("f15");
    reveal_strlit("f16");
    reveal_strlit("f17");
    reveal_strlit("f18");
    reveal_strlit("f19");
    reveal_strlit("f2");
    reveal_strlit("f20");
    reveal_strlit("f3");
    reveal_strlit("f4");
    reveal_strlit("f5");
    reveal_strlit("f6");
    reveal_strlit("f7");
    reveal_strlit("f8");
    reveal_strlit("f9");
    reveal_strlit("home");
    reveal_strlit("insert");
    reveal_strlit("left");
    reveal_strlit("numlock");
    reveal_strlit("pagedown");
    reveal_strlit("pageup");
    reveal_strlit("platform");
    reveal_strlit("return");
    reveal_strlit("right");
    reveal_strlit("shift");
    reveal_strlit("space");
    reveal_strlit("super");
    reveal_strlit("tab");
    reveal_strlit("up");
    reveal_strlit("win");
}

/// A name stands for the same key in a binding as it does when the window system
/// reports a key by it. Beside those names a binding knows `return` and `esc`, and any
/// single character, which stands for itself.
pub proof fn names_mean_the_same_everywhere(name: Seq<char>, key: NamedKey)
    ensures
        key_named(name) == Some(KeyMatch::Named(key)) ==> named_key(name) == Some(key) || (name
            == "return"@ && key == NamedKey::Enter) || (name == "esc"@ && key
            == NamedKey::Escape),
        name.len() == 1 ==> key_named(name) == Some(KeyMatch::Character(name[0])) && named_key(
            name,
        ) is None,
        key_named(name) matches Some(KeyMatch::Character(c)) ==> name == seq![c],
        name == "tab"@ ==> key_named(name) == Some(KeyMatch::Named(NamedKey::Tab))
            && named_key(name) == Some(NamedKey::Tab),
        name == "enter"@ ==> key_named(name) == Some(KeyMatch::Named(NamedKey::Enter))
            && named_key(name) == Some(NamedKey::Enter),
        name == "return"@ ==> key_named(name) == Some(KeyMatch::Named(NamedKey::Enter)),
        name == "space"@ ==> key_named(name) == Some(KeyMatch::Named(NamedKey::Space))
            && named_key(name) == Some(NamedKey::Space),
        name == "backspace"@ ==> key_named(name) == Some(KeyMatch::Named(NamedKey::Backspace))
            && named_key(name) == Some(NamedKey::Backspace),
        name == "escape"@ ==> key_named(name) == Some(KeyMatch::Named(NamedKey::Escape))
            && named_key(name) == Some(NamedKey::Escape),
        name == "esc"@ ==> key_named(name) == Some(KeyMatch::Named(NamedKey::Escape)),
        name == "delete"@ ==> key_named(name) == Some(KeyMatch::Named(NamedKey::Delete))
            && named_key(name) == Some(NamedKey::Delete),
        name == "left"@ ==> key_named(name) == Some(KeyMatch::Named(NamedKey::ArrowLeft))
            && named_key(name) == Some(NamedKey::ArrowLeft),
        name == "right"@ ==> key_named(name) == Some(KeyMatch::Named(NamedKey::ArrowRight))
            && named_key(name) == Some(NamedKey::ArrowRight),
        name == "up"@ ==> key_named(name) == Some(KeyMatch::Named(NamedKey::ArrowUp))
            && named_key(name) == Some(NamedKey::ArrowUp),
        name == "down"@ ==> key_named(name) == Some(KeyMatch::Named(NamedKey::ArrowDown))
            && named_key(name) == Some(NamedKey::ArrowDown),
        name == "pageup"@ ==> key_named(name) == Some(KeyMatch::Named(NamedKey::PageUp))
            && named_key(name) == Some(NamedKey::PageUp),
        name == "pagedown"@ ==> key_named(name) == Some(KeyMatch::Named(NamedKey::PageDown))
            && named_key(name) == Some(NamedKey::PageDown),
        name == "home"@ ==> key_named(name) == Some(KeyMatch::Named(NamedKey::Home))
            && named_key(name) == Some(NamedKey::Home),
        name == "end"@ ==> key_named(name) == Some(KeyMatch::Named(NamedKey::End))
            && named_key(name) == Some(NamedKey::End),
{
    names_are_spelled();
    if let Some(KeyMatch::Character(c)) = key_named(name) {
        assert(name =~= seq![c]);
    }
}

/// The names by which the window system reports a key.
pub proof fn reported_names(name: Seq<char>)
    ensures
        name == "enter"@ ==> named_key(name) == Some(NamedKey::Enter),
        name == "tab"@ ==> named_key(name) == Some(NamedKey::Tab),
        name == "escape"@ ==> named_key(name) == Some(NamedKey::Escape),
        name == "backspace"@ ==> named_key(name) == Some(NamedKey::Backspace),
        name == "space"@ ==> named_key(name) == Some(NamedKey::Space),
        name == "up"@ ==> named_key(name) == Some(NamedKey::ArrowUp),
        name == "down"@ ==> named_key(name) == Some(NamedKey::ArrowDown),
        name == "left"@ ==> named_key(name) == Some(NamedKey::ArrowLeft),
        name == "right"@ ==> named_key(name) == Some(NamedKey::ArrowRight),
        name == "home"@ ==> named_key(name) == Some(NamedKey::Home),
        name == "end"@ ==> named_key(name) == Some(NamedKey::End),
        name == "insert"@ ==> named_key(name) == Some(NamedKey::Insert),
        name == "delete"@ ==> named_key(name) == Some(NamedKey::Delete),
        name == "pageup"@ ==> named_key(name) == Some(NamedKey::PageUp),
        name == "pagedown"@ ==> named_key(name) == Some(NamedKey::PageDown),
        name == "f1"@ ==> named_key(name) == Some(NamedKey::F1),
        name == "f2"@ ==> named_key(name) == Some(NamedKey::F2),
        name == "f3"@ ==> named_key(name) == Some(NamedKey::F3),
        name == "f4"@ ==> named_key(name) == Some(NamedKey::F4),
        name == "f5"@ ==> named_key(name) == Some(NamedKey::F5),
        name == "f6"@ ==> named_key(name) == Some(NamedKey::F6),
        name == "f7"@ ==> named_key(name) == Some(NamedKey::F7),
        name == "f8"@ ==> named_key(name) == Some(NamedKey::F8),
        name == "f9"@ ==> named_key(name) == Some(NamedKey::F9),
        name == "f10"@ ==> named_key(name) == Some(NamedKey::F10),
        name == "f11"@ ==> named_key(name) == Some(NamedKey::F11),
        name == "f12"@ ==> named_key(name) == Some(NamedKey::F12),
        name == "f13"@ ==> named_key(name) == Some(NamedKey::F13),
        name == "f14"@ ==> named_key(name) == Some(NamedKey::F14),
        name == "f15"@ ==> named_key(name) == Some(NamedKey::F15),
        name == "f16"@ ==> named_key(name) == Some(NamedKey::F16),
        name == "f17"@ ==> named_key(name) == Some(NamedKey::F17),
        name == "f18"@ ==> named_key(name) == Some(NamedKey::F18),
        name == "f19"@ ==> named_key(name) == Some(NamedKey::F19),
        name == "f20"@ ==> named_key(name) == Some(NamedKey::F20),
        name == "shift"@ ==> named_key(name) == Some(NamedKey::Shift),
        name == "control"@ ==> named_key(name) == Some(NamedKey::Control),
        name == "ctrl"@ ==> named_key(name) == Some(NamedKey::Control),
        name == "alt"@ ==> named_key(name) == Some(NamedKey::Alt),
        name == "super"@ ==> named_key(name) == Some(NamedKey::Super),
        name == "cmd"@ ==> named_key(name) == Some(NamedKey::Super),
        name == "platform"@ ==> named_key(name) == Some(NamedKey::Super),
        name == "win"@ ==> named_key(name) == Some(NamedKey::Super),
        name == "capslock"@ ==> named_key(name) == Some(NamedKey::CapsLock),
        name == "numlock"@ ==> named_key(name) == Some(NamedKey::NumLock),
{
    names_are_spelled();
}

/// A binding by a name matches the key that is reported by that name, with the same
/// modifiers, whatever else the event says.
pub proof fn bindings_match_what_they_name(
    name: Seq<char>,
    modifiers: Modifiers,
    keystroke: Keystroke,
    state: KeyState,
    input: KeyInput,
)
    requires
        key_named(name) is Some,
        name != "return"@,
        name != "esc"@,
        keystroke.key@ == name,
        state != KeyState::Released,
        KeyInput::comes_from(keystroke, state, input),
        same_modifiers(modifiers, keystroke.modifiers),
    ensures
        (Keybinding { modifiers, key: key_named(name)->0 }).fits(input),
{
    match key_named(name)->0 {
        KeyMatch::Named(key) => names_mean_the_same_everywhere(name, key),
        KeyMatch::Character(_) => names_mean_the_same_everywhere(name, NamedKey::Tab),
    }
}

/// A combination asks for each modifier that it names, by any of its names, and for no
/// other; and for the key that its last other part names.
pub proof fn combinations_name_their_modifiers(parts: Seq<Seq<char>>, n: int)
    ensures
        modifiers_named(parts).control <==> exists|i: int|
            0 <= i < parts.len() && #[trigger] parts[i] == "ctrl"@,
        modifiers_named(parts).alt <==> exists|i: int|
            0 <= i < parts.len() && #[trigger] parts[i] == "alt"@,
        modifiers_named(parts).shift <==> exists|i: int|
            0 <= i < parts.len() && #[trigger] parts[i] == "shift"@,
        modifiers_named(parts).platform <==> exists|i: int|
            0 <= i < parts.len() && (#[trigger] parts[i] == "cmd"@ || parts[i] == "super"@),
        !modifiers_named(parts).function,
        0 <= n < parts.len() && !is_modifier_name(parts[n]) && (forall|i: int|
            n < i < parts.len() ==> is_modifier_name(#[trigger] parts[i])) ==> {
            &&& binding_of(parts) is Some <==> key_named(parts[n]) is Some
            &&& binding_of(parts) matches Some(b) ==> b.modifiers == modifiers_named(parts)
                && Some(b.key) == key_named(parts[n])
        },
        (forall|i: int| 0 <= i < parts.len() ==> is_modifier_name(#[trigger] parts[i]))
            ==> binding_of(parts) is None,
{
    the_last_other_part_is_the_key(parts, n);
    if modifiers_named(parts).platform {
        if parts.contains("cmd"@) {
            let i = choose|i: int| 0 <= i < parts.len() && parts[i] == "cmd"@;
            assert(parts[i] == "cmd"@);
        } else {
            let i = choose|i: int| 0 <= i < parts.len() && parts[i] == "super"@;
            assert(parts[i] == "super"@);
        }
    }
}

proof fn the_last_other_part_is_the_key(parts: Seq<Seq<char>>, n: int)
    ensures
        0 <= n < parts.len() && !is_modifier_name(parts[n]) && (forall|i: int|
            n < i < parts.len() ==> is_modifier_name(#[trigger] parts[i])) ==> key_part(parts)
            == Some(parts[n]),
        (forall|i: int| 0 <= i < parts.len() ==> is_modifier_name(#[trigger] parts[i]))
            ==> key_part(parts) is None,
    decreases parts.len(),
{
    if parts.len() > 0 {
        let d = parts.drop_last();
        the_last_other_part_is_the_key(d, n);
        assert(parts.last() == parts[parts.len() - 1]);
        assert(forall|i: int| 0 <= i < d.len() ==> #[trigger] d[i] == parts[i]);
    }
}

/// Exactly these five parts name modifiers.
pub proof fn modifier_names(part: Seq<char>)
    ensures
        is_modifier_name(part) <==> part == "ctrl"@ || part == "shift"@ || part == "alt"@ || part
            == "cmd"@ || part == "super"@,
{
}

/// A combination that can be read adds its binding at the end of the list, and one that
/// cannot adds nothing.
pub proof fn unreadable_combinations_are_left_out(list: Seq<String>, combo: String)
    ensures
        bindings_of(Seq::empty()).len() == 0,
        bindings_of(list.push(combo)) == match binding_of(combo_parts(combo@)) {
            Some(binding) => bindings_of(list).push(binding),
            None => bindings_of(list),
        },
{
    assert(list.push(combo).drop_last() =~= list);
}

/// A binding to a character matches that character in either case, or its shifted
/// symbol where it asks for Shift; a binding to a named key matches that key alone.
pub proof fn bindings_match_nothing_else(binding: Keybinding, input: KeyInput)
    requires
        binding.fits(input),
    ensures
        binding.key matches KeyMatch::Named(key) ==> input.token == KeyToken::Named(key),
        binding.key matches KeyMatch::Character(c) ==> input.base is Some && (ascii_lower(
            input.base->0,
        ) == ascii_lower(c) || (binding.modifiers.shift && shifted_symbol(c) == input.base)),
{
}

/// A binding that asks for Shift and a sign matches the sign's shifted symbol, with Shift
/// held or not.
pub proof fn shifted_symbols_match(binding: Keybinding, c: char, input: KeyInput)
    requires
        binding.key == KeyMatch::Character(c),
        binding.modifiers.shift,
        input.down(),
        input.base is Some,
        input.base == shifted_symbol(c),
        input.modifiers.control == binding.modifiers.control,
        input.modifiers.alt == binding.modifiers.alt,
        input.modifiers.platform == binding.modifiers.platform,
    ensures
        binding.fits(input),
{
}

/// The signs that Shift makes of the keys, on a keyboard with the American layout.
pub proof fn shifted_signs(c: char)
    ensures
        c == '`' ==> shifted_symbol(c) == Some('~'),
        c == '1' ==> shifted_symbol(c) == Some('!'),
        c == '2' ==> shifted_symbol(c) == Some('@'),
        c == '3' ==> shifted_symbol(c) == Some('#'),
        c == '4' ==> shifted_symbol(c) == Some('$'),
        c == '5' ==> shifted_symbol(c) == Some('%'),
        c == '6' ==> shifted_symbol(c) == Some('^'),
        c == '7' ==> shifted_symbol(c) == Some('&'),
        c == '8' ==> shifted_symbol(c) == Some('*'),
        c == '9' ==> shifted_symbol(c) == Some('('),
        c == '0' ==> shifted_symbol(c) == Some(')'),
        c == '-' ==> shifted_symbol(c) == Some('_'),
        c == '=' ==> shifted_symbol(c) == Some('+'),
        c == '[' ==> shifted_symbol(c) == Some('{'),
        c == ']' ==> shifted_symbol(c) == Some('}'),
        c == '\\' ==> shifted_symbol(c) == Some('|'),
        c == ';' ==> shifted_symbol(c) == Some(':'),
        c == '\'' ==> shifted_symbol(c) == Some('"'),
        c == ',' ==> shifted_symbol(c) == Some('<'),
        c == '.' ==> shifted_symbol(c) == Some('>'),
        c == '/' ==> shifted_symbol(c) == Some('?'),
        'a' <= c <= 'z' || 'A' <= c <= 'Z' ==> shifted_symbol(c) is None,
{
}

/// The lists of bindings in the order in which they are asked.
pub open spec fn asked(bindings: Bindings, n: int) -> Seq<Keybinding> {
    if n == 0 {
        bindings.split_vertical@
    } else if n == 1 {
        bindings.split_horizontal@
    } else if n == 2 {
        bindings.close_pane@
    } else if n == 3 {
        bindings.cycle_pane@
    } else if n == 4 {
        bindings.focus_left@
    } else if n == 5 {
        bindings.focus_right@
    } else if n == 6 {
        bindings.focus_up@
    } else if n == 7 {
        bindings.focus_down@
    } else if n == 8 {
        bindings.equalize@
    } else if n == 9 {
        bindings.workspace_split_vertical@
    } else if n == 10 {
        bindings.workspace_split_horizontal@
    } else if n == 11 {
        bindings.workspace_focus_left@
    } else if n == 12 {
        bindings.workspace_focus_right@
    } else if n == 13 {
        bindings.workspace_focus_up@
    } else if n == 14 {
        bindings.workspace_focus_down@
    } else if n == 15 {
        bindings.new_window@
    } else if n == 16 {
        bindings.new_claude_tab@
    } else if n == 17 {
        bindings.new_claude_resume_tab@
    } else if n == 18 {
        bindings.new_codex_tab@
    } else if n == 19 {
        bindings.new_codex_resume_tab@
    } else if n == 20 {
        bindings.new_pi_tab@
    } else if n == 21 {
        bindings.new_tab@
    } else if n == 22 {
        bindings.close_tab@
    } else if n == 23 {
        bindings.next_tab@
    } else if n == 24 {
        bindings.prev_tab@
    } else if n == 25 {
        bindings.select_tab_1@
    } else if n == 26 {
        bindings.select_tab_2@
    } else if n == 27 {
        bindings.select_tab_3@
    } else if n == 28 {
        bindings.select_tab_4@
    } else if n == 29 {
        bindings.select_tab_5@
    } else if n == 30 {
        bindings.select_tab_6@
    } else if n == 31 {
        bindings.select_tab_7@
    } else if n == 32 {
        bindings.select_tab_8@
    } else if n == 33 {
        bindings.select_tab_9@
    } else if n == 34 {
        bindings.copy@
    } else if n == 35 {
        bindings.paste@
    } else if n == 36 {
        bindings.scroll_up@
    } else if n == 37 {
        bindings.scroll_down@
    } else if n == 38 {
        bindings.scroll_top@
    } else if n == 39 {
        bindings.scroll_bottom@
    } else if n == 40 {
        bindings.prompt_jump_up@
    } else if n == 41 {
        bindings.prompt_jump_down@
    } else if n == 42 {
        bindings.jump_to_failure@
    } else if n == 43 {
        bindings.zoom_in@
    } else if n == 44 {
        bindings.zoom_out@
    } else if n == 45 {
        bindings.zoom_reset@
    } else if n == 46 {
        bindings.command_palette@
    } else if n == 47 {
        bindings.settings@
    } else if n == 48 {
        bindings.find@
    } else if n == 49 {
        bindings.word_left@
    } else if n == 50 {
        bindings.word_right@
    } else if n == 51 {
        bindings.delete_word_backward@
    } else if n == 52 {
        bindings.delete_word_backward_ctrl@
    } else if n == 53 {
        bindings.delete_word_forward@
    } else if n == 54 {
        bindings.line_start@
    } else {
        bindings.line_end@
    }
}

/// The configured lists in the same order.
pub open spec fn configured(config: KeybindingsConfig, n: int) -> Seq<String> {
    if n == 0 {
        config.split_vertical@
    } else if n == 1 {
        config.split_horizontal@
    } else if n == 2 {
        config.close_pane@
    } else if n == 3 {
        config.cycle_pane@
    } else if n == 4 {
        config.focus_left@
    } else if n == 5 {
        config.focus_right@
    } else if n == 6 {
        config.focus_up@
    } else if n == 7 {
        config.focus_down@
    } else if n == 8 {
        config.equalize@
    } else if n == 9 {
        config.workspace_split_vertical@
    } else if n == 10 {
        config.workspace_split_horizontal@
    } else if n == 11 {
        config.workspace_focus_left@
    } else if n == 12 {
        config.workspace_focus_right@
    } else if n == 13 {
        config.workspace_focus_up@
    } else if n == 14 {
        config.workspace_focus_down@
    } else if n == 15 {
        config.new_window@
    } else if n == 16 {
        config.new_claude_tab@
    } else if n == 17 {
        config.new_claude_resume_tab@
    } else if n == 18 {
        config.new_codex_tab@
    } else if n == 19 {
        config.new_codex_resume_tab@
    } else if n == 20 {
        config.new_pi_tab@
    } else if n == 21 {
        config.new_tab@
    } else if n == 22 {
        config.close_tab@
    } else if n == 23 {
        config.next_tab@
    } else if n == 24 {
        config.prev_tab@
    } else if n == 25 {
        config.select_tab_1@
    } else if n == 26 {
        config.select_tab_2@
    } else if n == 27 {
        config.select_tab_3@
    } else if n == 28 {
        config.select_tab_4@
    } else if n == 29 {
        config.select_tab_5@
    } else if n == 30 {
        config.select_tab_6@
    } else if n == 31 {
        config.select_tab_7@
    } else if n == 32 {
        config.select_tab_8@
    } else if n == 33 {
        config.select_tab_9@
    } else if n == 34 {
        config.copy@
    } else if n == 35 {
        config.paste@
    } else if n == 36 {
        config.scroll_up@
    } else if n == 37 {
        config.scroll_down@
    } else if n == 38 {
        config.scroll_top@
    } else if n == 39 {
        config.scroll_bottom@
    } else if n == 40 {
        config.prompt_jump_up@
    } else if n == 41 {
        config.prompt_jump_down@
    } else if n == 42 {
        config.jump_to_failure@
    } else if n == 43 {
        config.zoom_in@
    } else if n == 44 {
        config.zoom_out@
    } else if n == 45 {
        config.zoom_reset@
    } else if n == 46 {
        config.command_palette@
    } else if n == 47 {
        config.settings@
    } else if n == 48 {
        config.find@
    } else if n == 49 {
        config.word_left@
    } else if n == 50 {
        config.word_right@
    } else if n == 51 {
        config.delete_word_backward@
    } else if n == 52 {
        config.delete_word_backward_ctrl@
    } else if n == 53 {
        config.delete_word_forward@
    } else if n == 54 {
        config.line_start@
    } else {
        config.line_end@
    }
}

/// What the lists do, in the same order.
pub open spec fn done(n: int) -> ActionModel {
    if n == 0 {
        ActionModel::Layout(LayoutAction::SplitVertical)
    } else if n == 1 {
        ActionModel::Layout(LayoutAction::SplitHorizontal)
    } else if n == 2 {
        ActionModel::Layout(LayoutAction::ClosePane)
    } else if n == 3 {
        ActionModel::Layout(LayoutAction::FocusNext)
    } else if n == 4 {
        ActionModel::Layout(LayoutAction::FocusLeft)
    } else if n == 5 {
        ActionModel::Layout(LayoutAction::FocusRight)
    } else if n == 6 {
        ActionModel::Layout(LayoutAction::FocusUp)
    } else if n == 7 {
        ActionModel::Layout(LayoutAction::FocusDown)
    } else if n == 8 {
        ActionModel::Layout(LayoutAction::Equalize)
    } else if n == 9 {
        ActionModel::Layout(LayoutAction::WorkspaceSplitVertical)
    } else if n == 10 {
        ActionModel::Layout(LayoutAction::WorkspaceSplitHorizontal)
    } else if n == 11 {
        ActionModel::Layout(LayoutAction::WorkspaceFocusLeft)
    } else if n == 12 {
        ActionModel::Layout(LayoutAction::WorkspaceFocusRight)
    } else if n == 13 {
        ActionModel::Layout(LayoutAction::WorkspaceFocusUp)
    } else if n == 14 {
        ActionModel::Layout(LayoutAction::WorkspaceFocusDown)
    } else if n == 15 {
        ActionModel::Layout(LayoutAction::NewWindow)
    } else if n == 16 {
        ActionModel::Layout(LayoutAction::NewClaudeTab)
    } else if n == 17 {
        ActionModel::Layout(LayoutAction::NewClaudeResumeTab)
    } else if n == 18 {
        ActionModel::Layout(LayoutAction::NewCodexTab)
    } else if n == 19 {
        ActionModel::Layout(LayoutAction::NewCodexResumeTab)
    } else if n == 20 {
        ActionModel::Layout(LayoutAction::NewPiTab)
    } else if n == 21 {
        ActionModel::Layout(LayoutAction::NewTab)
    } else if n == 22 {
        ActionModel::Layout(LayoutAction::CloseTab)
    } else if n == 23 {
        ActionModel::Layout(LayoutAction::NextTab)
    } else if n == 24 {
        ActionModel::Layout(LayoutAction::PrevTab)
    } else if n == 25 {
        ActionModel::Layout(LayoutAction::SelectTab(0))
    } else if n == 26 {
        ActionModel::Layout(LayoutAction::SelectTab(1))
    } else if n == 27 {
        ActionModel::Layout(LayoutAction::SelectTab(2))
    } else if n == 28 {
        ActionModel::Layout(LayoutAction::SelectTab(3))
    } else if n == 29 {
        ActionModel::Layout(LayoutAction::SelectTab(4))
    } else if n == 30 {
        ActionModel::Layout(LayoutAction::SelectTab(5))
    } else if n == 31 {
        ActionModel::Layout(LayoutAction::SelectTab(6))
    } else if n == 32 {
        ActionModel::Layout(LayoutAction::SelectTab(7))
    } else if n == 33 {
        ActionModel::Layout(LayoutAction::SelectTab(8))
    } else if n == 34 {
        ActionModel::Layout(LayoutAction::CopySelection)
    } else if n == 35 {
        ActionModel::Layout(LayoutAction::PasteClipboard)
    } else if n == 36 {
        ActionModel::Layout(LayoutAction::ScrollUp)
    } else if n == 37 {
        ActionModel::Layout(LayoutAction::ScrollDown)
    } else if n == 38 {
        ActionModel::Layout(LayoutAction::ScrollTop)
    } else if n == 39 {
        ActionModel::Layout(LayoutAction::ScrollBottom)
    } else if n == 40 {
        ActionModel::Layout(LayoutAction::PromptJumpUp)
    } else if n == 41 {
        ActionModel::Layout(LayoutAction::PromptJumpDown)
    } else if n == 42 {
        ActionModel::Layout(LayoutAction::JumpToFailure)
    } else if n == 43 {
        ActionModel::Layout(LayoutAction::ZoomIn)
    } else if n == 44 {
        ActionModel::Layout(LayoutAction::ZoomOut)
    } else if n == 45 {
        ActionModel::Layout(LayoutAction::ZoomReset)
    } else if n == 46 {
        ActionModel::OpenCommandPalette
    } else if n == 47 {
        ActionModel::OpenSettings
    } else if n == 48 {
        ActionModel::OpenFind
    } else if n == 49 {
        ActionModel::Terminal(seq![0x1bu8, 0x5b, 0x31, 0x3b, 0x35, 0x44])
    } else if n == 50 {
        ActionModel::Terminal(seq![0x1bu8, 0x5b, 0x31, 0x3b, 0x35, 0x43])
    } else if n == 51 {
        ActionModel::Terminal(seq![0x1bu8, 0x7f])
    } else if n == 52 {
        ActionModel::Terminal(seq![0x08u8])
    } else if n == 53 {
        ActionModel::Terminal(seq![0x1bu8, 0x5b, 0x33, 0x3b, 0x35, 0x7e])
    } else if n == 54 {
        ActionModel::Terminal(seq![0x1bu8, 0x5b, 0x31, 0x3b, 0x35, 0x48])
    } else {
        ActionModel::Terminal(seq![0x1bu8, 0x5b, 0x31, 0x3b, 0x35, 0x46])
    }
}

/// A key does what the first list that matches it is there for, and nothing where none
/// matches.
pub proof fn the_first_list_decides(input: KeyInput, bindings: Bindings, n: int)
    requires
        input.down(),
    ensures
        0 <= n < 56 && set_matches(asked(bindings, n), input) && (forall|i: int|
            0 <= i < n ==> !set_matches(#[trigger] asked(bindings, i), input)) ==> key_action(
            input,
            bindings,
        ) == Some(done(n)),
        (forall|i: int| 0 <= i < 56 ==> !set_matches(#[trigger] asked(bindings, i), input))
            ==> key_action(input, bindings) is None,
{
    assert(asked(bindings, 0) == bindings.split_vertical@);
    assert(asked(bindings, 1) == bindings.split_horizontal@);
    assert(asked(bindings, 2) == bindings.close_pane@);
    assert(asked(bindings, 3) == bindings.cycle_pane@);
    assert(asked(bindings, 4) == bindings.focus_left@);
    assert(asked(bindings, 5) == bindings.focus_right@);
    assert(asked(bindings, 6) == bindings.focus_up@);
    assert(asked(bindings, 7) == bindings.focus_down@);
    assert(asked(bindings, 8) == bindings.equalize@);
    assert(asked(bindings, 9) == bindings.workspace_split_vertical@);
    assert(asked(bindings, 10) == bindings.workspace_split_horizontal@);
    assert(asked(bindings, 11) == bindings.workspace_focus_left@);
    assert(asked(bindings, 12) == bindings.workspace_focus_right@);
    assert(asked(bindings, 13) == bindings.workspace_focus_up@);
    assert(asked(bindings, 14) == bindings.workspace_focus_down@);
    assert(asked(bindings, 15) == bindings.new_window@);
    assert(asked(bindings, 16) == bindings.new_claude_tab@);
    assert(asked(bindings, 17) == bindings.new_claude_resume_tab@);
    assert(asked(bindings, 18) == bindings.new_codex_tab@);
    assert(asked(bindings, 19) == bindings.new_codex_resume_tab@);
    assert(asked(bindings, 20) == bindings.new_pi_tab@);
    assert(asked(bindings, 21) == bindings.new_tab@);
    assert(asked(bindings, 22) == bindings.close_tab@);
    assert(asked(bindings, 23) == bindings.next_tab@);
    assert(asked(bindings, 24) == bindings.prev_tab@);
    assert(asked(bindings, 25) == bindings.select_tab_1@);
    assert(asked(bindings, 26) == bindings.select_tab_2@);
    assert(asked(bindings, 27) == bindings.select_tab_3@);
    assert(asked(bindings, 28) == bindings.select_tab_4@);
    assert(asked(bindings, 29) == bindings.select_tab_5@);
    assert(asked(bindings, 30) == bindings.select_tab_6@);
    assert(asked(bindings, 31) == bindings.select_tab_7@);
    assert(asked(bindings, 32) == bindings.select_tab_8@);
    assert(asked(bindings, 33) == bindings.select_tab_9@);
    assert(asked(bindings, 34) == bindings.copy@);
    assert(asked(bindings, 35) == bindings.paste@);
    assert(asked(bindings, 36) == bindings.scroll_up@);
    assert(asked(bindings, 37) == bindings.scroll_down@);
    assert(asked(bindings, 38) == bindings.scroll_top@);
    assert(asked(bindings, 39) == bindings.scroll_bottom@);
    assert(asked(bindings, 40) == bindings.prompt_jump_up@);
    assert(asked(bindings, 41) == bindings.prompt_jump_down@);
    assert(asked(bindings, 42) == bindings.jump_to_failure@);
    assert(asked(bindings, 43) == bindings.zoom_in@);
    assert(asked(bindings, 44) == bindings.zoom_out@);
    assert(asked(bindings, 45) == bindings.zoom_reset@);
    assert(asked(bindings, 46) == bindings.command_palette@);
    assert(asked(bindings, 47) == bindings.settings@);
    assert(asked(bindings, 48) == bindings.find@);
    assert(asked(bindings, 49) == bindings.word_left@);
    assert(asked(bindings, 50) == bindings.word_right@);
    assert(asked(bindings, 51) == bindings.delete_word_backward@);
    assert(asked(bindings, 52) == bindings.delete_word_backward_ctrl@);
    assert(asked(bindings, 53) == bindings.delete_word_forward@);
    assert(asked(bindings, 54) == bindings.line_start@);
    assert(asked(bindings, 55) == bindings.line_end@);
}

/// Each list of the configuration is read into its own bindings.
pub proof fn lists_are_read_into_their_own(config: KeybindingsConfig, bindings: Bindings, n: int)
    requires
        bindings.reads(config),
        0 <= n < 56,
    ensures
        asked(bindings, n) == bindings_of(configured(config, n)),
{
}

/// What a shortcut sends is what a key sends only where the two mean the same: Control
/// and Left or Right for words, Home and End for lines, Delete for deleting forward.
pub proof fn shortcuts_send_what_keys_send(
    input: KeyInput,
    bindings: Bindings,
    pressed: KeyInput,
    mode: TerminalMode,
)
    requires
        terminal_shortcut(input, bindings) is Some,
        !mode.kitty.any(),
        pressed.down(),
        !pressed.modifiers.shift,
        !pressed.modifiers.platform,
        pressed.modifiers.control != pressed.modifiers.alt,
        encoded(pressed, mode) == terminal_shortcut(input, bindings),
    ensures
        pressed.token == KeyToken::Named(NamedKey::ArrowLeft) && pressed.modifiers.control
            ==> set_matches(bindings.word_left@, input),
        pressed.token == KeyToken::Named(NamedKey::ArrowRight) && pressed.modifiers.control
            ==> set_matches(bindings.word_right@, input),
        pressed.token == KeyToken::Named(NamedKey::Home) ==> set_matches(
            bindings.line_start@,
            input,
        ),
        pressed.token == KeyToken::Named(NamedKey::End) ==> set_matches(bindings.line_end@, input),
        pressed.token == KeyToken::Named(NamedKey::Delete) ==> set_matches(
            bindings.delete_word_forward@,
            input,
        ),
{
    cursor_keys_send_their_letters(pressed, mode);
    editing_keys_send_their_numbers(pressed, mode);
    let b = terminal_shortcut(input, bindings)->0;
    let digit = modifier_digit(pressed.modifiers);
    if pressed.token == KeyToken::Named(NamedKey::Delete) {
        assert(b =~= seq![0x1bu8, 0x5b] + seq![0x33u8] + seq![0x3bu8, digit, 0x7e]);
        assert(b.len() == 6 && b[2] == 0x33);
    } else {
        match pressed.token {
            KeyToken::Named(NamedKey::ArrowLeft) => { assert(b.len() == 6 && b[5] == 0x44); },
            KeyToken::Named(NamedKey::ArrowRight) => { assert(b.len() == 6 && b[5] == 0x43); },
            KeyToken::Named(NamedKey::Home) => { assert(b.len() == 6 && b[5] == 0x48); },
            KeyToken::Named(NamedKey::End) => { assert(b.len() == 6 && b[5] == 0x46); },
            _ => {},
        }
    }
}

/// Control, Shift and the key of an overlay open it, where the key is bound to nothing:
/// U, D and K, and Space.
pub proof fn overlays_open_on_their_keys(input: KeyInput, bindings: Bindings)
    requires
        input.down(),
        key_action(input, bindings) is None,
        input.modifiers.control,
        input.modifiers.shift,
        !input.modifiers.alt,
        !input.modifiers.platform,
    ensures
        input.base == Some('u') ==> overlay_chord(input, bindings) == Some(
            OverlayChord::TooltipDemo,
        ),
        input.base == Some('d') ==> overlay_chord(input, bindings) == Some(
            OverlayChord::CloseDialog,
        ),
        input.base == Some('k') ==> overlay_chord(input, bindings) == Some(
            OverlayChord::ClipboardDialog,
        ),
        input.base is None && input.token == KeyToken::Named(NamedKey::Space) ==> overlay_chord(
            input,
            bindings,
        ) == Some(OverlayChord::ViMode),
{
}

/// Without Control and Shift, or under another modifier, no overlay opens.
pub proof fn overlays_open_on_nothing_else(input: KeyInput, bindings: Bindings)
    requires
        overlay_chord(input, bindings) is Some,
    ensures
        input.modifiers.control && input.modifiers.shift && !input.modifiers.alt
            && !input.modifiers.platform,
{
}

/// The functions answer what the laws speak of: a written combination is read as its parts
/// say, a binding matches as it fits, and a key does what is bound to it.
pub proof fn binding_functions(
    combo: &str,
    binding: &Keybinding,
    input: &KeyInput,
    bindings: &Bindings,
    parsed: Option<Keybinding>,
    matched: bool,
    action: Option<KeyAction>,
    overlay: Option<OverlayChord>,
)
    requires
        call_ensures(Keybinding::parse, (combo,), parsed),
        call_ensures(Keybinding::matches, (binding, input), matched),
        call_ensures(translate_key_action, (input, bindings), action),
        call_ensures(translate_overlay_chord, (input, bindings), overlay),
    ensures
        parsed == binding_of(combo_parts(combo@)),
        matched == binding.fits(*input),
        action_view(action) == key_action(*input, *bindings),
        overlay == overlay_chord(*input, *bindings),
{
}

/// A configuration is read list by list.
pub proof fn configurations_are_read(config: &KeybindingsConfig, bindings: Bindings, n: int)
    requires
        call_ensures(Bindings::parse, (config,), bindings),
        0 <= n < 56,
    ensures
        asked(bindings, n) == bindings_of(configured(*config, n)),
{
    lists_are_read_into_their_own(*config, bindings, n);
}

} // verus!
