//! The command palette: the commands that it lists, how a query narrows them, and
//! which of them is selected.

use vstd::prelude::*;

use crate::protocol::AutomationAction;
use crate::text::{
    chars_of, contains, is_control, is_control_char, lowercase, occurs_in, push_text, str_eq,
    string_of, strings, to_lowercase, trim, trimmed,
};

verus! {

/// The most commands that are seen at once.
pub const MAX_VISIBLE_ITEMS: usize = 8;

/// What a command does.
#[derive(Debug, PartialEq, Eq)]
pub enum PaletteAction {
    /// An action that other programs can ask for as well.
    Automation(AutomationAction),
    /// Choose a remote machine to connect to.
    OpenRemoteConnect,
    /// Move the focused workspace into a window of its own.
    MoveWorkspaceToNewWindow,
    /// Move the focused workspace to its nearest neighbour on the left.
    MoveWorkspaceLeft,
    /// Move the focused workspace to its nearest neighbour on the right.
    MoveWorkspaceRight,
    /// Move the focused workspace to its nearest neighbour above.
    MoveWorkspaceUp,
    /// Move the focused workspace to its nearest neighbour below.
    MoveWorkspaceDown,
}

fn same_automation(action: &AutomationAction) -> (r: AutomationAction)
    ensures
        r == *action,
{
    match action {
        AutomationAction::OpenSettings => AutomationAction::OpenSettings,
        AutomationAction::OpenFind => AutomationAction::OpenFind,
        AutomationAction::NewTab => AutomationAction::NewTab,
        AutomationAction::NewClaudeTab => AutomationAction::NewClaudeTab,
        AutomationAction::NewClaudeResumeTab => AutomationAction::NewClaudeResumeTab,
        AutomationAction::NewCodexTab => AutomationAction::NewCodexTab,
        AutomationAction::NewCodexResumeTab => AutomationAction::NewCodexResumeTab,
        AutomationAction::SplitVertical => AutomationAction::SplitVertical,
        AutomationAction::SplitHorizontal => AutomationAction::SplitHorizontal,
        AutomationAction::ClosePane => AutomationAction::ClosePane,
        AutomationAction::CloseTab => AutomationAction::CloseTab,
        AutomationAction::NewWindow => AutomationAction::NewWindow,
        AutomationAction::OpenUpdateDialog => AutomationAction::OpenUpdateDialog,
        AutomationAction::SwitchProfile { name } => {
            AutomationAction::SwitchProfile { name: name.clone() }
        },
    }
}

impl PaletteAction {
    /// The same action again.
    pub fn same(&self) -> (r: Self)
        ensures
            r == *self,
    {
        match self {
            PaletteAction::Automation(action) => PaletteAction::Automation(same_automation(action)),
            PaletteAction::MoveWorkspaceToNewWindow => PaletteAction::MoveWorkspaceToNewWindow,
            PaletteAction::MoveWorkspaceLeft => PaletteAction::MoveWorkspaceLeft,
            PaletteAction::MoveWorkspaceRight => PaletteAction::MoveWorkspaceRight,
            PaletteAction::MoveWorkspaceUp => PaletteAction::MoveWorkspaceUp,
            PaletteAction::MoveWorkspaceDown => PaletteAction::MoveWorkspaceDown,
            PaletteAction::OpenRemoteConnect => PaletteAction::OpenRemoteConnect,
        }
    }
}

/// A command: its name, and what it does.
#[derive(Debug, PartialEq, Eq)]
pub struct CommandPaletteEntry {
    pub label: String,
    pub action: PaletteAction,
}

impl CommandPaletteEntry {
    /// A command for an action that other programs can ask for as well.
    pub fn automation(label: &str, action: AutomationAction) -> (r: Self)
        ensures
            r.label@ == label@,
            r.action == PaletteAction::Automation(action),
    {
        CommandPaletteEntry { label: label.to_owned(), action: PaletteAction::Automation(action) }
    }

    /// The same command again.
    pub fn same(&self) -> (r: Self)
        ensures
            r == *self,
    {
        CommandPaletteEntry { label: self.label.clone(), action: self.action.same() }
    }
}

// ---- The commands ----

/// What a command amounts to.
pub open spec fn row(entry: CommandPaletteEntry) -> (Seq<char>, PaletteAction) {
    (entry.label@, entry.action)
}

/// What commands amount to.
pub open spec fn rows(entries: Seq<CommandPaletteEntry>) -> Seq<(Seq<char>, PaletteAction)> {
    Seq::new(entries.len(), |i: int| row(entries[i]))
}

/// The commands that are always there; the coding assistant goes by its name.
pub open spec fn base_rows(assistant: Seq<char>) -> Seq<(Seq<char>, PaletteAction)> {
    seq![
        ("Open Settings"@, PaletteAction::Automation(AutomationAction::OpenSettings)),
        ("Find in Scrollback"@, PaletteAction::Automation(AutomationAction::OpenFind)),
        ("New Tab"@, PaletteAction::Automation(AutomationAction::NewTab)),
        (
            "New "@ + assistant + " Tab"@,
            PaletteAction::Automation(AutomationAction::NewClaudeTab),
        ),
        (
            "Resume "@ + assistant + " Tab"@,
            PaletteAction::Automation(AutomationAction::NewClaudeResumeTab),
        ),
        ("New Codex Tab"@, PaletteAction::Automation(AutomationAction::NewCodexTab)),
        ("Resume Codex Tab"@, PaletteAction::Automation(AutomationAction::NewCodexResumeTab)),
        ("Split Pane Vertical"@, PaletteAction::Automation(AutomationAction::SplitVertical)),
        ("Split Pane Horizontal"@, PaletteAction::Automation(AutomationAction::SplitHorizontal)),
        ("Close Pane"@, PaletteAction::Automation(AutomationAction::ClosePane)),
        ("Close Tab"@, PaletteAction::Automation(AutomationAction::CloseTab)),
        ("New Window"@, PaletteAction::Automation(AutomationAction::NewWindow)),
        ("Move workspace to new window"@, PaletteAction::MoveWorkspaceToNewWindow),
        ("Move workspace left"@, PaletteAction::MoveWorkspaceLeft),
        ("Move workspace right"@, PaletteAction::MoveWorkspaceRight),
        ("Move workspace up"@, PaletteAction::MoveWorkspaceUp),
        ("Move workspace down"@, PaletteAction::MoveWorkspaceDown),
        ("Connect to remote machine…"@, PaletteAction::OpenRemoteConnect),
    ]
}

/// Whether a profile is the active one.
pub open spec fn is_active(active: Option<&str>, name: Seq<char>) -> bool {
    match active {
        Some(profile) => profile@ == name,
        None => false,
    }
}

/// The command that switches to a profile; the active one is marked.
pub open spec fn profile_row(name: String, active: Option<&str>) -> (Seq<char>, PaletteAction) {
    (
        "Switch Profile: "@ + name@ + (if is_active(active, name@) {
            " (active)"@
        } else {
            ""@
        }),
        PaletteAction::Automation(AutomationAction::SwitchProfile { name }),
    )
}

/// The commands that switch profiles.
pub open spec fn profile_rows(names: Seq<String>, active: Option<&str>) -> Seq<
    (Seq<char>, PaletteAction),
> {
    Seq::new(names.len(), |i: int| profile_row(names[i], active))
}

/// All commands: those that are always there, the update where there is one, and the
/// profiles.
pub open spec fn all_rows(
    assistant: Seq<char>,
    update: Option<&str>,
    names: Seq<String>,
    active: Option<&str>,
) -> Seq<(Seq<char>, PaletteAction)> {
    base_rows(assistant) + (match update {
        Some(version) => seq![
            (
                "Update Scribe to v"@ + version@,
                PaletteAction::Automation(AutomationAction::OpenUpdateDialog),
            ),
        ],
        None => Seq::empty(),
    }) + profile_rows(names, active)
}

fn add_entry(entries: &mut Vec<CommandPaletteEntry>, label: &str, action: PaletteAction)
    ensures
        rows(final(entries)@) == rows(old(entries)@).push((label@, action)),
{
    entries.push(CommandPaletteEntry { label: label.to_owned(), action });
    proof {
        assert(rows(entries@) =~= rows(old(entries)@).push((label@, action)));
    }
}

fn add_automation(entries: &mut Vec<CommandPaletteEntry>, label: &str, action: AutomationAction)
    ensures
        rows(final(entries)@) == rows(old(entries)@).push(
            (label@, PaletteAction::Automation(action)),
        ),
{
    add_entry(entries, label, PaletteAction::Automation(action));
}

/// The commands that are always there.
pub fn base_entries(assistant: &str) -> (r: Vec<CommandPaletteEntry>)
    ensures
        rows(r@) == base_rows(assistant@),
{
    let mut entries: Vec<CommandPaletteEntry> = Vec::new();
    add_automation(&mut entries, "Open Settings", AutomationAction::OpenSettings);
    add_automation(&mut entries, "Find in Scrollback", AutomationAction::OpenFind);
    add_automation(&mut entries, "New Tab", AutomationAction::NewTab);
    let mut new_tab = "New ".to_owned();
    push_text(&mut new_tab, assistant);
    push_text(&mut new_tab, " Tab");
    add_automation(&mut entries, new_tab.as_str(), AutomationAction::NewClaudeTab);
    let mut resume_tab = "Resume ".to_owned();
    push_text(&mut resume_tab, assistant);
    push_text(&mut resume_tab, " Tab");
    add_automation(&mut entries, resume_tab.as_str(), AutomationAction::NewClaudeResumeTab);
    add_automation(&mut entries, "New Codex Tab", AutomationAction::NewCodexTab);
    add_automation(&mut entries, "Resume Codex Tab", AutomationAction::NewCodexResumeTab);
    add_automation(&mut entries, "Split Pane Vertical", AutomationAction::SplitVertical);
    add_automation(&mut entries, "Split Pane Horizontal", AutomationAction::SplitHorizontal);
    add_automation(&mut entries, "Close Pane", AutomationAction::ClosePane);
    add_automation(&mut entries, "Close Tab", AutomationAction::CloseTab);
    add_automation(&mut entries, "New Window", AutomationAction::NewWindow);
    add_entry(
        &mut entries,
        "Move workspace to new window",
        PaletteAction::MoveWorkspaceToNewWindow,
    );
    add_entry(&mut entries, "Move workspace left", PaletteAction::MoveWorkspaceLeft);
    add_entry(&mut entries, "Move workspace right", PaletteAction::MoveWorkspaceRight);
    add_entry(&mut entries, "Move workspace up", PaletteAction::MoveWorkspaceUp);
    add_entry(&mut entries, "Move workspace down", PaletteAction::MoveWorkspaceDown);
    add_entry(&mut entries, "Connect to remote machine…", PaletteAction::OpenRemoteConnect);
    proof {
        assert(rows(entries@) =~= base_rows(assistant@));
    }
    entries
}

/// The commands that switch profiles; the active one is marked.
pub fn profile_entries(profile_names: &[String], active_profile: Option<&str>) -> (r: Vec<
    CommandPaletteEntry,
>)
    ensures
        rows(r@) == profile_rows(profile_names@, active_profile),
{
    let mut entries: Vec<CommandPaletteEntry> = Vec::new();
    let ghost expected = profile_rows(profile_names@, active_profile);
    let mut i: usize = 0;
    proof {
        assert(rows(entries@) =~= expected.take(0));
    }
    while i < profile_names.len()
        invariant
            i <= profile_names@.len(),
            expected == profile_rows(profile_names@, active_profile),
            rows(entries@) == expected.take(i as int),
        decreases profile_names@.len() - i,
    {
        let name = &profile_names[i];
        let mut label = String::new();
        push_text(&mut label, "Switch Profile: ");
        push_text(&mut label, name.as_str());
        let active = match active_profile {
            Some(profile) => str_eq(profile, name.as_str()),
            None => false,
        };
        if active {
            push_text(&mut label, " (active)");
        }
        let action = PaletteAction::Automation(
            AutomationAction::SwitchProfile { name: name.clone() },
        );
        proof {
            reveal_strlit("");
            assert(label@ =~= expected[i as int].0);
            assert(action == expected[i as int].1);
            assert(expected.take(i + 1) =~= expected.take(i as int).push(expected[i as int]));
        }
        add_entry(&mut entries, label.as_str(), action);
        i += 1;
    }
    proof {
        assert(expected.take(profile_names@.len() as int) =~= expected);
    }
    entries
}

/// All commands.
pub fn build_entries(
    assistant: &str,
    update_available: Option<&str>,
    profile_names: &[String],
    active_profile: Option<&str>,
) -> (r: Vec<CommandPaletteEntry>)
    ensures
        rows(r@) == all_rows(assistant@, update_available, profile_names@, active_profile),
{
    let mut entries = base_entries(assistant);
    if let Some(version) = update_available {
        let mut label = String::new();
        push_text(&mut label, "Update Scribe to v");
        push_text(&mut label, version);
        proof {
            assert(label@ =~= "Update Scribe to v"@ + version@);
        }
        add_entry(
            &mut entries,
            label.as_str(),
            PaletteAction::Automation(AutomationAction::OpenUpdateDialog),
        );
    }
    let ghost before = rows(entries@);
    let mut profiles = profile_entries(profile_names, active_profile);
    let ghost more = profiles@;
    entries.append(&mut profiles);
    proof {
        assert(rows(entries@) =~= before + rows(more));
        assert(rows(entries@) =~= all_rows(
            assistant@,
            update_available,
            profile_names@,
            active_profile,
        ));
    }
    entries
}

// ---- The query ----

/// The commands in whose name, in lower case, a text occurs.
pub open spec fn kept(
    entries: Seq<CommandPaletteEntry>,
    lowered: Seq<Seq<char>>,
    needle: Seq<char>,
) -> Seq<CommandPaletteEntry>
    decreases entries.len(),
{
    if entries.len() == 0 {
        Seq::empty()
    } else {
        let rest = kept(entries.drop_last(), lowered.drop_last(), needle);
        if occurs_in(needle, lowered.last()) {
            rest.push(entries.last())
        } else {
            rest
        }
    }
}

/// The names of commands in lower case.
pub open spec fn lowered_labels(entries: Seq<CommandPaletteEntry>) -> Seq<Seq<char>> {
    Seq::new(entries.len(), |i: int| lowercase(entries[i].label@))
}

/// The commands that a query leaves: those whose names have it in them, but for
/// white space at its ends and for upper and lower case.
pub open spec fn filtered_by(
    entries: Seq<CommandPaletteEntry>,
    query: Seq<char>,
) -> Seq<CommandPaletteEntry> {
    kept(entries, lowered_labels(entries), lowercase(trim(query)))
}

/// No more commands are left than there were, in any case.
pub proof fn a_query_adds_nothing(
    entries: Seq<CommandPaletteEntry>,
    lowered: Seq<Seq<char>>,
    needle: Seq<char>,
)
    ensures
        kept(entries, lowered, needle).len() <= entries.len(),
        forall|i: int|
            0 <= i < kept(entries, lowered, needle).len() ==> entries.contains(
                #[trigger] kept(entries, lowered, needle)[i],
            ),
    decreases entries.len(),
{
    if entries.len() > 0 {
        let short = entries.drop_last();
        a_query_adds_nothing(short, lowered.drop_last(), needle);
        let all = kept(entries, lowered, needle);
        assert forall|i: int| 0 <= i < all.len() implies entries.contains(#[trigger] all[i]) by {
            let rest = kept(short, lowered.drop_last(), needle);
            if i < rest.len() {
                assert(short.contains(rest[i]));
                let k = choose|k: int| 0 <= k < short.len() && short[k] == rest[i];
                assert(entries[k] == all[i]);
            } else {
                assert(entries[entries.len() - 1] == all[i]);
            }
        }
    }
}

/// A command stays exactly where its name has the text in it.
pub proof fn a_query_keeps_what_matches(
    entries: Seq<CommandPaletteEntry>,
    lowered: Seq<Seq<char>>,
    needle: Seq<char>,
    i: int,
)
    requires
        lowered.len() == entries.len(),
        0 <= i < entries.len(),
        occurs_in(needle, lowered[i]),
    ensures
        kept(entries, lowered, needle).contains(entries[i]),
    decreases entries.len(),
{
    let all = kept(entries, lowered, needle);
    if i == entries.len() - 1 {
        assert(all[all.len() - 1] == entries[i]);
    } else {
        a_query_keeps_what_matches(entries.drop_last(), lowered.drop_last(), needle, i);
        let rest = kept(entries.drop_last(), lowered.drop_last(), needle);
        let k = choose|k: int| 0 <= k < rest.len() && rest[k] == entries[i];
        assert(all[k] == entries[i]);
    }
}

/// Each command that is left has the text in its name.
pub proof fn a_query_drops_what_does_not_match(
    entries: Seq<CommandPaletteEntry>,
    lowered: Seq<Seq<char>>,
    needle: Seq<char>,
    i: int,
)
    requires
        lowered.len() == entries.len(),
        0 <= i < kept(entries, lowered, needle).len(),
    ensures
        exists|k: int|
            0 <= k < entries.len() && #[trigger] entries[k] == kept(entries, lowered, needle)[i]
                && occurs_in(needle, lowered[k]),
    decreases entries.len(),
{
    let rest = kept(entries.drop_last(), lowered.drop_last(), needle);
    if i < rest.len() {
        a_query_drops_what_does_not_match(entries.drop_last(), lowered.drop_last(), needle, i);
        let k = choose|k: int|
            0 <= k < entries.len() - 1 && #[trigger] entries.drop_last()[k] == rest[i]
                && occurs_in(needle, lowered.drop_last()[k]);
        assert(entries[k] == kept(entries, lowered, needle)[i]);
    } else {
        assert(entries[entries.len() - 1] == kept(entries, lowered, needle)[i]);
    }
}

/// A text that is empty occurs in every name, so all commands stay.
pub proof fn an_empty_query_keeps_all(
    entries: Seq<CommandPaletteEntry>,
    lowered: Seq<Seq<char>>,
    needle: Seq<char>,
)
    requires
        lowered.len() == entries.len(),
        needle.len() == 0,
    ensures
        kept(entries, lowered, needle) == entries,
    decreases entries.len(),
{
    if entries.len() > 0 {
        an_empty_query_keeps_all(entries.drop_last(), lowered.drop_last(), needle);
        assert(lowered.last().subrange(0, 0 + needle.len() as int) =~= needle);
        assert(entries.drop_last().push(entries.last()) =~= entries);
    } else {
        assert(kept(entries, lowered, needle) =~= entries);
    }
}

/// The commands in whose name a text occurs; the names are given in lower case.
pub fn matching_entries(
    entries: &[CommandPaletteEntry],
    lowered: &[String],
    needle: &str,
) -> (r: Vec<CommandPaletteEntry>)
    requires
        lowered@.len() == entries@.len(),
    ensures
        r@ == kept(entries@, strings(lowered@), needle@),
{
    let wanted = chars_of(needle);
    let ghost names = strings(lowered@);
    let mut out: Vec<CommandPaletteEntry> = Vec::new();
    let mut i: usize = 0;
    proof {
        assert(out@ =~= kept(entries@.take(0), names.take(0), needle@));
    }
    while i < entries.len()
        invariant
            i <= entries@.len(),
            lowered@.len() == entries@.len(),
            wanted@ == needle@,
            names == strings(lowered@),
            out@ == kept(entries@.take(i as int), names.take(i as int), needle@),
        decreases entries@.len() - i,
    {
        proof {
            assert(entries@.take(i + 1).drop_last() =~= entries@.take(i as int));
            assert(names.take(i + 1).drop_last() =~= names.take(i as int));
            assert(names.take(i + 1).last() == lowered@[i as int]@);
        }
        let name = chars_of(lowered[i].as_str());
        if contains(name.as_slice(), wanted.as_slice()) {
            out.push(entries[i].same());
        }
        i += 1;
    }
    proof {
        assert(entries@.take(entries@.len() as int) =~= entries@);
        assert(names.take(entries@.len() as int) =~= names);
    }
    out
}

/// The commands that a query leaves. A query of white space alone leaves them all.
pub fn filter_entries(entries: &[CommandPaletteEntry], query: &str) -> (r: Vec<
    CommandPaletteEntry,
>)
    ensures
        r@ == filtered_by(entries@, query@),
        trim(query@).len() == 0 ==> r@ == entries@,
        r@.len() <= entries@.len(),
{
    let chars = chars_of(query);
    let wanted = string_of(trimmed(chars.as_slice()));
    let needle = to_lowercase(wanted.as_str());
    let mut lowered: Vec<String> = Vec::new();
    let mut i: usize = 0;
    while i < entries.len()
        invariant
            i <= entries@.len(),
            lowered@.len() == i,
            forall|k: int|
                0 <= k < i ==> (#[trigger] lowered@[k])@ == lowercase(entries@[k].label@),
        decreases entries@.len() - i,
    {
        lowered.push(to_lowercase(entries[i].label.as_str()));
        i += 1;
    }
    proof {
        assert(strings(lowered@) =~= lowered_labels(entries@));
        a_query_adds_nothing(entries@, lowered_labels(entries@), lowercase(trim(query@)));
        if trim(query@).len() == 0 {
            an_empty_query_keeps_all(entries@, lowered_labels(entries@), needle@);
        }
    }
    matching_entries(entries, lowered.as_slice(), needle.as_str())
}

// ---- The palette ----

/// What the palette tells its window.
#[derive(Debug, PartialEq, Eq)]
pub enum CommandPaletteEvent {
    /// A command was chosen.
    Execute(PaletteAction),
    /// The palette was closed without a choice.
    Dismissed,
}

/// The palette: its commands, the query, and the place of the selected command among
/// those that the query leaves.
#[derive(Debug)]
pub struct CommandPaletteView {
    pub entries: Vec<CommandPaletteEntry>,
    pub query: String,
    pub selected: usize,
}

/// A command as it is seen.
#[derive(Debug, PartialEq, Eq)]
pub struct PaletteRow {
    pub label: String,
    pub selected: bool,
}

/// The palette as it is seen.
#[derive(Debug, PartialEq, Eq)]
pub struct PaletteScene {
    /// The query, or an invitation where there is none.
    pub query: String,
    /// Whether the query is the invitation.
    pub invites: bool,
    pub rows: Vec<PaletteRow>,
    /// What is said where no command is left.
    pub nothing: Option<String>,
}

/// A text without its control characters.
pub open spec fn without_controls(s: Seq<char>) -> Seq<char>
    decreases s.len(),
{
    if s.len() == 0 {
        Seq::empty()
    } else if is_control(s.last()) {
        without_controls(s.drop_last())
    } else {
        without_controls(s.drop_last()).push(s.last())
    }
}

/// The place after another, round the end.
pub open spec fn place_after(selected: nat, count: nat) -> nat {
    if count == 0 {
        0
    } else {
        (selected + 1) % count
    }
}

/// The place before another, round the start.
pub open spec fn place_before(selected: nat, count: nat) -> nat {
    if count == 0 {
        0
    } else {
        ((selected + count - 1) % count as int) as nat
    }
}

/// The place after another, round the end.
pub fn next_place(selected: usize, count: usize) -> (r: usize)
    ensures
        r == place_after(selected as nat, count as nat),
        r == 0 || r < count,
{
    if count == 0 {
        return 0;
    }
    let s: usize = selected % count;
    proof {
        vstd::arithmetic::div_mod::lemma_add_mod_noop(selected as int, 1, count as int);
        vstd::arithmetic::div_mod::lemma_add_mod_noop(s as int, 1, count as int);
        vstd::arithmetic::div_mod::lemma_mod_twice(selected as int, count as int);
        if s + 1 < count {
            vstd::arithmetic::div_mod::lemma_small_mod((s + 1) as nat, count as nat);
        } else {
            vstd::arithmetic::div_mod::lemma_mod_self_0(count as int);
        }
    }
    if s + 1 == count {
        0
    } else {
        s + 1
    }
}

/// The place before another, round the start.
pub fn prev_place(selected: usize, count: usize) -> (r: usize)
    ensures
        r == place_before(selected as nat, count as nat),
        r == 0 || r < count,
{
    if count == 0 {
        return 0;
    }
    let s: usize = selected % count;
    proof {
        let c = count as int;
        vstd::arithmetic::div_mod::lemma_add_mod_noop(selected as int, c - 1, c);
        vstd::arithmetic::div_mod::lemma_add_mod_noop(s as int, c - 1, c);
        vstd::arithmetic::div_mod::lemma_mod_twice(selected as int, c);
        if s == 0 {
            vstd::arithmetic::div_mod::lemma_small_mod((c - 1) as nat, c as nat);
        } else {
            vstd::arithmetic::div_mod::lemma_mod_add_multiples_vanish(s - 1, c);
            vstd::arithmetic::div_mod::lemma_small_mod((s - 1) as nat, c as nat);
        }
    }
    if s == 0 {
        count - 1
    } else {
        s - 1
    }
}

/// On a list that is not empty, going on and back leads to the same place, in either
/// order.
pub proof fn selection_goes_round(selected: nat, count: nat)
    requires
        selected < count,
    ensures
        place_after(selected, count) < count,
        place_before(selected, count) < count,
        place_before(place_after(selected, count), count) == selected,
        place_after(place_before(selected, count), count) == selected,
{
    let c = count as int;
    if selected + 1 < count {
        vstd::arithmetic::div_mod::lemma_small_mod(selected + 1, count);
        vstd::arithmetic::div_mod::lemma_mod_add_multiples_vanish(selected as int, c);
        vstd::arithmetic::div_mod::lemma_small_mod(selected, count);
    } else {
        vstd::arithmetic::div_mod::lemma_mod_self_0(c);
        vstd::arithmetic::div_mod::lemma_small_mod((c - 1) as nat, count);
    }
    if selected == 0 {
        vstd::arithmetic::div_mod::lemma_small_mod((c - 1) as nat, count);
        vstd::arithmetic::div_mod::lemma_mod_self_0(c);
    } else {
        vstd::arithmetic::div_mod::lemma_mod_add_multiples_vanish(selected - 1, c);
        vstd::arithmetic::div_mod::lemma_small_mod((selected - 1) as nat, count);
        vstd::arithmetic::div_mod::lemma_small_mod(selected, count);
    }
}

/// What choosing the command at a place tells the window, where there is one.
pub open spec fn choice(
    left: Seq<CommandPaletteEntry>,
    selected: int,
) -> Option<CommandPaletteEvent> {
    if 0 <= selected < left.len() {
        Some(CommandPaletteEvent::Execute(left[selected].action))
    } else {
        None
    }
}

impl CommandPaletteView {
    /// The palette over commands, with an empty query.
    pub fn new(entries: Vec<CommandPaletteEntry>) -> (r: Self)
        ensures
            r.entries == entries,
            r.query@ == Seq::<char>::empty(),
            r.selected == 0,
    {
        CommandPaletteView { entries, query: String::new(), selected: 0 }
    }

    /// The commands that the query leaves.
    pub open spec fn left(&self) -> Seq<CommandPaletteEntry> {
        filtered_by(self.entries@, self.query@)
    }

    /// Starts anew with other commands.
    pub fn set_entries(&mut self, entries: Vec<CommandPaletteEntry>)
        ensures
            final(self).entries == entries,
            final(self).query@ == Seq::<char>::empty(),
            final(self).selected == 0,
    {
        self.entries = entries;
        self.query = String::new();
        self.selected = 0;
    }

    /// The query.
    pub fn query(&self) -> (r: &str)
        ensures
            r@ == self.query@,
    {
        self.query.as_str()
    }

    /// The commands that the query leaves.
    pub fn filtered(&self) -> (r: Vec<CommandPaletteEntry>)
        ensures
            r@ == self.left(),
            trim(self.query@).len() == 0 ==> r@ == self.entries@,
    {
        filter_entries(self.entries.as_slice(), self.query.as_str())
    }

    /// The place of the selected command.
    pub fn selected_index(&self) -> (r: usize)
        ensures
            r == self.selected,
    {
        self.selected
    }

    /// A character is typed.
    pub fn push_char(&mut self, c: char)
        ensures
            final(self).query@ == old(self).query@.push(c),
            final(self).selected == 0,
            final(self).entries == old(self).entries,
    {
        self.query.push(c);
        self.selected = 0;
    }

    /// A text is pasted: its control characters are left out.
    pub fn push_str(&mut self, s: &str)
        ensures
            final(self).query@ == old(self).query@ + without_controls(s@),
            final(self).selected == 0,
            final(self).entries == old(self).entries,
    {
        let chars = chars_of(s);
        let mut i: usize = 0;
        proof {
            assert(chars@.take(0) =~= Seq::<char>::empty());
            assert(self.query@ =~= old(self).query@ + without_controls(chars@.take(0)));
        }
        while i < chars.len()
            invariant
                i <= chars@.len(),
                self.query@ == old(self).query@ + without_controls(chars@.take(i as int)),
                self.entries == old(self).entries,
            decreases chars@.len() - i,
        {
            proof {
                assert(chars@.take(i + 1).drop_last() =~= chars@.take(i as int));
            }
            if !is_control_char(chars[i]) {
                self.query.push(chars[i]);
            }
            i += 1;
            proof {
                assert(self.query@ =~= old(self).query@ + without_controls(chars@.take(i as int)));
            }
        }
        proof {
            assert(chars@.take(chars@.len() as int) =~= chars@);
        }
        self.selected = 0;
    }

    /// The last character of the query is taken back.
    pub fn pop_char(&mut self)
        ensures
            final(self).query@ == if old(self).query@.len() == 0 {
                Seq::empty()
            } else {
                old(self).query@.drop_last()
            },
            final(self).selected == 0,
            final(self).entries == old(self).entries,
    {
        let chars = chars_of(self.query.as_str());
        if chars.len() > 0 {
            let rest = vstd::slice::slice_subrange(chars.as_slice(), 0, chars.len() - 1);
            self.query = string_of(rest);
            proof {
                assert(rest@ =~= old(self).query@.drop_last());
            }
        }
        proof {
            assert(old(self).query@.len() == 0 ==> old(self).query@ =~= Seq::empty());
        }
        self.selected = 0;
    }

    /// The next command is selected, round the end.
    pub fn next_item(&mut self)
        ensures
            final(self).selected == place_after(old(self).selected as nat, old(self).left().len()),
            final(self).query == old(self).query,
            final(self).entries == old(self).entries,
    {
        let count: usize = self.filtered().len();
        self.selected = next_place(self.selected, count);
    }

    /// The previous command is selected, round the start.
    pub fn prev_item(&mut self)
        ensures
            final(self).selected == place_before(old(self).selected as nat, old(self).left().len()),
            final(self).query == old(self).query,
            final(self).entries == old(self).entries,
    {
        let count: usize = self.filtered().len();
        self.selected = prev_place(self.selected, count);
    }

    /// The selected command is chosen, where there is one.
    pub fn confirm(&self) -> (r: Option<CommandPaletteEvent>)
        ensures
            r == choice(self.left(), self.selected as int),
    {
        let left = self.filtered();
        choose_entry(left.as_slice(), self.selected)
    }

    /// The command at a place is clicked: it is selected and chosen.
    pub fn click(&mut self, index: usize) -> (r: Option<CommandPaletteEvent>)
        ensures
            final(self).selected == index,
            final(self).query == old(self).query,
            final(self).entries == old(self).entries,
            r == choice(old(self).left(), index as int),
    {
        self.selected = index;
        self.confirm()
    }

    /// The palette is closed without a choice; the next time it starts afresh.
    pub fn dismiss(&mut self) -> (r: CommandPaletteEvent)
        ensures
            r == CommandPaletteEvent::Dismissed,
            final(self).query@ == Seq::<char>::empty(),
            final(self).selected == 0,
            final(self).entries == old(self).entries,
    {
        self.query = String::new();
        self.selected = 0;
        CommandPaletteEvent::Dismissed
    }

    /// The palette as it is seen.
    pub fn render(&self) -> (r: PaletteScene)
        ensures
            scene_of(r, self.left(), self.query@, self.selected as int),
    {
        let left = self.filtered();
        scene(left.as_slice(), self.query.as_str(), self.selected)
    }
}

/// What choosing the command at a place tells the window, where there is one.
pub fn choose_entry(left: &[CommandPaletteEntry], selected: usize) -> (r: Option<
    CommandPaletteEvent,
>)
    ensures
        r == choice(left@, selected as int),
{
    if selected < left.len() {
        Some(CommandPaletteEvent::Execute(left[selected].action.same()))
    } else {
        None
    }
}

/// What is seen of commands, a query and a selection: the first commands, with the
/// selected one marked, or that there are none.
pub open spec fn scene_of(
    scene: PaletteScene,
    left: Seq<CommandPaletteEntry>,
    query: Seq<char>,
    selected: int,
) -> bool {
    &&& scene.invites == (trim(query).len() == 0)
    &&& scene.query@ == if scene.invites {
        "Type a command or profile name"@
    } else {
        query
    }
    &&& scene.rows@.len() == if left.len() <= MAX_VISIBLE_ITEMS {
        left.len()
    } else {
        MAX_VISIBLE_ITEMS as nat
    }
    &&& forall|i: int|
        0 <= i < scene.rows@.len() ==> (#[trigger] scene.rows@[i]).label@ == left[i].label@
            && scene.rows@[i].selected == (i == selected)
    &&& match scene.nothing {
        Some(text) => left.len() == 0 && text@ == "No matching commands"@,
        None => left.len() > 0,
    }
}

/// What is seen of commands, a query and a selection.
pub fn scene(left: &[CommandPaletteEntry], query: &str, selected: usize) -> (r: PaletteScene)
    ensures
        scene_of(r, left@, query@, selected as int),
{
    let chars = chars_of(query);
    let invites = trimmed(chars.as_slice()).len() == 0;
    let shown = if invites {
        "Type a command or profile name".to_owned()
    } else {
        query.to_owned()
    };
    let count: usize = if left.len() <= MAX_VISIBLE_ITEMS {
        left.len()
    } else {
        MAX_VISIBLE_ITEMS
    };
    let mut rows: Vec<PaletteRow> = Vec::new();
    let mut i: usize = 0;
    while i < count
        invariant
            i <= count <= left@.len(),
            rows@.len() == i,
            forall|k: int|
                0 <= k < i ==> (#[trigger] rows@[k]).label@ == left@[k].label@ && rows@[k].selected
                    == (k == selected),
        decreases count - i,
    {
        rows.push(PaletteRow { label: left[i].label.clone(), selected: i == selected });
        i += 1;
    }
    let nothing = if left.len() == 0 {
        Some("No matching commands".to_owned())
    } else {
        None
    };
    PaletteScene { query: shown, invites, rows, nothing }
}

/// No control character gets into the query by a paste.
pub proof fn pasted_text_is_clean(s: Seq<char>)
    ensures
        without_controls(s).len() <= s.len(),
        forall|i: int|
            0 <= i < without_controls(s).len() ==> !is_control(#[trigger] without_controls(s)[i]),
    decreases s.len(),
{
    if s.len() > 0 {
        pasted_text_is_clean(s.drop_last());
    }
}

// ---- What the commands do ----

/// Every command does what its name says: given what a row does, this is what it is
/// called.
pub proof fn commands_are_called_what_they_do(
    assistant: Seq<char>,
    update: Option<&str>,
    names: Seq<String>,
    active: Option<&str>,
    i: int,
)
    requires
        0 <= i < all_rows(assistant, update, names, active).len(),
    ensures
        ({
            let (label, action) = all_rows(assistant, update, names, active)[i];
            match action {
                PaletteAction::Automation(AutomationAction::OpenSettings) => label
                    == "Open Settings"@,
                PaletteAction::Automation(AutomationAction::OpenFind) => label
                    == "Find in Scrollback"@,
                PaletteAction::Automation(AutomationAction::NewTab) => label == "New Tab"@,
                PaletteAction::Automation(AutomationAction::NewClaudeTab) => label == "New "@
                    + assistant + " Tab"@,
                PaletteAction::Automation(AutomationAction::NewClaudeResumeTab) => label
                    == "Resume "@ + assistant + " Tab"@,
                PaletteAction::Automation(AutomationAction::NewCodexTab) => label
                    == "New Codex Tab"@,
                PaletteAction::Automation(AutomationAction::NewCodexResumeTab) => label
                    == "Resume Codex Tab"@,
                PaletteAction::Automation(AutomationAction::SplitVertical) => label
                    == "Split Pane Vertical"@,
                PaletteAction::Automation(AutomationAction::SplitHorizontal) => label
                    == "Split Pane Horizontal"@,
                PaletteAction::Automation(AutomationAction::ClosePane) => label == "Close Pane"@,
                PaletteAction::Automation(AutomationAction::CloseTab) => label == "Close Tab"@,
                PaletteAction::Automation(AutomationAction::NewWindow) => label == "New Window"@,
                PaletteAction::MoveWorkspaceToNewWindow => label
                    == "Move workspace to new window"@,
                PaletteAction::MoveWorkspaceLeft => label == "Move workspace left"@,
                PaletteAction::MoveWorkspaceRight => label == "Move workspace right"@,
                PaletteAction::MoveWorkspaceUp => label == "Move workspace up"@,
                PaletteAction::MoveWorkspaceDown => label == "Move workspace down"@,
                PaletteAction::OpenRemoteConnect => label == "Connect to remote machine…"@,
                PaletteAction::Automation(AutomationAction::OpenUpdateDialog) => update is Some
                    && label == "Update Scribe to v"@ + update->0@,
                PaletteAction::Automation(AutomationAction::SwitchProfile { name }) => label
                    == "Switch Profile: "@ + name@ + (if active is Some && active->0@ == name@ {
                    " (active)"@
                } else {
                    ""@
                }),
            }
        }),
{
    let base = base_rows(assistant);
    let all = all_rows(assistant, update, names, active);
    if i < base.len() {
        assert(all[i] == base[i]);
    } else if update is Some && i == base.len() {
        assert(all[i].1 == PaletteAction::Automation(AutomationAction::OpenUpdateDialog));
    } else {
        let k = i - base.len() - (if update is Some {
            1int
        } else {
            0
        });
        assert(all[i] == profile_rows(names, active)[k]);
    }
}

/// The fixed commands come first, settings first of all and the remote machine last; then
/// the update, where there is one; then a row for each profile, in order.
pub proof fn commands_stand_in_order(
    assistant: Seq<char>,
    update: Option<&str>,
    names: Seq<String>,
    active: Option<&str>,
    i: int,
)
    ensures
        ({
            let all = all_rows(assistant, update, names, active);
            let first = 18 + (if update is Some {
                1int
            } else {
                0
            });
            &&& all.len() == first + names.len()
            &&& all[0].1 == PaletteAction::Automation(AutomationAction::OpenSettings)
            &&& all[17].1 == PaletteAction::OpenRemoteConnect
            &&& update is Some ==> all[18].1 == PaletteAction::Automation(
                AutomationAction::OpenUpdateDialog,
            )
            &&& 0 <= i < names.len() ==> all[first + i].1 == PaletteAction::Automation(
                AutomationAction::SwitchProfile { name: names[i] },
            )
            &&& forall|a: int, b: int|
                0 <= a < b < 18 ==> (#[trigger] all[a]).1 != (#[trigger] all[b]).1
        }),
{
    let base = base_rows(assistant);
    let all = all_rows(assistant, update, names, active);
    assert(all[0] == base[0] && all[17] == base[17]);
    assert forall|a: int, b: int| 0 <= a < b < 18 implies (#[trigger] all[a]).1 != (
    #[trigger] all[b]).1 by {
        assert(all[a] == base[a] && all[b] == base[b]);
    }
}

/// One more command is kept at the end where its name holds what is looked for, and not
/// at all where it does not: those that are kept keep their order.
pub proof fn queries_keep_the_order(
    entries: Seq<CommandPaletteEntry>,
    lowered: Seq<Seq<char>>,
    entry: CommandPaletteEntry,
    name: Seq<char>,
    needle: Seq<char>,
)
    ensures
        kept(entries.push(entry), lowered.push(name), needle) == if occurs_in(needle, name) {
            kept(entries, lowered, needle).push(entry)
        } else {
            kept(entries, lowered, needle)
        },
{
    assert(entries.push(entry).drop_last() =~= entries);
    assert(lowered.push(name).drop_last() =~= lowered);
}

/// A query goes by its letters without the white space around it, in lower case, and so
/// do the names.
pub proof fn queries_ignore_case_and_white_space(
    entries: Seq<CommandPaletteEntry>,
    query: Seq<char>,
    other: Seq<char>,
)
    requires
        lowercase(trim(query)) == lowercase(trim(other)),
    ensures
        filtered_by(entries, query) == filtered_by(entries, other),
{
}

/// What is looked for is found wherever it stands in a name, and a name in which it
/// stands nowhere is not.
pub proof fn queries_find_it_anywhere(before: Seq<char>, needle: Seq<char>, after: Seq<char>)
    ensures
        occurs_in(needle, before + needle + after),
        needle.len() > before.len() ==> !occurs_in(needle, before),
{
    let s = before + needle + after;
    let at = before.len() as int;
    assert(s.subrange(at, at + needle.len()) =~= needle);
}

/// The next command is the one below, and the first after the last; the one before is the
/// one above, and the last before the first.
pub proof fn selection_moves_by_one(selected: nat, count: nat)
    requires
        selected < count,
    ensures
        selected + 1 < count ==> place_after(selected, count) == selected + 1,
        selected + 1 == count ==> place_after(selected, count) == 0,
        selected > 0 ==> place_before(selected, count) == selected - 1,
        selected == 0 ==> place_before(selected, count) == count - 1,
{
    if selected + 1 == count {
        assert(count % count == 0) by (nonlinear_arith)
            requires
                count > 0,
        ;
    } else {
        vstd::arithmetic::div_mod::lemma_small_mod(selected + 1, count);
    }
    if selected > 0 {
        vstd::arithmetic::div_mod::lemma_mod_add_multiples_vanish(selected - 1, count as int);
        vstd::arithmetic::div_mod::lemma_small_mod((selected - 1) as nat, count);
        assert(selected + count - 1 == count + (selected - 1));
    } else {
        vstd::arithmetic::div_mod::lemma_small_mod((count - 1) as nat, count);
    }
}

/// What is chosen is the selected one of the commands that are left.
pub proof fn the_selected_command_is_chosen(left: Seq<CommandPaletteEntry>, selected: int)
    ensures
        0 <= selected < left.len() ==> choice(left, selected) == Some(
            CommandPaletteEvent::Execute(left[selected].action),
        ),
        !(0 <= selected < left.len()) ==> choice(left, selected) is None,
{
}

/// Pasted text keeps every character but control characters, in order.
pub proof fn pasted_text_keeps_the_rest(s: Seq<char>, c: char)
    ensures
        without_controls(s.push(c)) == if is_control(c) {
            without_controls(s)
        } else {
            without_controls(s).push(c)
        },
        without_controls(Seq::empty()).len() == 0,
{
    assert(s.push(c).drop_last() =~= s);
}

/// Eight commands are shown at most, from the first on, and just the selected one of them
/// is marked. Where none is left that is said, and where nothing is asked an invitation
/// stands in place of the query.
pub proof fn eight_commands_are_shown(
    scene: PaletteScene,
    left: Seq<CommandPaletteEntry>,
    query: Seq<char>,
    selected: int,
    i: int,
)
    requires
        scene_of(scene, left, query, selected),
    ensures
        scene.rows@.len() <= 8,
        scene.rows@.len() <= left.len(),
        scene.rows@.len() < 8 ==> scene.rows@.len() == left.len(),
        0 <= i < scene.rows@.len() ==> scene.rows@[i].label@ == left[i].label@,
        0 <= i < scene.rows@.len() ==> (scene.rows@[i].selected <==> i == selected),
        scene.nothing is Some <==> left.len() == 0,
        scene.invites <==> trim(query).len() == 0,
        !scene.invites ==> scene.query@ == query,
{
}

/// Taking a character back undoes typing it.
pub proof fn taking_back_undoes_typing(query: Seq<char>, c: char)
    ensures
        forall|view: &mut CommandPaletteView, r: ()|
            #[trigger] call_ensures(CommandPaletteView::pop_char, (view,), r) ==> {
                &&& view.query@ == query.push(c) ==> final(view).query@ == query
                &&& view.query@.len() == 0 ==> final(view).query@.len() == 0
                &&& final(view).selected == 0
                &&& final(view).entries == view.entries
            },
{
    assert forall|view: &mut CommandPaletteView, r: ()|
        #[trigger] call_ensures(CommandPaletteView::pop_char, (view,), r) && view.query@
            == query.push(c) implies final(view).query@ == query by {
        assert(query.push(c).drop_last() =~= query);
    }
}

} // verus!
