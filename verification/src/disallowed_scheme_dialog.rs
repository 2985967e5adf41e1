//! The prompt for a link with an unusual scheme as it is drawn over the terminal.

use vstd::prelude::*;

use crate::dialog::{add_line, scheme_body, scheme_lines, DisallowedSchemeAction};
use crate::dialog_grid::{
    button_cols, dialog_cols, dialog_rows, drawn, first_hit, hit_button, plan, DialogModel,
    DialogPlan, DialogText, PADDING,
};
use crate::text::strings;

verus! {

/// How wide the prompt likes to be.
pub const LIKED_DIALOG_COLS: usize = 64;

/// How narrow the prompt can be, so that its buttons fit.
pub const MIN_DIALOG_COLS: usize = 46;

/// A button, from left to right.
#[derive(Debug, Clone, Copy, PartialEq, Eq, Structural)]
pub enum ButtonIndex {
    Cancel,
    OpenAnyway,
}

impl ButtonIndex {
    /// The place of the button.
    pub open spec fn place(self) -> int {
        match self {
            ButtonIndex::Cancel => 0,
            ButtonIndex::OpenAnyway => 1,
        }
    }

    /// What the button stands for.
    pub open spec fn action(self) -> DisallowedSchemeAction {
        match self {
            ButtonIndex::Cancel => DisallowedSchemeAction::Cancel,
            ButtonIndex::OpenAnyway => DisallowedSchemeAction::OpenAnyway,
        }
    }

    /// The button to the right, round the end: the other one.
    pub fn next(self) -> (r: Self)
        ensures
            r != self,
    {
        match self {
            ButtonIndex::Cancel => ButtonIndex::OpenAnyway,
            ButtonIndex::OpenAnyway => ButtonIndex::Cancel,
        }
    }

    /// The button to the left, round the start: the other one.
    pub fn prev(self) -> (r: Self)
        ensures
            r != self,
    {
        match self {
            ButtonIndex::Cancel => ButtonIndex::OpenAnyway,
            ButtonIndex::OpenAnyway => ButtonIndex::Cancel,
        }
    }

    /// What the button stands for.
    pub fn to_action(self) -> (r: DisallowedSchemeAction)
        ensures
            r == self.action(),
    {
        match self {
            ButtonIndex::Cancel => DisallowedSchemeAction::Cancel,
            ButtonIndex::OpenAnyway => DisallowedSchemeAction::OpenAnyway,
        }
    }

    fn index(self) -> (r: usize)
        ensures
            r == self.place(),
    {
        match self {
            ButtonIndex::Cancel => 0,
            ButtonIndex::OpenAnyway => 1,
        }
    }
}

/// The labels of the buttons, from left to right.
pub open spec fn labels() -> Seq<Seq<char>> {
    seq!["Cancel"@, "Open Anyway"@]
}

/// The prompt.
#[derive(Debug)]
pub struct DisallowedSchemeDialog {
    pub pending_uri: String,
    pub scheme: String,
    pub focused: ButtonIndex,
    pub hovered: Option<usize>,
}

impl DisallowedSchemeDialog {
    /// The prompt for a link. Cancel is focused.
    pub fn new(uri: String, scheme: String) -> (r: Self)
        ensures
            r == (DisallowedSchemeDialog {
                pending_uri: uri,
                scheme,
                focused: ButtonIndex::Cancel,
                hovered: None,
            }),
    {
        DisallowedSchemeDialog {
            pending_uri: uri,
            scheme,
            focused: ButtonIndex::Cancel,
            hovered: None,
        }
    }

    /// The link, as it was given.
    pub fn into_pending_uri(self) -> (r: String)
        ensures
            r == self.pending_uri,
    {
        self.pending_uri
    }

    /// Focuses the other button.
    pub fn focus_next(&mut self)
        ensures
            final(self).focused != old(self).focused,
            *final(self) == (DisallowedSchemeDialog { focused: final(self).focused, ..*old(self) }),
    {
        self.focused = self.focused.next();
    }

    /// Focuses the other button.
    pub fn focus_prev(&mut self)
        ensures
            final(self).focused != old(self).focused,
            *final(self) == (DisallowedSchemeDialog { focused: final(self).focused, ..*old(self) }),
    {
        self.focused = self.focused.prev();
    }

    /// What the focused button stands for.
    pub fn confirm(&self) -> (r: DisallowedSchemeAction)
        ensures
            r == self.focused.action(),
    {
        self.focused.to_action()
    }

    /// The pointer moved; of each button it is known whether the pointer is over it.
    /// Says whether another button is under it now.
    pub fn update_hover(&mut self, hits: &[bool]) -> (changed: bool)
        ensures
            final(self).hovered == match first_hit(hits@) {
                Some(i) => Some(i as usize),
                None => None,
            },
            *final(self) == (DisallowedSchemeDialog { hovered: final(self).hovered, ..*old(self) }),
            changed == (final(self).hovered != old(self).hovered),
    {
        let over = hit_button(hits);
        let changed = match (over, self.hovered) {
            (Some(a), Some(b)) => a != b,
            (None, None) => false,
            _ => true,
        };
        self.hovered = over;
        changed
    }

    /// What a click stands for; of each button it is known whether the pointer is
    /// over it.
    pub fn click(&self, hits: &[bool]) -> (r: Option<DisallowedSchemeAction>)
        ensures
            r == match first_hit(hits@) {
                Some(i) if i == 0 => Some(DisallowedSchemeAction::Cancel),
                Some(i) if i == 1 => Some(DisallowedSchemeAction::OpenAnyway),
                _ => None,
            },
    {
        match hit_button(hits) {
            Some(0) => Some(ButtonIndex::Cancel.to_action()),
            Some(1) => Some(ButtonIndex::OpenAnyway.to_action()),
            _ => None,
        }
    }

    /// What the prompt says.
    pub open spec fn says(&self) -> DialogModel {
        DialogModel {
            title: "Unsafe URI Scheme"@,
            body: scheme_lines(self.pending_uri@, self.scheme@),
            labels: labels(),
            focused: self.focused.place(),
            hovered: self.hovered,
            first_danger: 1,
        }
    }

    /// Lays the prompt out in a viewport that is so many columns wide.
    pub fn build_instances(&self, max_cols: usize) -> (r: DialogPlan)
        ensures
            r.cols == dialog_cols(
                max_cols as nat,
                LIKED_DIALOG_COLS as nat,
                MIN_DIALOG_COLS as nat,
            ),
            r.rows == dialog_rows(self.says().body.len()),
            r.draws@ == drawn(self.says(), r.cols as int),
    {
        let mut names: Vec<String> = Vec::new();
        add_line(&mut names, "Cancel");
        add_line(&mut names, "Open Anyway");
        let text = DialogText {
            title: "Unsafe URI Scheme",
            body: scheme_body(self.pending_uri.as_str(), self.scheme.as_str()),
            labels: names,
            focused: self.focused.index(),
            hovered: self.hovered,
            first_danger: 1,
        };
        proof {
            assert(strings(text.labels@) =~= labels());
            buttons_have_room(max_cols as nat);
            assert(strings(text.body@).len() == text.body@.len());
            assert(text@ == self.says());
        }
        plan(&text, max_cols, LIKED_DIALOG_COLS, MIN_DIALOG_COLS)
    }
}

/// However narrow the viewport, the prompt has room for its buttons.
pub proof fn buttons_have_room(max_cols: nat)
    ensures
        button_cols(labels()) + 2 * PADDING <= dialog_cols(
            max_cols,
            LIKED_DIALOG_COLS as nat,
            MIN_DIALOG_COLS as nat,
        ),
        button_cols(labels()) + 3 * PADDING < 100,
{
    reveal_strlit("Cancel");
    reveal_strlit("Open Anyway");
    reveal_with_fuel(button_cols, 3);
}

/// Every button does what its label says, and the one that opens warns.
pub proof fn buttons_do_what_they_say(dialog: DisallowedSchemeDialog, button: ButtonIndex)
    ensures
        match button.action() {
            DisallowedSchemeAction::Cancel => labels()[button.place()] == "Cancel"@
                && button.place() < dialog.says().first_danger,
            DisallowedSchemeAction::OpenAnyway => labels()[button.place()] == "Open Anyway"@
                && button.place() >= dialog.says().first_danger,
        },
        dialog.says().focused == dialog.focused.place(),
        dialog.says().labels == labels(),
        labels().len() == 2,
{
}

/// The scheme and the address that is to be opened are told.
pub proof fn blocked_addresses_are_told(dialog: DisallowedSchemeDialog)
    ensures
        dialog.says().body.len() == 5,
        dialog.says().body[0] == "Scheme `"@ + dialog.scheme@ + ":` is normally blocked."@,
        dialog.pending_uri@.len() <= 56 ==> dialog.says().body[4] == dialog.pending_uri@,
{
}

/// A click on the first button cancels and on the second opens the link. A click beside
/// them does nothing.
pub proof fn clicks_do_what_the_button_says(
    dialog: &DisallowedSchemeDialog,
    hits: &[bool],
    r: Option<DisallowedSchemeAction>,
)
    requires
        call_ensures(DisallowedSchemeDialog::click, (dialog, hits), r),
    ensures
        r == Some(DisallowedSchemeAction::Cancel) <==> first_hit(hits@) == Some(0int),
        r == Some(DisallowedSchemeAction::OpenAnyway) <==> first_hit(hits@) == Some(1int),
{
}

} // verus!
