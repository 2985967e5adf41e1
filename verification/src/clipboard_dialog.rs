//! The clipboard prompt as it is drawn over the terminal: which button is focused
//! or under the pointer, what each stands for, and where everything goes.

use vstd::prelude::*;

use crate::dialog::{
    add_line, clipboard_body, clipboard_heading, clipboard_lines, clipboard_title,
    ClipboardDialogAction,
};
use crate::dialog_grid::{
    button_cols, dialog_cols, dialog_rows, drawn, first_hit,
    hit_button, plan, DialogModel, DialogPlan, DialogText, PADDING,
};
use crate::protocol::{ClipboardOp, ClipboardSelection, PromptId, SessionId};
use crate::text::strings;

verus! {

/// How wide the prompt likes to be.
pub const LIKED_DIALOG_COLS: usize = 84;

/// How narrow the prompt can be, so that its buttons fit.
pub const MIN_DIALOG_COLS: usize = 76;

/// A button, from left to right.
#[derive(Debug, Clone, Copy, PartialEq, Eq, Structural)]
pub enum ButtonIndex {
    DenyOnce,
    AlwaysDeny,
    AllowOnce,
    AlwaysAllow,
}

impl ButtonIndex {
    /// The place of the button.
    pub open spec fn place(self) -> int {
        match self {
            ButtonIndex::DenyOnce => 0,
            ButtonIndex::AlwaysDeny => 1,
            ButtonIndex::AllowOnce => 2,
            ButtonIndex::AlwaysAllow => 3,
        }
    }

    /// What the button stands for.
    pub open spec fn action(self) -> ClipboardDialogAction {
        match self {
            ButtonIndex::DenyOnce => ClipboardDialogAction::DenyOnce,
            ButtonIndex::AlwaysDeny => ClipboardDialogAction::AlwaysDeny,
            ButtonIndex::AllowOnce => ClipboardDialogAction::AllowOnce,
            ButtonIndex::AlwaysAllow => ClipboardDialogAction::AlwaysAllow,
        }
    }

    /// The button to the right, round the end.
    pub fn next(self) -> (r: Self)
        ensures
            r.place() == (self.place() + 1) % 4,
    {
        match self {
            ButtonIndex::DenyOnce => ButtonIndex::AlwaysDeny,
            ButtonIndex::AlwaysDeny => ButtonIndex::AllowOnce,
            ButtonIndex::AllowOnce => ButtonIndex::AlwaysAllow,
            ButtonIndex::AlwaysAllow => ButtonIndex::DenyOnce,
        }
    }

    /// The button to the left, round the start.
    pub fn prev(self) -> (r: Self)
        ensures
            r.place() == (self.place() + 3) % 4,
    {
        match self {
            ButtonIndex::DenyOnce => ButtonIndex::AlwaysAllow,
            ButtonIndex::AlwaysDeny => ButtonIndex::DenyOnce,
            ButtonIndex::AllowOnce => ButtonIndex::AlwaysDeny,
            ButtonIndex::AlwaysAllow => ButtonIndex::AllowOnce,
        }
    }

    /// What the button stands for.
    pub fn to_action(self) -> (r: ClipboardDialogAction)
        ensures
            r == self.action(),
    {
        match self {
            ButtonIndex::DenyOnce => ClipboardDialogAction::DenyOnce,
            ButtonIndex::AlwaysDeny => ClipboardDialogAction::AlwaysDeny,
            ButtonIndex::AllowOnce => ClipboardDialogAction::AllowOnce,
            ButtonIndex::AlwaysAllow => ClipboardDialogAction::AlwaysAllow,
        }
    }

    /// The button at a place, where there is one.
    pub fn from_index(idx: usize) -> (r: Option<Self>)
        ensures
            match r {
                Some(button) => button.place() == idx,
                None => idx >= 4,
            },
    {
        match idx {
            0 => Some(ButtonIndex::DenyOnce),
            1 => Some(ButtonIndex::AlwaysDeny),
            2 => Some(ButtonIndex::AllowOnce),
            3 => Some(ButtonIndex::AlwaysAllow),
            _ => None,
        }
    }

    fn index(self) -> (r: usize)
        ensures
            r == self.place(),
    {
        match self {
            ButtonIndex::DenyOnce => 0,
            ButtonIndex::AlwaysDeny => 1,
            ButtonIndex::AllowOnce => 2,
            ButtonIndex::AlwaysAllow => 3,
        }
    }
}

/// The labels of the buttons, from left to right.
pub open spec fn labels() -> Seq<Seq<char>> {
    seq!["Deny once"@, "Always deny"@, "Allow once"@, "Always allow"@]
}

/// The prompt.
#[derive(Debug)]
pub struct ClipboardDialog {
    pub request_id: PromptId,
    pub session_id: SessionId,
    pub op: ClipboardOp,
    pub selection: ClipboardSelection,
    pub preview: Option<String>,
    pub focused: ButtonIndex,
    pub hovered: Option<usize>,
}

impl ClipboardDialog {
    /// The prompt for a request of a session. Deny once is focused.
    pub fn new(
        request_id: PromptId,
        session_id: SessionId,
        op: ClipboardOp,
        selection: ClipboardSelection,
        preview: Option<String>,
    ) -> (r: Self)
        ensures
            r == (ClipboardDialog {
                request_id,
                session_id,
                op,
                selection,
                preview,
                focused: ButtonIndex::DenyOnce,
                hovered: None,
            }),
    {
        ClipboardDialog {
            request_id,
            session_id,
            op,
            selection,
            preview,
            focused: ButtonIndex::DenyOnce,
            hovered: None,
        }
    }

    /// The request that the answer belongs to.
    pub fn request_id(&self) -> (r: PromptId)
        ensures
            r == self.request_id,
    {
        self.request_id
    }

    /// The session that asked.
    pub fn session_id(&self) -> (r: SessionId)
        ensures
            r == self.session_id,
    {
        self.session_id
    }

    /// Whether the request reads or writes.
    pub fn op(&self) -> (r: ClipboardOp)
        ensures
            r == self.op,
    {
        self.op
    }

    /// Focuses the button to the right, round the end.
    pub fn focus_next(&mut self)
        ensures
            final(self).focused.place() == (old(self).focused.place() + 1) % 4,
            *final(self) == (ClipboardDialog { focused: final(self).focused, ..*old(self) }),
    {
        self.focused = self.focused.next();
    }

    /// Focuses the button to the left, round the start.
    pub fn focus_prev(&mut self)
        ensures
            final(self).focused.place() == (old(self).focused.place() + 3) % 4,
            *final(self) == (ClipboardDialog { focused: final(self).focused, ..*old(self) }),
    {
        self.focused = self.focused.prev();
    }

    /// What the focused button stands for.
    pub fn confirm(&self) -> (r: ClipboardDialogAction)
        ensures
            r == self.focused.action(),
    {
        self.focused.to_action()
    }

    /// The pointer moved; of each button it is known whether the pointer is over it.
    /// Says whether another button is under it now.
    pub fn update_hover(&mut self, hits: &[bool]) -> (changed: bool)
        ensures
            final(self).hovered == match first_hit(hits@) {
                Some(i) => Some(i as usize),
                None => None,
            },
            *final(self) == (ClipboardDialog { hovered: final(self).hovered, ..*old(self) }),
            changed == (final(self).hovered != old(self).hovered),
    {
        let over = hit_button(hits);
        let changed = match (over, self.hovered) {
            (Some(a), Some(b)) => a != b,
            (None, None) => false,
            _ => true,
        };
        self.hovered = over;
        changed
    }

    /// What a click stands for; of each button it is known whether the pointer is
    /// over it.
    pub fn click(&self, hits: &[bool]) -> (r: Option<ClipboardDialogAction>)
        ensures
            match first_hit(hits@) {
                Some(i) if i < 4 => exists|button: ButtonIndex|
                    #[trigger] button.place() == i && r == Some(button.action()),
                _ => r is None,
            },
    {
        match hit_button(hits) {
            Some(idx) => match ButtonIndex::from_index(idx) {
                Some(button) => {
                    proof {
                        assert(button.place() == idx);
                    }
                    Some(button.to_action())
                },
                None => None,
            },
            None => None,
        }
    }

    /// What the prompt says.
    pub open spec fn says(&self) -> DialogModel {
        DialogModel {
            title: clipboard_heading(self.op),
            body: clipboard_lines(self.op, self.selection, self.preview),
            labels: labels(),
            focused: self.focused.place(),
            hovered: self.hovered,
            first_danger: 2,
        }
    }

    /// Lays the prompt out in a viewport that is so many columns wide.
    pub fn build_instances(&self, max_cols: usize) -> (r: DialogPlan)
        ensures
            r.cols == dialog_cols(
                max_cols as nat,
                LIKED_DIALOG_COLS as nat,
                MIN_DIALOG_COLS as nat,
            ),
            r.rows == dialog_rows(self.says().body.len()),
            r.draws@ == drawn(self.says(), r.cols as int),
    {
        let mut names: Vec<String> = Vec::new();
        add_line(&mut names, "Deny once");
        add_line(&mut names, "Always deny");
        add_line(&mut names, "Allow once");
        add_line(&mut names, "Always allow");
        let text = DialogText {
            title: clipboard_title(self.op),
            body: clipboard_body(self.op, self.selection, &self.preview),
            labels: names,
            focused: self.focused.index(),
            hovered: self.hovered,
            first_danger: 2,
        };
        proof {
            assert(strings(text.labels@) =~= labels());
            buttons_have_room(max_cols as nat);
            assert(strings(text.body@).len() == text.body@.len());
            assert(text@ == self.says());
        }
        plan(&text, max_cols, LIKED_DIALOG_COLS, MIN_DIALOG_COLS)
    }
}

proof fn labels_are_short()
    ensures
        button_cols(labels()) == 58,
{
    reveal_strlit("Deny once");
    reveal_strlit("Always deny");
    reveal_strlit("Allow once");
    reveal_strlit("Always allow");
    reveal_with_fuel(button_cols, 5);
}

/// However narrow the viewport, the prompt has room for its buttons.
pub proof fn buttons_have_room(max_cols: nat)
    ensures
        button_cols(labels()) + 2 * PADDING <= dialog_cols(
            max_cols,
            LIKED_DIALOG_COLS as nat,
            MIN_DIALOG_COLS as nat,
        ),
        button_cols(labels()) + 3 * PADDING < 100,
{
    labels_are_short();
}

/// Going right and left leads back, in either order, and four steps lead round.
pub proof fn focus_goes_round(button: ButtonIndex)
    ensures
        ((button.place() + 1) % 4 + 3) % 4 == button.place(),
        ((button.place() + 3) % 4 + 1) % 4 == button.place(),
        forall|other: ButtonIndex|
            #[trigger] other.place() == button.place() ==> other == button,
{
}

/// Every button does what its label says.
pub proof fn buttons_do_what_they_say(button: ButtonIndex)
    ensures
        match button.action() {
            ClipboardDialogAction::DenyOnce => labels()[button.place()] == "Deny once"@,
            ClipboardDialogAction::AlwaysDeny => labels()[button.place()] == "Always deny"@,
            ClipboardDialogAction::AllowOnce => labels()[button.place()] == "Allow once"@,
            ClipboardDialogAction::AlwaysAllow => labels()[button.place()] == "Always allow"@,
        },
        0 <= button.place() < 4,
        labels().len() == 4,
{
}

/// The buttons that allow warn, and those that deny do not.
pub proof fn allowing_warns(dialog: ClipboardDialog, button: ButtonIndex)
    ensures
        button.place() >= dialog.says().first_danger <==> button.action()
            == ClipboardDialogAction::AllowOnce || button.action()
            == ClipboardDialogAction::AlwaysAllow,
        dialog.says().focused == dialog.focused.place(),
        dialog.says().labels == labels(),
{
}

/// A click on the first button denies once, on the second always denies, on the third
/// allows once and on the fourth always allows. A click beside them does nothing.
pub proof fn clicks_do_what_the_button_says(
    dialog: &ClipboardDialog,
    hits: &[bool],
    r: Option<ClipboardDialogAction>,
)
    requires
        call_ensures(ClipboardDialog::click, (dialog, hits), r),
    ensures
        first_hit(hits@) is None ==> r is None,
        first_hit(hits@) matches Some(i) ==> {
            &&& i == 0 ==> r == Some(ClipboardDialogAction::DenyOnce)
            &&& i == 1 ==> r == Some(ClipboardDialogAction::AlwaysDeny)
            &&& i == 2 ==> r == Some(ClipboardDialogAction::AllowOnce)
            &&& i == 3 ==> r == Some(ClipboardDialogAction::AlwaysAllow)
            &&& i > 3 ==> r is None
        },
{
}

/// Going back undoes going on, and four steps lead round.
pub proof fn steps_lead_round(a: ButtonIndex, b: ButtonIndex, c: ButtonIndex)
    requires
        call_ensures(ButtonIndex::next, (a,), b),
        call_ensures(ButtonIndex::prev, (b,), c),
    ensures
        c == a,
        a == ButtonIndex::DenyOnce ==> b == ButtonIndex::AlwaysDeny,
        a == ButtonIndex::AlwaysDeny ==> b == ButtonIndex::AllowOnce,
        a == ButtonIndex::AllowOnce ==> b == ButtonIndex::AlwaysAllow,
        a == ButtonIndex::AlwaysAllow ==> b == ButtonIndex::DenyOnce,
{
}

} // verus!
