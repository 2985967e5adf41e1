//! The modal dialogs: what each one says, which buttons it has, and what each
//! button stands for.
//!
//! A dialog opens with its safe button focused, and going away from it is always
//! the safe choice, so that an unexpected prompt never does anything risky.

use vstd::prelude::*;

use crate::protocol::{ClipboardDecision, ClipboardOp, ClipboardSelection, PromptId};
use crate::text::{
    chars_of, decimal, is_control, is_control_char, push_all, push_decimal, push_text, split,
    split_on, string_of, strings, texts, to_vec,
};

verus! {

// ---- Previews ----

/// The most lines that a preview shows.
pub const MAX_PREVIEW_LINES: usize = 8;

/// The most columns that a line of a preview has.
pub const MAX_PREVIEW_COLS: usize = 56;

/// A digit of the hexadecimal notation, in upper case.
pub open spec fn hex_digit(d: nat) -> char {
    if d < 10 {
        ('0' as nat + d) as char
    } else {
        ('A' as nat + d - 10) as char
    }
}

/// A number in hexadecimal notation.
pub open spec fn hex(n: nat) -> Seq<char>
    decreases n,
{
    if n < 16 {
        seq![hex_digit(n)]
    } else {
        hex(n / 16).push(hex_digit(n % 16))
    }
}

/// A number in hexadecimal notation with at least two digits.
pub open spec fn hex_two(n: nat) -> Seq<char> {
    if n < 16 {
        seq!['0'] + hex(n)
    } else {
        hex(n)
    }
}

fn hex_digit_char(d: u32) -> (r: char)
    requires
        d < 16,
    ensures
        r == hex_digit(d as nat),
{
    let b: u8 = if d < 10 {
        0x30 + d as u8
    } else {
        0x41 + (d - 10) as u8
    };
    b as char
}

fn push_hex(out: &mut Vec<char>, n: u32)
    ensures
        final(out)@ == old(out)@ + hex(n as nat),
    decreases n,
{
    if n >= 16 {
        push_hex(out, n / 16);
    }
    out.push(hex_digit_char(n % 16));
    proof {
        assert(out@ =~= old(out)@ + hex(n as nat));
    }
}

/// How a control character is shown: a caret and a letter or sign, or its number
/// in braces.
pub open spec fn caret(c: char) -> Seq<char> {
    if c as u32 == 0x7f {
        seq!['^', '?']
    } else if (c as u32) < 0x20 {
        seq!['^', (c as u32 + 0x40) as char]
    } else {
        seq!['\\', 'u', '{'] + hex_two(c as nat) + seq!['}']
    }
}

/// Shows a control character.
fn caret_escape(out: &mut Vec<char>, c: char)
    ensures
        final(out)@ == old(out)@ + caret(c),
{
    let code: u32 = c as u32;
    if code == 0x7f {
        out.push('^');
        out.push('?');
    } else if code < 0x20 {
        let sign: u8 = code as u8 + 0x40;
        out.push('^');
        out.push(sign as char);
    } else {
        out.push('\\');
        out.push('u');
        out.push('{');
        if code < 16 {
            out.push('0');
        }
        push_hex(out, code);
        out.push('}');
    }
    proof {
        assert(out@ =~= old(out)@ + caret(c));
    }
}

/// How a character is shown: a tab as two spaces, a control character by its
/// caret notation, and any other as it is.
pub open spec fn shown_char(c: char) -> Seq<char> {
    if c == '\t' {
        seq![' ', ' ']
    } else if is_control(c) {
        caret(c)
    } else {
        seq![c]
    }
}

/// How a line is shown.
pub open spec fn shown_line(line: Seq<char>) -> Seq<char>
    decreases line.len(),
{
    if line.len() == 0 {
        Seq::empty()
    } else {
        shown_line(line.drop_last()) + shown_char(line.last())
    }
}

/// Shows a line.
fn escape_line(line: &Vec<char>) -> (r: Vec<char>)
    ensures
        r@ == shown_line(line@),
{
    let mut out: Vec<char> = Vec::new();
    let mut i: usize = 0;
    proof {
        assert(line@.take(0) =~= Seq::<char>::empty());
    }
    while i < line.len()
        invariant
            i <= line@.len(),
            out@ == shown_line(line@.take(i as int)),
        decreases line@.len() - i,
    {
        let ghost before = out@;
        let c = line[i];
        if c == '\t' {
            out.push(' ');
            out.push(' ');
        } else if is_control_char(c) {
            caret_escape(&mut out, c);
        } else {
            out.push(c);
        }
        i += 1;
        proof {
            assert(line@.take(i as int).drop_last() =~= line@.take(i - 1));
            assert(out@ =~= before + shown_char(c));
        }
    }
    proof {
        assert(line@.take(line@.len() as int) =~= line@);
    }
    out
}

/// A text that fits into so many columns: its beginning and its end with three
/// dots between them, where it is too long.
pub open spec fn fitted(text: Seq<char>, max_cols: nat) -> Seq<char> {
    if text.len() <= max_cols {
        text
    } else if max_cols <= 3 {
        text.take(max_cols as int)
    } else {
        let budget = max_cols - 3;
        let head = (budget + 1) / 2;
        let tail = budget - head;
        text.take(head) + seq!['.', '.', '.'] + text.skip(text.len() - tail)
    }
}

fn fit(text: &Vec<char>, max_cols: usize) -> (r: Vec<char>)
    ensures
        r@ == fitted(text@, max_cols as nat),
{
    let n: usize = text.len();
    if n <= max_cols {
        return to_vec(text.as_slice());
    }
    if max_cols <= 3 {
        let part = vstd::slice::slice_subrange(text.as_slice(), 0, max_cols);
        proof {
            assert(part@ =~= text@.take(max_cols as int));
        }
        return to_vec(part);
    }
    let budget: usize = max_cols - 3;
    let head: usize = budget / 2 + budget % 2;
    let tail: usize = budget - head;
    let mut out = to_vec(vstd::slice::slice_subrange(text.as_slice(), 0, head));
    out.push('.');
    out.push('.');
    out.push('.');
    push_all(&mut out, vstd::slice::slice_subrange(text.as_slice(), n - tail, n));
    proof {
        assert(out@ =~= fitted(text@, max_cols as nat));
    }
    out
}

/// A text that fits into so many columns. Both its ends stay visible.
pub fn truncate_for_display(text: &str, max_cols: usize) -> (r: String)
    ensures
        r@ == fitted(text@, max_cols as nat),
{
    let chars = chars_of(text);
    string_of(fit(&chars, max_cols).as_slice())
}

/// The last line of a preview that leaves out so many lines.
pub open spec fn more_lines(more: nat) -> Seq<char> {
    "… (+"@ + decimal(more) + " more "@ + (if more == 1 {
        "line"@
    } else {
        "lines"@
    }) + ")"@
}

/// The preview of a text: its first lines as they are shown, fitted to the width,
/// and how many more there are.
pub open spec fn preview(content: Seq<char>) -> Seq<Seq<char>> {
    let all = split(content, '\n');
    if all.len() <= MAX_PREVIEW_LINES {
        Seq::new(all.len(), |i: int| fitted(shown_line(all[i]), MAX_PREVIEW_COLS as nat))
    } else {
        Seq::new(
            MAX_PREVIEW_LINES as nat,
            |i: int| fitted(shown_line(all[i]), MAX_PREVIEW_COLS as nat),
        ).push(more_lines((all.len() - MAX_PREVIEW_LINES) as nat))
    }
}

/// The preview of a text. No control character is in it.
pub fn caret_preview(content: &str) -> (r: Vec<String>)
    ensures
        strings(r@) == preview(content@),
{
    let chars = chars_of(content);
    let parts = split_on(chars.as_slice(), '\n');
    let ghost all = split(content@, '\n');
    let total: usize = parts.len();
    let shown: usize = if total <= MAX_PREVIEW_LINES {
        total
    } else {
        MAX_PREVIEW_LINES
    };
    let mut out: Vec<String> = Vec::new();
    let ghost line = |k: int| fitted(shown_line(all[k]), MAX_PREVIEW_COLS as nat);
    let mut i: usize = 0;
    proof {
        assert(texts(parts@).len() == parts@.len());
    }
    while i < shown
        invariant
            i <= shown <= parts@.len(),
            all == texts(parts@),
            line == (|k: int| fitted(shown_line(all[k]), MAX_PREVIEW_COLS as nat)),
            strings(out@) == Seq::new(i as nat, line),
        decreases shown - i,
    {
        let ghost before = strings(out@);
        let escaped = escape_line(&parts[i]);
        out.push(string_of(fit(&escaped, MAX_PREVIEW_COLS).as_slice()));
        i += 1;
        proof {
            assert(all[i - 1] == parts@[i - 1]@);
            assert(strings(out@) =~= before.push(line(i - 1)));
            assert(strings(out@) =~= Seq::new(i as nat, line));
        }
    }
    if total > shown {
        let ghost before = strings(out@);
        let more: usize = total - shown;
        let mut trailer = String::new();
        push_text(&mut trailer, "… (+");
        push_decimal(&mut trailer, more as u64);
        push_text(&mut trailer, " more ");
        if more == 1 {
            push_text(&mut trailer, "line");
        } else {
            push_text(&mut trailer, "lines");
        }
        push_text(&mut trailer, ")");
        proof {
            assert(trailer@ =~= more_lines(more as nat));
        }
        out.push(trailer);
        proof {
            assert(strings(out@) =~= before.push(more_lines(more as nat)));
        }
    }
    proof {
        assert(strings(out@) =~= preview(content@));
    }
    out
}

// ---- What a preview never does ----

/// No character is a control character.
pub open spec fn harmless(s: Seq<char>) -> bool {
    forall|i: int| 0 <= i < s.len() ==> !is_control(#[trigger] s[i])
}

proof fn hex_harmless(n: nat)
    ensures
        harmless(hex(n)),
        harmless(hex_two(n)),
    decreases n,
{
    if n >= 16 {
        hex_harmless(n / 16);
    }
}

proof fn shown_char_harmless(c: char)
    ensures
        harmless(shown_char(c)),
{
    hex_harmless(c as nat);
}

proof fn shown_line_harmless(line: Seq<char>)
    ensures
        harmless(shown_line(line)),
    decreases line.len(),
{
    if line.len() > 0 {
        shown_line_harmless(line.drop_last());
        shown_char_harmless(line.last());
    }
}

proof fn fitted_harmless(text: Seq<char>, max_cols: nat)
    requires
        harmless(text),
    ensures
        harmless(fitted(text, max_cols)),
{
    let out = fitted(text, max_cols);
    assert forall|i: int| 0 <= i < out.len() implies !is_control(#[trigger] out[i]) by {
        if text.len() > max_cols && max_cols > 3 {
            let head = (max_cols - 3 + 1) / 2;
            let tail = max_cols - 3 - head;
            if i < head {
                assert(out[i] == text[i]);
            } else if i >= head + 3 {
                assert(out[i] == text[text.len() - tail + i - head - 3]);
            }
        } else {
            assert(out[i] == text[i]);
        }
    }
}

proof fn decimal_harmless(n: nat)
    ensures
        harmless(decimal(n)),
    decreases n,
{
    if n >= 10 {
        decimal_harmless(n / 10);
    }
}

/// However hostile the text, no control character reaches the screen through its
/// preview.
pub proof fn previews_are_harmless(content: Seq<char>)
    ensures
        forall|i: int| 0 <= i < preview(content).len() ==> harmless(#[trigger] preview(content)[i]),
{
    let all = split(content, '\n');
    assert forall|i: int| 0 <= i < preview(content).len() implies harmless(
        #[trigger] preview(content)[i],
    ) by {
        if i < MAX_PREVIEW_LINES && i < all.len() {
            shown_line_harmless(all[i]);
            fitted_harmless(shown_line(all[i]), MAX_PREVIEW_COLS as nat);
        } else {
            reveal_strlit("… (+");
            reveal_strlit(" more ");
            reveal_strlit("line");
            reveal_strlit("lines");
            reveal_strlit(")");
            decimal_harmless((all.len() - MAX_PREVIEW_LINES) as nat);
        }
    }
}

/// A text that is fitted is no wider than it may be, and one that is wide enough
/// begins and ends as the whole text does.
pub proof fn fitted_text_keeps_both_ends(text: Seq<char>, max_cols: nat)
    ensures
        fitted(text, max_cols).len() <= max_cols || fitted(text, max_cols) == text,
        fitted(text, max_cols).len() <= text.len(),
        text.len() > 0 && max_cols >= 5 ==> fitted(text, max_cols)[0] == text[0] && fitted(
            text,
            max_cols,
        ).last() == text.last(),
{
}

/// A preview has a bounded size.
pub proof fn previews_are_bounded(content: Seq<char>)
    ensures
        preview(content).len() <= MAX_PREVIEW_LINES + 1,
        forall|i: int|
            0 <= i < preview(content).len() && i < MAX_PREVIEW_LINES ==> (
            #[trigger] preview(content)[i]).len() <= MAX_PREVIEW_COLS,
{
}

// ---- What a dialog shows ----

/// How much a button stands out.
#[derive(Debug, Clone, Copy, PartialEq, Eq, Structural)]
pub enum ButtonTone {
    Normal,
    Accent,
    Danger,
}

/// A button.
#[derive(Debug, PartialEq, Eq)]
pub struct DialogButton {
    pub label: String,
    pub tone: ButtonTone,
}

/// Everything that a dialog shows.
#[derive(Debug, PartialEq, Eq)]
pub struct DialogSpec {
    pub title: String,
    /// An empty line is a gap.
    pub body: Vec<String>,
    pub buttons: Vec<DialogButton>,
    /// The place of the focused button.
    pub focused: usize,
}

/// What a [`DialogSpec`] amounts to.
#[verifier::ext_equal]
pub struct SpecModel {
    pub title: Seq<char>,
    pub body: Seq<Seq<char>>,
    pub buttons: Seq<(Seq<char>, ButtonTone)>,
    pub focused: int,
}

/// What buttons amount to.
pub open spec fn button_models(buttons: Seq<DialogButton>) -> Seq<(Seq<char>, ButtonTone)> {
    Seq::new(buttons.len(), |i: int| (buttons[i].label@, buttons[i].tone))
}

impl View for DialogSpec {
    type V = SpecModel;

    open spec fn view(&self) -> SpecModel {
        SpecModel {
            title: self.title@,
            body: strings(self.body@),
            buttons: button_models(self.buttons@),
            focused: self.focused as int,
        }
    }
}

impl DialogButton {
    fn new(label: &str, tone: ButtonTone) -> (r: Self)
        ensures
            r.label@ == label@,
            r.tone == tone,
    {
        DialogButton { label: label.to_owned(), tone }
    }
}

/// Adds a line to a body.
pub(crate) fn add_line(body: &mut Vec<String>, line: &str)
    ensures
        strings(final(body)@) == strings(old(body)@).push(line@),
{
    body.push(line.to_owned());
    proof {
        assert(strings(body@) =~= strings(old(body)@).push(line@));
    }
}

fn add_button(buttons: &mut Vec<DialogButton>, label: &str, tone: ButtonTone)
    ensures
        button_models(final(buttons)@) == button_models(old(buttons)@).push((label@, tone)),
{
    buttons.push(DialogButton::new(label, tone));
    proof {
        assert(button_models(buttons@) =~= button_models(old(buttons)@).push((label@, tone)));
    }
}

// ---- Closing ----

/// What a user may answer when a window is about to close.
#[derive(Debug, Clone, Copy, PartialEq, Eq, Structural)]
pub enum CloseAction {
    /// Quit the client; sessions live on.
    QuitAll,
    /// Close this window and end its sessions.
    CloseWindow,
    /// Do nothing.
    Cancel,
}

/// The dialog that confirms closing.
#[derive(Debug)]
pub struct CloseDialog {
    pub session_count: usize,
    pub focused: usize,
}

impl CloseDialog {
    /// The dialog for a window with so many sessions. Cancel is focused.
    pub fn new(session_count: usize) -> (r: Self)
        ensures
            r.session_count == session_count,
            r.focused == 2,
    {
        CloseDialog { session_count, focused: 2 }
    }

    /// What the dialog shows.
    pub open spec fn shows(&self) -> SpecModel {
        SpecModel {
            title: "Close Scribe"@,
            body: seq![
                "Quit Scribe"@,
                "  Close all windows. Sessions are"@,
                "  preserved and can be reattached."@,
                ""@,
                "Kill Window"@,
                "  Close this window only. Its"@,
                "  sessions will be terminated."@,
            ] + (if self.session_count > 0 {
                seq![
                    ""@,
                    "  "@ + decimal(self.session_count as nat)
                        + " active session(s) will be lost."@,
                ]
            } else {
                Seq::empty()
            }),
            buttons: seq![
                ("Quit Scribe"@, ButtonTone::Accent),
                ("Kill Window"@, ButtonTone::Danger),
                ("Cancel"@, ButtonTone::Normal),
            ],
            focused: self.focused as int,
        }
    }

    fn spec(&self) -> (r: DialogSpec)
        ensures
            r@ == self.shows(),
    {
        let mut body: Vec<String> = Vec::new();
        add_line(&mut body, "Quit Scribe");
        add_line(&mut body, "  Close all windows. Sessions are");
        add_line(&mut body, "  preserved and can be reattached.");
        add_line(&mut body, "");
        add_line(&mut body, "Kill Window");
        add_line(&mut body, "  Close this window only. Its");
        add_line(&mut body, "  sessions will be terminated.");
        if self.session_count > 0 {
            let mut line = String::new();
            push_text(&mut line, "  ");
            push_decimal(&mut line, self.session_count as u64);
            push_text(&mut line, " active session(s) will be lost.");
            proof {
                assert(line@ =~= "  "@ + decimal(self.session_count as nat)
                    + " active session(s) will be lost."@);
            }
            add_line(&mut body, "");
            add_line(&mut body, line.as_str());
        }
        let mut buttons: Vec<DialogButton> = Vec::new();
        add_button(&mut buttons, "Quit Scribe", ButtonTone::Accent);
        add_button(&mut buttons, "Kill Window", ButtonTone::Danger);
        add_button(&mut buttons, "Cancel", ButtonTone::Normal);
        let r = DialogSpec {
            title: "Close Scribe".to_owned(),
            body,
            buttons,
            focused: self.focused,
        };
        proof {
            assert(strings(r.body@) =~= self.shows().body);
            assert(button_models(r.buttons@) =~= self.shows().buttons);
        }
        r
    }
}

// ---- Updating ----

/// Which update a dialog confirms.
#[derive(Debug, Clone, Copy, PartialEq, Eq, Structural)]
pub enum UpdateDialogKind {
    /// An update is there to be installed; sessions live on.
    InstallAvailable,
    /// An update is installed and needs a restart; sessions end.
    RestartRequired,
}

/// What a user may answer to an update.
#[derive(Debug, Clone, Copy, PartialEq, Eq, Structural)]
pub enum UpdateAction {
    /// Go ahead.
    Primary,
    /// Not now.
    Secondary,
}

/// The dialog that confirms an update.
#[derive(Debug)]
pub struct UpdateDialog {
    pub kind: UpdateDialogKind,
    pub version: String,
    pub focused: usize,
}

impl UpdateDialog {
    /// The dialog that offers to install a version. Later is focused.
    pub fn new_install(version: String) -> (r: Self)
        ensures
            r.kind == UpdateDialogKind::InstallAvailable,
            r.version == version,
            r.focused == 1,
    {
        UpdateDialog { kind: UpdateDialogKind::InstallAvailable, version, focused: 1 }
    }

    /// The dialog that offers to restart into a version. Cancel is focused.
    pub fn new_restart_required(version: String) -> (r: Self)
        ensures
            r.kind == UpdateDialogKind::RestartRequired,
            r.version == version,
            r.focused == 1,
    {
        UpdateDialog { kind: UpdateDialogKind::RestartRequired, version, focused: 1 }
    }

    /// Which update the dialog confirms.
    pub fn kind(&self) -> (r: UpdateDialogKind)
        ensures
            r == self.kind,
    {
        self.kind
    }

    /// What the dialog shows.
    pub open spec fn shows(&self) -> SpecModel {
        match self.kind {
            UpdateDialogKind::InstallAvailable => SpecModel {
                title: "Update Available"@,
                body: seq![
                    "Version "@ + self.version@ + " is ready to install."@,
                    ""@,
                    "Your terminal sessions will be preserved"@,
                    "during the update via live reload."@,
                ],
                buttons: seq![
                    ("Update Now"@, ButtonTone::Accent),
                    ("Later"@, ButtonTone::Normal),
                ],
                focused: self.focused as int,
            },
            UpdateDialogKind::RestartRequired => SpecModel {
                title: "Restart Required"@,
                body: seq![
                    "Version "@ + self.version@ + " has been installed."@,
                    ""@,
                    "Applying it now requires a cold restart,"@,
                    "which will close all open terminal sessions."@,
                ],
                buttons: seq![
                    ("Continue"@, ButtonTone::Accent),
                    ("Cancel"@, ButtonTone::Normal),
                ],
                focused: self.focused as int,
            },
        }
    }

    fn spec(&self) -> (r: DialogSpec)
        ensures
            r@ == self.shows(),
    {
        let mut first = String::new();
        push_text(&mut first, "Version ");
        push_text(&mut first, self.version.as_str());
        let mut body: Vec<String> = Vec::new();
        let mut buttons: Vec<DialogButton> = Vec::new();
        let title = match self.kind {
            UpdateDialogKind::InstallAvailable => {
                push_text(&mut first, " is ready to install.");
                proof {
                    assert(first@ =~= "Version "@ + self.version@ + " is ready to install."@);
                }
                add_line(&mut body, first.as_str());
                add_line(&mut body, "");
                add_line(&mut body, "Your terminal sessions will be preserved");
                add_line(&mut body, "during the update via live reload.");
                add_button(&mut buttons, "Update Now", ButtonTone::Accent);
                add_button(&mut buttons, "Later", ButtonTone::Normal);
                "Update Available"
            },
            UpdateDialogKind::RestartRequired => {
                push_text(&mut first, " has been installed.");
                proof {
                    assert(first@ =~= "Version "@ + self.version@ + " has been installed."@);
                }
                add_line(&mut body, first.as_str());
                add_line(&mut body, "");
                add_line(&mut body, "Applying it now requires a cold restart,");
                add_line(&mut body, "which will close all open terminal sessions.");
                add_button(&mut buttons, "Continue", ButtonTone::Accent);
                add_button(&mut buttons, "Cancel", ButtonTone::Normal);
                "Restart Required"
            },
        };
        let r = DialogSpec { title: title.to_owned(), body, buttons, focused: self.focused };
        proof {
            assert(strings(r.body@) =~= self.shows().body);
            assert(button_models(r.buttons@) =~= self.shows().buttons);
        }
        r
    }
}

// ---- Pasting ----

/// What makes a paste risky.
#[derive(Debug, Clone, Copy, PartialEq, Eq, Structural)]
pub struct PasteRisk {
    pub has_line_break: bool,
    pub has_control: bool,
}

/// A paste that waits for the user's answer.
#[derive(Debug, PartialEq, Eq)]
pub struct ParkedPaste {
    pub text: String,
    pub risk: PasteRisk,
}

/// What a user may answer to a risky paste.
#[derive(Debug, Clone, Copy, PartialEq, Eq, Structural)]
pub enum PasteConfirmationAction {
    /// Deliver it.
    Paste,
    /// Drop it.
    Cancel,
}

/// The dialog that confirms a risky paste.
#[derive(Debug)]
pub struct PasteConfirmationDialog {
    pub parked: ParkedPaste,
    pub focused: usize,
}

/// How many control characters a text has, but for tabs and line ends.
pub open spec fn control_count(text: Seq<char>) -> nat
    decreases text.len(),
{
    if text.len() == 0 {
        0
    } else {
        control_count(text.drop_last()) + (if is_control(text.last()) && text.last() != '\t'
            && text.last() != '\n' && text.last() != '\r' {
            1nat
        } else {
            0
        })
    }
}

/// Why a paste is risky, in words.
pub open spec fn reason(text: Seq<char>, risk: PasteRisk) -> Seq<char> {
    let line_count = split(text, '\n').len();
    let lines = decimal(line_count) + " "@ + (if line_count == 1 {
        "line"@
    } else {
        "lines"@
    });
    let controls = if risk.has_control {
        control_count(text)
    } else {
        0
    };
    if risk.has_line_break && risk.has_control {
        lines + " · "@ + decimal(controls) + " "@ + (if controls == 1 {
            "control character"@
        } else {
            "control characters"@
        })
    } else if risk.has_line_break {
        lines
    } else if risk.has_control {
        if controls == 1 {
            "contains a control character"@
        } else {
            "contains control characters"@
        }
    } else {
        "risky paste"@
    }
}

impl PasteConfirmationDialog {
    /// The dialog for a paste. Cancel is focused.
    pub fn new(parked: ParkedPaste) -> (r: Self)
        ensures
            r.parked == parked,
            r.focused == 0,
    {
        PasteConfirmationDialog { parked, focused: 0 }
    }

    /// The paste, as it was parked.
    pub fn into_parked_paste(self) -> (r: ParkedPaste)
        ensures
            r == self.parked,
    {
        self.parked
    }

    fn reason_line(&self) -> (r: String)
        ensures
            r@ == reason(self.parked.text@, self.parked.risk),
    {
        let chars = chars_of(self.parked.text.as_str());
        let risk = self.parked.risk;
        let parts = split_on(chars.as_slice(), '\n');
        let line_count: usize = parts.len();
        proof {
            assert(texts(parts@).len() == line_count);
        }
        let mut controls: usize = 0;
        if risk.has_control {
            let mut i: usize = 0;
            proof {
                assert(chars@.take(0) =~= Seq::<char>::empty());
            }
            while i < chars.len()
                invariant
                    i <= chars@.len(),
                    controls <= i,
                    controls == control_count(chars@.take(i as int)),
                decreases chars@.len() - i,
            {
                proof {
                    assert(chars@.take(i + 1).drop_last() =~= chars@.take(i as int));
                }
                let c = chars[i];
                if is_control_char(c) && c != '\t' && c != '\n' && c != '\r' {
                    controls += 1;
                }
                i += 1;
            }
            proof {
                assert(chars@.take(chars@.len() as int) =~= chars@);
            }
        }
        let mut line = String::new();
        if risk.has_line_break {
            push_decimal(&mut line, line_count as u64);
            push_text(&mut line, " ");
            if line_count == 1 {
                push_text(&mut line, "line");
            } else {
                push_text(&mut line, "lines");
            }
            if risk.has_control {
                push_text(&mut line, " · ");
                push_decimal(&mut line, controls as u64);
                push_text(&mut line, " ");
                if controls == 1 {
                    push_text(&mut line, "control character");
                } else {
                    push_text(&mut line, "control characters");
                }
            }
        } else if risk.has_control {
            if controls == 1 {
                push_text(&mut line, "contains a control character");
            } else {
                push_text(&mut line, "contains control characters");
            }
        } else {
            push_text(&mut line, "risky paste");
        }
        proof {
            assert(line@ =~= reason(self.parked.text@, self.parked.risk));
        }
        line
    }

    /// What the dialog shows.
    pub open spec fn shows(&self) -> SpecModel {
        SpecModel {
            title: "Confirm Paste"@,
            body: seq![reason(self.parked.text@, self.parked.risk), ""@] + preview(
                self.parked.text@,
            ),
            buttons: seq![("Cancel"@, ButtonTone::Normal), ("Paste"@, ButtonTone::Normal)],
            focused: self.focused as int,
        }
    }

    fn spec(&self) -> (r: DialogSpec)
        ensures
            r@ == self.shows(),
    {
        let mut body: Vec<String> = Vec::new();
        let reason_line = self.reason_line();
        add_line(&mut body, reason_line.as_str());
        add_line(&mut body, "");
        let ghost before = strings(body@);
        let mut lines = caret_preview(self.parked.text.as_str());
        let ghost shown = lines@;
        body.append(&mut lines);
        proof {
            assert(strings(body@) =~= before + strings(shown));
        }
        let mut buttons: Vec<DialogButton> = Vec::new();
        add_button(&mut buttons, "Cancel", ButtonTone::Normal);
        add_button(&mut buttons, "Paste", ButtonTone::Normal);
        let r = DialogSpec {
            title: "Confirm Paste".to_owned(),
            body,
            buttons,
            focused: self.focused,
        };
        proof {
            assert(strings(r.body@) =~= self.shows().body);
            assert(button_models(r.buttons@) =~= self.shows().buttons);
        }
        r
    }
}

// ---- The clipboard ----

/// What a user may answer to a clipboard request.
#[derive(Debug, Clone, Copy, PartialEq, Eq, Structural)]
pub enum ClipboardDialogAction {
    AllowOnce,
    DenyOnce,
    AlwaysAllow,
    AlwaysDeny,
}

impl ClipboardDialogAction {
    /// The decision that goes to the server.
    pub fn decision(self) -> (r: ClipboardDecision)
        ensures
            r == match self {
                ClipboardDialogAction::AllowOnce => ClipboardDecision::AllowOnce,
                ClipboardDialogAction::DenyOnce => ClipboardDecision::DenyOnce,
                ClipboardDialogAction::AlwaysAllow => ClipboardDecision::AlwaysAllow,
                ClipboardDialogAction::AlwaysDeny => ClipboardDecision::AlwaysDeny,
            },
    {
        match self {
            ClipboardDialogAction::AllowOnce => ClipboardDecision::AllowOnce,
            ClipboardDialogAction::DenyOnce => ClipboardDecision::DenyOnce,
            ClipboardDialogAction::AlwaysAllow => ClipboardDecision::AlwaysAllow,
            ClipboardDialogAction::AlwaysDeny => ClipboardDecision::AlwaysDeny,
        }
    }
}

/// The dialog that confirms access to the clipboard.
#[derive(Debug)]
pub struct ClipboardDialog {
    pub request_id: PromptId,
    pub op: ClipboardOp,
    pub selection: ClipboardSelection,
    pub preview: Option<String>,
    pub focused: usize,
}

/// The words for a clipboard.
pub open spec fn selection_words(selection: ClipboardSelection) -> Seq<char> {
    match selection {
        ClipboardSelection::Clipboard => "clipboard"@,
        ClipboardSelection::Primary => "primary selection"@,
    }
}

/// The title of a clipboard prompt.
pub open spec fn clipboard_heading(op: ClipboardOp) -> Seq<char> {
    match op {
        ClipboardOp::Read => "Allow clipboard read?"@,
        ClipboardOp::Write => "Allow clipboard write?"@,
    }
}

/// The body of a clipboard prompt: what is wanted, and what would be written where
/// that is known.
pub open spec fn clipboard_lines(
    op: ClipboardOp,
    selection: ClipboardSelection,
    preview: Option<String>,
) -> Seq<Seq<char>> {
    let verb = match op {
        ClipboardOp::Read => "A program in this terminal wants to read the "@,
        ClipboardOp::Write => "A program in this terminal wants to overwrite the "@,
    };
    seq![
        verb + selection_words(selection) + "."@,
        ""@,
        "Allow only if you recognise this action."@,
    ] + (match preview {
        Some(text) => seq![""@, "Payload preview:"@, fitted(text@, MAX_PREVIEW_COLS as nat)],
        None => Seq::empty(),
    })
}

/// The title of a clipboard prompt.
pub(crate) fn clipboard_title(op: ClipboardOp) -> (r: &'static str)
    ensures
        r@ == clipboard_heading(op),
{
    match op {
        ClipboardOp::Read => "Allow clipboard read?",
        ClipboardOp::Write => "Allow clipboard write?",
    }
}

/// The body of a clipboard prompt.
pub(crate) fn clipboard_body(
    op: ClipboardOp,
    selection: ClipboardSelection,
    preview: &Option<String>,
) -> (r: Vec<String>)
    ensures
        strings(r@) == clipboard_lines(op, selection, *preview),
{
    let words = match selection {
        ClipboardSelection::Clipboard => "clipboard",
        ClipboardSelection::Primary => "primary selection",
    };
    let verb = match op {
        ClipboardOp::Read => "A program in this terminal wants to read the ",
        ClipboardOp::Write => "A program in this terminal wants to overwrite the ",
    };
    let mut intro = verb.to_owned();
    push_text(&mut intro, words);
    push_text(&mut intro, ".");
    let mut body: Vec<String> = Vec::new();
    add_line(&mut body, intro.as_str());
    add_line(&mut body, "");
    add_line(&mut body, "Allow only if you recognise this action.");
    if let Some(text) = preview {
        let line = truncate_for_display(text.as_str(), MAX_PREVIEW_COLS);
        add_line(&mut body, "");
        add_line(&mut body, "Payload preview:");
        add_line(&mut body, line.as_str());
    }
    proof {
        assert(strings(body@) =~= clipboard_lines(op, selection, *preview));
    }
    body
}

impl ClipboardDialog {
    /// The dialog for a request. Deny once is focused.
    pub fn new(
        request_id: PromptId,
        op: ClipboardOp,
        selection: ClipboardSelection,
        preview: Option<String>,
    ) -> (r: Self)
        ensures
            r == (ClipboardDialog { request_id, op, selection, preview, focused: 0 }),
    {
        ClipboardDialog { request_id, op, selection, preview, focused: 0 }
    }

    /// The request that the answer belongs to.
    pub fn request_id(&self) -> (r: PromptId)
        ensures
            r == self.request_id,
    {
        self.request_id
    }

    /// Whether the request reads or writes.
    pub fn op(&self) -> (r: ClipboardOp)
        ensures
            r == self.op,
    {
        self.op
    }

    /// What the dialog shows.
    pub open spec fn shows(&self) -> SpecModel {
        SpecModel {
            title: clipboard_heading(self.op),
            body: clipboard_lines(self.op, self.selection, self.preview),
            buttons: seq![
                ("Deny once"@, ButtonTone::Normal),
                ("Always deny"@, ButtonTone::Normal),
                ("Allow once"@, ButtonTone::Danger),
                ("Always allow"@, ButtonTone::Danger),
            ],
            focused: self.focused as int,
        }
    }

    fn spec(&self) -> (r: DialogSpec)
        ensures
            r@ == self.shows(),
    {
        let title = clipboard_title(self.op);
        let body = clipboard_body(self.op, self.selection, &self.preview);
        let mut buttons: Vec<DialogButton> = Vec::new();
        add_button(&mut buttons, "Deny once", ButtonTone::Normal);
        add_button(&mut buttons, "Always deny", ButtonTone::Normal);
        add_button(&mut buttons, "Allow once", ButtonTone::Danger);
        add_button(&mut buttons, "Always allow", ButtonTone::Danger);
        let r = DialogSpec { title: title.to_owned(), body, buttons, focused: self.focused };
        proof {
            assert(strings(r.body@) =~= self.shows().body);
            assert(button_models(r.buttons@) =~= self.shows().buttons);
        }
        r
    }
}

// ---- Links ----

/// What a user may answer to a link with an unusual scheme.
#[derive(Debug, Clone, Copy, PartialEq, Eq, Structural)]
pub enum DisallowedSchemeAction {
    OpenAnyway,
    Cancel,
}

/// The dialog that confirms opening a link with an unusual scheme.
#[derive(Debug)]
pub struct DisallowedSchemeDialog {
    pub pending_uri: String,
    pub scheme: String,
    pub focused: usize,
}

/// The body of a prompt for a link.
pub open spec fn scheme_lines(uri: Seq<char>, scheme: Seq<char>) -> Seq<Seq<char>> {
    seq![
        "Scheme `"@ + scheme + ":` is normally blocked."@,
        ""@,
        "Open the following URI anyway?"@,
        ""@,
        fitted(uri, MAX_PREVIEW_COLS as nat),
    ]
}

/// The body of a prompt for a link.
pub(crate) fn scheme_body(uri: &str, scheme: &str) -> (r: Vec<String>)
    ensures
        strings(r@) == scheme_lines(uri@, scheme@),
{
    let mut first = String::new();
    push_text(&mut first, "Scheme `");
    push_text(&mut first, scheme);
    push_text(&mut first, ":` is normally blocked.");
    proof {
        assert(first@ =~= "Scheme `"@ + scheme@ + ":` is normally blocked."@);
    }
    let shown = truncate_for_display(uri, MAX_PREVIEW_COLS);
    let mut body: Vec<String> = Vec::new();
    add_line(&mut body, first.as_str());
    add_line(&mut body, "");
    add_line(&mut body, "Open the following URI anyway?");
    add_line(&mut body, "");
    add_line(&mut body, shown.as_str());
    proof {
        assert(strings(body@) =~= scheme_lines(uri@, scheme@));
    }
    body
}

impl DisallowedSchemeDialog {
    /// The dialog for a link. Cancel is focused.
    pub fn new(uri: String, scheme: String) -> (r: Self)
        ensures
            r.pending_uri == uri,
            r.scheme == scheme,
            r.focused == 0,
    {
        DisallowedSchemeDialog { pending_uri: uri, scheme, focused: 0 }
    }

    /// The link, as it was given.
    pub fn into_pending_uri(self) -> (r: String)
        ensures
            r == self.pending_uri,
    {
        self.pending_uri
    }

    /// What the dialog shows.
    pub open spec fn shows(&self) -> SpecModel {
        SpecModel {
            title: "Unsafe URI Scheme"@,
            body: scheme_lines(self.pending_uri@, self.scheme@),
            buttons: seq![("Cancel"@, ButtonTone::Normal), ("Open Anyway"@, ButtonTone::Danger)],
            focused: self.focused as int,
        }
    }

    fn spec(&self) -> (r: DialogSpec)
        ensures
            r@ == self.shows(),
    {
        let body = scheme_body(self.pending_uri.as_str(), self.scheme.as_str());
        let mut buttons: Vec<DialogButton> = Vec::new();
        add_button(&mut buttons, "Cancel", ButtonTone::Normal);
        add_button(&mut buttons, "Open Anyway", ButtonTone::Danger);
        let r = DialogSpec {
            title: "Unsafe URI Scheme".to_owned(),
            body,
            buttons,
            focused: self.focused,
        };
        proof {
            assert(strings(r.body@) =~= self.shows().body);
            assert(button_models(r.buttons@) =~= self.shows().buttons);
        }
        r
    }
}

// ---- Devices on the local network ----

/// What a user may answer to a device that asks to be approved.
#[derive(Debug, Clone, Copy, PartialEq, Eq, Structural)]
pub enum LanApprovalAction {
    Approve,
    Decline,
}

/// The prompt for a device that asks to be approved.
#[derive(Debug)]
pub struct LanApprovalDialog {
    pub request_id: u64,
    pub device_name: String,
    pub fingerprint_words: String,
    pub network_label: String,
    pub name_collision: bool,
    pub focused: usize,
}

/// The wording of an approval prompt.
#[derive(Debug)]
pub struct LanApprovalCopy {
    pub title: String,
    pub body: Vec<String>,
    pub decline: String,
    pub approve: String,
}

impl LanApprovalDialog {
    /// The prompt for a request. Decline is focused.
    pub fn new(
        request_id: u64,
        device_name: String,
        fingerprint_words: String,
        network_label: String,
        name_collision: bool,
    ) -> (r: Self)
        ensures
            r == (LanApprovalDialog {
                request_id,
                device_name,
                fingerprint_words,
                network_label,
                name_collision,
                focused: 0,
            }),
    {
        LanApprovalDialog {
            request_id,
            device_name,
            fingerprint_words,
            network_label,
            name_collision,
            focused: 0,
        }
    }

    /// The request that the answer belongs to.
    pub fn request_id(&self) -> (r: u64)
        ensures
            r == self.request_id,
    {
        self.request_id
    }
}

fn lan_approval_spec(dialog: &LanApprovalDialog, copy: &LanApprovalCopy) -> (r: DialogSpec)
    ensures
        r@.title == copy.title@,
        r@.body == strings(copy.body@),
        r@.buttons == seq![
            (copy.decline@, ButtonTone::Normal),
            (copy.approve@, ButtonTone::Danger),
        ],
        r@.focused == dialog.focused,
{
    let mut body: Vec<String> = Vec::new();
    let mut i: usize = 0;
    proof {
        assert(strings(body@) =~= strings(copy.body@).take(0));
    }
    while i < copy.body.len()
        invariant
            i <= copy.body@.len(),
            strings(body@) == strings(copy.body@).take(i as int),
        decreases copy.body@.len() - i,
    {
        add_line(&mut body, copy.body[i].as_str());
        i += 1;
        proof {
            assert(strings(copy.body@).take(i as int) =~= strings(copy.body@).take(i - 1).push(
                strings(copy.body@)[i - 1],
            ));
        }
    }
    let mut buttons: Vec<DialogButton> = Vec::new();
    add_button(&mut buttons, copy.decline.as_str(), ButtonTone::Normal);
    add_button(&mut buttons, copy.approve.as_str(), ButtonTone::Danger);
    let r = DialogSpec { title: copy.title.clone(), body, buttons, focused: dialog.focused };
    proof {
        assert(strings(r.body@) =~= strings(copy.body@));
        assert(button_models(r.buttons@) =~= seq![
            (copy.decline@, ButtonTone::Normal),
            (copy.approve@, ButtonTone::Danger),
        ]);
    }
    r
}

// ---- Any dialog ----

/// The user's answer to a dialog.
#[derive(Debug, Clone, Copy, PartialEq, Eq, Structural)]
pub enum DialogOutcome {
    Close(CloseAction),
    Update(UpdateAction),
    Paste(PasteConfirmationAction),
    Clipboard(ClipboardDialogAction),
    DisallowedScheme(DisallowedSchemeAction),
    LanApproval(LanApprovalAction),
}

/// A dialog.
#[derive(Debug)]
pub enum AnyDialog {
    Close(CloseDialog),
    Update(UpdateDialog),
    Paste(PasteConfirmationDialog),
    Clipboard(ClipboardDialog),
    DisallowedScheme(DisallowedSchemeDialog),
    LanApproval(LanApprovalDialog, LanApprovalCopy),
}

impl AnyDialog {
    /// The place of the focused button.
    pub open spec fn focus(&self) -> int {
        match *self {
            AnyDialog::Close(d) => d.focused as int,
            AnyDialog::Update(d) => d.focused as int,
            AnyDialog::Paste(d) => d.focused as int,
            AnyDialog::Clipboard(d) => d.focused as int,
            AnyDialog::DisallowedScheme(d) => d.focused as int,
            AnyDialog::LanApproval(d, _) => d.focused as int,
        }
    }

    /// What each button stands for, from left to right.
    pub open spec fn outcomes(&self) -> Seq<DialogOutcome> {
        match *self {
            AnyDialog::Close(_) => seq![
                DialogOutcome::Close(CloseAction::QuitAll),
                DialogOutcome::Close(CloseAction::CloseWindow),
                DialogOutcome::Close(CloseAction::Cancel),
            ],
            AnyDialog::Update(_) => seq![
                DialogOutcome::Update(UpdateAction::Primary),
                DialogOutcome::Update(UpdateAction::Secondary),
            ],
            AnyDialog::Paste(_) => seq![
                DialogOutcome::Paste(PasteConfirmationAction::Cancel),
                DialogOutcome::Paste(PasteConfirmationAction::Paste),
            ],
            AnyDialog::Clipboard(_) => seq![
                DialogOutcome::Clipboard(ClipboardDialogAction::DenyOnce),
                DialogOutcome::Clipboard(ClipboardDialogAction::AlwaysDeny),
                DialogOutcome::Clipboard(ClipboardDialogAction::AllowOnce),
                DialogOutcome::Clipboard(ClipboardDialogAction::AlwaysAllow),
            ],
            AnyDialog::DisallowedScheme(_) => seq![
                DialogOutcome::DisallowedScheme(DisallowedSchemeAction::Cancel),
                DialogOutcome::DisallowedScheme(DisallowedSchemeAction::OpenAnyway),
            ],
            AnyDialog::LanApproval(_, _) => seq![
                DialogOutcome::LanApproval(LanApprovalAction::Decline),
                DialogOutcome::LanApproval(LanApprovalAction::Approve),
            ],
        }
    }

    /// The answer that does no harm.
    pub open spec fn safe_outcome(&self) -> DialogOutcome {
        match *self {
            AnyDialog::Close(_) => DialogOutcome::Close(CloseAction::Cancel),
            AnyDialog::Update(_) => DialogOutcome::Update(UpdateAction::Secondary),
            AnyDialog::Paste(_) => DialogOutcome::Paste(PasteConfirmationAction::Cancel),
            AnyDialog::Clipboard(_) => DialogOutcome::Clipboard(ClipboardDialogAction::DenyOnce),
            AnyDialog::DisallowedScheme(_) => {
                DialogOutcome::DisallowedScheme(DisallowedSchemeAction::Cancel)
            },
            AnyDialog::LanApproval(_, _) => DialogOutcome::LanApproval(LanApprovalAction::Decline),
        }
    }

    /// The focus is on a button.
    pub open spec fn wf(&self) -> bool {
        0 <= self.focus() < self.outcomes().len()
    }

    /// The dialog with another button focused.
    pub open spec fn with_focus(&self, idx: usize) -> AnyDialog {
        match *self {
            AnyDialog::Close(d) => AnyDialog::Close(CloseDialog { focused: idx, ..d }),
            AnyDialog::Update(d) => AnyDialog::Update(UpdateDialog { focused: idx, ..d }),
            AnyDialog::Paste(d) => {
                AnyDialog::Paste(PasteConfirmationDialog { focused: idx, ..d })
            },
            AnyDialog::Clipboard(d) => AnyDialog::Clipboard(ClipboardDialog { focused: idx, ..d }),
            AnyDialog::DisallowedScheme(d) => {
                AnyDialog::DisallowedScheme(DisallowedSchemeDialog { focused: idx, ..d })
            },
            AnyDialog::LanApproval(d, c) => {
                AnyDialog::LanApproval(LanApprovalDialog { focused: idx, ..d }, c)
            },
        }
    }

    /// What the dialog shows.
    pub open spec fn shows(&self) -> SpecModel {
        match *self {
            AnyDialog::Close(d) => d.shows(),
            AnyDialog::Update(d) => d.shows(),
            AnyDialog::Paste(d) => d.shows(),
            AnyDialog::Clipboard(d) => d.shows(),
            AnyDialog::DisallowedScheme(d) => d.shows(),
            AnyDialog::LanApproval(d, c) => SpecModel {
                title: c.title@,
                body: strings(c.body@),
                buttons: seq![(c.decline@, ButtonTone::Normal), (c.approve@, ButtonTone::Danger)],
                focused: d.focused as int,
            },
        }
    }

    /// What the dialog shows.
    pub fn spec(&self) -> (r: DialogSpec)
        ensures
            r@ == self.shows(),
    {
        match self {
            AnyDialog::Close(d) => d.spec(),
            AnyDialog::Update(d) => d.spec(),
            AnyDialog::Paste(d) => d.spec(),
            AnyDialog::Clipboard(d) => d.spec(),
            AnyDialog::DisallowedScheme(d) => d.spec(),
            AnyDialog::LanApproval(d, c) => lan_approval_spec(d, c),
        }
    }

    /// The place of the focused button.
    pub fn focused(&self) -> (r: usize)
        ensures
            r == self.focus(),
    {
        match self {
            AnyDialog::Close(d) => d.focused,
            AnyDialog::Update(d) => d.focused,
            AnyDialog::Paste(d) => d.focused,
            AnyDialog::Clipboard(d) => d.focused,
            AnyDialog::DisallowedScheme(d) => d.focused,
            AnyDialog::LanApproval(d, _) => d.focused,
        }
    }

    /// How many buttons there are.
    pub fn button_count(&self) -> (r: usize)
        ensures
            r == self.outcomes().len(),
    {
        match self {
            AnyDialog::Close(_) => 3,
            AnyDialog::Update(_) => 2,
            AnyDialog::Paste(_) => 2,
            AnyDialog::Clipboard(_) => 4,
            AnyDialog::DisallowedScheme(_) => 2,
            AnyDialog::LanApproval(_, _) => 2,
        }
    }

    fn set_focused(&mut self, idx: usize)
        ensures
            *final(self) == old(self).with_focus(idx),
    {
        match self {
            AnyDialog::Close(d) => {
                d.focused = idx;
            },
            AnyDialog::Update(d) => {
                d.focused = idx;
            },
            AnyDialog::Paste(d) => {
                d.focused = idx;
            },
            AnyDialog::Clipboard(d) => {
                d.focused = idx;
            },
            AnyDialog::DisallowedScheme(d) => {
                d.focused = idx;
            },
            AnyDialog::LanApproval(d, _) => {
                d.focused = idx;
            },
        }
    }

    /// The place of the next button, round the end.
    pub open spec fn next_focus(&self) -> int {
        if self.focus() + 1 == self.outcomes().len() {
            0
        } else {
            self.focus() + 1
        }
    }

    /// The place of the previous button, round the start.
    pub open spec fn prev_focus(&self) -> int {
        if self.focus() == 0 {
            self.outcomes().len() - 1
        } else {
            self.focus() - 1
        }
    }

    /// Focuses the next button, round the end.
    pub fn focus_next(&mut self)
        requires
            old(self).wf(),
        ensures
            final(self).wf(),
            *final(self) == old(self).with_focus(old(self).next_focus() as usize),
    {
        let count: usize = self.button_count();
        let focused: usize = self.focused();
        let next: usize = if focused + 1 == count {
            0
        } else {
            focused + 1
        };
        self.set_focused(next);
    }

    /// Focuses the previous button, round the start.
    pub fn focus_prev(&mut self)
        requires
            old(self).wf(),
        ensures
            final(self).wf(),
            *final(self) == old(self).with_focus(old(self).prev_focus() as usize),
    {
        let count: usize = self.button_count();
        let focused: usize = self.focused();
        let prev: usize = if focused == 0 {
            count - 1
        } else {
            focused - 1
        };
        self.set_focused(prev);
    }

    /// What the button at a place stands for, where there is one.
    pub fn action_at(&self, idx: usize) -> (r: Option<DialogOutcome>)
        ensures
            r == if idx < self.outcomes().len() {
                Some(self.outcomes()[idx as int])
            } else {
                None
            },
    {
        match self {
            AnyDialog::Close(_) => match idx {
                0 => Some(DialogOutcome::Close(CloseAction::QuitAll)),
                1 => Some(DialogOutcome::Close(CloseAction::CloseWindow)),
                2 => Some(DialogOutcome::Close(CloseAction::Cancel)),
                _ => None,
            },
            AnyDialog::Update(_) => match idx {
                0 => Some(DialogOutcome::Update(UpdateAction::Primary)),
                1 => Some(DialogOutcome::Update(UpdateAction::Secondary)),
                _ => None,
            },
            AnyDialog::Paste(_) => match idx {
                0 => Some(DialogOutcome::Paste(PasteConfirmationAction::Cancel)),
                1 => Some(DialogOutcome::Paste(PasteConfirmationAction::Paste)),
                _ => None,
            },
            AnyDialog::Clipboard(_) => match idx {
                0 => Some(DialogOutcome::Clipboard(ClipboardDialogAction::DenyOnce)),
                1 => Some(DialogOutcome::Clipboard(ClipboardDialogAction::AlwaysDeny)),
                2 => Some(DialogOutcome::Clipboard(ClipboardDialogAction::AllowOnce)),
                3 => Some(DialogOutcome::Clipboard(ClipboardDialogAction::AlwaysAllow)),
                _ => None,
            },
            AnyDialog::DisallowedScheme(_) => match idx {
                0 => Some(DialogOutcome::DisallowedScheme(DisallowedSchemeAction::Cancel)),
                1 => Some(DialogOutcome::DisallowedScheme(DisallowedSchemeAction::OpenAnyway)),
                _ => None,
            },
            AnyDialog::LanApproval(_, _) => match idx {
                0 => Some(DialogOutcome::LanApproval(LanApprovalAction::Decline)),
                1 => Some(DialogOutcome::LanApproval(LanApprovalAction::Approve)),
                _ => None,
            },
        }
    }

    /// What the focused button stands for, and the safe answer where no button is
    /// focused.
    pub fn confirm(&self) -> (r: DialogOutcome)
        ensures
            r == if self.wf() {
                self.outcomes()[self.focus()]
            } else {
                self.safe_outcome()
            },
    {
        match self.action_at(self.focused()) {
            Some(outcome) => outcome,
            None => self.cancel(),
        }
    }

    /// What going away from the dialog stands for: the safe answer.
    pub fn cancel(&self) -> (r: DialogOutcome)
        ensures
            r == self.safe_outcome(),
    {
        match self {
            AnyDialog::Close(_) => DialogOutcome::Close(CloseAction::Cancel),
            AnyDialog::Update(_) => DialogOutcome::Update(UpdateAction::Secondary),
            AnyDialog::Paste(_) => DialogOutcome::Paste(PasteConfirmationAction::Cancel),
            AnyDialog::Clipboard(_) => DialogOutcome::Clipboard(ClipboardDialogAction::DenyOnce),
            AnyDialog::DisallowedScheme(_) => {
                DialogOutcome::DisallowedScheme(DisallowedSchemeAction::Cancel)
            },
            AnyDialog::LanApproval(_, _) => DialogOutcome::LanApproval(LanApprovalAction::Decline),
        }
    }
}

/// Whether a dialog is as it opens: on its safe button.
pub open spec fn just_opened(dialog: AnyDialog) -> bool {
    match dialog {
        AnyDialog::Close(d) => d.focused == 2,
        AnyDialog::Update(d) => d.focused == 1,
        AnyDialog::Paste(d) => d.focused == 0,
        AnyDialog::Clipboard(d) => d.focused == 0,
        AnyDialog::DisallowedScheme(d) => d.focused == 0,
        AnyDialog::LanApproval(d, _) => d.focused == 0,
    }
}

/// Confirming a dialog that was just opened is the safe answer.
pub proof fn the_default_is_safe(dialog: AnyDialog)
    requires
        just_opened(dialog),
    ensures
        dialog.wf(),
        dialog.outcomes()[dialog.focus()] == dialog.safe_outcome(),
{
}

/// Going on and back leads to the same button, in either order, and the focus
/// always is on a button.
pub proof fn focus_goes_round(dialog: AnyDialog)
    requires
        dialog.wf(),
    ensures
        ({
            let on = dialog.with_focus(dialog.next_focus() as usize);
            let back = dialog.with_focus(dialog.prev_focus() as usize);
            &&& on.wf()
            &&& back.wf()
            &&& on.prev_focus() == dialog.focus()
            &&& back.next_focus() == dialog.focus()
            &&& on.outcomes() == dialog.outcomes()
            &&& back.outcomes() == dialog.outcomes()
        }),
{
}

/// A dialog has a button for each answer.
pub proof fn every_answer_has_a_button(dialog: AnyDialog)
    ensures
        dialog.shows().buttons.len() == dialog.outcomes().len(),
        dialog.shows().focused == dialog.focus(),
        dialog.outcomes().contains(dialog.safe_outcome()),
{
    match dialog {
        AnyDialog::Close(_) => {
            assert(dialog.outcomes()[2] == dialog.safe_outcome());
        },
        AnyDialog::Update(_) => {
            assert(dialog.outcomes()[1] == dialog.safe_outcome());
        },
        _ => {
            assert(dialog.outcomes()[0] == dialog.safe_outcome());
        },
    }
}

// ---- The dialog on the screen ----

/// The user answered.
#[derive(Debug, Clone, Copy, PartialEq, Eq, Structural)]
pub enum DialogEvent {
    Chosen(DialogOutcome),
}

/// A colour of the dialog, by its part.
#[derive(Debug, Clone, Copy, PartialEq, Eq, Structural)]
pub enum DialogColor {
    ButtonText,
    ButtonActiveText,
    DangerText,
    Button,
    ButtonActive,
    Accent,
    Danger,
}

/// The colours of a button's text and ground.
pub open spec fn colors_of(tone: ButtonTone, active: bool) -> (DialogColor, DialogColor) {
    if active {
        (
            DialogColor::ButtonActiveText,
            match tone {
                ButtonTone::Accent => DialogColor::Accent,
                ButtonTone::Danger => DialogColor::Danger,
                ButtonTone::Normal => DialogColor::ButtonActive,
            },
        )
    } else {
        (
            match tone {
                ButtonTone::Danger => DialogColor::DangerText,
                _ => DialogColor::ButtonText,
            },
            DialogColor::Button,
        )
    }
}

/// The colours of a button's text and ground.
pub fn button_colors(tone: ButtonTone, active: bool) -> (r: (DialogColor, DialogColor))
    ensures
        r == colors_of(tone, active),
{
    match (tone, active) {
        (ButtonTone::Accent, true) => (DialogColor::ButtonActiveText, DialogColor::Accent),
        (ButtonTone::Danger, true) => (DialogColor::ButtonActiveText, DialogColor::Danger),
        (ButtonTone::Normal, true) => (DialogColor::ButtonActiveText, DialogColor::ButtonActive),
        (ButtonTone::Danger, false) => (DialogColor::DangerText, DialogColor::Button),
        (ButtonTone::Accent, false) => (DialogColor::ButtonText, DialogColor::Button),
        (ButtonTone::Normal, false) => (DialogColor::ButtonText, DialogColor::Button),
    }
}

/// A dialog on the screen, and the button under the pointer.
#[derive(Debug)]
pub struct DialogView {
    pub dialog: AnyDialog,
    pub hovered: Option<usize>,
}

/// A button on the screen.
#[derive(Debug)]
pub struct ButtonScene {
    pub label: String,
    pub text: DialogColor,
    pub ground: DialogColor,
    /// Whether it has a border.
    pub focused: bool,
}

/// A dialog as it is drawn.
#[derive(Debug)]
pub struct DialogScene {
    pub title: String,
    /// The lines of the body; `None` is a gap.
    pub body: Vec<Option<String>>,
    pub buttons: Vec<ButtonScene>,
}

/// What a line of the body amounts to.
pub open spec fn line_view(line: Option<String>) -> Option<Seq<char>> {
    match line {
        Some(text) => Some(text@),
        None => None,
    }
}

impl DialogView {
    /// A dialog with nothing under the pointer.
    pub fn new(dialog: AnyDialog) -> (r: Self)
        ensures
            r.dialog == dialog,
            r.hovered is None,
    {
        DialogView { dialog, hovered: None }
    }

    /// Focuses the next button.
    pub fn focus_next(&mut self)
        requires
            old(self).dialog.wf(),
        ensures
            final(self).dialog.wf(),
            final(self).dialog == old(self).dialog.with_focus(
                old(self).dialog.next_focus() as usize,
            ),
            final(self).hovered == old(self).hovered,
    {
        self.dialog.focus_next();
    }

    /// Focuses the previous button.
    pub fn focus_prev(&mut self)
        requires
            old(self).dialog.wf(),
        ensures
            final(self).dialog.wf(),
            final(self).dialog == old(self).dialog.with_focus(
                old(self).dialog.prev_focus() as usize,
            ),
            final(self).hovered == old(self).hovered,
    {
        self.dialog.focus_prev();
    }

    /// The focused button is pressed.
    pub fn confirm(&self) -> (r: DialogEvent)
        ensures
            r == DialogEvent::Chosen(
                if self.dialog.wf() {
                    self.dialog.outcomes()[self.dialog.focus()]
                } else {
                    self.dialog.safe_outcome()
                },
            ),
    {
        DialogEvent::Chosen(self.dialog.confirm())
    }

    /// The user goes away from the dialog.
    pub fn dismiss(&self) -> (r: DialogEvent)
        ensures
            r == DialogEvent::Chosen(self.dialog.safe_outcome()),
    {
        DialogEvent::Chosen(self.dialog.cancel())
    }

    /// A button is clicked.
    pub fn activate(&self, idx: usize) -> (r: Option<DialogEvent>)
        ensures
            r == if idx < self.dialog.outcomes().len() {
                Some(DialogEvent::Chosen(self.dialog.outcomes()[idx as int]))
            } else {
                None
            },
    {
        match self.dialog.action_at(idx) {
            Some(outcome) => Some(DialogEvent::Chosen(outcome)),
            None => None,
        }
    }

    /// The pointer is over a button; says whether that is new.
    pub fn hover(&mut self, idx: usize) -> (changed: bool)
        ensures
            final(self).hovered == Some(idx),
            final(self).dialog == old(self).dialog,
            changed == (old(self).hovered != Some(idx)),
    {
        let changed = match self.hovered {
            Some(over) => over != idx,
            None => true,
        };
        self.hovered = Some(idx);
        changed
    }

    /// The dialog as it is drawn: an empty line of the body is a gap, and a button
    /// is active where it is focused or under the pointer.
    pub fn render(&self) -> (r: DialogScene)
        ensures
            r.title@ == self.dialog.shows().title,
            r.body@.len() == self.dialog.shows().body.len(),
            forall|i: int|
                0 <= i < r.body@.len() ==> line_view(#[trigger] r.body@[i]) == (
                if self.dialog.shows().body[i].len() == 0 {
                    None
                } else {
                    Some(self.dialog.shows().body[i])
                }),
            r.buttons@.len() == self.dialog.shows().buttons.len(),
            forall|i: int|
                #![trigger r.buttons@[i]]
                0 <= i < r.buttons@.len() ==> {
                    let button = self.dialog.shows().buttons[i];
                    let focused = i == self.dialog.focus();
                    &&& r.buttons@[i].label@ == button.0
                    &&& r.buttons@[i].focused == focused
                    &&& (r.buttons@[i].text, r.buttons@[i].ground) == colors_of(
                        button.1,
                        focused || self.hovered == Some(i as usize),
                    )
                },
    {
        let spec = self.dialog.spec();
        let ghost shows = self.dialog.shows();
        proof {
            every_answer_has_a_button(self.dialog);
            assert(strings(spec.body@).len() == spec.body@.len());
            assert(button_models(spec.buttons@).len() == spec.buttons@.len());
        }
        let mut body: Vec<Option<String>> = Vec::new();
        let mut i: usize = 0;
        while i < spec.body.len()
            invariant
                i <= spec.body@.len(),
                body@.len() == i,
                strings(spec.body@) == shows.body,
                forall|k: int|
                    0 <= k < i ==> line_view(#[trigger] body@[k]) == (if shows.body[k].len() == 0 {
                        None
                    } else {
                        Some(shows.body[k])
                    }),
            decreases spec.body@.len() - i,
        {
            proof {
                assert(shows.body[i as int] == strings(spec.body@)[i as int]);
            }
            if spec.body[i].as_str().is_empty() {
                body.push(None);
            } else {
                body.push(Some(spec.body[i].clone()));
            }
            i += 1;
        }
        let mut buttons: Vec<ButtonScene> = Vec::new();
        let mut j: usize = 0;
        while j < spec.buttons.len()
            invariant
                j <= spec.buttons@.len(),
                buttons@.len() == j,
                button_models(spec.buttons@) == shows.buttons,
                spec.focused == self.dialog.focus(),
                forall|k: int|
                    #![trigger buttons@[k]]
                    0 <= k < j ==> {
                        let button = shows.buttons[k];
                        let focused = k == self.dialog.focus();
                        &&& buttons@[k].label@ == button.0
                        &&& buttons@[k].focused == focused
                        &&& (buttons@[k].text, buttons@[k].ground) == colors_of(
                            button.1,
                            focused || self.hovered == Some(k as usize),
                        )
                    },
            decreases spec.buttons@.len() - j,
        {
            proof {
                assert(shows.buttons[j as int] == button_models(spec.buttons@)[j as int]);
            }
            let focused = j == spec.focused;
            let over = match self.hovered {
                Some(idx) => idx == j,
                None => false,
            };
            let (text, ground) = button_colors(spec.buttons[j].tone, focused || over);
            buttons.push(
                ButtonScene { label: spec.buttons[j].label.clone(), text, ground, focused },
            );
            j += 1;
        }
        DialogScene { title: spec.title, body, buttons }
    }
}

// ---- What the dialogs promise ----

/// Every button does what its label says, and warns where it takes something away.
pub proof fn buttons_do_what_they_say(dialog: AnyDialog, i: int)
    requires
        0 <= i < dialog.outcomes().len(),
    ensures
        ({
            let (label, tone) = dialog.shows().buttons[i];
            match dialog.outcomes()[i] {
                DialogOutcome::Close(CloseAction::QuitAll) => label == "Quit Scribe"@ && tone
                    == ButtonTone::Accent,
                DialogOutcome::Close(CloseAction::CloseWindow) => label == "Kill Window"@ && tone
                    == ButtonTone::Danger,
                DialogOutcome::Close(CloseAction::Cancel) => label == "Cancel"@ && tone
                    == ButtonTone::Normal,
                DialogOutcome::Update(UpdateAction::Primary) => tone == ButtonTone::Accent && (
                dialog matches AnyDialog::Update(d) && label == match d.kind {
                    UpdateDialogKind::InstallAvailable => "Update Now"@,
                    UpdateDialogKind::RestartRequired => "Continue"@,
                }),
                DialogOutcome::Update(UpdateAction::Secondary) => tone == ButtonTone::Normal && (
                dialog matches AnyDialog::Update(d) && label == match d.kind {
                    UpdateDialogKind::InstallAvailable => "Later"@,
                    UpdateDialogKind::RestartRequired => "Cancel"@,
                }),
                DialogOutcome::Paste(PasteConfirmationAction::Paste) => label == "Paste"@,
                DialogOutcome::Paste(PasteConfirmationAction::Cancel) => label == "Cancel"@,
                DialogOutcome::Clipboard(ClipboardDialogAction::DenyOnce) => label
                    == "Deny once"@ && tone == ButtonTone::Normal,
                DialogOutcome::Clipboard(ClipboardDialogAction::AlwaysDeny) => label
                    == "Always deny"@ && tone == ButtonTone::Normal,
                DialogOutcome::Clipboard(ClipboardDialogAction::AllowOnce) => label
                    == "Allow once"@ && tone == ButtonTone::Danger,
                DialogOutcome::Clipboard(ClipboardDialogAction::AlwaysAllow) => label
                    == "Always allow"@ && tone == ButtonTone::Danger,
                DialogOutcome::DisallowedScheme(DisallowedSchemeAction::Cancel) => label
                    == "Cancel"@ && tone == ButtonTone::Normal,
                DialogOutcome::DisallowedScheme(DisallowedSchemeAction::OpenAnyway) => label
                    == "Open Anyway"@ && tone == ButtonTone::Danger,
                DialogOutcome::LanApproval(LanApprovalAction::Decline) => tone
                    == ButtonTone::Normal && (dialog matches AnyDialog::LanApproval(_, copy)
                    && label == copy.decline@),
                DialogOutcome::LanApproval(LanApprovalAction::Approve) => tone
                    == ButtonTone::Danger && (dialog matches AnyDialog::LanApproval(_, copy)
                    && label == copy.approve@),
            }
        }),
{
}

/// The safe answer takes nothing away and allows nothing.
pub proof fn safe_answers_are_harmless(dialog: AnyDialog)
    ensures
        match dialog.safe_outcome() {
            DialogOutcome::Close(action) => dialog is Close && action == CloseAction::Cancel,
            DialogOutcome::Update(action) => dialog is Update && action == UpdateAction::Secondary,
            DialogOutcome::Paste(action) => dialog is Paste && action
                == PasteConfirmationAction::Cancel,
            DialogOutcome::Clipboard(action) => dialog is Clipboard && action
                == ClipboardDialogAction::DenyOnce,
            DialogOutcome::DisallowedScheme(action) => dialog is DisallowedScheme && action
                == DisallowedSchemeAction::Cancel,
            DialogOutcome::LanApproval(action) => dialog is LanApproval && action
                == LanApprovalAction::Decline,
        },
{
}

/// The focus moves by one button, and from the last to the first.
pub proof fn focus_moves_by_one(dialog: AnyDialog)
    requires
        dialog.wf(),
    ensures
        dialog.focus() + 1 < dialog.outcomes().len() ==> dialog.next_focus() == dialog.focus() + 1,
        dialog.focus() + 1 == dialog.outcomes().len() ==> dialog.next_focus() == 0,
        dialog.focus() > 0 ==> dialog.prev_focus() == dialog.focus() - 1,
        dialog.focus() == 0 ==> dialog.prev_focus() == dialog.outcomes().len() - 1,
{
}

/// How a character is shown: a tab as two spaces, a control character below the space as a
/// caret and the character sixty-four above it, delete as a caret and a question mark, any
/// other control character by its two hexadecimal digits, and everything else as itself.
pub proof fn control_characters_are_shown(c: char)
    ensures
        c == '\t' ==> shown_char(c) == seq![' ', ' '],
        (c as u32) < 0x20 && c != '\t' ==> shown_char(c) == seq!['^', (c as u32 + 64) as char],
        c as u32 == 0x7f ==> shown_char(c) == seq!['^', '?'],
        0x80 <= c as u32 <= 0x9f ==> shown_char(c) == seq![
            '\\',
            'u',
            '{',
            if (c as u32) < 0x90 {
                '8'
            } else {
                '9'
            },
            hex_digit((c as u32 % 16) as nat),
            '}',
        ],
        !is_control(c) ==> shown_char(c) == seq![c],
{
    reveal_with_fuel(hex, 3);
    if 0x80 <= c as u32 <= 0x9f {
        assert(shown_char(c) =~= seq![
            '\\',
            'u',
            '{',
            if (c as u32) < 0x90 {
                '8'
            } else {
                '9'
            },
            hex_digit((c as u32 % 16) as nat),
            '}',
        ]);
    }
}

/// A hexadecimal digit is a figure up to nine and a capital letter above.
pub proof fn hexadecimal_digits(d: nat)
    requires
        d < 16,
    ensures
        d < 10 ==> hex_digit(d) as u32 == 0x30 + d,
        d >= 10 ==> hex_digit(d) as u32 == 0x41 + (d - 10),
{
}

/// A line is shown character by character.
pub proof fn lines_are_shown_in_order(line: Seq<char>, c: char)
    ensures
        shown_line(line.push(c)) == shown_line(line) + shown_char(c),
        shown_line(Seq::empty()).len() == 0,
{
    assert(line.push(c).drop_last() =~= line);
}

/// A text that does not fit is cut in its middle: what is left fills the room, with three
/// full stops between as much of the start as of the end, or one character more.
pub proof fn long_text_is_cut_in_the_middle(text: Seq<char>, max_cols: nat, i: int)
    requires
        text.len() > max_cols,
        max_cols >= 4,
    ensures
        ({
            let cut = fitted(text, max_cols);
            let head = (max_cols - 2) / 2;
            let tail = max_cols - 3 - head;
            &&& cut.len() == max_cols
            &&& 0 <= i < head ==> cut[i] == text[i]
            &&& head <= i < head + 3 ==> cut[i] == '.'
            &&& head + 3 <= i < max_cols ==> cut[i] == text[text.len() - max_cols + i]
            &&& head == tail || head == tail + 1
        }),
{
}

/// A text that fits is left as it is.
pub proof fn short_text_is_left_alone(text: Seq<char>, max_cols: nat)
    ensures
        text.len() <= max_cols ==> fitted(text, max_cols) == text,
        text.len() > max_cols && max_cols < 4 ==> fitted(text, max_cols) == text.take(
            max_cols as int,
        ),
{
}

/// A preview shows the first eight lines, each within fifty-six columns, and then how many
/// more there are.
pub proof fn previews_show_eight_lines(content: Seq<char>, i: int)
    ensures
        ({
            let all = split(content, '\n');
            &&& all.len() <= 8 ==> preview(content).len() == all.len()
            &&& all.len() > 8 ==> preview(content).len() == 9 && preview(content)[8] == "… (+"@
                + decimal((all.len() - 8) as nat) + " more "@ + (if all.len() == 9 {
                "line"@
            } else {
                "lines"@
            }) + ")"@
            &&& 0 <= i < 8 && i < all.len() ==> preview(content)[i] == fitted(
                shown_line(all[i]),
                56,
            )
        }),
{
}

/// What is counted before a paste are the control characters other than tabs and line
/// ends.
pub proof fn line_ends_are_no_risk_of_their_own(text: Seq<char>, c: char)
    ensures
        control_count(Seq::empty()) == 0,
        control_count(text.push(c)) == control_count(text) + (if is_control(c) && c != '\t' && c
            != '\n' && c != '\r' {
            1int
        } else {
            0
        }),
{
    assert(text.push(c).drop_last() =~= text);
}

/// Why a paste is asked about: its lines where it has line breaks, its control characters
/// where it has any.
pub proof fn pastes_are_asked_about_for_a_reason(text: Seq<char>)
    ensures
        ({
            let lines = split(text, '\n').len();
            let line_words = decimal(lines) + " "@ + (if lines == 1 {
                "line"@
            } else {
                "lines"@
            });
            let why = |has_line_break: bool, has_control: bool|
                reason(text, PasteRisk { has_line_break, has_control });
            &&& why(true, false) == line_words
            &&& why(false, true) == if control_count(text) == 1 {
                "contains a control character"@
            } else {
                "contains control characters"@
            }
            &&& why(true, true) == line_words + " · "@ + decimal(control_count(text)) + " "@ + (if
            control_count(text) == 1 {
                "control character"@
            } else {
                "control characters"@
            })
            &&& why(false, false) == "risky paste"@
        }),
{
}

/// What a program wants with the clipboard is told as it is.
pub proof fn clipboard_requests_are_told(selection: ClipboardSelection, text: String)
    ensures
        clipboard_heading(ClipboardOp::Read) == "Allow clipboard read?"@,
        clipboard_heading(ClipboardOp::Write) == "Allow clipboard write?"@,
        selection_words(ClipboardSelection::Clipboard) == "clipboard"@,
        selection_words(ClipboardSelection::Primary) == "primary selection"@,
        clipboard_lines(ClipboardOp::Read, selection, None)[0]
            == "A program in this terminal wants to read the "@ + selection_words(selection)
            + "."@,
        clipboard_lines(ClipboardOp::Write, selection, None)[0]
            == "A program in this terminal wants to overwrite the "@ + selection_words(selection)
            + "."@,
        clipboard_lines(ClipboardOp::Write, selection, None).len() == 3,
        clipboard_lines(ClipboardOp::Write, selection, Some(text)).len() == 6,
        clipboard_lines(ClipboardOp::Write, selection, Some(text))[5] == fitted(text@, 56),
        clipboard_lines(ClipboardOp::Read, selection, Some(text))[5] == fitted(text@, 56),
{
}

/// Closing tells how many sessions are lost, where any are.
pub proof fn closing_tells_what_is_lost(dialog: CloseDialog)
    ensures
        dialog.session_count == 0 ==> dialog.shows().body.len() == 7,
        dialog.session_count > 0 ==> dialog.shows().body.len() == 9 && dialog.shows().body[8]
            == "  "@ + decimal(dialog.session_count as nat) + " active session(s) will be lost."@,
{
}

/// An update that is ready is told apart from one that needs a restart, with its version.
pub proof fn updates_are_told_apart(dialog: UpdateDialog)
    ensures
        dialog.kind == UpdateDialogKind::InstallAvailable ==> dialog.shows().title
            == "Update Available"@ && dialog.shows().body[0] == "Version "@ + dialog.version@
            + " is ready to install."@ && dialog.shows().body[2]
            == "Your terminal sessions will be preserved"@,
        dialog.kind == UpdateDialogKind::RestartRequired ==> dialog.shows().title
            == "Restart Required"@ && dialog.shows().body[0] == "Version "@ + dialog.version@
            + " has been installed."@ && dialog.shows().body[3]
            == "which will close all open terminal sessions."@,
{
}

/// Moving the focus moves nothing else.
pub proof fn focus_is_all_that_moves(dialog: AnyDialog, idx: usize)
    ensures
        dialog.with_focus(idx).focus() == idx,
        dialog.with_focus(idx).shows().title == dialog.shows().title,
        dialog.with_focus(idx).shows().body == dialog.shows().body,
        dialog.with_focus(idx).shows().buttons == dialog.shows().buttons,
        dialog.with_focus(idx).outcomes() == dialog.outcomes(),
{
}

/// A button that is focused or pointed at stands out, in the colour of its tone; one that
/// warns is told by its text while it does not.
pub proof fn active_buttons_stand_out(tone: ButtonTone)
    ensures
        colors_of(tone, true).0 == DialogColor::ButtonActiveText,
        colors_of(tone, false).1 == DialogColor::Button,
        colors_of(ButtonTone::Accent, true).1 == DialogColor::Accent,
        colors_of(ButtonTone::Danger, true).1 == DialogColor::Danger,
        colors_of(ButtonTone::Normal, true).1 == DialogColor::ButtonActive,
        colors_of(ButtonTone::Danger, false).0 == DialogColor::DangerText,
        tone != ButtonTone::Danger ==> colors_of(tone, false).0 == DialogColor::ButtonText,
{
}

/// A link that is asked about is shown with its scheme, and whole where it is short.
pub proof fn links_are_shown_with_their_scheme(uri: Seq<char>, scheme: Seq<char>)
    ensures
        scheme_lines(uri, scheme).len() == 5,
        scheme_lines(uri, scheme)[0] == "Scheme `"@ + scheme + ":` is normally blocked."@,
        scheme_lines(uri, scheme)[1] == ""@,
        scheme_lines(uri, scheme)[2] == "Open the following URI anyway?"@,
        scheme_lines(uri, scheme)[3] == ""@,
        uri.len() <= MAX_PREVIEW_COLS ==> scheme_lines(uri, scheme)[4] == uri,
        scheme_lines(uri, scheme)[4].len() <= MAX_PREVIEW_COLS,
{
    if uri.len() <= MAX_PREVIEW_COLS {
        short_text_is_left_alone(uri, MAX_PREVIEW_COLS as nat);
    }
}

/// What is chosen is what the button under the pointer or under the focus stands for, and
/// no button is past the last.
pub proof fn chosen_buttons_give_their_outcome(
    dialog: &AnyDialog,
    view: &DialogView,
    idx: usize,
    at: Option<DialogOutcome>,
    confirmed: DialogOutcome,
    event: DialogEvent,
    clicked: Option<DialogEvent>,
)
    requires
        call_ensures(AnyDialog::action_at, (dialog, idx), at),
        call_ensures(AnyDialog::confirm, (dialog,), confirmed),
        call_ensures(DialogView::confirm, (view,), event),
        call_ensures(DialogView::activate, (view, idx), clicked),
    ensures
        at is Some <==> idx < dialog.outcomes().len(),
        at matches Some(outcome) ==> outcome == dialog.outcomes()[idx as int],
        dialog.wf() ==> confirmed == dialog.outcomes()[dialog.focus()],
        !dialog.wf() ==> confirmed == dialog.safe_outcome(),
        view.dialog.wf() ==> event == DialogEvent::Chosen(
            view.dialog.outcomes()[view.dialog.focus()],
        ),
        clicked is Some <==> idx < view.dialog.outcomes().len(),
        clicked matches Some(event) ==> event == DialogEvent::Chosen(
            view.dialog.outcomes()[idx as int],
        ),
{
}

/// A decision on the clipboard is the one that was chosen.
pub proof fn decisions_are_what_was_chosen(r: ClipboardDecision)
    ensures
        call_ensures(ClipboardDialogAction::decision, (ClipboardDialogAction::AllowOnce,), r) ==> r
            == ClipboardDecision::AllowOnce,
        call_ensures(ClipboardDialogAction::decision, (ClipboardDialogAction::DenyOnce,), r) ==> r
            == ClipboardDecision::DenyOnce,
        call_ensures(ClipboardDialogAction::decision, (ClipboardDialogAction::AlwaysAllow,), r)
            ==> r == ClipboardDecision::AlwaysAllow,
        call_ensures(ClipboardDialogAction::decision, (ClipboardDialogAction::AlwaysDeny,), r)
            ==> r == ClipboardDecision::AlwaysDeny,
{
}

} // verus!
