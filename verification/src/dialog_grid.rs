//! How a dialog is laid out on the character grid, and what is drawn for it.
//!
//! A dialog has a title, lines of body text, a rule and a row of buttons. Its
//! parts are placed in whole cells; the colours are named by their part.

use vstd::prelude::*;

use crate::text::{chars_of, strings};

verus! {

/// Empty columns at either edge of a dialog.
pub const PADDING: usize = 3;

/// How many rows a button is high.
pub const BUTTON_HEIGHT_ROWS: usize = 3;

/// The row of the title.
pub const TITLE_ROW: usize = 2;

/// The row of the first line of the body.
pub const BODY_ROW: usize = 4;

/// The most cells that an extent is taken to hold.
pub const MAX_DIALOG_GRID_UNITS: usize = 65_535;

/// A number of cells that is placed on the screen: no more than a `u16` holds.
pub fn dialog_grid_units(units: usize) -> (r: u16)
    ensures
        r == if units <= u16::MAX {
            units as int
        } else {
            u16::MAX as int
        },
{
    if units <= u16::MAX as usize {
        units as u16
    } else {
        u16::MAX
    }
}

/// How many cells fit into an extent, by a test that says of a number of cells
/// whether they do: a number that does, or none, and one more does not, but where
/// the limit is reached.
pub fn dialog_units_in_extent<F: Fn(usize) -> bool>(fits: F) -> (r: usize)
    requires
        forall|n: usize| #[trigger] call_requires(fits, (n,)),
        forall|n: usize, a: bool, b: bool|
            #[trigger] call_ensures(fits, (n,), a) && #[trigger] call_ensures(fits, (n,), b) ==> a
                == b,
    ensures
        r <= MAX_DIALOG_GRID_UNITS,
        r == 0 || call_ensures(fits, (r,), true),
        r < MAX_DIALOG_GRID_UNITS ==> call_ensures(fits, ((r + 1) as usize,), false),
{
    let mut low: usize = 0;
    let mut high: usize = 1;
    let mut growing = fits(1);
    while growing
        invariant
            forall|n: usize| #[trigger] call_requires(fits, (n,)),
            low <= high <= MAX_DIALOG_GRID_UNITS,
            low < high,
            low == 0 || call_ensures(fits, (low,), true),
            growing ==> call_ensures(fits, (high,), true) && high < MAX_DIALOG_GRID_UNITS,
            !growing ==> high == MAX_DIALOG_GRID_UNITS || call_ensures(fits, (high,), false),
        decreases MAX_DIALOG_GRID_UNITS - low,
    {
        low = high;
        high = if high > MAX_DIALOG_GRID_UNITS / 2 {
            MAX_DIALOG_GRID_UNITS
        } else {
            high * 2
        };
        growing = if high < MAX_DIALOG_GRID_UNITS {
            fits(high)
        } else {
            false
        };
    }
    while low < high
        invariant
            forall|n: usize| #[trigger] call_requires(fits, (n,)),
            forall|n: usize, a: bool, b: bool|
                #[trigger] call_ensures(fits, (n,), a) && #[trigger] call_ensures(fits, (n,), b)
                    ==> a == b,
            low <= high <= MAX_DIALOG_GRID_UNITS,
            low == 0 || call_ensures(fits, (low,), true),
            high == MAX_DIALOG_GRID_UNITS || call_ensures(fits, ((high + 1) as usize,), false) || (
            high > 0 && call_ensures(fits, (high,), false)),
        decreases high - low,
    {
        let mid: usize = low + (high - low + 1) / 2;
        if fits(mid) {
            low = mid;
        } else {
            high = mid - 1;
        }
    }
    low
}

/// A colour of a dialog, by its part.
#[derive(Debug, Clone, Copy, PartialEq, Eq, Structural)]
pub enum GridColor {
    Backdrop,
    DialogBg,
    Border,
    Separator,
    TitleFg,
    BodyFg,
    ButtonFg,
    ButtonBg,
    ButtonActiveFg,
    ButtonActiveBg,
    ButtonDangerFg,
    ButtonDangerBg,
}

/// Something that is drawn.
#[derive(Debug, Clone, Copy, PartialEq, Eq, Structural)]
pub enum Draw {
    /// The whole viewport.
    Backdrop,
    /// The ground of the dialog.
    Panel,
    /// A line along the upper edge.
    TopEdge,
    /// A line along the lower edge.
    BottomEdge,
    /// A rule through the middle of a row, inside the padding.
    Rule { at: usize },
    /// A character in a cell.
    Glyph { ch: char, row: usize, col: usize, fg: GridColor, bg: GridColor },
    /// The ground of a button, which is also where it can be hit.
    Button { index: usize, row: usize, col: usize, cols: usize, ground: GridColor },
}

/// A dialog that is laid out.
#[derive(Debug)]
pub struct DialogPlan {
    pub cols: usize,
    pub rows: usize,
    /// What is drawn, from back to front.
    pub draws: Vec<Draw>,
}

/// A dialog that is to be laid out.
pub struct DialogText<'a> {
    pub title: &'a str,
    pub body: Vec<String>,
    pub labels: Vec<String>,
    /// The place of the focused button.
    pub focused: usize,
    /// The place of the button under the pointer.
    pub hovered: Option<usize>,
    /// The place of the first button that warns.
    pub first_danger: usize,
}

/// What a dialog says, and which buttons stand out.
pub struct DialogModel {
    pub title: Seq<char>,
    pub body: Seq<Seq<char>>,
    pub labels: Seq<Seq<char>>,
    pub focused: int,
    pub hovered: Option<usize>,
    pub first_danger: int,
}

impl<'a> View for DialogText<'a> {
    type V = DialogModel;

    open spec fn view(&self) -> DialogModel {
        DialogModel {
            title: self.title@,
            body: strings(self.body@),
            labels: strings(self.labels@),
            focused: self.focused as int,
            hovered: self.hovered,
            first_danger: self.first_danger as int,
        }
    }
}

/// How wide a dialog is: as wide as it likes to be where the viewport has room for
/// that, and otherwise as wide as the viewport, but never narrower than it can be.
pub open spec fn dialog_cols(max_cols: nat, liked: nat, least: nat) -> nat {
    let room = if max_cols >= least {
        max_cols
    } else {
        least
    };
    if liked <= room {
        liked
    } else {
        room
    }
}

/// How many characters of a text are seen that begins at a column.
pub open spec fn seen(len: nat, start: int, cols: int) -> nat {
    if start >= cols {
        0
    } else if len <= cols - start {
        len
    } else {
        (cols - start) as nat
    }
}

/// The character at a place of a line that begins at a column.
pub open spec fn glyph(
    text: Seq<char>,
    row: int,
    start: int,
    fg: GridColor,
    bg: GridColor,
    i: int,
) -> Draw {
    Draw::Glyph { ch: text[i], row: row as usize, col: (start + i) as usize, fg, bg }
}

/// A line of text from a column on, as far as the dialog reaches.
pub open spec fn text_line(
    text: Seq<char>,
    row: int,
    start: int,
    cols: int,
    fg: GridColor,
    bg: GridColor,
) -> Seq<Draw> {
    Seq::new(seen(text.len(), start, cols), |i: int| glyph(text, row, start, fg, bg, i))
}

/// The column at which a text is centred.
pub open spec fn centred(len: nat, cols: int) -> int {
    if len >= cols {
        0
    } else {
        (cols - len) / 2
    }
}

/// The lines of the body.
pub open spec fn body_text(lines: Seq<Seq<char>>, cols: int) -> Seq<Draw>
    decreases lines.len(),
{
    if lines.len() == 0 {
        Seq::empty()
    } else {
        body_text(lines.drop_last(), cols) + text_line(
            lines.last(),
            BODY_ROW + lines.len() - 1,
            PADDING as int,
            cols,
            GridColor::BodyFg,
            GridColor::DialogBg,
        )
    }
}

/// The columns that buttons take together: each has two empty columns at either
/// side of its label.
pub open spec fn button_cols(labels: Seq<Seq<char>>) -> nat
    decreases labels.len(),
{
    if labels.len() == 0 {
        0
    } else {
        button_cols(labels.drop_last()) + labels.last().len() + 4
    }
}

/// The columns between two buttons: what they leave over, shared out evenly.
pub open spec fn button_gap(labels: Seq<Seq<char>>, cols: int) -> int {
    let left = cols - 2 * PADDING - button_cols(labels);
    if left <= 0 || labels.len() < 2 {
        0
    } else {
        left / (labels.len() - 1)
    }
}

/// The column at which the button at a place begins.
pub open spec fn button_col(labels: Seq<Seq<char>>, cols: int, i: int) -> int {
    PADDING + button_cols(labels.take(i)) + i * button_gap(labels, cols)
}

/// The colours of a button's text and ground.
pub open spec fn button_colors(danger: bool, active: bool) -> (GridColor, GridColor) {
    match (active, danger) {
        (true, true) => (GridColor::ButtonActiveFg, GridColor::ButtonDangerBg),
        (true, false) => (GridColor::ButtonActiveFg, GridColor::ButtonActiveBg),
        (false, true) => (GridColor::ButtonDangerFg, GridColor::ButtonBg),
        (false, false) => (GridColor::ButtonFg, GridColor::ButtonBg),
    }
}

/// The row of the buttons.
pub open spec fn button_row(body: nat) -> int {
    BODY_ROW + body + 3
}

/// The first so many buttons: each has a ground and its label in the middle row.
pub open spec fn buttons(text: DialogModel, cols: int, n: int) -> Seq<Draw>
    decreases n,
{
    if n <= 0 {
        Seq::empty()
    } else {
        let i = n - 1;
        let row = button_row(text.body.len());
        let col = button_col(text.labels, cols, i);
        let active = i == text.focused || text.hovered == Some(i as usize);
        let (fg, bg) = button_colors(i >= text.first_danger, active);
        buttons(text, cols, i) + seq![
            Draw::Button {
                index: i as usize,
                row: row as usize,
                col: col as usize,
                cols: (text.labels[i].len() + 4) as usize,
                ground: bg,
            },
        ] + text_line(text.labels[i], row + 1, col + 2, cols, fg, bg)
    }
}

/// What is drawn for a dialog, from back to front.
pub open spec fn drawn(text: DialogModel, cols: int) -> Seq<Draw> {
    seq![Draw::Backdrop, Draw::Panel, Draw::TopEdge, Draw::BottomEdge] + text_line(
        text.title,
        TITLE_ROW as int,
        centred(text.title.len(), cols),
        cols,
        GridColor::TitleFg,
        GridColor::DialogBg,
    ) + body_text(text.body, cols) + seq![
        Draw::Rule { at: (BODY_ROW + text.body.len() + 1) as usize },
    ] + buttons(text, cols, text.labels.len() as int)
}

/// How many rows a dialog has.
pub open spec fn dialog_rows(body: nat) -> nat {
    body + 11
}

/// The text of a dialog has a size that can be laid out.
pub open spec fn can_be_laid_out(text: DialogModel, cols: int) -> bool {
    &&& text.body.len() + 11 <= usize::MAX
    &&& button_cols(text.labels) + cols + 3 * PADDING <= usize::MAX
}

fn push_line(
    out: &mut Vec<Draw>,
    text: &str,
    row: usize,
    start: usize,
    cols: usize,
    colors: (GridColor, GridColor),
)
    ensures
        final(out)@ == old(out)@ + text_line(
            text@,
            row as int,
            start as int,
            cols as int,
            colors.0,
            colors.1,
        ),
{
    let chars = chars_of(text);
    let (fg, bg) = colors;
    let ghost line = text_line(text@, row as int, start as int, cols as int, fg, bg);
    let ghost before = out@;
    if start >= cols {
        proof {
            assert(out@ =~= before + line);
        }
        return ;
    }
    let room: usize = cols - start;
    let shown: usize = if chars.len() <= room {
        chars.len()
    } else {
        room
    };
    let mut i: usize = 0;
    proof {
        assert(out@ =~= before + line.take(0));
    }
    while i < shown
        invariant
            i <= shown <= chars@.len(),
            shown <= cols - start,
            start < cols,
            chars@ == text@,
            line == text_line(text@, row as int, start as int, cols as int, fg, bg),
            shown == line.len(),
            out@ == before + line.take(i as int),
        decreases shown - i,
    {
        out.push(Draw::Glyph { ch: chars[i], row, col: start + i, fg, bg });
        i += 1;
        proof {
            assert(line.take(i as int) =~= line.take(i - 1).push(line[i - 1]));
            assert(out@ =~= before + line.take(i as int));
        }
    }
    proof {
        assert(line.take(shown as int) =~= line);
    }
}

fn push_body(out: &mut Vec<Draw>, body: &Vec<String>, cols: usize)
    requires
        body@.len() + 11 <= usize::MAX,
    ensures
        final(out)@ == old(out)@ + body_text(strings(body@), cols as int),
{
    let ghost before = out@;
    let ghost lines = strings(body@);
    let mut i: usize = 0;
    proof {
        assert(lines.take(0) =~= Seq::<Seq<char>>::empty());
        assert(out@ =~= before + body_text(lines.take(0), cols as int));
    }
    while i < body.len()
        invariant
            i <= body@.len(),
            body@.len() + 11 <= usize::MAX,
            lines == strings(body@),
            out@ == before + body_text(lines.take(i as int), cols as int),
        decreases body@.len() - i,
    {
        push_line(
            out,
            body[i].as_str(),
            BODY_ROW + i,
            PADDING,
            cols,
            (GridColor::BodyFg, GridColor::DialogBg),
        );
        i += 1;
        proof {
            assert(lines.take(i as int).drop_last() =~= lines.take(i - 1));
            assert(lines.take(i as int).last() == body@[i - 1]@);
            assert(out@ =~= before + body_text(lines.take(i as int), cols as int));
        }
    }
    proof {
        assert(lines.take(body@.len() as int) =~= lines);
    }
}

proof fn button_cols_grow(labels: Seq<Seq<char>>, i: int, j: int)
    requires
        0 <= i <= j <= labels.len(),
    ensures
        button_cols(labels.take(i)) <= button_cols(labels.take(j)),
        i < labels.len() ==> button_cols(labels.take(i + 1)) == button_cols(labels.take(i))
            + labels[i].len() + 4,
    decreases j - i,
{
    if i < labels.len() {
        assert(labels.take(i + 1).drop_last() =~= labels.take(i));
    }
    if i < j {
        button_cols_grow(labels, i + 1, j);
    }
}

/// The gaps together are no wider than what the buttons leave over.
proof fn gaps_fit(labels: Seq<Seq<char>>, cols: int, i: int)
    requires
        0 <= i < labels.len(),
        0 <= cols,
    ensures
        0 <= i * button_gap(labels, cols),
        i * button_gap(labels, cols) <= cols,
        cols - 2 * PADDING - button_cols(labels) >= 0 ==> i * button_gap(labels, cols) <= cols - 2
            * PADDING - button_cols(labels),
{
    let left = cols - 2 * PADDING - button_cols(labels);
    let gap = button_gap(labels, cols);
    if left > 0 && labels.len() >= 2 {
        let n = labels.len() - 1;
        assert(0 <= gap && gap * n <= left) by (nonlinear_arith)
            requires
                gap == left / n,
                left > 0,
                n > 0,
        ;
        assert(0 <= i * gap <= gap * n) by (nonlinear_arith)
            requires
                0 <= i <= n,
                gap >= 0,
        ;
    } else {
        assert(i * gap == 0) by (nonlinear_arith)
            requires
                gap == 0,
        ;
    }
}

fn label_cols(labels: &Vec<String>) -> (r: usize)
    requires
        button_cols(strings(labels@)) <= usize::MAX,
    ensures
        r == button_cols(strings(labels@)),
{
    let ghost all = strings(labels@);
    let mut total: usize = 0;
    let mut i: usize = 0;
    proof {
        assert(all.take(0) =~= Seq::<Seq<char>>::empty());
    }
    while i < labels.len()
        invariant
            i <= labels@.len(),
            all == strings(labels@),
            button_cols(all) <= usize::MAX,
            total == button_cols(all.take(i as int)),
        decreases labels@.len() - i,
    {
        let chars = chars_of(labels[i].as_str());
        proof {
            button_cols_grow(all, i as int, i as int);
            button_cols_grow(all, i + 1, all.len() as int);
            assert(all.take(all.len() as int) =~= all);
            assert(all[i as int] == labels@[i as int]@);
        }
        total = total + chars.len() + 4;
        i += 1;
    }
    proof {
        assert(all.take(all.len() as int) =~= all);
    }
    total
}

fn push_buttons(out: &mut Vec<Draw>, text: &DialogText, cols: usize)
    requires
        can_be_laid_out(text@, cols as int),
    ensures
        final(out)@ == old(out)@ + buttons(text@, cols as int, text@.labels.len() as int),
{
    let ghost before = out@;
    let ghost labels = strings(text.labels@);
    let ghost n = text.labels@.len() as int;
    proof {
        assert(labels.len() == n);
        assert(labels.take(n) =~= labels);
        assert(labels.take(0) =~= Seq::<Seq<char>>::empty());
    }
    let total: usize = label_cols(&text.labels);
    let usable: usize = cols.saturating_sub(2 * PADDING);
    let left: usize = usable.saturating_sub(total);
    let count: usize = text.labels.len();
    let gap: usize = if count > 1 {
        left / (count - 1)
    } else {
        0
    };
    proof {
        if count > 1 {
            assert(left / ((count - 1) as usize) == left as int / (count - 1) as int);
            if left == 0 {
                assert(gap == 0);
            }
        }
        assert(gap == button_gap(labels, cols as int));
        assert(0 * gap == 0);
        assert(out@ =~= before + buttons(text@, cols as int, 0));
    }
    let row: usize = BODY_ROW + text.body.len() + 3;
    let mut col: usize = PADDING;
    let mut i: usize = 0;
    while i < count
        invariant
            i <= count,
            count == n,
            n == text.labels@.len(),
            labels == strings(text.labels@),
            labels.take(n) == labels,
            can_be_laid_out(text@, cols as int),
            gap == button_gap(labels, cols as int),
            row == button_row(text.body@.len()),
            row + 1 <= usize::MAX,
            i < count ==> col == button_col(labels, cols as int, i as int),
            out@ == before + buttons(text@, cols as int, i as int),
        decreases count - i,
    {
        let width: usize = {
            let chars = chars_of(text.labels[i].as_str());
            proof {
                button_cols_grow(labels, i as int, n);
                button_cols_grow(labels, i + 1, n);
                gaps_fit(labels, cols as int, i as int);
                assert(labels[i as int] == text.labels@[i as int]@);
                assert(chars@.len() + 4 <= button_cols(labels));
            }
            chars.len() + 4
        };
        let over = match text.hovered {
            Some(idx) => idx == i,
            None => false,
        };
        let active = i == text.focused || over;
        let danger = i >= text.first_danger;
        let (fg, bg) = match (active, danger) {
            (true, true) => (GridColor::ButtonActiveFg, GridColor::ButtonDangerBg),
            (true, false) => (GridColor::ButtonActiveFg, GridColor::ButtonActiveBg),
            (false, true) => (GridColor::ButtonDangerFg, GridColor::ButtonBg),
            (false, false) => (GridColor::ButtonFg, GridColor::ButtonBg),
        };
        let ghost earlier = out@;
        out.push(Draw::Button { index: i, row, col, cols: width, ground: bg });
        push_line(out, text.labels[i].as_str(), row + 1, col + 2, cols, (fg, bg));
        proof {
            let b = Draw::Button { index: i, row, col, cols: width, ground: bg };
            let t = text_line(labels[i as int], row + 1, col + 2, cols as int, fg, bg);
            assert(out@ =~= earlier.push(b) + t);
            assert(out@ =~= before + (buttons(text@, cols as int, i as int) + seq![b] + t));
            assert(out@ == before + buttons(text@, cols as int, i + 1));
            assert((i + 1) * gap == i * gap + gap) by (nonlinear_arith);
        }
        i += 1;
        if i < count {
            proof {
                gaps_fit(labels, cols as int, i as int);
                button_cols_grow(labels, i as int, n);
            }
            col = col + width + gap;
        }
    }
}

/// Lays a dialog out.
pub(crate) fn plan(text: &DialogText, max_cols: usize, liked: usize, least: usize) -> (r:
    DialogPlan)
    requires
        can_be_laid_out(text@, dialog_cols(max_cols as nat, liked as nat, least as nat) as int),
    ensures
        r.cols == dialog_cols(max_cols as nat, liked as nat, least as nat),
        r.rows == dialog_rows(text@.body.len()),
        r.draws@ == drawn(text@, r.cols as int),
{
    let room: usize = if max_cols >= least {
        max_cols
    } else {
        least
    };
    let cols: usize = if liked <= room {
        liked
    } else {
        room
    };
    let mut draws: Vec<Draw> = Vec::new();
    draws.push(Draw::Backdrop);
    draws.push(Draw::Panel);
    draws.push(Draw::TopEdge);
    draws.push(Draw::BottomEdge);
    let title = chars_of(text.title);
    let start: usize = cols.saturating_sub(title.len()) / 2;
    push_line(
        &mut draws,
        text.title,
        TITLE_ROW,
        start,
        cols,
        (GridColor::TitleFg, GridColor::DialogBg),
    );
    push_body(&mut draws, &text.body, cols);
    draws.push(Draw::Rule { at: BODY_ROW + text.body.len() + 1 });
    push_buttons(&mut draws, text, cols);
    proof {
        assert(strings(text.body@).len() == text.body@.len());
        assert(draws@ =~= drawn(text@, cols as int));
    }
    DialogPlan { cols, rows: text.body.len() + 11, draws }
}

/// The first place at which something holds.
pub open spec fn first_hit(hits: Seq<bool>) -> Option<int>
    decreases hits.len(),
{
    if hits.len() == 0 {
        None
    } else {
        match first_hit(hits.drop_last()) {
            Some(i) => Some(i),
            None => if hits.last() {
                Some(hits.len() - 1)
            } else {
                None
            },
        }
    }
}

/// The button that is hit, where one is: of each button it is known whether it is.
pub(crate) fn hit_button(hits: &[bool]) -> (r: Option<usize>)
    ensures
        match (r, first_hit(hits@)) {
            (Some(i), Some(j)) => i == j,
            (None, None) => true,
            _ => false,
        },
        r matches Some(i) ==> i < hits@.len(),
{
    let mut i: usize = 0;
    proof {
        assert(hits@.take(0) =~= Seq::<bool>::empty());
    }
    while i < hits.len()
        invariant
            i <= hits@.len(),
            first_hit(hits@.take(i as int)) is None,
        decreases hits@.len() - i,
    {
        proof {
            assert(hits@.take(i + 1).drop_last() =~= hits@.take(i as int));
        }
        if hits[i] {
            proof {
                first_hit_stays(hits@, i + 1);
            }
            return Some(i);
        }
        i += 1;
    }
    proof {
        assert(hits@.take(hits@.len() as int) =~= hits@);
    }
    None
}

proof fn first_hit_stays(hits: Seq<bool>, n: int)
    requires
        0 <= n <= hits.len(),
        first_hit(hits.take(n)) is Some,
    ensures
        first_hit(hits) == first_hit(hits.take(n)),
    decreases hits.len() - n,
{
    if n < hits.len() {
        assert(hits.take(n + 1).drop_last() =~= hits.take(n));
        first_hit_stays(hits, n + 1);
    } else {
        assert(hits.take(n) =~= hits);
    }
}

/// Where the buttons have room, each lies inside the padding, and no two meet.
pub proof fn buttons_do_not_meet(labels: Seq<Seq<char>>, cols: int)
    requires
        button_cols(labels) + 2 * PADDING <= cols,
    ensures
        forall|i: int|
            0 <= i < labels.len() ==> PADDING <= #[trigger] button_col(labels, cols, i)
                && button_col(labels, cols, i) + labels[i].len() + 4 <= cols - PADDING,
        forall|i: int, j: int|
            0 <= i < j < labels.len() ==> #[trigger] button_col(labels, cols, i) + labels[i].len()
                + 4 <= #[trigger] button_col(labels, cols, j),
{
    let n = labels.len() as int;
    assert(labels.take(n) =~= labels);
    let gap = button_gap(labels, cols);
    assert forall|i: int| 0 <= i < labels.len() implies PADDING <= #[trigger] button_col(
        labels,
        cols,
        i,
    ) && button_col(labels, cols, i) + labels[i].len() + 4 <= cols - PADDING by {
        gaps_fit(labels, cols, i);
        button_cols_grow(labels, i, n);
        button_cols_grow(labels, i + 1, n);
    }
    assert forall|i: int, j: int| 0 <= i < j < labels.len() implies #[trigger] button_col(
        labels,
        cols,
        i,
    ) + labels[i].len() + 4 <= #[trigger] button_col(labels, cols, j) by {
        button_cols_grow(labels, i, n);
        button_cols_grow(labels, i + 1, j);
        gaps_fit(labels, cols, j - i);
        assert(j * gap == i * gap + (j - i) * gap) by (nonlinear_arith);
    }
}

/// A dialog is as wide as it likes where there is room, as wide as the room where there is
/// less, and never narrower than it must be.
pub proof fn dialogs_take_the_room_there_is(max_cols: nat, liked: nat, least: nat)
    requires
        least <= liked,
    ensures
        max_cols >= liked ==> dialog_cols(max_cols, liked, least) == liked,
        least <= max_cols < liked ==> dialog_cols(max_cols, liked, least) == max_cols,
        max_cols < least ==> dialog_cols(max_cols, liked, least) == least,
{
}

/// A text is drawn from its first character on, one to a cell, in its row, and ends with
/// the dialog.
pub proof fn text_is_drawn_in_order(
    text: Seq<char>,
    row: int,
    start: int,
    cols: int,
    fg: GridColor,
    bg: GridColor,
    i: int,
)
    requires
        0 <= start,
        0 <= i < text_line(text, row, start, cols, fg, bg).len(),
    ensures
        i < text.len(),
        start + i < cols,
        text_line(text, row, start, cols, fg, bg)[i] == (Draw::Glyph {
            ch: text[i],
            row: row as usize,
            col: (start + i) as usize,
            fg,
            bg,
        }),
        start + text.len() <= cols ==> text_line(text, row, start, cols, fg, bg).len()
            == text.len(),
        start + text.len() > cols ==> text_line(text, row, start, cols, fg, bg).len() == cols
            - start,
{
}

/// A title stands in the middle: as much is free on its left as on its right, or one column
/// less.
pub proof fn titles_stand_in_the_middle(len: nat, cols: int)
    requires
        0 <= len <= cols,
    ensures
        ({
            let left = centred(len, cols);
            let right = cols - len - left;
            left == right || left + 1 == right
        }),
{
}

/// The buttons spread over the width: the first stands at the left padding, and each starts
/// behind the one before it, its label, four columns and the same gap on.
pub proof fn buttons_spread_over_the_width(labels: Seq<Seq<char>>, cols: int, i: int)
    requires
        0 <= i < labels.len(),
    ensures
        button_col(labels, cols, 0) == 3,
        i + 1 < labels.len() ==> button_col(labels, cols, i + 1) == button_col(labels, cols, i)
            + labels[i].len() + 4 + button_gap(labels, cols),
        button_gap(labels, cols) >= 0,
{
    assert(labels.take(0) =~= Seq::<Seq<char>>::empty());
    assert(labels.take(i + 1).drop_last() =~= labels.take(i));
    assert(labels.take(i + 1).last() == labels[i]);
    let gap = button_gap(labels, cols);
    assert((i + 1) * gap == i * gap + gap) by (nonlinear_arith);
    assert(0 * gap == 0) by (nonlinear_arith);
    let left = cols - 2 * PADDING - button_cols(labels);
    let between = (labels.len() - 1) as int;
    if left > 0 && labels.len() >= 2 {
        assert(left / between >= 0) by (nonlinear_arith)
            requires
                left > 0,
                between > 0,
        ;
    }
}

/// The pointer hits the first button under it, and none where there is none.
pub proof fn the_first_button_is_hit(hits: Seq<bool>, i: int)
    ensures
        match first_hit(hits) {
            Some(n) => {
                &&& 0 <= n < hits.len() && hits[n]
                &&& 0 <= i < n ==> !hits[i]
            },
            None => 0 <= i < hits.len() ==> !hits[i],
        },
    decreases hits.len(),
{
    if hits.len() > 0 {
        the_first_button_is_hit(hits.drop_last(), i);
    }
}

/// The colours of a button: one that is active stands out, and one that warns warns.
pub proof fn button_colours()
    ensures
        button_colors(true, true) == (GridColor::ButtonActiveFg, GridColor::ButtonDangerBg),
        button_colors(false, true) == (GridColor::ButtonActiveFg, GridColor::ButtonActiveBg),
        button_colors(true, false) == (GridColor::ButtonDangerFg, GridColor::ButtonBg),
        button_colors(false, false) == (GridColor::ButtonFg, GridColor::ButtonBg),
{
}

/// A dialog is drawn from back to front: the ground and its edges, the title, the lines of
/// the body from the fifth row on, the rule and the buttons below it.
pub proof fn dialogs_are_drawn_from_back_to_front(text: DialogModel, cols: int)
    ensures
        ({
            let title = text_line(
                text.title,
                2,
                centred(text.title.len(), cols),
                cols,
                GridColor::TitleFg,
                GridColor::DialogBg,
            );
            let body = body_text(text.body, cols);
            let at = 4 + title.len() as int + body.len();
            let all = drawn(text, cols);
            &&& all.take(4) == seq![Draw::Backdrop, Draw::Panel, Draw::TopEdge, Draw::BottomEdge]
            &&& all.subrange(4, 4 + title.len() as int) == title
            &&& all.subrange(4 + title.len() as int, at) == body
            &&& all[at] == (Draw::Rule { at: (text.body.len() + 5) as usize })
            &&& all.skip(at + 1) == buttons(text, cols, text.labels.len() as int)
            &&& dialog_rows(text.body.len()) == text.body.len() + 11
            &&& button_row(text.body.len()) == text.body.len() + 7
        }),
{
    let title = text_line(
        text.title,
        2,
        centred(text.title.len(), cols),
        cols,
        GridColor::TitleFg,
        GridColor::DialogBg,
    );
    let body = body_text(text.body, cols);
    let at = 4 + title.len() as int + body.len();
    let all = drawn(text, cols);
    assert(all.take(4) =~= seq![Draw::Backdrop, Draw::Panel, Draw::TopEdge, Draw::BottomEdge]);
    assert(all.subrange(4, 4 + title.len() as int) =~= title);
    assert(all.subrange(4 + title.len() as int, at) =~= body);
    assert(all.skip(at + 1) =~= buttons(text, cols, text.labels.len() as int));
}

/// Each line of the body stands in the row below the one before it.
pub proof fn body_lines_stand_below_each_other(lines: Seq<Seq<char>>, line: Seq<char>, cols: int)
    ensures
        body_text(lines.push(line), cols) == body_text(lines, cols) + text_line(
            line,
            4 + lines.len() as int,
            3,
            cols,
            GridColor::BodyFg,
            GridColor::DialogBg,
        ),
        body_text(Seq::empty(), cols).len() == 0,
{
    assert(lines.push(line).drop_last() =~= lines);
}

/// A count is kept as it is up to the largest that can be counted.
pub proof fn counts_are_kept(units: usize, r: u16)
    requires
        call_ensures(dialog_grid_units, (units,), r),
    ensures
        units <= 65535 ==> r == units,
        units > 65535 ==> r == 65535,
{
}

} // verus!
