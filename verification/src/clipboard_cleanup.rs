//! Cleaning up text that was copied from an AI coding session: the indentation
//! that all lines share is taken off, and prose that was wrapped at a fixed
//! width flows again.

use std::collections::HashMap;

use vstd::prelude::*;

use crate::text::{
    all_white, chars_of, find, find_bounds, find_char, find_unique, is_space, is_white_space,
    join_with, joined, joined_from_the_front, leading_space, leading_space_bounds,
    leading_space_of, lines, lines_of, push_all, string_of, texts, to_vec, trailing_space_bounds,
    trailing_space_of, trim, trim_end, trim_start, trimmed, trimmed_end, trimmed_start,
    without_cr,
};

verus! {

broadcast use vstd::std_specs::hash::group_hash_axioms;

// ---- Taking off the shared indentation ----

/// Whether every line that is not empty starts with the same `n` characters, all
/// of them white space.
pub open spec fn shares_indent(lines: Seq<Seq<char>>, n: nat) -> bool {
    &&& forall|i: int|
        #![trigger lines[i]]
        0 <= i < lines.len() && lines[i].len() > 0 ==> n <= lines[i].len() && forall|k: int|
            0 <= k < n ==> is_space(#[trigger] lines[i][k])
    &&& forall|i: int, j: int|
        #![trigger lines[i], lines[j]]
        0 <= i < lines.len() && 0 <= j < lines.len() && lines[i].len() > 0 && lines[j].len() > 0
            ==> lines[i].take(n as int) == lines[j].take(n as int)
}

/// Whether some line is not empty.
pub open spec fn some_text(lines: Seq<Seq<char>>) -> bool {
    exists|i: int| 0 <= i < lines.len() && (#[trigger] lines[i]).len() > 0
}

/// Whether `n` is the length of the longest white space that all lines that are
/// not empty start with; zero where all lines are empty.
pub open spec fn is_shared_indent(lines: Seq<Seq<char>>, n: nat) -> bool {
    if some_text(lines) {
        shares_indent(lines, n) && !shares_indent(lines, n + 1)
    } else {
        n == 0
    }
}

/// The length of the longest white space that all lines that are not empty start
/// with.
pub open spec fn shared_indent(lines: Seq<Seq<char>>) -> nat {
    choose|n: nat| is_shared_indent(lines, n)
}

proof fn shorter_indents_are_shared(lines: Seq<Seq<char>>, n: nat, m: nat)
    requires
        shares_indent(lines, n),
        m <= n,
    ensures
        shares_indent(lines, m),
{
    assert forall|i: int, j: int|
        #![trigger lines[i], lines[j]]
        0 <= i < lines.len() && 0 <= j < lines.len() && lines[i].len() > 0 && lines[j].len()
            > 0 implies lines[i].take(m as int) == lines[j].take(m as int) by {
        assert(lines[i].take(m as int) =~= lines[i].take(n as int).take(m as int));
        assert(lines[j].take(m as int) =~= lines[j].take(n as int).take(m as int));
    }
}

/// No other length is that of the longest shared white space.
pub proof fn shared_indent_unique(lines: Seq<Seq<char>>, n: nat)
    requires
        is_shared_indent(lines, n),
    ensures
        shared_indent(lines) == n,
{
    let m = shared_indent(lines);
    assert(is_shared_indent(lines, m));
    if m < n {
        shorter_indents_are_shared(lines, n, m + 1);
    }
    if n < m {
        shorter_indents_are_shared(lines, m, n + 1);
    }
}

/// There always is a longest shared white space.
pub proof fn shared_indent_exists(lines: Seq<Seq<char>>)
    ensures
        is_shared_indent(lines, shared_indent(lines)),
{
    if some_text(lines) {
        let i = choose|i: int| 0 <= i < lines.len() && (#[trigger] lines[i]).len() > 0;
        assert forall|i: int, j: int|
            #![trigger lines[i], lines[j]]
            0 <= i < lines.len() && 0 <= j < lines.len() && lines[i].len() > 0 && lines[j].len()
                > 0 implies lines[i].take(0) == lines[j].take(0) by {
            assert(lines[i].take(0) =~= lines[j].take(0));
        }
        assert(shares_indent(lines, 0));
        let n = longest_shared(lines, i, 0);
        assert(is_shared_indent(lines, n));
    } else {
        assert(is_shared_indent(lines, 0));
    }
}

proof fn longest_shared(lines: Seq<Seq<char>>, i: int, n: nat) -> (r: nat)
    requires
        0 <= i < lines.len(),
        lines[i].len() > 0,
        shares_indent(lines, n),
    ensures
        shares_indent(lines, r),
        !shares_indent(lines, r + 1),
    decreases lines[i].len() - n,
{
    if shares_indent(lines, n + 1) {
        longest_shared(lines, i, n + 1)
    } else {
        n
    }
}

/// Whether a text ends with a line feed.
pub open spec fn ends_with_newline(s: Seq<char>) -> bool {
    s.len() > 0 && s.last() == '\n'
}

/// The lines with line feeds between them, and one at the end where `s` has one.
pub open spec fn rejoined(lines: Seq<Seq<char>>, s: Seq<char>) -> Seq<char> {
    joined(lines, seq!['\n']) + (if ends_with_newline(s) {
        seq!['\n']
    } else {
        Seq::empty()
    })
}

/// The lines with `n` characters taken off each line that is not empty.
pub open spec fn stripped(lines: Seq<Seq<char>>, n: nat) -> Seq<Seq<char>> {
    Seq::new(
        lines.len(),
        |i: int|
            if lines[i].len() == 0 {
                lines[i]
            } else {
                lines[i].skip(n as int)
            },
    )
}

/// A text without the white space that all its lines start with.
pub open spec fn dedented(s: Seq<char>) -> Seq<char> {
    let n = shared_indent(lines(s));
    if n == 0 {
        s
    } else {
        rejoined(stripped(lines(s), n), s)
    }
}

/// Whether a line that is not empty goes on otherwise than `first` after `n`
/// characters.
spec fn parts_at(first: Seq<char>, line: Seq<char>, n: nat) -> bool {
    line.len() > 0 && (n == line.len() || line[n as int] != first[n as int])
}

/// How many of the first `limit` characters of `first` are white space that
/// `line` starts with too.
fn common_indent(first: &Vec<char>, line: &Vec<char>, limit: usize) -> (r: usize)
    requires
        limit <= first@.len(),
    ensures
        r <= limit,
        r <= line@.len(),
        line@.take(r as int) == first@.take(r as int),
        forall|k: int| 0 <= k < r ==> is_space(#[trigger] line@[k]),
        r < limit && r < line@.len() ==> line@[r as int] != first@[r as int] || !is_space(
            line@[r as int],
        ),
{
    let mut i: usize = 0;
    while i < limit && i < line.len() && line[i] == first[i] && is_white_space(line[i])
        invariant
            i <= limit <= first@.len(),
            i <= line@.len(),
            forall|k: int| 0 <= k < i ==> is_space(#[trigger] line@[k]),
            forall|k: int| 0 <= k < i ==> (#[trigger] line@[k]) == first@[k],
        decreases limit - i,
    {
        i += 1;
    }
    proof {
        assert(line@.take(i as int) =~= first@.take(i as int));
    }
    i
}

/// The length of the longest white space that all lines that are not empty start
/// with.
fn min_indent(lines: &Vec<Vec<char>>) -> (r: usize)
    ensures
        r == shared_indent(texts(lines@)),
        forall|i: int|
            0 <= i < lines@.len() && (#[trigger] lines@[i])@.len() > 0 ==> r <= lines@[i]@.len(),
{
    let ghost all = texts(lines@);
    let mut first: usize = 0;
    while first < lines.len() && lines[first].len() == 0
        invariant
            first <= lines@.len(),
            all == texts(lines@),
            forall|k: int| 0 <= k < first ==> (#[trigger] all[k]).len() == 0,
        decreases lines@.len() - first,
    {
        first += 1;
    }
    if first >= lines.len() {
        proof {
            assert(is_shared_indent(all, 0));
            shared_indent_unique(all, 0);
        }
        return 0;
    }
    let ghost f = first as int;
    proof {
        assert(all[f] == lines@[f]@);
    }
    let mut n: usize = lines[first].len();
    let mut i: usize = first;
    while i < lines.len()
        invariant
            f == first,
            first <= i <= lines@.len(),
            first < lines@.len(),
            all == texts(lines@),
            all[f] == lines@[f]@,
            all[f].len() > 0,
            n <= all[f].len(),
            i == first ==> n == all[f].len(),
            i > first ==> forall|k: int| 0 <= k < n ==> is_space(#[trigger] all[f][k]),
            forall|j: int|
                #![trigger all[j]]
                f <= j < i && all[j].len() > 0 ==> n <= all[j].len() && all[j].take(n as int)
                    == all[f].take(n as int),
            i > first && n < all[f].len() ==> !is_space(all[f][n as int]) || exists|j: int|
                f <= j < i && #[trigger] parts_at(all[f], all[j], n as nat),
        decreases lines@.len() - i,
    {
        if lines[i].len() > 0 {
            let ghost before = n as int;
            let m: usize = common_indent(&lines[first], &lines[i], n);
            proof {
                let line = all[i as int];
                assert(line == lines@[i as int]@);
                assert forall|k: int| 0 <= k < m implies is_space(#[trigger] all[f][k]) by {
                    assert(all[f][k] == all[f].take(m as int)[k]);
                    assert(line[k] == line.take(m as int)[k]);
                }
                assert forall|j: int|
                    #![trigger all[j]]
                    f <= j < i && all[j].len() > 0 implies m <= all[j].len() && all[j].take(
                    m as int,
                ) == all[f].take(m as int) by {
                    assert(all[j].take(m as int) =~= all[j].take(before).take(m as int));
                    assert(all[f].take(m as int) =~= all[f].take(before).take(m as int));
                }
                if m < before {
                    if is_space(all[f][m as int]) {
                        assert(parts_at(all[f], all[i as int], m as nat));
                    }
                } else if i > first && m < all[f].len() && is_space(all[f][m as int]) {
                    let j = choose|j: int|
                        f <= j < i && #[trigger] parts_at(all[f], all[j], m as nat);
                    assert(parts_at(all[f], all[j], m as nat));
                }
            }
            n = m;
        }
        i += 1;
    }
    proof {
        assert(some_text(all)) by {
            assert(all[f].len() > 0);
        }
        assert forall|j: int|
            #![trigger all[j]]
            0 <= j < all.len() && all[j].len() > 0 implies n <= all[j].len() && all[j].take(
            n as int,
        ) == all[f].take(n as int) by {}
        assert forall|j: int|
            #![trigger all[j]]
            0 <= j < all.len() && all[j].len() > 0 implies n <= all[j].len() && forall|k: int|
            0 <= k < n ==> is_space(#[trigger] all[j][k]) by {
            assert forall|k: int| 0 <= k < n implies is_space(#[trigger] all[j][k]) by {
                assert(all[j][k] == all[j].take(n as int)[k]);
                assert(all[f][k] == all[f].take(n as int)[k]);
            }
        }
        assert(shares_indent(all, n as nat));
        let more = n as nat + 1;
        if shares_indent(all, more) {
            assert(n < all[f].len());
            assert(is_space(all[f][n as int]));
            let j = choose|j: int|
                f <= j < all.len() && #[trigger] parts_at(all[f], all[j], n as nat);
            assert(all[j].take(more as int) == all[f].take(more as int));
            assert(all[j].take(more as int)[n as int] == all[j][n as int]);
            assert(all[f].take(more as int)[n as int] == all[f][n as int]);
        }
        shared_indent_unique(all, n as nat);
        assert forall|k: int| 0 <= k < lines@.len() && (#[trigger] lines@[k])@.len() > 0 implies n
            <= lines@[k]@.len() by {
            assert(all[k].len() > 0);
        }
    }
    n
}

/// `s` without its first `n` characters.
fn strip_leading_chars(s: &Vec<char>, n: usize) -> (r: Vec<char>)
    requires
        n <= s@.len(),
    ensures
        r@ == s@.skip(n as int),
{
    let part = vstd::slice::slice_subrange(s.as_slice(), n, s.len());
    proof {
        assert(part@ =~= s@.skip(n as int));
    }
    to_vec(part)
}

/// Puts the lines together again.
fn rejoin(parts: &Vec<Vec<char>>, text: &Vec<char>) -> (r: Vec<char>)
    ensures
        r@ == rejoined(texts(parts@), text@),
{
    let mut result = join_with(parts, '\n');
    if text.len() > 0 && text[text.len() - 1] == '\n' {
        result.push('\n');
    }
    proof {
        assert(result@ =~= rejoined(texts(parts@), text@));
    }
    result
}

fn dedent_chars(text: &Vec<char>) -> (r: Vec<char>)
    ensures
        r@ == dedented(text@),
{
    let parts = lines_of(text.as_slice());
    let n: usize = min_indent(&parts);
    if n == 0 {
        return to_vec(text.as_slice());
    }
    let ghost all = texts(parts@);
    let mut out: Vec<Vec<char>> = Vec::new();
    let mut i: usize = 0;
    while i < parts.len()
        invariant
            i <= parts@.len(),
            all == texts(parts@),
            texts(out@) == stripped(all, n as nat).take(i as int),
            forall|k: int|
                0 <= k < parts@.len() && (#[trigger] parts@[k])@.len() > 0 ==> n
                    <= parts@[k]@.len(),
        decreases parts@.len() - i,
    {
        let ghost before = texts(out@);
        let line = if parts[i].len() == 0 {
            Vec::new()
        } else {
            strip_leading_chars(&parts[i], n)
        };
        out.push(line);
        i += 1;
        proof {
            assert(line@ =~= stripped(all, n as nat)[i - 1]);
            assert(texts(out@) =~= before.push(line@));
            assert(stripped(all, n as nat).take(i as int) =~= stripped(all, n as nat).take(
                i - 1,
            ).push(stripped(all, n as nat)[i - 1]));
        }
    }
    proof {
        assert(stripped(all, n as nat).take(all.len() as int) =~= stripped(all, n as nat));
    }
    rejoin(&out, text)
}

/// Takes off the white space that all lines start with; empty lines do not count.
pub fn dedent(text: &str) -> (r: String)
    ensures
        r@ == dedented(text@),
{
    let chars = chars_of(text);
    string_of(dedent_chars(&chars).as_slice())
}

// ---- Lines that stand alone ----

/// Whether a line ends with a colon or a brace.
pub open spec fn structural_end(line: Seq<char>) -> bool {
    line.len() > 0 && (line.last() == ':' || line.last() == '{' || line.last() == '}')
}

fn ends_with_structural_punct(line: &[char]) -> (r: bool)
    ensures
        r == structural_end(line@),
{
    if line.len() == 0 {
        return false;
    }
    let last = line[line.len() - 1];
    last == ':' || last == '{' || last == '}'
}

/// Whether a line starts with a bullet: a dash, star or plus, and a space.
pub open spec fn bullet(line: Seq<char>) -> bool {
    line.len() >= 2 && (line[0] == '-' || line[0] == '*' || line[0] == '+') && line[1] == ' '
}

fn starts_with_list_marker(stripped: &[char]) -> (r: bool)
    ensures
        r == bullet(stripped@),
{
    stripped.len() >= 2 && (stripped[0] == '-' || stripped[0] == '*' || stripped[0] == '+')
        && stripped[1] == ' '
}

/// An ASCII digit.
pub open spec fn is_digit(c: char) -> bool {
    '0' <= c <= '9'
}

/// Whether a line starts with a number of a list: one to four digits, a full
/// stop and a space.
pub open spec fn ordered_marker(line: Seq<char>) -> bool {
    let n = find(line, '.') as int;
    &&& 1 <= n <= 4
    &&& n + 1 < line.len()
    &&& forall|i: int| 0 <= i < n ==> is_digit(#[trigger] line[i])
    &&& line[n + 1] == ' '
}

fn starts_with_ordered_marker(stripped: &[char]) -> (r: bool)
    ensures
        r == ordered_marker(stripped@),
{
    let n: usize = find_char(stripped, '.');
    proof {
        find_bounds(stripped@, '.');
    }
    if n == 0 || n > 4 || n >= stripped.len() || stripped.len() - n < 2 {
        return false;
    }
    let mut i: usize = 0;
    while i < n
        invariant
            i <= n < stripped@.len(),
            n == find(stripped@, '.'),
            forall|k: int| 0 <= k < i ==> is_digit(#[trigger] stripped@[k]),
        decreases n - i,
    {
        let c = stripped[i];
        if !('0' <= c && c <= '9') {
            proof {
                assert(!is_digit(stripped@[i as int]));
            }
            return false;
        }
        i += 1;
    }
    stripped[n + 1] == ' '
}

/// How many spaces a line starts with.
pub open spec fn indent(line: Seq<char>) -> nat
    decreases line.len(),
{
    if line.len() > 0 && line[0] == ' ' {
        1 + indent(line.skip(1))
    } else {
        0
    }
}

proof fn indent_bounds(line: Seq<char>)
    ensures
        indent(line) <= line.len(),
        forall|i: int| 0 <= i < indent(line) ==> (#[trigger] line[i]) == ' ',
        indent(line) < line.len() ==> line[indent(line) as int] != ' ',
    decreases line.len(),
{
    if line.len() > 0 && line[0] == ' ' {
        indent_bounds(line.skip(1));
        assert forall|i: int| 0 <= i < indent(line) implies (#[trigger] line[i]) == ' ' by {
            if i > 0 {
                assert(line[i] == line.skip(1)[i - 1]);
            }
        }
        if indent(line) < line.len() {
            assert(line[indent(line) as int] == line.skip(1)[indent(line) - 1]);
        }
    }
}

fn indent_of(line: &Vec<char>) -> (r: usize)
    ensures
        r == indent(line@),
        r <= line@.len(),
{
    let mut i: usize = 0;
    while i < line.len() && line[i] == ' '
        invariant
            i <= line@.len(),
            forall|k: int| 0 <= k < i ==> (#[trigger] line@[k]) == ' ',
        decreases line@.len() - i,
    {
        i += 1;
    }
    proof {
        indent_bounds(line@);
        let n = indent(line@) as int;
        if n < i {
            assert(line@[n] == ' ');
        }
        if i < n {
            assert(line@[i as int] == ' ');
        }
    }
    i
}

/// Whether a line is indented as code: four spaces, or fewer and then a tab.
pub open spec fn code_indent(line: Seq<char>) -> bool {
    let n = indent(line) as int;
    n >= 4 || (n < line.len() && line[n] == '\t')
}

fn has_code_indent(line: &Vec<char>) -> (r: bool)
    ensures
        r == code_indent(line@),
{
    let n: usize = indent_of(line);
    n >= 4 || (n < line.len() && line[n] == '\t')
}

/// Whether a line is never merged with its neighbours: it is empty, ends as a
/// label or a block does, or is a heading, a table row, a fence, an item of a
/// list or code.
pub open spec fn stands_alone(line: Seq<char>) -> bool {
    let s = trim_start(line);
    ||| line.len() == 0
    ||| structural_end(trim_end(line))
    ||| s.len() > 0 && (s[0] == '#' || s[0] == '|')
    ||| s.len() >= 3 && s[0] == '`' && s[1] == '`' && s[2] == '`'
    ||| bullet(s)
    ||| ordered_marker(s)
    ||| code_indent(line)
}

fn stands_alone_chars(line: &Vec<char>) -> (r: bool)
    ensures
        r == stands_alone(line@),
{
    if line.len() == 0 {
        return true;
    }
    if ends_with_structural_punct(trimmed_end(line.as_slice())) {
        return true;
    }
    let stripped = trimmed_start(line.as_slice());
    if stripped.len() > 0 && (stripped[0] == '#' || stripped[0] == '|') {
        return true;
    }
    if stripped.len() >= 3 && stripped[0] == '`' && stripped[1] == '`' && stripped[2] == '`' {
        return true;
    }
    if starts_with_list_marker(stripped) {
        return true;
    }
    if starts_with_ordered_marker(stripped) {
        return true;
    }
    has_code_indent(line)
}

/// Whether a line is never merged with its neighbours.
pub fn is_intentional_break(line: &str) -> (r: bool)
    ensures
        r == stands_alone(line@),
{
    stands_alone_chars(&chars_of(line))
}

// ---- The width at which a text was wrapped ----

/// How many lines of prose have the given length.
pub open spec fn prose_count(lines: Seq<Seq<char>>, width: nat) -> nat
    decreases lines.len(),
{
    if lines.len() == 0 {
        0
    } else {
        prose_count(lines.drop_last(), width) + (if !stands_alone(lines.last())
            && lines.last().len() == width {
            1nat
        } else {
            0
        })
    }
}

/// Whether `width` is the most frequent length of a line of prose, the larger of
/// equals, and occurs at least twice; zero where no length occurs twice.
pub open spec fn is_wrap_width(lines: Seq<Seq<char>>, width: nat) -> bool {
    if width == 0 {
        forall|w: nat| #[trigger] prose_count(lines, w) < 2
    } else {
        &&& prose_count(lines, width) >= 2
        &&& forall|w: nat|
            {
                ||| #[trigger] prose_count(lines, w) < prose_count(lines, width)
                ||| prose_count(lines, w) == prose_count(lines, width) && w <= width
            }
    }
}

/// The width at which a text was wrapped, zero where none can be told.
pub open spec fn wrap_width(lines: Seq<Seq<char>>) -> nat {
    choose|w: nat| is_wrap_width(lines, w)
}

/// No other width is the most frequent.
pub proof fn wrap_width_unique(lines: Seq<Seq<char>>, width: nat)
    requires
        is_wrap_width(lines, width),
    ensures
        wrap_width(lines) == width,
{
    let other = wrap_width(lines);
    assert(is_wrap_width(lines, other));
    assert(prose_count(lines, width) >= 0);
    assert(prose_count(lines, other) >= 0);
}

proof fn prose_is_not_empty(lines: Seq<Seq<char>>)
    ensures
        prose_count(lines, 0) == 0,
    decreases lines.len(),
{
    if lines.len() > 0 {
        prose_is_not_empty(lines.drop_last());
    }
}

proof fn most_frequent(lines: Seq<Seq<char>>) -> (best: nat)
    ensures
        forall|w: nat|
            {
                ||| #[trigger] prose_count(lines, w) < prose_count(lines, best)
                ||| prose_count(lines, w) == prose_count(lines, best) && (w <= best || prose_count(
                    lines,
                    best,
                ) == 0)
            },
    decreases lines.len(),
{
    if lines.len() == 0 {
        0
    } else {
        let front = lines.drop_last();
        let m = most_frequent(front);
        let width = lines.last().len();
        assert forall|w: nat| true implies #[trigger] prose_count(lines, w) == prose_count(front, w)
            + (if !stands_alone(lines.last()) && width == w {
            1nat
        } else {
            0
        }) by {}
        assert(prose_count(front, width) >= 0);
        if !stands_alone(lines.last()) && (prose_count(front, width) + 1 > prose_count(front, m)
            || width >= m && prose_count(front, width) + 1 == prose_count(front, m)) {
            assert forall|w: nat| true implies {
                ||| #[trigger] prose_count(lines, w) < prose_count(lines, width)
                ||| prose_count(lines, w) == prose_count(lines, width) && w <= width
            } by {
                assert(prose_count(front, w) <= prose_count(front, m));
            }
            width
        } else {
            assert forall|w: nat| true implies {
                ||| #[trigger] prose_count(lines, w) < prose_count(lines, m)
                ||| prose_count(lines, w) == prose_count(lines, m) && (w <= m || prose_count(
                    lines,
                    m,
                ) == 0)
            } by {
                assert(prose_count(front, w) <= prose_count(front, m));
            }
            m
        }
    }
}

/// There always is a width, or none can be told.
pub proof fn wrap_width_exists(lines: Seq<Seq<char>>)
    ensures
        is_wrap_width(lines, wrap_width(lines)),
{
    let best = most_frequent(lines);
    prose_is_not_empty(lines);
    if prose_count(lines, best) >= 2 {
        assert(is_wrap_width(lines, best));
    } else {
        assert(is_wrap_width(lines, 0));
    }
}

proof fn prose_count_bound(lines: Seq<Seq<char>>, width: nat)
    ensures
        prose_count(lines, width) <= lines.len(),
    decreases lines.len(),
{
    if lines.len() > 0 {
        prose_count_bound(lines.drop_last(), width);
    }
}

fn wrap_width_of(lines: &Vec<Vec<char>>) -> (r: usize)
    ensures
        r == wrap_width(texts(lines@)),
{
    let ghost all = texts(lines@);
    let mut freq: HashMap<usize, usize> = HashMap::new();
    let mut best: usize = 0;
    let mut best_count: usize = 0;
    let mut i: usize = 0;
    proof {
        assert(all.take(0) =~= Seq::<Seq<char>>::empty());
    }
    while i < lines.len()
        invariant
            i <= lines@.len(),
            all == texts(lines@),
            forall|w: usize| #[trigger]
                freq@.contains_key(w) ==> freq@[w] == prose_count(all.take(i as int), w as nat),
            forall|w: nat|
                (w > usize::MAX || !freq@.contains_key(w as usize)) ==> #[trigger] prose_count(
                    all.take(i as int),
                    w,
                ) == 0,
            best_count == prose_count(all.take(i as int), best as nat),
            forall|w: nat|
                {
                    ||| #[trigger] prose_count(all.take(i as int), w) < best_count
                    ||| prose_count(all.take(i as int), w) == best_count && (w <= best
                        || best_count == 0)
                },
        decreases lines@.len() - i,
    {
        let ghost before = all.take(i as int);
        let ghost after = all.take(i + 1);
        proof {
            assert(after.drop_last() =~= before);
            assert(after.last() == lines@[i as int]@);
        }
        if !stands_alone_chars(&lines[i]) {
            let width: usize = lines[i].len();
            let count: usize = match freq.get(&width) {
                Some(n) => *n,
                None => 0,
            };
            proof {
                prose_count_bound(before, width as nat);
                assert(count == prose_count(before, width as nat));
                assert forall|w: nat| #[trigger]
                    prose_count(after, w) == prose_count(before, w) + (if w == width {
                        1nat
                    } else {
                        0
                    }) by {}
            }
            freq.insert(width, count + 1);
            if count + 1 > best_count || (count + 1 == best_count && width > best) {
                best = width;
                best_count = count + 1;
            }
        } else {
            proof {
                assert forall|w: nat| #[trigger]
                    prose_count(after, w) == prose_count(before, w) by {}
            }
        }
        i += 1;
    }
    proof {
        assert(all.take(all.len() as int) =~= all);
        prose_is_not_empty(all);
    }
    if best_count >= 2 {
        proof {
            wrap_width_unique(all, best as nat);
        }
        best
    } else {
        proof {
            assert forall|w: nat| #[trigger] prose_count(all, w) < 2 by {}
            wrap_width_unique(all, 0);
        }
        0
    }
}

/// The width at which the lines were wrapped; zero where none can be told.
pub fn detect_wrap_width(lines: &Vec<&str>) -> (r: usize)
    ensures
        r == wrap_width(Seq::new(lines@.len(), |i: int| lines@[i]@)),
        is_wrap_width(Seq::new(lines@.len(), |i: int| lines@[i]@), r as nat),
{
    let ghost all = Seq::new(lines@.len(), |i: int| lines@[i]@);
    let mut parts: Vec<Vec<char>> = Vec::new();
    let mut i: usize = 0;
    while i < lines.len()
        invariant
            i <= lines@.len(),
            all == Seq::new(lines@.len(), |i: int| lines@[i]@),
            texts(parts@) == all.take(i as int),
        decreases lines@.len() - i,
    {
        let ghost before = texts(parts@);
        parts.push(chars_of(lines[i]));
        i += 1;
        proof {
            assert(texts(parts@) =~= before.push(all[i - 1]));
            assert(all.take(i as int) =~= all.take(i - 1).push(all[i - 1]));
        }
    }
    proof {
        assert(all.take(all.len() as int) =~= all);
        wrap_width_exists(texts(parts@));
    }
    wrap_width_of(&parts)
}

// ---- Letting prose flow again ----

/// Whether a line is prose that reaches the width, give or take two characters.
pub open spec fn reaches(line: Seq<char>, width: nat) -> bool {
    !stands_alone(line) && width - 2 <= line.len() <= width + 2
}

/// How many lines, from the first on, reach the width.
pub open spec fn full_run(lines: Seq<Seq<char>>, width: nat) -> nat
    decreases lines.len(),
{
    if lines.len() > 0 && reaches(lines[0], width) {
        1 + full_run(lines.skip(1), width)
    } else {
        0
    }
}

/// Whether the first line goes on in the second.
pub open spec fn goes_on(lines: Seq<Seq<char>>, width: nat) -> bool {
    lines.len() >= 2 && reaches(lines[0], width) && !stands_alone(lines[1])
}

/// How many lines make up the paragraph that the first line starts: those that
/// reach the width, and a shorter line of prose after them.
pub open spec fn paragraph_len(lines: Seq<Seq<char>>, width: nat) -> nat {
    let n = 1 + full_run(lines.skip(1), width);
    if n < lines.len() && !stands_alone(lines[n as int]) && lines[n as int].len() < width {
        n + 1
    } else {
        n
    }
}

/// The first `n` lines as one, with a space between what they hold.
pub open spec fn paragraph(lines: Seq<Seq<char>>, n: nat) -> Seq<char> {
    joined(
        Seq::new(
            n,
            |i: int|
                if i == 0 {
                    trim_end(lines[0])
                } else {
                    trim(lines[i])
                },
        ),
        seq![' '],
    )
}

/// The lines that reach the width are among the lines.
pub proof fn full_run_bound(lines: Seq<Seq<char>>, width: nat)
    ensures
        full_run(lines, width) <= lines.len(),
    decreases lines.len(),
{
    if lines.len() > 0 && reaches(lines[0], width) {
        full_run_bound(lines.skip(1), width);
    }
}

/// The lines with each wrapped paragraph on a line of its own.
pub open spec fn flowing(lines: Seq<Seq<char>>, width: nat) -> Seq<Seq<char>>
    decreases lines.len(),
{
    let n = paragraph_len(lines, width);
    if lines.len() == 0 {
        Seq::empty()
    } else if goes_on(lines, width) {
        proof {
            full_run_bound(lines.skip(1), width);
        }
        seq![paragraph(lines, n)] + flowing(lines.skip(n as int), width)
    } else {
        seq![lines[0]] + flowing(lines.skip(1), width)
    }
}

/// A text with the prose that was wrapped flowing again.
pub open spec fn unwrapped(s: Seq<char>) -> Seq<char> {
    let width = wrap_width(lines(s));
    if width == 0 {
        s
    } else {
        rejoined(flowing(lines(s), width), s)
    }
}

fn reaches_width(line: &Vec<char>, width: usize) -> (r: bool)
    ensures
        r == reaches(line@, width as nat),
{
    !stands_alone_chars(line) && line.len() >= width.saturating_sub(2) && line.len()
        <= width.saturating_add(2)
}

/// Whether the line at `idx` goes on in the next.
fn should_join(lines: &Vec<Vec<char>>, idx: usize, width: usize) -> (r: bool)
    requires
        idx < lines@.len(),
    ensures
        r == goes_on(texts(lines@).skip(idx as int), width as nat),
{
    let ghost rest = texts(lines@).skip(idx as int);
    proof {
        assert(rest[0] == lines@[idx as int]@);
        if rest.len() >= 2 {
            assert(rest[1] == lines@[idx + 1]@);
        }
    }
    lines.len() - idx >= 2 && reaches_width(&lines[idx], width) && !stands_alone_chars(
        &lines[idx + 1],
    )
}

proof fn paragraph_grows(lines: Seq<Seq<char>>, n: nat)
    requires
        1 <= n < lines.len(),
    ensures
        paragraph(lines, n + 1) == paragraph(lines, n) + seq![' '] + trim(lines[n as int]),
        paragraph(lines, 1) == trim_end(lines[0]),
{
    let part = |i: int|
        if i == 0 {
            trim_end(lines[0])
        } else {
            trim(lines[i])
        };
    assert(Seq::new(n + 1, part).drop_last() =~= Seq::new(n, part));
}

fn unwrap_chars(text: &Vec<char>) -> (r: Vec<char>)
    ensures
        r@ == unwrapped(text@),
{
    let parts = lines_of(text.as_slice());
    let width: usize = wrap_width_of(&parts);
    if width == 0 {
        return to_vec(text.as_slice());
    }
    let ghost all = texts(parts@);
    let ghost w = width as nat;
    let mut out: Vec<Vec<char>> = Vec::new();
    let mut idx: usize = 0;
    proof {
        assert(all.skip(0) =~= all);
        assert(texts(out@) + flowing(all, w) =~= flowing(all, w));
    }
    while idx < parts.len()
        invariant
            idx <= parts@.len(),
            all == texts(parts@),
            w == width,
            texts(out@) + flowing(all.skip(idx as int), w) == flowing(all, w),
        decreases parts@.len() - idx,
    {
        let ghost before = texts(out@);
        let ghost rest = all.skip(idx as int);
        let ghost start = idx as int;
        proof {
            assert(rest[0] == parts@[idx as int]@);
        }
        if should_join(&parts, idx, width) {
            let mut flowed = to_vec(trimmed_end(parts[idx].as_slice()));
            idx += 1;
            proof {
                paragraph_grows(rest, 1);
                assert(all.skip(idx as int) =~= rest.skip(1));
            }
            while idx < parts.len() && reaches_width(&parts[idx], width)
                invariant
                    0 <= start < idx <= parts@.len(),
                    all == texts(parts@),
                    w == width,
                    rest == all.skip(start),
                    flowed@ == paragraph(rest, (idx - start) as nat),
                    full_run(rest.skip(1), w) == idx - start - 1 + full_run(
                        all.skip(idx as int),
                        w,
                    ),
                decreases parts@.len() - idx,
            {
                proof {
                    paragraph_grows(rest, (idx - start) as nat);
                    assert(rest[idx - start] == parts@[idx as int]@);
                    assert(all.skip(idx as int)[0] == parts@[idx as int]@);
                    assert(all.skip(idx as int).skip(1) =~= all.skip(idx + 1));
                }
                flowed.push(' ');
                push_all(&mut flowed, trimmed(parts[idx].as_slice()));
                idx += 1;
                proof {
                    assert(flowed@ =~= paragraph(rest, (idx - start) as nat));
                }
            }
            proof {
                if idx < parts@.len() {
                    assert(all.skip(idx as int)[0] == parts@[idx as int]@);
                    assert(rest[idx - start] == parts@[idx as int]@);
                }
            }
            if idx < parts.len() && !stands_alone_chars(&parts[idx]) && parts[idx].len() < width {
                proof {
                    paragraph_grows(rest, (idx - start) as nat);
                }
                flowed.push(' ');
                push_all(&mut flowed, trimmed(parts[idx].as_slice()));
                idx += 1;
                proof {
                    assert(flowed@ =~= paragraph(rest, (idx - start) as nat));
                }
            }
            proof {
                assert(idx - start == paragraph_len(rest, w));
                assert(rest.skip(idx - start) =~= all.skip(idx as int));
            }
            out.push(flowed);
            proof {
                assert(texts(out@) =~= before.push(flowed@));
                assert(before.push(flowed@) + flowing(all.skip(idx as int), w) =~= before + (
                seq![flowed@] + flowing(all.skip(idx as int), w)));
            }
        } else {
            let line = to_vec(parts[idx].as_slice());
            out.push(line);
            idx += 1;
            proof {
                assert(rest.skip(1) =~= all.skip(idx as int));
                assert(texts(out@) =~= before.push(line@));
                assert(before.push(line@) + flowing(all.skip(idx as int), w) =~= before + (
                seq![line@] + flowing(all.skip(idx as int), w)));
            }
        }
    }
    proof {
        assert(all.skip(idx as int) =~= Seq::<Seq<char>>::empty());
        assert(texts(out@) =~= texts(out@) + flowing(all.skip(idx as int), w));
    }
    rejoin(&out, text)
}

/// Joins the lines of prose that were wrapped at a fixed width; a line that
/// stands alone stays as it is.
pub fn unwrap_lines(text: &str) -> (r: String)
    ensures
        r@ == unwrapped(text@),
{
    let chars = chars_of(text);
    string_of(unwrap_chars(&chars).as_slice())
}

/// The text to put on the clipboard: cleaned up where the session is an AI
/// coding session and the user wants it, and unchanged otherwise.
pub fn prepare_copy_text(text: &str, claude_active: bool, cleanup_enabled: bool) -> (r: String)
    ensures
        r@ == if claude_active && cleanup_enabled {
            unwrapped(dedented(text@))
        } else {
            text@
        },
{
    if !claude_active || !cleanup_enabled {
        return text.to_owned();
    }
    let chars = chars_of(text);
    let dedented = dedent_chars(&chars);
    string_of(unwrap_chars(&dedented).as_slice())
}

// ---- What the clean-up keeps ----

/// A text without its white space.
pub open spec fn ink(s: Seq<char>) -> Seq<char>
    decreases s.len(),
{
    if s.len() == 0 {
        Seq::empty()
    } else if is_space(s.last()) {
        ink(s.drop_last())
    } else {
        ink(s.drop_last()).push(s.last())
    }
}

/// Texts one after the other, without their white space.
spec fn ink_of(parts: Seq<Seq<char>>) -> Seq<char>
    decreases parts.len(),
{
    if parts.len() == 0 {
        Seq::empty()
    } else {
        ink_of(parts.drop_last()) + ink(parts.last())
    }
}

proof fn ink_concat(a: Seq<char>, b: Seq<char>)
    ensures
        ink(a + b) == ink(a) + ink(b),
    decreases b.len(),
{
    if b.len() == 0 {
        assert(a + b =~= a);
        assert(ink(a) + ink(b) =~= ink(a));
    } else {
        ink_concat(a, b.drop_last());
        assert((a + b).drop_last() =~= a + b.drop_last());
        assert(ink(a + b) =~= ink(a) + ink(b));
    }
}

proof fn ink_of_spaces(s: Seq<char>)
    requires
        forall|i: int| 0 <= i < s.len() ==> is_space(#[trigger] s[i]),
    ensures
        ink(s) == Seq::<char>::empty(),
    decreases s.len(),
{
    if s.len() > 0 {
        assert(is_space(s[s.len() - 1]));
        assert forall|i: int| 0 <= i < s.drop_last().len() implies is_space(
            #[trigger] s.drop_last()[i],
        ) by {
            assert(s.drop_last()[i] == s[i]);
        }
        ink_of_spaces(s.drop_last());
    }
}

proof fn ink_skip_spaces(s: Seq<char>, n: int)
    requires
        0 <= n <= s.len(),
        forall|i: int| 0 <= i < n ==> is_space(#[trigger] s[i]),
    ensures
        ink(s.skip(n)) == ink(s),
{
    assert(s.take(n) + s.skip(n) =~= s);
    ink_concat(s.take(n), s.skip(n));
    assert forall|i: int| 0 <= i < s.take(n).len() implies is_space(#[trigger] s.take(n)[i]) by {
        assert(s.take(n)[i] == s[i]);
    }
    ink_of_spaces(s.take(n));
    assert(Seq::<char>::empty() + ink(s.skip(n)) =~= ink(s.skip(n)));
}

proof fn ink_take_spaces(s: Seq<char>, n: int)
    requires
        0 <= n <= s.len(),
        forall|i: int| n <= i < s.len() ==> is_space(#[trigger] s[i]),
    ensures
        ink(s.take(n)) == ink(s),
{
    assert(s.take(n) + s.skip(n) =~= s);
    ink_concat(s.take(n), s.skip(n));
    assert forall|i: int| 0 <= i < s.skip(n).len() implies is_space(#[trigger] s.skip(n)[i]) by {
        assert(s.skip(n)[i] == s[i + n]);
    }
    ink_of_spaces(s.skip(n));
    assert(ink(s.take(n)) + Seq::<char>::empty() =~= ink(s.take(n)));
}

proof fn ink_trim(s: Seq<char>)
    ensures
        ink(trim_end(s)) == ink(s),
        ink(trim(s)) == ink(s),
{
    leading_space_bounds(s);
    trailing_space_bounds(s);
    ink_take_spaces(s, s.len() - crate::text::trailing_space(s));
    ink_skip_spaces(s, crate::text::leading_space(s) as int);
    let t = trim_start(s);
    trailing_space_bounds(t);
    ink_take_spaces(t, t.len() - crate::text::trailing_space(t));
}

proof fn ink_of_concat(a: Seq<Seq<char>>, b: Seq<Seq<char>>)
    ensures
        ink_of(a + b) == ink_of(a) + ink_of(b),
    decreases b.len(),
{
    if b.len() == 0 {
        assert(a + b =~= a);
        assert(ink_of(a) + ink_of(b) =~= ink_of(a));
    } else {
        ink_of_concat(a, b.drop_last());
        assert((a + b).drop_last() =~= a + b.drop_last());
        assert(ink_of(a + b) =~= ink_of(a) + ink_of(b));
    }
}

proof fn ink_of_one(part: Seq<char>)
    ensures
        ink_of(seq![part]) == ink(part),
{
    assert(seq![part].drop_last() =~= Seq::<Seq<char>>::empty());
    assert(ink_of(seq![part].drop_last()) =~= Seq::<char>::empty());
    assert(ink_of(seq![part]) =~= ink(part));
}

proof fn ink_joined(parts: Seq<Seq<char>>, separator: char)
    requires
        is_space(separator),
    ensures
        ink(joined(parts, seq![separator])) == ink_of(parts),
    decreases parts.len(),
{
    if parts.len() == 1 {
        ink_of_one(parts[0]);
        assert(parts =~= seq![parts[0]]);
    } else if parts.len() > 1 {
        ink_joined(parts.drop_last(), separator);
        let front = joined(parts.drop_last(), seq![separator]);
        ink_concat(front + seq![separator], parts.last());
        ink_concat(front, seq![separator]);
        ink_of_spaces(seq![separator]);
        assert(ink(front) + Seq::<char>::empty() =~= ink(front));
    }
}

proof fn ink_same(a: Seq<Seq<char>>, b: Seq<Seq<char>>)
    requires
        a.len() == b.len(),
        forall|i: int| 0 <= i < a.len() ==> ink(#[trigger] a[i]) == ink(b[i]),
    ensures
        ink_of(a) == ink_of(b),
    decreases a.len(),
{
    if a.len() > 0 {
        assert forall|i: int| 0 <= i < a.drop_last().len() implies ink(#[trigger] a.drop_last()[i])
            == ink(b.drop_last()[i]) by {
            assert(a.drop_last()[i] == a[i]);
        }
        ink_same(a.drop_last(), b.drop_last());
        assert(ink(a[a.len() - 1]) == ink(b[a.len() - 1]));
    }
}

proof fn ink_lines(s: Seq<char>)
    ensures
        ink_of(lines(s)) == ink(s),
    decreases s.len(),
{
    find_bounds(s, '\n');
    let n = find(s, '\n') as int;
    if s.len() == 0 {
    } else if n >= s.len() {
        ink_of_one(s);
    } else {
        let line = s.take(n);
        let end = crate::text::without_cr(line);
        let rest = s.skip(n + 1);
        ink_lines(rest);
        ink_of_concat(seq![end], lines(rest));
        ink_of_one(end);
        if line.len() > 0 && line.last() == '\r' {
            assert(end =~= line.take(line.len() - 1));
            ink_take_spaces(line, line.len() - 1);
        }
        assert(line + seq!['\n'] + rest =~= s);
        ink_concat(line + seq!['\n'], rest);
        ink_concat(line, seq!['\n']);
        ink_of_spaces(seq!['\n']);
        assert(ink(line) + Seq::<char>::empty() =~= ink(line));
    }
}

proof fn ink_rejoined(parts: Seq<Seq<char>>, s: Seq<char>)
    ensures
        ink(rejoined(parts, s)) == ink_of(parts),
{
    ink_joined(parts, '\n');
    let front = joined(parts, seq!['\n']);
    if ends_with_newline(s) {
        ink_concat(front, seq!['\n']);
        ink_of_spaces(seq!['\n']);
        assert(ink(front) + Seq::<char>::empty() =~= ink(front));
    } else {
        assert(front + Seq::<char>::empty() =~= front);
    }
}

proof fn ink_flowing(lines: Seq<Seq<char>>, width: nat)
    ensures
        ink_of(flowing(lines, width)) == ink_of(lines),
    decreases lines.len(),
{
    if lines.len() > 0 {
        if goes_on(lines, width) {
            full_run_bound(lines.skip(1), width);
            let n = paragraph_len(lines, width);
            let part = Seq::new(
                n,
                |i: int|
                    if i == 0 {
                        trim_end(lines[0])
                    } else {
                        trim(lines[i])
                    },
            );
            let head = lines.take(n as int);
            assert forall|i: int| 0 <= i < part.len() implies ink(#[trigger] part[i]) == ink(
                head[i],
            ) by {
                ink_trim(lines[i]);
            }
            ink_same(part, head);
            ink_joined(part, ' ');
            ink_flowing(lines.skip(n as int), width);
            ink_of_concat(seq![paragraph(lines, n)], flowing(lines.skip(n as int), width));
            ink_of_one(paragraph(lines, n));
            ink_of_concat(head, lines.skip(n as int));
            assert(head + lines.skip(n as int) =~= lines);
        } else {
            ink_flowing(lines.skip(1), width);
            ink_of_concat(seq![lines[0]], flowing(lines.skip(1), width));
            ink_of_concat(seq![lines[0]], lines.skip(1));
            assert(seq![lines[0]] + lines.skip(1) =~= lines);
        }
    }
}

/// Cleaning up only ever changes white space: every other character is kept, in
/// order, and none is added.
pub proof fn clean_up_changes_white_space_only(s: Seq<char>)
    ensures
        ink(dedented(s)) == ink(s),
        ink(unwrapped(s)) == ink(s),
        ink(unwrapped(dedented(s))) == ink(s),
{
    dedenting_keeps_ink(s);
    unwrapping_keeps_ink(s);
    unwrapping_keeps_ink(dedented(s));
}

proof fn dedenting_keeps_ink(s: Seq<char>)
    ensures
        ink(dedented(s)) == ink(s),
{
    let all = lines(s);
    let n = shared_indent(all);
    if n != 0 {
        shared_indent_exists(all);
        let out = stripped(all, n);
        assert forall|i: int| 0 <= i < out.len() implies ink(#[trigger] out[i]) == ink(all[i]) by {
            if all[i].len() > 0 {
                assert(shares_indent(all, n));
                ink_skip_spaces(all[i], n as int);
            }
        }
        ink_same(out, all);
        ink_rejoined(out, s);
        ink_lines(s);
    }
}

proof fn unwrapping_keeps_ink(s: Seq<char>)
    ensures
        ink(unwrapped(s)) == ink(s),
{
    let all = lines(s);
    let width = wrap_width(all);
    if width != 0 {
        ink_flowing(all, width);
        ink_rejoined(flowing(all, width), s);
        ink_lines(s);
    }
}

/// A line that stands alone comes through unwrapping unchanged, on a line of its
/// own.
pub proof fn lines_that_stand_alone_survive(lines: Seq<Seq<char>>, width: nat, i: int)
    requires
        0 <= i < lines.len(),
        stands_alone(lines[i]),
    ensures
        flowing(lines, width).contains(lines[i]),
    decreases lines.len(),
{
    if goes_on(lines, width) {
        full_run_bound(lines.skip(1), width);
        let n = paragraph_len(lines, width);
        paragraphs_hold_prose(lines, width, i);
        let rest = lines.skip(n as int);
        lines_that_stand_alone_survive(rest, width, i - n);
        let j = choose|j: int|
            0 <= j < flowing(rest, width).len() && flowing(rest, width)[j] == lines[i];
        assert(flowing(lines, width)[j + 1] == lines[i]);
    } else if i == 0 {
        assert(flowing(lines, width)[0] == lines[0]);
    } else {
        let rest = lines.skip(1);
        lines_that_stand_alone_survive(rest, width, i - 1);
        let j = choose|j: int|
            0 <= j < flowing(rest, width).len() && flowing(rest, width)[j] == lines[i];
        assert(flowing(lines, width)[j + 1] == lines[i]);
    }
}

proof fn paragraphs_hold_prose(lines: Seq<Seq<char>>, width: nat, i: int)
    requires
        goes_on(lines, width),
        0 <= i < lines.len(),
        stands_alone(lines[i]),
    ensures
        paragraph_len(lines, width) <= i,
{
    full_run_bound(lines.skip(1), width);
    let n = 1 + full_run(lines.skip(1), width);
    if i < n {
        full_run_holds_prose(lines.skip(1), width, i - 1);
        if i > 0 {
            assert(lines.skip(1)[i - 1] == lines[i]);
        }
    }
}

proof fn full_run_holds_prose(lines: Seq<Seq<char>>, width: nat, i: int)
    ensures
        0 <= i < full_run(lines, width) ==> i < lines.len() && !stands_alone(lines[i]),
    decreases lines.len(),
{
    if lines.len() > 0 && reaches(lines[0], width) && i > 0 {
        full_run_bound(lines.skip(1), width);
        full_run_holds_prose(lines.skip(1), width, i - 1);
    }
}

// ---- Lines, taken apart and put together ----

/// Whether a character is nowhere in a text.
spec fn lacks(s: Seq<char>, c: char) -> bool {
    forall|i: int| 0 <= i < s.len() ==> (#[trigger] s[i]) != c
}

/// Whether a character is in none of the texts.
spec fn all_lack(parts: Seq<Seq<char>>, c: char) -> bool {
    forall|i: int| 0 <= i < parts.len() ==> lacks(#[trigger] parts[i], c)
}

proof fn joined_front(parts: Seq<Seq<char>>, separator: Seq<char>)
    requires
        parts.len() >= 2,
    ensures
        joined(parts, separator) == parts[0] + separator + joined(parts.skip(1), separator),
{
    joined_from_the_front(parts, separator);
}

proof fn joined_lacks(parts: Seq<Seq<char>>, separator: char, c: char)
    requires
        all_lack(parts, c),
        separator != c,
    ensures
        lacks(joined(parts, seq![separator]), c),
    decreases parts.len(),
{
    if parts.len() == 1 {
        assert(lacks(parts[0], c));
    } else if parts.len() > 1 {
        let front = parts.drop_last();
        assert forall|i: int| 0 <= i < front.len() implies lacks(#[trigger] front[i], c) by {
            assert(front[i] == parts[i]);
        }
        joined_lacks(front, separator, c);
        assert(lacks(parts[parts.len() - 1], c));
    }
}

proof fn joined_end(parts: Seq<Seq<char>>, separator: Seq<char>)
    ensures
        parts.len() > 0 && parts.last().len() > 0 ==> joined(parts, separator).len() > 0 && joined(
            parts,
            separator,
        ).last() == parts.last().last(),
        parts.len() > 1 ==> joined(parts, separator).len() >= separator.len(),
        parts.len() > 1 && parts.last().len() == 0 && separator.len() > 0 ==> joined(
            parts,
            separator,
        ).last() == separator.last(),
{
}

/// The lines of parts that each end with a line feed.
proof fn lines_of_ended(parts: Seq<Seq<char>>)
    requires
        parts.len() > 0,
        all_lack(parts, '\n'),
    ensures
        lines(joined(parts, seq!['\n']) + seq!['\n']) == Seq::new(
            parts.len(),
            |i: int| without_cr(parts[i]),
        ),
    decreases parts.len(),
{
    let s = joined(parts, seq!['\n']) + seq!['\n'];
    let first = parts[0];
    let n = first.len() as int;
    let rest = parts.skip(1);
    let tail = if parts.len() == 1 {
        Seq::<char>::empty()
    } else {
        joined(rest, seq!['\n']) + seq!['\n']
    };
    if parts.len() > 1 {
        joined_front(parts, seq!['\n']);
    }
    assert(s =~= first + seq!['\n'] + tail);
    assert(lacks(parts[0], '\n'));
    find_unique(s, '\n', n);
    assert(s.take(n) =~= first);
    assert(s.skip(n + 1) =~= tail);
    let all = Seq::new(parts.len(), |i: int| without_cr(parts[i]));
    if parts.len() > 1 {
        assert forall|i: int| 0 <= i < rest.len() implies lacks(#[trigger] rest[i], '\n') by {
            assert(rest[i] == parts[i + 1]);
        }
        lines_of_ended(rest);
        assert(lines(s) =~= all);
    } else {
        assert(lines(tail) =~= Seq::<Seq<char>>::empty());
        assert(lines(s) =~= all);
    }
}

/// The lines of parts with line feeds between them: an empty last part is none.
proof fn lines_of_joined(parts: Seq<Seq<char>>)
    requires
        parts.len() > 0,
        all_lack(parts, '\n'),
    ensures
        ({
            let last = parts.len() - 1;
            let front = Seq::new(last as nat, |i: int| without_cr(parts[i]));
            lines(joined(parts, seq!['\n'])) == if parts[last].len() == 0 {
                front
            } else {
                front.push(parts[last])
            }
        }),
    decreases parts.len(),
{
    let s = joined(parts, seq!['\n']);
    let first = parts[0];
    assert(lacks(parts[0], '\n'));
    if parts.len() == 1 {
        find_bounds(s, '\n');
        assert(Seq::new(0, |i: int| without_cr(parts[i])) =~= Seq::<Seq<char>>::empty());
        assert(lines(s) =~= if s.len() == 0 {
            Seq::<Seq<char>>::empty()
        } else {
            seq![s]
        });
    } else {
        let n = first.len() as int;
        let rest = parts.skip(1);
        let tail = joined(rest, seq!['\n']);
        joined_front(parts, seq!['\n']);
        find_unique(s, '\n', n);
        assert(s.take(n) =~= first);
        assert(s.skip(n + 1) =~= tail);
        assert forall|i: int| 0 <= i < rest.len() implies lacks(#[trigger] rest[i], '\n') by {
            assert(rest[i] == parts[i + 1]);
        }
        lines_of_joined(rest);
        let last = parts.len() - 1;
        let front = Seq::new(last as nat, |i: int| without_cr(parts[i]));
        let rest_front = Seq::new((last - 1) as nat, |i: int| without_cr(rest[i]));
        assert(seq![without_cr(first)] + rest_front =~= front);
        assert(lines(s) =~= if parts[last].len() == 0 {
            front
        } else {
            front.push(parts[last])
        });
    }
}

/// What holds of the lines of any text.
proof fn lines_hold(s: Seq<char>)
    ensures
        all_lack(lines(s), '\n'),
        lines(s).len() == 0 <==> s.len() == 0,
        s.len() > 0 && !ends_with_newline(s) ==> lines(s).last().len() > 0,
    decreases s.len(),
{
    find_bounds(s, '\n');
    let n = find(s, '\n') as int;
    if s.len() > 0 {
        if n >= s.len() {
            assert(lines(s) =~= seq![s]);
            assert(lacks(s, '\n'));
        } else {
            let rest = s.skip(n + 1);
            let line = without_cr(s.take(n));
            lines_hold(rest);
            assert(lacks(line, '\n'));
            assert(lines(s) =~= seq![line] + lines(rest));
            assert forall|i: int| 0 <= i < lines(s).len() implies lacks(
                #[trigger] lines(s)[i],
                '\n',
            ) by {
                if i > 0 {
                    assert(lines(s)[i] == lines(rest)[i - 1]);
                }
            }
            if !ends_with_newline(s) {
                if rest.len() == 0 {
                    assert(s.last() == s[n]);
                } else {
                    assert(rest.last() == s.last());
                    assert(lines(s).last() == lines(rest).last());
                }
            }
        }
    }
}

/// Whether no line feed follows a carriage return.
pub open spec fn line_ends_are_plain(s: Seq<char>) -> bool {
    forall|i: int| 0 <= i < s.len() - 1 && (#[trigger] s[i]) == '\r' ==> s[i + 1] != '\n'
}

/// A text whose line feeds follow no carriage return is its lines put together.
proof fn lines_put_together(s: Seq<char>)
    requires
        line_ends_are_plain(s),
    ensures
        rejoined(lines(s), s) == s,
    decreases s.len(),
{
    find_bounds(s, '\n');
    let n = find(s, '\n') as int;
    if s.len() == 0 {
        assert(rejoined(lines(s), s) =~= s);
    } else if n >= s.len() {
        assert(s.last() == s[s.len() - 1]);
        assert(lines(s) =~= seq![s]);
        assert(rejoined(lines(s), s) =~= s);
    } else {
        let line = s.take(n);
        let rest = s.skip(n + 1);
        assert(line.len() > 0 ==> line.last() == s[n - 1] && s[n - 1] != '\r');
        assert(lines(s) =~= seq![line] + lines(rest));
        assert(s =~= line + seq!['\n'] + rest);
        assert forall|i: int|
            0 <= i < rest.len() - 1 && (#[trigger] rest[i]) == '\r' implies rest[i + 1]
            != '\n' by {
            assert(rest[i] == s[i + n + 1]);
        }
        lines_put_together(rest);
        lines_hold(rest);
        if rest.len() == 0 {
            assert(lines(s) =~= seq![line]);
            assert(s.last() == '\n');
        } else {
            joined_front(lines(s), seq!['\n']);
            assert(lines(s).skip(1) =~= lines(rest));
            assert(rest.last() == s.last());
        }
        assert(rejoined(lines(s), s) =~= s);
    }
}

proof fn rejoining_adds_no_lines(parts: Seq<Seq<char>>, s: Seq<char>)
    requires
        all_lack(parts, '\n'),
        ends_with_newline(s) ==> parts.len() > 0,
    ensures
        lines(rejoined(parts, s)).len() <= parts.len(),
{
    if ends_with_newline(s) {
        lines_of_ended(parts);
    } else {
        assert(rejoined(parts, s) =~= joined(parts, seq!['\n']));
        if parts.len() > 0 {
            lines_of_joined(parts);
        }
    }
}

proof fn stripping_keeps_out_newlines(lines: Seq<Seq<char>>, n: nat)
    requires
        all_lack(lines, '\n'),
        forall|i: int| 0 <= i < lines.len() && (#[trigger] lines[i]).len() > 0 ==> n
            <= lines[i].len(),
    ensures
        all_lack(stripped(lines, n), '\n'),
{
    assert forall|i: int| 0 <= i < lines.len() implies lacks(
        #[trigger] stripped(lines, n)[i],
        '\n',
    ) by {
        assert(lacks(lines[i], '\n'));
        let out = stripped(lines, n)[i];
        if lines[i].len() > 0 {
            assert forall|k: int| 0 <= k < out.len() implies (#[trigger] out[k]) != '\n' by {
                assert(out[k] == lines[i][k + n]);
            }
        }
    }
}

proof fn trimming_keeps_out(s: Seq<char>, c: char)
    requires
        lacks(s, c),
    ensures
        lacks(trim_end(s), c),
        lacks(trim(s), c),
{
    leading_space_bounds(s);
    trailing_space_bounds(s);
    let t = trim_start(s);
    trailing_space_bounds(t);
    assert forall|k: int| 0 <= k < trim_end(s).len() implies (#[trigger] trim_end(s)[k]) != c by {
        assert(trim_end(s)[k] == s[k]);
    }
    assert forall|k: int| 0 <= k < trim(s).len() implies (#[trigger] trim(s)[k]) != c by {
        assert(trim(s)[k] == t[k]);
        assert(t[k] == s[k + leading_space(s)]);
    }
}

/// What holds of lines that flow again.
proof fn flowing_holds(lines: Seq<Seq<char>>, width: nat)
    requires
        all_lack(lines, '\n'),
    ensures
        all_lack(flowing(lines, width), '\n'),
        flowing(lines, width).len() <= lines.len(),
        flowing(lines, width).len() == 0 <==> lines.len() == 0,
        lines.len() > 0 && lines.last().len() > 0 ==> flowing(lines, width).last().len() > 0,
    decreases lines.len(),
{
    if lines.len() > 0 {
        let n: nat;
        let first: Seq<char>;
        if goes_on(lines, width) {
            full_run_bound(lines.skip(1), width);
            n = paragraph_len(lines, width);
            first = paragraph(lines, n);
            let part = Seq::new(
                n,
                |i: int|
                    if i == 0 {
                        trim_end(lines[0])
                    } else {
                        trim(lines[i])
                    },
            );
            assert forall|i: int| 0 <= i < part.len() implies lacks(#[trigger] part[i], '\n') by {
                assert(lacks(lines[i], '\n'));
                trimming_keeps_out(lines[i], '\n');
            }
            joined_lacks(part, ' ', '\n');
            joined_end(part, seq![' ']);
        } else {
            n = 1;
            first = lines[0];
            assert(lacks(lines[0], '\n'));
        }
        let rest = lines.skip(n as int);
        assert forall|i: int| 0 <= i < rest.len() implies lacks(#[trigger] rest[i], '\n') by {
            assert(rest[i] == lines[i + n]);
        }
        flowing_holds(rest, width);
        let all = flowing(lines, width);
        assert(all =~= seq![first] + flowing(rest, width));
        assert forall|i: int| 0 <= i < all.len() implies lacks(#[trigger] all[i], '\n') by {
            if i > 0 {
                assert(all[i] == flowing(rest, width)[i - 1]);
            }
        }
        if rest.len() > 0 {
            assert(rest.last() == lines.last());
            assert(all.last() == flowing(rest, width).last());
        } else {
            assert(all.last() == first);
        }
    }
}

// ---- What the clean-up promises ----

/// So many spaces.
pub open spec fn spaces(k: nat) -> Seq<char> {
    Seq::new(k, |i: int| ' ')
}

/// A line with spaces before it, unless it is empty.
pub open spec fn moved_in(line: Seq<char>, k: nat) -> Seq<char> {
    if line.len() == 0 {
        line
    } else {
        spaces(k) + line
    }
}

/// A text with spaces before every line that is not empty.
pub open spec fn indented(s: Seq<char>, k: nat) -> Seq<char>
    decreases s.len(),
{
    let n = find(s, '\n') as int;
    if n >= s.len() {
        moved_in(s, k)
    } else {
        let line = s.take(n);
        (if without_cr(line).len() == 0 {
            line
        } else {
            spaces(k) + line
        }) + seq!['\n'] + indented(s.skip(n + 1), k)
    }
}

/// The lines with spaces before each that is not empty.
spec fn all_moved_in(lines: Seq<Seq<char>>, k: nat) -> Seq<Seq<char>> {
    Seq::new(lines.len(), |i: int| moved_in(lines[i], k))
}

/// Spaces before the lines of a text stand before its lines, and nothing else
/// changes.
proof fn lines_of_indented(s: Seq<char>, k: nat)
    ensures
        lines(indented(s, k)) == all_moved_in(lines(s), k),
        ends_with_newline(indented(s, k)) == ends_with_newline(s),
        indented(s, k).len() >= s.len(),
        s.len() == 0 ==> indented(s, k).len() == 0,
    decreases s.len(),
{
    let t = indented(s, k);
    let n = find(s, '\n') as int;
    find_bounds(s, '\n');
    if s.len() == 0 {
        assert(lines(t) =~= all_moved_in(lines(s), k));
    } else if n >= s.len() {
        assert(s.last() == s[s.len() - 1] && t.last() == s.last());
        find_bounds(t, '\n');
        let m = find(t, '\n') as int;
        assert(m < t.len() ==> t[m] == if m < k {
            ' '
        } else {
            s[m - k]
        });
        assert(lines(t) =~= all_moved_in(lines(s), k));
    } else {
        let line = s.take(n);
        let rest = s.skip(n + 1);
        let head = if without_cr(line).len() == 0 {
            line
        } else {
            spaces(k) + line
        };
        let tail = indented(rest, k);
        lines_of_indented(rest, k);
        assert(t == head + seq!['\n'] + tail);
        let m = head.len() as int;
        assert forall|i: int| 0 <= i < m implies t[i] != '\n' by {
            assert(t[i] == head[i]);
            if without_cr(line).len() > 0 && i < k {
                assert(head[i] == ' ');
            } else if without_cr(line).len() > 0 {
                assert(head[i] == s[i - k]);
            } else {
                assert(head[i] == s[i]);
            }
        }
        find_unique(t, '\n', m);
        assert(t.take(m) =~= head);
        assert(t.skip(m + 1) =~= tail);
        assert(without_cr(head) =~= moved_in(without_cr(line), k));
        assert(lines(t) =~= all_moved_in(lines(s), k));
        if rest.len() == 0 {
            assert(s.last() == s[n] && t.last() == t[m]);
        } else {
            assert(s.last() == rest.last() && t.last() == tail.last());
        }
    }
}

proof fn moving_in_shares(lines: Seq<Seq<char>>, k: nat, n: nat)
    ensures
        shares_indent(all_moved_in(lines, k), n + k) <==> shares_indent(lines, n),
{
    let moved = all_moved_in(lines, k);
    let m = (n + k) as nat;
    if shares_indent(moved, m) {
        assert forall|i: int|
            #![trigger lines[i]]
            0 <= i < lines.len() && lines[i].len() > 0 implies n <= lines[i].len() && forall|c: int|
            0 <= c < n ==> is_space(#[trigger] lines[i][c]) by {
            assert(moved[i] == spaces(k) + lines[i]);
            assert forall|c: int| 0 <= c < n implies is_space(#[trigger] lines[i][c]) by {
                assert(moved[i][c + k] == lines[i][c]);
            }
        }
        assert forall|i: int, j: int|
            #![trigger lines[i], lines[j]]
            0 <= i < lines.len() && 0 <= j < lines.len() && lines[i].len() > 0 && lines[j].len()
                > 0 implies lines[i].take(n as int) == lines[j].take(n as int) by {
            assert(moved[i] == spaces(k) + lines[i] && moved[j] == spaces(k) + lines[j]);
            assert(lines[i].take(n as int) =~= moved[i].take(m as int).skip(k as int));
            assert(lines[j].take(n as int) =~= moved[j].take(m as int).skip(k as int));
        }
    }
    if shares_indent(lines, n) {
        assert forall|i: int|
            #![trigger moved[i]]
            0 <= i < moved.len() && moved[i].len() > 0 implies m <= moved[i].len() && forall|c: int|
            0 <= c < m ==> is_space(#[trigger] moved[i][c]) by {
            assert(lines[i].len() > 0);
            assert(moved[i] == spaces(k) + lines[i]);
            assert forall|c: int| 0 <= c < m implies is_space(#[trigger] moved[i][c]) by {
                if c >= k {
                    assert(moved[i][c] == lines[i][c - k]);
                } else {
                    assert(moved[i][c] == ' ');
                }
            }
        }
        assert forall|i: int, j: int|
            #![trigger moved[i], moved[j]]
            0 <= i < moved.len() && 0 <= j < moved.len() && moved[i].len() > 0 && moved[j].len()
                > 0 implies moved[i].take(m as int) == moved[j].take(m as int) by {
            assert(lines[i].len() > 0 && lines[j].len() > 0);
            assert(moved[i] == spaces(k) + lines[i] && moved[j] == spaces(k) + lines[j]);
            assert(moved[i].take(m as int) =~= spaces(k) + lines[i].take(n as int));
            assert(moved[j].take(m as int) =~= spaces(k) + lines[j].take(n as int));
        }
    }
}

/// Taking off the indentation of a text that was moved in leaves the lines of the
/// text without theirs.
proof fn dedenting_undoes_indenting(s: Seq<char>, k: nat)
    requires
        k > 0,
        some_text(lines(s)),
    ensures
        dedented(indented(s, k)) == rejoined(
            stripped(lines(s), shared_indent(lines(s))),
            s,
        ),
{
    let all = lines(s);
    let moved = all_moved_in(all, k);
    let t = indented(s, k);
    lines_of_indented(s, k);
    shared_indent_exists(all);
    let n = shared_indent(all);
    moving_in_shares(all, k, n);
    moving_in_shares(all, k, n + 1);
    assert(n + 1 + k == n + k + 1);
    let i = choose|i: int| 0 <= i < all.len() && (#[trigger] all[i]).len() > 0;
    assert(moved[i].len() > 0);
    assert(some_text(moved));
    let m = (n + k) as nat;
    assert(is_shared_indent(moved, m));
    shared_indent_unique(moved, m);
    assert forall|i: int| 0 <= i < all.len() implies stripped(moved, m)[i] == stripped(
        all,
        n,
    )[i] by {
        if all[i].len() > 0 {
            assert(n <= all[i].len());
            assert(moved[i] == spaces(k) + all[i]);
            assert(moved[i].skip(m as int) =~= all[i].skip(n as int));
        }
    }
    assert(stripped(moved, m) =~= stripped(all, n));
}

/// A text of empty lines has nothing to move in, and by no spaces nothing moves.
proof fn nothing_to_move_in(s: Seq<char>, k: nat)
    requires
        k == 0 || !some_text(lines(s)),
    ensures
        indented(s, k) == s,
    decreases s.len(),
{
    let n = find(s, '\n') as int;
    find_bounds(s, '\n');
    if n >= s.len() {
        if s.len() > 0 {
            assert(lines(s)[0] == s);
        }
        assert(indented(s, k) =~= s);
    } else {
        let rest = s.skip(n + 1);
        assert(lines(s)[0] == without_cr(s.take(n)));
        if k > 0 && some_text(lines(rest)) {
            let i = choose|i: int| 0 <= i < lines(rest).len() && (#[trigger] lines(
                rest,
            )[i]).len() > 0;
            assert(lines(s)[i + 1] == lines(rest)[i]);
        }
        nothing_to_move_in(rest, k);
        assert(indented(s, k) =~= s);
    }
}

proof fn stripping_nothing(lines: Seq<Seq<char>>)
    ensures
        stripped(lines, 0) == lines,
{
    assert forall|i: int| 0 <= i < lines.len() implies stripped(lines, 0)[i] == lines[i] by {
        assert(lines[i].skip(0) =~= lines[i]);
    }
    assert(stripped(lines, 0) =~= lines);
}

/// How far a text is indented as a whole makes no difference: the same number of
/// spaces before every line that is not empty leaves the result as it was. Left out
/// are unindented texts with carriage returns at their line ends, which keep them
/// unless they are moved in.
pub proof fn indentation_makes_no_difference(s: Seq<char>, k: nat)
    requires
        k == 0 || !some_text(lines(s)) || shared_indent(lines(s)) > 0 || line_ends_are_plain(s),
    ensures
        dedented(indented(s, k)) == dedented(s),
        unwrapped(dedented(indented(s, k))) == unwrapped(dedented(s)),
{
    if k == 0 || !some_text(lines(s)) {
        nothing_to_move_in(s, k);
    } else {
        dedenting_undoes_indenting(s, k);
        if shared_indent(lines(s)) == 0 {
            stripping_nothing(lines(s));
            lines_put_together(s);
        }
    }
}

/// An unindented text that is moved in comes back with a plain line feed at the end
/// of each line.
pub proof fn moving_in_makes_line_ends_plain(s: Seq<char>, k: nat)
    requires
        k > 0,
        some_text(lines(s)),
        shared_indent(lines(s)) == 0,
    ensures
        dedented(indented(s, k)) == rejoined(lines(s), s),
        unwrapped(dedented(indented(s, k))) == unwrapped(rejoined(lines(s), s)),
{
    dedenting_undoes_indenting(s, k);
    stripping_nothing(lines(s));
}

/// Whether the last of several lines is nothing but the white space that all of
/// them start with.
pub open spec fn bare_end(s: Seq<char>) -> bool {
    &&& lines(s).len() > 1
    &&& shared_indent(lines(s)) > 0
    &&& lines(s).last().len() == shared_indent(lines(s))
}

/// Unwrapping neither adds nor takes a line feed at the end of the text. Nor does
/// taking off the indentation, but where nothing is left of the last line: the line
/// feed before it then is the end.
pub proof fn trailing_newline_survives(s: Seq<char>)
    ensures
        ends_with_newline(unwrapped(s)) <==> ends_with_newline(s),
        ends_with_newline(dedented(s)) <==> ends_with_newline(s) || bare_end(s),
        ends_with_newline(unwrapped(dedented(s))) <==> ends_with_newline(s) || bare_end(s),
{
    unwrapping_keeps_the_end(s);
    unwrapping_keeps_the_end(dedented(s));
    let all = lines(s);
    let n = shared_indent(all);
    lines_hold(s);
    shared_indent_exists(all);
    if n > 0 && !ends_with_newline(s) && s.len() > 0 {
        let parts = stripped(all, n);
        assert(shares_indent(all, n));
        stripping_keeps_out_newlines(all, n);
        joined_end(parts, seq!['\n']);
        assert(rejoined(parts, s) =~= joined(parts, seq!['\n']));
        let last = all.last();
        assert(all[all.len() - 1].len() > 0);
        assert(parts.last() == last.skip(n as int));
        if last.len() > n {
            let end = parts.last();
            assert(lacks(parts[parts.len() - 1], '\n'));
            assert(end[end.len() - 1] != '\n');
        }
    }
}

proof fn unwrapping_keeps_the_end(s: Seq<char>)
    ensures
        ends_with_newline(unwrapped(s)) <==> ends_with_newline(s),
{
    let all = lines(s);
    let width = wrap_width(all);
    if width != 0 && !ends_with_newline(s) {
        lines_hold(s);
        flowing_holds(all, width);
        let parts = flowing(all, width);
        assert(rejoined(parts, s) =~= joined(parts, seq!['\n']));
        joined_end(parts, seq!['\n']);
        if parts.len() > 0 {
            let end = parts.last();
            assert(lacks(parts[parts.len() - 1], '\n'));
            assert(end[end.len() - 1] != '\n');
        }
    }
}

/// Cleaning up never adds a line.
pub proof fn clean_up_adds_no_lines(s: Seq<char>)
    ensures
        lines(dedented(s)).len() <= lines(s).len(),
        lines(unwrapped(s)).len() <= lines(s).len(),
        lines(unwrapped(dedented(s))).len() <= lines(s).len(),
{
    let all = lines(s);
    let n = shared_indent(all);
    lines_hold(s);
    shared_indent_exists(all);
    if n > 0 {
        assert(shares_indent(all, n));
        stripping_keeps_out_newlines(all, n);
        rejoining_adds_no_lines(stripped(all, n), s);
    }
    unwrapping_adds_no_lines(s);
    unwrapping_adds_no_lines(dedented(s));
}

proof fn unwrapping_adds_no_lines(s: Seq<char>)
    ensures
        lines(unwrapped(s)).len() <= lines(s).len(),
{
    let all = lines(s);
    let width = wrap_width(all);
    if width != 0 {
        lines_hold(s);
        flowing_holds(all, width);
        rejoining_adds_no_lines(flowing(all, width), s);
    }
}

/// Lines that stand alone keep their order when the text is unwrapped.
pub proof fn standing_lines_keep_their_order(
    lines: Seq<Seq<char>>,
    width: nat,
    i: int,
    j: int,
) -> (places: (int, int))
    requires
        0 <= i < j < lines.len(),
        stands_alone(lines[i]),
        stands_alone(lines[j]),
    ensures
        0 <= places.0 < places.1 < flowing(lines, width).len(),
        flowing(lines, width)[places.0] == lines[i],
        flowing(lines, width)[places.1] == lines[j],
    decreases lines.len(),
{
    if goes_on(lines, width) {
        full_run_bound(lines.skip(1), width);
        let n = paragraph_len(lines, width);
        paragraphs_hold_prose(lines, width, i);
        let rest = lines.skip(n as int);
        let p = standing_lines_keep_their_order(rest, width, i - n, j - n);
        (p.0 + 1, p.1 + 1)
    } else if i == 0 {
        let rest = lines.skip(1);
        lines_that_stand_alone_survive(rest, width, j - 1);
        let q = choose|q: int|
            0 <= q < flowing(rest, width).len() && flowing(rest, width)[q] == rest[j - 1];
        (0, q + 1)
    } else {
        let rest = lines.skip(1);
        let p = standing_lines_keep_their_order(rest, width, i - 1, j - 1);
        (p.0 + 1, p.1 + 1)
    }
}

// ---- Which lines stand alone, written out ----

/// However far it is indented, an item of a list stands alone: a dash, a star or a
/// plus and a space, or one to four digits, a full stop and a space, and anything
/// after that.
pub proof fn list_items_stand_alone(w: Seq<char>, digits: Seq<char>, rest: Seq<char>)
    requires
        all_white(w),
    ensures
        stands_alone(w + seq!['-', ' '] + rest),
        stands_alone(w + seq!['*', ' '] + rest),
        stands_alone(w + seq!['+', ' '] + rest),
        1 <= digits.len() <= 4 && (forall|i: int|
            0 <= i < digits.len() ==> '0' <= (#[trigger] digits[i]) <= '9') ==> stands_alone(
            w + digits + seq!['.', ' '] + rest,
        ),
{
    assert(w + seq!['-', ' '] + rest =~= w + (seq!['-', ' '] + rest));
    leading_space_of(w, seq!['-', ' '] + rest);
    assert(w + seq!['*', ' '] + rest =~= w + (seq!['*', ' '] + rest));
    leading_space_of(w, seq!['*', ' '] + rest);
    assert(w + seq!['+', ' '] + rest =~= w + (seq!['+', ' '] + rest));
    leading_space_of(w, seq!['+', ' '] + rest);
    if 1 <= digits.len() <= 4 && (forall|i: int|
        0 <= i < digits.len() ==> '0' <= (#[trigger] digits[i]) <= '9') {
        let item = digits + seq!['.', ' '] + rest;
        assert(w + digits + seq!['.', ' '] + rest =~= w + item);
        assert(item[0] == digits[0]);
        leading_space_of(w, item);
        let n = digits.len() as int;
        assert forall|i: int| 0 <= i < n implies is_digit(#[trigger] item[i]) by {
            assert(item[i] == digits[i]);
        }
        find_unique(item, '.', n);
        assert(ordered_marker(item));
    }
}

/// However far it is indented, a heading, a row of a table and a fence of a code block
/// stand alone.
pub proof fn headings_rows_and_fences_stand_alone(w: Seq<char>, rest: Seq<char>)
    requires
        all_white(w),
    ensures
        stands_alone(w + seq!['#'] + rest),
        stands_alone(w + seq!['|'] + rest),
        stands_alone(w + seq!['`', '`', '`'] + rest),
{
    assert(w + seq!['#'] + rest =~= w + (seq!['#'] + rest));
    leading_space_of(w, seq!['#'] + rest);
    assert(w + seq!['|'] + rest =~= w + (seq!['|'] + rest));
    leading_space_of(w, seq!['|'] + rest);
    assert(w + seq!['`', '`', '`'] + rest =~= w + (seq!['`', '`', '`'] + rest));
    leading_space_of(w, seq!['`', '`', '`'] + rest);
}

/// A line that ends with a colon or a brace stands alone, whatever white space
/// follows; and so does an empty line.
pub proof fn labels_and_blocks_stand_alone(body: Seq<char>, w: Seq<char>)
    requires
        all_white(w),
    ensures
        stands_alone(Seq::empty()),
        stands_alone(body + seq![':'] + w),
        stands_alone(body + seq!['{'] + w),
        stands_alone(body + seq!['}'] + w),
{
    trailing_space_of(body + seq![':'], w);
    trailing_space_of(body + seq!['{'], w);
    trailing_space_of(body + seq!['}'], w);
}

/// Code stands alone: a line that starts with four spaces, or with at most three and
/// a tab.
pub proof fn code_stands_alone(n: nat, rest: Seq<char>)
    ensures
        stands_alone(spaces(4) + rest),
        n <= 3 ==> stands_alone(spaces(n) + seq!['\t'] + rest),
{
    let a = spaces(4) + rest;
    indent_bounds(a);
    if indent(a) < 4 {
        assert(a[indent(a) as int] == ' ');
    }
    if n <= 3 {
        let b = spaces(n) + seq!['\t'] + rest;
        indent_bounds(b);
        let k = indent(b) as int;
        if k < n {
            assert(b[k] == ' ');
        }
        assert(b[n as int] == '\t');
    }
}

/// Prose does not stand alone: a line that starts with a letter, behind at most three
/// spaces, and ends with anything but white space, a colon or a brace.
pub proof fn prose_does_not_stand_alone(n: nat, text: Seq<char>)
    requires
        n <= 3,
        text.len() > 0,
        'a' <= text[0] <= 'z' || 'A' <= text[0] <= 'Z',
        !is_space(text.last()),
        text.last() != ':',
        text.last() != '{',
        text.last() != '}',
    ensures
        !stands_alone(spaces(n) + text),
{
    let line = spaces(n) + text;
    assert(all_white(spaces(n)));
    leading_space_of(spaces(n), text);
    trailing_space_of(line, Seq::empty());
    assert(line + Seq::<char>::empty() =~= line);
    indent_bounds(line);
    let k = indent(line) as int;
    assert(line[n as int] == text[0]);
    if k > n {
        assert(line[n as int] == ' ');
    }
    if k < line.len() && line[k] == '\t' {
        assert(k >= n);
    }
    find_bounds(text, '.');
    if ordered_marker(text) {
        assert(is_digit(text[0]));
    }
}

/// A line that stands alone is a line of the unwrapped text, by itself and as it was,
/// unless it ends with a carriage return of its own.
pub proof fn standing_lines_stay_lines(s: Seq<char>, i: int)
    requires
        0 <= i < lines(s).len(),
        stands_alone(lines(s)[i]),
        lines(s)[i].len() > 0 ==> lines(s)[i].last() != '\r',
    ensures
        lines(unwrapped(s)).contains(lines(s)[i]),
{
    let all = lines(s);
    let width = wrap_width(all);
    if width != 0 {
        let parts = flowing(all, width);
        lines_hold(s);
        flowing_holds(all, width);
        lines_that_stand_alone_survive(all, width, i);
        let j = choose|j: int| 0 <= j < parts.len() && parts[j] == all[i];
        let out = lines(unwrapped(s));
        if ends_with_newline(s) {
            lines_of_ended(parts);
            assert(out[j] == all[i]);
        } else {
            assert(rejoined(parts, s) =~= joined(parts, seq!['\n']));
            lines_of_joined(parts);
            assert(out[j] == all[i]);
        }
    } else {
        assert(lines(unwrapped(s))[i] == all[i]);
    }
}

// ---- What is joined ----

proof fn joined_starts(parts: Seq<Seq<char>>, separator: Seq<char>)
    requires
        parts.len() >= 2,
    ensures
        (parts[0] + separator + parts[1]).is_prefix_of(joined(parts, separator)),
    decreases parts.len(),
{
    if parts.len() == 2 {
        assert(joined(parts.drop_last(), separator) == parts[0]);
    } else {
        joined_starts(parts.drop_last(), separator);
        let a = parts[0] + separator + parts[1];
        let b = joined(parts.drop_last(), separator);
        let all = joined(parts, separator);
        assert(all =~= b + (separator + parts.last()));
        assert(a =~= all.take(a.len() as int)) by {
            assert(a =~= b.take(a.len() as int));
        }
    }
}

/// A line of prose that reaches the width, give or take two, goes on in the next line
/// of prose that is not longer than that: the two are joined by one space, without the
/// white space at the seam.
pub proof fn wrapped_prose_is_joined(lines: Seq<Seq<char>>, width: nat)
    requires
        lines.len() >= 2,
        !stands_alone(lines[0]),
        !stands_alone(lines[1]),
        width - 2 <= lines[0].len() <= width + 2,
        lines[1].len() <= width + 2,
    ensures
        flowing(lines, width).len() > 0,
        (trim_end(lines[0]) + seq![' '] + trim(lines[1])).is_prefix_of(flowing(lines, width)[0]),
        flowing(lines, width).len() < lines.len(),
        lines.len() == 2 ==> flowing(lines, width) == seq![
            trim_end(lines[0]) + seq![' '] + trim(lines[1]),
        ],
{
    let n = paragraph_len(lines, width);
    let rest = lines.skip(1);
    full_run_bound(rest, width);
    full_run_bound(rest.skip(1), width);
    assert(rest[0] == lines[1]);
    assert(n >= 2);
    let parts = Seq::new(
        n,
        |i: int|
            if i == 0 {
                trim_end(lines[0])
            } else {
                trim(lines[i])
            },
    );
    joined_starts(parts, seq![' ']);
    flowing_shrinks(lines.skip(n as int), width);
    if lines.len() == 2 {
        assert(joined(parts.drop_last(), seq![' ']) == parts[0]);
        assert(lines.skip(2).len() == 0);
        assert(flowing(lines, width) =~= seq![trim_end(lines[0]) + seq![' '] + trim(lines[1])]);
    }
}

proof fn flowing_shrinks(lines: Seq<Seq<char>>, width: nat)
    ensures
        flowing(lines, width).len() <= lines.len(),
    decreases lines.len(),
{
    if lines.len() > 0 {
        full_run_bound(lines.skip(1), width);
        if goes_on(lines, width) {
            flowing_shrinks(lines.skip(paragraph_len(lines, width) as int), width);
        } else {
            flowing_shrinks(lines.skip(1), width);
        }
    }
}

/// A line that is further from the width than two, and one whose next stands alone,
/// are left as they are; and nothing before them reaches into what follows.
pub proof fn other_lines_are_not_joined(lines: Seq<Seq<char>>, width: nat)
    requires
        lines.len() > 0,
        stands_alone(lines[0]) || lines[0].len() + 2 < width || lines[0].len() > width + 2
            || lines.len() == 1 || stands_alone(lines[1]),
    ensures
        flowing(lines, width) == seq![lines[0]] + flowing(lines.skip(1), width),
{
}

/// Lines of prose that all reach the width become one line.
pub proof fn full_lines_become_one(lines: Seq<Seq<char>>, width: nat)
    requires
        lines.len() >= 2,
        forall|i: int|
            0 <= i < lines.len() ==> !stands_alone(#[trigger] lines[i]) && width - 2
                <= lines[i].len() <= width + 2,
    ensures
        flowing(lines, width) == seq![
            joined(
                Seq::new(
                    lines.len(),
                    |i: int|
                        if i == 0 {
                            trim_end(lines[0])
                        } else {
                            trim(lines[i])
                        },
                ),
                seq![' '],
            ),
        ],
{
    let rest = lines.skip(1);
    assert(!stands_alone(lines[0]) && !stands_alone(lines[1]));
    assert forall|i: int| 0 <= i < rest.len() implies !stands_alone(#[trigger] rest[i]) && width - 2
        <= rest[i].len() <= width + 2 by {
        assert(rest[i] == lines[i + 1]);
    }
    full_runs(rest, width);
    let end = lines.skip(lines.len() as int);
    assert(end.len() == 0 && flowing(end, width).len() == 0);
    assert(flowing(lines, width) =~= seq![paragraph(lines, lines.len())]);
}

proof fn full_runs(lines: Seq<Seq<char>>, width: nat)
    requires
        forall|i: int|
            0 <= i < lines.len() ==> !stands_alone(#[trigger] lines[i]) && width - 2
                <= lines[i].len() <= width + 2,
    ensures
        full_run(lines, width) == lines.len(),
    decreases lines.len(),
{
    if lines.len() > 0 {
        let rest = lines.skip(1);
        assert forall|i: int| 0 <= i < rest.len() implies !stands_alone(#[trigger] rest[i]) && width
            - 2 <= rest[i].len() <= width + 2 by {
            assert(rest[i] == lines[i + 1]);
        }
        full_runs(rest, width);
    }
}

/// The width is a length that occurs at least twice among the lines of prose, oftener
/// than any other, or as often and longer. Where no length occurs twice there is none,
/// and the text stays as it is.
pub proof fn the_most_frequent_length_is_the_width(s: Seq<char>, other: nat)
    ensures
        ({
            let width = wrap_width(lines(s));
            let often = |n: nat| prose_count(lines(s), n);
            &&& width == 0 ==> often(other) < 2 && unwrapped(s) == s
            &&& width != 0 ==> often(width) >= 2 && (other != width ==> often(other) < often(width)
                || (often(other) == often(width) && other < width))
        }),
{
    wrap_width_exists(lines(s));
    let w = wrap_width(lines(s));
    assert(is_wrap_width(lines(s), w));
    assert(prose_count(lines(s), other) >= 0);
}

/// A line counts towards its own length where it is prose, and towards none where it
/// stands alone.
pub proof fn prose_counts_once(lines: Seq<Seq<char>>, line: Seq<char>, width: nat)
    ensures
        prose_count(Seq::empty(), width) == 0,
        prose_count(lines.push(line), width) == prose_count(lines, width) + (if !stands_alone(line)
            && line.len() == width {
            1int
        } else {
            0
        }),
{
    assert(lines.push(line).drop_last() =~= lines);
}

// ---- What is taken off ----

/// White space that all lines start with, of whatever kind, is taken off them all.
pub proof fn shared_white_space_is_taken_off(s: Seq<char>, w: Seq<char>, i: int)
    requires
        all_white(w),
        0 <= i < lines(s).len(),
        lines(s)[i].len() > 0,
        forall|k: int|
            0 <= k < lines(s).len() && (#[trigger] lines(s)[k]).len() > 0 ==> w.is_prefix_of(
                lines(s)[k],
            ),
    ensures
        shared_indent(lines(s)) >= w.len(),
        stripped(lines(s), shared_indent(lines(s)))[i].len() <= lines(s)[i].len() - w.len(),
{
    let all = lines(s);
    let n = w.len();
    assert forall|k: int|
        #![trigger all[k]]
        0 <= k < all.len() && all[k].len() > 0 implies n <= all[k].len() && forall|c: int|
        0 <= c < n ==> is_space(#[trigger] all[k][c]) by {
        assert forall|c: int| 0 <= c < n implies is_space(#[trigger] all[k][c]) by {
            assert(all[k][c] == all[k].take(n as int)[c]);
            assert(w[c] == all[k][c]);
        }
    }
    assert forall|a: int, b: int|
        #![trigger all[a], all[b]]
        0 <= a < all.len() && 0 <= b < all.len() && all[a].len() > 0 && all[b].len()
            > 0 implies all[a].take(n as int) == all[b].take(n as int) by {
        assert(all[a].take(n as int) =~= w);
        assert(all[b].take(n as int) =~= w);
    }
    assert(shares_indent(all, n));
    shared_indent_exists(all);
    let m = shared_indent(all);
    assert(some_text(all));
    if m < n {
        shorter_indents_are_shared(all, n, m + 1);
    }
    assert(shares_indent(all, m));
}

/// A text in which some line starts with anything but white space is left as it is.
pub proof fn unindented_texts_are_left_alone(s: Seq<char>, i: int)
    requires
        0 <= i < lines(s).len(),
        lines(s)[i].len() > 0,
        !is_space(lines(s)[i][0]),
    ensures
        dedented(s) == s,
{
    let all = lines(s);
    shared_indent_exists(all);
    let n = shared_indent(all);
    assert(some_text(all));
    if n > 0 {
        assert(shares_indent(all, n));
        assert(is_space(all[i][0]));
    }
}

/// Every line that is not empty loses the same number of characters, all of them white
/// space, and keeps the rest; an empty line stays empty.
pub proof fn every_line_loses_the_same(s: Seq<char>, i: int)
    requires
        0 <= i < lines(s).len(),
    ensures
        ({
            let n = shared_indent(lines(s)) as int;
            let line = lines(s)[i];
            let kept = stripped(lines(s), n as nat)[i];
            &&& stripped(lines(s), n as nat).len() == lines(s).len()
            &&& line.len() == 0 ==> kept.len() == 0
            &&& line.len() > 0 ==> n <= line.len() && all_white(line.take(n)) && line == line.take(
                n,
            ) + kept
        }),
{
    let all = lines(s);
    shared_indent_exists(all);
    let n = shared_indent(all) as int;
    if all[i].len() > 0 {
        assert(some_text(all));
        assert(shares_indent(all, n as nat));
        assert(all_white(all[i].take(n))) by {
            assert forall|c: int| 0 <= c < n implies is_space(#[trigger] all[i].take(n)[c]) by {
                assert(is_space(all[i][c]));
            }
        }
        assert(all[i] =~= all[i].take(n) + all[i].skip(n));
    }
}

/// What a copy gives: the text as it is where the session is no assistant's or the clean-up
/// is off; and else the text without its shared indentation and with its prose flowing
/// again, which holds the same characters but for white space, on no more lines.
pub proof fn copies_are_cleaned_up_where_asked(
    text: &str,
    active: bool,
    enabled: bool,
    r: String,
)
    requires
        call_ensures(prepare_copy_text, (text, active, enabled), r),
    ensures
        !active || !enabled ==> r@ == text@,
        active && enabled ==> r@ == unwrapped(dedented(text@)),
        ink(r@) == ink(text@),
        lines(r@).len() <= lines(text@).len(),
{
    clean_up_changes_white_space_only(text@);
    clean_up_adds_no_lines(text@);
}

/// A line of an unindented text that stands alone, such as an item of a list however far
/// it is indented, is a line of the copy, by itself.
pub proof fn standing_lines_are_copied(text: &str, r: String, i: int, k: int)
    requires
        call_ensures(prepare_copy_text, (text, true, true), r),
        0 <= i < lines(text@).len(),
        stands_alone(lines(text@)[i]),
        lines(text@)[i].len() > 0 ==> lines(text@)[i].last() != '\r',
        0 <= k < lines(text@).len(),
        lines(text@)[k].len() > 0,
        !is_space(lines(text@)[k][0]),
    ensures
        lines(r@).contains(lines(text@)[i]),
{
    unindented_texts_are_left_alone(text@, k);
    standing_lines_stay_lines(text@, i);
}

/// The functions answer what the laws speak of.
pub proof fn clean_up_functions(
    text: &str,
    lines: &Vec<&str>,
    dedent_gives: String,
    unwrap_gives: String,
    alone: bool,
    width: usize,
)
    requires
        call_ensures(dedent, (text,), dedent_gives),
        call_ensures(unwrap_lines, (text,), unwrap_gives),
        call_ensures(is_intentional_break, (text,), alone),
        call_ensures(detect_wrap_width, (lines,), width),
    ensures
        dedent_gives@ == dedented(text@),
        unwrap_gives@ == unwrapped(text@),
        alone == stands_alone(text@),
        width == wrap_width(Seq::new(lines@.len(), |i: int| lines@[i]@)),
{
}

} // verus!
