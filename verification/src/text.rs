//! Text as sequences of characters: conversions, trimming, searching, and the
//! decimal notation.

use vstd::prelude::*;
use vstd::utf8::{decode_utf8, valid_utf8};

verus! {

broadcast use vstd::string::group_string_axioms;

/// `String::push` appends the given character to the end of the string.
pub assume_specification[ String::push ](s: &mut String, c: char)
    ensures
        final(s)@ == old(s)@.push(c),
;

/// The characters of a string.
pub fn chars_of(s: &str) -> (r: Vec<char>)
    ensures
        r@ == s@,
{
    let mut out: Vec<char> = Vec::new();
    for c in it: s.chars()
        invariant
            it.seq() == s@,
            out@ == s@.take(it.index() as int),
    {
        proof {
            let k = it.index() as int;
            assert(s@.take(k + 1) =~= s@.take(k).push(s@[k]));
        }
        out.push(c);
    }
    proof {
        assert(s@.take(s@.len() as int) =~= s@);
    }
    out
}

/// The string that holds the given characters.
pub fn string_of(chars: &[char]) -> (r: String)
    ensures
        r@ == chars@,
{
    let mut out = String::new();
    let mut i: usize = 0;
    while i < chars.len()
        invariant
            i <= chars@.len(),
            out@ == chars@.take(i as int),
        decreases chars@.len() - i,
    {
        out.push(chars[i]);
        i += 1;
        proof {
            assert(chars@.take(i as int) =~= chars@.take(i - 1).push(chars@[i - 1]));
        }
    }
    proof {
        assert(chars@.take(chars@.len() as int) =~= chars@);
    }
    out
}

/// Whether two strings hold the same characters.
pub fn str_eq(a: &str, b: &str) -> (r: bool)
    ensures
        r == (a@ == b@),
{
    let x: String = a.to_owned();
    let y: String = b.to_owned();
    x == y
}

/// Appends `tail` to `s`.
pub fn push_text(s: &mut String, tail: &str)
    ensures
        final(s)@ == old(s)@ + tail@,
{
    s.append(tail);
}

/// Appends the characters of `tail` to `out`.
pub fn push_all(out: &mut Vec<char>, tail: &[char])
    ensures
        final(out)@ == old(out)@ + tail@,
{
    let ghost start = out@;
    let mut i: usize = 0;
    while i < tail.len()
        invariant
            i <= tail@.len(),
            out@ == start + tail@.take(i as int),
        decreases tail@.len() - i,
    {
        out.push(tail[i]);
        i += 1;
        proof {
            assert(tail@.take(i as int) =~= tail@.take(i - 1).push(tail@[i - 1]));
        }
    }
    proof {
        assert(tail@.take(tail@.len() as int) =~= tail@);
    }
}

/// White space in the sense of Unicode's `White_Space` property.
pub open spec fn is_space(c: char) -> bool {
    ||| 0x09 <= c as u32 <= 0x0d
    ||| c as u32 == 0x20
    ||| c as u32 == 0x85
    ||| c as u32 == 0xa0
    ||| c as u32 == 0x1680
    ||| 0x2000 <= c as u32 <= 0x200a
    ||| c as u32 == 0x2028
    ||| c as u32 == 0x2029
    ||| c as u32 == 0x202f
    ||| c as u32 == 0x205f
    ||| c as u32 == 0x3000
}

/// Whether `c` is white space.
pub fn is_white_space(c: char) -> (r: bool)
    ensures
        r == is_space(c),
{
    let n: u32 = c as u32;
    (0x09 <= n && n <= 0x0d) || n == 0x20 || n == 0x85 || n == 0xa0 || n == 0x1680 || (0x2000 <= n
        && n <= 0x200a) || n == 0x2028 || n == 0x2029 || n == 0x202f || n == 0x205f || n == 0x3000
}

/// Control characters: Unicode's general category `Cc`.
pub open spec fn is_control(c: char) -> bool {
    (c as u32) < 0x20 || 0x7f <= c as u32 <= 0x9f
}

/// Whether `c` is a control character.
pub fn is_control_char(c: char) -> (r: bool)
    ensures
        r == is_control(c),
{
    let n: u32 = c as u32;
    n < 0x20 || (0x7f <= n && n <= 0x9f)
}

/// How many white-space characters `s` starts with.
pub open spec fn leading_space(s: Seq<char>) -> nat
    decreases s.len(),
{
    if s.len() > 0 && is_space(s[0]) {
        1 + leading_space(s.skip(1))
    } else {
        0
    }
}

/// How many white-space characters `s` ends with.
pub open spec fn trailing_space(s: Seq<char>) -> nat
    decreases s.len(),
{
    if s.len() > 0 && is_space(s.last()) {
        1 + trailing_space(s.drop_last())
    } else {
        0
    }
}

/// `s` without its leading white space.
pub open spec fn trim_start(s: Seq<char>) -> Seq<char> {
    s.skip(leading_space(s) as int)
}

/// `s` without its trailing white space.
pub open spec fn trim_end(s: Seq<char>) -> Seq<char> {
    s.take(s.len() - trailing_space(s))
}

/// `s` without the white space at either end.
pub open spec fn trim(s: Seq<char>) -> Seq<char> {
    trim_end(trim_start(s))
}

/// The leading white space is what it is called: that many white-space
/// characters, and then another kind of character or the end.
pub proof fn leading_space_bounds(s: Seq<char>)
    ensures
        leading_space(s) <= s.len(),
        forall|i: int| 0 <= i < leading_space(s) ==> is_space(#[trigger] s[i]),
        leading_space(s) < s.len() ==> !is_space(s[leading_space(s) as int]),
    decreases s.len(),
{
    if s.len() > 0 && is_space(s[0]) {
        leading_space_bounds(s.skip(1));
        assert forall|i: int| 0 <= i < leading_space(s) implies is_space(#[trigger] s[i]) by {
            if i > 0 {
                assert(s[i] == s.skip(1)[i - 1]);
            }
        }
        if leading_space(s) < s.len() {
            assert(s[leading_space(s) as int] == s.skip(1)[leading_space(s) - 1]);
        }
    }
}

/// The trailing white space is what it is called.
pub proof fn trailing_space_bounds(s: Seq<char>)
    ensures
        trailing_space(s) <= s.len(),
        forall|i: int| s.len() - trailing_space(s) <= i < s.len() ==> is_space(#[trigger] s[i]),
        trailing_space(s) < s.len() ==> !is_space(s[s.len() - trailing_space(s) - 1]),
    decreases s.len(),
{
    if s.len() > 0 && is_space(s.last()) {
        trailing_space_bounds(s.drop_last());
        assert forall|i: int| s.len() - trailing_space(s) <= i < s.len() implies is_space(
            #[trigger] s[i],
        ) by {
            if i < s.len() - 1 {
                assert(s[i] == s.drop_last()[i]);
            }
        }
    }
}

/// The counts of white space are the only ones that fit.
proof fn leading_space_unique(s: Seq<char>, n: int)
    requires
        0 <= n <= s.len(),
        forall|i: int| 0 <= i < n ==> is_space(#[trigger] s[i]),
        n < s.len() ==> !is_space(s[n]),
    ensures
        leading_space(s) == n,
{
    leading_space_bounds(s);
    if leading_space(s) < n {
        assert(is_space(s[leading_space(s) as int]));
    }
}

proof fn trailing_space_unique(s: Seq<char>, n: int)
    requires
        0 <= n <= s.len(),
        forall|i: int| s.len() - n <= i < s.len() ==> is_space(#[trigger] s[i]),
        n < s.len() ==> !is_space(s[s.len() - n - 1]),
    ensures
        trailing_space(s) == n,
{
    trailing_space_bounds(s);
    if trailing_space(s) < n {
        assert(is_space(s[s.len() - trailing_space(s) - 1]));
    }
}

/// `s` without its leading white space.
pub fn trimmed_start(s: &[char]) -> (r: &[char])
    ensures
        r@ == trim_start(s@),
{
    let mut i: usize = 0;
    while i < s.len() && is_white_space(s[i])
        invariant
            i <= s@.len(),
            forall|k: int| 0 <= k < i ==> is_space(#[trigger] s@[k]),
        decreases s@.len() - i,
    {
        i += 1;
    }
    proof {
        leading_space_unique(s@, i as int);
    }
    vstd::slice::slice_subrange(s, i, s.len())
}

/// `s` without its trailing white space.
pub fn trimmed_end(s: &[char]) -> (r: &[char])
    ensures
        r@ == trim_end(s@),
{
    let mut n: usize = s.len();
    while n > 0 && is_white_space(s[n - 1])
        invariant
            n <= s@.len(),
            forall|k: int| n <= k < s@.len() ==> is_space(#[trigger] s@[k]),
        decreases n,
    {
        n -= 1;
    }
    proof {
        trailing_space_unique(s@, s@.len() - n);
    }
    vstd::slice::slice_subrange(s, 0, n)
}

/// `s` without the white space at either end.
pub fn trimmed(s: &[char]) -> (r: &[char])
    ensures
        r@ == trim(s@),
{
    trimmed_end(trimmed_start(s))
}

/// The digit `d` as a character.
pub open spec fn digit(d: nat) -> char
    recommends
        d < 10,
{
    (('0' as nat) + d) as char
}

/// `n` in decimal notation, without leading zeros.
pub open spec fn decimal(n: nat) -> Seq<char>
    decreases n,
{
    if n < 10 {
        seq![digit(n)]
    } else {
        decimal(n / 10).push(digit(n % 10))
    }
}

fn digit_char(d: u64) -> (c: char)
    requires
        d < 10,
    ensures
        c == digit(d as nat),
{
    let b: u8 = 48 + d as u8;
    b as char
}

/// Appends `n` in decimal notation.
pub fn push_decimal(s: &mut String, n: u64)
    ensures
        final(s)@ == old(s)@ + decimal(n as nat),
    decreases n,
{
    if n >= 10 {
        push_decimal(s, n / 10);
    }
    s.push(digit_char(n % 10));
    proof {
        assert(s@ =~= old(s)@ + decimal(n as nat));
    }
}

/// Whether `needle` occurs in `hay` as a run of neighbouring characters.
pub open spec fn occurs_in(needle: Seq<char>, hay: Seq<char>) -> bool {
    exists|i: int|
        0 <= i <= hay.len() - needle.len() && #[trigger] hay.subrange(i, i + needle.len())
            == needle
}

/// Whether two runs of characters are the same.
pub fn same_chars(a: &[char], b: &[char]) -> (r: bool)
    ensures
        r == (a@ == b@),
{
    if a.len() != b.len() {
        return false;
    }
    let mut i: usize = 0;
    while i < a.len()
        invariant
            i <= a@.len(),
            a@.len() == b@.len(),
            forall|k: int| 0 <= k < i ==> a@[k] == b@[k],
        decreases a@.len() - i,
    {
        if a[i] != b[i] {
            return false;
        }
        i += 1;
    }
    proof {
        assert(a@ =~= b@);
    }
    true
}

/// Whether `needle` occurs in `hay`.
pub fn contains(hay: &[char], needle: &[char]) -> (r: bool)
    ensures
        r == occurs_in(needle@, hay@),
{
    if needle.len() > hay.len() {
        return false;
    }
    let last: usize = hay.len() - needle.len();
    let mut i: usize = 0;
    while i <= last
        invariant
            i <= last + 1,
            last == hay@.len() - needle@.len(),
            hay@.len() <= usize::MAX,
            forall|k: int|
                0 <= k < i ==> #[trigger] hay@.subrange(k, k + needle@.len()) != needle@,
        decreases last + 1 - i,
    {
        let part = vstd::slice::slice_subrange(hay, i, i + needle.len());
        if same_chars(part, needle) {
            return true;
        }
        if i == last {
            return false;
        }
        i += 1;
    }
    false
}

/// The ASCII capital letters mapped to small letters; other characters stay.
pub open spec fn ascii_lower(c: char) -> char {
    if 'A' <= c && c <= 'Z' {
        ((c as u32) + 32) as char
    } else {
        c
    }
}

/// `c` with an ASCII capital mapped to the small letter.
pub fn ascii_lower_char(c: char) -> (r: char)
    ensures
        r == ascii_lower(c),
{
    if 'A' <= c && c <= 'Z' {
        let b: u8 = (c as u8) + 32;
        b as char
    } else {
        c
    }
}

/// Whether two texts are the same but for the case of ASCII letters.
pub open spec fn same_but_ascii_case(a: Seq<char>, b: Seq<char>) -> bool {
    a.len() == b.len() && forall|i: int|
        0 <= i < a.len() ==> ascii_lower(#[trigger] a[i]) == ascii_lower(b[i])
}

/// Whether two texts are the same but for the case of ASCII letters.
pub fn eq_ascii_case(a: &[char], b: &[char]) -> (r: bool)
    ensures
        r == same_but_ascii_case(a@, b@),
{
    if a.len() != b.len() {
        return false;
    }
    let mut i: usize = 0;
    while i < a.len()
        invariant
            i <= a@.len(),
            a@.len() == b@.len(),
            forall|k: int| 0 <= k < i ==> ascii_lower(#[trigger] a@[k]) == ascii_lower(b@[k]),
        decreases a@.len() - i,
    {
        if ascii_lower_char(a[i]) != ascii_lower_char(b[i]) {
            return false;
        }
        i += 1;
    }
    true
}

// ---- Lines ----

/// Where a character first stands in `s`; the length of `s` where it does not.
pub open spec fn find(s: Seq<char>, c: char) -> nat
    decreases s.len(),
{
    if s.len() == 0 || s[0] == c {
        0
    } else {
        1 + find(s.skip(1), c)
    }
}

/// `find` finds the first place.
pub proof fn find_bounds(s: Seq<char>, c: char)
    ensures
        find(s, c) <= s.len(),
        find(s, c) < s.len() ==> s[find(s, c) as int] == c,
        forall|i: int| 0 <= i < find(s, c) ==> (#[trigger] s[i]) != c,
    decreases s.len(),
{
    if s.len() > 0 && s[0] != c {
        find_bounds(s.skip(1), c);
        let n = find(s.skip(1), c);
        if n < s.skip(1).len() {
            assert(s[(n + 1) as int] == s.skip(1)[n as int]);
        }
        assert forall|i: int| 0 <= i < find(s, c) implies (#[trigger] s[i]) != c by {
            if i > 0 {
                assert(s[i] == s.skip(1)[i - 1]);
            }
        }
    }
}

/// The first place is the only one that fits.
pub proof fn find_unique(s: Seq<char>, c: char, n: int)
    requires
        0 <= n <= s.len(),
        n < s.len() ==> s[n] == c,
        forall|i: int| 0 <= i < n ==> (#[trigger] s[i]) != c,
    ensures
        find(s, c) == n,
{
    find_bounds(s, c);
    let m = find(s, c) as int;
    if m < n {
        assert(s[m] != c);
    }
    if n < m {
        assert(s[n] != c);
    }
}

/// Where a character first stands in `s`.
pub fn find_char(s: &[char], c: char) -> (r: usize)
    ensures
        r == find(s@, c),
        r <= s@.len(),
{
    let mut i: usize = 0;
    while i < s.len() && s[i] != c
        invariant
            i <= s@.len(),
            forall|k: int| 0 <= k < i ==> (#[trigger] s@[k]) != c,
        decreases s@.len() - i,
    {
        i += 1;
    }
    proof {
        find_unique(s@, c, i as int);
    }
    i
}

/// A line without the carriage return at its end.
pub open spec fn without_cr(line: Seq<char>) -> Seq<char> {
    if line.len() > 0 && line.last() == '\r' {
        line.drop_last()
    } else {
        line
    }
}

/// The lines of a text. A line ends with a line feed, which may follow a carriage
/// return; neither belongs to the line. What follows the last line feed is a line
/// too, unless it is empty.
pub open spec fn lines(s: Seq<char>) -> Seq<Seq<char>>
    decreases s.len(),
{
    let n = find(s, '\n') as int;
    if s.len() == 0 {
        Seq::empty()
    } else if n >= s.len() {
        seq![s]
    } else {
        seq![without_cr(s.take(n))] + lines(s.skip(n + 1))
    }
}

/// Texts with a separator between them.
pub open spec fn joined(parts: Seq<Seq<char>>, separator: Seq<char>) -> Seq<char>
    decreases parts.len(),
{
    if parts.len() == 0 {
        Seq::empty()
    } else if parts.len() == 1 {
        parts[0]
    } else {
        joined(parts.drop_last(), separator) + separator + parts.last()
    }
}

/// Vectors of characters, as texts.
pub open spec fn texts(v: Seq<Vec<char>>) -> Seq<Seq<char>> {
    Seq::new(v.len(), |i: int| v[i]@)
}

/// Strings, as texts.
pub open spec fn strings(v: Seq<String>) -> Seq<Seq<char>> {
    Seq::new(v.len(), |i: int| v[i]@)
}

/// The given characters, as a vector of their own.
pub fn to_vec(s: &[char]) -> (r: Vec<char>)
    ensures
        r@ == s@,
{
    let mut out: Vec<char> = Vec::new();
    push_all(&mut out, s);
    proof {
        assert(out@ =~= s@);
    }
    out
}

/// The lines of a text.
pub fn lines_of(s: &[char]) -> (r: Vec<Vec<char>>)
    ensures
        texts(r@) == lines(s@),
{
    let mut out: Vec<Vec<char>> = Vec::new();
    let mut start: usize = 0;
    proof {
        assert(s@.skip(0) =~= s@);
        assert(texts(out@) + lines(s@.skip(0)) =~= lines(s@));
    }
    while start < s.len()
        invariant
            start <= s@.len(),
            texts(out@) + lines(s@.skip(start as int)) == lines(s@),
        decreases s@.len() - start,
    {
        let rest = vstd::slice::slice_subrange(s, start, s.len());
        proof {
            assert(rest@ =~= s@.skip(start as int));
        }
        let ghost before = texts(out@);
        let n: usize = find_char(rest, '\n');
        proof {
            find_bounds(rest@, '\n');
        }
        if n >= rest.len() {
            out.push(to_vec(rest));
            proof {
                assert(texts(out@) =~= before.push(rest@));
                assert(before.push(rest@) =~= before + seq![rest@]);
            }
            return out;
        }
        let mut m: usize = n;
        if n > 0 && rest[n - 1] == '\r' {
            m = n - 1;
        }
        let line = vstd::slice::slice_subrange(rest, 0, m);
        out.push(to_vec(line));
        proof {
            assert(line@ =~= without_cr(rest@.take(n as int)));
            assert(texts(out@) =~= before.push(line@));
            assert(rest@.skip(n + 1) =~= s@.skip(start + n + 1));
            assert(before.push(line@) + lines(s@.skip(start + n + 1)) =~= before + (seq![line@]
                + lines(rest@.skip(n + 1))));
        }
        start = start + n + 1;
    }
    proof {
        assert(s@.skip(start as int) =~= Seq::<char>::empty());
        assert(texts(out@) =~= texts(out@) + lines(s@.skip(start as int)));
    }
    out
}

/// Texts with a separator between them.
pub fn join_with(parts: &Vec<Vec<char>>, separator: char) -> (r: Vec<char>)
    ensures
        r@ == joined(texts(parts@), seq![separator]),
{
    let mut out: Vec<char> = Vec::new();
    let mut i: usize = 0;
    let ghost all = texts(parts@);
    proof {
        assert(all.take(0) =~= Seq::<Seq<char>>::empty());
        assert(out@ =~= joined(all.take(0), seq![separator]));
    }
    while i < parts.len()
        invariant
            i <= parts@.len(),
            all == texts(parts@),
            out@ == joined(all.take(i as int), seq![separator]),
        decreases parts@.len() - i,
    {
        let ghost before = out@;
        if i > 0 {
            out.push(separator);
        }
        push_all(&mut out, parts[i].as_slice());
        i += 1;
        proof {
            assert(all.take(i as int).drop_last() =~= all.take(i - 1));
            assert(all.take(i as int).last() == parts@[i - 1]@);
            if i == 1 {
                assert(before =~= Seq::<char>::empty());
                assert(out@ =~= parts@[0]@);
            } else {
                assert(out@ =~= before + seq![separator] + parts@[i - 1]@);
            }
        }
    }
    proof {
        assert(all.take(all.len() as int) =~= all);
    }
    out
}

/// A text in lower case, by Unicode's rules.
pub uninterp spec fn lowercase(s: Seq<char>) -> Seq<char>;

/// `str::to_lowercase` gives the lower-case equivalent of a text. That is a
/// function of the text alone, and there is nothing in it where the text is empty.
/// Which characters it maps to which is not stated.
#[verifier::external_body]
pub(crate) fn to_lowercase(s: &str) -> (r: String)
    ensures
        r@ == lowercase(s@),
        s@.len() == 0 ==> r@.len() == 0,
{
    s.to_lowercase()
}

/// The parts of a text between occurrences of a character; one more than there
/// are occurrences.
pub open spec fn split(s: Seq<char>, c: char) -> Seq<Seq<char>>
    decreases s.len(),
{
    let n = find(s, c) as int;
    if n >= s.len() {
        seq![s]
    } else {
        seq![s.take(n)] + split(s.skip(n + 1), c)
    }
}

/// The parts of a text between occurrences of a character.
pub fn split_on(s: &[char], c: char) -> (r: Vec<Vec<char>>)
    ensures
        texts(r@) == split(s@, c),
{
    let mut out: Vec<Vec<char>> = Vec::new();
    let mut start: usize = 0;
    proof {
        assert(s@.skip(0) =~= s@);
        assert(texts(out@) + split(s@.skip(0), c) =~= split(s@, c));
    }
    loop
        invariant
            start <= s@.len(),
            texts(out@) + split(s@.skip(start as int), c) == split(s@, c),
        decreases s@.len() - start,
    {
        let rest = vstd::slice::slice_subrange(s, start, s.len());
        let ghost before = texts(out@);
        let n: usize = find_char(rest, c);
        proof {
            assert(rest@ =~= s@.skip(start as int));
            find_bounds(rest@, c);
        }
        if n >= rest.len() {
            out.push(to_vec(rest));
            proof {
                assert(texts(out@) =~= before + seq![rest@]);
            }
            return out;
        }
        let part = vstd::slice::slice_subrange(rest, 0, n);
        out.push(to_vec(part));
        proof {
            assert(part@ =~= rest@.take(n as int));
            assert(texts(out@) =~= before.push(part@));
            assert(rest@.skip(n + 1) =~= s@.skip(start + n + 1));
            assert(before.push(part@) + split(s@.skip(start + n + 1), c) =~= before + (seq![part@]
                + split(rest@.skip(n + 1), c)));
        }
        start = start + n + 1;
    }
}

// ---- Numbers ----

/// Whether a character is a decimal digit.
pub open spec fn is_digit(c: char) -> bool {
    '0' <= c <= '9'
}

/// Whether a text is made of decimal digits.
pub open spec fn all_digits(s: Seq<char>) -> bool {
    forall|i: int| 0 <= i < s.len() ==> is_digit(#[trigger] s[i])
}

/// The number that decimal digits stand for.
pub open spec fn number(s: Seq<char>) -> nat
    decreases s.len(),
{
    if s.len() == 0 {
        0
    } else {
        (number(s.drop_last()) * 10 + (s.last() as int - '0' as int)) as nat
    }
}

/// A text without a plus sign in front.
pub open spec fn without_plus(s: Seq<char>) -> Seq<char> {
    if s.len() > 0 && s[0] == '+' {
        s.skip(1)
    } else {
        s
    }
}

/// The number that a text stands for: decimal digits, with or without a plus sign in
/// front, for a number that is not too large.
pub open spec fn number_up_to(s: Seq<char>, max: nat) -> Option<nat> {
    let digits = without_plus(s);
    if digits.len() > 0 && all_digits(digits) && number(digits) <= max {
        Some(number(digits))
    } else {
        None
    }
}

proof fn number_grows(s: Seq<char>, i: int)
    requires
        all_digits(s),
        0 <= i <= s.len(),
    ensures
        number(s.take(i)) <= number(s),
    decreases s.len() - i,
{
    if i < s.len() {
        number_grows(s, i + 1);
        assert(s.take(i + 1).drop_last() =~= s.take(i));
        assert(is_digit(s[i]));
    } else {
        assert(s.take(i) =~= s);
    }
}

/// The number that a text stands for.
pub fn parse_number(s: &[char], max: u32) -> (r: Option<u32>)
    ensures
        match (r, number_up_to(s@, max as nat)) {
            (Some(value), Some(n)) => value == n,
            (None, None) => true,
            _ => false,
        },
{
    let start: usize = if s.len() > 0 && s[0] == '+' {
        1
    } else {
        0
    };
    let digits = vstd::slice::slice_subrange(s, start, s.len());
    proof {
        assert(digits@ =~= without_plus(s@));
    }
    if digits.len() == 0 {
        return None;
    }
    let mut i: usize = 0;
    while i < digits.len()
        invariant
            i <= digits@.len(),
            digits@ == without_plus(s@),
            forall|k: int| 0 <= k < i ==> is_digit(#[trigger] digits@[k]),
        decreases digits@.len() - i,
    {
        if !('0' <= digits[i] && digits[i] <= '9') {
            proof {
                assert(!is_digit(digits@[i as int]));
            }
            return None;
        }
        i += 1;
    }
    let mut value: u64 = 0;
    let mut j: usize = 0;
    proof {
        assert(digits@.take(0) =~= Seq::<char>::empty());
    }
    while j < digits.len()
        invariant
            j <= digits@.len(),
            all_digits(digits@),
            digits@ == without_plus(s@),
            digits@.len() > 0,
            value <= max,
            value == number(digits@.take(j as int)),
        decreases digits@.len() - j,
    {
        proof {
            assert(is_digit(digits@[j as int]));
            assert(digits@.take(j + 1).drop_last() =~= digits@.take(j as int));
        }
        value = value * 10 + (digits[j] as u64 - '0' as u64);
        j += 1;
        if value > max as u64 {
            proof {
                number_grows(digits@, j as int);
            }
            return None;
        }
    }
    proof {
        assert(digits@.take(digits@.len() as int) =~= digits@);
    }
    Some(value as u32)
}

/// A number in decimal notation stands for itself.
pub proof fn number_of_decimal(n: nat)
    ensures
        number(decimal(n)) == n,
        all_digits(decimal(n)),
        decimal(n).len() > 0,
    decreases n,
{
    if n < 10 {
        assert(decimal(n) =~= seq![digit(n)]);
        assert(decimal(n).drop_last() =~= Seq::<char>::empty());
        assert(number(Seq::<char>::empty()) == 0);
    } else {
        number_of_decimal(n / 10);
        assert(decimal(n).drop_last() =~= decimal(n / 10));
    }
}

/// `core::str::from_utf8` takes bytes as text where they are valid UTF-8, and only
/// then. The text is the one that they encode.
#[verifier::external_body]
pub(crate) fn from_utf8(bytes: &[u8]) -> (r: Option<String>)
    ensures
        match r {
            Some(text) => valid_utf8(bytes@) && text@ == decode_utf8(bytes@),
            None => !valid_utf8(bytes@),
        },
{
    match core::str::from_utf8(bytes) {
        Ok(text) => Some(text.to_owned()),
        Err(_) => None,
    }
}

/// What is left of bytes as text where some of them are not valid UTF-8.
pub uninterp spec fn lossy(bytes: Seq<u8>) -> Seq<char>;

/// `String::from_utf8_lossy` takes bytes as text; what is not valid UTF-8 in them is
/// replaced. That is a function of the bytes alone, and bytes that are valid are taken
/// as they are. How much each replacement stands for is not stated.
#[verifier::external_body]
pub(crate) fn from_utf8_lossy(bytes: &[u8]) -> (r: String)
    ensures
        r@ == lossy(bytes@),
        valid_utf8(bytes@) ==> r@ == decode_utf8(bytes@),
{
    String::from_utf8_lossy(bytes).into_owned()
}

/// Whether a text is white space throughout.
pub open spec fn all_white(w: Seq<char>) -> bool {
    forall|i: int| 0 <= i < w.len() ==> is_space(#[trigger] w[i])
}

/// White space before a text that starts with none is what is taken off its start.
pub proof fn leading_space_of(w: Seq<char>, rest: Seq<char>)
    requires
        all_white(w),
        rest.len() > 0 ==> !is_space(rest[0]),
    ensures
        leading_space(w + rest) == w.len(),
        trim_start(w + rest) == rest,
    decreases w.len(),
{
    let s = w + rest;
    if w.len() > 0 {
        assert(s[0] == w[0]);
        assert(s.skip(1) =~= w.skip(1) + rest);
        leading_space_of(w.skip(1), rest);
    } else {
        assert(s =~= rest);
    }
    assert(trim_start(s) =~= rest);
}

/// White space after a text that ends with none is what is taken off its end.
pub proof fn trailing_space_of(rest: Seq<char>, w: Seq<char>)
    requires
        all_white(w),
        rest.len() > 0 ==> !is_space(rest.last()),
    ensures
        trailing_space(rest + w) == w.len(),
        trim_end(rest + w) == rest,
    decreases w.len(),
{
    let s = rest + w;
    if w.len() > 0 {
        assert(s.last() == w.last() && w.last() == w[w.len() - 1]);
        assert(s.drop_last() =~= rest + w.drop_last());
        trailing_space_of(rest, w.drop_last());
    } else {
        assert(s =~= rest);
    }
    assert(trim_end(s) =~= rest);
}

/// Trimming takes off the white space at both ends, of whatever kind and length, and
/// nothing else.
pub proof fn trimming_leaves_the_rest(w: Seq<char>, t: Seq<char>, v: Seq<char>)
    requires
        all_white(w),
        all_white(v),
        t.len() > 0 ==> !is_space(t[0]) && !is_space(t.last()),
    ensures
        trim(w + t + v) == t,
{
    let s = w + t + v;
    if t.len() > 0 {
        assert(s =~= w + (t + v));
        assert((t + v)[0] == t[0]);
        leading_space_of(w, t + v);
        trailing_space_of(t, v);
    } else {
        assert(all_white(s)) by {
            assert forall|i: int| 0 <= i < s.len() implies is_space(#[trigger] s[i]) by {
                assert(s[i] == if i < w.len() {
                    w[i]
                } else {
                    v[i - w.len()]
                });
            }
        }
        assert(s =~= s + Seq::<char>::empty());
        leading_space_of(s, Seq::empty());
        assert(trim(s) =~= t);
    }
}

/// What is split at a character is put together again with it, and no part holds it.
pub proof fn splitting_is_undone_by_joining(s: Seq<char>, c: char, i: int)
    ensures
        joined(split(s, c), seq![c]) == s,
        split(s, c).len() >= 1,
        0 <= i < split(s, c).len() ==> !split(s, c)[i].contains(c),
    decreases s.len(),
{
    find_bounds(s, c);
    let n = find(s, c) as int;
    let parts = split(s, c);
    if n >= s.len() {
        assert(parts =~= seq![s]);
        if s.contains(c) {
            let k = choose|k: int| 0 <= k < s.len() && s[k] == c;
            assert(s[k] != c);
        }
    } else {
        let rest = s.skip(n + 1);
        splitting_is_undone_by_joining(rest, c, i - 1);
        let first = s.take(n);
        if first.contains(c) {
            let k = choose|k: int| 0 <= k < first.len() && first[k] == c;
            assert(s[k] != c);
        }
        assert(parts.skip(1) =~= split(rest, c));
        joined_from_the_front(parts, seq![c]);
        assert(s =~= first + seq![c] + rest);
    }
}

/// Texts are joined from either end alike.
pub proof fn joined_from_the_front(parts: Seq<Seq<char>>, separator: Seq<char>)
    requires
        parts.len() >= 2,
    ensures
        joined(parts, separator) == parts[0] + separator + joined(parts.skip(1), separator),
    decreases parts.len(),
{
    let front = parts.drop_last();
    let rest = parts.skip(1);
    if parts.len() == 2 {
        assert(joined(front, separator) == parts[0]);
        assert(joined(rest, separator) == parts[1]);
    } else {
        joined_from_the_front(front, separator);
        assert(rest.drop_last() =~= front.skip(1));
        assert(joined(parts, separator) =~= parts[0] + separator + joined(rest, separator));
    }
}

/// Capitals are lowered by the distance of the two alphabets, and nothing else changes.
pub proof fn ascii_lower_lowers_capitals(c: char)
    ensures
        'A' <= c <= 'Z' ==> ascii_lower(c) as u32 == c as u32 + 32 && 'a' <= ascii_lower(c) <= 'z',
        !('A' <= c <= 'Z') ==> ascii_lower(c) == c,
{
}

} // verus!
