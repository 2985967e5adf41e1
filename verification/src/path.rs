//! Paths as text, compared part by part.

use vstd::prelude::*;

use crate::text::{
    chars_of, find, find_bounds, find_unique, same_chars, split, split_on, texts, to_vec,
};

verus! {

/// Whether a path begins at the root.
pub open spec fn is_rooted(path: Seq<char>) -> bool {
    path.len() > 0 && path[0] == '/'
}

/// Whether a part of a path counts: it is not empty, and not a dot but at the very
/// front of a path that does not begin at the root.
pub open spec fn counts(part: Seq<char>, first: bool, rooted: bool) -> bool {
    part.len() > 0 && (part != seq!['.'] || (first && !rooted))
}

/// The parts of a path that count, of its first parts.
pub open spec fn counting(parts: Seq<Seq<char>>, rooted: bool) -> Seq<Seq<char>>
    decreases parts.len(),
{
    if parts.len() == 0 {
        Seq::empty()
    } else {
        let rest = counting(parts.drop_last(), rooted);
        if counts(parts.last(), parts.len() == 1, rooted) {
            rest.push(parts.last())
        } else {
            rest
        }
    }
}

/// The parts of a path.
pub open spec fn components(path: Seq<char>) -> Seq<Seq<char>> {
    counting(split(path, '/'), is_rooted(path))
}

/// Whether two paths are the same, part by part.
pub open spec fn same_path(left: Seq<char>, right: Seq<char>) -> bool {
    is_rooted(left) == is_rooted(right) && components(left) == components(right)
}

/// The parts of a path.
pub(crate) fn components_of(path: &[char]) -> (r: Vec<Vec<char>>)
    ensures
        texts(r@) == components(path@),
{
    let rooted = path.len() > 0 && path[0] == '/';
    let parts = split_on(path, '/');
    let ghost all = split(path@, '/');
    let dot = chars_of(".");
    let mut out: Vec<Vec<char>> = Vec::new();
    let mut i: usize = 0;
    proof {
        reveal_strlit(".");
        assert(dot@ =~= seq!['.']);
        assert(texts(parts@).len() == parts@.len());
        assert(texts(out@) =~= counting(all.take(0), rooted));
    }
    while i < parts.len()
        invariant
            i <= parts@.len(),
            all == texts(parts@),
            all.len() == parts@.len(),
            dot@ == seq!['.'],
            texts(out@) == counting(all.take(i as int), rooted),
        decreases parts@.len() - i,
    {
        let ghost before = texts(out@);
        proof {
            assert(all.take(i + 1).drop_last() =~= all.take(i as int));
            assert(all.take(i + 1).last() == parts@[i as int]@);
        }
        let part = parts[i].as_slice();
        if part.len() > 0 && (!same_chars(part, dot.as_slice()) || (i == 0 && !rooted)) {
            out.push(to_vec(part));
            proof {
                assert(texts(out@) =~= before.push(part@));
            }
        }
        i += 1;
    }
    proof {
        assert(all.take(all.len() as int) =~= all);
    }
    out
}

fn same_parts(left: &Vec<Vec<char>>, right: &Vec<Vec<char>>) -> (r: bool)
    ensures
        r == (texts(left@) == texts(right@)),
{
    if left.len() != right.len() {
        proof {
            assert(texts(left@).len() != texts(right@).len());
        }
        return false;
    }
    let mut i: usize = 0;
    while i < left.len()
        invariant
            i <= left@.len(),
            left@.len() == right@.len(),
            forall|k: int| 0 <= k < i ==> (#[trigger] left@[k])@ == right@[k]@,
        decreases left@.len() - i,
    {
        if !same_chars(left[i].as_slice(), right[i].as_slice()) {
            proof {
                assert(texts(left@)[i as int] != texts(right@)[i as int]);
            }
            return false;
        }
        i += 1;
    }
    proof {
        assert(texts(left@) =~= texts(right@));
    }
    true
}

/// Whether two paths are the same, part by part.
pub fn same_path_text(left: &str, right: &str) -> (r: bool)
    ensures
        r == same_path(left@, right@),
{
    let a = chars_of(left);
    let b = chars_of(right);
    let a_rooted = a.len() > 0 && a[0] == '/';
    let b_rooted = b.len() > 0 && b[0] == '/';
    let x = components_of(a.as_slice());
    let y = components_of(b.as_slice());
    a_rooted == b_rooted && same_parts(&x, &y)
}

/// What a path amounts to: paths that are the same amount to the same.
pub struct PathKey {
    pub rooted: bool,
    pub parts: Seq<Seq<char>>,
}

/// What a path amounts to.
pub open spec fn path_key(path: Seq<char>) -> PathKey {
    PathKey { rooted: is_rooted(path), parts: components(path) }
}

/// The parts of a path with another behind a slash.
proof fn split_behind(a: Seq<char>, b: Seq<char>)
    ensures
        split(a + seq!['/'] + b, '/') == split(a, '/') + split(b, '/'),
    decreases a.len(),
{
    let s = a + seq!['/'] + b;
    find_bounds(a, '/');
    let n = find(a, '/') as int;
    if n >= a.len() {
        assert forall|i: int| 0 <= i < a.len() implies (#[trigger] s[i]) != '/' by {
            assert(s[i] == a[i]);
        }
        find_unique(s, '/', a.len() as int);
        assert(s.take(a.len() as int) =~= a);
        assert(s.skip(a.len() as int + 1) =~= b);
        assert(split(s, '/') =~= split(a, '/') + split(b, '/'));
    } else {
        let rest = a.skip(n + 1);
        assert forall|i: int| 0 <= i < n implies (#[trigger] s[i]) != '/' by {
            assert(s[i] == a[i]);
        }
        assert(s[n] == a[n]);
        find_unique(s, '/', n);
        assert(s.take(n) =~= a.take(n));
        assert(s.skip(n + 1) =~= rest + seq!['/'] + b);
        split_behind(rest, b);
        assert(split(s, '/') =~= split(a, '/') + split(b, '/'));
    }
}

/// A slash at the end of a path, a second slash and a part that is a dot make no
/// difference.
pub proof fn slashes_and_dots_make_no_difference(a: Seq<char>)
    requires
        a.len() > 0,
    ensures
        same_path(a + seq!['/'], a),
        same_path(a + seq!['/', '/'], a),
        same_path(a + seq!['/', '.'], a),
{
    let none = Seq::<char>::empty();
    let dot = seq!['.'];
    assert(a + seq!['/'] =~= a + seq!['/'] + none);
    split_behind(a, none);
    find_unique(none, '/', 0);
    assert(split(none, '/') =~= seq![none]);
    nothing_counts(split(a, '/'), none, is_rooted(a));
    assert(split(a, '/') + seq![none] =~= split(a, '/').push(none));
    assert(a + seq!['/', '.'] =~= a + seq!['/'] + dot);
    split_behind(a, dot);
    find_unique(dot, '/', 1);
    assert(split(dot, '/') =~= seq![dot]);
    nothing_counts(split(a, '/'), dot, is_rooted(a));
    assert(split(a, '/') + seq![dot] =~= split(a, '/').push(dot));
    let once = a + seq!['/'];
    assert(a + seq!['/', '/'] =~= once + seq!['/'] + none);
    split_behind(once, none);
    nothing_counts(split(once, '/'), none, is_rooted(a));
    assert(split(once, '/') + seq![none] =~= split(once, '/').push(none));
    assert(is_rooted(a + seq!['/']) == is_rooted(a));
    assert(is_rooted(a + seq!['/', '/']) == is_rooted(a));
    assert(is_rooted(a + seq!['/', '.']) == is_rooted(a));
}

proof fn nothing_counts(parts: Seq<Seq<char>>, part: Seq<char>, rooted: bool)
    requires
        parts.len() > 0,
        part.len() == 0 || part == seq!['.'],
    ensures
        counting(parts.push(part), rooted) == counting(parts, rooted),
{
    assert(parts.push(part).drop_last() =~= parts);
}

/// A part behind a slash is the last of the path, and it counts.
pub proof fn parts_behind_a_slash_count(a: Seq<char>, part: Seq<char>)
    requires
        a.len() > 0,
        part.len() > 0,
        part != seq!['.'],
        !part.contains('/'),
    ensures
        components(a + seq!['/'] + part) == components(a).push(part),
        !same_path(a + seq!['/'] + part, a),
{
    let s = a + seq!['/'] + part;
    split_behind(a, part);
    assert forall|i: int| 0 <= i < part.len() implies (#[trigger] part[i]) != '/' by {
        assert(part.contains(part[i]));
    }
    find_unique(part, '/', part.len() as int);
    assert(split(part, '/') =~= seq![part]);
    let parts = split(a, '/');
    assert(parts + seq![part] =~= parts.push(part));
    assert(parts.push(part).drop_last() =~= parts);
    find_bounds(a, '/');
    assert(parts.len() > 0);
    assert(is_rooted(s) == is_rooted(a));
}

/// A path from the root is another than the same path from where one is.
pub proof fn roots_make_a_difference(a: Seq<char>)
    requires
        a.len() > 0,
        a[0] != '/',
    ensures
        !same_path(seq!['/'] + a, a),
        is_rooted(seq!['/'] + a),
        !is_rooted(a),
{
}

/// The function compares as the laws say.
pub proof fn paths_are_compared(left: &str, right: &str, r: bool)
    requires
        call_ensures(same_path_text, (left, right), r),
    ensures
        r <==> same_path(left@, right@),
{
}

} // verus!
