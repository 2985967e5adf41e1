//! The font of the terminal: the one that is asked for where it is there, and the
//! bundled one otherwise.

use vstd::prelude::*;

use crate::text::{chars_of, eq_ascii_case, same_but_ascii_case, strings};

verus! {

/// The family that every client brings along.
pub const TERMINAL_FONT_FAMILY: &'static str = "JetBrains Mono";

/// The first family that is asked for, but for upper and lower case.
pub open spec fn first_match(requested: Seq<char>, available: Seq<Seq<char>>) -> Option<Seq<char>>
    decreases available.len(),
{
    if available.len() == 0 {
        None
    } else if same_but_ascii_case(available[0], requested) {
        Some(available[0])
    } else {
        first_match(requested, available.skip(1))
    }
}

/// The family that is used, as the platform spells it.
pub open spec fn family(requested: Seq<char>, available: Seq<Seq<char>>) -> Seq<char> {
    match first_match(requested, available) {
        Some(name) => name,
        None => TERMINAL_FONT_FAMILY@,
    }
}

/// The family that is used.
pub fn family_or_default(requested: &str, available: &Vec<String>) -> (r: String)
    ensures
        r@ == family(requested@, strings(available@)),
{
    let wanted = chars_of(requested);
    let ghost names = strings(available@);
    let mut i: usize = 0;
    proof {
        assert(names.skip(0) =~= names);
    }
    while i < available.len()
        invariant
            i <= available@.len(),
            wanted@ == requested@,
            names == strings(available@),
            first_match(requested@, names) == first_match(requested@, names.skip(i as int)),
        decreases available@.len() - i,
    {
        let name = chars_of(available[i].as_str());
        proof {
            assert(names.skip(i as int)[0] == available@[i as int]@);
            assert(names.skip(i as int).skip(1) =~= names.skip(i + 1));
        }
        if eq_ascii_case(name.as_slice(), wanted.as_slice()) {
            return available[i].clone();
        }
        i += 1;
    }
    TERMINAL_FONT_FAMILY.to_owned()
}

/// A family that is there is used, and none but the bundled one is used that was not
/// asked for.
pub proof fn available_families_are_used(requested: Seq<char>, available: Seq<Seq<char>>, i: int)
    requires
        0 <= i < available.len(),
        same_but_ascii_case(available[i], requested),
    ensures
        available.contains(family(requested, available)),
        same_but_ascii_case(family(requested, available), requested),
    decreases available.len(),
{
    if same_but_ascii_case(available[0], requested) {
        assert(available[0] == family(requested, available));
    } else {
        let rest = available.skip(1);
        assert(rest[i - 1] == available[i]);
        available_families_are_used(requested, rest, i - 1);
        let name = family(requested, rest);
        let k = choose|k: int| 0 <= k < rest.len() && rest[k] == name;
        assert(available[k + 1] == name);
    }
}

/// Where a family is not there, the bundled one is used.
pub proof fn missing_families_are_replaced(requested: Seq<char>, available: Seq<Seq<char>>)
    requires
        forall|i: int|
            0 <= i < available.len() ==> !same_but_ascii_case(#[trigger] available[i], requested),
    ensures
        family(requested, available) == TERMINAL_FONT_FAMILY@,
    decreases available.len(),
{
    if available.len() > 0 {
        assert(!same_but_ascii_case(available[0], requested));
        assert forall|i: int| 0 <= i < available.skip(1).len() implies !same_but_ascii_case(
            #[trigger] available.skip(1)[i],
            requested,
        ) by {
            assert(available.skip(1)[i] == available[i + 1]);
        }
        missing_families_are_replaced(requested, available.skip(1));
    }
}

/// Of several families of the same name but for its case, the first is used, as it is
/// written.
pub proof fn the_first_family_is_used(requested: Seq<char>, available: Seq<Seq<char>>, i: int)
    requires
        0 <= i < available.len(),
        same_but_ascii_case(available[i], requested),
        forall|k: int| 0 <= k < i ==> !same_but_ascii_case(#[trigger] available[k], requested),
    ensures
        family(requested, available) == available[i],
    decreases i,
{
    if i > 0 {
        assert(!same_but_ascii_case(available[0], requested));
        let rest = available.skip(1);
        assert forall|k: int| 0 <= k < i - 1 implies !same_but_ascii_case(
            #[trigger] rest[k],
            requested,
        ) by {
            assert(rest[k] == available[k + 1]);
        }
        the_first_family_is_used(requested, rest, i - 1);
    }
}

/// What is used in place of a missing family.
pub proof fn the_terminal_family(requested: Seq<char>)
    ensures
        family(requested, Seq::empty()) == "JetBrains Mono"@,
{
}

/// The function takes the family that the laws speak of.
pub proof fn font_functions(requested: &str, available: &Vec<String>, r: String)
    requires
        call_ensures(family_or_default, (requested, available), r),
    ensures
        r@ == family(requested@, strings(available@)),
{
}

} // verus!
