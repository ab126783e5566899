//! Text helpers that the other modules share: equality of names, the
//! first place of a name in a list, and the part of a text before a
//! delimiter.

use vstd::prelude::*;
use vstd::std_specs::iter::IteratorSpec;

verus! {

/// Whether two string slices hold the same characters in the same order.
pub fn str_eq(a: &str, b: &str) -> (same: bool)
    ensures
        same == (a@ == b@),
{
    let mut left = a.chars();
    let mut right = b.chars();
    let ghost mut count: int = 0;
    assert(a@.skip(0) == a@);
    assert(b@.skip(0) == b@);
    loop
        invariant
            0 <= count <= a@.len(),
            count <= b@.len(),
            left.remaining() == a@.skip(count),
            right.remaining() == b@.skip(count),
            a@.take(count) == b@.take(count),
        decreases a@.len() - count,
    {
        let x = left.next();
        let y = right.next();
        match (x, y) {
            (Some(x), Some(y)) => {
                if x != y {
                    assert(a@[count] != b@[count]);
                    return false;
                }
                proof {
                    assert(a@.skip(count).drop_first() == a@.skip(count + 1));
                    assert(b@.skip(count).drop_first() == b@.skip(count + 1));
                    assert(a@.take(count + 1) == a@.take(count).push(a@[count]));
                    assert(b@.take(count + 1) == b@.take(count).push(b@[count]));
                    count = count + 1;
                }
            },
            (None, None) => {
                assert(a@.take(count) == a@);
                assert(b@.take(count) == b@);
                return true;
            },
            _ => {
                assert(a@.len() != b@.len());
                return false;
            },
        }
    }
}

/// `at` is where the first `delimiter` of `text` stands, or the length of
/// `text` where it holds none.
pub open spec fn is_first_position(text: Seq<char>, delimiter: char, at: int) -> bool {
    &&& 0 <= at <= text.len()
    &&& at < text.len() ==> text[at] == delimiter
    &&& forall|j: int| 0 <= j < at ==> text[j] != delimiter
}

/// The part of `text` before its first `delimiter`: all of `text` where it
/// holds none.
pub open spec fn text_before(text: Seq<char>, delimiter: char) -> Seq<char> {
    text.take(choose|at: int| is_first_position(text, delimiter, at))
}

/// There is one first position, so any that is known gives `text_before`.
pub proof fn lemma_text_before(text: Seq<char>, delimiter: char, at: int)
    requires
        is_first_position(text, delimiter, at),
    ensures
        text_before(text, delimiter) == text.take(at),
{
    let chosen = choose|at: int| is_first_position(text, delimiter, at);
    assert(is_first_position(text, delimiter, chosen));
    if chosen < at {
        assert(text[chosen] != delimiter);
    } else if at < chosen {
        assert(text[at] != delimiter);
    }
}

/// The part of `text` before its first `delimiter`, as a new string.
pub fn prefix_before(text: &str, delimiter: char) -> (prefix: String)
    ensures
        prefix@ == text_before(text@, delimiter),
        is_first_position(text@, delimiter, prefix@.len() as int),
{
    let length = text.unicode_len();
    let mut rest = text.chars();
    let mut count: usize = 0;
    assert(text@.skip(0) == text@);
    loop
        invariant_except_break
            rest.remaining() == text@.skip(count as int),
        invariant
            length == text@.len(),
            count <= length,
            forall|j: int| 0 <= j < count ==> text@[j] != delimiter,
        ensures
            is_first_position(text@, delimiter, count as int),
        decreases length - count,
    {
        match rest.next() {
            Some(c) => {
                if c == delimiter {
                    break;
                }
                assert(text@.skip(count as int).drop_first() == text@.skip(count + 1));
                count = count + 1;
            },
            None => {
                break;
            },
        }
    }
    proof {
        lemma_text_before(text@, delimiter, count as int);
    }
    text.substring_char(0, count).to_owned()
}

/// `at` is the first place in `names` that holds `wanted`.
pub open spec fn is_first_named(names: Seq<Seq<char>>, wanted: Seq<char>, at: int) -> bool {
    &&& 0 <= at < names.len()
    &&& names[at] == wanted
    &&& forall|j: int| 0 <= j < at ==> names[j] != wanted
}

/// The first place in `names` that holds `wanted`, if any does. Names need
/// not be unique: the first in list order wins.
pub open spec fn first_named(names: Seq<Seq<char>>, wanted: Seq<char>) -> Option<int> {
    if exists|at: int| is_first_named(names, wanted, at) {
        Some(choose|at: int| is_first_named(names, wanted, at))
    } else {
        None
    }
}

/// A place known to be the first that holds `wanted` is the one that
/// `first_named` gives.
pub proof fn lemma_first_named_found(names: Seq<Seq<char>>, wanted: Seq<char>, at: int)
    requires
        is_first_named(names, wanted, at),
    ensures
        first_named(names, wanted) == Some(at),
{
    let chosen = choose|at: int| is_first_named(names, wanted, at);
    assert(is_first_named(names, wanted, chosen));
    if chosen < at {
        assert(names[chosen] != wanted);
    } else if at < chosen {
        assert(names[at] != wanted);
    }
}

/// Where no place holds `wanted`, `first_named` gives none.
pub proof fn lemma_first_named_absent(names: Seq<Seq<char>>, wanted: Seq<char>)
    requires
        forall|j: int| 0 <= j < names.len() ==> names[j] != wanted,
    ensures
        first_named(names, wanted) is None,
{
}

/// Where `first_named` gives none, no place holds `wanted`.
pub proof fn lemma_first_named_none(names: Seq<Seq<char>>, wanted: Seq<char>)
    requires
        first_named(names, wanted) is None,
    ensures
        forall|j: int| 0 <= j < names.len() ==> names[j] != wanted,
{
    assert forall|j: int| 0 <= j < names.len() implies names[j] != wanted by {
        if names[j] == wanted {
            lemma_first_named_exists(names, wanted, j);
        }
    }
}

/// A name that stands somewhere in a list has a first place there.
proof fn lemma_first_named_exists(names: Seq<Seq<char>>, wanted: Seq<char>, at: int)
    requires
        0 <= at < names.len(),
        names[at] == wanted,
    ensures
        first_named(names, wanted) is Some,
    decreases at,
{
    if exists|j: int| 0 <= j < at && names[j] == wanted {
        let j = choose|j: int| 0 <= j < at && names[j] == wanted;
        lemma_first_named_exists(names, wanted, j);
    } else {
        assert(is_first_named(names, wanted, at));
    }
}

} // verus!
