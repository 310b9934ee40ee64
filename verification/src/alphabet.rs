//! The alphabetical order of names.

use std::rc::Rc;

use vstd::prelude::*;
use vstd::string::*;

use crate::hir::StrId;
use crate::list::{lookup, Cons, List, Nil, Table};
use crate::program::Facts;
use crate::rendering::{spelled, str_id_to_string};

verus! {

/// Whether one text comes before another, both alike up to a place. The first character that
/// differs decides, by its code point, and the end of a text comes before any character.
pub open spec fn earlier_from(a: Seq<char>, b: Seq<char>, at: int) -> bool
    decreases a.len() - at,
{
    if at >= b.len() {
        false
    } else if at >= a.len() {
        true
    } else if a[at] == b[at] {
        earlier_from(a, b, at + 1)
    } else {
        (a[at] as int) < (b[at] as int)
    }
}

pub open spec fn earlier(a: Seq<char>, b: Seq<char>) -> bool {
    earlier_from(a, b, 0)
}

/// Whether one text comes before another in the alphabet.
pub fn is_earlier(a: &str, b: &str) -> (before: bool)
    ensures
        before == earlier(a@, b@),
{
    let a_len: usize = a.unicode_len();
    let b_len: usize = b.unicode_len();
    let mut at: usize = 0;
    while at < a_len && at < b_len
        invariant
            a_len == a@.len(),
            b_len == b@.len(),
            at <= a_len,
            at <= b_len,
            earlier(a@, b@) == earlier_from(a@, b@, at as int),
        decreases a_len - at,
    {
        let x = a.get_char(at);
        let y = b.get_char(at);
        if x != y {
            return (x as u32) < (y as u32);
        }
        at = at + 1;
    }
    at < b_len
}

/// The number of names that come before a text.
pub open spec fn number_before(
    names: Table<StrId, String>,
    entries: Table<StrId, String>,
    text: Seq<char>,
) -> nat
    decreases entries,
{
    match entries {
        Nil => 0,
        Cons(entry, rest) => {
            let others = number_before(names, *rest, text);
            if earlier(spelled(names, entry.0), text) {
                others + 1
            } else {
                others
            }
        },
    }
}

/// Each name with the number of names before it.
pub open spec fn ranked(
    names: Table<StrId, String>,
    entries: Table<StrId, String>,
) -> Table<StrId, usize>
    decreases entries,
{
    match entries {
        Nil => Nil,
        Cons(entry, rest) => List::cons_of(
            (entry.0, number_before(names, names, spelled(names, entry.0)) as usize),
            ranked(names, *rest),
        ),
    }
}

proof fn at_most_all_come_before(
    names: Table<StrId, String>,
    entries: Table<StrId, String>,
    text: Seq<char>,
)
    ensures
        number_before(names, entries, text) <= entries.seq().len(),
    decreases entries,
{
    match entries {
        Nil => {},
        Cons(_, _) => at_most_all_come_before(names, entries.rest(), text),
    }
}

fn count_before(
    names: &Table<StrId, String>,
    entries: &Table<StrId, String>,
    text: &String,
) -> (number: usize)
    requires
        entries.seq().len() < usize::MAX,
    ensures
        number == number_before(*names, *entries, text@),
    decreases entries,
{
    match entries {
        Nil => 0,
        Cons(entry, rest) => {
            proof {
                at_most_all_come_before(*names, entries.rest(), text@);
            }
            let others: usize = count_before(names, rest, text);
            let name = str_id_to_string(names, entry.0);
            if is_earlier(name.as_str(), text.as_str()) {
                others + 1
            } else {
                others
            }
        },
    }
}

fn rank_entries(
    names: &Table<StrId, String>,
    entries: &Table<StrId, String>,
) -> (ranks: Table<StrId, usize>)
    requires
        names.seq().len() < usize::MAX,
    ensures
        ranks == ranked(*names, *entries),
    decreases entries,
{
    match entries {
        Nil => Nil,
        Cons(entry, rest) => {
            let name = str_id_to_string(names, entry.0);
            let rank: usize = count_before(names, names, &name);
            Cons(Rc::new((entry.0, rank)), Rc::new(rank_entries(names, rest)))
        },
    }
}

/// Where each name stands in alphabetical order. Names that are spelled alike stand together.
pub fn rank_names(names: &Table<StrId, String>) -> (ranks: Table<StrId, usize>)
    requires
        names.seq().len() < usize::MAX,
    ensures
        ranks == ranked(*names, *names),
{
    rank_entries(names, names)
}

proof fn nothing_is_earlier_than_itself(a: Seq<char>, at: int)
    ensures
        !earlier_from(a, a, at),
    decreases a.len() - at,
{
    if at < a.len() {
        nothing_is_earlier_than_itself(a, at + 1);
    }
}

/// What comes before one text comes before each text that is not earlier.
proof fn earlier_carries_over(x: Seq<char>, a: Seq<char>, b: Seq<char>, at: int)
    requires
        0 <= at,
        earlier_from(x, a, at),
        !earlier_from(b, a, at),
    ensures
        earlier_from(x, b, at),
    decreases x.len() - at,
{
    if at < x.len() && at < a.len() && at < b.len() && x[at] == a[at] && a[at] == b[at] {
        earlier_carries_over(x, a, b, at + 1);
    }
}

proof fn earlier_texts_are_not_later(a: Seq<char>, b: Seq<char>, at: int)
    requires
        0 <= at,
        earlier_from(a, b, at),
    ensures
        !earlier_from(b, a, at),
    decreases a.len() - at,
{
    if at < a.len() && at < b.len() && a[at] == b[at] {
        earlier_texts_are_not_later(a, b, at + 1);
    }
}

/// As many names or more come before a text that is not earlier.
proof fn as_many_come_before(
    names: Table<StrId, String>,
    entries: Table<StrId, String>,
    a: Seq<char>,
    b: Seq<char>,
)
    requires
        !earlier(b, a),
    ensures
        number_before(names, entries, a) <= number_before(names, entries, b),
    decreases entries,
{
    match entries {
        Nil => {},
        Cons(_, _) => {
            as_many_come_before(names, entries.rest(), a, b);
            let name = spelled(names, entries.head().0);
            if earlier(name, a) {
                earlier_carries_over(name, a, b, 0);
            }
        },
    }
}

/// More names come before a later text, where the earlier one is among them.
proof fn more_come_before(
    names: Table<StrId, String>,
    entries: Table<StrId, String>,
    name: StrId,
    b: Seq<char>,
)
    requires
        lookup(entries, name) is Some,
        earlier(spelled(names, name), b),
    ensures
        number_before(names, entries, spelled(names, name)) < number_before(names, entries, b),
    decreases entries,
{
    let a = spelled(names, name);
    earlier_texts_are_not_later(a, b, 0);
    nothing_is_earlier_than_itself(a, 0);
    match entries {
        Nil => {},
        Cons(_, _) => {
            as_many_come_before(names, entries.rest(), a, b);
            if entries.head().0 != name {
                more_come_before(names, entries.rest(), name, b);
                let other = spelled(names, entries.head().0);
                if earlier(other, a) {
                    earlier_carries_over(other, a, b, 0);
                }
            }
        },
    }
}

proof fn each_name_is_ranked(
    names: Table<StrId, String>,
    entries: Table<StrId, String>,
    name: StrId,
)
    requires
        lookup(entries, name) is Some,
    ensures
        lookup(ranked(names, entries), name) == Some(
            number_before(names, names, spelled(names, name)) as usize,
        ),
    decreases entries,
{
    match entries {
        Nil => {},
        Cons(_, _) => if entries.head().0 != name {
            each_name_is_ranked(names, entries.rest(), name);
        },
    }
}

/// Of two names, the one with the lesser rank is the one that comes first in the alphabet, and a
/// name without a rank comes last.
pub proof fn ranks_follow_the_alphabet(
    names: Table<StrId, String>,
    facts: Facts,
    a: StrId,
    b: StrId,
)
    requires
        names.seq().len() < usize::MAX,
        facts.name_ranks == ranked(names, names),
        lookup(names, a) is Some,
    ensures
        lookup(names, b) is Some ==> (facts.rank(a) < facts.rank(b)) == earlier(
            spelled(names, a),
            spelled(names, b),
        ),
        lookup(names, b) is None ==> facts.rank(a) < facts.rank(b),
{
    let (x, y) = (spelled(names, a), spelled(names, b));
    at_most_all_come_before(names, names, x);
    at_most_all_come_before(names, names, y);
    each_name_is_ranked(names, names, a);
    if lookup(names, b) is Some {
        each_name_is_ranked(names, names, b);
        if earlier(x, y) {
            more_come_before(names, names, a, y);
        } else {
            as_many_come_before(names, names, y, x);
        }
    } else {
        others_have_no_rank(names, names, b);
    }
}

proof fn others_have_no_rank(
    names: Table<StrId, String>,
    entries: Table<StrId, String>,
    name: StrId,
)
    requires
        lookup(entries, name) is None,
    ensures
        lookup(ranked(names, entries), name) is None,
    decreases entries,
{
    match entries {
        Nil => {},
        Cons(_, _) => others_have_no_rank(names, entries.rest(), name),
    }
}

} // verus!
