//! Persistent linked lists.
//!
//! A list shares its tail with the lists it was built from, so copying one costs nothing and two
//! lists are equal exactly when they hold equal elements in the same order.

use std::rc::Rc;

use vstd::prelude::*;

verus! {

/// `Rc::clone`: another pointer to the same allocation, hence to an equal value.
#[verifier::external_body]
pub(crate) fn share<T>(shared: &Rc<T>) -> (other: Rc<T>)
    ensures
        other == *shared,
{
    Rc::clone(shared)
}

/// What a shared pointer points to.
pub open spec fn held<T>(shared: &Rc<T>) -> T {
    **shared
}

/// A value that can be compared for equality.
pub trait Key: Sized {
    fn same(&self, other: &Self) -> (equal: bool)
        ensures
            equal == (*self == *other),
    ;
}

impl Key for usize {
    fn same(&self, other: &Self) -> (equal: bool) {
        *self == *other
    }
}

impl Key for u32 {
    fn same(&self, other: &Self) -> (equal: bool) {
        *self == *other
    }
}

impl<A: Key, B: Key> Key for (A, B) {
    fn same(&self, other: &Self) -> (equal: bool) {
        self.0.same(&other.0) && self.1.same(&other.1)
    }
}

#[derive(Debug, PartialEq, Eq)]
pub enum List<T> {
    Nil,
    Cons(Rc<T>, Rc<List<T>>),
}

pub use List::{Cons, Nil};

impl<T: Key> Key for List<T> {
    fn same(&self, other: &Self) -> (equal: bool)
        decreases self,
    {
        match (self, other) {
            (Nil, Nil) => true,
            (Cons(a, rest_a), Cons(b, rest_b)) => a.same(b) && rest_a.same(rest_b),
            _ => false,
        }
    }
}

impl<T> List<T> {
    /// The elements in order.
    pub open spec fn seq(self) -> Seq<T>
        decreases self,
    {
        match self {
            Nil => Seq::empty(),
            Cons(head, tail) => seq![*head] + tail.seq(),
        }
    }

    /// The number of elements, stopping at the largest `usize`.
    pub open spec fn count(self) -> usize
        decreases self,
    {
        match self {
            Nil => 0,
            Cons(_, tail) => if tail.count() < usize::MAX {
                (tail.count() + 1) as usize
            } else {
                usize::MAX
            },
        }
    }

    /// The element at a position.
    pub open spec fn nth(self, index: usize) -> Option<T>
        decreases self,
    {
        match self {
            Nil => None,
            Cons(head, tail) => if index == 0 {
                Some(*head)
            } else {
                tail.nth((index - 1) as usize)
            },
        }
    }

    /// The list with the element at a position replaced, if there is one.
    pub open spec fn with_nth(self, index: usize, value: T) -> List<T>
        decreases self,
    {
        match self {
            Nil => Nil,
            Cons(head, tail) => if index == 0 {
                Cons(Rc::new(value), tail)
            } else {
                Cons(head, Rc::new(tail.with_nth((index - 1) as usize, value)))
            },
        }
    }

    /// The list with one more element at its end.
    pub open spec fn snoc(self, last: T) -> List<T>
        decreases self,
    {
        match self {
            Nil => Cons(Rc::new(last), Rc::new(Nil)),
            Cons(head, tail) => Cons(head, Rc::new(tail.snoc(last))),
        }
    }

    /// The elements of this list followed by those of another.
    pub open spec fn then_all(self, other: List<T>) -> List<T>
        decreases self,
    {
        match self {
            Nil => other,
            Cons(head, tail) => Cons(head, Rc::new(tail.then_all(other))),
        }
    }

    /// The elements in reverse order, followed by those of another list.
    pub open spec fn reversed_onto(self, other: List<T>) -> List<T>
        decreases self,
    {
        match self {
            Nil => other,
            Cons(head, tail) => tail.reversed_onto(Cons(head, Rc::new(other))),
        }
    }

    /// Whether an element equals the given one.
    pub open spec fn has(self, wanted: T) -> bool
        decreases self,
    {
        match self {
            Nil => false,
            Cons(head, tail) => *head == wanted || tail.has(wanted),
        }
    }

    /// The first element of a list that has one.
    pub open spec fn head(self) -> T {
        *self->Cons_0
    }

    /// What follows the first element.
    pub open spec fn rest(self) -> List<T> {
        match self {
            Nil => Nil,
            Cons(_, tail) => *tail,
        }
    }

    /// The last element.
    pub open spec fn last_of(self) -> Option<T>
        decreases self,
    {
        match self {
            Nil => None,
            Cons(head, tail) => if *tail is Nil {
                Some(*head)
            } else {
                tail.last_of()
            },
        }
    }

    /// All but the last element.
    pub open spec fn without_last(self) -> List<T>
        decreases self,
    {
        match self {
            Nil => Nil,
            Cons(head, tail) => if *tail is Nil {
                Nil
            } else {
                Cons(head, Rc::new(tail.without_last()))
            },
        }
    }

    /// The first `limit` elements.
    pub open spec fn first(self, limit: usize) -> List<T>
        decreases self,
    {
        match self {
            Nil => Nil,
            Cons(head, tail) => if limit == 0 {
                Nil
            } else {
                Cons(head, Rc::new(tail.first((limit - 1) as usize)))
            },
        }
    }

    /// What follows the first `skipped` elements.
    pub open spec fn beyond(self, skipped: usize) -> List<T>
        decreases self,
    {
        match self {
            Nil => Nil,
            Cons(_, tail) => if skipped == 0 {
                self
            } else {
                tail.beyond((skipped - 1) as usize)
            },
        }
    }

    pub open spec fn one_of(only: T) -> List<T> {
        Cons(Rc::new(only), Rc::new(Nil))
    }

    pub open spec fn cons_of(head: T, tail: List<T>) -> List<T> {
        Cons(Rc::new(head), Rc::new(tail))
    }

    pub fn dup(&self) -> (copy: List<T>)
        ensures
            copy == *self,
    {
        match self {
            Nil => Nil,
            Cons(head, tail) => Cons(share(head), share(tail)),
        }
    }

    pub fn cons(head: T, tail: List<T>) -> (list: List<T>)
        ensures
            list == Self::cons_of(head, tail),
    {
        Cons(Rc::new(head), Rc::new(tail))
    }

    pub fn one(only: T) -> (list: List<T>)
        ensures
            list == Self::one_of(only),
    {
        Cons(Rc::new(only), Rc::new(Nil))
    }

    pub fn len(&self) -> (len: usize)
        ensures
            len == self.count(),
        decreases self,
    {
        match self {
            Nil => 0,
            Cons(_, tail) => {
                let rest: usize = tail.len();
                if rest < usize::MAX {
                    rest + 1
                } else {
                    usize::MAX
                }
            },
        }
    }

    pub fn is_empty(&self) -> (empty: bool)
        ensures
            empty == (*self is Nil),
    {
        match self {
            Nil => true,
            Cons(_, _) => false,
        }
    }

    pub fn get(&self, index: usize) -> (element: Option<&T>)
        ensures
            element == match self.nth(index) {
                Some(value) => Some(&value),
                None => None,
            },
        decreases self,
    {
        match self {
            Nil => None,
            Cons(head, tail) => if index == 0 {
                Some(head)
            } else {
                tail.get(index - 1)
            },
        }
    }

    pub fn set(&self, index: usize, value: T) -> (result: List<T>)
        ensures
            result == self.with_nth(index, value),
        decreases self,
    {
        match self {
            Nil => Nil,
            Cons(head, tail) => if index == 0 {
                Cons(Rc::new(value), share(tail))
            } else {
                Cons(share(head), Rc::new(tail.set(index - 1, value)))
            },
        }
    }

    pub fn push(&self, last: T) -> (longer: List<T>)
        ensures
            longer == self.snoc(last),
        decreases self,
    {
        match self {
            Nil => List::one(last),
            Cons(head, tail) => Cons(share(head), Rc::new(tail.push(last))),
        }
    }

    pub fn append(&self, other: &List<T>) -> (both: List<T>)
        ensures
            both == self.then_all(*other),
        decreases self,
    {
        match self {
            Nil => other.dup(),
            Cons(head, tail) => Cons(share(head), Rc::new(tail.append(other))),
        }
    }

    pub fn reverse_onto(&self, other: List<T>) -> (result: List<T>)
        ensures
            result == self.reversed_onto(other),
        decreases self,
    {
        match self {
            Nil => other,
            Cons(head, tail) => tail.reverse_onto(Cons(share(head), Rc::new(other))),
        }
    }

    pub fn reverse(&self) -> (result: List<T>)
        ensures
            result == self.reversed_onto(Nil),
    {
        self.reverse_onto(Nil)
    }

    pub fn last(&self) -> (element: Option<&T>)
        ensures
            element == match self.last_of() {
                Some(value) => Some(&value),
                None => None,
            },
        decreases self,
    {
        match self {
            Nil => None,
            Cons(head, tail) => if tail.is_empty() {
                Some(head)
            } else {
                tail.last()
            },
        }
    }

    pub fn init(&self) -> (shorter: List<T>)
        ensures
            shorter == self.without_last(),
        decreases self,
    {
        match self {
            Nil => Nil,
            Cons(head, tail) => if tail.is_empty() {
                Nil
            } else {
                Cons(share(head), Rc::new(tail.init()))
            },
        }
    }

    pub fn take(&self, limit: usize) -> (front: List<T>)
        ensures
            front == self.first(limit),
        decreases self,
    {
        match self {
            Nil => Nil,
            Cons(head, tail) => if limit == 0 {
                Nil
            } else {
                Cons(share(head), Rc::new(tail.take(limit - 1)))
            },
        }
    }

    pub fn skip(&self, skipped: usize) -> (rest: List<T>)
        ensures
            rest == self.beyond(skipped),
        decreases self,
    {
        match self {
            Nil => Nil,
            Cons(_, tail) => if skipped == 0 {
                self.dup()
            } else {
                tail.skip(skipped - 1)
            },
        }
    }

    /// A list with the elements of a vector.
    pub fn from_vec(elements: Vec<T>) -> (list: List<T>)
        ensures
            list.seq() == elements@,
    {
        let mut rest = elements;
        let mut list = Nil;
        while rest.len() > 0
            invariant
                rest@ + list.seq() == elements@,
            decreases rest.len(),
        {
            let ghost before = rest@;
            match rest.pop() {
                Some(last) => {
                    proof {
                        assert(before == rest@.push(last));
                        assert(rest@ + (seq![last] + list.seq()) == before + list.seq());
                    }
                    list = List::cons(last, list);
                },
                None => {},
            }
        }
        assert(rest@ + list.seq() == list.seq());
        list
    }
}

impl<T: Key> List<T> {
    pub fn contains(&self, wanted: &T) -> (found: bool)
        ensures
            found == self.has(*wanted),
        decreases self,
    {
        match self {
            Nil => false,
            Cons(head, tail) => head.same(wanted) || tail.contains(wanted),
        }
    }
}

/// An association list. The value of a key is that of the first entry with it.
pub type Table<K, V> = List<(K, V)>;

/// The value stored under a key.
pub open spec fn lookup<K, V>(table: Table<K, V>, key: K) -> Option<V>
    decreases table,
{
    match table {
        Nil => None,
        Cons(entry, rest) => if entry.0 == key {
            Some(entry.1)
        } else {
            lookup(*rest, key)
        },
    }
}

/// The table with a key's value replaced, or with a new entry at its end.
pub open spec fn updated<K, V>(table: Table<K, V>, key: K, value: V) -> Table<K, V>
    decreases table,
{
    match table {
        Nil => List::one_of((key, value)),
        Cons(entry, rest) => if entry.0 == key {
            Cons(Rc::new((key, value)), rest)
        } else {
            Cons(entry, Rc::new(updated(*rest, key, value)))
        },
    }
}

/// The table without a key.
pub open spec fn removed<K, V>(table: Table<K, V>, key: K) -> Table<K, V>
    decreases table,
{
    match table {
        Nil => Nil,
        Cons(entry, rest) => if entry.0 == key {
            removed(*rest, key)
        } else {
            Cons(entry, Rc::new(removed(*rest, key)))
        },
    }
}

/// Whether a key has a value.
pub open spec fn has_key<K, V>(table: Table<K, V>, key: K) -> bool {
    lookup(table, key) is Some
}

/// The values of a table that belong to keys of the same table with `other` added behind it.
pub open spec fn extended<K, V>(table: Table<K, V>, other: Table<K, V>) -> Table<K, V>
    decreases other,
{
    match other {
        Nil => table,
        Cons(entry, rest) => extended(updated(table, entry.0, entry.1), *rest),
    }
}

pub fn find<'t, K: Key, V>(table: &'t Table<K, V>, key: &K) -> (value: Option<&'t V>)
    ensures
        value == match lookup(*table, *key) {
            Some(found) => Some(&found),
            None => None,
        },
    decreases table,
{
    match table {
        Nil => None,
        Cons(entry, rest) => if entry.0.same(key) {
            Some(&entry.1)
        } else {
            find(rest, key)
        },
    }
}

pub fn contains_key<K: Key, V>(table: &Table<K, V>, key: &K) -> (found: bool)
    ensures
        found == has_key(*table, *key),
{
    find(table, key).is_some()
}

pub fn update<K: Key, V>(table: &Table<K, V>, key: K, value: V) -> (result: Table<K, V>)
    ensures
        result == updated(*table, key, value),
    decreases table,
{
    match table {
        Nil => List::one((key, value)),
        Cons(entry, rest) => if entry.0.same(&key) {
            Cons(Rc::new((key, value)), share(rest))
        } else {
            Cons(share(entry), Rc::new(update(rest, key, value)))
        },
    }
}

pub fn remove<K: Key, V>(table: &Table<K, V>, key: &K) -> (result: Table<K, V>)
    ensures
        result == removed(*table, *key),
    decreases table,
{
    match table {
        Nil => Nil,
        Cons(entry, rest) => if entry.0.same(key) {
            remove(rest, key)
        } else {
            Cons(share(entry), Rc::new(remove(rest, key)))
        },
    }
}

/// The element added at the end unless the list already holds it.
pub open spec fn with_member<T>(list: List<T>, member: T) -> List<T> {
    if list.has(member) {
        list
    } else {
        list.snoc(member)
    }
}

pub fn add_member<T: Key>(list: &List<T>, member: T) -> (result: List<T>)
    ensures
        result == with_member(*list, member),
{
    if list.contains(&member) {
        list.dup()
    } else {
        list.push(member)
    }
}

/// A value stored under a key is what the key then gives, and no other key is affected.
pub proof fn update_then_lookup<K, V>(table: Table<K, V>, key: K, value: V, other: K)
    ensures
        lookup(updated(table, key, value), key) == Some(value),
        other != key ==> lookup(updated(table, key, value), other) == lookup(table, other),
    decreases table,
{
    match table {
        Nil => {
            reveal_with_fuel(lookup, 2);
        },
        Cons(_, _) => {
            update_then_lookup(table.rest(), key, value, other);
        },
    }
}

/// A removed key has no value, and no other key is affected.
pub proof fn remove_then_lookup<K, V>(table: Table<K, V>, key: K, other: K)
    ensures
        lookup(removed(table, key), key) is None,
        other != key ==> lookup(removed(table, key), other) == lookup(table, other),
    decreases table,
{
    match table {
        Nil => {},
        Cons(_, _) => {
            remove_then_lookup(table.rest(), key, other);
        },
    }
}

/// Appending puts the elements of one list behind those of the other.
pub proof fn append_joins<T>(left: List<T>, right: List<T>)
    ensures
        left.then_all(right).seq() == left.seq() + right.seq(),
    decreases left,
{
    match left {
        Nil => {
            assert(Seq::<T>::empty() + right.seq() == right.seq());
        },
        Cons(_, _) => {
            append_joins(left.rest(), right);
            assert(left.then_all(right).seq() == left.seq() + right.seq());
        },
    }
}

/// A member is in the list afterwards, and nothing else joins or leaves it.
pub proof fn member_added<T>(list: List<T>, member: T, other: T)
    ensures
        with_member(list, member).has(other) == (list.has(other) || other == member),
{
    if !list.has(member) {
        push_adds(list, member, other);
    }
}

proof fn push_adds<T>(list: List<T>, last: T, other: T)
    ensures
        list.snoc(last).has(other) == (list.has(other) || other == last),
    decreases list,
{
    match list {
        Nil => {
            assert(!List::<T>::Nil.has(other));
        },
        Cons(_, _) => {
            push_adds(list.rest(), last, other);
        },
    }
}

/// A list holds what its sequence holds.
pub proof fn has_is_contains<T>(list: List<T>, wanted: T)
    ensures
        list.has(wanted) == list.seq().contains(wanted),
    decreases list,
{
    match list {
        Nil => {},
        Cons(_, _) => {
            let rest = list.rest();
            has_is_contains(rest, wanted);
            assert(list.seq() == seq![list.head()] + rest.seq());
            if rest.seq().contains(wanted) {
                let at = choose|at: int| 0 <= at < rest.seq().len() && rest.seq()[at] == wanted;
                assert(list.seq()[at + 1] == wanted);
            }
            if list.head() == wanted {
                assert(list.seq()[0] == wanted);
            }
            if list.seq().contains(wanted) && list.head() != wanted {
                let at = choose|at: int| 0 <= at < list.seq().len() && list.seq()[at] == wanted;
                assert(rest.seq()[at - 1] == wanted);
            }
        },
    }
}

proof fn push_appends<T>(list: List<T>, last: T)
    ensures
        list.snoc(last).seq() == list.seq().push(last),
    decreases list,
{
    match list {
        Nil => {
            reveal_with_fuel(List::seq, 2);
            assert(list.snoc(last).seq() == list.seq().push(last));
        },
        Cons(_, _) => {
            push_appends(list.rest(), last);
            assert(list.snoc(last).seq() == seq![list.head()] + list.rest().seq().push(last));
            assert(list.snoc(last).seq() == list.seq().push(last));
        },
    }
}

/// Adding a member that is not there keeps a list free of duplicates.
pub proof fn members_stay_distinct<T>(list: List<T>, member: T)
    requires
        list.seq().no_duplicates(),
    ensures
        with_member(list, member).seq().no_duplicates(),
{
    if !list.has(member) {
        has_is_contains(list, member);
        push_appends(list, member);
        let seq = list.seq();
        assert forall|i: int, j: int| 0 <= i < j < seq.push(member).len() implies seq.push(member)[i]
            != seq.push(member)[j] by {
            if j == seq.len() {
                assert(seq.contains(seq[i]));
            }
        }
    }
}

} // verus!
