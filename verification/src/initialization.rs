//! Which parts of a local have been initialized, and how that knowledge is merged where control
//! flow meets.

use std::rc::Rc;

use vstd::prelude::*;

use crate::hir::{RefKind, StrId};
use crate::list::{share, Cons, List, Nil, Table};

verus! {

/// How a pattern binds the parts of what it matches.
#[derive(Clone, Copy, Debug, PartialEq, Eq, Structural)]
pub enum BindingMode {
    ByValue,
    ByRef(RefKind),
}

#[derive(Clone, Copy, Debug, PartialEq, Eq, Structural)]
pub enum InitStatus {
    Uninitialized,
    Initialized,
    Maybe,
}

/// A set of integers as ranges `[start, end)`.
#[derive(Debug, PartialEq, Eq)]
pub struct IntervalSet {
    pub ranges: List<(i64, i64)>,
}

/// What is known of the initialization of a value.
#[derive(Debug, PartialEq, Eq)]
pub enum InitNode {
    Whole(InitStatus),
    Struct(Table<StrId, InitNode>),
    Array { ranges: IntervalSet, len: Option<usize> },
}

/// What is known of each local.
pub type InitState = Table<StrId, InitNode>;

/// The index behind an index, wrapping around at the largest.
pub open spec fn succ(index: i64) -> i64 {
    if index == i64::MAX {
        i64::MIN
    } else {
        (index + 1) as i64
    }
}

pub fn next_index(index: i64) -> (next: i64)
    ensures
        next == succ(index),
{
    if index == i64::MAX {
        i64::MIN
    } else {
        index + 1
    }
}

pub open spec fn min_of(a: i64, b: i64) -> i64 {
    if b < a {
        b
    } else {
        a
    }
}

pub open spec fn max_of(a: i64, b: i64) -> i64 {
    if b > a {
        b
    } else {
        a
    }
}

/// Whether an integer lies in one of the ranges.
pub open spec fn covered(ranges: List<(i64, i64)>, x: int) -> bool
    decreases ranges,
{
    match ranges {
        Nil => false,
        Cons(range, rest) => range.0 <= x < range.1 || covered(*rest, x),
    }
}

/// The ranges are non-empty, sorted, and neither overlap nor touch.
pub open spec fn canonical(ranges: List<(i64, i64)>) -> bool
    decreases ranges,
{
    match ranges {
        Nil => true,
        Cons(range, rest) => {
            &&& range.0 < range.1
            &&& canonical(*rest)
            &&& match *rest {
                Nil => true,
                Cons(next, _) => range.1 < next.0,
            }
        },
    }
}

/// The ranges with `[start, end)` merged in: the ranges it meets are absorbed by it. `placed` says
/// that it already stands further to the left.
pub open spec fn merged_in(
    ranges: List<(i64, i64)>,
    start: i64,
    end: i64,
    placed: bool,
) -> List<(i64, i64)>
    decreases ranges,
{
    match ranges {
        Nil => if placed {
            Nil
        } else {
            List::one_of((start, end))
        },
        Cons(range, rest) => if range.1 < start {
            Cons(range, Rc::new(merged_in(*rest, start, end, placed)))
        } else if range.0 > end {
            let behind = Cons(range, Rc::new(merged_in(*rest, start, end, true)));
            if placed {
                behind
            } else {
                List::cons_of((start, end), behind)
            }
        } else {
            merged_in(*rest, min_of(start, range.0), max_of(end, range.1), placed)
        },
    }
}

/// Whether one of the ranges holds all of `[start, end)`.
pub open spec fn holds_range(ranges: List<(i64, i64)>, start: i64, end: i64) -> bool
    decreases ranges,
{
    match ranges {
        Nil => false,
        Cons(range, rest) => (range.0 <= start && end <= range.1) || holds_range(
            *rest,
            start,
            end,
        ),
    }
}

impl IntervalSet {
    pub open spec fn empty() -> IntervalSet {
        IntervalSet { ranges: Nil }
    }

    pub open spec fn has(self, x: int) -> bool {
        covered(self.ranges, x)
    }

    pub open spec fn well_formed(self) -> bool {
        canonical(self.ranges)
    }

    pub open spec fn with_range(self, start: i64, end: i64) -> IntervalSet {
        if start >= end {
            self
        } else {
            IntervalSet { ranges: merged_in(self.ranges, start, end, false) }
        }
    }

    /// The set with the parts of its ranges that lie in `[start, end)` added.
    pub open spec fn with_common(self, ranges: List<(i64, i64)>, start: i64, end: i64) -> IntervalSet
        decreases ranges,
    {
        match ranges {
            Nil => self,
            Cons(range, rest) => self.with_range(
                max_of(start, range.0),
                min_of(end, range.1),
            ).with_common(*rest, start, end),
        }
    }

    /// The set with what two lists of ranges have in common added.
    pub open spec fn with_all_common(
        self,
        left: List<(i64, i64)>,
        right: List<(i64, i64)>,
    ) -> IntervalSet
        decreases left,
    {
        match left {
            Nil => self,
            Cons(range, rest) => self.with_common(right, range.0, range.1).with_all_common(
                *rest,
                right,
            ),
        }
    }

    pub open spec fn common(self, other: IntervalSet) -> IntervalSet {
        IntervalSet::empty().with_all_common(self.ranges, other.ranges)
    }

    /// The ranges with one integer cut out.
    pub open spec fn cut_into(self, ranges: List<(i64, i64)>, x: i64) -> IntervalSet
        decreases ranges,
    {
        match ranges {
            Nil => self,
            Cons(range, rest) => {
                let kept = if range.1 <= x || range.0 >= succ(x) {
                    self.with_range(range.0, range.1)
                } else {
                    let front = if range.0 < x {
                        self.with_range(range.0, x)
                    } else {
                        self
                    };
                    if succ(x) < range.1 {
                        front.with_range(succ(x), range.1)
                    } else {
                        front
                    }
                };
                kept.cut_into(*rest, x)
            },
        }
    }

    pub open spec fn without(self, x: i64) -> IntervalSet {
        IntervalSet::empty().cut_into(self.ranges, x)
    }

    pub fn dup(&self) -> (copy: IntervalSet)
        ensures
            copy == *self,
    {
        IntervalSet { ranges: self.ranges.dup() }
    }

    /// Adds every integer of `[start, end)`.
    pub fn insert(&mut self, start: i64, end: i64)
        ensures
            *final(self) == old(self).with_range(start, end),
            old(self).well_formed() ==> final(self).well_formed(),
            old(self).well_formed() ==> forall|x: int| #[trigger]
                final(self).has(x) == (old(self).has(x) || start <= x < end),
    {
        proof {
            if self.well_formed() {
                insert_keeps_order(*self, start, end);
                assert forall|x: int| #[trigger]
                    self.with_range(start, end).has(x) == (self.has(x) || start <= x < end) by {
                    insert_adds_range(*self, start, end, x);
                }
            }
        }
        if start >= end {
            return;
        }
        self.ranges = merge_in(&self.ranges, start, end, false);
    }

    pub fn contains_range(&self, start: i64, end: i64) -> (contained: bool)
        ensures
            contained == holds_range(self.ranges, start, end),
            self.well_formed() && start < end ==> contained == (forall|x: int|
                start <= x < end ==> #[trigger] self.has(x)),
    {
        proof {
            if self.well_formed() && start < end {
                contains_range_means_all(*self, start, end);
            }
        }
        range_held(&self.ranges, start, end)
    }

    pub fn covers_full(&self, len: i64) -> (full: bool)
        ensures
            full == holds_range(self.ranges, 0, len),
            self.well_formed() && 0 < len ==> full == (forall|x: int|
                0 <= x < len ==> #[trigger] self.has(x)),
    {
        self.contains_range(0, len)
    }

    /// What is in both sets: where two paths meet, an element is known to be initialized only if
    /// it was initialized on both.
    pub fn intersect(&self, other: &IntervalSet) -> (both: IntervalSet)
        ensures
            both == self.common(*other),
            both.well_formed(),
            forall|x: int| #[trigger] both.has(x) == (self.has(x) && other.has(x)),
    {
        proof {
            assert(canonical(IntervalSet::empty().ranges));
            common_keeps_order(IntervalSet::empty(), self.ranges, other.ranges);
            assert forall|x: int| #[trigger]
                self.common(*other).has(x) == (self.has(x) && other.has(x)) by {
                assert(!IntervalSet::empty().has(x));
                common_covers(IntervalSet::empty(), self.ranges, other.ranges, x);
            }
        }
        let mut result = IntervalSet::default();
        add_all_common(&mut result, &self.ranges, &other.ranges);
        result
    }

    /// Removes one integer.
    pub fn remove(&mut self, x: i64)
        ensures
            *final(self) == old(self).without(x),
            final(self).well_formed(),
            forall|y: int| #[trigger] final(self).has(y) == (old(self).has(y) && y != x),
    {
        proof {
            assert(canonical(IntervalSet::empty().ranges));
            assert forall|y: int| #[trigger] self.without(x).has(y) == (self.has(y) && y != x) by {
                assert(!IntervalSet::empty().has(y));
                cut_covers(IntervalSet::empty(), self.ranges, x, y);
            }
            cut_covers(IntervalSet::empty(), self.ranges, x, 0);
        }
        let mut kept = IntervalSet::default();
        cut(&mut kept, &self.ranges, x);
        *self = kept;
    }
}

impl Default for IntervalSet {
    fn default() -> (set: IntervalSet)
        ensures
            set == IntervalSet::empty(),
    {
        IntervalSet { ranges: Nil }
    }
}

fn merge_in(ranges: &List<(i64, i64)>, start: i64, end: i64, placed: bool) -> (result: List<
    (i64, i64),
>)
    ensures
        result == merged_in(*ranges, start, end, placed),
    decreases ranges,
{
    match ranges {
        Nil => if placed {
            Nil
        } else {
            List::one((start, end))
        },
        Cons(range, rest) => {
            let (s, e): (i64, i64) = (range.0, range.1);
            if e < start {
                Cons(share(range), Rc::new(merge_in(rest, start, end, placed)))
            } else if s > end {
                let behind = Cons(share(range), Rc::new(merge_in(rest, start, end, true)));
                if placed {
                    behind
                } else {
                    List::cons((start, end), behind)
                }
            } else {
                let low: i64 = if s < start {
                    s
                } else {
                    start
                };
                let high: i64 = if e > end {
                    e
                } else {
                    end
                };
                merge_in(rest, low, high, placed)
            }
        },
    }
}

fn range_held(ranges: &List<(i64, i64)>, start: i64, end: i64) -> (held: bool)
    ensures
        held == holds_range(*ranges, start, end),
    decreases ranges,
{
    match ranges {
        Nil => false,
        Cons(range, rest) => (range.0 <= start && end <= range.1) || range_held(rest, start, end),
    }
}

fn insert_range(set: &mut IntervalSet, start: i64, end: i64)
    ensures
        *final(set) == old(set).with_range(start, end),
{
    if start < end {
        set.ranges = merge_in(&set.ranges, start, end, false);
    }
}

fn add_common(set: &mut IntervalSet, ranges: &List<(i64, i64)>, start: i64, end: i64)
    ensures
        *final(set) == old(set).with_common(*ranges, start, end),
    decreases ranges,
{
    match ranges {
        Nil => {},
        Cons(range, rest) => {
            let low: i64 = if range.0 > start {
                range.0
            } else {
                start
            };
            let high: i64 = if range.1 < end {
                range.1
            } else {
                end
            };
            insert_range(set, low, high);
            add_common(set, rest, start, end);
        },
    }
}

fn add_all_common(set: &mut IntervalSet, left: &List<(i64, i64)>, right: &List<(i64, i64)>)
    ensures
        *final(set) == old(set).with_all_common(*left, *right),
    decreases left,
{
    match left {
        Nil => {},
        Cons(range, rest) => {
            add_common(set, right, range.0, range.1);
            add_all_common(set, rest, right);
        },
    }
}

fn cut(set: &mut IntervalSet, ranges: &List<(i64, i64)>, x: i64)
    ensures
        *final(set) == old(set).cut_into(*ranges, x),
    decreases ranges,
{
    match ranges {
        Nil => {},
        Cons(range, rest) => {
            let (s, e): (i64, i64) = (range.0, range.1);
            let behind: i64 = next_index(x);
            if e <= x || s >= behind {
                insert_range(set, s, e);
            } else {
                if s < x {
                    insert_range(set, s, x);
                }
                if behind < e {
                    insert_range(set, behind, e);
                }
            }
            cut(set, rest, x);
        },
    }
}

/// Merging a range into ranges that lie behind `floor` leaves them behind it.
proof fn merge_stays_behind(ranges: List<(i64, i64)>, start: i64, end: i64, floor: i64)
    requires
        canonical(ranges),
        start < end,
        floor < start,
        ranges is Cons ==> floor < ranges.head().0,
    ensures
        merged_in(ranges, start, end, false) is Cons,
        floor < merged_in(ranges, start, end, false).head().0,
        canonical(merged_in(ranges, start, end, false)),
    decreases ranges,
{
    match ranges {
        Nil => {
            assert(canonical(List::<(i64, i64)>::Nil));
            assert(canonical(List::one_of((start, end))));
        },
        Cons(_, _) => {
            let range = ranges.head();
            let rest = ranges.rest();
            if range.1 < start {
                merge_stays_behind(rest, start, end, range.1);
            } else if range.0 > end {
                placed_unchanged(rest, start, end);
                assert(canonical(ranges));
                assert(merged_in(ranges, start, end, false) == List::cons_of(
                    (start, end),
                    ranges,
                ));
            } else {
                merge_stays_behind(rest, min_of(start, range.0), max_of(end, range.1), floor);
            }
        },
    }
}

/// Ranges that all lie behind a placed range stay as they are.
proof fn placed_unchanged(ranges: List<(i64, i64)>, start: i64, end: i64)
    requires
        canonical(ranges),
        start < end,
        ranges is Cons ==> ranges.head().0 > end,
    ensures
        merged_in(ranges, start, end, true) == ranges,
    decreases ranges,
{
    match ranges {
        Nil => {},
        Cons(_, _) => {
            placed_unchanged(ranges.rest(), start, end);
        },
    }
}

proof fn merge_keeps_order(ranges: List<(i64, i64)>, start: i64, end: i64)
    requires
        canonical(ranges),
        start < end,
    ensures
        canonical(merged_in(ranges, start, end, false)),
    decreases ranges,
{
    match ranges {
        Nil => {
            assert(canonical(List::<(i64, i64)>::Nil));
            assert(canonical(List::one_of((start, end))));
        },
        Cons(_, _) => {
            let range = ranges.head();
            let rest = ranges.rest();
            if range.1 < start {
                merge_stays_behind(rest, start, end, range.1);
            } else if range.0 > end {
                placed_unchanged(rest, start, end);
                assert(merged_in(ranges, start, end, false) == List::cons_of(
                    (start, end),
                    ranges,
                ));
            } else {
                merge_keeps_order(rest, min_of(start, range.0), max_of(end, range.1));
            }
        },
    }
}

proof fn merge_covers(ranges: List<(i64, i64)>, start: i64, end: i64, x: int)
    requires
        canonical(ranges),
        start < end,
    ensures
        covered(merged_in(ranges, start, end, false), x) == (covered(ranges, x) || start <= x
            < end),
    decreases ranges,
{
    match ranges {
        Nil => {
            assert(!covered(List::<(i64, i64)>::Nil, x));
        },
        Cons(_, _) => {
            let range = ranges.head();
            let rest = ranges.rest();
            if range.1 < start {
                merge_covers(rest, start, end, x);
            } else if range.0 > end {
                placed_unchanged(rest, start, end);
                assert(merged_in(ranges, start, end, false) == List::cons_of(
                    (start, end),
                    ranges,
                ));
            } else {
                merge_covers(rest, min_of(start, range.0), max_of(end, range.1), x);
            }
        },
    }
}

/// Inserting a range keeps the ranges sorted and apart.
pub proof fn insert_keeps_order(set: IntervalSet, start: i64, end: i64)
    requires
        set.well_formed(),
    ensures
        set.with_range(start, end).well_formed(),
{
    if start < end {
        merge_keeps_order(set.ranges, start, end);
    }
}

/// Inserting a range adds its integers and no others.
pub proof fn insert_adds_range(set: IntervalSet, start: i64, end: i64, x: int)
    requires
        set.well_formed(),
    ensures
        set.with_range(start, end).has(x) == (set.has(x) || start <= x < end),
{
    if start < end {
        merge_covers(set.ranges, start, end, x);
    }
}

proof fn with_common_keeps_order(
    set: IntervalSet,
    ranges: List<(i64, i64)>,
    start: i64,
    end: i64,
)
    requires
        set.well_formed(),
    ensures
        set.with_common(ranges, start, end).well_formed(),
    decreases ranges,
{
    match ranges {
        Nil => {},
        Cons(_, _) => {
            let low = max_of(start, ranges.head().0);
            let high = min_of(end, ranges.head().1);
            insert_keeps_order(set, low, high);
            with_common_keeps_order(set.with_range(low, high), ranges.rest(), start, end);
        },
    }
}

proof fn with_common_covers(
    set: IntervalSet,
    ranges: List<(i64, i64)>,
    start: i64,
    end: i64,
    x: int,
)
    requires
        set.well_formed(),
    ensures
        set.with_common(ranges, start, end).has(x) == (set.has(x) || (covered(ranges, x) && start
            <= x < end)),
    decreases ranges,
{
    match ranges {
        Nil => {},
        Cons(_, _) => {
            let low = max_of(start, ranges.head().0);
            let high = min_of(end, ranges.head().1);
            insert_keeps_order(set, low, high);
            insert_adds_range(set, low, high, x);
            with_common_covers(set.with_range(low, high), ranges.rest(), start, end, x);
        },
    }
}

proof fn common_keeps_order(
    set: IntervalSet,
    left: List<(i64, i64)>,
    right: List<(i64, i64)>,
)
    requires
        set.well_formed(),
    ensures
        set.with_all_common(left, right).well_formed(),
    decreases left,
{
    match left {
        Nil => {},
        Cons(_, _) => {
            let range = left.head();
            with_common_keeps_order(set, right, range.0, range.1);
            common_keeps_order(set.with_common(right, range.0, range.1), left.rest(), right);
        },
    }
}

proof fn common_covers(
    set: IntervalSet,
    left: List<(i64, i64)>,
    right: List<(i64, i64)>,
    x: int,
)
    requires
        set.well_formed(),
    ensures
        set.with_all_common(left, right).has(x) == (set.has(x) || (covered(left, x) && covered(
            right,
            x,
        ))),
    decreases left,
{
    match left {
        Nil => {},
        Cons(_, _) => {
            let range = left.head();
            with_common_keeps_order(set, right, range.0, range.1);
            with_common_covers(set, right, range.0, range.1, x);
            common_covers(set.with_common(right, range.0, range.1), left.rest(), right, x);
        },
    }
}

/// What lies behind the first range of a canonical list is not covered up to the next one.
proof fn first_range_ends(ranges: List<(i64, i64)>, x: int)
    requires
        canonical(ranges),
        ranges is Cons,
        x < ranges.head().0,
    ensures
        !covered(ranges, x),
    decreases ranges,
{
    if ranges.rest() is Cons {
        first_range_ends(ranges.rest(), x);
    } else {
        assert(!covered(ranges.rest(), x));
    }
}

proof fn held_is_covered(ranges: List<(i64, i64)>, start: i64, end: i64, x: int)
    requires
        holds_range(ranges, start, end),
        start <= x < end,
    ensures
        covered(ranges, x),
    decreases ranges,
{
    match ranges {
        Nil => {},
        Cons(_, _) => {
            if !(ranges.head().0 <= start && end <= ranges.head().1) {
                held_is_covered(ranges.rest(), start, end, x);
            }
        },
    }
}

proof fn covered_is_held(ranges: List<(i64, i64)>, start: i64, end: i64)
    requires
        canonical(ranges),
        start < end,
        forall|x: int| start <= x < end ==> #[trigger] covered(ranges, x),
    ensures
        holds_range(ranges, start, end),
    decreases ranges,
{
    assert(covered(ranges, start as int));
    match ranges {
        Nil => {},
        Cons(_, _) => {
            let range = ranges.head();
            let rest = ranges.rest();
            if range.0 <= start < range.1 {
                if end > range.1 {
                    assert(covered(ranges, range.1 as int));
                    if rest is Cons {
                        first_range_ends(rest, range.1 as int);
                    } else {
                        assert(!covered(rest, range.1 as int));
                    }
                    assert(false);
                }
            } else {
                if start < range.0 {
                    first_range_ends(ranges, start as int);
                }
                assert(start >= range.1);
                assert forall|x: int| start <= x < end implies #[trigger] covered(rest, x) by {
                    assert(covered(ranges, x));
                }
                covered_is_held(rest, start, end);
            }
        },
    }
}

/// A non-empty range is contained exactly when every integer of it is.
pub proof fn contains_range_means_all(set: IntervalSet, start: i64, end: i64)
    requires
        set.well_formed(),
        start < end,
    ensures
        holds_range(set.ranges, start, end) == (forall|x: int|
            start <= x < end ==> #[trigger] set.has(x)),
{
    if holds_range(set.ranges, start, end) {
        assert forall|x: int| start <= x < end implies #[trigger] set.has(x) by {
            held_is_covered(set.ranges, start, end, x);
        }
    } else if forall|x: int| start <= x < end ==> #[trigger] set.has(x) {
        assert forall|x: int| start <= x < end implies #[trigger] covered(set.ranges, x) by {
            assert(set.has(x));
        }
        covered_is_held(set.ranges, start, end);
    }
}

proof fn same_cover_same_ranges(left: List<(i64, i64)>, right: List<(i64, i64)>)
    requires
        canonical(left),
        canonical(right),
        forall|x: int| #[trigger] covered(left, x) == covered(right, x),
    ensures
        left == right,
    decreases left,
{
    match left {
        Nil => {
            if right is Cons {
                assert(covered(right, right.head().0 as int));
                assert(!covered(left, right.head().0 as int));
            }
        },
        Cons(_, _) => {
            let a = left.head();
            assert(covered(left, a.0 as int));
            if right is Nil {
                assert(!covered(right, a.0 as int));
            }
            let b = right.head();
            assert(covered(right, b.0 as int));
            if a.0 < b.0 {
                first_range_ends(right, a.0 as int);
            }
            if b.0 < a.0 {
                assert(covered(left, b.0 as int));
                first_range_ends(left, b.0 as int);
            }
            if a.1 < b.1 {
                assert(covered(right, a.1 as int));
                assert(covered(left, a.1 as int));
                if left.rest() is Cons {
                    first_range_ends(left.rest(), a.1 as int);
                } else {
                    assert(!covered(left.rest(), a.1 as int));
                }
            }
            if b.1 < a.1 {
                assert(covered(left, b.1 as int));
                assert(covered(right, b.1 as int));
                if right.rest() is Cons {
                    first_range_ends(right.rest(), b.1 as int);
                } else {
                    assert(!covered(right.rest(), b.1 as int));
                }
            }
            assert(a == b);
            assert forall|x: int| #[trigger]
                covered(left.rest(), x) == covered(right.rest(), x) by {
                assert(covered(left, x) == covered(right, x));
                if a.0 <= x < a.1 {
                    if left.rest() is Cons {
                        first_range_ends(left.rest(), x);
                    } else {
                        assert(!covered(left.rest(), x));
                    }
                    if right.rest() is Cons {
                        first_range_ends(right.rest(), x);
                    } else {
                        assert(!covered(right.rest(), x));
                    }
                }
            }
            same_cover_same_ranges(left.rest(), right.rest());
            assert(left == List::cons_of(a, left.rest()));
            assert(right == List::cons_of(b, right.rest()));
        },
    }
}

/// Two well-formed sets with the same integers are the same set: the ranges are a normal form.
pub proof fn same_integers_same_set(left: IntervalSet, right: IntervalSet)
    requires
        left.well_formed(),
        right.well_formed(),
        forall|x: int| #[trigger] left.has(x) == right.has(x),
    ensures
        left == right,
{
    assert forall|x: int| #[trigger] covered(left.ranges, x) == covered(right.ranges, x) by {
        assert(left.has(x) == right.has(x));
    }
    same_cover_same_ranges(left.ranges, right.ranges);
}

/// The order of two sets does not matter to what they have in common, and a set has itself in
/// common with itself.
pub proof fn intersect_laws(left: IntervalSet, right: IntervalSet)
    ensures
        left.common(right) == right.common(left),
        left.well_formed() ==> left.common(left) == left,
{
    let none = IntervalSet::empty();
    assert(canonical(none.ranges));
    common_keeps_order(none, left.ranges, right.ranges);
    common_keeps_order(none, right.ranges, left.ranges);
    assert forall|x: int| #[trigger]
        left.common(right).has(x) == right.common(left).has(x) by {
        common_covers(none, left.ranges, right.ranges, x);
        common_covers(none, right.ranges, left.ranges, x);
    }
    same_integers_same_set(left.common(right), right.common(left));
    if left.well_formed() {
        common_keeps_order(none, left.ranges, left.ranges);
        assert forall|x: int| #[trigger] left.common(left).has(x) == left.has(x) by {
            assert(!none.has(x));
            common_covers(none, left.ranges, left.ranges, x);
        }
        same_integers_same_set(left.common(left), left);
    }
}

/// Cutting an integer out of ranges keeps all others, and keeps the order.
proof fn cut_covers(set: IntervalSet, ranges: List<(i64, i64)>, x: i64, y: int)
    requires
        set.well_formed(),
    ensures
        set.cut_into(ranges, x).well_formed(),
        set.cut_into(ranges, x).has(y) == (set.has(y) || (covered(ranges, y) && y != x)),
    decreases ranges,
{
    match ranges {
        Nil => {},
        Cons(_, _) => {
            let range = ranges.head();
            if range.1 <= x || range.0 >= succ(x) {
                insert_keeps_order(set, range.0, range.1);
                insert_adds_range(set, range.0, range.1, y);
                cut_covers(set.with_range(range.0, range.1), ranges.rest(), x, y);
            } else {
                insert_keeps_order(set, range.0, x);
                insert_adds_range(set, range.0, x, y);
                let front = set.with_range(range.0, x);
                insert_keeps_order(front, succ(x), range.1);
                insert_adds_range(front, succ(x), range.1, y);
                cut_covers(front.with_range(succ(x), range.1), ranges.rest(), x, y);
            }
        },
    }
}

} // verus!
