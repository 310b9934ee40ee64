//! Which nullable values are known not to be null.

use std::rc::Rc;

use vstd::prelude::*;

use crate::hir::{ExprKind, HirExpr, Operator, StrId};
use crate::list::{add_member, find, lookup, share, update, updated, with_member, Cons, List, Nil};
use crate::ref_effects::field_path;
use crate::type_checker::{FlowState, NonNullState, TypeChecker};
use crate::type_context::{find_list, list_at};

verus! {

/// Whether one path starts with another.
pub open spec fn starts_with(path: List<StrId>, prefix: List<StrId>) -> bool
    decreases prefix,
{
    match prefix {
        Nil => true,
        Cons(first, more) => match path {
            Cons(head, rest) => *head == *first && starts_with(*rest, *more),
            Nil => false,
        },
    }
}

/// The paths that do not start with another.
pub open spec fn not_below(paths: List<List<StrId>>, prefix: List<StrId>) -> List<List<StrId>>
    decreases paths,
{
    match paths {
        Nil => Nil,
        Cons(path, rest) => if starts_with(*path, prefix) {
            not_below(*rest, prefix)
        } else {
            Cons(path, Rc::new(not_below(*rest, prefix)))
        },
    }
}

/// The members of one list that are also in another.
pub open spec fn kept_in(paths: List<List<StrId>>, other: List<List<StrId>>) -> List<List<StrId>>
    decreases paths,
{
    match paths {
        Nil => Nil,
        Cons(path, rest) => if other.has(*path) {
            Cons(path, Rc::new(kept_in(*rest, other)))
        } else {
            kept_in(*rest, other)
        },
    }
}

/// What is known not to be null where two paths meet.
pub open spec fn non_null_joined(a: NonNullState, b: NonNullState) -> NonNullState
    decreases a,
{
    match a {
        Nil => Nil,
        Cons(entry, rest) => {
            let both = kept_in(entry.1, list_at(b, entry.0));
            if both is Nil {
                non_null_joined(*rest, b)
            } else {
                List::cons_of((entry.0, both), non_null_joined(*rest, b))
            }
        },
    }
}

/// The path that a condition says something of: it is not null where the condition has the given
/// outcome.
pub open spec fn non_null_fact(cond: HirExpr) -> Option<(StrId, List<StrId>, bool)> {
    match cond.kind {
        ExprKind::Comparison { left, op, right, .. } => {
            let against_null = right.kind is Null || left.kind is Null;
            let side = if right.kind is Null {
                *left
            } else if left.kind is Null {
                *right
            } else {
                *left
            };
            match op {
                Operator::NotEquals => if against_null {
                    match field_path(side) {
                        Some((root, path)) => Some((root, path, true)),
                        None => None,
                    }
                } else {
                    None
                },
                Operator::Equals => match field_path(side) {
                    Some((root, path)) => Some((root, path, !against_null)),
                    None => None,
                },
                _ => None,
            }
        },
        _ => None,
    }
}

fn path_starts_with(path: &List<StrId>, prefix: &List<StrId>) -> (yes: bool)
    ensures
        yes == starts_with(*path, *prefix),
    decreases prefix,
{
    match prefix {
        Nil => true,
        Cons(first, more) => match path {
            Cons(head, rest) => **head == **first && path_starts_with(rest, more),
            Nil => false,
        },
    }
}

fn drop_below(paths: &List<List<StrId>>, prefix: &List<StrId>) -> (result: List<List<StrId>>)
    ensures
        result == not_below(*paths, *prefix),
    decreases paths,
{
    match paths {
        Nil => Nil,
        Cons(path, rest) => if path_starts_with(path, prefix) {
            drop_below(rest, prefix)
        } else {
            Cons(share(path), Rc::new(drop_below(rest, prefix)))
        },
    }
}

fn keep_in(paths: &List<List<StrId>>, other: &List<List<StrId>>) -> (result: List<List<StrId>>)
    ensures
        result == kept_in(*paths, *other),
    decreases paths,
{
    match paths {
        Nil => Nil,
        Cons(path, rest) => if other.contains(path) {
            Cons(share(path), Rc::new(keep_in(rest, other)))
        } else {
            keep_in(rest, other)
        },
    }
}

impl TypeChecker {
    pub open spec fn with_non_null(self, non_null: NonNullState) -> TypeChecker {
        TypeChecker { flow: FlowState { non_null, ..self.flow }, ..self }
    }

    pub open spec fn marked_non_null(self, root: StrId, path: List<StrId>) -> TypeChecker {
        self.with_non_null(
            updated(
                self.flow.non_null,
                root,
                with_member(list_at(self.flow.non_null, root), path),
            ),
        )
    }

    pub open spec fn cleared_non_null(self, root: StrId, path: List<StrId>) -> TypeChecker {
        match lookup(self.flow.non_null, root) {
            Some(paths) => self.with_non_null(
                updated(self.flow.non_null, root, not_below(paths, path)),
            ),
            None => self,
        }
    }

    pub open spec fn known_non_null(self, root: StrId, path: List<StrId>) -> bool {
        list_at(self.flow.non_null, root).has(path)
    }

    pub fn mark_non_null(&mut self, root: StrId, path: &List<StrId>)
        ensures
            *final(self) == old(self).marked_non_null(root, *path),
            final(self).settled_in_scope(*old(self)),
    {
        let known = find_list(&self.flow.non_null, &root);
        self.flow.non_null = update(&self.flow.non_null, root, add_member(&known, path.dup()));
    }

    /// Forgets a path and every path below it: what was known of `a.b.c` does not survive an
    /// assignment to `a.b`.
    pub fn clear_non_null(&mut self, root: StrId, path: &List<StrId>)
        ensures
            *final(self) == old(self).cleared_non_null(root, *path),
            final(self).settled_in_scope(*old(self)),
    {
        let kept: Option<List<List<StrId>>> = match find(&self.flow.non_null, &root) {
            Some(paths) => Some(drop_below(paths, path)),
            None => None,
        };
        match kept {
            Some(paths) => {
                self.flow.non_null = update(&self.flow.non_null, root, paths);
            },
            None => {},
        }
    }

    pub fn is_non_null(&self, root: StrId, path: &List<StrId>) -> (known: bool)
        ensures
            known == self.known_non_null(root, *path),
    {
        find_list(&self.flow.non_null, &root).contains(path)
    }

    pub fn join_non_null_states(a: &NonNullState, b: &NonNullState) -> (state: NonNullState)
        ensures
            state == non_null_joined(*a, *b),
        decreases a,
    {
        match a {
            Nil => Nil,
            Cons(entry, rest) => {
                let both = keep_in(&entry.1, &find_list(b, &entry.0));
                if both.is_empty() {
                    Self::join_non_null_states(rest, b)
                } else {
                    List::cons((entry.0, both), Self::join_non_null_states(rest, b))
                }
            },
        }
    }

    /// `x != null` says that `x` is not null where it holds, `x == null` where it does not, and
    /// `x == 5` where it holds; `x != 5` says nothing.
    pub fn condition_to_non_null_fact(&self, cond: &HirExpr) -> (fact: Option<
        (StrId, List<StrId>, bool),
    >)
        ensures
            fact == non_null_fact(*cond),
    {
        match &cond.kind {
            ExprKind::Comparison { left, op, right, .. } => {
                let right_null: bool = matches!(right.kind, ExprKind::Null(_));
                let left_null: bool = matches!(left.kind, ExprKind::Null(_));
                let against_null: bool = right_null || left_null;
                let side: &HirExpr = if right_null {
                    left
                } else if left_null {
                    right
                } else {
                    left
                };
                match op {
                    Operator::NotEquals => if against_null {
                        match Self::static_field_path(side) {
                            Some((root, path)) => Some((root, path, true)),
                            None => None,
                        }
                    } else {
                        None
                    },
                    Operator::Equals => match Self::static_field_path(side) {
                        Some((root, path)) => Some((root, path, !against_null)),
                        None => None,
                    },
                    _ => None,
                }
            },
            _ => None,
        }
    }
}

proof fn not_below_keeps_others(paths: List<List<StrId>>, prefix: List<StrId>, path: List<StrId>)
    ensures
        not_below(paths, prefix).has(path) == (paths.has(path) && !starts_with(path, prefix)),
    decreases paths,
{
    match paths {
        Nil => {},
        Cons(_, _) => {
            not_below_keeps_others(paths.rest(), prefix, path);
        },
    }
}

/// After a path is cleared, nothing is known of it or of what lies below it, and all else of the
/// same root is known as before.
pub proof fn cleared_is_forgotten(
    checker: TypeChecker,
    root: StrId,
    cleared: List<StrId>,
    path: List<StrId>,
)
    ensures
        checker.cleared_non_null(root, cleared).known_non_null(root, path) == (
        checker.known_non_null(root, path) && !starts_with(path, cleared)),
{
    let paths = list_at(checker.flow.non_null, root);
    not_below_keeps_others(paths, cleared, path);
    crate::list::update_then_lookup(
        checker.flow.non_null,
        root,
        not_below(paths, cleared),
        root,
    );
}

proof fn kept_in_both(paths: List<List<StrId>>, other: List<List<StrId>>, path: List<StrId>)
    ensures
        kept_in(paths, other).has(path) == (paths.has(path) && other.has(path)),
    decreases paths,
{
    match paths {
        Nil => {},
        Cons(_, _) => {
            kept_in_both(paths.rest(), other, path);
        },
    }
}

/// Whether every root has one entry.
pub open spec fn one_entry_each(state: NonNullState) -> bool
    decreases state,
{
    match state {
        Nil => true,
        Cons(entry, rest) => lookup(*rest, entry.0) is None && one_entry_each(*rest),
    }
}

proof fn joined_has_no_more_roots(a: NonNullState, b: NonNullState, root: StrId)
    ensures
        lookup(a, root) is None ==> lookup(non_null_joined(a, b), root) is None,
    decreases a,
{
    match a {
        Nil => {},
        Cons(_, _) => {
            joined_has_no_more_roots(a.rest(), b, root);
        },
    }
}

/// What is known where two paths meet is what was known on both.
pub proof fn join_known_on_both(a: NonNullState, b: NonNullState, root: StrId, path: List<StrId>)
    requires
        one_entry_each(a),
    ensures
        list_at(non_null_joined(a, b), root).has(path) == (list_at(a, root).has(path) && list_at(
            b,
            root,
        ).has(path)),
    decreases a,
{
    assert(!List::<List<StrId>>::Nil.has(path));
    match a {
        Nil => {},
        Cons(_, _) => {
            let entry = a.head();
            kept_in_both(entry.1, list_at(b, entry.0), path);
            if entry.0 == root {
                joined_has_no_more_roots(a.rest(), b, root);
            } else {
                join_known_on_both(a.rest(), b, root, path);
            }
        },
    }
}

proof fn update_keeps_one_entry(state: NonNullState, root: StrId, paths: List<List<StrId>>)
    requires
        one_entry_each(state),
    ensures
        one_entry_each(updated(state, root, paths)),
    decreases state,
{
    reveal_with_fuel(one_entry_each, 2);
    match state {
        Nil => {
            assert(lookup(updated(state, root, paths).rest(), root) is None);
        },
        Cons(_, _) => {
            let entry = state.head();
            if entry.0 != root {
                update_keeps_one_entry(state.rest(), root, paths);
                crate::list::update_then_lookup(state.rest(), root, paths, entry.0);
            }
        },
    }
}

proof fn join_keeps_one_entry(a: NonNullState, b: NonNullState)
    requires
        one_entry_each(a),
    ensures
        one_entry_each(non_null_joined(a, b)),
    decreases a,
{
    match a {
        Nil => {},
        Cons(_, _) => {
            join_keeps_one_entry(a.rest(), b);
            joined_has_no_more_roots(a.rest(), b, a.head().0);
        },
    }
}

/// However knowledge is gained, lost or joined, every root keeps one entry.
pub proof fn roots_keep_one_entry(
    checker: TypeChecker,
    root: StrId,
    path: List<StrId>,
    other: NonNullState,
)
    requires
        one_entry_each(checker.flow.non_null),
    ensures
        one_entry_each(checker.marked_non_null(root, path).flow.non_null),
        one_entry_each(checker.cleared_non_null(root, path).flow.non_null),
        one_entry_each(non_null_joined(checker.flow.non_null, other)),
{
    let state = checker.flow.non_null;
    update_keeps_one_entry(state, root, with_member(list_at(state, root), path));
    update_keeps_one_entry(state, root, not_below(list_at(state, root), path));
    join_keeps_one_entry(state, other);
}

} // verus!
