//! Which locals, and which of their fields, have been moved out of.

use vstd::prelude::*;

use crate::hir::StrId;
use crate::list::{add_member, with_member, Cons, List, Nil};

verus! {

/// The locals moved as a whole, and the fields moved out of a local one by one.
#[derive(Debug, PartialEq, Eq)]
pub struct MoveState {
    pub whole: List<StrId>,
    pub fields: List<(StrId, StrId)>,
}

/// The members of one list, then those of another that are not among them.
pub open spec fn merged<T>(left: List<T>, right: List<T>) -> List<T>
    decreases right,
{
    match right {
        Nil => left,
        Cons(member, rest) => merged(with_member(left, *member), *rest),
    }
}

/// Whether every member of one list is in another.
pub open spec fn all_in<T>(members: List<T>, list: List<T>) -> bool
    decreases members,
{
    match members {
        Nil => true,
        Cons(member, rest) => list.has(*member) && all_in(*rest, list),
    }
}

/// Whether some entry belongs to a root.
pub open spec fn any_field_of(fields: List<(StrId, StrId)>, root: StrId) -> bool
    decreases fields,
{
    match fields {
        Nil => false,
        Cons(entry, rest) => entry.0 == root || any_field_of(*rest, root),
    }
}

fn has_field_of(fields: &List<(StrId, StrId)>, root: StrId) -> (found: bool)
    ensures
        found == any_field_of(*fields, root),
    decreases fields,
{
    match fields {
        Nil => false,
        Cons(entry, rest) => entry.0 == root || has_field_of(rest, root),
    }
}

fn merge_names(left: &List<StrId>, right: &List<StrId>) -> (both: List<StrId>)
    ensures
        both == merged(*left, *right),
    decreases right,
{
    match right {
        Nil => left.dup(),
        Cons(member, rest) => merge_names(&add_member(left, **member), rest),
    }
}

fn merge_fields(left: &List<(StrId, StrId)>, right: &List<(StrId, StrId)>) -> (both: List<
    (StrId, StrId),
>)
    ensures
        both == merged(*left, *right),
    decreases right,
{
    match right {
        Nil => left.dup(),
        Cons(member, rest) => merge_fields(&add_member(left, **member), rest),
    }
}

fn names_in(members: &List<StrId>, list: &List<StrId>) -> (subset: bool)
    ensures
        subset == all_in(*members, *list),
    decreases members,
{
    match members {
        Nil => true,
        Cons(member, rest) => list.contains(member) && names_in(rest, list),
    }
}

fn fields_in(members: &List<(StrId, StrId)>, list: &List<(StrId, StrId)>) -> (subset: bool)
    ensures
        subset == all_in(*members, *list),
    decreases members,
{
    match members {
        Nil => true,
        Cons(member, rest) => list.contains(member) && fields_in(rest, list),
    }
}

impl MoveState {
    /// Whether using the whole of a local meets something already moved.
    pub open spec fn whole_blocked(self, root: StrId) -> bool {
        self.whole.has(root) || any_field_of(self.fields, root)
    }

    /// Whether a field has been moved, by itself or with its local.
    pub open spec fn field_gone(self, root: StrId, field: StrId) -> bool {
        self.whole.has(root) || self.fields.has((root, field))
    }

    pub open spec fn joined(self, other: MoveState) -> MoveState {
        MoveState {
            whole: merged(self.whole, other.whole),
            fields: merged(self.fields, other.fields),
        }
    }

    pub open spec fn includes(self, other: MoveState) -> bool {
        all_in(other.whole, self.whole) && all_in(other.fields, self.fields)
    }

    pub open spec fn with_whole(self, root: StrId) -> MoveState {
        MoveState { whole: with_member(self.whole, root), ..self }
    }

    pub open spec fn with_field(self, root: StrId, field: StrId) -> MoveState {
        MoveState { fields: with_member(self.fields, (root, field)), ..self }
    }

    pub fn new() -> (state: MoveState)
        ensures
            state == (MoveState { whole: Nil, fields: Nil }),
    {
        MoveState { whole: Nil, fields: Nil }
    }

    pub fn dup(&self) -> (copy: MoveState)
        ensures
            copy == *self,
    {
        MoveState { whole: self.whole.dup(), fields: self.fields.dup() }
    }

    pub fn mark_whole_moved(&mut self, root: StrId)
        ensures
            *final(self) == old(self).with_whole(root),
    {
        self.whole = add_member(&self.whole, root);
    }

    pub fn mark_field_moved(&mut self, root: StrId, field: StrId)
        ensures
            *final(self) == old(self).with_field(root, field),
    {
        self.fields = add_member(&self.fields, (root, field));
    }

    pub fn blocks_whole_use(&self, root: StrId) -> (blocked: bool)
        ensures
            blocked == self.whole_blocked(root),
    {
        self.whole.contains(&root) || has_field_of(&self.fields, root)
    }

    pub fn is_field_moved(&self, root: StrId, field: StrId) -> (moved: bool)
        ensures
            moved == self.field_gone(root, field),
    {
        self.whole.contains(&root) || self.fields.contains(&(root, field))
    }

    /// What has been moved on either of two paths.
    pub fn join(left: &MoveState, right: &MoveState) -> (both: MoveState)
        ensures
            both == left.joined(*right),
    {
        MoveState {
            whole: merge_names(&left.whole, &right.whole),
            fields: merge_fields(&left.fields, &right.fields),
        }
    }

    pub fn is_superset_of(&self, other: &MoveState) -> (superset: bool)
        ensures
            superset == self.includes(*other),
    {
        names_in(&other.whole, &self.whole) && fields_in(&other.fields, &self.fields)
    }
}

/// What two lists hold together.
pub proof fn merged_has<T>(left: List<T>, right: List<T>, wanted: T)
    ensures
        merged(left, right).has(wanted) == (left.has(wanted) || right.has(wanted)),
    decreases right,
{
    match right {
        Nil => {},
        Cons(_, _) => {
            crate::list::member_added(left, right.head(), wanted);
            merged_has(with_member(left, right.head()), right.rest(), wanted);
        },
    }
}

/// Something is moved after two paths meet exactly when it was moved on one of them.
pub proof fn join_is_union(left: MoveState, right: MoveState, root: StrId, field: StrId)
    ensures
        left.joined(right).whole.has(root) == (left.whole.has(root) || right.whole.has(root)),
        left.joined(right).field_gone(root, field) == (left.field_gone(root, field)
            || right.field_gone(root, field)),
{
    merged_has(left.whole, right.whole, root);
    merged_has(left.fields, right.fields, (root, field));
}

} // verus!
