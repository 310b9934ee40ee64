//! Reading and updating what is known of the initialization of locals.

use vstd::prelude::*;

use crate::errors::Message;
use crate::hir::{ExprKind, HirExpr, HirField, HirType, StrId};
use crate::initialization::{
    holds_range, next_index, succ, InitNode, InitState, InitStatus, IntervalSet,
};
use crate::list::{contains_key, find, has_key, lookup, update, updated, Cons, List, Nil, Table};
use crate::ref_effects::field_path;
use crate::type_checker::{FlowState, TypeChecker};
use crate::type_context::TypeContext;
use crate::types::peeked;

verus! {

pub open spec fn untouched() -> InitNode {
    InitNode::Whole(InitStatus::Uninitialized)
}

pub open spec fn complete() -> InitNode {
    InitNode::Whole(InitStatus::Initialized)
}

/// The node under a key, uninitialized where there is none.
pub open spec fn child_of(fields: Table<StrId, InitNode>, name: StrId) -> InitNode {
    match lookup(fields, name) {
        Some(node) => node,
        None => untouched(),
    }
}

/// The fields of a node, none where it is not split into fields.
pub open spec fn fields_of(node: InitNode) -> Table<StrId, InitNode> {
    match node {
        InitNode::Struct(fields) => fields,
        _ => Nil,
    }
}

/// The node with the value at a path initialized.
pub open spec fn initialized_at(node: InitNode, path: List<StrId>) -> InitNode
    decreases path,
{
    match path {
        Nil => complete(),
        Cons(head, rest) => if node == complete() {
            node
        } else {
            InitNode::Struct(
                updated(
                    fields_of(node),
                    *head,
                    initialized_at(child_of(fields_of(node), *head), *rest),
                ),
            )
        },
    }
}

/// The node with the elements `[start, end)` of the array at a path initialized.
pub open spec fn range_initialized(
    node: InitNode,
    path: List<StrId>,
    start: i64,
    end: i64,
    len: Option<usize>,
) -> InitNode
    decreases path,
{
    match path {
        Nil => match node {
            InitNode::Array { ranges, len: known } => InitNode::Array {
                ranges: ranges.with_range(start, end),
                len: known,
            },
            InitNode::Whole(InitStatus::Initialized) => node,
            _ => InitNode::Array { ranges: IntervalSet::empty().with_range(start, end), len },
        },
        Cons(head, rest) => InitNode::Struct(
            updated(
                fields_of(node),
                *head,
                range_initialized(child_of(fields_of(node), *head), *rest, start, end, len),
            ),
        ),
    }
}

/// The node at a path, nodes on the way being split into fields.
pub open spec fn reached(node: InitNode, path: List<StrId>) -> InitNode
    decreases path,
{
    match path {
        Nil => node,
        Cons(head, rest) => reached(child_of(fields_of(node), *head), *rest),
    }
}

/// The node with the one at a path replaced, nodes on the way being split into fields.
pub open spec fn replaced_at(node: InitNode, path: List<StrId>, value: InitNode) -> InitNode
    decreases path,
{
    match path {
        Nil => value,
        Cons(head, rest) => InitNode::Struct(
            updated(
                fields_of(node),
                *head,
                replaced_at(child_of(fields_of(node), *head), *rest, value),
            ),
        ),
    }
}

/// The node at a path, or the last one on the way that is not split further.
pub open spec fn nearest(node: InitNode, path: List<StrId>) -> InitNode
    decreases path,
{
    match path {
        Nil => node,
        Cons(head, rest) => match node {
            InitNode::Struct(fields) => match lookup(fields, *head) {
                Some(child) => nearest(child, *rest),
                None => node,
            },
            _ => node,
        },
    }
}

pub open spec fn all_complete(fields: Table<StrId, InitNode>) -> bool
    decreases fields,
{
    match fields {
        Nil => true,
        Cons(entry, rest) => entry.1 == complete() && all_complete(*rest),
    }
}

/// What is known of the value at a path. A field that was never touched is uninitialized; the
/// elements of an array are looked at one by one, not here.
pub open spec fn status_at(node: InitNode, path: List<StrId>) -> InitStatus
    decreases path,
{
    match node {
        InitNode::Whole(status) => status,
        InitNode::Array { .. } => InitStatus::Initialized,
        InitNode::Struct(fields) => match path {
            Cons(head, rest) => match lookup(fields, *head) {
                Some(child) => status_at(child, *rest),
                None => InitStatus::Uninitialized,
            },
            Nil => if all_complete(fields) {
                InitStatus::Initialized
            } else {
                InitStatus::Maybe
            },
        },
    }
}

/// Whether some field is initialized, and whether some field is not.
pub open spec fn field_statuses(
    fields: List<HirField>,
    known: Table<StrId, InitNode>,
) -> (bool, bool)
    decreases fields,
{
    match fields {
        Nil => (false, false),
        Cons(field, rest) => {
            let (some_init, some_not) = field_statuses(*rest, known);
            match status_at(child_of(known, field.name), Nil) {
                InitStatus::Initialized => (true, some_not),
                _ => (some_init, true),
            }
        },
    }
}

/// What is known of a value of a struct type as a whole.
pub open spec fn struct_status(context: TypeContext, node: InitNode, name: StrId) -> InitStatus {
    match node {
        InitNode::Whole(status) => status,
        InitNode::Array { .. } => InitStatus::Initialized,
        InitNode::Struct(known) => match lookup(context.structs, name) {
            None => InitStatus::Maybe,
            Some(def) => {
                let (some_init, some_not) = field_statuses(def.fields, known);
                if some_not && some_init {
                    InitStatus::Maybe
                } else if some_not {
                    InitStatus::Uninitialized
                } else {
                    InitStatus::Initialized
                }
            },
        },
    }
}

pub open spec fn joined_status(a: InitStatus, b: InitStatus) -> InitStatus {
    if a == b {
        a
    } else {
        InitStatus::Maybe
    }
}

/// What is known where two paths meet: no more than is known on both.
pub open spec fn joined(a: InitNode, b: InitNode) -> InitNode
    decreases a,
{
    match (a, b) {
        (InitNode::Whole(sa), InitNode::Whole(sb)) => InitNode::Whole(joined_status(sa, sb)),
        (InitNode::Array { ranges: ra, len }, InitNode::Array { ranges: rb, .. }) => {
            InitNode::Array { ranges: ra.common(rb), len }
        },
        (InitNode::Array { .. }, InitNode::Whole(InitStatus::Initialized)) => a,
        (InitNode::Whole(InitStatus::Initialized), InitNode::Array { .. }) => b,
        (InitNode::Struct(fa), InitNode::Struct(fb)) => InitNode::Struct(
            joined_fields(fa, fb).then_all(only_right(fa, fb)),
        ),
        (InitNode::Struct(_), InitNode::Whole(InitStatus::Initialized)) => a,
        (InitNode::Whole(InitStatus::Initialized), InitNode::Struct(_)) => b,
        _ => InitNode::Whole(InitStatus::Maybe),
    }
}

/// The fields of the left side, each joined with the same field of the right.
pub open spec fn joined_fields(
    left: Table<StrId, InitNode>,
    right: Table<StrId, InitNode>,
) -> Table<StrId, InitNode>
    decreases left,
{
    match left {
        Nil => Nil,
        Cons(entry, rest) => List::cons_of(
            (entry.0, joined(entry.1, child_of(right, entry.0))),
            joined_fields(*rest, right),
        ),
    }
}

/// An uninitialized field joined with one of which something is known.
pub open spec fn joined_with_untouched(node: InitNode) -> InitNode {
    match node {
        InitNode::Whole(status) => InitNode::Whole(
            joined_status(InitStatus::Uninitialized, status),
        ),
        _ => InitNode::Whole(InitStatus::Maybe),
    }
}

/// The fields that only the right side knows of.
pub open spec fn only_right(
    left: Table<StrId, InitNode>,
    right: Table<StrId, InitNode>,
) -> Table<StrId, InitNode>
    decreases right,
{
    match right {
        Nil => Nil,
        Cons(entry, rest) => if has_key(left, entry.0) {
            only_right(left, *rest)
        } else {
            List::cons_of((entry.0, joined_with_untouched(entry.1)), only_right(left, *rest))
        },
    }
}

/// The node of a local, initialized where nothing is known of it.
pub open spec fn local_node(state: InitState, name: StrId) -> InitNode {
    match lookup(state, name) {
        Some(node) => node,
        None => complete(),
    }
}

pub open spec fn joined_locals(left: InitState, right: InitState) -> InitState
    decreases left,
{
    match left {
        Nil => Nil,
        Cons(entry, rest) => List::cons_of(
            (entry.0, joined(entry.1, local_node(right, entry.0))),
            joined_locals(*rest, right),
        ),
    }
}

pub open spec fn only_right_locals(left: InitState, right: InitState) -> InitState
    decreases right,
{
    match right {
        Nil => Nil,
        Cons(entry, rest) => if has_key(left, entry.0) {
            only_right_locals(left, *rest)
        } else {
            List::cons_of(
                (entry.0, joined(complete(), entry.1)),
                only_right_locals(left, *rest),
            )
        },
    }
}

pub open spec fn joined_states(left: InitState, right: InitState) -> InitState {
    joined_locals(left, right).then_all(only_right_locals(left, right))
}

/// Whether two nodes say the same, whatever the order of their fields.
pub open spec fn agree(a: InitNode, b: InitNode) -> bool
    decreases a,
{
    match (a, b) {
        (InitNode::Whole(sa), InitNode::Whole(sb)) => sa == sb,
        (InitNode::Array { ranges: ra, len: la }, InitNode::Array { ranges: rb, len: lb }) => ra
            == rb && la == lb,
        (InitNode::Struct(fa), InitNode::Struct(fb)) => entries_agree(fa, fb) && keys_in(fb, fa),
        _ => false,
    }
}

/// Whether every entry of a table is in another one with a node that says the same.
pub open spec fn entries_agree(
    left: Table<StrId, InitNode>,
    right: Table<StrId, InitNode>,
) -> bool
    decreases left,
{
    match left {
        Nil => true,
        Cons(entry, rest) => match lookup(right, entry.0) {
            Some(node) => agree(entry.1, node) && entries_agree(*rest, right),
            None => false,
        },
    }
}

pub open spec fn keys_in(left: Table<StrId, InitNode>, right: Table<StrId, InitNode>) -> bool
    decreases left,
{
    match left {
        Nil => true,
        Cons(entry, rest) => has_key(right, entry.0) && keys_in(*rest, right),
    }
}

pub open spec fn states_agree(left: InitState, right: InitState) -> bool {
    entries_agree(left, right) && keys_in(right, left)
}

impl InitNode {
    pub fn dup(&self) -> (copy: InitNode)
        ensures
            copy == *self,
    {
        match self {
            InitNode::Whole(status) => InitNode::Whole(*status),
            InitNode::Struct(fields) => InitNode::Struct(fields.dup()),
            InitNode::Array { ranges, len } => InitNode::Array { ranges: ranges.dup(), len: *len },
        }
    }

    fn is_complete(&self) -> (yes: bool)
        ensures
            yes == (*self == complete()),
    {
        matches!(self, InitNode::Whole(InitStatus::Initialized))
    }

    fn fields(&self) -> (fields: Table<StrId, InitNode>)
        ensures
            fields == fields_of(*self),
    {
        match self {
            InitNode::Struct(fields) => fields.dup(),
            _ => Nil,
        }
    }
}

fn find_child(fields: &Table<StrId, InitNode>, name: StrId) -> (node: InitNode)
    ensures
        node == child_of(*fields, name),
{
    match find(fields, &name) {
        Some(node) => node.dup(),
        None => InitNode::Whole(InitStatus::Uninitialized),
    }
}

fn find_local(state: &InitState, name: StrId) -> (node: InitNode)
    ensures
        node == local_node(*state, name),
{
    match find(state, &name) {
        Some(node) => node.dup(),
        None => InitNode::Whole(InitStatus::Initialized),
    }
}

fn is_all_complete(fields: &Table<StrId, InitNode>) -> (yes: bool)
    ensures
        yes == all_complete(*fields),
    decreases fields,
{
    match fields {
        Nil => true,
        Cons(entry, rest) => entry.1.is_complete() && is_all_complete(rest),
    }
}

fn join_status(a: InitStatus, b: InitStatus) -> (status: InitStatus)
    ensures
        status == joined_status(a, b),
{
    if a == b {
        a
    } else {
        InitStatus::Maybe
    }
}

fn join_fields(left: &Table<StrId, InitNode>, right: &Table<StrId, InitNode>) -> (result: Table<
    StrId,
    InitNode,
>)
    ensures
        result == joined_fields(*left, *right),
    decreases left,
{
    match left {
        Nil => Nil,
        Cons(entry, rest) => List::cons(
            (entry.0, TypeChecker::join_nodes(&entry.1, &find_child(right, entry.0))),
            join_fields(rest, right),
        ),
    }
}

fn right_only(left: &Table<StrId, InitNode>, right: &Table<StrId, InitNode>) -> (result: Table<
    StrId,
    InitNode,
>)
    ensures
        result == only_right(*left, *right),
    decreases right,
{
    match right {
        Nil => Nil,
        Cons(entry, rest) => if contains_key(left, &entry.0) {
            right_only(left, rest)
        } else {
            let node = match &entry.1 {
                InitNode::Whole(status) => InitNode::Whole(
                    join_status(InitStatus::Uninitialized, *status),
                ),
                _ => InitNode::Whole(InitStatus::Maybe),
            };
            List::cons((entry.0, node), right_only(left, rest))
        },
    }
}

fn join_locals(left: &InitState, right: &InitState) -> (result: InitState)
    ensures
        result == joined_locals(*left, *right),
    decreases left,
{
    match left {
        Nil => Nil,
        Cons(entry, rest) => List::cons(
            (entry.0, TypeChecker::join_nodes(&entry.1, &find_local(right, entry.0))),
            join_locals(rest, right),
        ),
    }
}

fn right_only_locals(left: &InitState, right: &InitState) -> (result: InitState)
    ensures
        result == only_right_locals(*left, *right),
    decreases right,
{
    match right {
        Nil => Nil,
        Cons(entry, rest) => if contains_key(left, &entry.0) {
            right_only_locals(left, rest)
        } else {
            let whole = InitNode::Whole(InitStatus::Initialized);
            List::cons(
                (entry.0, TypeChecker::join_nodes(&whole, &entry.1)),
                right_only_locals(left, rest),
            )
        },
    }
}

fn nodes_agree(a: &InitNode, b: &InitNode) -> (yes: bool)
    ensures
        yes == agree(*a, *b),
    decreases a,
{
    match (a, b) {
        (InitNode::Whole(sa), InitNode::Whole(sb)) => *sa == *sb,
        (InitNode::Array { ranges: ra, len: la }, InitNode::Array { ranges: rb, len: lb }) => {
            same_ranges(&ra.ranges, &rb.ranges) && match (la, lb) {
                (Some(x), Some(y)) => *x == *y,
                (None, None) => true,
                _ => false,
            }
        },
        (InitNode::Struct(fa), InitNode::Struct(fb)) => all_entries_agree(fa, fb)
            && all_keys_in(fb, fa),
        _ => false,
    }
}

fn same_ranges(left: &List<(i64, i64)>, right: &List<(i64, i64)>) -> (equal: bool)
    ensures
        equal == (*left == *right),
    decreases left,
{
    match (left, right) {
        (Nil, Nil) => true,
        (Cons(a, rest_a), Cons(b, rest_b)) => a.0 == b.0 && a.1 == b.1 && same_ranges(
            rest_a,
            rest_b,
        ),
        _ => false,
    }
}

fn all_entries_agree(left: &Table<StrId, InitNode>, right: &Table<StrId, InitNode>) -> (yes: bool)
    ensures
        yes == entries_agree(*left, *right),
    decreases left,
{
    match left {
        Nil => true,
        Cons(entry, rest) => match find(right, &entry.0) {
            Some(node) => nodes_agree(&entry.1, node) && all_entries_agree(rest, right),
            None => false,
        },
    }
}

fn all_keys_in(left: &Table<StrId, InitNode>, right: &Table<StrId, InitNode>) -> (yes: bool)
    ensures
        yes == keys_in(*left, *right),
    decreases left,
{
    match left {
        Nil => true,
        Cons(entry, rest) => contains_key(right, &entry.0) && all_keys_in(rest, right),
    }
}

pub fn same_states(left: &InitState, right: &InitState) -> (yes: bool)
    ensures
        yes == states_agree(*left, *right),
{
    all_entries_agree(left, right) && all_keys_in(right, left)
}

fn look_at_fields(fields: &List<HirField>, known: &Table<StrId, InitNode>) -> (found: (bool, bool))
    ensures
        found == field_statuses(*fields, *known),
    decreases fields,
{
    match fields {
        Nil => (false, false),
        Cons(field, rest) => {
            let (some_init, some_not): (bool, bool) = look_at_fields(rest, known);
            match TypeChecker::status_at_path(&find_child(known, field.name), &Nil) {
                InitStatus::Initialized => (true, some_not),
                _ => (some_init, true),
            }
        },
    }
}

/// The length of the array at a place, as far as its type is known.
pub open spec fn array_len(context: TypeContext, object: HirExpr) -> Option<usize> {
    match peeked(context, object) {
        HirType::Array(_, len) => Some(len),
        _ => None,
    }
}

/// Whether the elements `[start, end)` of what a node describes are initialized.
pub open spec fn range_ready(node: InitNode, start: i64, end: i64) -> bool {
    match node {
        InitNode::Array { ranges, .. } => holds_range(ranges.ranges, start, end),
        InitNode::Whole(InitStatus::Initialized) => true,
        _ => false,
    }
}

/// A length as an index, wrapping around.
pub open spec fn len_index(len: usize) -> i64 {
    len as i64
}

/// Whether all of an array is initialized.
pub open spec fn array_ready(node: InitNode) -> bool {
    match node {
        InitNode::Whole(InitStatus::Initialized) => true,
        InitNode::Array { ranges, len: Some(len) } => holds_range(
            ranges.ranges,
            0,
            len_index(len),
        ),
        _ => false,
    }
}

pub fn is_range_ready(node: &InitNode, start: i64, end: i64) -> (ready: bool)
    ensures
        ready == range_ready(*node, start, end),
{
    match node {
        InitNode::Array { ranges, .. } => ranges.contains_range(start, end),
        InitNode::Whole(InitStatus::Initialized) => true,
        _ => false,
    }
}

pub fn is_array_ready(node: &InitNode) -> (ready: bool)
    ensures
        ready == array_ready(*node),
{
    match node {
        InitNode::Whole(InitStatus::Initialized) => true,
        InitNode::Array { ranges, len: Some(len) } => ranges.covers_full(
            #[verifier::truncate]
            (*len as i64),
        ),
        _ => false,
    }
}

impl TypeChecker {
    pub open spec fn with_inits(self, inits: InitState) -> TypeChecker {
        TypeChecker { flow: FlowState { inits, ..self.flow }, ..self }
    }

    pub open spec fn with_init_node(self, root: StrId, node: InitNode) -> TypeChecker {
        self.with_inits(updated(self.flow.inits, root, node))
    }

    /// The node of a local, uninitialized where nothing is known of it.
    pub open spec fn node_or_untouched(self, root: StrId) -> InitNode {
        child_of(self.flow.inits, root)
    }

    pub open spec fn field_marked(self, root: StrId, path: List<StrId>) -> TypeChecker {
        self.with_init_node(root, initialized_at(local_node(self.flow.inits, root), path))
    }

    pub open spec fn field_unmarked(self, root: StrId, path: List<StrId>) -> TypeChecker {
        self.with_init_node(
            root,
            replaced_at(local_node(self.flow.inits, root), path, untouched()),
        )
    }

    pub open spec fn range_marked(
        self,
        root: StrId,
        path: List<StrId>,
        start: i64,
        end: i64,
        len: Option<usize>,
    ) -> TypeChecker {
        self.with_init_node(
            root,
            range_initialized(self.node_or_untouched(root), path, start, end, len),
        )
    }

    /// The checker with the node at a path of a local replaced.
    pub open spec fn node_put(self, root: StrId, path: List<StrId>, value: InitNode) -> TypeChecker {
        self.with_init_node(root, replaced_at(self.node_or_untouched(root), path, value))
    }

    pub fn mark_field_init_node(node: &InitNode, path: &List<StrId>) -> (result: InitNode)
        ensures
            result == initialized_at(*node, *path),
        decreases path,
    {
        match path {
            Nil => InitNode::Whole(InitStatus::Initialized),
            Cons(head, rest) => if node.is_complete() {
                node.dup()
            } else {
                let fields = node.fields();
                let child = Self::mark_field_init_node(&find_child(&fields, **head), rest);
                InitNode::Struct(update(&fields, **head, child))
            },
        }
    }

    pub fn mark_array_range_node(
        node: &InitNode,
        path: &List<StrId>,
        start: i64,
        end: i64,
        len: Option<usize>,
    ) -> (result: InitNode)
        ensures
            result == range_initialized(*node, *path, start, end, len),
        decreases path,
    {
        match path {
            Nil => match node {
                InitNode::Array { ranges, len: known } => {
                    let mut ranges = ranges.dup();
                    ranges.insert(start, end);
                    InitNode::Array { ranges, len: *known }
                },
                InitNode::Whole(InitStatus::Initialized) => node.dup(),
                _ => {
                    let mut ranges = IntervalSet::default();
                    ranges.insert(start, end);
                    InitNode::Array { ranges, len }
                },
            },
            Cons(head, rest) => {
                let fields = node.fields();
                let child = Self::mark_array_range_node(
                    &find_child(&fields, **head),
                    rest,
                    start,
                    end,
                    len,
                );
                InitNode::Struct(update(&fields, **head, child))
            },
        }
    }

    /// The node at a path, made where there is none.
    pub fn node_at_path(node: &InitNode, path: &List<StrId>) -> (result: InitNode)
        ensures
            result == reached(*node, *path),
        decreases path,
    {
        match path {
            Nil => node.dup(),
            Cons(head, rest) => Self::node_at_path(&find_child(&node.fields(), **head), rest),
        }
    }

    pub fn replace_node_at_path(node: &InitNode, path: &List<StrId>, value: InitNode) -> (result:
        InitNode)
        ensures
            result == replaced_at(*node, *path, value),
        decreases path,
    {
        match path {
            Nil => value,
            Cons(head, rest) => {
                let fields = node.fields();
                let child = Self::replace_node_at_path(&find_child(&fields, **head), rest, value);
                InitNode::Struct(update(&fields, **head, child))
            },
        }
    }

    pub fn node_at_path_ref<'n>(node: &'n InitNode, path: &List<StrId>) -> (result: &'n InitNode)
        ensures
            *result == nearest(*node, *path),
        decreases path,
    {
        match path {
            Nil => node,
            Cons(head, rest) => match node {
                InitNode::Struct(fields) => match find(fields, &**head) {
                    Some(child) => Self::node_at_path_ref(child, rest),
                    None => node,
                },
                _ => node,
            },
        }
    }

    pub fn status_at_path(node: &InitNode, path: &List<StrId>) -> (status: InitStatus)
        ensures
            status == status_at(*node, *path),
        decreases path,
    {
        match node {
            InitNode::Whole(status) => *status,
            InitNode::Array { .. } => InitStatus::Initialized,
            InitNode::Struct(fields) => match path {
                Cons(head, rest) => match find(fields, &**head) {
                    Some(child) => Self::status_at_path(child, rest),
                    None => InitStatus::Uninitialized,
                },
                Nil => if is_all_complete(fields) {
                    InitStatus::Initialized
                } else {
                    InitStatus::Maybe
                },
            },
        }
    }

    pub fn join_nodes(a: &InitNode, b: &InitNode) -> (node: InitNode)
        ensures
            node == joined(*a, *b),
        decreases a,
    {
        match (a, b) {
            (InitNode::Whole(sa), InitNode::Whole(sb)) => InitNode::Whole(join_status(*sa, *sb)),
            (InitNode::Array { ranges: ra, len }, InitNode::Array { ranges: rb, .. }) => {
                InitNode::Array { ranges: ra.intersect(rb), len: *len }
            },
            (InitNode::Array { .. }, InitNode::Whole(InitStatus::Initialized)) => a.dup(),
            (InitNode::Whole(InitStatus::Initialized), InitNode::Array { .. }) => b.dup(),
            (InitNode::Struct(fa), InitNode::Struct(fb)) => InitNode::Struct(
                join_fields(fa, fb).append(&right_only(fa, fb)),
            ),
            (InitNode::Struct(_), InitNode::Whole(InitStatus::Initialized)) => a.dup(),
            (InitNode::Whole(InitStatus::Initialized), InitNode::Struct(_)) => b.dup(),
            _ => InitNode::Whole(InitStatus::Maybe),
        }
    }

    pub fn join_init_states(a: &InitState, b: &InitState) -> (state: InitState)
        ensures
            state == joined_states(*a, *b),
    {
        join_locals(a, b).append(&right_only_locals(a, b))
    }

    pub fn status_for_whole_struct(&self, node: &InitNode, struct_name: StrId) -> (status: InitStatus)
        ensures
            status == struct_status(self.context, *node, struct_name),
    {
        match node {
            InitNode::Whole(status) => *status,
            InitNode::Array { .. } => InitStatus::Initialized,
            InitNode::Struct(known) => match self.context.get_struct(struct_name) {
                None => InitStatus::Maybe,
                Some(def) => {
                    let (some_init, some_not): (bool, bool) = look_at_fields(&def.fields, known);
                    if some_not && some_init {
                        InitStatus::Maybe
                    } else if some_not {
                        InitStatus::Uninitialized
                    } else {
                        InitStatus::Initialized
                    }
                },
            },
        }
    }

    fn put_init_node(&mut self, root: StrId, node: InitNode)
        ensures
            *final(self) == old(self).with_init_node(root, node),
            final(self).settled_in_scope(*old(self)),
    {
        self.flow.inits = update(&self.flow.inits, root, node);
    }

    pub fn mark_whole_uninit(&mut self, root: StrId)
        ensures
            *final(self) == old(self).with_init_node(root, untouched()),
            final(self).settled_in_scope(*old(self)),
    {
        self.put_init_node(root, InitNode::Whole(InitStatus::Uninitialized));
    }

    pub fn mark_whole_init(&mut self, root: StrId)
        ensures
            *final(self) == old(self).with_init_node(root, complete()),
            final(self).settled_in_scope(*old(self)),
    {
        self.put_init_node(root, InitNode::Whole(InitStatus::Initialized));
    }

    pub fn mark_field_init(&mut self, root: StrId, path: &List<StrId>)
        ensures
            *final(self) == old(self).field_marked(root, *path),
            final(self).settled_in_scope(*old(self)),
    {
        let node = find_local(&self.flow.inits, root);
        self.put_init_node(root, Self::mark_field_init_node(&node, path));
    }

    pub fn mark_field_uninit(&mut self, root: StrId, path: &List<StrId>)
        ensures
            *final(self) == old(self).field_unmarked(root, *path),
            final(self).settled_in_scope(*old(self)),
    {
        let node = find_local(&self.flow.inits, root);
        let untouched = InitNode::Whole(InitStatus::Uninitialized);
        self.put_init_node(root, Self::replace_node_at_path(&node, path, untouched));
    }

    pub fn mark_array_range(
        &mut self,
        root: StrId,
        path: &List<StrId>,
        start: i64,
        end: i64,
        len: Option<usize>,
    )
        ensures
            *final(self) == old(self).range_marked(root, *path, start, end, len),
            final(self).settled_in_scope(*old(self)),
    {
        let node = find_child(&self.flow.inits, root);
        self.put_init_node(root, Self::mark_array_range_node(&node, path, start, end, len));
    }

    pub fn put_node(&mut self, root: StrId, path: &List<StrId>, value: InitNode)
        ensures
            *final(self) == old(self).node_put(root, *path, value),
            final(self).settled_in_scope(*old(self)),
    {
        let node = find_child(&self.flow.inits, root);
        self.put_init_node(root, Self::replace_node_at_path(&node, path, value));
    }

    /// The node at a path of a local.
    pub fn node_of(&self, root: StrId, path: &List<StrId>) -> (node: InitNode)
        ensures
            node == reached(self.node_or_untouched(root), *path),
    {
        Self::node_at_path(&find_child(&self.flow.inits, root), path)
    }

    pub fn array_length(&self, object: &HirExpr) -> (len: Option<usize>)
        ensures
            len == array_len(self.context, *object),
    {
        match self.peek_type(object) {
            HirType::Array(_, len) => Some(len),
            _ => None,
        }
    }

    /// The checker after a place has been handed out to be written: it counts as initialized.
    #[verifier::opaque]
    pub open spec fn after_mut_target(self, expr: HirExpr) -> TypeChecker {
        match expr.kind {
            ExprKind::Ident(_, _) | ExprKind::FieldAccess { .. } | ExprKind::Get { .. } => {
                match field_path(expr) {
                    Some((root, path)) => self.field_marked(root, path),
                    None => self,
                }
            },
            ExprKind::Index { object, index, .. } => match field_path(*object) {
                Some((root, path)) => match index.kind {
                    ExprKind::Number(i, _) => self.range_marked(
                        root,
                        path,
                        i,
                        succ(i),
                        array_len(self.context, *object),
                    ),
                    _ => self.node_put(root, path, complete()),
                },
                None => self,
            },
            ExprKind::Slice { object, start, end, .. } => match field_path(*object) {
                Some((root, path)) => match (start.kind, end.kind) {
                    (ExprKind::Number(s, _), ExprKind::Number(e, _)) => self.range_marked(
                        root,
                        path,
                        s,
                        e,
                        array_len(self.context, *object),
                    ),
                    _ => self.node_put(root, path, complete()),
                },
                None => self,
            },
            _ => self,
        }
    }

    pub fn optimistically_mark_mut_target_init(&mut self, expr: &HirExpr)
        ensures
            *final(self) == old(self).after_mut_target(*expr),
            final(self).settled_in_scope(*old(self)),
    {
        proof {
            reveal(TypeChecker::after_mut_target);
        }
        match &expr.kind {
            ExprKind::Ident(_, _) | ExprKind::FieldAccess { .. } | ExprKind::Get { .. } => {
                match Self::static_field_path(expr) {
                    Some((root, path)) => self.mark_field_init(root, &path),
                    None => {},
                }
            },
            ExprKind::Index { object, index, .. } => match Self::static_field_path(object) {
                Some((root, path)) => match &index.kind {
                    ExprKind::Number(i, _) => {
                        let len = self.array_length(object);
                        self.mark_array_range(root, &path, *i, next_index(*i), len);
                    },
                    _ => self.put_node(root, &path, InitNode::Whole(InitStatus::Initialized)),
                },
                None => {},
            },
            ExprKind::Slice { object, start, end, .. } => match Self::static_field_path(object) {
                Some((root, path)) => match (&start.kind, &end.kind) {
                    (ExprKind::Number(s, _), ExprKind::Number(e, _)) => {
                        let len = self.array_length(object);
                        self.mark_array_range(root, &path, *s, *e, len);
                    },
                    _ => self.put_node(root, &path, InitNode::Whole(InitStatus::Initialized)),
                },
                None => {},
            },
            _ => {},
        }
    }

    pub open spec fn after_path_read(self, root: StrId, path: List<StrId>) -> TypeChecker {
        if self.modes.suppress_init_read {
            self
        } else {
            match lookup(self.flow.inits, root) {
                None => self,
                Some(node) => match status_at(node, path) {
                    InitStatus::Initialized => self,
                    InitStatus::Uninitialized => self.said(Message::UninitPath { root, path }),
                    InitStatus::Maybe => self.said(Message::MaybeUninitPath { root, path }),
                },
            }
        }
    }

    pub fn check_init_read_path(&mut self, root: StrId, path: &List<StrId>)
        ensures
            *final(self) == old(self).after_path_read(root, *path),
            final(self).settled_in_scope(*old(self)),
    {
        if self.modes.suppress_init_read {
            return;
        }
        let status: Option<InitStatus> = match find(&self.flow.inits, &root) {
            None => None,
            Some(node) => Some(Self::status_at_path(node, path)),
        };
        match status {
            None | Some(InitStatus::Initialized) => {},
            Some(InitStatus::Uninitialized) => self.say(
                Message::UninitPath { root, path: path.dup() },
            ),
            Some(InitStatus::Maybe) => self.say(
                Message::MaybeUninitPath { root, path: path.dup() },
            ),
        }
    }

    /// What is known of a local of a type as a whole.
    pub open spec fn whole_status(self, node: InitNode, ty: HirType) -> InitStatus {
        match ty {
            HirType::Struct { name, .. } => struct_status(self.context, node, name),
            _ => status_at(node, Nil),
        }
    }

    pub open spec fn after_ident_read(self, name: StrId, ty: HirType) -> TypeChecker {
        if self.modes.suppress_init_read {
            self
        } else {
            match lookup(self.flow.inits, name) {
                None => self,
                Some(node) => match self.whole_status(node, ty) {
                    InitStatus::Initialized => self,
                    InitStatus::Uninitialized => self.said(Message::UninitValue { name }),
                    InitStatus::Maybe => self.said(Message::MaybeUninitValue { name }),
                },
            }
        }
    }

    pub fn check_ident_init_read(&mut self, name: StrId, ty: &HirType)
        ensures
            *final(self) == old(self).after_ident_read(name, *ty),
            final(self).settled_in_scope(*old(self)),
    {
        if self.modes.suppress_init_read {
            return;
        }
        let status: Option<InitStatus> = match find(&self.flow.inits, &name) {
            None => None,
            Some(node) => Some(
                match ty {
                    HirType::Struct { name: struct_name, .. } => self.status_for_whole_struct(
                        node,
                        *struct_name,
                    ),
                    _ => Self::status_at_path(node, &Nil),
                },
            ),
        };
        match status {
            None | Some(InitStatus::Initialized) => {},
            Some(InitStatus::Uninitialized) => self.say(Message::UninitValue { name }),
            Some(InitStatus::Maybe) => self.say(Message::MaybeUninitValue { name }),
        }
    }

    pub open spec fn after_slice_read(
        self,
        object: HirExpr,
        start: HirExpr,
        end: HirExpr,
    ) -> TypeChecker {
        match field_path(object) {
            None => self,
            Some((root, path)) => match lookup(self.flow.inits, root) {
                None => self,
                Some(node) => if self.modes.suppress_init_read {
                    self
                } else {
                    match (start.kind, end.kind) {
                        (ExprKind::Number(s, _), ExprKind::Number(e, _)) => {
                            if range_ready(nearest(node, path), s, e) {
                                self
                            } else {
                                self.said(Message::UninitRange { root, start: s, end: e })
                            }
                        },
                        _ => if array_ready(nearest(node, path)) {
                            self
                        } else {
                            self.said(Message::SliceNeedsWhole { root })
                        },
                    }
                },
            },
        }
    }

    pub fn check_slice_range_init(&mut self, object: &HirExpr, start: &HirExpr, end: &HirExpr)
        ensures
            *final(self) == old(self).after_slice_read(*object, *start, *end),
            final(self).settled_in_scope(*old(self)),
    {
        if self.modes.suppress_init_read {
            return;
        }
        match Self::static_field_path(object) {
            None => {},
            Some((root, path)) => {
                let message: Option<Message> = match find(&self.flow.inits, &root) {
                    None => None,
                    Some(node) => {
                        let target = Self::node_at_path_ref(node, &path);
                        match (&start.kind, &end.kind) {
                            (ExprKind::Number(s, _), ExprKind::Number(e, _)) => {
                                if is_range_ready(target, *s, *e) {
                                    None
                                } else {
                                    Some(Message::UninitRange { root, start: *s, end: *e })
                                }
                            },
                            _ => if is_array_ready(target) {
                                None
                            } else {
                                Some(Message::SliceNeedsWhole { root })
                            },
                        }
                    },
                };
                match message {
                    None => {},
                    Some(message) => self.say(message),
                }
            },
        }
    }

    /// The checker after the current value of an assignment target has been read.
    #[verifier::opaque]
    pub open spec fn after_compound_read(self, target: HirExpr, ty: HirType) -> TypeChecker {
        match target.kind {
            ExprKind::Ident(name, _) => self.after_ident_read(name, ty),
            ExprKind::FieldAccess { object, field, .. } | ExprKind::Get { object, field, .. } => {
                match field_path(*object) {
                    Some((root, path)) => self.after_path_read(root, path.snoc(field)),
                    None => self,
                }
            },
            ExprKind::Index { object, index, .. } => match (field_path(*object), index.kind) {
                (Some((root, path)), ExprKind::Number(i, _)) => match lookup(
                    self.flow.inits,
                    root,
                ) {
                    Some(node) => if range_ready(nearest(node, path), i, succ(i)) {
                        self
                    } else {
                        self.said(Message::CompoundReadsUninit { root, index: i })
                    },
                    None => self,
                },
                _ => self,
            },
            _ => self,
        }
    }

    pub fn check_read_for_compound_target(&mut self, target: &HirExpr, ty: &HirType)
        ensures
            *final(self) == old(self).after_compound_read(*target, *ty),
            final(self).settled_in_scope(*old(self)),
    {
        proof {
            reveal(TypeChecker::after_compound_read);
        }
        match &target.kind {
            ExprKind::Ident(name, _) => self.check_ident_init_read(*name, ty),
            ExprKind::FieldAccess { object, field, .. } | ExprKind::Get { object, field, .. } => {
                match Self::static_field_path(object) {
                    Some((root, path)) => self.check_init_read_path(root, &path.push(*field)),
                    None => {},
                }
            },
            ExprKind::Index { object, index, .. } => match (
                Self::static_field_path(object),
                &index.kind,
            ) {
                (Some((root, path)), ExprKind::Number(i, _)) => {
                    let ready: bool = match find(&self.flow.inits, &root) {
                        Some(node) => is_range_ready(
                            Self::node_at_path_ref(node, &path),
                            *i,
                            next_index(*i),
                        ),
                        None => true,
                    };
                    if !ready {
                        self.say(Message::CompoundReadsUninit { root, index: *i });
                    }
                },
                _ => {},
            },
            _ => {},
        }
    }
}

/// What has been initialized at a path reads as initialized there.
pub proof fn initialized_reads_initialized(node: InitNode, path: List<StrId>)
    ensures
        status_at(initialized_at(node, path), path) == InitStatus::Initialized,
    decreases path,
{
    match path {
        Nil => {},
        Cons(_, _) => {
            let head = path.head();
            let child = child_of(fields_of(node), head);
            initialized_reads_initialized(child, path.rest());
            crate::list::update_then_lookup(
                fields_of(node),
                head,
                initialized_at(child, path.rest()),
                head,
            );
        },
    }
}

/// Whether a path leads through an array before its end.
pub open spec fn array_on_the_way(node: InitNode, path: List<StrId>) -> bool
    decreases path,
{
    match path {
        Nil => false,
        Cons(head, rest) => match node {
            InitNode::Array { .. } => true,
            InitNode::Struct(fields) => match lookup(fields, *head) {
                Some(child) => array_on_the_way(child, *rest),
                None => false,
            },
            InitNode::Whole(_) => false,
        },
    }
}

/// Whether a path goes on from a value, through a field of it of which nothing is known, to a part of
/// that field: the field is then known, and only a part of it is initialized.
pub open spec fn opens_field_below(node: InitNode, path: List<StrId>, value: List<StrId>) -> bool
    decreases path,
{
    match (path, node) {
        (Cons(head, rest), InitNode::Struct(fields)) => match (value, lookup(fields, *head)) {
            (Nil, None) => *rest is Cons,
            (Cons(first, more), Some(child)) => *first == *head && opens_field_below(
                child,
                *rest,
                *more,
            ),
            _ => false,
        },
        _ => false,
    }
}

proof fn completing_keeps_complete(fields: Table<StrId, InitNode>, name: StrId)
    requires
        all_complete(fields),
    ensures
        all_complete(updated(fields, name, complete())),
        has_key(fields, name) ==> child_of(fields, name) == complete(),
    decreases fields,
{
    match fields {
        Nil => {
            reveal_with_fuel(all_complete, 2);
        },
        Cons(_, _) => completing_keeps_complete(fields.rest(), name),
    }
}

/// Initializing the value at one path leaves initialized what is so at another.
pub proof fn initializing_keeps_the_rest(node: InitNode, path: List<StrId>, other: List<StrId>)
    requires
        !array_on_the_way(node, path),
        !opens_field_below(node, path, other),
        status_at(node, other) == InitStatus::Initialized,
    ensures
        status_at(initialized_at(node, path), other) == InitStatus::Initialized,
    decreases path,
{
    match path {
        Nil => {},
        Cons(_, _) => if let InitNode::Struct(fields) = node {
            let head = path.head();
            let child = child_of(fields, head);
            let value = initialized_at(child, path.rest());
            match other {
                Nil => {
                    completing_keeps_complete(fields, head);
                    assert(value == complete());
                },
                Cons(_, _) => {
                    crate::list::update_then_lookup(fields, head, value, other.head());
                    if other.head() == head {
                        initializing_keeps_the_rest(child, path.rest(), other.rest());
                    }
                },
            }
        },
    }
}

/// What has been put at a path is what is found there.
pub proof fn put_then_reached(node: InitNode, path: List<StrId>, value: InitNode)
    ensures
        reached(replaced_at(node, path, value), path) == value,
    decreases path,
{
    match path {
        Nil => {},
        Cons(_, _) => {
            let head = path.head();
            let child = child_of(fields_of(node), head);
            put_then_reached(child, path.rest(), value);
            crate::list::update_then_lookup(
                fields_of(node),
                head,
                replaced_at(child, path.rest(), value),
                head,
            );
        },
    }
}

/// A local that is initialized as a whole where two paths meet was so on both of them.
pub proof fn join_needs_both(a: InitNode, b: InitNode)
    ensures
        joined(a, b) == complete() ==> a == complete() && b == complete(),
        joined(complete(), complete()) == complete(),
{
}

} // verus!
