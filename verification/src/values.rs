//! Which locals, fields and elements have values, where paths meet and where they are written.

use vstd::prelude::*;

use crate::hir::{ExprKind, HirExpr, HirField, HirType, StrId};
use crate::init_nodes::{
    child_of, complete, field_statuses, joined, joined_locals, joined_states, local_node,
    only_right_locals, status_at, struct_status, untouched,
};
use crate::initialization::{
    contains_range_means_all, insert_adds_range, insert_keeps_order, InitNode, InitState,
    InitStatus, IntervalSet,
};
use crate::list::{
    has_key, lookup, member_added, update_then_lookup, with_member, Cons, List, Nil, Table,
};
use crate::nullables::cleared_is_forgotten;
use crate::program::Facts;
use crate::ref_effects::field_path;
use crate::type_checker::TypeChecker;
use crate::type_context::{list_at, TypeContext};

verus! {

proof fn lookup_in_either<K, V>(left: Table<K, V>, right: Table<K, V>, key: K)
    ensures
        lookup(left.then_all(right), key) == match lookup(left, key) {
            Some(value) => Some(value),
            None => lookup(right, key),
        },
    decreases left,
{
    match left {
        Nil => {},
        Cons(_, _) => lookup_in_either(left.rest(), right, key),
    }
}

proof fn left_locals_join(left: InitState, right: InitState, name: StrId)
    ensures
        lookup(joined_locals(left, right), name) == match lookup(left, name) {
            Some(node) => Some(joined(node, local_node(right, name))),
            None => None,
        },
    decreases left,
{
    match left {
        Nil => {},
        Cons(_, _) => left_locals_join(left.rest(), right, name),
    }
}

proof fn right_locals_join(left: InitState, right: InitState, name: StrId)
    requires
        !has_key(left, name),
    ensures
        lookup(only_right_locals(left, right), name) == match lookup(right, name) {
            Some(node) => Some(joined(complete(), node)),
            None => None,
        },
    decreases right,
{
    match right {
        Nil => {},
        Cons(_, _) => right_locals_join(left, right.rest(), name),
    }
}

/// Where two paths meet, what is known of a local is what both know of it. A local that one of them
/// does not know of is one that has a value there.
pub proof fn paths_join_local_by_local(left: InitState, right: InitState, name: StrId)
    ensures
        lookup(joined_states(left, right), name) == if has_key(left, name) || has_key(right, name) {
            Some(joined(local_node(left, name), local_node(right, name)))
        } else {
            None
        },
{
    lookup_in_either(joined_locals(left, right), only_right_locals(left, right), name);
    left_locals_join(left, right, name);
    if !has_key(left, name) {
        right_locals_join(left, right, name);
    }
}

/// A local has a value where two paths meet only if it has one on both, and is without one only if it
/// has none on either. The order of the paths does not matter for that.
pub proof fn values_need_both_paths(a: InitStatus, b: InitStatus)
    ensures
        joined(InitNode::Whole(a), InitNode::Whole(b)) == joined(
            InitNode::Whole(b),
            InitNode::Whole(a),
        ),
        joined(InitNode::Whole(a), InitNode::Whole(b)) == complete() <==> a is Initialized
            && b is Initialized,
        joined(InitNode::Whole(a), InitNode::Whole(b)) == untouched() <==> a is Uninitialized
            && b is Uninitialized,
{
}

/// An element that was written to can be read.
pub proof fn written_elements_have_values(
    checker: TypeChecker,
    object: HirExpr,
    index: HirExpr,
    name: StrId,
    at: i64,
)
    requires
        object.kind matches ExprKind::Ident(used, _) && used == name,
        index.kind matches ExprKind::Number(value, _) && value == at,
        at < i64::MAX,
        match lookup(checker.flow.inits, name) {
            Some(InitNode::Array { ranges, .. }) => ranges.well_formed(),
            _ => true,
        },
    ensures
        ({
            let written = checker.element_marked(object, index, false);
            written.element_read(object, index) == written
        }),
{
    reveal(TypeChecker::element_read);
    let node = checker.node_or_untouched(name);
    let len = crate::init_nodes::array_len(checker.context, object);
    let end = (at + 1) as i64;
    let after = crate::init_nodes::range_initialized(node, Nil, at, end, len);
    update_then_lookup(checker.flow.inits, name, after, name);
    let before = match node {
        InitNode::Array { ranges, .. } => ranges,
        _ => IntervalSet::empty(),
    };
    assert(IntervalSet::empty().well_formed());
    insert_keeps_order(before, at, end);
    let ranges = before.with_range(at, end);
    assert forall|x: int| at <= x < end implies #[trigger] ranges.has(x) by {
        insert_adds_range(before, at, end, x);
    }
    contains_range_means_all(ranges, at, end);
}

/// Whether a field of a struct has a value.
pub open spec fn has_value(known: Table<StrId, InitNode>, field: HirField) -> bool {
    status_at(child_of(known, field.name), Nil) is Initialized
}

proof fn statuses_tell(fields: List<HirField>, known: Table<StrId, InitNode>)
    ensures
        field_statuses(fields, known).0 == exists|field: HirField| #[trigger]
            fields.has(field) && has_value(known, field),
        field_statuses(fields, known).1 == exists|field: HirField| #[trigger]
            fields.has(field) && !has_value(known, field),
    decreases fields,
{
    match fields {
        Nil => {
            reveal_with_fuel(List::has, 2);
        },
        Cons(_, _) => {
            let rest = fields.rest();
            statuses_tell(rest, known);
            assert(fields.has(fields.head()));
            if field_statuses(rest, known).0 {
                let field = choose|field: HirField| #[trigger]
                    rest.has(field) && has_value(known, field);
                assert(fields.has(field));
            }
            if field_statuses(rest, known).1 {
                let field = choose|field: HirField| #[trigger]
                    rest.has(field) && !has_value(known, field);
                assert(fields.has(field));
            }
            if exists|field: HirField| #[trigger] fields.has(field) && has_value(known, field) {
                let field = choose|field: HirField| #[trigger]
                    fields.has(field) && has_value(known, field);
                assert(field == fields.head() || rest.has(field));
            }
            if exists|field: HirField| #[trigger] fields.has(field) && !has_value(known, field) {
                let field = choose|field: HirField| #[trigger]
                    fields.has(field) && !has_value(known, field);
                assert(field == fields.head() || rest.has(field));
            }
        },
    }
}

/// A struct has a value where all of its fields have one, and none where none of them has.
pub proof fn structs_have_values_with_their_fields(
    context: TypeContext,
    known: Table<StrId, InitNode>,
    name: StrId,
)
    requires
        has_key(context.structs, name),
    ensures
        ({
            let fields = lookup(context.structs, name)->0.fields;
            let status = struct_status(context, InitNode::Struct(known), name);
            let all = forall|field: HirField| #[trigger] fields.has(field) ==> has_value(known, field);
            let some = exists|field: HirField| #[trigger]
                fields.has(field) && has_value(known, field);
            &&& status is Initialized <==> all
            &&& status is Maybe <==> !all && some
            &&& status is Uninitialized <==> !all && !some
        }),
{
    if let Some(def) = lookup(context.structs, name) {
        statuses_tell(crate::list::held(&def).fields, known);
    }
}

proof fn all_are_copied(facts: Facts, types: List<HirType>)
    ensures
        facts.all_copied(types) == forall|ty: HirType| #[trigger] types.has(ty) ==> facts.copied(
            ty,
        ),
    decreases types,
{
    match types {
        Nil => {
            reveal_with_fuel(List::has, 2);
        },
        Cons(_, _) => {
            all_are_copied(facts, types.rest());
            assert(types.has(types.head()));
            if facts.all_copied(types) {
                assert forall|ty: HirType| #[trigger] types.has(ty) implies facts.copied(ty) by {
                    assert(ty == types.head() || types.rest().has(ty));
                }
            }
            if forall|ty: HirType| #[trigger] types.has(ty) ==> facts.copied(ty) {
                assert forall|ty: HirType| #[trigger] types.rest().has(ty) implies facts.copied(
                    ty,
                ) by {
                    assert(types.has(ty));
                }
            }
        },
    }
}

/// What holds other values is copied only where they are.
pub proof fn parts_decide_what_is_copied(facts: Facts, ty: HirType, part: HirType)
    requires
        facts.copied(ty),
        match ty {
            HirType::Array(inner, _) => *inner == part,
            HirType::Nullable(inner) => *inner == part,
            HirType::Tuple(elems) => elems.has(part),
            _ => false,
        },
    ensures
        facts.copied(part),
{
    if let HirType::Tuple(elems) = ty {
        all_are_copied(facts, elems);
    }
}

/// A local that is given a value that may be null is not known to have one; given another, it is.
pub proof fn assignments_tell_of_null(
    checker: TypeChecker,
    target: HirExpr,
    name: StrId,
    value_ty: HirType,
    uninit: bool,
    path: List<StrId>,
)
    requires
        target.kind matches ExprKind::Ident(used, _) && used == name,
    ensures
        ({
            let after = checker.target_marked(target, value_ty, uninit);
            &&& value_ty is Nullable ==> !after.known_non_null(name, path)
            &&& !(value_ty is Nullable) ==> after.known_non_null(name, Nil)
        }),
{
    cleared_is_forgotten(checker, name, Nil, path);
    let paths = list_at(checker.flow.non_null, name);
    member_added(paths, Nil, Nil);
    update_then_lookup(checker.flow.non_null, name, with_member(paths, Nil), name);
}

/// A place that may be null is used as what it holds where it is known not to be, and only there.
pub proof fn known_values_are_unwrapped(
    checker: TypeChecker,
    place: HirExpr,
    root: StrId,
    path: List<StrId>,
    inner: HirType,
)
    requires
        field_path(place) == Some((root, path)),
    ensures
        checker.unwrapped(place, HirType::Nullable(std::rc::Rc::new(inner)))
            == if checker.known_non_null(root, path) {
            inner
        } else {
            HirType::Nullable(std::rc::Rc::new(inner))
        },
{
}

} // verus!
