//! The places that expressions name: that every account of them tells of the same root and the same
//! way from it.

use vstd::prelude::*;

use crate::borrow::{Place, TemplateBase, TemplateProjection};
use crate::closures::effect_path;
use crate::errors::UsedIndex;
use crate::free_names::{reaches_from_name, starts_from};
use crate::hir::{ExprKind, HirEffectSegment, HirExpr, ProvenancePathSegment, ProvenanceRoot, StrId};
use crate::list::{lookup, Cons, List, Nil, Table};
use crate::program::ModuleGraph;
use crate::ref_effects::{effect_place, field_path};
use crate::ref_provenance::{along, index_template, provenance_of, template_of};
use crate::references::root_local;
use crate::type_checker::{this_name, TypeChecker};

verus! {

proof fn one_more<T>(list: List<T>, last: T)
    ensures
        list.snoc(last).seq() == list.seq().push(last),
    decreases list,
{
    match list {
        Nil => {
            reveal_with_fuel(List::seq, 2);
            assert(list.snoc(last).seq() == list.seq().push(last));
        },
        Cons(_, _) => {
            one_more(list.rest(), last);
            assert(list.snoc(last).seq() == seq![list.head()] + list.rest().seq().push(last));
            assert(list.snoc(last).seq() == list.seq().push(last));
        },
    }
}

/// A chain of fields, from a local or the object of a method, in the words of the field path, of the
/// effects that touch it and of where a reference to it comes from: the root is the same, and so are
/// the fields in their order.
pub proof fn fields_lead_one_way(graph: ModuleGraph, expr: HirExpr, name: StrId)
    ensures
        match field_path(expr) {
            Some((root, path)) => {
                &&& starts_from(expr, name) <==> name == root
                &&& effect_path(expr) matches Some((touched, segments)) && {
                    &&& touched == root
                    &&& segments.seq() == path.seq().map_values(
                        |field: StrId| HirEffectSegment::Field(field),
                    )
                }
                &&& provenance_of(graph, expr) matches Some(origin) && {
                    &&& origin.root == if origin.root is ThisRoot {
                        ProvenanceRoot::ThisRoot
                    } else {
                        ProvenanceRoot::Var(root)
                    }
                    &&& origin.root is ThisRoot ==> root == this_name()
                    &&& origin.path.seq() == path.seq().map_values(
                        |field: StrId| ProvenancePathSegment::Field(field),
                    )
                }
                &&& effect_place(expr) == Some((root, path, None::<UsedIndex>))
                &&& match root_local(expr) {
                    Some(local) => local == root,
                    None => root == this_name(),
                }
            },
            None => true,
        },
    decreases expr,
{
    let touch = |field: StrId| HirEffectSegment::Field(field);
    let origin = |field: StrId| ProvenancePathSegment::Field(field);
    match expr.kind {
        ExprKind::Ident(_, _) | ExprKind::This { .. } => {
            let none = List::<StrId>::Nil;
            assert(none.seq().map_values(touch) == Seq::<HirEffectSegment>::empty());
            assert(none.seq().map_values(origin) == Seq::<ProvenancePathSegment>::empty());
        },
        ExprKind::FieldAccess { field, .. } | ExprKind::Get { field, .. } => {
            let object = expr.object();
            fields_lead_one_way(graph, object, name);
            if let Some((_, path)) = field_path(object) {
                one_more(path, field);
                if let Some((_, segments)) = effect_path(object) {
                    one_more(segments, HirEffectSegment::Field(field));
                    assert(path.snoc(field).seq().map_values(touch) == path.seq().map_values(
                        touch,
                    ).push(touch(field)));
                }
                if let Some(known) = provenance_of(graph, object) {
                    one_more(known.path, ProvenancePathSegment::Field(field));
                    assert(path.snoc(field).seq().map_values(origin) == path.seq().map_values(
                        origin,
                    ).push(origin(field)));
                }
            }
        },
        _ => {},
    }
}

/// A chain of fields and elements starts from the name that is touched by an effect on it.
pub proof fn chains_touch_their_root(expr: HirExpr, name: StrId)
    ensures
        reaches_from_name(expr) <==> effect_path(expr) is Some,
        effect_path(expr) matches Some((root, _)) ==> (starts_from(expr, name) <==> name == root),
    decreases expr,
{
    match expr.kind {
        ExprKind::FieldAccess { .. } | ExprKind::Get { .. } | ExprKind::Index { .. } => {
            chains_touch_their_root(expr.object(), name);
        },
        _ => {},
    }
}

proof fn along_adds(
    path: List<ProvenancePathSegment>,
    projections: List<TemplateProjection>,
    last: TemplateProjection,
)
    ensures
        along(path, projections.snoc(last)) == along(
            along(path, projections),
            List::one_of(last),
        ),
    decreases projections,
{
    reveal_with_fuel(along, 2);
    match projections {
        Nil => {},
        Cons(_, _) => {
            let next = match projections.head() {
                TemplateProjection::Field(field) => path.snoc(ProvenancePathSegment::Field(field)),
                TemplateProjection::Deref => path.snoc(ProvenancePathSegment::Deref),
                TemplateProjection::Index(_) => path,
            };
            along_adds(next, projections.rest(), last);
        },
    }
}

/// What a function returns a reference to, told by its parameters, leads from the parameter the same
/// way as from the local of that name in its body.
pub proof fn templates_follow_the_place(
    graph: ModuleGraph,
    expr: HirExpr,
    params: Table<StrId, usize>,
    has_this: bool,
)
    ensures
        template_of(expr, params, has_this) matches Some((base, projections)) ==> {
            &&& provenance_of(graph, expr) matches Some(origin) && {
                &&& origin.path == along(Nil, projections)
                &&& match base {
                    TemplateBase::Param(index) => origin.root matches ProvenanceRoot::Var(name)
                        && lookup(params, name) == Some(index),
                    TemplateBase::This => has_this && origin.root is ThisRoot,
                }
            }
        },
    decreases expr,
{
    reveal_with_fuel(along, 2);
    match expr.kind {
        ExprKind::FieldAccess { field, .. } | ExprKind::Get { field, .. } => {
            templates_follow_the_place(graph, expr.object(), params, has_this);
            if let Some((_, projections)) = template_of(expr.object(), params, has_this) {
                along_adds(Nil, projections, TemplateProjection::Field(field));
            }
        },
        ExprKind::Deref { .. } => {
            templates_follow_the_place(graph, expr.object(), params, has_this);
            if let Some((_, projections)) = template_of(expr.object(), params, has_this) {
                along_adds(Nil, projections, TemplateProjection::Deref);
            }
        },
        ExprKind::Index { .. } => {
            templates_follow_the_place(graph, expr.object(), params, has_this);
            if let Some((_, projections)) = template_of(expr.object(), params, has_this) {
                along_adds(
                    Nil,
                    projections,
                    TemplateProjection::Index(index_template(expr.right(), params)),
                );
            }
        },
        _ => {},
    }
}

/// The local that a place lies in.
pub open spec fn lies_in(place: Place, name: StrId) -> bool
    decreases place,
{
    match place {
        Place::Local(local) => local == name,
        Place::Slot { local, .. } => local == name,
        Place::Field(base, _) => lies_in(*base, name),
        Place::Deref(base) => lies_in(*base, name),
        Place::Index(base, _) => lies_in(*base, name),
        _ => false,
    }
}

/// A chain of fields and dereferences names a place in the local that it starts from.
pub proof fn places_lie_in_their_root(checker: TypeChecker, expr: HirExpr)
    ensures
        match (root_local(expr), checker.resolved(expr).1) {
            (Some(root), Some(place)) => lies_in(place, root),
            _ => true,
        },
    decreases expr,
{
    match expr.kind {
        ExprKind::FieldAccess { .. } | ExprKind::Get { .. } | ExprKind::Deref { .. } => {
            places_lie_in_their_root(checker, expr.object());
            reveal_with_fuel(lies_in, 3);
        },
        _ => {},
    }
}

} // verus!
