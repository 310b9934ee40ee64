//! What is known of indices, and of the places that are reached by them.

use std::rc::Rc;

use vstd::arithmetic::mul::lemma_mul_is_commutative;
use vstd::prelude::*;

use crate::borrow::{Bound, IndexTemplate, Place, TemplateProjection};
use crate::hir::{ExprKind, HirExpr, Operator, StrId};
use crate::list::{Cons, List, Nil};
use crate::paths::lies_in;
use crate::type_checker::TypeChecker;

verus! {

/// The value that a bound stands for, given those of the locals and of what is not known.
pub open spec fn worth(
    bound: Bound,
    names: spec_fn(StrId) -> int,
    unknown: spec_fn(u32) -> int,
) -> int
    decreases bound,
{
    match bound {
        Bound::Const(value) => value as int,
        Bound::Symbol { root, .. } => names(root),
        Bound::Offset { base, offset } => worth(*base, names, unknown) + offset,
        Bound::Scale { base, factor } => worth(*base, names, unknown) * factor,
        Bound::Sum(left, right) => worth(*left, names, unknown) + worth(*right, names, unknown),
        Bound::Opaque(id) => unknown(id),
    }
}

/// Whether a bound says what an index is.
pub open spec fn definite(bound: Bound) -> bool
    decreases bound,
{
    match bound {
        Bound::Offset { base, .. } => definite(*base),
        Bound::Scale { base, .. } => definite(*base),
        Bound::Sum(left, right) => definite(*left) && definite(*right),
        Bound::Opaque(_) => false,
        _ => true,
    }
}

/// The value of an index.
pub open spec fn index_value(expr: HirExpr, names: spec_fn(StrId) -> int) -> int
    decreases expr,
{
    match expr.kind {
        ExprKind::Number(value, _) => value as int,
        ExprKind::Ident(name, _) => names(name),
        ExprKind::Binary { left, op, right, .. } => match op {
            Operator::Add => index_value(*left, names) + index_value(*right, names),
            Operator::Subtract => index_value(*left, names) - index_value(*right, names),
            Operator::Multiply => index_value(*left, names) * index_value(*right, names),
            _ => 0,
        },
        _ => 0,
    }
}

/// Whether every number in an index has an opposite.
pub open spec fn can_be_negated(expr: HirExpr) -> bool
    decreases expr,
{
    match expr.kind {
        ExprKind::Number(value, _) => value != i64::MIN,
        ExprKind::Binary { left, right, .. } => can_be_negated(*left) && can_be_negated(*right),
        _ => true,
    }
}

/// Where it is known what an index is, that is its value.
pub proof fn bounds_tell_the_value(
    checker: TypeChecker,
    expr: HirExpr,
    names: spec_fn(StrId) -> int,
    unknown: spec_fn(u32) -> int,
)
    requires
        can_be_negated(expr),
        definite(checker.bound_of(expr).1),
    ensures
        worth(checker.bound_of(expr).1, names, unknown) == index_value(expr, names),
    decreases expr,
{
    if let ExprKind::Binary { op, .. } = expr.kind {
        let (left, right) = (expr.left(), expr.right());
        let (first, l) = checker.bound_of(left);
        let (second, r) = first.bound_of(right);
        if definite(l) {
            bounds_tell_the_value(checker, left, names, unknown);
        }
        if definite(r) {
            bounds_tell_the_value(first, right, names, unknown);
        }
        if let Bound::Const(value) = r {
            numbers_are_numbers(first, right);
        }
        lemma_mul_is_commutative(index_value(left, names), index_value(right, names));
    }
}

proof fn numbers_are_numbers(checker: TypeChecker, expr: HirExpr)
    ensures
        checker.bound_of(expr).1 matches Bound::Const(value) ==> (expr.kind matches
            ExprKind::Number(number, _) && number == value),
{
}

/// What is reached from a place lies in the same local.
pub proof fn projections_stay_in_their_local(
    checker: TypeChecker,
    place: Place,
    projections: List<TemplateProjection>,
    args: List<HirExpr>,
    name: StrId,
)
    requires
        lies_in(place, name),
    ensures
        lies_in(checker.place_from(place, projections, args).1, name),
        checker.projected_place(place, projections, args).1 matches Some(reached) ==> lies_in(
            reached,
            name,
        ),
    decreases projections,
{
    match projections {
        Nil => {},
        Cons(_, _) => {
            let rest = projections.rest();
            match projections.head() {
                TemplateProjection::Field(field) => projections_stay_in_their_local(
                    checker,
                    Place::Field(Rc::new(place), field),
                    rest,
                    args,
                    name,
                ),
                TemplateProjection::Deref => projections_stay_in_their_local(
                    checker,
                    Place::Deref(Rc::new(place)),
                    rest,
                    args,
                    name,
                ),
                TemplateProjection::Index(IndexTemplate::Const(value)) => {
                    projections_stay_in_their_local(
                        checker,
                        Place::Index(Rc::new(place), Bound::Const(value)),
                        rest,
                        args,
                        name,
                    );
                },
                TemplateProjection::Index(IndexTemplate::Param(i)) => {
                    if let Some(arg) = args.nth(i) {
                        let (after, bound) = checker.bound_of(arg);
                        projections_stay_in_their_local(
                            after,
                            Place::Index(Rc::new(place), bound),
                            rest,
                            args,
                            name,
                        );
                    }
                },
                TemplateProjection::Index(IndexTemplate::Opaque) => {
                    projections_stay_in_their_local(
                        checker,
                        Place::Index(Rc::new(place), Bound::Opaque(0)),
                        rest,
                        args,
                        name,
                    );
                },
            }
        },
    }
}

} // verus!
