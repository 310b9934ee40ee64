//! What the borrow checker is asked, and what is known to be moved, by what a program does.

use std::rc::Rc;

use vstd::prelude::*;

use crate::borrow::{BorrowKind, BorrowOp, Place};
use crate::borrowck::{bounding_keeps_rest, keys_of, resolving_keeps_rest};
use crate::check_flow::non_null_behind;
use crate::closures::{level_of_ref, UseLevel};
use crate::errors::{Message, TypeError, TypeErrorKind};
use crate::expressions::bookkeeping;
use crate::hir::{
    AssignmentOperator, ExprKind, HirEffectSegment, HirExpr, HirStmt, HirType, ProvenanceAnnotation,
    ProvenancePathSegment, ProvenanceRoot, RefKind, StmtKind, StrId,
};
use crate::list::{held, lookup, member_added, Cons, List, Nil};
use crate::move_state::{any_field_of, join_is_union, merged_has};
use crate::ref_provenance::provenance_of;
use crate::type_checker::{errors_come_out_in_order, errors_of, ClosureState, Event, TypeChecker};

verus! {

/// The steps that a log asks for, the oldest first.
pub open spec fn steps_of(log: List<Event>) -> Seq<BorrowOp>
    decreases log,
{
    match log {
        Nil => Seq::empty(),
        Cons(event, rest) => match *event {
            Event::Borrow(step) => steps_of(*rest).push(step.op),
            Event::Error(_) => steps_of(*rest),
        },
    }
}

impl TypeChecker {
    /// The steps that have been asked for, the oldest first.
    pub open spec fn steps(self) -> Seq<BorrowOp> {
        steps_of(self.diagnostics.log)
    }

    /// The errors that have been recorded, the oldest first.
    pub open spec fn complaints(self) -> Seq<TypeError> {
        errors_of(self.diagnostics.log, Nil).seq()
    }
}

/// What a condition leaves behind, at the start of the first branch.
pub open spec fn branch_start(checker: TypeChecker, cond: HirExpr) -> TypeChecker {
    let (seen, ty) = checker.checked(cond);
    seen.temp_loans_ended(keys_of(checker.loans.calls)).boolean_checked(ty)
}

proof fn resolving_asks_nothing(checker: TypeChecker, expr: HirExpr)
    ensures
        checker.resolved(expr).0.diagnostics == checker.diagnostics,
        checker.resolved(expr).0.flow == checker.flow,
        checker.resolved(expr).0.context == checker.context,
        checker.resolved(expr).0.program == checker.program,
        checker.resolved(expr).0.modes == checker.modes,
        checker.resolved(expr).0.loans.declared == checker.loans.declared,
        checker.resolved(expr).0.loans.next_loan == checker.loans.next_loan,
{
    resolving_keeps_rest(checker, expr);
}

/// A use of a target as one that is written to asks for a mutable use of its place, and for the
/// place to be initialized, or not, from there on.
pub proof fn targets_are_used_mutably(checker: TypeChecker, target: HirExpr, uninit: bool)
    ensures
        checker.target_used(target, uninit).steps() == match checker.resolved(target).1 {
            Some(place) => checker.steps().push(
                BorrowOp::Use {
                    place,
                    kind: BorrowKind::Mutable,
                    blame: provenance_of(checker.program.graph, target),
                },
            ).push(
                if uninit {
                    BorrowOp::MarkUninit(place)
                } else {
                    BorrowOp::MarkInit(place)
                },
            ),
            None => checker.steps(),
        },
{
    reveal_with_fuel(steps_of, 3);
    resolving_asks_nothing(checker, target);
}

proof fn judging_a_target_asks_nothing(checker: TypeChecker, target: HirExpr, ty: HirType)
    ensures
        checker.mutability_checked(target, false).steps() == checker.steps(),
        checker.after_compound_read(target, ty).steps() == checker.steps(),
{
    reveal(TypeChecker::mutability_checked);
    reveal(TypeChecker::after_compound_read);
    reveal_with_fuel(steps_of, 2);
}

proof fn judging_a_value_asks_nothing(
    checker: TypeChecker,
    target_ty: HirType,
    op: AssignmentOperator,
    value_ty: HirType,
)
    ensures
        checker.assigned(target_ty, op, value_ty).steps() == checker.steps(),
{
    reveal(TypeChecker::operated);
    reveal_with_fuel(steps_of, 2);
}

/// A write asks for a mutable use of the place it writes to, and for nothing else but that the place
/// is initialized, or is not, from there on.
pub proof fn writes_are_mutable_uses(
    checker: TypeChecker,
    target: HirExpr,
    op: AssignmentOperator,
    value: HirExpr,
    target_ty: HirType,
    value_ty: HirType,
)
    ensures
        checker.target_assigned(target, op, value, target_ty, value_ty).steps() == match checker.resolved(
            target,
        ).1 {
            Some(place) => checker.steps().push(
                BorrowOp::Use {
                    place,
                    kind: BorrowKind::Mutable,
                    blame: provenance_of(checker.program.graph, target),
                },
            ).push(
                if value.kind is Uninit {
                    BorrowOp::MarkUninit(place)
                } else {
                    BorrowOp::MarkInit(place)
                },
            ),
            None => checker.steps(),
        },
{
    let uninit = value.kind is Uninit;
    let used = checker.target_used(target, uninit);
    let written = used.mutability_checked(target, false);
    let read = if op is Assign {
        written
    } else {
        written.after_compound_read(target, target_ty)
    };
    let marked = read.target_marked(target, value_ty, uninit);
    assert(checker.target_assigned(target, op, value, target_ty, value_ty) == marked.assigned(
        target_ty,
        op,
        value_ty,
    )) by {
        reveal(TypeChecker::target_assigned);
    }
    targets_are_used_mutably(checker, target, uninit);
    judging_a_target_asks_nothing(used, target, target_ty);
    judging_a_target_asks_nothing(written, target, target_ty);
    assert(marked.diagnostics == read.diagnostics);
    judging_a_value_asks_nothing(marked, target_ty, op, value_ty);
}

/// An assignment is such a write, once its value is known.
pub proof fn assignments_write_their_target(
    checker: TypeChecker,
    expr: HirExpr,
    target: HirExpr,
    op: AssignmentOperator,
    value: HirExpr,
)
    requires
        expr.kind matches ExprKind::Assignment { target: t, op: o, value: v, .. } && *t == target
            && o == op && *v == value,
        match target.kind {
            ExprKind::FieldAccess { field, .. } | ExprKind::Get { field, .. } => !bookkeeping(field),
            _ => true,
        },
    ensures
        ({
            let (first, target_ty) = checker.placed(target);
            let (second, value_ty) = first.expected(value, target_ty);
            let (last, ty) = checker.assignment_checked(expr);
            &&& ty == target_ty
            &&& match second.resolved(target).1 {
                Some(place) => last.steps() == second.steps().push(
                    BorrowOp::Use {
                        place,
                        kind: BorrowKind::Mutable,
                        blame: provenance_of(second.program.graph, target),
                    },
                ).push(
                    if value.kind is Uninit {
                        BorrowOp::MarkUninit(place)
                    } else {
                        BorrowOp::MarkInit(place)
                    },
                ),
                None => last.steps() == second.steps(),
            }
        }),
{
    reveal(TypeChecker::assignment_checked);
    reveal(TypeChecker::plainly_assigned);
    let (first, target_ty) = checker.placed(target);
    let (second, value_ty) = first.expected(value, target_ty);
    writes_are_mutable_uses(second, target, op, value, target_ty, value_ty);
}

/// A write to a local that was not declared mutable is reported, and to another is not.
pub proof fn writes_need_mutable_locals(checker: TypeChecker, target: HirExpr, replaced: bool)
    requires
        !checker.diagnostics.suppress_errors,
    ensures
        ({
            let after = checker.mutability_checked(target, replaced);
            match target.kind {
                ExprKind::Ident(name, _) => if lookup(checker.context.variables, name) is Some
                    && !checker.context.mutable_variables.has(name) {
                    after.complaints() == checker.complaints().push(
                        TypeError {
                            kind: TypeErrorKind::Generic(
                                if replaced {
                                    Message::ReplaceNotMut { name }
                                } else {
                                    Message::NotDeclaredMut { name }
                                },
                            ),
                            span: checker.diagnostics.current_span,
                        },
                    )
                } else {
                    after == checker
                },
                _ => after == checker,
            }
        }),
{
    reveal(TypeChecker::mutability_checked);
    if let ExprKind::Ident(name, _) = target.kind {
        errors_come_out_in_order(
            checker,
            TypeErrorKind::Generic(
                if replaced {
                    Message::ReplaceNotMut { name }
                } else {
                    Message::NotDeclaredMut { name }
                },
            ),
        );
    }
}

/// A reference borrows the place that it is taken of, in its own kind, under a number that no loan
/// before it had.
pub proof fn references_are_borrows(checker: TypeChecker, place: HirExpr, kind: RefKind)
    ensures
        ({
            let after = checker.ref_registered(place, kind);
            match checker.resolved(place).1 {
                Some(found) => {
                    &&& after.steps() == checker.steps().push(
                        BorrowOp::Borrow {
                            loan: checker.loans.next_loan,
                            place: found,
                            kind,
                            blame: provenance_of(checker.program.graph, place),
                        },
                    )
                    &&& after.loans.next_loan != checker.loans.next_loan
                },
                None => after.steps() == checker.steps(),
            }
        }),
{
    reveal(TypeChecker::ref_registered);
    reveal_with_fuel(steps_of, 2);
    let level = level_of_ref(kind);
    let noted = checker.noted_expr(place, level);
    noting_changes_no_place(checker, place, level, place);
    resolving_asks_nothing(noted, place);
}

/// Noting a use in the closures around does not change which places expressions name.
proof fn noting_changes_no_place(
    checker: TypeChecker,
    used: HirExpr,
    level: UseLevel,
    expr: HirExpr,
)
    ensures
        checker.noted_expr(used, level).resolved(expr).1 == checker.resolved(expr).1,
{
    let noted = checker.noted_expr(used, level);
    frames_are_not_looked_at(checker, noted.closures, &expr);
    assert(noted == (TypeChecker { closures: noted.closures, ..checker }));
}

proof fn frames_bound_nothing(
    checker: TypeChecker,
    closures: ClosureState,
    expr: &HirExpr,
)
    ensures
        ({
            let other = TypeChecker { closures, ..checker };
            &&& other.bound_of(*expr).1 == checker.bound_of(*expr).1
            &&& other.bound_of(*expr).0 == (TypeChecker { closures, ..checker.bound_of(*expr).0 })
        }),
    decreases expr,
{
    match &expr.kind {
        ExprKind::Binary { left, right, .. } => {
            frames_bound_nothing(checker, closures, left);
            frames_bound_nothing(checker.bound_of(expr.left()).0, closures, right);
        },
        _ => {},
    }
}

proof fn frames_are_not_looked_at(
    checker: TypeChecker,
    closures: ClosureState,
    expr: &HirExpr,
)
    ensures
        ({
            let other = TypeChecker { closures, ..checker };
            &&& other.resolved(*expr).1 == checker.resolved(*expr).1
            &&& other.resolved(*expr).0 == (TypeChecker { closures, ..checker.resolved(*expr).0 })
        }),
    decreases expr,
{
    match &expr.kind {
        ExprKind::FieldAccess { object, .. } => frames_are_not_looked_at(checker, closures, object),
        ExprKind::Get { object, .. } => frames_are_not_looked_at(checker, closures, object),
        ExprKind::Deref { expr: inner, .. } => frames_are_not_looked_at(checker, closures, inner),
        ExprKind::Index { object, index, .. } => {
            frames_are_not_looked_at(checker, closures, object);
            frames_bound_nothing(checker.resolved(expr.object()).0, closures, index);
        },
        ExprKind::Binary { left, right, .. } => {
            frames_are_not_looked_at(checker, closures, left);
            frames_bound_nothing(checker.resolved(expr.left()).0, closures, right);
        },
        _ => {},
    }
}

/// The step by which a value leaves a local, or a field of it.
pub open spec fn move_step(root: StrId, field: Option<StrId>) -> BorrowOp {
    BorrowOp::Move {
        place: match field {
            Some(name) => Place::Field(Rc::new(Place::Local(root)), name),
            None => Place::Local(root),
        },
        blame: ProvenanceAnnotation {
            root: ProvenanceRoot::Var(root),
            path: match field {
                Some(name) => List::one_of(ProvenancePathSegment::Field(name)),
                None => Nil,
            },
        },
    }
}

/// The use of a local as a value reads its place. Where its type is not copied, the value moves out,
/// and the local counts as moved from there on; where it had been moved before, that is reported.
/// Where its type is copied, the local can be used again.
pub proof fn locals_move_when_used(checker: TypeChecker, expr: HirExpr, name: StrId, ty: HirType)
    requires
        expr.kind matches ExprKind::Ident(used, _) && used == name,
        !checker.diagnostics.suppress_errors,
    ensures
        ({
            let after = checker.value_used(expr, ty);
            let read = match checker.resolved(expr).1 {
                Some(place) => checker.steps().push(
                    BorrowOp::Use {
                        place,
                        kind: BorrowKind::Shared,
                        blame: provenance_of(checker.program.graph, expr),
                    },
                ),
                None => checker.steps(),
            };
            if checker.program.facts.copied(ty) {
                &&& after.flow == checker.flow
                &&& after.complaints() == checker.complaints()
                &&& after.steps() == read
            } else {
                &&& after.flow.moves.whole.has(name)
                &&& forall|other: StrId| other != name ==> after.flow.moves.whole.has(other)
                    == checker.flow.moves.whole.has(other)
                &&& after.flow.moves.fields == checker.flow.moves.fields
                &&& after.flow.inits == checker.flow.inits
                &&& after.flow.non_null == checker.flow.non_null
                &&& after.complaints() == if checker.flow.moves.whole.has(name)
                    || exists|field: StrId| checker.flow.moves.fields.has((name, field)) {
                    checker.complaints().push(
                        TypeError {
                            kind: TypeErrorKind::Generic(Message::MovedValue { root: name }),
                            span: checker.diagnostics.current_span,
                        },
                    )
                } else {
                    checker.complaints()
                }
                &&& after.steps() == if checker.loans.declared.has(name) {
                    read.push(move_step(name, None))
                } else {
                    read
                }
            }
        }),
{
    reveal(TypeChecker::value_used);
    reveal(TypeChecker::place_used);
    reveal_with_fuel(steps_of, 4);
    reveal_with_fuel(errors_of, 4);
    let noted = checker.noted_expr(expr, UseLevel::Read);
    noting_changes_no_place(checker, expr, UseLevel::Read, expr);
    resolving_asks_nothing(noted, expr);
    let seen = noted.place_used(expr, BorrowKind::Shared);
    assert(seen.complaints() == checker.complaints());
    errors_come_out_in_order(seen, TypeErrorKind::Generic(Message::MovedValue { root: name }));
    fields_of_a_root(checker.flow.moves.fields, name);
    let checked = seen.use_checked(name, None, ty);
    assert(checked.moved(name, None, ty, None).complaints() == checked.complaints());
    assert forall|other: StrId| true implies checked.flow.moves.with_whole(name).whole.has(other) == (
    checked.flow.moves.whole.has(other) || other == name) by {
        member_added(checked.flow.moves.whole, name, other);
    }
    assert(checked.moved(name, None, ty, None).flow == if checker.program.facts.copied(ty) {
        checker.flow
    } else {
        checked.with_moves(checked.flow.moves.with_whole(name)).flow
    });
}

proof fn fields_of_a_root(fields: List<(StrId, StrId)>, root: StrId)
    ensures
        any_field_of(fields, root) == exists|field: StrId|
            fields.has((root, field)),
    decreases fields,
{
    match fields {
        Nil => {},
        Cons(_, _) => {
            fields_of_a_root(fields.rest(), root);
            if fields.head().0 == root {
                assert(fields.has((root, fields.head().1)));
            }
            if exists|field: StrId| fields.rest().has((root, field)) {
                let field = choose|field: StrId| fields.rest().has((root, field));
                assert(fields.has((root, field)));
            }
            if exists|field: StrId| fields.has((root, field)) {
                let field = choose|field: StrId| fields.has((root, field));
                assert(fields.head() == (root, field) || fields.rest().has((root, field)));
            }
        },
    }
}

/// The use of a field of a local as a value moves the field out, where its type is not copied and the
/// struct has no destructor. A field that was moved before, alone or with its local, is reported.
pub proof fn fields_move_when_used(
    checker: TypeChecker,
    expr: HirExpr,
    root: StrId,
    field: StrId,
    ty: HirType,
)
    requires
        match expr.kind {
            ExprKind::FieldAccess { object, field: f, .. } | ExprKind::Get { object, field: f, .. } => f
                == field && (object.kind matches ExprKind::Ident(used, _) && used == root),
            _ => false,
        },
        !checker.diagnostics.suppress_errors,
        !checker.program.facts.copied(ty),
    ensures
        ({
            let after = checker.value_used(expr, ty);
            let gone = checker.flow.moves.whole.has(root) || checker.flow.moves.fields.has(
                (root, field),
            );
            let told = if gone {
                checker.complaints().push(
                    TypeError {
                        kind: TypeErrorKind::Generic(Message::MovedField { root, field }),
                        span: checker.diagnostics.current_span,
                    },
                )
            } else {
                checker.complaints()
            };
            let container = lookup(checker.context.variables, root);
            let whole = match container {
                Some((_, HirType::Struct { name, .. })) => checker.program.facts.drop_types.has(name),
                Some((_, HirType::Enum { name, .. })) => checker.program.facts.drop_types.has(name),
                _ => false,
            };
            &&& after.flow.moves.whole == checker.flow.moves.whole
            &&& if whole {
                &&& after.flow.moves == checker.flow.moves
                &&& after.complaints() == told.push(
                    TypeError {
                        kind: TypeErrorKind::Generic(
                            Message::PartialMoveOfDrop { container: (container->0).1 },
                        ),
                        span: checker.diagnostics.current_span,
                    },
                )
            } else {
                &&& after.flow.moves.fields.has((root, field))
                &&& after.complaints() == told
            }
        }),
{
    reveal(TypeChecker::value_used);
    reveal(TypeChecker::place_used);
    let noted = checker.noted_expr(expr, UseLevel::Read);
    resolving_asks_nothing(noted, expr);
    let seen = noted.place_used(expr, BorrowKind::Shared);
    reveal_with_fuel(errors_of, 2);
    assert(seen.complaints() == checker.complaints());
    assert(seen.context == checker.context);
    errors_come_out_in_order(seen, TypeErrorKind::Generic(Message::MovedField { root, field }));
    let checked = seen.use_checked(root, Some(field), ty);
    let container = seen.variable_type(root);
    member_added(checked.flow.moves.fields, (root, field), (root, field));
    let moved = checked.moved(root, Some(field), ty, container);
    let path = List::one_of(HirEffectSegment::Field(field));
    let told = checked.noted(root, path, UseLevel::Move);
    let asked = match checked.own_place(root) {
        Some(_) => told.asked(move_step(root, Some(field))),
        None => told,
    };
    assert(asked.complaints() == checked.complaints());
    errors_come_out_in_order(
        asked,
        TypeErrorKind::Generic(Message::PartialMoveOfDrop { container: container->0 }),
    );
}

proof fn joining_values_keeps_the_flow(
    checker: TypeChecker,
    result: Option<HirType>,
    types: List<HirType>,
)
    ensures
        checker.values_joined(result, types).0.flow == checker.flow,
    decreases types,
{
    reveal(TypeChecker::values_joined);
    match types {
        Nil => {},
        Cons(_, _) => {
            let ty = types.head();
            joining_values_keeps_the_flow(checker, result, types.rest());
            joining_values_keeps_the_flow(checker, Some(ty), types.rest());
            if let Some(expected) = result {
                joining_values_keeps_the_flow(
                    checker.recovered(checker.compatibility(expected, ty)),
                    result,
                    types.rest(),
                );
            }
        },
    }
}

/// The state in which the second branch of a conditional starts, given what the first left behind.
pub open spec fn second_branch_start(
    tested: TypeChecker,
    after_first: TypeChecker,
    cond: HirExpr,
) -> TypeChecker {
    after_first.with_context(tested.context).asked(BorrowOp::EndScope).with_moves(
        tested.flow.moves,
    ).with_non_null(tested.flow.non_null).assumed(cond, false)
}

proof fn assuming_keeps_moves(checker: TypeChecker, cond: HirExpr, holds: bool)
    ensures
        checker.assumed(cond, holds).flow.moves == checker.flow.moves,
{
    reveal(TypeChecker::assumed);
    reveal(TypeChecker::condition_fact);
    if let ExprKind::Comparison { .. } = cond.kind {
        bounding_keeps_rest(checker, cond.left());
        bounding_keeps_rest(checker.bound_of(cond.left()).0, cond.right());
    }
}

/// Behind a conditional, something is moved exactly where it was moved behind one of its branches.
/// Where there is no second branch, what was moved before stands in for it. Both branches start with
/// what was moved before.
pub proof fn conditionals_join_moves(
    checker: TypeChecker,
    stmt: HirStmt,
    cond: HirExpr,
    then_block: List<HirStmt>,
    else_block: Option<Rc<HirStmt>>,
    expected: Option<HirType>,
    root: StrId,
    field: StrId,
)
    requires
        stmt.kind matches StmtKind::If { cond: c, then_block: t, else_block: e, .. } && c == cond && t
            == then_block && e == else_block,
    ensures
        ({
            let tested = branch_start(checker, cond);
            let first = tested.asked(BorrowOp::BeginScope).assumed(cond, true);
            let behind_first = first.stmts_then_tail(then_block, expected).0;
            let second = second_branch_start(tested, behind_first, cond);
            let behind_second = match else_block {
                Some(block) => second.asked(BorrowOp::BeginScope).assumed(cond, false).tail_checked(
                    *block,
                    expected,
                ).0,
                None => tested,
            };
            let moves = checker.if_checked(stmt, expected).0.flow.moves;
            &&& first.flow.moves == tested.flow.moves
            &&& second.flow.moves == tested.flow.moves
            &&& moves.whole.has(root) == (behind_first.flow.moves.whole.has(root)
                || behind_second.flow.moves.whole.has(root))
            &&& moves.field_gone(root, field) == (behind_first.flow.moves.field_gone(root, field)
                || behind_second.flow.moves.field_gone(root, field))
            &&& moves.fields.has((root, field)) == (behind_first.flow.moves.fields.has(
                (root, field),
            ) || behind_second.flow.moves.fields.has((root, field)))
        }),
{
    reveal(TypeChecker::if_checked);
    let tested = branch_start(checker, cond);
    let begun = tested.asked(BorrowOp::BeginScope);
    assuming_keeps_moves(begun, cond, true);
    let (behind_first, then_ty) = begun.assumed(cond, true).stmts_then_tail(then_block, expected);
    let after_then = behind_first.with_context(tested.context).asked(BorrowOp::EndScope);
    let ready = after_then.with_moves(tested.flow.moves).with_non_null(tested.flow.non_null);
    assuming_keeps_moves(ready, cond, false);
    let restored = ready.assumed(cond, false);
    let (after_else, else_ty) = match else_block {
        Some(block) => {
            let (done, ty) = restored.asked(BorrowOp::BeginScope).assumed(
                cond,
                false,
            ).tail_checked(held(&block), expected);
            (done.with_context(restored.context).asked(BorrowOp::EndScope), Some(ty))
        },
        None => (restored, None),
    };
    let met = after_else.with_moves(
        after_then.flow.moves.joined(after_else.flow.moves),
    ).with_non_null(
        non_null_behind(
            after_then.flow.non_null,
            after_else.flow.non_null,
            then_ty,
            else_ty,
        ),
    );
    join_is_union(after_then.flow.moves, after_else.flow.moves, root, field);
    merged_has(after_then.flow.moves.fields, after_else.flow.moves.fields, (root, field));
    if let Some(ty) = else_ty {
        joining_values_keeps_the_flow(met, None, List::cons_of(then_ty, List::one_of(ty)));
    }
}

} // verus!
