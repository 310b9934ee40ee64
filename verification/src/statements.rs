//! What statements declare, end and demand.

use std::rc::Rc;

use vstd::prelude::*;

use crate::accesses::recording_reports;
use crate::borrow::BorrowOp;
use crate::borrowck::{kept_calls, resolving_keeps_rest};
use crate::check_flow::{let_names, non_null_behind, owned_elsewhere};
use crate::errors::{Message, TypeError, TypeErrorKind};
use crate::hir::{ExprKind, HirExpr, HirStmt, HirType, SourceSpan, StmtKind, StrId};
use crate::init_nodes::{complete, untouched};
use crate::list::{
    has_key, held, lookup, member_added, remove_then_lookup, update_then_lookup, with_member, Cons,
    List, Nil, Table,
};
use crate::nullables::{join_known_on_both, one_entry_each};
use crate::ref_effects::field_path;
use crate::steps::steps_of;
use crate::type_checker::{errors_of, NonNullState, TypeChecker};
use crate::type_context::{list_at, without, LocalSymbolId, SymbolId, TypeContext};

verus! {

/// Leaving a loop is reported outside of loops and nowhere else.
pub proof fn breaks_need_a_loop(checker: TypeChecker, stmt: HirStmt, span: SourceSpan)
    requires
        !checker.diagnostics.suppress_errors,
        stmt.kind == StmtKind::Break(None, span),
    ensures
        ({
            let after = checker.break_checked(stmt);
            &&& after.steps() == checker.steps()
            &&& after.flow == checker.flow
            &&& after.complaints() == if checker.context.in_loop {
                checker.complaints()
            } else {
                checker.complaints().push(
                    TypeError {
                        kind: TypeErrorKind::BreakOutsideLoop,
                        span: checker.diagnostics.current_span,
                    },
                )
            }
        }),
{
    reveal(TypeChecker::break_checked);
    recording_reports(checker, TypeErrorKind::BreakOutsideLoop);
}

/// Going on with a loop is reported outside of loops and nowhere else.
pub proof fn continues_need_a_loop(checker: TypeChecker, stmt: HirStmt, span: SourceSpan)
    requires
        !checker.diagnostics.suppress_errors,
        stmt.kind == StmtKind::Continue(span),
    ensures
        ({
            let (after, ty) = checker.stmt_checked(stmt);
            &&& ty == Some(HirType::Never)
            &&& after.steps() == checker.steps()
            &&& after.flow == checker.flow
            &&& after.complaints() == if checker.context.in_loop {
                checker.complaints()
            } else {
                checker.complaints().push(
                    TypeError { kind: TypeErrorKind::ContinueOutsideLoop, span },
                )
            }
        }),
{
    reveal(TypeChecker::at_span);
    let here = TypeChecker { points: checker.points.moved_to(stmt), ..checker }.at_span(span);
    assert(checker.stmt_checked(stmt) == (
        if here.context.in_loop {
            here
        } else {
            here.recorded(TypeErrorKind::ContinueOutsideLoop)
        },
        Some(HirType::Never),
    )) by {
        reveal(TypeChecker::stmt_checked);
    }
    recording_reports(here, TypeErrorKind::ContinueOutsideLoop);
}

/// A return without a value is for functions that return nothing.
pub proof fn empty_returns_are_of_void(checker: TypeChecker, stmt: HirStmt, span: SourceSpan)
    requires
        !checker.diagnostics.suppress_errors,
        stmt.kind == StmtKind::Return(None, span),
    ensures
        ({
            let after = checker.return_checked(stmt);
            &&& after.steps() == checker.steps()
            &&& after.flow == checker.flow
            &&& after.complaints() == match checker.context.current_return_type {
                None | Some(HirType::Void) => checker.complaints(),
                Some(expected) => checker.complaints().push(
                    TypeError {
                        kind: TypeErrorKind::InvalidReturnType { expected },
                        span: checker.diagnostics.current_span,
                    },
                ),
            }
        }),
{
    reveal(TypeChecker::return_checked);
    if let Some(expected) = checker.context.current_return_type {
        recording_reports(checker, TypeErrorKind::InvalidReturnType { expected });
    }
}

/// A local that is used up, and is not copied, is gone.
pub proof fn used_up_is_gone(checker: TypeChecker, expr: HirExpr, name: StrId, ty: HirType)
    requires
        expr.kind matches ExprKind::Ident(used, _) && used == name,
        !checker.program.facts.copied(ty),
    ensures
        checker.value_used(expr, ty).flow.moves.whole.has(name),
{
    reveal(TypeChecker::value_used);
    reveal(TypeChecker::place_used);
    let noted = checker.noted_expr(expr, crate::closures::UseLevel::Read);
    resolving_keeps_rest(noted, expr);
    let seen = noted.place_used(expr, crate::borrow::BorrowKind::Shared);
    let checked = seen.use_checked(name, None, ty);
    member_added(checked.flow.moves.whole, name, name);
}

/// What is returned leaves the function: a local that is not copied is gone behind the return.
pub proof fn returned_locals_are_gone(
    checker: TypeChecker,
    stmt: HirStmt,
    value: HirExpr,
    name: StrId,
    expected: HirType,
)
    requires
        stmt.kind matches StmtKind::Return(Some(returned), _) && *returned == value,
        value.kind matches ExprKind::Ident(used, _) && used == name,
        checker.context.current_return_type == Some(expected),
        !checker.expected(value, expected).0.program.facts.copied(
            checker.expected(value, expected).1,
        ),
    ensures
        checker.return_checked(stmt).flow.moves.whole.has(name),
{
    let (after, ty) = checker.expected(value, expected);
    used_up_is_gone(after, value, name, ty);
    reveal(TypeChecker::return_checked);
    reveal(TypeChecker::fitted);
}

/// What a local is bound to leaves the local it was in.
pub proof fn bound_values_are_gone(
    checker: TypeChecker,
    stmt: HirStmt,
    local: StrId,
    ty: HirType,
    value: HirExpr,
    name: StrId,
)
    requires
        stmt.kind matches StmtKind::Let { name: n, ty: t, value: v, else_block, .. } && n == local
            && t == ty && v == value && else_block is None,
        value.kind matches ExprKind::Ident(used, _) && used == name,
        !has_key(checker.context.variables, local),
        !checker.expected(value, ty).0.program.facts.copied(checker.expected(value, ty).1),
    ensures
        checker.let_checked(stmt).flow.moves.whole.has(name),
{
    if let StmtKind::Let { mutable, span, .. } = stmt.kind {
        let (after, value_ty) = checker.expected(value, ty);
        used_up_is_gone(after, value, name, value_ty);
        let used = after.value_used(value, value_ty).fitted(Some(ty), value_ty);
        assert(used.flow == after.value_used(value, value_ty).flow) by {
            reveal(TypeChecker::fitted);
        }
        lets_declare(used, local, ty, value, mutable, span, local);
        assert(checker.let_checked(stmt) == used.let_bound(local, ty, value, mutable, span)) by {
            reveal(TypeChecker::let_checked);
        }
    }
}

proof fn left_fields_change_inits_only(
    checker: TypeChecker,
    name: StrId,
    inits: List<crate::hir::HirFieldInit>,
)
    ensures
        ({
            let after = checker.fields_left_uninit(name, inits);
            after == (TypeChecker { flow: after.flow, ..checker }) && after.flow == (
            crate::type_checker::FlowState { inits: after.flow.inits, ..checker.flow })
        }),
    decreases inits,
{
    match inits {
        Nil => {},
        Cons(_, _) => {
            let marked = if inits.head().value.kind is Uninit {
                checker.field_unmarked(name, List::one_of(inits.head().name))
            } else {
                checker
            };
            left_fields_change_inits_only(marked, name, inits.rest());
        },
    }
}

proof fn without_leaves_the_rest<T>(list: List<T>, member: T, other: T)
    ensures
        without(list, member).has(other) == (list.has(other) && other != member),
    decreases list,
{
    match list {
        Nil => {},
        Cons(_, _) => without_leaves_the_rest(list.rest(), member, other),
    }
}

proof fn owning_changes_owners_only(checker: TypeChecker, loans: List<usize>, name: StrId)
    ensures
        ({
            let after = checker.all_owned(loans, name);
            after == (TypeChecker {
                loans: crate::type_checker::LoanTables {
                    owners: after.loans.owners,
                    ..checker.loans
                },
                ..checker
            })
        }),
    decreases loans,
{
    match loans {
        Nil => {},
        Cons(_, _) => {
            owning_changes_owners_only(checker.owned(loans.head(), name), loans.rest(), name);
        },
    }
}

/// The checker with a local declared, before anything is known of its value.
pub open spec fn after_declaration(
    checker: TypeChecker,
    name: StrId,
    ty: HirType,
    value: HirExpr,
    mutable: bool,
    span: SourceSpan,
) -> TypeChecker {
    let marked = if checker.dangles(value) {
        checker.with_context(
            TypeContext {
                dangling_locals: with_member(checker.context.dangling_locals, name),
                ..checker.context
            },
        )
    } else {
        checker
    };
    let (minted, symbol) = marked.minted();
    minted.with_context(
        minted.context.with_let_variable(name, ty, mutable, symbol),
    ).declared_local(name).occurred(span, name, ty, symbol, true)
}

proof fn declaring_adds_a_name(
    checker: TypeChecker,
    name: StrId,
    ty: HirType,
    value: HirExpr,
    mutable: bool,
    span: SourceSpan,
    other: StrId,
)
    ensures
        ({
            let after = after_declaration(checker, name, ty, value, mutable, span);
            &&& lookup(after.context.variables, other) == if other == name {
                Some((SymbolId::Local(LocalSymbolId(checker.next_symbol_id)), ty))
            } else {
                lookup(checker.context.variables, other)
            }
            &&& after.context.mutable_variables.has(other) == if other == name {
                mutable
            } else {
                checker.context.mutable_variables.has(other)
            }
            &&& after.context.dangling_locals.has(other) == (checker.context.dangling_locals.has(
                other,
            ) || other == name && checker.dangles(value))
            &&& after.loans.declared.has(other) == (checker.loans.declared.has(other) || other
                == name)
        }),
{
    let symbol = SymbolId::Local(LocalSymbolId(checker.next_symbol_id));
    update_then_lookup(checker.context.variables, name, (symbol, ty), other);
    member_added(checker.context.mutable_variables, name, other);
    without_leaves_the_rest(checker.context.mutable_variables, name, other);
    member_added(checker.context.dangling_locals, name, other);
    member_added(checker.loans.declared, name, other);
}

proof fn declaring_asks_once(
    checker: TypeChecker,
    name: StrId,
    ty: HirType,
    value: HirExpr,
    mutable: bool,
    span: SourceSpan,
)
    ensures
        ({
            let after = after_declaration(checker, name, ty, value, mutable, span);
            &&& after.steps() == checker.steps().push(BorrowOp::Declare(name))
            &&& after.complaints() == checker.complaints()
            &&& after.flow == checker.flow
            &&& after.modes == checker.modes
        }),
{
    reveal_with_fuel(steps_of, 2);
    reveal_with_fuel(errors_of, 2);
}

proof fn initializing_a_let(checker: TypeChecker, name: StrId, value: HirExpr)
    ensures
        ({
            let after = checker.let_initialized(name, value);
            &&& after == (TypeChecker { flow: after.flow, ..checker })
            &&& after.flow.moves == checker.flow.moves
            &&& after.flow.non_null == checker.flow.non_null
            &&& value.kind is Uninit ==> lookup(after.flow.inits, name) == Some(untouched())
            &&& !(value.kind is Uninit) && !(value.kind is StructInit) ==> lookup(
                after.flow.inits,
                name,
            ) == Some(complete())
        }),
{
    update_then_lookup(checker.flow.inits, name, complete(), name);
    update_then_lookup(checker.flow.inits, name, untouched(), name);
    if let ExprKind::StructInit { args, .. } = value.kind {
        left_fields_change_inits_only(checker.with_init_node(name, complete()), name, args);
    }
}

proof fn pointing_changes_loans_only(checker: TypeChecker, name: StrId, ty: HirType, value: HirExpr)
    ensures
        ({
            let after = checker.pointee_recorded(name, ty, value);
            &&& after == (TypeChecker { loans: after.loans, ..checker })
            &&& after.loans.declared == checker.loans.declared
        }),
{
    resolving_keeps_rest(checker, value);
}

/// A local is declared with its type, under a symbol of its own; it can be written to exactly where
/// it was declared so, and has a value unless it was left without. Nothing is said, no other local
/// changes, and nothing is moved.
pub proof fn lets_declare(
    checker: TypeChecker,
    name: StrId,
    ty: HirType,
    value: HirExpr,
    mutable: bool,
    span: SourceSpan,
    other: StrId,
)
    ensures
        ({
            let after = checker.let_bound(name, ty, value, mutable, span);
            &&& lookup(after.context.variables, other) == if other == name {
                Some((SymbolId::Local(LocalSymbolId(checker.next_symbol_id)), ty))
            } else {
                lookup(checker.context.variables, other)
            }
            &&& after.context.mutable_variables.has(other) == if other == name {
                mutable
            } else {
                checker.context.mutable_variables.has(other)
            }
            &&& after.context.dangling_locals.has(other) == (checker.context.dangling_locals.has(
                other,
            ) || other == name && checker.dangles(value))
            &&& after.loans.declared.has(other) == (checker.loans.declared.has(other) || other
                == name)
            &&& value.kind is Uninit ==> lookup(after.flow.inits, name) == Some(untouched())
            &&& !(value.kind is Uninit) && !(value.kind is StructInit) ==> lookup(
                after.flow.inits,
                name,
            ) == Some(complete())
            &&& after.flow.moves == checker.flow.moves
            &&& after.flow.non_null == checker.flow.non_null
            &&& after.complaints() == checker.complaints()
            &&& checker.steps().push(BorrowOp::Declare(name)).is_prefix_of(after.steps())
        }),
{
    let declared = after_declaration(checker, name, ty, value, mutable, span);
    let started = declared.let_initialized(name, value);
    let pointed = started.pointee_recorded(name, ty, value);
    assert(checker.let_bound(name, ty, value, mutable, span) == pointed.let_loans(name, value)) by {
        reveal(TypeChecker::let_bound);
    }
    declaring_adds_a_name(checker, name, ty, value, mutable, span, other);
    declaring_asks_once(checker, name, ty, value, mutable, span);
    initializing_a_let(declared, name, value);
    pointing_changes_loans_only(started, name, ty, value);
    loans_are_given(pointed, name, value);
}

proof fn loans_are_given(checker: TypeChecker, name: StrId, value: HirExpr)
    ensures
        ({
            let after = checker.let_loans(name, value);
            &&& after.context == checker.context
            &&& after.flow == checker.flow
            &&& after.modes == checker.modes
            &&& after.loans.declared == checker.loans.declared
            &&& after.complaints() == checker.complaints()
            &&& checker.steps().is_prefix_of(after.steps())
        }),
{
    reveal_with_fuel(steps_of, 3);
    reveal_with_fuel(errors_of, 3);
    let captured = match lookup(checker.loans.closures, value.key) {
        Some(loans) => {
            let taken = TypeChecker {
                loans: crate::type_checker::LoanTables {
                    closures: crate::list::removed(checker.loans.closures, value.key),
                    ..checker.loans
                },
                ..checker
            };
            owning_changes_owners_only(taken, loans, name);
            taken.all_owned(loans, name)
        },
        None => checker,
    };
    if let ExprKind::Ref { expr: target, .. } = value.kind {
        resolving_keeps_rest(captured, held(&target));
        if let Some(source) = captured.resolved(held(&target)).1 {
            let after = captured.resolved(held(&target)).0.remembered(name, source);
            assert(after.steps() == checker.steps().push(
                BorrowOp::Remember { slot: captured.loans.next_slot, place: source },
            ));
            assert(after.loan_found(source).0.steps() == after.steps().push(
                BorrowOp::FindLoan { loan: after.loans.next_loan, place: source },
            ));
        }
    }
}

/// A local that is bound to a reference holds the loan of it, and stands for the place referred to.
pub proof fn references_hold_their_loan(
    checker: TypeChecker,
    name: StrId,
    value: HirExpr,
    target: HirExpr,
)
    requires
        value.kind matches ExprKind::Ref { expr, .. } && *expr == target,
        !has_key(checker.loans.closures, value.key),
        !has_key(checker.loans.calls, value.key),
    ensures
        match checker.resolved(target).1 {
            Some(place) => {
                let after = checker.let_loans(name, value);
                &&& after.steps() == checker.steps().push(
                    BorrowOp::Remember { slot: checker.loans.next_slot, place },
                ).push(BorrowOp::FindLoan { loan: checker.loans.next_loan, place })
                &&& lookup(after.loans.owners, checker.loans.next_loan) == Some(name)
                &&& lookup(after.loans.slots, name) == Some(checker.loans.next_slot)
            },
            None => true,
        },
{
    reveal_with_fuel(steps_of, 3);
    resolving_keeps_rest(checker, target);
    if let Some(place) = checker.resolved(target).1 {
        update_then_lookup(checker.loans.owners, checker.loans.next_loan, name, checker.loans.next_loan);
        update_then_lookup(checker.loans.slots, name, checker.loans.next_slot, name);
    }
}

/// Whether a statement is a let of a name.
pub open spec fn binds(stmt: HirStmt, name: StrId) -> bool {
    match stmt.kind {
        StmtKind::Let { name: local, .. } => local == name,
        _ => false,
    }
}

/// The names that a block declares are those of its own lets.
pub proof fn blocks_declare_their_lets(stmts: List<HirStmt>, name: StrId)
    ensures
        let_names(stmts).has(name) == exists|i: int|
            0 <= i < stmts.seq().len() && binds(#[trigger] stmts.seq()[i], name),
    decreases stmts,
{
    match stmts {
        Nil => {},
        Cons(_, _) => {
            blocks_declare_their_lets(stmts.rest(), name);
            let all = stmts.seq();
            let later = stmts.rest().seq();
            assert(all == seq![stmts.head()] + later);
            if binds(stmts.head(), name) {
                assert(binds(all[0], name));
            }
            if let_names(stmts.rest()).has(name) {
                let i = choose|i: int| 0 <= i < later.len() && binds(#[trigger] later[i], name);
                assert(binds(all[i + 1], name));
            }
            if exists|i: int| 0 <= i < all.len() && binds(#[trigger] all[i], name) {
                let i = choose|i: int| 0 <= i < all.len() && binds(#[trigger] all[i], name);
                if i > 0 {
                    assert(binds(later[i - 1], name));
                }
            }
        },
    }
}

proof fn owners_that_stay(owners: Table<usize, StrId>, names: List<StrId>, entry: (usize, StrId))
    ensures
        owned_elsewhere(owners, names).has(entry) == (owners.has(entry) && !names.has(entry.1)),
    decreases owners,
{
    match owners {
        Nil => {},
        Cons(_, _) => owners_that_stay(owners.rest(), names, entry),
    }
}

proof fn forgetting_touches_slots_only(checker: TypeChecker, names: List<StrId>)
    ensures
        ({
            let after = checker.names_forgotten(names);
            after == (TypeChecker {
                loans: crate::type_checker::LoanTables {
                    slots: after.loans.slots,
                    ref_kinds: after.loans.ref_kinds,
                    ..checker.loans
                },
                ..checker
            })
        }),
    decreases names,
{
    match names {
        Nil => {},
        Cons(_, _) => {
            forgetting_touches_slots_only(checker.forgot(names.head()), names.rest());
        },
    }
}

proof fn forgotten_have_no_slot(checker: TypeChecker, names: List<StrId>, name: StrId)
    requires
        names.has(name) || lookup(checker.loans.slots, name) is None,
    ensures
        lookup(checker.names_forgotten(names).loans.slots, name) is None,
    decreases names,
{
    match names {
        Nil => {},
        Cons(_, _) => {
            remove_then_lookup(checker.loans.slots, names.head(), name);
            forgotten_have_no_slot(checker.forgot(names.head()), names.rest(), name);
        },
    }
}

/// Behind a block, the names in scope are those from before it, and no loan is held by a local of
/// the block.
pub proof fn blocks_end_their_scope(
    checker: TypeChecker,
    body: List<HirStmt>,
    tail: bool,
    expected: Option<HirType>,
)
    ensures
        ({
            let after = checker.block_checked(body, tail, expected).0;
            &&& after.context == checker.context
            &&& after.steps().len() > 0
            &&& after.steps().last() == BorrowOp::EndScope
            &&& forall|loan: usize, name: StrId| #[trigger]
                after.loans.owners.has((loan, name)) ==> !let_names(body).has(name)
            &&& forall|name: StrId| #[trigger]
                let_names(body).has(name) ==> lookup(after.loans.slots, name) is None
        }),
{
    reveal(TypeChecker::block_checked);
    reveal(TypeChecker::locals_left);
    reveal_with_fuel(steps_of, 2);
    let names = let_names(body);
    let (done, _) = checker.asked(BorrowOp::BeginScope).block_rest(body, tail, expected, names, None);
    let left = done.with_context(checker.context).asked(BorrowOp::EndScope);
    let held_on = TypeChecker {
        loans: crate::type_checker::LoanTables {
            owners: owned_elsewhere(left.loans.owners, names),
            ..left.loans
        },
        ..left
    };
    forgetting_touches_slots_only(held_on, names);
    assert forall|name: StrId| names.has(name) implies lookup(
        held_on.names_forgotten(names).loans.slots,
        name,
    ) is None by {
        forgotten_have_no_slot(held_on, names, name);
    }
    assert forall|loan: usize, name: StrId| owned_elsewhere(left.loans.owners, names).has(
        (loan, name),
    ) implies !names.has(name) by {
        owners_that_stay(left.loans.owners, names, (loan, name));
    }
}

/// Loans end behind the last use of the local that holds them: those of a block's own locals that
/// nothing later mentions, and no others.
pub proof fn dead_loans_are_of_dead_locals(
    checker: TypeChecker,
    owners: Table<usize, StrId>,
    names: List<StrId>,
    behind: Option<usize>,
    rest: List<HirStmt>,
    loan: usize,
)
    ensures
        checker.dead_loans(owners, names, behind, rest).has(loan) == exists|name: StrId|
            #[trigger] owners.has((loan, name)) && names.has(name) && match behind {
                Some(point) => !checker.points.used_from(point, name),
                None => !crate::liveness::stmts_mention(rest, name),
            },
    decreases owners,
{
    let dead = |name: StrId|
        names.has(name) && match behind {
            Some(point) => !checker.points.used_from(point, name),
            None => !crate::liveness::stmts_mention(rest, name),
        };
    match owners {
        Nil => {},
        Cons(_, _) => {
            dead_loans_are_of_dead_locals(checker, owners.rest(), names, behind, rest, loan);
            let entry = owners.head();
            if entry.0 == loan && dead(entry.1) {
                assert(owners.has((loan, entry.1)));
            }
            if checker.dead_loans(owners.rest(), names, behind, rest).has(loan) {
                let name = choose|name: StrId| #[trigger]
                    owners.rest().has((loan, name)) && dead(name);
                assert(owners.has((loan, name)));
            }
            if exists|name: StrId| #[trigger] owners.has((loan, name)) && dead(name) {
                let name = choose|name: StrId| #[trigger] owners.has((loan, name)) && dead(name);
                assert(entry == (loan, name) || owners.rest().has((loan, name)));
            }
        },
    }
}

/// Ending loans asks for the end of each, in turn, and for nothing else.
pub proof fn dropped_loans_end(checker: TypeChecker, loans: List<usize>)
    ensures
        checker.loans_dropped(loans).steps() == checker.steps() + loans.seq().map_values(
            |loan: usize| BorrowOp::EndLoan(loan),
        ),
        checker.loans_dropped(loans).complaints() == checker.complaints(),
        checker.loans_dropped(loans).flow == checker.flow,
    decreases loans,
{
    let end = |loan: usize| BorrowOp::EndLoan(loan);
    match loans {
        Nil => {
            assert(checker.steps() + Seq::<usize>::empty().map_values(end) == checker.steps());
        },
        Cons(_, _) => {
            reveal_with_fuel(steps_of, 2);
            reveal_with_fuel(errors_of, 2);
            let asked = checker.asked(BorrowOp::EndLoan(loans.head()));
            let next = TypeChecker {
                loans: crate::type_checker::LoanTables {
                    owners: crate::list::removed(asked.loans.owners, loans.head()),
                    ..asked.loans
                },
                ..asked
            };
            dropped_loans_end(next, loans.rest());
            assert(next.steps() == checker.steps().push(BorrowOp::EndLoan(loans.head())));
            assert(loans.seq() == seq![loans.head()] + loans.rest().seq());
            assert(loans.seq().map_values(end) == seq![end(loans.head())]
                + loans.rest().seq().map_values(end));
            assert(checker.steps().push(end(loans.head())) + loans.rest().seq().map_values(end)
                == checker.steps() + loans.seq().map_values(end));
        },
    }
}

/// The loan of a call ends with the statement that it was made in: of the calls, those from before
/// stay.
pub proof fn calls_from_before_stay(
    calls: Table<usize, usize>,
    before: List<usize>,
    entry: (usize, usize),
)
    ensures
        kept_calls(calls, before).has(entry) == (calls.has(entry) && before.has(entry.0)),
    decreases calls,
{
    match calls {
        Nil => {},
        Cons(_, _) => calls_from_before_stay(calls.rest(), before, entry),
    }
}

/// The loan of every call that was not there before is ended.
pub proof fn new_calls_end(
    checker: TypeChecker,
    calls: Table<usize, usize>,
    before: List<usize>,
    entry: (usize, usize),
)
    requires
        calls.has(entry),
        !before.has(entry.0),
    ensures
        checker.new_calls_ended(calls, before).steps().contains(BorrowOp::EndLoan(entry.1)),
    decreases calls,
{
    reveal_with_fuel(steps_of, 2);
    match calls {
        Nil => {},
        Cons(_, _) => {
            let head = calls.head();
            let next = if before.has(head.0) {
                checker
            } else {
                checker.asked(BorrowOp::EndLoan(head.1))
            };
            if head == entry {
                assert(next.steps().last() == BorrowOp::EndLoan(entry.1));
                ending_calls_adds(next, calls.rest(), before);
                let all = next.new_calls_ended(calls.rest(), before).steps();
                assert(all[next.steps().len() - 1] == BorrowOp::EndLoan(entry.1));
            } else {
                new_calls_end(next, calls.rest(), before, entry);
            }
        },
    }
}

proof fn ending_calls_adds(checker: TypeChecker, calls: Table<usize, usize>, before: List<usize>)
    ensures
        checker.steps().is_prefix_of(checker.new_calls_ended(calls, before).steps()),
    decreases calls,
{
    reveal_with_fuel(steps_of, 2);
    match calls {
        Nil => {},
        Cons(_, _) => {
            let head = calls.head();
            let next = if before.has(head.0) {
                checker
            } else {
                checker.asked(BorrowOp::EndLoan(head.1))
            };
            ending_calls_adds(next, calls.rest(), before);
        },
    }
}

/// What is compared with null, and is not null, is known to have a value where the comparison says
/// so, and only there is anything learned.
pub proof fn comparisons_with_null_narrow(
    checker: TypeChecker,
    cond: HirExpr,
    place: HirExpr,
    root: StrId,
    path: List<StrId>,
    holds: bool,
)
    requires
        cond.kind matches ExprKind::Comparison { left, op, right, .. } && (op is Equals
            || op is NotEquals) && (*left == place && right.kind is Null && !(left.kind is Null)
            || *right == place && left.kind is Null && !(right.kind is Null)),
        field_path(place) == Some((root, path)),
    ensures
        ({
            let after = checker.assumed(cond, holds);
            let differs = cond.kind matches ExprKind::Comparison { op, .. } && op is NotEquals;
            &&& differs == holds ==> after.known_non_null(root, path)
            &&& differs != holds ==> after.flow.non_null == checker.flow.non_null
        }),
{
    reveal(TypeChecker::assumed);
    reveal(TypeChecker::condition_fact);
    if let ExprKind::Comparison { .. } = cond.kind {
        crate::borrowck::bounding_keeps_rest(checker, cond.left());
        crate::borrowck::bounding_keeps_rest(checker.bound_of(cond.left()).0, cond.right());
    }
    let paths = list_at(checker.flow.non_null, root);
    member_added(paths, path, path);
    update_then_lookup(
        checker.flow.non_null,
        root,
        with_member(paths, path),
        root,
    );
}

/// Behind a conditional, something is known to have a value where it is known so behind every branch
/// that comes to its end.
pub proof fn conditionals_keep_what_is_known(
    after_then: NonNullState,
    after_else: NonNullState,
    then_ty: HirType,
    else_ty: Option<HirType>,
    root: StrId,
    path: List<StrId>,
)
    requires
        one_entry_each(after_then),
        !(then_ty is Never && else_ty == Some(HirType::Never)),
    ensures
        list_at(non_null_behind(after_then, after_else, then_ty, else_ty), root).has(path) == ((
        then_ty is Never || list_at(after_then, root).has(path)) && (else_ty == Some(
            HirType::Never,
        ) || list_at(after_else, root).has(path))),
{
    join_known_on_both(after_then, after_else, root, path);
}

/// A condition is a boolean.
pub proof fn conditions_are_boolean(checker: TypeChecker, ty: HirType)
    requires
        !checker.diagnostics.suppress_errors,
    ensures
        ty is Boolean ==> checker.boolean_checked(ty) == checker,
        !(ty is Boolean) ==> checker.reports(
            TypeErrorKind::TypeMismatch {
                expected: crate::errors::TypeText::Bool,
                found: crate::errors::TypeText::Type(ty),
            },
            checker.boolean_checked(ty),
        ),
{
    recording_reports(
        checker,
        TypeErrorKind::TypeMismatch {
            expected: crate::errors::TypeText::Bool,
            found: crate::errors::TypeText::Type(ty),
        },
    );
}

/// A constant is declared with its type; one of a name that is taken is reported.
pub proof fn constants_declare(checker: TypeChecker, name: StrId, ty: HirType, other: StrId)
    requires
        !checker.diagnostics.suppress_errors,
    ensures
        ({
            let after = checker.const_bound(name, ty);
            &&& lookup(after.context.variables, name) == Some(
                (SymbolId::Local(LocalSymbolId(checker.next_symbol_id)), ty),
            )
            &&& other != name ==> lookup(after.context.variables, other) == lookup(
                checker.context.variables,
                other,
            )
            &&& after.context.mutable_variables == checker.context.mutable_variables
            &&& after.flow == checker.flow
            &&& after.complaints() == if has_key(checker.context.variables, name) {
                checker.complaints().push(
                    TypeError {
                        kind: TypeErrorKind::VariableAlreadyExists { var_name: name },
                        span: checker.diagnostics.current_span,
                    },
                )
            } else {
                checker.complaints()
            }
        }),
{
    reveal(TypeChecker::const_bound);
    recording_reports(checker, TypeErrorKind::VariableAlreadyExists { var_name: name });
    let symbol = SymbolId::Local(LocalSymbolId(checker.next_symbol_id));
    update_then_lookup(checker.context.variables, name, (symbol, ty), other);
    update_then_lookup(checker.context.variables, name, (symbol, ty), name);
}

/// A reference to a local, or a local that such a reference was put into, is not to be returned.
pub proof fn references_to_locals_do_not_leave(checker: TypeChecker, expr: HirExpr, root: StrId)
    requires
        match expr.kind {
            ExprKind::Ref { expr: inner, .. } => inner.kind matches ExprKind::Ident(name, _) && name
                == root && match lookup(checker.context.variables, root) {
                Some((_, ty)) => !checker.program.facts.points(ty),
                None => false,
            },
            ExprKind::Ident(name, _) => name == root && checker.context.dangling_locals.has(root),
            _ => false,
        },
    ensures
        checker.dangling_result(expr) == Err::<(), TypeError>(
            TypeError {
                kind: TypeErrorKind::Generic(
                    if expr.kind is Ref {
                        Message::PointerToLocal { name: root }
                    } else {
                        Message::ReturnsDangling { name: root }
                    },
                ),
                span: checker.diagnostics.current_span,
            },
        ),
{
    reveal(TypeChecker::dangling_result);
}

} // verus!
