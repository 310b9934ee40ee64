//! What a call demands of its receiver and its arguments.

use vstd::prelude::*;

use crate::accesses::recording_reports;
use crate::borrow::{BorrowKind, BorrowOp};
use crate::borrowck::resolving_keeps_rest;
use crate::check_calls::Passing;
use crate::check_intrinsics::power_of_two;
use crate::errors::{Message, TypeError, TypeErrorKind};
use crate::hir::{ExprKind, HirExpr, HirParam, HirType, IntrinsicKind, StrId, ThisPassingKind, Word};
use crate::list::{lookup, Cons, List, Nil};
use crate::ref_provenance::provenance_of;
use crate::references::root_local;
use crate::statements::used_up_is_gone;
use crate::steps::steps_of;
use crate::type_checker::{errors_of, TypeChecker};

verus! {

/// A receiver that a method changes must be a mutable local, as far as it is one.
pub proof fn changed_receivers_are_mutable(checker: TypeChecker, receiver: HirExpr, method: StrId)
    ensures
        match root_local(receiver) {
            Some(root) => if checker.context.mutable_variables.has(root) {
                checker.receiver_result(receiver, method) is Ok
            } else {
                checker.receiver_result(receiver, method) == Err::<(), TypeError>(
                    TypeError {
                        kind: TypeErrorKind::Generic(Message::ReceiverNotMut { method, root }),
                        span: checker.diagnostics.current_span,
                    },
                )
            },
            None => checker.receiver_result(receiver, method) is Ok,
        },
{
    reveal(TypeChecker::receiver_result);
}

proof fn using_a_place_asks_once(checker: TypeChecker, expr: HirExpr, kind: BorrowKind)
    ensures
        checker.place_used(expr, kind).steps() == match checker.resolved(expr).1 {
            Some(place) => checker.steps().push(
                BorrowOp::Use { place, kind, blame: provenance_of(checker.program.graph, expr) },
            ),
            None => checker.steps(),
        },
        checker.place_used(expr, kind).complaints() == checker.complaints(),
        checker.place_used(expr, kind).flow == checker.flow,
{
    reveal(TypeChecker::place_used);
    reveal_with_fuel(steps_of, 2);
    reveal_with_fuel(errors_of, 2);
    resolving_keeps_rest(checker, expr);
}

/// A receiver that is passed by reference is used at its place: as one that changes where the method
/// may change it, and as one that is shared where not.
pub proof fn receivers_are_used_as_declared(
    checker: TypeChecker,
    object: HirExpr,
    object_ty: HirType,
    method: StrId,
    params: List<HirParam>,
)
    requires
        !checker.diagnostics.suppress_errors,
        match params {
            Cons(first, _) => *first matches HirParam::This { kind, .. } && !(kind is Move) && !(
            kind is MoveMut) && !(kind is MultiPlace),
            Nil => false,
        },
    ensures
        ({
            let after = checker.interface_receiver(object, object_ty, method, params);
            let changed = params.head() matches HirParam::This { kind, .. } && (kind is RefMut
                || kind is MutSafePtr);
            let fixed = root_local(object) matches Some(root)
                && !checker.context.mutable_variables.has(root);
            &&& after.flow == checker.flow
            &&& after.steps() == match checker.resolved(object).1 {
                Some(place) => checker.steps().push(
                    BorrowOp::Use {
                        place,
                        kind: if changed {
                            BorrowKind::Mutable
                        } else {
                            BorrowKind::Shared
                        },
                        blame: provenance_of(checker.program.graph, object),
                    },
                ),
                None => checker.steps(),
            }
            &&& after.complaints() == if changed && fixed {
                checker.complaints().push(
                    TypeError {
                        kind: TypeErrorKind::Generic(
                            Message::ReceiverNotMut { method, root: root_local(object)->0 },
                        ),
                        span: checker.diagnostics.current_span,
                    },
                )
            } else {
                checker.complaints()
            }
        }),
{
    reveal(TypeChecker::interface_receiver);
    changed_receivers_are_mutable(checker, object, method);
    let allowed = checker.recovered(checker.receiver_result(object, method));
    if let Some(root) = root_local(object) {
        recording_reports(
            checker,
            TypeErrorKind::Generic(Message::ReceiverNotMut { method, root }),
        );
    }
    errors_name_no_place(checker, allowed, object);
    using_a_place_asks_once(allowed, object, BorrowKind::Mutable);
    using_a_place_asks_once(checker, object, BorrowKind::Shared);
}

/// What was said does not change which places expressions name.
proof fn errors_name_no_place(checker: TypeChecker, other: TypeChecker, expr: HirExpr)
    requires
        other == (TypeChecker { diagnostics: other.diagnostics, ..checker }),
    ensures
        other.resolved(expr).1 == checker.resolved(expr).1,
        other.resolved(expr).0 == (TypeChecker {
            diagnostics: other.diagnostics,
            ..checker.resolved(expr).0
        }),
    decreases expr,
{
    match expr.kind {
        ExprKind::FieldAccess { .. } | ExprKind::Get { .. } | ExprKind::Deref { .. } => {
            errors_name_no_place(checker, other, expr.object());
        },
        ExprKind::Index { .. } => {
            errors_name_no_place(checker, other, expr.object());
            errors_bound_nothing(
                checker.resolved(expr.object()).0,
                other.resolved(expr.object()).0,
                expr.right(),
            );
        },
        ExprKind::Binary { .. } => {
            errors_name_no_place(checker, other, expr.left());
            errors_bound_nothing(
                checker.resolved(expr.left()).0,
                other.resolved(expr.left()).0,
                expr.right(),
            );
        },
        _ => {},
    }
}

proof fn errors_bound_nothing(checker: TypeChecker, other: TypeChecker, expr: HirExpr)
    requires
        other == (TypeChecker { diagnostics: other.diagnostics, ..checker }),
    ensures
        other.bound_of(expr).1 == checker.bound_of(expr).1,
        other.bound_of(expr).0 == (TypeChecker {
            diagnostics: other.diagnostics,
            ..checker.bound_of(expr).0
        }),
    decreases expr,
{
    if let ExprKind::Binary { .. } = expr.kind {
        errors_bound_nothing(checker, other, expr.left());
        errors_bound_nothing(
            checker.bound_of(expr.left()).0,
            other.bound_of(expr.left()).0,
            expr.right(),
        );
    }
}

/// A receiver that is passed by value is gone behind the call.
pub proof fn moved_receivers_are_gone(
    checker: TypeChecker,
    object: HirExpr,
    name: StrId,
    object_ty: HirType,
    method: StrId,
    params: List<HirParam>,
)
    requires
        object.kind matches ExprKind::Ident(used, _) && used == name,
        !checker.program.facts.copied(object_ty),
        match params {
            Cons(first, _) => *first matches HirParam::This { kind, multi_place, .. } && (
            kind is Move || kind is MoveMut),
            Nil => false,
        },
    ensures
        checker.interface_receiver(object, object_ty, method, params).flow.moves.whole.has(name),
{
    reveal(TypeChecker::interface_receiver);
    let allowed = checker.recovered(checker.receiver_result(object, method));
    used_up_is_gone(allowed, object, name, object_ty);
    used_up_is_gone(checker, object, name, object_ty);
}

/// An argument that is passed by value is gone behind the call, and no loan is held for it.
pub proof fn passed_locals_are_gone(
    checker: TypeChecker,
    arg: HirExpr,
    name: StrId,
    param: HirParam,
    index: usize,
    passing: Passing,
)
    requires
        arg.kind matches ExprKind::Ident(used, _) && used == name,
        ({
            let (seen, ty) = checker.arg_checked(arg, param.declared_type(), passing.func);
            !seen.program.facts.copied(ty)
        }),
    ensures
        checker.arg_passed(arg, param, index, passing).0.flow.moves.whole.has(name),
        checker.arg_passed(arg, param, index, passing).1 is Nil,
{
    let declared = param.declared_type();
    let (seen, ty) = checker.arg_checked(arg, declared, passing.func);
    used_up_is_gone(seen, arg, name, ty);
    let used = seen.value_used(arg, ty);
    assert(used.fitted(declared, ty).flow == used.flow) by {
        reveal(TypeChecker::fitted);
    }
    reveal(TypeChecker::arg_passed);
}

/// The loan of an argument is looked for at the place that the argument refers to.
pub proof fn arguments_hold_the_loan_of_their_place(checker: TypeChecker, place: HirExpr)
    ensures
        match checker.resolved(place).1 {
            Some(found) => {
                &&& checker.arg_loan(place).1 == List::one_of(checker.loans.next_loan)
                &&& checker.arg_loan(place).0.steps() == checker.steps().push(
                    BorrowOp::FindLoan { loan: checker.loans.next_loan, place: found },
                )
            },
            None => checker.arg_loan(place).1 is Nil && checker.arg_loan(place).0.steps()
                == checker.steps(),
        },
{
    reveal(TypeChecker::arg_loan);
    reveal_with_fuel(steps_of, 2);
    resolving_keeps_rest(checker, place);
}

/// What is called is a lambda, and gives what the lambda returns.
pub proof fn lambdas_give_their_result(checker: TypeChecker, ty: HirType, args: List<HirExpr>)
    requires
        !checker.diagnostics.suppress_errors,
        !(ty is Generic),
    ensures
        ({
            let (after, found) = checker.value_called(ty, args);
            match ty {
                HirType::Lambda { return_type, .. } => after == checker && found == *return_type,
                _ => found is Unknown && checker.says(Message::NotCallable { ty }, after),
            }
        }),
{
    reveal(TypeChecker::value_called);
    recording_reports(checker, TypeErrorKind::Generic(Message::NotCallable { ty }));
}

/// The method of an interface is one that the interface declares under the name.
pub proof fn interface_methods_are_declared(checker: TypeChecker, interface: StrId, method: StrId)
    ensures
        match lookup(checker.context.interfaces, interface) {
            None => checker.interface_method(interface, method) == Err::<
                crate::hir::HirFunc,
                TypeErrorKind,
            >(TypeErrorKind::UndefinedType(interface)),
            Some(found) => match checker.interface_method(interface, method) {
                Ok(func) => func.unmangled_name == method && (found.methods matches Some(methods)
                    && methods.has(func)),
                Err(kind) => {
                    &&& kind == TypeErrorKind::Generic(
                        Message::NoInterfaceMethod { method, interface },
                    )
                    &&& found.methods matches Some(methods) ==> !declares_method(methods, method)
                },
            },
        },
{
    reveal(TypeChecker::interface_method);
    if let Some(found) = lookup(checker.context.interfaces, interface) {
        if let Some(methods) = crate::list::held(&found).methods {
            named_method_is_declared(methods, method);
        }
    }
}

/// Whether a method of a name is among some.
pub open spec fn declares_method(methods: List<crate::hir::HirFunc>, name: StrId) -> bool {
    exists|func: crate::hir::HirFunc| #[trigger] methods.has(func) && func.unmangled_name == name
}

proof fn named_method_is_declared(methods: List<crate::hir::HirFunc>, name: StrId)
    ensures
        match crate::methods::method_named(methods, name) {
            Some(func) => methods.has(func) && func.unmangled_name == name,
            None => !declares_method(methods, name),
        },
    decreases methods,
{
    match methods {
        Nil => {
            reveal_with_fuel(List::has, 2);
        },
        Cons(_, _) => {
            named_method_is_declared(methods.rest(), name);
            if declares_method(methods, name) {
                let func = choose|func: crate::hir::HirFunc| #[trigger]
                    methods.has(func) && func.unmangled_name == name;
                assert(func == methods.head() || methods.rest().has(func));
            }
        },
    }
}

/// What is asked of an intrinsic: nothing is said where it holds.
pub proof fn demands_are_reported(checker: TypeChecker, holds: bool, message: Message)
    requires
        !checker.diagnostics.suppress_errors,
    ensures
        holds ==> checker.demanded(holds, message) == checker,
        !holds ==> checker.says(message, checker.demanded(holds, message)),
{
    recording_reports(checker, TypeErrorKind::Generic(message));
}

/// Sizes and alignments are counts, names of types are text, and what is not reached has no value.
pub proof fn intrinsics_have_their_type(checker: TypeChecker, expr: HirExpr, kind: IntrinsicKind)
    requires
        expr.kind matches ExprKind::Intrinsic { kind: k, .. } && k == kind,
    ensures
        kind is SizeOf || kind is AlignOf ==> checker.intrinsic_checked(expr).1 is Usize,
        kind is TypeName ==> checker.intrinsic_checked(expr).1 is String,
        kind is Unreachable ==> checker.intrinsic_checked(expr).1 is Never,
        kind is AtomicCasU32 || kind is AtomicLoadU32 ==> checker.intrinsic_checked(expr).1 is U32,
        kind is AtomicStoreU32 || kind is CpuRelax || kind is AssertAlign
            ==> checker.intrinsic_checked(expr).1 is Void,
{
    reveal(TypeChecker::intrinsic_checked);
}

/// Sizes, alignments and names are of one type and of no value.
pub proof fn sizes_are_of_one_type(
    checker: TypeChecker,
    expr: HirExpr,
    type_args: List<HirType>,
    args: List<HirExpr>,
)
    requires
        !checker.diagnostics.suppress_errors,
        expr.kind matches ExprKind::Intrinsic { kind, type_args: t, args: a, .. } && t == type_args
            && a == args && (kind is SizeOf || kind is AlignOf || kind is TypeName),
    ensures
        ({
            let after = checker.intrinsic_checked(expr).0;
            let one = type_args.count() == 1;
            &&& one && args is Nil ==> after == checker
            &&& !one && args is Nil ==> checker.says(
                Message::OneTypeArg { found: type_args.count() },
                after,
            )
            &&& one && !(args is Nil) ==> checker.says(Message::NoValueArgs, after)
        }),
{
    reveal(TypeChecker::intrinsic_checked);
    demands_are_reported(
        checker,
        type_args.count() == 1,
        Message::OneTypeArg { found: type_args.count() },
    );
    demands_are_reported(checker, args is Nil, Message::NoValueArgs);
}

/// The powers of two are what doubling one gives.
pub proof fn powers_of_two_are_doublings(value: int)
    ensures
        power_of_two(value) <==> value == 1 || exists|half: int| #[trigger]
            power_of_two(half) && value == 2 * half,
        power_of_two(value) ==> value >= 1 && power_of_two(2 * value),
    decreases value,
{
    reveal_with_fuel(power_of_two, 2);
    if power_of_two(value) && value != 1 {
        powers_of_two_are_doublings(value / 2);
        assert(power_of_two(value / 2) && value == 2 * (value / 2));
    }
    if exists|half: int| #[trigger] power_of_two(half) && value == 2 * half {
        let half = choose|half: int| #[trigger] power_of_two(half) && value == 2 * half;
        assert(half >= 1);
        assert(value / 2 == half);
    }
    if power_of_two(value) {
        assert((2 * value) / 2 == value);
    }
}

} // verus!
