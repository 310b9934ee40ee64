//! What a lambda takes from around it, and how.

use vstd::prelude::*;

use crate::accesses::recording_reports;
use crate::borrow::BorrowKind;
use crate::check_lambdas::inferred;
use crate::closures::{
    any_moved, any_mutated, captures_of, frames_used, kind_of, root_used, strength, through_used,
    CaptureEntry, CaptureMode, ClosureFrame, ClosureKind, HirClosureCapture, UseLevel,
};
use crate::errors::{Message, TypeError, TypeErrorKind};
use crate::hir::{ExprKind, HirEffectSegment, HirExpr, HirLambdaParam, HirType, RefKind, StrId};
use crate::list::{has_key, lookup, update_then_lookup, Cons, List, Nil};
use crate::type_checker::TypeChecker;
use crate::type_context::{LocalSymbolId, SymbolId, TypeContext};

verus! {

/// Whether some capture is moved into the lambda.
pub open spec fn takes_away(entries: Seq<CaptureEntry>) -> bool {
    exists|i: int| 0 <= i < entries.len() && (#[trigger] entries[i]).usage.level is Move
}

/// Whether some capture is written to in the lambda.
pub open spec fn writes_outside(entries: Seq<CaptureEntry>) -> bool {
    exists|i: int| 0 <= i < entries.len() && (#[trigger] entries[i]).usage.mutated
}

proof fn some_are_moved(entries: List<CaptureEntry>)
    ensures
        any_moved(entries) == takes_away(entries.seq()),
    decreases entries,
{
    match entries {
        Nil => {},
        Cons(_, _) => {
            some_are_moved(entries.rest());
            let all = entries.seq();
            let later = entries.rest().seq();
            assert(all == seq![entries.head()] + later);
            if entries.head().usage.level is Move {
                assert(all[0].usage.level is Move);
            }
            if takes_away(later) {
                let i = choose|i: int|
                    0 <= i < later.len() && (#[trigger] later[i]).usage.level is Move;
                assert(all[i + 1].usage.level is Move);
            }
            if takes_away(all) {
                let i = choose|i: int| 0 <= i < all.len() && (#[trigger] all[i]).usage.level is Move;
                if i > 0 {
                    assert(later[i - 1].usage.level is Move);
                }
            }
        },
    }
}

proof fn some_are_mutated(entries: List<CaptureEntry>)
    ensures
        any_mutated(entries) == writes_outside(entries.seq()),
    decreases entries,
{
    match entries {
        Nil => {},
        Cons(_, _) => {
            some_are_mutated(entries.rest());
            let all = entries.seq();
            let later = entries.rest().seq();
            assert(all == seq![entries.head()] + later);
            if entries.head().usage.mutated {
                assert(all[0].usage.mutated);
            }
            if writes_outside(later) {
                let i = choose|i: int| 0 <= i < later.len() && (#[trigger] later[i]).usage.mutated;
                assert(all[i + 1].usage.mutated);
            }
            if writes_outside(all) {
                let i = choose|i: int| 0 <= i < all.len() && (#[trigger] all[i]).usage.mutated;
                if i > 0 {
                    assert(later[i - 1].usage.mutated);
                }
            }
        },
    }
}

/// A closure can be called once where it takes something away; it changes what is around it where it
/// writes to a capture; otherwise it can be called at any time.
pub proof fn closures_are_of_the_kind_they_need(entries: List<CaptureEntry>)
    ensures
        kind_of(entries) is FnOnce <==> takes_away(entries.seq()),
        kind_of(entries) is FnMut <==> !takes_away(entries.seq()) && writes_outside(entries.seq()),
        kind_of(entries) is Fn <==> !takes_away(entries.seq()) && !writes_outside(entries.seq()),
{
    some_are_moved(entries);
    some_are_mutated(entries);
}

/// Each capture is of the path that its entry names. What is moved is captured by value, and the rest
/// by a reference as strong as its strongest use.
pub proof fn captures_are_as_strong_as_their_use(entries: List<CaptureEntry>, index: usize, i: int)
    requires
        0 <= i < entries.seq().len(),
    ensures
        captures_of(entries, index).seq().len() == entries.seq().len(),
        ({
            let entry = entries.seq()[i];
            let capture = captures_of(entries, index).seq()[i];
            &&& capture.source == entry.root
            &&& capture.source_path == entry.path
            &&& capture.mode is ByValue <==> entry.usage.level is Move
            &&& capture.mode == CaptureMode::ByRef(RefKind::Unique) <==> entry.usage.level is Mut
            &&& capture.mode == CaptureMode::ByRef(RefKind::Alias) <==> entry.usage.level is Alias
            &&& capture.mode == CaptureMode::ByRef(RefKind::Shared) <==> entry.usage.level is Read
        }),
    decreases entries,
{
    captures_one_each(entries, index);
    match entries {
        Nil => {},
        Cons(_, _) => {
            let next = crate::type_checker::after_usize(index);
            let all = captures_of(entries, index);
            assert(entries.seq() == seq![entries.head()] + entries.rest().seq());
            assert(all.seq() == seq![all.head()] + captures_of(entries.rest(), next).seq());
            if i > 0 {
                captures_are_as_strong_as_their_use(entries.rest(), next, i - 1);
            }
        },
    }
}

proof fn captures_one_each(entries: List<CaptureEntry>, index: usize)
    ensures
        captures_of(entries, index).seq().len() == entries.seq().len(),
    decreases entries,
{
    match entries {
        Nil => {},
        Cons(_, _) => {
            captures_one_each(entries.rest(), crate::type_checker::after_usize(index));
        },
    }
}

/// Two lists of captures of the same paths, of which the second was not used less.
pub open spec fn used_no_less(before: Seq<CaptureEntry>, after: Seq<CaptureEntry>) -> bool {
    &&& before.len() == after.len()
    &&& forall|i: int| #![trigger before[i]] #![trigger after[i]] 0 <= i < before.len() ==> {
        &&& after[i].root == before[i].root
        &&& after[i].path == before[i].path
        &&& strength(after[i].usage.level) >= strength(before[i].usage.level)
        &&& before[i].usage.mutated ==> after[i].usage.mutated
    }
}

/// Whether some capture of a whole local was used as strongly as a level.
pub open spec fn used_as(entries: Seq<CaptureEntry>, root: StrId, level: UseLevel) -> bool {
    exists|i: int|
        0 <= i < entries.len() && {
            &&& (#[trigger] entries[i]).root == root
            &&& entries[i].path is Nil
            &&& strength(entries[i].usage.level) >= strength(level)
            &&& level is Mut ==> entries[i].usage.mutated
        }
}

/// Whether a local is captured as a whole.
pub open spec fn captured_whole(entries: Seq<CaptureEntry>, root: StrId) -> bool {
    exists|i: int|
        0 <= i < entries.len() && (#[trigger] entries[i]).root == root && entries[i].path is Nil
}

proof fn through_uses_no_less(
    entries: List<CaptureEntry>,
    root: StrId,
    path: List<HirEffectSegment>,
    level: UseLevel,
)
    ensures
        used_no_less(entries.seq(), through_used(entries, root, path, level).seq()),
    decreases entries,
{
    match entries {
        Nil => {},
        Cons(_, _) => {
            through_uses_no_less(entries.rest(), root, path, level);
            let after = through_used(entries, root, path, level);
            assert(entries.seq() == seq![entries.head()] + entries.rest().seq());
            assert(after.seq() == seq![after.head()] + after.rest().seq());
        },
    }
}

proof fn roots_use_no_less(entries: List<CaptureEntry>, root: StrId, level: UseLevel)
    ensures
        used_no_less(entries.seq(), root_used(entries, root, level).seq()),
        captured_whole(entries.seq(), root) ==> used_as(
            root_used(entries, root, level).seq(),
            root,
            level,
        ),
    decreases entries,
{
    match entries {
        Nil => {},
        Cons(_, _) => {
            roots_use_no_less(entries.rest(), root, level);
            let after = root_used(entries, root, level);
            let all = entries.seq();
            let later = entries.rest().seq();
            assert(all == seq![entries.head()] + later);
            assert(after.seq() == seq![after.head()] + after.rest().seq());
            if entries.head().root == root && entries.head().path is Nil {
                assert(after.seq()[0].root == root);
            } else if captured_whole(all, root) {
                let i = choose|i: int|
                    0 <= i < all.len() && (#[trigger] all[i]).root == root && all[i].path is Nil;
                assert(later[i - 1].root == root);
                assert(captured_whole(later, root));
                let then = after.rest().seq();
                let j = choose|j: int|
                    0 <= j < then.len() && {
                        &&& (#[trigger] then[j]).root == root
                        &&& then[j].path is Nil
                        &&& strength(then[j].usage.level) >= strength(level)
                        &&& level is Mut ==> then[j].usage.mutated
                    };
                assert(after.seq()[j + 1] == then[j]);
            }
        },
    }
}

/// A use in a lambda is noted in every lambda around it that captures the local: the capture is then
/// as strong as the use, and no capture is weaker than before.
pub proof fn uses_strengthen_captures(
    frames: List<ClosureFrame>,
    root: StrId,
    path: List<HirEffectSegment>,
    level: UseLevel,
    i: int,
)
    requires
        0 <= i < frames.seq().len(),
    ensures
        frames_used(frames, root, path, level).seq().len() == frames.seq().len(),
        ({
            let before = frames.seq()[i].entries.seq();
            let after = frames_used(frames, root, path, level).seq()[i].entries.seq();
            &&& used_no_less(before, after)
            &&& captured_whole(before, root) ==> used_as(after, root, level)
        }),
    decreases frames,
{
    frames_stay(frames, root, path, level);
    match frames {
        Nil => {},
        Cons(_, _) => {
            let all = frames_used(frames, root, path, level);
            assert(frames.seq() == seq![frames.head()] + frames.rest().seq());
            assert(all.seq() == seq![all.head()] + all.rest().seq());
            if i > 0 {
                uses_strengthen_captures(frames.rest(), root, path, level, i - 1);
            } else {
                let entries = frames.head().entries;
                let through = through_used(entries, root, path, level);
                through_uses_no_less(entries, root, path, level);
                roots_use_no_less(through, root, level);
                if captured_whole(entries.seq(), root) {
                    let k = choose|k: int|
                        0 <= k < entries.seq().len() && (#[trigger] entries.seq()[k]).root == root
                            && entries.seq()[k].path is Nil;
                    assert(through.seq()[k].root == root);
                }
            }
        },
    }
}

proof fn frames_stay(
    frames: List<ClosureFrame>,
    root: StrId,
    path: List<HirEffectSegment>,
    level: UseLevel,
)
    ensures
        frames_used(frames, root, path, level).seq().len() == frames.seq().len(),
    decreases frames,
{
    match frames {
        Nil => {},
        Cons(_, _) => frames_stay(frames.rest(), root, path, level),
    }
}

proof fn noting_strengthens(
    checker: TypeChecker,
    root: StrId,
    path: List<HirEffectSegment>,
    level: UseLevel,
    i: int,
)
    requires
        0 <= i < checker.closures.frames.seq().len(),
        captured_whole(checker.closures.frames.seq()[i].entries.seq(), root),
    ensures
        ({
            let after = checker.noted(root, path, level).closures.frames.seq();
            &&& after.len() == checker.closures.frames.seq().len()
            &&& used_as(after[i].entries.seq(), root, level)
            &&& captured_whole(after[i].entries.seq(), root)
        }),
{
    uses_strengthen_captures(checker.closures.frames, root, path, level, i);
    let after = checker.noted(root, path, level).closures.frames.seq()[i].entries.seq();
    let k = choose|k: int|
        0 <= k < after.len() && {
            &&& (#[trigger] after[k]).root == root
            &&& after[k].path is Nil
            &&& strength(after[k].usage.level) >= strength(level)
            &&& level is Mut ==> after[k].usage.mutated
        };
    assert(after[k].root == root);
}

/// A write to a local in a lambda that captures it is one that the capture must allow.
pub proof fn writes_make_captures_mutable(
    checker: TypeChecker,
    target: HirExpr,
    name: StrId,
    uninit: bool,
    i: int,
)
    requires
        target.kind matches ExprKind::Ident(used, _) && used == name,
        checker.resolved(target).1 is Some,
        0 <= i < checker.closures.frames.seq().len(),
        captured_whole(checker.closures.frames.seq()[i].entries.seq(), name),
    ensures
        used_as(
            checker.target_used(target, uninit).closures.frames.seq()[i].entries.seq(),
            name,
            UseLevel::Mut,
        ),
{
    crate::borrowck::resolving_keeps_rest(checker, target);
    let after = checker.resolved(target).0;
    noting_strengthens(after, name, Nil, UseLevel::Mut, i);
    let used = after.used(target, checker.resolved(target).1->0, BorrowKind::Mutable);
    noting_strengthens(used, name, Nil, UseLevel::Mut, i);
}

/// A local that is used up in a lambda that captures it is moved into the lambda.
pub proof fn moves_take_captures_away(
    checker: TypeChecker,
    expr: HirExpr,
    name: StrId,
    ty: HirType,
    i: int,
)
    requires
        expr.kind matches ExprKind::Ident(used, _) && used == name,
        !checker.program.facts.copied(ty),
        0 <= i < checker.closures.frames.seq().len(),
        captured_whole(checker.closures.frames.seq()[i].entries.seq(), name),
    ensures
        used_as(
            checker.value_used(expr, ty).closures.frames.seq()[i].entries.seq(),
            name,
            UseLevel::Move,
        ),
        takes_away(checker.value_used(expr, ty).closures.frames.seq()[i].entries.seq()),
{
    reveal(TypeChecker::value_used);
    reveal(TypeChecker::place_used);
    let noted = checker.noted_expr(expr, UseLevel::Read);
    noting_strengthens(checker, name, Nil, UseLevel::Read, i);
    crate::borrowck::resolving_keeps_rest(noted, expr);
    let after = noted.resolved(expr).0;
    noting_strengthens(after, name, Nil, UseLevel::Read, i);
    let seen = noted.place_used(expr, BorrowKind::Shared);
    let checked = seen.use_checked(name, None, ty);
    noting_strengthens(checked, name, Nil, UseLevel::Move, i);
    let entries = checker.value_used(expr, ty).closures.frames.seq()[i].entries.seq();
    let k = choose|k: int|
        0 <= k < entries.len() && {
            &&& (#[trigger] entries[k]).root == name
            &&& entries[k].path is Nil
            &&& strength(entries[k].usage.level) >= strength(UseLevel::Move)
            &&& UseLevel::Move is Mut ==> entries[k].usage.mutated
        };
    assert(entries[k].usage.level is Move);
}

proof fn last_is_taken_off<T>(list: List<T>, last: T)
    ensures
        list.snoc(last).without_last() == list,
        list.snoc(last).last_of() == Some(last),
    decreases list,
{
    match list {
        Nil => {
            reveal_with_fuel(List::without_last, 2);
            reveal_with_fuel(List::last_of, 2);
        },
        Cons(_, _) => {
            last_is_taken_off(list.rest(), last);
            assert(!(list.rest().snoc(last) is Nil));
        },
    }
}

/// In a lambda, there is no loop to leave and its own result to return; what it captures is noted in
/// a frame of its own. Behind it, all of that is as before.
pub proof fn lambdas_are_entered_and_left(
    checker: TypeChecker,
    declared: HirType,
    entries: List<CaptureEntry>,
)
    ensures
        ({
            let inside = checker.lambda_entered(declared, entries);
            &&& !inside.context.in_loop
            &&& inside.context.variables == checker.context.variables
            &&& inside.context.current_return_type == if declared is Unknown || declared is Void {
                None
            } else {
                Some(declared)
            }
            &&& inside.innermost() == entries
            &&& inside.lambda_left(checker.context) == checker
            &&& inside.flow == checker.flow
            &&& inside.diagnostics == checker.diagnostics
        }),
{
    reveal(TypeChecker::lambda_entered);
    reveal(TypeChecker::lambda_left);
    last_is_taken_off(checker.closures.frames, ClosureFrame { entries });
}

/// A lambda that is no closure is told of everything it captures.
pub proof fn plain_lambdas_capture_nothing(checker: TypeChecker, captures: List<HirClosureCapture>)
    requires
        !checker.diagnostics.suppress_errors,
    ensures
        checker.captures_refused(captures).complaints() == checker.complaints()
            + captures.seq().map_values(
            |capture: HirClosureCapture|
                TypeError {
                    kind: TypeErrorKind::Generic(
                        Message::PointerLambdaCaptures {
                            root: capture.source,
                            path: capture.source_path,
                        },
                    ),
                    span: checker.diagnostics.current_span,
                },
        ),
    decreases captures,
{
    reveal(TypeChecker::captures_refused);
    let error = |capture: HirClosureCapture|
        TypeError {
            kind: TypeErrorKind::Generic(
                Message::PointerLambdaCaptures {
                    root: capture.source,
                    path: capture.source_path,
                },
            ),
            span: checker.diagnostics.current_span,
        };
    match captures {
        Nil => {
            assert(checker.complaints() + captures.seq().map_values(error)
                == checker.complaints());
        },
        Cons(_, _) => {
            let first = captures.head();
            let message = Message::PointerLambdaCaptures {
                root: first.source,
                path: first.source_path,
            };
            recording_reports(checker, TypeErrorKind::Generic(message));
            plain_lambdas_capture_nothing(checker.said(message), captures.rest());
            assert(captures.seq() == seq![first] + captures.rest().seq());
            assert(captures.seq().map_values(error) == seq![error(first)]
                + captures.rest().seq().map_values(error));
            assert(checker.complaints().push(error(first))
                + captures.rest().seq().map_values(error) == checker.complaints()
                + captures.seq().map_values(error));
        },
    }
}

proof fn later_params_keep(
    checker: TypeChecker,
    params: List<HirLambdaParam>,
    types: List<HirType>,
    fresh: bool,
    name: StrId,
)
    requires
        forall|i: int| 0 <= i < params.seq().len() ==> (#[trigger] params.seq()[i]).name != name,
    ensures
        lookup(checker.params_declared(params, types, fresh).context.variables, name) == lookup(
            checker.context.variables,
            name,
        ),
    decreases params,
{
    reveal(TypeChecker::params_declared);
    match (params, types) {
        (Cons(_, _), Cons(_, _)) => {
            let (param, ty) = (params.head(), types.head());
            assert(params.seq() == seq![param] + params.rest().seq());
            assert(params.seq()[0] == param);
            assert forall|i: int| 0 <= i < params.rest().seq().len() implies (
            #[trigger] params.rest().seq()[i]).name != name by {
                assert(params.seq()[i + 1] == params.rest().seq()[i]);
            }
            let told = if fresh && has_key(checker.context.variables, param.name) {
                checker.recorded(TypeErrorKind::VariableAlreadyExists { var_name: param.name })
            } else {
                checker
            };
            let (minted, symbol) = told.minted();
            let next = minted.with_context(
                minted.context.with_variable(param.name, ty, symbol),
            );
            update_then_lookup(checker.context.variables, param.name, (symbol, ty), name);
            later_params_keep(next, params.rest(), types.rest(), fresh, name);
        },
        _ => {},
    }
}

/// A parameter of a lambda is declared with its type, and no other name is.
pub proof fn params_are_declared(
    checker: TypeChecker,
    params: List<HirLambdaParam>,
    types: List<HirType>,
    fresh: bool,
    at: int,
)
    requires
        0 <= at < params.seq().len(),
        params.seq().len() == types.seq().len(),
        forall|i: int|
            at < i < params.seq().len() ==> (#[trigger] params.seq()[i]).name
                != params.seq()[at].name,
    ensures
        match lookup(
            checker.params_declared(params, types, fresh).context.variables,
            params.seq()[at].name,
        ) {
            Some((_, ty)) => ty == types.seq()[at],
            None => false,
        },
    decreases params,
{
    reveal(TypeChecker::params_declared);
    match (params, types) {
        (Cons(_, _), Cons(_, _)) => {
            let (param, ty) = (params.head(), types.head());
            assert(params.seq() == seq![param] + params.rest().seq());
            assert(types.seq() == seq![ty] + types.rest().seq());
            let told = if fresh && has_key(checker.context.variables, param.name) {
                checker.recorded(TypeErrorKind::VariableAlreadyExists { var_name: param.name })
            } else {
                checker
            };
            let (minted, symbol) = told.minted();
            let next = minted.with_context(
                minted.context.with_variable(param.name, ty, symbol),
            );
            let later = params.rest();
            assert forall|i: int| at - 1 < i < later.seq().len() implies (
            #[trigger] later.seq()[i]).name != params.seq()[at].name by {
                assert(params.seq()[i + 1] == later.seq()[i]);
            }
            if at == 0 {
                update_then_lookup(checker.context.variables, param.name, (symbol, ty), param.name);
                later_params_keep(next, later, types.rest(), fresh, param.name);
            } else {
                params_are_declared(next, later, types.rest(), fresh, at - 1);
            }
        },
        _ => {},
    }
}

} // verus!
