//! What a function does with what it is given: every mention of a parameter is a read or a write of it.

use std::rc::Rc;

use vstd::prelude::*;

use crate::hir::{
    AssignmentOperator, ExprKind, HirExpr, HirFieldInit, HirMatchArm, HirStmt, InterpolationPart,
    RefKind, StmtKind, StrId,
};
use crate::list::{held, Cons, List, Nil};
use crate::liveness::{
    arms_mention, exprs_mention, inits_mention, mentions, parts_mention, stmt_mentions,
    stmts_mention,
};
use crate::ref_effects::{
    arms_accesses, expr_accesses, exprs_accesses, field_path, inits_accesses, parts_accesses,
    path_below, place_below, shadows, stmt_accesses, stmts_accesses, Accesses,
};
use crate::type_checker::this_name;

verus! {

/// How many accesses there are.
pub open spec fn amount(acc: Accesses) -> nat {
    acc.reads.seq().len() + acc.writes.seq().len()
}

/// Whether accesses were added exactly where something was mentioned.
pub open spec fn grown(before: Accesses, after: Accesses, mentioned: bool) -> bool {
    if mentioned {
        amount(after) > amount(before)
    } else {
        after == before
    }
}

/// The accesses after an expression that may be missing.
pub open spec fn option_accesses(
    expr: &Option<Rc<HirExpr>>,
    root: StrId,
    acc: Accesses,
) -> Accesses {
    match expr {
        Some(inner) => expr_accesses(held(inner), root, acc),
        None => acc,
    }
}

/// The accesses after a statement that may be missing.
pub open spec fn other_accesses(
    stmt: &Option<Rc<HirStmt>>,
    root: StrId,
    acc: Accesses,
) -> Accesses {
    match stmt {
        Some(inner) => stmt_accesses(held(inner), root, acc),
        None => acc,
    }
}

/// An expression in which no lambda has a parameter of the name, and no declaration handles errors.
pub open spec fn open_to(expr: HirExpr, root: StrId) -> bool
    decreases expr,
{
    match expr.kind {
        ExprKind::Match { expr: scrutinee, arms, .. } => {
            &&& open_to(*scrutinee, root)
            &&& arms_open(arms, root)
        },
        ExprKind::Block { body, .. } => {
            &&& stmts_open(body, root)
        },
        ExprKind::Range { start, end, .. } => {
            &&& open_to(*start, root)
            &&& open_to(*end, root)
        },
        ExprKind::Slice { object, start, end, .. } => {
            &&& open_to(*object, root)
            &&& open_to(*start, root)
            &&& open_to(*end, root)
        },
        ExprKind::Tuple(exprs, _) => {
            &&& all_open(exprs, root)
        },
        ExprKind::ArrayLiteral { elements, .. } => {
            &&& all_open(elements, root)
        },
        ExprKind::Binary { left, right, .. } => {
            &&& open_to(*left, root)
            &&& open_to(*right, root)
        },
        ExprKind::Comparison { left, right, .. } => {
            &&& open_to(*left, root)
            &&& open_to(*right, root)
        },
        ExprKind::Call { callee, args, .. } => {
            &&& open_to(*callee, root)
            &&& all_open(args, root)
        },
        ExprKind::InterfaceCall { callee, args, .. } => {
            &&& open_to(*callee, root)
            &&& all_open(args, root)
        },
        ExprKind::FieldAccess { object, .. } => {
            &&& open_to(*object, root)
        },
        ExprKind::Get { object, .. } => {
            &&& open_to(*object, root)
        },
        ExprKind::Assignment { target, value, .. } => {
            &&& open_to(*target, root)
            &&& open_to(*value, root)
        },
        ExprKind::StructInit { args, .. } => {
            &&& inits_open(args, root)
        },
        ExprKind::EnumInit { args, .. } => {
            &&& all_open(args, root)
        },
        ExprKind::ExprList { list, .. } => {
            &&& all_open(list, root)
        },
        ExprKind::Deref { expr: inner, .. } => {
            &&& open_to(*inner, root)
        },
        ExprKind::Ref { expr: inner, .. } => {
            &&& open_to(*inner, root)
        },
        ExprKind::Cast { expr: inner, .. } => {
            &&& open_to(*inner, root)
        },
        ExprKind::Index { object, index, .. } => {
            &&& open_to(*object, root)
            &&& open_to(*index, root)
        },
        ExprKind::Lambda { params, body, .. } => {
            &&& stmt_open(*body, root)
            &&& !shadows(params, root)
        },
        ExprKind::InterpolatedString(parts) => {
            &&& parts_open(parts, root)
        },
        ExprKind::Intrinsic { args, .. } => {
            &&& all_open(args, root)
        },
        ExprKind::If { if_stmt, .. } => {
            &&& stmt_open(*if_stmt, root)
        },
        _ => true,
    }
}

pub open spec fn all_open(exprs: List<HirExpr>, root: StrId) -> bool
    decreases exprs,
{
    match exprs {
        Nil => true,
        Cons(head, rest) => open_to(*head, root) && all_open(*rest, root),
    }
}

pub open spec fn inits_open(inits: List<HirFieldInit>, root: StrId) -> bool
    decreases inits,
{
    match inits {
        Nil => true,
        Cons(head, rest) => open_to(head.value, root) && inits_open(*rest, root),
    }
}

pub open spec fn parts_open(parts: List<InterpolationPart>, root: StrId) -> bool
    decreases parts,
{
    match parts {
        Nil => true,
        Cons(part, rest) => match *part {
            InterpolationPart::Expr(expr) => open_to(*expr, root) && parts_open(*rest, root),
            InterpolationPart::Text(_) => parts_open(*rest, root),
        },
    }
}

pub open spec fn arms_open(arms: List<HirMatchArm>, root: StrId) -> bool
    decreases arms,
{
    match arms {
        Nil => true,
        Cons(arm, rest) => {
            &&& match arm.guard {
                Some(guard) => open_to(*guard, root),
                None => true,
            }
            &&& stmt_open(*arm.body, root)
            &&& arms_open(*rest, root)
        },
    }
}

pub open spec fn stmts_open(stmts: List<HirStmt>, root: StrId) -> bool
    decreases stmts,
{
    match stmts {
        Nil => true,
        Cons(head, rest) => stmt_open(*head, root) && stmts_open(*rest, root),
    }
}

/// A statement in which no lambda has a parameter of the name, and no declaration handles errors.
pub open spec fn stmt_open(stmt: HirStmt, root: StrId) -> bool
    decreases stmt,
{
    match stmt.kind {
        StmtKind::Let { value, else_block, catch_pattern, .. } => {
            &&& open_to(value, root)
            &&& match else_block {
                Some(other) => stmt_open(*other, root),
                None => true,
            }
            &&& catch_pattern is None
        },
        StmtKind::Return(value, _) => {
            &&& match value {
                Some(inner) => open_to(*inner, root),
                None => true,
            }
        },
        StmtKind::Break(value, _) => {
            &&& match value {
                Some(inner) => open_to(*inner, root),
                None => true,
            }
        },
        StmtKind::Expr(expr) => {
            &&& open_to(*expr, root)
        },
        StmtKind::If { cond, then_block, else_block, .. } => {
            &&& open_to(cond, root)
            &&& stmts_open(then_block, root)
            &&& match else_block {
                Some(other) => stmt_open(*other, root),
                None => true,
            }
        },
        StmtKind::While { cond, body } => {
            &&& open_to(*cond, root)
            &&& stmt_open(*body, root)
        },
        StmtKind::For { init, condition, increment, body } => {
            &&& match init {
                Some(other) => stmt_open(*other, root),
                None => true,
            }
            &&& match condition {
                Some(inner) => open_to(*inner, root),
                None => true,
            }
            &&& match increment {
                Some(inner) => open_to(*inner, root),
                None => true,
            }
            &&& stmt_open(*body, root)
        },
        StmtKind::Block { body, .. } => {
            &&& stmts_open(body, root)
        },
        StmtKind::Const(constant) => {
            &&& open_to(constant.value, root)
        },
        StmtKind::Match { expr, arms, .. } => {
            &&& open_to(*expr, root)
            &&& arms_open(arms, root)
        },
        StmtKind::UnsafeBlock { body } => {
            &&& stmt_open(*body, root)
        },
        StmtKind::Defer(body) => {
            &&& stmt_open(*body, root)
        },
        _ => true,
    }
}

proof fn one_longer<T>(list: List<T>, last: T)
    ensures
        list.snoc(last).seq().len() == list.seq().len() + 1,
    decreases list,
{
    match list {
        Nil => {
            reveal_with_fuel(List::seq, 2);
        },
        Cons(_, _) => one_longer(list.rest(), last),
    }
}

proof fn reads_add(acc: Accesses)
    ensures
        forall|path: List<StrId>, index: Option<crate::errors::UsedIndex>| #[trigger]
            amount(acc.with_read(path, index)) == amount(acc) + 1,
        forall|path: List<StrId>, index: Option<crate::errors::UsedIndex>| #[trigger]
            amount(acc.with_write(path, index)) == amount(acc) + 1,
{
    reveal(Accesses::with_read);
    reveal(Accesses::with_write);
    assert forall|path: List<StrId>, index: Option<crate::errors::UsedIndex>| #[trigger]
        amount(acc.with_read(path, index)) == amount(acc) + 1 by {
        one_longer(acc.reads, (path, index));
    }
    assert forall|path: List<StrId>, index: Option<crate::errors::UsedIndex>| #[trigger]
        amount(acc.with_write(path, index)) == amount(acc) + 1 by {
        one_longer(acc.writes, (path, index));
    }
}

proof fn paths_mention_their_root(expr: &HirExpr, root: StrId)
    requires
        root != this_name(),
    ensures
        field_path(*expr) matches Some((found, _)) ==> (found == root ==> mentions(*expr, root)),
    decreases expr,
{
    match &expr.kind {
        ExprKind::FieldAccess { object, .. } => paths_mention_their_root(object, root),
        ExprKind::Get { object, .. } => paths_mention_their_root(object, root),
        _ => {},
    }
}

proof fn places_mention_their_root(expr: &HirExpr, root: StrId)
    requires
        root != this_name(),
    ensures
        place_below(*expr, root) is Some ==> mentions(*expr, root),
        path_below(*expr, root) is Some ==> mentions(*expr, root),
{
    reveal(crate::ref_effects::place_below);
    reveal(crate::ref_effects::path_below);
    paths_mention_their_root(expr, root);
    if let ExprKind::Index { object, .. } = &expr.kind {
        paths_mention_their_root(object, root);
    }
}

/// An expression accesses a parameter exactly where it mentions it.
pub proof fn touches_what_it_mentions(expr: &HirExpr, root: StrId, acc: Accesses)
    requires
        open_to(*expr, root),
        root != this_name(),
    ensures
        grown(acc, expr_accesses(*expr, root, acc), mentions(*expr, root)),
    decreases expr,
{
    reads_add(acc);
    match &expr.kind {
        ExprKind::FieldAccess { object, .. } => {
            places_mention_their_root(object, root);
            touches_what_it_mentions(object, root, acc);
        },
        ExprKind::Get { object, .. } => {
            places_mention_their_root(object, root);
            touches_what_it_mentions(object, root, acc);
        },
        ExprKind::Assignment { target, op, value, .. } => {
            touches_what_it_mentions(value, root, acc);
            let before = expr_accesses(held(value), root, acc);
            touches_what_it_mentions(target, root, before);
            places_mention_their_root(target, root);
            reads_add(before);
            if let Some((path, index)) = place_below(held(target), root) {
                reads_add(before.with_write(path, index));
            }
        },
        ExprKind::Ref { expr: inner, .. } => {
            places_mention_their_root(inner, root);
            touches_what_it_mentions(inner, root, acc);
            if let Some((path, index)) = place_below(held(inner), root) {
                reads_add(acc.with_write(path, index));
            }
        },
        ExprKind::Index { object, index, .. } => {
            places_mention_their_root(expr, root);
            match place_below(*expr, root) {
                Some((path, used)) => {
                    touches_what_it_mentions(index, root, acc.with_read(path, used));
                },
                None => {
                    touches_what_it_mentions(object, root, acc);
                    touches_what_it_mentions(
                        index,
                        root,
                        expr_accesses(held(object), root, acc),
                    );
                },
            }
        },
        ExprKind::Slice { object, start, end, .. } => {
            places_mention_their_root(object, root);
            touches_what_it_mentions(object, root, acc);
            let before = match path_below(held(object), root) {
                Some(path) => acc.with_read(path, None),
                None => expr_accesses(held(object), root, acc),
            };
            touches_what_it_mentions(start, root, before);
            touches_what_it_mentions(end, root, expr_accesses(held(start), root, before));
        },
        ExprKind::Match { expr: scrutinee, arms, .. } => {
            touches_what_it_mentions(scrutinee, root, acc);
            let first = expr_accesses(held(scrutinee), root, acc);
            arms_touch(arms, root, first);
        },
        ExprKind::Block { body, .. } => {
            stmts_touch(body, root, acc);
        },
        ExprKind::Range { start, end, .. } => {
            touches_what_it_mentions(start, root, acc);
            let first = expr_accesses(held(start), root, acc);
            touches_what_it_mentions(end, root, first);
        },
        ExprKind::Tuple(exprs, _) => {
            all_touch(exprs, root, acc);
        },
        ExprKind::ArrayLiteral { elements, .. } => {
            all_touch(elements, root, acc);
        },
        ExprKind::Binary { left, right, .. } => {
            touches_what_it_mentions(left, root, acc);
            let first = expr_accesses(held(left), root, acc);
            touches_what_it_mentions(right, root, first);
        },
        ExprKind::Comparison { left, right, .. } => {
            touches_what_it_mentions(left, root, acc);
            let first = expr_accesses(held(left), root, acc);
            touches_what_it_mentions(right, root, first);
        },
        ExprKind::Call { callee, args, .. } => {
            touches_what_it_mentions(callee, root, acc);
            let first = expr_accesses(held(callee), root, acc);
            all_touch(args, root, first);
        },
        ExprKind::InterfaceCall { callee, args, .. } => {
            touches_what_it_mentions(callee, root, acc);
            let first = expr_accesses(held(callee), root, acc);
            all_touch(args, root, first);
        },
        ExprKind::StructInit { args, .. } => {
            inits_touch(args, root, acc);
        },
        ExprKind::EnumInit { args, .. } => {
            all_touch(args, root, acc);
        },
        ExprKind::ExprList { list, .. } => {
            all_touch(list, root, acc);
        },
        ExprKind::Deref { expr: inner, .. } => {
            touches_what_it_mentions(inner, root, acc);
        },
        ExprKind::Cast { expr: inner, .. } => {
            touches_what_it_mentions(inner, root, acc);
        },
        ExprKind::Lambda { body, .. } => {
            stmt_touches(body, root, acc);
        },
        ExprKind::InterpolatedString(parts) => {
            parts_touch(parts, root, acc);
        },
        ExprKind::Intrinsic { args, .. } => {
            all_touch(args, root, acc);
        },
        ExprKind::If { if_stmt, .. } => {
            stmt_touches(if_stmt, root, acc);
        },
        _ => {},
    }
}

proof fn all_touch(list: &List<HirExpr>, root: StrId, acc: Accesses)
    requires
        all_open(*list, root),
        root != this_name(),
    ensures
        grown(acc, exprs_accesses(*list, root, acc), exprs_mention(*list, root)),
    decreases list,
{
    match list {
        Nil => {},
        Cons(head, rest) => {
            touches_what_it_mentions(head, root, acc);
            all_touch(rest, root, expr_accesses(held(head), root, acc));
        },
    }
}

proof fn inits_touch(list: &List<HirFieldInit>, root: StrId, acc: Accesses)
    requires
        inits_open(*list, root),
        root != this_name(),
    ensures
        grown(acc, inits_accesses(*list, root, acc), inits_mention(*list, root)),
    decreases list,
{
    match list {
        Nil => {},
        Cons(head, rest) => {
            touches_what_it_mentions(&head.value, root, acc);
            inits_touch(rest, root, expr_accesses(held(head).value, root, acc));
        },
    }
}

proof fn parts_touch(list: &List<InterpolationPart>, root: StrId, acc: Accesses)
    requires
        parts_open(*list, root),
        root != this_name(),
    ensures
        grown(acc, parts_accesses(*list, root, acc), parts_mention(*list, root)),
    decreases list,
{
    match list {
        Nil => {},
        Cons(head, rest) => match &**head {
            InterpolationPart::Expr(expr) => {
                touches_what_it_mentions(expr, root, acc);
                parts_touch(rest, root, expr_accesses(held(expr), root, acc));
            },
            InterpolationPart::Text(_) => parts_touch(rest, root, acc),
        },
    }
}

proof fn arms_touch(list: &List<HirMatchArm>, root: StrId, acc: Accesses)
    requires
        arms_open(*list, root),
        root != this_name(),
    ensures
        grown(acc, arms_accesses(*list, root, acc), arms_mention(*list, root)),
    decreases list,
{
    match list {
        Nil => {},
        Cons(head, rest) => {
            if let Some(guard) = &head.guard {
                touches_what_it_mentions(guard, root, acc);
            }
            let guarded = option_accesses(&head.guard, root, acc);
            stmt_touches(&head.body, root, guarded);
            arms_touch(rest, root, stmt_accesses(held(&head.body), root, guarded));
        },
    }
}

proof fn stmts_touch(list: &List<HirStmt>, root: StrId, acc: Accesses)
    requires
        stmts_open(*list, root),
        root != this_name(),
    ensures
        grown(acc, stmts_accesses(*list, root, acc), stmts_mention(*list, root)),
    decreases list,
{
    match list {
        Nil => {},
        Cons(head, rest) => {
            stmt_touches(head, root, acc);
            stmts_touch(rest, root, stmt_accesses(held(head), root, acc));
        },
    }
}

/// A statement accesses a parameter exactly where it mentions it.
pub proof fn stmt_touches(stmt: &HirStmt, root: StrId, acc: Accesses)
    requires
        stmt_open(*stmt, root),
        root != this_name(),
    ensures
        grown(acc, stmt_accesses(*stmt, root, acc), stmt_mentions(*stmt, root)),
    decreases stmt,
{
    match &stmt.kind {
        StmtKind::Let { value, else_block, .. } => {
            touches_what_it_mentions(value, root, acc);
            let first = expr_accesses(*value, root, acc);
            if let Some(other) = else_block {
                stmt_touches(other, root, first);
            }
        },
        StmtKind::Return(value, _) => {
            if let Some(inner) = value {
                touches_what_it_mentions(inner, root, acc);
            }
        },
        StmtKind::Break(value, _) => {
            if let Some(inner) = value {
                touches_what_it_mentions(inner, root, acc);
            }
        },
        StmtKind::Expr(expr) => {
            touches_what_it_mentions(expr, root, acc);
        },
        StmtKind::If { cond, then_block, else_block, .. } => {
            touches_what_it_mentions(cond, root, acc);
            let first = expr_accesses(*cond, root, acc);
            stmts_touch(then_block, root, first);
            let second = stmts_accesses(*then_block, root, first);
            if let Some(other) = else_block {
                stmt_touches(other, root, second);
            }
        },
        StmtKind::While { cond, body } => {
            touches_what_it_mentions(cond, root, acc);
            let first = expr_accesses(held(cond), root, acc);
            stmt_touches(body, root, first);
        },
        StmtKind::For { init, condition, increment, body } => {
            if let Some(other) = init {
                stmt_touches(other, root, acc);
            }
            let first = other_accesses(init, root, acc);
            if let Some(inner) = condition {
                touches_what_it_mentions(inner, root, first);
            }
            let second = option_accesses(condition, root, first);
            if let Some(inner) = increment {
                touches_what_it_mentions(inner, root, second);
            }
            let third = option_accesses(increment, root, second);
            stmt_touches(body, root, third);
        },
        StmtKind::Block { body, .. } => {
            stmts_touch(body, root, acc);
        },
        StmtKind::Const(constant) => {
            touches_what_it_mentions(&constant.value, root, acc);
        },
        StmtKind::Match { expr, arms, .. } => {
            touches_what_it_mentions(expr, root, acc);
            let first = expr_accesses(held(expr), root, acc);
            arms_touch(arms, root, first);
        },
        StmtKind::UnsafeBlock { body } => {
            stmt_touches(body, root, acc);
        },
        StmtKind::Defer(body) => {
            stmt_touches(body, root, acc);
        },
        _ => {},
    }
}

/// An assignment to a part of a parameter writes it, and reads it too where the value is computed
/// from it.
pub proof fn assignments_write(expr: HirExpr, root: StrId, acc: Accesses)
    requires
        expr.kind matches ExprKind::Assignment { target, .. } && place_below(*target, root) is Some,
    ensures
        expr.kind matches ExprKind::Assignment { target, op, value, .. } && {
            let before = expr_accesses(*value, root, acc);
            let after = expr_accesses(expr, root, acc);
            let place = place_below(*target, root)->0;
            &&& after.writes == before.writes.snoc(place)
            &&& after.reads == if op is Assign {
                before.reads
            } else {
                before.reads.snoc(place)
            }
        },
{
    reveal(Accesses::with_read);
    reveal(Accesses::with_write);
}

/// A reference to a part of a parameter reads it, and writes it too unless it is a shared one.
pub proof fn references_access(expr: HirExpr, root: StrId, acc: Accesses)
    requires
        expr.kind matches ExprKind::Ref { expr: inner, .. } && place_below(*inner, root) is Some,
    ensures
        expr.kind matches ExprKind::Ref { expr: inner, ref_kind, .. } && {
            let after = expr_accesses(expr, root, acc);
            let place = place_below(*inner, root)->0;
            &&& after.reads == acc.reads.snoc(place)
            &&& after.writes == if ref_kind is Shared {
                acc.writes
            } else {
                acc.writes.snoc(place)
            }
        },
{
    reveal(Accesses::with_read);
    reveal(Accesses::with_write);
}

} // verus!
