//! Which locals are still used behind a point, and that these are the ones that are mentioned.

use std::rc::Rc;

use vstd::prelude::*;

use crate::hir::{
    ExprKind, HirExpr, HirFieldInit, HirMatchArm, HirStmt, InterpolationPart, StmtKind, StrId,
};
use crate::list::{held, member_added, update_then_lookup, with_member, Cons, List, Nil};
use crate::liveness::{
    arms_mention, exprs_mention, inits_mention, mentions, parts_mention, stmt_mentions,
    stmts_mention,
};
use crate::type_checker::Points;
use crate::type_context::list_at;

verus! {

/// Whether a local is used at some point.
pub open spec fn used(points: Points, name: StrId) -> bool {
    exists|point: usize| #[trigger] list_at(points.locals_used, point).has(name)
}

impl Points {
    /// After an expression that may be missing.
    pub open spec fn after_option(self, expr: &Option<Rc<HirExpr>>) -> Points {
        match expr {
            Some(inner) => self.after_expr(held(inner)),
            None => self,
        }
    }

    /// After a statement that may be missing.
    pub open spec fn after_other(self, stmt: &Option<Rc<HirStmt>>) -> Points {
        match stmt {
            Some(inner) => self.after_stmt(held(inner)),
            None => self,
        }
    }
}

/// An expression in which no declaration handles errors.
pub open spec fn plain(expr: HirExpr) -> bool
    decreases expr,
{
    match expr.kind {
        ExprKind::Match { expr: scrutinee, arms, .. } => {
            &&& plain(*scrutinee)
            &&& arms_plain(arms)
        },
        ExprKind::Block { body, .. } => {
            &&& stmts_plain(body)
        },
        ExprKind::Range { start, end, .. } => {
            &&& plain(*start)
            &&& plain(*end)
        },
        ExprKind::Slice { object, start, end, .. } => {
            &&& plain(*object)
            &&& plain(*start)
            &&& plain(*end)
        },
        ExprKind::Tuple(exprs, _) => {
            &&& all_plain(exprs)
        },
        ExprKind::ArrayLiteral { elements, .. } => {
            &&& all_plain(elements)
        },
        ExprKind::Binary { left, right, .. } => {
            &&& plain(*left)
            &&& plain(*right)
        },
        ExprKind::Comparison { left, right, .. } => {
            &&& plain(*left)
            &&& plain(*right)
        },
        ExprKind::Call { callee, args, .. } => {
            &&& plain(*callee)
            &&& all_plain(args)
        },
        ExprKind::InterfaceCall { callee, args, .. } => {
            &&& plain(*callee)
            &&& all_plain(args)
        },
        ExprKind::FieldAccess { object, .. } => {
            &&& plain(*object)
        },
        ExprKind::Get { object, .. } => {
            &&& plain(*object)
        },
        ExprKind::Assignment { target, value, .. } => {
            &&& plain(*target)
            &&& plain(*value)
        },
        ExprKind::StructInit { args, .. } => {
            &&& inits_plain(args)
        },
        ExprKind::EnumInit { args, .. } => {
            &&& all_plain(args)
        },
        ExprKind::ExprList { list, .. } => {
            &&& all_plain(list)
        },
        ExprKind::Deref { expr: inner, .. } => {
            &&& plain(*inner)
        },
        ExprKind::Ref { expr: inner, .. } => {
            &&& plain(*inner)
        },
        ExprKind::Cast { expr: inner, .. } => {
            &&& plain(*inner)
        },
        ExprKind::Index { object, index, .. } => {
            &&& plain(*object)
            &&& plain(*index)
        },
        ExprKind::Lambda { body, .. } => {
            &&& stmt_plain(*body)
        },
        ExprKind::InterpolatedString(parts) => {
            &&& parts_plain(parts)
        },
        ExprKind::Intrinsic { args, .. } => {
            &&& all_plain(args)
        },
        ExprKind::If { if_stmt, .. } => {
            &&& stmt_plain(*if_stmt)
        },
        _ => true,
    }
}

pub open spec fn all_plain(exprs: List<HirExpr>) -> bool
    decreases exprs,
{
    match exprs {
        Nil => true,
        Cons(expr, rest) => plain(*expr) && all_plain(*rest),
    }
}

pub open spec fn inits_plain(inits: List<HirFieldInit>) -> bool
    decreases inits,
{
    match inits {
        Nil => true,
        Cons(init, rest) => plain(init.value) && inits_plain(*rest),
    }
}

pub open spec fn parts_plain(parts: List<InterpolationPart>) -> bool
    decreases parts,
{
    match parts {
        Nil => true,
        Cons(part, rest) => match *part {
            InterpolationPart::Expr(expr) => plain(*expr) && parts_plain(*rest),
            InterpolationPart::Text(_) => parts_plain(*rest),
        },
    }
}

pub open spec fn arms_plain(arms: List<HirMatchArm>) -> bool
    decreases arms,
{
    match arms {
        Nil => true,
        Cons(arm, rest) => {
            &&& match arm.guard {
                Some(guard) => plain(*guard),
                None => true,
            }
            &&& stmt_plain(*arm.body)
            &&& arms_plain(*rest)
        },
    }
}

pub open spec fn stmts_plain(stmts: List<HirStmt>) -> bool
    decreases stmts,
{
    match stmts {
        Nil => true,
        Cons(stmt, rest) => stmt_plain(*stmt) && stmts_plain(*rest),
    }
}

/// A statement in which no declaration handles errors.
pub open spec fn stmt_plain(stmt: HirStmt) -> bool
    decreases stmt,
{
    match stmt.kind {
        StmtKind::Let { value, else_block, catch_pattern, .. } => {
            &&& plain(value)
            &&& match else_block { Some(other) => stmt_plain(*other), None => true }
            &&& catch_pattern is None
        },
        StmtKind::Return(value, _) => {
            &&& match value { Some(inner) => plain(*inner), None => true }
        },
        StmtKind::Break(value, _) => {
            &&& match value { Some(inner) => plain(*inner), None => true }
        },
        StmtKind::Expr(expr) => {
            &&& plain(*expr)
        },
        StmtKind::If { cond, then_block, else_block, .. } => {
            &&& plain(cond)
            &&& stmts_plain(then_block)
            &&& match else_block { Some(other) => stmt_plain(*other), None => true }
        },
        StmtKind::While { cond, body } => {
            &&& plain(*cond)
            &&& stmt_plain(*body)
        },
        StmtKind::For { init, condition, increment, body } => {
            &&& match init { Some(other) => stmt_plain(*other), None => true }
            &&& match condition { Some(inner) => plain(*inner), None => true }
            &&& match increment { Some(inner) => plain(*inner), None => true }
            &&& stmt_plain(*body)
        },
        StmtKind::Block { body, .. } => {
            &&& stmts_plain(body)
        },
        StmtKind::Const(constant) => {
            &&& plain(constant.value)
        },
        StmtKind::Match { expr, arms, .. } => {
            &&& plain(*expr)
            &&& arms_plain(arms)
        },
        StmtKind::UnsafeBlock { body } => {
            &&& stmt_plain(*body)
        },
        StmtKind::Defer(body) => {
            &&& stmt_plain(*body)
        },
        _ => true,
    }
}

proof fn use_is_noted(points: Points, noted: StrId, name: StrId)
    ensures
        used(points.with_use(noted), name) == (used(points, name) || noted == name),
{
    reveal(Points::with_use);
    let here = list_at(points.locals_used, points.current);
    member_added(here, noted, name);
    let after = points.with_use(noted);
    assert forall|point: usize| list_at(after.locals_used, point).has(name) == (list_at(
        points.locals_used,
        point,
    ).has(name) || point == points.current && noted == name) by {
        update_then_lookup(
            points.locals_used,
            points.current,
            with_member(here, noted),
            point,
        );
    }
    if used(points, name) {
        let point = choose|point: usize| #[trigger] list_at(points.locals_used, point).has(name);
        assert(list_at(after.locals_used, point).has(name));
    }
    if noted == name {
        assert(list_at(after.locals_used, points.current).has(name));
    }
    if used(after, name) {
        let point = choose|point: usize| #[trigger] list_at(after.locals_used, point).has(name);
        assert(list_at(points.locals_used, point).has(name) || noted == name);
    }
}

proof fn moving_uses_nothing(points: Points, stmt: HirStmt, name: StrId)
    ensures
        used(points.moved_to(stmt), name) == used(points, name),
{
    reveal(Points::moved_to);
    assert(points.moved_to(stmt).locals_used == points.locals_used);
}

/// The locals that an expression uses are those that it mentions.
pub proof fn uses_what_it_mentions(points: Points, expr: &HirExpr, name: StrId)
    requires
        plain(*expr),
    ensures
        used(points.after_expr(*expr), name) == (used(points, name) || mentions(*expr, name)),
    decreases expr,
{
    match &expr.kind {
        ExprKind::Ident(noted, _) => use_is_noted(points, *noted, name),
        ExprKind::Match { expr: scrutinee, arms, .. } => {
            uses_what_it_mentions(points, scrutinee, name);
            let first = points.after_expr(held(scrutinee));
            arms_use(first, arms, name);
        },
        ExprKind::Block { body, .. } => {
            stmts_use(points, body, name);
        },
        ExprKind::Range { start, end, .. } => {
            uses_what_it_mentions(points, start, name);
            let first = points.after_expr(held(start));
            uses_what_it_mentions(first, end, name);
        },
        ExprKind::Slice { object, start, end, .. } => {
            uses_what_it_mentions(points, object, name);
            let first = points.after_expr(held(object));
            uses_what_it_mentions(first, start, name);
            let second = first.after_expr(held(start));
            uses_what_it_mentions(second, end, name);
        },
        ExprKind::Tuple(exprs, _) => {
            all_use(points, exprs, name);
        },
        ExprKind::ArrayLiteral { elements, .. } => {
            all_use(points, elements, name);
        },
        ExprKind::Binary { left, right, .. } => {
            uses_what_it_mentions(points, left, name);
            let first = points.after_expr(held(left));
            uses_what_it_mentions(first, right, name);
        },
        ExprKind::Comparison { left, right, .. } => {
            uses_what_it_mentions(points, left, name);
            let first = points.after_expr(held(left));
            uses_what_it_mentions(first, right, name);
        },
        ExprKind::Call { callee, args, .. } => {
            uses_what_it_mentions(points, callee, name);
            let first = points.after_expr(held(callee));
            all_use(first, args, name);
        },
        ExprKind::InterfaceCall { callee, args, .. } => {
            uses_what_it_mentions(points, callee, name);
            let first = points.after_expr(held(callee));
            all_use(first, args, name);
        },
        ExprKind::FieldAccess { object, .. } => {
            uses_what_it_mentions(points, object, name);
        },
        ExprKind::Get { object, .. } => {
            uses_what_it_mentions(points, object, name);
        },
        ExprKind::Assignment { target, value, .. } => {
            uses_what_it_mentions(points, target, name);
            let first = points.after_expr(held(target));
            uses_what_it_mentions(first, value, name);
        },
        ExprKind::StructInit { args, .. } => {
            inits_use(points, args, name);
        },
        ExprKind::EnumInit { args, .. } => {
            all_use(points, args, name);
        },
        ExprKind::ExprList { list, .. } => {
            all_use(points, list, name);
        },
        ExprKind::Deref { expr: inner, .. } => {
            uses_what_it_mentions(points, inner, name);
        },
        ExprKind::Ref { expr: inner, .. } => {
            uses_what_it_mentions(points, inner, name);
        },
        ExprKind::Cast { expr: inner, .. } => {
            uses_what_it_mentions(points, inner, name);
        },
        ExprKind::Index { object, index, .. } => {
            uses_what_it_mentions(points, object, name);
            let first = points.after_expr(held(object));
            uses_what_it_mentions(first, index, name);
        },
        ExprKind::Lambda { body, .. } => {
            stmt_uses(points, body, name);
        },
        ExprKind::InterpolatedString(parts) => {
            parts_use(points, parts, name);
        },
        ExprKind::Intrinsic { args, .. } => {
            all_use(points, args, name);
        },
        ExprKind::If { if_stmt, .. } => {
            stmt_uses(points, if_stmt, name);
        },
        _ => {},
    }
}

proof fn all_use(points: Points, list: &List<HirExpr>, name: StrId)
    requires
        all_plain(*list),
    ensures
        used(points.after_exprs(*list), name) == (used(points, name) || exprs_mention(*list, name)),
    decreases list,
{
    match list {
        Nil => {},
        Cons(head, rest) => {
            uses_what_it_mentions(points, head, name);
            all_use(points.after_expr(held(head)), rest, name);
        },
    }
}

proof fn inits_use(points: Points, list: &List<HirFieldInit>, name: StrId)
    requires
        inits_plain(*list),
    ensures
        used(points.after_inits(*list), name) == (used(points, name) || inits_mention(*list, name)),
    decreases list,
{
    match list {
        Nil => {},
        Cons(head, rest) => {
            uses_what_it_mentions(points, &head.value, name);
            inits_use(points.after_expr(held(head).value), rest, name);
        },
    }
}

proof fn parts_use(points: Points, list: &List<InterpolationPart>, name: StrId)
    requires
        parts_plain(*list),
    ensures
        used(points.after_parts(*list), name) == (used(points, name) || parts_mention(*list, name)),
    decreases list,
{
    match list {
        Nil => {},
        Cons(head, rest) => match &**head {
            InterpolationPart::Expr(expr) => {
                uses_what_it_mentions(points, expr, name);
                parts_use(points.after_expr(held(expr)), rest, name);
            },
            InterpolationPart::Text(_) => parts_use(points, rest, name),
        },
    }
}

proof fn arms_use(points: Points, list: &List<HirMatchArm>, name: StrId)
    requires
        arms_plain(*list),
    ensures
        used(points.after_arms(*list), name) == (used(points, name) || arms_mention(*list, name)),
    decreases list,
{
    match list {
        Nil => {},
        Cons(head, rest) => {
            if let Some(guard) = &head.guard {
                uses_what_it_mentions(points, guard, name);
            }
            let guarded = points.after_option(&head.guard);
            stmt_uses(guarded, &head.body, name);
            arms_use(guarded.after_stmt(held(&head.body)), rest, name);
        },
    }
}

proof fn stmts_use(points: Points, list: &List<HirStmt>, name: StrId)
    requires
        stmts_plain(*list),
    ensures
        used(points.after_stmts(*list), name) == (used(points, name) || stmts_mention(*list, name)),
    decreases list,
{
    match list {
        Nil => {},
        Cons(head, rest) => {
            stmt_uses(points, head, name);
            stmts_use(points.after_stmt(held(head)), rest, name);
        },
    }
}

/// The locals that a statement uses are those that it mentions.
pub proof fn stmt_uses(points: Points, stmt: &HirStmt, name: StrId)
    requires
        stmt_plain(*stmt),
    ensures
        used(points.after_stmt(*stmt), name) == (used(points, name) || stmt_mentions(*stmt, name)),
    decreases stmt,
{
    moving_uses_nothing(points, *stmt, name);
    let here = points.moved_to(*stmt);
    match &stmt.kind {
        StmtKind::Let { value, else_block, .. } => {
            uses_what_it_mentions(here, value, name);
            let first = here.after_expr(*value);
            if let Some(other) = else_block { stmt_uses(first, other, name); }
        },
        StmtKind::Return(value, _) => {
            if let Some(inner) = value { uses_what_it_mentions(here, inner, name); }
        },
        StmtKind::Break(value, _) => {
            if let Some(inner) = value { uses_what_it_mentions(here, inner, name); }
        },
        StmtKind::Expr(expr) => {
            uses_what_it_mentions(here, expr, name);
        },
        StmtKind::If { cond, then_block, else_block, .. } => {
            uses_what_it_mentions(here, cond, name);
            let first = here.after_expr(*cond);
            stmts_use(first, then_block, name);
            let second = first.after_stmts(*then_block);
            if let Some(other) = else_block { stmt_uses(second, other, name); }
        },
        StmtKind::While { cond, body } => {
            uses_what_it_mentions(here, cond, name);
            let first = here.after_expr(held(cond));
            stmt_uses(first, body, name);
        },
        StmtKind::For { init, condition, increment, body } => {
            if let Some(other) = init { stmt_uses(here, other, name); }
            let first = here.after_other(init);
            if let Some(inner) = condition { uses_what_it_mentions(first, inner, name); }
            let second = first.after_option(condition);
            if let Some(inner) = increment { uses_what_it_mentions(second, inner, name); }
            let third = second.after_option(increment);
            stmt_uses(third, body, name);
        },
        StmtKind::Block { body, .. } => {
            stmts_use(here, body, name);
        },
        StmtKind::Const(constant) => {
            uses_what_it_mentions(here, &constant.value, name);
        },
        StmtKind::Match { expr, arms, .. } => {
            uses_what_it_mentions(here, expr, name);
            let first = here.after_expr(held(expr));
            arms_use(first, arms, name);
        },
        StmtKind::UnsafeBlock { body } => {
            stmt_uses(here, body, name);
        },
        StmtKind::Defer(body) => {
            stmt_uses(here, body, name);
        },
        _ => {},
    }
}

} // verus!
