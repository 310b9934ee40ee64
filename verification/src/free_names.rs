//! Which names occur free in a lambda, and that these are the ones it captures.

use std::rc::Rc;

use vstd::prelude::*;

use crate::closures::{
    by_length, captured_paths, coalesced, effect_path, enclosing_paths, fields_names, params_bound,
    passes_one_of, pattern_names, patterns_names, placed_by_length, without_extensions, FreePath,
    FreePaths,
};
use crate::hir::{
    ExprKind, HirErrorBranch, HirErrorHandlerPattern, HirExpr, HirFieldInit, HirLambdaParam,
    HirMatchArm, HirPattern, HirStmt, InterpolationPart, StmtKind, StrId,
};
use crate::list::{has_key, held, Cons, List, Nil};
use crate::type_checker::this_name;
use crate::type_context::TypeContext;

verus! {

/// What a part of a program does with a name: whether it uses one that stands around it, and whether
/// the name is declared behind it.
pub struct Sighting {
    pub free: bool,
    pub declared: bool,
}

impl Sighting {
    pub open spec fn nothing() -> Sighting {
        Sighting { free: false, declared: false }
    }

    /// Two parts, one after the other: a name that the first declares is not free in the second.
    pub open spec fn followed_by(self, next: Sighting) -> Sighting {
        Sighting {
            free: self.free || (!self.declared && next.free),
            declared: self.declared || next.declared,
        }
    }

    /// A scope: what is declared in it ends with it.
    pub open spec fn enclosed(self) -> Sighting {
        Sighting { free: self.free, declared: false }
    }

    /// A part in front of which the name may be declared.
    pub open spec fn behind(self, declared: bool) -> Sighting {
        Sighting { free: self.free && !declared, declared: self.declared || declared }
    }
}

/// Whether an expression is a name, or an access to fields and elements that starts from one.
pub open spec fn reaches_from_name(expr: HirExpr) -> bool
    decreases expr,
{
    match expr.kind {
        ExprKind::Ident(_, _) | ExprKind::This { .. } => true,
        ExprKind::FieldAccess { object, .. } => reaches_from_name(*object),
        ExprKind::Get { object, .. } => reaches_from_name(*object),
        ExprKind::Index { object, .. } => reaches_from_name(*object),
        _ => false,
    }
}

/// The name that such an expression starts from.
pub open spec fn starts_from(expr: HirExpr, name: StrId) -> bool
    decreases expr,
{
    match expr.kind {
        ExprKind::Ident(used, _) => used == name,
        ExprKind::This { .. } => name == this_name(),
        ExprKind::FieldAccess { object, .. } => starts_from(*object, name),
        ExprKind::Get { object, .. } => starts_from(*object, name),
        ExprKind::Index { object, .. } => starts_from(*object, name),
        _ => false,
    }
}

/// Whether a pattern declares a name.
pub open spec fn pattern_declares_name(pattern: HirPattern, name: StrId) -> bool
    decreases pattern,
{
    match pattern {
        HirPattern::Ident(bound) => bound == name,
        HirPattern::EnumVariant { bindings, .. } => bindings.has(name),
        HirPattern::Tuple(patterns) => patterns_declare_name(patterns, name),
        HirPattern::Array(patterns) => patterns_declare_name(patterns, name),
        HirPattern::Or(patterns) => patterns_declare_name(patterns, name),
        HirPattern::Struct { fields, .. } => fields_declare_name(fields, name),
        _ => false,
    }
}

pub open spec fn patterns_declare_name(patterns: List<HirPattern>, name: StrId) -> bool
    decreases patterns,
{
    match patterns {
        Nil => false,
        Cons(pattern, rest) => pattern_declares_name(*pattern, name) || patterns_declare_name(
            *rest,
            name,
        ),
    }
}

pub open spec fn fields_declare_name(fields: List<(StrId, HirPattern)>, name: StrId) -> bool
    decreases fields,
{
    match fields {
        Nil => false,
        Cons(field, rest) => pattern_declares_name(field.1, name) || fields_declare_name(*rest, name),
    }
}

pub open spec fn params_declare_name(params: List<HirLambdaParam>, name: StrId) -> bool
    decreases params,
{
    match params {
        Nil => false,
        Cons(param, rest) => param.name == name || params_declare_name(*rest, name),
    }
}

/// What stands in front of a field or an index. An access that starts from a name uses that name.
pub open spec fn object_sees(object: HirExpr, name: StrId) -> Sighting
    decreases object, 1int,
{
    if reaches_from_name(object) {
        Sighting { free: starts_from(object, name), declared: false }
    } else {
        expr_sees(object, name)
    }
}

/// What an expression does with a name. Its parts come in the order in which they are evaluated.
pub open spec fn expr_sees(expr: HirExpr, name: StrId) -> Sighting
    decreases expr, 0int,
{
    match expr.kind {
        ExprKind::Ident(used, _) => Sighting { free: used == name, declared: false },
        ExprKind::This { .. } => Sighting { free: name == this_name(), declared: false },
        ExprKind::FieldAccess { object, .. } => object_sees(*object, name),
        ExprKind::Get { object, .. } => object_sees(*object, name),
        ExprKind::Index { object, index, .. } => object_sees(*object, name).followed_by(
            expr_sees(*index, name),
        ),
        ExprKind::Assignment { target, value, .. } => expr_sees(*target, name).followed_by(expr_sees(*value, name)),
        ExprKind::Ref { expr: inner, .. } => expr_sees(*inner, name),
        ExprKind::Deref { expr: inner, .. } => expr_sees(*inner, name),
        ExprKind::Cast { expr: inner, .. } => expr_sees(*inner, name),
        ExprKind::Slice { object, start, end, .. } => expr_sees(*object, name).followed_by(expr_sees(*start, name)).followed_by(expr_sees(*end, name)),
        ExprKind::Range { start, end, .. } => expr_sees(*start, name).followed_by(expr_sees(*end, name)),
        ExprKind::Binary { left, right, .. } => expr_sees(*left, name).followed_by(expr_sees(*right, name)),
        ExprKind::Comparison { left, right, .. } => expr_sees(*left, name).followed_by(expr_sees(*right, name)),
        ExprKind::Tuple(exprs, _) => exprs_see(exprs, name),
        ExprKind::ArrayLiteral { elements, .. } => exprs_see(elements, name),
        ExprKind::ExprList { list, .. } => exprs_see(list, name),
        ExprKind::Call { callee, args, .. } => expr_sees(*callee, name).followed_by(
            exprs_see(args, name),
        ),
        ExprKind::InterfaceCall { callee, args, .. } => expr_sees(*callee, name).followed_by(
            exprs_see(args, name),
        ),
        ExprKind::StructInit { args, .. } => inits_see(args, name),
        ExprKind::EnumInit { args, .. } => exprs_see(args, name),
        ExprKind::Intrinsic { args, .. } => exprs_see(args, name),
        ExprKind::InterpolatedString(parts) => parts_see(parts, name),
        ExprKind::If { if_stmt, .. } => stmt_sees(*if_stmt, name),
        ExprKind::Match { expr: scrutinee, arms, .. } => expr_sees(*scrutinee, name).followed_by(
            arms_see(arms, name),
        ),
        ExprKind::Block { body, .. } => stmts_see(body, name).enclosed(),
        ExprKind::Lambda { params, body, .. } => stmt_sees(*body, name).behind(
            params_declare_name(params, name),
        ).enclosed(),
        _ => Sighting::nothing(),
    }
}

pub open spec fn exprs_see(exprs: List<HirExpr>, name: StrId) -> Sighting
    decreases exprs, 0int,
{
    match exprs {
        Nil => Sighting::nothing(),
        Cons(expr, rest) => expr_sees(*expr, name).followed_by(exprs_see(*rest, name)),
    }
}

pub open spec fn inits_see(inits: List<HirFieldInit>, name: StrId) -> Sighting
    decreases inits, 0int,
{
    match inits {
        Nil => Sighting::nothing(),
        Cons(init, rest) => expr_sees(init.value, name).followed_by(inits_see(*rest, name)),
    }
}

pub open spec fn parts_see(parts: List<InterpolationPart>, name: StrId) -> Sighting
    decreases parts, 0int,
{
    match parts {
        Nil => Sighting::nothing(),
        Cons(part, rest) => match *part {
            InterpolationPart::Expr(expr) => expr_sees(*expr, name).followed_by(
                parts_see(*rest, name),
            ),
            InterpolationPart::Text(_) => parts_see(*rest, name),
        },
    }
}

/// The arms of a match. What a pattern declares reaches to the end of its arm.
pub open spec fn arms_see(arms: List<HirMatchArm>, name: StrId) -> Sighting
    decreases arms, 0int,
{
    match arms {
        Nil => Sighting::nothing(),
        Cons(arm, rest) => {
            let guarded = match arm.guard {
                Some(guard) => expr_sees(*guard, name),
                None => Sighting::nothing(),
            };
            guarded.followed_by(stmt_sees(*arm.body, name)).behind(
                pattern_declares_name(arm.pattern, name),
            ).enclosed().followed_by(arms_see(*rest, name))
        },
    }
}

pub open spec fn stmts_see(stmts: List<HirStmt>, name: StrId) -> Sighting
    decreases stmts, 0int,
{
    match stmts {
        Nil => Sighting::nothing(),
        Cons(stmt, rest) => stmt_sees(*stmt, name).followed_by(stmts_see(*rest, name)),
    }
}

pub open spec fn branches_see(branches: List<HirErrorBranch>, name: StrId) -> Sighting
    decreases branches, 0int,
{
    match branches {
        Nil => Sighting::nothing(),
        Cons(branch, rest) => stmts_see(branch.body, name).followed_by(branches_see(*rest, name)),
    }
}

pub open spec fn option_sees(expr: Option<Rc<HirExpr>>, name: StrId) -> Sighting
    decreases expr, 0int,
{
    match expr {
        Some(inner) => expr_sees(*inner, name),
        None => Sighting::nothing(),
    }
}

pub open spec fn other_sees(stmt: Option<Rc<HirStmt>>, name: StrId) -> Sighting
    decreases stmt, 0int,
{
    match stmt {
        Some(inner) => stmt_sees(*inner, name),
        None => Sighting::nothing(),
    }
}

/// What a statement does with a name. A declaration declares its name behind its value, and behind
/// what is done where there is no value.
pub open spec fn stmt_sees(stmt: HirStmt, name: StrId) -> Sighting
    decreases stmt, 0int,
{
    match stmt.kind {
        StmtKind::Let { name: new, value, else_block, catch_pattern, .. } => {
            let handled = match catch_pattern {
                Some(HirErrorHandlerPattern::Single { body }) => stmts_see(body, name),
                Some(HirErrorHandlerPattern::Multiple { branches }) => branches_see(branches, name),
                None => Sighting::nothing(),
            };
            expr_sees(value, name).followed_by(other_sees(else_block, name)).followed_by(
                handled,
            ).followed_by(Sighting { free: false, declared: new == name })
        },
        StmtKind::Const(constant) => expr_sees(constant.value, name).followed_by(
            Sighting { free: false, declared: constant.name == name },
        ),
        StmtKind::Return(value, _) => option_sees(value, name),
        StmtKind::Break(value, _) => option_sees(value, name),
        StmtKind::Expr(expr) => expr_sees(*expr, name),
        StmtKind::If { cond, then_block, else_block, .. } => expr_sees(cond, name).followed_by(
            stmts_see(then_block, name).enclosed(),
        ).followed_by(other_sees(else_block, name)),
        StmtKind::While { cond, body } => expr_sees(*cond, name).followed_by(
            stmt_sees(*body, name),
        ),
        StmtKind::For { init, condition, increment, body } => other_sees(init, name).followed_by(
            option_sees(condition, name),
        ).followed_by(option_sees(increment, name)).followed_by(
            stmt_sees(*body, name),
        ).enclosed(),
        StmtKind::Block { body, .. } => stmts_see(body, name).enclosed(),
        StmtKind::Match { expr, arms, .. } => expr_sees(*expr, name).followed_by(
            arms_see(arms, name),
        ),
        StmtKind::UnsafeBlock { body } => stmt_sees(*body, name),
        StmtKind::Defer(body) => stmt_sees(*body, name),
        _ => Sighting::nothing(),
    }
}

/// Whether one of the paths starts from a name.
pub open spec fn rooted(paths: List<FreePath>, name: StrId) -> bool
    decreases paths,
{
    match paths {
        Nil => false,
        Cons(path, rest) => path.0 == name || rooted(*rest, name),
    }
}

impl FreePaths {
    /// After an expression that may be missing.
    pub open spec fn after_option(self, expr: Option<Rc<HirExpr>>) -> FreePaths {
        match expr {
            Some(inner) => self.after_expr(*inner),
            None => self,
        }
    }

    /// After a statement that may be missing.
    pub open spec fn after_other(self, stmt: Option<Rc<HirStmt>>) -> FreePaths {
        match stmt {
            Some(inner) => self.after_stmt(*inner),
            None => self,
        }
    }

    /// Whether, of a name, this is what a part of a program leaves behind.
    pub open spec fn follows(self, before: FreePaths, sighting: Sighting, name: StrId) -> bool {
        &&& rooted(self.found, name) == (rooted(before.found, name) || (!before.bound.has(name)
            && sighting.free))
        &&& self.bound.has(name) == (before.bound.has(name) || sighting.declared)
    }
}

proof fn rooted_if_there(paths: List<FreePath>, path: FreePath)
    ensures
        paths.has(path) ==> rooted(paths, path.0),
    decreases paths,
{
    match paths {
        Nil => {},
        Cons(_, _) => rooted_if_there(paths.rest(), path),
    }
}

proof fn rooted_when_added(paths: List<FreePath>, last: FreePath, name: StrId)
    ensures
        rooted(paths.snoc(last), name) == (rooted(paths, name) || last.0 == name),
    decreases paths,
{
    match paths {
        Nil => {
            reveal_with_fuel(rooted, 2);
        },
        Cons(_, _) => rooted_when_added(paths.rest(), last, name),
    }
}

proof fn path_found(
    before: FreePaths,
    root: StrId,
    path: List<crate::hir::HirEffectSegment>,
    name: StrId,
)
    ensures
        before.with_path(root, path).follows(
            before,
            Sighting { free: root == name, declared: false },
            name,
        ),
{
    rooted_if_there(before.found, (root, path));
    rooted_when_added(before.found, (root, path), name);
}

proof fn chain_has_a_path(expr: &HirExpr, name: StrId)
    ensures
        effect_path(*expr) is Some == reaches_from_name(*expr),
        effect_path(*expr) matches Some(path) ==> (path.0 == name) == starts_from(*expr, name),
    decreases expr,
{
    match &expr.kind {
        ExprKind::FieldAccess { object, .. } => chain_has_a_path(object, name),
        ExprKind::Get { object, .. } => chain_has_a_path(object, name),
        ExprKind::Index { object, .. } => chain_has_a_path(object, name),
        _ => {},
    }
}

proof fn reversed_holds_both(front: List<StrId>, back: List<StrId>, name: StrId)
    ensures
        front.reversed_onto(back).has(name) == (front.has(name) || back.has(name)),
    decreases front,
{
    match front {
        Nil => {},
        Cons(_, _) => {
            reversed_holds_both(front.rest(), List::cons_of(front.head(), back), name);
        },
    }
}

proof fn pattern_binds_its_names(pattern: &HirPattern, bound: List<StrId>, name: StrId)
    ensures
        pattern_names(*pattern, bound).has(name) == (bound.has(name) || pattern_declares_name(
            *pattern,
            name,
        )),
    decreases pattern,
{
    match pattern {
        HirPattern::EnumVariant { bindings, .. } => reversed_holds_both(*bindings, bound, name),
        HirPattern::Tuple(patterns) => patterns_bind_their_names(patterns, bound, name),
        HirPattern::Array(patterns) => patterns_bind_their_names(patterns, bound, name),
        HirPattern::Or(patterns) => patterns_bind_their_names(patterns, bound, name),
        HirPattern::Struct { fields, .. } => fields_bind_their_names(fields, bound, name),
        _ => {},
    }
}

proof fn patterns_bind_their_names(patterns: &List<HirPattern>, bound: List<StrId>, name: StrId)
    ensures
        patterns_names(*patterns, bound).has(name) == (bound.has(name) || patterns_declare_name(
            *patterns,
            name,
        )),
    decreases patterns,
{
    match patterns {
        Nil => {},
        Cons(pattern, rest) => {
            pattern_binds_its_names(pattern, bound, name);
            patterns_bind_their_names(rest, pattern_names(patterns.head(), bound), name);
        },
    }
}

proof fn fields_bind_their_names(
    fields: &List<(StrId, HirPattern)>,
    bound: List<StrId>,
    name: StrId,
)
    ensures
        fields_names(*fields, bound).has(name) == (bound.has(name) || fields_declare_name(
            *fields,
            name,
        )),
    decreases fields,
{
    match fields {
        Nil => {},
        Cons(field, rest) => {
            pattern_binds_its_names(&field.1, bound, name);
            fields_bind_their_names(rest, pattern_names(fields.head().1, bound), name);
        },
    }
}

proof fn params_bind_their_names(params: List<HirLambdaParam>, bound: List<StrId>, name: StrId)
    ensures
        params_bound(params, bound).has(name) == (bound.has(name) || params_declare_name(
            params,
            name,
        )),
    decreases params,
{
    match params {
        Nil => {},
        Cons(_, _) => params_bind_their_names(
            params.rest(),
            List::cons_of(params.head().name, bound),
            name,
        ),
    }
}

proof fn object_followed(before: FreePaths, expr: &HirExpr, object: &HirExpr, name: StrId)
    requires
        expr.object() == *object,
        expr.kind is FieldAccess || expr.kind is Get || expr.kind is Index,
    ensures
        before.after_access(*expr, *object).follows(before, object_sees(*object, name), name),
    decreases object, 1int,
{
    chain_has_a_path(expr, name);
    chain_has_a_path(object, name);
    match effect_path(*expr) {
        Some((root, path)) => path_found(before, root, path, name),
        None => expr_followed(before, object, name),
    }
}

proof fn expr_followed(before: FreePaths, expr: &HirExpr, name: StrId)
    ensures
        before.after_expr(*expr).follows(before, expr_sees(*expr, name), name),
    decreases expr, 0int,
{
    match &expr.kind {
        ExprKind::Ident(used, _) => path_found(before, *used, Nil, name),
        ExprKind::This { .. } => path_found(before, this_name(), Nil, name),
        ExprKind::FieldAccess { object, .. } => object_followed(before, expr, object, name),
        ExprKind::Get { object, .. } => object_followed(before, expr, object, name),
        ExprKind::Index { object, index, .. } => {
            object_followed(before, expr, object, name);
            expr_followed(before.after_access(*expr, expr.object()), index, name);
        },
        ExprKind::Assignment { target, value, .. } => {
            expr_followed(before, target, name);
            expr_followed(before.after_expr(held(target)), value, name);
        },
        ExprKind::Ref { expr: inner, .. } => {
            expr_followed(before, inner, name);
        },
        ExprKind::Deref { expr: inner, .. } => {
            expr_followed(before, inner, name);
        },
        ExprKind::Cast { expr: inner, .. } => {
            expr_followed(before, inner, name);
        },
        ExprKind::Slice { object, start, end, .. } => {
            expr_followed(before, object, name);
            expr_followed(before.after_expr(held(object)), start, name);
            expr_followed(before.after_expr(held(object)).after_expr(held(start)), end, name);
        },
        ExprKind::Range { start, end, .. } => {
            expr_followed(before, start, name);
            expr_followed(before.after_expr(held(start)), end, name);
        },
        ExprKind::Binary { left, right, .. } => {
            expr_followed(before, left, name);
            expr_followed(before.after_expr(held(left)), right, name);
        },
        ExprKind::Comparison { left, right, .. } => {
            expr_followed(before, left, name);
            expr_followed(before.after_expr(held(left)), right, name);
        },
        ExprKind::Tuple(exprs, _) => exprs_followed(before, exprs, name),
        ExprKind::ArrayLiteral { elements, .. } => exprs_followed(before, elements, name),
        ExprKind::ExprList { list, .. } => exprs_followed(before, list, name),
        ExprKind::Call { callee, args, .. } => {
            expr_followed(before, callee, name);
            exprs_followed(before.after_expr(held(callee)), args, name);
        },
        ExprKind::InterfaceCall { callee, args, .. } => {
            expr_followed(before, callee, name);
            exprs_followed(before.after_expr(held(callee)), args, name);
        },
        ExprKind::StructInit { args, .. } => inits_followed(before, args, name),
        ExprKind::EnumInit { args, .. } => exprs_followed(before, args, name),
        ExprKind::Intrinsic { args, .. } => exprs_followed(before, args, name),
        ExprKind::InterpolatedString(parts) => parts_followed(before, parts, name),
        ExprKind::If { if_stmt, .. } => stmt_followed(before, if_stmt, name),
        ExprKind::Match { expr: scrutinee, arms, .. } => {
            expr_followed(before, scrutinee, name);
            arms_followed(before.after_expr(held(scrutinee)), arms, name);
        },
        ExprKind::Block { body, .. } => stmts_followed(before, body, name),
        ExprKind::Lambda { params, body, .. } => {
            params_bind_their_names(*params, before.bound, name);
            stmt_followed(
                FreePaths { bound: params_bound(*params, before.bound), ..before },
                body,
                name,
            );
        },
        _ => {},
    }
}

proof fn exprs_followed(before: FreePaths, exprs: &List<HirExpr>, name: StrId)
    ensures
        before.after_exprs(*exprs).follows(before, exprs_see(*exprs, name), name),
    decreases exprs, 0int,
{
    match exprs {
        Nil => {},
        Cons(expr, rest) => {
            expr_followed(before, expr, name);
            exprs_followed(before.after_expr(exprs.head()), rest, name);
        },
    }
}

proof fn inits_followed(before: FreePaths, inits: &List<HirFieldInit>, name: StrId)
    ensures
        before.after_inits(*inits).follows(before, inits_see(*inits, name), name),
    decreases inits, 0int,
{
    match inits {
        Nil => {},
        Cons(init, rest) => {
            expr_followed(before, &init.value, name);
            inits_followed(before.after_expr(inits.head().value), rest, name);
        },
    }
}

proof fn parts_followed(before: FreePaths, parts: &List<InterpolationPart>, name: StrId)
    ensures
        before.after_parts(*parts).follows(before, parts_see(*parts, name), name),
    decreases parts, 0int,
{
    match parts {
        Nil => {},
        Cons(part, rest) => match &**part {
            InterpolationPart::Expr(expr) => {
                expr_followed(before, expr, name);
                parts_followed(before.after_expr(held(expr)), rest, name);
            },
            InterpolationPart::Text(_) => parts_followed(before, rest, name),
        },
    }
}

proof fn option_followed(before: FreePaths, expr: &Option<Rc<HirExpr>>, name: StrId)
    ensures
        before.after_option(*expr).follows(before, option_sees(*expr, name), name),
    decreases expr, 0int,
{
    match expr {
        Some(inner) => expr_followed(before, inner, name),
        None => {},
    }
}

proof fn other_followed(before: FreePaths, stmt: &Option<Rc<HirStmt>>, name: StrId)
    ensures
        before.after_other(*stmt).follows(before, other_sees(*stmt, name), name),
    decreases stmt, 0int,
{
    match stmt {
        Some(inner) => stmt_followed(before, inner, name),
        None => {},
    }
}

proof fn arms_followed(before: FreePaths, arms: &List<HirMatchArm>, name: StrId)
    ensures
        before.after_arms(*arms).follows(before, arms_see(*arms, name), name),
    decreases arms, 0int,
{
    match arms {
        Nil => {},
        Cons(arm, rest) => {
            let head = arms.head();
            pattern_binds_its_names(&arm.pattern, before.bound, name);
            let matched = FreePaths { bound: pattern_names(head.pattern, before.bound), ..before };
            option_followed(matched, &arm.guard, name);
            let guarded = matched.after_option(head.guard);
            stmt_followed(guarded, &arm.body, name);
            arms_followed(guarded.after_stmt(held(&arm.body)).scoped(before), rest, name);
        },
    }
}

proof fn stmts_followed(before: FreePaths, stmts: &List<HirStmt>, name: StrId)
    ensures
        before.after_stmts(*stmts).follows(before, stmts_see(*stmts, name), name),
    decreases stmts, 0int,
{
    match stmts {
        Nil => {},
        Cons(stmt, rest) => {
            stmt_followed(before, stmt, name);
            stmts_followed(before.after_stmt(stmts.head()), rest, name);
        },
    }
}

proof fn branches_followed(before: FreePaths, branches: &List<HirErrorBranch>, name: StrId)
    ensures
        before.after_branches(*branches).follows(before, branches_see(*branches, name), name),
    decreases branches, 0int,
{
    match branches {
        Nil => {},
        Cons(branch, rest) => {
            stmts_followed(before, &branch.body, name);
            branches_followed(before.after_stmts(branches.head().body), rest, name);
        },
    }
}

proof fn stmt_followed(before: FreePaths, stmt: &HirStmt, name: StrId)
    ensures
        before.after_stmt(*stmt).follows(before, stmt_sees(*stmt, name), name),
    decreases stmt, 0int,
{
    match &stmt.kind {
        StmtKind::Let { value, else_block, catch_pattern, .. } => {
            expr_followed(before, value, name);
            let valued = before.after_expr(*value);
            other_followed(valued, else_block, name);
            let otherwise = valued.after_other(*else_block);
            match catch_pattern {
                Some(HirErrorHandlerPattern::Single { body }) => {
                    stmts_followed(otherwise, body, name);
                },
                Some(HirErrorHandlerPattern::Multiple { branches }) => {
                    branches_followed(otherwise, branches, name);
                },
                None => {},
            }
        },
        StmtKind::Const(constant) => expr_followed(before, &constant.value, name),
        StmtKind::Return(value, _) => option_followed(before, value, name),
        StmtKind::Break(value, _) => option_followed(before, value, name),
        StmtKind::Expr(expr) => expr_followed(before, expr, name),
        StmtKind::If { cond, then_block, else_block, .. } => {
            expr_followed(before, cond, name);
            let tested = before.after_expr(*cond);
            stmts_followed(tested, then_block, name);
            other_followed(tested.after_stmts(*then_block).scoped(tested), else_block, name);
        },
        StmtKind::While { cond, body } => {
            expr_followed(before, cond, name);
            stmt_followed(before.after_expr(held(cond)), body, name);
        },
        StmtKind::For { init, condition, increment, body } => {
            other_followed(before, init, name);
            let started = before.after_other(*init);
            option_followed(started, condition, name);
            let tested = started.after_option(*condition);
            option_followed(tested, increment, name);
            let stepped = tested.after_option(*increment);
            stmt_followed(stepped, body, name);
        },
        StmtKind::Block { body, .. } => stmts_followed(before, body, name),
        StmtKind::Match { expr, arms, .. } => {
            expr_followed(before, expr, name);
            arms_followed(before.after_expr(held(expr)), arms, name);
        },
        StmtKind::UnsafeBlock { body } => stmt_followed(before, body, name),
        StmtKind::Defer(body) => stmt_followed(before, body, name),
        _ => {},
    }
}

proof fn enclosing_keeps_locals(context: TypeContext, paths: List<FreePath>, name: StrId)
    ensures
        rooted(enclosing_paths(context, paths), name) == (rooted(paths, name) && has_key(
            context.variables,
            name,
        )),
    decreases paths,
{
    match paths {
        Nil => {},
        Cons(_, _) => enclosing_keeps_locals(context, paths.rest(), name),
    }
}

proof fn placing_keeps_roots(paths: List<FreePath>, path: FreePath, name: StrId)
    ensures
        rooted(placed_by_length(paths, path), name) == (rooted(paths, name) || path.0 == name),
    decreases paths,
{
    match paths {
        Nil => {
            reveal_with_fuel(rooted, 2);
        },
        Cons(_, _) => placing_keeps_roots(paths.rest(), path, name),
    }
}

proof fn sorting_keeps_roots(paths: List<FreePath>, sorted: List<FreePath>, name: StrId)
    ensures
        rooted(by_length(paths, sorted), name) == (rooted(paths, name) || rooted(sorted, name)),
    decreases paths,
{
    match paths {
        Nil => {},
        Cons(_, _) => {
            placing_keeps_roots(sorted, paths.head(), name);
            sorting_keeps_roots(paths.rest(), placed_by_length(sorted, paths.head()), name);
        },
    }
}

proof fn passed_paths_share_a_root(kept: List<FreePath>, path: FreePath)
    ensures
        passes_one_of(kept, path) ==> rooted(kept, path.0),
    decreases kept,
{
    match kept {
        Nil => {},
        Cons(_, _) => passed_paths_share_a_root(kept.rest(), path),
    }
}

proof fn leaving_out_keeps_roots(paths: List<FreePath>, kept: List<FreePath>, name: StrId)
    ensures
        rooted(without_extensions(paths, kept), name) == (rooted(paths, name) || rooted(kept, name)),
    decreases paths,
{
    match paths {
        Nil => {},
        Cons(_, _) => {
            let path = paths.head();
            passed_paths_share_a_root(kept, path);
            rooted_when_added(kept, path, name);
            leaving_out_keeps_roots(
                paths.rest(),
                if passes_one_of(kept, path) {
                    kept
                } else {
                    kept.snoc(path)
                },
                name,
            );
        },
    }
}

/// A lambda captures a variable exactly where it is a local of the function around, is none of the
/// lambda's parameters, and occurs free in its body.
pub proof fn lambdas_capture_their_free_names(
    context: TypeContext,
    params: List<HirLambdaParam>,
    body: HirStmt,
    name: StrId,
)
    ensures
        rooted(captured_paths(context, params, body), name) <==> has_key(context.variables, name)
            && !params_declare_name(params, name) && stmt_sees(body, name).free,
{
    let start = FreePaths { bound: params_bound(params, Nil), found: Nil };
    params_bind_their_names(params, Nil, name);
    stmt_followed(start, &body, name);
    let found = start.after_stmt(body).found;
    enclosing_keeps_locals(context, found, name);
    let paths = enclosing_paths(context, found);
    sorting_keeps_roots(paths, Nil, name);
    leaving_out_keeps_roots(by_length(paths, Nil), Nil, name);
}

} // verus!
