//! Which parameters a function is sure to write through before it returns.

use std::rc::Rc;

use vstd::prelude::*;

use crate::hir::{
    AssignmentOperator, ExprKind, HirErrorBranch, HirErrorHandlerPattern, HirExpr, HirFieldInit,
    HirFunc, HirMatchArm, HirParam, HirStmt, InterpolationPart, StmtKind, StrId,
};
use crate::list::{find, lookup, update, updated, Cons, List, Nil};
use crate::type_checker::{Templates, TypeChecker};

verus! {

/// What a statement does to a place behind a pointer.
#[derive(Clone, Copy, Debug, PartialEq, Eq, Structural)]
pub struct WriteFlow {
    /// Every path that falls through the statement has written the place by then.
    pub written: bool,
    /// No path falls through the statement.
    pub diverges: bool,
    /// Every early return that is reached from within the statement had written the place before
    /// returning.
    pub returns_ok: bool,
}

pub open spec fn names(expr: HirExpr, root: StrId) -> bool {
    match expr.kind {
        ExprKind::Ident(name, _) => name == root,
        _ => false,
    }
}

pub open spec fn derefs(expr: HirExpr, root: StrId) -> bool {
    match expr.kind {
        ExprKind::Deref { expr: inner, .. } => names(*inner, root),
        _ => false,
    }
}

/// Whether an expression is a plain assignment to the whole of what a pointer points to.
pub open spec fn full_write(expr: HirExpr, root: StrId) -> bool {
    match expr.kind {
        ExprKind::Assignment { target, op, .. } => op == AssignmentOperator::Assign && derefs(
            *target,
            root,
        ),
        _ => false,
    }
}

pub open spec fn passing(written: bool) -> WriteFlow {
    WriteFlow { written, diverges: false, returns_ok: true }
}

/// The flow behind a branch, given those of its two sides.
pub open spec fn either_flow(first: WriteFlow, second: WriteFlow) -> WriteFlow {
    WriteFlow {
        written: (first.diverges || first.written) && (second.diverges || second.written),
        diverges: first.diverges && second.diverges,
        returns_ok: first.returns_ok && second.returns_ok,
    }
}

/// Whether no return inside an expression is reached before a place is written that was not written
/// before the expression. A lambda returns to its caller. What one part of an expression writes does
/// not count for the others.
pub open spec fn silent(expr: HirExpr, root: StrId) -> bool
    decreases expr,
{
    match expr.kind {
        ExprKind::Match { expr: scrutinee, arms, .. } => silent(*scrutinee, root) && arms_flow(
            arms,
            root,
            false,
        ).returns_ok,
        ExprKind::Block { body, .. } => block_flow(body, root, false).returns_ok,
        ExprKind::If { if_stmt, .. } => stmt_flow(*if_stmt, root, false).returns_ok,
        ExprKind::Range { start, end, .. } => silent(*start, root) && silent(*end, root),
        ExprKind::Slice { object, start, end, .. } => silent(*object, root)
            && silent(*start, root)
            && silent(*end, root),
        ExprKind::Tuple(exprs, _) => all_silent(exprs, root),
        ExprKind::ArrayLiteral { elements, .. } => all_silent(elements, root),
        ExprKind::Binary { left, right, .. } => silent(*left, root) && silent(*right, root),
        ExprKind::Comparison { left, right, .. } => silent(*left, root) && silent(*right, root),
        ExprKind::Call { callee, args, .. } => silent(*callee, root) && all_silent(args, root),
        ExprKind::InterfaceCall { callee, args, .. } => silent(*callee, root)
            && all_silent(args, root),
        ExprKind::FieldAccess { object, .. } => silent(*object, root),
        ExprKind::Get { object, .. } => silent(*object, root),
        ExprKind::Assignment { target, value, .. } => silent(*target, root) && silent(*value, root),
        ExprKind::StructInit { args, .. } => inits_silent(args, root),
        ExprKind::EnumInit { args, .. } => all_silent(args, root),
        ExprKind::ExprList { list, .. } => all_silent(list, root),
        ExprKind::Deref { expr: inner, .. } => silent(*inner, root),
        ExprKind::Ref { expr: inner, .. } => silent(*inner, root),
        ExprKind::Cast { expr: inner, .. } => silent(*inner, root),
        ExprKind::Index { object, index, .. } => silent(*object, root) && silent(*index, root),
        ExprKind::InterpolatedString(parts) => parts_silent(parts, root),
        ExprKind::Intrinsic { args, .. } => all_silent(args, root),
        _ => true,
    }
}

pub open spec fn all_silent(exprs: List<HirExpr>, root: StrId) -> bool
    decreases exprs,
{
    match exprs {
        Nil => true,
        Cons(expr, rest) => silent(*expr, root) && all_silent(*rest, root),
    }
}

pub open spec fn inits_silent(inits: List<HirFieldInit>, root: StrId) -> bool
    decreases inits,
{
    match inits {
        Nil => true,
        Cons(init, rest) => silent(init.value, root) && inits_silent(*rest, root),
    }
}

pub open spec fn parts_silent(parts: List<InterpolationPart>, root: StrId) -> bool
    decreases parts,
{
    match parts {
        Nil => true,
        Cons(part, rest) => match *part {
            InterpolationPart::Expr(expr) => silent(*expr, root) && parts_silent(*rest, root),
            InterpolationPart::Text(_) => parts_silent(*rest, root),
        },
    }
}

/// Whether no return inside an expression that may be missing is reached before a place is written.
pub open spec fn option_silent(expr: Option<Rc<HirExpr>>, root: StrId) -> bool
    decreases expr,
{
    match expr {
        Some(inner) => silent(*inner, root),
        None => true,
    }
}

/// Whether every return of the handlers of a declaration comes after a place is written.
pub open spec fn handler_returns_ok(handler: HirErrorHandlerPattern, root: StrId, written: bool) -> bool
    decreases handler,
{
    match handler {
        HirErrorHandlerPattern::Single { body } => block_flow(body, root, written).returns_ok,
        HirErrorHandlerPattern::Multiple { branches } => branches_return_ok(branches, root, written),
    }
}

pub open spec fn branches_return_ok(branches: List<HirErrorBranch>, root: StrId, written: bool) -> bool
    decreases branches,
{
    match branches {
        Nil => true,
        Cons(branch, rest) => block_flow(branch.body, root, written).returns_ok
            && branches_return_ok(*rest, root, written),
    }
}

pub open spec fn stmt_flow(stmt: HirStmt, root: StrId, written: bool) -> WriteFlow
    decreases stmt,
{
    match stmt.kind {
        StmtKind::Expr(expr) => WriteFlow {
            returns_ok: written || silent(*expr, root),
            ..passing(written || full_write(*expr, root))
        },
        StmtKind::Block { body, .. } => block_flow(body, root, written),
        StmtKind::If { cond, then_block, else_block, .. } => {
            let branches = either_flow(
                block_flow(then_block, root, written),
                match else_block {
                    Some(else_stmt) => stmt_flow(*else_stmt, root, written),
                    None => passing(written),
                },
            );
            WriteFlow {
                returns_ok: (written || silent(cond, root)) && branches.returns_ok,
                ..branches
            }
        },
        StmtKind::Match { expr, arms, .. } => {
            let taken = if arms is Nil {
                passing(written)
            } else {
                arms_flow(arms, root, written)
            };
            WriteFlow {
                returns_ok: (written || silent(*expr, root)) && taken.returns_ok,
                ..taken
            }
        },
        StmtKind::Return(_, _) => WriteFlow { written, diverges: true, returns_ok: written },
        StmtKind::Break(value, _) => WriteFlow {
            written,
            diverges: true,
            returns_ok: written || option_silent(value, root),
        },
        StmtKind::Continue(_) => WriteFlow { written, diverges: true, returns_ok: true },
        StmtKind::UnsafeBlock { body } => stmt_flow(*body, root, written),
        StmtKind::Defer(body) => stmt_flow(*body, root, written),
        StmtKind::While { cond, body } => WriteFlow {
            returns_ok: (written || silent(*cond, root)) && stmt_flow(
                *body,
                root,
                written,
            ).returns_ok,
            ..passing(written)
        },
        StmtKind::For { init, condition, increment, body } => {
            let first = match init {
                Some(opening) => stmt_flow(*opening, root, written),
                None => passing(written),
            };
            WriteFlow {
                returns_ok: {
                    &&& first.returns_ok
                    &&& first.written || option_silent(condition, root)
                    &&& first.written || option_silent(increment, root)
                    &&& stmt_flow(*body, root, first.written).returns_ok
                },
                ..passing(written)
            }
        },
        StmtKind::Let { value, else_block, catch_pattern, .. } => WriteFlow {
            returns_ok: {
                &&& written || silent(value, root)
                &&& match else_block {
                    Some(else_stmt) => stmt_flow(*else_stmt, root, written).returns_ok,
                    None => true,
                }
                &&& match catch_pattern {
                    Some(handler) => handler_returns_ok(handler, root, written),
                    None => true,
                }
            },
            ..passing(written)
        },
        StmtKind::Const(constant) => WriteFlow {
            returns_ok: written || silent(constant.value, root),
            ..passing(written)
        },
        _ => passing(written),
    }
}

/// The statements one after another, up to the first that no path falls through.
pub open spec fn block_flow(body: List<HirStmt>, root: StrId, written: bool) -> WriteFlow
    decreases body,
{
    match body {
        Nil => passing(written),
        Cons(stmt, rest) => {
            let first = stmt_flow(*stmt, root, written);
            if first.diverges {
                first
            } else {
                let others = block_flow(*rest, root, first.written);
                WriteFlow { returns_ok: first.returns_ok && others.returns_ok, ..others }
            }
        },
    }
}

/// One of the arms: written where every arm that falls through has written.
pub open spec fn arms_flow(arms: List<HirMatchArm>, root: StrId, written: bool) -> WriteFlow
    decreases arms,
{
    match arms {
        Nil => WriteFlow { written: true, diverges: true, returns_ok: true },
        Cons(arm, rest) => {
            let body = stmt_flow(*arm.body, root, written);
            either_flow(
                WriteFlow {
                    returns_ok: (written || option_silent(arm.guard, root)) && body.returns_ok,
                    ..body
                },
                arms_flow(*rest, root, written),
            )
        },
    }
}

/// Whether a function body is sure to write through a parameter.
pub open spec fn surely_writes(body: HirStmt, name: StrId) -> bool {
    let flow = stmt_flow(body, name, false);
    flow.returns_ok && (flow.diverges || flow.written)
}

/// For each named parameter, whether the body is sure to write through it.
pub open spec fn params_written(params: List<HirParam>, body: Option<HirStmt>) -> List<bool>
    decreases params,
{
    match params {
        Nil => Nil,
        Cons(param, rest) => match *param {
            HirParam::Normal { name, .. } => List::cons_of(
                match body {
                    None => false,
                    Some(stmt) => surely_writes(stmt, name),
                },
                params_written(*rest, body),
            ),
            HirParam::This { .. } => params_written(*rest, body),
        },
    }
}

pub open spec fn write_template(func: HirFunc) -> List<bool> {
    match func.params {
        None => Nil,
        Some(params) => params_written(
            params,
            match func.body {
                Some(body) => Some(*body),
                None => None,
            },
        ),
    }
}

fn either(first: WriteFlow, second: WriteFlow) -> (flow: WriteFlow)
    ensures
        flow == either_flow(first, second),
{
    WriteFlow {
        written: (first.diverges || first.written) && (second.diverges || second.written),
        diverges: first.diverges && second.diverges,
        returns_ok: first.returns_ok && second.returns_ok,
    }
}

impl TypeChecker {
    pub fn is_ident(expr: &HirExpr, root: StrId) -> (yes: bool)
        ensures
            yes == names(*expr, root),
    {
        match &expr.kind {
            ExprKind::Ident(name, _) => *name == root,
            _ => false,
        }
    }

    pub fn is_deref_of(expr: &HirExpr, root: StrId) -> (yes: bool)
        ensures
            yes == derefs(*expr, root),
    {
        match &expr.kind {
            ExprKind::Deref { expr: inner, .. } => Self::is_ident(inner, root),
            _ => false,
        }
    }

    pub fn expr_is_full_deref_write(expr: &HirExpr, root: StrId) -> (yes: bool)
        ensures
            yes == full_write(*expr, root),
    {
        match &expr.kind {
            ExprKind::Assignment { target, op, .. } => *op == AssignmentOperator::Assign
                && Self::is_deref_of(target, root),
            _ => false,
        }
    }

    /// Whether no return inside an expression is reached before a place is written.
    pub fn returns_silently(expr: &HirExpr, root: StrId) -> (yes: bool)
        ensures
            yes == silent(*expr, root),
        decreases expr,
    {
        match &expr.kind {
            ExprKind::Match { expr: scrutinee, arms, .. } => {
                let quiet = Self::returns_silently(scrutinee, root);
                let flow = Self::analyze_write_arms(arms, root, false);
                quiet && flow.returns_ok
            },
            ExprKind::Block { body, .. } => Self::analyze_write_block(body, root, false).returns_ok,
            ExprKind::If { if_stmt, .. } => Self::analyze_write_stmt(if_stmt, root, false).returns_ok,
            ExprKind::Range { start, end, .. } => Self::returns_silently(start, root)
                && Self::returns_silently(end, root),
            ExprKind::Slice { object, start, end, .. } => Self::returns_silently(object, root)
                && Self::returns_silently(start, root)
                && Self::returns_silently(end, root),
            ExprKind::Tuple(exprs, _) => Self::all_return_silently(exprs, root),
            ExprKind::ArrayLiteral { elements, .. } => Self::all_return_silently(elements, root),
            ExprKind::Binary { left, right, .. } => Self::returns_silently(left, root)
                && Self::returns_silently(right, root),
            ExprKind::Comparison { left, right, .. } => Self::returns_silently(left, root)
                && Self::returns_silently(right, root),
            ExprKind::Call { callee, args, .. } => Self::returns_silently(callee, root)
                && Self::all_return_silently(args, root),
            ExprKind::InterfaceCall { callee, args, .. } => Self::returns_silently(callee, root)
                && Self::all_return_silently(args, root),
            ExprKind::FieldAccess { object, .. } => Self::returns_silently(object, root),
            ExprKind::Get { object, .. } => Self::returns_silently(object, root),
            ExprKind::Assignment { target, value, .. } => Self::returns_silently(target, root)
                && Self::returns_silently(value, root),
            ExprKind::StructInit { args, .. } => Self::inits_return_silently(args, root),
            ExprKind::EnumInit { args, .. } => Self::all_return_silently(args, root),
            ExprKind::ExprList { list, .. } => Self::all_return_silently(list, root),
            ExprKind::Deref { expr: inner, .. } => Self::returns_silently(inner, root),
            ExprKind::Ref { expr: inner, .. } => Self::returns_silently(inner, root),
            ExprKind::Cast { expr: inner, .. } => Self::returns_silently(inner, root),
            ExprKind::Index { object, index, .. } => Self::returns_silently(object, root)
                && Self::returns_silently(index, root),
            ExprKind::InterpolatedString(parts) => Self::parts_return_silently(parts, root),
            ExprKind::Intrinsic { args, .. } => Self::all_return_silently(args, root),
            _ => true,
        }
    }

    fn all_return_silently(exprs: &List<HirExpr>, root: StrId) -> (yes: bool)
        ensures
            yes == all_silent(*exprs, root),
        decreases exprs,
    {
        match exprs {
            Nil => true,
            Cons(expr, rest) => Self::returns_silently(expr, root) && Self::all_return_silently(
                rest,
                root,
            ),
        }
    }

    fn inits_return_silently(inits: &List<HirFieldInit>, root: StrId) -> (yes: bool)
        ensures
            yes == inits_silent(*inits, root),
        decreases inits,
    {
        match inits {
            Nil => true,
            Cons(init, rest) => Self::returns_silently(&init.value, root)
                && Self::inits_return_silently(rest, root),
        }
    }

    fn parts_return_silently(parts: &List<InterpolationPart>, root: StrId) -> (yes: bool)
        ensures
            yes == parts_silent(*parts, root),
        decreases parts,
    {
        match parts {
            Nil => true,
            Cons(part, rest) => match &**part {
                InterpolationPart::Expr(expr) => Self::returns_silently(expr, root)
                    && Self::parts_return_silently(rest, root),
                InterpolationPart::Text(_) => Self::parts_return_silently(rest, root),
            },
        }
    }

    fn option_returns_silently(expr: &Option<Rc<HirExpr>>, root: StrId) -> (yes: bool)
        ensures
            yes == option_silent(*expr, root),
        decreases expr,
    {
        match expr {
            Some(inner) => Self::returns_silently(inner, root),
            None => true,
        }
    }

    fn analyze_write_handler(handler: &HirErrorHandlerPattern, root: StrId, written: bool) -> (ok: bool)
        ensures
            ok == handler_returns_ok(*handler, root, written),
        decreases handler,
    {
        match handler {
            HirErrorHandlerPattern::Single { body } => Self::analyze_write_block(
                body,
                root,
                written,
            ).returns_ok,
            HirErrorHandlerPattern::Multiple { branches } => Self::analyze_write_branches(
                branches,
                root,
                written,
            ),
        }
    }

    fn analyze_write_branches(branches: &List<HirErrorBranch>, root: StrId, written: bool) -> (ok: bool)
        ensures
            ok == branches_return_ok(*branches, root, written),
        decreases branches,
    {
        match branches {
            Nil => true,
            Cons(branch, rest) => {
                let flow = Self::analyze_write_block(&branch.body, root, written);
                flow.returns_ok && Self::analyze_write_branches(rest, root, written)
            },
        }
    }

    pub fn analyze_write_stmt(stmt: &HirStmt, root: StrId, written_before: bool) -> (flow: WriteFlow)
        ensures
            flow == stmt_flow(*stmt, root, written_before),
        decreases stmt,
    {
        let passing = WriteFlow { written: written_before, diverges: false, returns_ok: true };
        match &stmt.kind {
            StmtKind::Expr(expr) => WriteFlow {
                written: written_before || Self::expr_is_full_deref_write(expr, root),
                diverges: false,
                returns_ok: written_before || Self::returns_silently(expr, root),
            },
            StmtKind::Block { body, .. } => Self::analyze_write_block(body, root, written_before),
            StmtKind::If { cond, then_block, else_block, .. } => {
                let quiet = written_before || Self::returns_silently(cond, root);
                let then_flow = Self::analyze_write_block(then_block, root, written_before);
                let else_flow = match else_block {
                    Some(else_stmt) => Self::analyze_write_stmt(else_stmt, root, written_before),
                    None => passing,
                };
                let branches = either(then_flow, else_flow);
                WriteFlow {
                    written: branches.written,
                    diverges: branches.diverges,
                    returns_ok: quiet && branches.returns_ok,
                }
            },
            StmtKind::Match { expr, arms, .. } => {
                let quiet = written_before || Self::returns_silently(expr, root);
                let taken = if arms.is_empty() {
                    passing
                } else {
                    Self::analyze_write_arms(arms, root, written_before)
                };
                WriteFlow {
                    written: taken.written,
                    diverges: taken.diverges,
                    returns_ok: quiet && taken.returns_ok,
                }
            },
            StmtKind::Return(_, _) => WriteFlow {
                written: written_before,
                diverges: true,
                returns_ok: written_before,
            },
            StmtKind::Break(value, _) => WriteFlow {
                written: written_before,
                diverges: true,
                returns_ok: written_before || Self::option_returns_silently(value, root),
            },
            StmtKind::Continue(_) => WriteFlow {
                written: written_before,
                diverges: true,
                returns_ok: true,
            },
            StmtKind::UnsafeBlock { body } => Self::analyze_write_stmt(body, root, written_before),
            StmtKind::Defer(body) => Self::analyze_write_stmt(body, root, written_before),
            StmtKind::While { cond, body } => {
                let quiet = written_before || Self::returns_silently(cond, root);
                let inside = Self::analyze_write_stmt(body, root, written_before);
                WriteFlow {
                    written: written_before,
                    diverges: false,
                    returns_ok: quiet && inside.returns_ok,
                }
            },
            StmtKind::For { init, condition, increment, body } => {
                let first = match init {
                    Some(opening) => Self::analyze_write_stmt(opening, root, written_before),
                    None => passing,
                };
                let quiet = first.written || Self::option_returns_silently(condition, root);
                let still = first.written || Self::option_returns_silently(increment, root);
                let inside = Self::analyze_write_stmt(body, root, first.written);
                WriteFlow {
                    written: written_before,
                    diverges: false,
                    returns_ok: first.returns_ok && quiet && still && inside.returns_ok,
                }
            },
            StmtKind::Let { value, else_block, catch_pattern, .. } => {
                let quiet = written_before || Self::returns_silently(value, root);
                let other: bool = match else_block {
                    Some(else_stmt) => Self::analyze_write_stmt(
                        else_stmt,
                        root,
                        written_before,
                    ).returns_ok,
                    None => true,
                };
                let handled: bool = match catch_pattern {
                    Some(handler) => Self::analyze_write_handler(handler, root, written_before),
                    None => true,
                };
                WriteFlow {
                    written: written_before,
                    diverges: false,
                    returns_ok: quiet && other && handled,
                }
            },
            StmtKind::Const(constant) => WriteFlow {
                written: written_before,
                diverges: false,
                returns_ok: written_before || Self::returns_silently(&constant.value, root),
            },
            _ => passing,
        }
    }

    pub fn analyze_write_block(body: &List<HirStmt>, root: StrId, written_before: bool) -> (flow:
        WriteFlow)
        ensures
            flow == block_flow(*body, root, written_before),
        decreases body,
    {
        match body {
            Nil => WriteFlow { written: written_before, diverges: false, returns_ok: true },
            Cons(stmt, rest) => {
                let first = Self::analyze_write_stmt(stmt, root, written_before);
                if first.diverges {
                    first
                } else {
                    let others = Self::analyze_write_block(rest, root, first.written);
                    WriteFlow {
                        written: others.written,
                        diverges: others.diverges,
                        returns_ok: first.returns_ok && others.returns_ok,
                    }
                }
            },
        }
    }

    fn analyze_write_arms(arms: &List<HirMatchArm>, root: StrId, written_before: bool) -> (flow:
        WriteFlow)
        ensures
            flow == arms_flow(*arms, root, written_before),
        decreases arms,
    {
        match arms {
            Nil => WriteFlow { written: true, diverges: true, returns_ok: true },
            Cons(arm, rest) => {
                let quiet = written_before || Self::option_returns_silently(&arm.guard, root);
                let body = Self::analyze_write_stmt(&arm.body, root, written_before);
                let others = Self::analyze_write_arms(rest, root, written_before);
                either(
                    WriteFlow {
                        written: body.written,
                        diverges: body.diverges,
                        returns_ok: quiet && body.returns_ok,
                    },
                    others,
                )
            },
        }
    }

    fn build_param_writes(params: &List<HirParam>, body: Option<&HirStmt>) -> (writes: List<bool>)
        ensures
            writes == params_written(
                *params,
                match body {
                    Some(stmt) => Some(*stmt),
                    None => None,
                },
            ),
        decreases params,
    {
        match params {
            Nil => Nil,
            Cons(param, rest) => match &**param {
                HirParam::Normal { name, .. } => {
                    let written: bool = match body {
                        None => false,
                        Some(stmt) => {
                            let flow = Self::analyze_write_stmt(stmt, *name, false);
                            flow.returns_ok && (flow.diverges || flow.written)
                        },
                    };
                    List::cons(written, Self::build_param_writes(rest, body))
                },
                HirParam::This { .. } => Self::build_param_writes(rest, body),
            },
        }
    }

    pub fn build_write_templates(func: &HirFunc) -> (writes: List<bool>)
        ensures
            writes == write_template(*func),
    {
        match &func.params {
            None => Nil,
            Some(params) => match &func.body {
                Some(body) => Self::build_param_writes(params, Some(body)),
                None => Self::build_param_writes(params, None),
            },
        }
    }

    /// The parameters a function writes, remembered from the first time it is asked for.
    pub open spec fn writes_of(self, func: HirFunc) -> List<bool> {
        match lookup(self.templates.writes, func.name) {
            Some(known) => known,
            None => write_template(func),
        }
    }

    pub open spec fn after_definite_writes(self, func: HirFunc) -> TypeChecker {
        TypeChecker {
            templates: Templates {
                writes: match lookup(self.templates.writes, func.name) {
                    Some(_) => self.templates.writes,
                    None => updated(self.templates.writes, func.name, write_template(func)),
                },
                ..self.templates
            },
            ..self
        }
    }

    pub fn analyze_definite_writes(&mut self, func: &HirFunc) -> (writes: List<bool>)
        ensures
            *final(self) == old(self).after_definite_writes(*func),
            writes == old(self).writes_of(*func),
    {
        match find(&self.templates.writes, &func.name) {
            Some(known) => known.dup(),
            None => {
                let writes = Self::build_write_templates(func);
                self.templates.writes = update(&self.templates.writes, func.name, writes.dup());
                writes
            },
        }
    }
}

/// A place once written stays written, and a statement that can be relied on to write does so
/// whatever was written before.
pub proof fn written_is_kept(stmt: &HirStmt, root: StrId)
    ensures
        stmt_flow(*stmt, root, true).written,
        stmt_flow(*stmt, root, true).returns_ok,
        stmt_flow(*stmt, root, false).diverges == stmt_flow(*stmt, root, true).diverges,
    decreases stmt,
{
    match &stmt.kind {
        StmtKind::Block { body, .. } => block_written_is_kept(body, root),
        StmtKind::If { then_block, else_block, .. } => {
            block_written_is_kept(then_block, root);
            if let Some(else_stmt) = else_block {
                written_is_kept(else_stmt, root);
            }
        },
        StmtKind::Match { arms, .. } => arms_written_is_kept(arms, root),
        StmtKind::UnsafeBlock { body } => written_is_kept(body, root),
        StmtKind::Defer(body) => written_is_kept(body, root),
        StmtKind::While { body, .. } => written_is_kept(body, root),
        StmtKind::For { init, body, .. } => {
            if let Some(opening) = init {
                written_is_kept(opening, root);
            }
            written_is_kept(body, root);
        },
        StmtKind::Let { else_block, catch_pattern, .. } => {
            if let Some(else_stmt) = else_block {
                written_is_kept(else_stmt, root);
            }
            if let Some(handler) = catch_pattern {
                handler_written_is_kept(handler, root);
            }
        },
        _ => {},
    }
}

proof fn handler_written_is_kept(handler: &HirErrorHandlerPattern, root: StrId)
    ensures
        handler_returns_ok(*handler, root, true),
    decreases handler,
{
    match handler {
        HirErrorHandlerPattern::Single { body } => block_written_is_kept(body, root),
        HirErrorHandlerPattern::Multiple { branches } => branches_written_is_kept(branches, root),
    }
}

proof fn branches_written_is_kept(branches: &List<HirErrorBranch>, root: StrId)
    ensures
        branches_return_ok(*branches, root, true),
    decreases branches,
{
    match branches {
        Nil => {},
        Cons(branch, rest) => {
            block_written_is_kept(&branch.body, root);
            branches_written_is_kept(rest, root);
        },
    }
}

proof fn block_written_is_kept(body: &List<HirStmt>, root: StrId)
    ensures
        block_flow(*body, root, true).written,
        block_flow(*body, root, true).returns_ok,
        block_flow(*body, root, false).diverges == block_flow(*body, root, true).diverges,
    decreases body,
{
    match body {
        Nil => {},
        Cons(stmt, rest) => {
            written_is_kept(stmt, root);
            block_written_is_kept(rest, root);
        },
    }
}

proof fn arms_written_is_kept(arms: &List<HirMatchArm>, root: StrId)
    ensures
        arms_flow(*arms, root, true).written,
        arms_flow(*arms, root, true).returns_ok,
        arms_flow(*arms, root, false).diverges == arms_flow(*arms, root, true).diverges,
    decreases arms,
{
    match arms {
        Nil => {},
        Cons(arm, rest) => {
            written_is_kept(&arm.body, root);
            arms_written_is_kept(rest, root);
        },
    }
}

/// How a path leaves a statement.
#[derive(Clone, Copy, Debug, PartialEq, Eq, Structural)]
pub enum Leaving {
    /// To the next statement.
    Through,
    Return,
    /// To the end or the start of a loop.
    Jump,
}

/// Whether some path leaves a statement in a way, having written a place or not. Conditions do not
/// count: each branch may be taken, and each loop may be run any number of times, where earlier
/// rounds may have written.
pub open spec fn leaves(stmt: HirStmt, root: StrId, before: bool, how: Leaving, after: bool) -> bool
    decreases stmt, 0nat,
{
    match stmt.kind {
        StmtKind::Expr(expr) => {
            ||| how is Through && after == (before || full_write(*expr, root))
            ||| expr_leaves(*expr, root, before, how, after)
        },
        StmtKind::Block { body, .. } => block_leaves(body, root, before, how, after),
        StmtKind::If { cond, then_block, else_block, .. } => {
            ||| expr_leaves(cond, root, before, how, after)
            ||| block_leaves(then_block, root, before, how, after)
            ||| match else_block {
                Some(else_stmt) => leaves(*else_stmt, root, before, how, after),
                None => how is Through && after == before,
            }
        },
        StmtKind::Match { expr, arms, .. } => {
            ||| expr_leaves(*expr, root, before, how, after)
            ||| if arms is Nil {
                how is Through && after == before
            } else {
                arms_leave(arms, root, before, how, after)
            }
        },
        StmtKind::Return(value, _) => {
            ||| how is Return && after == before
            ||| option_leaves(value, root, before, how, after)
        },
        StmtKind::Break(value, _) => {
            ||| how is Jump && after == before
            ||| option_leaves(value, root, before, how, after)
        },
        StmtKind::Continue(_) => how is Jump && after == before,
        StmtKind::UnsafeBlock { body } => leaves(*body, root, before, how, after),
        StmtKind::Defer(body) => leaves(*body, root, before, how, after),
        StmtKind::Let { value, else_block, catch_pattern, .. } => {
            ||| how is Through && after == before
            ||| expr_leaves(value, root, before, how, after)
            ||| match else_block {
                Some(else_stmt) => leaves(*else_stmt, root, before, how, after),
                None => false,
            }
            ||| match catch_pattern {
                Some(handler) => handler_leaves(handler, root, before, how, after),
                None => false,
            }
        },
        StmtKind::Const(constant) => {
            ||| how is Through && after == before
            ||| expr_leaves(constant.value, root, before, how, after)
        },
        StmtKind::While { cond, body } => {
            ||| expr_leaves(*cond, root, before, how, after)
            ||| expr_leaves(*cond, root, true, how, after)
            ||| loop_leaves(*body, root, before, how, after)
        },
        StmtKind::For { init: None, condition, increment, body } => {
            ||| option_leaves(condition, root, before, how, after)
            ||| option_leaves(condition, root, true, how, after)
            ||| option_leaves(increment, root, before, how, after)
            ||| option_leaves(increment, root, true, how, after)
            ||| loop_leaves(*body, root, before, how, after)
        },
        StmtKind::For { init: Some(first), condition, increment, body } => {
            ||| how != Leaving::Through && leaves(*first, root, before, how, after)
            ||| leaves(*first, root, before, Leaving::Through, true) && {
                ||| option_leaves(condition, root, true, how, after)
                ||| option_leaves(increment, root, true, how, after)
                ||| loop_leaves(*body, root, true, how, after)
            }
            ||| leaves(*first, root, before, Leaving::Through, false) && {
                ||| option_leaves(condition, root, false, how, after)
                ||| option_leaves(condition, root, true, how, after)
                ||| option_leaves(increment, root, false, how, after)
                ||| option_leaves(increment, root, true, how, after)
                ||| loop_leaves(*body, root, false, how, after)
            }
        },
        _ => how is Through && after == before,
    }
}

/// Whether some path leaves an expression before its value is known. Its parts are taken to start
/// with what was written before the expression.
pub open spec fn expr_leaves(expr: HirExpr, root: StrId, before: bool, how: Leaving, after: bool) -> bool
    decreases expr, 0nat,
{
    how != Leaving::Through && match expr.kind {
        ExprKind::Match { expr: scrutinee, arms, .. } => {
            ||| expr_leaves(*scrutinee, root, before, how, after)
            ||| arms_leave(arms, root, before, how, after)
        },
        ExprKind::Block { body, .. } => block_leaves(body, root, before, how, after),
        ExprKind::If { if_stmt, .. } => leaves(*if_stmt, root, before, how, after),
        ExprKind::Range { start, end, .. } => expr_leaves(*start, root, before, how, after)
            || expr_leaves(*end, root, before, how, after),
        ExprKind::Slice { object, start, end, .. } => expr_leaves(*object, root, before, how, after)
            || expr_leaves(*start, root, before, how, after)
            || expr_leaves(*end, root, before, how, after),
        ExprKind::Tuple(exprs, _) => exprs_leave(exprs, root, before, how, after),
        ExprKind::ArrayLiteral { elements, .. } => exprs_leave(elements, root, before, how, after),
        ExprKind::Binary { left, right, .. } => expr_leaves(*left, root, before, how, after)
            || expr_leaves(*right, root, before, how, after),
        ExprKind::Comparison { left, right, .. } => expr_leaves(*left, root, before, how, after)
            || expr_leaves(*right, root, before, how, after),
        ExprKind::Call { callee, args, .. } => expr_leaves(*callee, root, before, how, after)
            || exprs_leave(args, root, before, how, after),
        ExprKind::InterfaceCall { callee, args, .. } => expr_leaves(*callee, root, before, how, after)
            || exprs_leave(args, root, before, how, after),
        ExprKind::FieldAccess { object, .. } => expr_leaves(*object, root, before, how, after),
        ExprKind::Get { object, .. } => expr_leaves(*object, root, before, how, after),
        ExprKind::Assignment { target, value, .. } => expr_leaves(*target, root, before, how, after)
            || expr_leaves(*value, root, before, how, after),
        ExprKind::StructInit { args, .. } => inits_leave(args, root, before, how, after),
        ExprKind::EnumInit { args, .. } => exprs_leave(args, root, before, how, after),
        ExprKind::ExprList { list, .. } => exprs_leave(list, root, before, how, after),
        ExprKind::Deref { expr: inner, .. } => expr_leaves(*inner, root, before, how, after),
        ExprKind::Ref { expr: inner, .. } => expr_leaves(*inner, root, before, how, after),
        ExprKind::Cast { expr: inner, .. } => expr_leaves(*inner, root, before, how, after),
        ExprKind::Index { object, index, .. } => expr_leaves(*object, root, before, how, after)
            || expr_leaves(*index, root, before, how, after),
        ExprKind::InterpolatedString(parts) => parts_leave(parts, root, before, how, after),
        ExprKind::Intrinsic { args, .. } => exprs_leave(args, root, before, how, after),
        _ => false,
    }
}

pub open spec fn exprs_leave(
    exprs: List<HirExpr>,
    root: StrId,
    before: bool,
    how: Leaving,
    after: bool,
) -> bool
    decreases exprs, 0nat,
{
    match exprs {
        Nil => false,
        Cons(expr, rest) => expr_leaves(*expr, root, before, how, after) || exprs_leave(
            *rest,
            root,
            before,
            how,
            after,
        ),
    }
}

pub open spec fn inits_leave(
    inits: List<HirFieldInit>,
    root: StrId,
    before: bool,
    how: Leaving,
    after: bool,
) -> bool
    decreases inits, 0nat,
{
    match inits {
        Nil => false,
        Cons(init, rest) => expr_leaves(init.value, root, before, how, after) || inits_leave(
            *rest,
            root,
            before,
            how,
            after,
        ),
    }
}

pub open spec fn parts_leave(
    parts: List<InterpolationPart>,
    root: StrId,
    before: bool,
    how: Leaving,
    after: bool,
) -> bool
    decreases parts, 0nat,
{
    match parts {
        Nil => false,
        Cons(part, rest) => match *part {
            InterpolationPart::Expr(expr) => expr_leaves(*expr, root, before, how, after)
                || parts_leave(*rest, root, before, how, after),
            InterpolationPart::Text(_) => parts_leave(*rest, root, before, how, after),
        },
    }
}

pub open spec fn option_leaves(
    expr: Option<Rc<HirExpr>>,
    root: StrId,
    before: bool,
    how: Leaving,
    after: bool,
) -> bool
    decreases expr, 0nat,
{
    match expr {
        Some(inner) => expr_leaves(*inner, root, before, how, after),
        None => false,
    }
}

/// Whether some path leaves the handlers of a declaration.
pub open spec fn handler_leaves(
    handler: HirErrorHandlerPattern,
    root: StrId,
    before: bool,
    how: Leaving,
    after: bool,
) -> bool
    decreases handler, 0nat,
{
    match handler {
        HirErrorHandlerPattern::Single { body } => block_leaves(body, root, before, how, after),
        HirErrorHandlerPattern::Multiple { branches } => branches_leave(
            branches,
            root,
            before,
            how,
            after,
        ),
    }
}

pub open spec fn branches_leave(
    branches: List<HirErrorBranch>,
    root: StrId,
    before: bool,
    how: Leaving,
    after: bool,
) -> bool
    decreases branches, 0nat,
{
    match branches {
        Nil => false,
        Cons(branch, rest) => block_leaves(branch.body, root, before, how, after)
            || branches_leave(*rest, root, before, how, after),
    }
}

/// Whether some path leaves statements that stand one after another.
pub open spec fn block_leaves(
    body: List<HirStmt>,
    root: StrId,
    before: bool,
    how: Leaving,
    after: bool,
) -> bool
    decreases body, 0nat,
{
    match body {
        Nil => how is Through && after == before,
        Cons(stmt, rest) => {
            ||| how != Leaving::Through && leaves(*stmt, root, before, how, after)
            ||| leaves(*stmt, root, before, Leaving::Through, true) && block_leaves(
                *rest,
                root,
                true,
                how,
                after,
            )
            ||| leaves(*stmt, root, before, Leaving::Through, false) && block_leaves(
                *rest,
                root,
                false,
                how,
                after,
            )
        },
    }
}

/// Whether some path leaves one of the arms or their guards.
pub open spec fn arms_leave(
    arms: List<HirMatchArm>,
    root: StrId,
    before: bool,
    how: Leaving,
    after: bool,
) -> bool
    decreases arms, 0nat,
{
    match arms {
        Nil => false,
        Cons(arm, rest) => {
            ||| option_leaves(arm.guard, root, before, how, after)
            ||| leaves(*arm.body, root, before, how, after)
            ||| arms_leave(*rest, root, before, how, after)
        },
    }
}

/// Whether some path leaves a loop: behind any round, or by a return inside of one.
pub open spec fn loop_leaves(body: HirStmt, root: StrId, before: bool, how: Leaving, after: bool) -> bool
    decreases body, 1nat,
{
    match how {
        Leaving::Through => after || !before,
        Leaving::Return => leaves(body, root, before, how, after) || leaves(
            body,
            root,
            true,
            how,
            after,
        ),
        Leaving::Jump => false,
    }
}

/// What a flow tells of a statement is true of every path: if it diverges none falls through, if it
/// writes then those that fall through have written, and so have those that return early. A place
/// that was written before is written behind every path.
pub proof fn flow_tells_of_every_path(
    stmt: &HirStmt,
    root: StrId,
    before: bool,
    how: Leaving,
    after: bool,
)
    ensures
        leaves(*stmt, root, before, how, after) ==> path_as_told(
            stmt_flow(*stmt, root, before),
            before,
            how,
            after,
        ),
    decreases stmt, 0nat,
{
    match &stmt.kind {
        StmtKind::Expr(expr) => silence_tells(expr, root, before, how, after),
        StmtKind::Block { body, .. } => block_flow_tells(body, root, before, how, after),
        StmtKind::If { cond, then_block, else_block, .. } => {
            silence_tells(cond, root, before, how, after);
            block_flow_tells(then_block, root, before, how, after);
            if let Some(else_stmt) = else_block {
                flow_tells_of_every_path(else_stmt, root, before, how, after);
            }
        },
        StmtKind::Match { expr, arms, .. } => {
            silence_tells(expr, root, before, how, after);
            arms_flow_tells(arms, root, before, how, after);
        },
        StmtKind::Return(value, _) => option_silence_tells(value, root, before, how, after),
        StmtKind::Break(value, _) => option_silence_tells(value, root, before, how, after),
        StmtKind::UnsafeBlock { body } => flow_tells_of_every_path(body, root, before, how, after),
        StmtKind::Defer(body) => flow_tells_of_every_path(body, root, before, how, after),
        StmtKind::Let { value, else_block, catch_pattern, .. } => {
            silence_tells(value, root, before, how, after);
            if let Some(else_stmt) = else_block {
                flow_tells_of_every_path(else_stmt, root, before, how, after);
            }
            if let Some(handler) = catch_pattern {
                handler_tells(handler, root, before, how, after);
            }
        },
        StmtKind::Const(constant) => silence_tells(&constant.value, root, before, how, after),
        StmtKind::While { cond, body } => {
            silence_tells(cond, root, before, how, after);
            silence_tells(cond, root, true, how, after);
            loop_flow_tells(body, root, before, how, after);
        },
        StmtKind::For { init, condition, increment, body } => {
            if let Some(first) = init {
                written_is_kept(first, root);
                flow_tells_of_every_path(first, root, before, how, after);
                flow_tells_of_every_path(first, root, before, Leaving::Through, false);
            }
            option_silence_tells(condition, root, true, how, after);
            option_silence_tells(condition, root, false, how, after);
            option_silence_tells(increment, root, true, how, after);
            option_silence_tells(increment, root, false, how, after);
            loop_flow_tells(body, root, true, how, after);
            loop_flow_tells(body, root, false, how, after);
        },
        _ => {},
    }
}

/// Whether a path from a state to another is as a flow tells.
pub open spec fn path_as_told(flow: WriteFlow, before: bool, how: Leaving, after: bool) -> bool {
    &&& how is Through ==> !flow.diverges
    &&& how is Through && flow.written ==> after
    &&& how is Return && flow.returns_ok ==> after
    &&& before ==> after
}

proof fn loop_flow_tells(body: &HirStmt, root: StrId, before: bool, how: Leaving, after: bool)
    ensures
        loop_leaves(*body, root, before, how, after) ==> {
            &&& before ==> after
            &&& how is Return && stmt_flow(*body, root, before).returns_ok ==> after
        },
    decreases body, 1nat,
{
    flow_tells_of_every_path(body, root, before, how, after);
    flow_tells_of_every_path(body, root, true, how, after);
}

/// What holds of every path that leaves an expression before its value is known.
proof fn silence_tells(expr: &HirExpr, root: StrId, before: bool, how: Leaving, after: bool)
    ensures
        expr_leaves(*expr, root, before, how, after) ==> {
            &&& !(how is Through)
            &&& before ==> after
            &&& how is Return && silent(*expr, root) ==> after
        },
    decreases expr, 0nat,
{
    match &expr.kind {
        ExprKind::Match { expr: scrutinee, arms, .. } => {
            silence_tells(scrutinee, root, before, how, after);
            arms_flow_tells(arms, root, before, how, after);
        },
        ExprKind::Block { body, .. } => block_flow_tells(body, root, before, how, after),
        ExprKind::If { if_stmt, .. } => flow_tells_of_every_path(if_stmt, root, before, how, after),
        ExprKind::Range { start, end, .. } => {
            silence_tells(start, root, before, how, after);
            silence_tells(end, root, before, how, after);
        },
        ExprKind::Slice { object, start, end, .. } => {
            silence_tells(object, root, before, how, after);
            silence_tells(start, root, before, how, after);
            silence_tells(end, root, before, how, after);
        },
        ExprKind::Tuple(exprs, _) => {
            all_silence_tells(exprs, root, before, how, after);
        },
        ExprKind::ArrayLiteral { elements, .. } => {
            all_silence_tells(elements, root, before, how, after);
        },
        ExprKind::Binary { left, right, .. } => {
            silence_tells(left, root, before, how, after);
            silence_tells(right, root, before, how, after);
        },
        ExprKind::Comparison { left, right, .. } => {
            silence_tells(left, root, before, how, after);
            silence_tells(right, root, before, how, after);
        },
        ExprKind::Call { callee, args, .. } => {
            silence_tells(callee, root, before, how, after);
            all_silence_tells(args, root, before, how, after);
        },
        ExprKind::InterfaceCall { callee, args, .. } => {
            silence_tells(callee, root, before, how, after);
            all_silence_tells(args, root, before, how, after);
        },
        ExprKind::FieldAccess { object, .. } => {
            silence_tells(object, root, before, how, after);
        },
        ExprKind::Get { object, .. } => {
            silence_tells(object, root, before, how, after);
        },
        ExprKind::Assignment { target, value, .. } => {
            silence_tells(target, root, before, how, after);
            silence_tells(value, root, before, how, after);
        },
        ExprKind::StructInit { args, .. } => {
            inits_silence_tells(args, root, before, how, after);
        },
        ExprKind::EnumInit { args, .. } => {
            all_silence_tells(args, root, before, how, after);
        },
        ExprKind::ExprList { list, .. } => {
            all_silence_tells(list, root, before, how, after);
        },
        ExprKind::Deref { expr: inner, .. } => {
            silence_tells(inner, root, before, how, after);
        },
        ExprKind::Ref { expr: inner, .. } => {
            silence_tells(inner, root, before, how, after);
        },
        ExprKind::Cast { expr: inner, .. } => {
            silence_tells(inner, root, before, how, after);
        },
        ExprKind::Index { object, index, .. } => {
            silence_tells(object, root, before, how, after);
            silence_tells(index, root, before, how, after);
        },
        ExprKind::InterpolatedString(parts) => {
            parts_silence_tells(parts, root, before, how, after);
        },
        ExprKind::Intrinsic { args, .. } => {
            all_silence_tells(args, root, before, how, after);
        },
        _ => {},
    }
}

proof fn all_silence_tells(exprs: &List<HirExpr>, root: StrId, before: bool, how: Leaving, after: bool)
    ensures
        exprs_leave(*exprs, root, before, how, after) ==> {
            &&& !(how is Through)
            &&& before ==> after
            &&& how is Return && all_silent(*exprs, root) ==> after
        },
    decreases exprs, 0nat,
{
    match exprs {
        Nil => {},
        Cons(expr, rest) => {
            silence_tells(expr, root, before, how, after);
            all_silence_tells(rest, root, before, how, after);
        },
    }
}

proof fn inits_silence_tells(inits: &List<HirFieldInit>, root: StrId, before: bool, how: Leaving, after: bool)
    ensures
        inits_leave(*inits, root, before, how, after) ==> {
            &&& !(how is Through)
            &&& before ==> after
            &&& how is Return && inits_silent(*inits, root) ==> after
        },
    decreases inits, 0nat,
{
    match inits {
        Nil => {},
        Cons(init, rest) => {
            silence_tells(&init.value, root, before, how, after);
            inits_silence_tells(rest, root, before, how, after);
        },
    }
}

proof fn parts_silence_tells(parts: &List<InterpolationPart>, root: StrId, before: bool, how: Leaving, after: bool)
    ensures
        parts_leave(*parts, root, before, how, after) ==> {
            &&& !(how is Through)
            &&& before ==> after
            &&& how is Return && parts_silent(*parts, root) ==> after
        },
    decreases parts, 0nat,
{
    match parts {
        Nil => {},
        Cons(part, rest) => {
            if let InterpolationPart::Expr(expr) = &**part {
                silence_tells(expr, root, before, how, after);
            }
            parts_silence_tells(rest, root, before, how, after);
        },
    }
}

proof fn option_silence_tells(expr: &Option<Rc<HirExpr>>, root: StrId, before: bool, how: Leaving, after: bool)
    ensures
        option_leaves(*expr, root, before, how, after) ==> {
            &&& !(how is Through)
            &&& before ==> after
            &&& how is Return && option_silent(*expr, root) ==> after
        },
    decreases expr, 0nat,
{
    match expr {
        Some(inner) => silence_tells(inner, root, before, how, after),
        None => {},
    }
}

proof fn handler_tells(
    handler: &HirErrorHandlerPattern,
    root: StrId,
    before: bool,
    how: Leaving,
    after: bool,
)
    ensures
        handler_leaves(*handler, root, before, how, after) ==> {
            &&& before ==> after
            &&& how is Return && handler_returns_ok(*handler, root, before) ==> after
        },
    decreases handler, 0nat,
{
    match handler {
        HirErrorHandlerPattern::Single { body } => block_flow_tells(body, root, before, how, after),
        HirErrorHandlerPattern::Multiple { branches } => branches_tell(
            branches,
            root,
            before,
            how,
            after,
        ),
    }
}

proof fn branches_tell(
    branches: &List<HirErrorBranch>,
    root: StrId,
    before: bool,
    how: Leaving,
    after: bool,
)
    ensures
        branches_leave(*branches, root, before, how, after) ==> {
            &&& before ==> after
            &&& how is Return && branches_return_ok(*branches, root, before) ==> after
        },
    decreases branches, 0nat,
{
    match branches {
        Nil => {},
        Cons(branch, rest) => {
            block_flow_tells(&branch.body, root, before, how, after);
            branches_tell(rest, root, before, how, after);
        },
    }
}

proof fn block_flow_tells(
    body: &List<HirStmt>,
    root: StrId,
    before: bool,
    how: Leaving,
    after: bool,
)
    ensures
        block_leaves(*body, root, before, how, after) ==> path_as_told(
            block_flow(*body, root, before),
            before,
            how,
            after,
        ),
    decreases body, 0nat,
{
    match body {
        Nil => {},
        Cons(stmt, rest) => {
            written_is_kept(stmt, root);
            block_written_is_kept(rest, root);
            flow_tells_of_every_path(stmt, root, before, how, after);
            flow_tells_of_every_path(stmt, root, before, Leaving::Through, true);
            flow_tells_of_every_path(stmt, root, before, Leaving::Through, false);
            block_flow_tells(rest, root, true, how, after);
            block_flow_tells(rest, root, false, how, after);
        },
    }
}

proof fn arms_flow_tells(
    arms: &List<HirMatchArm>,
    root: StrId,
    before: bool,
    how: Leaving,
    after: bool,
)
    ensures
        arms_leave(*arms, root, before, how, after) ==> path_as_told(
            arms_flow(*arms, root, before),
            before,
            how,
            after,
        ),
    decreases arms, 0nat,
{
    match arms {
        Nil => {},
        Cons(arm, rest) => {
            option_silence_tells(&arm.guard, root, before, how, after);
            flow_tells_of_every_path(&arm.body, root, before, how, after);
            arms_flow_tells(rest, root, before, how, after);
        },
    }
}

/// A function that is sure to write through a parameter has done so on every path by which it ends.
pub proof fn sure_writes_happen(body: &HirStmt, name: StrId, how: Leaving, after: bool)
    requires
        surely_writes(*body, name),
        how is Through || how is Return,
        leaves(*body, name, false, how, after),
    ensures
        after,
{
    flow_tells_of_every_path(body, name, false, how, after);
}

} // verus!
