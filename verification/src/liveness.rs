//! Where locals are used, and whether they are used later.

use vstd::prelude::*;

use crate::hir::{
    ExprKind, HirErrorBranch, HirErrorHandlerPattern, HirExpr, HirFieldInit, HirMatchArm, HirStmt,
    InterpolationPart, StmtKind, StrId,
};
use crate::list::{add_member, find, lookup, update, updated, with_member, Cons, List, Nil, Table};
use crate::type_checker::{Points, TypeChecker};
use crate::type_context::{find_list, list_at};

verus! {

/// Whether a local is named in an expression.
pub open spec fn mentions(expr: HirExpr, local: StrId) -> bool
    decreases expr,
{
    match expr.kind {
        ExprKind::Ident(name, _) => name == local,
        ExprKind::Match { expr: scrutinee, arms, .. } => mentions(*scrutinee, local)
            || arms_mention(arms, local),
        ExprKind::Block { body, .. } => stmts_mention(body, local),
        ExprKind::Range { start, end, .. } => mentions(*start, local) || mentions(*end, local),
        ExprKind::Slice { object, start, end, .. } => mentions(*object, local) || mentions(
            *start,
            local,
        ) || mentions(*end, local),
        ExprKind::Tuple(exprs, _) => exprs_mention(exprs, local),
        ExprKind::ArrayLiteral { elements, .. } => exprs_mention(elements, local),
        ExprKind::Binary { left, right, .. } => mentions(*left, local) || mentions(*right, local),
        ExprKind::Comparison { left, right, .. } => mentions(*left, local) || mentions(
            *right,
            local,
        ),
        ExprKind::Call { callee, args, .. } => mentions(*callee, local) || exprs_mention(
            args,
            local,
        ),
        ExprKind::InterfaceCall { callee, args, .. } => mentions(*callee, local) || exprs_mention(
            args,
            local,
        ),
        ExprKind::FieldAccess { object, .. } => mentions(*object, local),
        ExprKind::Get { object, .. } => mentions(*object, local),
        ExprKind::Assignment { target, value, .. } => mentions(*target, local) || mentions(
            *value,
            local,
        ),
        ExprKind::StructInit { args, .. } => inits_mention(args, local),
        ExprKind::EnumInit { args, .. } => exprs_mention(args, local),
        ExprKind::ExprList { list, .. } => exprs_mention(list, local),
        ExprKind::Deref { expr: inner, .. } => mentions(*inner, local),
        ExprKind::Ref { expr: inner, .. } => mentions(*inner, local),
        ExprKind::Cast { expr: inner, .. } => mentions(*inner, local),
        ExprKind::Index { object, index, .. } => mentions(*object, local) || mentions(
            *index,
            local,
        ),
        ExprKind::Lambda { body, .. } => stmt_mentions(*body, local),
        ExprKind::InterpolatedString(parts) => parts_mention(parts, local),
        ExprKind::Intrinsic { args, .. } => exprs_mention(args, local),
        ExprKind::If { if_stmt, .. } => stmt_mentions(*if_stmt, local),
        _ => false,
    }
}

pub open spec fn exprs_mention(exprs: List<HirExpr>, local: StrId) -> bool
    decreases exprs,
{
    match exprs {
        Nil => false,
        Cons(expr, rest) => mentions(*expr, local) || exprs_mention(*rest, local),
    }
}

pub open spec fn inits_mention(inits: List<HirFieldInit>, local: StrId) -> bool
    decreases inits,
{
    match inits {
        Nil => false,
        Cons(init, rest) => mentions(init.value, local) || inits_mention(*rest, local),
    }
}

pub open spec fn parts_mention(parts: List<InterpolationPart>, local: StrId) -> bool
    decreases parts,
{
    match parts {
        Nil => false,
        Cons(part, rest) => match *part {
            InterpolationPart::Expr(expr) => mentions(*expr, local) || parts_mention(*rest, local),
            InterpolationPart::Text(_) => parts_mention(*rest, local),
        },
    }
}

pub open spec fn arms_mention(arms: List<HirMatchArm>, local: StrId) -> bool
    decreases arms,
{
    match arms {
        Nil => false,
        Cons(arm, rest) => {
            ||| match arm.guard {
                Some(guard) => mentions(*guard, local),
                None => false,
            }
            ||| stmt_mentions(*arm.body, local)
            ||| arms_mention(*rest, local)
        },
    }
}

pub open spec fn stmts_mention(stmts: List<HirStmt>, local: StrId) -> bool
    decreases stmts,
{
    match stmts {
        Nil => false,
        Cons(stmt, rest) => stmt_mentions(*stmt, local) || stmts_mention(*rest, local),
    }
}

/// Whether a local is named in a statement, the handlers of a `let` left out.
pub open spec fn stmt_mentions(stmt: HirStmt, local: StrId) -> bool
    decreases stmt,
{
    match stmt.kind {
        StmtKind::Let { value, else_block, .. } => mentions(value, local) || match else_block {
            Some(block) => stmt_mentions(*block, local),
            None => false,
        },
        StmtKind::Return(value, _) | StmtKind::Break(value, _) => match value {
            Some(expr) => mentions(*expr, local),
            None => false,
        },
        StmtKind::Expr(expr) => mentions(*expr, local),
        StmtKind::If { cond, then_block, else_block, .. } => mentions(cond, local)
            || stmts_mention(then_block, local) || match else_block {
            Some(other) => stmt_mentions(*other, local),
            None => false,
        },
        StmtKind::While { cond, body } => mentions(*cond, local) || stmt_mentions(*body, local),
        StmtKind::For { init, condition, increment, body } => {
            ||| match init {
                Some(stmt) => stmt_mentions(*stmt, local),
                None => false,
            }
            ||| match condition {
                Some(expr) => mentions(*expr, local),
                None => false,
            }
            ||| match increment {
                Some(expr) => mentions(*expr, local),
                None => false,
            }
            ||| stmt_mentions(*body, local)
        },
        StmtKind::Block { body, .. } => stmts_mention(body, local),
        StmtKind::Const(constant) => mentions(constant.value, local),
        StmtKind::Match { expr, arms, .. } => mentions(*expr, local) || arms_mention(arms, local),
        StmtKind::UnsafeBlock { body } => stmt_mentions(*body, local),
        StmtKind::Defer(body) => stmt_mentions(*body, local),
        _ => false,
    }
}

impl TypeChecker {
    pub fn expr_references_local(&self, expr: &HirExpr, local: StrId) -> (yes: bool)
        ensures
            yes == mentions(*expr, local),
        decreases expr,
    {
        match &expr.kind {
            ExprKind::Ident(name, _) => *name == local,
            ExprKind::Match { expr: scrutinee, arms, .. } => self.expr_references_local(
                scrutinee,
                local,
            ) || self.arms_reference_local(arms, local),
            ExprKind::Block { body, .. } => self.stmts_reference_local(body, local),
            ExprKind::Range { start, end, .. } => self.expr_references_local(start, local)
                || self.expr_references_local(end, local),
            ExprKind::Slice { object, start, end, .. } => self.expr_references_local(object, local)
                || self.expr_references_local(start, local) || self.expr_references_local(
                end,
                local,
            ),
            ExprKind::Tuple(exprs, _) => self.exprs_reference_local(exprs, local),
            ExprKind::ArrayLiteral { elements, .. } => self.exprs_reference_local(elements, local),
            ExprKind::Binary { left, right, .. } => self.expr_references_local(left, local)
                || self.expr_references_local(right, local),
            ExprKind::Comparison { left, right, .. } => self.expr_references_local(left, local)
                || self.expr_references_local(right, local),
            ExprKind::Call { callee, args, .. } => self.expr_references_local(callee, local)
                || self.exprs_reference_local(args, local),
            ExprKind::InterfaceCall { callee, args, .. } => self.expr_references_local(
                callee,
                local,
            ) || self.exprs_reference_local(args, local),
            ExprKind::FieldAccess { object, .. } => self.expr_references_local(object, local),
            ExprKind::Get { object, .. } => self.expr_references_local(object, local),
            ExprKind::Assignment { target, value, .. } => self.expr_references_local(target, local)
                || self.expr_references_local(value, local),
            ExprKind::StructInit { args, .. } => self.inits_reference_local(args, local),
            ExprKind::EnumInit { args, .. } => self.exprs_reference_local(args, local),
            ExprKind::ExprList { list, .. } => self.exprs_reference_local(list, local),
            ExprKind::Deref { expr: inner, .. } => self.expr_references_local(inner, local),
            ExprKind::Ref { expr: inner, .. } => self.expr_references_local(inner, local),
            ExprKind::Cast { expr: inner, .. } => self.expr_references_local(inner, local),
            ExprKind::Index { object, index, .. } => self.expr_references_local(object, local)
                || self.expr_references_local(index, local),
            ExprKind::Lambda { body, .. } => self.stmt_references_local(body, local),
            ExprKind::InterpolatedString(parts) => self.parts_reference_local(parts, local),
            ExprKind::Intrinsic { args, .. } => self.exprs_reference_local(args, local),
            ExprKind::If { if_stmt, .. } => self.stmt_references_local(if_stmt, local),
            _ => false,
        }
    }

    fn exprs_reference_local(&self, exprs: &List<HirExpr>, local: StrId) -> (yes: bool)
        ensures
            yes == exprs_mention(*exprs, local),
        decreases exprs,
    {
        match exprs {
            Nil => false,
            Cons(expr, rest) => self.expr_references_local(expr, local)
                || self.exprs_reference_local(rest, local),
        }
    }

    fn inits_reference_local(&self, inits: &List<HirFieldInit>, local: StrId) -> (yes: bool)
        ensures
            yes == inits_mention(*inits, local),
        decreases inits,
    {
        match inits {
            Nil => false,
            Cons(init, rest) => self.expr_references_local(&init.value, local)
                || self.inits_reference_local(rest, local),
        }
    }

    fn parts_reference_local(&self, parts: &List<InterpolationPart>, local: StrId) -> (yes: bool)
        ensures
            yes == parts_mention(*parts, local),
        decreases parts,
    {
        match parts {
            Nil => false,
            Cons(part, rest) => match &**part {
                InterpolationPart::Expr(expr) => self.expr_references_local(expr, local)
                    || self.parts_reference_local(rest, local),
                InterpolationPart::Text(_) => self.parts_reference_local(rest, local),
            },
        }
    }

    fn arms_reference_local(&self, arms: &List<HirMatchArm>, local: StrId) -> (yes: bool)
        ensures
            yes == arms_mention(*arms, local),
        decreases arms,
    {
        match arms {
            Nil => false,
            Cons(arm, rest) => {
                let guarded: bool = match &arm.guard {
                    Some(guard) => self.expr_references_local(guard, local),
                    None => false,
                };
                guarded || self.stmt_references_local(&arm.body, local)
                    || self.arms_reference_local(rest, local)
            },
        }
    }

    pub fn stmts_reference_local(&self, stmts: &List<HirStmt>, local: StrId) -> (yes: bool)
        ensures
            yes == stmts_mention(*stmts, local),
        decreases stmts,
    {
        match stmts {
            Nil => false,
            Cons(stmt, rest) => self.stmt_references_local(stmt, local)
                || self.stmts_reference_local(rest, local),
        }
    }

    pub fn stmt_references_local(&self, stmt: &HirStmt, local: StrId) -> (yes: bool)
        ensures
            yes == stmt_mentions(*stmt, local),
        decreases stmt,
    {
        match &stmt.kind {
            StmtKind::Let { value, else_block, .. } => self.expr_references_local(value, local)
                || match else_block {
                Some(block) => self.stmt_references_local(block, local),
                None => false,
            },
            StmtKind::Return(value, _) | StmtKind::Break(value, _) => match value {
                Some(expr) => self.expr_references_local(expr, local),
                None => false,
            },
            StmtKind::Expr(expr) => self.expr_references_local(expr, local),
            StmtKind::If { cond, then_block, else_block, .. } => self.expr_references_local(
                cond,
                local,
            ) || self.stmts_reference_local(then_block, local) || match else_block {
                Some(other) => self.stmt_references_local(other, local),
                None => false,
            },
            StmtKind::While { cond, body } => self.expr_references_local(cond, local)
                || self.stmt_references_local(body, local),
            StmtKind::For { init, condition, increment, body } => {
                let started: bool = match init {
                    Some(stmt) => self.stmt_references_local(stmt, local),
                    None => false,
                };
                let tested: bool = match condition {
                    Some(expr) => self.expr_references_local(expr, local),
                    None => false,
                };
                let stepped: bool = match increment {
                    Some(expr) => self.expr_references_local(expr, local),
                    None => false,
                };
                started || tested || stepped || self.stmt_references_local(body, local)
            },
            StmtKind::Block { body, .. } => self.stmts_reference_local(body, local),
            StmtKind::Const(constant) => self.expr_references_local(&constant.value, local),
            StmtKind::Match { expr, arms, .. } => self.expr_references_local(expr, local)
                || self.arms_reference_local(arms, local),
            StmtKind::UnsafeBlock { body } => self.stmt_references_local(body, local),
            StmtKind::Defer(body) => self.stmt_references_local(body, local),
            _ => false,
        }
    }
}

impl Points {
    /// The points with a local used at the current one.
    #[verifier::opaque]
    pub open spec fn with_use(self, name: StrId) -> Points {
        Points {
            locals_used: updated(
                self.locals_used,
                self.current,
                with_member(list_at(self.locals_used, self.current), name),
            ),
            ..self
        }
    }

    /// The points at the start of a statement.
    #[verifier::opaque]
    pub open spec fn moved_to(self, stmt: HirStmt) -> Points {
        match lookup(self.stmt_points, stmt.key) {
            Some(point) => Points { current: point, ..self },
            None => self,
        }
    }

    pub open spec fn after_expr(self, expr: HirExpr) -> Points
        decreases expr,
    {
        match expr.kind {
            ExprKind::Ident(name, _) => self.with_use(name),
            ExprKind::Match { expr: scrutinee, arms, .. } => self.after_expr(
                *scrutinee,
            ).after_arms(arms),
            ExprKind::Block { body, .. } => self.after_stmts(body),
            ExprKind::Range { start, end, .. } => self.after_expr(*start).after_expr(*end),
            ExprKind::Slice { object, start, end, .. } => self.after_expr(*object).after_expr(
                *start,
            ).after_expr(*end),
            ExprKind::Tuple(exprs, _) => self.after_exprs(exprs),
            ExprKind::ArrayLiteral { elements, .. } => self.after_exprs(elements),
            ExprKind::Binary { left, right, .. } => self.after_expr(*left).after_expr(*right),
            ExprKind::Comparison { left, right, .. } => self.after_expr(*left).after_expr(*right),
            ExprKind::Call { callee, args, .. } => self.after_expr(*callee).after_exprs(args),
            ExprKind::InterfaceCall { callee, args, .. } => self.after_expr(*callee).after_exprs(
                args,
            ),
            ExprKind::FieldAccess { object, .. } => self.after_expr(*object),
            ExprKind::Get { object, .. } => self.after_expr(*object),
            ExprKind::Assignment { target, value, .. } => self.after_expr(*target).after_expr(
                *value,
            ),
            ExprKind::StructInit { args, .. } => self.after_inits(args),
            ExprKind::EnumInit { args, .. } => self.after_exprs(args),
            ExprKind::ExprList { list, .. } => self.after_exprs(list),
            ExprKind::Deref { expr: inner, .. } => self.after_expr(*inner),
            ExprKind::Cast { expr: inner, .. } => self.after_expr(*inner),
            ExprKind::Ref { expr: inner, .. } => self.after_expr(*inner),
            ExprKind::Index { object, index, .. } => self.after_expr(*object).after_expr(*index),
            ExprKind::InterpolatedString(parts) => self.after_parts(parts),
            ExprKind::If { if_stmt, .. } => self.after_stmt(*if_stmt),
            ExprKind::Intrinsic { args, .. } => self.after_exprs(args),
            ExprKind::Lambda { body, .. } => self.after_stmt(*body),
            _ => self,
        }
    }

    pub open spec fn after_exprs(self, exprs: List<HirExpr>) -> Points
        decreases exprs,
    {
        match exprs {
            Nil => self,
            Cons(expr, rest) => self.after_expr(*expr).after_exprs(*rest),
        }
    }

    pub open spec fn after_inits(self, inits: List<HirFieldInit>) -> Points
        decreases inits,
    {
        match inits {
            Nil => self,
            Cons(init, rest) => self.after_expr(init.value).after_inits(*rest),
        }
    }

    pub open spec fn after_parts(self, parts: List<InterpolationPart>) -> Points
        decreases parts,
    {
        match parts {
            Nil => self,
            Cons(part, rest) => match *part {
                InterpolationPart::Expr(expr) => self.after_expr(*expr).after_parts(*rest),
                InterpolationPart::Text(_) => self.after_parts(*rest),
            },
        }
    }

    pub open spec fn after_arms(self, arms: List<HirMatchArm>) -> Points
        decreases arms,
    {
        match arms {
            Nil => self,
            Cons(arm, rest) => {
                let guarded = match arm.guard {
                    Some(guard) => self.after_expr(*guard),
                    None => self,
                };
                guarded.after_stmt(*arm.body).after_arms(*rest)
            },
        }
    }

    pub open spec fn after_stmts(self, stmts: List<HirStmt>) -> Points
        decreases stmts,
    {
        match stmts {
            Nil => self,
            Cons(stmt, rest) => self.after_stmt(*stmt).after_stmts(*rest),
        }
    }

    pub open spec fn after_branches(self, branches: List<HirErrorBranch>) -> Points
        decreases branches,
    {
        match branches {
            Nil => self,
            Cons(branch, rest) => self.after_stmts(branch.body).after_branches(*rest),
        }
    }

    pub open spec fn after_stmt(self, stmt: HirStmt) -> Points
        decreases stmt,
    {
        let here = self.moved_to(stmt);
        match stmt.kind {
            StmtKind::Let { value, else_block, catch_pattern, .. } => {
                let valued = here.after_expr(value);
                let otherwise = match else_block {
                    Some(block) => valued.after_stmt(*block),
                    None => valued,
                };
                match catch_pattern {
                    Some(HirErrorHandlerPattern::Single { body }) => otherwise.after_stmts(body),
                    Some(HirErrorHandlerPattern::Multiple { branches }) => {
                        otherwise.after_branches(branches)
                    },
                    None => otherwise,
                }
            },
            StmtKind::Return(value, _) | StmtKind::Break(value, _) => match value {
                Some(expr) => here.after_expr(*expr),
                None => here,
            },
            StmtKind::Expr(expr) => here.after_expr(*expr),
            StmtKind::If { cond, then_block, else_block, .. } => {
                let taken = here.after_expr(cond).after_stmts(then_block);
                match else_block {
                    Some(other) => taken.after_stmt(*other),
                    None => taken,
                }
            },
            StmtKind::While { cond, body } => here.after_expr(*cond).after_stmt(*body),
            StmtKind::For { init, condition, increment, body } => {
                let started = match init {
                    Some(stmt) => here.after_stmt(*stmt),
                    None => here,
                };
                let tested = match condition {
                    Some(expr) => started.after_expr(*expr),
                    None => started,
                };
                let stepped = match increment {
                    Some(expr) => tested.after_expr(*expr),
                    None => tested,
                };
                stepped.after_stmt(*body)
            },
            StmtKind::Block { body, .. } => here.after_stmts(body),
            StmtKind::Const(constant) => here.after_expr(constant.value),
            StmtKind::Match { expr, arms, .. } => here.after_expr(*expr).after_arms(arms),
            StmtKind::UnsafeBlock { body } => here.after_stmt(*body),
            StmtKind::Defer(body) => here.after_stmt(*body),
            _ => here,
        }
    }

    pub fn use_local(&mut self, name: StrId)
        ensures
            *final(self) == old(self).with_use(name),
    {
        proof {
            reveal(Points::with_use);
        }
        let used = find_list(&self.locals_used, &self.current);
        self.locals_used = update(&self.locals_used, self.current, add_member(&used, name));
    }

    pub fn move_to(&mut self, stmt: &HirStmt)
        ensures
            *final(self) == old(self).moved_to(*stmt),
    {
        proof {
            reveal(Points::moved_to);
        }
        match find(&self.stmt_points, &stmt.key) {
            Some(point) => {
                self.current = *point;
            },
            None => {},
        }
    }

    fn visit_expr(&mut self, expr: &HirExpr)
        ensures
            *final(self) == old(self).after_expr(*expr),
        decreases expr,
    {
        match &expr.kind {
            ExprKind::Ident(name, _) => self.use_local(*name),
            ExprKind::Match { expr: scrutinee, arms, .. } => {
                self.visit_expr(scrutinee);
                self.visit_arms(arms);
            },
            ExprKind::Block { body, .. } => self.visit_stmts(body),
            ExprKind::Range { start, end, .. } => {
                self.visit_expr(start);
                self.visit_expr(end);
            },
            ExprKind::Slice { object, start, end, .. } => {
                self.visit_expr(object);
                self.visit_expr(start);
                self.visit_expr(end);
            },
            ExprKind::Tuple(exprs, _) => self.visit_exprs(exprs),
            ExprKind::ArrayLiteral { elements, .. } => self.visit_exprs(elements),
            ExprKind::Binary { left, right, .. } => {
                self.visit_expr(left);
                self.visit_expr(right);
            },
            ExprKind::Comparison { left, right, .. } => {
                self.visit_expr(left);
                self.visit_expr(right);
            },
            ExprKind::Call { callee, args, .. } => {
                self.visit_expr(callee);
                self.visit_exprs(args);
            },
            ExprKind::InterfaceCall { callee, args, .. } => {
                self.visit_expr(callee);
                self.visit_exprs(args);
            },
            ExprKind::FieldAccess { object, .. } => self.visit_expr(object),
            ExprKind::Get { object, .. } => self.visit_expr(object),
            ExprKind::Assignment { target, value, .. } => {
                self.visit_expr(target);
                self.visit_expr(value);
            },
            ExprKind::StructInit { args, .. } => self.visit_inits(args),
            ExprKind::EnumInit { args, .. } => self.visit_exprs(args),
            ExprKind::ExprList { list, .. } => self.visit_exprs(list),
            ExprKind::Deref { expr: inner, .. } => self.visit_expr(inner),
            ExprKind::Cast { expr: inner, .. } => self.visit_expr(inner),
            ExprKind::Ref { expr: inner, .. } => self.visit_expr(inner),
            ExprKind::Index { object, index, .. } => {
                self.visit_expr(object);
                self.visit_expr(index);
            },
            ExprKind::InterpolatedString(parts) => self.visit_parts(parts),
            ExprKind::If { if_stmt, .. } => self.visit_stmt(if_stmt),
            ExprKind::Intrinsic { args, .. } => self.visit_exprs(args),
            ExprKind::Lambda { body, .. } => self.visit_stmt(body),
            _ => {},
        }
    }

    fn visit_exprs(&mut self, exprs: &List<HirExpr>)
        ensures
            *final(self) == old(self).after_exprs(*exprs),
        decreases exprs,
    {
        match exprs {
            Nil => {},
            Cons(expr, rest) => {
                self.visit_expr(expr);
                self.visit_exprs(rest);
            },
        }
    }

    fn visit_inits(&mut self, inits: &List<HirFieldInit>)
        ensures
            *final(self) == old(self).after_inits(*inits),
        decreases inits,
    {
        match inits {
            Nil => {},
            Cons(init, rest) => {
                self.visit_expr(&init.value);
                self.visit_inits(rest);
            },
        }
    }

    fn visit_parts(&mut self, parts: &List<InterpolationPart>)
        ensures
            *final(self) == old(self).after_parts(*parts),
        decreases parts,
    {
        match parts {
            Nil => {},
            Cons(part, rest) => {
                match &**part {
                    InterpolationPart::Expr(expr) => self.visit_expr(expr),
                    InterpolationPart::Text(_) => {},
                }
                self.visit_parts(rest);
            },
        }
    }

    fn visit_arms(&mut self, arms: &List<HirMatchArm>)
        ensures
            *final(self) == old(self).after_arms(*arms),
        decreases arms,
    {
        match arms {
            Nil => {},
            Cons(arm, rest) => {
                match &arm.guard {
                    Some(guard) => self.visit_expr(guard),
                    None => {},
                }
                self.visit_stmt(&arm.body);
                self.visit_arms(rest);
            },
        }
    }

    fn visit_stmts(&mut self, stmts: &List<HirStmt>)
        ensures
            *final(self) == old(self).after_stmts(*stmts),
        decreases stmts,
    {
        match stmts {
            Nil => {},
            Cons(stmt, rest) => {
                self.visit_stmt(stmt);
                self.visit_stmts(rest);
            },
        }
    }

    fn visit_branches(&mut self, branches: &List<HirErrorBranch>)
        ensures
            *final(self) == old(self).after_branches(*branches),
        decreases branches,
    {
        match branches {
            Nil => {},
            Cons(branch, rest) => {
                self.visit_stmts(&branch.body);
                self.visit_branches(rest);
            },
        }
    }

    fn visit_stmt(&mut self, stmt: &HirStmt)
        ensures
            *final(self) == old(self).after_stmt(*stmt),
        decreases stmt,
    {
        self.move_to(stmt);
        match &stmt.kind {
            StmtKind::Let { value, else_block, catch_pattern, .. } => {
                self.visit_expr(value);
                match else_block {
                    Some(block) => self.visit_stmt(block),
                    None => {},
                }
                match catch_pattern {
                    Some(HirErrorHandlerPattern::Single { body }) => self.visit_stmts(body),
                    Some(HirErrorHandlerPattern::Multiple { branches }) => self.visit_branches(
                        branches,
                    ),
                    None => {},
                }
            },
            StmtKind::Return(value, _) | StmtKind::Break(value, _) => match value {
                Some(expr) => self.visit_expr(expr),
                None => {},
            },
            StmtKind::Expr(expr) => self.visit_expr(expr),
            StmtKind::If { cond, then_block, else_block, .. } => {
                self.visit_expr(cond);
                self.visit_stmts(then_block);
                match else_block {
                    Some(other) => self.visit_stmt(other),
                    None => {},
                }
            },
            StmtKind::While { cond, body } => {
                self.visit_expr(cond);
                self.visit_stmt(body);
            },
            StmtKind::For { init, condition, increment, body } => {
                match init {
                    Some(stmt) => self.visit_stmt(stmt),
                    None => {},
                }
                match condition {
                    Some(expr) => self.visit_expr(expr),
                    None => {},
                }
                match increment {
                    Some(expr) => self.visit_expr(expr),
                    None => {},
                }
                self.visit_stmt(body);
            },
            StmtKind::Block { body, .. } => self.visit_stmts(body),
            StmtKind::Const(constant) => self.visit_expr(&constant.value),
            StmtKind::Match { expr, arms, .. } => {
                self.visit_expr(expr);
                self.visit_arms(arms);
            },
            StmtKind::UnsafeBlock { body } => self.visit_stmt(body),
            StmtKind::Defer(body) => self.visit_stmt(body),
            _ => {},
        }
    }
}

impl TypeChecker {
    pub fn collect_locals_used_stmt(&mut self, stmt: &HirStmt)
        ensures
            *final(self) == (TypeChecker { points: old(self).points.after_stmt(*stmt), ..*old(self)
            }),
            final(self).settled_in_scope(*old(self)),
    {
        self.points.visit_stmt(stmt);
    }

    pub fn collect_locals_used_expr(&mut self, expr: &HirExpr)
        ensures
            *final(self) == (TypeChecker { points: old(self).points.after_expr(*expr), ..*old(self)
            }),
            final(self).settled_in_scope(*old(self)),
    {
        self.points.visit_expr(expr);
    }

    pub fn set_point(&mut self, stmt: &HirStmt)
        ensures
            *final(self) == (TypeChecker { points: old(self).points.moved_to(*stmt), ..*old(self) }),
            final(self).settled_in_scope(*old(self)),
    {
        self.points.move_to(stmt);
    }
}

/// Whether a point is reached from another in a number of steps.
pub open spec fn reaches(
    successors: Table<usize, List<usize>>,
    from: usize,
    to: usize,
    steps: nat,
) -> bool
    decreases steps,
{
    if steps == 0 {
        from == to
    } else {
        exists|mid: usize| #[trigger]
            list_at(successors, from).has(mid) && reaches(successors, mid, to, (steps - 1) as nat)
    }
}

impl Points {
    /// Whether a local is used at a point.
    pub open spec fn uses(self, point: usize, local: StrId) -> bool {
        list_at(self.locals_used, point).has(local)
    }

    /// Whether a local is used at a point or at one that can be reached from it.
    pub open spec fn used_from(self, point: usize, local: StrId) -> bool {
        exists|at: usize, steps: nat| #[trigger]
            reaches(self.successors, point, at, steps) && self.uses(at, local)
    }

    /// Whether a point is reached from another in any number of steps.
    pub open spec fn reachable(self, from: usize, to: usize) -> bool {
        exists|steps: nat| #[trigger] reaches(self.successors, from, to, steps)
    }
}

/// All points that follow some point.
pub open spec fn all_successors(successors: Table<usize, List<usize>>) -> List<usize>
    decreases successors,
{
    match successors {
        Nil => Nil,
        Cons(entry, rest) => entry.1.then_all(all_successors(*rest)),
    }
}

/// How many members of a list are not in another.
pub open spec fn missing(list: List<usize>, seen: List<usize>) -> nat
    decreases list,
{
    match list {
        Nil => 0,
        Cons(head, rest) => missing(*rest, seen) + if seen.has(*head) {
            0nat
        } else {
            1nat
        },
    }
}

proof fn append_has(left: List<usize>, right: List<usize>, wanted: usize)
    ensures
        left.then_all(right).has(wanted) == (left.has(wanted) || right.has(wanted)),
    decreases left,
{
    match left {
        Nil => {},
        Cons(_, _) => {
            append_has(left.rest(), right, wanted);
        },
    }
}

proof fn successor_is_listed(successors: Table<usize, List<usize>>, from: usize, to: usize)
    requires
        list_at(successors, from).has(to),
    ensures
        all_successors(successors).has(to),
    decreases successors,
{
    match successors {
        Nil => {
            assert(!List::<usize>::Nil.has(to));
        },
        Cons(_, _) => {
            let entry = successors.head();
            append_has(entry.1, all_successors(successors.rest()), to);
            if entry.0 != from {
                successor_is_listed(successors.rest(), from, to);
            }
        },
    }
}

proof fn seeing_more(list: List<usize>, seen: List<usize>, point: usize)
    ensures
        missing(list, List::cons_of(point, seen)) <= missing(list, seen),
        list.has(point) && !seen.has(point) ==> missing(list, List::cons_of(point, seen))
            < missing(list, seen),
    decreases list,
{
    match list {
        Nil => {},
        Cons(_, _) => {
            seeing_more(list.rest(), seen, point);
            assert(List::cons_of(point, seen).has(list.head()) == (list.head() == point
                || seen.has(list.head())));
        },
    }
}

proof fn step_on(points: Points, from: usize, mid: usize, to: usize)
    requires
        points.reachable(from, mid),
        list_at(points.successors, mid).has(to),
    ensures
        points.reachable(from, to),
{
    let steps = choose|steps: nat| reaches(points.successors, from, mid, steps);
    reach_further(points.successors, from, mid, to, steps);
}

proof fn reach_further(
    successors: Table<usize, List<usize>>,
    from: usize,
    mid: usize,
    to: usize,
    steps: nat,
)
    requires
        reaches(successors, from, mid, steps),
        list_at(successors, mid).has(to),
    ensures
        reaches(successors, from, to, steps + 1),
    decreases steps,
{
    if steps == 0 {
        assert(reaches(successors, to, to, 0));
        assert(list_at(successors, from).has(to));
    } else {
        let next = choose|next: usize| #[trigger]
            list_at(successors, from).has(next) && reaches(
                successors,
                next,
                mid,
                (steps - 1) as nat,
            );
        reach_further(successors, next, mid, to, (steps - 1) as nat);
        assert(list_at(successors, from).has(next));
    }
}

/// From a set of points that is closed under steps nothing else is reached.
proof fn closed_reach(
    successors: Table<usize, List<usize>>,
    seen: List<usize>,
    from: usize,
    to: usize,
    steps: nat,
)
    requires
        seen.has(from),
        forall|a: usize, b: usize|
            seen.has(a) && #[trigger] list_at(successors, a).has(b) ==> seen.has(b),
        reaches(successors, from, to, steps),
    ensures
        seen.has(to),
    decreases steps,
{
    if steps > 0 {
        let next = choose|next: usize| #[trigger]
            list_at(successors, from).has(next) && reaches(
                successors,
                next,
                to,
                (steps - 1) as nat,
            );
        closed_reach(successors, seen, next, to, (steps - 1) as nat);
    }
}

impl TypeChecker {
    /// Looks at the points on a stack and at those that can be reached from them, leaving out
    /// those already seen.
    fn search_use(
        &self,
        start: usize,
        stack: &List<usize>,
        seen: &List<usize>,
        local: StrId,
    ) -> (found: bool)
        requires
            stack.has(start) || seen.has(start),
            forall|p: usize| #[trigger] stack.has(p) ==> self.points.reachable(start, p),
            forall|p: usize| #[trigger] stack.has(p) ==> p == start || all_successors(
                self.points.successors,
            ).has(p),
            forall|p: usize| #[trigger] seen.has(p) ==> !self.points.uses(p, local),
            forall|a: usize, b: usize|
                seen.has(a) && #[trigger] list_at(self.points.successors, a).has(b) ==> seen.has(b)
                    || stack.has(b),
        ensures
            found == self.points.used_from(start, local),
        decreases
            missing(List::cons_of(start, all_successors(self.points.successors)), *seen),
            stack,
    {
        match stack {
            Nil => {
                proof {
                    assert forall|at: usize, steps: nat| #[trigger]
                        reaches(self.points.successors, start, at, steps) implies
                        !self.points.uses(at, local) by {
                        closed_reach(self.points.successors, *seen, start, at, steps);
                    }
                }
                false
            },
            Cons(head, rest) => {
                let point: usize = **head;
                assert(forall|p: usize| #[trigger] stack.rest().has(p) ==> stack.has(p));
                if seen.contains(&point) {
                    return self.search_use(start, rest, seen, local);
                }
                let used = find_list(&self.points.locals_used, &point);
                if used.contains(&local) {
                    proof {
                        assert(stack.has(point));
                        let steps = choose|steps: nat|
                            reaches(self.points.successors, start, point, steps);
                        assert(reaches(self.points.successors, start, point, steps));
                        assert(self.points.uses(point, local));
                    }
                    return true;
                }
                let successors = find_list(&self.points.successors, &point);
                let next_stack = successors.append(rest);
                let next_seen = List::cons(point, seen.dup());
                proof {
                    let universe = List::cons_of(start, all_successors(self.points.successors));
                    assert(stack.has(point));
                    assert(universe.has(point));
                    seeing_more(universe, *seen, point);
                    assert forall|p: usize| #[trigger] next_stack.has(p) implies successors.has(p)
                        || rest.has(p) by {
                        append_has(successors, stack.rest(), p);
                    }
                    assert forall|p: usize| #[trigger] next_stack.has(p) implies
                        self.points.reachable(start, p) && (p == start || all_successors(
                        self.points.successors,
                    ).has(p)) by {
                        if successors.has(p) {
                            step_on(self.points, start, point, p);
                            successor_is_listed(self.points.successors, point, p);
                        } else {
                            assert(stack.has(p));
                        }
                    }
                    assert forall|p: usize| #[trigger] next_seen.has(p) implies p == point
                        || seen.has(p) by {}
                    assert forall|a: usize, b: usize|
                        next_seen.has(a) && #[trigger] list_at(self.points.successors, a).has(b)
                        implies next_seen.has(b) || next_stack.has(b) by {
                        append_has(successors, stack.rest(), b);
                        if a != point {
                            assert(seen.has(a));
                            assert(seen.has(b) || stack.has(b));
                        }
                    }
                    append_has(successors, stack.rest(), start);
                }
                self.search_use(start, &next_stack, &next_seen, local)
            },
        }
    }

    /// Whether a local is used at a point or anywhere that control may go from there.
    pub fn local_used_after(&self, point: usize, local: StrId) -> (used: bool)
        ensures
            used == self.points.used_from(point, local),
    {
        let stack: List<usize> = List::one(point);
        proof {
            assert(reaches(self.points.successors, point, point, 0));
            assert forall|p: usize| #[trigger] stack.has(p) implies p == point by {
                assert(!List::<usize>::Nil.has(p));
            }
            assert forall|p: usize| !(#[trigger] List::<usize>::Nil.has(p)) by {}
        }
        self.search_use(point, &stack, &Nil, local)
    }
}

} // verus!
