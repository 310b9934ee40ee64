//! Checking statements.

use vstd::prelude::*;

use crate::borrowck::keys_of;
use crate::errors::{Message, TypeErrorKind};
use crate::hir::{ConstStmt, HirExpr, HirStmt, HirType, StmtKind};
use crate::list::List;
use crate::type_checker::TypeChecker;

verus! {

impl TypeChecker {
    /// The checker after a statement, and its value where it has one.
    #[verifier::opaque]
    pub open spec fn stmt_checked(self, stmt: HirStmt) -> (TypeChecker, Option<HirType>)
        decreases stmt, 2int, 0int,
    {
        let here = TypeChecker { points: self.points.moved_to(stmt), ..self };
        match stmt.kind {
            StmtKind::Let { span, .. } => (here.at_span(span).let_checked(stmt), None),
            StmtKind::Return(_, span) => (
                here.at_span(span).return_checked(stmt),
                Some(HirType::Never),
            ),
            StmtKind::Expr(expr) => {
                let (after, ty) = here.checked(*expr);
                (after.temp_loans_ended(keys_of(here.loans.calls)), Some(ty))
            },
            StmtKind::If { span, .. } => here.at_span(span).if_checked(stmt, None),
            StmtKind::While { cond, body } => (
                here.condition_checked(*cond).loop_checked(*body),
                None,
            ),
            StmtKind::For { .. } => (here.for_checked(stmt), None),
            StmtKind::Block { body, span } => here.at_span(span).block_checked(body, false, None),
            StmtKind::Break(_, span) => (
                here.at_span(span).break_checked(stmt),
                Some(HirType::Never),
            ),
            StmtKind::Continue(span) => {
                let told = here.at_span(span);
                (
                    if told.context.in_loop {
                        told
                    } else {
                        told.recorded(TypeErrorKind::ContinueOutsideLoop)
                    },
                    Some(HirType::Never),
                )
            },
            StmtKind::Const(constant) => {
                let (after, ty) = here.checked(constant.value);
                (
                    after.fitted(Some(constant.ty), ty).const_bound(constant.name, constant.ty),
                    None,
                )
            },
            StmtKind::Match { expr: scrutinee, arms, span } => {
                let (after, ty) = here.at_span(span).checked(*scrutinee);
                let (last, value) = after.arms_joined(*scrutinee, ty, arms, None, false);
                (last, Some(value))
            },
            StmtKind::UnsafeBlock { body } => {
                let (after, value) = here.deeper().stmt_checked(*body);
                (after.shallower(), value)
            },
            StmtKind::Defer(body) => here.stmt_checked(*body),
            StmtKind::Import(path, span) => (
                here.at_span(span).path_resolved(path, Message::UnresolvedImport { path }),
                None,
            ),
            StmtKind::Package(path, span) => (
                here.at_span(span).path_resolved(path, Message::UnresolvedPackage { path }),
                None,
            ),
        }
    }

    fn check_const_stmt(&mut self, constant: &ConstStmt)
        ensures
            *final(self) == old(self).checked(constant.value).0.fitted(
                Some(constant.ty),
                old(self).checked(constant.value).1,
            ).const_bound(constant.name, constant.ty),
            final(self).settled(*old(self)),
        decreases constant, 3int, 0int,
    {
        let ty = self.check_expr(&constant.value);
        self.fit(Some(&constant.ty), &ty);
        self.bind_const(constant.name, &constant.ty);
    }

    pub fn check_expr_stmt(&mut self, expr: &HirExpr) -> (ty: HirType)
        ensures
            ({
                let (after, value) = old(self).checked(*expr);
                &&& *final(self) == after.temp_loans_ended(keys_of(old(self).loans.calls))
                &&& ty == value
            }),
            final(self).settled(*old(self)),
        decreases expr, 3int, 0int,
    {
        let keys = self.snapshot_call_loan_keys();
        let ty = self.check_expr(expr);
        self.end_temp_call_loans(&keys);
        ty
    }

    pub fn check_block_stmt(&mut self, body: &List<HirStmt>) -> (value: Option<HirType>)
        ensures
            (*final(self), value) == old(self).block_checked(*body, false, None),
            final(self).settled_in_scope(*old(self)),
        decreases body, 2int, 0int,
    {
        self.check_block_body(body, false, &None)
    }

    pub fn check_unsafe_stmt(&mut self, body: &HirStmt) -> (value: Option<HirType>)
        ensures
            ({
                let (after, inner) = old(self).deeper().stmt_checked(*body);
                &&& *final(self) == after.shallower()
                &&& value == inner
            }),
            final(self).settled(*old(self)),
        decreases body, 3int, 0int,
    {
        self.enter_unsafe();
        let value = self.check_stmt(body);
        self.leave_unsafe();
        value
    }

    pub fn check_stmt(&mut self, stmt: &HirStmt) -> (value: Option<HirType>)
        ensures
            (*final(self), value) == old(self).stmt_checked(*stmt),
            final(self).settled(*old(self)),
        decreases stmt, 2int, 0int,
    {
        proof {
            reveal(TypeChecker::stmt_checked);
        }
        self.set_point(stmt);
        match &stmt.kind {
            StmtKind::Let { span, .. } => {
                self.set_span(*span);
                self.check_let_stmt(stmt);
                None
            },
            StmtKind::Return(_, span) => {
                self.set_span(*span);
                self.check_return_stmt(stmt);
                Some(HirType::Never)
            },
            StmtKind::Expr(expr) => Some(self.check_expr_stmt(expr)),
            StmtKind::If { span, .. } => {
                self.set_span(*span);
                self.check_if_branches(stmt, &None)
            },
            StmtKind::While { .. } => {
                self.check_while_stmt(stmt);
                None
            },
            StmtKind::For { .. } => {
                self.check_for_stmt(stmt);
                None
            },
            StmtKind::Block { body, span } => {
                self.set_span(*span);
                self.check_block_stmt(body)
            },
            StmtKind::Break(_, span) => {
                self.set_span(*span);
                self.check_break_stmt(stmt);
                Some(HirType::Never)
            },
            StmtKind::Continue(span) => {
                self.set_span(*span);
                if !self.context.in_loop {
                    self.record(TypeErrorKind::ContinueOutsideLoop);
                }
                Some(HirType::Never)
            },
            StmtKind::Const(constant) => {
                self.check_const_stmt(constant);
                None
            },
            StmtKind::Match { expr: scrutinee, arms, span } => {
                self.set_span(*span);
                let ty = self.check_expr(scrutinee);
                Some(self.check_match_arms(scrutinee, &ty, arms, &None, false))
            },
            StmtKind::UnsafeBlock { body } => self.check_unsafe_stmt(body),
            StmtKind::Defer(body) => self.check_stmt(body),
            StmtKind::Import(path, span) => {
                self.set_span(*span);
                self.check_import_stmt(path);
                None
            },
            StmtKind::Package(path, span) => {
                self.set_span(*span);
                self.check_package_stmt(path);
                None
            },
        }
    }
}

} // verus!
