//! Checking expressions.

use std::rc::Rc;

use vstd::prelude::*;

use crate::errors::{Message, TypeError, TypeErrorKind};
use crate::expressions::or_void;
use crate::expressions::type_or_void;
use crate::hir::{ExprKind, HirExpr, HirType, RefKind, StmtKind};
use crate::list::{Cons, List, Nil};
use crate::type_checker::TypeChecker;

verus! {

impl TypeChecker {
    /// The checker after an expression, and the type of its value.
    #[verifier::opaque]
    pub open spec fn checked(self, expr: HirExpr) -> (TypeChecker, HirType)
        decreases expr, 2int, 0int,
    {
        match expr.kind {
            ExprKind::Number(_, span) => (self.at_span(span), HirType::I64),
            ExprKind::Null(span) => (self.at_span(span), HirType::Null),
            ExprKind::Decimal(_, span) => (self.at_span(span), HirType::F64),
            ExprKind::Boolean(_, span) => (self.at_span(span), HirType::Boolean),
            ExprKind::String(_, span) => (self.at_span(span), HirType::String),
            ExprKind::Char(_, span) => (self.at_span(span), HirType::Char),
            ExprKind::Uninit { span, ty } => self.at_span(span).left_uninit(ty),
            ExprKind::Undefined { span, ty } => self.at_span(span).zeroed(ty),
            ExprKind::Ident(name, span) => self.at_span(span).ident_checked(name, span, true),
            ExprKind::Tuple(exprs, _) => {
                let (after, types) = self.all_checked(exprs);
                (after, HirType::Tuple(types))
            },
            ExprKind::Binary { left, op, right, span } => {
                let (first, left_ty) = self.at_span(span).checked(*left);
                let (second, right_ty) = first.checked(*right);
                second.operated(left_ty, op, right_ty)
            },
            ExprKind::Comparison { left, op, right, span } => {
                let (first, left_ty) = self.at_span(span).checked(*left);
                let (second, right_ty) = first.checked(*right);
                second.operated(left_ty, op, right_ty)
            },
            ExprKind::Intrinsic { span, .. } => self.at_span(span).intrinsic_checked(expr),
            ExprKind::If { if_stmt, span } => {
                let here = self.at_span(span);
                let warned = match if_stmt.kind {
                    StmtKind::If { else_block: None, .. } => here.said(Message::IfNeedsElse),
                    _ => here,
                };
                let (after, ty) = warned.stmt_checked(*if_stmt);
                (after, or_void(ty))
            },
            ExprKind::Match { expr: scrutinee, arms, span } => {
                let (after, ty) = self.at_span(span).checked(*scrutinee);
                after.arms_joined(*scrutinee, ty, arms, None, true)
            },
            ExprKind::Block { body, is_unsafe, span } => self.at_span(span).block_expr_checked(
                body,
                is_unsafe,
            ),
            ExprKind::Range { start, end, inclusive, span } => {
                let (first, start_ty) = self.at_span(span).checked(*start);
                let (second, end_ty) = first.checked(*end);
                second.ranged(*start, *end, start_ty, end_ty, inclusive)
            },
            ExprKind::Slice { object, start, end, span, .. } => {
                let (first, object_ty) = self.at_span(span).suppressed(*object);
                let (second, start_ty) = first.checked(*start);
                let (third, end_ty) = second.checked(*end);
                third.sliced(*object, *start, *end, (object_ty, start_ty, end_ty), true)
            },
            ExprKind::Call { .. } => self.call_checked(expr),
            ExprKind::FieldAccess { object, field, span } => self.at_span(span).field_checked(
                *object,
                field,
                true,
            ),
            ExprKind::Get { object, field, span } => self.at_span(span).field_checked(
                *object,
                field,
                true,
            ),
            ExprKind::StructInit { span, .. } => self.at_span(span).struct_checked(expr),
            ExprKind::InterfaceCall { span, .. } => self.at_span(span).interface_call_checked(expr),
            ExprKind::Assignment { span, .. } => self.at_span(span).assignment_checked(expr),
            ExprKind::InterpolatedString(parts) => (self.parts_checked(parts), HirType::String),
            ExprKind::EnumInit { .. } => self.enum_checked(expr, None),
            ExprKind::ExprList { list, span } => self.at_span(span).last_checked(
                list,
                HirType::Void,
            ),
            ExprKind::Deref { expr: inner, span } => {
                let (after, ty) = self.at_span(span).checked(*inner);
                after.dereferenced(*inner, ty)
            },
            ExprKind::Ref { expr: inner, ref_kind, span } => {
                let (after, ty) = self.ref_checked(*inner, ref_kind, span, true);
                (
                    if ref_kind is Shared {
                        after
                    } else {
                        after.after_mut_target(*inner)
                    },
                    ty,
                )
            },
            ExprKind::This { span } => self.at_span(span).this_checked(span),
            ExprKind::ModuleAccess(access) => self.at_span(access.span).member_accessed(
                access.path,
                access.member,
            ),
            ExprKind::Lambda { span, .. } => self.at_span(span).lambda_checked(expr, None, false),
            ExprKind::Index { object, index, span } => {
                let (first, object_ty) = self.at_span(span).suppressed(*object);
                let (second, index_ty) = first.checked(*index);
                second.fitted(Some(HirType::I64), index_ty).element_read(
                    *object,
                    *index,
                ).element_reached(
                    object_ty,
                    Message::RawIndexNeedsUnsafe,
                    Message::UnsafeIndexNeedsUnsafe,
                )
            },
            ExprKind::ArrayLiteral { elements, span } => match elements {
                Nil => (
                    self.at_span(span).recorded(TypeErrorKind::TypeCannotBeInferred),
                    HirType::Unknown,
                ),
                Cons(head, rest) => {
                    let (first, ty) = self.at_span(span).checked(*head);
                    (
                        first.value_used(*head, ty).elements_checked(*rest, ty),
                        HirType::Array(Rc::new(ty), elements.count()),
                    )
                },
            },
            ExprKind::Cast { expr: inner, target_type, span } => {
                let (after, ty) = self.at_span(span).checked(*inner);
                let used = after.value_used(*inner, ty);
                (used.recovered(used.cast_result(ty, target_type)), target_type)
            },
            ExprKind::UnknownIntrinsic { span, name } => (
                self.recovered(
                    Err(
                        TypeError {
                            kind: TypeErrorKind::Generic(Message::UnknownIntrinsic { name }),
                            span,
                        },
                    ),
                ),
                HirType::Unknown,
            ),
        }
    }

    pub fn check_array_literal_expr(&mut self, elements: &List<HirExpr>) -> (ty: HirType)
        ensures
            (*final(self), ty) == match *elements {
                Nil => (
                    old(self).recorded(TypeErrorKind::TypeCannotBeInferred),
                    HirType::Unknown,
                ),
                Cons(head, rest) => {
                    let (first, element_ty) = old(self).checked(*head);
                    (
                        first.value_used(*head, element_ty).elements_checked(*rest, element_ty),
                        HirType::Array(Rc::new(element_ty), elements.count()),
                    )
                },
            },
            final(self).settled(*old(self)),
        decreases elements, 1int, 0int,
    {
        match elements {
            Nil => {
                self.record(TypeErrorKind::TypeCannotBeInferred);
                HirType::Unknown
            },
            Cons(head, rest) => {
                let ty = self.check_expr(head);
                self.check_and_record_value_use(head, &ty);
                self.check_elements(rest, &ty);
                HirType::Array(Rc::new(ty), elements.len())
            },
        }
    }

    pub fn check_cast_expr(&mut self, inner: &HirExpr, target: &HirType) -> (ty: HirType)
        ensures
            ({
                let (after, inner_ty) = old(self).checked(*inner);
                let used = after.value_used(*inner, inner_ty);
                &&& *final(self) == used.recovered(used.cast_result(inner_ty, *target))
                &&& ty == *target
            }),
            final(self).settled(*old(self)),
        decreases inner, 3int, 0int,
    {
        let ty = self.check_expr(inner);
        self.check_and_record_value_use(inner, &ty);
        let result = self.check_cast_legality(&ty, target);
        self.recover(result);
        target.dup()
    }

    pub fn check_expr(&mut self, expr: &HirExpr) -> (ty: HirType)
        ensures
            (*final(self), ty) == old(self).checked(*expr),
            final(self).settled(*old(self)),
        decreases expr, 2int, 0int,
    {
        proof {
            reveal(TypeChecker::checked);
        }
        match &expr.kind {
            ExprKind::Number(_, span) => {
                self.set_span(*span);
                HirType::I64
            },
            ExprKind::Null(span) => {
                self.set_span(*span);
                HirType::Null
            },
            ExprKind::Decimal(_, span) => {
                self.set_span(*span);
                HirType::F64
            },
            ExprKind::Boolean(_, span) => {
                self.set_span(*span);
                HirType::Boolean
            },
            ExprKind::String(_, span) => {
                self.set_span(*span);
                HirType::String
            },
            ExprKind::Char(_, span) => {
                self.set_span(*span);
                HirType::Char
            },
            ExprKind::Uninit { span, ty } => {
                self.set_span(*span);
                self.check_uninit_value(ty)
            },
            ExprKind::Undefined { span, ty } => {
                self.set_span(*span);
                self.check_zeroed_value(ty)
            },
            ExprKind::Ident(name, span) => {
                self.set_span(*span);
                self.check_ident_expr(*name, *span, true)
            },
            ExprKind::Tuple(exprs, _) => HirType::Tuple(self.check_all(exprs)),
            ExprKind::Binary { left, op, right, span } => {
                self.set_span(*span);
                let left_ty = self.check_expr(left);
                let right_ty = self.check_expr(right);
                self.operate(&left_ty, *op, &right_ty)
            },
            ExprKind::Comparison { left, op, right, span } => {
                self.set_span(*span);
                let left_ty = self.check_expr(left);
                let right_ty = self.check_expr(right);
                self.operate(&left_ty, *op, &right_ty)
            },
            ExprKind::Intrinsic { span, .. } => {
                self.set_span(*span);
                self.check_intrinsic_expr(expr)
            },
            ExprKind::If { if_stmt, span } => {
                self.set_span(*span);
                match &if_stmt.kind {
                    StmtKind::If { else_block: None, .. } => self.say(Message::IfNeedsElse),
                    _ => {},
                }
                type_or_void(self.check_stmt(if_stmt))
            },
            ExprKind::Match { expr: scrutinee, arms, span } => {
                self.set_span(*span);
                let scrutinee_ty = self.check_expr(scrutinee);
                self.check_match_arms(scrutinee, &scrutinee_ty, arms, &None, true)
            },
            ExprKind::Block { body, is_unsafe, span } => {
                self.set_span(*span);
                self.check_block_expr(body, *is_unsafe)
            },
            ExprKind::Range { start, end, inclusive, span } => {
                self.set_span(*span);
                let start_ty = self.check_expr(start);
                let end_ty = self.check_expr(end);
                self.check_range_expr(start, end, start_ty, end_ty, *inclusive)
            },
            ExprKind::Slice { object, start, end, span, .. } => {
                self.set_span(*span);
                let object_ty = self.check_expr_suppressed(object);
                let start_ty = self.check_expr(start);
                let end_ty = self.check_expr(end);
                self.check_slice_expr(object, start, end, (object_ty, start_ty, end_ty), true)
            },
            ExprKind::Call { .. } => self.check_call_expr(expr),
            ExprKind::FieldAccess { object, field, span } => {
                self.set_span(*span);
                self.check_field_access_expr(object, *field)
            },
            ExprKind::Get { object, field, span } => {
                self.set_span(*span);
                self.check_field_access_expr(object, *field)
            },
            ExprKind::StructInit { span, .. } => {
                self.set_span(*span);
                self.check_struct_init_expr(expr)
            },
            ExprKind::InterfaceCall { span, .. } => {
                self.set_span(*span);
                self.check_interface_call_expr(expr)
            },
            ExprKind::Assignment { span, .. } => {
                self.set_span(*span);
                self.check_assignment_expr(expr)
            },
            ExprKind::InterpolatedString(parts) => {
                self.check_parts(parts);
                HirType::String
            },
            ExprKind::EnumInit { .. } => self.check_enum_init_expr(expr, &None),
            ExprKind::ExprList { list, span } => {
                self.set_span(*span);
                self.check_last(list, HirType::Void)
            },
            ExprKind::Deref { expr: inner, span } => {
                self.set_span(*span);
                let ty = self.check_expr(inner);
                self.check_deref_expr(inner, &ty)
            },
            ExprKind::Ref { expr: inner, ref_kind, span } => {
                let ty = self.check_ref_expr(inner, *ref_kind, *span, true);
                if !matches!(ref_kind, RefKind::Shared) {
                    self.optimistically_mark_mut_target_init(inner);
                }
                ty
            },
            ExprKind::This { span } => {
                self.set_span(*span);
                self.check_this_expr(*span)
            },
            ExprKind::ModuleAccess(access) => {
                self.set_span(access.span);
                self.check_module_access_expr(&access.path, access.member)
            },
            ExprKind::Lambda { span, .. } => {
                self.set_span(*span);
                self.check_lambda(expr, &None, false)
            },
            ExprKind::Index { object, index, span } => {
                self.set_span(*span);
                let object_ty = self.check_expr_suppressed(object);
                let index_ty = self.check_expr(index);
                self.fit(Some(&HirType::I64), &index_ty);
                self.check_element_read(object, index);
                self.check_index_expr(
                    &object_ty,
                    Message::RawIndexNeedsUnsafe,
                    Message::UnsafeIndexNeedsUnsafe,
                )
            },
            ExprKind::ArrayLiteral { elements, span } => {
                self.set_span(*span);
                self.check_array_literal_expr(elements)
            },
            ExprKind::Cast { expr: inner, target_type, span } => {
                self.set_span(*span);
                self.check_cast_expr(inner, target_type)
            },
            ExprKind::UnknownIntrinsic { span, name } => {
                self.recover(
                    Err(
                        TypeErrorKind::Generic(Message::UnknownIntrinsic { name: *name }).at(
                            *span,
                        ),
                    ),
                );
                HirType::Unknown
            },
        }
    }
}

} // verus!
