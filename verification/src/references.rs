//! Pointers that would outlive what they point to.

use vstd::prelude::*;

use crate::errors::{Message, TypeError, TypeErrorKind};
use crate::hir::{ExprKind, HirExpr, StrId};
use crate::list::lookup;
use crate::type_checker::{TypeCheckResult, TypeChecker};

verus! {

/// The local that a place lies in or is reached from.
pub open spec fn root_local(expr: HirExpr) -> Option<StrId>
    decreases expr,
{
    match expr.kind {
        ExprKind::Ident(name, _) => Some(name),
        ExprKind::FieldAccess { object, .. } | ExprKind::Get { object, .. } => root_local(*object),
        ExprKind::Deref { expr: inner, .. } => root_local(*inner),
        _ => None,
    }
}

impl TypeChecker {
    /// Whether a reference to a place points into the storage of a local.
    pub open spec fn points_into_local(self, place: HirExpr) -> bool {
        match root_local(place) {
            Some(root) => match lookup(self.context.variables, root) {
                Some((_, ty)) => !self.program.facts.points(ty),
                None => false,
            },
            None => false,
        }
    }

    pub open spec fn dangles(self, expr: HirExpr) -> bool {
        match expr.kind {
            ExprKind::Ref { expr: inner, .. } => self.points_into_local(*inner),
            ExprKind::Ident(name, _) => self.context.dangling_locals.has(name),
            _ => false,
        }
    }

    /// Returning an expression is refused exactly where it dangles.
    #[verifier::opaque]
    pub open spec fn dangling_result(self, expr: HirExpr) -> TypeCheckResult<()> {
        if self.dangles(expr) {
            Err(
                TypeError {
                    kind: TypeErrorKind::Generic(
                        match expr.kind {
                            ExprKind::Ref { expr: inner, .. } => Message::PointerToLocal {
                                name: root_local(*inner)->0,
                            },
                            _ => Message::ReturnsDangling { name: root_local(expr)->0 },
                        },
                    ),
                    span: self.diagnostics.current_span,
                },
            )
        } else {
            Ok(())
        }
    }

    pub fn find_root_local_ident(expr: &HirExpr) -> (root: Option<StrId>)
        ensures
            root == root_local(*expr),
        decreases expr,
    {
        match &expr.kind {
            ExprKind::Ident(name, _) => Some(*name),
            ExprKind::FieldAccess { object, .. } | ExprKind::Get { object, .. } => {
                Self::find_root_local_ident(object)
            },
            ExprKind::Deref { expr: inner, .. } => Self::find_root_local_ident(inner),
            _ => None,
        }
    }

    fn reference_into_local(&self, place: &HirExpr) -> (root: Option<StrId>)
        ensures
            root == if self.points_into_local(*place) {
                root_local(*place)
            } else {
                None
            },
    {
        match Self::find_root_local_ident(place) {
            Some(root) => match self.context.get_variable(root) {
                Some((_, ty)) => if self.program.facts.is_pointer_semantics(&ty) {
                    None
                } else {
                    Some(root)
                },
                None => None,
            },
            None => None,
        }
    }

    pub fn expr_is_dangling(&self, expr: &HirExpr) -> (dangling: bool)
        ensures
            dangling == self.dangles(*expr),
    {
        match &expr.kind {
            ExprKind::Ref { expr: inner, .. } => self.reference_into_local(inner).is_some(),
            ExprKind::Ident(name, _) => self.context.is_dangling(*name),
            _ => false,
        }
    }

    pub fn check_no_dangling_pointer(&self, expr: &HirExpr) -> (result: TypeCheckResult<()>)
        ensures
            result == self.dangling_result(*expr),
    {
        proof {
            reveal(TypeChecker::dangling_result);
        }
        match &expr.kind {
            ExprKind::Ref { expr: inner, .. } => match self.reference_into_local(inner) {
                Some(name) => Err(
                    TypeErrorKind::Generic(Message::PointerToLocal { name }).at(
                        self.diagnostics.current_span,
                    ),
                ),
                None => Ok(()),
            },
            ExprKind::Ident(name, _) => if self.context.is_dangling(*name) {
                Err(
                    TypeErrorKind::Generic(Message::ReturnsDangling { name: *name }).at(
                        self.diagnostics.current_span,
                    ),
                )
            } else {
                Ok(())
            },
            _ => Ok(()),
        }
    }
}

} // verus!
