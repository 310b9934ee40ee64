//! Checking values where a type is expected, places, references and what is built from values.

use std::rc::Rc;

use vstd::prelude::*;

use crate::closures::{level_of_ref, UseLevel};
use crate::errors::{BareImportKind, Message, TypeErrorKind, TypeText};
use crate::expressions::{bookkeeping, enum_args, list_or_empty, or_void, slice_ownership};
use crate::expressions::{dup_types, type_or_void};
use crate::hir::{
    field_index, find_variant, position_of_field, variant_named, ExprKind, HirExpr, HirFieldInit,
    HirStruct, HirType, InterpolationPart, RefKind, SourceSpan, StrId, Word,
};
use crate::list::{add_member, lookup, update, updated, with_member, Cons, List, Nil};
use crate::ref_provenance::provenance_of;
use crate::type_checker::{Backfills, Modes, TypeChecker};
use crate::type_context::SymbolId;
use crate::types::integer;

verus! {

impl TypeChecker {
    pub open spec fn boolean_checked(self, ty: HirType) -> TypeChecker {
        if ty is Boolean {
            self
        } else {
            self.mismatched(TypeText::Bool, TypeText::Type(ty))
        }
    }

    pub fn check_boolean(&mut self, ty: &HirType)
        ensures
            *final(self) == old(self).boolean_checked(*ty),
            final(self).settled_in_scope(*old(self)),
    {
        if !matches!(ty, HirType::Boolean) {
            self.record(
                TypeErrorKind::TypeMismatch {
                    expected: TypeText::Bool,
                    found: TypeText::Type(ty.dup()),
                },
            );
        }
    }

    /// The checker after a value of one type stands where another is declared.
    #[verifier::opaque]
    pub open spec fn fitted(self, declared: Option<HirType>, ty: HirType) -> TypeChecker {
        match declared {
            Some(expected) => self.recovered(self.compatibility(expected, ty)),
            None => self,
        }
    }

    pub fn fit(&mut self, declared: Option<&HirType>, ty: &HirType)
        ensures
            *final(self) == old(self).fitted(
                match declared {
                    Some(expected) => Some(*expected),
                    None => None,
                },
                *ty,
            ),
            final(self).settled_in_scope(*old(self)),
    {
        proof {
            reveal(TypeChecker::fitted);
        }
        match declared {
            Some(expected) => {
                let result = self.types_compatible(expected, ty);
                self.recover(result);
            },
            None => {},
        }
    }

    pub open spec fn undefined_filled(self, key: usize, ty: HirType) -> TypeChecker {
        TypeChecker {
            backfills: Backfills {
                undefined: updated(self.backfills.undefined, key, ty),
                ..self.backfills
            },
            ..self
        }
    }

    pub open spec fn uninit_filled(self, key: usize, ty: HirType) -> TypeChecker {
        TypeChecker {
            backfills: Backfills {
                uninit: updated(self.backfills.uninit, key, ty),
                ..self.backfills
            },
            ..self
        }
    }

    /// The checker after a reference to a place is made.
    #[verifier::opaque]
    pub open spec fn ref_registered(self, place: HirExpr, kind: RefKind) -> TypeChecker {
        let noted = self.noted_expr(place, level_of_ref(kind));
        let (after, found) = noted.resolved(place);
        match found {
            Some(source) => after.borrowed(
                source,
                kind,
                provenance_of(self.program.graph, place),
            ).0,
            None => after,
        }
    }

    fn register_ref(&mut self, place: &HirExpr, kind: RefKind)
        ensures
            *final(self) == old(self).ref_registered(*place, kind),
            final(self).settled_in_scope(*old(self)),
    {
        proof {
            reveal(TypeChecker::ref_registered);
        }
        let blame = self.infer_provenance(place);
        self.note_expr_use(place, UseLevel::of_ref(kind));
        match self.resolve_place(place) {
            Some(source) => {
                self.borrow_place(source, kind, blame);
            },
            None => {},
        }
    }

    #[verifier::opaque]
    pub open spec fn all_checked(self, exprs: List<HirExpr>) -> (TypeChecker, List<HirType>)
        decreases exprs, 0int, 0int,
    {
        match exprs {
            Nil => (self, Nil),
            Cons(expr, rest) => {
                let (after, ty) = self.checked(*expr);
                let (last, types) = after.all_checked(*rest);
                (last, List::cons_of(ty, types))
            },
        }
    }

    /// The checker after a list of expressions, and the type of the last.
    #[verifier::opaque]
    pub open spec fn last_checked(self, exprs: List<HirExpr>, ty: HirType) -> (TypeChecker, HirType)
        decreases exprs, 0int, 0int,
    {
        match exprs {
            Nil => (self, ty),
            Cons(expr, rest) => {
                let (after, next) = self.checked(*expr);
                after.last_checked(*rest, next)
            },
        }
    }

    #[verifier::opaque]
    pub open spec fn parts_checked(self, parts: List<InterpolationPart>) -> TypeChecker
        decreases parts, 0int, 0int,
    {
        match parts {
            Nil => self,
            Cons(part, rest) => match *part {
                InterpolationPart::Text(_) => self.parts_checked(*rest),
                InterpolationPart::Expr(expr) => self.checked(*expr).0.parts_checked(*rest),
            },
        }
    }

    /// The checker after the elements of an array that must fit the first.
    #[verifier::opaque]
    pub open spec fn elements_checked(self, elements: List<HirExpr>, ty: HirType) -> TypeChecker
        decreases elements, 0int, 0int,
    {
        match elements {
            Nil => self,
            Cons(element, rest) => {
                let (after, found) = self.checked(*element);
                after.value_used(*element, found).fitted(Some(ty), found).elements_checked(
                    *rest,
                    ty,
                )
            },
        }
    }

    /// The checker after an expression where a value of a type is expected.
    #[verifier::opaque]
    pub open spec fn expected(self, expr: HirExpr, ty: HirType) -> (TypeChecker, HirType)
        decreases expr, 3int, 0int,
    {
        match expr.kind {
            ExprKind::Number(_, span) => if integer(ty) {
                (self.at_span(span), ty)
            } else {
                self.checked(expr)
            },
            ExprKind::Decimal(_, span) => if ty is F32 || ty is F64 {
                (self.at_span(span), ty)
            } else {
                self.checked(expr)
            },
            ExprKind::Undefined { span, ty: HirType::Unknown } => {
                let here = self.at_span(span);
                if here.zero_ok(ty) {
                    (here.undefined_filled(expr.key, ty), ty)
                } else {
                    (here.said(Message::NotZeroable { ty }), HirType::Unknown)
                }
            },
            ExprKind::Uninit { span, ty: HirType::Unknown } => (
                self.at_span(span).uninit_filled(expr.key, ty),
                ty,
            ),
            ExprKind::EnumInit { .. } => self.enum_checked(expr, Some(ty)),
            ExprKind::Match { expr: scrutinee, arms, span } => {
                let (after, scrutinee_ty) = self.at_span(span).checked(*scrutinee);
                after.arms_joined(*scrutinee, scrutinee_ty, arms, Some(ty), false)
            },
            ExprKind::If { if_stmt, span } => {
                let (after, found) = self.at_span(span).if_checked(*if_stmt, Some(ty));
                (after, or_void(found))
            },
            ExprKind::Block { body, is_unsafe, span } => {
                let here = self.at_span(span);
                let inside = if is_unsafe {
                    here.deeper()
                } else {
                    here
                };
                let (after, found) = inside.block_checked(body, true, Some(ty));
                (
                    if is_unsafe {
                        after.shallower()
                    } else {
                        after
                    },
                    or_void(found),
                )
            },
            ExprKind::Lambda { .. } => self.lambda_checked(
                expr,
                if ty is Lambda {
                    Some(ty)
                } else {
                    None
                },
                false,
            ),
            _ => self.checked(expr),
        }
    }

    /// The checker after an expression of which it does not matter whether it is initialized.
    #[verifier::opaque]
    pub open spec fn suppressed(self, expr: HirExpr) -> (TypeChecker, HirType)
        decreases expr, 3int, 0int,
    {
        let (after, ty) = self.with_modes(
            Modes { suppress_init_read: true, ..self.modes },
        ).checked(expr);
        (
            after.with_modes(
                Modes { suppress_init_read: self.modes.suppress_init_read, ..after.modes },
            ),
            ty,
        )
    }

    /// The checker after an expression that is used as a place.
    #[verifier::opaque]
    pub open spec fn placed(self, expr: HirExpr) -> (TypeChecker, HirType)
        decreases expr, 6int, 0int,
    {
        let (after, ty) = self.with_modes(
            Modes { in_place_context: true, ..self.modes },
        ).placed_inner(expr);
        (
            after.with_modes(
                Modes { in_place_context: self.modes.in_place_context, ..after.modes },
            ),
            ty,
        )
    }

    #[verifier::opaque]
    pub open spec fn placed_inner(self, expr: HirExpr) -> (TypeChecker, HirType)
        decreases expr, 5int, 0int,
    {
        match expr.kind {
            ExprKind::Ident(name, span) => self.ident_checked(name, span, false),
            ExprKind::FieldAccess { object, field, span } => self.at_span(span).field_checked(
                *object,
                field,
                false,
            ),
            ExprKind::Get { object, field, span } => self.at_span(span).field_checked(
                *object,
                field,
                false,
            ),
            ExprKind::Index { object, index, span } => {
                let (first, object_ty) = self.at_span(span).suppressed(*object);
                let (second, index_ty) = first.checked(*index);
                second.fitted(Some(HirType::I64), index_ty).element_reached(
                    object_ty,
                    Message::PointerIndexNeedsUnsafe,
                    Message::PointerIndexNeedsUnsafe,
                )
            },
            ExprKind::Slice { object, start, end, span, .. } => {
                let skip = self.modes.skip_slice_init_check;
                let here = self.at_span(span).with_modes(
                    Modes { skip_slice_init_check: false, ..self.modes },
                );
                let (first, object_ty) = here.suppressed(*object);
                let (second, start_ty) = first.checked(*start);
                let (third, end_ty) = second.checked(*end);
                third.sliced(*object, *start, *end, (object_ty, start_ty, end_ty), !skip)
            },
            _ => self.checked(expr),
        }
    }

    /// The checker after a field access, whose field is read or only named.
    #[verifier::opaque]
    pub open spec fn field_checked(self, object: HirExpr, field: StrId, read: bool) -> (
        TypeChecker,
        HirType,
    )
        decreases object, 4int, 0int,
    {
        let (after, ty) = self.suppressed(object);
        after.field_reached(object, field, ty, read)
    }

    /// The checker after a reference to a place, which is a loan of it if it is to be registered.
    #[verifier::opaque]
    pub open spec fn ref_checked(
        self,
        place: HirExpr,
        kind: RefKind,
        span: SourceSpan,
        register: bool,
    ) -> (TypeChecker, HirType)
        decreases place, 7int, 0int,
    {
        let here = self.at_span(span);
        let (after, ty) = if kind is Shared {
            here.checked(place)
        } else {
            here.placed(place)
        };
        (
            if register {
                after.ref_registered(place, kind)
            } else {
                after
            },
            HirType::Ref {
                inner: Rc::new(ty),
                ref_kind: kind,
                provenance: provenance_of(after.program.graph, place),
            },
        )
    }

    /// The checker after a reference to a place that, if it is a slice, need not be initialized.
    #[verifier::opaque]
    pub open spec fn ref_deferred(
        self,
        place: HirExpr,
        kind: RefKind,
        span: SourceSpan,
        register: bool,
        skip: bool,
    ) -> (TypeChecker, HirType)
        decreases place, 8int, 0int,
    {
        let (after, ty) = self.with_modes(
            Modes { skip_slice_init_check: skip && place.kind is Slice, ..self.modes },
        ).ref_checked(place, kind, span, register);
        (
            after.with_modes(
                Modes { skip_slice_init_check: self.modes.skip_slice_init_check, ..after.modes },
            ),
            ty,
        )
    }

    /// The checker after a struct is built.
    #[verifier::opaque]
    pub open spec fn struct_checked(self, expr: HirExpr) -> (TypeChecker, HirType)
        decreases expr, 1int, 0int,
    {
        match expr.kind {
            ExprKind::StructInit { name: name_expr, args, type_args, .. } => match name_expr.kind {
                ExprKind::Ident(name, name_span) => match lookup(self.context.structs, name) {
                    None => (
                        self.recorded(TypeErrorKind::UndefinedType(name)),
                        HirType::Struct {
                            name,
                            field_types: Nil,
                            type_args: list_or_empty(type_args),
                        },
                    ),
                    Some(def) => {
                        let (resolved, types) = self.after_bare_name(
                            lookup(self.context.struct_owner_module, name),
                            name,
                            BareImportKind::Struct,
                        ).struct_types(name, *def, type_args);
                        let ty = HirType::Struct {
                            name,
                            field_types: types,
                            type_args: list_or_empty(type_args),
                        };
                        (
                            resolved.inits_checked(args, name, *def, types, Nil).struct_built(
                                name,
                                name_span,
                                *def,
                                args,
                                ty,
                            ),
                            ty,
                        )
                    },
                },
                _ => (self, HirType::Void),
            },
            _ => (self, HirType::Unknown),
        }
    }

    /// The checker after the values for the fields of a struct.
    #[verifier::opaque]
    pub open spec fn inits_checked(
        self,
        inits: List<HirFieldInit>,
        struct_name: StrId,
        def: HirStruct,
        types: List<HirType>,
        seen: List<StrId>,
    ) -> TypeChecker
        decreases inits, 0int, 0int,
    {
        match inits {
            Nil => self,
            Cons(init, rest) => match field_index(def.fields, init.name) {
                None => self.recorded(
                    TypeErrorKind::FieldNotFound { struct_name, field: init.name },
                ).checked(init.value).0.inits_checked(*rest, struct_name, def, types, seen),
                Some(index) => {
                    let ty = match types.nth(index) {
                        Some(known) => known,
                        None => HirType::Unknown,
                    };
                    let first = if seen.has(init.name) {
                        self.said(Message::FieldInitializedTwice { field: init.name })
                    } else {
                        self
                    };
                    let (after, found) = first.expected(init.value, ty);
                    after.value_used(init.value, found).fitted(Some(ty), found).occurred(
                        init.name_span,
                        init.name,
                        ty,
                        SymbolId::Field { struct_name, field_name: init.name },
                        false,
                    ).inits_checked(*rest, struct_name, def, types, with_member(seen, init.name))
                },
            },
        }
    }

    /// The checker after a value of an enum is built.
    #[verifier::opaque]
    pub open spec fn enum_checked(self, expr: HirExpr, expected: Option<HirType>) -> (
        TypeChecker,
        HirType,
    )
        decreases expr, 1int, 0int,
    {
        match expr.kind {
            ExprKind::EnumInit { enum_name, variant, args, type_args, span } => {
                let here = self.at_span(span);
                match lookup(here.context.enums, enum_name) {
                    None => (
                        here.recorded(TypeErrorKind::UndefinedType(enum_name)),
                        HirType::Unknown,
                    ),
                    Some(def) => {
                        let imported = here.after_bare_name(
                            lookup(here.context.enum_owner_module, enum_name),
                            enum_name,
                            BareImportKind::Enum,
                        );
                        match variant_named(def.variants, variant) {
                            None => (
                                imported.said(Message::NoSuchVariant { enum_name, variant }),
                                HirType::Unknown,
                            ),
                            Some(found) => {
                                let (resolved, types) = imported.variant_types(
                                    enum_name,
                                    *def,
                                    found,
                                    type_args,
                                );
                                let (after, values) = resolved.counted(
                                    types.count(),
                                    args.count(),
                                ).values_checked(args, types);
                                (
                                    after.instance_noted(expr.key, type_args),
                                    HirType::Enum {
                                        name: enum_name,
                                        type_args: enum_args(
                                            enum_name,
                                            *def,
                                            found,
                                            type_args,
                                            values,
                                            expected,
                                        ),
                                    },
                                )
                            },
                        }
                    },
                }
            },
            _ => (self, HirType::Unknown),
        }
    }

    /// The checker after values for fields of these types, and the types that they have.
    #[verifier::opaque]
    pub open spec fn values_checked(self, args: List<HirExpr>, types: List<HirType>) -> (
        TypeChecker,
        List<HirType>,
    )
        decreases args, 0int, 0int,
    {
        match (args, types) {
            (Cons(arg, more), Cons(ty, rest)) => {
                let (after, found) = self.expected(*arg, *ty);
                let (last, values) = after.value_used(*arg, found).fitted(
                    Some(*ty),
                    found,
                ).values_checked(*more, *rest);
                (last, List::cons_of(found, values))
            },
            _ => (self, Nil),
        }
    }

    /// The checker after an assignment.
    #[verifier::opaque]
    pub open spec fn assignment_checked(self, expr: HirExpr) -> (TypeChecker, HirType)
        decreases expr, 1int, 0int,
    {
        match expr.kind {
            ExprKind::Assignment { target, op, value, .. } => match target.kind {
                ExprKind::FieldAccess { object, field, .. } | ExprKind::Get { object, field, .. } => {
                    if bookkeeping(field) {
                        let (seen, object_ty) = self.suppressed(*object);
                        match slice_ownership(object_ty) {
                            Some(owned) => {
                                let (after, value_ty) = seen.checked(*value);
                                after.bookkeeping_assigned(field, owned, op, value_ty)
                            },
                            None => seen.plainly_assigned(expr),
                        }
                    } else {
                        self.plainly_assigned(expr)
                    }
                },
                _ => self.plainly_assigned(expr),
            },
            _ => (self, HirType::Unknown),
        }
    }

    #[verifier::opaque]
    pub open spec fn plainly_assigned(self, expr: HirExpr) -> (TypeChecker, HirType)
        decreases expr, 0int, 0int,
    {
        match expr.kind {
            ExprKind::Assignment { target, op, value, .. } => {
                let (first, target_ty) = self.placed(*target);
                let (second, value_ty) = first.expected(*value, target_ty);
                (
                    second.target_assigned(*target, op, *value, target_ty, value_ty),
                    target_ty,
                )
            },
            _ => (self, HirType::Unknown),
        }
    }

    pub fn check_all(&mut self, exprs: &List<HirExpr>) -> (types: List<HirType>)
        ensures
            (*final(self), types) == old(self).all_checked(*exprs),
            final(self).settled(*old(self)),
        decreases exprs, 0int, 0int,
    {
        proof {
            reveal(TypeChecker::all_checked);
        }
        match exprs {
            Nil => Nil,
            Cons(expr, rest) => {
                let ty = self.check_expr(expr);
                let types = self.check_all(rest);
                List::cons(ty, types)
            },
        }
    }

    pub fn check_last(&mut self, exprs: &List<HirExpr>, ty: HirType) -> (last: HirType)
        ensures
            (*final(self), last) == old(self).last_checked(*exprs, ty),
            final(self).settled(*old(self)),
        decreases exprs, 0int, 0int,
    {
        proof {
            reveal(TypeChecker::last_checked);
        }
        match exprs {
            Nil => ty,
            Cons(expr, rest) => {
                let next = self.check_expr(expr);
                self.check_last(rest, next)
            },
        }
    }

    pub fn check_parts(&mut self, parts: &List<InterpolationPart>)
        ensures
            *final(self) == old(self).parts_checked(*parts),
            final(self).settled(*old(self)),
        decreases parts, 0int, 0int,
    {
        proof {
            reveal(TypeChecker::parts_checked);
        }
        match parts {
            Nil => {},
            Cons(part, rest) => {
                match &**part {
                    InterpolationPart::Text(_) => {},
                    InterpolationPart::Expr(expr) => {
                        self.check_expr(expr);
                    },
                }
                self.check_parts(rest);
            },
        }
    }

    pub fn check_elements(&mut self, elements: &List<HirExpr>, ty: &HirType)
        ensures
            *final(self) == old(self).elements_checked(*elements, *ty),
            final(self).settled(*old(self)),
        decreases elements, 0int, 0int,
    {
        proof {
            reveal(TypeChecker::elements_checked);
        }
        match elements {
            Nil => {},
            Cons(element, rest) => {
                let found = self.check_expr(element);
                self.check_and_record_value_use(element, &found);
                self.fit(Some(ty), &found);
                self.check_elements(rest, ty);
            },
        }
    }

    pub fn check_expr_expected(&mut self, expr: &HirExpr, ty: &HirType) -> (result: HirType)
        ensures
            (*final(self), result) == old(self).expected(*expr, *ty),
            final(self).settled(*old(self)),
        decreases expr, 3int, 0int,
    {
        proof {
            reveal(TypeChecker::expected);
            reveal(TypeChecker::enum_checked);
        }
        match &expr.kind {
            ExprKind::Number(_, span) => if self.is_integer(ty) {
                self.set_span(*span);
                ty.dup()
            } else {
                self.check_expr(expr)
            },
            ExprKind::Decimal(_, span) => if matches!(ty, HirType::F32 | HirType::F64) {
                self.set_span(*span);
                ty.dup()
            } else {
                self.check_expr(expr)
            },
            ExprKind::Undefined { span, ty: HirType::Unknown } => {
                self.set_span(*span);
                if self.is_zeroable(ty) {
                    self.backfills.undefined = update(
                        &self.backfills.undefined,
                        expr.key,
                        ty.dup(),
                    );
                    ty.dup()
                } else {
                    self.say(Message::NotZeroable { ty: ty.dup() });
                    HirType::Unknown
                }
            },
            ExprKind::Uninit { span, ty: HirType::Unknown } => {
                self.set_span(*span);
                self.backfills.uninit = update(&self.backfills.uninit, expr.key, ty.dup());
                ty.dup()
            },
            ExprKind::EnumInit { .. } => self.check_enum_init_expr(expr, &Some(ty.dup())),
            ExprKind::Match { expr: scrutinee, arms, span } => {
                self.set_span(*span);
                let scrutinee_ty = self.check_expr(scrutinee);
                self.check_match_arms(scrutinee, &scrutinee_ty, arms, &Some(ty.dup()), false)
            },
            ExprKind::If { if_stmt, span } => {
                self.set_span(*span);
                type_or_void(self.check_if_branches(if_stmt, &Some(ty.dup())))
            },
            ExprKind::Block { body, is_unsafe, span } => {
                self.set_span(*span);
                if *is_unsafe {
                    self.enter_unsafe();
                }
                let found = self.check_block_body(body, true, &Some(ty.dup()));
                if *is_unsafe {
                    self.leave_unsafe();
                }
                type_or_void(found)
            },
            ExprKind::Lambda { .. } => {
                let sig = if matches!(ty, HirType::Lambda { .. }) {
                    Some(ty.dup())
                } else {
                    None
                };
                self.check_lambda(expr, &sig, false)
            },
            _ => self.check_expr(expr),
        }
    }

    pub fn check_expr_suppressed(&mut self, expr: &HirExpr) -> (ty: HirType)
        ensures
            (*final(self), ty) == old(self).suppressed(*expr),
            final(self).settled(*old(self)),
        decreases expr, 3int, 0int,
    {
        proof {
            reveal(TypeChecker::suppressed);
        }
        let previous = self.modes.suppress_init_read;
        self.modes.suppress_init_read = true;
        let ty = self.check_expr(expr);
        self.modes.suppress_init_read = previous;
        ty
    }

    pub fn check_expr_as_place(&mut self, expr: &HirExpr) -> (ty: HirType)
        ensures
            (*final(self), ty) == old(self).placed(*expr),
            final(self).settled(*old(self)),
        decreases expr, 6int, 0int,
    {
        proof {
            reveal(TypeChecker::placed);
            reveal(TypeChecker::placed_inner);
        }
        let previous = self.modes.in_place_context;
        self.modes.in_place_context = true;
        let ty = self.check_expr_as_place_inner(expr);
        self.modes.in_place_context = previous;
        ty
    }

    pub fn check_expr_as_place_inner(&mut self, expr: &HirExpr) -> (ty: HirType)
        ensures
            (*final(self), ty) == old(self).placed_inner(*expr),
            final(self).settled(*old(self)),
        decreases expr, 5int, 0int,
    {
        proof {
            reveal(TypeChecker::at_span);
            reveal(TypeChecker::placed_inner);
            reveal(TypeChecker::field_checked);
            reveal(TypeChecker::suppressed);
        }
        match &expr.kind {
            ExprKind::Ident(name, span) => self.check_ident_expr(*name, *span, false),
            ExprKind::FieldAccess { object, field, span } => {
                self.set_span(*span);
                self.check_field_access_no_init_check(object, *field)
            },
            ExprKind::Get { object, field, span } => {
                self.set_span(*span);
                self.check_field_access_no_init_check(object, *field)
            },
            ExprKind::Index { object, index, span } => {
                self.set_span(*span);
                let object_ty = self.check_expr_suppressed(object);
                let index_ty = self.check_expr(index);
                self.fit(Some(&HirType::I64), &index_ty);
                self.check_index_expr(
                    &object_ty,
                    Message::PointerIndexNeedsUnsafe,
                    Message::PointerIndexNeedsUnsafe,
                )
            },
            ExprKind::Slice { object, start, end, span, .. } => {
                self.set_span(*span);
                let skip = self.modes.skip_slice_init_check;
                self.modes.skip_slice_init_check = false;
                let object_ty = self.check_expr_suppressed(object);
                let start_ty = self.check_expr(start);
                let end_ty = self.check_expr(end);
                self.check_slice_expr(object, start, end, (object_ty, start_ty, end_ty), !skip)
            },
            _ => self.check_expr(expr),
        }
    }

    /// The type of a field that is read.
    pub fn check_field_access_expr(&mut self, object: &HirExpr, field: StrId) -> (ty: HirType)
        ensures
            (*final(self), ty) == old(self).field_checked(*object, field, true),
            final(self).settled(*old(self)),
        decreases object, 5int, 0int,
    {
        self.check_field(object, field, true)
    }

    /// The type of a field that need not be initialized.
    pub fn check_field_access_no_init_check(&mut self, object: &HirExpr, field: StrId) -> (ty: HirType)
        ensures
            (*final(self), ty) == old(self).field_checked(*object, field, false),
            final(self).settled(*old(self)),
        decreases object, 5int, 0int,
    {
        self.check_field(object, field, false)
    }

    fn check_field(&mut self, object: &HirExpr, field: StrId, read: bool) -> (ty: HirType)
        ensures
            (*final(self), ty) == old(self).field_checked(*object, field, read),
            final(self).settled(*old(self)),
        decreases object, 4int, 0int,
    {
        proof {
            reveal(TypeChecker::field_checked);
            reveal(TypeChecker::suppressed);
        }
        let object_ty = self.check_expr_suppressed(object);
        self.reach_field(object, field, &object_ty, read)
    }

    pub fn check_ref_expr(
        &mut self,
        place: &HirExpr,
        kind: RefKind,
        span: SourceSpan,
        register: bool,
    ) -> (ty: HirType)
        ensures
            (*final(self), ty) == old(self).ref_checked(*place, kind, span, register),
            final(self).settled(*old(self)),
        decreases place, 7int, 0int,
    {
        proof {
            reveal(TypeChecker::ref_checked);
            reveal(TypeChecker::placed);
        }
        self.set_span(span);
        let ty = if matches!(kind, RefKind::Shared) {
            self.check_expr(place)
        } else {
            self.check_expr_as_place(place)
        };
        let provenance = self.infer_provenance(place);
        if register {
            self.register_ref(place, kind);
        }
        HirType::Ref { inner: Rc::new(ty), ref_kind: kind, provenance }
    }

    pub fn check_ref_expr_deferring_init(
        &mut self,
        place: &HirExpr,
        kind: RefKind,
        span: SourceSpan,
        register: bool,
        skip: bool,
    ) -> (ty: HirType)
        ensures
            (*final(self), ty) == old(self).ref_deferred(*place, kind, span, register, skip),
            final(self).settled(*old(self)),
        decreases place, 8int, 0int,
    {
        proof {
            reveal(TypeChecker::ref_deferred);
            reveal(TypeChecker::ref_checked);
        }
        let previous = self.modes.skip_slice_init_check;
        self.modes.skip_slice_init_check = skip && matches!(place.kind, ExprKind::Slice { .. });
        let ty = self.check_ref_expr(place, kind, span, register);
        self.modes.skip_slice_init_check = previous;
        ty
    }

    pub fn check_struct_init_expr(&mut self, expr: &HirExpr) -> (ty: HirType)
        ensures
            (*final(self), ty) == old(self).struct_checked(*expr),
            final(self).settled(*old(self)),
        decreases expr, 1int, 0int,
    {
        proof {
            reveal(TypeChecker::struct_checked);
            reveal(TypeChecker::inits_checked);
        }
        match &expr.kind {
            ExprKind::StructInit { name: name_expr, args, type_args, .. } => match &name_expr.kind {
                ExprKind::Ident(name, name_span) => match self.context.get_struct(*name) {
                    None => {
                        self.record(TypeErrorKind::UndefinedType(*name));
                        HirType::Struct {
                            name: *name,
                            field_types: Nil,
                            type_args: dup_types(type_args),
                        }
                    },
                    Some(def) => {
                        let owner = self.context.struct_owner(*name);
                        self.check_bare_name_import(owner, *name, BareImportKind::Struct);
                        let types = self.resolve_struct_types(*name, &def, type_args);
                        self.check_inits(args, *name, &def, &types, Nil);
                        let ty = HirType::Struct {
                            name: *name,
                            field_types: types,
                            type_args: dup_types(type_args),
                        };
                        self.finish_struct(*name, *name_span, &def, args, &ty);
                        ty
                    },
                },
                _ => HirType::Void,
            },
            _ => HirType::Unknown,
        }
    }

    fn check_inits(
        &mut self,
        inits: &List<HirFieldInit>,
        struct_name: StrId,
        def: &HirStruct,
        types: &List<HirType>,
        seen: List<StrId>,
    )
        ensures
            *final(self) == old(self).inits_checked(*inits, struct_name, *def, *types, seen),
            final(self).settled(*old(self)),
        decreases inits, 0int, 0int,
    {
        proof {
            reveal(TypeChecker::inits_checked);
            reveal(TypeChecker::expected);
        }
        match inits {
            Nil => {},
            Cons(init, rest) => match position_of_field(&def.fields, init.name) {
                None => {
                    self.record(TypeErrorKind::FieldNotFound { struct_name, field: init.name });
                    self.check_expr(&init.value);
                    self.check_inits(rest, struct_name, def, types, seen);
                },
                Some(index) => {
                    let ty = match types.get(index) {
                        Some(known) => known.dup(),
                        None => HirType::Unknown,
                    };
                    if seen.contains(&init.name) {
                        self.say(Message::FieldInitializedTwice { field: init.name });
                    }
                    let found = self.check_expr_expected(&init.value, &ty);
                    self.check_and_record_value_use(&init.value, &found);
                    self.fit(Some(&ty), &found);
                    self.note_occurrence(
                        init.name_span,
                        init.name,
                        ty,
                        SymbolId::Field { struct_name, field_name: init.name },
                        false,
                    );
                    self.check_inits(
                        rest,
                        struct_name,
                        def,
                        types,
                        add_member(&seen, init.name),
                    );
                },
            },
        }
    }

    pub fn check_enum_init_expr(&mut self, expr: &HirExpr, expected: &Option<HirType>) -> (ty: HirType)
        ensures
            (*final(self), ty) == old(self).enum_checked(*expr, *expected),
            final(self).settled(*old(self)),
        decreases expr, 1int, 0int,
    {
        proof {
            reveal(TypeChecker::enum_checked);
            reveal(TypeChecker::values_checked);
        }
        match &expr.kind {
            ExprKind::EnumInit { enum_name, variant, args, type_args, span } => {
                self.set_span(*span);
                match self.context.get_enum(*enum_name) {
                    None => {
                        self.record(TypeErrorKind::UndefinedType(*enum_name));
                        HirType::Unknown
                    },
                    Some(def) => {
                        let owner = self.context.enum_owner(*enum_name);
                        self.check_bare_name_import(owner, *enum_name, BareImportKind::Enum);
                        match find_variant(&def.variants, *variant) {
                            None => {
                                self.say(
                                    Message::NoSuchVariant {
                                        enum_name: *enum_name,
                                        variant: *variant,
                                    },
                                );
                                HirType::Unknown
                            },
                            Some(found) => {
                                let types = self.resolve_variant_types(
                                    *enum_name,
                                    &def,
                                    found,
                                    type_args,
                                );
                                self.check_arg_count(types.len(), args.len());
                                let values = self.check_values(args, &types);
                                self.note_instance(expr, type_args);
                                let inferred = self.infer_enum_args(
                                    *enum_name,
                                    &def,
                                    found,
                                    type_args,
                                    &values,
                                    expected,
                                );
                                HirType::Enum { name: *enum_name, type_args: inferred }
                            },
                        }
                    },
                }
            },
            _ => HirType::Unknown,
        }
    }

    fn check_values(&mut self, args: &List<HirExpr>, types: &List<HirType>) -> (values: List<HirType>)
        ensures
            (*final(self), values) == old(self).values_checked(*args, *types),
            final(self).settled(*old(self)),
        decreases args, 0int, 0int,
    {
        proof {
            reveal(TypeChecker::values_checked);
            reveal(TypeChecker::expected);
        }
        match (args, types) {
            (Cons(arg, more), Cons(ty, rest)) => {
                let found = self.check_expr_expected(arg, ty);
                self.check_and_record_value_use(arg, &found);
                self.fit(Some(ty), &found);
                let values = self.check_values(more, rest);
                List::cons(found, values)
            },
            _ => Nil,
        }
    }

    pub fn check_assignment_expr(&mut self, expr: &HirExpr) -> (ty: HirType)
        ensures
            (*final(self), ty) == old(self).assignment_checked(*expr),
            final(self).settled(*old(self)),
        decreases expr, 1int, 0int,
    {
        proof {
            reveal(TypeChecker::assignment_checked);
            reveal(TypeChecker::plainly_assigned);
            reveal(TypeChecker::suppressed);
        }
        match &expr.kind {
            ExprKind::Assignment { target, op, value, .. } => match &target.kind {
                ExprKind::FieldAccess { object, field, .. } | ExprKind::Get { object, field, .. } => {
                    if *field == StrId::Known(Word::Len) || *field == StrId::Known(Word::Cap) {
                        let object_ty = self.check_expr_suppressed(object);
                        match Self::slice_field_owned(&object_ty) {
                            Some(owned) => {
                                let value_ty = self.check_expr(value);
                                self.assign_bookkeeping(*field, owned, *op, &value_ty)
                            },
                            None => self.check_plain_assignment(expr),
                        }
                    } else {
                        self.check_plain_assignment(expr)
                    }
                },
                _ => self.check_plain_assignment(expr),
            },
            _ => HirType::Unknown,
        }
    }

    fn check_plain_assignment(&mut self, expr: &HirExpr) -> (ty: HirType)
        ensures
            (*final(self), ty) == old(self).plainly_assigned(*expr),
            final(self).settled(*old(self)),
        decreases expr, 0int, 0int,
    {
        proof {
            reveal(TypeChecker::plainly_assigned);
            reveal(TypeChecker::expected);
            reveal(TypeChecker::placed);
        }
        match &expr.kind {
            ExprKind::Assignment { target, op, value, .. } => {
                let target_ty = self.check_expr_as_place(target);
                let value_ty = self.check_expr_expected(value, &target_ty);
                self.assign_target(target, *op, value, &target_ty, &value_ty);
                target_ty
            },
            _ => HirType::Unknown,
        }
    }
}

} // verus!
