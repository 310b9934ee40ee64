//! What single expressions mean, once the types of their parts are known.

use std::rc::Rc;

use vstd::prelude::*;

use crate::borrow::{BorrowKind, BorrowOp, Place};
use crate::closures::{mutated_path, UseLevel};
use crate::errors::{FunctionName, Message, TypeErrorKind};
use crate::hir::{
    field_index, field_types, position_of_field, types_of_fields, AssignmentOperator, ExprKind,
    HirEnum, HirEnumVariant, HirExpr, HirField, HirFieldInit, HirFunc, HirGeneric, HirParam,
    HirStruct, HirType, SourceSpan, StrId, Word,
};
use crate::init_nodes::{
    array_len, array_ready, complete, is_array_ready, is_range_ready, nearest, range_ready,
    reached, untouched,
};
use crate::initialization::{next_index, succ, InitNode, InitStatus};
use crate::instantiations::{
    bind_onto, bound_onto, enum_variants, struct_fields, substituted, unified, Substitutions,
};
use crate::list::{contains_key, extended, find, has_key, lookup, update, updated, Cons, List, Nil};
use crate::ref_effects::field_path;
use crate::type_checker::{this_name, ClosureState, Modes, Occurrence, TypeChecker};
use crate::type_context::{list_at, LocalSymbolId, SymbolId};
use crate::types::{field_type_of, integer, stripped};

verus! {

/// Whether a type is a slice or, if it is behind a pointer, a reference to one: `Some(true)` for a
/// slice that is owned.
pub open spec fn slice_ownership(ty: HirType) -> Option<bool> {
    let inner = match ty {
        HirType::Ref { inner, .. } => *inner,
        HirType::SafePointer { inner, .. } => *inner,
        _ => ty,
    };
    match inner {
        HirType::Slice(_) => Some(false),
        HirType::OwnedPointer { inner: owned, .. } => if *owned is Slice {
            Some(true)
        } else {
            None
        },
        _ => None,
    }
}

pub open spec fn bookkeeping(field: StrId) -> bool {
    field == StrId::Known(Word::Len) || field == StrId::Known(Word::Cap)
}

/// Whether a definition has parameters.
pub open spec fn generic(generics: Option<List<HirGeneric>>) -> bool {
    match generics {
        Some(list) => !(list is Nil),
        None => false,
    }
}

pub open spec fn count_of(generics: Option<List<HirGeneric>>) -> usize {
    match generics {
        Some(list) => list.count(),
        None => 0,
    }
}

pub open spec fn list_or_empty<T>(list: Option<List<T>>) -> List<T> {
    match list {
        Some(found) => found,
        None => Nil,
    }
}

pub open spec fn or_void(ty: Option<HirType>) -> HirType {
    match ty {
        Some(found) => found,
        None => HirType::Void,
    }
}

pub fn type_or_void(ty: Option<HirType>) -> (result: HirType)
    ensures
        result == or_void(ty),
{
    match ty {
        Some(found) => found,
        None => HirType::Void,
    }
}

pub fn dup_types(types: &Option<List<HirType>>) -> (result: List<HirType>)
    ensures
        result == list_or_empty(*types),
{
    match types {
        Some(found) => found.dup(),
        None => Nil,
    }
}

fn is_generic(generics: &Option<List<HirGeneric>>) -> (yes: bool)
    ensures
        yes == generic(*generics),
{
    match generics {
        Some(list) => !list.is_empty(),
        None => false,
    }
}

fn generic_count(generics: &Option<List<HirGeneric>>) -> (count: usize)
    ensures
        count == count_of(*generics),
{
    match generics {
        Some(list) => list.len(),
        None => 0,
    }
}

pub open spec fn initializes(inits: List<HirFieldInit>, name: StrId) -> bool
    decreases inits,
{
    match inits {
        Nil => false,
        Cons(init, rest) => init.name == name || initializes(*rest, name),
    }
}

/// The fields of a struct that are left without a value.
pub open spec fn fields_left_out(fields: List<HirField>, inits: List<HirFieldInit>) -> List<StrId>
    decreases fields,
{
    match fields {
        Nil => Nil,
        Cons(field, rest) => if initializes(inits, field.name) {
            fields_left_out(*rest, inits)
        } else {
            List::cons_of(field.name, fields_left_out(*rest, inits))
        },
    }
}

fn has_init(inits: &List<HirFieldInit>, name: StrId) -> (found: bool)
    ensures
        found == initializes(*inits, name),
    decreases inits,
{
    match inits {
        Nil => false,
        Cons(init, rest) => init.name == name || has_init(rest, name),
    }
}

fn find_fields_left_out(fields: &List<HirField>, inits: &List<HirFieldInit>) -> (names: List<StrId>)
    ensures
        names == fields_left_out(*fields, *inits),
    decreases fields,
{
    match fields {
        Nil => Nil,
        Cons(field, rest) => if has_init(inits, field.name) {
            find_fields_left_out(rest, inits)
        } else {
            List::cons(field.name, find_fields_left_out(rest, inits))
        },
    }
}

/// What the types of a variant's values say of the parameters of its enum.
pub open spec fn unified_fields(
    fields: List<HirField>,
    types: List<HirType>,
    subs: Substitutions,
) -> Substitutions
    decreases fields,
{
    match (fields, types) {
        (Cons(field, more), Cons(ty, rest)) => unified_fields(
            *more,
            *rest,
            unified(field.field_type, *ty, subs),
        ),
        _ => subs,
    }
}

/// The substitutions with those for parameters that are not known yet.
pub open spec fn bound_where_unknown(
    subs: Substitutions,
    generics: List<HirGeneric>,
    args: List<HirType>,
) -> Substitutions
    decreases generics,
{
    match (generics, args) {
        (Cons(generic, more), Cons(arg, rest)) => bound_where_unknown(
            if has_key(subs, generic.name) {
                subs
            } else {
                updated(subs, generic.name, *arg)
            },
            *more,
            *rest,
        ),
        _ => subs,
    }
}

fn bind_where_unknown(subs: Substitutions, generics: &List<HirGeneric>, args: &List<HirType>) -> (result:
    Substitutions)
    ensures
        result == bound_where_unknown(subs, *generics, *args),
    decreases generics,
{
    match (generics, args) {
        (Cons(generic, more), Cons(arg, rest)) => {
            let next = if contains_key(&subs, &generic.name) {
                subs
            } else {
                update(&subs, generic.name, arg.dup())
            };
            bind_where_unknown(next, more, rest)
        },
        _ => subs,
    }
}

/// What each parameter stands for.
pub open spec fn values_for(generics: List<HirGeneric>, subs: Substitutions) -> List<HirType>
    decreases generics,
{
    match generics {
        Nil => Nil,
        Cons(generic, rest) => List::cons_of(
            match lookup(subs, generic.name) {
                Some(ty) => ty,
                None => HirType::Unknown,
            },
            values_for(*rest, subs),
        ),
    }
}

fn find_values(generics: &List<HirGeneric>, subs: &Substitutions) -> (types: List<HirType>)
    ensures
        types == values_for(*generics, *subs),
    decreases generics,
{
    match generics {
        Nil => Nil,
        Cons(generic, rest) => {
            let first = match find(subs, &generic.name) {
                Some(ty) => ty.dup(),
                None => HirType::Unknown,
            };
            List::cons(first, find_values(rest, subs))
        },
    }
}

/// The arguments, and behind them the defaults of the parameters without one, up to the first that
/// has no default.
pub open spec fn filled(
    generics: List<HirGeneric>,
    args: List<HirType>,
    subs: Substitutions,
) -> List<HirType>
    decreases generics,
{
    match generics {
        Nil => args,
        Cons(generic, more) => match args {
            Cons(arg, rest) => List::cons_of(
                *arg,
                filled(*more, *rest, updated(subs, generic.name, *arg)),
            ),
            Nil => match generic.default_type {
                Some(default_type) => {
                    let ty = substituted(default_type, subs);
                    List::cons_of(ty, filled(*more, Nil, updated(subs, generic.name, ty)))
                },
                None => Nil,
            },
        },
    }
}

/// The defaults of the parameters that have one.
pub open spec fn defaulted(generics: List<HirGeneric>, subs: Substitutions) -> Substitutions
    decreases generics,
{
    match generics {
        Nil => subs,
        Cons(generic, rest) => defaulted(
            *rest,
            match generic.default_type {
                Some(default_type) => updated(
                    subs,
                    generic.name,
                    substituted(default_type, subs),
                ),
                None => subs,
            },
        ),
    }
}

pub fn extend_substitutions(subs: Substitutions, more: &Substitutions) -> (result: Substitutions)
    ensures
        result == extended(subs, *more),
    decreases more,
{
    match more {
        Nil => subs,
        Cons(entry, rest) => extend_substitutions(
            update(&subs, entry.0, entry.1.dup()),
            rest,
        ),
    }
}

/// The declared types of the named parameters.
pub open spec fn declared_types_of(params: List<HirParam>) -> List<HirType>
    decreases params,
{
    match params {
        Nil => Nil,
        Cons(param, rest) => match param.declared_type() {
            Some(ty) => List::cons_of(ty, declared_types_of(*rest)),
            None => declared_types_of(*rest),
        },
    }
}

fn collect_declared_types(params: &List<HirParam>) -> (types: List<HirType>)
    ensures
        types == declared_types_of(*params),
    decreases params,
{
    match params {
        Nil => Nil,
        Cons(param, rest) => match param.get_type() {
            Some(ty) => List::cons(ty.dup(), collect_declared_types(rest)),
            None => collect_declared_types(rest),
        },
    }
}

/// The type of a function as a value.
pub open spec fn function_type(func: HirFunc) -> HirType {
    HirType::Lambda {
        params: declared_types_of(list_or_empty(func.params)),
        return_type: Rc::new(or_void(func.return_type)),
    }
}

impl TypeChecker {
    pub open spec fn with_modes(self, modes: Modes) -> TypeChecker {
        TypeChecker { modes, ..self }
    }

    /// The checker inside an unsafe block.
    pub open spec fn deeper(self) -> TypeChecker {
        self.with_modes(
            Modes {
                unsafe_depth: crate::type_checker::after_usize(self.modes.unsafe_depth),
                ..self.modes
            },
        )
    }

    /// The checker behind an unsafe block.
    pub open spec fn shallower(self) -> TypeChecker {
        self.with_modes(
            Modes {
                unsafe_depth: crate::type_checker::before_usize(self.modes.unsafe_depth),
                ..self.modes
            },
        )
    }

    pub fn enter_unsafe(&mut self)
        ensures
            *final(self) == old(self).deeper(),
    {
        self.modes.unsafe_depth = crate::type_checker::next_usize(self.modes.unsafe_depth);
    }

    pub fn leave_unsafe(&mut self)
        ensures
            *final(self) == old(self).shallower(),
    {
        self.modes.unsafe_depth = crate::type_checker::previous_usize(self.modes.unsafe_depth);
    }

    /// The checker after a name occurs in the module at hand.
    pub open spec fn occurred(
        self,
        span: SourceSpan,
        name: StrId,
        ty: HirType,
        symbol: SymbolId,
        is_declaration: bool,
    ) -> TypeChecker {
        self.with_occurrence(
            Occurrence {
                span,
                name,
                ty,
                module_idx: self.context.current_module_idx,
                symbol,
                is_declaration,
            },
        )
    }

    pub fn note_occurrence(
        &mut self,
        span: SourceSpan,
        name: StrId,
        ty: HirType,
        symbol: SymbolId,
        is_declaration: bool,
    )
        ensures
            *final(self) == old(self).occurred(span, name, ty, symbol, is_declaration),
            final(self).settled_in_scope(*old(self)),
    {
        let module_idx: usize = self.context.current_module_idx;
        self.push_occurrence(Occurrence { span, name, ty, module_idx, symbol, is_declaration });
    }

    /// The checker, and the symbol and type of a variable.
    pub open spec fn named(self, name: StrId) -> (TypeChecker, SymbolId, HirType) {
        match lookup(self.context.variables, name) {
            Some((symbol, ty)) => (self, symbol, ty),
            None => (
                self.recorded(TypeErrorKind::UndefinedVariable(name)),
                SymbolId::Local(LocalSymbolId(u32::MAX)),
                HirType::Unknown,
            ),
        }
    }

    fn find_variable(&mut self, name: StrId) -> (variable: (SymbolId, HirType))
        ensures
            (*final(self), variable.0, variable.1) == old(self).named(name),
            final(self).settled_in_scope(*old(self)),
    {
        match self.context.get_variable(name) {
            Some(variable) => variable,
            None => {
                self.record(TypeErrorKind::UndefinedVariable(name));
                (SymbolId::Local(LocalSymbolId(u32::MAX)), HirType::Unknown)
            },
        }
    }

    /// The checker after a variable is named, as a value that is read or as a place.
    #[verifier::opaque]
    pub open spec fn ident_checked(self, name: StrId, span: SourceSpan, read: bool) -> (
        TypeChecker,
        HirType,
    ) {
        let (found, symbol, ty) = self.named(name);
        let seen = if read {
            found.after_ident_read(name, ty)
        } else {
            found
        };
        (
            TypeChecker { points: seen.points.with_use(name), ..seen }.occurred(
                span,
                name,
                ty,
                symbol,
                false,
            ),
            ty,
        )
    }

    pub fn check_ident_expr(&mut self, name: StrId, span: SourceSpan, read: bool) -> (ty: HirType)
        ensures
            (*final(self), ty) == old(self).ident_checked(name, span, read),
            final(self).settled_in_scope(*old(self)),
    {
        proof {
            reveal(TypeChecker::ident_checked);
        }
        let (symbol, ty) = self.find_variable(name);
        if read {
            self.check_ident_init_read(name, &ty);
        }
        self.points.use_local(name);
        self.note_occurrence(span, name, ty.dup(), symbol, false);
        ty
    }

    #[verifier::opaque]
    pub open spec fn this_checked(self, span: SourceSpan) -> (TypeChecker, HirType) {
        match lookup(self.context.variables, this_name()) {
            Some((symbol, ty)) => (self.occurred(span, this_name(), ty, symbol, false), ty),
            None => (self.said(Message::ThisOutsideMethod), HirType::Unknown),
        }
    }

    pub fn check_this_expr(&mut self, span: SourceSpan) -> (ty: HirType)
        ensures
            (*final(self), ty) == old(self).this_checked(span),
            final(self).settled_in_scope(*old(self)),
    {
        proof {
            reveal(TypeChecker::this_checked);
        }
        match self.context.get_variable(StrId::Known(Word::This)) {
            Some((symbol, ty)) => {
                self.note_occurrence(span, StrId::Known(Word::This), ty.dup(), symbol, false);
                ty
            },
            None => {
                self.say(Message::ThisOutsideMethod);
                HirType::Unknown
            },
        }
    }

    /// The checker after `undefined` with a type.
    #[verifier::opaque]
    pub open spec fn zeroed(self, ty: HirType) -> (TypeChecker, HirType) {
        if ty is Unknown {
            (self.recorded(TypeErrorKind::TypeCannotBeInferred), HirType::Unknown)
        } else if self.zero_ok(ty) {
            (self, ty)
        } else {
            (self.said(Message::NotZeroable { ty }), HirType::Unknown)
        }
    }

    pub fn check_zeroed_value(&mut self, ty: &HirType) -> (result: HirType)
        ensures
            (*final(self), result) == old(self).zeroed(*ty),
            final(self).settled_in_scope(*old(self)),
    {
        proof {
            reveal(TypeChecker::zeroed);
        }
        if matches!(ty, HirType::Unknown) {
            self.record(TypeErrorKind::TypeCannotBeInferred);
            HirType::Unknown
        } else if self.is_zeroable(ty) {
            ty.dup()
        } else {
            self.say(Message::NotZeroable { ty: ty.dup() });
            HirType::Unknown
        }
    }

    /// The checker after `uninit` with a type.
    #[verifier::opaque]
    pub open spec fn left_uninit(self, ty: HirType) -> (TypeChecker, HirType) {
        if ty is Unknown {
            (self.recorded(TypeErrorKind::TypeCannotBeInferred), HirType::Unknown)
        } else {
            (self, ty)
        }
    }

    pub fn check_uninit_value(&mut self, ty: &HirType) -> (result: HirType)
        ensures
            (*final(self), result) == old(self).left_uninit(*ty),
            final(self).settled_in_scope(*old(self)),
    {
        proof {
            reveal(TypeChecker::left_uninit);
        }
        if matches!(ty, HirType::Unknown) {
            self.record(TypeErrorKind::TypeCannotBeInferred);
            HirType::Unknown
        } else {
            ty.dup()
        }
    }

    /// The type of a place, without its nullability where it is known not to be null.
    pub open spec fn unwrapped(self, place: HirExpr, ty: HirType) -> HirType {
        match ty {
            HirType::Nullable(inner) => match field_path(place) {
                Some((root, path)) => if self.known_non_null(root, path) {
                    *inner
                } else {
                    ty
                },
                None => ty,
            },
            _ => ty,
        }
    }

    pub fn unwrap_nullable(&self, place: &HirExpr, ty: &HirType) -> (result: HirType)
        ensures
            result == self.unwrapped(*place, *ty),
    {
        match ty {
            HirType::Nullable(inner) => match Self::static_field_path(place) {
                Some((root, path)) => if self.is_non_null(root, &path) {
                    inner.dup()
                } else {
                    ty.dup()
                },
                None => ty.dup(),
            },
            _ => ty.dup(),
        }
    }

    /// The checker after a field of an object of a type is reached, to be read or not.
    #[verifier::opaque]
    pub open spec fn field_reached(
        self,
        object: HirExpr,
        field: StrId,
        object_ty: HirType,
        read: bool,
    ) -> (TypeChecker, HirType) {
        let ty = self.unwrapped(object, stripped(object_ty));
        if (ty is Slice || ty is Array) && field == StrId::Known(Word::Len) {
            (self, HirType::Usize)
        } else {
            match ty {
                HirType::Struct { name, type_args, .. } => match lookup(
                    self.context.structs,
                    name,
                ) {
                    None => (
                        self.recorded(TypeErrorKind::UndefinedType(name)),
                        HirType::Unknown,
                    ),
                    Some(def) => {
                        let imported = self.after_field_owner(
                            lookup(self.context.struct_owner_module, name),
                            name,
                        );
                        match field_index(def.fields, field) {
                            None => (
                                imported.recorded(
                                    TypeErrorKind::FieldNotFound { struct_name: name, field },
                                ),
                                HirType::Unknown,
                            ),
                            Some(_) => {
                                let field_ty = field_type_of(
                                    self.context,
                                    name,
                                    type_args,
                                    field,
                                );
                                let noted = imported.occurred(
                                    self.diagnostics.current_span,
                                    field,
                                    field_ty,
                                    SymbolId::Field { struct_name: name, field_name: field },
                                    false,
                                );
                                (
                                    match field_path(object) {
                                        Some((root, path)) => if read {
                                            noted.after_path_read(root, path.snoc(field))
                                        } else {
                                            noted
                                        },
                                        None => noted,
                                    },
                                    field_ty,
                                )
                            },
                        }
                    },
                },
                _ => (
                    self.said(Message::FieldOnNonStruct { ty: object_ty }),
                    HirType::Unknown,
                ),
            }
        }
    }

    pub fn reach_field(&mut self, object: &HirExpr, field: StrId, object_ty: &HirType, read: bool) -> (ty:
        HirType)
        ensures
            (*final(self), ty) == old(self).field_reached(*object, field, *object_ty, read),
            final(self).settled_in_scope(*old(self)),
    {
        proof {
            reveal(TypeChecker::field_reached);
        }
        let ty = self.unwrap_nullable(object, Self::strip_ref(object_ty));
        if matches!(ty, HirType::Slice(_) | HirType::Array(_, _)) && field == StrId::Known(
            Word::Len,
        ) {
            return HirType::Usize;
        }
        match &ty {
            HirType::Struct { name, type_args, .. } => match self.context.get_struct(*name) {
                None => {
                    self.record(TypeErrorKind::UndefinedType(*name));
                    HirType::Unknown
                },
                Some(def) => {
                    let field_ty = self.field_type(*name, type_args, field);
                    let span = self.diagnostics.current_span;
                    let owner = self.context.struct_owner(*name);
                    self.check_field_owner_import(owner, *name);
                    match position_of_field(&def.fields, field) {
                        None => {
                            self.record(
                                TypeErrorKind::FieldNotFound { struct_name: *name, field },
                            );
                            HirType::Unknown
                        },
                        Some(_) => {
                            self.note_occurrence(
                                span,
                                field,
                                field_ty.dup(),
                                SymbolId::Field { struct_name: *name, field_name: field },
                                false,
                            );
                            if read {
                                match Self::static_field_path(object) {
                                    Some((root, path)) => {
                                        self.check_init_read_path(root, &path.push(field));
                                    },
                                    None => {},
                                }
                            }
                            field_ty
                        },
                    }
                },
            },
            _ => {
                self.say(Message::FieldOnNonStruct { ty: object_ty.dup() });
                HirType::Unknown
            },
        }
    }

    /// The checker after an element is reached through a type.
    #[verifier::opaque]
    pub open spec fn element_reached(
        self,
        object_ty: HirType,
        safe_pointer: Message,
        unsafe_pointer: Message,
    ) -> (TypeChecker, HirType) {
        match object_ty {
            HirType::SafePointer { inner, .. } => (
                if self.unsafe_here() {
                    self
                } else {
                    self.said(safe_pointer)
                },
                *inner,
            ),
            HirType::UnsafePointer { inner, .. } => (
                if self.unsafe_here() {
                    self
                } else {
                    self.said(unsafe_pointer)
                },
                *inner,
            ),
            _ => match stripped(object_ty) {
                HirType::Array(inner, _) => (self, *inner),
                HirType::Slice(inner) => (self, *inner),
                _ => (self.said(Message::CannotIndex { ty: object_ty }), HirType::Unknown),
            },
        }
    }

    pub fn check_index_expr(
        &mut self,
        object_ty: &HirType,
        safe_pointer: Message,
        unsafe_pointer: Message,
    ) -> (ty: HirType)
        ensures
            (*final(self), ty) == old(self).element_reached(
                *object_ty,
                safe_pointer,
                unsafe_pointer,
            ),
            final(self).settled_in_scope(*old(self)),
    {
        proof {
            reveal(TypeChecker::element_reached);
        }
        match object_ty {
            HirType::SafePointer { inner, .. } => {
                if !self.in_unsafe() {
                    self.say(safe_pointer);
                }
                inner.dup()
            },
            HirType::UnsafePointer { inner, .. } => {
                if !self.in_unsafe() {
                    self.say(unsafe_pointer);
                }
                inner.dup()
            },
            _ => match Self::strip_ref(object_ty) {
                HirType::Array(inner, _) => inner.dup(),
                HirType::Slice(inner) => inner.dup(),
                _ => {
                    self.say(Message::CannotIndex { ty: object_ty.dup() });
                    HirType::Unknown
                },
            },
        }
    }

    /// The checker after a slice is taken of a type.
    #[verifier::opaque]
    pub open spec fn sliced(
        self,
        object: HirExpr,
        start: HirExpr,
        end: HirExpr,
        types: (HirType, HirType, HirType),
        read: bool,
    ) -> (TypeChecker, HirType) {
        let counted = if integer(types.1) && integer(types.2) {
            self
        } else {
            self.said(Message::SliceBoundsNotIntegers)
        };
        let seen = if read && stripped(types.0) is Array {
            counted.after_slice_read(object, start, end)
        } else {
            counted
        };
        match stripped(types.0) {
            HirType::Array(inner, _) => (seen, HirType::Slice(inner)),
            HirType::Slice(inner) => (seen, HirType::Slice(inner)),
            _ => (seen.said(Message::CannotSlice { ty: types.0 }), HirType::Unknown),
        }
    }

    pub fn check_slice_expr(
        &mut self,
        object: &HirExpr,
        start: &HirExpr,
        end: &HirExpr,
        types: (HirType, HirType, HirType),
        read: bool,
    ) -> (ty: HirType)
        ensures
            (*final(self), ty) == old(self).sliced(*object, *start, *end, types, read),
            final(self).settled_in_scope(*old(self)),
    {
        proof {
            reveal(TypeChecker::sliced);
        }
        if !self.is_integer(&types.1) || !self.is_integer(&types.2) {
            self.say(Message::SliceBoundsNotIntegers);
        }
        if read && matches!(Self::strip_ref(&types.0), HirType::Array(_, _)) {
            self.check_slice_range_init(object, start, end);
        }
        match Self::strip_ref(&types.0) {
            HirType::Array(inner, _) => HirType::Slice(crate::list::share(inner)),
            HirType::Slice(inner) => HirType::Slice(crate::list::share(inner)),
            _ => {
                self.say(Message::CannotSlice { ty: types.0.dup() });
                HirType::Unknown
            },
        }
    }

    /// The checker after an element is read: it must have been initialized, and all of the array
    /// must have been where it is not known which element it is.
    #[verifier::opaque]
    pub open spec fn element_read(self, object: HirExpr, index: HirExpr) -> TypeChecker {
        match field_path(object) {
            None => self,
            Some((root, path)) => match lookup(self.flow.inits, root) {
                None => self,
                Some(node) => match index.kind {
                    ExprKind::Number(i, _) => if range_ready(nearest(node, path), i, succ(i)) {
                        self
                    } else {
                        self.said(Message::UninitElement { root, index: i })
                    },
                    _ => if array_ready(nearest(node, path)) {
                        self
                    } else {
                        self.said(Message::IndexNeedsWhole { root })
                    },
                },
            },
        }
    }

    pub fn check_element_read(&mut self, object: &HirExpr, index: &HirExpr)
        ensures
            *final(self) == old(self).element_read(*object, *index),
            final(self).settled_in_scope(*old(self)),
    {
        proof {
            reveal(TypeChecker::element_read);
        }
        match Self::static_field_path(object) {
            None => {},
            Some((root, path)) => {
                let complaint: Option<Message> = match find(&self.flow.inits, &root) {
                    None => None,
                    Some(node) => {
                        let target = Self::node_at_path_ref(node, &path);
                        match &index.kind {
                            ExprKind::Number(i, _) => {
                                if is_range_ready(target, *i, next_index(*i)) {
                                    None
                                } else {
                                    Some(Message::UninitElement { root, index: *i })
                                }
                            },
                            _ => if is_array_ready(target) {
                                None
                            } else {
                                Some(Message::IndexNeedsWhole { root })
                            },
                        }
                    },
                };
                match complaint {
                    None => {},
                    Some(message) => self.say(message),
                }
            },
        }
    }

    /// The checker after a pointer of a type is followed.
    #[verifier::opaque]
    pub open spec fn dereferenced(self, expr: HirExpr, pointer_ty: HirType) -> (TypeChecker, HirType) {
        let ty = self.unwrapped(expr, pointer_ty);
        let (after, place) = self.resolved(expr);
        let seen = match place {
            Some(base) => after.used(expr, Place::Deref(Rc::new(base)), BorrowKind::Shared),
            None => after,
        };
        match ty {
            HirType::Ref { inner, .. } => (seen, *inner),
            HirType::SafePointer { inner, .. } => (
                if seen.unsafe_here() {
                    seen
                } else {
                    seen.said(Message::RawDerefNeedsUnsafe)
                },
                *inner,
            ),
            HirType::UnsafePointer { inner, .. } => (
                if seen.unsafe_here() {
                    seen
                } else {
                    seen.said(Message::UnsafeDerefNeedsUnsafe)
                },
                *inner,
            ),
            HirType::OwnedPointer { inner, .. } => (seen, *inner),
            _ => (seen.said(Message::CannotDeref { ty }), HirType::Unknown),
        }
    }

    pub fn check_deref_expr(&mut self, expr: &HirExpr, pointer_ty: &HirType) -> (result: HirType)
        ensures
            (*final(self), result) == old(self).dereferenced(*expr, *pointer_ty),
            final(self).settled_in_scope(*old(self)),
    {
        proof {
            reveal(TypeChecker::dereferenced);
        }
        let ty = self.unwrap_nullable(expr, pointer_ty);
        match self.resolve_place(expr) {
            Some(base) => {
                self.check_borrow_use(expr, Place::Deref(Rc::new(base)), BorrowKind::Shared);
            },
            None => {},
        }
        match &ty {
            HirType::Ref { inner, .. } => inner.dup(),
            HirType::SafePointer { inner, .. } => {
                if !self.in_unsafe() {
                    self.say(Message::RawDerefNeedsUnsafe);
                }
                inner.dup()
            },
            HirType::UnsafePointer { inner, .. } => {
                if !self.in_unsafe() {
                    self.say(Message::UnsafeDerefNeedsUnsafe);
                }
                inner.dup()
            },
            HirType::OwnedPointer { inner, .. } => inner.dup(),
            _ => {
                self.say(Message::CannotDeref { ty: ty.dup() });
                HirType::Unknown
            },
        }
    }

    /// The checker after a range between two values.
    #[verifier::opaque]
    pub open spec fn ranged(
        self,
        start: HirExpr,
        end: HirExpr,
        start_ty: HirType,
        end_ty: HirType,
        inclusive: bool,
    ) -> (TypeChecker, HirType) {
        let used = self.value_used(start, start_ty).value_used(end, end_ty);
        let counted = if integer(start_ty) {
            used
        } else {
            used.said(Message::RangeBoundsNotIntegers { ty: start_ty })
        };
        (
            counted.recovered(counted.compatibility(start_ty, end_ty)),
            HirType::Range { elem: Rc::new(start_ty), inclusive },
        )
    }

    pub fn check_range_expr(
        &mut self,
        start: &HirExpr,
        end: &HirExpr,
        start_ty: HirType,
        end_ty: HirType,
        inclusive: bool,
    ) -> (ty: HirType)
        ensures
            (*final(self), ty) == old(self).ranged(*start, *end, start_ty, end_ty, inclusive),
            final(self).settled_in_scope(*old(self)),
    {
        proof {
            reveal(TypeChecker::ranged);
        }
        self.check_and_record_value_use(start, &start_ty);
        self.check_and_record_value_use(end, &end_ty);
        if !self.is_integer(&start_ty) {
            self.say(Message::RangeBoundsNotIntegers { ty: start_ty.dup() });
        }
        let result = self.types_compatible(&start_ty, &end_ty);
        self.recover(result);
        HirType::Range { elem: Rc::new(start_ty), inclusive }
    }

    pub fn slice_field_owned(ty: &HirType) -> (owned: Option<bool>)
        ensures
            owned == slice_ownership(*ty),
    {
        let inner: &HirType = match ty {
            HirType::Ref { inner, .. } => inner,
            HirType::SafePointer { inner, .. } => inner,
            _ => ty,
        };
        match inner {
            HirType::Slice(_) => Some(false),
            HirType::OwnedPointer { inner: owned, .. } => if matches!(**owned, HirType::Slice(_)) {
                Some(true)
            } else {
                None
            },
            _ => None,
        }
    }

    /// The checker after an assignment to the length or the capacity of a slice.
    #[verifier::opaque]
    pub open spec fn bookkeeping_assigned(
        self,
        field: StrId,
        owned: bool,
        op: AssignmentOperator,
        value_ty: HirType,
    ) -> (TypeChecker, HirType) {
        if field == StrId::Known(Word::Cap) {
            (
                self.said(
                    if owned {
                        Message::CapNotAssignable
                    } else {
                        Message::CapOnlyOnOwned
                    },
                ),
                HirType::Unknown,
            )
        } else {
            let guarded = if self.unsafe_here() {
                self
            } else {
                self.said(Message::LenNeedsUnsafe)
            };
            let counted = if integer(value_ty) {
                guarded
            } else {
                guarded.said(Message::LenNotInteger { ty: value_ty })
            };
            (
                if op is Assign {
                    counted
                } else {
                    counted.said(Message::LenPlainAssignmentOnly)
                },
                HirType::Usize,
            )
        }
    }

    pub fn assign_bookkeeping(
        &mut self,
        field: StrId,
        owned: bool,
        op: AssignmentOperator,
        value_ty: &HirType,
    ) -> (ty: HirType)
        ensures
            (*final(self), ty) == old(self).bookkeeping_assigned(field, owned, op, *value_ty),
            final(self).settled_in_scope(*old(self)),
    {
        proof {
            reveal(TypeChecker::bookkeeping_assigned);
        }
        if field == StrId::Known(Word::Cap) {
            if owned {
                self.say(Message::CapNotAssignable);
            } else {
                self.say(Message::CapOnlyOnOwned);
            }
            return HirType::Unknown;
        }
        if !self.in_unsafe() {
            self.say(Message::LenNeedsUnsafe);
        }
        if !self.is_integer(value_ty) {
            self.say(Message::LenNotInteger { ty: value_ty.dup() });
        }
        if !matches!(op, AssignmentOperator::Assign) {
            self.say(Message::LenPlainAssignmentOnly);
        }
        HirType::Usize
    }

    /// The checker after a place is written.
    pub open spec fn target_used(self, target: HirExpr, uninit: bool) -> TypeChecker {
        let (after, place) = self.resolved(target);
        match place {
            None => after,
            Some(found) => {
                let used = after.used(target, found, BorrowKind::Mutable);
                let noted = match mutated_path(used.context, target) {
                    Some((root, path)) => used.noted(root, path, UseLevel::Mut),
                    None => used,
                };
                noted.asked(
                    if uninit {
                        BorrowOp::MarkUninit(found)
                    } else {
                        BorrowOp::MarkInit(found)
                    },
                )
            },
        }
    }

    fn use_target(&mut self, target: &HirExpr, uninit: bool)
        ensures
            *final(self) == old(self).target_used(*target, uninit),
            final(self).settled_in_scope(*old(self)),
    {
        match self.resolve_place(target) {
            None => {},
            Some(place) => {
                self.check_borrow_use(target, place.dup(), BorrowKind::Mutable);
                match self.mutation_path(target) {
                    Some((root, path)) => self.note_capture_use(root, &path, UseLevel::Mut),
                    None => {},
                }
                if uninit {
                    self.ask(BorrowOp::MarkUninit(place));
                } else {
                    self.ask(BorrowOp::MarkInit(place));
                }
            },
        }
    }

    /// The checker after a local is written, which must have been declared mutable.
    #[verifier::opaque]
    pub open spec fn mutability_checked(self, target: HirExpr, replaced: bool) -> TypeChecker {
        match target.kind {
            ExprKind::Ident(name, _) => if has_key(self.context.variables, name)
                && !self.context.mutable_variables.has(name) {
                self.said(
                    if replaced {
                        Message::ReplaceNotMut { name }
                    } else {
                        Message::NotDeclaredMut { name }
                    },
                )
            } else {
                self
            },
            _ => self,
        }
    }

    pub fn check_mutability(&mut self, target: &HirExpr, replaced: bool)
        ensures
            *final(self) == old(self).mutability_checked(*target, replaced),
            final(self).settled_in_scope(*old(self)),
    {
        proof {
            reveal(TypeChecker::mutability_checked);
        }
        match &target.kind {
            ExprKind::Ident(name, _) => {
                if self.context.is_local_binding(*name) && !self.context.is_mutable(*name) {
                    if replaced {
                        self.say(Message::ReplaceNotMut { name: *name });
                    } else {
                        self.say(Message::NotDeclaredMut { name: *name });
                    }
                }
            },
            _ => {},
        }
    }

    /// What is known of a place after a value of a type is assigned to it.
    pub open spec fn nullness_noted(self, root: StrId, path: List<StrId>, value_ty: HirType) -> TypeChecker {
        if value_ty is Nullable {
            self.cleared_non_null(root, path)
        } else {
            self.marked_non_null(root, path)
        }
    }

    fn note_nullness(&mut self, root: StrId, path: &List<StrId>, value_ty: &HirType)
        ensures
            *final(self) == old(self).nullness_noted(root, *path, *value_ty),
            final(self).settled_in_scope(*old(self)),
    {
        if matches!(value_ty, HirType::Nullable(_)) {
            self.clear_non_null(root, path);
        } else {
            self.mark_non_null(root, path);
        }
    }

    /// What is known of an array after one element is assigned.
    pub open spec fn element_marked(
        self,
        object: HirExpr,
        index: HirExpr,
        uninit: bool,
    ) -> TypeChecker {
        match field_path(object) {
            None => self,
            Some((root, path)) => {
                let node = reached(self.node_or_untouched(root), path);
                match index.kind {
                    ExprKind::Number(i, _) => if !uninit {
                        self.range_marked(root, path, i, succ(i), array_len(self.context, object))
                    } else {
                        self.node_put(
                            root,
                            path,
                            match node {
                                InitNode::Array { ranges, len } => InitNode::Array {
                                    ranges: ranges.without(i),
                                    len,
                                },
                                _ => node,
                            },
                        )
                    },
                    _ => self.node_put(
                        root,
                        path,
                        if node == complete() {
                            node
                        } else {
                            InitNode::Whole(InitStatus::Maybe)
                        },
                    ),
                }
            },
        }
    }

    fn mark_element(&mut self, object: &HirExpr, index: &HirExpr, uninit: bool)
        ensures
            *final(self) == old(self).element_marked(*object, *index, uninit),
            final(self).settled_in_scope(*old(self)),
    {
        match Self::static_field_path(object) {
            None => {},
            Some((root, path)) => match &index.kind {
                ExprKind::Number(i, _) => {
                    if !uninit {
                        let len = self.array_length(object);
                        self.mark_array_range(root, &path, *i, next_index(*i), len);
                    } else {
                        let node = match self.node_of(root, &path) {
                            InitNode::Array { ranges, len } => {
                                let mut kept = ranges;
                                kept.remove(*i);
                                InitNode::Array { ranges: kept, len }
                            },
                            other => other,
                        };
                        self.put_node(root, &path, node);
                    }
                },
                _ => {
                    let node = match self.node_of(root, &path) {
                        InitNode::Whole(InitStatus::Initialized) => InitNode::Whole(
                            InitStatus::Initialized,
                        ),
                        _ => InitNode::Whole(InitStatus::Maybe),
                    };
                    self.put_node(root, &path, node);
                },
            },
        }
    }

    /// What is known of a target after a value is assigned to it.
    pub open spec fn target_marked(self, target: HirExpr, value_ty: HirType, uninit: bool) -> TypeChecker {
        match target.kind {
            ExprKind::Ident(name, _) => {
                let noted = self.nullness_noted(name, Nil, value_ty);
                if uninit {
                    noted.with_init_node(name, untouched())
                } else {
                    noted.field_marked(name, Nil)
                }
            },
            ExprKind::FieldAccess { object, field, .. } | ExprKind::Get { object, field, .. } => {
                match field_path(*object) {
                    None => self,
                    Some((root, path)) => {
                        let noted = self.nullness_noted(root, path.snoc(field), value_ty);
                        if uninit {
                            noted.field_unmarked(root, path.snoc(field))
                        } else {
                            noted.field_marked(root, path.snoc(field))
                        }
                    },
                }
            },
            ExprKind::Index { object, index, .. } => self.element_marked(*object, *index, uninit),
            _ => self,
        }
    }

    fn mark_target(&mut self, target: &HirExpr, value_ty: &HirType, uninit: bool)
        ensures
            *final(self) == old(self).target_marked(*target, *value_ty, uninit),
            final(self).settled_in_scope(*old(self)),
    {
        match &target.kind {
            ExprKind::Ident(name, _) => {
                self.note_nullness(*name, &Nil, value_ty);
                if uninit {
                    self.mark_whole_uninit(*name);
                } else {
                    self.mark_field_init(*name, &Nil);
                }
            },
            ExprKind::FieldAccess { object, field, .. } | ExprKind::Get { object, field, .. } => {
                match Self::static_field_path(object) {
                    None => {},
                    Some((root, path)) => {
                        let full = path.push(*field);
                        self.note_nullness(root, &full, value_ty);
                        if uninit {
                            self.mark_field_uninit(root, &full);
                        } else {
                            self.mark_field_init(root, &full);
                        }
                    },
                }
            },
            ExprKind::Index { object, index, .. } => self.mark_element(object, index, uninit),
            _ => {},
        }
    }

    /// The checker after a value of a type is assigned to a target of a type.
    #[verifier::opaque]
    pub open spec fn target_assigned(
        self,
        target: HirExpr,
        op: AssignmentOperator,
        value: HirExpr,
        target_ty: HirType,
        value_ty: HirType,
    ) -> TypeChecker {
        let uninit = value.kind is Uninit;
        let written = self.target_used(target, uninit).mutability_checked(target, false);
        let read = if op is Assign {
            written
        } else {
            written.after_compound_read(target, target_ty)
        };
        read.target_marked(target, value_ty, uninit).assigned(target_ty, op, value_ty)
    }

    pub fn assign_target(
        &mut self,
        target: &HirExpr,
        op: AssignmentOperator,
        value: &HirExpr,
        target_ty: &HirType,
        value_ty: &HirType,
    )
        ensures
            *final(self) == old(self).target_assigned(*target, op, *value, *target_ty, *value_ty),
            final(self).settled_in_scope(*old(self)),
    {
        proof {
            reveal(TypeChecker::target_assigned);
        }
        let uninit = matches!(value.kind, ExprKind::Uninit { .. });
        self.use_target(target, uninit);
        self.check_mutability(target, false);
        if !matches!(op, AssignmentOperator::Assign) {
            self.check_read_for_compound_target(target, target_ty);
        }
        self.mark_target(target, value_ty, uninit);
        self.check_assigned(target_ty, op, value_ty);
    }

    /// The checker, and the types of the fields of a struct with type arguments.
    #[verifier::opaque]
    pub open spec fn struct_types(
        self,
        name: StrId,
        def: HirStruct,
        type_args: Option<List<HirType>>,
    ) -> (TypeChecker, List<HirType>) {
        let declared = types_of_fields(def.fields);
        match (generic(def.generics), type_args) {
            (true, Some(args)) => match struct_fields(self.context, name, args) {
                Some(types) => (self, types),
                None => (
                    self.said(
                        Message::StructTypeArgCount {
                            name,
                            expected: count_of(def.generics),
                            found: args.count(),
                        },
                    ),
                    declared,
                ),
            },
            (true, None) => match struct_fields(self.context, name, Nil) {
                Some(types) => (self, types),
                None => (self.said(Message::StructNeedsTypeArgs { name }), declared),
            },
            (false, Some(_)) => (self.said(Message::StructNotGeneric { name }), declared),
            (false, None) => (self, declared),
        }
    }

    pub fn resolve_struct_types(
        &mut self,
        name: StrId,
        def: &HirStruct,
        type_args: &Option<List<HirType>>,
    ) -> (types: List<HirType>)
        ensures
            (*final(self), types) == old(self).struct_types(name, *def, *type_args),
            final(self).settled_in_scope(*old(self)),
    {
        proof {
            reveal(TypeChecker::struct_types);
        }
        if is_generic(&def.generics) {
            match type_args {
                Some(args) => match self.instantiate_struct(name, args) {
                    Some(types) => types,
                    None => {
                        self.say(
                            Message::StructTypeArgCount {
                                name,
                                expected: generic_count(&def.generics),
                                found: args.len(),
                            },
                        );
                        field_types(&def.fields)
                    },
                },
                None => match self.instantiate_struct(name, &Nil) {
                    Some(types) => types,
                    None => {
                        self.say(Message::StructNeedsTypeArgs { name });
                        field_types(&def.fields)
                    },
                },
            }
        } else {
            if type_args.is_some() {
                self.say(Message::StructNotGeneric { name });
            }
            field_types(&def.fields)
        }
    }

    /// The checker after a struct is built, given the types of its fields.
    #[verifier::opaque]
    pub open spec fn struct_built(
        self,
        name: StrId,
        span: SourceSpan,
        def: HirStruct,
        inits: List<HirFieldInit>,
        ty: HirType,
    ) -> TypeChecker {
        let names = fields_left_out(def.fields, inits);
        let counted = if names is Nil {
            self
        } else {
            self.said(Message::MissingFields { names })
        };
        match lookup(counted.context.struct_owner_module, name) {
            Some(owner) => counted.item_occurrence(span, name, ty, owner),
            None => counted,
        }
    }

    pub fn finish_struct(
        &mut self,
        name: StrId,
        span: SourceSpan,
        def: &HirStruct,
        inits: &List<HirFieldInit>,
        ty: &HirType,
    )
        ensures
            *final(self) == old(self).struct_built(name, span, *def, *inits, *ty),
            final(self).settled_in_scope(*old(self)),
    {
        proof {
            reveal(TypeChecker::struct_built);
        }
        let names = find_fields_left_out(&def.fields, inits);
        if !names.is_empty() {
            self.say(Message::MissingFields { names });
        }
        match self.context.struct_owner(name) {
            Some(owner) => self.record_item_occurrence(span, name, ty.dup(), owner),
            None => {},
        }
    }

    /// The checker, and the types of the fields of a variant with type arguments.
    #[verifier::opaque]
    pub open spec fn variant_types(
        self,
        name: StrId,
        def: HirEnum,
        variant: HirEnumVariant,
        type_args: Option<List<HirType>>,
    ) -> (TypeChecker, List<HirType>) {
        let declared = types_of_fields(variant.fields);
        match (generic(def.generics), type_args) {
            (true, Some(args)) => match enum_variants(self.context, name, args) {
                Some(variants) => (
                    self,
                    match lookup(variants, variant.name) {
                        Some(types) => types,
                        None => declared,
                    },
                ),
                None => (
                    self.said(
                        Message::EnumTypeArgCount {
                            name,
                            expected: count_of(def.generics),
                            found: args.count(),
                        },
                    ),
                    declared,
                ),
            },
            (true, None) => (
                self.said(Message::EnumNeedsTypeArgs { name, variant: variant.name }),
                declared,
            ),
            (false, Some(_)) => (self.said(Message::EnumNotGeneric { name }), declared),
            (false, None) => (self, declared),
        }
    }

    pub fn resolve_variant_types(
        &mut self,
        name: StrId,
        def: &HirEnum,
        variant: &HirEnumVariant,
        type_args: &Option<List<HirType>>,
    ) -> (types: List<HirType>)
        ensures
            (*final(self), types) == old(self).variant_types(name, *def, *variant, *type_args),
            final(self).settled_in_scope(*old(self)),
    {
        proof {
            reveal(TypeChecker::variant_types);
        }
        if is_generic(&def.generics) {
            match type_args {
                Some(args) => match self.instantiate_enum(name, args) {
                    Some(variants) => match find(&variants, &variant.name) {
                        Some(types) => types.dup(),
                        None => field_types(&variant.fields),
                    },
                    None => {
                        self.say(
                            Message::EnumTypeArgCount {
                                name,
                                expected: generic_count(&def.generics),
                                found: args.len(),
                            },
                        );
                        field_types(&variant.fields)
                    },
                },
                None => {
                    self.say(
                        Message::EnumNeedsTypeArgs { name, variant: variant.name },
                    );
                    field_types(&variant.fields)
                },
            }
        } else {
            if type_args.is_some() {
                self.say(Message::EnumNotGeneric { name });
            }
            field_types(&variant.fields)
        }
    }

    pub open spec fn instance_noted(self, key: usize, type_args: Option<List<HirType>>) -> TypeChecker {
        match type_args {
            Some(args) => TypeChecker {
                backfills: crate::type_checker::Backfills {
                    instance_args: updated(self.backfills.instance_args, key, args),
                    ..self.backfills
                },
                ..self
            },
            None => self,
        }
    }

    pub fn note_instance(&mut self, expr: &HirExpr, type_args: &Option<List<HirType>>)
        ensures
            *final(self) == old(self).instance_noted(expr.key, *type_args),
            final(self).settled_in_scope(*old(self)),
    {
        match type_args {
            Some(args) => self.record_instance_args(expr, args),
            None => {},
        }
    }

    fn unify_fields(&self, fields: &List<HirField>, types: &List<HirType>, subs: Substitutions) -> (result:
        Substitutions)
        ensures
            result == unified_fields(*fields, *types, subs),
        decreases fields,
    {
        match (fields, types) {
            (Cons(field, more), Cons(ty, rest)) => {
                let next = self.unify_generic(&field.field_type, ty, subs);
                self.unify_fields(more, rest, next)
            },
            _ => subs,
        }
    }

    pub fn infer_enum_args(
        &self,
        name: StrId,
        def: &HirEnum,
        variant: &HirEnumVariant,
        type_args: &Option<List<HirType>>,
        types: &List<HirType>,
        expected: &Option<HirType>,
    ) -> (args: List<HirType>)
        ensures
            args == enum_args(name, *def, *variant, *type_args, *types, *expected),
    {
        match type_args {
            Some(args) => args.dup(),
            None => match &def.generics {
                None => Nil,
                Some(generics) => {
                    let found = self.unify_fields(&variant.fields, types, Nil);
                    let subs = match expected {
                        Some(HirType::Enum { name: found_name, type_args: wanted }) => if *found_name
                            == name {
                            bind_where_unknown(found, generics, wanted)
                        } else {
                            found
                        },
                        _ => found,
                    };
                    find_values(generics, &subs)
                },
            },
        }
    }

    /// The module that a path leads to, and the type in it that the path names last.
    pub open spec fn module_target(self, path: List<StrId>) -> (Option<usize>, Option<StrId>) {
        match self.aliased_module(self.context.current_module_idx, path) {
            Some(module) => (
                Some(module),
                match (self.imports_here(), path) {
                    (Some(imports), Cons(only, _)) => if has_key(imports.named, *only) {
                        Some(*only)
                    } else {
                        None
                    },
                    _ => None,
                },
            ),
            None => match self.program.graph.module_at(path) {
                Some(module) => (Some(module), None),
                None => match path.last_of() {
                    Some(type_segment) => match self.program.graph.module_at(path.without_last()) {
                        Some(module) => (Some(module), Some(type_segment)),
                        None => (None, None),
                    },
                    None => (None, None),
                },
            },
        }
    }

    pub fn resolve_module_target(&self, path: &List<StrId>) -> (target: (
        Option<usize>,
        Option<StrId>,
    ))
        ensures
            target == self.module_target(*path),
    {
        let here: usize = self.context.current_module_idx;
        match self.find_aliased_module(here, path) {
            Some(module) => {
                let named = match (self.find_imports(), path) {
                    (Some(imports), Cons(only, _)) => if contains_key(&imports.named, &**only) {
                        Some(**only)
                    } else {
                        None
                    },
                    _ => None,
                };
                (Some(module), named)
            },
            None => match self.program.graph.resolve_module_path(path) {
                Some(module) => (Some(module), None),
                None => match path.last() {
                    Some(type_segment) => {
                        match self.program.graph.resolve_module_path(&path.init()) {
                            Some(module) => (Some(module), Some(*type_segment)),
                            None => (None, None),
                        }
                    },
                    None => (None, None),
                },
            },
        }
    }

    pub open spec fn free_function(self, module: Option<usize>, member: StrId) -> Option<Rc<HirFunc>> {
        match module {
            Some(idx) => self.context.function_in(idx, member),
            None => None,
        }
    }

    pub fn find_free_function(&self, module: Option<usize>, member: StrId) -> (func: Option<
        Rc<HirFunc>,
    >)
        ensures
            func == self.free_function(module, member),
    {
        match module {
            Some(idx) => self.context.get_module_function(idx, member),
            None => None,
        }
    }

    /// The type whose method a path names where it names no function: the last name of the path,
    /// or the name that the type has in its module.
    pub open spec fn method_owner(
        self,
        path: List<StrId>,
        target: (Option<usize>, Option<StrId>),
        called: bool,
    ) -> Option<StrId> {
        let qualified = match target {
            (Some(module), Some(ty)) => if called {
                Some(self.program.graph.mangled(module, ty))
            } else {
                lookup(self.program.graph.package_types, (module, ty))
            },
            _ => None,
        };
        match qualified {
            Some(name) => Some(name),
            None => path.last_of(),
        }
    }

    fn find_method_owner(
        &self,
        path: &List<StrId>,
        target: (Option<usize>, Option<StrId>),
        called: bool,
    ) -> (owner: Option<StrId>)
        ensures
            owner == self.method_owner(*path, target, called),
    {
        let qualified = match target {
            (Some(module), Some(ty)) => if called {
                Some(self.program.graph.mangle_type(module, ty))
            } else {
                self.program.graph.package_type(module, ty)
            },
            _ => None,
        };
        match qualified {
            Some(name) => Some(name),
            None => match path.last() {
                Some(name) => Some(*name),
                None => None,
            },
        }
    }

    /// The function or method that a member of a path is.
    #[verifier::opaque]
    pub open spec fn member_function(
        self,
        path: List<StrId>,
        target: (Option<usize>, Option<StrId>),
        member: StrId,
        called: bool,
    ) -> Option<Rc<HirFunc>> {
        match self.free_function(target.0, member) {
            Some(func) => Some(func),
            None => match self.method_owner(path, target, called) {
                Some(owner) => self.context.method_of(owner, member),
                None => None,
            },
        }
    }

    pub fn find_member_function(
        &self,
        path: &List<StrId>,
        target: (Option<usize>, Option<StrId>),
        member: StrId,
        called: bool,
    ) -> (func: Option<Rc<HirFunc>>)
        ensures
            func == self.member_function(*path, target, member, called),
    {
        proof {
            reveal(TypeChecker::member_function);
        }
        match self.find_free_function(target.0, member) {
            Some(func) => Some(func),
            None => match self.find_method_owner(path, target, called) {
                Some(owner) => self.context.get_method(owner, member),
                None => None,
            },
        }
    }

    /// The checker after a function is named that is not there: modules that declare such a
    /// function are suggested.
    #[verifier::opaque]
    pub open spec fn function_missing(self, name: FunctionName, member: StrId) -> TypeChecker {
        let modules = list_at(self.program.graph.functions, member);
        self.recorded(
            if modules is Nil {
                TypeErrorKind::UndefinedFunction(name)
            } else {
                TypeErrorKind::UndefinedFunctionWithSuggestion {
                    name,
                    suggested_modules: self.program.graph.packages_of(modules),
                }
            },
        )
    }

    pub fn report_missing_function(&mut self, name: FunctionName, member: StrId)
        ensures
            *final(self) == old(self).function_missing(name, member),
            final(self).settled_in_scope(*old(self)),
    {
        proof {
            reveal(TypeChecker::function_missing);
        }
        let modules = self.program.graph.find_function_by_name_anywhere(member);
        if modules.is_empty() {
            self.record(TypeErrorKind::UndefinedFunction(name));
        } else {
            let suggested_modules = self.program.graph.get_packages(&modules);
            self.record(
                TypeErrorKind::UndefinedFunctionWithSuggestion { name, suggested_modules },
            );
        }
    }

    /// The checker after a function of another module is named as a value.
    #[verifier::opaque]
    pub open spec fn member_accessed(self, path: List<StrId>, member: StrId) -> (
        TypeChecker,
        HirType,
    ) {
        match self.member_function(path, self.module_target(path), member, false) {
            None => (
                self.function_missing(FunctionName::Member(path, member), member),
                HirType::Unknown,
            ),
            Some(func) => (
                self.after_safety(*func, Message::UnsafeCall { name: member }).after_module_path(
                    path,
                ),
                function_type(*func),
            ),
        }
    }

    pub fn check_module_access_expr(&mut self, path: &List<StrId>, member: StrId) -> (ty: HirType)
        ensures
            (*final(self), ty) == old(self).member_accessed(*path, member),
            final(self).settled_in_scope(*old(self)),
    {
        proof {
            reveal(TypeChecker::member_accessed);
        }
        let target = self.resolve_module_target(path);
        match self.find_member_function(path, target, member, false) {
            None => {
                self.report_missing_function(FunctionName::Member(path.dup(), member), member);
                HirType::Unknown
            },
            Some(func) => {
                self.check_unsafe_call(&func, Message::UnsafeCall { name: member });
                self.check_module_path_imported(path);
                type_of_function(&func)
            },
        }
    }

    /// The checker, and what the type arguments of a call say of the callee's parameters.
    #[verifier::opaque]
    pub open spec fn call_substitutions(
        self,
        func: HirFunc,
        name: StrId,
        type_args: Option<List<HirType>>,
    ) -> (TypeChecker, Substitutions) {
        if generic(func.generics) {
            let generics = list_or_empty(func.generics);
            match type_args {
                Some(args) => {
                    let full = filled(generics, args, Nil);
                    (
                        if full.count() == generics.count() {
                            self
                        } else {
                            self.said(
                                Message::FunctionTypeArgCount {
                                    name,
                                    expected: generics.count(),
                                    found: args.count(),
                                },
                            )
                        },
                        bound_onto(Nil, generics, full),
                    )
                },
                None => (self, defaulted(generics, Nil)),
            }
        } else if type_args is Some {
            (self.said(Message::FunctionNotGeneric { name }), Nil)
        } else {
            (self, Nil)
        }
    }

    fn fill_args(&self, generics: &List<HirGeneric>, args: &List<HirType>, subs: &Substitutions) -> (full:
        List<HirType>)
        ensures
            full == filled(*generics, *args, *subs),
        decreases generics,
    {
        match generics {
            Nil => args.dup(),
            Cons(generic, more) => match args {
                Cons(arg, rest) => {
                    let next = update(subs, generic.name, arg.dup());
                    List::cons(arg.dup(), self.fill_args(more, rest, &next))
                },
                Nil => match &generic.default_type {
                    Some(default_type) => {
                        let ty = self.substitute_type_local(default_type, subs);
                        let next = update(subs, generic.name, ty.dup());
                        List::cons(ty, self.fill_args(more, &Nil, &next))
                    },
                    None => Nil,
                },
            },
        }
    }

    fn fill_defaults(&self, generics: &List<HirGeneric>, subs: Substitutions) -> (result: Substitutions)
        ensures
            result == defaulted(*generics, subs),
        decreases generics,
    {
        match generics {
            Nil => subs,
            Cons(generic, rest) => {
                let next = match &generic.default_type {
                    Some(default_type) => {
                        let ty = self.substitute_type_local(default_type, &subs);
                        update(&subs, generic.name, ty)
                    },
                    None => subs,
                };
                self.fill_defaults(rest, next)
            },
        }
    }

    pub fn resolve_call_substitutions(
        &mut self,
        func: &HirFunc,
        name: StrId,
        type_args: &Option<List<HirType>>,
    ) -> (subs: Substitutions)
        ensures
            (*final(self), subs) == old(self).call_substitutions(*func, name, *type_args),
            final(self).settled_in_scope(*old(self)),
    {
        proof {
            reveal(TypeChecker::call_substitutions);
        }
        match &func.generics {
            Some(generics) if !generics.is_empty() => match type_args {
                Some(args) => {
                    let full = self.fill_args(generics, args, &Nil);
                    let expected: usize = generics.len();
                    if full.len() != expected {
                        self.say(
                            Message::FunctionTypeArgCount { name, expected, found: args.len() },
                        );
                    }
                    bind_onto(Nil, generics, &full)
                },
                None => self.fill_defaults(generics, Nil),
            },
            _ => {
                if type_args.is_some() {
                    self.say(Message::FunctionNotGeneric { name });
                }
                Nil
            },
        }
    }

    /// The checker after a call with the wrong number of arguments, or the right one.
    pub open spec fn counted(self, expected_args: usize, found_args: usize) -> TypeChecker {
        if expected_args == found_args {
            self
        } else {
            self.recorded(TypeErrorKind::InvalidFunctionCall { expected_args, found_args })
        }
    }

    pub fn check_arg_count(&mut self, expected_args: usize, found_args: usize)
        ensures
            *final(self) == old(self).counted(expected_args, found_args),
            final(self).settled_in_scope(*old(self)),
    {
        if expected_args != found_args {
            self.record(TypeErrorKind::InvalidFunctionCall { expected_args, found_args });
        }
    }

    pub open spec fn with_pre_substitutions(self, subs: Substitutions) -> TypeChecker {
        TypeChecker {
            closures: ClosureState { pre_subs: subs, generic_subs: Nil, ..self.closures },
            ..self
        }
    }
}

pub fn type_of_function(func: &HirFunc) -> (ty: HirType)
    ensures
        ty == function_type(*func),
{
    let params = match &func.params {
        Some(params) => collect_declared_types(params),
        None => Nil,
    };
    HirType::Lambda {
        params,
        return_type: Rc::new(type_or_void(crate::hir::dup_type(&func.return_type))),
    }
}

/// The type arguments of the enum that a variant with values of these types belongs to: the ones
/// that were written, or what the values and the expected type say.
pub open spec fn enum_args(
    name: StrId,
    def: HirEnum,
    variant: HirEnumVariant,
    type_args: Option<List<HirType>>,
    types: List<HirType>,
    expected: Option<HirType>,
) -> List<HirType> {
    match type_args {
        Some(args) => args,
        None => match def.generics {
            None => Nil,
            Some(generics) => {
                let found = unified_fields(variant.fields, types, Nil);
                values_for(
                    generics,
                    match expected {
                        Some(HirType::Enum { name: found_name, type_args: wanted }) => if found_name
                            == name {
                            bound_where_unknown(found, generics, wanted)
                        } else {
                            found
                        },
                        _ => found,
                    },
                )
            },
        },
    }
}

} // verus!
