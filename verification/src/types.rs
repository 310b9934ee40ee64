//! Relations between types.

use std::rc::Rc;

use vstd::prelude::*;

use crate::errors::{TypeErrorKind, TypeText};
use crate::hir::{
    ExprKind, HirExpr, HirType, ProvenanceAnnotation, RefKind, StrId, Word, field_index,
    field_named, field_types, find_field, position_of_field, types_of_fields,
};
use crate::list::{has_key, lookup, Cons, List, Nil};
use crate::type_checker::{TypeCheckResult, TypeChecker};
use crate::type_context::TypeContext;

verus! {

pub open spec fn integer(ty: HirType) -> bool {
    match ty {
        HirType::I8 | HirType::I16 | HirType::I32 | HirType::I64 | HirType::U8 | HirType::U16
        | HirType::U32 | HirType::U64 | HirType::I128 | HirType::U128 | HirType::Usize
        | HirType::Isize => true,
        _ => false,
    }
}

pub open spec fn numeric(ty: HirType) -> bool {
    integer(ty) || ty is F32 || ty is F64
}

pub open spec fn comparable(ty: HirType) -> bool {
    numeric(ty) || ty is Boolean || ty is String
}

pub open spec fn reference_like(ty: HirType) -> bool {
    ty is Ref || ty is SafePointer || ty is UnsafePointer || ty is OwnedPointer
}

/// What a reference, safe pointer or owned pointer points to; any other type itself.
pub open spec fn stripped(ty: HirType) -> HirType {
    match ty {
        HirType::Ref { inner, .. } => *inner,
        HirType::SafePointer { inner, .. } => *inner,
        HirType::OwnedPointer { inner, .. } => *inner,
        _ => ty,
    }
}

/// Whether two types are the same to the checker. A generic parameter is the same as anything, and
/// where a reference points is no part of its type.
pub open spec fn alike(a: HirType, b: HirType) -> bool
    decreases a,
{
    if a is Generic || b is Generic {
        true
    } else {
        match (a, b) {
            (
                HirType::Struct { name: na, type_args: ta, .. },
                HirType::Struct { name: nb, type_args: tb, .. },
            ) => na == nb && all_alike(ta, tb),
            (
                HirType::Ref { inner: ia, ref_kind: ka, .. },
                HirType::Ref { inner: ib, ref_kind: kb, .. },
            ) => ka == kb && alike(*ia, *ib),
            (HirType::Nullable(ia), HirType::Nullable(ib)) => alike(*ia, *ib),
            (
                HirType::SafePointer { inner: ia, mutability_state: ma },
                HirType::SafePointer { inner: ib, mutability_state: mb },
            ) => ma == mb && alike(*ia, *ib),
            (
                HirType::UnsafePointer { inner: ia, mutability_state: ma },
                HirType::UnsafePointer { inner: ib, mutability_state: mb },
            ) => ma == mb && alike(*ia, *ib),
            (
                HirType::OwnedPointer { inner: ia, allocator: aa },
                HirType::OwnedPointer { inner: ib, allocator: ab },
            ) => aa == ab && alike(*ia, *ib),
            (HirType::Array(ia, la), HirType::Array(ib, lb)) => la == lb && alike(*ia, *ib),
            (HirType::Slice(ia), HirType::Slice(ib)) => alike(*ia, *ib),
            (HirType::Tuple(ea), HirType::Tuple(eb)) => all_alike(ea, eb),
            (HirType::Dyn { bounds: ba }, HirType::Dyn { bounds: bb }) => all_alike(ba, bb),
            (
                HirType::Lambda { params: pa, return_type: ra },
                HirType::Lambda { params: pb, return_type: rb },
            ) => all_alike(pa, pb) && alike(*ra, *rb),
            (
                HirType::Enum { name: na, type_args: ta },
                HirType::Enum { name: nb, type_args: tb },
            ) => na == nb && all_alike(ta, tb),
            _ => a == b,
        }
    }
}

/// Whether two lists are equally long and alike pair by pair.
pub open spec fn all_alike(a: List<HirType>, b: List<HirType>) -> bool
    decreases a,
{
    match (a, b) {
        (Nil, Nil) => true,
        (Cons(x, rest_a), Cons(y, rest_b)) => alike(*x, *y) && all_alike(*rest_a, *rest_b),
        _ => false,
    }
}

pub open spec fn payloads_comparable(a: HirType, b: HirType) -> bool {
    alike(a, b) && ((comparable(a) && comparable(b)) || (reference_like(a) && reference_like(b)))
}

/// Whether two types can be compared because at least one of them is nullable.
pub open spec fn nullable_comparable(left: HirType, right: HirType) -> bool {
    match (left, right) {
        (HirType::Nullable(li), HirType::Nullable(ri)) => payloads_comparable(*li, *ri),
        (HirType::Nullable(li), _) => payloads_comparable(*li, right) || right is Null,
        (_, HirType::Nullable(ri)) => payloads_comparable(left, *ri) || left is Null,
        _ => false,
    }
}

/// The first interface among the bounds of a trait object.
pub open spec fn interface_bound(context: TypeContext, bounds: List<HirType>) -> Option<StrId>
    decreases bounds,
{
    match bounds {
        Nil => None,
        Cons(bound, rest) => match *bound {
            HirType::DynInterface(name, _) => Some(name),
            HirType::Struct { name, .. } => if has_key(context.interfaces, name) {
                Some(name)
            } else {
                interface_bound(context, *rest)
            },
            _ => interface_bound(context, *rest),
        },
    }
}

/// The interface that a type stands for.
pub open spec fn interface_of(context: TypeContext, ty: HirType) -> Option<StrId> {
    match ty {
        HirType::DynInterface(name, _) => Some(name),
        HirType::Dyn { bounds } => interface_bound(context, bounds),
        _ => None,
    }
}

pub open spec fn satisfies(context: TypeContext, expected: HirType, found: HirType) -> bool {
    match (interface_of(context, stripped(expected)), stripped(found)) {
        (Some(interface), HirType::Struct { name, .. }) => context.implements(name, interface),
        _ => false,
    }
}

/// Whether a value of all zero bits is a value of the type. The definitions of structs are
/// unfolded at most `fuel` deep, which reaches the leaves unless a struct contains itself.
pub open spec fn zeroable(context: TypeContext, ty: HirType, fuel: nat) -> bool
    decreases fuel, ty,
{
    match ty {
        HirType::I8 | HirType::I16 | HirType::I32 | HirType::I64 | HirType::I128 | HirType::U8
        | HirType::U16 | HirType::U32 | HirType::U64 | HirType::U128 | HirType::F32
        | HirType::F64 => true,
        HirType::Array(inner, _) => zeroable(context, *inner, fuel),
        HirType::Tuple(elems) => all_zeroable(context, elems, fuel),
        HirType::Struct { name, .. } => match lookup(context.structs, name) {
            Some(def) => fuel > 0 && all_zeroable(
                context,
                types_of_fields(def.fields),
                (fuel - 1) as nat,
            ),
            None => false,
        },
        HirType::Nullable(inner) => reference_like(*inner),
        _ => false,
    }
}

pub open spec fn all_zeroable(context: TypeContext, types: List<HirType>, fuel: nat) -> bool
    decreases fuel, types,
{
    match types {
        Nil => true,
        Cons(ty, rest) => zeroable(context, *ty, fuel) && all_zeroable(context, *rest, fuel),
    }
}

/// The type of a field of a struct type, its parameters filled in.
pub open spec fn field_type_of(
    context: TypeContext,
    name: StrId,
    type_args: List<HirType>,
    field: StrId,
) -> HirType {
    match lookup(context.structs, name) {
        None => HirType::Unknown,
        Some(def) => match (field_named(def.fields, field), field_index(def.fields, field)) {
            (Some(declared), Some(index)) => if type_args is Nil {
                declared.field_type
            } else {
                match crate::instantiations::struct_fields(context, name, type_args) {
                    Some(fields) => match fields.nth(index) {
                        Some(ty) => ty,
                        None => declared.field_type,
                    },
                    None => declared.field_type,
                }
            },
            _ => HirType::Unknown,
        },
    }
}

/// The type of a place expression, as far as it follows from what is declared.
pub open spec fn peeked(context: TypeContext, expr: HirExpr) -> HirType
    decreases expr,
{
    match expr.kind {
        ExprKind::Ident(name, _) => match lookup(context.variables, name) {
            Some(variable) => variable.1,
            None => HirType::Unknown,
        },
        ExprKind::This { .. } => match lookup(context.variables, StrId::Known(Word::This)) {
            Some(variable) => variable.1,
            None => HirType::This,
        },
        ExprKind::FieldAccess { object, field, .. } | ExprKind::Get { object, field, .. } => {
            match peeked(context, *object) {
                HirType::Struct { name, type_args, .. } => field_type_of(
                    context,
                    name,
                    type_args,
                    field,
                ),
                _ => HirType::Unknown,
            }
        },
        ExprKind::Deref { expr: inner, .. } => match peeked(context, *inner) {
            HirType::Ref { inner, .. } => *inner,
            HirType::SafePointer { inner, .. } => *inner,
            HirType::UnsafePointer { inner, .. } => *inner,
            HirType::OwnedPointer { inner, .. } => *inner,
            _ => HirType::Unknown,
        },
        ExprKind::Index { object, .. } => match peeked(context, *object) {
            HirType::Array(inner, _) => *inner,
            HirType::Slice(inner) => *inner,
            _ => HirType::Unknown,
        },
        ExprKind::Cast { target_type, .. } => target_type,
        _ => HirType::Unknown,
    }
}

impl TypeChecker {
    /// Whether a value of one type can stand where another is expected.
    pub open spec fn fits(self, expected: HirType, found: HirType) -> bool {
        ||| found is Never
        ||| match (expected, found) {
            (
                HirType::Ref { inner: ei, ref_kind: ek, .. },
                HirType::Ref { inner: fi, ref_kind: fk, .. },
            ) => alike(*ei, *fi) && self.program.facts.coerces(fk, ek),
            _ => false,
        }
        ||| alike(expected, found)
        ||| expected is Unknown
        ||| found is Unknown
        ||| satisfies(self.context, expected, found)
        ||| satisfies(self.context, found, expected)
        ||| (expected is Nullable && found is Null)
    }

    pub open spec fn compatibility(self, expected: HirType, found: HirType) -> TypeCheckResult<()> {
        if self.fits(expected, found) {
            Ok(())
        } else {
            Err(
                crate::errors::TypeError {
                    kind: TypeErrorKind::TypeMismatch {
                        expected: TypeText::Type(expected),
                        found: TypeText::Type(found),
                    },
                    span: self.diagnostics.current_span,
                },
            )
        }
    }

    pub open spec fn zero_ok(self, ty: HirType) -> bool {
        zeroable(self.context, ty, self.context.structs.count() as nat)
    }

    pub fn is_reference_like(&self, ty: &HirType) -> (yes: bool)
        ensures
            yes == reference_like(*ty),
    {
        matches!(
            ty,
            HirType::Ref { .. }
                | HirType::SafePointer { .. }
                | HirType::UnsafePointer { .. }
                | HirType::OwnedPointer { .. }
        )
    }

    pub fn is_integer(&self, ty: &HirType) -> (yes: bool)
        ensures
            yes == integer(*ty),
    {
        matches!(
            ty,
            HirType::I8
                | HirType::I16
                | HirType::I32
                | HirType::I64
                | HirType::U8
                | HirType::U16
                | HirType::U32
                | HirType::U64
                | HirType::I128
                | HirType::U128
                | HirType::Usize
                | HirType::Isize
        )
    }

    pub fn is_numeric(&self, ty: &HirType) -> (yes: bool)
        ensures
            yes == numeric(*ty),
    {
        self.is_integer(ty) || matches!(ty, HirType::F32 | HirType::F64)
    }

    pub fn is_comparable(&self, ty: &HirType) -> (yes: bool)
        ensures
            yes == comparable(*ty),
    {
        self.is_numeric(ty) || matches!(ty, HirType::Boolean | HirType::String)
    }

    pub fn strip_ref<'x>(ty: &'x HirType) -> (inner: &'x HirType)
        ensures
            *inner == stripped(*ty),
    {
        match ty {
            HirType::Ref { inner, .. } => inner,
            HirType::SafePointer { inner, .. } => inner,
            HirType::OwnedPointer { inner, .. } => inner,
            _ => ty,
        }
    }

    pub fn types_structurally_equal(&self, a: &HirType, b: &HirType) -> (equal: bool)
        ensures
            equal == alike(*a, *b),
        decreases a,
    {
        if matches!(a, HirType::Generic(_)) || matches!(b, HirType::Generic(_)) {
            return true;
        }
        match (a, b) {
            (
                HirType::Struct { name: na, type_args: ta, .. },
                HirType::Struct { name: nb, type_args: tb, .. },
            ) => *na == *nb && self.all_structurally_equal(ta, tb),
            (
                HirType::Ref { inner: ia, ref_kind: ka, .. },
                HirType::Ref { inner: ib, ref_kind: kb, .. },
            ) => *ka == *kb && self.types_structurally_equal(ia, ib),
            (HirType::Nullable(ia), HirType::Nullable(ib)) => self.types_structurally_equal(ia, ib),
            (
                HirType::SafePointer { inner: ia, mutability_state: ma },
                HirType::SafePointer { inner: ib, mutability_state: mb },
            ) => *ma == *mb && self.types_structurally_equal(ia, ib),
            (
                HirType::UnsafePointer { inner: ia, mutability_state: ma },
                HirType::UnsafePointer { inner: ib, mutability_state: mb },
            ) => *ma == *mb && self.types_structurally_equal(ia, ib),
            (
                HirType::OwnedPointer { inner: ia, allocator: aa },
                HirType::OwnedPointer { inner: ib, allocator: ab },
            ) => crate::hir::same_provenance(aa, ab) && self.types_structurally_equal(ia, ib),
            (HirType::Array(ia, la), HirType::Array(ib, lb)) => *la == *lb
                && self.types_structurally_equal(ia, ib),
            (HirType::Slice(ia), HirType::Slice(ib)) => self.types_structurally_equal(ia, ib),
            (HirType::Tuple(ea), HirType::Tuple(eb)) => self.all_structurally_equal(ea, eb),
            (HirType::Dyn { bounds: ba }, HirType::Dyn { bounds: bb }) => {
                self.all_structurally_equal(ba, bb)
            },
            (
                HirType::Lambda { params: pa, return_type: ra },
                HirType::Lambda { params: pb, return_type: rb },
            ) => self.all_structurally_equal(pa, pb) && self.types_structurally_equal(ra, rb),
            (
                HirType::Enum { name: na, type_args: ta },
                HirType::Enum { name: nb, type_args: tb },
            ) => *na == *nb && self.all_structurally_equal(ta, tb),
            _ => a.same(b),
        }
    }

    fn all_structurally_equal(&self, a: &List<HirType>, b: &List<HirType>) -> (equal: bool)
        ensures
            equal == all_alike(*a, *b),
        decreases a,
    {
        match (a, b) {
            (Nil, Nil) => true,
            (Cons(x, rest_a), Cons(y, rest_b)) => self.types_structurally_equal(x, y)
                && self.all_structurally_equal(rest_a, rest_b),
            _ => false,
        }
    }

    fn payload_compatible(&self, a: &HirType, b: &HirType) -> (compatible: bool)
        ensures
            compatible == payloads_comparable(*a, *b),
    {
        self.types_structurally_equal(a, b) && ((self.is_comparable(a) && self.is_comparable(b))
            || (self.is_reference_like(a) && self.is_reference_like(b)))
    }

    pub fn nullable_equality_compatible(&self, left: &HirType, right: &HirType) -> (compatible: bool)
        ensures
            compatible == nullable_comparable(*left, *right),
    {
        match (left, right) {
            (HirType::Nullable(li), HirType::Nullable(ri)) => self.payload_compatible(li, ri),
            (HirType::Nullable(li), _) => self.payload_compatible(li, right)
                || matches!(right, HirType::Null),
            (_, HirType::Nullable(ri)) => self.payload_compatible(left, ri)
                || matches!(left, HirType::Null),
            _ => false,
        }
    }

    pub fn find_interface_bound(&self, bounds: &List<HirType>) -> (name: Option<StrId>)
        ensures
            name == interface_bound(self.context, *bounds),
        decreases bounds,
    {
        match bounds {
            Nil => None,
            Cons(bound, rest) => match &**bound {
                HirType::DynInterface(name, _) => Some(*name),
                HirType::Struct { name, .. } => if self.context.get_interface(*name).is_some() {
                    Some(*name)
                } else {
                    self.find_interface_bound(rest)
                },
                _ => self.find_interface_bound(rest),
            },
        }
    }

    pub fn interface_name(&self, ty: &HirType) -> (name: Option<StrId>)
        ensures
            name == interface_of(self.context, *ty),
    {
        match ty {
            HirType::DynInterface(name, _) => Some(*name),
            HirType::Dyn { bounds } => self.find_interface_bound(bounds),
            _ => None,
        }
    }

    pub fn struct_satisfies_interface_type(&self, expected: &HirType, found: &HirType) -> (satisfied:
        bool)
        ensures
            satisfied == satisfies(self.context, *expected, *found),
    {
        match (self.interface_name(Self::strip_ref(expected)), Self::strip_ref(found)) {
            (Some(interface), HirType::Struct { name, .. }) => self.context.struct_implements(
                *name,
                interface,
            ),
            _ => false,
        }
    }

    fn fits_expected(&self, expected: &HirType, found: &HirType) -> (fits: bool)
        ensures
            fits == self.fits(*expected, *found),
    {
        if matches!(found, HirType::Never) {
            return true;
        }
        match (expected, found) {
            (
                HirType::Ref { inner: ei, ref_kind: ek, .. },
                HirType::Ref { inner: fi, ref_kind: fk, .. },
            ) => {
                if self.types_structurally_equal(ei, fi) && self.program.facts.coerces_to(*fk, *ek) {
                    return true;
                }
            },
            _ => {},
        }
        self.types_structurally_equal(expected, found) || matches!(expected, HirType::Unknown)
            || matches!(found, HirType::Unknown) || self.struct_satisfies_interface_type(
            expected,
            found,
        ) || self.struct_satisfies_interface_type(found, expected) || (matches!(
            expected,
            HirType::Nullable(_)
        ) && matches!(found, HirType::Null))
    }

    pub fn types_compatible(&self, expected: &HirType, found: &HirType) -> (result: TypeCheckResult<
        (),
    >)
        ensures
            result == self.compatibility(*expected, *found),
    {
        if self.fits_expected(expected, found) {
            Ok(())
        } else {
            Err(
                TypeErrorKind::TypeMismatch {
                    expected: TypeText::Type(expected.dup()),
                    found: TypeText::Type(found.dup()),
                }.at(self.diagnostics.current_span),
            )
        }
    }

    /// Records an error unless one type fits where another is expected.
    pub fn expect_type(&mut self, expected: &HirType, found: &HirType)
        ensures
            *final(self) == old(self).recovered(old(self).compatibility(*expected, *found)),
            final(self).settled_in_scope(*old(self)),
    {
        let result = self.types_compatible(expected, found);
        self.recover(result);
    }

    pub fn field_type(&self, name: StrId, type_args: &List<HirType>, field: StrId) -> (ty: HirType)
        ensures
            ty == field_type_of(self.context, name, *type_args, field),
    {
        match self.context.get_struct(name) {
            None => HirType::Unknown,
            Some(def) => match (
                find_field(&def.fields, field),
                position_of_field(&def.fields, field),
            ) {
                (Some(declared), Some(index)) => if type_args.is_empty() {
                    declared.field_type.dup()
                } else {
                    match self.instantiate_struct(name, type_args) {
                        Some(fields) => match fields.get(index) {
                            Some(ty) => ty.dup(),
                            None => declared.field_type.dup(),
                        },
                        None => declared.field_type.dup(),
                    }
                },
                _ => HirType::Unknown,
            },
        }
    }

    pub fn peek_type(&self, expr: &HirExpr) -> (ty: HirType)
        ensures
            ty == peeked(self.context, *expr),
        decreases expr,
    {
        match &expr.kind {
            ExprKind::Ident(name, _) => match self.context.get_variable(*name) {
                Some(variable) => variable.1,
                None => HirType::Unknown,
            },
            ExprKind::This { .. } => match self.context.get_variable(StrId::Known(Word::This)) {
                Some(variable) => variable.1,
                None => HirType::This,
            },
            ExprKind::FieldAccess { object, field, .. } | ExprKind::Get { object, field, .. } => {
                match self.peek_type(object) {
                    HirType::Struct { name, type_args, .. } => self.field_type(
                        name,
                        &type_args,
                        *field,
                    ),
                    _ => HirType::Unknown,
                }
            },
            ExprKind::Deref { expr: inner, .. } => match self.peek_type(inner) {
                HirType::Ref { inner, .. } => inner.dup(),
                HirType::SafePointer { inner, .. } => inner.dup(),
                HirType::UnsafePointer { inner, .. } => inner.dup(),
                HirType::OwnedPointer { inner, .. } => inner.dup(),
                _ => HirType::Unknown,
            },
            ExprKind::Index { object, .. } => match self.peek_type(object) {
                HirType::Array(inner, _) => inner.dup(),
                HirType::Slice(inner) => inner.dup(),
                _ => HirType::Unknown,
            },
            ExprKind::Cast { target_type, .. } => target_type.dup(),
            _ => HirType::Unknown,
        }
    }

    fn zeroable_within(&self, ty: &HirType, fuel: usize) -> (yes: bool)
        ensures
            yes == zeroable(self.context, *ty, fuel as nat),
        decreases fuel, ty,
    {
        match ty {
            HirType::I8 | HirType::I16 | HirType::I32 | HirType::I64 | HirType::I128
            | HirType::U8 | HirType::U16 | HirType::U32 | HirType::U64 | HirType::U128
            | HirType::F32 | HirType::F64 => true,
            HirType::Array(inner, _) => self.zeroable_within(inner, fuel),
            HirType::Tuple(elems) => self.all_zeroable_within(elems, fuel),
            HirType::Struct { name, .. } => match self.context.get_struct(*name) {
                Some(def) => fuel > 0 && self.all_zeroable_within(
                    &field_types(&def.fields),
                    fuel - 1,
                ),
                None => false,
            },
            HirType::Nullable(inner) => self.is_reference_like(inner),
            _ => false,
        }
    }

    fn all_zeroable_within(&self, types: &List<HirType>, fuel: usize) -> (yes: bool)
        ensures
            yes == all_zeroable(self.context, *types, fuel as nat),
        decreases fuel, types,
    {
        match types {
            Nil => true,
            Cons(ty, rest) => self.zeroable_within(ty, fuel) && self.all_zeroable_within(rest, fuel),
        }
    }

    /// Whether all zero bits are a value of the type. Booleans, characters, strings, enums and
    /// pointers have no such value; a nullable pointer does.
    pub fn is_zeroable(&self, ty: &HirType) -> (yes: bool)
        ensures
            yes == self.zero_ok(*ty),
    {
        self.zeroable_within(ty, self.context.structs.len())
    }
}

proof fn all_alike_reflexive(types: List<HirType>)
    ensures
        all_alike(types, types),
    decreases types,
{
    match types {
        Nil => {},
        Cons(_, _) => {
            alike_reflexive(types.head());
            all_alike_reflexive(types.rest());
        },
    }
}

/// Every type is alike itself.
pub proof fn alike_reflexive(ty: HirType)
    ensures
        alike(ty, ty),
    decreases ty,
{
    match ty {
        HirType::Struct { type_args, .. } => all_alike_reflexive(type_args),
        HirType::Enum { type_args, .. } => all_alike_reflexive(type_args),
        HirType::Tuple(elems) => all_alike_reflexive(elems),
        HirType::Dyn { bounds } => all_alike_reflexive(bounds),
        HirType::Lambda { params, .. } => {
            all_alike_reflexive(params);
            alike_reflexive(ty.part());
        },
        HirType::Ref { .. } => alike_reflexive(ty.part()),
        HirType::Nullable(_) => alike_reflexive(ty.part()),
        HirType::SafePointer { .. } => alike_reflexive(ty.part()),
        HirType::UnsafePointer { .. } => alike_reflexive(ty.part()),
        HirType::OwnedPointer { .. } => alike_reflexive(ty.part()),
        HirType::Array(_, _) => alike_reflexive(ty.part()),
        HirType::Slice(_) => alike_reflexive(ty.part()),
        _ => {},
    }
}

proof fn all_alike_symmetric(a: List<HirType>, b: List<HirType>)
    ensures
        all_alike(a, b) == all_alike(b, a),
    decreases a,
{
    match (a, b) {
        (Cons(_, _), Cons(_, _)) => {
            alike_symmetric(a.head(), b.head());
            all_alike_symmetric(a.rest(), b.rest());
        },
        _ => {},
    }
}

/// It does not matter which of two types is compared with the other.
pub proof fn alike_symmetric(a: HirType, b: HirType)
    ensures
        alike(a, b) == alike(b, a),
    decreases a,
{
    match (a, b) {
        (HirType::Struct { type_args: ta, .. }, HirType::Struct { type_args: tb, .. }) => {
            all_alike_symmetric(ta, tb);
        },
        (HirType::Enum { type_args: ta, .. }, HirType::Enum { type_args: tb, .. }) => {
            all_alike_symmetric(ta, tb);
        },
        (HirType::Tuple(ea), HirType::Tuple(eb)) => all_alike_symmetric(ea, eb),
        (HirType::Dyn { bounds: ba }, HirType::Dyn { bounds: bb }) => all_alike_symmetric(ba, bb),
        (HirType::Lambda { params: pa, .. }, HirType::Lambda { params: pb, .. }) => {
            all_alike_symmetric(pa, pb);
            alike_symmetric(a.part(), b.part());
        },
        (HirType::Ref { .. }, HirType::Ref { .. }) => alike_symmetric(a.part(), b.part()),
        (HirType::Nullable(_), HirType::Nullable(_)) => alike_symmetric(a.part(), b.part()),
        (HirType::SafePointer { .. }, HirType::SafePointer { .. }) => {
            alike_symmetric(a.part(), b.part());
        },
        (HirType::UnsafePointer { .. }, HirType::UnsafePointer { .. }) => {
            alike_symmetric(a.part(), b.part());
        },
        (HirType::OwnedPointer { .. }, HirType::OwnedPointer { .. }) => {
            alike_symmetric(a.part(), b.part());
        },
        (HirType::Array(_, _), HirType::Array(_, _)) => alike_symmetric(a.part(), b.part()),
        (HirType::Slice(_), HirType::Slice(_)) => alike_symmetric(a.part(), b.part()),
        _ => {},
    }
}

proof fn all_zeroable_deeper(context: TypeContext, types: List<HirType>, fuel: nat, more: nat)
    requires
        all_zeroable(context, types, fuel),
        fuel <= more,
    ensures
        all_zeroable(context, types, more),
    decreases fuel, types,
{
    match types {
        Nil => {},
        Cons(_, _) => {
            zeroable_deeper(context, types.head(), fuel, more);
            all_zeroable_deeper(context, types.rest(), fuel, more);
        },
    }
}

/// The parts of a struct.
pub open spec fn parts_of(context: TypeContext, name: StrId) -> List<HirType> {
    match lookup(context.structs, name) {
        Some(def) => types_of_fields(def.fields),
        None => Nil,
    }
}

/// A type that is found zeroable stays so however much deeper its structs are looked into.
pub proof fn zeroable_deeper(context: TypeContext, ty: HirType, fuel: nat, more: nat)
    requires
        zeroable(context, ty, fuel),
        fuel <= more,
    ensures
        zeroable(context, ty, more),
    decreases fuel, ty,
{
    match ty {
        HirType::Array(_, _) => zeroable_deeper(context, ty.part(), fuel, more),
        HirType::Tuple(elems) => all_zeroable_deeper(context, elems, fuel, more),
        HirType::Struct { name, .. } => {
            if lookup(context.structs, name) is Some {
                all_zeroable_deeper(
                    context,
                    parts_of(context, name),
                    (fuel - 1) as nat,
                    (more - 1) as nat,
                );
            }
        },
        _ => {},
    }
}

/// Where a reference comes from is no part of its type.
pub proof fn references_are_alike_wherever_they_point(
    inner: HirType,
    kind: RefKind,
    first: Option<ProvenanceAnnotation>,
    second: Option<ProvenanceAnnotation>,
)
    ensures
        alike(
            HirType::Ref { inner: Rc::new(inner), ref_kind: kind, provenance: first },
            HirType::Ref { inner: Rc::new(inner), ref_kind: kind, provenance: second },
        ),
{
    alike_reflexive(inner);
}

/// Whether no generic parameter is among what is compared of a type.
pub open spec fn settled_type(ty: HirType) -> bool
    decreases ty,
{
    match ty {
        HirType::Generic(_) => false,
        HirType::Nullable(inner) => settled_type(*inner),
        HirType::Array(inner, _) => settled_type(*inner),
        HirType::Slice(inner) => settled_type(*inner),
        HirType::SafePointer { inner, .. } => settled_type(*inner),
        HirType::UnsafePointer { inner, .. } => settled_type(*inner),
        HirType::OwnedPointer { inner, .. } => settled_type(*inner),
        HirType::Ref { inner, .. } => settled_type(*inner),
        HirType::Tuple(elems) => settled_types(elems),
        HirType::Struct { type_args, .. } => settled_types(type_args),
        HirType::Enum { type_args, .. } => settled_types(type_args),
        HirType::Dyn { bounds } => settled_types(bounds),
        HirType::Lambda { params, return_type } => settled_types(params) && settled_type(
            *return_type,
        ),
        _ => true,
    }
}

pub open spec fn settled_types(types: List<HirType>) -> bool
    decreases types,
{
    match types {
        Nil => true,
        Cons(ty, rest) => settled_type(*ty) && settled_types(*rest),
    }
}

/// The type without what is no part of its identity: where its references point, and what the fields
/// of its structs were found to be.
pub open spec fn identity(ty: HirType) -> HirType
    decreases ty,
{
    match ty {
        HirType::Nullable(inner) => HirType::Nullable(Rc::new(identity(*inner))),
        HirType::Array(inner, len) => HirType::Array(Rc::new(identity(*inner)), len),
        HirType::Slice(inner) => HirType::Slice(Rc::new(identity(*inner))),
        HirType::SafePointer { inner, mutability_state } => HirType::SafePointer {
            inner: Rc::new(identity(*inner)),
            mutability_state,
        },
        HirType::UnsafePointer { inner, mutability_state } => HirType::UnsafePointer {
            inner: Rc::new(identity(*inner)),
            mutability_state,
        },
        HirType::OwnedPointer { inner, allocator } => HirType::OwnedPointer {
            inner: Rc::new(identity(*inner)),
            allocator,
        },
        HirType::Ref { inner, ref_kind, .. } => HirType::Ref {
            inner: Rc::new(identity(*inner)),
            ref_kind,
            provenance: None,
        },
        HirType::Tuple(elems) => HirType::Tuple(identities(elems)),
        HirType::Struct { name, type_args, .. } => HirType::Struct {
            name,
            field_types: Nil,
            type_args: identities(type_args),
        },
        HirType::Enum { name, type_args } => HirType::Enum {
            name,
            type_args: identities(type_args),
        },
        HirType::Dyn { bounds } => HirType::Dyn { bounds: identities(bounds) },
        HirType::Lambda { params, return_type } => HirType::Lambda {
            params: identities(params),
            return_type: Rc::new(identity(*return_type)),
        },
        _ => ty,
    }
}

pub open spec fn identities(types: List<HirType>) -> List<HirType>
    decreases types,
{
    match types {
        Nil => Nil,
        Cons(ty, rest) => List::cons_of(identity(*ty), identities(*rest)),
    }
}

proof fn all_alike_are_identical(a: List<HirType>, b: List<HirType>)
    requires
        settled_types(a),
        settled_types(b),
    ensures
        all_alike(a, b) == (identities(a) == identities(b)),
    decreases a,
{
    match (a, b) {
        (Cons(_, _), Cons(_, _)) => {
            alike_types_are_identical(a.head(), b.head());
            all_alike_are_identical(a.rest(), b.rest());
            assert(identities(a) == List::cons_of(identity(a.head()), identities(a.rest())));
            assert(identities(b) == List::cons_of(identity(b.head()), identities(b.rest())));
        },
        _ => {},
    }
}

/// Types without generic parameters are the same to the checker exactly where they are equal but for
/// where references point and what the fields of structs were found to be.
pub proof fn alike_types_are_identical(a: HirType, b: HirType)
    requires
        settled_type(a),
        settled_type(b),
    ensures
        alike(a, b) == (identity(a) == identity(b)),
    decreases a,
{
    match (a, b) {
        (HirType::Struct { type_args: ta, .. }, HirType::Struct { type_args: tb, .. }) => {
            all_alike_are_identical(ta, tb);
        },
        (HirType::Enum { type_args: ta, .. }, HirType::Enum { type_args: tb, .. }) => {
            all_alike_are_identical(ta, tb);
        },
        (HirType::Tuple(ea), HirType::Tuple(eb)) => all_alike_are_identical(ea, eb),
        (HirType::Dyn { bounds: ba }, HirType::Dyn { bounds: bb }) => {
            all_alike_are_identical(ba, bb);
        },
        (HirType::Lambda { params: pa, .. }, HirType::Lambda { params: pb, .. }) => {
            all_alike_are_identical(pa, pb);
            alike_types_are_identical(a.part(), b.part());
        },
        (HirType::Ref { .. }, HirType::Ref { .. }) => {
            alike_types_are_identical(a.part(), b.part());
        },
        (HirType::Nullable(_), HirType::Nullable(_)) => {
            alike_types_are_identical(a.part(), b.part());
        },
        (HirType::SafePointer { .. }, HirType::SafePointer { .. }) => {
            alike_types_are_identical(a.part(), b.part());
        },
        (HirType::UnsafePointer { .. }, HirType::UnsafePointer { .. }) => {
            alike_types_are_identical(a.part(), b.part());
        },
        (HirType::OwnedPointer { .. }, HirType::OwnedPointer { .. }) => {
            alike_types_are_identical(a.part(), b.part());
        },
        (HirType::Array(_, _), HirType::Array(_, _)) => {
            alike_types_are_identical(a.part(), b.part());
        },
        (HirType::Slice(_), HirType::Slice(_)) => {
            alike_types_are_identical(a.part(), b.part());
        },
        _ => {},
    }
}

/// A generic parameter is the same to the checker as any type.
pub proof fn generics_stand_for_anything(name: StrId, ty: HirType)
    ensures
        alike(HirType::Generic(name), ty),
        alike(ty, HirType::Generic(name)),
{
}

/// Whether a type is neither unknown nor one that never has a value, and names no interface.
pub open spec fn definite(context: TypeContext, ty: HirType) -> bool {
    ty != HirType::Unknown && ty != HirType::Never && interface_of(context, stripped(ty)) is None
}

/// A value stands where its own type is expected; where its type, or the expected one, is unknown;
/// and anywhere if there never is one. Null stands for every nullable value. Otherwise definite types
/// without generic parameters must be equal, but for what is no part of their identity, unless both
/// are references of which one kind stands for the other.
pub proof fn values_stand_where_their_type_is_expected(
    checker: TypeChecker,
    expected: HirType,
    found: HirType,
)
    ensures
        checker.fits(expected, expected),
        checker.fits(expected, HirType::Never),
        checker.fits(expected, HirType::Unknown),
        checker.fits(HirType::Unknown, found),
        expected is Nullable ==> checker.fits(expected, HirType::Null),
        checker.compatibility(expected, found) is Ok <==> checker.fits(expected, found),
        checker.compatibility(expected, found) matches Err(error) ==> error.kind
            == (TypeErrorKind::TypeMismatch {
            expected: TypeText::Type(expected),
            found: TypeText::Type(found),
        }) && error.span == checker.diagnostics.current_span,
        definite(checker.context, expected) && definite(checker.context, found) && settled_type(
            expected,
        ) && settled_type(found) && !(expected is Ref && found is Ref) && !(expected is Nullable
            && found == HirType::Null) ==> (checker.fits(expected, found) <==> identity(expected)
            == identity(found)),
        expected is Ref && found is Ref && settled_type(expected) && settled_type(found) && definite(
            checker.context,
            expected,
        ) && definite(checker.context, found) ==> (checker.fits(expected, found) <==> identity(
            expected.part(),
        ) == identity(found.part()) && (expected->Ref_ref_kind == found->Ref_ref_kind
            || checker.program.facts.coercions.has(
            (found->Ref_ref_kind, expected->Ref_ref_kind),
        ))),
{
    alike_reflexive(expected);
    if settled_type(expected) && settled_type(found) {
        alike_types_are_identical(expected, found);
        if expected is Ref && found is Ref {
            alike_types_are_identical(expected.part(), found.part());
        }
    }
}

/// A struct stands where an interface is expected exactly where it implements it.
pub proof fn structs_stand_for_their_interfaces(
    checker: TypeChecker,
    interface: StrId,
    args: List<HirType>,
    name: StrId,
    field_types: List<HirType>,
    type_args: List<HirType>,
)
    ensures
        checker.fits(
            HirType::DynInterface(interface, args),
            HirType::Struct { name, field_types, type_args },
        ) <==> checker.context.implements(name, interface),
{
}

} // verus!
