//! Generic declarations and what their parameters stand for.

use std::rc::Rc;

use vstd::prelude::*;

use crate::hir::{
    dup_provenance, HirEnumVariant, HirField, HirGeneric, HirParam, HirType, StrId,
};
use crate::list::{find, has_key, lookup, update, updated, Cons, List, Nil, Table};
use crate::type_checker::TypeChecker;
use crate::type_context::TypeContext;
use crate::types::stripped;

verus! {

/// What each generic parameter stands for.
pub type Substitutions = Table<StrId, HirType>;

/// The type with its generic parameters replaced by what they stand for.
pub open spec fn substituted(ty: HirType, subs: Substitutions) -> HirType
    decreases ty,
{
    match ty {
        HirType::Generic(name) => match lookup(subs, name) {
            Some(actual) => actual,
            None => ty,
        },
        HirType::Nullable(inner) => HirType::Nullable(Rc::new(substituted(*inner, subs))),
        HirType::Array(inner, len) => HirType::Array(Rc::new(substituted(*inner, subs)), len),
        HirType::Slice(inner) => HirType::Slice(Rc::new(substituted(*inner, subs))),
        HirType::SafePointer { inner, mutability_state } => HirType::SafePointer {
            inner: Rc::new(substituted(*inner, subs)),
            mutability_state,
        },
        HirType::UnsafePointer { inner, mutability_state } => HirType::UnsafePointer {
            inner: Rc::new(substituted(*inner, subs)),
            mutability_state,
        },
        HirType::OwnedPointer { inner, allocator } => HirType::OwnedPointer {
            inner: Rc::new(substituted(*inner, subs)),
            allocator,
        },
        HirType::Ref { inner, ref_kind, provenance } => HirType::Ref {
            inner: Rc::new(substituted(*inner, subs)),
            ref_kind,
            provenance,
        },
        HirType::Tuple(elems) => HirType::Tuple(all_substituted(elems, subs)),
        HirType::Struct { name, field_types, type_args } => HirType::Struct {
            name,
            field_types: all_substituted(field_types, subs),
            type_args: all_substituted(type_args, subs),
        },
        HirType::Enum { name, type_args } => HirType::Enum {
            name,
            type_args: all_substituted(type_args, subs),
        },
        HirType::Dyn { bounds } => HirType::Dyn { bounds: all_substituted(bounds, subs) },
        HirType::Lambda { params, return_type } => HirType::Lambda {
            params: all_substituted(params, subs),
            return_type: Rc::new(substituted(*return_type, subs)),
        },
        _ => ty,
    }
}

pub open spec fn all_substituted(types: List<HirType>, subs: Substitutions) -> List<HirType>
    decreases types,
{
    match types {
        Nil => Nil,
        Cons(ty, rest) => List::cons_of(substituted(*ty, subs), all_substituted(*rest, subs)),
    }
}

/// Each parameter with the argument at its place, put on top of other substitutions.
pub open spec fn bound_onto(
    subs: Substitutions,
    generics: List<HirGeneric>,
    args: List<HirType>,
) -> Substitutions
    decreases generics,
{
    match (generics, args) {
        (Cons(generic, more), Cons(arg, rest)) => bound_onto(
            updated(subs, generic.name, *arg),
            *more,
            *rest,
        ),
        _ => subs,
    }
}

/// The arguments completed by the parameters' defaults, in which earlier parameters may occur.
/// There are none where an argument has neither a value nor a default, or has no parameter.
pub open spec fn completed(
    generics: List<HirGeneric>,
    args: List<HirType>,
    subs: Substitutions,
) -> Option<List<HirType>>
    decreases generics,
{
    match generics {
        Nil => if args is Nil {
            Some(Nil)
        } else {
            None
        },
        Cons(generic, more) => {
            let (value, rest) = match args {
                Cons(arg, rest) => (Some(*arg), *rest),
                Nil => match generic.default_type {
                    Some(default_type) => (Some(substituted(default_type, subs)), Nil),
                    None => (None, Nil),
                },
            };
            match value {
                None => None,
                Some(ty) => match completed(*more, rest, updated(subs, generic.name, ty)) {
                    Some(tail) => Some(List::cons_of(ty, tail)),
                    None => None,
                },
            }
        },
    }
}

pub open spec fn fields_substituted(fields: List<HirField>, subs: Substitutions) -> List<HirType>
    decreases fields,
{
    match fields {
        Nil => Nil,
        Cons(field, rest) => List::cons_of(
            substituted(field.field_type, subs),
            fields_substituted(*rest, subs),
        ),
    }
}

/// The field types of a generic struct with its parameters filled in.
pub open spec fn struct_fields(context: TypeContext, name: StrId, args: List<HirType>) -> Option<
    List<HirType>,
> {
    match lookup(context.structs, name) {
        None => None,
        Some(def) => match def.generics {
            None => None,
            Some(generics) => match completed(generics, args, Nil) {
                None => None,
                Some(full) => Some(
                    fields_substituted(def.fields, bound_onto(Nil, generics, full)),
                ),
            },
        },
    }
}

pub open spec fn variants_substituted(
    variants: List<HirEnumVariant>,
    subs: Substitutions,
) -> Table<StrId, List<HirType>>
    decreases variants,
{
    match variants {
        Nil => Nil,
        Cons(variant, rest) => List::cons_of(
            (variant.name, fields_substituted(variant.fields, subs)),
            variants_substituted(*rest, subs),
        ),
    }
}

/// The variants of a generic enum with its parameters filled in.
pub open spec fn enum_variants(context: TypeContext, name: StrId, args: List<HirType>) -> Option<
    Table<StrId, List<HirType>>,
> {
    match lookup(context.enums, name) {
        None => None,
        Some(def) => match def.generics {
            None => None,
            Some(generics) => if generics.count() != args.count() {
                None
            } else {
                Some(variants_substituted(def.variants, bound_onto(Nil, generics, args)))
            },
        },
    }
}

/// What the parameters in a declared type stand for, given the type that was found in its place.
/// What is already known is not changed.
pub open spec fn unified(declared: HirType, actual: HirType, subs: Substitutions) -> Substitutions
    decreases declared,
{
    match declared {
        HirType::Generic(name) => if has_key(subs, name) {
            subs
        } else {
            updated(subs, name, actual)
        },
        HirType::Nullable(inner) => match actual {
            HirType::Nullable(actual_inner) => unified(*inner, *actual_inner, subs),
            _ => subs,
        },
        HirType::Array(inner, _) => match actual {
            HirType::Array(actual_inner, _) => unified(*inner, *actual_inner, subs),
            _ => subs,
        },
        HirType::Slice(inner) => match actual {
            HirType::Slice(actual_inner) => unified(*inner, *actual_inner, subs),
            _ => subs,
        },
        HirType::Ref { inner, .. } => unified(*inner, stripped(actual), subs),
        _ => subs,
    }
}

pub open spec fn param_substituted(param: HirParam, subs: Substitutions) -> HirParam {
    match param {
        HirParam::Normal { name, param_type, multi_place, span } => HirParam::Normal {
            name,
            param_type: substituted(param_type, subs),
            multi_place,
            span,
        },
        HirParam::This { .. } => param,
    }
}

pub open spec fn params_substituted(params: List<HirParam>, subs: Substitutions) -> List<HirParam>
    decreases params,
{
    match params {
        Nil => Nil,
        Cons(param, rest) => List::cons_of(
            param_substituted(*param, subs),
            params_substituted(*rest, subs),
        ),
    }
}

pub open spec fn struct_substitutions(
    context: TypeContext,
    name: StrId,
    type_args: List<HirType>,
) -> Substitutions {
    match lookup(context.structs, name) {
        Some(def) => match def.generics {
            Some(generics) => bound_onto(Nil, generics, type_args),
            None => Nil,
        },
        None => Nil,
    }
}

pub fn bind_onto(subs: Substitutions, generics: &List<HirGeneric>, args: &List<HirType>) -> (result:
    Substitutions)
    ensures
        result == bound_onto(subs, *generics, *args),
    decreases generics,
{
    match (generics, args) {
        (Cons(generic, more), Cons(arg, rest)) => bind_onto(
            update(&subs, generic.name, arg.dup()),
            more,
            rest,
        ),
        _ => subs,
    }
}

pub fn dup_accesses(accesses: &Option<List<crate::hir::HirEffectAccess>>) -> (copy: Option<
    List<crate::hir::HirEffectAccess>,
>)
    ensures
        copy == *accesses,
{
    match accesses {
        Some(list) => Some(list.dup()),
        None => None,
    }
}

impl TypeChecker {
    pub fn substitute_type_local(&self, ty: &HirType, subs: &Substitutions) -> (result: HirType)
        ensures
            result == substituted(*ty, *subs),
        decreases ty,
    {
        match ty {
            HirType::Generic(name) => match find(subs, name) {
                Some(actual) => actual.dup(),
                None => ty.dup(),
            },
            HirType::Nullable(inner) => HirType::Nullable(
                Rc::new(self.substitute_type_local(inner, subs)),
            ),
            HirType::Array(inner, len) => HirType::Array(
                Rc::new(self.substitute_type_local(inner, subs)),
                *len,
            ),
            HirType::Slice(inner) => HirType::Slice(
                Rc::new(self.substitute_type_local(inner, subs)),
            ),
            HirType::SafePointer { inner, mutability_state } => HirType::SafePointer {
                inner: Rc::new(self.substitute_type_local(inner, subs)),
                mutability_state: *mutability_state,
            },
            HirType::UnsafePointer { inner, mutability_state } => HirType::UnsafePointer {
                inner: Rc::new(self.substitute_type_local(inner, subs)),
                mutability_state: *mutability_state,
            },
            HirType::OwnedPointer { inner, allocator } => HirType::OwnedPointer {
                inner: Rc::new(self.substitute_type_local(inner, subs)),
                allocator: dup_provenance(allocator),
            },
            HirType::Ref { inner, ref_kind, provenance } => HirType::Ref {
                inner: Rc::new(self.substitute_type_local(inner, subs)),
                ref_kind: *ref_kind,
                provenance: dup_provenance(provenance),
            },
            HirType::Tuple(elems) => HirType::Tuple(self.substitute_types(elems, subs)),
            HirType::Struct { name, field_types, type_args } => HirType::Struct {
                name: *name,
                field_types: self.substitute_types(field_types, subs),
                type_args: self.substitute_types(type_args, subs),
            },
            HirType::Enum { name, type_args } => HirType::Enum {
                name: *name,
                type_args: self.substitute_types(type_args, subs),
            },
            HirType::Dyn { bounds } => HirType::Dyn { bounds: self.substitute_types(bounds, subs) },
            HirType::Lambda { params, return_type } => HirType::Lambda {
                params: self.substitute_types(params, subs),
                return_type: Rc::new(self.substitute_type_local(return_type, subs)),
            },
            _ => ty.dup(),
        }
    }

    fn substitute_types(&self, types: &List<HirType>, subs: &Substitutions) -> (result: List<
        HirType,
    >)
        ensures
            result == all_substituted(*types, *subs),
        decreases types,
    {
        match types {
            Nil => Nil,
            Cons(ty, rest) => List::cons(
                self.substitute_type_local(ty, subs),
                self.substitute_types(rest, subs),
            ),
        }
    }

    fn substitute_fields(&self, fields: &List<HirField>, subs: &Substitutions) -> (result: List<
        HirType,
    >)
        ensures
            result == fields_substituted(*fields, *subs),
        decreases fields,
    {
        match fields {
            Nil => Nil,
            Cons(field, rest) => List::cons(
                self.substitute_type_local(&field.field_type, subs),
                self.substitute_fields(rest, subs),
            ),
        }
    }

    fn complete_args(
        &self,
        generics: &List<HirGeneric>,
        args: &List<HirType>,
        subs: &Substitutions,
    ) -> (full: Option<List<HirType>>)
        ensures
            full == completed(*generics, *args, *subs),
        decreases generics,
    {
        match generics {
            Nil => if args.is_empty() {
                Some(Nil)
            } else {
                None
            },
            Cons(generic, more) => {
                let (value, rest) = match args {
                    Cons(arg, rest) => (Some(arg.dup()), rest.dup()),
                    Nil => match &generic.default_type {
                        Some(default_type) => (
                            Some(self.substitute_type_local(default_type, subs)),
                            Nil,
                        ),
                        None => (None, Nil),
                    },
                };
                match value {
                    None => None,
                    Some(ty) => match self.complete_args(
                        more,
                        &rest,
                        &update(subs, generic.name, ty.dup()),
                    ) {
                        Some(tail) => Some(List::cons(ty, tail)),
                        None => None,
                    },
                }
            },
        }
    }

    pub fn instantiate_struct(&self, name: StrId, args: &List<HirType>) -> (fields: Option<
        List<HirType>,
    >)
        ensures
            fields == struct_fields(self.context, name, *args),
    {
        match self.context.get_struct(name) {
            None => None,
            Some(def) => match &def.generics {
                None => None,
                Some(generics) => match self.complete_args(generics, args, &Nil) {
                    None => None,
                    Some(full) => Some(
                        self.substitute_fields(&def.fields, &bind_onto(Nil, generics, &full)),
                    ),
                },
            },
        }
    }

    fn substitute_variants(&self, variants: &List<HirEnumVariant>, subs: &Substitutions) -> (result:
        Table<StrId, List<HirType>>)
        ensures
            result == variants_substituted(*variants, *subs),
        decreases variants,
    {
        match variants {
            Nil => Nil,
            Cons(variant, rest) => List::cons(
                (variant.name, self.substitute_fields(&variant.fields, subs)),
                self.substitute_variants(rest, subs),
            ),
        }
    }

    pub fn instantiate_enum(&self, name: StrId, args: &List<HirType>) -> (variants: Option<
        Table<StrId, List<HirType>>,
    >)
        ensures
            variants == enum_variants(self.context, name, *args),
    {
        match self.context.get_enum(name) {
            None => None,
            Some(def) => match &def.generics {
                None => None,
                Some(generics) => if generics.len() != args.len() {
                    None
                } else {
                    Some(
                        self.substitute_variants(&def.variants, &bind_onto(Nil, generics, args)),
                    )
                },
            },
        }
    }

    pub fn substitute_params_local(&self, params: &List<HirParam>, subs: &Substitutions) -> (result:
        List<HirParam>)
        ensures
            result == params_substituted(*params, *subs),
        decreases params,
    {
        match params {
            Nil => Nil,
            Cons(param, rest) => {
                let first = match &**param {
                    HirParam::Normal { name, param_type, multi_place, span } => HirParam::Normal {
                        name: *name,
                        param_type: self.substitute_type_local(param_type, subs),
                        multi_place: dup_accesses(multi_place),
                        span: *span,
                    },
                    HirParam::This { kind, span, multi_place } => HirParam::This {
                        kind: *kind,
                        span: *span,
                        multi_place: dup_accesses(multi_place),
                    },
                };
                List::cons(first, self.substitute_params_local(rest, subs))
            },
        }
    }

    pub fn unify_generic(&self, declared: &HirType, actual: &HirType, subs: Substitutions) -> (result:
        Substitutions)
        ensures
            result == unified(*declared, *actual, subs),
        decreases declared,
    {
        match declared {
            HirType::Generic(name) => if crate::list::contains_key(&subs, name) {
                subs
            } else {
                update(&subs, *name, actual.dup())
            },
            HirType::Nullable(inner) => match actual {
                HirType::Nullable(actual_inner) => self.unify_generic(inner, actual_inner, subs),
                _ => subs,
            },
            HirType::Array(inner, _) => match actual {
                HirType::Array(actual_inner, _) => self.unify_generic(inner, actual_inner, subs),
                _ => subs,
            },
            HirType::Slice(inner) => match actual {
                HirType::Slice(actual_inner) => self.unify_generic(inner, actual_inner, subs),
                _ => subs,
            },
            HirType::Ref { inner, .. } => self.unify_generic(inner, Self::strip_ref(actual), subs),
            _ => subs,
        }
    }

    pub fn generic_substitutions_for_struct(&self, struct_name: StrId, type_args: &List<HirType>) -> (subs:
        Substitutions)
        ensures
            subs == struct_substitutions(self.context, struct_name, *type_args),
    {
        match self.context.get_struct(struct_name) {
            Some(def) => match &def.generics {
                Some(generics) => bind_onto(Nil, generics, type_args),
                None => Nil,
            },
            None => Nil,
        }
    }
}

/// Whether a generic parameter occurs in a type.
pub open spec fn occurs(name: StrId, ty: HirType) -> bool
    decreases ty,
{
    match ty {
        HirType::Generic(generic) => generic == name,
        HirType::Nullable(inner) => occurs(name, *inner),
        HirType::Array(inner, _) => occurs(name, *inner),
        HirType::Slice(inner) => occurs(name, *inner),
        HirType::SafePointer { inner, .. } => occurs(name, *inner),
        HirType::UnsafePointer { inner, .. } => occurs(name, *inner),
        HirType::OwnedPointer { inner, .. } => occurs(name, *inner),
        HirType::Ref { inner, .. } => occurs(name, *inner),
        HirType::Tuple(elems) => occurs_among(name, elems),
        HirType::Struct { field_types, type_args, .. } => occurs_among(name, field_types)
            || occurs_among(name, type_args),
        HirType::Enum { type_args, .. } => occurs_among(name, type_args),
        HirType::Dyn { bounds } => occurs_among(name, bounds),
        HirType::Lambda { params, return_type } => occurs_among(name, params) || occurs(
            name,
            *return_type,
        ),
        _ => false,
    }
}

pub open spec fn occurs_among(name: StrId, types: List<HirType>) -> bool
    decreases types,
{
    match types {
        Nil => false,
        Cons(ty, rest) => occurs(name, *ty) || occurs_among(name, *rest),
    }
}

proof fn types_left_as_they_are(types: List<HirType>, subs: Substitutions)
    requires
        forall|name: StrId| #[trigger] has_key(subs, name) ==> !occurs_among(name, types),
    ensures
        all_substituted(types, subs) == types,
    decreases types,
{
    match types {
        Nil => {},
        Cons(_, _) => {
            type_left_as_it_is(types.head(), subs);
            types_left_as_they_are(types.rest(), subs);
        },
    }
}

/// A type in which no parameter that stands for something occurs is left as it is.
pub proof fn type_left_as_it_is(ty: HirType, subs: Substitutions)
    requires
        forall|name: StrId| #[trigger] has_key(subs, name) ==> !occurs(name, ty),
    ensures
        substituted(ty, subs) == ty,
    decreases ty,
{
    match ty {
        HirType::Generic(name) => {
            assert(!has_key(subs, name));
        },
        HirType::Struct { field_types, type_args, .. } => {
            types_left_as_they_are(field_types, subs);
            types_left_as_they_are(type_args, subs);
        },
        HirType::Enum { type_args, .. } => types_left_as_they_are(type_args, subs),
        HirType::Tuple(elems) => types_left_as_they_are(elems, subs),
        HirType::Dyn { bounds } => types_left_as_they_are(bounds, subs),
        HirType::Lambda { params, .. } => {
            types_left_as_they_are(params, subs);
            type_left_as_it_is(ty.part(), subs);
        },
        HirType::Ref { .. } => type_left_as_it_is(ty.part(), subs),
        HirType::Nullable(_) => type_left_as_it_is(ty.part(), subs),
        HirType::SafePointer { .. } => type_left_as_it_is(ty.part(), subs),
        HirType::UnsafePointer { .. } => type_left_as_it_is(ty.part(), subs),
        HirType::OwnedPointer { .. } => type_left_as_it_is(ty.part(), subs),
        HirType::Array(_, _) => type_left_as_it_is(ty.part(), subs),
        HirType::Slice(_) => type_left_as_it_is(ty.part(), subs),
        _ => {},
    }
}

/// Where no parameter stands for anything, a type is left as it is.
pub proof fn nothing_substituted(ty: HirType)
    ensures
        substituted(ty, Nil) == ty,
{
    type_left_as_it_is(ty, Nil);
}

/// Unification keeps what was known, whatever it is unified with.
pub proof fn unify_keeps_known(
    declared: HirType,
    actual: HirType,
    subs: Substitutions,
    name: StrId,
)
    requires
        has_key(subs, name),
    ensures
        lookup(unified(declared, actual, subs), name) == lookup(subs, name),
    decreases declared,
{
    match declared {
        HirType::Generic(generic) => {
            crate::list::update_then_lookup(subs, generic, actual, name);
        },
        HirType::Nullable(_) => if actual is Nullable {
            unify_keeps_known(declared.part(), actual.part(), subs, name);
        },
        HirType::Array(_, _) => if actual is Array {
            unify_keeps_known(declared.part(), actual.part(), subs, name);
        },
        HirType::Slice(_) => if actual is Slice {
            unify_keeps_known(declared.part(), actual.part(), subs, name);
        },
        HirType::Ref { .. } => {
            unify_keeps_known(declared.part(), stripped(actual), subs, name);
        },
        _ => {},
    }
}

/// Whether a parameter occurs in what some parameter of a type stands for.
pub open spec fn occurs_in_values(name: StrId, subs: Substitutions) -> bool
    decreases subs,
{
    match subs {
        Nil => false,
        Cons(entry, rest) => occurs(name, entry.1) || occurs_in_values(name, *rest),
    }
}

proof fn values_show_what_occurs(name: StrId, subs: Substitutions, key: StrId)
    requires
        !occurs_in_values(name, subs),
        has_key(subs, key),
    ensures
        !occurs(name, lookup(subs, key)->0),
    decreases subs,
{
    match subs {
        Nil => {},
        Cons(_, _) => if subs.head().0 != key {
            values_show_what_occurs(name, subs.rest(), key);
        },
    }
}

proof fn none_left_among(types: List<HirType>, subs: Substitutions, name: StrId)
    requires
        !occurs_in_values(name, subs),
    ensures
        occurs_among(name, all_substituted(types, subs)) == (occurs_among(name, types) && !has_key(
            subs,
            name,
        )),
    decreases types,
{
    match types {
        Nil => {},
        Cons(_, _) => {
            substituted_parameters_are_gone(types.head(), subs, name);
            none_left_among(types.rest(), subs, name);
        },
    }
}

/// After substitution no parameter that stands for something is left, wherever in the type it
/// occurred, and every other parameter is still there, unless what is put in brings it along.
pub proof fn substituted_parameters_are_gone(ty: HirType, subs: Substitutions, name: StrId)
    requires
        !occurs_in_values(name, subs),
    ensures
        occurs(name, substituted(ty, subs)) == (occurs(name, ty) && !has_key(subs, name)),
    decreases ty,
{
    match ty {
        HirType::Generic(generic) => if has_key(subs, generic) {
            values_show_what_occurs(name, subs, generic);
        },
        HirType::Struct { field_types, type_args, .. } => {
            none_left_among(field_types, subs, name);
            none_left_among(type_args, subs, name);
        },
        HirType::Enum { type_args, .. } => none_left_among(type_args, subs, name),
        HirType::Tuple(elems) => none_left_among(elems, subs, name),
        HirType::Dyn { bounds } => none_left_among(bounds, subs, name),
        HirType::Lambda { params, .. } => {
            none_left_among(params, subs, name);
            substituted_parameters_are_gone(ty.part(), subs, name);
        },
        HirType::Ref { .. } => substituted_parameters_are_gone(ty.part(), subs, name),
        HirType::Nullable(_) => substituted_parameters_are_gone(ty.part(), subs, name),
        HirType::SafePointer { .. } => substituted_parameters_are_gone(ty.part(), subs, name),
        HirType::UnsafePointer { .. } => substituted_parameters_are_gone(ty.part(), subs, name),
        HirType::OwnedPointer { .. } => substituted_parameters_are_gone(ty.part(), subs, name),
        HirType::Array(_, _) => substituted_parameters_are_gone(ty.part(), subs, name),
        HirType::Slice(_) => substituted_parameters_are_gone(ty.part(), subs, name),
        _ => {},
    }
}

proof fn arguments_come_along_among(
    types: List<HirType>,
    subs: Substitutions,
    generic: StrId,
    name: StrId,
)
    requires
        occurs_among(generic, types),
        has_key(subs, generic),
        occurs(name, lookup(subs, generic)->0),
    ensures
        occurs_among(name, all_substituted(types, subs)),
    decreases types,
{
    match types {
        Nil => {},
        Cons(_, _) => if occurs(generic, types.head()) {
            arguments_come_along(types.head(), subs, generic, name);
        } else {
            arguments_come_along_among(types.rest(), subs, generic, name);
        },
    }
}

/// What a parameter stands for is put in wherever the parameter occurs: a parameter of the argument
/// occurs in the result.
pub proof fn arguments_come_along(ty: HirType, subs: Substitutions, generic: StrId, name: StrId)
    requires
        occurs(generic, ty),
        has_key(subs, generic),
        occurs(name, lookup(subs, generic)->0),
    ensures
        occurs(name, substituted(ty, subs)),
    decreases ty,
{
    match ty {
        HirType::Struct { field_types, type_args, .. } => if occurs_among(generic, field_types) {
            arguments_come_along_among(field_types, subs, generic, name);
        } else {
            arguments_come_along_among(type_args, subs, generic, name);
        },
        HirType::Enum { type_args, .. } => {
            arguments_come_along_among(type_args, subs, generic, name);
        },
        HirType::Tuple(elems) => arguments_come_along_among(elems, subs, generic, name),
        HirType::Dyn { bounds } => arguments_come_along_among(bounds, subs, generic, name),
        HirType::Lambda { params, .. } => if occurs_among(generic, params) {
            arguments_come_along_among(params, subs, generic, name);
        } else {
            arguments_come_along(ty.part(), subs, generic, name);
        },
        HirType::Ref { .. } => arguments_come_along(ty.part(), subs, generic, name),
        HirType::Nullable(_) => arguments_come_along(ty.part(), subs, generic, name),
        HirType::SafePointer { .. } => arguments_come_along(ty.part(), subs, generic, name),
        HirType::UnsafePointer { .. } => arguments_come_along(ty.part(), subs, generic, name),
        HirType::OwnedPointer { .. } => arguments_come_along(ty.part(), subs, generic, name),
        HirType::Array(_, _) => arguments_come_along(ty.part(), subs, generic, name),
        HirType::Slice(_) => arguments_come_along(ty.part(), subs, generic, name),
        _ => {},
    }
}

/// One parameter standing for another.
pub open spec fn renaming(from: StrId, to: StrId) -> Substitutions {
    List::one_of((from, HirType::Generic(to)))
}

proof fn renaming_among_is_undone(types: List<HirType>, name: StrId, fresh: StrId)
    requires
        !occurs_among(fresh, types),
    ensures
        all_substituted(all_substituted(types, renaming(name, fresh)), renaming(fresh, name))
            == types,
    decreases types,
{
    match types {
        Nil => {},
        Cons(_, _) => {
            renaming_is_undone(types.head(), name, fresh);
            renaming_among_is_undone(types.rest(), name, fresh);
        },
    }
}

/// A parameter that is renamed to a new one, and back, gives the type as it was: substitution changes
/// nothing in a type but its parameters.
pub proof fn renaming_is_undone(ty: HirType, name: StrId, fresh: StrId)
    requires
        !occurs(fresh, ty),
    ensures
        substituted(substituted(ty, renaming(name, fresh)), renaming(fresh, name)) == ty,
    decreases ty,
{
    reveal_with_fuel(lookup, 2);
    match ty {
        HirType::Struct { field_types, type_args, .. } => {
            renaming_among_is_undone(field_types, name, fresh);
            renaming_among_is_undone(type_args, name, fresh);
        },
        HirType::Enum { type_args, .. } => renaming_among_is_undone(type_args, name, fresh),
        HirType::Tuple(elems) => renaming_among_is_undone(elems, name, fresh),
        HirType::Dyn { bounds } => renaming_among_is_undone(bounds, name, fresh),
        HirType::Lambda { params, .. } => {
            renaming_among_is_undone(params, name, fresh);
            renaming_is_undone(ty.part(), name, fresh);
        },
        HirType::Ref { .. } => renaming_is_undone(ty.part(), name, fresh),
        HirType::Nullable(_) => renaming_is_undone(ty.part(), name, fresh),
        HirType::SafePointer { .. } => renaming_is_undone(ty.part(), name, fresh),
        HirType::UnsafePointer { .. } => renaming_is_undone(ty.part(), name, fresh),
        HirType::OwnedPointer { .. } => renaming_is_undone(ty.part(), name, fresh),
        HirType::Array(_, _) => renaming_is_undone(ty.part(), name, fresh),
        HirType::Slice(_) => renaming_is_undone(ty.part(), name, fresh),
        _ => {},
    }
}

/// A parameter becomes what it stands for. If it stands for nothing, it stays.
pub proof fn parameters_become_their_arguments(name: StrId, subs: Substitutions)
    ensures
        match lookup(subs, name) {
            Some(actual) => substituted(HirType::Generic(name), subs) == actual,
            None => substituted(HirType::Generic(name), subs) == HirType::Generic(name),
        },
{
}

} // verus!
