//! Patterns: what they may be matched against, what they bind, and whether they cover everything.

use std::rc::Rc;

use vstd::prelude::*;

use crate::borrow::Place;
use crate::errors::{Message, TypeErrorKind, TypeText};
use crate::hir::{
    dup_provenance, field_index, field_named, find_field, find_variant, position_of_field,
    variant_named, ExprKind, HirEnumVariant, HirExpr, HirField, HirMatchArm, HirPattern, HirType,
    ProvenanceAnnotation, ProvenancePathSegment, RefKind, StrId,
};
use crate::initialization::BindingMode;
use crate::list::{
    add_member, find, has_key, lookup, share, update, updated, with_member, Cons, List, Nil, Table,
};
use crate::program::Facts;
use crate::ref_provenance::projected;
use crate::type_checker::{errors_of, this_name, LoanTables, TypeChecker};
use crate::type_context::{SymbolId, TypeContext};
use crate::types::{alike, integer};

verus! {

/// The names that a pattern binds, and the types of what they are bound to.
pub type Bindings = List<(StrId, HirType)>;

pub open spec fn mentions_field(fields: List<(StrId, HirPattern)>, name: StrId) -> bool
    decreases fields,
{
    match fields {
        Nil => false,
        Cons(field, rest) => field.0 == name || mentions_field(*rest, name),
    }
}

fn has_field_pattern(fields: &List<(StrId, HirPattern)>, name: StrId) -> (found: bool)
    ensures
        found == mentions_field(*fields, name),
    decreases fields,
{
    match fields {
        Nil => false,
        Cons(field, rest) => field.0 == name || has_field_pattern(rest, name),
    }
}

/// The names of the declared fields that a pattern leaves out.
pub open spec fn unmatched_fields(declared: List<HirField>, fields: List<(StrId, HirPattern)>) -> List<
    StrId,
>
    decreases declared,
{
    match declared {
        Nil => Nil,
        Cons(field, rest) => if mentions_field(fields, field.name) {
            unmatched_fields(*rest, fields)
        } else {
            List::cons_of(field.name, unmatched_fields(*rest, fields))
        },
    }
}

fn find_unmatched_fields(declared: &List<HirField>, fields: &List<(StrId, HirPattern)>) -> (names: List<
    StrId,
>)
    ensures
        names == unmatched_fields(*declared, *fields),
    decreases declared,
{
    match declared {
        Nil => Nil,
        Cons(field, rest) => if has_field_pattern(fields, field.name) {
            find_unmatched_fields(rest, fields)
        } else {
            List::cons(field.name, find_unmatched_fields(rest, fields))
        },
    }
}

/// The variants of an enum that is in scope.
pub open spec fn variants_of(context: TypeContext, enum_name: StrId) -> List<HirEnumVariant> {
    match lookup(context.enums, enum_name) {
        Some(def) => def.variants,
        None => Nil,
    }
}

/// The variant of an enum that is in scope.
pub open spec fn variant_of(context: TypeContext, enum_name: StrId, variant: StrId) -> Option<
    HirEnumVariant,
> {
    match lookup(context.enums, enum_name) {
        Some(def) => variant_named(def.variants, variant),
        None => None,
    }
}

/// The type of a field of a struct type: the one the type carries, or else the declared one.
pub open spec fn struct_field_type(
    context: TypeContext,
    struct_name: StrId,
    field_types: List<HirType>,
    field: StrId,
) -> Option<HirType> {
    match lookup(context.structs, struct_name) {
        Some(def) => match field_index(def.fields, field) {
            Some(index) => match field_types.nth(index) {
                Some(ty) => Some(ty),
                None => match def.fields.nth(index) {
                    Some(declared) => Some(declared.field_type),
                    None => None,
                },
            },
            None => None,
        },
        None => None,
    }
}

pub open spec fn with_variant_bindings(
    names: List<StrId>,
    fields: List<HirField>,
    out: Bindings,
) -> Bindings
    decreases names,
{
    match (names, fields) {
        (Cons(name, more), Cons(field, rest)) => with_variant_bindings(
            *more,
            *rest,
            out.snoc((*name, field.field_type)),
        ),
        _ => out,
    }
}

/// What a pattern binds, behind what is bound already.
pub open spec fn with_bindings(
    context: TypeContext,
    pattern: HirPattern,
    ty: HirType,
    out: Bindings,
) -> Bindings
    decreases pattern, ty,
{
    if ty is Nullable && !(pattern is Null) {
        with_bindings(context, pattern, *ty->Nullable_0, out)
    } else {
        match pattern {
            HirPattern::Ident(name) => out.snoc((name, ty)),
            HirPattern::EnumVariant { variant, bindings } => match ty {
                HirType::Enum { name, .. } => match variant_of(context, name, variant) {
                    Some(def) => with_variant_bindings(bindings, def.fields, out),
                    None => out,
                },
                _ => out,
            },
            HirPattern::Tuple(patterns) => match ty {
                HirType::Tuple(elems) => with_tuple_bindings(context, patterns, elems, out),
                _ => out,
            },
            HirPattern::Array(patterns) => match ty {
                HirType::Array(elem, _) => with_all_bindings(context, patterns, *elem, out),
                HirType::Slice(elem) => with_all_bindings(context, patterns, *elem, out),
                _ => out,
            },
            HirPattern::Struct { name, fields } => match ty {
                HirType::Enum { name: enum_name, .. } => match variant_of(
                    context,
                    enum_name,
                    name,
                ) {
                    Some(def) => with_field_bindings(context, fields, def.fields, out),
                    None => out,
                },
                HirType::Struct { name: struct_name, field_types, .. } => with_member_bindings(
                    context,
                    fields,
                    struct_name,
                    field_types,
                    out,
                ),
                _ => out,
            },
            HirPattern::Or(patterns) => match patterns {
                Cons(first, _) => with_bindings(context, *first, ty, out),
                Nil => out,
            },
            _ => out,
        }
    }
}

pub open spec fn with_tuple_bindings(
    context: TypeContext,
    patterns: List<HirPattern>,
    elems: List<HirType>,
    out: Bindings,
) -> Bindings
    decreases patterns, elems,
{
    match (patterns, elems) {
        (Cons(pattern, more), Cons(elem, rest)) => with_tuple_bindings(
            context,
            *more,
            *rest,
            with_bindings(context, *pattern, *elem, out),
        ),
        _ => out,
    }
}

pub open spec fn with_all_bindings(
    context: TypeContext,
    patterns: List<HirPattern>,
    elem: HirType,
    out: Bindings,
) -> Bindings
    decreases patterns, elem,
{
    match patterns {
        Nil => out,
        Cons(pattern, rest) => with_all_bindings(
            context,
            *rest,
            elem,
            with_bindings(context, *pattern, elem, out),
        ),
    }
}

/// What the patterns for the fields of a variant bind.
pub open spec fn with_field_bindings(
    context: TypeContext,
    fields: List<(StrId, HirPattern)>,
    declared: List<HirField>,
    out: Bindings,
) -> Bindings
    decreases fields, HirType::Unknown,
{
    match fields {
        Nil => out,
        Cons(field, rest) => with_field_bindings(
            context,
            *rest,
            declared,
            match field_named(declared, field.0) {
                Some(def) => with_bindings(context, field.1, def.field_type, out),
                None => out,
            },
        ),
    }
}

/// What the patterns for the fields of a struct bind.
pub open spec fn with_member_bindings(
    context: TypeContext,
    fields: List<(StrId, HirPattern)>,
    struct_name: StrId,
    field_types: List<HirType>,
    out: Bindings,
) -> Bindings
    decreases fields, HirType::Unknown,
{
    match fields {
        Nil => out,
        Cons(field, rest) => with_member_bindings(
            context,
            *rest,
            struct_name,
            field_types,
            match struct_field_type(context, struct_name, field_types, field.0) {
                Some(ty) => with_bindings(context, field.1, ty, out),
                None => out,
            },
        ),
    }
}

/// A binding put behind those whose names do not come later in the alphabet.
pub open spec fn binding_placed(facts: Facts, bindings: Bindings, binding: (StrId, HirType)) -> Bindings
    decreases bindings,
{
    match bindings {
        Nil => List::one_of(binding),
        Cons(head, rest) => if facts.rank(head.0) <= facts.rank(binding.0) {
            Cons(head, Rc::new(binding_placed(facts, *rest, binding)))
        } else {
            List::cons_of(binding, bindings)
        },
    }
}

/// Bindings in the order of their names.
pub open spec fn by_name(facts: Facts, bindings: Bindings, sorted: Bindings) -> Bindings
    decreases bindings,
{
    match bindings {
        Nil => sorted,
        Cons(binding, rest) => by_name(facts, *rest, binding_placed(facts, sorted, *binding)),
    }
}

/// Whether two alternatives bind the same names to the same types.
pub open spec fn bind_alike(a: Bindings, b: Bindings) -> bool
    decreases a,
{
    match (a, b) {
        (Nil, Nil) => true,
        (Cons(left, more), Cons(right, rest)) => left.0 == right.0 && alike(left.1, right.1)
            && bind_alike(*more, *rest),
        _ => false,
    }
}

pub open spec fn names_of(bindings: Bindings) -> List<StrId>
    decreases bindings,
{
    match bindings {
        Nil => Nil,
        Cons(binding, rest) => List::cons_of(binding.0, names_of(*rest)),
    }
}

/// Whether an arm takes everything that reaches it.
pub open spec fn catches_all(arm: HirMatchArm) -> bool {
    arm.guard is None && (arm.pattern is Wildcard || arm.pattern is Ident)
}

pub open spec fn any_catches_all(arms: List<HirMatchArm>) -> bool
    decreases arms,
{
    match arms {
        Nil => false,
        Cons(arm, rest) => catches_all(*arm) || any_catches_all(*rest),
    }
}

pub open spec fn any_takes_null(arms: List<HirMatchArm>) -> bool
    decreases arms,
{
    match arms {
        Nil => false,
        Cons(arm, rest) => (arm.guard is None && arm.pattern is Null) || any_takes_null(*rest),
    }
}

pub open spec fn any_takes_bool(arms: List<HirMatchArm>, value: bool) -> bool
    decreases arms,
{
    match arms {
        Nil => false,
        Cons(arm, rest) => (arm.guard is None && arm.pattern == HirPattern::Boolean(value))
            || any_takes_bool(*rest, value),
    }
}

/// Whether an arm without a guard takes a variant.
pub open spec fn any_takes_variant(arms: List<HirMatchArm>, variant: StrId) -> bool
    decreases arms,
{
    match arms {
        Nil => false,
        Cons(arm, rest) => (arm.guard is None && match arm.pattern {
            HirPattern::EnumVariant { variant: name, .. } => name == variant,
            HirPattern::Struct { name, .. } => name == variant,
            _ => false,
        }) || any_takes_variant(*rest, variant),
    }
}

pub open spec fn untaken_variants(variants: List<HirEnumVariant>, arms: List<HirMatchArm>) -> List<
    StrId,
>
    decreases variants,
{
    match variants {
        Nil => Nil,
        Cons(variant, rest) => if any_takes_variant(arms, variant.name) {
            untaken_variants(*rest, arms)
        } else {
            List::cons_of(variant.name, untaken_variants(*rest, arms))
        },
    }
}

/// What is missing from the arms of a match on a type, if anything is.
pub open spec fn missing_arms(context: TypeContext, ty: HirType, arms: List<HirMatchArm>) -> Option<
    Message,
> {
    if ty is Unknown || any_catches_all(arms) {
        None
    } else {
        match ty {
            HirType::Nullable(_) => if any_takes_null(arms) {
                None
            } else {
                Some(Message::MissingNullArm { ty })
            },
            HirType::Enum { name, .. } => match lookup(context.enums, name) {
                Some(def) => {
                    let names = untaken_variants(def.variants, arms);
                    if names is Nil {
                        None
                    } else {
                        Some(Message::MissingVariants { enum_name: name, names })
                    }
                },
                None => None,
            },
            HirType::Boolean => if any_takes_bool(arms, true) && any_takes_bool(arms, false) {
                None
            } else {
                Some(Message::NonExhaustiveBool)
            },
            _ => if integer(ty) || ty is String || ty is Char {
                Some(Message::NeedsCatchAll { ty })
            } else {
                None
            },
        }
    }
}

fn is_catch_all(arms: &List<HirMatchArm>) -> (found: bool)
    ensures
        found == any_catches_all(*arms),
    decreases arms,
{
    match arms {
        Nil => false,
        Cons(arm, rest) => (arm.guard.is_none() && matches!(
            arm.pattern,
            HirPattern::Wildcard | HirPattern::Ident(_)
        )) || is_catch_all(rest),
    }
}

fn takes_null(arms: &List<HirMatchArm>) -> (found: bool)
    ensures
        found == any_takes_null(*arms),
    decreases arms,
{
    match arms {
        Nil => false,
        Cons(arm, rest) => (arm.guard.is_none() && matches!(arm.pattern, HirPattern::Null))
            || takes_null(rest),
    }
}

fn takes_bool(arms: &List<HirMatchArm>, value: bool) -> (found: bool)
    ensures
        found == any_takes_bool(*arms, value),
    decreases arms,
{
    match arms {
        Nil => false,
        Cons(arm, rest) => (arm.guard.is_none() && match &arm.pattern {
            HirPattern::Boolean(taken) => *taken == value,
            _ => false,
        }) || takes_bool(rest, value),
    }
}

fn takes_variant(arms: &List<HirMatchArm>, variant: StrId) -> (found: bool)
    ensures
        found == any_takes_variant(*arms, variant),
    decreases arms,
{
    match arms {
        Nil => false,
        Cons(arm, rest) => (arm.guard.is_none() && match &arm.pattern {
            HirPattern::EnumVariant { variant: name, .. } => *name == variant,
            HirPattern::Struct { name, .. } => *name == variant,
            _ => false,
        }) || takes_variant(rest, variant),
    }
}

fn find_untaken_variants(variants: &List<HirEnumVariant>, arms: &List<HirMatchArm>) -> (names: List<
    StrId,
>)
    ensures
        names == untaken_variants(*variants, *arms),
    decreases variants,
{
    match variants {
        Nil => Nil,
        Cons(variant, rest) => if takes_variant(arms, variant.name) {
            find_untaken_variants(rest, arms)
        } else {
            List::cons(variant.name, find_untaken_variants(rest, arms))
        },
    }
}

fn variant_bindings(names: &List<StrId>, fields: &List<HirField>, out: Bindings) -> (result: Bindings)
    ensures
        result == with_variant_bindings(*names, *fields, out),
    decreases names,
{
    match (names, fields) {
        (Cons(name, more), Cons(field, rest)) => variant_bindings(
            more,
            rest,
            out.push((**name, field.field_type.dup())),
        ),
        _ => out,
    }
}

fn place_binding(facts: &Facts, bindings: &Bindings, binding: (StrId, HirType)) -> (result: Bindings)
    ensures
        result == binding_placed(*facts, *bindings, binding),
    decreases bindings,
{
    match bindings {
        Nil => List::one(binding),
        Cons(head, rest) => if facts.name_rank(head.0) <= facts.name_rank(binding.0) {
            Cons(share(head), Rc::new(place_binding(facts, rest, binding)))
        } else {
            List::cons(binding, bindings.dup())
        },
    }
}

fn sort_by_name(facts: &Facts, bindings: &Bindings, sorted: Bindings) -> (result: Bindings)
    ensures
        result == by_name(*facts, *bindings, sorted),
    decreases bindings,
{
    match bindings {
        Nil => sorted,
        Cons(binding, rest) => sort_by_name(
            facts,
            rest,
            place_binding(facts, &sorted, (binding.0, binding.1.dup())),
        ),
    }
}

/// Bindings in the order of the ranks of their names.
pub open spec fn in_order(facts: Facts, bindings: Seq<(StrId, HirType)>) -> bool {
    forall|i: int, j: int|
        0 <= i < j < bindings.len() ==> facts.rank(#[trigger] bindings[i].0) <= facts.rank(
            #[trigger] bindings[j].0,
        )
}

proof fn placing_inserts(facts: Facts, bindings: Bindings, binding: (StrId, HirType)) -> (at: int)
    ensures
        0 <= at <= bindings.seq().len(),
        binding_placed(facts, bindings, binding).seq() == bindings.seq().insert(at, binding),
        forall|i: int|
            0 <= i < at ==> facts.rank(#[trigger] bindings.seq()[i].0) <= facts.rank(binding.0),
        at < bindings.seq().len() ==> facts.rank(binding.0) < facts.rank(bindings.seq()[at].0),
    decreases bindings,
{
    let placed = binding_placed(facts, bindings, binding);
    match bindings {
        Nil => {
            reveal_with_fuel(List::seq, 2);
            assert(placed.seq() == bindings.seq().insert(0, binding));
            0
        },
        Cons(head, rest) => {
            if facts.rank(bindings.head().0) <= facts.rank(binding.0) {
                let at = placing_inserts(facts, bindings.rest(), binding);
                let tail = bindings.rest().seq();
                assert(bindings.seq() == seq![bindings.head()] + tail);
                assert(placed.seq() == seq![bindings.head()] + tail.insert(at, binding));
                assert(placed.seq() == bindings.seq().insert(at + 1, binding));
                assert forall|i: int| 0 <= i < at + 1 implies facts.rank(
                    #[trigger] bindings.seq()[i].0,
                ) <= facts.rank(binding.0) by {
                    if i > 0 {
                        assert(bindings.seq()[i] == tail[i - 1]);
                    }
                }
                at + 1
            } else {
                assert(placed.seq() == seq![binding] + bindings.seq());
                assert(placed.seq() == bindings.seq().insert(0, binding));
                0
            }
        },
    }
}

/// Sorting bindings by name changes none of them, and puts them in order.
pub proof fn sorting_puts_in_order(facts: Facts, bindings: Bindings, sorted: Bindings)
    requires
        in_order(facts, sorted.seq()),
    ensures
        in_order(facts, by_name(facts, bindings, sorted).seq()),
        by_name(facts, bindings, sorted).seq().to_multiset() == sorted.seq().to_multiset().add(
            bindings.seq().to_multiset(),
        ),
    decreases bindings,
{
    broadcast use vstd::seq_lib::group_to_multiset_ensures;

    match bindings {
        Nil => {
            assert(bindings.seq().to_multiset() == vstd::multiset::Multiset::<
                (StrId, HirType),
            >::empty());
            assert(sorted.seq().to_multiset() == sorted.seq().to_multiset().add(
                bindings.seq().to_multiset(),
            ));
        },
        Cons(_, _) => {
            let binding = bindings.head();
            let at = placing_inserts(facts, sorted, binding);
            let placed = binding_placed(facts, sorted, binding);
            assert(in_order(facts, placed.seq()));
            vstd::seq_lib::to_multiset_insert(sorted.seq(), at, binding);
            sorting_puts_in_order(facts, bindings.rest(), placed);
            assert(bindings.seq() == bindings.rest().seq().insert(0, binding));
            vstd::seq_lib::to_multiset_insert(bindings.rest().seq(), 0, binding);
            assert(placed.seq().to_multiset().add(bindings.rest().seq().to_multiset())
                == sorted.seq().to_multiset().add(bindings.seq().to_multiset()));
        },
    }
}

fn binding_names(bindings: &Bindings) -> (names: List<StrId>)
    ensures
        names == names_of(*bindings),
    decreases bindings,
{
    match bindings {
        Nil => Nil,
        Cons(binding, rest) => List::cons(binding.0, binding_names(rest)),
    }
}

/// The type of a name that a pattern binds.
pub open spec fn bound_type(
    ty: HirType,
    mode: BindingMode,
    provenance: Option<ProvenanceAnnotation>,
) -> HirType {
    match mode {
        BindingMode::ByValue => ty,
        BindingMode::ByRef(ref_kind) => HirType::Ref { inner: Rc::new(ty), ref_kind, provenance },
    }
}

fn find_variant_def(context: &TypeContext, enum_name: StrId, variant: StrId) -> (found: Option<
    HirEnumVariant,
>)
    ensures
        found == variant_of(*context, enum_name, variant),
{
    match context.get_enum(enum_name) {
        Some(def) => match find_variant(&def.variants, variant) {
            Some(found) => Some(HirEnumVariant { name: found.name, fields: found.fields.dup() }),
            None => None,
        },
        None => None,
    }
}

fn find_struct_field_type(
    context: &TypeContext,
    struct_name: StrId,
    field_types: &List<HirType>,
    field: StrId,
) -> (ty: Option<HirType>)
    ensures
        ty == struct_field_type(*context, struct_name, *field_types, field),
{
    match context.get_struct(struct_name) {
        Some(def) => match position_of_field(&def.fields, field) {
            Some(index) => match field_types.get(index) {
                Some(ty) => Some(ty.dup()),
                None => match def.fields.get(index) {
                    Some(declared) => Some(declared.field_type.dup()),
                    None => None,
                },
            },
            None => None,
        },
        None => None,
    }
}

impl TypeChecker {
    /// The checker after an error about a value where a type is expected.
    pub open spec fn mismatched(self, expected: TypeText, found: TypeText) -> TypeChecker {
        self.recorded(TypeErrorKind::TypeMismatch { expected, found })
    }

    /// The checker after a pattern is held against the type of what it is matched with.
    #[verifier::opaque]
    pub open spec fn pattern_checked(self, pattern: HirPattern, ty: HirType) -> TypeChecker
        decreases pattern, ty,
    {
        if ty is Nullable && !(pattern is Null) {
            self.pattern_checked(pattern, *ty->Nullable_0)
        } else {
            match pattern {
                HirPattern::Null => if ty is Nullable {
                    self
                } else {
                    self.mismatched(TypeText::Type(ty), TypeText::Null)
                },
                HirPattern::EnumVariant { variant, bindings } => match ty {
                    HirType::Enum { name, .. } => self.variant_pattern_checked(
                        name,
                        variant,
                        bindings.count(),
                    ),
                    _ => self,
                },
                HirPattern::Boolean(_) => if ty is Boolean {
                    self
                } else {
                    self.mismatched(TypeText::Type(ty), TypeText::Bool)
                },
                HirPattern::Number(_) => if integer(ty) {
                    self
                } else {
                    self.mismatched(TypeText::Type(ty), TypeText::Integer)
                },
                HirPattern::String(_) => if ty is String {
                    self
                } else {
                    self.mismatched(TypeText::Type(ty), TypeText::Str)
                },
                HirPattern::Ident(_) => self,
                HirPattern::Wildcard => self,
                HirPattern::Tuple(patterns) => match ty {
                    HirType::Tuple(elems) => {
                        let counted = if patterns.count() == elems.count() {
                            self
                        } else {
                            self.said(
                                Message::TuplePatternLength {
                                    pattern: patterns.count(),
                                    elems: elems.count(),
                                },
                            )
                        };
                        counted.tuple_patterns_checked(patterns, elems)
                    },
                    _ => self.mismatched(
                        TypeText::Type(ty),
                        TypeText::TuplePattern(patterns.count()),
                    ),
                },
                HirPattern::Array(patterns) => match ty {
                    HirType::Array(elem, len) => {
                        let counted = if patterns.count() == len {
                            self
                        } else {
                            self.said(
                                Message::ArrayPatternLength { pattern: patterns.count(), ty, len },
                            )
                        };
                        counted.patterns_checked(patterns, *elem)
                    },
                    HirType::Slice(elem) => self.patterns_checked(patterns, *elem),
                    _ => self.mismatched(
                        TypeText::Type(ty),
                        TypeText::ArrayPattern(patterns.count()),
                    ),
                },
                HirPattern::Struct { name, fields } => match ty {
                    HirType::Enum { name: enum_name, .. } => {
                        match lookup(self.context.enums, enum_name) {
                            None => self,
                            Some(def) => match variant_named(def.variants, name) {
                                None => self.said(
                                    Message::NoSuchVariant { enum_name, variant: name },
                                ),
                                Some(variant) => self.variant_fields_checked(
                                    fields,
                                    Nil,
                                    enum_name,
                                    variant,
                                ).unmatched_reported(enum_name, variant, fields),
                            },
                        }
                    },
                    HirType::Struct { name: struct_name, field_types, .. } => {
                        if has_key(self.context.structs, struct_name) {
                            self.struct_fields_checked(fields, Nil, struct_name, field_types)
                        } else {
                            self
                        }
                    },
                    _ => self.mismatched(TypeText::Type(ty), TypeText::NamedFieldPattern(name)),
                },
                HirPattern::Or(patterns) => match patterns {
                    Nil => self.said(Message::EmptyOrPattern),
                    Cons(first, rest) => {
                        let checked = self.patterns_checked(patterns, ty);
                        checked.alternatives_checked(*rest, ty, checked.alternative(*first, ty))
                    },
                },
            }
        }
    }

    pub open spec fn variant_pattern_checked(self, enum_name: StrId, variant: StrId, bound: usize) -> TypeChecker {
        match lookup(self.context.enums, enum_name) {
            None => self,
            Some(def) => match variant_named(def.variants, variant) {
                None => self.said(Message::NoSuchVariant { enum_name, variant }),
                Some(found) => if found.fields.count() == bound {
                    self
                } else {
                    self.said(
                        Message::VariantFieldCount {
                            enum_name,
                            variant,
                            fields: found.fields.count(),
                            bound,
                        },
                    )
                },
            },
        }
    }

    pub open spec fn tuple_patterns_checked(self, patterns: List<HirPattern>, elems: List<HirType>) -> TypeChecker
        decreases patterns, elems,
    {
        match (patterns, elems) {
            (Cons(pattern, more), Cons(elem, rest)) => self.pattern_checked(
                *pattern,
                *elem,
            ).tuple_patterns_checked(*more, *rest),
            _ => self,
        }
    }

    pub open spec fn patterns_checked(self, patterns: List<HirPattern>, ty: HirType) -> TypeChecker
        decreases patterns, ty,
    {
        match patterns {
            Nil => self,
            Cons(pattern, rest) => self.pattern_checked(*pattern, ty).patterns_checked(*rest, ty),
        }
    }

    pub open spec fn variant_fields_checked(
        self,
        fields: List<(StrId, HirPattern)>,
        seen: List<StrId>,
        enum_name: StrId,
        variant: HirEnumVariant,
    ) -> TypeChecker
        decreases fields, HirType::Unknown,
    {
        match fields {
            Nil => self,
            Cons(field, rest) => {
                let next = if seen.has(field.0) {
                    self.said(Message::FieldMatchedTwice { field: field.0 })
                } else {
                    match field_named(variant.fields, field.0) {
                        None => self.said(
                            Message::NoVariantField {
                                enum_name,
                                variant: variant.name,
                                field: field.0,
                            },
                        ),
                        Some(def) => self.pattern_checked(field.1, def.field_type),
                    }
                };
                next.variant_fields_checked(*rest, with_member(seen, field.0), enum_name, variant)
            },
        }
    }

    pub open spec fn unmatched_reported(
        self,
        enum_name: StrId,
        variant: HirEnumVariant,
        fields: List<(StrId, HirPattern)>,
    ) -> TypeChecker {
        let names = unmatched_fields(variant.fields, fields);
        if names is Nil {
            self
        } else {
            self.said(Message::MissingVariantFields { names, enum_name, variant: variant.name })
        }
    }

    pub open spec fn struct_fields_checked(
        self,
        fields: List<(StrId, HirPattern)>,
        seen: List<StrId>,
        struct_name: StrId,
        field_types: List<HirType>,
    ) -> TypeChecker
        decreases fields, HirType::Unknown,
    {
        match fields {
            Nil => self,
            Cons(field, rest) => {
                let next = if seen.has(field.0) {
                    self.said(Message::FieldMatchedTwice { field: field.0 })
                } else {
                    match struct_field_type(self.context, struct_name, field_types, field.0) {
                        None => self.recorded(
                            TypeErrorKind::FieldNotFound { struct_name, field: field.0 },
                        ),
                        Some(ty) => self.pattern_checked(field.1, ty),
                    }
                };
                next.struct_fields_checked(
                    *rest,
                    with_member(seen, field.0),
                    struct_name,
                    field_types,
                )
            },
        }
    }

    /// What an alternative binds, in the order of the names.
    pub open spec fn alternative(self, pattern: HirPattern, ty: HirType) -> Bindings {
        by_name(self.program.facts, with_bindings(self.context, pattern, ty, Nil), Nil)
    }

    /// The checker after the alternatives behind the first are held against it.
    pub open spec fn alternatives_checked(
        self,
        patterns: List<HirPattern>,
        ty: HirType,
        expected: Bindings,
    ) -> TypeChecker
        decreases patterns,
    {
        match patterns {
            Nil => self,
            Cons(pattern, rest) => {
                let found = self.alternative(*pattern, ty);
                let next = if bind_alike(expected, found) {
                    self
                } else {
                    self.said(
                        Message::OrPatternBindings {
                            expected: names_of(expected),
                            found: names_of(found),
                        },
                    )
                };
                next.alternatives_checked(*rest, ty, expected)
            },
        }
    }

    pub fn collect_pattern_bindings(&self, pattern: &HirPattern, ty: &HirType, out: Bindings) -> (result:
        Bindings)
        ensures
            result == with_bindings(self.context, *pattern, *ty, out),
        decreases pattern, ty,
    {
        match ty {
            HirType::Nullable(inner) => {
                if !matches!(pattern, HirPattern::Null) {
                    return self.collect_pattern_bindings(pattern, inner, out);
                }
            },
            _ => {},
        }
        match pattern {
            HirPattern::Ident(name) => out.push((*name, ty.dup())),
            HirPattern::EnumVariant { variant, bindings } => match ty {
                HirType::Enum { name, .. } => {
                    match find_variant_def(&self.context, *name, *variant) {
                        Some(def) => variant_bindings(bindings, &def.fields, out),
                        None => out,
                    }
                },
                _ => out,
            },
            HirPattern::Tuple(patterns) => match ty {
                HirType::Tuple(elems) => self.collect_tuple_bindings(patterns, elems, out),
                _ => out,
            },
            HirPattern::Array(patterns) => match ty {
                HirType::Array(elem, _) => self.collect_all_bindings(patterns, elem, out),
                HirType::Slice(elem) => self.collect_all_bindings(patterns, elem, out),
                _ => out,
            },
            HirPattern::Struct { name, fields } => match ty {
                HirType::Enum { name: enum_name, .. } => {
                    match find_variant_def(&self.context, *enum_name, *name) {
                        Some(def) => self.collect_field_bindings(fields, &def.fields, out),
                        None => out,
                    }
                },
                HirType::Struct { name: struct_name, field_types, .. } => {
                    self.collect_member_bindings(fields, *struct_name, field_types, out)
                },
                _ => out,
            },
            HirPattern::Or(patterns) => match patterns {
                Cons(first, _) => self.collect_pattern_bindings(first, ty, out),
                Nil => out,
            },
            _ => out,
        }
    }

    fn collect_tuple_bindings(
        &self,
        patterns: &List<HirPattern>,
        elems: &List<HirType>,
        out: Bindings,
    ) -> (result: Bindings)
        ensures
            result == with_tuple_bindings(self.context, *patterns, *elems, out),
        decreases patterns, elems,
    {
        match (patterns, elems) {
            (Cons(pattern, more), Cons(elem, rest)) => {
                let next = self.collect_pattern_bindings(pattern, elem, out);
                self.collect_tuple_bindings(more, rest, next)
            },
            _ => out,
        }
    }

    fn collect_all_bindings(&self, patterns: &List<HirPattern>, elem: &HirType, out: Bindings) -> (result:
        Bindings)
        ensures
            result == with_all_bindings(self.context, *patterns, *elem, out),
        decreases patterns, elem,
    {
        match patterns {
            Nil => out,
            Cons(pattern, rest) => {
                let next = self.collect_pattern_bindings(pattern, elem, out);
                self.collect_all_bindings(rest, elem, next)
            },
        }
    }

    fn collect_field_bindings(
        &self,
        fields: &List<(StrId, HirPattern)>,
        declared: &List<HirField>,
        out: Bindings,
    ) -> (result: Bindings)
        ensures
            result == with_field_bindings(self.context, *fields, *declared, out),
        decreases fields, HirType::Unknown,
    {
        match fields {
            Nil => out,
            Cons(field, rest) => {
                let next = match find_field(declared, field.0) {
                    Some(def) => self.collect_pattern_bindings(&field.1, &def.field_type, out),
                    None => out,
                };
                self.collect_field_bindings(rest, declared, next)
            },
        }
    }

    fn collect_member_bindings(
        &self,
        fields: &List<(StrId, HirPattern)>,
        struct_name: StrId,
        field_types: &List<HirType>,
        out: Bindings,
    ) -> (result: Bindings)
        ensures
            result == with_member_bindings(self.context, *fields, struct_name, *field_types, out),
        decreases fields, HirType::Unknown,
    {
        match fields {
            Nil => out,
            Cons(field, rest) => {
                let next = match find_struct_field_type(
                    &self.context,
                    struct_name,
                    field_types,
                    field.0,
                ) {
                    Some(ty) => self.collect_pattern_bindings(&field.1, &ty, out),
                    None => out,
                };
                self.collect_member_bindings(rest, struct_name, field_types, next)
            },
        }
    }

    pub fn bindings_match(&self, a: &Bindings, b: &Bindings) -> (matching: bool)
        ensures
            matching == bind_alike(*a, *b),
        decreases a,
    {
        match (a, b) {
            (Nil, Nil) => true,
            (Cons(left, more), Cons(right, rest)) => left.0 == right.0
                && self.types_structurally_equal(&left.1, &right.1) && self.bindings_match(
                more,
                rest,
            ),
            _ => false,
        }
    }

    fn sorted_bindings(&self, pattern: &HirPattern, ty: &HirType) -> (bindings: Bindings)
        ensures
            bindings == self.alternative(*pattern, *ty),
    {
        sort_by_name(
            &self.program.facts,
            &self.collect_pattern_bindings(pattern, ty, Nil),
            Nil,
        )
    }

    fn check_alternatives(&mut self, patterns: &List<HirPattern>, ty: &HirType, expected: &Bindings)
        ensures
            *final(self) == old(self).alternatives_checked(*patterns, *ty, *expected),
            final(self).settled_in_scope(*old(self)),
        decreases patterns,
    {
        match patterns {
            Nil => {},
            Cons(pattern, rest) => {
                let found = self.sorted_bindings(pattern, ty);
                if !self.bindings_match(expected, &found) {
                    self.say(
                        Message::OrPatternBindings {
                            expected: binding_names(expected),
                            found: binding_names(&found),
                        },
                    );
                }
                self.check_alternatives(rest, ty, expected);
            },
        }
    }

    fn mismatch(&mut self, expected: &HirType, found: TypeText)
        ensures
            *final(self) == old(self).mismatched(TypeText::Type(*expected), found),
            final(self).settled_in_scope(*old(self)),
    {
        self.record(
            TypeErrorKind::TypeMismatch { expected: TypeText::Type(expected.dup()), found },
        );
    }

    fn check_variant_pattern(&mut self, enum_name: StrId, variant: StrId, bound: usize)
        ensures
            *final(self) == old(self).variant_pattern_checked(enum_name, variant, bound),
            final(self).settled_in_scope(*old(self)),
    {
        match self.context.get_enum(enum_name) {
            None => {},
            Some(def) => match find_variant(&def.variants, variant) {
                None => self.say(Message::NoSuchVariant { enum_name, variant }),
                Some(found) => {
                    let fields: usize = found.fields.len();
                    if fields != bound {
                        self.say(Message::VariantFieldCount { enum_name, variant, fields, bound });
                    }
                },
            },
        }
    }

    fn report_unmatched(
        &mut self,
        enum_name: StrId,
        variant: &HirEnumVariant,
        fields: &List<(StrId, HirPattern)>,
    )
        ensures
            *final(self) == old(self).unmatched_reported(enum_name, *variant, *fields),
            final(self).settled_in_scope(*old(self)),
    {
        let names = find_unmatched_fields(&variant.fields, fields);
        if !names.is_empty() {
            self.say(Message::MissingVariantFields { names, enum_name, variant: variant.name });
        }
    }

    pub fn check_pattern_against_type(&mut self, pattern: &HirPattern, ty: &HirType)
        ensures
            *final(self) == old(self).pattern_checked(*pattern, *ty),
            final(self).settled_in_scope(*old(self)),
        decreases pattern, ty,
    {
        proof {
            reveal(TypeChecker::pattern_checked);
        }
        match ty {
            HirType::Nullable(inner) => {
                if !matches!(pattern, HirPattern::Null) {
                    self.check_pattern_against_type(pattern, inner);
                    return;
                }
            },
            _ => {},
        }
        match pattern {
            HirPattern::Null => {
                if !matches!(ty, HirType::Nullable(_)) {
                    self.mismatch(ty, TypeText::Null);
                }
            },
            HirPattern::EnumVariant { variant, bindings } => match ty {
                HirType::Enum { name, .. } => {
                    self.check_variant_pattern(*name, *variant, bindings.len());
                },
                _ => {},
            },
            HirPattern::Boolean(_) => {
                if !matches!(ty, HirType::Boolean) {
                    self.mismatch(ty, TypeText::Bool);
                }
            },
            HirPattern::Number(_) => {
                if !self.is_integer(ty) {
                    self.mismatch(ty, TypeText::Integer);
                }
            },
            HirPattern::String(_) => {
                if !matches!(ty, HirType::String) {
                    self.mismatch(ty, TypeText::Str);
                }
            },
            HirPattern::Ident(_) => {},
            HirPattern::Wildcard => {},
            HirPattern::Tuple(patterns) => match ty {
                HirType::Tuple(elems) => {
                    let pattern_len: usize = patterns.len();
                    let elems_len: usize = elems.len();
                    if pattern_len != elems_len {
                        self.say(
                            Message::TuplePatternLength { pattern: pattern_len, elems: elems_len },
                        );
                    }
                    self.check_tuple_patterns(patterns, elems);
                },
                _ => self.mismatch(ty, TypeText::TuplePattern(patterns.len())),
            },
            HirPattern::Array(patterns) => match ty {
                HirType::Array(elem, len) => {
                    let pattern_len: usize = patterns.len();
                    if pattern_len != *len {
                        self.say(
                            Message::ArrayPatternLength {
                                pattern: pattern_len,
                                ty: ty.dup(),
                                len: *len,
                            },
                        );
                    }
                    self.check_patterns(patterns, elem);
                },
                HirType::Slice(elem) => self.check_patterns(patterns, elem),
                _ => self.mismatch(ty, TypeText::ArrayPattern(patterns.len())),
            },
            HirPattern::Struct { name, fields } => match ty {
                HirType::Enum { name: enum_name, .. } => match self.context.get_enum(*enum_name) {
                    None => {},
                    Some(def) => match find_variant(&def.variants, *name) {
                        None => self.say(
                            Message::NoSuchVariant { enum_name: *enum_name, variant: *name },
                        ),
                        Some(variant) => {
                            self.check_variant_fields(fields, Nil, *enum_name, variant);
                            self.report_unmatched(*enum_name, variant, fields);
                        },
                    },
                },
                HirType::Struct { name: struct_name, field_types, .. } => {
                    if self.context.get_struct(*struct_name).is_some() {
                        self.check_struct_fields(fields, Nil, *struct_name, field_types);
                    }
                },
                _ => self.mismatch(ty, TypeText::NamedFieldPattern(*name)),
            },
            HirPattern::Or(patterns) => match patterns {
                Nil => self.say(Message::EmptyOrPattern),
                Cons(first, rest) => {
                    self.check_patterns(patterns, ty);
                    let expected = self.sorted_bindings(first, ty);
                    self.check_alternatives(rest, ty, &expected);
                },
            },
        }
    }

    fn check_tuple_patterns(&mut self, patterns: &List<HirPattern>, elems: &List<HirType>)
        ensures
            *final(self) == old(self).tuple_patterns_checked(*patterns, *elems),
            final(self).settled_in_scope(*old(self)),
        decreases patterns, elems,
    {
        proof {
            reveal(TypeChecker::pattern_checked);
        }
        match (patterns, elems) {
            (Cons(pattern, more), Cons(elem, rest)) => {
                self.check_pattern_against_type(pattern, elem);
                self.check_tuple_patterns(more, rest);
            },
            _ => {},
        }
    }

    fn check_patterns(&mut self, patterns: &List<HirPattern>, ty: &HirType)
        ensures
            *final(self) == old(self).patterns_checked(*patterns, *ty),
            final(self).settled_in_scope(*old(self)),
        decreases patterns, ty,
    {
        proof {
            reveal(TypeChecker::pattern_checked);
        }
        match patterns {
            Nil => {},
            Cons(pattern, rest) => {
                self.check_pattern_against_type(pattern, ty);
                self.check_patterns(rest, ty);
            },
        }
    }

    fn check_variant_fields(
        &mut self,
        fields: &List<(StrId, HirPattern)>,
        seen: List<StrId>,
        enum_name: StrId,
        variant: &HirEnumVariant,
    )
        ensures
            *final(self) == old(self).variant_fields_checked(*fields, seen, enum_name, *variant),
            final(self).settled_in_scope(*old(self)),
        decreases fields, HirType::Unknown,
    {
        proof {
            reveal(TypeChecker::pattern_checked);
        }
        match fields {
            Nil => {},
            Cons(field, rest) => {
                if seen.contains(&field.0) {
                    self.say(Message::FieldMatchedTwice { field: field.0 });
                } else {
                    match find_field(&variant.fields, field.0) {
                        None => self.say(
                            Message::NoVariantField {
                                enum_name,
                                variant: variant.name,
                                field: field.0,
                            },
                        ),
                        Some(def) => self.check_pattern_against_type(&field.1, &def.field_type),
                    }
                }
                self.check_variant_fields(rest, add_member(&seen, field.0), enum_name, variant);
            },
        }
    }

    fn check_struct_fields(
        &mut self,
        fields: &List<(StrId, HirPattern)>,
        seen: List<StrId>,
        struct_name: StrId,
        field_types: &List<HirType>,
    )
        ensures
            *final(self) == old(self).struct_fields_checked(
                *fields,
                seen,
                struct_name,
                *field_types,
            ),
            final(self).settled_in_scope(*old(self)),
        decreases fields, HirType::Unknown,
    {
        proof {
            reveal(TypeChecker::pattern_checked);
        }
        match fields {
            Nil => {},
            Cons(field, rest) => {
                if seen.contains(&field.0) {
                    self.say(Message::FieldMatchedTwice { field: field.0 });
                } else {
                    match find_struct_field_type(
                        &self.context,
                        struct_name,
                        field_types,
                        field.0,
                    ) {
                        None => self.record(
                            TypeErrorKind::FieldNotFound { struct_name, field: field.0 },
                        ),
                        Some(ty) => self.check_pattern_against_type(&field.1, &ty),
                    }
                }
                self.check_struct_fields(
                    rest,
                    add_member(&seen, field.0),
                    struct_name,
                    field_types,
                );
            },
        }
    }

    /// The checker with a variable for a name that a pattern binds.
    pub open spec fn pattern_variable(self, name: StrId, ty: HirType) -> TypeChecker {
        let (minted, symbol) = self.minted();
        let reported = if has_key(minted.context.variables, name) {
            minted.recorded(TypeErrorKind::VariableAlreadyExists { var_name: name })
        } else {
            minted
        };
        TypeChecker { context: reported.context.with_variable(name, ty, symbol), ..reported }
    }

    pub fn add_pattern_variable(&mut self, name: StrId, ty: HirType)
        ensures
            *final(self) == old(self).pattern_variable(name, ty),
            final(self).settled(*old(self)),
    {
        let symbol = self.mint_symbol_id();
        if self.context.is_local_binding(name) {
            self.record(TypeErrorKind::VariableAlreadyExists { var_name: name });
        }
        self.context.add_variable(name, ty, symbol);
    }

    /// The checker after a name is bound to the whole of what is matched.
    pub open spec fn name_bound(
        self,
        name: StrId,
        ty: HirType,
        mode: BindingMode,
        provenance: Option<ProvenanceAnnotation>,
        place: Option<Place>,
    ) -> TypeChecker {
        let declared = self.pattern_variable(name, bound_type(ty, mode, provenance)).declared_local(
            name,
        );
        match mode {
            BindingMode::ByValue => declared,
            BindingMode::ByRef(kind) => {
                let known = TypeChecker {
                    loans: LoanTables {
                        ref_kinds: updated(declared.loans.ref_kinds, name, kind),
                        ..declared.loans
                    },
                    ..declared
                };
                match place {
                    None => known,
                    Some(source) => {
                        let (made, loan) = known.remembered(name, source).borrowed(
                            source,
                            kind,
                            provenance,
                        );
                        made.owned(loan, name)
                    },
                }
            },
        }
    }

    fn bind_name(
        &mut self,
        name: StrId,
        ty: &HirType,
        mode: BindingMode,
        provenance: &Option<ProvenanceAnnotation>,
        place: &Option<Place>,
    )
        ensures
            *final(self) == old(self).name_bound(name, *ty, mode, *provenance, *place),
            final(self).settled(*old(self)),
    {
        let bound = self.bind_leaf_type(ty, mode, provenance);
        self.add_pattern_variable(name, bound);
        self.declare_local(name);
        match mode {
            BindingMode::ByValue => {},
            BindingMode::ByRef(kind) => {
                self.loans.ref_kinds = update(&self.loans.ref_kinds, name, kind);
                match place {
                    None => {},
                    Some(source) => {
                        self.remember_place(name, source.dup());
                        let loan: usize = self.borrow_place(
                            source.dup(),
                            kind,
                            dup_provenance(provenance),
                        );
                        self.give_loan(loan, name);
                    },
                }
            },
        }
    }

    pub open spec fn variant_bound(
        self,
        names: List<StrId>,
        fields: List<HirField>,
        mode: BindingMode,
        provenance: Option<ProvenanceAnnotation>,
    ) -> TypeChecker
        decreases names,
    {
        match (names, fields) {
            (Cons(name, more), Cons(field, rest)) => self.pattern_variable(
                *name,
                bound_type(
                    field.field_type,
                    mode,
                    projected(provenance, ProvenancePathSegment::Field(field.name)),
                ),
            ).variant_bound(*more, *rest, mode, provenance),
            _ => self,
        }
    }

    fn bind_variant(
        &mut self,
        names: &List<StrId>,
        fields: &List<HirField>,
        mode: BindingMode,
        provenance: &Option<ProvenanceAnnotation>,
    )
        ensures
            *final(self) == old(self).variant_bound(*names, *fields, mode, *provenance),
            final(self).settled(*old(self)),
        decreases names,
    {
        match (names, fields) {
            (Cons(name, more), Cons(field, rest)) => {
                let field_provenance = Self::extend_provenance(provenance, field.name);
                let bound = self.bind_leaf_type(&field.field_type, mode, &field_provenance);
                self.add_pattern_variable(**name, bound);
                self.bind_variant(more, rest, mode, provenance);
            },
            _ => {},
        }
    }

    /// The checker after the names of a pattern are bound.
    #[verifier::opaque]
    pub open spec fn pattern_bound(
        self,
        pattern: HirPattern,
        ty: HirType,
        mode: BindingMode,
        provenance: Option<ProvenanceAnnotation>,
        place: Option<Place>,
    ) -> TypeChecker
        decreases pattern, ty,
    {
        if ty is Nullable && !(pattern is Null) {
            self.pattern_bound(pattern, *ty->Nullable_0, mode, provenance, place)
        } else {
            match pattern {
                HirPattern::Ident(name) => self.name_bound(name, ty, mode, provenance, place),
                HirPattern::EnumVariant { variant, bindings } => match ty {
                    HirType::Enum { name, .. } => match variant_of(self.context, name, variant) {
                        Some(def) => self.variant_bound(bindings, def.fields, mode, provenance),
                        None => self,
                    },
                    _ => self,
                },
                HirPattern::Tuple(patterns) => match ty {
                    HirType::Tuple(elems) => self.tuple_bound(
                        patterns,
                        elems,
                        mode,
                        provenance,
                        place,
                    ),
                    _ => self,
                },
                HirPattern::Array(patterns) => match ty {
                    HirType::Array(elem, _) => self.all_bound(
                        patterns,
                        *elem,
                        mode,
                        provenance,
                        place,
                    ),
                    HirType::Slice(elem) => self.all_bound(
                        patterns,
                        *elem,
                        mode,
                        provenance,
                        place,
                    ),
                    _ => self,
                },
                HirPattern::Struct { name, fields } => match ty {
                    HirType::Enum { name: enum_name, .. } => match variant_of(
                        self.context,
                        enum_name,
                        name,
                    ) {
                        Some(def) => self.fields_bound(
                            fields,
                            def.fields,
                            mode,
                            provenance,
                            place,
                        ),
                        None => self,
                    },
                    HirType::Struct { name: struct_name, field_types, .. } => self.members_bound(
                        fields,
                        struct_name,
                        field_types,
                        mode,
                        provenance,
                        place,
                    ),
                    _ => self,
                },
                HirPattern::Or(patterns) => match patterns {
                    Cons(first, _) => self.pattern_bound(*first, ty, mode, provenance, place),
                    Nil => self,
                },
                _ => self,
            }
        }
    }

    pub open spec fn tuple_bound(
        self,
        patterns: List<HirPattern>,
        elems: List<HirType>,
        mode: BindingMode,
        provenance: Option<ProvenanceAnnotation>,
        place: Option<Place>,
    ) -> TypeChecker
        decreases patterns, elems,
    {
        match (patterns, elems) {
            (Cons(pattern, more), Cons(elem, rest)) => self.pattern_bound(
                *pattern,
                *elem,
                mode,
                provenance,
                place,
            ).tuple_bound(*more, *rest, mode, provenance, place),
            _ => self,
        }
    }

    pub open spec fn all_bound(
        self,
        patterns: List<HirPattern>,
        elem: HirType,
        mode: BindingMode,
        provenance: Option<ProvenanceAnnotation>,
        place: Option<Place>,
    ) -> TypeChecker
        decreases patterns, elem,
    {
        match patterns {
            Nil => self,
            Cons(pattern, rest) => self.pattern_bound(
                *pattern,
                elem,
                mode,
                provenance,
                place,
            ).all_bound(*rest, elem, mode, provenance, place),
        }
    }

    pub open spec fn fields_bound(
        self,
        fields: List<(StrId, HirPattern)>,
        declared: List<HirField>,
        mode: BindingMode,
        provenance: Option<ProvenanceAnnotation>,
        place: Option<Place>,
    ) -> TypeChecker
        decreases fields, HirType::Unknown,
    {
        match fields {
            Nil => self,
            Cons(field, rest) => {
                let next = match field_named(declared, field.0) {
                    Some(def) => self.pattern_bound(
                        field.1,
                        def.field_type,
                        mode,
                        projected(provenance, ProvenancePathSegment::Field(field.0)),
                        place,
                    ),
                    None => self,
                };
                next.fields_bound(*rest, declared, mode, provenance, place)
            },
        }
    }

    pub open spec fn members_bound(
        self,
        fields: List<(StrId, HirPattern)>,
        struct_name: StrId,
        field_types: List<HirType>,
        mode: BindingMode,
        provenance: Option<ProvenanceAnnotation>,
        place: Option<Place>,
    ) -> TypeChecker
        decreases fields, HirType::Unknown,
    {
        match fields {
            Nil => self,
            Cons(field, rest) => {
                let next = match struct_field_type(
                    self.context,
                    struct_name,
                    field_types,
                    field.0,
                ) {
                    Some(ty) => self.pattern_bound(
                        field.1,
                        ty,
                        mode,
                        projected(provenance, ProvenancePathSegment::Field(field.0)),
                        place,
                    ),
                    None => self,
                };
                next.members_bound(*rest, struct_name, field_types, mode, provenance, place)
            },
        }
    }

    pub fn register_pattern_bindings(
        &mut self,
        pattern: &HirPattern,
        ty: &HirType,
        mode: BindingMode,
        provenance: &Option<ProvenanceAnnotation>,
        place: &Option<Place>,
    )
        ensures
            *final(self) == old(self).pattern_bound(*pattern, *ty, mode, *provenance, *place),
            final(self).settled(*old(self)),
        decreases pattern, ty,
    {
        proof {
            reveal(TypeChecker::pattern_bound);
        }
        match ty {
            HirType::Nullable(inner) => {
                if !matches!(pattern, HirPattern::Null) {
                    self.register_pattern_bindings(pattern, inner, mode, provenance, place);
                    return;
                }
            },
            _ => {},
        }
        match pattern {
            HirPattern::Ident(name) => self.bind_name(*name, ty, mode, provenance, place),
            HirPattern::EnumVariant { variant, bindings } => match ty {
                HirType::Enum { name, .. } => {
                    match find_variant_def(&self.context, *name, *variant) {
                        Some(def) => self.bind_variant(bindings, &def.fields, mode, provenance),
                        None => {},
                    }
                },
                _ => {},
            },
            HirPattern::Tuple(patterns) => match ty {
                HirType::Tuple(elems) => {
                    self.bind_tuple(patterns, elems, mode, provenance, place);
                },
                _ => {},
            },
            HirPattern::Array(patterns) => match ty {
                HirType::Array(elem, _) => self.bind_all(patterns, elem, mode, provenance, place),
                HirType::Slice(elem) => self.bind_all(patterns, elem, mode, provenance, place),
                _ => {},
            },
            HirPattern::Struct { name, fields } => match ty {
                HirType::Enum { name: enum_name, .. } => {
                    match find_variant_def(&self.context, *enum_name, *name) {
                        Some(def) => {
                            self.bind_fields(fields, &def.fields, mode, provenance, place);
                        },
                        None => {},
                    }
                },
                HirType::Struct { name: struct_name, field_types, .. } => {
                    self.bind_members(fields, *struct_name, field_types, mode, provenance, place);
                },
                _ => {},
            },
            HirPattern::Or(patterns) => match patterns {
                Cons(first, _) => {
                    self.register_pattern_bindings(first, ty, mode, provenance, place);
                },
                Nil => {},
            },
            _ => {},
        }
    }

    fn bind_tuple(
        &mut self,
        patterns: &List<HirPattern>,
        elems: &List<HirType>,
        mode: BindingMode,
        provenance: &Option<ProvenanceAnnotation>,
        place: &Option<Place>,
    )
        ensures
            *final(self) == old(self).tuple_bound(*patterns, *elems, mode, *provenance, *place),
            final(self).settled(*old(self)),
        decreases patterns, elems,
    {
        proof {
            reveal(TypeChecker::pattern_bound);
        }
        match (patterns, elems) {
            (Cons(pattern, more), Cons(elem, rest)) => {
                self.register_pattern_bindings(pattern, elem, mode, provenance, place);
                self.bind_tuple(more, rest, mode, provenance, place);
            },
            _ => {},
        }
    }

    fn bind_all(
        &mut self,
        patterns: &List<HirPattern>,
        elem: &HirType,
        mode: BindingMode,
        provenance: &Option<ProvenanceAnnotation>,
        place: &Option<Place>,
    )
        ensures
            *final(self) == old(self).all_bound(*patterns, *elem, mode, *provenance, *place),
            final(self).settled(*old(self)),
        decreases patterns, elem,
    {
        proof {
            reveal(TypeChecker::pattern_bound);
        }
        match patterns {
            Nil => {},
            Cons(pattern, rest) => {
                self.register_pattern_bindings(pattern, elem, mode, provenance, place);
                self.bind_all(rest, elem, mode, provenance, place);
            },
        }
    }

    fn bind_fields(
        &mut self,
        fields: &List<(StrId, HirPattern)>,
        declared: &List<HirField>,
        mode: BindingMode,
        provenance: &Option<ProvenanceAnnotation>,
        place: &Option<Place>,
    )
        ensures
            *final(self) == old(self).fields_bound(*fields, *declared, mode, *provenance, *place),
            final(self).settled(*old(self)),
        decreases fields, HirType::Unknown,
    {
        proof {
            reveal(TypeChecker::pattern_bound);
        }
        match fields {
            Nil => {},
            Cons(field, rest) => {
                match find_field(declared, field.0) {
                    Some(def) => {
                        let field_provenance = Self::extend_provenance(provenance, field.0);
                        self.register_pattern_bindings(
                            &field.1,
                            &def.field_type,
                            mode,
                            &field_provenance,
                            place,
                        );
                    },
                    None => {},
                }
                self.bind_fields(rest, declared, mode, provenance, place);
            },
        }
    }

    fn bind_members(
        &mut self,
        fields: &List<(StrId, HirPattern)>,
        struct_name: StrId,
        field_types: &List<HirType>,
        mode: BindingMode,
        provenance: &Option<ProvenanceAnnotation>,
        place: &Option<Place>,
    )
        ensures
            *final(self) == old(self).members_bound(
                *fields,
                struct_name,
                *field_types,
                mode,
                *provenance,
                *place,
            ),
            final(self).settled(*old(self)),
        decreases fields, HirType::Unknown,
    {
        proof {
            reveal(TypeChecker::pattern_bound);
        }
        match fields {
            Nil => {},
            Cons(field, rest) => {
                match find_struct_field_type(&self.context, struct_name, field_types, field.0) {
                    Some(ty) => {
                        let field_provenance = Self::extend_provenance(provenance, field.0);
                        self.register_pattern_bindings(
                            &field.1,
                            &ty,
                            mode,
                            &field_provenance,
                            place,
                        );
                    },
                    None => {},
                }
                self.bind_members(rest, struct_name, field_types, mode, provenance, place);
            },
        }
    }

    pub fn bind_leaf_type(
        &self,
        field_ty: &HirType,
        mode: BindingMode,
        provenance: &Option<ProvenanceAnnotation>,
    ) -> (ty: HirType)
        ensures
            ty == bound_type(*field_ty, mode, *provenance),
    {
        match mode {
            BindingMode::ByValue => field_ty.dup(),
            BindingMode::ByRef(ref_kind) => HirType::Ref {
                inner: Rc::new(field_ty.dup()),
                ref_kind,
                provenance: dup_provenance(provenance),
            },
        }
    }

    pub open spec fn all_forgotten(self, bindings: Bindings) -> TypeChecker
        decreases bindings,
    {
        match bindings {
            Nil => self,
            Cons(binding, rest) => self.forgot(binding.0).all_forgotten(*rest),
        }
    }

    fn forget_all(&mut self, bindings: &Bindings)
        ensures
            *final(self) == old(self).all_forgotten(*bindings),
            final(self).settled_in_scope(*old(self)),
        decreases bindings,
    {
        match bindings {
            Nil => {},
            Cons(binding, rest) => {
                self.forget_local(binding.0);
                self.forget_all(rest);
            },
        }
    }

    /// The checker after the names of an arm go out of scope.
    #[verifier::opaque]
    pub open spec fn arm_left(self, pattern: HirPattern, ty: HirType) -> TypeChecker {
        self.all_forgotten(with_bindings(self.context, pattern, ty, Nil))
    }

    pub fn cleanup_match_arm_bindings(&mut self, pattern: &HirPattern, ty: &HirType)
        ensures
            *final(self) == old(self).arm_left(*pattern, *ty),
            final(self).settled_in_scope(*old(self)),
    {
        proof {
            reveal(TypeChecker::arm_left);
        }
        let bindings = self.collect_pattern_bindings(pattern, ty, Nil);
        self.forget_all(&bindings);
    }

    /// The checker after the arms of a match are counted.
    #[verifier::opaque]
    pub open spec fn exhausted(self, ty: HirType, arms: List<HirMatchArm>) -> TypeChecker {
        match missing_arms(self.context, ty, arms) {
            Some(message) => self.said(message),
            None => self,
        }
    }

    pub fn check_match_exhaustiveness(&mut self, ty: &HirType, arms: &List<HirMatchArm>)
        ensures
            *final(self) == old(self).exhausted(*ty, *arms),
            final(self).settled_in_scope(*old(self)),
    {
        proof {
            reveal(TypeChecker::exhausted);
        }
        if matches!(ty, HirType::Unknown) || is_catch_all(arms) {
            return;
        }
        match ty {
            HirType::Nullable(_) => {
                if !takes_null(arms) {
                    self.say(Message::MissingNullArm { ty: ty.dup() });
                }
            },
            HirType::Enum { name, .. } => match self.context.get_enum(*name) {
                Some(def) => {
                    let names = find_untaken_variants(&def.variants, arms);
                    if !names.is_empty() {
                        self.say(Message::MissingVariants { enum_name: *name, names });
                    }
                },
                None => {},
            },
            HirType::Boolean => {
                if !(takes_bool(arms, true) && takes_bool(arms, false)) {
                    self.say(Message::NonExhaustiveBool);
                }
            },
            _ => {
                if self.is_integer(ty) || matches!(ty, HirType::String | HirType::Char) {
                    self.say(Message::NeedsCatchAll { ty: ty.dup() });
                }
            },
        }
    }

    /// The checker and the type of a value that comes from one of several branches: that of the
    /// first branch that comes to an end, which the others must fit.
    #[verifier::opaque]
    pub open spec fn values_joined(self, result: Option<HirType>, types: List<HirType>) -> (
        TypeChecker,
        HirType,
    )
        decreases types,
    {
        match types {
            Nil => (
                self,
                match result {
                    Some(ty) => ty,
                    None => HirType::Never,
                },
            ),
            Cons(ty, rest) => if *ty is Never {
                self.values_joined(result, *rest)
            } else {
                match result {
                    None => self.values_joined(Some(*ty), *rest),
                    Some(expected) => self.recovered(
                        self.compatibility(expected, *ty),
                    ).values_joined(result, *rest),
                }
            },
        }
    }

    fn join_values(&mut self, result: Option<HirType>, types: &List<HirType>) -> (ty: HirType)
        ensures
            (*final(self), ty) == old(self).values_joined(result, *types),
            final(self).settled_in_scope(*old(self)),
        decreases types,
    {
        proof {
            reveal(TypeChecker::values_joined);
        }
        match types {
            Nil => match result {
                Some(ty) => ty,
                None => HirType::Never,
            },
            Cons(ty, rest) => if matches!(**ty, HirType::Never) {
                self.join_values(result, rest)
            } else {
                match result {
                    None => self.join_values(Some(ty.dup()), rest),
                    Some(expected) => {
                        let check = self.types_compatible(&expected, ty);
                        self.recover(check);
                        self.join_values(Some(expected), rest)
                    },
                }
            },
        }
    }

    pub fn join_value_types(&mut self, branches: &List<HirType>) -> (ty: HirType)
        ensures
            (*final(self), ty) == old(self).values_joined(None, *branches),
            final(self).settled_in_scope(*old(self)),
    {
        proof {
            reveal(TypeChecker::values_joined);
        }
        self.join_values(None, branches)
    }

    /// How a match binds the parts of its scrutinee.
    pub open spec fn binding_mode(self, scrutinee: HirExpr) -> BindingMode {
        let known = match scrutinee.kind {
            ExprKind::Ref { ref_kind, .. } => Some(ref_kind),
            ExprKind::This { .. } => lookup(self.loans.ref_kinds, this_name()),
            ExprKind::Ident(name, _) => lookup(self.loans.ref_kinds, name),
            _ => None,
        };
        match known {
            Some(kind) => BindingMode::ByRef(kind),
            None => BindingMode::ByValue,
        }
    }

    pub fn scrutinee_binding_mode(&self, scrutinee: &HirExpr) -> (mode: BindingMode)
        ensures
            mode == self.binding_mode(*scrutinee),
    {
        let known: Option<RefKind> = match &scrutinee.kind {
            ExprKind::Ref { ref_kind, .. } => Some(*ref_kind),
            ExprKind::This { .. } => self.kind_of_local(StrId::Known(crate::hir::Word::This)),
            ExprKind::Ident(name, _) => self.kind_of_local(*name),
            _ => None,
        };
        match known {
            Some(kind) => BindingMode::ByRef(kind),
            None => BindingMode::ByValue,
        }
    }

    fn kind_of_local(&self, name: StrId) -> (kind: Option<RefKind>)
        ensures
            kind == lookup(self.loans.ref_kinds, name),
    {
        match find(&self.loans.ref_kinds, &name) {
            Some(kind) => Some(*kind),
            None => None,
        }
    }
}

proof fn untaken_are_not_taken(variants: List<HirEnumVariant>, arms: List<HirMatchArm>, name: StrId)
    ensures
        untaken_variants(variants, arms).has(name) ==> !any_takes_variant(arms, name),
        variant_named(variants, name) is Some && !any_takes_variant(arms, name)
            ==> untaken_variants(variants, arms).has(name),
    decreases variants,
{
    match variants {
        Nil => {
            assert(!List::<StrId>::Nil.has(name));
        },
        Cons(_, _) => untaken_are_not_taken(variants.rest(), arms, name),
    }
}

/// A match on an enum is accepted exactly where each variant is taken by an arm without a guard, or
/// some arm takes everything.
pub proof fn accepted_match_takes_every_variant(
    context: TypeContext,
    ty: HirType,
    arms: List<HirMatchArm>,
    variant: StrId,
)
    requires
        ty is Enum,
        variant_of(context, ty->Enum_name, variant) is Some,
        missing_arms(context, ty, arms) is None,
    ensures
        any_catches_all(arms) || any_takes_variant(arms, variant),
{
    untaken_are_not_taken(variants_of(context, ty->Enum_name), arms, variant);
    assert(!List::<StrId>::Nil.has(variant));
}

proof fn alike_bindings_share_names(a: Bindings, b: Bindings)
    requires
        bind_alike(a, b),
    ensures
        names_of(a) == names_of(b),
    decreases a,
{
    match a {
        Nil => {},
        Cons(_, _) => alike_bindings_share_names(a.rest(), b.rest()),
    }
}

/// Alternatives that are accepted together bind the same names.
pub proof fn alternatives_bind_the_same_names(
    checker: TypeChecker,
    first: HirPattern,
    second: HirPattern,
    ty: HirType,
)
    requires
        bind_alike(checker.alternative(first, ty), checker.alternative(second, ty)),
    ensures
        names_of(checker.alternative(first, ty)) == names_of(checker.alternative(second, ty)),
{
    alike_bindings_share_names(checker.alternative(first, ty), checker.alternative(second, ty));
}

/// The type that a name is bound to, the last one where there are several.
pub open spec fn bound_to(bindings: Bindings, name: StrId) -> Option<HirType>
    decreases bindings,
{
    match bindings {
        Nil => None,
        Cons(head, rest) => match bound_to(*rest, name) {
            Some(ty) => Some(ty),
            None => if head.0 == name {
                Some(head.1)
            } else {
                None
            },
        },
    }
}

/// Whether no name is bound twice.
pub open spec fn bound_once(bindings: Bindings) -> bool
    decreases bindings,
{
    match bindings {
        Nil => true,
        Cons(head, rest) => bound_to(*rest, head.0) is None && bound_once(*rest),
    }
}

/// Whether none of the names is a variable already.
pub open spec fn all_new(bindings: Bindings, variables: Table<StrId, (SymbolId, HirType)>) -> bool
    decreases bindings,
{
    match bindings {
        Nil => true,
        Cons(head, rest) => !has_key(variables, head.0) && all_new(*rest, variables),
    }
}

impl TypeChecker {
    /// Whether a checker is another one with bindings declared as variables: nothing else of the
    /// scope has changed, and no error was recorded where each name is new and bound once.
    pub open spec fn declares(self, before: TypeChecker, bindings: Bindings) -> bool {
        &&& self.context == (TypeContext { variables: self.context.variables, ..before.context })
        &&& forall|name: StrId|
            match bound_to(bindings, name) {
                Some(ty) => match #[trigger] lookup(self.context.variables, name) {
                    Some(variable) => variable.1 == ty,
                    None => false,
                },
                None => lookup(self.context.variables, name) == lookup(
                    before.context.variables,
                    name,
                ),
            }
        &&& bound_once(bindings) && all_new(bindings, before.context.variables) ==> errors_of(
            self.diagnostics.log,
            Nil,
        ) == errors_of(before.diagnostics.log, Nil)
    }
}

proof fn one_more_bound(bindings: Bindings, last: (StrId, HirType), name: StrId)
    ensures
        bound_to(bindings.snoc(last), name) == if last.0 == name {
            Some(last.1)
        } else {
            bound_to(bindings, name)
        },
    decreases bindings,
{
    match bindings {
        Nil => {
            reveal_with_fuel(bound_to, 2);
        },
        Cons(_, _) => one_more_bound(bindings.rest(), last, name),
    }
}

proof fn one_more_new(
    bindings: Bindings,
    last: (StrId, HirType),
    variables: Table<StrId, (SymbolId, HirType)>,
)
    ensures
        bound_once(bindings.snoc(last)) == (bound_once(bindings) && bound_to(bindings, last.0)
            is None),
        all_new(bindings.snoc(last), variables) == (all_new(bindings, variables) && !has_key(
            variables,
            last.0,
        )),
    decreases bindings,
{
    match bindings {
        Nil => {
            reveal_with_fuel(bound_once, 2);
            reveal_with_fuel(bound_to, 2);
            reveal_with_fuel(all_new, 2);
        },
        Cons(_, _) => {
            one_more_new(bindings.rest(), last, variables);
            one_more_bound(bindings.rest(), last, bindings.head().0);
        },
    }
}

proof fn variable_declares(
    before: TypeChecker,
    checker: TypeChecker,
    name: StrId,
    ty: HirType,
    bindings: Bindings,
)
    requires
        checker.declares(before, bindings),
    ensures
        checker.pattern_variable(name, ty).declares(before, bindings.snoc((name, ty))),
        checker.pattern_variable(name, ty).declared_local(name).declares(
            before,
            bindings.snoc((name, ty)),
        ),
{
    let longer = bindings.snoc((name, ty));
    let after = checker.pattern_variable(name, ty);
    one_more_new(bindings, (name, ty), before.context.variables);
    assert(lookup(checker.context.variables, name) == lookup(checker.context.variables, name));
    let symbol = checker.minted().1;
    assert forall|other: StrId|
        match bound_to(longer, other) {
            Some(bound) => match #[trigger] lookup(after.context.variables, other) {
                Some(variable) => variable.1 == bound,
                None => false,
            },
            None => lookup(after.context.variables, other) == lookup(
                before.context.variables,
                other,
            ),
        } by {
        one_more_bound(bindings, (name, ty), other);
        crate::list::update_then_lookup(
            checker.context.variables,
            name,
            (symbol, ty),
            other,
        );
        assert(lookup(checker.context.variables, other) == lookup(
            checker.context.variables,
            other,
        ));
    }
    reveal_with_fuel(errors_of, 2);
}

proof fn pattern_declares(
    before: TypeChecker,
    checker: TypeChecker,
    pattern: &HirPattern,
    ty: &HirType,
    provenance: Option<ProvenanceAnnotation>,
    place: Option<Place>,
    bindings: Bindings,
)
    requires
        checker.declares(before, bindings),
    ensures
        checker.pattern_bound(*pattern, *ty, BindingMode::ByValue, provenance, place).declares(
            before,
            with_bindings(before.context, *pattern, *ty, bindings),
        ),
    decreases pattern, ty,
{
    reveal(TypeChecker::pattern_bound);
    match (ty, pattern) {
        (HirType::Nullable(inner), _) => {
            if !(pattern is Null) {
                pattern_declares(before, checker, pattern, inner, provenance, place, bindings);
            }
        },
        (_, HirPattern::Ident(name)) => variable_declares(before, checker, *name, *ty, bindings),
        (HirType::Enum { name, .. }, HirPattern::EnumVariant { variant, bindings: names }) => {
            if let Some(def) = variant_of(before.context, *name, *variant) {
                variant_declares(before, checker, names, &def.fields, provenance, bindings);
            }
        },
        (HirType::Tuple(elems), HirPattern::Tuple(patterns)) => tuple_declares(
            before,
            checker,
            patterns,
            elems,
            provenance,
            place,
            bindings,
        ),
        (HirType::Array(elem, _), HirPattern::Array(patterns)) => all_declare(
            before,
            checker,
            patterns,
            elem,
            provenance,
            place,
            bindings,
        ),
        (HirType::Slice(elem), HirPattern::Array(patterns)) => all_declare(
            before,
            checker,
            patterns,
            elem,
            provenance,
            place,
            bindings,
        ),
        (HirType::Enum { name: enum_name, .. }, HirPattern::Struct { name, fields }) => {
            if let Some(def) = variant_of(before.context, *enum_name, *name) {
                fields_declare(before, checker, fields, &def.fields, provenance, place, bindings);
            }
        },
        (HirType::Struct { name, field_types, .. }, HirPattern::Struct { fields, .. }) => {
            members_declare(
                before,
                checker,
                fields,
                *name,
                field_types,
                provenance,
                place,
                bindings,
            );
        },
        (_, HirPattern::Or(patterns)) => {
            if let Cons(first, _) = patterns {
                pattern_declares(before, checker, first, ty, provenance, place, bindings);
            }
        },
        _ => {},
    }
}

proof fn variant_declares(
    before: TypeChecker,
    checker: TypeChecker,
    names: &List<StrId>,
    fields: &List<HirField>,
    provenance: Option<ProvenanceAnnotation>,
    bindings: Bindings,
)
    requires
        checker.declares(before, bindings),
    ensures
        checker.variant_bound(*names, *fields, BindingMode::ByValue, provenance).declares(
            before,
            with_variant_bindings(*names, *fields, bindings),
        ),
    decreases names,
{
    if let (Cons(name, more), Cons(field, rest)) = (names, fields) {
        let ty = field.field_type;
        variable_declares(before, checker, **name, ty, bindings);
        variant_declares(
            before,
            checker.pattern_variable(**name, ty),
            more,
            rest,
            provenance,
            bindings.snoc((**name, ty)),
        );
    }
}

proof fn tuple_declares(
    before: TypeChecker,
    checker: TypeChecker,
    patterns: &List<HirPattern>,
    elems: &List<HirType>,
    provenance: Option<ProvenanceAnnotation>,
    place: Option<Place>,
    bindings: Bindings,
)
    requires
        checker.declares(before, bindings),
    ensures
        checker.tuple_bound(*patterns, *elems, BindingMode::ByValue, provenance, place).declares(
            before,
            with_tuple_bindings(before.context, *patterns, *elems, bindings),
        ),
    decreases patterns, elems,
{
    reveal(TypeChecker::pattern_bound);
    if let (Cons(pattern, more), Cons(elem, rest)) = (patterns, elems) {
        pattern_declares(before, checker, pattern, elem, provenance, place, bindings);
        tuple_declares(
            before,
            checker.pattern_bound(
                patterns.head(),
                elems.head(),
                BindingMode::ByValue,
                provenance,
                place,
            ),
            more,
            rest,
            provenance,
            place,
            with_bindings(before.context, patterns.head(), elems.head(), bindings),
        );
    }
}

proof fn all_declare(
    before: TypeChecker,
    checker: TypeChecker,
    patterns: &List<HirPattern>,
    elem: &HirType,
    provenance: Option<ProvenanceAnnotation>,
    place: Option<Place>,
    bindings: Bindings,
)
    requires
        checker.declares(before, bindings),
    ensures
        checker.all_bound(*patterns, *elem, BindingMode::ByValue, provenance, place).declares(
            before,
            with_all_bindings(before.context, *patterns, *elem, bindings),
        ),
    decreases patterns, elem,
{
    reveal(TypeChecker::pattern_bound);
    if let Cons(pattern, rest) = patterns {
        pattern_declares(before, checker, pattern, elem, provenance, place, bindings);
        all_declare(
            before,
            checker.pattern_bound(
                patterns.head(),
                *elem,
                BindingMode::ByValue,
                provenance,
                place,
            ),
            rest,
            elem,
            provenance,
            place,
            with_bindings(before.context, patterns.head(), *elem, bindings),
        );
    }
}

proof fn fields_declare(
    before: TypeChecker,
    checker: TypeChecker,
    fields: &List<(StrId, HirPattern)>,
    declared: &List<HirField>,
    provenance: Option<ProvenanceAnnotation>,
    place: Option<Place>,
    bindings: Bindings,
)
    requires
        checker.declares(before, bindings),
    ensures
        checker.fields_bound(*fields, *declared, BindingMode::ByValue, provenance, place).declares(
            before,
            with_field_bindings(before.context, *fields, *declared, bindings),
        ),
    decreases fields, HirType::Unknown,
{
    reveal(TypeChecker::pattern_bound);
    if let Cons(field, rest) = fields {
        match field_named(*declared, field.0) {
            Some(def) => {
                let inner = projected(provenance, ProvenancePathSegment::Field(field.0));
                pattern_declares(
                    before,
                    checker,
                    &field.1,
                    &def.field_type,
                    inner,
                    place,
                    bindings,
                );
                fields_declare(
                    before,
                    checker.pattern_bound(
                        fields.head().1,
                        def.field_type,
                        BindingMode::ByValue,
                        inner,
                        place,
                    ),
                    rest,
                    declared,
                    provenance,
                    place,
                    with_bindings(before.context, fields.head().1, def.field_type, bindings),
                );
            },
            None => fields_declare(before, checker, rest, declared, provenance, place, bindings),
        }
    }
}

proof fn members_declare(
    before: TypeChecker,
    checker: TypeChecker,
    fields: &List<(StrId, HirPattern)>,
    struct_name: StrId,
    field_types: &List<HirType>,
    provenance: Option<ProvenanceAnnotation>,
    place: Option<Place>,
    bindings: Bindings,
)
    requires
        checker.declares(before, bindings),
    ensures
        checker.members_bound(
            *fields,
            struct_name,
            *field_types,
            BindingMode::ByValue,
            provenance,
            place,
        ).declares(
            before,
            with_member_bindings(before.context, *fields, struct_name, *field_types, bindings),
        ),
    decreases fields, HirType::Unknown,
{
    reveal(TypeChecker::pattern_bound);
    if let Cons(field, rest) = fields {
        assert(struct_field_type(checker.context, struct_name, *field_types, field.0)
            == struct_field_type(before.context, struct_name, *field_types, field.0));
        match struct_field_type(before.context, struct_name, *field_types, field.0) {
            Some(ty) => {
                let inner = projected(provenance, ProvenancePathSegment::Field(field.0));
                pattern_declares(before, checker, &field.1, &ty, inner, place, bindings);
                members_declare(
                    before,
                    checker.pattern_bound(
                        fields.head().1,
                        ty,
                        BindingMode::ByValue,
                        inner,
                        place,
                    ),
                    rest,
                    struct_name,
                    field_types,
                    provenance,
                    place,
                    with_bindings(before.context, fields.head().1, ty, bindings),
                );
            },
            None => members_declare(
                before,
                checker,
                rest,
                struct_name,
                field_types,
                provenance,
                place,
                bindings,
            ),
        }
    }
}

/// Registering a pattern that binds by value declares exactly the names that collecting its bindings
/// lists, each with the type that is listed for it. All other variables stay as they are, and no
/// error is recorded where each name is new and bound once.
pub proof fn registering_declares_what_collecting_lists(
    checker: TypeChecker,
    pattern: &HirPattern,
    ty: &HirType,
    provenance: Option<ProvenanceAnnotation>,
    place: Option<Place>,
)
    ensures
        checker.pattern_bound(*pattern, *ty, BindingMode::ByValue, provenance, place).declares(
            checker,
            with_bindings(checker.context, *pattern, *ty, Nil),
        ),
{
    pattern_declares(checker, checker, pattern, ty, provenance, place, Nil);
}

} // verus!
