//! What patterns accept and bind, and when a match is complete.

use vstd::prelude::*;

use crate::accesses::recording_reports;
use crate::borrow::{BorrowOp, Place};
use crate::errors::{Message, TypeErrorKind, TypeText};
use crate::free_names::{fields_declare_name, pattern_declares_name, patterns_declare_name};
use crate::hir::{
    field_named, variant_named, HirEnumVariant, HirField, HirMatchArm, HirPattern, HirType,
    ProvenanceAnnotation, RefKind, StrId,
};
use crate::initialization::BindingMode;
use crate::list::{held, lookup, update_then_lookup, Cons, List, Nil};
use crate::patterns::{
    any_catches_all, any_takes_bool, any_takes_null, any_takes_variant, mentions_field,
    missing_arms, unmatched_fields, untaken_variants, with_all_bindings, with_bindings,
    with_field_bindings, with_member_bindings, with_tuple_bindings, with_variant_bindings, Bindings,
};
use crate::steps::steps_of;
use crate::type_checker::TypeChecker;
use crate::type_context::TypeContext;
use crate::types::integer;

verus! {

/// A pattern takes a value that may be null as it takes one that may not, unless it is the one for
/// null.
pub proof fn patterns_look_through_nullables(
    checker: TypeChecker,
    pattern: HirPattern,
    inner: HirType,
)
    requires
        !(pattern is Null),
    ensures
        checker.pattern_checked(pattern, HirType::Nullable(std::rc::Rc::new(inner)))
            == checker.pattern_checked(pattern, inner),
{
    reveal(TypeChecker::pattern_checked);
    reveal_with_fuel(TypeChecker::pattern_checked, 2);
}

/// A literal takes values of its own type, and names and wildcards take anything. What does not fit is
/// reported.
pub proof fn literals_take_their_own_type(checker: TypeChecker, pattern: HirPattern, ty: HirType)
    requires
        !checker.diagnostics.suppress_errors,
        !(ty is Nullable),
    ensures
        ({
            let after = checker.pattern_checked(pattern, ty);
            let mismatch = |found: TypeText|
                checker.reports(
                    TypeErrorKind::TypeMismatch { expected: TypeText::Type(ty), found },
                    after,
                );
            match pattern {
                HirPattern::Ident(_) | HirPattern::Wildcard => after == checker,
                HirPattern::Null => mismatch(TypeText::Null),
                HirPattern::Boolean(_) => if ty is Boolean {
                    after == checker
                } else {
                    mismatch(TypeText::Bool)
                },
                HirPattern::Number(_) => if integer(ty) {
                    after == checker
                } else {
                    mismatch(TypeText::Integer)
                },
                HirPattern::String(_) => if ty is String {
                    after == checker
                } else {
                    mismatch(TypeText::Str)
                },
                HirPattern::Tuple(parts) => !(ty is Tuple) ==> mismatch(
                    TypeText::TuplePattern(parts.count()),
                ),
                HirPattern::Array(parts) => !(ty is Array) && !(ty is Slice) ==> mismatch(
                    TypeText::ArrayPattern(parts.count()),
                ),
                HirPattern::Struct { name, .. } => !(ty is Enum) && !(ty is Struct) ==> mismatch(
                    TypeText::NamedFieldPattern(name),
                ),
                _ => true,
            }
        }),
{
    reveal(TypeChecker::pattern_checked);
    let error = |found: TypeText|
        TypeErrorKind::TypeMismatch { expected: TypeText::Type(ty), found };
    recording_reports(checker, error(TypeText::Null));
    recording_reports(checker, error(TypeText::Bool));
    recording_reports(checker, error(TypeText::Integer));
    recording_reports(checker, error(TypeText::Str));
    match pattern {
        HirPattern::Tuple(parts) => {
            recording_reports(checker, error(TypeText::TuplePattern(parts.count())));
        },
        HirPattern::Array(parts) => {
            recording_reports(checker, error(TypeText::ArrayPattern(parts.count())));
        },
        HirPattern::Struct { name, .. } => {
            recording_reports(checker, error(TypeText::NamedFieldPattern(name)));
        },
        _ => {},
    }
}

/// The pattern of a variant names one that the enum has, and binds each of its fields.
pub proof fn variant_patterns_bind_every_field(
    checker: TypeChecker,
    enum_name: StrId,
    variant: StrId,
    bound: usize,
)
    requires
        !checker.diagnostics.suppress_errors,
    ensures
        ({
            let after = checker.variant_pattern_checked(enum_name, variant, bound);
            match lookup(checker.context.enums, enum_name) {
                None => after == checker,
                Some(def) => match variant_named(def.variants, variant) {
                    None => checker.says(Message::NoSuchVariant { enum_name, variant }, after),
                    Some(found) => {
                        &&& found.name == variant
                        &&& found.fields.count() == bound ==> after == checker
                        &&& found.fields.count() != bound ==> checker.says(
                            Message::VariantFieldCount {
                                enum_name,
                                variant,
                                fields: found.fields.count(),
                                bound,
                            },
                            after,
                        )
                    },
                },
            }
        }),
{
    recording_reports(checker, TypeErrorKind::Generic(Message::NoSuchVariant { enum_name, variant }));
    if let Some(def) = lookup(checker.context.enums, enum_name) {
        variants_go_by_name(held(&def).variants, variant);
        if let Some(found) = variant_named(held(&def).variants, variant) {
            recording_reports(
                checker,
                TypeErrorKind::Generic(
                    Message::VariantFieldCount {
                        enum_name,
                        variant,
                        fields: found.fields.count(),
                        bound,
                    },
                ),
            );
        }
    }
}

proof fn variants_go_by_name(variants: List<HirEnumVariant>, name: StrId)
    ensures
        variant_named(variants, name) matches Some(found) ==> found.name == name,
    decreases variants,
{
    match variants {
        Nil => {},
        Cons(_, _) => variants_go_by_name(variants.rest(), name),
    }
}

/// An arm with a guard takes nothing for sure: a match is as complete without it.
pub proof fn guarded_arms_complete_nothing(
    context: TypeContext,
    ty: HirType,
    arm: HirMatchArm,
    arms: List<HirMatchArm>,
)
    requires
        arm.guard is Some,
    ensures
        missing_arms(context, ty, List::cons_of(arm, arms)) == missing_arms(context, ty, arms),
{
    if let HirType::Enum { name, .. } = ty {
        if let Some(def) = lookup(context.enums, name) {
            guarded_take_no_variant(held(&def).variants, arm, arms);
        }
    }
}

proof fn guarded_take_no_variant(
    variants: List<HirEnumVariant>,
    arm: HirMatchArm,
    arms: List<HirMatchArm>,
)
    requires
        arm.guard is Some,
    ensures
        untaken_variants(variants, List::cons_of(arm, arms)) == untaken_variants(variants, arms),
    decreases variants,
{
    match variants {
        Nil => {},
        Cons(_, _) => guarded_take_no_variant(variants.rest(), arm, arms),
    }
}

/// A match that is complete stays so with one more arm.
pub proof fn more_arms_do_no_harm(
    context: TypeContext,
    ty: HirType,
    arm: HirMatchArm,
    arms: List<HirMatchArm>,
)
    requires
        missing_arms(context, ty, arms) is None,
    ensures
        missing_arms(context, ty, List::cons_of(arm, arms)) is None,
{
    if let HirType::Enum { name, .. } = ty {
        if let Some(def) = lookup(context.enums, name) {
            more_arms_leave_less(held(&def).variants, arm, arms);
        }
    }
}

proof fn more_arms_leave_less(
    variants: List<HirEnumVariant>,
    arm: HirMatchArm,
    arms: List<HirMatchArm>,
)
    ensures
        untaken_variants(variants, arms) is Nil ==> untaken_variants(
            variants,
            List::cons_of(arm, arms),
        ) is Nil,
    decreases variants,
{
    match variants {
        Nil => {},
        Cons(_, _) => more_arms_leave_less(variants.rest(), arm, arms),
    }
}

/// Whether an arm takes every value for sure.
pub open spec fn takes_everything(arm: HirMatchArm) -> bool {
    arm.guard is None && (arm.pattern is Wildcard || arm.pattern is Ident)
}

proof fn some_arm_takes_everything(arms: List<HirMatchArm>)
    ensures
        any_catches_all(arms) == exists|arm: HirMatchArm| #[trigger]
            arms.has(arm) && takes_everything(arm),
    decreases arms,
{
    match arms {
        Nil => {
            reveal_with_fuel(List::has, 2);
        },
        Cons(_, _) => {
            some_arm_takes_everything(arms.rest());
            if takes_everything(arms.head()) {
                assert(arms.has(arms.head()));
            }
            if any_catches_all(arms.rest()) {
                let arm = choose|arm: HirMatchArm| #[trigger]
                    arms.rest().has(arm) && takes_everything(arm);
                assert(arms.has(arm));
            }
            if exists|arm: HirMatchArm| #[trigger] arms.has(arm) && takes_everything(arm) {
                let arm = choose|arm: HirMatchArm| #[trigger]
                    arms.has(arm) && takes_everything(arm);
                assert(arm == arms.head() || arms.rest().has(arm));
            }
        },
    }
}

/// Whether an arm takes one of the two truth values for sure.
pub open spec fn takes_truth(arm: HirMatchArm, value: bool) -> bool {
    arm.guard is None && arm.pattern == HirPattern::Boolean(value)
}

proof fn some_arm_takes_truth(arms: List<HirMatchArm>, value: bool)
    ensures
        any_takes_bool(arms, value) == exists|arm: HirMatchArm| #[trigger]
            arms.has(arm) && takes_truth(arm, value),
    decreases arms,
{
    match arms {
        Nil => {
            reveal_with_fuel(List::has, 2);
        },
        Cons(_, _) => {
            some_arm_takes_truth(arms.rest(), value);
            if takes_truth(arms.head(), value) {
                assert(arms.has(arms.head()));
            }
            if any_takes_bool(arms.rest(), value) {
                let arm = choose|arm: HirMatchArm| #[trigger]
                    arms.rest().has(arm) && takes_truth(arm, value);
                assert(arms.has(arm));
            }
            if exists|arm: HirMatchArm| #[trigger] arms.has(arm) && takes_truth(arm, value) {
                let arm = choose|arm: HirMatchArm| #[trigger]
                    arms.has(arm) && takes_truth(arm, value);
                assert(arm == arms.head() || arms.rest().has(arm));
            }
        },
    }
}

/// A match on a number, a text or a character is complete where one of its arms takes everything; on
/// a truth value, also where one takes each of the two.
pub proof fn open_types_need_an_arm_for_the_rest(
    context: TypeContext,
    ty: HirType,
    arms: List<HirMatchArm>,
)
    ensures
        integer(ty) || ty is String || ty is Char ==> (missing_arms(context, ty, arms) is None
            <==> exists|arm: HirMatchArm| #[trigger] arms.has(arm) && takes_everything(arm)),
        ty is Boolean ==> (missing_arms(context, ty, arms) is None <==> (exists|arm: HirMatchArm|
            #[trigger] arms.has(arm) && takes_everything(arm)) || ((exists|arm: HirMatchArm|
            #[trigger] arms.has(arm) && takes_truth(arm, true)) && (exists|arm: HirMatchArm|
            #[trigger] arms.has(arm) && takes_truth(arm, false)))),
{
    some_arm_takes_everything(arms);
    some_arm_takes_truth(arms, true);
    some_arm_takes_truth(arms, false);
}

/// The variants that a match leaves out are those of the enum that no arm takes.
pub proof fn left_out_variants_are_not_taken(
    variants: List<HirEnumVariant>,
    arms: List<HirMatchArm>,
    name: StrId,
)
    ensures
        untaken_variants(variants, arms).has(name) == (variant_named(variants, name) is Some
            && !any_takes_variant(arms, name)),
    decreases variants,
{
    match variants {
        Nil => {},
        Cons(_, _) => left_out_variants_are_not_taken(variants.rest(), arms, name),
    }
}

/// The fields that a pattern leaves out are those declared and not named.
pub proof fn left_out_fields_are_not_named(
    declared: List<HirField>,
    fields: List<(StrId, HirPattern)>,
    name: StrId,
)
    ensures
        unmatched_fields(declared, fields).has(name) == (field_named(declared, name) is Some
            && !mentions_field(fields, name)),
        mentions_field(fields, name) == exists|pattern: HirPattern| #[trigger]
            fields.has((name, pattern)),
    decreases declared,
{
    named_fields(fields, name);
    match declared {
        Nil => {},
        Cons(_, _) => left_out_fields_are_not_named(declared.rest(), fields, name),
    }
}

proof fn named_fields(fields: List<(StrId, HirPattern)>, name: StrId)
    ensures
        mentions_field(fields, name) == exists|pattern: HirPattern| #[trigger]
            fields.has((name, pattern)),
    decreases fields,
{
    match fields {
        Nil => {
            reveal_with_fuel(List::has, 2);
        },
        Cons(_, _) => {
            named_fields(fields.rest(), name);
            if fields.head().0 == name {
                assert(fields.has((name, fields.head().1)));
            }
            if mentions_field(fields.rest(), name) {
                let pattern = choose|pattern: HirPattern| #[trigger]
                    fields.rest().has((name, pattern));
                assert(fields.has((name, pattern)));
            }
            if exists|pattern: HirPattern| #[trigger] fields.has((name, pattern)) {
                let pattern = choose|pattern: HirPattern| #[trigger] fields.has((name, pattern));
                assert(fields.head() == (name, pattern) || fields.rest().has((name, pattern)));
            }
        },
    }
}

/// Whether a name is among some bindings.
pub open spec fn binds_name(bindings: Bindings, name: StrId) -> bool
    decreases bindings,
{
    match bindings {
        Nil => false,
        Cons(binding, rest) => binding.0 == name || binds_name(*rest, name),
    }
}

proof fn one_more_binding(bindings: Bindings, binding: (StrId, HirType), name: StrId)
    ensures
        binds_name(bindings.snoc(binding), name) == (binds_name(bindings, name) || binding.0
            == name),
    decreases bindings,
{
    match bindings {
        Nil => {
            reveal_with_fuel(binds_name, 3);
        },
        Cons(_, _) => one_more_binding(bindings.rest(), binding, name),
    }
}

proof fn variant_binds_its_names(
    names: List<StrId>,
    fields: List<HirField>,
    out: Bindings,
    name: StrId,
)
    ensures
        binds_name(out, name) ==> binds_name(with_variant_bindings(names, fields, out), name),
        binds_name(with_variant_bindings(names, fields, out), name) ==> binds_name(out, name)
            || names.has(name),
        names.has(name) && names.seq().len() <= fields.seq().len() ==> binds_name(
            with_variant_bindings(names, fields, out),
            name,
        ),
    decreases names,
{
    match (names, fields) {
        (Cons(_, _), Cons(_, _)) => {
            let binding = (names.head(), fields.head().field_type);
            one_more_binding(out, binding, name);
            variant_binds_its_names(names.rest(), fields.rest(), out.snoc(binding), name);
        },
        (Cons(_, _), Nil) => {
            assert(names.seq().len() > 0);
        },
        _ => {},
    }
}

/// A pattern binds no name that it does not declare.
pub proof fn bound_names_are_declared(
    context: TypeContext,
    pattern: HirPattern,
    ty: HirType,
    out: Bindings,
    name: StrId,
)
    ensures
        binds_name(out, name) ==> binds_name(with_bindings(context, pattern, ty, out), name),
        binds_name(with_bindings(context, pattern, ty, out), name) ==> binds_name(out, name)
            || pattern_declares_name(pattern, name),
    decreases pattern, ty,
{
    if ty is Nullable && !(pattern is Null) {
        if let HirType::Nullable(inner) = ty {
            bound_names_are_declared(context, pattern, held(&inner), out, name);
        }
    } else {
        match pattern {
            HirPattern::Ident(bound) => one_more_binding(out, (bound, ty), name),
            HirPattern::EnumVariant { variant, bindings } => {
                if let HirType::Enum { name: enum_name, .. } = ty {
                    if let Some(def) = crate::patterns::variant_of(context, enum_name, variant) {
                        variant_binds_its_names(bindings, def.fields, out, name);
                    }
                }
            },
            HirPattern::Tuple(patterns) => {
                if let HirType::Tuple(elems) = ty {
                    tuple_names_are_declared(context, patterns, elems, out, name);
                }
            },
            HirPattern::Array(patterns) => match ty {
                HirType::Array(elem, _) => {
                    all_names_are_declared(context, patterns, held(&elem), out, name);
                },
                HirType::Slice(elem) => {
                    all_names_are_declared(context, patterns, held(&elem), out, name);
                },
                _ => {},
            },
            HirPattern::Struct { name: struct_pattern, fields } => match ty {
                HirType::Enum { name: enum_name, .. } => {
                    if let Some(def) = crate::patterns::variant_of(
                        context,
                        enum_name,
                        struct_pattern,
                    ) {
                        field_names_are_declared(context, fields, def.fields, out, name);
                    }
                },
                HirType::Struct { name: struct_name, field_types, .. } => {
                    member_names_are_declared(
                        context,
                        fields,
                        struct_name,
                        field_types,
                        out,
                        name,
                    );
                },
                _ => {},
            },
            HirPattern::Or(patterns) => {
                if let Cons(first, _) = patterns {
                    bound_names_are_declared(context, held(&first), ty, out, name);
                    reveal_with_fuel(patterns_declare_name, 2);
                }
            },
            _ => {},
        }
    }
}

proof fn tuple_names_are_declared(
    context: TypeContext,
    patterns: List<HirPattern>,
    elems: List<HirType>,
    out: Bindings,
    name: StrId,
)
    ensures
        binds_name(out, name) ==> binds_name(
            with_tuple_bindings(context, patterns, elems, out),
            name,
        ),
        binds_name(with_tuple_bindings(context, patterns, elems, out), name) ==> binds_name(
            out,
            name,
        ) || patterns_declare_name(patterns, name),
    decreases patterns, elems,
{
    match (patterns, elems) {
        (Cons(pattern, more), Cons(elem, rest)) => {
            bound_names_are_declared(context, held(&pattern), held(&elem), out, name);
            tuple_names_are_declared(
                context,
                held(&more),
                held(&rest),
                with_bindings(context, held(&pattern), held(&elem), out),
                name,
            );
        },
        _ => {},
    }
}

proof fn all_names_are_declared(
    context: TypeContext,
    patterns: List<HirPattern>,
    elem: HirType,
    out: Bindings,
    name: StrId,
)
    ensures
        binds_name(out, name) ==> binds_name(
            with_all_bindings(context, patterns, elem, out),
            name,
        ),
        binds_name(with_all_bindings(context, patterns, elem, out), name) ==> binds_name(out, name)
            || patterns_declare_name(patterns, name),
    decreases patterns, elem,
{
    match patterns {
        Nil => {},
        Cons(pattern, rest) => {
            bound_names_are_declared(context, held(&pattern), elem, out, name);
            all_names_are_declared(
                context,
                held(&rest),
                elem,
                with_bindings(context, held(&pattern), elem, out),
                name,
            );
        },
    }
}

proof fn field_names_are_declared(
    context: TypeContext,
    fields: List<(StrId, HirPattern)>,
    declared: List<HirField>,
    out: Bindings,
    name: StrId,
)
    ensures
        binds_name(out, name) ==> binds_name(
            with_field_bindings(context, fields, declared, out),
            name,
        ),
        binds_name(with_field_bindings(context, fields, declared, out), name) ==> binds_name(
            out,
            name,
        ) || fields_declare_name(fields, name),
    decreases fields, HirType::Unknown,
{
    match fields {
        Nil => {},
        Cons(field, rest) => {
            let next = match field_named(declared, held(&field).0) {
                Some(def) => {
                    bound_names_are_declared(context, held(&field).1, def.field_type, out, name);
                    with_bindings(context, held(&field).1, def.field_type, out)
                },
                None => out,
            };
            field_names_are_declared(context, held(&rest), declared, next, name);
        },
    }
}

proof fn member_names_are_declared(
    context: TypeContext,
    fields: List<(StrId, HirPattern)>,
    struct_name: StrId,
    field_types: List<HirType>,
    out: Bindings,
    name: StrId,
)
    ensures
        binds_name(out, name) ==> binds_name(
            with_member_bindings(context, fields, struct_name, field_types, out),
            name,
        ),
        binds_name(
            with_member_bindings(context, fields, struct_name, field_types, out),
            name,
        ) ==> binds_name(out, name) || fields_declare_name(fields, name),
    decreases fields, HirType::Unknown,
{
    match fields {
        Nil => {},
        Cons(field, rest) => {
            let known = crate::patterns::struct_field_type(
                context,
                struct_name,
                field_types,
                held(&field).0,
            );
            let next = match known {
                Some(ty) => {
                    bound_names_are_declared(context, held(&field).1, ty, out, name);
                    with_bindings(context, held(&field).1, ty, out)
                },
                None => out,
            };
            member_names_are_declared(
                context,
                held(&rest),
                struct_name,
                field_types,
                next,
                name,
            );
        },
    }
}

/// A name that is bound by value has the type of what it is bound to; one bound by reference is a
/// reference to it, of the kind asked for, and borrows the place that it was found at.
pub proof fn patterns_bind_as_asked(
    checker: TypeChecker,
    name: StrId,
    ty: HirType,
    kind: Option<RefKind>,
    provenance: Option<ProvenanceAnnotation>,
    place: Place,
)
    requires
        !checker.diagnostics.suppress_errors,
        lookup(checker.context.variables, name) is None,
    ensures
        ({
            let mode = match kind {
                Some(ref_kind) => BindingMode::ByRef(ref_kind),
                None => BindingMode::ByValue,
            };
            let after = checker.name_bound(name, ty, mode, provenance, Some(place));
            &&& lookup(after.context.variables, name) matches Some((_, bound)) && bound
                == match kind {
                Some(ref_kind) => HirType::Ref {
                    inner: std::rc::Rc::new(ty),
                    ref_kind,
                    provenance,
                },
                None => ty,
            }
            &&& after.steps() == match kind {
                Some(ref_kind) => checker.steps().push(BorrowOp::Declare(name)).push(
                    BorrowOp::Remember { slot: checker.loans.next_slot, place },
                ).push(
                    BorrowOp::Borrow {
                        loan: checker.loans.next_loan,
                        place,
                        kind: ref_kind,
                        blame: provenance,
                    },
                ),
                None => checker.steps().push(BorrowOp::Declare(name)),
            }
            &&& kind is Some ==> lookup(after.loans.owners, checker.loans.next_loan) == Some(name)
        }),
{
    reveal_with_fuel(steps_of, 4);
    let symbol = checker.minted().1;
    let bound = crate::patterns::bound_type(
        ty,
        match kind {
            Some(ref_kind) => BindingMode::ByRef(ref_kind),
            None => BindingMode::ByValue,
        },
        provenance,
    );
    update_then_lookup(checker.context.variables, name, (symbol, bound), name);
    update_then_lookup(
        checker.loans.owners,
        checker.loans.next_loan,
        name,
        checker.loans.next_loan,
    );
}

} // verus!
