//! How type parameters get their arguments, and what becomes of them.

use vstd::prelude::*;

use crate::accesses::recording_reports;
use crate::errors::{Message, TypeErrorKind};
use crate::expressions::{bound_where_unknown, filled, values_for};
use crate::hir::{HirField, HirFunc, HirGeneric, HirParam, HirType, StrId};
use crate::instantiations::{
    bound_onto, completed, fields_substituted, param_substituted, params_substituted, substituted,
    unified, Substitutions,
};
use crate::list::{has_key, lookup, update_then_lookup, updated, Cons, List, Nil};
use crate::methods::{default_method, method_named};
use crate::type_checker::TypeChecker;

verus! {

/// The type parameter that stands at the bottom of a type, under pointers, arrays and nullables.
pub open spec fn bottom(ty: HirType) -> Option<StrId>
    decreases ty,
{
    match ty {
        HirType::Generic(name) => Some(name),
        HirType::Nullable(inner) => bottom(*inner),
        HirType::Array(inner, _) => bottom(*inner),
        HirType::Slice(inner) => bottom(*inner),
        HirType::Ref { inner, .. } => bottom(*inner),
        _ => None,
    }
}

/// Comparing a declared type with what it becomes under some arguments finds the argument again.
pub proof fn inference_finds_the_argument(
    declared: HirType,
    given: Substitutions,
    known: Substitutions,
    name: StrId,
)
    requires
        bottom(declared) == Some(name),
        has_key(given, name),
        !has_key(known, name),
    ensures
        lookup(unified(declared, substituted(declared, given), known), name) == lookup(given, name),
    decreases declared,
{
    match declared {
        HirType::Generic(_) => {
            let actual = lookup(given, name)->0;
            update_then_lookup(known, name, actual, name);
        },
        HirType::Nullable(inner) => {
            inference_finds_the_argument(crate::list::held(&inner), given, known, name);
        },
        HirType::Array(inner, _) => {
            inference_finds_the_argument(crate::list::held(&inner), given, known, name);
        },
        HirType::Slice(inner) => {
            inference_finds_the_argument(crate::list::held(&inner), given, known, name);
        },
        HirType::Ref { inner, .. } => {
            inference_finds_the_argument(crate::list::held(&inner), given, known, name);
        },
        _ => {},
    }
}

proof fn later_bindings_keep(
    subs: Substitutions,
    generics: List<HirGeneric>,
    args: List<HirType>,
    name: StrId,
)
    requires
        forall|i: int|
            0 <= i < generics.seq().len() ==> (#[trigger] generics.seq()[i]).name != name,
    ensures
        lookup(bound_onto(subs, generics, args), name) == lookup(subs, name),
    decreases generics,
{
    match (generics, args) {
        (Cons(_, _), Cons(_, _)) => {
            let later = generics.rest();
            assert(generics.seq() == seq![generics.head()] + later.seq());
            assert(generics.seq()[0].name != name);
            assert forall|i: int| 0 <= i < later.seq().len() implies (
            #[trigger] later.seq()[i]).name != name by {
                assert(generics.seq()[i + 1] == later.seq()[i]);
            }
            update_then_lookup(subs, generics.head().name, args.head(), name);
            later_bindings_keep(
                updated(subs, generics.head().name, args.head()),
                later,
                args.rest(),
                name,
            );
        },
        _ => {},
    }
}

/// A parameter stands for the argument in its position.
pub proof fn arguments_go_by_position(
    subs: Substitutions,
    generics: List<HirGeneric>,
    args: List<HirType>,
    at: int,
)
    requires
        0 <= at < generics.seq().len(),
        at < args.seq().len(),
        forall|i: int|
            at < i < generics.seq().len() ==> (#[trigger] generics.seq()[i]).name
                != generics.seq()[at].name,
    ensures
        lookup(bound_onto(subs, generics, args), generics.seq()[at].name) == Some(args.seq()[at]),
    decreases generics,
{
    match (generics, args) {
        (Cons(_, _), Cons(_, _)) => {
            let later = generics.rest();
            assert(generics.seq() == seq![generics.head()] + later.seq());
            assert(args.seq() == seq![args.head()] + args.rest().seq());
            let next = updated(subs, generics.head().name, args.head());
            assert forall|i: int| at - 1 < i < later.seq().len() implies (
            #[trigger] later.seq()[i]).name != generics.seq()[at].name by {
                assert(generics.seq()[i + 1] == later.seq()[i]);
            }
            if at == 0 {
                update_then_lookup(
                    subs,
                    generics.head().name,
                    args.head(),
                    generics.head().name,
                );
                later_bindings_keep(next, later, args.rest(), generics.head().name);
            } else {
                arguments_go_by_position(next, later, args.rest(), at - 1);
            }
        },
        _ => {},
    }
}

/// The arguments of a type are complete where there is one for each parameter, the given ones first.
/// There cannot be more than there are parameters, and none may be missing that has no default.
pub proof fn given_arguments_come_first(
    generics: List<HirGeneric>,
    args: List<HirType>,
    subs: Substitutions,
)
    ensures
        match completed(generics, args, subs) {
            Some(full) => {
                &&& full.seq().len() == generics.seq().len()
                &&& args.seq().is_prefix_of(full.seq())
            },
            None => args.seq().len() > generics.seq().len() || exists|i: int|
                args.seq().len() <= i < generics.seq().len() && (
                #[trigger] generics.seq()[i]).default_type is None,
        },
    decreases generics,
{
    match generics {
        Nil => {
            if let Cons(_, _) = args {
                assert(args.seq().len() > 0);
            }
        },
        Cons(_, _) => {
            let later = generics.rest();
            let generic = generics.head();
            assert(generics.seq() == seq![generic] + later.seq());
            match args {
                Cons(_, _) => {
                    let arg = args.head();
                    assert(args.seq() == seq![arg] + args.rest().seq());
                    let next = updated(subs, generic.name, arg);
                    given_arguments_come_first(later, args.rest(), next);
                    match completed(later, args.rest(), next) {
                        Some(tail) => {
                            assert(List::cons_of(arg, tail).seq() == seq![arg] + tail.seq());
                        },
                        None => if args.rest().seq().len() <= later.seq().len() {
                            let i = choose|i: int|
                                args.rest().seq().len() <= i < later.seq().len() && (
                                #[trigger] later.seq()[i]).default_type is None;
                            assert(generics.seq()[i + 1].default_type is None);
                        },
                    }
                },
                Nil => match generic.default_type {
                    Some(default_type) => {
                        let ty = substituted(default_type, subs);
                        let next = updated(subs, generic.name, ty);
                        given_arguments_come_first(later, Nil, next);
                        match completed(later, Nil, next) {
                            Some(tail) => {
                                assert(List::cons_of(ty, tail).seq() == seq![ty] + tail.seq());
                            },
                            None => {
                                let i = choose|i: int|
                                    0 <= i < later.seq().len() && (
                                    #[trigger] later.seq()[i]).default_type is None;
                                assert(generics.seq()[i + 1].default_type is None);
                            },
                        }
                    },
                    None => {
                        assert(generics.seq()[0].default_type is None);
                    },
                },
            }
        },
    }
}

/// The arguments of a call are kept as they are given, and defaults come behind them.
pub proof fn calls_keep_given_arguments(
    generics: List<HirGeneric>,
    args: List<HirType>,
    subs: Substitutions,
)
    ensures
        args.seq().is_prefix_of(filled(generics, args, subs).seq()),
        filled(generics, args, subs).seq().len() > args.seq().len() ==> filled(
            generics,
            args,
            subs,
        ).seq().len() <= generics.seq().len(),
    decreases generics,
{
    match generics {
        Nil => {},
        Cons(_, _) => {
            let generic = generics.head();
            match args {
                Cons(_, _) => {
                    calls_keep_given_arguments(
                        generics.rest(),
                        args.rest(),
                        updated(subs, generic.name, args.head()),
                    );
                    assert(args.seq() == seq![args.head()] + args.rest().seq());
                },
                Nil => if let Some(default_type) = generic.default_type {
                    let ty = substituted(default_type, subs);
                    calls_keep_given_arguments(
                        generics.rest(),
                        Nil,
                        updated(subs, generic.name, ty),
                    );
                },
            }
        },
    }
}

/// The value of each parameter, in order; one that stands for nothing is not known.
pub proof fn values_are_in_order(generics: List<HirGeneric>, subs: Substitutions, at: int)
    requires
        0 <= at < generics.seq().len(),
    ensures
        values_for(generics, subs).seq().len() == generics.seq().len(),
        values_for(generics, subs).seq()[at] == match lookup(subs, generics.seq()[at].name) {
            Some(ty) => ty,
            None => HirType::Unknown,
        },
    decreases generics,
{
    values_one_each(generics, subs);
    match generics {
        Nil => {},
        Cons(_, _) => {
            let all = values_for(generics, subs);
            assert(generics.seq() == seq![generics.head()] + generics.rest().seq());
            assert(all.seq() == seq![all.head()] + all.rest().seq());
            if at > 0 {
                values_are_in_order(generics.rest(), subs, at - 1);
            }
        },
    }
}

proof fn values_one_each(generics: List<HirGeneric>, subs: Substitutions)
    ensures
        values_for(generics, subs).seq().len() == generics.seq().len(),
    decreases generics,
{
    match generics {
        Nil => {},
        Cons(_, _) => values_one_each(generics.rest(), subs),
    }
}

/// What an expected type tells of its parameters does not replace what is known of them.
pub proof fn expectation_replaces_nothing(
    subs: Substitutions,
    generics: List<HirGeneric>,
    args: List<HirType>,
    name: StrId,
)
    ensures
        has_key(subs, name) ==> lookup(bound_where_unknown(subs, generics, args), name) == lookup(
            subs,
            name,
        ),
    decreases generics,
{
    match (generics, args) {
        (Cons(_, _), Cons(_, _)) => {
            let first = generics.head().name;
            let next = if has_key(subs, first) {
                subs
            } else {
                updated(subs, first, args.head())
            };
            update_then_lookup(subs, first, args.head(), name);
            expectation_replaces_nothing(next, generics.rest(), args.rest(), name);
        },
        _ => {},
    }
}

/// An expected type tells of the parameters that are not known.
pub proof fn expectation_fills_in(
    subs: Substitutions,
    generics: List<HirGeneric>,
    args: List<HirType>,
    at: int,
)
    requires
        0 <= at < generics.seq().len(),
        at < args.seq().len(),
        !has_key(subs, generics.seq()[at].name),
        forall|i: int|
            0 <= i < at ==> (#[trigger] generics.seq()[i]).name != generics.seq()[at].name,
    ensures
        lookup(bound_where_unknown(subs, generics, args), generics.seq()[at].name) == Some(
            args.seq()[at],
        ),
    decreases generics,
{
    match (generics, args) {
        (Cons(_, _), Cons(_, _)) => {
            let later = generics.rest();
            let name = generics.seq()[at].name;
            assert(generics.seq() == seq![generics.head()] + later.seq());
            assert(args.seq() == seq![args.head()] + args.rest().seq());
            let first = generics.head().name;
            let next = if has_key(subs, first) {
                subs
            } else {
                updated(subs, first, args.head())
            };
            update_then_lookup(subs, first, args.head(), name);
            if at == 0 {
                expectation_replaces_nothing(next, later, args.rest(), name);
            } else {
                assert(generics.seq()[0].name != name);
                assert forall|i: int| 0 <= i < at - 1 implies (#[trigger] later.seq()[i]).name
                    != name by {
                    assert(generics.seq()[i + 1] == later.seq()[i]);
                }
                expectation_fills_in(next, later, args.rest(), at - 1);
            }
        },
        _ => {},
    }
}

/// The types of the fields of an instance: each is that of the declared field, its parameters filled
/// in.
pub proof fn fields_are_filled_in_order(fields: List<HirField>, subs: Substitutions, at: int)
    requires
        0 <= at < fields.seq().len(),
    ensures
        fields_substituted(fields, subs).seq().len() == fields.seq().len(),
        fields_substituted(fields, subs).seq()[at] == substituted(
            fields.seq()[at].field_type,
            subs,
        ),
    decreases fields,
{
    fields_one_each(fields, subs);
    match fields {
        Nil => {},
        Cons(_, _) => {
            let all = fields_substituted(fields, subs);
            assert(fields.seq() == seq![fields.head()] + fields.rest().seq());
            assert(all.seq() == seq![all.head()] + all.rest().seq());
            if at > 0 {
                fields_are_filled_in_order(fields.rest(), subs, at - 1);
            }
        },
    }
}

proof fn fields_one_each(fields: List<HirField>, subs: Substitutions)
    ensures
        fields_substituted(fields, subs).seq().len() == fields.seq().len(),
    decreases fields,
{
    match fields {
        Nil => {},
        Cons(_, _) => fields_one_each(fields.rest(), subs),
    }
}

/// The parameters of a call keep their names and their order, and their types are filled in.
pub proof fn params_are_filled_in_order(params: List<HirParam>, subs: Substitutions, at: int)
    requires
        0 <= at < params.seq().len(),
    ensures
        params_substituted(params, subs).seq().len() == params.seq().len(),
        match (params.seq()[at], params_substituted(params, subs).seq()[at]) {
            (
                HirParam::Normal { name, param_type, multi_place, .. },
                HirParam::Normal { name: same, param_type: filled_in, multi_place: kept, .. },
            ) => name == same && filled_in == substituted(param_type, subs) && kept == multi_place,
            (HirParam::This { .. }, after) => after == params.seq()[at],
            _ => false,
        },
    decreases params,
{
    params_one_each(params, subs);
    match params {
        Nil => {},
        Cons(_, _) => {
            let all = params_substituted(params, subs);
            assert(params.seq() == seq![params.head()] + params.rest().seq());
            assert(all.seq() == seq![all.head()] + all.rest().seq());
            if at > 0 {
                params_are_filled_in_order(params.rest(), subs, at - 1);
            }
        },
    }
}

proof fn params_one_each(params: List<HirParam>, subs: Substitutions)
    ensures
        params_substituted(params, subs).seq().len() == params.seq().len(),
    decreases params,
{
    match params {
        Nil => {},
        Cons(_, _) => params_one_each(params.rest(), subs),
    }
}

/// A method is found by its name, and the first of that name.
pub proof fn methods_are_found_by_name(methods: List<HirFunc>, name: StrId)
    ensures
        match method_named(methods, name) {
            Some(found) => exists|i: int|
                0 <= i < methods.seq().len() && (#[trigger] methods.seq()[i]) == found
                    && found.unmangled_name == name && forall|j: int|
                    0 <= j < i ==> (#[trigger] methods.seq()[j]).unmangled_name != name,
            None => forall|j: int|
                0 <= j < methods.seq().len() ==> (#[trigger] methods.seq()[j]).unmangled_name
                    != name,
        },
    decreases methods,
{
    match methods {
        Nil => {},
        Cons(_, _) => {
            let all = methods.seq();
            let later = methods.rest().seq();
            assert(all == seq![methods.head()] + later);
            assert(all[0] == methods.head());
            if methods.head().unmangled_name != name {
                methods_are_found_by_name(methods.rest(), name);
                assert forall|j: int| 0 < j < all.len() implies (#[trigger] all[j]) == later[j
                    - 1] by {}
                if let Some(found) = method_named(methods.rest(), name) {
                    let i = choose|i: int|
                        0 <= i < later.len() && (#[trigger] later[i]) == found
                            && found.unmangled_name == name && forall|j: int|
                            0 <= j < i ==> (#[trigger] later[j]).unmangled_name != name;
                    assert(all[i + 1] == found);
                    assert forall|j: int| 0 <= j < i + 1 implies (
                    #[trigger] all[j]).unmangled_name != name by {
                        if j > 0 {
                            assert(later[j - 1].unmangled_name != name);
                        }
                    }
                }
            }
        },
    }
}

/// What a type inherits is a method of the name with a body.
pub proof fn inherited_methods_have_bodies(methods: List<HirFunc>, name: StrId)
    ensures
        match default_method(methods, name) {
            Some(found) => methods.has(found) && found.unmangled_name == name && found.body is Some,
            None => forall|func: HirFunc| #[trigger]
                methods.has(func) && func.unmangled_name == name ==> func.body is None,
        },
    decreases methods,
{
    match methods {
        Nil => {
            assert forall|func: HirFunc| #[trigger]
                methods.has(func) && func.unmangled_name == name implies func.body is None by {
                reveal_with_fuel(List::has, 2);
            }
        },
        Cons(_, _) => {
            inherited_methods_have_bodies(methods.rest(), name);
            assert forall|func: HirFunc| #[trigger]
                methods.has(func) && func.unmangled_name == name && default_method(
                    methods,
                    name,
                ) is None implies func.body is None by {
                assert(func == methods.head() || methods.rest().has(func));
            }
        },
    }
}

/// A call of an unsafe function needs an unsafe block.
pub proof fn unsafe_functions_need_unsafe(checker: TypeChecker, func: HirFunc, message: Message)
    requires
        !checker.diagnostics.suppress_errors,
    ensures
        ({
            let after = checker.after_safety(func, message);
            if func.func_safety is Unsafe && checker.modes.unsafe_depth == 0 {
                checker.says(message, after)
            } else {
                after == checker
            }
        }),
{
    reveal(TypeChecker::after_safety);
    recording_reports(checker, TypeErrorKind::Generic(message));
}

} // verus!
