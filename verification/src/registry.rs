//! That what is declared is found again, and nothing else changes.

use std::rc::Rc;

use vstd::prelude::*;

use crate::borrow::BorrowOp;
use crate::hir::{HirFunc, HirParam, StrId};
use crate::init_nodes::complete;
use crate::list::{lookup, member_added, update_then_lookup, updated, with_member, Cons, List, Nil};
use crate::modules::occurring_elsewhere;
use crate::steps::steps_of;
use crate::type_checker::{this_name, Occurrence, TypeChecker};
use crate::type_context::{list_at, LocalSymbolId, SymbolId, TypeContext, TypeMethodTable};

verus! {

/// A function that is declared in a module is found there by its name; every other function is found
/// as before.
pub proof fn declared_functions_are_found(
    context: TypeContext,
    module: usize,
    name: StrId,
    func: Rc<HirFunc>,
    other_module: usize,
    other: StrId,
)
    ensures
        context.with_function(module, name, func).function_in(other_module, other) == if other_module
            == module && other == name {
            Some(func)
        } else {
            context.function_in(other_module, other)
        },
{
    let functions = list_at(context.module_functions, module);
    update_then_lookup(functions, name, func, other);
    update_then_lookup(
        context.module_functions,
        module,
        updated(functions, name, func),
        other_module,
    );
}

/// A struct implements the interfaces that it was declared to implement, and no others.
pub proof fn declared_interfaces_are_implemented(
    context: TypeContext,
    name: StrId,
    interface: StrId,
    other: StrId,
    wanted: StrId,
)
    ensures
        context.with_struct_interface(name, interface).implements(other, wanted) == (
        context.implements(other, wanted) || (other == name && wanted == interface)),
{
    let known = list_at(context.struct_interfaces, name);
    member_added(known, interface, wanted);
    update_then_lookup(
        context.struct_interfaces,
        name,
        with_member(known, interface),
        other,
    );
}

/// A method that is declared for a type is found there by its name; every other method is found as
/// before.
pub proof fn declared_methods_are_found(
    context: TypeContext,
    owner: StrId,
    name: StrId,
    func: Rc<HirFunc>,
    other_owner: StrId,
    other: StrId,
)
    ensures
        context.with_method(owner, name, func).method_of(other_owner, other) == if other_owner
            == owner && other == name {
            Some(func)
        } else {
            context.method_of(other_owner, other)
        },
{
    let table = context.methods_for(owner);
    update_then_lookup(table.methods, name, func, other);
    update_then_lookup(
        context.type_methods,
        owner,
        TypeMethodTable { methods: updated(table.methods, name, func) },
        other_owner,
    );
}

/// The name under which a parameter is known in the body.
pub open spec fn inner_name(param: HirParam) -> StrId {
    match param {
        HirParam::Normal { name, .. } => name,
        HirParam::This { .. } => this_name(),
    }
}

proof fn later_params_keep(
    checker: TypeChecker,
    func: HirFunc,
    params: List<HirParam>,
    scope: TypeContext,
    name: StrId,
)
    requires
        forall|i: int|
            0 <= i < params.seq().len() ==> inner_name(#[trigger] params.seq()[i]) != name,
    ensures
        lookup(checker.params_entered(func, params, scope).1.variables, name) == lookup(
            scope.variables,
            name,
        ),
        lookup(checker.params_entered(func, params, scope).0.flow.inits, name) == lookup(
            checker.flow.inits,
            name,
        ),
    decreases params,
{
    match params {
        Nil => {},
        Cons(_, _) => {
            let param = params.head();
            let later = params.rest();
            assert(params.seq() == seq![param] + later.seq());
            assert(inner_name(params.seq()[0]) != name);
            assert forall|i: int| 0 <= i < later.seq().len() implies inner_name(
                #[trigger] later.seq()[i],
            ) != name by {
                assert(params.seq()[i + 1] == later.seq()[i]);
            }
            let (next, inner) = one_param_entered(checker, func, param, scope);
            reveal_with_fuel(TypeChecker::params_entered, 2);
            let symbol = SymbolId::Local(LocalSymbolId(checker.next_symbol_id));
            update_then_lookup(checker.flow.inits, inner_name(param), complete(), name);
            match param {
                HirParam::Normal { name: own, param_type, .. } => {
                    update_then_lookup(scope.variables, own, (symbol, param_type), name);
                },
                HirParam::This { .. } => {
                    update_then_lookup(
                        scope.variables,
                        this_name(),
                        (symbol, checker.context.this_type(func)),
                        name,
                    );
                },
            }
            later_params_keep(next, func, later, inner, name);
        },
    }
}

/// The checker and the scope with one parameter in it.
pub open spec fn one_param_entered(
    checker: TypeChecker,
    func: HirFunc,
    param: HirParam,
    scope: TypeContext,
) -> (TypeChecker, TypeContext) {
    checker.params_entered(func, List::one_of(param), scope)
}

/// In the body of a function, each parameter is known by its name and its type, and has a value.
pub proof fn params_are_known_in_the_body(
    checker: TypeChecker,
    func: HirFunc,
    params: List<HirParam>,
    scope: TypeContext,
    at: int,
)
    requires
        0 <= at < params.seq().len(),
        forall|i: int|
            at < i < params.seq().len() ==> inner_name(#[trigger] params.seq()[i]) != inner_name(
                params.seq()[at],
            ),
    ensures
        ({
            let (after, inner) = checker.params_entered(func, params, scope);
            let name = inner_name(params.seq()[at]);
            &&& lookup(after.flow.inits, name) == Some(complete())
            &&& params.seq()[at] matches HirParam::Normal { param_type, .. } ==> (lookup(
                inner.variables,
                name,
            ) matches Some((_, ty)) && ty == param_type)
        }),
    decreases params,
{
    match params {
        Nil => {},
        Cons(_, _) => {
            let param = params.head();
            let later = params.rest();
            assert(params.seq() == seq![param] + later.seq());
            let name = inner_name(params.seq()[at]);
            assert forall|i: int| at - 1 < i < later.seq().len() implies inner_name(
                #[trigger] later.seq()[i],
            ) != name by {
                assert(params.seq()[i + 1] == later.seq()[i]);
            }
            let (next, inner) = one_param_entered(checker, func, param, scope);
            reveal_with_fuel(TypeChecker::params_entered, 2);
            if at == 0 {
                let symbol = SymbolId::Local(LocalSymbolId(checker.next_symbol_id));
                update_then_lookup(checker.flow.inits, name, complete(), name);
                if let HirParam::Normal { param_type, .. } = param {
                    update_then_lookup(scope.variables, name, (symbol, param_type), name);
                }
                later_params_keep(next, func, later, inner, name);
            } else {
                params_are_known_in_the_body(next, func, later, inner, at - 1);
            }
        },
    }
}

/// A function starts with nothing borrowed or declared, in a scope of its own, and ends it.
pub proof fn functions_have_a_scope_of_their_own(checker: TypeChecker, func: HirFunc, name: StrId)
    ensures
        checker.function_entered(func).steps() == checker.steps().push(BorrowOp::Reset).push(
            BorrowOp::BeginScope,
        ),
        !checker.function_entered(func).loans.declared.has(name),
        checker.function_entered(func).flow == checker.flow,
        checker.function_checked(func).steps().len() > 0,
        checker.function_checked(func).steps().last() == BorrowOp::EndScope,
{
    reveal_with_fuel(steps_of, 3);
}

/// The occurrences that are kept of a module that is looked at again are those in the others.
pub proof fn occurrences_elsewhere_are_kept(
    occurrences: List<Occurrence>,
    module_idx: usize,
    occurrence: Occurrence,
)
    ensures
        occurring_elsewhere(occurrences, module_idx).has(occurrence) == (occurrences.has(occurrence)
            && occurrence.module_idx != module_idx),
    decreases occurrences,
{
    match occurrences {
        Nil => {},
        Cons(_, _) => occurrences_elsewhere_are_kept(occurrences.rest(), module_idx, occurrence),
    }
}

} // verus!
