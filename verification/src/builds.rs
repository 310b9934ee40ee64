//! What a build does with its modules: which it takes, in which order, and what comes of them.

use vstd::prelude::*;

use crate::compiler::{
    checking, checks, finishing, importers_of, imports_of, instantiations, of_modules,
    registrations, those_in, those_not_in, with_all, without, Compiler, Emission, Instance, Work,
};
use crate::hir::StrId;
use crate::list::{
    append_joins, has_key, lookup, member_added, update_then_lookup, Cons, List, Nil, Table,
};

verus! {

/// Taking a module out of a list leaves the others.
pub proof fn others_are_left(list: List<usize>, gone: usize, module: usize)
    ensures
        without(list, gone).has(module) == (list.has(module) && module != gone),
    decreases list,
{
    match list {
        Nil => {},
        Cons(_, _) => others_are_left(list.rest(), gone, module),
    }
}

/// The modules of one list that another has, and those that it has not, are all of them.
pub proof fn modules_are_parted(list: List<usize>, other: List<usize>, module: usize)
    ensures
        those_in(list, other).has(module) == (list.has(module) && other.has(module)),
        those_not_in(list, other).has(module) == (list.has(module) && !other.has(module)),
        those_in(list, other).seq().len() + those_not_in(list, other).seq().len()
            == list.seq().len(),
    decreases list,
{
    match list {
        Nil => {},
        Cons(_, _) => modules_are_parted(list.rest(), other, module),
    }
}

/// A list with all the modules of another.
pub proof fn modules_are_joined(list: List<usize>, more: List<usize>, module: usize)
    ensures
        with_all(list, more).has(module) == (list.has(module) || more.has(module)),
    decreases more,
{
    match more {
        Nil => {},
        Cons(_, _) => {
            member_added(list, more.head(), module);
            modules_are_joined(
                crate::list::with_member(list, more.head()),
                more.rest(),
                module,
            );
        },
    }
}

/// Whether a module is one of those that have a name.
pub open spec fn is_named(ids: Table<StrId, usize>, module: usize) -> bool
    decreases ids,
{
    match ids {
        Nil => false,
        Cons(entry, rest) => entry.1 == module || is_named(*rest, module),
    }
}

/// A module of the standard library is imported by every module that is not of it, but by none of
/// its own.
pub proof fn the_library_is_imported_by_the_rest(
    ids: Table<StrId, usize>,
    stdlib: List<usize>,
    module_idx: usize,
    others: List<(usize, usize)>,
    edge: (usize, usize),
)
    ensures
        importers_of(ids, stdlib, module_idx, others).has(edge) == (others.has(edge) || (edge.1
            == module_idx && edge.0 != module_idx && is_named(ids, edge.0) && !stdlib.has(edge.0))),
    decreases ids,
{
    match ids {
        Nil => {},
        Cons(_, _) => {
            the_library_is_imported_by_the_rest(ids.rest(), stdlib, module_idx, others, edge);
        },
    }
}

/// A module that is not of the standard library imports every module of it.
pub proof fn modules_import_the_library(
    module_idx: usize,
    stdlib: List<usize>,
    others: List<(usize, usize)>,
    edge: (usize, usize),
)
    ensures
        imports_of(module_idx, stdlib, others).has(edge) == (others.has(edge) || (edge.0
            == module_idx && stdlib.has(edge.1))),
    decreases stdlib,
{
    match stdlib {
        Nil => {},
        Cons(_, _) => modules_import_the_library(module_idx, stdlib.rest(), others, edge),
    }
}

proof fn registered_in_order(ready: List<usize>, others: List<Work>)
    ensures
        registrations(ready, others).seq() == ready.seq().map_values(
            |module: usize| Work::Register(module),
        ) + others.seq(),
    decreases ready,
{
    let register = |module: usize| Work::Register(module);
    match ready {
        Nil => {
            assert(ready.seq().map_values(register) + others.seq() == others.seq());
        },
        Cons(_, _) => {
            registered_in_order(ready.rest(), others);
            assert(ready.seq() == seq![ready.head()] + ready.rest().seq());
            assert(ready.seq().map_values(register) == seq![register(ready.head())]
                + ready.rest().seq().map_values(register));
            assert(registrations(ready, others).seq() == seq![register(ready.head())]
                + registrations(ready.rest(), others).seq());
            assert(registrations(ready, others).seq() == ready.seq().map_values(register)
                + others.seq());
        },
    }
}

proof fn checked_in_order(ready: List<usize>)
    ensures
        checks(ready).seq() == ready.seq().map_values(|module: usize| Work::CheckBody(module)),
    decreases ready,
{
    let check = |module: usize| Work::CheckBody(module);
    match ready {
        Nil => {
            assert(checks(ready).seq() == ready.seq().map_values(check));
        },
        Cons(_, _) => {
            checked_in_order(ready.rest());
            assert(ready.seq() == seq![ready.head()] + ready.rest().seq());
            assert(checks(ready).seq() == ready.seq().map_values(check));
        },
    }
}

proof fn instantiated_in_order(ready: List<usize>)
    ensures
        instantiations(ready).seq() == ready.seq().map_values(
            |module: usize| Work::Monomorphize(module),
        ),
    decreases ready,
{
    let instantiate = |module: usize| Work::Monomorphize(module);
    match ready {
        Nil => {
            assert(instantiations(ready).seq() == ready.seq().map_values(instantiate));
        },
        Cons(_, _) => {
            instantiated_in_order(ready.rest());
            assert(ready.seq() == seq![ready.head()] + ready.rest().seq());
            assert(instantiations(ready).seq() == ready.seq().map_values(instantiate));
        },
    }
}

/// Every module of a group is registered, in order, before what they know of each other is worked
/// out, and all of that before any of their bodies is checked.
pub proof fn declarations_come_before_bodies(ready: List<usize>)
    ensures
        checking(ready).seq() == ready.seq().map_values(|module: usize| Work::Register(module))
            + seq![Work::Recompute(ready)] + ready.seq().map_values(
            |module: usize| Work::CheckBody(module),
        ),
{
    let rest = List::cons_of(Work::Recompute(ready), checks(ready));
    registered_in_order(ready, rest);
    checked_in_order(ready);
    assert(rest.seq() == seq![Work::Recompute(ready)] + checks(ready).seq());
    let first = ready.seq().map_values(|module: usize| Work::Register(module));
    assert(first + (seq![Work::Recompute(ready)] + checks(ready).seq()) == first
        + seq![Work::Recompute(ready)] + checks(ready).seq());
}

/// Where there are errors, nothing is built of a group; where there are none, each of its modules is,
/// in order.
pub proof fn errors_end_the_build(ready: List<usize>)
    ensures
        finishing(ready, true) is Nil,
        finishing(ready, false).seq() == ready.seq().map_values(
            |module: usize| Work::Monomorphize(module),
        ),
{
    instantiated_in_order(ready);
}

/// An instance that was emitted is not emitted again. Each goes to the module that owns it, behind
/// the ones before it.
pub proof fn instances_are_emitted_once(
    emission: Emission,
    name: StrId,
    owner: usize,
    instance: Instance,
    other: usize,
)
    ensures
        ({
            let after = emission.with(name, Some(owner), instance);
            &&& after.emitted.has(name)
            &&& after.with(name, Some(other), instance) == after
            &&& emission.emitted.has(name) ==> after == emission
            &&& !emission.emitted.has(name) ==> match lookup(after.by_module, other) {
                Some(instances) => if other == owner {
                    instances == match lookup(emission.by_module, owner) {
                        Some(known) => known.snoc(instance),
                        None => List::one_of(instance),
                    }
                } else {
                    lookup(emission.by_module, other) == Some(instances)
                },
                None => other != owner && lookup(emission.by_module, other) is None,
            }
        }),
{
    let instances = match lookup(emission.by_module, owner) {
        Some(known) => known,
        None => Nil,
    };
    update_then_lookup(emission.by_module, owner, instances.snoc(instance), other);
    update_then_lookup(emission.by_module, owner, instances.snoc(instance), owner);
    reveal_with_fuel(List::snoc, 2);
}

/// The instances of some modules are what was emitted for these, and nothing of the others.
pub proof fn modules_get_their_own_instances(
    by_module: Table<usize, List<Instance>>,
    modules: List<usize>,
    module: usize,
)
    ensures
        lookup(of_modules(by_module, modules), module) == if modules.has(module) {
            lookup(by_module, module)
        } else {
            None
        },
    decreases by_module,
{
    match by_module {
        Nil => {},
        Cons(_, _) => modules_get_their_own_instances(by_module.rest(), modules, module),
    }
}

/// The modules that are compiled, from one on, are those that are ready for it.
pub proof fn ready_modules_are_compiled(compiler: Compiler, from: usize, module: usize)
    ensures
        compiler.compiled_from(from).has(module) == (from <= module < compiler.next_module_idx
            && compiler.codegen_hir_modules.has(module)),
    decreases compiler.next_module_idx - from,
{
    if from < compiler.next_module_idx {
        ready_modules_are_compiled(compiler, (from + 1) as usize, module);
    } else {
        reveal_with_fuel(List::has, 2);
    }
}

} // verus!
