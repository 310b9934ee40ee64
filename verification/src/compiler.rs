//! How a program is built out of modules.
//!
//! Modules are read, parsed, lowered, checked and compiled elsewhere. What is decided here is which
//! number a module has, what it imports without saying so, in which groups and in which order modules
//! are checked, which instances of generic items belong to which module, and when a build fails.

use vstd::prelude::*;
use vstd::string::*;

use crate::compiler_errors::{append_number, decimal, join, joined, views, CompilerError};
use crate::hir::StrId;
use crate::list::{
    add_member, find, has_key, lookup, update, update_then_lookup, updated, with_member, Cons, List,
    Nil, Table,
};
use crate::type_checker::{after_usize, next_usize};

verus! {

/// A source file that was read.
#[derive(Debug)]
pub struct SourceFile {
    pub path: String,
    pub source: String,
}

/// Reads source files.
pub trait FileLoader {
    fn load_files(&self, paths: &Vec<String>) -> Result<Vec<SourceFile>, String>;
}

#[derive(Clone, Copy, Debug, PartialEq, Eq, Structural)]
pub enum Platform {
    Linux,
    Windows,
    Other,
}

/// A way to read source files.
#[derive(Clone, Copy, Debug, PartialEq, Eq, Structural)]
pub enum LoaderKind {
    /// Many files at once, through a queue of a length.
    IoUring(u32),
    /// One file after the other.
    Standard,
}

/// The way to read source files on a platform, if there is one.
pub fn choose_file_loader(platform: Platform) -> (loader: Option<LoaderKind>)
    ensures
        loader == match platform {
            Platform::Linux => Some(LoaderKind::IoUring(256)),
            Platform::Windows => None,
            Platform::Other => Some(LoaderKind::Standard),
        },
{
    match platform {
        Platform::Linux => Some(LoaderKind::IoUring(256)),
        Platform::Windows => None,
        Platform::Other => Some(LoaderKind::Standard),
    }
}

/// A part of the work on modules.
#[derive(Debug, PartialEq, Eq)]
pub enum Work {
    /// Makes the declarations of a module known to the checker.
    Register(usize),
    /// Finds out anew which types are copied.
    Recompute(List<usize>),
    /// Checks the bodies of a module.
    CheckBody(usize),
    /// Compiles the instances that a module needs.
    Monomorphize(usize),
}

/// An instance of a generic item, by its name.
#[derive(Clone, Copy, Debug, PartialEq, Eq, Structural)]
pub enum Instance {
    Func(StrId),
    Struct(StrId),
    Enum(StrId),
}

/// The modules of a program.
#[derive(Debug, PartialEq, Eq)]
pub struct Compiler {
    /// The numbers of modules by the names of their files.
    pub module_ids: Table<StrId, usize>,
    pub next_module_idx: usize,
    /// The modules of the standard library.
    pub stdlib_module_ids: List<usize>,
    /// The modules whose text is loaded.
    pub modules: List<usize>,
    /// The modules that are lowered.
    pub hir_modules: List<usize>,
    /// The modules that are ready to be compiled.
    pub codegen_hir_modules: List<usize>,
}

/// A list without an element.
pub open spec fn without(list: List<usize>, gone: usize) -> List<usize>
    decreases list,
{
    match list {
        Nil => Nil,
        Cons(head, tail) => if *head == gone {
            without(*tail, gone)
        } else {
            List::cons_of(*head, without(*tail, gone))
        },
    }
}

fn remove(list: &List<usize>, gone: usize) -> (rest: List<usize>)
    ensures
        rest == without(*list, gone),
    decreases list,
{
    match list {
        Nil => Nil,
        Cons(head, tail) => if **head == gone {
            remove(tail, gone)
        } else {
            List::cons(**head, remove(tail, gone))
        },
    }
}

/// The elements of a list that are in another list.
pub open spec fn those_in(list: List<usize>, wanted: List<usize>) -> List<usize>
    decreases list,
{
    match list {
        Nil => Nil,
        Cons(head, tail) => if wanted.has(*head) {
            List::cons_of(*head, those_in(*tail, wanted))
        } else {
            those_in(*tail, wanted)
        },
    }
}

fn keep_those_in(list: &List<usize>, wanted: &List<usize>) -> (kept: List<usize>)
    ensures
        kept == those_in(*list, *wanted),
    decreases list,
{
    match list {
        Nil => Nil,
        Cons(head, tail) => if wanted.contains(head) {
            List::cons(**head, keep_those_in(tail, wanted))
        } else {
            keep_those_in(tail, wanted)
        },
    }
}

/// The elements of a list that are not in another list.
pub open spec fn those_not_in(list: List<usize>, unwanted: List<usize>) -> List<usize>
    decreases list,
{
    match list {
        Nil => Nil,
        Cons(head, tail) => if unwanted.has(*head) {
            those_not_in(*tail, unwanted)
        } else {
            List::cons_of(*head, those_not_in(*tail, unwanted))
        },
    }
}

fn keep_those_not_in(list: &List<usize>, unwanted: &List<usize>) -> (kept: List<usize>)
    ensures
        kept == those_not_in(*list, *unwanted),
    decreases list,
{
    match list {
        Nil => Nil,
        Cons(head, tail) => if unwanted.contains(head) {
            keep_those_not_in(tail, unwanted)
        } else {
            List::cons(**head, keep_those_not_in(tail, unwanted))
        },
    }
}

/// The imports of a module of the standard library by the other modules: all that are not of the
/// standard library.
pub open spec fn importers_of(
    ids: Table<StrId, usize>,
    stdlib: List<usize>,
    module_idx: usize,
    others: List<(usize, usize)>,
) -> List<(usize, usize)>
    decreases ids,
{
    match ids {
        Nil => others,
        Cons(entry, rest) => {
            let later = importers_of(*rest, stdlib, module_idx, others);
            if entry.1 != module_idx && !stdlib.has(entry.1) {
                List::cons_of((entry.1, module_idx), later)
            } else {
                later
            }
        },
    }
}

fn find_importers(
    ids: &Table<StrId, usize>,
    stdlib: &List<usize>,
    module_idx: usize,
    others: List<(usize, usize)>,
) -> (imports: List<(usize, usize)>)
    ensures
        imports == importers_of(*ids, *stdlib, module_idx, others),
    decreases ids,
{
    match ids {
        Nil => others,
        Cons(entry, rest) => {
            let later = find_importers(rest, stdlib, module_idx, others);
            if entry.1 != module_idx && !stdlib.contains(&entry.1) {
                List::cons((entry.1, module_idx), later)
            } else {
                later
            }
        },
    }
}

/// The imports of all modules of the standard library by one module.
pub open spec fn imports_of(
    module_idx: usize,
    stdlib: List<usize>,
    others: List<(usize, usize)>,
) -> List<(usize, usize)>
    decreases stdlib,
{
    match stdlib {
        Nil => others,
        Cons(head, tail) => List::cons_of(
            (module_idx, *head),
            imports_of(module_idx, *tail, others),
        ),
    }
}

fn find_imports(module_idx: usize, stdlib: &List<usize>, others: List<(usize, usize)>) -> (imports: List<
    (usize, usize),
>)
    ensures
        imports == imports_of(module_idx, *stdlib, others),
    decreases stdlib,
{
    match stdlib {
        Nil => others,
        Cons(head, tail) => List::cons((module_idx, **head), find_imports(module_idx, tail, others)),
    }
}

/// The groups in which modules are checked, by the order of the modules: those that depend on each
/// other form one group.
pub open spec fn grouped(
    order: List<usize>,
    cycles: Table<usize, List<usize>>,
    seen: List<usize>,
) -> List<List<usize>>
    decreases order,
{
    match order {
        Nil => Nil,
        Cons(module_idx, rest) => if seen.has(*module_idx) {
            grouped(*rest, cycles, seen)
        } else {
            let group = cycle_of(cycles, *module_idx);
            List::cons_of(group, grouped(*rest, cycles, with_all(with_member(seen, *module_idx), group)))
        },
    }
}

/// The modules that depend on a module and that it depends on.
pub open spec fn cycle_of(cycles: Table<usize, List<usize>>, module_idx: usize) -> List<usize> {
    match lookup(cycles, module_idx) {
        Some(cycle) => cycle,
        None => Nil,
    }
}

/// A list with more members.
pub open spec fn with_all(list: List<usize>, more: List<usize>) -> List<usize>
    decreases more,
{
    match more {
        Nil => list,
        Cons(head, tail) => with_all(with_member(list, *head), *tail),
    }
}

fn add_all(list: List<usize>, more: &List<usize>) -> (result: List<usize>)
    ensures
        result == with_all(list, *more),
    decreases more,
{
    match more {
        Nil => list,
        Cons(head, tail) => add_all(add_member(&list, **head), tail),
    }
}

/// The groups in which modules are checked.
pub fn group_modules(order: &List<usize>, cycles: &Table<usize, List<usize>>, seen: List<usize>) -> (groups:
    List<List<usize>>)
    ensures
        groups == grouped(*order, *cycles, seen),
    decreases order,
{
    match order {
        Nil => Nil,
        Cons(module_idx, rest) => if seen.contains(module_idx) {
            group_modules(rest, cycles, seen)
        } else {
            let group = match find(cycles, &**module_idx) {
                Some(cycle) => cycle.dup(),
                None => Nil,
            };
            let more = add_all(add_member(&seen, **module_idx), &group);
            List::cons(group, group_modules(rest, cycles, more))
        },
    }
}

/// Whether some group has a module.
pub open spec fn in_some_group(groups: List<List<usize>>, module_idx: usize) -> bool
    decreases groups,
{
    match groups {
        Nil => false,
        Cons(group, rest) => group.has(module_idx) || in_some_group(*rest, module_idx),
    }
}

proof fn with_all_has(list: List<usize>, more: List<usize>, wanted: usize)
    ensures
        with_all(list, more).has(wanted) == (list.has(wanted) || more.has(wanted)),
    decreases more,
{
    match more {
        Nil => {},
        Cons(_, _) => {
            crate::list::member_added(list, more.head(), wanted);
            with_all_has(with_member(list, more.head()), more.rest(), wanted);
        },
    }
}

/// Every module of the order is checked: it is in some group, if every module depends on itself.
pub proof fn every_module_is_grouped(
    order: List<usize>,
    cycles: Table<usize, List<usize>>,
    seen: List<usize>,
    module_idx: usize,
)
    requires
        forall|other: usize| order.has(other) ==> #[trigger] cycle_of(cycles, other).has(other),
        order.has(module_idx),
        !seen.has(module_idx),
    ensures
        in_some_group(grouped(order, cycles, seen), module_idx),
    decreases order,
{
    match order {
        Nil => {},
        Cons(_, _) => {
            let head = order.head();
            let rest = order.rest();
            assert forall|other: usize| rest.has(other) implies #[trigger] cycle_of(
                cycles,
                other,
            ).has(other) by {
                assert(order.has(other));
            }
            if seen.has(head) {
                every_module_is_grouped(rest, cycles, seen, module_idx);
            } else {
                let group = cycle_of(cycles, head);
                assert(order.has(head));
                let more = with_all(with_member(seen, head), group);
                with_all_has(with_member(seen, head), group, module_idx);
                crate::list::member_added(seen, head, module_idx);
                if !group.has(module_idx) {
                    assert(module_idx != head);
                    every_module_is_grouped(rest, cycles, more, module_idx);
                }
            }
        },
    }
}

/// Work of one kind on modules, followed by other work.
pub open spec fn registrations(ready: List<usize>, others: List<Work>) -> List<Work>
    decreases ready,
{
    match ready {
        Nil => others,
        Cons(head, tail) => List::cons_of(Work::Register(*head), registrations(*tail, others)),
    }
}

pub open spec fn checks(ready: List<usize>) -> List<Work>
    decreases ready,
{
    match ready {
        Nil => Nil,
        Cons(head, tail) => List::cons_of(Work::CheckBody(*head), checks(*tail)),
    }
}

pub open spec fn instantiations(ready: List<usize>) -> List<Work>
    decreases ready,
{
    match ready {
        Nil => Nil,
        Cons(head, tail) => List::cons_of(Work::Monomorphize(*head), instantiations(*tail)),
    }
}

fn list_registrations(ready: &List<usize>, others: List<Work>) -> (work: List<Work>)
    ensures
        work == registrations(*ready, others),
    decreases ready,
{
    match ready {
        Nil => others,
        Cons(head, tail) => List::cons(Work::Register(**head), list_registrations(tail, others)),
    }
}

fn list_checks(ready: &List<usize>) -> (work: List<Work>)
    ensures
        work == checks(*ready),
    decreases ready,
{
    match ready {
        Nil => Nil,
        Cons(head, tail) => List::cons(Work::CheckBody(**head), list_checks(tail)),
    }
}

fn list_instantiations(ready: &List<usize>) -> (work: List<Work>)
    ensures
        work == instantiations(*ready),
    decreases ready,
{
    match ready {
        Nil => Nil,
        Cons(head, tail) => List::cons(Work::Monomorphize(**head), list_instantiations(tail)),
    }
}

/// What is done to check modules: all are registered before any body is checked.
pub open spec fn checking(ready: List<usize>) -> List<Work> {
    registrations(ready, List::cons_of(Work::Recompute(ready), checks(ready)))
}

/// What is done once modules are checked: without errors they are compiled.
pub open spec fn finishing(ready: List<usize>, has_errors: bool) -> List<Work> {
    if has_errors {
        Nil
    } else {
        instantiations(ready)
    }
}

pub fn plan_finish(ready: &List<usize>, has_errors: bool) -> (work: List<Work>)
    ensures
        work == finishing(*ready, has_errors),
{
    if has_errors {
        Nil
    } else {
        list_instantiations(ready)
    }
}

impl Compiler {
    /// Every module has a number of its own, less than that of the next.
    pub open spec fn wf(self) -> bool {
        &&& forall|name: StrId|
            has_key(self.module_ids, name) ==> #[trigger] lookup(self.module_ids, name)->0
                < self.next_module_idx
        &&& forall|a: StrId, b: StrId|
            has_key(self.module_ids, a) && #[trigger] lookup(self.module_ids, a)
                == #[trigger] lookup(self.module_ids, b) ==> a == b
    }

    pub fn new() -> (compiler: Compiler)
        ensures
            compiler.module_ids == Table::<StrId, usize>::Nil,
            compiler.next_module_idx == 0,
            compiler.stdlib_module_ids == List::<usize>::Nil,
            compiler.modules == List::<usize>::Nil,
            compiler.hir_modules == List::<usize>::Nil,
            compiler.codegen_hir_modules == List::<usize>::Nil,
            compiler.wf(),
    {
        Compiler {
            module_ids: Nil,
            next_module_idx: 0,
            stdlib_module_ids: Nil,
            modules: Nil,
            hir_modules: Nil,
            codegen_hir_modules: Nil,
        }
    }

    /// The number of a module: its old one, or else the next.
    pub open spec fn with_module(self, name: StrId) -> (Compiler, usize) {
        match lookup(self.module_ids, name) {
            Some(idx) => (self, idx),
            None => (
                Compiler {
                    module_ids: updated(self.module_ids, name, self.next_module_idx),
                    next_module_idx: after_usize(self.next_module_idx),
                    ..self
                },
                self.next_module_idx,
            ),
        }
    }

    pub fn module_idx_for(&mut self, name: StrId) -> (module_idx: usize)
        ensures
            (*final(self), module_idx) == old(self).with_module(name),
    {
        if let Some(idx) = find(&self.module_ids, &name) {
            return *idx;
        }
        let idx: usize = self.next_module_idx;
        self.next_module_idx = next_usize(idx);
        self.module_ids = update(&self.module_ids, name, idx);
        idx
    }

    /// The number of a module that has one.
    pub fn module_idx_for_path(&self, name: StrId) -> (module_idx: Option<usize>)
        ensures
            module_idx == lookup(self.module_ids, name),
    {
        match find(&self.module_ids, &name) {
            Some(idx) => Some(*idx),
            None => None,
        }
    }

    /// A module gets a number, and is noted where it is one of the standard library.
    pub fn load_file(&mut self, name: StrId, is_stdlib: bool) -> (module_idx: usize)
        ensures
            ({
                let (compiler, idx) = old(self).with_module(name);
                &&& module_idx == idx
                &&& *final(self) == if is_stdlib {
                    Compiler {
                        stdlib_module_ids: with_member(compiler.stdlib_module_ids, idx),
                        ..compiler
                    }
                } else {
                    compiler
                }
            }),
    {
        let idx: usize = self.module_idx_for(name);
        if is_stdlib {
            self.stdlib_module_ids = add_member(&self.stdlib_module_ids, idx);
        }
        idx
    }

    /// The imports that no module writes down: every module that is not of the standard library
    /// imports all modules that are.
    pub open spec fn implied_imports(self, batch: List<usize>, is_stdlib: bool) -> List<(usize, usize)>
        decreases batch,
    {
        match batch {
            Nil => Nil,
            Cons(module_idx, rest) => {
                let later = self.implied_imports(*rest, is_stdlib);
                if is_stdlib {
                    importers_of(self.module_ids, self.stdlib_module_ids, *module_idx, later)
                } else {
                    imports_of(*module_idx, self.stdlib_module_ids, later)
                }
            },
        }
    }

    /// The imports to note for modules that were loaded, each as the module that imports and the one
    /// that is imported.
    pub fn imports_to_register(&self, batch: &List<usize>, is_stdlib: bool) -> (imports: List<
        (usize, usize),
    >)
        ensures
            imports == self.implied_imports(*batch, is_stdlib),
        decreases batch,
    {
        match batch {
            Nil => Nil,
            Cons(module_idx, rest) => {
                let later = self.imports_to_register(rest, is_stdlib);
                if is_stdlib {
                    find_importers(&self.module_ids, &self.stdlib_module_ids, **module_idx, later)
                } else {
                    find_imports(**module_idx, &self.stdlib_module_ids, later)
                }
            },
        }
    }

    /// A module is loaded, and lowered where that went well.
    pub fn record_module(&mut self, module_idx: usize, lowered: bool)
        ensures
            *final(self) == (Compiler {
                modules: with_member(old(self).modules, module_idx),
                hir_modules: if lowered {
                    with_member(old(self).hir_modules, module_idx)
                } else {
                    old(self).hir_modules
                },
                ..*old(self)
            }),
    {
        self.modules = add_member(&self.modules, module_idx);
        if lowered {
            self.hir_modules = add_member(&self.hir_modules, module_idx);
        }
    }

    /// A module is ready to be compiled.
    pub fn record_monomorphized(&mut self, module_idx: usize)
        ensures
            *final(self) == (Compiler {
                codegen_hir_modules: with_member(old(self).codegen_hir_modules, module_idx),
                ..*old(self)
            }),
    {
        self.codegen_hir_modules = add_member(&self.codegen_hir_modules, module_idx);
    }

    /// The modules of a group that can be checked.
    pub fn ready(&self, group: &List<usize>) -> (ready: List<usize>)
        ensures
            ready == those_in(*group, self.hir_modules),
    {
        keep_those_in(group, &self.hir_modules)
    }

    /// What is done to check a group of modules, or the modules that a change concerns.
    pub fn plan_check(&self, group: &List<usize>) -> (work: List<Work>)
        ensures
            work == if those_in(*group, self.hir_modules) is Nil {
                Nil
            } else {
                checking(those_in(*group, self.hir_modules))
            },
    {
        let ready = self.ready(group);
        if ready.is_empty() {
            return Nil;
        }
        let bodies = list_checks(&ready);
        let rest = List::cons(Work::Recompute(ready.dup()), bodies);
        list_registrations(&ready, rest)
    }

    /// The modules that import a changed module and whose edges are taken anew.
    pub fn importers_to_refresh(&self, importers: &List<usize>) -> (loaded: List<usize>)
        ensures
            loaded == those_in(*importers, self.modules),
    {
        keep_those_in(importers, &self.modules)
    }

    /// The lowered modules that were not compiled, those whose file is known.
    pub fn missing(&self) -> (missing: List<usize>)
        ensures
            missing == those_in(
                those_not_in(self.hir_modules, self.codegen_hir_modules),
                self.modules,
            ),
    {
        let left = keep_those_not_in(&self.hir_modules, &self.codegen_hir_modules);
        keep_those_in(&left, &self.modules)
    }

    /// The modules that are compiled, from a number on, by their numbers.
    pub open spec fn compiled_from(self, module_idx: usize) -> List<usize>
        decreases self.next_module_idx - module_idx,
    {
        if module_idx >= self.next_module_idx {
            Nil
        } else if self.codegen_hir_modules.has(module_idx) {
            List::cons_of(module_idx, self.compiled_from((module_idx + 1) as usize))
        } else {
            self.compiled_from((module_idx + 1) as usize)
        }
    }

    /// The modules that are compiled, in the order of their numbers.
    pub fn ordered(&self) -> (modules: List<usize>)
        ensures
            modules == self.compiled_from(0),
    {
        let mut modules: List<usize> = Nil;
        let mut at: usize = self.next_module_idx;
        while at > 0
            invariant
                at <= self.next_module_idx,
                modules == self.compiled_from(at),
            decreases at,
        {
            at = at - 1;
            if self.codegen_hir_modules.contains(&at) {
                modules = List::cons(at, modules);
            }
        }
        modules
    }

    /// A module is closed: it is no longer loaded nor lowered. Tells which module it was.
    pub fn close_module(&mut self, name: StrId) -> (closed: Option<usize>)
        ensures
            closed == lookup(old(self).module_ids, name),
            *final(self) == match lookup(old(self).module_ids, name) {
                Some(idx) => Compiler {
                    modules: without(old(self).modules, idx),
                    hir_modules: without(old(self).hir_modules, idx),
                    ..*old(self)
                },
                None => *old(self),
            },
    {
        match self.module_idx_for_path(name) {
            Some(idx) => {
                self.modules = remove(&self.modules, idx);
                self.hir_modules = remove(&self.hir_modules, idx);
                Some(idx)
            },
            None => None,
        }
    }
}

/// A module that gets a number keeps it, and no two modules share one.
pub proof fn module_numbers_stay_apart(compiler: Compiler, name: StrId, other: StrId)
    requires
        compiler.wf(),
        compiler.next_module_idx < usize::MAX,
    ensures
        compiler.with_module(name).0.wf(),
        lookup(compiler.with_module(name).0.module_ids, name) == Some(compiler.with_module(name).1),
        other != name ==> lookup(compiler.with_module(name).0.module_ids, other) == lookup(
            compiler.module_ids,
            other,
        ) && lookup(compiler.module_ids, other) != Some(compiler.with_module(name).1),
{
    let (after, idx) = compiler.with_module(name);
    if lookup(compiler.module_ids, name) is None {
        assert forall|a: StrId| #[trigger] lookup(after.module_ids, a) == if a == name {
            Some(idx)
        } else {
            lookup(compiler.module_ids, a)
        } by {
            update_then_lookup(compiler.module_ids, name, idx, a);
        }
        assert forall|a: StrId| has_key(after.module_ids, a) implies #[trigger] lookup(
            after.module_ids,
            a,
        )->0 < after.next_module_idx by {
            if a != name {
                assert(lookup(after.module_ids, a) == lookup(compiler.module_ids, a));
                assert(has_key(compiler.module_ids, a));
                assert(lookup(compiler.module_ids, a)->0 < compiler.next_module_idx);
            }
        }
        assert forall|a: StrId, b: StrId|
            has_key(after.module_ids, a) && #[trigger] lookup(after.module_ids, a)
                == #[trigger] lookup(after.module_ids, b) implies a == b by {
            if a != name {
                assert(lookup(after.module_ids, a) == lookup(compiler.module_ids, a));
                assert(has_key(compiler.module_ids, a));
                assert(lookup(compiler.module_ids, a)->0 < compiler.next_module_idx);
            }
            if b != name && has_key(compiler.module_ids, b) {
                assert(lookup(compiler.module_ids, b)->0 < compiler.next_module_idx);
            }
        }
    }
    if other != name && has_key(compiler.module_ids, other) {
        assert(lookup(compiler.module_ids, other)->0 < compiler.next_module_idx);
    }
}

/// The generic items of a program: their instances, and which module owns which item.
#[derive(Debug, PartialEq, Eq)]
pub struct Registry {
    /// The names of the instances of functions.
    pub instantiated_functions: List<StrId>,
    /// The modules that declare functions.
    pub functions: Table<StrId, usize>,
    pub instantiated_structs: TypeInstances,
    pub instantiated_enums: TypeInstances,
}

/// The instances of generic structs, or of generic enums.
#[derive(Debug, PartialEq, Eq)]
pub struct TypeInstances {
    pub names: List<StrId>,
    /// The types that are known.
    pub known: List<StrId>,
    /// The generic types that instances were made of.
    pub origins: Table<StrId, StrId>,
    /// The modules that own generic types.
    pub owners: Table<StrId, usize>,
}

impl TypeInstances {
    /// The module that an instance belongs to.
    pub open spec fn owner(self, name: StrId) -> Option<usize> {
        if !self.known.has(name) {
            None
        } else {
            match lookup(self.origins, name) {
                Some(origin) => lookup(self.owners, origin),
                None => None,
            }
        }
    }

    fn find_owner(&self, name: StrId) -> (owner: Option<usize>)
        ensures
            owner == self.owner(name),
    {
        if !self.known.contains(&name) {
            return None;
        }
        match find(&self.origins, &name) {
            Some(origin) => match find(&self.owners, origin) {
                Some(owner) => Some(*owner),
                None => None,
            },
            None => None,
        }
    }
}

/// The instances that were given out so far: their names, and which module each belongs to.
#[derive(Debug, PartialEq, Eq)]
pub struct Emission {
    pub emitted: List<StrId>,
    pub by_module: Table<usize, List<Instance>>,
}

impl Emission {
    /// One more instance. Of several with one name the first counts.
    pub open spec fn with(self, name: StrId, owner: Option<usize>, instance: Instance) -> Emission {
        if self.emitted.has(name) {
            self
        } else {
            Emission {
                emitted: List::cons_of(name, self.emitted),
                by_module: match owner {
                    Some(module_idx) => updated(
                        self.by_module,
                        module_idx,
                        match lookup(self.by_module, module_idx) {
                            Some(instances) => instances,
                            None => Nil,
                        }.snoc(instance),
                    ),
                    None => self.by_module,
                },
            }
        }
    }

    fn emit(&mut self, name: StrId, owner: Option<usize>, instance: Instance)
        ensures
            *final(self) == old(self).with(name, owner, instance),
    {
        if self.emitted.contains(&name) {
            return;
        }
        self.emitted = List::cons(name, self.emitted.dup());
        if let Some(module_idx) = owner {
            let instances = match find(&self.by_module, &module_idx) {
                Some(instances) => instances.push(instance),
                None => Nil.push(instance),
            };
            self.by_module = update(&self.by_module, module_idx, instances);
        }
    }

    pub open spec fn with_functions(self, names: List<StrId>, functions: Table<StrId, usize>) -> Emission
        decreases names,
    {
        match names {
            Nil => self,
            Cons(name, rest) => self.with(
                *name,
                lookup(functions, *name),
                Instance::Func(*name),
            ).with_functions(*rest, functions),
        }
    }

    fn emit_functions(&mut self, names: &List<StrId>, functions: &Table<StrId, usize>)
        ensures
            *final(self) == old(self).with_functions(*names, *functions),
        decreases names,
    {
        match names {
            Nil => {},
            Cons(name, rest) => {
                let owner = match find(functions, &**name) {
                    Some(module_idx) => Some(*module_idx),
                    None => None,
                };
                self.emit(**name, owner, Instance::Func(**name));
                self.emit_functions(rest, functions);
            },
        }
    }

    pub open spec fn with_types(self, names: List<StrId>, types: TypeInstances, are_structs: bool) -> Emission
        decreases names,
    {
        match names {
            Nil => self,
            Cons(name, rest) => self.with(
                *name,
                types.owner(*name),
                if are_structs {
                    Instance::Struct(*name)
                } else {
                    Instance::Enum(*name)
                },
            ).with_types(*rest, types, are_structs),
        }
    }

    fn emit_types(&mut self, names: &List<StrId>, types: &TypeInstances, are_structs: bool)
        ensures
            *final(self) == old(self).with_types(*names, *types, are_structs),
        decreases names,
    {
        match names {
            Nil => {},
            Cons(name, rest) => {
                let instance = if are_structs {
                    Instance::Struct(**name)
                } else {
                    Instance::Enum(**name)
                };
                self.emit(**name, types.find_owner(**name), instance);
                self.emit_types(rest, types, are_structs);
            },
        }
    }
}

/// Whether making instances has come to its end: the last round of it made no more than there were.
pub fn instances_settled(before: usize, after: usize) -> (done: bool)
    ensures
        done == (before == after),
{
    before == after
}

impl Registry {
    /// The instances of functions, structs and enums, in this order, by their modules.
    pub open spec fn emission(self) -> Emission {
        Emission { emitted: Nil, by_module: Nil }.with_functions(
            self.instantiated_functions,
            self.functions,
        ).with_types(self.instantiated_structs.names, self.instantiated_structs, true).with_types(
            self.instantiated_enums.names,
            self.instantiated_enums,
            false,
        )
    }

    /// The instances to add to the modules that are compiled. Instances of other modules are left
    /// out.
    pub fn finalize_monomorphization(&self, compiler: &Compiler) -> (by_module: Table<
        usize,
        List<Instance>,
    >)
        ensures
            by_module == of_modules(self.emission().by_module, compiler.codegen_hir_modules),
    {
        let mut emission = Emission { emitted: Nil, by_module: Nil };
        emission.emit_functions(&self.instantiated_functions, &self.functions);
        emission.emit_types(&self.instantiated_structs.names, &self.instantiated_structs, true);
        emission.emit_types(&self.instantiated_enums.names, &self.instantiated_enums, false);
        keep_modules(&emission.by_module, &compiler.codegen_hir_modules)
    }
}

/// The entries of a table that belong to some modules.
pub open spec fn of_modules(
    by_module: Table<usize, List<Instance>>,
    modules: List<usize>,
) -> Table<usize, List<Instance>>
    decreases by_module,
{
    match by_module {
        Nil => Nil,
        Cons(entry, rest) => if modules.has(entry.0) {
            List::cons_of(*entry, of_modules(*rest, modules))
        } else {
            of_modules(*rest, modules)
        },
    }
}

fn keep_modules(by_module: &Table<usize, List<Instance>>, modules: &List<usize>) -> (kept: Table<
    usize,
    List<Instance>,
>)
    ensures
        kept == of_modules(*by_module, *modules),
    decreases by_module,
{
    match by_module {
        Nil => Nil,
        Cons(entry, rest) => if modules.contains(&entry.0) {
            List::cons((entry.0, entry.1.dup()), keep_modules(rest, modules))
        } else {
            keep_modules(rest, modules)
        },
    }
}

/// Whether modules fit together: each is in the directory of its package, and all imports are found.
pub fn structure_verdict(package_mismatches: usize, unresolved_imports: usize) -> (verdict: Result<
    (),
    CompilerError,
>)
    ensures
        verdict is Ok <==> package_mismatches == 0 && unresolved_imports == 0,
        verdict is Err ==> verdict->Err_0 == (CompilerError::InvalidModuleStructure {
            package_mismatches,
            unresolved_imports,
        }),
{
    if package_mismatches != 0 || unresolved_imports != 0 {
        Err(CompilerError::InvalidModuleStructure { package_mismatches, unresolved_imports })
    } else {
        Ok(())
    }
}

/// Why a program is not compiled, if there is a reason: modules that failed type checking, modules
/// in the wrong directory, or imports that are not found, in this order.
pub open spec fn abort_reason(
    missing: Seq<Seq<char>>,
    mismatches: Seq<Seq<char>>,
    unresolved: Seq<Seq<char>>,
) -> Option<Seq<char>> {
    if missing.len() > 0 {
        Some(
            decimal(missing.len()) + " module(s) failed type checking and were not compiled:\n  "@
                + joined(missing, "\n  "@),
        )
    } else if mismatches.len() > 0 {
        Some(joined(mismatches, "\n"@))
    } else if unresolved.len() > 0 {
        Some(joined(unresolved, "\n"@))
    } else {
        None
    }
}

pub fn emit_verdict(missing: &Vec<String>, mismatches: &Vec<String>, unresolved: &Vec<String>) -> (verdict:
    Result<(), CompilerError>)
    ensures
        match abort_reason(views(missing@), views(mismatches@), views(unresolved@)) {
            Some(text) => verdict matches Err(CompilerError::CompilationAborted { reason })
                && reason@ == text,
            None => verdict is Ok,
        },
{
    if missing.len() > 0 {
        let mut reason = String::new();
        append_number(&mut reason, missing.len());
        reason.append(" module(s) failed type checking and were not compiled:\n  ");
        let paths = join(missing, "\n  ");
        reason.append(paths.as_str());
        assert(reason@ == decimal(missing@.len())
            + " module(s) failed type checking and were not compiled:\n  "@ + joined(
            views(missing@),
            "\n  "@,
        ));
        return Err(CompilerError::CompilationAborted { reason });
    }
    if mismatches.len() > 0 {
        return Err(CompilerError::CompilationAborted { reason: join(mismatches, "\n") });
    }
    if unresolved.len() > 0 {
        return Err(CompilerError::CompilationAborted { reason: join(unresolved, "\n") });
    }
    Ok(())
}

/// Whether a program can be compiled, by the errors of the standard library and of the program.
pub fn loading_verdict(stdlib_errors: bool, user_errors: bool) -> (verdict: Result<(), CompilerError>)
    ensures
        match verdict {
            Ok(_) => !stdlib_errors && !user_errors,
            Err(CompilerError::ParserError(errors)) => stdlib_errors && errors@.len() == 0,
            Err(CompilerError::TypeCheckError) => !stdlib_errors && user_errors,
            Err(_) => false,
        },
{
    if stdlib_errors {
        Err(CompilerError::ParserError(Vec::new()))
    } else if user_errors {
        Err(CompilerError::TypeCheckError)
    } else {
        Ok(())
    }
}

/// Where the runtime of compiled programs is, by where its file exists.
pub fn runtime_source(here: bool, installed: bool) -> (path: Option<String>)
    ensures
        match path {
            Some(found) => (here && found@ == "zeta_rt.c"@) || (!here && installed && found@
                == "/home/flameyosflow/data/zeta-lang/zeta_rt.c"@),
            None => !here && !installed,
        },
{
    if here {
        Some("zeta_rt.c".to_owned())
    } else if installed {
        Some("/home/flameyosflow/data/zeta-lang/zeta_rt.c".to_owned())
    } else {
        None
    }
}

/// The arguments of the linker: the objects, the runtime, the output, and whether the C library is
/// left out.
pub open spec fn linker_arguments(
    objects: Seq<Seq<char>>,
    runtime: Option<Seq<char>>,
    output: Seq<char>,
    link_libc: bool,
) -> Seq<Seq<char>> {
    let sources = match runtime {
        Some(path) => objects.push(path),
        None => objects,
    };
    let linked = sources.push("-o"@).push(output);
    if link_libc {
        linked
    } else {
        linked.push("-nostdlib"@)
    }
}

fn push_text(texts: &mut Vec<String>, text: &str)
    ensures
        views(final(texts)@) == views(old(texts)@).push(text@),
{
    let ghost before = texts@;
    texts.push(text.to_owned());
    assert(views(texts@) == views(before).push(text@));
}

pub fn link_arguments(objects: &Vec<String>, runtime: &Option<String>, output: &str, link_libc: bool) -> (arguments:
    Vec<String>)
    ensures
        views(arguments@) == linker_arguments(
            views(objects@),
            match *runtime {
                Some(path) => Some(path@),
                None => None,
            },
            output@,
            link_libc,
        ),
{
    let mut arguments: Vec<String> = Vec::new();
    while arguments.len() < objects.len()
        invariant
            arguments.len() <= objects.len(),
            views(arguments@) == views(objects@).take(arguments.len() as int),
        decreases objects.len() - arguments.len(),
    {
        let next: usize = arguments.len();
        push_text(&mut arguments, objects[next].as_str());
        assert(views(arguments@).len() == arguments@.len());
        assert(views(objects@).take(next + 1) == views(objects@).take(next as int).push(
            objects@[next as int]@,
        ));
    }
    assert(views(objects@).take(objects.len() as int) == views(objects@));
    if let Some(path) = runtime {
        push_text(&mut arguments, path.as_str());
    }
    push_text(&mut arguments, "-o");
    push_text(&mut arguments, output);
    if !link_libc {
        push_text(&mut arguments, "-nostdlib");
    }
    arguments
}

/// Whether linking went well.
pub fn link_verdict(success: bool) -> (verdict: Result<(), CompilerError>)
    ensures
        verdict == if success {
            Ok::<(), CompilerError>(())
        } else {
            Err(CompilerError::LinkFailed)
        },
{
    if success {
        Ok(())
    } else {
        Err(CompilerError::LinkFailed)
    }
}

} // verus!
