//! Registering what modules declare and import, and checking their functions.

use std::rc::Rc;

use vstd::prelude::*;

use crate::borrow::BorrowOp;
use crate::closures::{find_lambda_constraint, lambda_constraint};
use crate::errors::{Message, TypeErrorKind};
use crate::hir::{
    dup_type, field_types, types_of_fields, FlowGraph, Hir, HirFunc, HirGeneric, HirModule,
    HirParam, HirType, ImportPath, RefKind, StrId, ThisPassingKind, Word,
};
use crate::init_nodes::complete;
use crate::list::{
    add_member, contains_key, find, has_key, lookup, share, update, updated, with_member, Cons,
    List, Nil, Table,
};
use crate::program::ModuleImports;
use crate::type_checker::{
    this_name, ClosureState, Diagnostics, LoanTables, Occurrence, Points, Program, TypeChecker,
};
use crate::type_context::{find_list, list_at, TypeContext, TypeMethodTable};

verus! {

/// The kind of reference through which a method sees its receiver, unless it owns it.
pub open spec fn receiver_kind(kind: ThisPassingKind) -> Option<RefKind> {
    match kind {
        ThisPassingKind::RefConst
        | ThisPassingKind::ConstSafePtr
        | ThisPassingKind::ConstUnsafePtr => Some(RefKind::Shared),
        ThisPassingKind::RefMut
        | ThisPassingKind::MutSafePtr
        | ThisPassingKind::MutUnsafePtr => Some(RefKind::Unique),
        ThisPassingKind::RefAlias => Some(RefKind::Alias),
        ThisPassingKind::MultiPlace | ThisPassingKind::Move | ThisPassingKind::MoveMut => None,
    }
}

fn find_receiver_kind(kind: ThisPassingKind) -> (ref_kind: Option<RefKind>)
    ensures
        ref_kind == receiver_kind(kind),
{
    match kind {
        ThisPassingKind::RefConst
        | ThisPassingKind::ConstSafePtr
        | ThisPassingKind::ConstUnsafePtr => Some(RefKind::Shared),
        ThisPassingKind::RefMut
        | ThisPassingKind::MutSafePtr
        | ThisPassingKind::MutUnsafePtr => Some(RefKind::Unique),
        ThisPassingKind::RefAlias => Some(RefKind::Alias),
        ThisPassingKind::MultiPlace | ThisPassingKind::Move | ThisPassingKind::MoveMut => None,
    }
}

/// The generics of a function that stand for closures, and the signatures of those.
pub open spec fn closure_constraints(generics: List<HirGeneric>, known: Table<StrId, HirType>) -> Table<
    StrId,
    HirType,
>
    decreases generics,
{
    match generics {
        Nil => known,
        Cons(generic, rest) => closure_constraints(
            *rest,
            match lambda_constraint(generic.constraints) {
                Some(signature) => updated(known, generic.name, signature),
                None => known,
            },
        ),
    }
}

fn collect_closure_constraints(generics: &List<HirGeneric>, known: Table<StrId, HirType>) -> (result: Table<
    StrId,
    HirType,
>)
    ensures
        result == closure_constraints(*generics, known),
    decreases generics,
{
    match generics {
        Nil => known,
        Cons(generic, rest) => {
            let next = match find_lambda_constraint(&generic.constraints) {
                Some(signature) => update(&known, generic.name, signature.dup()),
                None => known,
            };
            collect_closure_constraints(rest, next)
        },
    }
}

/// The names that generics are known by inside what they belong to.
pub open spec fn own_generics(generics: List<HirGeneric>) -> List<HirType>
    decreases generics,
{
    match generics {
        Nil => Nil,
        Cons(generic, rest) => List::cons_of(
            HirType::Generic(generic.name),
            own_generics(*rest),
        ),
    }
}

fn list_own_generics(generics: &List<HirGeneric>) -> (types: List<HirType>)
    ensures
        types == own_generics(*generics),
    decreases generics,
{
    match generics {
        Nil => Nil,
        Cons(generic, rest) => List::cons(
            HirType::Generic(generic.name),
            list_own_generics(rest),
        ),
    }
}

/// The occurrences in other modules.
pub open spec fn occurring_elsewhere(occurrences: List<Occurrence>, module_idx: usize) -> List<
    Occurrence,
>
    decreases occurrences,
{
    match occurrences {
        Nil => Nil,
        Cons(occurrence, rest) => if occurrence.module_idx == module_idx {
            occurring_elsewhere(*rest, module_idx)
        } else {
            Cons(occurrence, Rc::new(occurring_elsewhere(*rest, module_idx)))
        },
    }
}

fn keep_occurring_elsewhere(occurrences: &List<Occurrence>, module_idx: usize) -> (result: List<
    Occurrence,
>)
    ensures
        result == occurring_elsewhere(*occurrences, module_idx),
    decreases occurrences,
{
    match occurrences {
        Nil => Nil,
        Cons(occurrence, rest) => if occurrence.module_idx == module_idx {
            keep_occurring_elsewhere(rest, module_idx)
        } else {
            Cons(share(occurrence), Rc::new(keep_occurring_elsewhere(rest, module_idx)))
        },
    }
}

/// The points of a function's body before any use of a local is known.
pub open spec fn points_of(flow: FlowGraph) -> Points {
    Points {
        successors: flow.successors,
        stmt_points: flow.stmt_points,
        stmt_after_points: flow.stmt_after_points,
        locals_used: Nil,
        current: match flow.entry {
            Some(entry) => entry,
            None => 0,
        },
    }
}

fn start_points(flow: &FlowGraph) -> (points: Points)
    ensures
        points == points_of(*flow),
{
    Points {
        successors: flow.successors.dup(),
        stmt_points: flow.stmt_points.dup(),
        stmt_after_points: flow.stmt_after_points.dup(),
        locals_used: Nil,
        current: match flow.entry {
            Some(entry) => entry,
            None => 0,
        },
    }
}

impl ModuleImports {
    pub open spec fn none() -> ModuleImports {
        ModuleImports { named: Nil, modules: Nil, module_aliases: Nil, wildcard: Nil }
    }

    /// The imports with a module, or with one name that it gives.
    pub open spec fn with_import(self, import: ImportPath, module: usize, declaring: usize) -> ModuleImports {
        match import.member {
            Some(name) => ModuleImports { named: updated(self.named, name, declaring), ..self },
            None => ModuleImports {
                modules: with_member(self.modules, module),
                module_aliases: match import.path.last_of() {
                    Some(last) => updated(self.module_aliases, last, module),
                    None => self.module_aliases,
                },
                ..self
            },
        }
    }

    fn add_import(self, import: &ImportPath, module: usize, declaring: usize) -> (imports: ModuleImports)
        ensures
            imports == self.with_import(*import, module, declaring),
    {
        match import.member {
            Some(name) => ModuleImports {
                named: update(&self.named, name, declaring),
                modules: self.modules,
                module_aliases: self.module_aliases,
                wildcard: self.wildcard,
            },
            None => {
                let module_aliases = match import.path.last() {
                    Some(last) => update(&self.module_aliases, *last, module),
                    None => self.module_aliases,
                };
                ModuleImports {
                    named: self.named,
                    modules: add_member(&self.modules, module),
                    module_aliases,
                    wildcard: self.wildcard,
                }
            },
        }
    }
}

impl TypeContext {
    pub open spec fn methods_for(self, target: StrId) -> TypeMethodTable {
        match lookup(self.type_methods, target) {
            Some(table) => table,
            None => TypeMethodTable { methods: Nil },
        }
    }

    pub open spec fn with_methods(self, target: StrId, table: TypeMethodTable) -> TypeContext {
        TypeContext { type_methods: updated(self.type_methods, target, table), ..self }
    }

    pub open spec fn with_method(self, target: StrId, name: StrId, func: Rc<HirFunc>) -> TypeContext {
        self.with_methods(
            target,
            TypeMethodTable {
                methods: updated(self.methods_for(target).methods, name, func),
            },
        )
    }

    fn find_methods_for(&self, target: StrId) -> (table: TypeMethodTable)
        ensures
            table == self.methods_for(target),
    {
        match find(&self.type_methods, &target) {
            Some(table) => TypeMethodTable { methods: table.methods.dup() },
            None => TypeMethodTable { methods: Nil },
        }
    }

    fn add_method(&mut self, target: StrId, name: StrId, func: Rc<HirFunc>)
        ensures
            *final(self) == old(self).with_method(target, name, func),
    {
        let mut table = self.find_methods_for(target);
        table.insert(name, func);
        self.type_methods = update(&self.type_methods, target, table);
    }

    /// The type of `this` in a function.
    pub open spec fn this_type(self, func: HirFunc) -> HirType {
        match func.impl_target {
            None => HirType::This,
            Some(target) => match lookup(self.structs, target) {
                Some(def) => HirType::Struct {
                    name: target,
                    field_types: types_of_fields(def.fields),
                    type_args: match def.generics {
                        Some(generics) => own_generics(generics),
                        None => Nil,
                    },
                },
                None => if has_key(self.interfaces, target) {
                    HirType::DynInterface(target, Nil)
                } else {
                    HirType::This
                },
            },
        }
    }
}

impl TypeChecker {
    pub fn this_type_for_func(&self, func: &HirFunc) -> (ty: HirType)
        ensures
            ty == self.context.this_type(*func),
    {
        match func.impl_target {
            None => HirType::This,
            Some(target) => match self.context.get_struct(target) {
                Some(def) => {
                    let type_args = match &def.generics {
                        Some(generics) => list_own_generics(generics),
                        None => Nil,
                    };
                    HirType::Struct {
                        name: target,
                        field_types: field_types(&def.fields),
                        type_args,
                    }
                },
                None => if self.context.get_interface(target).is_some() {
                    HirType::DynInterface(target, Nil)
                } else {
                    HirType::This
                },
            },
        }
    }

    pub open spec fn with_program(self, program: Program) -> TypeChecker {
        TypeChecker { program, ..self }
    }

    /// The checker after the methods of a type are declared, and whether that came to its end: a
    /// method declared twice ends it where errors are suppressed.
    pub open spec fn methods_declared(self, target: StrId, methods: List<HirFunc>) -> (
        TypeChecker,
        bool,
    )
        decreases methods,
    {
        match methods {
            Nil => (self, true),
            Cons(func, rest) => {
                let twice = has_key(self.context.methods_for(target).methods, func.name);
                if twice && self.diagnostics.suppress_errors {
                    (self.at_span(func.span), false)
                } else {
                    let told = if twice {
                        self.at_span(func.span).said(
                            Message::DuplicateFunction { name: func.unmangled_name },
                        )
                    } else {
                        self
                    };
                    told.with_context(
                        told.context.with_method(target, func.unmangled_name, func),
                    ).methods_declared(target, *rest)
                }
            },
        }
    }

    fn declare_methods(&mut self, target: StrId, methods: &List<HirFunc>) -> (go_on: bool)
        ensures
            (*final(self), go_on) == old(self).methods_declared(target, *methods),
        decreases methods,
    {
        match methods {
            Nil => true,
            Cons(func, rest) => {
                let known = self.context.find_methods_for(target);
                if contains_key(&known.methods, &func.name) {
                    self.set_span(func.span);
                    if self.diagnostics.suppress_errors {
                        return false;
                    }
                    self.say(Message::DuplicateFunction { name: func.unmangled_name });
                }
                self.context.add_method(target, func.unmangled_name, share(func));
                self.declare_methods(target, rest)
            },
        }
    }

    /// The checker after a function of a module is declared, under its name in the source and under
    /// its mangled name.
    pub open spec fn function_declared(self, module_idx: usize, func: Rc<HirFunc>) -> TypeChecker {
        let own = list_at(self.program.functions_by_module, module_idx);
        let told = if own.has(func.name) {
            self.at_span(func.span).said(Message::DuplicateFunction { name: func.unmangled_name })
        } else {
            self
        };
        let named = told.context.with_function(module_idx, func.unmangled_name, func);
        told.with_context(
            if func.name == func.unmangled_name {
                named
            } else {
                named.with_function(module_idx, func.name, func)
            },
        ).with_program(
            Program {
                functions_by_module: updated(
                    told.program.functions_by_module,
                    module_idx,
                    with_member(own, func.name),
                ),
                ..told.program
            },
        )
    }

    fn declare_function(&mut self, module_idx: usize, func: &Rc<HirFunc>)
        ensures
            *final(self) == old(self).function_declared(module_idx, *func),
    {
        let own = find_list(&self.program.functions_by_module, &module_idx);
        if own.contains(&func.name) {
            self.set_span(func.span);
            self.say(Message::DuplicateFunction { name: func.unmangled_name });
        }
        self.context.add_function(module_idx, func.unmangled_name, share(func));
        if func.name != func.unmangled_name {
            self.context.add_function(module_idx, func.name, share(func));
        }
        self.program.functions_by_module = update(
            &self.program.functions_by_module,
            module_idx,
            add_member(&own, func.name),
        );
    }

    /// The checker after an item of a module is declared, and whether that came to its end.
    pub open spec fn item_declared(self, module_idx: usize, item: Hir) -> (TypeChecker, bool) {
        match item {
            Hir::Struct(def) => (
                self.with_context(
                    TypeContext {
                        struct_owner_module: updated(
                            self.context.struct_owner_module,
                            def.name,
                            module_idx,
                        ),
                        structs: updated(self.context.structs, def.name, def),
                        ..self.context
                    },
                ).with_program(
                    Program {
                        structs_by_module: updated(
                            self.program.structs_by_module,
                            module_idx,
                            with_member(
                                list_at(self.program.structs_by_module, module_idx),
                                def.name,
                            ),
                        ),
                        ..self.program
                    },
                ),
                true,
            ),
            Hir::Impl(block) => {
                let (declared, go_on) = match block.methods {
                    Some(methods) => self.with_context(
                        self.context.with_methods(
                            block.target,
                            self.context.methods_for(block.target),
                        ),
                    ).methods_declared(block.target, methods),
                    None => (self, true),
                };
                (
                    match block.interface {
                        Some(interface) => if go_on {
                            declared.with_context(
                                declared.context.with_struct_interface(block.target, interface),
                            )
                        } else {
                            declared
                        },
                        None => declared,
                    },
                    go_on,
                )
            },
            Hir::Interface(def) => (
                self.with_context(
                    TypeContext {
                        interface_owner_module: updated(
                            self.context.interface_owner_module,
                            def.name,
                            module_idx,
                        ),
                        interfaces: updated(self.context.interfaces, def.name, def),
                        ..self.context
                    },
                ),
                true,
            ),
            Hir::Enum(def) => (
                self.with_context(
                    TypeContext {
                        enum_owner_module: updated(
                            self.context.enum_owner_module,
                            def.name,
                            module_idx,
                        ),
                        enums: updated(self.context.enums, def.name, def),
                        ..self.context
                    },
                ).with_program(
                    Program {
                        enums_by_module: updated(
                            self.program.enums_by_module,
                            module_idx,
                            with_member(
                                list_at(self.program.enums_by_module, module_idx),
                                def.name,
                            ),
                        ),
                        ..self.program
                    },
                ),
                true,
            ),
            Hir::Func(func) => (self.function_declared(module_idx, func), true),
            Hir::Other => (self, true),
        }
    }

    fn declare_item(&mut self, module_idx: usize, item: &Hir) -> (go_on: bool)
        ensures
            (*final(self), go_on) == old(self).item_declared(module_idx, *item),
    {
        match item {
            Hir::Struct(def) => {
                self.context.add_struct(module_idx, def.name, share(def));
                let own = find_list(&self.program.structs_by_module, &module_idx);
                self.program.structs_by_module = update(
                    &self.program.structs_by_module,
                    module_idx,
                    add_member(&own, def.name),
                );
                true
            },
            Hir::Impl(block) => {
                match &block.methods {
                    Some(methods) => {
                        let known = self.context.find_methods_for(block.target);
                        self.context.type_methods = update(
                            &self.context.type_methods,
                            block.target,
                            known,
                        );
                        if !self.declare_methods(block.target, methods) {
                            return false;
                        }
                    },
                    None => {},
                }
                match block.interface {
                    Some(interface) => self.context.add_struct_interface(block.target, interface),
                    None => {},
                }
                true
            },
            Hir::Interface(def) => {
                self.context.add_interface(module_idx, def.name, share(def));
                true
            },
            Hir::Enum(def) => {
                self.context.add_enum(module_idx, def.name, share(def));
                let own = find_list(&self.program.enums_by_module, &module_idx);
                self.program.enums_by_module = update(
                    &self.program.enums_by_module,
                    module_idx,
                    add_member(&own, def.name),
                );
                true
            },
            Hir::Func(func) => {
                self.declare_function(module_idx, func);
                true
            },
            Hir::Other => true,
        }
    }

    pub open spec fn items_declared(self, module_idx: usize, items: List<Hir>) -> (TypeChecker, bool)
        decreases items,
    {
        match items {
            Nil => (self, true),
            Cons(item, rest) => {
                let (declared, go_on) = self.item_declared(module_idx, *item);
                if go_on {
                    declared.items_declared(module_idx, *rest)
                } else {
                    (declared, false)
                }
            },
        }
    }

    fn declare_items(&mut self, module_idx: usize, items: &List<Hir>) -> (go_on: bool)
        ensures
            (*final(self), go_on) == old(self).items_declared(module_idx, *items),
        decreases items,
    {
        match items {
            Nil => true,
            Cons(item, rest) => if self.declare_item(module_idx, item) {
                self.declare_items(module_idx, rest)
            } else {
                false
            },
        }
    }

    /// The checker after the imports that a module writes down. A name goes to the module that
    /// declares it.
    pub open spec fn imports_resolved(self, paths: List<ImportPath>, imports: ModuleImports) -> (
        TypeChecker,
        ModuleImports,
    )
        decreases paths,
    {
        match paths {
            Nil => (self, imports),
            Cons(import, rest) => match self.program.graph.module_at(import.path) {
                None => self.said(
                    Message::UnresolvedImport { path: import.path },
                ).imports_resolved(*rest, imports),
                Some(module) => self.imports_resolved(
                    *rest,
                    imports.with_import(
                        *import,
                        module,
                        match import.member {
                            Some(name) => self.program.graph.member_module(module, name),
                            None => module,
                        },
                    ),
                ),
            },
        }
    }

    fn resolve_imports(&mut self, paths: &List<ImportPath>, imports: ModuleImports) -> (result:
        ModuleImports)
        ensures
            (*final(self), result) == old(self).imports_resolved(*paths, imports),
        decreases paths,
    {
        match paths {
            Nil => imports,
            Cons(import, rest) => match self.program.graph.resolve_module_path(&import.path) {
                None => {
                    self.say(Message::UnresolvedImport { path: import.path.dup() });
                    self.resolve_imports(rest, imports)
                },
                Some(module) => {
                    let declaring: usize = match import.member {
                        Some(name) => self.program.graph.canonical_member_module(module, name),
                        None => module,
                    };
                    let next = imports.add_import(import, module, declaring);
                    self.resolve_imports(rest, next)
                },
            },
        }
    }

    /// The checker after the imports that every module has, and whether that came to its end. Two
    /// packages may not end in the same name.
    pub open spec fn auto_imported(
        self,
        module_idx: usize,
        paths: List<List<StrId>>,
        wildcard: List<usize>,
        aliases: Table<StrId, usize>,
    ) -> (TypeChecker, List<usize>, bool)
        decreases paths,
    {
        match paths {
            Nil => (self, wildcard, true),
            Cons(path, rest) => match self.program.graph.module_at(*path) {
                None => self.auto_imported(module_idx, *rest, wildcard, aliases),
                Some(module) => {
                    let next = if module == module_idx {
                        wildcard
                    } else {
                        with_member(wildcard, module)
                    };
                    match path.last_of() {
                        None => self.auto_imported(module_idx, *rest, next, aliases),
                        Some(last) => match lookup(aliases, last) {
                            Some(existing) => if existing == module {
                                self.auto_imported(
                                    module_idx,
                                    *rest,
                                    next,
                                    updated(aliases, last, module),
                                )
                            } else if self.diagnostics.suppress_errors {
                                (self, next, false)
                            } else {
                                self.said(
                                    Message::AmbiguousAlias {
                                        existing: self.program.graph.package_of(existing),
                                        added: self.program.graph.package_of(module),
                                        alias: last,
                                    },
                                ).auto_imported(module_idx, *rest, next, aliases)
                            },
                            None => self.auto_imported(
                                module_idx,
                                *rest,
                                next,
                                updated(aliases, last, module),
                            ),
                        },
                    }
                },
            },
        }
    }

    fn import_automatically(
        &mut self,
        module_idx: usize,
        paths: &List<List<StrId>>,
        wildcard: List<usize>,
        aliases: Table<StrId, usize>,
    ) -> (result: (List<usize>, bool))
        ensures
            (*final(self), result.0, result.1) == old(self).auto_imported(
                module_idx,
                *paths,
                wildcard,
                aliases,
            ),
        decreases paths,
    {
        match paths {
            Nil => (wildcard, true),
            Cons(path, rest) => match self.program.graph.resolve_module_path(path) {
                None => self.import_automatically(module_idx, rest, wildcard, aliases),
                Some(module) => {
                    let next = if module == module_idx {
                        wildcard
                    } else {
                        add_member(&wildcard, module)
                    };
                    match path.last() {
                        None => self.import_automatically(module_idx, rest, next, aliases),
                        Some(last) => {
                            let existing: Option<usize> = match find(&aliases, last) {
                                Some(known) => Some(*known),
                                None => None,
                            };
                            let clash = match existing {
                                Some(known) => known != module,
                                None => false,
                            };
                            if clash {
                                if self.diagnostics.suppress_errors {
                                    return (next, false);
                                }
                                let known: usize = match existing {
                                    Some(known) => known,
                                    None => module,
                                };
                                let message = Message::AmbiguousAlias {
                                    existing: self.program.graph.get_module_package(known),
                                    added: self.program.graph.get_module_package(module),
                                    alias: *last,
                                };
                                self.say(message);
                                self.import_automatically(module_idx, rest, next, aliases)
                            } else {
                                self.import_automatically(
                                    module_idx,
                                    rest,
                                    next,
                                    update(&aliases, *last, module),
                                )
                            }
                        },
                    }
                },
            },
        }
    }

    /// The checker about to declare what is in a module.
    pub open spec fn module_entered(self, module_idx: usize) -> TypeChecker {
        self.with_context(
            TypeContext { current_module_idx: module_idx, ..self.context },
        ).with_program(
            Program {
                functions_by_module: updated(self.program.functions_by_module, module_idx, Nil),
                structs_by_module: updated(self.program.structs_by_module, module_idx, Nil),
                enums_by_module: updated(self.program.enums_by_module, module_idx, Nil),
                ..self.program
            },
        )
    }

    /// The checker after a module is registered: what it declares, then what it imports.
    pub open spec fn module_registered(self, module: HirModule, module_idx: usize) -> TypeChecker {
        let (declared, go_on) = self.module_entered(module_idx).items_declared(
            module_idx,
            module.items,
        );
        if !go_on {
            declared
        } else {
            let (resolved, imports) = declared.imports_resolved(
                module.imports,
                ModuleImports::none(),
            );
            let (imported, wildcard, complete) = resolved.auto_imported(
                module_idx,
                resolved.program.auto_imports.then_all(resolved.program.graph.auto_packages),
                imports.wildcard,
                Nil,
            );
            if !complete {
                imported
            } else {
                imported.with_context(
                    TypeContext {
                        current_module_idx: self.context.current_module_idx,
                        ..imported.context
                    },
                ).with_program(
                    Program {
                        imports_by_module: updated(
                            imported.program.imports_by_module,
                            module_idx,
                            ModuleImports { wildcard, ..imports },
                        ),
                        ..imported.program
                    },
                )
            }
        }
    }

    pub fn register_module(&mut self, module: &HirModule, module_idx: usize)
        ensures
            *final(self) == old(self).module_registered(*module, module_idx),
    {
        let previous: usize = self.context.current_module_idx;
        self.context.current_module_idx = module_idx;
        self.program.functions_by_module = update(
            &self.program.functions_by_module,
            module_idx,
            Nil,
        );
        self.program.structs_by_module = update(&self.program.structs_by_module, module_idx, Nil);
        self.program.enums_by_module = update(&self.program.enums_by_module, module_idx, Nil);
        if !self.declare_items(module_idx, &module.items) {
            return;
        }
        let none = ModuleImports { named: Nil, modules: Nil, module_aliases: Nil, wildcard: Nil };
        let imports = self.resolve_imports(&module.imports, none);
        let paths = self.program.auto_imports.append(&self.program.graph.auto_packages);
        let (wildcard, complete) = self.import_automatically(
            module_idx,
            &paths,
            imports.wildcard,
            Nil,
        );
        if !complete {
            return;
        }
        let all = ModuleImports {
            named: imports.named,
            modules: imports.modules,
            module_aliases: imports.module_aliases,
            wildcard,
        };
        self.program.imports_by_module = update(&self.program.imports_by_module, module_idx, all);
        self.context.current_module_idx = previous;
    }

    /// The checker and the scope of a function after its parameters.
    pub open spec fn params_entered(
        self,
        func: HirFunc,
        params: List<HirParam>,
        scope: TypeContext,
    ) -> (TypeChecker, TypeContext)
        decreases params,
    {
        match params {
            Nil => (self, scope),
            Cons(param, rest) => match *param {
                HirParam::Normal { name, param_type, .. } => {
                    let (minted, symbol) = self.minted();
                    let told = if has_key(scope.variables, name) {
                        minted.recorded(TypeErrorKind::VariableAlreadyExists { var_name: name })
                    } else {
                        minted
                    };
                    told.declared_local(name).with_init_node(name, complete()).params_entered(
                        func,
                        *rest,
                        scope.with_variable(name, param_type, symbol),
                    )
                },
                HirParam::This { kind, .. } => {
                    let (minted, symbol) = self.receiver_entered(kind).minted();
                    minted.declared_local(this_name()).with_init_node(
                        this_name(),
                        complete(),
                    ).params_entered(
                        func,
                        *rest,
                        scope.with_variable(this_name(), self.context.this_type(func), symbol),
                    )
                },
            },
        }
    }

    /// The checker that knows through which reference `this` is seen.
    pub open spec fn receiver_entered(self, kind: ThisPassingKind) -> TypeChecker {
        match receiver_kind(kind) {
            Some(ref_kind) => TypeChecker {
                loans: LoanTables {
                    ref_kinds: updated(self.loans.ref_kinds, this_name(), ref_kind),
                    ..self.loans
                },
                ..self
            },
            None => self,
        }
    }

    fn enter_params(&mut self, func: &HirFunc, params: &List<HirParam>, scope: TypeContext) -> (result:
        TypeContext)
        ensures
            (*final(self), result) == old(self).params_entered(*func, *params, scope),
        decreases params,
    {
        match params {
            Nil => scope,
            Cons(param, rest) => {
                let mut inner = scope;
                match &**param {
                    HirParam::Normal { name, param_type, .. } => {
                        let symbol = self.mint_symbol_id();
                        if inner.is_local_binding(*name) {
                            self.record(
                                TypeErrorKind::VariableAlreadyExists { var_name: *name },
                            );
                        }
                        inner.add_variable(*name, param_type.dup(), symbol);
                        self.declare_local(*name);
                        self.mark_whole_init(*name);
                    },
                    HirParam::This { kind, .. } => {
                        let this_id = StrId::Known(Word::This);
                        let ty = self.this_type_for_func(func);
                        match find_receiver_kind(*kind) {
                            Some(ref_kind) => {
                                self.loans.ref_kinds = update(
                                    &self.loans.ref_kinds,
                                    this_id,
                                    ref_kind,
                                );
                            },
                            None => {},
                        }
                        let symbol = self.mint_symbol_id();
                        inner.add_variable(this_id, ty, symbol);
                        self.declare_local(this_id);
                        self.mark_whole_init(this_id);
                    },
                }
                self.enter_params(func, rest, inner)
            },
        }
    }

    /// The checker after the access lists of a function's parameters.
    pub open spec fn access_lists_checked(self, func: HirFunc, params: List<HirParam>) -> TypeChecker
        decreases params,
    {
        match params {
            Nil => self,
            Cons(param, rest) => {
                let listed = match *param {
                    HirParam::This { kind, multi_place, .. } => if kind is MultiPlace {
                        (this_name(), multi_place, None)
                    } else {
                        (this_name(), None, None)
                    },
                    HirParam::Normal { name, param_type, multi_place, .. } => (
                        name,
                        multi_place,
                        Some(param_type),
                    ),
                };
                let checked = match listed.1 {
                    None => self,
                    Some(accesses) => {
                        let signed = self.after_signature(listed.2, accesses);
                        match func.body {
                            Some(body) => signed.after_declaration(listed.0, accesses, *body),
                            None => signed,
                        }
                    },
                };
                checked.access_lists_checked(func, *rest)
            },
        }
    }

    fn check_access_lists(&mut self, func: &HirFunc, params: &List<HirParam>)
        ensures
            *final(self) == old(self).access_lists_checked(*func, *params),
        decreases params,
    {
        match params {
            Nil => {},
            Cons(param, rest) => {
                match &**param {
                    HirParam::This { kind: ThisPassingKind::MultiPlace, multi_place, .. } => {
                        match multi_place {
                            Some(accesses) => {
                                self.validate_multi_place_signature(None, accesses);
                                match &func.body {
                                    Some(body) => self.validate_multi_place_declaration(
                                        StrId::Known(Word::This),
                                        accesses,
                                        body,
                                    ),
                                    None => {},
                                }
                            },
                            None => {},
                        }
                    },
                    HirParam::This { .. } => {},
                    HirParam::Normal { name, param_type, multi_place, .. } => match multi_place {
                        Some(accesses) => {
                            self.validate_multi_place_signature(Some(param_type), accesses);
                            match &func.body {
                                Some(body) => self.validate_multi_place_declaration(
                                    *name,
                                    accesses,
                                    body,
                                ),
                                None => {},
                            }
                        },
                        None => {},
                    },
                }
                self.check_access_lists(func, rest);
            },
        }
    }

    /// The checker about to look at a function, with a borrow checker that knows nothing yet.
    pub open spec fn function_entered(self, func: HirFunc) -> TypeChecker {
        TypeChecker {
            closures: ClosureState {
                constraints: match func.generics {
                    Some(generics) => closure_constraints(generics, Nil),
                    None => Nil,
                },
                ..self.closures
            },
            loans: LoanTables { declared: Nil, pointees: Nil, ..self.loans },
            ..self
        }.asked(BorrowOp::Reset).asked(BorrowOp::BeginScope)
    }

    fn enter_function(&mut self, func: &HirFunc)
        ensures
            *final(self) == old(self).function_entered(*func),
    {
        self.closures.constraints = match &func.generics {
            Some(generics) => collect_closure_constraints(generics, Nil),
            None => Nil,
        };
        self.loans.declared = Nil;
        self.loans.pointees = Nil;
        self.ask(BorrowOp::Reset);
        self.ask(BorrowOp::BeginScope);
    }

    /// The checker after a function.
    pub open spec fn function_checked(self, func: HirFunc) -> TypeChecker {
        let entered = self.function_entered(func);
        let (ready, scope) = match func.params {
            Some(params) => {
                let (declared, inner) = entered.params_entered(func, params, entered.context);
                (declared.access_lists_checked(func, params), inner)
            },
            None => (entered, entered.context),
        };
        let done = match func.body {
            Some(body) => {
                let start = points_of(func.flow);
                TypeChecker {
                    points: Points { current: start.current, ..start.after_stmt(*body) },
                    context: TypeContext { current_return_type: func.return_type, ..scope },
                    ..ready
                }.stmt_checked(*body).0.with_context(ready.context)
            },
            None => ready,
        };
        done.after_return_provenance(func).asked(BorrowOp::EndScope)
    }

    pub fn check_function(&mut self, func: &HirFunc)
        ensures
            *final(self) == old(self).function_checked(*func),
    {
        self.enter_function(func);
        let mut scope = self.context.create_child_scope();
        match &func.params {
            Some(params) => {
                scope = self.enter_params(func, params, scope);
                self.check_access_lists(func, params);
            },
            None => {},
        }
        match &func.body {
            Some(body) => {
                self.points = start_points(&func.flow);
                let entry: usize = self.points.current;
                self.collect_locals_used_stmt(body);
                self.points.current = entry;
                let outside = self.context.create_child_scope();
                scope.current_return_type = dup_type(&func.return_type);
                self.context = scope;
                self.check_stmt(body);
                self.context = outside;
            },
            None => {},
        }
        self.check_return_provenance(func);
        self.ask(BorrowOp::EndScope);
    }

    /// The checker after the functions and structs among these items.
    pub open spec fn items_checked(self, items: List<Hir>) -> TypeChecker
        decreases items,
    {
        match items {
            Nil => self,
            Cons(item, rest) => {
                let checked = match *item {
                    Hir::Func(func) => self.function_checked(*func),
                    Hir::Struct(def) => if self.context.implements(
                        def.name,
                        StrId::Known(Word::Copy),
                    ) && self.context.implements(def.name, StrId::Known(Word::Drop)) {
                        self.said(Message::CopyAndDrop { name: def.name })
                    } else {
                        self
                    },
                    _ => self,
                };
                checked.items_checked(*rest)
            },
        }
    }

    fn check_items(&mut self, items: &List<Hir>)
        ensures
            *final(self) == old(self).items_checked(*items),
        decreases items,
    {
        match items {
            Nil => {},
            Cons(item, rest) => {
                match &**item {
                    Hir::Func(func) => self.check_function(func),
                    Hir::Struct(def) => {
                        if self.context.struct_implements(def.name, StrId::Known(Word::Copy))
                            && self.context.struct_implements(
                            def.name,
                            StrId::Known(Word::Drop),
                        ) {
                            self.say(Message::CopyAndDrop { name: def.name });
                        }
                    },
                    _ => {},
                }
                self.check_items(rest);
            },
        }
    }

    /// The checker after the bodies of a module, with only their own occurrences for it.
    pub open spec fn module_checked(self, module: HirModule, module_idx: usize) -> TypeChecker {
        TypeChecker {
            diagnostics: Diagnostics {
                occurrences: occurring_elsewhere(self.diagnostics.occurrences, module_idx),
                ..self.diagnostics
            },
            context: TypeContext { current_module_idx: module_idx, ..self.context },
            ..self
        }.items_checked(module.items)
    }

    pub fn check_module_body(&mut self, module: &HirModule, module_idx: usize)
        ensures
            *final(self) == old(self).module_checked(*module, module_idx),
    {
        self.diagnostics.occurrences = keep_occurring_elsewhere(
            &self.diagnostics.occurrences,
            module_idx,
        );
        self.context.current_module_idx = module_idx;
        self.check_items(&module.items);
    }
}

proof fn methods_go_on(checker: TypeChecker, target: StrId, methods: List<HirFunc>)
    requires
        !checker.diagnostics.suppress_errors,
    ensures
        checker.methods_declared(target, methods).1,
        !checker.methods_declared(target, methods).0.diagnostics.suppress_errors,
    decreases methods,
{
    reveal(TypeChecker::at_span);
    match methods {
        Nil => {},
        Cons(_, _) => {
            let func = Rc::new(methods.head());
            let told = if has_key(checker.context.methods_for(target).methods, func.name) {
                checker.at_span(func.span).said(
                    Message::DuplicateFunction { name: func.unmangled_name },
                )
            } else {
                checker
            };
            methods_go_on(
                told.with_context(told.context.with_method(target, func.unmangled_name, func)),
                target,
                methods.rest(),
            );
        },
    }
}

proof fn items_go_on(checker: TypeChecker, module_idx: usize, items: List<Hir>)
    requires
        !checker.diagnostics.suppress_errors,
    ensures
        checker.items_declared(module_idx, items).1,
        !checker.items_declared(module_idx, items).0.diagnostics.suppress_errors,
    decreases items,
{
    match items {
        Nil => {},
        Cons(_, _) => {
            let item = items.head();
            item_goes_on(checker, module_idx, item);
            items_go_on(checker.item_declared(module_idx, item).0, module_idx, items.rest());
        },
    }
}

proof fn item_goes_on(checker: TypeChecker, module_idx: usize, item: Hir)
    requires
        !checker.diagnostics.suppress_errors,
    ensures
        checker.item_declared(module_idx, item).1,
        !checker.item_declared(module_idx, item).0.diagnostics.suppress_errors,
{
    reveal(TypeChecker::at_span);
    if let Hir::Impl(block) = item {
        methods_go_on(
            checker.with_context(
                checker.context.with_methods(
                    block.target,
                    checker.context.methods_for(block.target),
                ),
            ),
            block.target,
            methods_of(item),
        );
    }
}

/// The methods of an implementation.
pub open spec fn methods_of(item: Hir) -> List<HirFunc> {
    match item {
        Hir::Impl(block) => match block.methods {
            Some(methods) => methods,
            None => Nil,
        },
        _ => Nil,
    }
}

proof fn imports_keep_errors(checker: TypeChecker, paths: List<ImportPath>, imports: ModuleImports)
    requires
        !checker.diagnostics.suppress_errors,
    ensures
        !checker.imports_resolved(paths, imports).0.diagnostics.suppress_errors,
    decreases paths,
{
    match paths {
        Nil => {},
        Cons(_, _) => {
            let import = paths.head();
            match checker.program.graph.module_at(import.path) {
                None => imports_keep_errors(
                    checker.said(Message::UnresolvedImport { path: import.path }),
                    paths.rest(),
                    imports,
                ),
                Some(module) => imports_keep_errors(
                    checker,
                    paths.rest(),
                    imports.with_import(
                        import,
                        module,
                        match import.member {
                            Some(name) => checker.program.graph.member_module(module, name),
                            None => module,
                        },
                    ),
                ),
            }
        },
    }
}

proof fn auto_imports_go_on(
    checker: TypeChecker,
    module_idx: usize,
    paths: List<List<StrId>>,
    wildcard: List<usize>,
    aliases: Table<StrId, usize>,
)
    requires
        !checker.diagnostics.suppress_errors,
    ensures
        checker.auto_imported(module_idx, paths, wildcard, aliases).2,
    decreases paths,
{
    match paths {
        Nil => {},
        Cons(_, _) => {
            let path = paths.head();
            match checker.program.graph.module_at(path) {
                None => auto_imports_go_on(checker, module_idx, paths.rest(), wildcard, aliases),
                Some(module) => {
                    let next = if module == module_idx {
                        wildcard
                    } else {
                        with_member(wildcard, module)
                    };
                    auto_imports_go_on(checker, module_idx, paths.rest(), next, aliases);
                    if let Some(last) = path.last_of() {
                        auto_imports_go_on(
                            checker,
                            module_idx,
                            paths.rest(),
                            next,
                            updated(aliases, last, module),
                        );
                        if let Some(existing) = lookup(aliases, last) {
                            auto_imports_go_on(
                                checker.said(
                                    Message::AmbiguousAlias {
                                        existing: checker.program.graph.package_of(existing),
                                        added: checker.program.graph.package_of(module),
                                        alias: last,
                                    },
                                ),
                                module_idx,
                                paths.rest(),
                                next,
                                aliases,
                            );
                        }
                    }
                },
            }
        },
    }
}

/// Where errors are not suppressed, registering a module comes to its end: the module's imports are
/// known afterwards, and the checker is back in the module it was in.
pub proof fn registering_comes_to_its_end(checker: TypeChecker, module: HirModule, module_idx: usize)
    requires
        !checker.diagnostics.suppress_errors,
    ensures
        checker.module_registered(module, module_idx).context.current_module_idx
            == checker.context.current_module_idx,
        has_key(
            checker.module_registered(module, module_idx).program.imports_by_module,
            module_idx,
        ),
{
    let entered = checker.module_entered(module_idx);
    items_go_on(entered, module_idx, module.items);
    let declared = entered.items_declared(module_idx, module.items).0;
    imports_keep_errors(declared, module.imports, ModuleImports::none());
    let (resolved, imports) = declared.imports_resolved(module.imports, ModuleImports::none());
    auto_imports_go_on(
        resolved,
        module_idx,
        resolved.program.auto_imports.then_all(resolved.program.graph.auto_packages),
        imports.wildcard,
        Nil,
    );
    let (imported, wildcard, _) = resolved.auto_imported(
        module_idx,
        resolved.program.auto_imports.then_all(resolved.program.graph.auto_packages),
        imports.wildcard,
        Nil,
    );
    crate::list::update_then_lookup(
        imported.program.imports_by_module,
        module_idx,
        ModuleImports { wildcard, ..imports },
        module_idx,
    );
}

/// Whether a function of that name is among items.
pub open spec fn declares_function(items: List<Hir>, name: StrId) -> bool
    decreases items,
{
    match items {
        Nil => false,
        Cons(item, rest) => (*item matches Hir::Func(func) && func.name == name)
            || declares_function(*rest, name),
    }
}

/// Whether a struct of that name is among items.
pub open spec fn declares_struct(items: List<Hir>, name: StrId) -> bool
    decreases items,
{
    match items {
        Nil => false,
        Cons(item, rest) => (*item matches Hir::Struct(def) && def.name == name)
            || declares_struct(*rest, name),
    }
}

/// Whether an enum of that name is among items.
pub open spec fn declares_enum(items: List<Hir>, name: StrId) -> bool
    decreases items,
{
    match items {
        Nil => false,
        Cons(item, rest) => (*item matches Hir::Enum(def) && def.name == name)
            || declares_enum(*rest, name),
    }
}

/// Whether two tables agree on every key but one.
pub open spec fn agree_elsewhere(
    table: Table<usize, List<StrId>>,
    other: Table<usize, List<StrId>>,
    key: usize,
) -> bool {
    forall|module: usize| module != key ==> #[trigger] lookup(table, module) == lookup(other, module)
}

/// Whether two programs list the same names for every module but one.
pub open spec fn names_agree_elsewhere(program: Program, other: Program, module_idx: usize) -> bool {
    &&& agree_elsewhere(program.functions_by_module, other.functions_by_module, module_idx)
    &&& agree_elsewhere(program.structs_by_module, other.structs_by_module, module_idx)
    &&& agree_elsewhere(program.enums_by_module, other.enums_by_module, module_idx)
}

proof fn update_stays_in_place(table: Table<usize, List<StrId>>, key: usize, value: List<StrId>)
    ensures
        agree_elsewhere(updated(table, key, value), table, key),
        list_at(updated(table, key, value), key) == value,
{
    crate::list::update_then_lookup(table, key, value, key);
    assert forall|module: usize| module != key implies #[trigger] lookup(
        updated(table, key, value),
        module,
    ) == lookup(table, module) by {
        crate::list::update_then_lookup(table, key, value, module);
    }
}

proof fn methods_keep_the_program(checker: TypeChecker, target: StrId, methods: List<HirFunc>)
    ensures
        checker.methods_declared(target, methods).0.program == checker.program,
    decreases methods,
{
    reveal(TypeChecker::at_span);
    match methods {
        Nil => {},
        Cons(_, _) => {
            let func = Rc::new(methods.head());
            let told = if has_key(checker.context.methods_for(target).methods, func.name) {
                checker.at_span(func.span).said(
                    Message::DuplicateFunction { name: func.unmangled_name },
                )
            } else {
                checker
            };
            methods_keep_the_program(
                told.with_context(told.context.with_method(target, func.unmangled_name, func)),
                target,
                methods.rest(),
            );
        },
    }
}

/// What one item adds to the names of its module.
proof fn item_adds_its_name(checker: TypeChecker, module_idx: usize, item: Hir, name: StrId)
    ensures
        ({
            let before = checker.program;
            let after = checker.item_declared(module_idx, item).0.program;
            &&& list_at(after.functions_by_module, module_idx).has(name) == (list_at(
                before.functions_by_module,
                module_idx,
            ).has(name) || (item matches Hir::Func(func) && func.name == name))
            &&& list_at(after.structs_by_module, module_idx).has(name) == (list_at(
                before.structs_by_module,
                module_idx,
            ).has(name) || (item matches Hir::Struct(def) && def.name == name))
            &&& list_at(after.enums_by_module, module_idx).has(name) == (list_at(
                before.enums_by_module,
                module_idx,
            ).has(name) || (item matches Hir::Enum(def) && def.name == name))
            &&& names_agree_elsewhere(after, before, module_idx)
        }),
{
    reveal(TypeChecker::at_span);
    let before = checker.program;
    match item {
        Hir::Struct(def) => {
            let own = list_at(before.structs_by_module, module_idx);
            update_stays_in_place(
                before.structs_by_module,
                module_idx,
                with_member(own, def.name),
            );
            crate::list::member_added(own, def.name, name);
        },
        Hir::Enum(def) => {
            let own = list_at(before.enums_by_module, module_idx);
            update_stays_in_place(before.enums_by_module, module_idx, with_member(own, def.name));
            crate::list::member_added(own, def.name, name);
        },
        Hir::Func(func) => {
            let own = list_at(before.functions_by_module, module_idx);
            update_stays_in_place(
                before.functions_by_module,
                module_idx,
                with_member(own, func.name),
            );
            crate::list::member_added(own, func.name, name);
        },
        Hir::Impl(block) => {
            methods_keep_the_program(
                checker.with_context(
                    checker.context.with_methods(
                        block.target,
                        checker.context.methods_for(block.target),
                    ),
                ),
                block.target,
                methods_of(item),
            );
        },
        _ => {},
    }
}

proof fn items_add_their_names(
    checker: TypeChecker,
    module_idx: usize,
    items: List<Hir>,
    name: StrId,
)
    requires
        !checker.diagnostics.suppress_errors,
    ensures
        ({
            let before = checker.program;
            let after = checker.items_declared(module_idx, items).0.program;
            &&& list_at(after.functions_by_module, module_idx).has(name) == (list_at(
                before.functions_by_module,
                module_idx,
            ).has(name) || declares_function(items, name))
            &&& list_at(after.structs_by_module, module_idx).has(name) == (list_at(
                before.structs_by_module,
                module_idx,
            ).has(name) || declares_struct(items, name))
            &&& list_at(after.enums_by_module, module_idx).has(name) == (list_at(
                before.enums_by_module,
                module_idx,
            ).has(name) || declares_enum(items, name))
            &&& names_agree_elsewhere(after, before, module_idx)
        }),
    decreases items,
{
    match items {
        Nil => {},
        Cons(_, _) => {
            let item = items.head();
            item_adds_its_name(checker, module_idx, item, name);
            item_goes_on(checker, module_idx, item);
            items_add_their_names(
                checker.item_declared(module_idx, item).0,
                module_idx,
                items.rest(),
                name,
            );
        },
    }
}

proof fn imports_keep_the_program(
    checker: TypeChecker,
    paths: List<ImportPath>,
    imports: ModuleImports,
)
    ensures
        checker.imports_resolved(paths, imports).0.program == checker.program,
        checker.imports_resolved(paths, imports).1.wildcard == imports.wildcard,
    decreases paths,
{
    match paths {
        Nil => {},
        Cons(_, _) => {
            let import = paths.head();
            match checker.program.graph.module_at(import.path) {
                None => imports_keep_the_program(
                    checker.said(Message::UnresolvedImport { path: import.path }),
                    paths.rest(),
                    imports,
                ),
                Some(module) => imports_keep_the_program(
                    checker,
                    paths.rest(),
                    imports.with_import(
                        import,
                        module,
                        match import.member {
                            Some(name) => checker.program.graph.member_module(module, name),
                            None => module,
                        },
                    ),
                ),
            }
        },
    }
}

/// Automatic imports change no table, come once each, and never are the module itself.
proof fn auto_imports_are_other_modules(
    checker: TypeChecker,
    module_idx: usize,
    paths: List<List<StrId>>,
    wildcard: List<usize>,
    aliases: Table<StrId, usize>,
)
    requires
        wildcard.seq().no_duplicates(),
        !wildcard.has(module_idx),
    ensures
        checker.auto_imported(module_idx, paths, wildcard, aliases).0.program == checker.program,
        checker.auto_imported(module_idx, paths, wildcard, aliases).1.seq().no_duplicates(),
        !checker.auto_imported(module_idx, paths, wildcard, aliases).1.has(module_idx),
    decreases paths,
{
    match paths {
        Nil => {},
        Cons(_, _) => {
            let path = paths.head();
            match checker.program.graph.module_at(path) {
                None => auto_imports_are_other_modules(
                    checker,
                    module_idx,
                    paths.rest(),
                    wildcard,
                    aliases,
                ),
                Some(module) => {
                    let next = if module == module_idx {
                        wildcard
                    } else {
                        with_member(wildcard, module)
                    };
                    crate::list::members_stay_distinct(wildcard, module);
                    crate::list::member_added(wildcard, module, module_idx);
                    auto_imports_are_other_modules(
                        checker,
                        module_idx,
                        paths.rest(),
                        next,
                        aliases,
                    );
                    if let Some(last) = path.last_of() {
                        auto_imports_are_other_modules(
                            checker,
                            module_idx,
                            paths.rest(),
                            next,
                            updated(aliases, last, module),
                        );
                        if let Some(existing) = lookup(aliases, last) {
                            auto_imports_are_other_modules(
                                checker.said(
                                    Message::AmbiguousAlias {
                                        existing: checker.program.graph.package_of(existing),
                                        added: checker.program.graph.package_of(module),
                                        alias: last,
                                    },
                                ),
                                module_idx,
                                paths.rest(),
                                next,
                                aliases,
                            );
                        }
                    }
                },
            }
        },
    }
}

/// Where errors are not suppressed, a registered module has exactly the functions, structs and enums
/// that are among its items, and those of the other modules are as they were. Its automatic imports
/// come once each, and the module itself is not among them.
pub proof fn registering_lists_the_modules_own_names(
    checker: TypeChecker,
    module: HirModule,
    module_idx: usize,
    name: StrId,
)
    requires
        !checker.diagnostics.suppress_errors,
    ensures
        ({
            let after = checker.module_registered(module, module_idx).program;
            &&& list_at(after.functions_by_module, module_idx).has(name) == declares_function(
                module.items,
                name,
            )
            &&& list_at(after.structs_by_module, module_idx).has(name) == declares_struct(
                module.items,
                name,
            )
            &&& list_at(after.enums_by_module, module_idx).has(name) == declares_enum(
                module.items,
                name,
            )
            &&& names_agree_elsewhere(after, checker.program, module_idx)
            &&& lookup(after.imports_by_module, module_idx) matches Some(imports)
            &&& imports.wildcard.seq().no_duplicates()
            &&& !imports.wildcard.has(module_idx)
        }),
{
    let program = checker.program;
    update_stays_in_place(program.functions_by_module, module_idx, Nil);
    update_stays_in_place(program.structs_by_module, module_idx, Nil);
    update_stays_in_place(program.enums_by_module, module_idx, Nil);
    let entered = checker.module_entered(module_idx);
    items_go_on(entered, module_idx, module.items);
    items_add_their_names(entered, module_idx, module.items, name);
    let declared = entered.items_declared(module_idx, module.items).0;
    imports_keep_errors(declared, module.imports, ModuleImports::none());
    imports_keep_the_program(declared, module.imports, ModuleImports::none());
    let (resolved, imports) = declared.imports_resolved(module.imports, ModuleImports::none());
    let paths = resolved.program.auto_imports.then_all(resolved.program.graph.auto_packages);
    auto_imports_go_on(resolved, module_idx, paths, imports.wildcard, Nil);
    auto_imports_are_other_modules(resolved, module_idx, paths, imports.wildcard, Nil);
    let (imported, wildcard, _) = resolved.auto_imported(module_idx, paths, imports.wildcard, Nil);
    crate::list::update_then_lookup(
        imported.program.imports_by_module,
        module_idx,
        ModuleImports { wildcard, ..imports },
        module_idx,
    );
}

} // verus!
