//! Which names of other modules a module may use.

use std::rc::Rc;

use vstd::prelude::*;

use crate::errors::{BareImportKind, Message, TypeError, TypeErrorKind};
use crate::hir::{StrId, Visibility};
use crate::list::{find, lookup, share, Cons, List, Nil, Table};
use crate::program::ModuleImports;
use crate::type_checker::{TypeCheckResult, TypeChecker};
use crate::type_context::{find_list, list_at};

verus! {

/// The modules of a list that declare a name.
pub open spec fn declaring(
    modules: List<usize>,
    declared: Table<usize, List<StrId>>,
    name: StrId,
) -> List<usize>
    decreases modules,
{
    match modules {
        Nil => Nil,
        Cons(module, rest) => if list_at(declared, *module).has(name) {
            Cons(module, Rc::new(declaring(*rest, declared, name)))
        } else {
            declaring(*rest, declared, name)
        },
    }
}

fn modules_declaring(
    modules: &List<usize>,
    declared: &Table<usize, List<StrId>>,
    name: StrId,
) -> (result: List<usize>)
    ensures
        result == declaring(*modules, *declared, name),
    decreases modules,
{
    match modules {
        Nil => Nil,
        Cons(module, rest) => if find_list(declared, module).contains(&name) {
            Cons(share(module), Rc::new(modules_declaring(rest, declared, name)))
        } else {
            modules_declaring(rest, declared, name)
        },
    }
}

pub open spec fn several<T>(list: List<T>) -> bool {
    match list {
        Nil => false,
        Cons(_, rest) => !(*rest is Nil),
    }
}

fn more_than_one(list: &List<usize>) -> (yes: bool)
    ensures
        yes == several(*list),
{
    match list {
        Nil => false,
        Cons(_, rest) => !rest.is_empty(),
    }
}

/// Whether one of the names of a table goes to a module.
pub open spec fn has_value(table: Table<StrId, usize>, module: usize) -> bool
    decreases table,
{
    match table {
        Nil => false,
        Cons(entry, rest) => entry.1 == module || has_value(*rest, module),
    }
}

fn contains_value(table: &Table<StrId, usize>, module: usize) -> (found: bool)
    ensures
        found == has_value(*table, module),
    decreases table,
{
    match table {
        Nil => false,
        Cons(entry, rest) => entry.1 == module || contains_value(rest, module),
    }
}

impl ModuleImports {
    /// Whether an import names an item of a module.
    pub open spec fn names_item(self, name: StrId, module: usize) -> bool {
        lookup(self.named, name) == Some(module)
    }

    /// Whether a module, or an item of it, is imported.
    pub open spec fn reaches(self, module: usize) -> bool {
        self.modules.has(module) || has_value(self.named, module)
    }
}

impl TypeChecker {
    /// The imports of the module at hand.
    pub open spec fn imports_here(self) -> Option<ModuleImports> {
        lookup(self.program.imports_by_module, self.context.current_module_idx)
    }

    pub fn find_imports(&self) -> (imports: Option<&ModuleImports>)
        ensures
            imports == match self.imports_here() {
                Some(found) => Some(&found),
                None => None,
            },
    {
        find(&self.program.imports_by_module, &self.context.current_module_idx)
    }

    pub open spec fn wildcards_here(self) -> List<usize> {
        match self.imports_here() {
            Some(imports) => imports.wildcard,
            None => Nil,
        }
    }

    pub open spec fn declared_types(self, kind: BareImportKind) -> Table<usize, List<StrId>> {
        match kind {
            BareImportKind::Struct => self.program.structs_by_module,
            BareImportKind::Enum => self.program.enums_by_module,
        }
    }

    /// The checker after a type that no import makes known is used: its module must be one of the
    /// automatic imports, of which only one may declare such a name.
    pub open spec fn after_automatic(
        self,
        module: usize,
        name: StrId,
        kind: BareImportKind,
    ) -> TypeChecker {
        let candidates = declaring(self.wildcards_here(), self.declared_types(kind), name);
        if !self.wildcards_here().has(module) {
            self.said(Message::NotImported { kind, name })
        } else if several(candidates) {
            self.said(
                Message::AmbiguousName {
                    name,
                    packages: self.program.graph.packages_of(candidates),
                },
            )
        } else {
            self
        }
    }

    fn check_automatic(&mut self, module: usize, name: StrId, kind: BareImportKind)
        ensures
            *final(self) == old(self).after_automatic(module, name, kind),
            final(self).settled_in_scope(*old(self)),
    {
        let wildcards = match self.find_imports() {
            Some(imports) => imports.wildcard.dup(),
            None => Nil,
        };
        if !wildcards.contains(&module) {
            self.say(Message::NotImported { kind, name });
            return;
        }
        let candidates = match kind {
            BareImportKind::Struct => modules_declaring(
                &wildcards,
                &self.program.structs_by_module,
                name,
            ),
            BareImportKind::Enum => modules_declaring(
                &wildcards,
                &self.program.enums_by_module,
                name,
            ),
        };
        if more_than_one(&candidates) {
            let packages = self.program.graph.get_packages(&candidates);
            self.say(Message::AmbiguousName { name, packages });
        }
    }

    /// The checker after a type is named bare: its module must be this one, an import must name it, or
    /// its module must be imported automatically.
    #[verifier::opaque]
    pub open spec fn after_bare_name(
        self,
        declaring_module: Option<usize>,
        name: StrId,
        kind: BareImportKind,
    ) -> TypeChecker {
        match declaring_module {
            None => self,
            Some(module) => if module == self.context.current_module_idx || match self.imports_here() {
                Some(imports) => imports.names_item(name, module),
                None => false,
            } {
                self
            } else {
                self.after_automatic(module, name, kind)
            },
        }
    }

    pub fn check_bare_name_import(
        &mut self,
        declaring_module: Option<usize>,
        name: StrId,
        kind: BareImportKind,
    )
        ensures
            *final(self) == old(self).after_bare_name(declaring_module, name, kind),
            final(self).settled_in_scope(*old(self)),
    {
        proof {
            reveal(TypeChecker::after_bare_name);
        }
        if let Some(module) = declaring_module {
            let named = match self.find_imports() {
                Some(imports) => match find(&imports.named, &name) {
                    Some(named) => *named == module,
                    None => false,
                },
                None => false,
            };
            if module != self.context.current_module_idx && !named {
                self.check_automatic(module, name, kind);
            }
        }
    }

    /// The checker after a field of a struct is reached through a value, which names no type: the
    /// struct's module must be this one, the module or any item of it must be imported, or it must
    /// be imported automatically.
    #[verifier::opaque]
    pub open spec fn after_field_owner(
        self,
        declaring_module: Option<usize>,
        name: StrId,
    ) -> TypeChecker {
        match declaring_module {
            None => self,
            Some(module) => if module == self.context.current_module_idx || match self.imports_here() {
                Some(imports) => imports.reaches(module),
                None => false,
            } {
                self
            } else {
                self.after_automatic(module, name, BareImportKind::Struct)
            },
        }
    }

    pub fn check_field_owner_import(&mut self, declaring_module: Option<usize>, name: StrId)
        ensures
            *final(self) == old(self).after_field_owner(declaring_module, name),
            final(self).settled_in_scope(*old(self)),
    {
        proof {
            reveal(TypeChecker::after_field_owner);
        }
        if let Some(module) = declaring_module {
            let reached = match self.find_imports() {
                Some(imports) => imports.modules.contains(&module) || contains_value(
                    &imports.named,
                    module,
                ),
                None => false,
            };
            if module != self.context.current_module_idx && !reached {
                self.check_automatic(module, name, BareImportKind::Struct);
            }
        }
    }

    /// Whether an item of a module can be seen from the module at hand.
    pub open spec fn visible(self, visibility: Visibility, declaring_module: usize) -> bool {
        match visibility {
            Visibility::Public => true,
            Visibility::Module => self.context.current_module_idx == declaring_module,
            Visibility::Private => self.context.current_module_idx == declaring_module,
            Visibility::Internal => self.program.graph.package_of(self.context.current_module_idx)
                == self.program.graph.package_of(declaring_module),
        }
    }

    #[verifier::opaque]
    pub open spec fn visibility_result(
        self,
        visibility: Visibility,
        declaring_module: usize,
        name: StrId,
    ) -> TypeCheckResult<()> {
        if self.visible(visibility, declaring_module) {
            Ok(())
        } else {
            Err(
                TypeError {
                    kind: TypeErrorKind::Generic(Message::FunctionNotVisible { name }),
                    span: self.diagnostics.current_span,
                },
            )
        }
    }

    pub fn check_visibility(&self, visibility: Visibility, declaring_module: usize, name: StrId) -> (result:
        TypeCheckResult<()>)
        ensures
            result == self.visibility_result(visibility, declaring_module, name),
    {
        proof {
            reveal(TypeChecker::visibility_result);
        }
        let here: usize = self.context.current_module_idx;
        let visible = match visibility {
            Visibility::Public => true,
            Visibility::Module => here == declaring_module,
            Visibility::Private => here == declaring_module,
            Visibility::Internal => match (
                self.program.graph.get_module_package(here),
                self.program.graph.get_module_package(declaring_module),
            ) {
                (Some(a), Some(b)) => a == b,
                (None, None) => true,
                _ => false,
            },
        };
        if visible {
            Ok(())
        } else {
            Err(
                TypeErrorKind::Generic(Message::FunctionNotVisible { name }).at(
                    self.diagnostics.current_span,
                ),
            )
        }
    }

    /// The checker after a function is named bare.
    #[verifier::opaque]
    pub open spec fn after_function_name(self, name: StrId) -> TypeChecker {
        let functions = self.program.functions_by_module;
        if list_at(functions, self.context.current_module_idx).has(name) {
            self
        } else {
            match self.imports_here() {
                None => self.said(Message::NotDeclared { name }),
                Some(imports) => {
                    let candidates = declaring(imports.wildcard, functions, name);
                    if match lookup(imports.named, name) {
                        Some(module) => list_at(functions, module).has(name),
                        None => false,
                    } {
                        self
                    } else if candidates is Nil {
                        self.said(Message::NotDeclared { name })
                    } else if several(candidates) {
                        self.said(
                            Message::AmbiguousName {
                                name,
                                packages: self.program.graph.packages_of(candidates),
                            },
                        )
                    } else {
                        self
                    }
                },
            }
        }
    }

    pub fn check_name_import_visibility(&mut self, name: StrId)
        ensures
            *final(self) == old(self).after_function_name(name),
            final(self).settled_in_scope(*old(self)),
    {
        proof {
            reveal(TypeChecker::after_function_name);
        }
        let here: usize = self.context.current_module_idx;
        if find_list(&self.program.functions_by_module, &here).contains(&name) {
            return;
        }
        let candidates = match self.find_imports() {
            None => Nil,
            Some(imports) => {
                match find(&imports.named, &name) {
                    Some(module) => {
                        if find_list(&self.program.functions_by_module, module).contains(&name) {
                            return;
                        }
                    },
                    None => {},
                }
                modules_declaring(&imports.wildcard, &self.program.functions_by_module, name)
            },
        };
        if candidates.is_empty() {
            self.say(Message::NotDeclared { name });
        } else if more_than_one(&candidates) {
            let packages = self.program.graph.get_packages(&candidates);
            self.say(Message::AmbiguousName { name, packages });
        }
    }

    /// The checker after a module is named by its path.
    #[verifier::opaque]
    pub open spec fn after_module_path(self, path: List<StrId>) -> TypeChecker {
        match self.program.graph.module_at(path) {
            None => self,
            Some(target) => if target == self.context.current_module_idx
                || match self.imports_here() {
                Some(imports) => imports.modules.has(target),
                None => false,
            } {
                self
            } else {
                self.said(Message::ModuleNotImported { path })
            },
        }
    }

    pub fn check_module_path_imported(&mut self, path: &List<StrId>)
        ensures
            *final(self) == old(self).after_module_path(*path),
            final(self).settled_in_scope(*old(self)),
    {
        proof {
            reveal(TypeChecker::after_module_path);
        }
        let target = match self.program.graph.resolve_module_path(path) {
            None => {
                return;
            },
            Some(target) => target,
        };
        if target == self.context.current_module_idx {
            return;
        }
        let imported = match self.find_imports() {
            Some(imports) => imports.modules.contains(&target),
            None => false,
        };
        if !imported {
            self.say(Message::ModuleNotImported { path: path.dup() });
        }
    }
}

/// What a module declares itself can be used in it without an error.
pub proof fn own_names_need_no_import(checker: TypeChecker, name: StrId, kind: BareImportKind)
    ensures
        checker.after_bare_name(Some(checker.context.current_module_idx), name, kind) == checker,
        list_at(
            checker.program.functions_by_module,
            checker.context.current_module_idx,
        ).has(name) ==> checker.after_function_name(name) == checker,
        forall|visibility: Visibility|
            checker.visibility_result(visibility, checker.context.current_module_idx, name) is Ok,
{
    reveal(TypeChecker::after_bare_name);
    reveal(TypeChecker::after_function_name);
    reveal(TypeChecker::visibility_result);
}

/// A public item can be seen everywhere, one of its module and a private one only from the module
/// that declares it, and an internal one from the modules of its package.
pub proof fn visibility_reaches_as_far_as_it_says(
    checker: TypeChecker,
    visibility: Visibility,
    declaring_module: usize,
    name: StrId,
)
    ensures
        visibility is Public ==> checker.visibility_result(visibility, declaring_module, name)
            is Ok,
        visibility is Module || visibility is Private ==> (checker.visibility_result(visibility, declaring_module, name)
            is Ok <==> checker.context.current_module_idx == declaring_module),
        visibility is Internal ==> (checker.visibility_result(visibility, declaring_module, name)
            is Ok <==> checker.program.graph.package_of(checker.context.current_module_idx)
            == checker.program.graph.package_of(declaring_module)),
        checker.context.current_module_idx == declaring_module ==> checker.visibility_result(
            visibility,
            declaring_module,
            name,
        ) is Ok,
{
    reveal(TypeChecker::visibility_result);
}

/// A field of a struct can be reached where the struct's module, or any item of it, is imported.
pub proof fn imports_open_fields(checker: TypeChecker, module: usize, name: StrId)
    requires
        match checker.imports_here() {
            Some(imports) => imports.reaches(module),
            None => false,
        },
    ensures
        checker.after_field_owner(Some(module), name) == checker,
{
    reveal(TypeChecker::after_field_owner);
}

/// An import of a module makes nothing from it usable bare, and an import of an item only that item:
/// a type of another module that no import names, and that is not imported automatically, is
/// reported.
pub proof fn plain_imports_open_nothing(
    checker: TypeChecker,
    module: usize,
    name: StrId,
    kind: BareImportKind,
)
    requires
        module != checker.context.current_module_idx,
        match checker.imports_here() {
            Some(imports) => !imports.names_item(name, module) && !imports.wildcard.has(module),
            None => true,
        },
    ensures
        checker.after_bare_name(Some(module), name, kind) == checker.said(
            Message::NotImported { kind, name },
        ),
{
    reveal(TypeChecker::after_bare_name);
}

} // verus!
