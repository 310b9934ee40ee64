//! What is declared, and what is in scope.

use std::rc::Rc;

use vstd::prelude::*;

use crate::hir::{dup_type, HirEnum, HirFunc, HirInterface, HirStruct, HirType, StrId};
use crate::list::{
    add_member, contains_key, find, has_key, lookup, share, update, updated, with_member, Cons, Key,
    List, Nil, Table,
};

verus! {

#[derive(Clone, Copy, Debug, PartialEq, Eq, Structural)]
pub struct LocalSymbolId(pub u32);

#[derive(Clone, Copy, Debug, PartialEq, Eq, Structural)]
pub enum SymbolId {
    /// A binding, parameter, or `this`, by the order in which they were made: a name alone is not
    /// unique across scopes.
    Local(LocalSymbolId),
    Field { struct_name: StrId, field_name: StrId },
    /// A top-level declaration.
    Item { module_idx: usize, item_idx: usize, tag: StrId },
    Method { module_idx: usize, item_idx: usize, method_idx: usize },
}

/// The methods of one type, by their names in the source.
#[derive(Debug, PartialEq, Eq)]
pub struct TypeMethodTable {
    pub methods: Table<StrId, Rc<HirFunc>>,
}

impl TypeMethodTable {
    pub fn insert(&mut self, method_name: StrId, func: Rc<HirFunc>)
        ensures
            final(self).methods == updated(old(self).methods, method_name, func),
    {
        self.methods = update(&self.methods, method_name, func);
    }

    pub fn get(&self, method_name: StrId) -> (func: Option<&Rc<HirFunc>>)
        ensures
            func == match lookup(self.methods, method_name) {
                Some(found) => Some(&found),
                None => None,
            },
    {
        find(&self.methods, &method_name)
    }
}

#[derive(Debug, PartialEq, Eq)]
pub struct TypeContext {
    pub variables: Table<StrId, (SymbolId, HirType)>,
    pub structs: Table<StrId, Rc<HirStruct>>,
    pub struct_owner_module: Table<StrId, usize>,
    pub enums: Table<StrId, Rc<HirEnum>>,
    pub enum_owner_module: Table<StrId, usize>,
    pub interfaces: Table<StrId, Rc<HirInterface>>,
    pub interface_owner_module: Table<StrId, usize>,
    pub module_functions: Table<usize, Table<StrId, Rc<HirFunc>>>,
    pub type_methods: Table<StrId, TypeMethodTable>,
    pub current_return_type: Option<HirType>,
    pub in_loop: bool,
    /// The largest `usize` where no module is being looked at.
    pub current_module_idx: usize,
    pub dangling_locals: List<StrId>,
    pub struct_interfaces: Table<StrId, List<StrId>>,
    pub mutable_variables: List<StrId>,
}

/// The list without an element.
pub open spec fn without<T>(list: List<T>, gone: T) -> List<T>
    decreases list,
{
    match list {
        Nil => Nil,
        Cons(head, rest) => if *head == gone {
            without(*rest, gone)
        } else {
            Cons(head, Rc::new(without(*rest, gone)))
        },
    }
}

pub fn remove_name(list: &List<StrId>, gone: StrId) -> (result: List<StrId>)
    ensures
        result == without(*list, gone),
    decreases list,
{
    match list {
        Nil => Nil,
        Cons(head, rest) => if **head == gone {
            remove_name(rest, gone)
        } else {
            Cons(share(head), Rc::new(remove_name(rest, gone)))
        },
    }
}

/// The list stored under a key, empty where there is none.
pub open spec fn list_at<K, V>(table: Table<K, List<V>>, key: K) -> List<V> {
    match lookup(table, key) {
        Some(list) => list,
        None => Nil,
    }
}

pub fn find_list<K: Key, V>(table: &Table<K, List<V>>, key: &K) -> (list: List<V>)
    ensures
        list == list_at(*table, *key),
{
    match find(table, key) {
        Some(list) => list.dup(),
        None => Nil,
    }
}

impl TypeContext {
    pub open spec fn fresh() -> TypeContext {
        TypeContext {
            variables: Nil,
            structs: Nil,
            struct_owner_module: Nil,
            enums: Nil,
            enum_owner_module: Nil,
            interfaces: Nil,
            interface_owner_module: Nil,
            module_functions: Nil,
            type_methods: Nil,
            current_return_type: None,
            in_loop: false,
            current_module_idx: usize::MAX,
            dangling_locals: Nil,
            struct_interfaces: Nil,
            mutable_variables: Nil,
        }
    }

    pub open spec fn implements(self, struct_name: StrId, interface_name: StrId) -> bool {
        list_at(self.struct_interfaces, struct_name).has(interface_name)
    }

    pub open spec fn function_in(self, module_idx: usize, name: StrId) -> Option<Rc<HirFunc>> {
        lookup(list_at(self.module_functions, module_idx), name)
    }

    pub open spec fn method_of(self, owner: StrId, method: StrId) -> Option<Rc<HirFunc>> {
        match lookup(self.type_methods, owner) {
            Some(table) => lookup(table.methods, method),
            None => None,
        }
    }

    pub open spec fn with_variable(
        self,
        name: StrId,
        ty: HirType,
        symbol_id: SymbolId,
    ) -> TypeContext {
        TypeContext { variables: updated(self.variables, name, (symbol_id, ty)), ..self }
    }

    pub open spec fn with_let_variable(
        self,
        name: StrId,
        ty: HirType,
        mutable: bool,
        symbol_id: SymbolId,
    ) -> TypeContext {
        TypeContext {
            variables: updated(self.variables, name, (symbol_id, ty)),
            mutable_variables: if mutable {
                with_member(self.mutable_variables, name)
            } else {
                without(self.mutable_variables, name)
            },
            ..self
        }
    }

    pub open spec fn with_function(self, module_idx: usize, name: StrId, func: Rc<HirFunc>) -> TypeContext {
        TypeContext {
            module_functions: updated(
                self.module_functions,
                module_idx,
                updated(list_at(self.module_functions, module_idx), name, func),
            ),
            ..self
        }
    }

    pub open spec fn with_struct_interface(self, struct_name: StrId, interface_name: StrId) -> TypeContext {
        TypeContext {
            struct_interfaces: updated(
                self.struct_interfaces,
                struct_name,
                with_member(list_at(self.struct_interfaces, struct_name), interface_name),
            ),
            ..self
        }
    }

    pub fn new() -> (context: TypeContext)
        ensures
            context == TypeContext::fresh(),
    {
        TypeContext {
            variables: Nil,
            structs: Nil,
            struct_owner_module: Nil,
            enums: Nil,
            enum_owner_module: Nil,
            interfaces: Nil,
            interface_owner_module: Nil,
            module_functions: Nil,
            type_methods: Nil,
            current_return_type: None,
            in_loop: false,
            current_module_idx: usize::MAX,
            dangling_locals: Nil,
            struct_interfaces: Nil,
            mutable_variables: Nil,
        }
    }

    pub fn add_struct_interface(&mut self, struct_name: StrId, interface_name: StrId)
        ensures
            *final(self) == old(self).with_struct_interface(struct_name, interface_name),
    {
        let known = find_list(&self.struct_interfaces, &struct_name);
        self.struct_interfaces = update(
            &self.struct_interfaces,
            struct_name,
            add_member(&known, interface_name),
        );
    }

    pub fn struct_implements(&self, struct_name: StrId, interface_name: StrId) -> (implements: bool)
        ensures
            implements == self.implements(struct_name, interface_name),
    {
        find_list(&self.struct_interfaces, &struct_name).contains(&interface_name)
    }

    pub fn is_local_binding(&self, name: StrId) -> (bound: bool)
        ensures
            bound == has_key(self.variables, name),
    {
        contains_key(&self.variables, &name)
    }

    pub fn mark_dangling(&mut self, name: StrId)
        ensures
            *final(self) == (TypeContext {
                dangling_locals: with_member(old(self).dangling_locals, name),
                ..*old(self)
            }),
    {
        self.dangling_locals = add_member(&self.dangling_locals, name);
    }

    pub fn is_dangling(&self, name: StrId) -> (dangling: bool)
        ensures
            dangling == self.dangling_locals.has(name),
    {
        self.dangling_locals.contains(&name)
    }

    pub fn add_function(&mut self, module_idx: usize, name: StrId, func: Rc<HirFunc>)
        ensures
            *final(self) == old(self).with_function(module_idx, name, func),
    {
        let known = find_list(&self.module_functions, &module_idx);
        self.module_functions = update(
            &self.module_functions,
            module_idx,
            update(&known, name, func),
        );
    }

    pub fn get_module_function(&self, module_idx: usize, name: StrId) -> (func: Option<Rc<HirFunc>>)
        ensures
            func == self.function_in(module_idx, name),
    {
        match find(&find_list(&self.module_functions, &module_idx), &name) {
            Some(func) => Some(share(func)),
            None => None,
        }
    }

    pub fn get_function(&self, name: StrId) -> (func: Option<Rc<HirFunc>>)
        ensures
            func == self.function_in(self.current_module_idx, name),
    {
        self.get_module_function(self.current_module_idx, name)
    }

    pub fn get_struct(&self, name: StrId) -> (def: Option<Rc<HirStruct>>)
        ensures
            def == lookup(self.structs, name),
    {
        match find(&self.structs, &name) {
            Some(def) => Some(share(def)),
            None => None,
        }
    }

    pub fn get_enum(&self, name: StrId) -> (def: Option<Rc<HirEnum>>)
        ensures
            def == lookup(self.enums, name),
    {
        match find(&self.enums, &name) {
            Some(def) => Some(share(def)),
            None => None,
        }
    }

    pub fn add_struct(&mut self, module_idx: usize, name: StrId, struct_def: Rc<HirStruct>)
        ensures
            *final(self) == (TypeContext {
                struct_owner_module: updated(old(self).struct_owner_module, name, module_idx),
                structs: updated(old(self).structs, name, struct_def),
                ..*old(self)
            }),
    {
        self.struct_owner_module = update(&self.struct_owner_module, name, module_idx);
        self.structs = update(&self.structs, name, struct_def);
    }

    pub fn struct_owner(&self, name: StrId) -> (owner: Option<usize>)
        ensures
            owner == lookup(self.struct_owner_module, name),
    {
        match find(&self.struct_owner_module, &name) {
            Some(owner) => Some(*owner),
            None => None,
        }
    }

    pub fn add_enum(&mut self, module_idx: usize, name: StrId, enum_def: Rc<HirEnum>)
        ensures
            *final(self) == (TypeContext {
                enum_owner_module: updated(old(self).enum_owner_module, name, module_idx),
                enums: updated(old(self).enums, name, enum_def),
                ..*old(self)
            }),
    {
        self.enum_owner_module = update(&self.enum_owner_module, name, module_idx);
        self.enums = update(&self.enums, name, enum_def);
    }

    pub fn enum_owner(&self, name: StrId) -> (owner: Option<usize>)
        ensures
            owner == lookup(self.enum_owner_module, name),
    {
        match find(&self.enum_owner_module, &name) {
            Some(owner) => Some(*owner),
            None => None,
        }
    }

    pub fn add_interface(&mut self, module_idx: usize, name: StrId, iface: Rc<HirInterface>)
        ensures
            *final(self) == (TypeContext {
                interface_owner_module: updated(
                    old(self).interface_owner_module,
                    name,
                    module_idx,
                ),
                interfaces: updated(old(self).interfaces, name, iface),
                ..*old(self)
            }),
    {
        self.interface_owner_module = update(&self.interface_owner_module, name, module_idx);
        self.interfaces = update(&self.interfaces, name, iface);
    }

    pub fn interface_owner(&self, name: StrId) -> (owner: Option<usize>)
        ensures
            owner == lookup(self.interface_owner_module, name),
    {
        match find(&self.interface_owner_module, &name) {
            Some(owner) => Some(*owner),
            None => None,
        }
    }

    pub fn get_interface(&self, name: StrId) -> (iface: Option<Rc<HirInterface>>)
        ensures
            iface == lookup(self.interfaces, name),
    {
        match find(&self.interfaces, &name) {
            Some(iface) => Some(share(iface)),
            None => None,
        }
    }

    pub fn get_method(&self, owner: StrId, method_name: StrId) -> (func: Option<Rc<HirFunc>>)
        ensures
            func == self.method_of(owner, method_name),
    {
        match find(&self.type_methods, &owner) {
            Some(table) => match table.get(method_name) {
                Some(func) => Some(share(func)),
                None => None,
            },
            None => None,
        }
    }

    pub fn add_variable(&mut self, name: StrId, ty: HirType, symbol_id: SymbolId)
        ensures
            *final(self) == old(self).with_variable(name, ty, symbol_id),
    {
        self.variables = update(&self.variables, name, (symbol_id, ty));
    }

    pub fn add_variable_with_mutability(
        &mut self,
        name: StrId,
        ty: HirType,
        mutable: bool,
        symbol_id: SymbolId,
    )
        ensures
            *final(self) == old(self).with_let_variable(name, ty, mutable, symbol_id),
    {
        if mutable {
            self.mutable_variables = add_member(&self.mutable_variables, name);
        } else {
            self.mutable_variables = remove_name(&self.mutable_variables, name);
        }
        self.variables = update(&self.variables, name, (symbol_id, ty));
    }

    pub fn is_mutable(&self, name: StrId) -> (mutable: bool)
        ensures
            mutable == self.mutable_variables.has(name),
    {
        self.mutable_variables.contains(&name)
    }

    pub fn get_variable(&self, name: StrId) -> (variable: Option<(SymbolId, HirType)>)
        ensures
            variable == lookup(self.variables, name),
    {
        match find(&self.variables, &name) {
            Some(variable) => Some((variable.0, variable.1.dup())),
            None => None,
        }
    }

    pub fn enter_loop(&mut self)
        ensures
            *final(self) == (TypeContext { in_loop: true, ..*old(self) }),
    {
        self.in_loop = true;
    }

    pub fn exit_loop(&mut self)
        ensures
            *final(self) == (TypeContext { in_loop: false, ..*old(self) }),
    {
        self.in_loop = false;
    }

    pub fn with_return_type(self, return_type: HirType) -> (context: TypeContext)
        ensures
            context == (TypeContext { current_return_type: Some(return_type), ..self }),
    {
        let mut context = self;
        context.current_return_type = Some(return_type);
        context
    }

    /// A scope that starts with all that is in scope here.
    pub fn create_child_scope(&self) -> (child: TypeContext)
        ensures
            child == *self,
    {
        TypeContext {
            variables: self.variables.dup(),
            structs: self.structs.dup(),
            struct_owner_module: self.struct_owner_module.dup(),
            enums: self.enums.dup(),
            enum_owner_module: self.enum_owner_module.dup(),
            interfaces: self.interfaces.dup(),
            interface_owner_module: self.interface_owner_module.dup(),
            module_functions: self.module_functions.dup(),
            type_methods: self.type_methods.dup(),
            current_return_type: dup_type(&self.current_return_type),
            in_loop: self.in_loop,
            current_module_idx: self.current_module_idx,
            dangling_locals: self.dangling_locals.dup(),
            struct_interfaces: self.struct_interfaces.dup(),
            mutable_variables: self.mutable_variables.dup(),
        }
    }
}

/// A declared variable is found with its type and mutability, and no other variable is affected.
pub proof fn declared_variable_is_found(
    context: TypeContext,
    name: StrId,
    ty: HirType,
    mutable: bool,
    symbol_id: SymbolId,
    other: StrId,
)
    ensures
        lookup(context.with_let_variable(name, ty, mutable, symbol_id).variables, name) == Some(
            (symbol_id, ty),
        ),
        context.with_let_variable(name, ty, mutable, symbol_id).mutable_variables.has(name)
            == mutable,
        other != name ==> lookup(
            context.with_let_variable(name, ty, mutable, symbol_id).variables,
            other,
        ) == lookup(context.variables, other),
        other != name ==> context.with_let_variable(
            name,
            ty,
            mutable,
            symbol_id,
        ).mutable_variables.has(other) == context.mutable_variables.has(other),
{
    crate::list::update_then_lookup(context.variables, name, (symbol_id, ty), other);
    crate::list::member_added(context.mutable_variables, name, name);
    crate::list::member_added(context.mutable_variables, name, other);
    without_removes(context.mutable_variables, name, name);
    without_removes(context.mutable_variables, name, other);
}

proof fn without_removes(list: List<StrId>, gone: StrId, other: StrId)
    ensures
        without(list, gone).has(other) == (list.has(other) && other != gone),
    decreases list,
{
    match list {
        Nil => {},
        Cons(_, _) => {
            without_removes(list.rest(), gone, other);
        },
    }
}

} // verus!
