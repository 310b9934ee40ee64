//! What the checker knows of the program around the function it checks: the modules and their
//! imports, and the rules of the language that are tables.

use vstd::prelude::*;

use crate::hir::{HirType, RefKind, StrId};
use crate::list::{find, lookup, Cons, Key, List, Nil, Table};

verus! {

/// The modules of the program and what each declares.
#[derive(Debug, PartialEq, Eq)]
pub struct ModuleGraph {
    /// The module that a path names.
    pub paths: Table<List<StrId>, usize>,
    pub packages: Table<usize, StrId>,
    /// The coordinates of a declaration: its module, its place there, and what it is.
    pub items: Table<(usize, StrId), (usize, usize, StrId)>,
    /// The coordinates of a method, by the type it is for and its name.
    pub methods: Table<(StrId, StrId), (usize, usize, usize)>,
    /// The module that declares what another module exports under a name.
    pub members: Table<(usize, StrId), usize>,
    pub constants: List<(usize, StrId)>,
    /// The modules that declare a function of some name.
    pub functions: Table<StrId, List<usize>>,
    /// The packages that every module imports.
    pub auto_packages: List<List<StrId>>,
    /// The name `package_Type` of a type of a module.
    pub package_types: Table<(usize, StrId), StrId>,
    /// The mangled name of a type of a module.
    pub mangled_types: Table<(usize, StrId), StrId>,
    /// The name `slice_elem` of the slices of an element type.
    pub slice_types: Table<StrId, StrId>,
}

impl ModuleGraph {
    pub open spec fn module_at(self, path: List<StrId>) -> Option<usize> {
        lookup(self.paths, path)
    }

    pub open spec fn package_of(self, module_idx: usize) -> Option<StrId> {
        lookup(self.packages, module_idx)
    }

    pub open spec fn member_module(self, module_idx: usize, name: StrId) -> usize {
        match lookup(self.members, (module_idx, name)) {
            Some(declaring) => declaring,
            None => module_idx,
        }
    }

    pub open spec fn mangled(self, module_idx: usize, name: StrId) -> StrId {
        match lookup(self.mangled_types, (module_idx, name)) {
            Some(mangled) => mangled,
            None => name,
        }
    }

    /// The packages of a list of modules, those without one left out.
    pub open spec fn packages_of(self, modules: List<usize>) -> List<StrId>
        decreases modules,
    {
        match modules {
            Nil => Nil,
            Cons(module_idx, rest) => match self.package_of(*module_idx) {
                Some(package) => List::cons_of(package, self.packages_of(*rest)),
                None => self.packages_of(*rest),
            },
        }
    }

    pub fn resolve_module_path(&self, path: &List<StrId>) -> (module_idx: Option<usize>)
        ensures
            module_idx == self.module_at(*path),
    {
        match find(&self.paths, path) {
            Some(module_idx) => Some(*module_idx),
            None => None,
        }
    }

    pub fn get_module_package(&self, module_idx: usize) -> (package: Option<StrId>)
        ensures
            package == self.package_of(module_idx),
    {
        match find(&self.packages, &module_idx) {
            Some(package) => Some(*package),
            None => None,
        }
    }

    pub fn get_packages(&self, modules: &List<usize>) -> (packages: List<StrId>)
        ensures
            packages == self.packages_of(*modules),
        decreases modules,
    {
        match modules {
            Nil => Nil,
            Cons(module_idx, rest) => match self.get_module_package(**module_idx) {
                Some(package) => List::cons(package, self.get_packages(rest)),
                None => self.get_packages(rest),
            },
        }
    }

    pub fn resolve_item_in_module(&self, module_idx: usize, name: StrId) -> (item: Option<
        (usize, usize, StrId),
    >)
        ensures
            item == lookup(self.items, (module_idx, name)),
    {
        match find(&self.items, &(module_idx, name)) {
            Some(item) => Some(*item),
            None => None,
        }
    }

    pub fn resolve_method(&self, target: StrId, name: StrId) -> (method: Option<
        (usize, usize, usize),
    >)
        ensures
            method == lookup(self.methods, (target, name)),
    {
        match find(&self.methods, &(target, name)) {
            Some(method) => Some(*method),
            None => None,
        }
    }

    pub fn canonical_member_module(&self, module_idx: usize, name: StrId) -> (declaring: usize)
        ensures
            declaring == self.member_module(module_idx, name),
    {
        match find(&self.members, &(module_idx, name)) {
            Some(declaring) => *declaring,
            None => module_idx,
        }
    }

    pub fn is_global_const(&self, module_idx: usize, name: StrId) -> (known: bool)
        ensures
            known == self.constants.has((module_idx, name)),
    {
        self.constants.contains(&(module_idx, name))
    }

    pub fn find_function_by_name_anywhere(&self, name: StrId) -> (modules: List<usize>)
        ensures
            modules == crate::type_context::list_at(self.functions, name),
    {
        crate::type_context::find_list(&self.functions, &name)
    }

    pub fn package_type(&self, module_idx: usize, name: StrId) -> (qualified: Option<StrId>)
        ensures
            qualified == lookup(self.package_types, (module_idx, name)),
    {
        match find(&self.package_types, &(module_idx, name)) {
            Some(qualified) => Some(*qualified),
            None => None,
        }
    }

    pub fn mangle_type(&self, module_idx: usize, name: StrId) -> (mangled: StrId)
        ensures
            mangled == self.mangled(module_idx, name),
    {
        match find(&self.mangled_types, &(module_idx, name)) {
            Some(mangled) => *mangled,
            None => name,
        }
    }

    pub fn slice_type(&self, elem: StrId) -> (name: Option<StrId>)
        ensures
            name == lookup(self.slice_types, elem),
    {
        match find(&self.slice_types, &elem) {
            Some(name) => Some(*name),
            None => None,
        }
    }
}

/// The names that a module can use from others.
#[derive(Debug, PartialEq, Eq)]
pub struct ModuleImports {
    /// `import foo::bar.Baz;` makes `Baz` usable bare; the module is the one that declares it.
    pub named: Table<StrId, usize>,
    /// `import foo::bar;` makes `foo::bar::x` usable, but nothing bare.
    pub modules: List<usize>,
    pub module_aliases: Table<StrId, usize>,
    pub wildcard: List<usize>,
}

/// The outermost form of a type.
#[derive(Clone, Copy, Debug, PartialEq, Eq, Structural)]
pub enum TypeShape {
    Integer,
    Float,
    Boolean,
    String,
    Char,
    Void,
    Unknown,
    Null,
    This,
    Never,
    Struct,
    DynInterface,
    Enum,
    Generic,
    SafePointer,
    UnsafePointer,
    OwnedPointer,
    Lambda,
    SharedRef,
    AliasRef,
    UniqueRef,
    Nullable,
    Dyn,
    Tuple,
    Array,
    Slice,
    Range,
}

impl Key for TypeShape {
    fn same(&self, other: &Self) -> (equal: bool) {
        *self == *other
    }
}

impl Key for RefKind {
    fn same(&self, other: &Self) -> (equal: bool) {
        *self == *other
    }
}

pub open spec fn shape_of(ty: HirType) -> TypeShape {
    match ty {
        HirType::I8 | HirType::I16 | HirType::I32 | HirType::I64 | HirType::I128 | HirType::U8
        | HirType::U16 | HirType::U32 | HirType::U64 | HirType::U128 | HirType::Usize
        | HirType::Isize => TypeShape::Integer,
        HirType::F32 | HirType::F64 => TypeShape::Float,
        HirType::Boolean => TypeShape::Boolean,
        HirType::String => TypeShape::String,
        HirType::Char => TypeShape::Char,
        HirType::Void => TypeShape::Void,
        HirType::Unknown => TypeShape::Unknown,
        HirType::Null => TypeShape::Null,
        HirType::This => TypeShape::This,
        HirType::Never => TypeShape::Never,
        HirType::Struct { .. } => TypeShape::Struct,
        HirType::DynInterface(..) => TypeShape::DynInterface,
        HirType::Enum { .. } => TypeShape::Enum,
        HirType::Generic(_) => TypeShape::Generic,
        HirType::SafePointer { .. } => TypeShape::SafePointer,
        HirType::UnsafePointer { .. } => TypeShape::UnsafePointer,
        HirType::OwnedPointer { .. } => TypeShape::OwnedPointer,
        HirType::Lambda { .. } => TypeShape::Lambda,
        HirType::Ref { ref_kind, .. } => match ref_kind {
            RefKind::Shared => TypeShape::SharedRef,
            RefKind::Alias => TypeShape::AliasRef,
            RefKind::Unique => TypeShape::UniqueRef,
        },
        HirType::Nullable(_) => TypeShape::Nullable,
        HirType::Dyn { .. } => TypeShape::Dyn,
        HirType::Tuple(_) => TypeShape::Tuple,
        HirType::Array(..) => TypeShape::Array,
        HirType::Slice(_) => TypeShape::Slice,
        HirType::Range { .. } => TypeShape::Range,
    }
}

pub fn shape(ty: &HirType) -> (shape: TypeShape)
    ensures
        shape == shape_of(*ty),
{
    match ty {
        HirType::I8 | HirType::I16 | HirType::I32 | HirType::I64 | HirType::I128 | HirType::U8
        | HirType::U16 | HirType::U32 | HirType::U64 | HirType::U128 | HirType::Usize
        | HirType::Isize => TypeShape::Integer,
        HirType::F32 | HirType::F64 => TypeShape::Float,
        HirType::Boolean => TypeShape::Boolean,
        HirType::String => TypeShape::String,
        HirType::Char => TypeShape::Char,
        HirType::Void => TypeShape::Void,
        HirType::Unknown => TypeShape::Unknown,
        HirType::Null => TypeShape::Null,
        HirType::This => TypeShape::This,
        HirType::Never => TypeShape::Never,
        HirType::Struct { .. } => TypeShape::Struct,
        HirType::DynInterface(..) => TypeShape::DynInterface,
        HirType::Enum { .. } => TypeShape::Enum,
        HirType::Generic(_) => TypeShape::Generic,
        HirType::SafePointer { .. } => TypeShape::SafePointer,
        HirType::UnsafePointer { .. } => TypeShape::UnsafePointer,
        HirType::OwnedPointer { .. } => TypeShape::OwnedPointer,
        HirType::Lambda { .. } => TypeShape::Lambda,
        HirType::Ref { ref_kind, .. } => match ref_kind {
            RefKind::Shared => TypeShape::SharedRef,
            RefKind::Alias => TypeShape::AliasRef,
            RefKind::Unique => TypeShape::UniqueRef,
        },
        HirType::Nullable(_) => TypeShape::Nullable,
        HirType::Dyn { .. } => TypeShape::Dyn,
        HirType::Tuple(_) => TypeShape::Tuple,
        HirType::Array(..) => TypeShape::Array,
        HirType::Slice(_) => TypeShape::Slice,
        HirType::Range { .. } => TypeShape::Range,
    }
}

/// The rules of the language that come as tables.
#[derive(Debug, PartialEq, Eq)]
pub struct Facts {
    /// The pairs of a reference kind and one that it may stand for.
    pub coercions: List<(RefKind, RefKind)>,
    /// The shapes of the types that only point to their data.
    pub pointer_shapes: List<TypeShape>,
    /// The shapes of the types that are copied where their parts are.
    pub copy_shapes: List<TypeShape>,
    /// The structs and enums that are copied.
    pub copy_types: List<StrId>,
    /// The structs and enums with a destructor.
    pub drop_types: List<StrId>,
    /// Where each name stands in alphabetical order.
    pub name_ranks: Table<StrId, usize>,
}

impl Facts {
    pub open spec fn coerces(self, from: RefKind, to: RefKind) -> bool {
        self.coercions.has((from, to))
    }

    pub open spec fn points(self, ty: HirType) -> bool {
        self.pointer_shapes.has(shape_of(ty))
    }

    /// Whether a use of a value of this type leaves the value in place.
    pub open spec fn copied(self, ty: HirType) -> bool
        decreases ty,
    {
        match ty {
            HirType::Struct { name, .. } | HirType::Enum { name, .. } => self.copy_types.has(name),
            HirType::Array(inner, _) => self.copy_shapes.has(TypeShape::Array) && self.copied(
                *inner,
            ),
            HirType::Nullable(inner) => self.copy_shapes.has(TypeShape::Nullable) && self.copied(
                *inner,
            ),
            HirType::Tuple(elems) => self.copy_shapes.has(TypeShape::Tuple) && self.all_copied(
                elems,
            ),
            _ => self.copy_shapes.has(shape_of(ty)),
        }
    }

    pub open spec fn all_copied(self, types: List<HirType>) -> bool
        decreases types,
    {
        match types {
            Nil => true,
            Cons(ty, rest) => self.copied(*ty) && self.all_copied(*rest),
        }
    }

    pub open spec fn rank(self, name: StrId) -> usize {
        match lookup(self.name_ranks, name) {
            Some(rank) => rank,
            None => usize::MAX,
        }
    }

    pub fn coerces_to(&self, from: RefKind, to: RefKind) -> (allowed: bool)
        ensures
            allowed == self.coerces(from, to),
    {
        self.coercions.contains(&(from, to))
    }

    pub fn is_pointer_semantics(&self, ty: &HirType) -> (pointer: bool)
        ensures
            pointer == self.points(*ty),
    {
        self.pointer_shapes.contains(&shape(ty))
    }

    pub fn type_is_copy(&self, ty: &HirType) -> (copied: bool)
        ensures
            copied == self.copied(*ty),
        decreases ty,
    {
        match ty {
            HirType::Struct { name, .. } | HirType::Enum { name, .. } => self.copy_types.contains(
                name,
            ),
            HirType::Array(inner, _) => self.copy_shapes.contains(&TypeShape::Array)
                && self.type_is_copy(inner),
            HirType::Nullable(inner) => self.copy_shapes.contains(&TypeShape::Nullable)
                && self.type_is_copy(inner),
            HirType::Tuple(elems) => self.copy_shapes.contains(&TypeShape::Tuple)
                && self.types_are_copy(elems),
            _ => self.copy_shapes.contains(&shape(ty)),
        }
    }

    fn types_are_copy(&self, types: &List<HirType>) -> (copied: bool)
        ensures
            copied == self.all_copied(*types),
        decreases types,
    {
        match types {
            Nil => true,
            Cons(ty, rest) => self.type_is_copy(ty) && self.types_are_copy(rest),
        }
    }

    pub fn implements_drop(&self, name: StrId) -> (drops: bool)
        ensures
            drops == self.drop_types.has(name),
    {
        self.drop_types.contains(&name)
    }

    pub fn name_rank(&self, name: StrId) -> (rank: usize)
        ensures
            rank == self.rank(name),
    {
        match find(&self.name_ranks, &name) {
            Some(rank) => *rank,
            None => usize::MAX,
        }
    }
}

} // verus!
