//! What the checker complains about.

use vstd::prelude::*;

use crate::hir::{
    HirEffectSegment, HirType, Operator, ProvenanceAnnotation, SourceSpan, StrId,
};
use crate::list::List;

verus! {

/// An index that an access goes through.
#[derive(Debug, PartialEq, Eq)]
pub enum UsedIndex {
    /// From a literal index or a slice.
    Range(i64, i64),
    /// From a stable field path.
    Place(StrId, List<StrId>),
}

impl UsedIndex {
    pub fn dup(&self) -> (copy: UsedIndex)
        ensures
            copy == *self,
    {
        match self {
            UsedIndex::Range(start, end) => UsedIndex::Range(*start, *end),
            UsedIndex::Place(root, path) => UsedIndex::Place(*root, path.dup()),
        }
    }
}

/// Something that stands where a type is expected in a message.
#[derive(Debug, PartialEq, Eq)]
pub enum TypeText {
    Type(HirType),
    Bool,
    Null,
    Str,
    Integer,
    U32,
    TuplePattern(usize),
    ArrayPattern(usize),
    NamedFieldPattern(StrId),
}

/// A function as it is named in a call.
#[derive(Debug, PartialEq, Eq)]
pub enum FunctionName {
    Plain(StrId),
    /// `path::to.member`
    Member(List<StrId>, StrId),
    /// `path::to::member`
    Qualified(List<StrId>, StrId),
}

#[derive(Clone, Copy, Debug, PartialEq, Eq, Structural)]
pub enum BareImportKind {
    Struct,
    Enum,
}

impl BareImportKind {
    /// The keyword that declares such an item.
    pub open spec fn word(self) -> &'static str {
        match self {
            BareImportKind::Struct => "struct",
            BareImportKind::Enum => "enum",
        }
    }

    pub fn as_str(&self) -> (word: &'static str)
        ensures
            word == self.word(),
    {
        match self {
            BareImportKind::Struct => "struct",
            BareImportKind::Enum => "enum",
        }
    }
}

#[derive(Clone, Copy, Debug, PartialEq, Eq, Structural)]
pub enum Atomic {
    Cas,
    Load,
    Store,
}

/// The messages that have no category of their own.
#[derive(Debug, PartialEq, Eq)]
pub enum Message {
    PointerToLocal { name: StrId },
    ReturnsDangling { name: StrId },
    CompoundReadsUninit { root: StrId, index: i64 },
    UninitPath { root: StrId, path: List<StrId> },
    MaybeUninitPath { root: StrId, path: List<StrId> },
    UninitValue { name: StrId },
    MaybeUninitValue { name: StrId },
    UninitRange { root: StrId, start: i64, end: i64 },
    SliceNeedsWhole { root: StrId },
    UninitElement { root: StrId, index: i64 },
    IndexNeedsWhole { root: StrId },
    WriteNotGranted { root: StrId, path: List<StrId>, index: Option<UsedIndex> },
    ReadNotListed { root: StrId, path: List<StrId>, index: Option<UsedIndex> },
    AccessListNeedsReference,
    MutThroughShared,
    ProvenanceNotProjection { provenance: ProvenanceAnnotation },
    ProvenanceRootMismatch { provenance: ProvenanceAnnotation },
    PartialMoveOfDrop { container: HirType },
    MovedValue { root: StrId },
    MovedField { root: StrId, field: StrId },
    DuplicateFunction { name: StrId },
    UnresolvedImport { path: List<StrId> },
    UnresolvedPackage { path: List<StrId> },
    AmbiguousAlias { existing: Option<StrId>, added: Option<StrId>, alias: StrId },
    CopyAndDrop { name: StrId },
    NotZeroable { ty: HirType },
    PointerIndexNeedsUnsafe,
    RawIndexNeedsUnsafe,
    UnsafeIndexNeedsUnsafe,
    RawDerefNeedsUnsafe,
    UnsafeDerefNeedsUnsafe,
    CannotIndex { ty: HirType },
    CannotSlice { ty: HirType },
    CannotDeref { ty: HirType },
    SliceBoundsNotIntegers,
    RangeBoundsNotIntegers { ty: HirType },
    IfNeedsElse,
    UnknownIntrinsic { name: StrId },
    ElseOnNonNullable { ty: HirType },
    CapOnlyOnOwned,
    CapNotAssignable,
    LenNeedsUnsafe,
    LenNotInteger { ty: HirType },
    LenPlainAssignmentOnly,
    NotDeclaredMut { name: StrId },
    StructTypeArgCount { name: StrId, expected: usize, found: usize },
    StructNeedsTypeArgs { name: StrId },
    StructNotGeneric { name: StrId },
    FieldInitializedTwice { field: StrId },
    MissingFields { names: List<StrId> },
    NoSuchVariant { enum_name: StrId, variant: StrId },
    EnumTypeArgCount { name: StrId, expected: usize, found: usize },
    EnumNeedsTypeArgs { name: StrId, variant: StrId },
    EnumNotGeneric { name: StrId },
    FieldOnNonStruct { ty: HirType },
    OperatorMisplaced { op: Operator },
    NotImported { kind: BareImportKind, name: StrId },
    AmbiguousName { name: StrId, packages: List<StrId> },
    FunctionNotVisible { name: StrId },
    NoCast { source: HirType, target: HirType },
    ReplaceNoTypeArgs,
    ReplaceNeedsPlace,
    ReplaceUninit,
    ReplaceSliceField,
    ReplaceNotMut { name: StrId },
    ReinterpretTypeArgCount { found: usize },
    ReinterpretNeedsUnsafe,
    UnreachableNoTypeArgs,
    UnreachableNoArgs,
    OneTypeArg { found: usize },
    NoValueArgs,
    OwnNoTypeArgs,
    OwnArgCount { found: usize },
    OwnNeedsPointer { ty: HirType },
    OwnAllocatorUnstable,
    OwnAllocatorNotStruct,
    NotRawAllocator { name: StrId },
    OwnLenNotInteger { ty: HirType },
    OwnCapNotInteger { ty: HirType },
    OwnArgNotInteger { ty: HirType },
    OwnNeedsLenAndCap,
    AlignNoTypeArgs,
    AlignNeedsPointer { ty: HirType },
    AlignNotInteger { ty: HirType },
    AlignNotPowerOfTwo { value: i64 },
    AtomicNeedsUnsafe { atomic: Atomic },
    AtomicNeedsPointer { atomic: Atomic, ty: HirType },
    CpuRelaxNoArgs,
    ThisOutsideMethod,
    UnsafeCall { name: StrId },
    UnsafeMethodCall { owner: StrId, name: StrId },
    InterfaceCalleeNotField,
    NoInterfaceMethod { method: StrId, interface: StrId },
    NotCallable { ty: HirType },
    FunctionTypeArgCount { name: StrId, expected: usize, found: usize },
    FunctionNotGeneric { name: StrId },
    GenericsNotInferred { name: StrId },
    NoMethod { method: StrId, ty: HirType },
    PrimitiveNeedsUnsafe { method: StrId },
    IndexNotInteger { ty: HirType },
    WriteAllNeedsSlice { ty: HirType },
    NotDeclared { name: StrId },
    ModuleNotImported { path: List<StrId> },
    ReceiverNotMut { method: StrId, root: StrId },
    VariantFieldCount { enum_name: StrId, variant: StrId, fields: usize, bound: usize },
    TuplePatternLength { pattern: usize, elems: usize },
    ArrayPatternLength { pattern: usize, ty: HirType, len: usize },
    FieldMatchedTwice { field: StrId },
    NoVariantField { enum_name: StrId, variant: StrId, field: StrId },
    MissingVariantFields { names: List<StrId>, enum_name: StrId, variant: StrId },
    EmptyOrPattern,
    OrPatternBindings { expected: List<StrId>, found: List<StrId> },
    MissingNullArm { ty: HirType },
    MissingVariants { enum_name: StrId, names: List<StrId> },
    NonExhaustiveBool,
    NeedsCatchAll { ty: HirType },
    PointerLambdaCaptures { root: StrId, path: List<HirEffectSegment> },
}

#[derive(Debug, PartialEq, Eq)]
pub enum TypeErrorKind {
    Generic(Message),
    TypeMismatch { expected: TypeText, found: TypeText },
    InvalidBinaryOp { op: Operator, left: HirType, right: HirType },
    UndefinedVariable(StrId),
    UndefinedType(StrId),
    UndefinedFunction(FunctionName),
    UndefinedFunctionWithSuggestion { name: FunctionName, suggested_modules: List<StrId> },
    FieldNotFound { struct_name: StrId, field: StrId },
    VariableAlreadyExists { var_name: StrId },
    InvalidFunctionCall { expected_args: usize, found_args: usize },
    /// A bare `return` in a function with a result.
    InvalidReturnType { expected: HirType },
    TypeCannotBeInferred,
    IllegalThisParam { func_name: StrId },
    BreakOutsideLoop,
    ContinueOutsideLoop,
}

#[derive(Debug, PartialEq, Eq)]
pub struct TypeError {
    pub kind: TypeErrorKind,
    pub span: SourceSpan,
}

impl TypeErrorKind {
    pub fn at(self, span: SourceSpan) -> (error: TypeError)
        ensures
            error == (TypeError { kind: self, span }),
    {
        TypeError { kind: self, span }
    }
}

impl TypeText {
    pub fn dup(&self) -> (copy: TypeText)
        ensures
            copy == *self,
    {
        match self {
            TypeText::Type(part) => TypeText::Type(part.dup()),
            TypeText::Bool => TypeText::Bool,
            TypeText::Null => TypeText::Null,
            TypeText::Str => TypeText::Str,
            TypeText::Integer => TypeText::Integer,
            TypeText::U32 => TypeText::U32,
            TypeText::TuplePattern(part) => TypeText::TuplePattern(*part),
            TypeText::ArrayPattern(part) => TypeText::ArrayPattern(*part),
            TypeText::NamedFieldPattern(part) => TypeText::NamedFieldPattern(*part),
        }
    }
}

impl FunctionName {
    pub fn dup(&self) -> (copy: FunctionName)
        ensures
            copy == *self,
    {
        match self {
            FunctionName::Plain(part) => FunctionName::Plain(*part),
            FunctionName::Member(part0, part1) => FunctionName::Member(part0.dup(), *part1),
            FunctionName::Qualified(part0, part1) => FunctionName::Qualified(part0.dup(), *part1),
        }
    }
}

impl Message {
    pub fn dup(&self) -> (copy: Message)
        ensures
            copy == *self,
    {
        match self {
            Message::PointerToLocal { name } => Message::PointerToLocal { name: *name },
            Message::ReturnsDangling { name } => Message::ReturnsDangling { name: *name },
            Message::CompoundReadsUninit { root, index } => Message::CompoundReadsUninit { root: *root, index: *index },
            Message::UninitPath { root, path } => Message::UninitPath { root: *root, path: path.dup() },
            Message::MaybeUninitPath { root, path } => Message::MaybeUninitPath { root: *root, path: path.dup() },
            Message::UninitValue { name } => Message::UninitValue { name: *name },
            Message::MaybeUninitValue { name } => Message::MaybeUninitValue { name: *name },
            Message::UninitRange { root, start, end } => Message::UninitRange { root: *root, start: *start, end: *end },
            Message::SliceNeedsWhole { root } => Message::SliceNeedsWhole { root: *root },
            Message::UninitElement { root, index } => Message::UninitElement { root: *root, index: *index },
            Message::IndexNeedsWhole { root } => Message::IndexNeedsWhole { root: *root },
            Message::WriteNotGranted { root, path, index } => Message::WriteNotGranted { root: *root, path: path.dup(), index: dup_index(index) },
            Message::ReadNotListed { root, path, index } => Message::ReadNotListed { root: *root, path: path.dup(), index: dup_index(index) },
            Message::AccessListNeedsReference => Message::AccessListNeedsReference,
            Message::MutThroughShared => Message::MutThroughShared,
            Message::ProvenanceNotProjection { provenance } => Message::ProvenanceNotProjection { provenance: provenance.dup() },
            Message::ProvenanceRootMismatch { provenance } => Message::ProvenanceRootMismatch { provenance: provenance.dup() },
            Message::PartialMoveOfDrop { container } => Message::PartialMoveOfDrop { container: container.dup() },
            Message::MovedValue { root } => Message::MovedValue { root: *root },
            Message::MovedField { root, field } => Message::MovedField { root: *root, field: *field },
            Message::DuplicateFunction { name } => Message::DuplicateFunction { name: *name },
            Message::UnresolvedImport { path } => Message::UnresolvedImport { path: path.dup() },
            Message::UnresolvedPackage { path } => Message::UnresolvedPackage { path: path.dup() },
            Message::AmbiguousAlias { existing, added, alias } => Message::AmbiguousAlias { existing: *existing, added: *added, alias: *alias },
            Message::CopyAndDrop { name } => Message::CopyAndDrop { name: *name },
            Message::NotZeroable { ty } => Message::NotZeroable { ty: ty.dup() },
            Message::PointerIndexNeedsUnsafe => Message::PointerIndexNeedsUnsafe,
            Message::RawIndexNeedsUnsafe => Message::RawIndexNeedsUnsafe,
            Message::UnsafeIndexNeedsUnsafe => Message::UnsafeIndexNeedsUnsafe,
            Message::RawDerefNeedsUnsafe => Message::RawDerefNeedsUnsafe,
            Message::UnsafeDerefNeedsUnsafe => Message::UnsafeDerefNeedsUnsafe,
            Message::CannotIndex { ty } => Message::CannotIndex { ty: ty.dup() },
            Message::CannotSlice { ty } => Message::CannotSlice { ty: ty.dup() },
            Message::CannotDeref { ty } => Message::CannotDeref { ty: ty.dup() },
            Message::SliceBoundsNotIntegers => Message::SliceBoundsNotIntegers,
            Message::RangeBoundsNotIntegers { ty } => Message::RangeBoundsNotIntegers { ty: ty.dup() },
            Message::IfNeedsElse => Message::IfNeedsElse,
            Message::UnknownIntrinsic { name } => Message::UnknownIntrinsic { name: *name },
            Message::ElseOnNonNullable { ty } => Message::ElseOnNonNullable { ty: ty.dup() },
            Message::CapOnlyOnOwned => Message::CapOnlyOnOwned,
            Message::CapNotAssignable => Message::CapNotAssignable,
            Message::LenNeedsUnsafe => Message::LenNeedsUnsafe,
            Message::LenNotInteger { ty } => Message::LenNotInteger { ty: ty.dup() },
            Message::LenPlainAssignmentOnly => Message::LenPlainAssignmentOnly,
            Message::NotDeclaredMut { name } => Message::NotDeclaredMut { name: *name },
            Message::StructTypeArgCount { name, expected, found } => Message::StructTypeArgCount { name: *name, expected: *expected, found: *found },
            Message::StructNeedsTypeArgs { name } => Message::StructNeedsTypeArgs { name: *name },
            Message::StructNotGeneric { name } => Message::StructNotGeneric { name: *name },
            Message::FieldInitializedTwice { field } => Message::FieldInitializedTwice { field: *field },
            Message::MissingFields { names } => Message::MissingFields { names: names.dup() },
            Message::NoSuchVariant { enum_name, variant } => Message::NoSuchVariant { enum_name: *enum_name, variant: *variant },
            Message::EnumTypeArgCount { name, expected, found } => Message::EnumTypeArgCount { name: *name, expected: *expected, found: *found },
            Message::EnumNeedsTypeArgs { name, variant } => Message::EnumNeedsTypeArgs { name: *name, variant: *variant },
            Message::EnumNotGeneric { name } => Message::EnumNotGeneric { name: *name },
            Message::FieldOnNonStruct { ty } => Message::FieldOnNonStruct { ty: ty.dup() },
            Message::OperatorMisplaced { op } => Message::OperatorMisplaced { op: *op },
            Message::NotImported { kind, name } => Message::NotImported { kind: *kind, name: *name },
            Message::AmbiguousName { name, packages } => Message::AmbiguousName { name: *name, packages: packages.dup() },
            Message::FunctionNotVisible { name } => Message::FunctionNotVisible { name: *name },
            Message::NoCast { source, target } => Message::NoCast { source: source.dup(), target: target.dup() },
            Message::ReplaceNoTypeArgs => Message::ReplaceNoTypeArgs,
            Message::ReplaceNeedsPlace => Message::ReplaceNeedsPlace,
            Message::ReplaceUninit => Message::ReplaceUninit,
            Message::ReplaceSliceField => Message::ReplaceSliceField,
            Message::ReplaceNotMut { name } => Message::ReplaceNotMut { name: *name },
            Message::ReinterpretTypeArgCount { found } => Message::ReinterpretTypeArgCount { found: *found },
            Message::ReinterpretNeedsUnsafe => Message::ReinterpretNeedsUnsafe,
            Message::UnreachableNoTypeArgs => Message::UnreachableNoTypeArgs,
            Message::UnreachableNoArgs => Message::UnreachableNoArgs,
            Message::OneTypeArg { found } => Message::OneTypeArg { found: *found },
            Message::NoValueArgs => Message::NoValueArgs,
            Message::OwnNoTypeArgs => Message::OwnNoTypeArgs,
            Message::OwnArgCount { found } => Message::OwnArgCount { found: *found },
            Message::OwnNeedsPointer { ty } => Message::OwnNeedsPointer { ty: ty.dup() },
            Message::OwnAllocatorUnstable => Message::OwnAllocatorUnstable,
            Message::OwnAllocatorNotStruct => Message::OwnAllocatorNotStruct,
            Message::NotRawAllocator { name } => Message::NotRawAllocator { name: *name },
            Message::OwnLenNotInteger { ty } => Message::OwnLenNotInteger { ty: ty.dup() },
            Message::OwnCapNotInteger { ty } => Message::OwnCapNotInteger { ty: ty.dup() },
            Message::OwnArgNotInteger { ty } => Message::OwnArgNotInteger { ty: ty.dup() },
            Message::OwnNeedsLenAndCap => Message::OwnNeedsLenAndCap,
            Message::AlignNoTypeArgs => Message::AlignNoTypeArgs,
            Message::AlignNeedsPointer { ty } => Message::AlignNeedsPointer { ty: ty.dup() },
            Message::AlignNotInteger { ty } => Message::AlignNotInteger { ty: ty.dup() },
            Message::AlignNotPowerOfTwo { value } => Message::AlignNotPowerOfTwo { value: *value },
            Message::AtomicNeedsUnsafe { atomic } => Message::AtomicNeedsUnsafe { atomic: *atomic },
            Message::AtomicNeedsPointer { atomic, ty } => Message::AtomicNeedsPointer { atomic: *atomic, ty: ty.dup() },
            Message::CpuRelaxNoArgs => Message::CpuRelaxNoArgs,
            Message::ThisOutsideMethod => Message::ThisOutsideMethod,
            Message::UnsafeCall { name } => Message::UnsafeCall { name: *name },
            Message::UnsafeMethodCall { owner, name } => Message::UnsafeMethodCall { owner: *owner, name: *name },
            Message::InterfaceCalleeNotField => Message::InterfaceCalleeNotField,
            Message::NoInterfaceMethod { method, interface } => Message::NoInterfaceMethod { method: *method, interface: *interface },
            Message::NotCallable { ty } => Message::NotCallable { ty: ty.dup() },
            Message::FunctionTypeArgCount { name, expected, found } => Message::FunctionTypeArgCount { name: *name, expected: *expected, found: *found },
            Message::FunctionNotGeneric { name } => Message::FunctionNotGeneric { name: *name },
            Message::GenericsNotInferred { name } => Message::GenericsNotInferred { name: *name },
            Message::NoMethod { method, ty } => Message::NoMethod { method: *method, ty: ty.dup() },
            Message::PrimitiveNeedsUnsafe { method } => Message::PrimitiveNeedsUnsafe { method: *method },
            Message::IndexNotInteger { ty } => Message::IndexNotInteger { ty: ty.dup() },
            Message::WriteAllNeedsSlice { ty } => Message::WriteAllNeedsSlice { ty: ty.dup() },
            Message::NotDeclared { name } => Message::NotDeclared { name: *name },
            Message::ModuleNotImported { path } => Message::ModuleNotImported { path: path.dup() },
            Message::ReceiverNotMut { method, root } => Message::ReceiverNotMut { method: *method, root: *root },
            Message::VariantFieldCount { enum_name, variant, fields, bound } => Message::VariantFieldCount { enum_name: *enum_name, variant: *variant, fields: *fields, bound: *bound },
            Message::TuplePatternLength { pattern, elems } => Message::TuplePatternLength { pattern: *pattern, elems: *elems },
            Message::ArrayPatternLength { pattern, ty, len } => Message::ArrayPatternLength { pattern: *pattern, ty: ty.dup(), len: *len },
            Message::FieldMatchedTwice { field } => Message::FieldMatchedTwice { field: *field },
            Message::NoVariantField { enum_name, variant, field } => Message::NoVariantField { enum_name: *enum_name, variant: *variant, field: *field },
            Message::MissingVariantFields { names, enum_name, variant } => Message::MissingVariantFields { names: names.dup(), enum_name: *enum_name, variant: *variant },
            Message::EmptyOrPattern => Message::EmptyOrPattern,
            Message::OrPatternBindings { expected, found } => Message::OrPatternBindings { expected: expected.dup(), found: found.dup() },
            Message::MissingNullArm { ty } => Message::MissingNullArm { ty: ty.dup() },
            Message::MissingVariants { enum_name, names } => Message::MissingVariants { enum_name: *enum_name, names: names.dup() },
            Message::NonExhaustiveBool => Message::NonExhaustiveBool,
            Message::NeedsCatchAll { ty } => Message::NeedsCatchAll { ty: ty.dup() },
            Message::PointerLambdaCaptures { root, path } => Message::PointerLambdaCaptures { root: *root, path: path.dup() },
        }
    }
}

impl TypeErrorKind {
    pub fn dup(&self) -> (copy: TypeErrorKind)
        ensures
            copy == *self,
    {
        match self {
            TypeErrorKind::Generic(part) => TypeErrorKind::Generic(part.dup()),
            TypeErrorKind::TypeMismatch { expected, found } => TypeErrorKind::TypeMismatch { expected: expected.dup(), found: found.dup() },
            TypeErrorKind::InvalidBinaryOp { op, left, right } => TypeErrorKind::InvalidBinaryOp { op: *op, left: left.dup(), right: right.dup() },
            TypeErrorKind::UndefinedVariable(part) => TypeErrorKind::UndefinedVariable(*part),
            TypeErrorKind::UndefinedType(part) => TypeErrorKind::UndefinedType(*part),
            TypeErrorKind::UndefinedFunction(part) => TypeErrorKind::UndefinedFunction(part.dup()),
            TypeErrorKind::UndefinedFunctionWithSuggestion { name, suggested_modules } => TypeErrorKind::UndefinedFunctionWithSuggestion { name: name.dup(), suggested_modules: suggested_modules.dup() },
            TypeErrorKind::FieldNotFound { struct_name, field } => TypeErrorKind::FieldNotFound { struct_name: *struct_name, field: *field },
            TypeErrorKind::VariableAlreadyExists { var_name } => TypeErrorKind::VariableAlreadyExists { var_name: *var_name },
            TypeErrorKind::InvalidFunctionCall { expected_args, found_args } => TypeErrorKind::InvalidFunctionCall { expected_args: *expected_args, found_args: *found_args },
            TypeErrorKind::InvalidReturnType { expected } => TypeErrorKind::InvalidReturnType { expected: expected.dup() },
            TypeErrorKind::TypeCannotBeInferred => TypeErrorKind::TypeCannotBeInferred,
            TypeErrorKind::IllegalThisParam { func_name } => TypeErrorKind::IllegalThisParam { func_name: *func_name },
            TypeErrorKind::BreakOutsideLoop => TypeErrorKind::BreakOutsideLoop,
            TypeErrorKind::ContinueOutsideLoop => TypeErrorKind::ContinueOutsideLoop,
        }
    }
}

pub fn dup_index(index: &Option<UsedIndex>) -> (copy: Option<UsedIndex>)
    ensures
        copy == *index,
{
    match index {
        Some(used) => Some(used.dup()),
        None => None,
    }
}

} // verus!
