//! The typed tree that the checker works on.
//!
//! Children are shared pointers and persistent lists, so a copy of any node is shallow and two
//! nodes are equal exactly when they have the same shape.

use std::rc::Rc;

use vstd::prelude::*;

use crate::list::{share, Cons, Key, List, Nil, Table};

verus! {

/// Names whose spelling the checker itself knows.
#[derive(Clone, Copy, Debug, PartialEq, Eq, Structural)]
pub enum Word {
    This,
    Len,
    Cap,
    Underscore,
    Copy,
    Drop,
    RawAllocator,
    Slice,
    WriteUninit,
    WriteUninitAll,
    GetUnchecked,
    I8,
    I16,
    I32,
    I64,
    I128,
    U8,
    U16,
    U32,
    U64,
    U128,
    Usize,
    Isize,
    F32,
    F64,
    Bool,
    Str,
    Char,
}

/// An interned name. Equal names have equal spellings.
#[derive(Clone, Copy, Debug, PartialEq, Eq, Structural)]
pub enum StrId {
    /// A name with a spelling known to the checker.
    Known(Word),
    /// A name of the source text, by its number in the pool.
    Interned(u32),
    /// The environment struct of a closure, `__closure_env_{n}`.
    ClosureEnv(u32),
    /// The lifted function of a closure, `__closure_fn_{n}`.
    ClosureFn(u32),
    /// A field of a closure environment, `__cap_{n}`.
    Capture(usize),
}

impl Key for StrId {
    fn same(&self, other: &Self) -> (equal: bool) {
        *self == *other
    }
}

/// A range of source text: where it starts and where it ends, both counted from one.
#[derive(Clone, Copy, Debug, PartialEq, Eq, Structural)]
pub struct SourceSpan {
    pub line: usize,
    pub column: usize,
    pub end_line: usize,
    pub end_column: usize,
}

#[derive(Clone, Copy, Debug, PartialEq, Eq, Structural)]
pub enum RefKind {
    Shared,
    Alias,
    Unique,
}

#[derive(Clone, Copy, Debug, PartialEq, Eq, Structural)]
pub enum MutabilityState {
    Const,
    Mut,
}

#[derive(Clone, Copy, Debug, PartialEq, Eq, Structural)]
pub enum Operator {
    Add,
    Subtract,
    Multiply,
    Divide,
    Modulo,
    Equals,
    NotEquals,
    LessThan,
    LessThanOrEqual,
    GreaterThan,
    GreaterThanOrEqual,
    LogicalAnd,
    LogicalOr,
    BitAnd,
    BitOr,
    BitXor,
    ShiftLeft,
    ShiftRight,
    /// An operator that is not a binary operator, by its name.
    Other(StrId),
}

#[derive(Clone, Copy, Debug, PartialEq, Eq, Structural)]
pub enum AssignmentOperator {
    Assign,
    AddAssign,
    SubtractAssign,
    MultiplyAssign,
    DivideAssign,
    ModuloAssign,
    BitAndAssign,
    BitOrAssign,
    BitXorAssign,
    ShiftLeftAssign,
    ShiftRightAssign,
}

#[derive(Clone, Copy, Debug, PartialEq, Eq, Structural)]
pub enum IntrinsicKind {
    Replace,
    Reinterpret,
    Unreachable,
    SizeOf,
    AlignOf,
    TypeName,
    Own,
    AssertAlign,
    AtomicCasU32,
    AtomicLoadU32,
    AtomicStoreU32,
    CpuRelax,
}

#[derive(Clone, Copy, Debug, PartialEq, Eq, Structural)]
pub enum ProvenanceRoot {
    Var(StrId),
    ThisRoot,
    Global { module_idx: usize, name: StrId },
}

#[derive(Clone, Copy, Debug, PartialEq, Eq, Structural)]
pub enum ProvenancePathSegment {
    Field(StrId),
    Deref,
}

impl Key for ProvenancePathSegment {
    fn same(&self, other: &Self) -> (equal: bool) {
        *self == *other
    }
}

/// Where a reference points: a root and the projections that lead from it.
#[derive(Debug, PartialEq, Eq)]
pub struct ProvenanceAnnotation {
    pub root: ProvenanceRoot,
    pub path: List<ProvenancePathSegment>,
}

impl ProvenanceAnnotation {
    pub fn dup(&self) -> (copy: Self)
        ensures
            copy == *self,
    {
        ProvenanceAnnotation { root: self.root, path: self.path.dup() }
    }

    pub fn same(&self, other: &Self) -> (equal: bool)
        ensures
            equal == (*self == *other),
    {
        self.root == other.root && self.path.same(&other.path)
    }
}

pub fn dup_provenance(provenance: &Option<ProvenanceAnnotation>) -> (copy: Option<
    ProvenanceAnnotation,
>)
    ensures
        copy == *provenance,
{
    match provenance {
        Some(annotation) => Some(annotation.dup()),
        None => None,
    }
}

pub fn same_provenance(
    left: &Option<ProvenanceAnnotation>,
    right: &Option<ProvenanceAnnotation>,
) -> (equal: bool)
    ensures
        equal == (*left == *right),
{
    match (left, right) {
        (Some(a), Some(b)) => a.same(b),
        (None, None) => true,
        _ => false,
    }
}

#[derive(Debug, PartialEq, Eq)]
pub enum HirType {
    I8,
    I16,
    I32,
    I64,
    I128,
    U8,
    U16,
    U32,
    U64,
    U128,
    Usize,
    Isize,
    F32,
    F64,
    Boolean,
    String,
    Char,
    Void,
    Unknown,
    Null,
    This,
    Never,
    Struct { name: StrId, field_types: List<HirType>, type_args: List<HirType> },
    DynInterface(StrId, List<HirType>),
    Enum { name: StrId, type_args: List<HirType> },
    Generic(StrId),
    SafePointer { inner: Rc<HirType>, mutability_state: MutabilityState },
    UnsafePointer { inner: Rc<HirType>, mutability_state: MutabilityState },
    OwnedPointer { inner: Rc<HirType>, allocator: Option<ProvenanceAnnotation> },
    Lambda { params: List<HirType>, return_type: Rc<HirType> },
    Ref { inner: Rc<HirType>, ref_kind: RefKind, provenance: Option<ProvenanceAnnotation> },
    Nullable(Rc<HirType>),
    Dyn { bounds: List<HirType> },
    Tuple(List<HirType>),
    Array(Rc<HirType>, usize),
    Slice(Rc<HirType>),
    Range { elem: Rc<HirType>, inclusive: bool },
}

impl HirType {
    /// What a type is built from, where that is one type.
    pub open spec fn part(self) -> HirType {
        match self {
            HirType::SafePointer { inner, .. } => *inner,
            HirType::UnsafePointer { inner, .. } => *inner,
            HirType::OwnedPointer { inner, .. } => *inner,
            HirType::Ref { inner, .. } => *inner,
            HirType::Nullable(inner) => *inner,
            HirType::Array(inner, _) => *inner,
            HirType::Slice(inner) => *inner,
            HirType::Range { elem, .. } => *elem,
            HirType::Lambda { return_type, .. } => *return_type,
            _ => self,
        }
    }

    pub fn dup(&self) -> (copy: HirType)
        ensures
            copy == *self,
    {
        match self {
            HirType::I8 => HirType::I8,
            HirType::I16 => HirType::I16,
            HirType::I32 => HirType::I32,
            HirType::I64 => HirType::I64,
            HirType::I128 => HirType::I128,
            HirType::U8 => HirType::U8,
            HirType::U16 => HirType::U16,
            HirType::U32 => HirType::U32,
            HirType::U64 => HirType::U64,
            HirType::U128 => HirType::U128,
            HirType::Usize => HirType::Usize,
            HirType::Isize => HirType::Isize,
            HirType::F32 => HirType::F32,
            HirType::F64 => HirType::F64,
            HirType::Boolean => HirType::Boolean,
            HirType::String => HirType::String,
            HirType::Char => HirType::Char,
            HirType::Void => HirType::Void,
            HirType::Unknown => HirType::Unknown,
            HirType::Null => HirType::Null,
            HirType::This => HirType::This,
            HirType::Never => HirType::Never,
            HirType::Struct { name, field_types, type_args } => HirType::Struct {
                name: *name,
                field_types: field_types.dup(),
                type_args: type_args.dup(),
            },
            HirType::DynInterface(name, args) => HirType::DynInterface(*name, args.dup()),
            HirType::Enum { name, type_args } => HirType::Enum {
                name: *name,
                type_args: type_args.dup(),
            },
            HirType::Generic(name) => HirType::Generic(*name),
            HirType::SafePointer { inner, mutability_state } => HirType::SafePointer {
                inner: share(inner),
                mutability_state: *mutability_state,
            },
            HirType::UnsafePointer { inner, mutability_state } => HirType::UnsafePointer {
                inner: share(inner),
                mutability_state: *mutability_state,
            },
            HirType::OwnedPointer { inner, allocator } => HirType::OwnedPointer {
                inner: share(inner),
                allocator: dup_provenance(allocator),
            },
            HirType::Lambda { params, return_type } => HirType::Lambda {
                params: params.dup(),
                return_type: share(return_type),
            },
            HirType::Ref { inner, ref_kind, provenance } => HirType::Ref {
                inner: share(inner),
                ref_kind: *ref_kind,
                provenance: dup_provenance(provenance),
            },
            HirType::Nullable(inner) => HirType::Nullable(share(inner)),
            HirType::Dyn { bounds } => HirType::Dyn { bounds: bounds.dup() },
            HirType::Tuple(elems) => HirType::Tuple(elems.dup()),
            HirType::Array(inner, len) => HirType::Array(share(inner), *len),
            HirType::Slice(inner) => HirType::Slice(share(inner)),
            HirType::Range { elem, inclusive } => HirType::Range {
                elem: share(elem),
                inclusive: *inclusive,
            },
        }
    }

    /// Whether two types are identical, provenance included.
    pub fn same(&self, other: &HirType) -> (equal: bool)
        ensures
            equal == (*self == *other),
        decreases self,
    {
        match (self, other) {
            (HirType::I8, HirType::I8) => true,
            (HirType::I16, HirType::I16) => true,
            (HirType::I32, HirType::I32) => true,
            (HirType::I64, HirType::I64) => true,
            (HirType::I128, HirType::I128) => true,
            (HirType::U8, HirType::U8) => true,
            (HirType::U16, HirType::U16) => true,
            (HirType::U32, HirType::U32) => true,
            (HirType::U64, HirType::U64) => true,
            (HirType::U128, HirType::U128) => true,
            (HirType::Usize, HirType::Usize) => true,
            (HirType::Isize, HirType::Isize) => true,
            (HirType::F32, HirType::F32) => true,
            (HirType::F64, HirType::F64) => true,
            (HirType::Boolean, HirType::Boolean) => true,
            (HirType::String, HirType::String) => true,
            (HirType::Char, HirType::Char) => true,
            (HirType::Void, HirType::Void) => true,
            (HirType::Unknown, HirType::Unknown) => true,
            (HirType::Null, HirType::Null) => true,
            (HirType::This, HirType::This) => true,
            (HirType::Never, HirType::Never) => true,
            (
                HirType::Struct { name: na, field_types: fa, type_args: ta },
                HirType::Struct { name: nb, field_types: fb, type_args: tb },
            ) => *na == *nb && same_types(fa, fb) && same_types(ta, tb),
            (HirType::DynInterface(na, aa), HirType::DynInterface(nb, ab)) => *na == *nb
                && same_types(aa, ab),
            (
                HirType::Enum { name: na, type_args: ta },
                HirType::Enum { name: nb, type_args: tb },
            ) => *na == *nb && same_types(ta, tb),
            (HirType::Generic(na), HirType::Generic(nb)) => *na == *nb,
            (
                HirType::SafePointer { inner: ia, mutability_state: ma },
                HirType::SafePointer { inner: ib, mutability_state: mb },
            ) => *ma == *mb && ia.same(ib),
            (
                HirType::UnsafePointer { inner: ia, mutability_state: ma },
                HirType::UnsafePointer { inner: ib, mutability_state: mb },
            ) => *ma == *mb && ia.same(ib),
            (
                HirType::OwnedPointer { inner: ia, allocator: aa },
                HirType::OwnedPointer { inner: ib, allocator: ab },
            ) => same_provenance(aa, ab) && ia.same(ib),
            (
                HirType::Lambda { params: pa, return_type: ra },
                HirType::Lambda { params: pb, return_type: rb },
            ) => same_types(pa, pb) && ra.same(rb),
            (
                HirType::Ref { inner: ia, ref_kind: ka, provenance: pa },
                HirType::Ref { inner: ib, ref_kind: kb, provenance: pb },
            ) => *ka == *kb && same_provenance(pa, pb) && ia.same(ib),
            (HirType::Nullable(ia), HirType::Nullable(ib)) => ia.same(ib),
            (HirType::Dyn { bounds: ba }, HirType::Dyn { bounds: bb }) => same_types(ba, bb),
            (HirType::Tuple(ea), HirType::Tuple(eb)) => same_types(ea, eb),
            (HirType::Array(ia, la), HirType::Array(ib, lb)) => *la == *lb && ia.same(ib),
            (HirType::Slice(ia), HirType::Slice(ib)) => ia.same(ib),
            (
                HirType::Range { elem: ea, inclusive: ia },
                HirType::Range { elem: eb, inclusive: ib },
            ) => *ia == *ib && ea.same(eb),
            _ => false,
        }
    }
}

pub fn same_types(left: &List<HirType>, right: &List<HirType>) -> (equal: bool)
    ensures
        equal == (*left == *right),
    decreases left,
{
    match (left, right) {
        (Nil, Nil) => true,
        (Cons(a, rest_a), Cons(b, rest_b)) => a.same(b) && same_types(rest_a, rest_b),
        _ => false,
    }
}

pub fn dup_type(ty: &Option<HirType>) -> (copy: Option<HirType>)
    ensures
        copy == *ty,
{
    match ty {
        Some(known) => Some(known.dup()),
        None => None,
    }
}

/// The key of an indexed access in a declared effect.
#[derive(Debug, PartialEq, Eq)]
pub enum EffectIndexKey {
    Const(i64),
    Place { root: StrId, path: List<StrId> },
    Dynamic,
}

#[derive(Debug, PartialEq, Eq)]
pub enum HirEffectSegment {
    Field(StrId),
    Index(EffectIndexKey),
}

impl Key for HirEffectSegment {
    fn same(&self, other: &Self) -> (equal: bool) {
        match (self, other) {
            (HirEffectSegment::Field(a), HirEffectSegment::Field(b)) => *a == *b,
            (HirEffectSegment::Index(a), HirEffectSegment::Index(b)) => match (a, b) {
                (EffectIndexKey::Const(x), EffectIndexKey::Const(y)) => *x == *y,
                (
                    EffectIndexKey::Place { root: ra, path: pa },
                    EffectIndexKey::Place { root: rb, path: pb },
                ) => *ra == *rb && pa.same(pb),
                (EffectIndexKey::Dynamic, EffectIndexKey::Dynamic) => true,
                _ => false,
            },
            _ => false,
        }
    }
}

/// One access that a parameter's declared effects grant.
#[derive(Debug, PartialEq, Eq)]
pub struct HirEffectAccess {
    pub path: List<HirEffectSegment>,
    pub ref_kind: RefKind,
}

#[derive(Debug, PartialEq, Eq)]
pub enum HirPattern {
    Ident(StrId),
    EnumVariant { variant: StrId, bindings: List<StrId> },
    Tuple(List<HirPattern>),
    Array(List<HirPattern>),
    Struct { name: StrId, fields: List<(StrId, HirPattern)> },
    Or(List<HirPattern>),
    Wildcard,
    Number(i64),
    String(StrId),
    Boolean(bool),
    Null,
}

#[derive(Debug, PartialEq, Eq)]
pub enum InterpolationPart {
    Text(StrId),
    Expr(Rc<HirExpr>),
}

#[derive(Debug, PartialEq, Eq)]
pub struct HirFieldInit {
    pub name: StrId,
    pub name_span: SourceSpan,
    pub value: HirExpr,
}

#[derive(Debug, PartialEq, Eq)]
pub struct HirModuleAccess {
    pub path: List<StrId>,
    pub member: StrId,
    pub span: SourceSpan,
}

#[derive(Debug, PartialEq, Eq)]
pub struct HirLambdaParam {
    pub name: StrId,
    pub param_type: Option<HirType>,
}

#[derive(Debug, PartialEq, Eq)]
pub struct HirMatchArm {
    pub pattern: HirPattern,
    pub guard: Option<Rc<HirExpr>>,
    pub body: Rc<HirStmt>,
}

/// An expression and the key under which the checker files what it learns of it.
#[derive(Debug, PartialEq, Eq)]
pub struct HirExpr {
    pub key: usize,
    pub kind: ExprKind,
}

#[derive(Debug, PartialEq, Eq)]
pub enum ExprKind {
    Number(i64, SourceSpan),
    Null(SourceSpan),
    /// A decimal literal, as the bits of its value.
    Decimal(u64, SourceSpan),
    Boolean(bool, SourceSpan),
    String(StrId, SourceSpan),
    Char(char, SourceSpan),
    Ident(StrId, SourceSpan),
    Tuple(List<HirExpr>, SourceSpan),
    Binary { left: Rc<HirExpr>, op: Operator, right: Rc<HirExpr>, span: SourceSpan },
    Comparison { left: Rc<HirExpr>, op: Operator, right: Rc<HirExpr>, span: SourceSpan },
    Intrinsic {
        kind: IntrinsicKind,
        type_args: List<HirType>,
        args: List<HirExpr>,
        span: SourceSpan,
    },
    UnknownIntrinsic { span: SourceSpan, name: StrId },
    /// `if_stmt` is a conditional statement.
    If { if_stmt: Rc<HirStmt>, span: SourceSpan },
    Match { expr: Rc<HirExpr>, arms: List<HirMatchArm>, span: SourceSpan },
    Block { body: List<HirStmt>, is_unsafe: bool, span: SourceSpan },
    Range { start: Rc<HirExpr>, end: Rc<HirExpr>, inclusive: bool, span: SourceSpan },
    Slice {
        object: Rc<HirExpr>,
        start: Rc<HirExpr>,
        end: Rc<HirExpr>,
        inclusive: bool,
        span: SourceSpan,
    },
    Call {
        callee: Rc<HirExpr>,
        args: List<HirExpr>,
        span: SourceSpan,
        type_args: Option<List<HirType>>,
    },
    FieldAccess { object: Rc<HirExpr>, field: StrId, span: SourceSpan },
    Get { object: Rc<HirExpr>, field: StrId, span: SourceSpan },
    StructInit {
        name: Rc<HirExpr>,
        args: List<HirFieldInit>,
        span: SourceSpan,
        type_args: Option<List<HirType>>,
    },
    InterfaceCall {
        callee: Rc<HirExpr>,
        interface: StrId,
        args: List<HirExpr>,
        span: SourceSpan,
    },
    Assignment {
        target: Rc<HirExpr>,
        op: AssignmentOperator,
        value: Rc<HirExpr>,
        span: SourceSpan,
    },
    InterpolatedString(List<InterpolationPart>),
    EnumInit {
        enum_name: StrId,
        variant: StrId,
        args: List<HirExpr>,
        type_args: Option<List<HirType>>,
        span: SourceSpan,
    },
    ExprList { list: List<HirExpr>, span: SourceSpan },
    Deref { expr: Rc<HirExpr>, span: SourceSpan },
    Ref { expr: Rc<HirExpr>, ref_kind: RefKind, span: SourceSpan },
    This { span: SourceSpan },
    ModuleAccess(HirModuleAccess),
    Lambda {
        params: List<HirLambdaParam>,
        return_type: HirType,
        body: Rc<HirStmt>,
        span: SourceSpan,
    },
    Index { object: Rc<HirExpr>, index: Rc<HirExpr>, span: SourceSpan },
    ArrayLiteral { elements: List<HirExpr>, span: SourceSpan },
    Cast { expr: Rc<HirExpr>, target_type: HirType, span: SourceSpan },
    Undefined { span: SourceSpan, ty: HirType },
    Uninit { span: SourceSpan, ty: HirType },
}

impl HirExpr {
    /// What an access or a dereference starts from.
    pub open spec fn object(self) -> HirExpr {
        match self.kind {
            ExprKind::FieldAccess { object, .. } => *object,
            ExprKind::Get { object, .. } => *object,
            ExprKind::Index { object, .. } => *object,
            ExprKind::Deref { expr, .. } => *expr,
            _ => self,
        }
    }

    /// The left side of an operator.
    pub open spec fn left(self) -> HirExpr {
        match self.kind {
            ExprKind::Binary { left, .. } => *left,
            ExprKind::Comparison { left, .. } => *left,
            _ => self,
        }
    }

    /// The right side of an operator, or an index.
    pub open spec fn right(self) -> HirExpr {
        match self.kind {
            ExprKind::Binary { right, .. } => *right,
            ExprKind::Comparison { right, .. } => *right,
            ExprKind::Index { index, .. } => *index,
            _ => self,
        }
    }
}

#[derive(Debug, PartialEq, Eq)]
pub struct HirErrorBranch {
    pub body: List<HirStmt>,
}

#[derive(Debug, PartialEq, Eq)]
pub enum HirErrorHandlerPattern {
    Single { body: List<HirStmt> },
    Multiple { branches: List<HirErrorBranch> },
}

#[derive(Debug, PartialEq, Eq)]
pub struct ConstStmt {
    pub name: StrId,
    pub ty: HirType,
    pub value: HirExpr,
}

/// A statement and the key that names it in the control-flow graph.
#[derive(Debug, PartialEq, Eq)]
pub struct HirStmt {
    pub key: usize,
    pub kind: StmtKind,
}

#[derive(Debug, PartialEq, Eq)]
pub enum StmtKind {
    Let {
        name: StrId,
        ty: HirType,
        value: HirExpr,
        mutable: bool,
        else_block: Option<Rc<HirStmt>>,
        span: SourceSpan,
        is_static: bool,
        catch_pattern: Option<HirErrorHandlerPattern>,
    },
    Return(Option<Rc<HirExpr>>, SourceSpan),
    Break(Option<Rc<HirExpr>>, SourceSpan),
    Continue(SourceSpan),
    Expr(Rc<HirExpr>),
    If {
        cond: HirExpr,
        then_block: List<HirStmt>,
        else_block: Option<Rc<HirStmt>>,
        span: SourceSpan,
    },
    While { cond: Rc<HirExpr>, body: Rc<HirStmt> },
    For {
        init: Option<Rc<HirStmt>>,
        condition: Option<Rc<HirExpr>>,
        increment: Option<Rc<HirExpr>>,
        body: Rc<HirStmt>,
    },
    Block { body: List<HirStmt>, span: SourceSpan },
    Const(ConstStmt),
    Match { expr: Rc<HirExpr>, arms: List<HirMatchArm>, span: SourceSpan },
    UnsafeBlock { body: Rc<HirStmt> },
    Defer(Rc<HirStmt>),
    Import(List<StrId>, SourceSpan),
    Package(List<StrId>, SourceSpan),
}

#[derive(Clone, Copy, Debug, PartialEq, Eq, Structural)]
pub enum ThisPassingKind {
    RefConst,
    ConstSafePtr,
    ConstUnsafePtr,
    RefMut,
    MutSafePtr,
    MutUnsafePtr,
    MultiPlace,
    Move,
    MoveMut,
    RefAlias,
}

#[derive(Debug, PartialEq, Eq)]
pub enum HirParam {
    Normal {
        name: StrId,
        param_type: HirType,
        multi_place: Option<List<HirEffectAccess>>,
        span: SourceSpan,
    },
    This { kind: ThisPassingKind, span: SourceSpan, multi_place: Option<List<HirEffectAccess>> },
}

impl HirParam {
    /// The declared type of a named parameter.
    pub open spec fn declared_type(self) -> Option<HirType> {
        match self {
            HirParam::Normal { param_type, .. } => Some(param_type),
            HirParam::This { .. } => None,
        }
    }

    pub fn get_type(&self) -> (ty: Option<&HirType>)
        ensures
            ty == match self.declared_type() {
                Some(declared) => Some(&declared),
                None => None,
            },
    {
        match self {
            HirParam::Normal { param_type, .. } => Some(param_type),
            HirParam::This { .. } => None,
        }
    }
}

#[derive(Debug, PartialEq, Eq)]
pub struct HirGeneric {
    pub name: StrId,
    pub constraints: List<HirType>,
    pub default_type: Option<HirType>,
}

#[derive(Clone, Copy, Debug, PartialEq, Eq, Structural)]
pub enum FuncSafety {
    Safe,
    Unsafe,
}

#[derive(Clone, Copy, Debug, PartialEq, Eq, Structural)]
pub enum Visibility {
    /// Everywhere.
    Public,
    /// In the declaring module.
    Module,
    /// In the same file.
    Private,
    /// In the same package.
    Internal,
}

/// The control-flow graph of a function body: for each point the points that may follow it, and
/// for each statement the point where it starts and the one behind it.
#[derive(Debug, PartialEq, Eq)]
pub struct FlowGraph {
    pub entry: Option<usize>,
    pub successors: Table<usize, List<usize>>,
    pub stmt_points: Table<usize, usize>,
    pub stmt_after_points: Table<usize, usize>,
}

#[derive(Debug, PartialEq, Eq)]
pub struct HirFunc {
    pub name: StrId,
    pub unmangled_name: StrId,
    pub params: Option<List<HirParam>>,
    pub return_type: Option<HirType>,
    pub body: Option<Rc<HirStmt>>,
    pub generics: Option<List<HirGeneric>>,
    pub impl_target: Option<StrId>,
    pub declaring_module_idx: usize,
    pub func_safety: FuncSafety,
    pub visibility: Visibility,
    pub span: SourceSpan,
    pub flow: FlowGraph,
}

#[derive(Debug, PartialEq, Eq)]
pub struct HirField {
    pub name: StrId,
    pub field_type: HirType,
}

#[derive(Debug, PartialEq, Eq)]
pub struct HirStruct {
    pub name: StrId,
    pub fields: List<HirField>,
    pub generics: Option<List<HirGeneric>>,
}

#[derive(Debug, PartialEq, Eq)]
pub struct HirEnumVariant {
    pub name: StrId,
    pub fields: List<HirField>,
}

#[derive(Debug, PartialEq, Eq)]
pub struct HirEnum {
    pub name: StrId,
    pub variants: List<HirEnumVariant>,
    pub generics: Option<List<HirGeneric>>,
}

#[derive(Debug, PartialEq, Eq)]
pub struct HirInterface {
    pub name: StrId,
    pub methods: Option<List<HirFunc>>,
}

#[derive(Debug, PartialEq, Eq)]
pub struct HirImpl {
    pub target: StrId,
    pub interface: Option<StrId>,
    pub methods: Option<List<HirFunc>>,
}

#[derive(Debug, PartialEq, Eq)]
pub enum Hir {
    Struct(Rc<HirStruct>),
    Impl(Rc<HirImpl>),
    Interface(Rc<HirInterface>),
    Enum(Rc<HirEnum>),
    Func(Rc<HirFunc>),
    Other,
}

#[derive(Debug, PartialEq, Eq)]
pub struct ImportPath {
    pub path: List<StrId>,
    pub member: Option<StrId>,
}

#[derive(Debug, PartialEq, Eq)]
pub struct HirModule {
    pub items: List<Hir>,
    pub imports: List<ImportPath>,
}

/// The field with a name.
pub open spec fn field_named(fields: List<HirField>, name: StrId) -> Option<HirField>
    decreases fields,
{
    match fields {
        Nil => None,
        Cons(field, rest) => if field.name == name {
            Some(*field)
        } else {
            field_named(*rest, name)
        },
    }
}

pub fn find_field<'f>(fields: &'f List<HirField>, name: StrId) -> (field: Option<&'f HirField>)
    ensures
        field == match field_named(*fields, name) {
            Some(found) => Some(&found),
            None => None,
        },
    decreases fields,
{
    match fields {
        Nil => None,
        Cons(field, rest) => if field.name == name {
            Some(field)
        } else {
            find_field(rest, name)
        },
    }
}

/// The place of a field in its struct.
pub open spec fn field_index(fields: List<HirField>, name: StrId) -> Option<usize>
    decreases fields,
{
    match fields {
        Nil => None,
        Cons(field, rest) => if field.name == name {
            Some(0)
        } else {
            match field_index(*rest, name) {
                Some(index) => if index < usize::MAX {
                    Some((index + 1) as usize)
                } else {
                    None
                },
                None => None,
            }
        },
    }
}

pub fn position_of_field(fields: &List<HirField>, name: StrId) -> (index: Option<usize>)
    ensures
        index == field_index(*fields, name),
    decreases fields,
{
    match fields {
        Nil => None,
        Cons(field, rest) => if field.name == name {
            Some(0)
        } else {
            match position_of_field(rest, name) {
                Some(index) => if index < usize::MAX {
                    Some(index + 1)
                } else {
                    None
                },
                None => None,
            }
        },
    }
}

/// The types of a list of fields.
pub open spec fn types_of_fields(fields: List<HirField>) -> List<HirType>
    decreases fields,
{
    match fields {
        Nil => Nil,
        Cons(field, rest) => List::cons_of(field.field_type, types_of_fields(*rest)),
    }
}

pub fn field_types(fields: &List<HirField>) -> (types: List<HirType>)
    ensures
        types == types_of_fields(*fields),
    decreases fields,
{
    match fields {
        Nil => Nil,
        Cons(field, rest) => List::cons(field.field_type.dup(), field_types(rest)),
    }
}

/// The variant with a name.
pub open spec fn variant_named(variants: List<HirEnumVariant>, name: StrId) -> Option<
    HirEnumVariant,
>
    decreases variants,
{
    match variants {
        Nil => None,
        Cons(variant, rest) => if variant.name == name {
            Some(*variant)
        } else {
            variant_named(*rest, name)
        },
    }
}

pub fn find_variant<'v>(variants: &'v List<HirEnumVariant>, name: StrId) -> (variant: Option<
    &'v HirEnumVariant,
>)
    ensures
        variant == match variant_named(*variants, name) {
            Some(found) => Some(&found),
            None => None,
        },
    decreases variants,
{
    match variants {
        Nil => None,
        Cons(variant, rest) => if variant.name == name {
            Some(variant)
        } else {
            find_variant(rest, name)
        },
    }
}

} // verus!
