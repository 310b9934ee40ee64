//! Closures: what a lambda captures from around it, and how.

use std::rc::Rc;

use vstd::prelude::*;

use crate::borrow::BorrowKind;
use crate::hir::{
    EffectIndexKey, ExprKind, HirEffectSegment, HirErrorBranch, HirErrorHandlerPattern, HirExpr,
    HirFieldInit, HirFunc, HirGeneric, HirLambdaParam, HirMatchArm, HirParam, HirPattern, HirStmt,
    HirType, InterpolationPart, RefKind, SourceSpan, StmtKind, StrId, Word,
};
use crate::instantiations::{substituted, unified, Substitutions};
use crate::list::{has_key, share, Cons, Key, List, Nil};
use crate::program::ModuleGraph;
use crate::ref_effects::field_path;
use crate::ref_provenance::provenance_of;
use crate::type_checker::{after_usize, next_usize, this_name, ClosureState, TypeChecker};
use crate::type_context::TypeContext;
use crate::types::peeked;

verus! {

/// How strongly a captured variable is used, weakest first.
#[derive(Clone, Copy, Debug, PartialEq, Eq, PartialOrd, Ord, Structural)]
pub enum UseLevel {
    Read,
    Alias,
    Mut,
    Move,
}

#[derive(Clone, Copy, Debug, PartialEq, Eq, Structural)]
pub struct Usage {
    pub level: UseLevel,
    pub mutated: bool,
}

/// A path from around a lambda that its body uses, and how it uses it.
#[derive(Debug, PartialEq, Eq)]
pub struct CaptureEntry {
    pub root: StrId,
    pub path: List<HirEffectSegment>,
    pub usage: Usage,
}

#[derive(Debug, PartialEq, Eq)]
pub struct ClosureFrame {
    pub entries: List<CaptureEntry>,
}

#[derive(Clone, Copy, Debug, PartialEq, Eq, Structural)]
pub enum CaptureMode {
    ByRef(RefKind),
    ByValue,
}

#[derive(Clone, Copy, Debug, PartialEq, Eq, Structural)]
pub enum ClosureKind {
    FnOnce,
    FnMut,
    Fn,
}

#[derive(Debug, PartialEq, Eq)]
pub struct HirClosureCapture {
    pub name: StrId,
    pub mode: CaptureMode,
    pub source: StrId,
    pub source_path: List<HirEffectSegment>,
}

/// What a closure becomes: an environment struct and a function on it.
#[derive(Debug, PartialEq, Eq)]
pub struct ClosureLowering {
    pub env_name: StrId,
    pub fn_name: StrId,
    pub env_ty: HirType,
    pub captures: List<HirClosureCapture>,
    pub param_tys: List<HirType>,
    pub ret_ty: HirType,
    pub kind: ClosureKind,
}

/// A root and the segments that lead from it.
pub type FreePath = (StrId, List<HirEffectSegment>);

pub open spec fn strength(level: UseLevel) -> int {
    match level {
        UseLevel::Read => 0,
        UseLevel::Alias => 1,
        UseLevel::Mut => 2,
        UseLevel::Move => 3,
    }
}

pub open spec fn stronger(a: UseLevel, b: UseLevel) -> UseLevel {
    if strength(b) > strength(a) {
        b
    } else {
        a
    }
}

pub open spec fn level_of(kind: BorrowKind) -> UseLevel {
    match kind {
        BorrowKind::Mutable => UseLevel::Mut,
        BorrowKind::Alias => UseLevel::Alias,
        BorrowKind::Shared => UseLevel::Read,
    }
}

pub open spec fn level_of_ref(kind: RefKind) -> UseLevel {
    match kind {
        RefKind::Unique => UseLevel::Mut,
        RefKind::Alias => UseLevel::Alias,
        RefKind::Shared => UseLevel::Read,
    }
}

/// The key of an index expression in an effect path.
pub open spec fn index_key(index: HirExpr) -> EffectIndexKey {
    match index.kind {
        ExprKind::Number(value, _) => EffectIndexKey::Const(value),
        _ => match field_path(index) {
            Some((root, path)) => EffectIndexKey::Place { root, path },
            None => EffectIndexKey::Dynamic,
        },
    }
}

/// The root of a chain of field accesses and indexings, and its segments.
pub open spec fn effect_path(expr: HirExpr) -> Option<FreePath>
    decreases expr,
{
    match expr.kind {
        ExprKind::Ident(name, _) => Some((name, Nil)),
        ExprKind::This { .. } => Some((this_name(), Nil)),
        ExprKind::FieldAccess { object, field, .. } | ExprKind::Get { object, field, .. } => {
            match effect_path(*object) {
                Some((root, path)) => Some((root, path.snoc(HirEffectSegment::Field(field)))),
                None => None,
            }
        },
        ExprKind::Index { object, index, .. } => match effect_path(*object) {
            Some((root, path)) => Some(
                (root, path.snoc(HirEffectSegment::Index(index_key(*index)))),
            ),
            None => None,
        },
        _ => None,
    }
}

pub open spec fn raw_pointer(ty: HirType) -> bool {
    ty is SafePointer || ty is UnsafePointer
}

/// The path that is changed by writing to a place, unless it lies behind a raw pointer.
pub open spec fn mutated_path(context: TypeContext, expr: HirExpr) -> Option<FreePath>
    decreases expr,
{
    match expr.kind {
        ExprKind::Slice { object, .. } => if raw_pointer(peeked(context, *object)) {
            None
        } else {
            mutated_path(context, *object)
        },
        ExprKind::Deref { expr: inner, .. } => if raw_pointer(peeked(context, *inner)) {
            None
        } else {
            mutated_path(context, *inner)
        },
        _ => effect_path(expr),
    }
}

/// Whether one path leads through another.
pub open spec fn leads_through(
    prefix: List<HirEffectSegment>,
    path: List<HirEffectSegment>,
) -> bool
    decreases prefix,
{
    match prefix {
        Nil => true,
        Cons(first, more) => match path {
            Cons(head, rest) => *first == *head && leads_through(*more, *rest),
            Nil => false,
        },
    }
}

pub open spec fn used_at(usage: Usage, level: UseLevel) -> Usage {
    Usage {
        level: stronger(usage.level, level),
        mutated: usage.mutated || level == UseLevel::Mut,
    }
}

/// The entries with the first of them that a path leads through used.
pub open spec fn through_used(
    entries: List<CaptureEntry>,
    root: StrId,
    path: List<HirEffectSegment>,
    level: UseLevel,
) -> List<CaptureEntry>
    decreases entries,
{
    match entries {
        Nil => Nil,
        Cons(entry, rest) => if entry.root == root && leads_through(entry.path, path) {
            Cons(Rc::new(CaptureEntry { usage: used_at(entry.usage, level), ..*entry }), rest)
        } else {
            Cons(entry, Rc::new(through_used(*rest, root, path, level)))
        },
    }
}

/// The entries with the first of them that is all of a root used.
pub open spec fn root_used(
    entries: List<CaptureEntry>,
    root: StrId,
    level: UseLevel,
) -> List<CaptureEntry>
    decreases entries,
{
    match entries {
        Nil => Nil,
        Cons(entry, rest) => if entry.root == root && entry.path is Nil {
            Cons(Rc::new(CaptureEntry { usage: used_at(entry.usage, level), ..*entry }), rest)
        } else {
            Cons(entry, Rc::new(root_used(*rest, root, level)))
        },
    }
}

pub open spec fn frames_used(
    frames: List<ClosureFrame>,
    root: StrId,
    path: List<HirEffectSegment>,
    level: UseLevel,
) -> List<ClosureFrame>
    decreases frames,
{
    match frames {
        Nil => Nil,
        Cons(frame, rest) => List::cons_of(
            ClosureFrame {
                entries: root_used(through_used(frame.entries, root, path, level), root, level),
            },
            frames_used(*rest, root, path, level),
        ),
    }
}

/// The names bound so far, and the paths found that start from others.
#[derive(Debug, PartialEq, Eq)]
pub struct FreePaths {
    pub bound: List<StrId>,
    pub found: List<FreePath>,
}

/// Names bound by a pattern, put in front of others.
pub open spec fn pattern_names(pattern: HirPattern, bound: List<StrId>) -> List<StrId>
    decreases pattern,
{
    match pattern {
        HirPattern::Ident(name) => List::cons_of(name, bound),
        HirPattern::EnumVariant { bindings, .. } => bindings.reversed_onto(bound),
        HirPattern::Tuple(patterns) => patterns_names(patterns, bound),
        HirPattern::Array(patterns) => patterns_names(patterns, bound),
        HirPattern::Or(patterns) => patterns_names(patterns, bound),
        HirPattern::Struct { fields, .. } => fields_names(fields, bound),
        _ => bound,
    }
}

pub open spec fn patterns_names(patterns: List<HirPattern>, bound: List<StrId>) -> List<StrId>
    decreases patterns,
{
    match patterns {
        Nil => bound,
        Cons(pattern, rest) => patterns_names(*rest, pattern_names(*pattern, bound)),
    }
}

pub open spec fn fields_names(
    fields: List<(StrId, HirPattern)>,
    bound: List<StrId>,
) -> List<StrId>
    decreases fields,
{
    match fields {
        Nil => bound,
        Cons(field, rest) => fields_names(*rest, pattern_names(field.1, bound)),
    }
}

pub open spec fn params_bound(params: List<HirLambdaParam>, bound: List<StrId>) -> List<StrId>
    decreases params,
{
    match params {
        Nil => bound,
        Cons(param, rest) => params_bound(*rest, List::cons_of(param.name, bound)),
    }
}

impl FreePaths {
    pub open spec fn with_path(self, root: StrId, path: List<HirEffectSegment>) -> FreePaths {
        if self.bound.has(root) || self.found.has((root, path)) {
            self
        } else {
            FreePaths { found: self.found.snoc((root, path)), ..self }
        }
    }

    pub open spec fn binding(self, name: StrId) -> FreePaths {
        FreePaths { bound: List::cons_of(name, self.bound), ..self }
    }

    /// The paths found, with the names bound before.
    pub open spec fn scoped(self, before: FreePaths) -> FreePaths {
        FreePaths { bound: before.bound, ..self }
    }

    /// After the part of an expression that is a path, or else its object.
    pub open spec fn after_access(self, expr: HirExpr, object: HirExpr) -> FreePaths
        recommends
            expr.kind is FieldAccess || expr.kind is Get || expr.kind is Index,
        decreases object, 1int,
    {
        match effect_path(expr) {
            Some((root, path)) => self.with_path(root, path),
            None => self.after_expr(object),
        }
    }

    pub open spec fn after_expr(self, expr: HirExpr) -> FreePaths
        decreases expr, 0int,
    {
        match expr.kind {
            ExprKind::Ident(name, _) => self.with_path(name, Nil),
            ExprKind::This { .. } => self.with_path(this_name(), Nil),
            ExprKind::FieldAccess { object, .. } => self.after_access(expr, *object),
            ExprKind::Get { object, .. } => self.after_access(expr, *object),
            ExprKind::Index { object, index, .. } => self.after_access(expr, *object).after_expr(
                *index,
            ),
            ExprKind::Assignment { target, value, .. } => self.after_expr(*target).after_expr(
                *value,
            ),
            ExprKind::Ref { expr: inner, .. } => self.after_expr(*inner),
            ExprKind::Deref { expr: inner, .. } => self.after_expr(*inner),
            ExprKind::Cast { expr: inner, .. } => self.after_expr(*inner),
            ExprKind::Slice { object, start, end, .. } => self.after_expr(*object).after_expr(
                *start,
            ).after_expr(*end),
            ExprKind::Range { start, end, .. } => self.after_expr(*start).after_expr(*end),
            ExprKind::Tuple(exprs, _) => self.after_exprs(exprs),
            ExprKind::ArrayLiteral { elements, .. } => self.after_exprs(elements),
            ExprKind::ExprList { list, .. } => self.after_exprs(list),
            ExprKind::Binary { left, right, .. } => self.after_expr(*left).after_expr(*right),
            ExprKind::Comparison { left, right, .. } => self.after_expr(*left).after_expr(*right),
            ExprKind::Call { callee, args, .. } => self.after_expr(*callee).after_exprs(args),
            ExprKind::InterfaceCall { callee, args, .. } => self.after_expr(*callee).after_exprs(
                args,
            ),
            ExprKind::StructInit { args, .. } => self.after_inits(args),
            ExprKind::EnumInit { args, .. } => self.after_exprs(args),
            ExprKind::Intrinsic { args, .. } => self.after_exprs(args),
            ExprKind::InterpolatedString(parts) => self.after_parts(parts),
            ExprKind::If { if_stmt, .. } => self.after_stmt(*if_stmt),
            ExprKind::Match { expr: scrutinee, arms, .. } => self.after_expr(
                *scrutinee,
            ).after_arms(arms),
            ExprKind::Block { body, .. } => self.after_stmts(body).scoped(self),
            ExprKind::Lambda { params, body, .. } => FreePaths {
                bound: params_bound(params, self.bound),
                ..self
            }.after_stmt(*body).scoped(self),
            _ => self,
        }
    }

    pub open spec fn after_exprs(self, exprs: List<HirExpr>) -> FreePaths
        decreases exprs, 0int,
    {
        match exprs {
            Nil => self,
            Cons(expr, rest) => self.after_expr(*expr).after_exprs(*rest),
        }
    }

    pub open spec fn after_inits(self, inits: List<HirFieldInit>) -> FreePaths
        decreases inits, 0int,
    {
        match inits {
            Nil => self,
            Cons(init, rest) => self.after_expr(init.value).after_inits(*rest),
        }
    }

    pub open spec fn after_parts(self, parts: List<InterpolationPart>) -> FreePaths
        decreases parts, 0int,
    {
        match parts {
            Nil => self,
            Cons(part, rest) => match *part {
                InterpolationPart::Expr(expr) => self.after_expr(*expr).after_parts(*rest),
                InterpolationPart::Text(_) => self.after_parts(*rest),
            },
        }
    }

    pub open spec fn after_arms(self, arms: List<HirMatchArm>) -> FreePaths
        decreases arms, 0int,
    {
        match arms {
            Nil => self,
            Cons(arm, rest) => {
                let matched = FreePaths { bound: pattern_names(arm.pattern, self.bound), ..self };
                let guarded = match arm.guard {
                    Some(guard) => matched.after_expr(*guard),
                    None => matched,
                };
                guarded.after_stmt(*arm.body).scoped(self).after_arms(*rest)
            },
        }
    }

    pub open spec fn after_stmts(self, stmts: List<HirStmt>) -> FreePaths
        decreases stmts, 0int,
    {
        match stmts {
            Nil => self,
            Cons(stmt, rest) => self.after_stmt(*stmt).after_stmts(*rest),
        }
    }

    pub open spec fn after_branches(self, branches: List<HirErrorBranch>) -> FreePaths
        decreases branches, 0int,
    {
        match branches {
            Nil => self,
            Cons(branch, rest) => self.after_stmts(branch.body).after_branches(*rest),
        }
    }

    pub open spec fn after_stmt(self, stmt: HirStmt) -> FreePaths
        decreases stmt, 0int,
    {
        match stmt.kind {
            StmtKind::Let { name, value, else_block, catch_pattern, .. } => {
                let valued = self.after_expr(value);
                let otherwise = match else_block {
                    Some(block) => valued.after_stmt(*block),
                    None => valued,
                };
                let caught = match catch_pattern {
                    Some(HirErrorHandlerPattern::Single { body }) => otherwise.after_stmts(body),
                    Some(HirErrorHandlerPattern::Multiple { branches }) => {
                        otherwise.after_branches(branches)
                    },
                    None => otherwise,
                };
                caught.binding(name)
            },
            StmtKind::Const(constant) => self.after_expr(constant.value).binding(constant.name),
            StmtKind::Return(value, _) | StmtKind::Break(value, _) => match value {
                Some(expr) => self.after_expr(*expr),
                None => self,
            },
            StmtKind::Expr(expr) => self.after_expr(*expr),
            StmtKind::If { cond, then_block, else_block, .. } => {
                let tested = self.after_expr(cond);
                let taken = tested.after_stmts(then_block).scoped(tested);
                match else_block {
                    Some(other) => taken.after_stmt(*other),
                    None => taken,
                }
            },
            StmtKind::While { cond, body } => self.after_expr(*cond).after_stmt(*body),
            StmtKind::For { init, condition, increment, body } => {
                let started = match init {
                    Some(stmt) => self.after_stmt(*stmt),
                    None => self,
                };
                let tested = match condition {
                    Some(expr) => started.after_expr(*expr),
                    None => started,
                };
                let stepped = match increment {
                    Some(expr) => tested.after_expr(*expr),
                    None => tested,
                };
                stepped.after_stmt(*body).scoped(self)
            },
            StmtKind::Block { body, .. } => self.after_stmts(body).scoped(self),
            StmtKind::Match { expr, arms, .. } => self.after_expr(*expr).after_arms(arms),
            StmtKind::UnsafeBlock { body } => self.after_stmt(*body),
            StmtKind::Defer(body) => self.after_stmt(*body),
            _ => self,
        }
    }
}

/// A path put behind those that are not longer, in a list in which longer paths come later.
pub open spec fn placed_by_length(paths: List<FreePath>, path: FreePath) -> List<FreePath>
    decreases paths,
{
    match paths {
        Nil => List::one_of(path),
        Cons(head, rest) => if head.1.count() <= path.1.count() {
            Cons(head, Rc::new(placed_by_length(*rest, path)))
        } else {
            List::cons_of(path, paths)
        },
    }
}

/// The paths by length, those of one length in the order in which they came.
pub open spec fn by_length(paths: List<FreePath>, sorted: List<FreePath>) -> List<FreePath>
    decreases paths,
{
    match paths {
        Nil => sorted,
        Cons(path, rest) => by_length(*rest, placed_by_length(sorted, *path)),
    }
}

pub open spec fn passes_one_of(kept: List<FreePath>, path: FreePath) -> bool
    decreases kept,
{
    match kept {
        Nil => false,
        Cons(head, rest) => (head.0 == path.0 && leads_through(head.1, path.1)) || passes_one_of(
            *rest,
            path,
        ),
    }
}

/// The paths that do not lead through one kept before.
pub open spec fn without_extensions(paths: List<FreePath>, kept: List<FreePath>) -> List<FreePath>
    decreases paths,
{
    match paths {
        Nil => kept,
        Cons(path, rest) => without_extensions(
            *rest,
            if passes_one_of(kept, *path) {
                kept
            } else {
                kept.snoc(*path)
            },
        ),
    }
}

pub open spec fn coalesced(paths: List<FreePath>) -> List<FreePath> {
    without_extensions(by_length(paths, Nil), Nil)
}

/// The paths whose roots are bound around the lambda.
pub open spec fn enclosing_paths(context: TypeContext, paths: List<FreePath>) -> List<FreePath>
    decreases paths,
{
    match paths {
        Nil => Nil,
        Cons(path, rest) => if has_key(context.variables, path.0) {
            Cons(path, Rc::new(enclosing_paths(context, *rest)))
        } else {
            enclosing_paths(context, *rest)
        },
    }
}

/// The paths that a lambda takes from around it: shorter ones stand for those below them.
pub open spec fn captured_paths(
    context: TypeContext,
    params: List<HirLambdaParam>,
    body: HirStmt,
) -> List<FreePath> {
    coalesced(
        enclosing_paths(
            context,
            FreePaths { bound: params_bound(params, Nil), found: Nil }.after_stmt(body).found,
        ),
    )
}

pub open spec fn unused_entries(paths: List<FreePath>) -> List<CaptureEntry>
    decreases paths,
{
    match paths {
        Nil => Nil,
        Cons(path, rest) => List::cons_of(
            CaptureEntry {
                root: path.0,
                path: path.1,
                usage: Usage { level: UseLevel::Read, mutated: false },
            },
            unused_entries(*rest),
        ),
    }
}

pub open spec fn root_expr(root: StrId, span: SourceSpan) -> HirExpr {
    HirExpr {
        key: 0,
        kind: if root == this_name() {
            ExprKind::This { span }
        } else {
            ExprKind::Ident(root, span)
        },
    }
}

/// The expression that a path is.
pub open spec fn path_expr(
    base: HirExpr,
    path: List<HirEffectSegment>,
    span: SourceSpan,
) -> HirExpr
    decreases path,
{
    match path {
        Nil => base,
        Cons(segment, rest) => path_expr(
            HirExpr {
                key: 0,
                kind: match *segment {
                    HirEffectSegment::Field(field) => ExprKind::FieldAccess {
                        object: Rc::new(base),
                        field,
                        span,
                    },
                    HirEffectSegment::Index(_) => ExprKind::Index {
                        object: Rc::new(base),
                        index: Rc::new(HirExpr { key: 0, kind: ExprKind::Number(0, span) }),
                        span,
                    },
                },
            },
            *rest,
            span,
        ),
    }
}

pub open spec fn mode_of(level: UseLevel) -> CaptureMode {
    match level {
        UseLevel::Read => CaptureMode::ByRef(RefKind::Shared),
        UseLevel::Alias => CaptureMode::ByRef(RefKind::Alias),
        UseLevel::Mut => CaptureMode::ByRef(RefKind::Unique),
        UseLevel::Move => CaptureMode::ByValue,
    }
}

pub open spec fn level_of_mode(mode: CaptureMode) -> UseLevel {
    match mode {
        CaptureMode::ByValue => UseLevel::Move,
        CaptureMode::ByRef(kind) => level_of_ref(kind),
    }
}

/// The type of the field that holds a captured path.
pub open spec fn capture_type(
    context: TypeContext,
    graph: ModuleGraph,
    entry: CaptureEntry,
    span: SourceSpan,
) -> HirType {
    let place = path_expr(root_expr(entry.root, span), entry.path, span);
    match mode_of(entry.usage.level) {
        CaptureMode::ByValue => peeked(context, place),
        CaptureMode::ByRef(ref_kind) => HirType::Ref {
            inner: Rc::new(peeked(context, place)),
            ref_kind,
            provenance: provenance_of(graph, place),
        },
    }
}

pub open spec fn captures_of(entries: List<CaptureEntry>, index: usize) -> List<HirClosureCapture>
    decreases entries,
{
    match entries {
        Nil => Nil,
        Cons(entry, rest) => List::cons_of(
            HirClosureCapture {
                name: StrId::Capture(index),
                mode: mode_of(entry.usage.level),
                source: entry.root,
                source_path: entry.path,
            },
            captures_of(*rest, after_usize(index)),
        ),
    }
}

pub open spec fn capture_types(
    context: TypeContext,
    graph: ModuleGraph,
    entries: List<CaptureEntry>,
    span: SourceSpan,
) -> List<HirType>
    decreases entries,
{
    match entries {
        Nil => Nil,
        Cons(entry, rest) => List::cons_of(
            capture_type(context, graph, *entry, span),
            capture_types(context, graph, *rest, span),
        ),
    }
}

pub open spec fn any_moved(entries: List<CaptureEntry>) -> bool
    decreases entries,
{
    match entries {
        Nil => false,
        Cons(entry, rest) => entry.usage.level == UseLevel::Move || any_moved(*rest),
    }
}

pub open spec fn any_mutated(entries: List<CaptureEntry>) -> bool
    decreases entries,
{
    match entries {
        Nil => false,
        Cons(entry, rest) => entry.usage.mutated || any_mutated(*rest),
    }
}

/// A closure that moves a capture can be called once; one that changes a capture needs to be
/// changed itself by a call.
pub open spec fn kind_of(entries: List<CaptureEntry>) -> ClosureKind {
    if any_moved(entries) {
        ClosureKind::FnOnce
    } else if any_mutated(entries) {
        ClosureKind::FnMut
    } else {
        ClosureKind::Fn
    }
}

/// The function type among the constraints of a parameter.
pub open spec fn lambda_constraint(constraints: List<HirType>) -> Option<HirType>
    decreases constraints,
{
    match constraints {
        Nil => None,
        Cons(constraint, rest) => if *constraint is Lambda {
            Some(*constraint)
        } else {
            lambda_constraint(*rest)
        },
    }
}

pub open spec fn any_lambda_constraint(generics: List<HirGeneric>) -> bool
    decreases generics,
{
    match generics {
        Nil => false,
        Cons(generic, rest) => lambda_constraint(generic.constraints) is Some
            || any_lambda_constraint(*rest),
    }
}

pub open spec fn generic_named(generics: List<HirGeneric>, name: StrId) -> Option<HirGeneric>
    decreases generics,
{
    match generics {
        Nil => None,
        Cons(generic, rest) => if generic.name == name {
            Some(*generic)
        } else {
            generic_named(*rest, name)
        },
    }
}

/// The function type that a generic parameter of a callee is constrained to.
pub open spec fn closure_constraint(
    param_type: HirType,
    callee: Option<HirFunc>,
    subs: Substitutions,
) -> Option<HirType> {
    match (param_type, callee) {
        (HirType::Generic(name), Some(func)) => match func.generics {
            Some(generics) => match generic_named(generics, name) {
                Some(generic) => match lambda_constraint(generic.constraints) {
                    Some(constraint) => Some(substituted(constraint, subs)),
                    None => None,
                },
                None => None,
            },
            None => None,
        },
        _ => None,
    }
}

/// What the arguments other than lambdas say of the parameters of a callee.
pub open spec fn peeked_generics(
    context: TypeContext,
    args: List<HirExpr>,
    params: List<HirParam>,
    subs: Substitutions,
) -> Substitutions
    decreases args,
{
    match (args, params) {
        (Cons(arg, more), Cons(param, rest)) => {
            let next = match (arg.kind, param.declared_type()) {
                (ExprKind::Lambda { .. }, _) => subs,
                (_, None) => subs,
                (_, Some(declared)) => {
                    let place = match arg.kind {
                        ExprKind::Ref { expr: inner, .. } => *inner,
                        _ => *arg,
                    };
                    if peeked(context, place) is Unknown {
                        subs
                    } else {
                        unified(declared, peeked(context, place), subs)
                    }
                },
            };
            peeked_generics(context, *more, *rest, next)
        },
        _ => subs,
    }
}

pub open spec fn pre_inferred(
    context: TypeContext,
    func: HirFunc,
    args: List<HirExpr>,
    params: List<HirParam>,
) -> Substitutions {
    match func.generics {
        Some(generics) => if any_lambda_constraint(generics) {
            peeked_generics(context, args, params, Nil)
        } else {
            Nil
        },
        None => Nil,
    }
}

impl UseLevel {
    pub fn max(self, other: UseLevel) -> (level: UseLevel)
        ensures
            level == stronger(self, other),
    {
        match (self, other) {
            (UseLevel::Move, _) | (_, UseLevel::Move) => UseLevel::Move,
            (UseLevel::Mut, _) | (_, UseLevel::Mut) => UseLevel::Mut,
            (UseLevel::Alias, _) | (_, UseLevel::Alias) => UseLevel::Alias,
            _ => UseLevel::Read,
        }
    }

    pub fn of_borrow(kind: BorrowKind) -> (level: UseLevel)
        ensures
            level == level_of(kind),
    {
        match kind {
            BorrowKind::Mutable => UseLevel::Mut,
            BorrowKind::Alias => UseLevel::Alias,
            BorrowKind::Shared => UseLevel::Read,
        }
    }

    pub fn of_ref(kind: RefKind) -> (level: UseLevel)
        ensures
            level == level_of_ref(kind),
    {
        match kind {
            RefKind::Unique => UseLevel::Mut,
            RefKind::Alias => UseLevel::Alias,
            RefKind::Shared => UseLevel::Read,
        }
    }

    pub fn of_mode(mode: CaptureMode) -> (level: UseLevel)
        ensures
            level == level_of_mode(mode),
    {
        match mode {
            CaptureMode::ByValue => UseLevel::Move,
            CaptureMode::ByRef(kind) => UseLevel::of_ref(kind),
        }
    }
}

fn use_at(usage: Usage, level: UseLevel) -> (result: Usage)
    ensures
        result == used_at(usage, level),
{
    Usage { level: usage.level.max(level), mutated: usage.mutated || level == UseLevel::Mut }
}

fn path_leads_through(prefix: &List<HirEffectSegment>, path: &List<HirEffectSegment>) -> (yes: bool)
    ensures
        yes == leads_through(*prefix, *path),
    decreases prefix,
{
    match prefix {
        Nil => true,
        Cons(first, more) => match path {
            Cons(head, rest) => first.same(head) && path_leads_through(more, rest),
            Nil => false,
        },
    }
}

fn use_through(
    entries: &List<CaptureEntry>,
    root: StrId,
    path: &List<HirEffectSegment>,
    level: UseLevel,
) -> (result: List<CaptureEntry>)
    ensures
        result == through_used(*entries, root, *path, level),
    decreases entries,
{
    match entries {
        Nil => Nil,
        Cons(entry, rest) => if entry.root == root && path_leads_through(&entry.path, path) {
            let used = CaptureEntry {
                root: entry.root,
                path: entry.path.dup(),
                usage: use_at(entry.usage, level),
            };
            Cons(Rc::new(used), share(rest))
        } else {
            Cons(share(entry), Rc::new(use_through(rest, root, path, level)))
        },
    }
}

fn use_root(entries: &List<CaptureEntry>, root: StrId, level: UseLevel) -> (result: List<
    CaptureEntry,
>)
    ensures
        result == root_used(*entries, root, level),
    decreases entries,
{
    match entries {
        Nil => Nil,
        Cons(entry, rest) => if entry.root == root && entry.path.is_empty() {
            let used = CaptureEntry {
                root: entry.root,
                path: entry.path.dup(),
                usage: use_at(entry.usage, level),
            };
            Cons(Rc::new(used), share(rest))
        } else {
            Cons(share(entry), Rc::new(use_root(rest, root, level)))
        },
    }
}

fn use_frames(
    frames: &List<ClosureFrame>,
    root: StrId,
    path: &List<HirEffectSegment>,
    level: UseLevel,
) -> (result: List<ClosureFrame>)
    ensures
        result == frames_used(*frames, root, *path, level),
    decreases frames,
{
    match frames {
        Nil => Nil,
        Cons(frame, rest) => {
            let through = use_through(&frame.entries, root, path, level);
            let entries = use_root(&through, root, level);
            List::cons(ClosureFrame { entries }, use_frames(rest, root, path, level))
        },
    }
}

fn bind_pattern(pattern: &HirPattern, bound: List<StrId>) -> (result: List<StrId>)
    ensures
        result == pattern_names(*pattern, bound),
    decreases pattern,
{
    match pattern {
        HirPattern::Ident(name) => List::cons(*name, bound),
        HirPattern::EnumVariant { bindings, .. } => bindings.reverse_onto(bound),
        HirPattern::Tuple(patterns) => bind_patterns(patterns, bound),
        HirPattern::Array(patterns) => bind_patterns(patterns, bound),
        HirPattern::Or(patterns) => bind_patterns(patterns, bound),
        HirPattern::Struct { fields, .. } => bind_fields(fields, bound),
        _ => bound,
    }
}

fn bind_patterns(patterns: &List<HirPattern>, bound: List<StrId>) -> (result: List<StrId>)
    ensures
        result == patterns_names(*patterns, bound),
    decreases patterns,
{
    match patterns {
        Nil => bound,
        Cons(pattern, rest) => bind_patterns(rest, bind_pattern(pattern, bound)),
    }
}

fn bind_fields(fields: &List<(StrId, HirPattern)>, bound: List<StrId>) -> (result: List<StrId>)
    ensures
        result == fields_names(*fields, bound),
    decreases fields,
{
    match fields {
        Nil => bound,
        Cons(field, rest) => bind_fields(rest, bind_pattern(&field.1, bound)),
    }
}

pub fn bind_params(params: &List<HirLambdaParam>, bound: List<StrId>) -> (result: List<StrId>)
    ensures
        result == params_bound(*params, bound),
    decreases params,
{
    match params {
        Nil => bound,
        Cons(param, rest) => bind_params(rest, List::cons(param.name, bound)),
    }
}

impl FreePaths {
    fn add(&mut self, root: StrId, path: List<HirEffectSegment>)
        ensures
            *final(self) == old(self).with_path(root, path),
    {
        let entry = (root, path);
        if !self.bound.contains(&root) && !self.found.contains(&entry) {
            self.found = self.found.push(entry);
        }
    }

    fn bind(&mut self, name: StrId)
        ensures
            *final(self) == old(self).binding(name),
    {
        self.bound = List::cons(name, self.bound.dup());
    }

    fn fv_access(&mut self, expr: &HirExpr, object: &HirExpr)
        ensures
            *final(self) == old(self).after_access(*expr, *object),
        decreases object, 1int,
    {
        match TypeChecker::effect_path_of(expr) {
            Some((root, path)) => self.add(root, path),
            None => self.fv_expr(object),
        }
    }

    fn fv_expr(&mut self, expr: &HirExpr)
        ensures
            *final(self) == old(self).after_expr(*expr),
        decreases expr, 0int,
    {
        match &expr.kind {
            ExprKind::Ident(name, _) => self.add(*name, Nil),
            ExprKind::This { .. } => self.add(StrId::Known(Word::This), Nil),
            ExprKind::FieldAccess { object, .. } => self.fv_access(expr, object),
            ExprKind::Get { object, .. } => self.fv_access(expr, object),
            ExprKind::Index { object, index, .. } => {
                self.fv_access(expr, object);
                self.fv_expr(index);
            },
            ExprKind::Assignment { target, value, .. } => {
                self.fv_expr(target);
                self.fv_expr(value);
            },
            ExprKind::Ref { expr: inner, .. } => self.fv_expr(inner),
            ExprKind::Deref { expr: inner, .. } => self.fv_expr(inner),
            ExprKind::Cast { expr: inner, .. } => self.fv_expr(inner),
            ExprKind::Slice { object, start, end, .. } => {
                self.fv_expr(object);
                self.fv_expr(start);
                self.fv_expr(end);
            },
            ExprKind::Range { start, end, .. } => {
                self.fv_expr(start);
                self.fv_expr(end);
            },
            ExprKind::Tuple(exprs, _) => self.fv_exprs(exprs),
            ExprKind::ArrayLiteral { elements, .. } => self.fv_exprs(elements),
            ExprKind::ExprList { list, .. } => self.fv_exprs(list),
            ExprKind::Binary { left, right, .. } => {
                self.fv_expr(left);
                self.fv_expr(right);
            },
            ExprKind::Comparison { left, right, .. } => {
                self.fv_expr(left);
                self.fv_expr(right);
            },
            ExprKind::Call { callee, args, .. } => {
                self.fv_expr(callee);
                self.fv_exprs(args);
            },
            ExprKind::InterfaceCall { callee, args, .. } => {
                self.fv_expr(callee);
                self.fv_exprs(args);
            },
            ExprKind::StructInit { args, .. } => self.fv_inits(args),
            ExprKind::EnumInit { args, .. } => self.fv_exprs(args),
            ExprKind::Intrinsic { args, .. } => self.fv_exprs(args),
            ExprKind::InterpolatedString(parts) => self.fv_parts(parts),
            ExprKind::If { if_stmt, .. } => self.fv_stmt(if_stmt),
            ExprKind::Match { expr: scrutinee, arms, .. } => {
                self.fv_expr(scrutinee);
                self.fv_arms(arms);
            },
            ExprKind::Block { body, .. } => {
                let bound = self.bound.dup();
                self.fv_stmts(body);
                self.bound = bound;
            },
            ExprKind::Lambda { params, body, .. } => {
                let bound = self.bound.dup();
                self.bound = bind_params(params, self.bound.dup());
                self.fv_stmt(body);
                self.bound = bound;
            },
            _ => {},
        }
    }

    fn fv_exprs(&mut self, exprs: &List<HirExpr>)
        ensures
            *final(self) == old(self).after_exprs(*exprs),
        decreases exprs, 0int,
    {
        match exprs {
            Nil => {},
            Cons(expr, rest) => {
                self.fv_expr(expr);
                self.fv_exprs(rest);
            },
        }
    }

    fn fv_inits(&mut self, inits: &List<HirFieldInit>)
        ensures
            *final(self) == old(self).after_inits(*inits),
        decreases inits, 0int,
    {
        match inits {
            Nil => {},
            Cons(init, rest) => {
                self.fv_expr(&init.value);
                self.fv_inits(rest);
            },
        }
    }

    fn fv_parts(&mut self, parts: &List<InterpolationPart>)
        ensures
            *final(self) == old(self).after_parts(*parts),
        decreases parts, 0int,
    {
        match parts {
            Nil => {},
            Cons(part, rest) => {
                match &**part {
                    InterpolationPart::Expr(expr) => self.fv_expr(expr),
                    InterpolationPart::Text(_) => {},
                }
                self.fv_parts(rest);
            },
        }
    }

    fn fv_arms(&mut self, arms: &List<HirMatchArm>)
        ensures
            *final(self) == old(self).after_arms(*arms),
        decreases arms, 0int,
    {
        match arms {
            Nil => {},
            Cons(arm, rest) => {
                let bound = self.bound.dup();
                self.bound = bind_pattern(&arm.pattern, self.bound.dup());
                match &arm.guard {
                    Some(guard) => self.fv_expr(guard),
                    None => {},
                }
                self.fv_stmt(&arm.body);
                self.bound = bound;
                self.fv_arms(rest);
            },
        }
    }

    fn fv_stmts(&mut self, stmts: &List<HirStmt>)
        ensures
            *final(self) == old(self).after_stmts(*stmts),
        decreases stmts, 0int,
    {
        match stmts {
            Nil => {},
            Cons(stmt, rest) => {
                self.fv_stmt(stmt);
                self.fv_stmts(rest);
            },
        }
    }

    fn fv_branches(&mut self, branches: &List<HirErrorBranch>)
        ensures
            *final(self) == old(self).after_branches(*branches),
        decreases branches, 0int,
    {
        match branches {
            Nil => {},
            Cons(branch, rest) => {
                self.fv_stmts(&branch.body);
                self.fv_branches(rest);
            },
        }
    }

    /// Adds the paths of a statement that start from names it does not bind itself.
    pub fn fv_stmt(&mut self, stmt: &HirStmt)
        ensures
            *final(self) == old(self).after_stmt(*stmt),
        decreases stmt, 0int,
    {
        match &stmt.kind {
            StmtKind::Let { name, value, else_block, catch_pattern, .. } => {
                self.fv_expr(value);
                match else_block {
                    Some(block) => self.fv_stmt(block),
                    None => {},
                }
                match catch_pattern {
                    Some(HirErrorHandlerPattern::Single { body }) => self.fv_stmts(body),
                    Some(HirErrorHandlerPattern::Multiple { branches }) => self.fv_branches(
                        branches,
                    ),
                    None => {},
                }
                self.bind(*name);
            },
            StmtKind::Const(constant) => {
                self.fv_expr(&constant.value);
                self.bind(constant.name);
            },
            StmtKind::Return(value, _) | StmtKind::Break(value, _) => match value {
                Some(expr) => self.fv_expr(expr),
                None => {},
            },
            StmtKind::Expr(expr) => self.fv_expr(expr),
            StmtKind::If { cond, then_block, else_block, .. } => {
                self.fv_expr(cond);
                let bound = self.bound.dup();
                self.fv_stmts(then_block);
                self.bound = bound;
                match else_block {
                    Some(other) => self.fv_stmt(other),
                    None => {},
                }
            },
            StmtKind::While { cond, body } => {
                self.fv_expr(cond);
                self.fv_stmt(body);
            },
            StmtKind::For { init, condition, increment, body } => {
                let bound = self.bound.dup();
                match init {
                    Some(stmt) => self.fv_stmt(stmt),
                    None => {},
                }
                match condition {
                    Some(expr) => self.fv_expr(expr),
                    None => {},
                }
                match increment {
                    Some(expr) => self.fv_expr(expr),
                    None => {},
                }
                self.fv_stmt(body);
                self.bound = bound;
            },
            StmtKind::Block { body, .. } => {
                let bound = self.bound.dup();
                self.fv_stmts(body);
                self.bound = bound;
            },
            StmtKind::Match { expr, arms, .. } => {
                self.fv_expr(expr);
                self.fv_arms(arms);
            },
            StmtKind::UnsafeBlock { body } => self.fv_stmt(body),
            StmtKind::Defer(body) => self.fv_stmt(body),
            _ => {},
        }
    }
}

fn place_by_length(paths: &List<FreePath>, path: FreePath) -> (result: List<FreePath>)
    ensures
        result == placed_by_length(*paths, path),
    decreases paths,
{
    match paths {
        Nil => List::one(path),
        Cons(head, rest) => if head.1.len() <= path.1.len() {
            Cons(share(head), Rc::new(place_by_length(rest, path)))
        } else {
            List::cons(path, paths.dup())
        },
    }
}

fn sort_by_length(paths: &List<FreePath>, sorted: List<FreePath>) -> (result: List<FreePath>)
    ensures
        result == by_length(*paths, sorted),
    decreases paths,
{
    match paths {
        Nil => sorted,
        Cons(path, rest) => sort_by_length(
            rest,
            place_by_length(&sorted, (path.0, path.1.dup())),
        ),
    }
}

fn extends_one_of(kept: &List<FreePath>, path: &FreePath) -> (yes: bool)
    ensures
        yes == passes_one_of(*kept, *path),
    decreases kept,
{
    match kept {
        Nil => false,
        Cons(head, rest) => (head.0 == path.0 && path_leads_through(&head.1, &path.1))
            || extends_one_of(rest, path),
    }
}

fn drop_extensions(paths: &List<FreePath>, kept: List<FreePath>) -> (result: List<FreePath>)
    ensures
        result == without_extensions(*paths, kept),
    decreases paths,
{
    match paths {
        Nil => kept,
        Cons(path, rest) => if extends_one_of(&kept, path) {
            drop_extensions(rest, kept)
        } else {
            drop_extensions(rest, kept.push((path.0, path.1.dup())))
        },
    }
}

fn extend_path(base: HirExpr, path: &List<HirEffectSegment>, span: SourceSpan) -> (expr: HirExpr)
    ensures
        expr == path_expr(base, *path, span),
    decreases path,
{
    match path {
        Nil => base,
        Cons(segment, rest) => {
            let kind = match &**segment {
                HirEffectSegment::Field(field) => ExprKind::FieldAccess {
                    object: Rc::new(base),
                    field: *field,
                    span,
                },
                HirEffectSegment::Index(_) => ExprKind::Index {
                    object: Rc::new(base),
                    index: Rc::new(HirExpr { key: 0, kind: ExprKind::Number(0, span) }),
                    span,
                },
            };
            extend_path(HirExpr { key: 0, kind }, rest, span)
        },
    }
}

fn capture_mode(level: UseLevel) -> (mode: CaptureMode)
    ensures
        mode == mode_of(level),
{
    match level {
        UseLevel::Read => CaptureMode::ByRef(RefKind::Shared),
        UseLevel::Alias => CaptureMode::ByRef(RefKind::Alias),
        UseLevel::Mut => CaptureMode::ByRef(RefKind::Unique),
        UseLevel::Move => CaptureMode::ByValue,
    }
}

pub fn list_captures(entries: &List<CaptureEntry>, index: usize) -> (captures: List<
    HirClosureCapture,
>)
    ensures
        captures == captures_of(*entries, index),
    decreases entries,
{
    match entries {
        Nil => Nil,
        Cons(entry, rest) => List::cons(
            HirClosureCapture {
                name: StrId::Capture(index),
                mode: capture_mode(entry.usage.level),
                source: entry.root,
                source_path: entry.path.dup(),
            },
            list_captures(rest, next_usize(index)),
        ),
    }
}

fn has_moved(entries: &List<CaptureEntry>) -> (yes: bool)
    ensures
        yes == any_moved(*entries),
    decreases entries,
{
    match entries {
        Nil => false,
        Cons(entry, rest) => entry.usage.level == UseLevel::Move || has_moved(rest),
    }
}

fn has_mutated(entries: &List<CaptureEntry>) -> (yes: bool)
    ensures
        yes == any_mutated(*entries),
    decreases entries,
{
    match entries {
        Nil => false,
        Cons(entry, rest) => entry.usage.mutated || has_mutated(rest),
    }
}

pub fn closure_kind(entries: &List<CaptureEntry>) -> (kind: ClosureKind)
    ensures
        kind == kind_of(*entries),
{
    if has_moved(entries) {
        ClosureKind::FnOnce
    } else if has_mutated(entries) {
        ClosureKind::FnMut
    } else {
        ClosureKind::Fn
    }
}

pub fn new_entries(paths: &List<FreePath>) -> (entries: List<CaptureEntry>)
    ensures
        entries == unused_entries(*paths),
    decreases paths,
{
    match paths {
        Nil => Nil,
        Cons(path, rest) => List::cons(
            CaptureEntry {
                root: path.0,
                path: path.1.dup(),
                usage: Usage { level: UseLevel::Read, mutated: false },
            },
            new_entries(rest),
        ),
    }
}

pub fn find_lambda_constraint(constraints: &List<HirType>) -> (constraint: Option<&HirType>)
    ensures
        constraint == match lambda_constraint(*constraints) {
            Some(found) => Some(&found),
            None => None,
        },
    decreases constraints,
{
    match constraints {
        Nil => None,
        Cons(constraint, rest) => if matches!(**constraint, HirType::Lambda { .. }) {
            Some(constraint)
        } else {
            find_lambda_constraint(rest)
        },
    }
}

fn find_generic(generics: &List<HirGeneric>, name: StrId) -> (generic: Option<&HirGeneric>)
    ensures
        generic == match generic_named(*generics, name) {
            Some(found) => Some(&found),
            None => None,
        },
    decreases generics,
{
    match generics {
        Nil => None,
        Cons(generic, rest) => if generic.name == name {
            Some(generic)
        } else {
            find_generic(rest, name)
        },
    }
}

impl TypeChecker {
    pub open spec fn noted(
        self,
        root: StrId,
        path: List<HirEffectSegment>,
        level: UseLevel,
    ) -> TypeChecker {
        TypeChecker {
            closures: ClosureState {
                frames: frames_used(self.closures.frames, root, path, level),
                ..self.closures
            },
            ..self
        }
    }

    /// The checker after a use of an expression that may be a captured path.
    pub open spec fn noted_expr(self, expr: HirExpr, level: UseLevel) -> TypeChecker {
        match effect_path(expr) {
            Some((root, path)) => self.noted(root, path, level),
            None => self,
        }
    }

    pub fn note_capture_use(&mut self, root: StrId, path: &List<HirEffectSegment>, level: UseLevel)
        ensures
            *final(self) == old(self).noted(root, *path, level),
            final(self).settled_in_scope(*old(self)),
    {
        self.closures.frames = use_frames(&self.closures.frames, root, path, level);
    }

    pub fn note_expr_use(&mut self, expr: &HirExpr, level: UseLevel)
        ensures
            *final(self) == old(self).noted_expr(*expr, level),
            final(self).settled_in_scope(*old(self)),
    {
        match Self::effect_path_of(expr) {
            Some((root, path)) => self.note_capture_use(root, &path, level),
            None => {},
        }
    }

    pub fn effect_path_of(expr: &HirExpr) -> (path: Option<FreePath>)
        ensures
            path == effect_path(*expr),
        decreases expr,
    {
        match &expr.kind {
            ExprKind::Ident(name, _) => Some((*name, Nil)),
            ExprKind::This { .. } => Some((StrId::Known(Word::This), Nil)),
            ExprKind::FieldAccess { object, field, .. } | ExprKind::Get { object, field, .. } => {
                match Self::effect_path_of(object) {
                    Some((root, path)) => Some((root, path.push(HirEffectSegment::Field(*field)))),
                    None => None,
                }
            },
            ExprKind::Index { object, index, .. } => match Self::effect_path_of(object) {
                Some((root, path)) => {
                    let key = match &index.kind {
                        ExprKind::Number(value, _) => EffectIndexKey::Const(*value),
                        _ => match Self::static_field_path(index) {
                            Some((root, path)) => EffectIndexKey::Place { root, path },
                            None => EffectIndexKey::Dynamic,
                        },
                    };
                    Some((root, path.push(HirEffectSegment::Index(key))))
                },
                None => None,
            },
            _ => None,
        }
    }

    pub fn mutation_path(&self, expr: &HirExpr) -> (path: Option<FreePath>)
        ensures
            path == mutated_path(self.context, *expr),
        decreases expr,
    {
        match &expr.kind {
            ExprKind::Slice { object, .. } => if matches!(
                self.peek_type(object),
                HirType::SafePointer { .. } | HirType::UnsafePointer { .. }
            ) {
                None
            } else {
                self.mutation_path(object)
            },
            ExprKind::Deref { expr: inner, .. } => if matches!(
                self.peek_type(inner),
                HirType::SafePointer { .. } | HirType::UnsafePointer { .. }
            ) {
                None
            } else {
                self.mutation_path(inner)
            },
            _ => Self::effect_path_of(expr),
        }
    }

    pub fn expr_from_path(root: StrId, path: &List<HirEffectSegment>, span: SourceSpan) -> (expr:
        HirExpr)
        ensures
            expr == path_expr(root_expr(root, span), *path, span),
    {
        extend_path(Self::capture_root_expr(root, span), path, span)
    }

    pub fn capture_root_expr(root: StrId, span: SourceSpan) -> (expr: HirExpr)
        ensures
            expr == root_expr(root, span),
    {
        if root == StrId::Known(Word::This) {
            HirExpr { key: 0, kind: ExprKind::This { span } }
        } else {
            HirExpr { key: 0, kind: ExprKind::Ident(root, span) }
        }
    }

    pub fn coalesce_free_paths(entries: &List<FreePath>) -> (result: List<FreePath>)
        ensures
            result == coalesced(*entries),
    {
        drop_extensions(&sort_by_length(entries, Nil), Nil)
    }

    fn keep_enclosing(&self, paths: &List<FreePath>) -> (result: List<FreePath>)
        ensures
            result == enclosing_paths(self.context, *paths),
        decreases paths,
    {
        match paths {
            Nil => Nil,
            Cons(path, rest) => if self.context.is_local_binding(path.0) {
                Cons(share(path), Rc::new(self.keep_enclosing(rest)))
            } else {
                self.keep_enclosing(rest)
            },
        }
    }

    pub fn find_captures(&self, params: &List<HirLambdaParam>, body: &HirStmt) -> (paths: List<
        FreePath,
    >)
        ensures
            paths == captured_paths(self.context, *params, *body),
    {
        let mut free = FreePaths { bound: bind_params(params, Nil), found: Nil };
        free.fv_stmt(body);
        Self::coalesce_free_paths(&self.keep_enclosing(&free.found))
    }

    pub fn capture_field_types(&self, entries: &List<CaptureEntry>, span: SourceSpan) -> (types: List<
        HirType,
    >)
        ensures
            types == capture_types(self.context, self.program.graph, *entries, span),
        decreases entries,
    {
        match entries {
            Nil => Nil,
            Cons(entry, rest) => {
                let place = Self::expr_from_path(entry.root, &entry.path, span);
                let place_ty = self.peek_type(&place);
                let ty = match capture_mode(entry.usage.level) {
                    CaptureMode::ByValue => place_ty,
                    CaptureMode::ByRef(ref_kind) => HirType::Ref {
                        inner: Rc::new(place_ty),
                        ref_kind,
                        provenance: self.infer_provenance(&place),
                    },
                };
                List::cons(ty, self.capture_field_types(rest, span))
            },
        }
    }

    pub fn has_closure_generics(generics: &List<HirGeneric>) -> (yes: bool)
        ensures
            yes == any_lambda_constraint(*generics),
        decreases generics,
    {
        match generics {
            Nil => false,
            Cons(generic, rest) => find_lambda_constraint(&generic.constraints).is_some()
                || Self::has_closure_generics(rest),
        }
    }

    pub fn closure_constraint_for(&self, param_type: &HirType, callee: Option<&HirFunc>) -> (constraint:
        Option<HirType>)
        ensures
            constraint == closure_constraint(
                *param_type,
                match callee {
                    Some(func) => Some(*func),
                    None => None,
                },
                self.closures.pre_subs,
            ),
    {
        match (param_type, callee) {
            (HirType::Generic(name), Some(func)) => match &func.generics {
                Some(generics) => match find_generic(generics, *name) {
                    Some(generic) => match find_lambda_constraint(&generic.constraints) {
                        Some(constraint) => Some(
                            self.substitute_type_local(constraint, &self.closures.pre_subs),
                        ),
                        None => None,
                    },
                    None => None,
                },
                None => None,
            },
            _ => None,
        }
    }

    fn peek_generics(&self, args: &List<HirExpr>, params: &List<HirParam>, subs: Substitutions) -> (result:
        Substitutions)
        ensures
            result == peeked_generics(self.context, *args, *params, subs),
        decreases args,
    {
        match (args, params) {
            (Cons(arg, more), Cons(param, rest)) => {
                let next = match (&arg.kind, param.get_type()) {
                    (ExprKind::Lambda { .. }, _) => subs,
                    (_, None) => subs,
                    (_, Some(declared)) => {
                        let place: &HirExpr = match &arg.kind {
                            ExprKind::Ref { expr: inner, .. } => inner,
                            _ => arg,
                        };
                        let actual = self.peek_type(place);
                        if matches!(actual, HirType::Unknown) {
                            subs
                        } else {
                            self.unify_generic(declared, &actual, subs)
                        }
                    },
                };
                self.peek_generics(more, rest, next)
            },
            _ => subs,
        }
    }

    pub fn pre_infer_generics(
        &self,
        func: &HirFunc,
        args: &List<HirExpr>,
        params: &List<HirParam>,
    ) -> (subs: Substitutions)
        ensures
            subs == pre_inferred(self.context, *func, *args, *params),
    {
        match &func.generics {
            Some(generics) => if Self::has_closure_generics(generics) {
                self.peek_generics(args, params, Nil)
            } else {
                Nil
            },
            None => Nil,
        }
    }
}

proof fn kept_stay(paths: List<FreePath>, kept: List<FreePath>, path: FreePath)
    requires
        passes_one_of(kept, path),
    ensures
        passes_one_of(without_extensions(paths, kept), path),
    decreases paths,
{
    match paths {
        Nil => {},
        Cons(_, _) => {
            let first = paths.head();
            let next = if passes_one_of(kept, first) {
                kept
            } else {
                kept.snoc(first)
            };
            push_still_passes(kept, first, path);
            kept_stay(paths.rest(), next, path);
        },
    }
}

proof fn push_still_passes(kept: List<FreePath>, last: FreePath, path: FreePath)
    ensures
        passes_one_of(kept.snoc(last), path) == (passes_one_of(kept, path) || (last.0 == path.0
            && leads_through(last.1, path.1))),
    decreases kept,
{
    match kept {
        Nil => {
            assert(!passes_one_of(List::<FreePath>::Nil, path));
        },
        Cons(_, _) => {
            push_still_passes(kept.rest(), last, path);
        },
    }
}

proof fn path_leads_through_itself(path: List<HirEffectSegment>)
    ensures
        leads_through(path, path),
    decreases path,
{
    match path {
        Nil => {},
        Cons(_, _) => path_leads_through_itself(path.rest()),
    }
}

proof fn every_path_is_kept(paths: List<FreePath>, kept: List<FreePath>, path: FreePath)
    requires
        paths.has(path),
    ensures
        passes_one_of(without_extensions(paths, kept), path),
    decreases paths,
{
    let first = paths.head();
    let next = if passes_one_of(kept, first) {
        kept
    } else {
        kept.snoc(first)
    };
    if first == path {
        push_still_passes(kept, first, path);
        path_leads_through_itself(path.1);
        kept_stay(paths.rest(), next, path);
    } else {
        every_path_is_kept(paths.rest(), next, path);
    }
}

proof fn placing_keeps(paths: List<FreePath>, path: FreePath, wanted: FreePath)
    ensures
        placed_by_length(paths, path).has(wanted) == (paths.has(wanted) || wanted == path),
    decreases paths,
{
    match paths {
        Nil => {
            assert(!List::<FreePath>::Nil.has(wanted));
        },
        Cons(_, _) => {
            placing_keeps(paths.rest(), path, wanted);
        },
    }
}

proof fn sorting_keeps(paths: List<FreePath>, sorted: List<FreePath>, wanted: FreePath)
    ensures
        by_length(paths, sorted).has(wanted) == (paths.has(wanted) || sorted.has(wanted)),
    decreases paths,
{
    match paths {
        Nil => {},
        Cons(_, _) => {
            placing_keeps(sorted, paths.head(), wanted);
            sorting_keeps(paths.rest(), placed_by_length(sorted, paths.head()), wanted);
        },
    }
}

/// Every path that a lambda uses is covered by one of the paths it captures.
pub proof fn coalescing_loses_nothing(paths: List<FreePath>, path: FreePath)
    requires
        paths.has(path),
    ensures
        passes_one_of(coalesced(paths), path),
{
    sorting_keeps(paths, Nil, path);
    every_path_is_kept(by_length(paths, Nil), Nil, path);
}

/// Noting a use never weakens what is known of one, and uses can be noted in any order.
pub proof fn use_levels_are_ordered(usage: Usage, first: UseLevel, second: UseLevel)
    ensures
        strength(used_at(usage, first).level) >= strength(usage.level),
        strength(used_at(usage, first).level) >= strength(first),
        used_at(used_at(usage, first), second) == used_at(used_at(usage, second), first),
        used_at(used_at(usage, first), first) == used_at(usage, first),
{
}

} // verus!
