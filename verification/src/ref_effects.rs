//! Paths into locals, and the accesses that a function body makes through one of them.

use vstd::prelude::*;

use crate::borrow::Bound;
use crate::errors::{dup_index, Message, UsedIndex};
use crate::hir::{
    AssignmentOperator, EffectIndexKey, ExprKind, HirEffectAccess, HirEffectSegment,
    HirErrorBranch, HirErrorHandlerPattern, HirExpr, HirFieldInit, HirLambdaParam, HirMatchArm,
    HirStmt, HirType, InterpolationPart, MutabilityState, RefKind, StmtKind, StrId, Word,
};
use crate::initialization::{next_index, succ};
use crate::list::{Cons, Key, List, Nil};
use crate::type_checker::{this_name, TypeChecker};

verus! {

/// A path below a root, and the index behind it.
pub type EffectUsage = (List<StrId>, Option<UsedIndex>);

/// The root of a chain of field accesses, and the fields.
pub open spec fn field_path(expr: HirExpr) -> Option<(StrId, List<StrId>)>
    decreases expr,
{
    match expr.kind {
        ExprKind::Ident(name, _) => Some((name, Nil)),
        ExprKind::This { .. } => Some((this_name(), Nil)),
        ExprKind::FieldAccess { object, field, .. } | ExprKind::Get { object, field, .. } => {
            match field_path(*object) {
                Some((root, path)) => Some((root, path.snoc(field))),
                None => None,
            }
        },
        _ => None,
    }
}

/// The index that an index expression gives, if it is a literal or a path.
pub open spec fn index_used(index: HirExpr) -> Option<UsedIndex> {
    match index.kind {
        ExprKind::Number(i, _) => Some(UsedIndex::Range(i, succ(i))),
        _ => match field_path(index) {
            Some((root, path)) => Some(UsedIndex::Place(root, path)),
            None => None,
        },
    }
}

/// The path that an access goes through, and the index at its end.
pub open spec fn effect_place(expr: HirExpr) -> Option<(StrId, List<StrId>, Option<UsedIndex>)> {
    match expr.kind {
        ExprKind::Index { object, index, .. } => match field_path(*object) {
            Some((root, path)) => Some((root, path, index_used(*index))),
            None => None,
        },
        _ => match field_path(expr) {
            Some((root, path)) => Some((root, path, None)),
            None => None,
        },
    }
}

/// What is written and read below a root, in order.
#[derive(Debug, PartialEq, Eq)]
pub struct Accesses {
    pub writes: List<EffectUsage>,
    pub reads: List<EffectUsage>,
}

impl Accesses {
    #[verifier::opaque]
    pub open spec fn with_read(self, path: List<StrId>, index: Option<UsedIndex>) -> Accesses {
        Accesses { reads: self.reads.snoc((path, index)), ..self }
    }

    #[verifier::opaque]
    pub open spec fn with_write(self, path: List<StrId>, index: Option<UsedIndex>) -> Accesses {
        Accesses { writes: self.writes.snoc((path, index)), ..self }
    }

    fn read(&mut self, path: List<StrId>, index: Option<UsedIndex>)
        ensures
            *final(self) == old(self).with_read(path, index),
    {
        proof {
            reveal(Accesses::with_read);
        }
        self.reads = self.reads.push((path, index));
    }

    fn write(&mut self, path: List<StrId>, index: Option<UsedIndex>)
        ensures
            *final(self) == old(self).with_write(path, index),
    {
        proof {
            reveal(Accesses::with_write);
        }
        self.writes = self.writes.push((path, index));
    }
}

/// The place of an access, if it lies below a root.
#[verifier::opaque]
pub open spec fn place_below(expr: HirExpr, root: StrId) -> Option<EffectUsage> {
    match effect_place(expr) {
        Some((found, path, index)) => if found == root {
            Some((path, index))
        } else {
            None
        },
        None => None,
    }
}

/// The path of an expression, if it starts at a root.
#[verifier::opaque]
pub open spec fn path_below(expr: HirExpr, root: StrId) -> Option<List<StrId>> {
    match field_path(expr) {
        Some((found, path)) => if found == root {
            Some(path)
        } else {
            None
        },
        None => None,
    }
}

pub open spec fn shadows(params: List<HirLambdaParam>, root: StrId) -> bool
    decreases params,
{
    match params {
        Nil => false,
        Cons(param, rest) => param.name == root || shadows(*rest, root),
    }
}

pub open spec fn expr_accesses(expr: HirExpr, root: StrId, acc: Accesses) -> Accesses
    decreases expr,
{
    match expr.kind {
        ExprKind::Assignment { target, op, value, .. } => {
            let before = expr_accesses(*value, root, acc);
            match place_below(*target, root) {
                Some((path, index)) => if op == AssignmentOperator::Assign {
                    before.with_write(path, index)
                } else {
                    before.with_write(path, index).with_read(path, index)
                },
                None => expr_accesses(*target, root, before),
            }
        },
        ExprKind::Ref { expr: inner, ref_kind, .. } => match place_below(*inner, root) {
            Some((path, index)) => if ref_kind != RefKind::Shared {
                acc.with_write(path, index).with_read(path, index)
            } else {
                acc.with_read(path, index)
            },
            None => expr_accesses(*inner, root, acc),
        },
        ExprKind::Ident(name, _) => if name == root {
            acc.with_read(Nil, None)
        } else {
            acc
        },
        ExprKind::This { .. } => if root == this_name() {
            acc.with_read(Nil, None)
        } else {
            acc
        },
        ExprKind::FieldAccess { object, field, .. } | ExprKind::Get { object, field, .. } => {
            match path_below(*object, root) {
                Some(path) => acc.with_read(path.snoc(field), None),
                None => expr_accesses(*object, root, acc),
            }
        },
        ExprKind::Index { object, index, .. } => match place_below(expr, root) {
            Some((path, used)) => expr_accesses(*index, root, acc.with_read(path, used)),
            None => expr_accesses(*index, root, expr_accesses(*object, root, acc)),
        },
        ExprKind::Slice { object, start, end, .. } => {
            let before = match path_below(*object, root) {
                Some(path) => acc.with_read(path, None),
                None => expr_accesses(*object, root, acc),
            };
            expr_accesses(*end, root, expr_accesses(*start, root, before))
        },
        ExprKind::Deref { expr: inner, .. } => expr_accesses(*inner, root, acc),
        ExprKind::Cast { expr: inner, .. } => expr_accesses(*inner, root, acc),
        ExprKind::Range { start, end, .. } => expr_accesses(
            *end,
            root,
            expr_accesses(*start, root, acc),
        ),
        ExprKind::Tuple(exprs, _) => exprs_accesses(exprs, root, acc),
        ExprKind::ArrayLiteral { elements, .. } => exprs_accesses(elements, root, acc),
        ExprKind::ExprList { list, .. } => exprs_accesses(list, root, acc),
        ExprKind::Binary { left, right, .. } => expr_accesses(
            *right,
            root,
            expr_accesses(*left, root, acc),
        ),
        ExprKind::Comparison { left, right, .. } => expr_accesses(
            *right,
            root,
            expr_accesses(*left, root, acc),
        ),
        ExprKind::Call { callee, args, .. } => exprs_accesses(
            args,
            root,
            expr_accesses(*callee, root, acc),
        ),
        ExprKind::InterfaceCall { callee, args, .. } => exprs_accesses(
            args,
            root,
            expr_accesses(*callee, root, acc),
        ),
        ExprKind::StructInit { args, .. } => inits_accesses(args, root, acc),
        ExprKind::EnumInit { args, .. } => exprs_accesses(args, root, acc),
        ExprKind::InterpolatedString(parts) => parts_accesses(parts, root, acc),
        ExprKind::Intrinsic { args, .. } => exprs_accesses(args, root, acc),
        ExprKind::If { if_stmt, .. } => stmt_accesses(*if_stmt, root, acc),
        ExprKind::Match { expr: scrutinee, arms, .. } => arms_accesses(
            arms,
            root,
            expr_accesses(*scrutinee, root, acc),
        ),
        ExprKind::Block { body, .. } => stmts_accesses(body, root, acc),
        ExprKind::Lambda { params, body, .. } => if shadows(params, root) {
            acc
        } else {
            stmt_accesses(*body, root, acc)
        },
        _ => acc,
    }
}

pub open spec fn exprs_accesses(exprs: List<HirExpr>, root: StrId, acc: Accesses) -> Accesses
    decreases exprs,
{
    match exprs {
        Nil => acc,
        Cons(expr, rest) => exprs_accesses(*rest, root, expr_accesses(*expr, root, acc)),
    }
}

pub open spec fn inits_accesses(inits: List<HirFieldInit>, root: StrId, acc: Accesses) -> Accesses
    decreases inits,
{
    match inits {
        Nil => acc,
        Cons(init, rest) => inits_accesses(*rest, root, expr_accesses(init.value, root, acc)),
    }
}

pub open spec fn parts_accesses(
    parts: List<InterpolationPart>,
    root: StrId,
    acc: Accesses,
) -> Accesses
    decreases parts,
{
    match parts {
        Nil => acc,
        Cons(part, rest) => parts_accesses(
            *rest,
            root,
            match *part {
                InterpolationPart::Expr(expr) => expr_accesses(*expr, root, acc),
                InterpolationPart::Text(_) => acc,
            },
        ),
    }
}

pub open spec fn arms_accesses(arms: List<HirMatchArm>, root: StrId, acc: Accesses) -> Accesses
    decreases arms,
{
    match arms {
        Nil => acc,
        Cons(arm, rest) => {
            let guarded = match arm.guard {
                Some(guard) => expr_accesses(*guard, root, acc),
                None => acc,
            };
            arms_accesses(*rest, root, stmt_accesses(*arm.body, root, guarded))
        },
    }
}

pub open spec fn stmts_accesses(stmts: List<HirStmt>, root: StrId, acc: Accesses) -> Accesses
    decreases stmts,
{
    match stmts {
        Nil => acc,
        Cons(stmt, rest) => stmts_accesses(*rest, root, stmt_accesses(*stmt, root, acc)),
    }
}

pub open spec fn branches_accesses(
    branches: List<HirErrorBranch>,
    root: StrId,
    acc: Accesses,
) -> Accesses
    decreases branches,
{
    match branches {
        Nil => acc,
        Cons(branch, rest) => branches_accesses(
            *rest,
            root,
            stmts_accesses(branch.body, root, acc),
        ),
    }
}

pub open spec fn stmt_accesses(stmt: HirStmt, root: StrId, acc: Accesses) -> Accesses
    decreases stmt,
{
    match stmt.kind {
        StmtKind::Let { value, else_block, catch_pattern, .. } => {
            let valued = expr_accesses(value, root, acc);
            let otherwise = match else_block {
                Some(block) => stmt_accesses(*block, root, valued),
                None => valued,
            };
            match catch_pattern {
                Some(HirErrorHandlerPattern::Single { body }) => stmts_accesses(
                    body,
                    root,
                    otherwise,
                ),
                Some(HirErrorHandlerPattern::Multiple { branches }) => branches_accesses(
                    branches,
                    root,
                    otherwise,
                ),
                None => otherwise,
            }
        },
        StmtKind::Const(constant) => expr_accesses(constant.value, root, acc),
        StmtKind::Return(value, _) | StmtKind::Break(value, _) => match value {
            Some(expr) => expr_accesses(*expr, root, acc),
            None => acc,
        },
        StmtKind::Expr(expr) => expr_accesses(*expr, root, acc),
        StmtKind::If { cond, then_block, else_block, .. } => {
            let taken = stmts_accesses(then_block, root, expr_accesses(cond, root, acc));
            match else_block {
                Some(other) => stmt_accesses(*other, root, taken),
                None => taken,
            }
        },
        StmtKind::While { cond, body } => stmt_accesses(
            *body,
            root,
            expr_accesses(*cond, root, acc),
        ),
        StmtKind::For { init, condition, increment, body } => {
            let started = match init {
                Some(stmt) => stmt_accesses(*stmt, root, acc),
                None => acc,
            };
            let tested = match condition {
                Some(expr) => expr_accesses(*expr, root, started),
                None => started,
            };
            let stepped = match increment {
                Some(expr) => expr_accesses(*expr, root, tested),
                None => tested,
            };
            stmt_accesses(*body, root, stepped)
        },
        StmtKind::Block { body, .. } => stmts_accesses(body, root, acc),
        StmtKind::Match { expr, arms, .. } => arms_accesses(
            arms,
            root,
            expr_accesses(*expr, root, acc),
        ),
        StmtKind::UnsafeBlock { body } => stmt_accesses(*body, root, acc),
        StmtKind::Defer(body) => stmt_accesses(*body, root, acc),
        _ => acc,
    }
}

/// The fields of a declared path.
pub open spec fn declared_fields(path: List<HirEffectSegment>) -> List<StrId>
    decreases path,
{
    match path {
        Nil => Nil,
        Cons(segment, rest) => match *segment {
            HirEffectSegment::Field(field) => List::cons_of(field, declared_fields(*rest)),
            HirEffectSegment::Index(_) => declared_fields(*rest),
        },
    }
}

/// The last index of a declared path.
pub open spec fn declared_index(path: List<HirEffectSegment>) -> Option<EffectIndexKey>
    decreases path,
{
    match path {
        Nil => None,
        Cons(segment, rest) => match declared_index(*rest) {
            Some(key) => Some(key),
            None => match *segment {
                HirEffectSegment::Field(_) => None,
                HirEffectSegment::Index(key) => Some(key),
            },
        },
    }
}

/// Whether a declared access grants one that is made: the same fields, and an index that the
/// declared one is known to be. An undeclared index, and one that is not known, grant every index.
pub open spec fn grants(
    declared: List<HirEffectSegment>,
    fields: List<StrId>,
    index: Option<UsedIndex>,
) -> bool {
    &&& declared_fields(declared) == fields
    &&& match (declared_index(declared), index) {
        (None, _) => true,
        (Some(EffectIndexKey::Dynamic), _) => true,
        (Some(EffectIndexKey::Const(at)), Some(UsedIndex::Range(start, end))) => at <= start && end
            <= succ(at),
        (Some(EffectIndexKey::Place { root, path }), Some(UsedIndex::Place(used, used_path))) => {
            root == used && path == used_path
        },
        _ => false,
    }
}

/// Whether one of the declared accesses grants one that is made.
pub open spec fn granted(
    declared: List<HirEffectAccess>,
    usage: EffectUsage,
    writing: bool,
) -> bool
    decreases declared,
{
    match declared {
        Nil => false,
        Cons(access, rest) => ((!writing || access.ref_kind != RefKind::Shared) && grants(
            access.path,
            usage.0,
            usage.1,
        )) || granted(*rest, usage, writing),
    }
}

pub open spec fn grants_unique(accesses: List<HirEffectAccess>) -> bool
    decreases accesses,
{
    match accesses {
        Nil => false,
        Cons(access, rest) => access.ref_kind == RefKind::Unique || grants_unique(*rest),
    }
}

pub fn any_unique(accesses: &List<HirEffectAccess>) -> (found: bool)
    ensures
        found == grants_unique(*accesses),
    decreases accesses,
{
    match accesses {
        Nil => false,
        Cons(access, rest) => access.ref_kind == RefKind::Unique || any_unique(rest),
    }
}

/// Whether a parameter of a type can be written through, if effects can be declared on it at all.
pub open spec fn outer_mutable(param_type: Option<HirType>) -> Option<bool> {
    match param_type {
        None => Some(true),
        Some(HirType::Ref { ref_kind, .. }) => Some(ref_kind != RefKind::Shared),
        Some(HirType::SafePointer { mutability_state, .. }) => Some(
            mutability_state == MutabilityState::Mut,
        ),
        Some(HirType::UnsafePointer { mutability_state, .. }) => Some(
            mutability_state == MutabilityState::Mut,
        ),
        Some(HirType::This) => Some(true),
        _ => None,
    }
}

fn declared_path_fields(path: &List<HirEffectSegment>) -> (fields: List<StrId>)
    ensures
        fields == declared_fields(*path),
    decreases path,
{
    match path {
        Nil => Nil,
        Cons(segment, rest) => match &**segment {
            HirEffectSegment::Field(field) => List::cons(*field, declared_path_fields(rest)),
            HirEffectSegment::Index(_) => declared_path_fields(rest),
        },
    }
}

fn declared_path_index(path: &List<HirEffectSegment>) -> (key: Option<&EffectIndexKey>)
    ensures
        key == match declared_index(*path) {
            Some(found) => Some(&found),
            None => None,
        },
    decreases path,
{
    match path {
        Nil => None,
        Cons(segment, rest) => match declared_path_index(rest) {
            Some(key) => Some(key),
            None => match &**segment {
                HirEffectSegment::Field(_) => None,
                HirEffectSegment::Index(key) => Some(key),
            },
        },
    }
}

fn any_param_named(params: &List<HirLambdaParam>, root: StrId) -> (found: bool)
    ensures
        found == shadows(*params, root),
    decreases params,
{
    match params {
        Nil => false,
        Cons(param, rest) => param.name == root || any_param_named(rest, root),
    }
}

impl TypeChecker {
    pub fn static_field_path(expr: &HirExpr) -> (path: Option<(StrId, List<StrId>)>)
        ensures
            path == field_path(*expr),
        decreases expr,
    {
        match &expr.kind {
            ExprKind::Ident(name, _) => Some((*name, Nil)),
            ExprKind::This { .. } => Some((StrId::Known(Word::This), Nil)),
            ExprKind::FieldAccess { object, field, .. } | ExprKind::Get { object, field, .. } => {
                match Self::static_field_path(object) {
                    Some((root, path)) => Some((root, path.push(*field))),
                    None => None,
                }
            },
            _ => None,
        }
    }

    fn used_index(&self, index: &HirExpr) -> (used: Option<UsedIndex>)
        ensures
            used == index_used(*index),
    {
        match &index.kind {
            ExprKind::Number(i, _) => Some(UsedIndex::Range(*i, next_index(*i))),
            _ => match Self::static_field_path(index) {
                Some((root, path)) => Some(UsedIndex::Place(root, path)),
                None => None,
            },
        }
    }

    pub fn effect_place_of(&self, expr: &HirExpr) -> (place: Option<
        (StrId, List<StrId>, Option<UsedIndex>),
    >)
        ensures
            place == effect_place(*expr),
    {
        match &expr.kind {
            ExprKind::Index { object, index, .. } => match Self::static_field_path(object) {
                Some((root, path)) => Some((root, path, self.used_index(index))),
                None => None,
            },
            _ => match Self::static_field_path(expr) {
                Some((root, path)) => Some((root, path, None)),
                None => None,
            },
        }
    }

    fn usage_below(&self, expr: &HirExpr, root: StrId) -> (usage: Option<EffectUsage>)
        ensures
            usage == place_below(*expr, root),
    {
        proof {
            reveal(place_below);
        }
        match self.effect_place_of(expr) {
            Some((found, path, index)) => if found == root {
                Some((path, index))
            } else {
                None
            },
            None => None,
        }
    }

    fn fields_below(&self, expr: &HirExpr, root: StrId) -> (path: Option<List<StrId>>)
        ensures
            path == path_below(*expr, root),
    {
        proof {
            reveal(path_below);
        }
        match Self::static_field_path(expr) {
            Some((found, path)) => if found == root {
                Some(path)
            } else {
                None
            },
            None => None,
        }
    }

    pub fn collect_root_accesses_expr(&self, expr: &HirExpr, root: StrId, acc: &mut Accesses)
        ensures
            *final(acc) == expr_accesses(*expr, root, *old(acc)),
        decreases expr,
    {
        match &expr.kind {
            ExprKind::Assignment { target, op, value, .. } => {
                self.collect_root_accesses_expr(value, root, acc);
                match self.usage_below(target, root) {
                    Some((path, index)) => {
                        if *op == AssignmentOperator::Assign {
                            acc.write(path, index);
                        } else {
                            acc.write(path.dup(), dup_index(&index));
                            acc.read(path, index);
                        }
                    },
                    None => self.collect_root_accesses_expr(target, root, acc),
                }
            },
            ExprKind::Ref { expr: inner, ref_kind, .. } => match self.usage_below(inner, root) {
                Some((path, index)) => {
                    if *ref_kind != RefKind::Shared {
                        acc.write(path.dup(), dup_index(&index));
                    }
                    acc.read(path, index);
                },
                None => self.collect_root_accesses_expr(inner, root, acc),
            },
            ExprKind::Ident(name, _) => {
                if *name == root {
                    acc.read(Nil, None);
                }
            },
            ExprKind::This { .. } => {
                if root == StrId::Known(Word::This) {
                    acc.read(Nil, None);
                }
            },
            ExprKind::FieldAccess { object, field, .. } | ExprKind::Get { object, field, .. } => {
                match self.fields_below(object, root) {
                    Some(path) => acc.read(path.push(*field), None),
                    None => self.collect_root_accesses_expr(object, root, acc),
                }
            },
            ExprKind::Index { object, index, .. } => match self.usage_below(expr, root) {
                Some((path, used)) => {
                    acc.read(path, used);
                    self.collect_root_accesses_expr(index, root, acc);
                },
                None => {
                    self.collect_root_accesses_expr(object, root, acc);
                    self.collect_root_accesses_expr(index, root, acc);
                },
            },
            ExprKind::Slice { object, start, end, .. } => {
                match self.fields_below(object, root) {
                    Some(path) => acc.read(path, None),
                    None => self.collect_root_accesses_expr(object, root, acc),
                }
                self.collect_root_accesses_expr(start, root, acc);
                self.collect_root_accesses_expr(end, root, acc);
            },
            ExprKind::Deref { expr: inner, .. } => self.collect_root_accesses_expr(
                inner,
                root,
                acc,
            ),
            ExprKind::Cast { expr: inner, .. } => self.collect_root_accesses_expr(inner, root, acc),
            ExprKind::Range { start, end, .. } => {
                self.collect_root_accesses_expr(start, root, acc);
                self.collect_root_accesses_expr(end, root, acc);
            },
            ExprKind::Tuple(exprs, _) => self.collect_root_accesses_exprs(exprs, root, acc),
            ExprKind::ArrayLiteral { elements, .. } => self.collect_root_accesses_exprs(
                elements,
                root,
                acc,
            ),
            ExprKind::ExprList { list, .. } => self.collect_root_accesses_exprs(list, root, acc),
            ExprKind::Binary { left, right, .. } => {
                self.collect_root_accesses_expr(left, root, acc);
                self.collect_root_accesses_expr(right, root, acc);
            },
            ExprKind::Comparison { left, right, .. } => {
                self.collect_root_accesses_expr(left, root, acc);
                self.collect_root_accesses_expr(right, root, acc);
            },
            ExprKind::Call { callee, args, .. } => {
                self.collect_root_accesses_expr(callee, root, acc);
                self.collect_root_accesses_exprs(args, root, acc);
            },
            ExprKind::InterfaceCall { callee, args, .. } => {
                self.collect_root_accesses_expr(callee, root, acc);
                self.collect_root_accesses_exprs(args, root, acc);
            },
            ExprKind::StructInit { args, .. } => self.collect_root_accesses_inits(args, root, acc),
            ExprKind::EnumInit { args, .. } => self.collect_root_accesses_exprs(args, root, acc),
            ExprKind::InterpolatedString(parts) => self.collect_root_accesses_parts(
                parts,
                root,
                acc,
            ),
            ExprKind::Intrinsic { args, .. } => self.collect_root_accesses_exprs(args, root, acc),
            ExprKind::If { if_stmt, .. } => self.collect_root_accesses_stmt(if_stmt, root, acc),
            ExprKind::Match { expr: scrutinee, arms, .. } => {
                self.collect_root_accesses_expr(scrutinee, root, acc);
                self.collect_root_accesses_arms(arms, root, acc);
            },
            ExprKind::Block { body, .. } => self.collect_root_accesses_stmts(body, root, acc),
            ExprKind::Lambda { params, body, .. } => {
                if !any_param_named(params, root) {
                    self.collect_root_accesses_stmt(body, root, acc);
                }
            },
            _ => {},
        }
    }

    fn collect_root_accesses_exprs(&self, exprs: &List<HirExpr>, root: StrId, acc: &mut Accesses)
        ensures
            *final(acc) == exprs_accesses(*exprs, root, *old(acc)),
        decreases exprs,
    {
        match exprs {
            Nil => {},
            Cons(expr, rest) => {
                self.collect_root_accesses_expr(expr, root, acc);
                self.collect_root_accesses_exprs(rest, root, acc);
            },
        }
    }

    fn collect_root_accesses_inits(
        &self,
        inits: &List<HirFieldInit>,
        root: StrId,
        acc: &mut Accesses,
    )
        ensures
            *final(acc) == inits_accesses(*inits, root, *old(acc)),
        decreases inits,
    {
        match inits {
            Nil => {},
            Cons(init, rest) => {
                self.collect_root_accesses_expr(&init.value, root, acc);
                self.collect_root_accesses_inits(rest, root, acc);
            },
        }
    }

    fn collect_root_accesses_parts(
        &self,
        parts: &List<InterpolationPart>,
        root: StrId,
        acc: &mut Accesses,
    )
        ensures
            *final(acc) == parts_accesses(*parts, root, *old(acc)),
        decreases parts,
    {
        match parts {
            Nil => {},
            Cons(part, rest) => {
                match &**part {
                    InterpolationPart::Expr(expr) => self.collect_root_accesses_expr(
                        expr,
                        root,
                        acc,
                    ),
                    InterpolationPart::Text(_) => {},
                }
                self.collect_root_accesses_parts(rest, root, acc);
            },
        }
    }

    fn collect_root_accesses_arms(&self, arms: &List<HirMatchArm>, root: StrId, acc: &mut Accesses)
        ensures
            *final(acc) == arms_accesses(*arms, root, *old(acc)),
        decreases arms,
    {
        match arms {
            Nil => {},
            Cons(arm, rest) => {
                match &arm.guard {
                    Some(guard) => self.collect_root_accesses_expr(guard, root, acc),
                    None => {},
                }
                self.collect_root_accesses_stmt(&arm.body, root, acc);
                self.collect_root_accesses_arms(rest, root, acc);
            },
        }
    }

    fn collect_root_accesses_stmts(&self, stmts: &List<HirStmt>, root: StrId, acc: &mut Accesses)
        ensures
            *final(acc) == stmts_accesses(*stmts, root, *old(acc)),
        decreases stmts,
    {
        match stmts {
            Nil => {},
            Cons(stmt, rest) => {
                self.collect_root_accesses_stmt(stmt, root, acc);
                self.collect_root_accesses_stmts(rest, root, acc);
            },
        }
    }

    fn collect_root_accesses_branches(
        &self,
        branches: &List<HirErrorBranch>,
        root: StrId,
        acc: &mut Accesses,
    )
        ensures
            *final(acc) == branches_accesses(*branches, root, *old(acc)),
        decreases branches,
    {
        match branches {
            Nil => {},
            Cons(branch, rest) => {
                self.collect_root_accesses_stmts(&branch.body, root, acc);
                self.collect_root_accesses_branches(rest, root, acc);
            },
        }
    }

    pub fn collect_root_accesses_stmt(&self, stmt: &HirStmt, root: StrId, acc: &mut Accesses)
        ensures
            *final(acc) == stmt_accesses(*stmt, root, *old(acc)),
        decreases stmt,
    {
        match &stmt.kind {
            StmtKind::Let { value, else_block, catch_pattern, .. } => {
                self.collect_root_accesses_expr(value, root, acc);
                match else_block {
                    Some(block) => self.collect_root_accesses_stmt(block, root, acc),
                    None => {},
                }
                match catch_pattern {
                    Some(HirErrorHandlerPattern::Single { body }) => {
                        self.collect_root_accesses_stmts(body, root, acc)
                    },
                    Some(HirErrorHandlerPattern::Multiple { branches }) => {
                        self.collect_root_accesses_branches(branches, root, acc)
                    },
                    None => {},
                }
            },
            StmtKind::Const(constant) => self.collect_root_accesses_expr(
                &constant.value,
                root,
                acc,
            ),
            StmtKind::Return(value, _) | StmtKind::Break(value, _) => match value {
                Some(expr) => self.collect_root_accesses_expr(expr, root, acc),
                None => {},
            },
            StmtKind::Expr(expr) => self.collect_root_accesses_expr(expr, root, acc),
            StmtKind::If { cond, then_block, else_block, .. } => {
                self.collect_root_accesses_expr(cond, root, acc);
                self.collect_root_accesses_stmts(then_block, root, acc);
                match else_block {
                    Some(other) => self.collect_root_accesses_stmt(other, root, acc),
                    None => {},
                }
            },
            StmtKind::While { cond, body } => {
                self.collect_root_accesses_expr(cond, root, acc);
                self.collect_root_accesses_stmt(body, root, acc);
            },
            StmtKind::For { init, condition, increment, body } => {
                match init {
                    Some(stmt) => self.collect_root_accesses_stmt(stmt, root, acc),
                    None => {},
                }
                match condition {
                    Some(expr) => self.collect_root_accesses_expr(expr, root, acc),
                    None => {},
                }
                match increment {
                    Some(expr) => self.collect_root_accesses_expr(expr, root, acc),
                    None => {},
                }
                self.collect_root_accesses_stmt(body, root, acc);
            },
            StmtKind::Block { body, .. } => self.collect_root_accesses_stmts(body, root, acc),
            StmtKind::Match { expr, arms, .. } => {
                self.collect_root_accesses_expr(expr, root, acc);
                self.collect_root_accesses_arms(arms, root, acc);
            },
            StmtKind::UnsafeBlock { body } => self.collect_root_accesses_stmt(body, root, acc),
            StmtKind::Defer(body) => self.collect_root_accesses_stmt(body, root, acc),
            _ => {},
        }
    }

    pub fn declared_access_covers(
        declared_path: &List<HirEffectSegment>,
        used_fields: &List<StrId>,
        used_index: &Option<UsedIndex>,
    ) -> (covers: bool)
        ensures
            covers == grants(*declared_path, *used_fields, *used_index),
    {
        declared_path_fields(declared_path).same(used_fields) && match (
            declared_path_index(declared_path),
            used_index,
        ) {
            (None, _) => true,
            (Some(EffectIndexKey::Dynamic), _) => true,
            (Some(EffectIndexKey::Const(at)), Some(UsedIndex::Range(start, end))) => *at <= *start
                && *end <= next_index(*at),
            (
                Some(EffectIndexKey::Place { root, path }),
                Some(UsedIndex::Place(used, used_path)),
            ) => *root == *used && path.same(used_path),
            _ => false,
        }
    }

    fn access_granted(declared: &List<HirEffectAccess>, usage: &EffectUsage, writing: bool) -> (yes:
        bool)
        ensures
            yes == granted(*declared, *usage, writing),
        decreases declared,
    {
        match declared {
            Nil => false,
            Cons(access, rest) => ((!writing || access.ref_kind != RefKind::Shared)
                && Self::declared_access_covers(&access.path, &usage.0, &usage.1))
                || Self::access_granted(rest, usage, writing),
        }
    }

    /// The checker after looking at the accesses that were made: each that is not granted is an
    /// error.
    pub open spec fn after_usages(
        self,
        root: StrId,
        declared: List<HirEffectAccess>,
        usages: List<EffectUsage>,
        writing: bool,
    ) -> TypeChecker
        decreases usages,
    {
        match usages {
            Nil => self,
            Cons(usage, rest) => {
                let next = if granted(declared, *usage, writing) {
                    self
                } else if writing {
                    self.said(
                        Message::WriteNotGranted { root, path: usage.0, index: usage.1 },
                    )
                } else {
                    self.said(Message::ReadNotListed { root, path: usage.0, index: usage.1 })
                };
                next.after_usages(root, declared, *rest, writing)
            },
        }
    }

    fn check_usages(
        &mut self,
        root: StrId,
        declared: &List<HirEffectAccess>,
        usages: &List<EffectUsage>,
        writing: bool,
    )
        ensures
            *final(self) == old(self).after_usages(root, *declared, *usages, writing),
        decreases usages,
    {
        match usages {
            Nil => {},
            Cons(usage, rest) => {
                if !Self::access_granted(declared, usage, writing) {
                    let path = usage.0.dup();
                    let index = dup_index(&usage.1);
                    if writing {
                        self.say(Message::WriteNotGranted { root, path, index });
                    } else {
                        self.say(Message::ReadNotListed { root, path, index });
                    }
                }
                self.check_usages(root, declared, rest, writing);
            },
        }
    }

    pub open spec fn after_declaration(
        self,
        root: StrId,
        declared: List<HirEffectAccess>,
        body: HirStmt,
    ) -> TypeChecker {
        let made = stmt_accesses(body, root, Accesses { writes: Nil, reads: Nil });
        self.after_usages(root, declared, made.writes, true).after_usages(
            root,
            declared,
            made.reads,
            false,
        )
    }

    /// Every write and read of the body below `root` must be granted by its declared effects.
    pub fn validate_multi_place_declaration(
        &mut self,
        root: StrId,
        declared: &List<HirEffectAccess>,
        body: &HirStmt,
    )
        ensures
            *final(self) == old(self).after_declaration(root, *declared, *body),
    {
        let mut made = Accesses { writes: Nil, reads: Nil };
        self.collect_root_accesses_stmt(body, root, &mut made);
        self.check_usages(root, declared, &made.writes, true);
        self.check_usages(root, declared, &made.reads, false);
    }

    pub open spec fn after_signature(
        self,
        param_type: Option<HirType>,
        accesses: List<HirEffectAccess>,
    ) -> TypeChecker {
        match outer_mutable(param_type) {
            None => self.said(Message::AccessListNeedsReference),
            Some(mutable) => if !mutable && grants_unique(accesses) {
                self.said(Message::MutThroughShared)
            } else {
                self
            },
        }
    }

    pub fn validate_multi_place_signature(
        &mut self,
        param_type: Option<&HirType>,
        accesses: &List<HirEffectAccess>,
    )
        ensures
            *final(self) == old(self).after_signature(
                match param_type {
                    Some(ty) => Some(*ty),
                    None => None,
                },
                *accesses,
            ),
    {
        let outer_mut: Option<bool> = match param_type {
            None => Some(true),
            Some(HirType::Ref { ref_kind, .. }) => Some(*ref_kind != RefKind::Shared),
            Some(HirType::SafePointer { mutability_state, .. }) => Some(
                *mutability_state == MutabilityState::Mut,
            ),
            Some(HirType::UnsafePointer { mutability_state, .. }) => Some(
                *mutability_state == MutabilityState::Mut,
            ),
            Some(HirType::This) => Some(true),
            _ => None,
        };
        match outer_mut {
            None => self.say(Message::AccessListNeedsReference),
            Some(mutable) => {
                if !mutable && any_unique(accesses) {
                    self.say(Message::MutThroughShared);
                }
            },
        }
    }

    pub open spec fn after_key_bound(self, key: EffectIndexKey) -> (TypeChecker, Bound) {
        match key {
            EffectIndexKey::Const(i) => (self, Bound::Const(i)),
            EffectIndexKey::Place { root, path } => (self, Bound::Symbol { root, path }),
            EffectIndexKey::Dynamic => self.with_fresh_opaque(),
        }
    }

    pub fn effect_index_key_to_bound(&mut self, key: &EffectIndexKey) -> (bound: Bound)
        ensures
            (*final(self), bound) == old(self).after_key_bound(*key),
            final(self).settled_in_scope(*old(self)),
    {
        match key {
            EffectIndexKey::Const(i) => Bound::Const(*i),
            EffectIndexKey::Place { root, path } => Bound::Symbol { root: *root, path: path.dup() },
            EffectIndexKey::Dynamic => self.fresh_opaque(),
        }
    }
}

} // verus!
