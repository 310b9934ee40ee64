//! What a function reads through its parameters.

use std::rc::Rc;

use vstd::prelude::*;

use crate::borrow::{ReadTemplate, TemplateBase, TemplateProjection};
use crate::hir::{
    AssignmentOperator, ExprKind, HirErrorBranch, HirErrorHandlerPattern, HirExpr, HirFieldInit,
    HirFunc, HirMatchArm, HirParam, HirStmt, HirType, InterpolationPart, MutabilityState, StmtKind,
    StrId,
};
use crate::list::{find, lookup, update, updated, Cons, List, Nil, Table};
use crate::ref_provenance::{has_this_param, index_params, indexed, takes_this, template_of};
use crate::type_checker::{after_usize, next_usize, Templates, TypeChecker};

verus! {

/// What has been found out: of the functions looked at before, and of the parameters of this one.
#[derive(Debug, PartialEq, Eq)]
pub struct ReadState {
    pub known: Table<StrId, List<ReadTemplate>>,
    pub templates: List<ReadTemplate>,
}

/// The function being looked at: its module, and the places of its parameters.
#[derive(Debug, PartialEq, Eq)]
pub struct ReadBody {
    pub module: usize,
    pub params: Table<StrId, usize>,
    pub has_this: bool,
}

/// The templates after a read through a path from a parameter. A read of all of the parameter
/// makes anything possible.
pub open spec fn read_recorded(
    base: TemplateBase,
    projections: List<TemplateProjection>,
    templates: List<ReadTemplate>,
) -> List<ReadTemplate> {
    match base {
        TemplateBase::This => templates,
        TemplateBase::Param(i) => match templates.nth(i) {
            None => templates,
            Some(template) => if projections is Nil {
                templates.with_nth(i, ReadTemplate::Opaque)
            } else {
                match template {
                    ReadTemplate::Opaque => templates,
                    ReadTemplate::Paths(paths) => templates.with_nth(
                        i,
                        ReadTemplate::Paths(paths.snoc(projections)),
                    ),
                }
            },
        },
    }
}

impl ReadState {
    pub open spec fn with_read(
        self,
        base: TemplateBase,
        projections: List<TemplateProjection>,
    ) -> ReadState {
        ReadState { templates: read_recorded(base, projections, self.templates), ..self }
    }
}

/// What is cast to a raw pointer through which can be written.
pub open spec fn mut_cast_operand(expr: HirExpr) -> Option<HirExpr> {
    match expr.kind {
        ExprKind::Cast { expr: inner, target_type, .. } => match target_type {
            HirType::UnsafePointer { mutability_state, .. } => if mutability_state
                == MutabilityState::Mut {
                Some(*inner)
            } else {
                None
            },
            HirType::SafePointer { mutability_state, .. } => if mutability_state
                == MutabilityState::Mut {
                Some(*inner)
            } else {
                None
            },
            _ => None,
        },
        _ => None,
    }
}

pub open spec fn touches(projections: List<TemplateProjection>) -> bool
    decreases projections,
{
    match projections {
        Nil => false,
        Cons(projection, rest) => *projection is Index || *projection is Deref || touches(*rest),
    }
}

pub open spec fn any_touches(paths: List<List<TemplateProjection>>) -> bool
    decreases paths,
{
    match paths {
        Nil => false,
        Cons(path, rest) => touches(*path) || any_touches(*rest),
    }
}

/// Whether a read goes to what the parameter points to.
pub open spec fn touches_contents(template: ReadTemplate) -> bool {
    match template {
        ReadTemplate::Opaque => true,
        ReadTemplate::Paths(paths) => any_touches(paths),
    }
}

/// The number of declared functions, stopping at the largest `usize`.
pub open spec fn function_count(functions: Table<usize, Table<StrId, Rc<HirFunc>>>) -> usize
    decreases functions,
{
    match functions {
        Nil => 0,
        Cons(entry, rest) => if entry.1.count() + function_count(*rest) > usize::MAX {
            usize::MAX
        } else {
            (entry.1.count() + function_count(*rest)) as usize
        },
    }
}

/// One empty template for each named parameter.
pub open spec fn blank_templates(params: List<HirParam>) -> List<ReadTemplate>
    decreases params,
{
    match params {
        Nil => Nil,
        Cons(param, rest) => match *param {
            HirParam::Normal { .. } => List::cons_of(
                ReadTemplate::Paths(Nil),
                blank_templates(*rest),
            ),
            HirParam::This { .. } => blank_templates(*rest),
        },
    }
}

impl TypeChecker {
    /// The function that a callee names from within a module.
    pub open spec fn callee_in(self, module: usize, callee: HirExpr) -> Option<Rc<HirFunc>> {
        match callee.kind {
            ExprKind::Ident(name, _) => self.context.function_in(module, name),
            ExprKind::ModuleAccess(access) => {
                let target = match self.aliased_module(module, access.path) {
                    Some(aliased) => Some(aliased),
                    None => self.program.graph.module_at(access.path),
                };
                match target {
                    Some(found) => self.context.function_in(found, access.member),
                    None => None,
                }
            },
            _ => None,
        }
    }

    /// The module that a path of one name stands for by an import.
    pub open spec fn aliased_module(self, module: usize, path: List<StrId>) -> Option<usize> {
        match path {
            Cons(only, rest) => if *rest is Nil {
                match lookup(self.program.imports_by_module, module) {
                    Some(imports) => match lookup(imports.named, *only) {
                        Some(found) => Some(found),
                        None => lookup(imports.module_aliases, *only),
                    },
                    None => None,
                }
            } else {
                None
            },
            Nil => None,
        }
    }

    /// Whether a callee may read what its argument at a position points to, and what is known
    /// afterwards. A function without a body is trusted; a callee that cannot be found is assumed
    /// to read.
    pub open spec fn may_read_arg(
        self,
        module: usize,
        callee: HirExpr,
        index: usize,
        known: Table<StrId, List<ReadTemplate>>,
        fuel: nat,
    ) -> (Table<StrId, List<ReadTemplate>>, bool)
        decreases fuel, 2int, callee, 0int,
    {
        match self.callee_in(module, callee) {
            None => (known, true),
            Some(func) => match func.params {
                None => (known, true),
                Some(params) => if index >= params.count() || takes_this(params) {
                    (known, true)
                } else if func.body is None {
                    (known, false)
                } else {
                    let (after, templates) = self.reads_found(*func, known, fuel);
                    (
                        after,
                        match templates.nth(index) {
                            Some(template) => touches_contents(template),
                            None => true,
                        },
                    )
                },
            },
        }
    }

    /// What a function reads through its parameters. While a function is being looked at, a call
    /// of it counts as one of which nothing is known.
    pub open spec fn reads_found(
        self,
        func: HirFunc,
        known: Table<StrId, List<ReadTemplate>>,
        fuel: nat,
    ) -> (Table<StrId, List<ReadTemplate>>, List<ReadTemplate>)
        decreases fuel, 1int, func, 0int,
    {
        match lookup(known, func.name) {
            Some(templates) => (known, templates),
            None => {
                let begun = updated(known, func.name, Nil);
                let done = match func.params {
                    None => ReadState { known: begun, templates: Nil },
                    Some(params) => {
                        let blank = ReadState {
                            known: begun,
                            templates: blank_templates(params),
                        };
                        match func.body {
                            None => blank,
                            Some(body) => self.stmt_reads(
                                ReadBody {
                                    module: func.declaring_module_idx,
                                    params: indexed(params, 0, Nil),
                                    has_this: takes_this(params),
                                },
                                *body,
                                blank,
                                fuel,
                            ),
                        }
                    },
                };
                (updated(done.known, func.name, done.templates), done.templates)
            },
        }
    }

    /// The reads of an assignment target: what lies on the way to it.
    pub open spec fn target_reads(
        self,
        body: ReadBody,
        target: HirExpr,
        st: ReadState,
        fuel: nat,
    ) -> ReadState
        decreases fuel, 0int, target, 1int,
    {
        match template_of(target, body.params, body.has_this) {
            Some((base, projections)) => if projections.without_last() is Nil {
                st
            } else {
                st.with_read(base, projections.without_last())
            },
            None => self.expr_reads(body, target, st, fuel),
        }
    }

    pub open spec fn expr_reads(
        self,
        body: ReadBody,
        expr: HirExpr,
        st: ReadState,
        fuel: nat,
    ) -> ReadState
        decreases fuel, 0int, expr, 0int,
    {
        match template_of(expr, body.params, body.has_this) {
            Some((base, projections)) => st.with_read(base, projections),
            None => match expr.kind {
                ExprKind::Match { expr: scrutinee, arms, .. } => self.arms_reads(
                    body,
                    arms,
                    self.expr_reads(body, *scrutinee, st, fuel),
                    fuel,
                ),
                ExprKind::Block { body: stmts, .. } => self.stmts_reads(body, stmts, st, fuel),
                ExprKind::Range { start, end, .. } => self.expr_reads(
                    body,
                    *end,
                    self.expr_reads(body, *start, st, fuel),
                    fuel,
                ),
                ExprKind::Slice { object, start, end, .. } => self.expr_reads(
                    body,
                    *end,
                    self.expr_reads(body, *start, self.expr_reads(body, *object, st, fuel), fuel),
                    fuel,
                ),
                ExprKind::Tuple(exprs, _) => self.exprs_reads(body, exprs, st, fuel),
                ExprKind::ArrayLiteral { elements, .. } => self.exprs_reads(
                    body,
                    elements,
                    st,
                    fuel,
                ),
                ExprKind::Binary { left, right, .. } => self.expr_reads(
                    body,
                    *right,
                    self.expr_reads(body, *left, st, fuel),
                    fuel,
                ),
                ExprKind::Comparison { left, right, .. } => self.expr_reads(
                    body,
                    *right,
                    self.expr_reads(body, *left, st, fuel),
                    fuel,
                ),
                ExprKind::Call { callee, args, .. } => self.args_reads(
                    body,
                    *callee,
                    args,
                    0,
                    self.expr_reads(body, *callee, st, fuel),
                    fuel,
                ),
                ExprKind::InterfaceCall { callee, args, .. } => self.args_reads(
                    body,
                    *callee,
                    args,
                    0,
                    self.expr_reads(body, *callee, st, fuel),
                    fuel,
                ),
                ExprKind::FieldAccess { object, .. } => self.expr_reads(body, *object, st, fuel),
                ExprKind::Get { object, .. } => self.expr_reads(body, *object, st, fuel),
                ExprKind::Assignment { target, op, value, .. } => {
                    let targeted = if op == AssignmentOperator::Assign {
                        self.target_reads(body, *target, st, fuel)
                    } else {
                        self.expr_reads(body, *target, st, fuel)
                    };
                    self.expr_reads(body, *value, targeted, fuel)
                },
                ExprKind::StructInit { args, .. } => self.inits_reads(body, args, st, fuel),
                ExprKind::EnumInit { args, .. } => self.exprs_reads(body, args, st, fuel),
                ExprKind::ExprList { list, .. } => self.exprs_reads(body, list, st, fuel),
                ExprKind::Deref { expr: inner, .. } => self.expr_reads(body, *inner, st, fuel),
                ExprKind::Cast { expr: inner, .. } => self.expr_reads(body, *inner, st, fuel),
                ExprKind::Ref { expr: inner, .. } => self.expr_reads(body, *inner, st, fuel),
                ExprKind::Index { object, index, .. } => self.expr_reads(
                    body,
                    *index,
                    self.expr_reads(body, *object, st, fuel),
                    fuel,
                ),
                ExprKind::InterpolatedString(parts) => self.parts_reads(body, parts, st, fuel),
                ExprKind::If { if_stmt, .. } => self.stmt_reads(body, *if_stmt, st, fuel),
                ExprKind::Intrinsic { args, .. } => self.exprs_reads(body, args, st, fuel),
                _ => st,
            },
        }
    }

    pub open spec fn exprs_reads(
        self,
        body: ReadBody,
        exprs: List<HirExpr>,
        st: ReadState,
        fuel: nat,
    ) -> ReadState
        decreases fuel, 0int, exprs, 0int,
    {
        match exprs {
            Nil => st,
            Cons(expr, rest) => self.exprs_reads(
                body,
                *rest,
                self.expr_reads(body, *expr, st, fuel),
                fuel,
            ),
        }
    }

    /// The reads of the arguments of a call. What is cast to a pointer for a callee that does not
    /// read it is only written.
    pub open spec fn args_reads(
        self,
        body: ReadBody,
        callee: HirExpr,
        args: List<HirExpr>,
        index: usize,
        st: ReadState,
        fuel: nat,
    ) -> ReadState
        decreases fuel, 0int, args, 0int,
    {
        match args {
            Nil => st,
            Cons(arg, rest) => {
                let next = match mut_cast_operand(*arg) {
                    None => self.expr_reads(body, *arg, st, fuel),
                    Some(inner) => {
                        let (known, reads) = if fuel == 0 {
                            (st.known, true)
                        } else {
                            self.may_read_arg(
                                body.module,
                                callee,
                                index,
                                st.known,
                                (fuel - 1) as nat,
                            )
                        };
                        let asked = ReadState { known, ..st };
                        if reads {
                            self.expr_reads(body, *arg, asked, fuel)
                        } else {
                            self.target_reads(body, inner, asked, fuel)
                        }
                    },
                };
                self.args_reads(body, callee, *rest, after_usize(index), next, fuel)
            },
        }
    }

    pub open spec fn inits_reads(
        self,
        body: ReadBody,
        inits: List<HirFieldInit>,
        st: ReadState,
        fuel: nat,
    ) -> ReadState
        decreases fuel, 0int, inits, 0int,
    {
        match inits {
            Nil => st,
            Cons(init, rest) => self.inits_reads(
                body,
                *rest,
                self.expr_reads(body, init.value, st, fuel),
                fuel,
            ),
        }
    }

    pub open spec fn parts_reads(
        self,
        body: ReadBody,
        parts: List<InterpolationPart>,
        st: ReadState,
        fuel: nat,
    ) -> ReadState
        decreases fuel, 0int, parts, 0int,
    {
        match parts {
            Nil => st,
            Cons(part, rest) => self.parts_reads(
                body,
                *rest,
                match *part {
                    InterpolationPart::Expr(expr) => self.expr_reads(body, *expr, st, fuel),
                    InterpolationPart::Text(_) => st,
                },
                fuel,
            ),
        }
    }

    pub open spec fn arms_reads(
        self,
        body: ReadBody,
        arms: List<HirMatchArm>,
        st: ReadState,
        fuel: nat,
    ) -> ReadState
        decreases fuel, 0int, arms, 0int,
    {
        match arms {
            Nil => st,
            Cons(arm, rest) => {
                let guarded = match arm.guard {
                    Some(guard) => self.expr_reads(body, *guard, st, fuel),
                    None => st,
                };
                self.arms_reads(
                    body,
                    *rest,
                    self.stmt_reads(body, *arm.body, guarded, fuel),
                    fuel,
                )
            },
        }
    }

    pub open spec fn stmts_reads(
        self,
        body: ReadBody,
        stmts: List<HirStmt>,
        st: ReadState,
        fuel: nat,
    ) -> ReadState
        decreases fuel, 0int, stmts, 0int,
    {
        match stmts {
            Nil => st,
            Cons(stmt, rest) => self.stmts_reads(
                body,
                *rest,
                self.stmt_reads(body, *stmt, st, fuel),
                fuel,
            ),
        }
    }

    pub open spec fn branches_reads(
        self,
        body: ReadBody,
        branches: List<HirErrorBranch>,
        st: ReadState,
        fuel: nat,
    ) -> ReadState
        decreases fuel, 0int, branches, 0int,
    {
        match branches {
            Nil => st,
            Cons(branch, rest) => self.branches_reads(
                body,
                *rest,
                self.stmts_reads(body, branch.body, st, fuel),
                fuel,
            ),
        }
    }

    pub open spec fn stmt_reads(
        self,
        body: ReadBody,
        stmt: HirStmt,
        st: ReadState,
        fuel: nat,
    ) -> ReadState
        decreases fuel, 0int, stmt, 0int,
    {
        match stmt.kind {
            StmtKind::Let { value, else_block, catch_pattern, .. } => {
                let valued = self.expr_reads(body, value, st, fuel);
                let otherwise = match else_block {
                    Some(block) => self.stmt_reads(body, *block, valued, fuel),
                    None => valued,
                };
                match catch_pattern {
                    Some(HirErrorHandlerPattern::Single { body: stmts }) => self.stmts_reads(
                        body,
                        stmts,
                        otherwise,
                        fuel,
                    ),
                    Some(HirErrorHandlerPattern::Multiple { branches }) => self.branches_reads(
                        body,
                        branches,
                        otherwise,
                        fuel,
                    ),
                    None => otherwise,
                }
            },
            StmtKind::Const(constant) => self.expr_reads(body, constant.value, st, fuel),
            StmtKind::Return(value, _) | StmtKind::Break(value, _) => match value {
                Some(expr) => self.expr_reads(body, *expr, st, fuel),
                None => st,
            },
            StmtKind::Expr(expr) => self.expr_reads(body, *expr, st, fuel),
            StmtKind::If { cond, then_block, else_block, .. } => {
                let taken = self.stmts_reads(
                    body,
                    then_block,
                    self.expr_reads(body, cond, st, fuel),
                    fuel,
                );
                match else_block {
                    Some(other) => self.stmt_reads(body, *other, taken, fuel),
                    None => taken,
                }
            },
            StmtKind::While { cond, body: inner } => self.stmt_reads(
                body,
                *inner,
                self.expr_reads(body, *cond, st, fuel),
                fuel,
            ),
            StmtKind::For { init, condition, increment, body: inner } => {
                let started = match init {
                    Some(stmt) => self.stmt_reads(body, *stmt, st, fuel),
                    None => st,
                };
                let tested = match condition {
                    Some(expr) => self.expr_reads(body, *expr, started, fuel),
                    None => started,
                };
                let stepped = match increment {
                    Some(expr) => self.expr_reads(body, *expr, tested, fuel),
                    None => tested,
                };
                self.stmt_reads(body, *inner, stepped, fuel)
            },
            StmtKind::Block { body: stmts, .. } => self.stmts_reads(body, stmts, st, fuel),
            StmtKind::Match { expr, arms, .. } => self.arms_reads(
                body,
                arms,
                self.expr_reads(body, *expr, st, fuel),
                fuel,
            ),
            StmtKind::UnsafeBlock { body: inner } => self.stmt_reads(body, *inner, st, fuel),
            StmtKind::Defer(inner) => self.stmt_reads(body, *inner, st, fuel),
            _ => st,
        }
    }

    /// What a function reads, given what has been found out so far. Calls are followed as deep as
    /// there are functions, so each is looked at once.
    pub open spec fn reads_of(self, func: HirFunc) -> List<ReadTemplate> {
        self.reads_found(
            func,
            self.templates.reads,
            function_count(self.context.module_functions) as nat,
        ).1
    }

    pub open spec fn after_read_templates(self, func: HirFunc) -> TypeChecker {
        TypeChecker {
            templates: Templates {
                reads: self.reads_found(
                    func,
                    self.templates.reads,
                    function_count(self.context.module_functions) as nat,
                ).0,
                ..self.templates
            },
            ..self
        }
    }
}

fn count_functions(functions: &Table<usize, Table<StrId, Rc<HirFunc>>>) -> (count: usize)
    ensures
        count == function_count(*functions),
    decreases functions,
{
    match functions {
        Nil => 0,
        Cons(entry, rest) => {
            let here: usize = entry.1.len();
            let others: usize = count_functions(rest);
            if here > usize::MAX - others {
                usize::MAX
            } else {
                here + others
            }
        },
    }
}

fn new_templates(params: &List<HirParam>) -> (templates: List<ReadTemplate>)
    ensures
        templates == blank_templates(*params),
    decreases params,
{
    match params {
        Nil => Nil,
        Cons(param, rest) => match &**param {
            HirParam::Normal { .. } => List::cons(ReadTemplate::Paths(Nil), new_templates(rest)),
            HirParam::This { .. } => new_templates(rest),
        },
    }
}

fn path_touches(projections: &List<TemplateProjection>) -> (yes: bool)
    ensures
        yes == touches(*projections),
    decreases projections,
{
    match projections {
        Nil => false,
        Cons(projection, rest) => matches!(
            **projection,
            TemplateProjection::Index(_) | TemplateProjection::Deref
        ) || path_touches(rest),
    }
}

fn any_path_touches(paths: &List<List<TemplateProjection>>) -> (yes: bool)
    ensures
        yes == any_touches(*paths),
    decreases paths,
{
    match paths {
        Nil => false,
        Cons(path, rest) => path_touches(path) || any_path_touches(rest),
    }
}

impl TypeChecker {
    pub fn read_template_touches_contents(template: &ReadTemplate) -> (yes: bool)
        ensures
            yes == touches_contents(*template),
    {
        match template {
            ReadTemplate::Opaque => true,
            ReadTemplate::Paths(paths) => any_path_touches(paths),
        }
    }

    pub fn mut_raw_ptr_cast_operand<'e>(expr: &'e HirExpr) -> (operand: Option<&'e HirExpr>)
        ensures
            operand == match mut_cast_operand(*expr) {
                Some(inner) => Some(&inner),
                None => None,
            },
    {
        match &expr.kind {
            ExprKind::Cast { expr: inner, target_type, .. } => match target_type {
                HirType::UnsafePointer { mutability_state, .. } => if *mutability_state
                    == MutabilityState::Mut {
                    Some(inner)
                } else {
                    None
                },
                HirType::SafePointer { mutability_state, .. } => if *mutability_state
                    == MutabilityState::Mut {
                    Some(inner)
                } else {
                    None
                },
                _ => None,
            },
            _ => None,
        }
    }

    pub fn record_param_read(
        base: TemplateBase,
        projections: List<TemplateProjection>,
        templates: &mut List<ReadTemplate>,
    )
        ensures
            *final(templates) == read_recorded(base, projections, *old(templates)),
    {
        match base {
            TemplateBase::This => {},
            TemplateBase::Param(i) => {
                let next: Option<ReadTemplate> = match templates.get(i) {
                    None => None,
                    Some(template) => if projections.is_empty() {
                        Some(ReadTemplate::Opaque)
                    } else {
                        match template {
                            ReadTemplate::Opaque => None,
                            ReadTemplate::Paths(paths) => Some(
                                ReadTemplate::Paths(paths.push(projections)),
                            ),
                        }
                    },
                };
                match next {
                    None => {},
                    Some(template) => {
                        *templates = templates.set(i, template);
                    },
                }
            },
        }
    }

    pub fn find_aliased_module(&self, module: usize, path: &List<StrId>) -> (found: Option<usize>)
        ensures
            found == self.aliased_module(module, *path),
    {
        match path {
            Cons(only, rest) => if rest.is_empty() {
                match find(&self.program.imports_by_module, &module) {
                    Some(imports) => match find(&imports.named, &**only) {
                        Some(found) => Some(*found),
                        None => match find(&imports.module_aliases, &**only) {
                            Some(found) => Some(*found),
                            None => None,
                        },
                    },
                    None => None,
                }
            } else {
                None
            },
            Nil => None,
        }
    }

    pub fn resolve_callee_for_template(&self, module: usize, callee: &HirExpr) -> (func: Option<
        Rc<HirFunc>,
    >)
        ensures
            func == self.callee_in(module, *callee),
    {
        match &callee.kind {
            ExprKind::Ident(name, _) => self.context.get_module_function(module, *name),
            ExprKind::ModuleAccess(access) => {
                let target: Option<usize> = match self.find_aliased_module(module, &access.path) {
                    Some(aliased) => Some(aliased),
                    None => self.program.graph.resolve_module_path(&access.path),
                };
                match target {
                    Some(found) => self.context.get_module_function(found, access.member),
                    None => None,
                }
            },
            _ => None,
        }
    }

    fn callee_may_read_arg(
        &self,
        module: usize,
        callee: &HirExpr,
        index: usize,
        known: &mut Table<StrId, List<ReadTemplate>>,
        fuel: usize,
    ) -> (reads: bool)
        ensures
            (*final(known), reads) == self.may_read_arg(
                module,
                *callee,
                index,
                *old(known),
                fuel as nat,
            ),
        decreases fuel, 2int, callee, 0int,
    {
        match self.resolve_callee_for_template(module, callee) {
            None => true,
            Some(func) => match &func.params {
                None => true,
                Some(params) => if index >= params.len() || has_this_param(params) {
                    true
                } else if func.body.is_none() {
                    false
                } else {
                    let templates = self.build_read_templates(&func, known, fuel);
                    match templates.get(index) {
                        Some(template) => Self::read_template_touches_contents(template),
                        None => true,
                    }
                },
            },
        }
    }

    pub fn build_read_templates(
        &self,
        func: &HirFunc,
        known: &mut Table<StrId, List<ReadTemplate>>,
        fuel: usize,
    ) -> (templates: List<ReadTemplate>)
        ensures
            (*final(known), templates) == self.reads_found(*func, *old(known), fuel as nat),
        decreases fuel, 1int, func, 0int,
    {
        match find(known, &func.name) {
            Some(templates) => {
                return templates.dup();
            },
            None => {},
        }
        let begun = update(known, func.name, Nil);
        let done = match &func.params {
            None => ReadState { known: begun, templates: Nil },
            Some(params) => {
                let mut st = ReadState { known: begun, templates: new_templates(params) };
                match &func.body {
                    None => {},
                    Some(body) => {
                        let looked_at = ReadBody {
                            module: func.declaring_module_idx,
                            params: index_params(params, 0, Nil),
                            has_this: has_this_param(params),
                        };
                        self.collect_param_reads_stmt(&looked_at, body, &mut st, fuel);
                    },
                }
                st
            },
        };
        *known = update(&done.known, func.name, done.templates.dup());
        done.templates
    }

    fn collect_param_reads_write_target(&self, body: &ReadBody, target: &HirExpr, st: &mut ReadState, fuel: usize)
        ensures
            *final(st) == self.target_reads(*body, *target, *old(st), fuel as nat),
        decreases fuel, 0int, target, 1int,
    {
        match Self::expr_to_template(target, &body.params, body.has_this) {
            Some((base, projections)) => {
                let way = projections.init();
                if !way.is_empty() {
                    Self::record_param_read(base, way, &mut st.templates);
                }
            },
            None => self.collect_param_reads_expr(body, target, st, fuel),
        }
    }

    fn collect_param_reads_expr(&self, body: &ReadBody, expr: &HirExpr, st: &mut ReadState, fuel: usize)
        ensures
            *final(st) == self.expr_reads(*body, *expr, *old(st), fuel as nat),
        decreases fuel, 0int, expr, 0int,
    {
        match Self::expr_to_template(expr, &body.params, body.has_this) {
            Some((base, projections)) => {
                Self::record_param_read(base, projections, &mut st.templates);
                return;
            },
            None => {},
        }
        match &expr.kind {
            ExprKind::Match { expr: scrutinee, arms, .. } => {
                self.collect_param_reads_expr(body, scrutinee, st, fuel);
                self.collect_arms(body, arms, st, fuel);
            },
            ExprKind::Block { body: stmts, .. } => self.collect_stmts(body, stmts, st, fuel),
            ExprKind::Range { start, end, .. } => {
                self.collect_param_reads_expr(body, start, st, fuel);
                self.collect_param_reads_expr(body, end, st, fuel);
            },
            ExprKind::Slice { object, start, end, .. } => {
                self.collect_param_reads_expr(body, object, st, fuel);
                self.collect_param_reads_expr(body, start, st, fuel);
                self.collect_param_reads_expr(body, end, st, fuel);
            },
            ExprKind::Tuple(exprs, _) => self.collect_exprs(body, exprs, st, fuel),
            ExprKind::ArrayLiteral { elements, .. } => self.collect_exprs(body, elements, st, fuel),
            ExprKind::Binary { left, right, .. } => {
                self.collect_param_reads_expr(body, left, st, fuel);
                self.collect_param_reads_expr(body, right, st, fuel);
            },
            ExprKind::Comparison { left, right, .. } => {
                self.collect_param_reads_expr(body, left, st, fuel);
                self.collect_param_reads_expr(body, right, st, fuel);
            },
            ExprKind::Call { callee, args, .. } => {
                self.collect_param_reads_expr(body, callee, st, fuel);
                self.collect_args(body, callee, args, 0, st, fuel);
            },
            ExprKind::InterfaceCall { callee, args, .. } => {
                self.collect_param_reads_expr(body, callee, st, fuel);
                self.collect_args(body, callee, args, 0, st, fuel);
            },
            ExprKind::FieldAccess { object, .. } => self.collect_param_reads_expr(body, object, st, fuel),
            ExprKind::Get { object, .. } => self.collect_param_reads_expr(body, object, st, fuel),
            ExprKind::Assignment { target, op, value, .. } => {
                if *op == AssignmentOperator::Assign {
                    self.collect_param_reads_write_target(body, target, st, fuel);
                } else {
                    self.collect_param_reads_expr(body, target, st, fuel);
                }
                self.collect_param_reads_expr(body, value, st, fuel);
            },
            ExprKind::StructInit { args, .. } => self.collect_inits(body, args, st, fuel),
            ExprKind::EnumInit { args, .. } => self.collect_exprs(body, args, st, fuel),
            ExprKind::ExprList { list, .. } => self.collect_exprs(body, list, st, fuel),
            ExprKind::Deref { expr: inner, .. } => self.collect_param_reads_expr(body, inner, st, fuel),
            ExprKind::Cast { expr: inner, .. } => self.collect_param_reads_expr(body, inner, st, fuel),
            ExprKind::Ref { expr: inner, .. } => self.collect_param_reads_expr(body, inner, st, fuel),
            ExprKind::Index { object, index, .. } => {
                self.collect_param_reads_expr(body, object, st, fuel);
                self.collect_param_reads_expr(body, index, st, fuel);
            },
            ExprKind::InterpolatedString(parts) => self.collect_parts(body, parts, st, fuel),
            ExprKind::If { if_stmt, .. } => self.collect_param_reads_stmt(body, if_stmt, st, fuel),
            ExprKind::Intrinsic { args, .. } => self.collect_exprs(body, args, st, fuel),
            _ => {},
        }
    }

    fn collect_exprs(&self, body: &ReadBody, exprs: &List<HirExpr>, st: &mut ReadState, fuel: usize)
        ensures
            *final(st) == self.exprs_reads(*body, *exprs, *old(st), fuel as nat),
        decreases fuel, 0int, exprs, 0int,
    {
        match exprs {
            Nil => {},
            Cons(expr, rest) => {
                self.collect_param_reads_expr(body, expr, st, fuel);
                self.collect_exprs(body, rest, st, fuel);
            },
        }
    }

    fn collect_args(
        &self,
        body: &ReadBody,
        callee: &HirExpr,
        args: &List<HirExpr>,
        index: usize,
        st: &mut ReadState,
        fuel: usize,
    )
        ensures
            *final(st) == self.args_reads(*body, *callee, *args, index, *old(st), fuel as nat),
        decreases fuel, 0int, args, 0int,
    {
        match args {
            Nil => {},
            Cons(arg, rest) => {
                match Self::mut_raw_ptr_cast_operand(arg) {
                    None => self.collect_param_reads_expr(body, arg, st, fuel),
                    Some(inner) => {
                        let reads: bool = if fuel == 0 {
                            true
                        } else {
                            self.callee_may_read_arg(
                                body.module,
                                callee,
                                index,
                                &mut st.known,
                                fuel - 1,
                            )
                        };
                        if reads {
                            self.collect_param_reads_expr(body, arg, st, fuel);
                        } else {
                            self.collect_param_reads_write_target(body, inner, st, fuel);
                        }
                    },
                }
                self.collect_args(body, callee, rest, next_usize(index), st, fuel);
            },
        }
    }

    fn collect_inits(
        &self,
        body: &ReadBody,
        inits: &List<HirFieldInit>,
        st: &mut ReadState,
        fuel: usize,
    )
        ensures
            *final(st) == self.inits_reads(*body, *inits, *old(st), fuel as nat),
        decreases fuel, 0int, inits, 0int,
    {
        match inits {
            Nil => {},
            Cons(init, rest) => {
                self.collect_param_reads_expr(body, &init.value, st, fuel);
                self.collect_inits(body, rest, st, fuel);
            },
        }
    }

    fn collect_parts(
        &self,
        body: &ReadBody,
        parts: &List<InterpolationPart>,
        st: &mut ReadState,
        fuel: usize,
    )
        ensures
            *final(st) == self.parts_reads(*body, *parts, *old(st), fuel as nat),
        decreases fuel, 0int, parts, 0int,
    {
        match parts {
            Nil => {},
            Cons(part, rest) => {
                match &**part {
                    InterpolationPart::Expr(expr) => self.collect_param_reads_expr(body, expr, st, fuel),
                    InterpolationPart::Text(_) => {},
                }
                self.collect_parts(body, rest, st, fuel);
            },
        }
    }

    fn collect_arms(
        &self,
        body: &ReadBody,
        arms: &List<HirMatchArm>,
        st: &mut ReadState,
        fuel: usize,
    )
        ensures
            *final(st) == self.arms_reads(*body, *arms, *old(st), fuel as nat),
        decreases fuel, 0int, arms, 0int,
    {
        match arms {
            Nil => {},
            Cons(arm, rest) => {
                match &arm.guard {
                    Some(guard) => self.collect_param_reads_expr(body, guard, st, fuel),
                    None => {},
                }
                self.collect_param_reads_stmt(body, &arm.body, st, fuel);
                self.collect_arms(body, rest, st, fuel);
            },
        }
    }

    fn collect_stmts(&self, body: &ReadBody, stmts: &List<HirStmt>, st: &mut ReadState, fuel: usize)
        ensures
            *final(st) == self.stmts_reads(*body, *stmts, *old(st), fuel as nat),
        decreases fuel, 0int, stmts, 0int,
    {
        match stmts {
            Nil => {},
            Cons(stmt, rest) => {
                self.collect_param_reads_stmt(body, stmt, st, fuel);
                self.collect_stmts(body, rest, st, fuel);
            },
        }
    }

    fn collect_branches(
        &self,
        body: &ReadBody,
        branches: &List<HirErrorBranch>,
        st: &mut ReadState,
        fuel: usize,
    )
        ensures
            *final(st) == self.branches_reads(*body, *branches, *old(st), fuel as nat),
        decreases fuel, 0int, branches, 0int,
    {
        match branches {
            Nil => {},
            Cons(branch, rest) => {
                self.collect_stmts(body, &branch.body, st, fuel);
                self.collect_branches(body, rest, st, fuel);
            },
        }
    }

    fn collect_param_reads_stmt(&self, body: &ReadBody, stmt: &HirStmt, st: &mut ReadState, fuel: usize)
        ensures
            *final(st) == self.stmt_reads(*body, *stmt, *old(st), fuel as nat),
        decreases fuel, 0int, stmt, 0int,
    {
        match &stmt.kind {
            StmtKind::Let { value, else_block, catch_pattern, .. } => {
                self.collect_param_reads_expr(body, value, st, fuel);
                match else_block {
                    Some(block) => self.collect_param_reads_stmt(body, block, st, fuel),
                    None => {},
                }
                match catch_pattern {
                    Some(HirErrorHandlerPattern::Single { body: stmts }) => self.collect_stmts(
                        body,
                        stmts,
                        st,
                        fuel,
                    ),
                    Some(HirErrorHandlerPattern::Multiple { branches }) => self.collect_branches(
                        body,
                        branches,
                        st,
                        fuel,
                    ),
                    None => {},
                }
            },
            StmtKind::Const(constant) => self.collect_param_reads_expr(body, &constant.value, st, fuel),
            StmtKind::Return(value, _) | StmtKind::Break(value, _) => match value {
                Some(expr) => self.collect_param_reads_expr(body, expr, st, fuel),
                None => {},
            },
            StmtKind::Expr(expr) => self.collect_param_reads_expr(body, expr, st, fuel),
            StmtKind::If { cond, then_block, else_block, .. } => {
                self.collect_param_reads_expr(body, cond, st, fuel);
                self.collect_stmts(body, then_block, st, fuel);
                match else_block {
                    Some(other) => self.collect_param_reads_stmt(body, other, st, fuel),
                    None => {},
                }
            },
            StmtKind::While { cond, body: inner } => {
                self.collect_param_reads_expr(body, cond, st, fuel);
                self.collect_param_reads_stmt(body, inner, st, fuel);
            },
            StmtKind::For { init, condition, increment, body: inner } => {
                match init {
                    Some(stmt) => self.collect_param_reads_stmt(body, stmt, st, fuel),
                    None => {},
                }
                match condition {
                    Some(expr) => self.collect_param_reads_expr(body, expr, st, fuel),
                    None => {},
                }
                match increment {
                    Some(expr) => self.collect_param_reads_expr(body, expr, st, fuel),
                    None => {},
                }
                self.collect_param_reads_stmt(body, inner, st, fuel);
            },
            StmtKind::Block { body: stmts, .. } => self.collect_stmts(body, stmts, st, fuel),
            StmtKind::Match { expr, arms, .. } => {
                self.collect_param_reads_expr(body, expr, st, fuel);
                self.collect_arms(body, arms, st, fuel);
            },
            StmtKind::UnsafeBlock { body: inner } => self.collect_param_reads_stmt(body, inner, st, fuel),
            StmtKind::Defer(inner) => self.collect_param_reads_stmt(body, inner, st, fuel),
            _ => {},
        }
    }

    pub fn analyze_read_templates(&mut self, func: &HirFunc) -> (templates: List<ReadTemplate>)
        ensures
            *final(self) == old(self).after_read_templates(*func),
            templates == old(self).reads_of(*func),
    {
        let fuel: usize = count_functions(&self.context.module_functions);
        let mut known = self.templates.reads.dup();
        let templates = self.build_read_templates(func, &mut known, fuel);
        self.templates.reads = known;
        templates
    }
}

} // verus!
