//! What machine code a function is compiled to.
//!
//! A function becomes a list of steps for the builder of machine code. Every step that computes a
//! value is numbered, and later steps name the value by that number.

use vstd::prelude::*;
use vstd::string::*;

use crate::ast::{Expr, FuncDecl, Op, Stmt};
use crate::list::{Cons, List, Nil};
use crate::type_checker::{after_usize, next_usize};

verus! {

/// A step of the builder. All numbers have sixty-four bits.
#[derive(Clone, Copy, Debug, PartialEq, Eq, Structural)]
pub enum Step {
    /// Computes a constant.
    Const(i64),
    /// Computes the value of a variable.
    UseVar(usize),
    Add(usize, usize),
    Sub(usize, usize),
    Mul(usize, usize),
    Div(usize, usize),
    DeclareVar(usize),
    /// Gives a variable a value.
    DefineVar(usize, usize),
    /// Returns a value, or nothing.
    Return(Option<usize>),
}

#[derive(Debug, PartialEq, Eq)]
pub enum CodegenError {
    UndefinedVariable(String),
    UnsupportedOp(String),
    UnsupportedExpression,
}

/// A variable of the program and its number.
#[derive(Debug, PartialEq, Eq)]
pub struct Binding {
    pub name: String,
    pub var: usize,
}

/// The number of a variable.
pub open spec fn var_of(variables: List<Binding>, name: Seq<char>) -> Option<usize>
    decreases variables,
{
    match variables {
        Nil => None,
        Cons(binding, rest) => if binding.name@ == name {
            Some(binding.var)
        } else {
            var_of(*rest, name)
        },
    }
}

fn find_var(variables: &List<Binding>, name: &String) -> (var: Option<usize>)
    ensures
        var == var_of(*variables, name@),
    decreases variables,
{
    match variables {
        Nil => None,
        Cons(binding, rest) => if binding.name == *name {
            Some(binding.var)
        } else {
            find_var(rest, name)
        },
    }
}

/// The variables with one more, in the place of an earlier one of that name.
pub open spec fn bound(variables: List<Binding>, name: String, var: usize) -> List<Binding>
    decreases variables,
{
    match variables {
        Nil => List::one_of(Binding { name, var }),
        Cons(binding, rest) => if binding.name@ == name@ {
            List::cons_of(Binding { name, var }, *rest)
        } else {
            List::cons_of(*binding, bound(*rest, name, var))
        },
    }
}

fn bind(variables: &List<Binding>, name: &String, var: usize) -> (result: List<Binding>)
    ensures
        result == bound(*variables, *name, var),
    decreases variables,
{
    match variables {
        Nil => List::one(Binding { name: name.clone(), var }),
        Cons(binding, rest) => if binding.name == *name {
            List::cons(Binding { name: name.clone(), var }, rest.dup())
        } else {
            List::cons(
                Binding { name: binding.name.clone(), var: binding.var },
                bind(rest, name, var),
            )
        },
    }
}

/// A name that is bound has the number it was bound to, and no other name has another number than
/// before.
pub proof fn binding_is_found(variables: List<Binding>, name: String, var: usize, other: Seq<char>)
    ensures
        var_of(bound(variables, name, var), name@) == Some(var),
        other != name@ ==> var_of(bound(variables, name, var), other) == var_of(variables, other),
    decreases variables,
{
    match variables {
        Nil => {
            reveal_with_fuel(var_of, 2);
        },
        Cons(_, _) => {
            binding_is_found(variables.rest(), name, var, other);
        },
    }
}

/// How far a function is compiled: the steps so far, the last one first, how many values they
/// compute, and the variables.
#[derive(Debug, PartialEq, Eq)]
pub struct Plan {
    pub steps: List<Step>,
    pub values: usize,
    pub variables: List<Binding>,
}

impl Plan {
    /// The plan with one more step that computes no value.
    pub open spec fn then_do(self, step: Step) -> Plan {
        Plan { steps: List::cons_of(step, self.steps), ..self }
    }

    /// The plan with one more step that computes a value.
    pub open spec fn then_compute(self, step: Step) -> Plan {
        Plan {
            steps: List::cons_of(step, self.steps),
            values: after_usize(self.values),
            variables: self.variables,
        }
    }

    fn perform(&mut self, step: Step)
        ensures
            *final(self) == old(self).then_do(step),
    {
        self.steps = List::cons(step, self.steps.dup());
    }

    fn compute(&mut self, step: Step) -> (value: usize)
        ensures
            *final(self) == old(self).then_compute(step),
            value == old(self).values,
    {
        let value: usize = self.values;
        self.steps = List::cons(step, self.steps.dup());
        self.values = next_usize(value);
        value
    }

    /// The plan with the steps of an expression, and the number of its value.
    pub open spec fn with_expr(self, expr: Expr) -> (Plan, Result<usize, CodegenError>)
        decreases expr,
    {
        match expr {
            Expr::Number(number) => (self.then_compute(Step::Const(number)), Ok(self.values)),
            Expr::Ident(name) => match var_of(self.variables, name@) {
                Some(var) => (self.then_compute(Step::UseVar(var)), Ok(self.values)),
                None => (self, Err(CodegenError::UndefinedVariable(name))),
            },
            Expr::Binary { left, op, right } => {
                let (first, l) = self.with_expr(*left);
                match l {
                    Err(error) => (first, Err(error)),
                    Ok(l) => {
                        let (second, r) = first.with_expr(*right);
                        match r {
                            Err(error) => (second, Err(error)),
                            Ok(r) => match op {
                                Op::Add => (second.then_compute(Step::Add(l, r)), Ok(second.values)),
                                Op::Sub => (second.then_compute(Step::Sub(l, r)), Ok(second.values)),
                                Op::Mul => (second.then_compute(Step::Mul(l, r)), Ok(second.values)),
                                Op::Div => (second.then_compute(Step::Div(l, r)), Ok(second.values)),
                                Op::Other(symbol) => (
                                    second,
                                    Err(CodegenError::UnsupportedOp(symbol)),
                                ),
                            },
                        }
                    },
                }
            },
            _ => (self, Err(CodegenError::UnsupportedExpression)),
        }
    }

    pub fn compile_expr(&mut self, expr: &Expr) -> (value: Result<usize, CodegenError>)
        ensures
            (*final(self), value) == old(self).with_expr(*expr),
        decreases expr,
    {
        match expr {
            Expr::Number(number) => Ok(self.compute(Step::Const(*number))),
            Expr::Ident(name) => match find_var(&self.variables, name) {
                Some(var) => Ok(self.compute(Step::UseVar(var))),
                None => Err(CodegenError::UndefinedVariable(name.clone())),
            },
            Expr::Binary { left, op, right } => {
                let l: usize = match self.compile_expr(left) {
                    Ok(value) => value,
                    Err(error) => {
                        return Err(error);
                    },
                };
                let r: usize = match self.compile_expr(right) {
                    Ok(value) => value,
                    Err(error) => {
                        return Err(error);
                    },
                };
                match op {
                    Op::Add => Ok(self.compute(Step::Add(l, r))),
                    Op::Sub => Ok(self.compute(Step::Sub(l, r))),
                    Op::Mul => Ok(self.compute(Step::Mul(l, r))),
                    Op::Div => Ok(self.compute(Step::Div(l, r))),
                    Op::Other(symbol) => Err(CodegenError::UnsupportedOp(symbol.clone())),
                }
            },
            _ => Err(CodegenError::UnsupportedExpression),
        }
    }

    /// The plan with the steps of a statement, and why the statement cannot be compiled. Nothing is
    /// said of statements that are not compiled at all.
    pub open spec fn with_stmt(self, stmt: Stmt) -> (Plan, Option<CodegenError>) {
        match stmt {
            Stmt::ExprStmt(inner) => {
                let (plan, value) = self.with_expr(*inner.expr);
                match value {
                    Ok(_) => (plan, None),
                    Err(error) => (plan, Some(error)),
                }
            },
            Stmt::Let(inner) => {
                let (plan, value) = self.with_expr(*inner.value);
                match value {
                    Err(error) => (plan, Some(error)),
                    Ok(value) => {
                        let var = plan.variables.count();
                        let declared = plan.then_do(Step::DeclareVar(var)).then_do(
                            Step::DefineVar(var, value),
                        );
                        (
                            Plan {
                                variables: bound(plan.variables, inner.ident, var),
                                ..declared
                            },
                            None,
                        )
                    },
                }
            },
            Stmt::Return(inner) => match inner.value {
                Some(expr) => {
                    let (plan, value) = self.with_expr(*expr);
                    match value {
                        Ok(value) => (plan.then_do(Step::Return(Some(value))), None),
                        Err(error) => (plan, Some(error)),
                    }
                },
                None => (self.then_do(Step::Return(None)), None),
            },
            _ => (self, None),
        }
    }

    pub fn compile_stmt(&mut self, stmt: &Stmt) -> (error: Option<CodegenError>)
        requires
            compiled(*stmt),
        ensures
            (*final(self), error) == old(self).with_stmt(*stmt),
    {
        match stmt {
            Stmt::ExprStmt(inner) => match self.compile_expr(&inner.expr) {
                Ok(_) => None,
                Err(error) => Some(error),
            },
            Stmt::Let(inner) => match self.compile_expr(&inner.value) {
                Err(error) => Some(error),
                Ok(value) => {
                    let var: usize = self.variables.len();
                    self.perform(Step::DeclareVar(var));
                    self.perform(Step::DefineVar(var, value));
                    self.variables = bind(&self.variables, &inner.ident, var);
                    None
                },
            },
            Stmt::Return(inner) => match &inner.value {
                Some(expr) => match self.compile_expr(expr) {
                    Ok(value) => {
                        self.perform(Step::Return(Some(value)));
                        None
                    },
                    Err(error) => Some(error),
                },
                None => {
                    self.perform(Step::Return(None));
                    None
                },
            },
            _ => None,
        }
    }

    /// The plan with the steps of statements, up to the first that cannot be compiled.
    pub open spec fn with_stmts(self, stmts: List<Stmt>) -> (Plan, Option<CodegenError>)
        decreases stmts,
    {
        match stmts {
            Nil => (self, None),
            Cons(stmt, rest) => {
                let (plan, error) = self.with_stmt(*stmt);
                match error {
                    Some(error) => (plan, Some(error)),
                    None => plan.with_stmts(*rest),
                }
            },
        }
    }

    /// Whether all statements that are reached are of a kind that is compiled.
    pub open spec fn reaches_compiled(self, stmts: List<Stmt>) -> bool
        decreases stmts,
    {
        match stmts {
            Nil => true,
            Cons(stmt, rest) => compiled(*stmt) && (self.with_stmt(*stmt).1 is Some
                || self.with_stmt(*stmt).0.reaches_compiled(*rest)),
        }
    }

    fn compile_stmts(&mut self, stmts: &List<Stmt>) -> (error: Option<CodegenError>)
        requires
            old(self).reaches_compiled(*stmts),
        ensures
            (*final(self), error) == old(self).with_stmts(*stmts),
        decreases stmts,
    {
        match stmts {
            Nil => None,
            Cons(stmt, rest) => match self.compile_stmt(stmt) {
                Some(error) => Some(error),
                None => self.compile_stmts(rest),
            },
        }
    }
}

/// Whether a step names only values with numbers less than a bound.
pub open spec fn names_below(step: Step, bound: int) -> bool {
    match step {
        Step::Add(l, r) => l < bound && r < bound,
        Step::Sub(l, r) => l < bound && r < bound,
        Step::Mul(l, r) => l < bound && r < bound,
        Step::Div(l, r) => l < bound && r < bound,
        Step::DefineVar(_, value) => value < bound,
        Step::Return(Some(value)) => value < bound,
        _ => true,
    }
}

pub open spec fn computes(step: Step) -> bool {
    match step {
        Step::DeclareVar(_) => false,
        Step::DefineVar(..) => false,
        Step::Return(_) => false,
        _ => true,
    }
}

/// How many of some steps compute a value.
pub open spec fn value_count(steps: List<Step>) -> nat
    decreases steps,
{
    match steps {
        Nil => 0,
        Cons(step, earlier) => value_count(*earlier) + if computes(*step) {
            1nat
        } else {
            0
        },
    }
}

/// Whether every step names only values that steps before it compute. The last step comes first.
pub open spec fn in_sequence(steps: List<Step>) -> bool
    decreases steps,
{
    match steps {
        Nil => true,
        Cons(step, earlier) => names_below(*step, value_count(*earlier) as int) && in_sequence(
            *earlier,
        ),
    }
}

/// A plan whose steps are in sequence and whose values are counted.
pub open spec fn sound_plan(plan: Plan) -> bool {
    in_sequence(plan.steps) && plan.values == value_count(plan.steps)
}

/// An expression adds steps that name earlier values only, and its own value is one of them.
pub proof fn expr_stays_in_sequence(plan: Plan, expr: Expr)
    requires
        sound_plan(plan),
        value_count(plan.with_expr(expr).0.steps) < usize::MAX,
    ensures
        sound_plan(plan.with_expr(expr).0),
        value_count(plan.steps) <= value_count(plan.with_expr(expr).0.steps),
        match plan.with_expr(expr).1 {
            Ok(value) => value < value_count(plan.with_expr(expr).0.steps),
            Err(_) => true,
        },
    decreases expr,
{
    expr_adds_values(plan, expr);
    match expr {
        Expr::Binary { .. } => {
            let left = left_of(expr);
            let right = right_of(expr);
            let (first, l) = plan.with_expr(left);
            expr_adds_values(plan, left);
            if l is Ok {
                let (second, r) = first.with_expr(right);
                expr_adds_values(first, right);
                expr_stays_in_sequence(plan, left);
                expr_stays_in_sequence(first, right);
            } else {
                expr_stays_in_sequence(plan, left);
            }
        },
        _ => {},
    }
}

pub open spec fn left_of(expr: Expr) -> Expr {
    match expr {
        Expr::Binary { left, .. } => *left,
        _ => expr,
    }
}

pub open spec fn right_of(expr: Expr) -> Expr {
    match expr {
        Expr::Binary { right, .. } => *right,
        _ => expr,
    }
}

/// An expression takes no value away.
pub proof fn expr_adds_values(plan: Plan, expr: Expr)
    ensures
        value_count(plan.steps) <= value_count(plan.with_expr(expr).0.steps),
    decreases expr,
{
    match expr {
        Expr::Binary { .. } => {
            expr_adds_values(plan, left_of(expr));
            expr_adds_values(plan.with_expr(left_of(expr)).0, right_of(expr));
        },
        _ => {},
    }
}

/// A function that is compiled names in every step only values that were computed before.
pub proof fn stmts_stay_in_sequence(plan: Plan, stmts: List<Stmt>)
    requires
        sound_plan(plan),
        value_count(plan.with_stmts(stmts).0.steps) < usize::MAX,
    ensures
        sound_plan(plan.with_stmts(stmts).0),
    decreases stmts,
{
    match stmts {
        Nil => {},
        Cons(_, _) => {
            let stmt = stmts.head();
            let (next, error) = plan.with_stmt(stmt);
            if error is None {
                stmts_add_values(next, stmts.rest());
                stmt_stays_in_sequence(plan, stmt);
                stmts_stay_in_sequence(next, stmts.rest());
            } else {
                stmt_stays_in_sequence(plan, stmt);
            }
        },
    }
}

/// The expression of a statement.
pub open spec fn expr_of_stmt(stmt: Stmt) -> Option<Expr> {
    match stmt {
        Stmt::ExprStmt(inner) => Some(*inner.expr),
        Stmt::Let(inner) => Some(*inner.value),
        Stmt::Return(inner) => match inner.value {
            Some(expr) => Some(*expr),
            None => None,
        },
        _ => None,
    }
}

proof fn stmt_adds_values(plan: Plan, stmt: Stmt)
    ensures
        value_count(plan.steps) <= value_count(plan.with_stmt(stmt).0.steps),
        match expr_of_stmt(stmt) {
            Some(expr) => value_count(plan.with_expr(expr).0.steps) == value_count(
                plan.with_stmt(stmt).0.steps,
            ),
            None => true,
        },
{
    reveal_with_fuel(value_count, 3);
    match expr_of_stmt(stmt) {
        Some(expr) => {
            expr_adds_values(plan, expr);
        },
        None => {},
    }
}

proof fn stmts_add_values(plan: Plan, stmts: List<Stmt>)
    ensures
        value_count(plan.steps) <= value_count(plan.with_stmts(stmts).0.steps),
    decreases stmts,
{
    match stmts {
        Nil => {},
        Cons(_, _) => {
            stmt_adds_values(plan, stmts.head());
            stmts_add_values(plan.with_stmt(stmts.head()).0, stmts.rest());
        },
    }
}

proof fn stmt_stays_in_sequence(plan: Plan, stmt: Stmt)
    requires
        sound_plan(plan),
        value_count(plan.with_stmt(stmt).0.steps) < usize::MAX,
    ensures
        sound_plan(plan.with_stmt(stmt).0),
{
    reveal_with_fuel(value_count, 3);
    reveal_with_fuel(in_sequence, 3);
    stmt_adds_values(plan, stmt);
    match expr_of_stmt(stmt) {
        Some(expr) => {
            expr_stays_in_sequence(plan, expr);
        },
        None => {},
    }
}

/// Whether a statement is of a kind that is compiled: an expression, a `let` or a `return`.
pub open spec fn compiled(stmt: Stmt) -> bool {
    stmt is ExprStmt || stmt is Let || stmt is Return
}

/// Compiles functions, which share their variables.
#[derive(Debug, PartialEq, Eq)]
pub struct Codegen {
    pub variables: List<Binding>,
}

impl Codegen {
    /// Where the compilation of a function starts.
    pub open spec fn start(self) -> Plan {
        Plan { steps: Nil, values: 0, variables: self.variables }
    }

    pub fn new() -> (codegen: Codegen)
        ensures
            codegen.variables == List::<Binding>::Nil,
    {
        Codegen { variables: Nil }
    }

    /// The steps of a function: those of its statements, and a return of nothing.
    pub fn compile_func(&mut self, func: &FuncDecl) -> (steps: Result<List<Step>, CodegenError>)
        requires
            old(self).start().reaches_compiled(func.body.block),
        ensures
            ({
                let (plan, error) = old(self).start().with_stmts(func.body.block);
                &&& final(self).variables == plan.variables
                &&& steps == match error {
                    Some(error) => Err(error),
                    None => Ok(plan.then_do(Step::Return(None)).steps.reversed_onto(Nil)),
                }
            }),
    {
        let mut plan = Plan { steps: Nil, values: 0, variables: self.variables.dup() };
        let error = plan.compile_stmts(&func.body.block);
        self.variables = plan.variables.dup();
        match error {
            Some(error) => Err(error),
            None => {
                plan.perform(Step::Return(None));
                Ok(plan.steps.reverse())
            },
        }
    }
}

} // verus!
