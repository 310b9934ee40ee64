//! That the steps of a plan compute what the program says.

use vstd::prelude::*;

use crate::ast::{Expr, Op, Stmt};
use crate::codegen::{
    computes, expr_of_stmt, expr_stays_in_sequence, left_of, right_of, sound_plan, value_count,
    var_of, Plan, Step,
};
use crate::list::{Cons, List, Nil};

verus! {

/// The value of an expression, given those of the variables.
pub open spec fn value_of(expr: Expr, names: spec_fn(Seq<char>) -> int) -> int
    decreases expr,
{
    match expr {
        Expr::Number(number) => number as int,
        Expr::Ident(name) => names(name@),
        Expr::Binary { left, op, right } => match op {
            Op::Add => value_of(*left, names) + value_of(*right, names),
            Op::Sub => value_of(*left, names) - value_of(*right, names),
            Op::Mul => value_of(*left, names) * value_of(*right, names),
            _ => value_of(*left, names) / value_of(*right, names),
        },
        _ => 0,
    }
}

/// The values that steps compute, in order. The latest step comes first.
pub open spec fn run(steps: List<Step>, vars: spec_fn(usize) -> int) -> Seq<int>
    decreases steps,
{
    match steps {
        Nil => Seq::empty(),
        Cons(step, earlier) => {
            let values = run(*earlier, vars);
            match *step {
                Step::Const(number) => values.push(number as int),
                Step::UseVar(var) => values.push(vars(var)),
                Step::Add(l, r) => values.push(values[l as int] + values[r as int]),
                Step::Sub(l, r) => values.push(values[l as int] - values[r as int]),
                Step::Mul(l, r) => values.push(values[l as int] * values[r as int]),
                Step::Div(l, r) => values.push(values[l as int] / values[r as int]),
                _ => values,
            }
        },
    }
}

/// Whether the numbers of the variables lead to the values of their names.
pub open spec fn agree(
    plan: Plan,
    names: spec_fn(Seq<char>) -> int,
    vars: spec_fn(usize) -> int,
) -> bool {
    forall|name: Seq<char>| #[trigger]
        var_of(plan.variables, name) matches Some(var) ==> vars(var) == names(name)
}

proof fn each_computing_step_gives_a_value(steps: List<Step>, vars: spec_fn(usize) -> int)
    ensures
        run(steps, vars).len() == value_count(steps),
    decreases steps,
{
    match steps {
        Nil => {},
        Cons(_, _) => each_computing_step_gives_a_value(steps.rest(), vars),
    }
}

proof fn expressions_keep_the_variables(plan: Plan, expr: Expr)
    ensures
        plan.with_expr(expr).0.variables == plan.variables,
    decreases expr,
{
    if let Expr::Binary { .. } = expr {
        let (left, right) = (left_of(expr), right_of(expr));
        expressions_keep_the_variables(plan, left);
        expressions_keep_the_variables(plan.with_expr(left).0, right);
    }
}

/// The steps that are planned for an expression compute its value, and change no value that was
/// computed before.
pub proof fn plans_compute_the_value(
    plan: Plan,
    expr: Expr,
    names: spec_fn(Seq<char>) -> int,
    vars: spec_fn(usize) -> int,
)
    requires
        sound_plan(plan),
        agree(plan, names, vars),
        value_count(plan.with_expr(expr).0.steps) < usize::MAX,
    ensures
        run(plan.steps, vars).is_prefix_of(run(plan.with_expr(expr).0.steps, vars)),
        plan.with_expr(expr).1 matches Ok(value) ==> {
            &&& value < run(plan.with_expr(expr).0.steps, vars).len()
            &&& run(plan.with_expr(expr).0.steps, vars)[value as int] == value_of(expr, names)
        },
    decreases expr,
{
    expr_stays_in_sequence(plan, expr);
    each_computing_step_gives_a_value(plan.steps, vars);
    each_computing_step_gives_a_value(plan.with_expr(expr).0.steps, vars);
    match expr {
        Expr::Ident(name) => {
            assert(var_of(plan.variables, name@) matches Some(var) ==> vars(var) == names(name@));
        },
        Expr::Binary { .. } => {
            let (left, right) = (left_of(expr), right_of(expr));
            let (first, l) = plan.with_expr(left);
            crate::codegen::expr_adds_values(plan, left);
            if l is Ok {
                let (second, r) = first.with_expr(right);
                crate::codegen::expr_adds_values(first, right);
                expr_stays_in_sequence(plan, left);
                plans_compute_the_value(plan, left, names, vars);
                expressions_keep_the_variables(plan, left);
                assert(agree(first, names, vars));
                plans_compute_the_value(first, right, names, vars);
                each_computing_step_gives_a_value(first.steps, vars);
                each_computing_step_gives_a_value(second.steps, vars);
                if let (Ok(a), Ok(b)) = (l, r) {
                    let values = run(second.steps, vars);
                    assert(values[a as int] == run(first.steps, vars)[a as int]);
                    assert(values[a as int] == value_of(left, names));
                    assert(values[b as int] == value_of(right, names));
                }
            } else {
                plans_compute_the_value(plan, left, names, vars);
            }
        },
        _ => {},
    }
}

/// A return that is planned returns the value of its expression.
pub proof fn returns_give_the_value(
    plan: Plan,
    stmt: Stmt,
    expr: Expr,
    names: spec_fn(Seq<char>) -> int,
    vars: spec_fn(usize) -> int,
)
    requires
        sound_plan(plan),
        agree(plan, names, vars),
        stmt is Return,
        expr_of_stmt(stmt) == Some(expr),
        value_count(plan.with_expr(expr).0.steps) < usize::MAX,
        plan.with_stmt(stmt).1 is None,
    ensures
        plan.with_stmt(stmt).0.steps matches Cons(last, earlier) && {
            &&& *last matches Step::Return(Some(value)) && run(*earlier, vars)[value as int]
                == value_of(expr, names)
        },
{
    plans_compute_the_value(plan, expr, names, vars);
}

} // verus!
