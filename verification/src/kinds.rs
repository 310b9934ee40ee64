//! The types that expressions have, and what is demanded of the values in them.

use std::rc::Rc;

use vstd::prelude::*;

use crate::accesses::recording_reports;
use crate::errors::{Message, TypeError, TypeErrorKind, TypeText};
use crate::hir::{
    field_index, variant_named, ExprKind, HirExpr, HirFieldInit, HirStmt, HirStruct, HirType,
    RefKind, SourceSpan, StmtKind, StrId,
};
use crate::list::{has_key, lookup, Cons, List, Nil};
use crate::operators::castable;
use crate::ref_provenance::provenance_of;
use crate::statements::used_up_is_gone;
use crate::type_checker::TypeChecker;

verus! {

/// A literal has the type of its kind, and nothing is said of it.
pub proof fn literals_have_their_type(checker: TypeChecker, expr: HirExpr)
    ensures
        ({
            let (after, ty) = checker.checked(expr);
            match expr.kind {
                ExprKind::Number(_, _) => ty is I64 && checker.quiet_until(after),
                ExprKind::Decimal(_, _) => ty is F64 && checker.quiet_until(after),
                ExprKind::Boolean(_, _) => ty is Boolean && checker.quiet_until(after),
                ExprKind::String(_, _) => ty is String && checker.quiet_until(after),
                ExprKind::Char(_, _) => ty is Char && checker.quiet_until(after),
                ExprKind::Null(_) => ty is Null && checker.quiet_until(after),
                ExprKind::InterpolatedString(_) => ty is String,
                _ => true,
            }
        }),
{
    reveal(TypeChecker::checked);
    reveal(TypeChecker::at_span);
}

/// A value that stands where a type is declared must fit it; where none is declared, anything does.
pub proof fn values_must_fit(checker: TypeChecker, declared: Option<HirType>, ty: HirType)
    requires
        !checker.diagnostics.suppress_errors,
    ensures
        match declared {
            None => checker.fitted(declared, ty) == checker,
            Some(expected) => if checker.fits(expected, ty) {
                checker.fitted(declared, ty) == checker
            } else {
                checker.reports(
                    TypeErrorKind::TypeMismatch {
                        expected: TypeText::Type(expected),
                        found: TypeText::Type(ty),
                    },
                    checker.fitted(declared, ty),
                )
            },
        },
{
    reveal(TypeChecker::fitted);
    if let Some(expected) = declared {
        recording_reports(
            checker,
            TypeErrorKind::TypeMismatch {
                expected: TypeText::Type(expected),
                found: TypeText::Type(ty),
            },
        );
    }
}

/// An array has as many elements as are given, all of the type of the first. One without elements has
/// no type.
pub proof fn arrays_are_of_their_first_element(
    checker: TypeChecker,
    expr: HirExpr,
    elements: List<HirExpr>,
    span: SourceSpan,
)
    requires
        !checker.diagnostics.suppress_errors,
        expr.kind == (ExprKind::ArrayLiteral { elements, span }),
    ensures
        match elements {
            Nil => {
                &&& checker.checked(expr).1 is Unknown
                &&& checker.at_span(span).reports(
                    TypeErrorKind::TypeCannotBeInferred,
                    checker.checked(expr).0,
                )
            },
            Cons(first, _) => checker.checked(expr).1 == HirType::Array(
                Rc::new(checker.at_span(span).checked(*first).1),
                elements.count(),
            ),
        },
{
    reveal(TypeChecker::checked);
    reveal(TypeChecker::at_span);
    recording_reports(checker.at_span(span), TypeErrorKind::TypeCannotBeInferred);
}

/// The elements of an array behind the first are used up, and must fit its type.
pub proof fn elements_are_used_up(
    checker: TypeChecker,
    element: HirExpr,
    name: StrId,
    ty: HirType,
)
    requires
        element.kind matches ExprKind::Ident(used, _) && used == name,
        !checker.checked(element).0.program.facts.copied(checker.checked(element).1),
    ensures
        checker.elements_checked(List::one_of(element), ty).flow.moves.whole.has(name),
{
    let (after, found) = checker.checked(element);
    used_up_is_gone(after, element, name, found);
    let used = after.value_used(element, found);
    assert(used.fitted(Some(ty), found).flow == used.flow) by {
        reveal(TypeChecker::fitted);
    }
    reveal_with_fuel(TypeChecker::elements_checked, 2);
    reveal(TypeChecker::checked);
}

/// A cast has the type it casts to, uses its value up, and is reported where there is none.
pub proof fn casts_have_their_target_type(
    checker: TypeChecker,
    expr: HirExpr,
    inner: HirExpr,
    target: HirType,
    span: SourceSpan,
)
    requires
        expr.kind matches ExprKind::Cast { expr: e, target_type, span: s } && *e == inner
            && target_type == target && s == span,
    ensures
        ({
            let (seen, source) = checker.at_span(span).checked(inner);
            let used = seen.value_used(inner, source);
            let (after, ty) = checker.checked(expr);
            &&& ty == target
            &&& after.flow == used.flow
            &&& castable(source, target) ==> after == used
            &&& !castable(source, target) && !used.diagnostics.suppress_errors ==> used.says(
                Message::NoCast { source, target },
                after,
            )
        }),
{
    let (seen, source) = checker.at_span(span).checked(inner);
    let used = seen.value_used(inner, source);
    assert(checker.checked(expr) == (used.recovered(used.cast_result(source, target)), target)) by {
        reveal(TypeChecker::checked);
    }
    reveal(TypeChecker::cast_result);
    if !used.diagnostics.suppress_errors {
        recording_reports(used, TypeErrorKind::Generic(Message::NoCast { source, target }));
    }
}

/// An expression that is a conditional has both branches.
pub proof fn conditional_values_need_both_branches(
    checker: TypeChecker,
    expr: HirExpr,
    stmt: HirStmt,
    span: SourceSpan,
)
    requires
        expr.kind matches ExprKind::If { if_stmt, span: s } && *if_stmt == stmt && s == span,
        stmt.kind is If,
    ensures
        ({
            let here = checker.at_span(span);
            let started = if stmt.kind matches StmtKind::If { else_block, .. } && else_block is None {
                here.said(Message::IfNeedsElse)
            } else {
                here
            };
            checker.checked(expr).0 == started.stmt_checked(stmt).0
        }),
{
    reveal(TypeChecker::checked);
}

/// A reference is to the type of what it is taken of, of its own kind.
pub proof fn references_are_of_their_kind(
    checker: TypeChecker,
    place: HirExpr,
    kind: RefKind,
    span: SourceSpan,
    register: bool,
)
    ensures
        ({
            let (after, ty) = checker.ref_checked(place, kind, span, register);
            let (seen, inner) = if kind is Shared {
                checker.at_span(span).checked(place)
            } else {
                checker.at_span(span).placed(place)
            };
            &&& ty == HirType::Ref {
                inner: Rc::new(inner),
                ref_kind: kind,
                provenance: provenance_of(seen.program.graph, place),
            }
            &&& !register ==> after == seen
            &&& register ==> after == seen.ref_registered(place, kind)
        }),
{
    reveal(TypeChecker::ref_checked);
    reveal(TypeChecker::checked);
}

/// The types of a list of expressions, one for each and in order.
pub proof fn types_are_in_order(checker: TypeChecker, exprs: List<HirExpr>)
    ensures
        checker.all_checked(exprs).1.seq().len() == exprs.seq().len(),
        exprs matches Cons(first, rest) ==> {
            &&& checker.all_checked(exprs).1.seq()[0] == checker.checked(*first).1
            &&& checker.all_checked(exprs).1.seq().skip(1) == checker.checked(
                *first,
            ).0.all_checked(*rest).1.seq()
        },
    decreases exprs,
{
    reveal(TypeChecker::all_checked);
    reveal(TypeChecker::checked);
    match exprs {
        Nil => {},
        Cons(_, _) => {
            let after = checker.checked(exprs.head()).0;
            types_are_in_order(after, exprs.rest());
            let all = checker.all_checked(exprs).1;
            assert(all.seq() == seq![all.head()] + after.all_checked(exprs.rest()).1.seq());
            assert(all.seq().skip(1) == after.all_checked(exprs.rest()).1.seq());
        },
    }
}

/// A field that is given must be declared. One that is not is reported, and its value is still
/// looked at.
pub proof fn given_fields_must_be_declared(
    checker: TypeChecker,
    init: HirFieldInit,
    struct_name: StrId,
    def: HirStruct,
    types: List<HirType>,
    seen: List<StrId>,
)
    requires
        field_index(def.fields, init.name) is None,
    ensures
        checker.inits_checked(List::one_of(init), struct_name, def, types, seen)
            == checker.recorded(
            TypeErrorKind::FieldNotFound { struct_name, field: init.name },
        ).checked(init.value).0,
{
    reveal_with_fuel(TypeChecker::inits_checked, 2);
    reveal(TypeChecker::checked);
}

/// A local that a field is given is gone.
pub proof fn given_locals_are_gone(
    checker: TypeChecker,
    init: HirFieldInit,
    name: StrId,
    struct_name: StrId,
    def: HirStruct,
    types: List<HirType>,
    index: usize,
    ty: HirType,
)
    requires
        init.value.kind matches ExprKind::Ident(used, _) && used == name,
        field_index(def.fields, init.name) == Some(index),
        types.nth(index) == Some(ty),
        !checker.expected(init.value, ty).0.program.facts.copied(
            checker.expected(init.value, ty).1,
        ),
    ensures
        checker.inits_checked(
            List::one_of(init),
            struct_name,
            def,
            types,
            Nil,
        ).flow.moves.whole.has(name),
{
    let (after, found) = checker.expected(init.value, ty);
    used_up_is_gone(after, init.value, name, found);
    let used = after.value_used(init.value, found);
    assert(used.fitted(Some(ty), found).flow == used.flow) by {
        reveal(TypeChecker::fitted);
    }
    assert(!List::<StrId>::Nil.has(init.name));
    reveal_with_fuel(TypeChecker::inits_checked, 2);
}

/// The value of an enum is of a variant that the enum has.
pub proof fn enum_values_are_of_a_variant(
    checker: TypeChecker,
    expr: HirExpr,
    name: StrId,
    variant: StrId,
    span: SourceSpan,
    expected: Option<HirType>,
)
    requires
        !checker.diagnostics.suppress_errors,
        expr.kind matches ExprKind::EnumInit { enum_name, variant: v, span: s, .. } && enum_name
            == name && v == variant && s == span,
    ensures
        ({
            let (after, ty) = checker.enum_checked(expr, expected);
            match lookup(checker.context.enums, name) {
                None => ty is Unknown && checker.at_span(span).reports(
                    TypeErrorKind::UndefinedType(name),
                    after,
                ),
                Some(def) => if variant_named(def.variants, variant) is None {
                    ty is Unknown
                } else {
                    ty matches HirType::Enum { name: found, .. } && found == name
                },
            }
        }),
{
    reveal(TypeChecker::enum_checked);
    reveal(TypeChecker::at_span);
    recording_reports(checker.at_span(span), TypeErrorKind::UndefinedType(name));
}

} // verus!
