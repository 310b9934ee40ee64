//! Checking lambdas.

use std::rc::Rc;

use vstd::prelude::*;

use crate::closures::{
    capture_types, captured_paths, captures_of, closure_kind, kind_of, level_of_mode,
    list_captures, new_entries, unused_entries, CaptureEntry, ClosureFrame, ClosureKind,
    ClosureLowering, HirClosureCapture, UseLevel,
};
use crate::errors::{Message, TypeErrorKind};
use crate::hir::{ExprKind, HirExpr, HirLambdaParam, HirStmt, HirType, SourceSpan, StrId};
use crate::instantiations::{unified, Substitutions};
use crate::list::{contains_key, find, has_key, lookup, update, updated, Cons, List, Nil, Table};
use crate::type_checker::{after_u32, next_u32, ClosureState, LoanTables, TypeChecker};
use crate::type_context::TypeContext;

verus! {

/// The parameter types that a signature gives.
pub open spec fn signature_params(sig: Option<HirType>) -> List<HirType> {
    match sig {
        Some(HirType::Lambda { params, .. }) => params,
        _ => Nil,
    }
}

fn find_signature_params(sig: &Option<HirType>) -> (params: List<HirType>)
    ensures
        params == signature_params(*sig),
{
    match sig {
        Some(HirType::Lambda { params, .. }) => params.dup(),
        _ => Nil,
    }
}

/// The result that a signature gives, where it is not left to the lambda.
pub open spec fn signature_return(sig: Option<HirType>) -> Option<HirType> {
    match sig {
        Some(HirType::Lambda { return_type, .. }) => if *return_type is Generic {
            None
        } else {
            Some(*return_type)
        },
        _ => None,
    }
}

fn find_signature_return(sig: &Option<HirType>) -> (ret: Option<HirType>)
    ensures
        ret == signature_return(*sig),
{
    match sig {
        Some(HirType::Lambda { return_type, .. }) => if matches!(
            **return_type,
            HirType::Generic(_)
        ) {
            None
        } else {
            Some(return_type.dup())
        },
        _ => None,
    }
}

/// Whether the result of a lambda is found out from its body.
pub open spec fn inferred(declared: HirType) -> bool {
    declared is Unknown || declared is Void
}

/// The types that the parameters are annotated with.
pub open spec fn annotated_types(params: List<HirLambdaParam>) -> List<HirType>
    decreases params,
{
    match params {
        Nil => Nil,
        Cons(param, rest) => List::cons_of(
            match param.param_type {
                Some(ty) => ty,
                None => HirType::Unknown,
            },
            annotated_types(*rest),
        ),
    }
}

fn find_annotated_types(params: &List<HirLambdaParam>) -> (types: List<HirType>)
    ensures
        types == annotated_types(*params),
    decreases params,
{
    match params {
        Nil => Nil,
        Cons(param, rest) => {
            let ty = match &param.param_type {
                Some(ty) => ty.dup(),
                None => HirType::Unknown,
            };
            List::cons(ty, find_annotated_types(rest))
        },
    }
}

/// The substitutions under which declared types become the found ones.
pub open spec fn all_unified(
    declared: List<HirType>,
    found: List<HirType>,
    subs: Substitutions,
) -> Substitutions
    decreases declared,
{
    match (declared, found) {
        (Cons(want, rest), Cons(have, more)) => all_unified(
            *rest,
            *more,
            unified(*want, *have, subs),
        ),
        _ => subs,
    }
}

/// Substitutions with those of another table that they lack.
pub open spec fn with_absent(subs: Substitutions, more: Substitutions) -> Substitutions
    decreases more,
{
    match more {
        Nil => subs,
        Cons(entry, rest) => with_absent(
            if has_key(subs, entry.0) {
                subs
            } else {
                updated(subs, entry.0, entry.1)
            },
            *rest,
        ),
    }
}

fn add_absent(subs: Substitutions, more: &Substitutions) -> (result: Substitutions)
    ensures
        result == with_absent(subs, *more),
    decreases more,
{
    match more {
        Nil => subs,
        Cons(entry, rest) => {
            let next = if contains_key(&subs, &entry.0) {
                subs
            } else {
                update(&subs, entry.0, entry.1.dup())
            };
            add_absent(next, rest)
        },
    }
}

impl TypeChecker {
    fn unify_all(&self, declared: &List<HirType>, found: &List<HirType>, subs: Substitutions) -> (result:
        Substitutions)
        ensures
            result == all_unified(*declared, *found, subs),
        decreases declared,
    {
        match (declared, found) {
            (Cons(want, rest), Cons(have, more)) => {
                let next = self.unify_generic(want, have, subs);
                self.unify_all(rest, more, next)
            },
            _ => subs,
        }
    }

    /// The checker and the types of a lambda's parameters: as annotated, or else as the signature
    /// has them.
    #[verifier::opaque]
    pub open spec fn lambda_params(
        self,
        params: List<HirLambdaParam>,
        signature: List<HirType>,
        as_closure: bool,
    ) -> (TypeChecker, List<HirType>)
        decreases params,
    {
        match params {
            Nil => (self, Nil),
            Cons(param, rest) => {
                let known = match signature {
                    Cons(ty, _) => if *ty is Generic {
                        None
                    } else {
                        Some(*ty)
                    },
                    Nil => None,
                };
                let (told, ty) = match param.param_type {
                    Some(annotated) => (self.fitted(known, annotated), annotated),
                    None => match known {
                        Some(expected) => (self, expected),
                        None => (
                            if as_closure {
                                self.recorded(TypeErrorKind::TypeCannotBeInferred)
                            } else {
                                self
                            },
                            HirType::Unknown,
                        ),
                    },
                };
                let (last, types) = told.lambda_params(*rest, signature.rest(), as_closure);
                (last, List::cons_of(ty, types))
            },
        }
    }

    fn resolve_lambda_params(
        &mut self,
        params: &List<HirLambdaParam>,
        signature: &List<HirType>,
        as_closure: bool,
    ) -> (types: List<HirType>)
        ensures
            (*final(self), types) == old(self).lambda_params(*params, *signature, as_closure),
            final(self).settled_in_scope(*old(self)),
        decreases params,
    {
        proof {
            reveal(TypeChecker::lambda_params);
        }
        match params {
            Nil => Nil,
            Cons(param, rest) => {
                let known = match signature {
                    Cons(ty, _) => if matches!(**ty, HirType::Generic(_)) {
                        None
                    } else {
                        Some(ty.dup())
                    },
                    Nil => None,
                };
                let others = match signature {
                    Cons(_, more) => more.dup(),
                    Nil => Nil,
                };
                let ty = match &param.param_type {
                    Some(annotated) => {
                        self.fit(known.as_ref(), annotated);
                        annotated.dup()
                    },
                    None => match known {
                        Some(expected) => expected,
                        None => {
                            if as_closure {
                                self.record(TypeErrorKind::TypeCannotBeInferred);
                            }
                            HirType::Unknown
                        },
                    },
                };
                let types = self.resolve_lambda_params(rest, &others, as_closure);
                List::cons(ty, types)
            },
        }
    }

    /// The checker with a lambda's parameters in scope. Where `fresh`, they may not hide a name.
    #[verifier::opaque]
    pub open spec fn params_declared(
        self,
        params: List<HirLambdaParam>,
        types: List<HirType>,
        fresh: bool,
    ) -> TypeChecker
        decreases params,
    {
        match (params, types) {
            (Cons(param, rest), Cons(ty, more)) => {
                let told = if fresh && has_key(self.context.variables, param.name) {
                    self.recorded(TypeErrorKind::VariableAlreadyExists { var_name: param.name })
                } else {
                    self
                };
                let (minted, symbol) = told.minted();
                minted.with_context(
                    minted.context.with_variable(param.name, *ty, symbol),
                ).params_declared(*rest, *more, fresh)
            },
            _ => self,
        }
    }

    fn declare_params(&mut self, params: &List<HirLambdaParam>, types: &List<HirType>, fresh: bool)
        ensures
            *final(self) == old(self).params_declared(*params, *types, fresh),
            final(self).settled(*old(self)),
        decreases params,
    {
        proof {
            reveal(TypeChecker::params_declared);
        }
        match (params, types) {
            (Cons(param, rest), Cons(ty, more)) => {
                if fresh && self.context.is_local_binding(param.name) {
                    self.record(TypeErrorKind::VariableAlreadyExists { var_name: param.name });
                }
                let symbol = self.mint_symbol_id();
                self.context.add_variable(param.name, ty.dup(), symbol);
                self.declare_params(rest, more, fresh);
            },
            _ => {},
        }
    }

    /// The checker inside a lambda with these captures.
    #[verifier::opaque]
    pub open spec fn lambda_entered(self, declared: HirType, entries: List<CaptureEntry>) -> TypeChecker {
        TypeChecker {
            context: TypeContext {
                current_return_type: if inferred(declared) {
                    None
                } else {
                    Some(declared)
                },
                in_loop: false,
                ..self.context
            },
            closures: ClosureState {
                frames: self.closures.frames.snoc(ClosureFrame { entries }),
                ..self.closures
            },
            ..self
        }
    }

    fn enter_lambda(&mut self, declared: &HirType, entries: List<CaptureEntry>)
        ensures
            *final(self) == old(self).lambda_entered(*declared, entries),
            final(self).settled(*old(self)),
    {
        proof {
            reveal(TypeChecker::lambda_entered);
        }
        self.context.current_return_type = if matches!(declared, HirType::Unknown | HirType::Void) {
            None
        } else {
            Some(declared.dup())
        };
        self.context.in_loop = false;
        self.closures.frames = self.closures.frames.push(ClosureFrame { entries });
    }

    /// The captures of the innermost lambda.
    pub open spec fn innermost(self) -> List<CaptureEntry> {
        match self.closures.frames.last_of() {
            Some(frame) => frame.entries,
            None => Nil,
        }
    }

    #[verifier::opaque]
    pub open spec fn lambda_left(self, context: TypeContext) -> TypeChecker {
        TypeChecker {
            context,
            closures: ClosureState {
                frames: self.closures.frames.without_last(),
                ..self.closures
            },
            ..self
        }
    }

    fn leave_lambda(&mut self, context: TypeContext) -> (entries: List<CaptureEntry>)
        ensures
            *final(self) == old(self).lambda_left(context),
            entries == old(self).innermost(),
            final(self).settled(*old(self)),
            final(self).context == context,
    {
        proof {
            reveal(TypeChecker::lambda_left);
        }
        let entries = match self.closures.frames.last() {
            Some(frame) => frame.entries.dup(),
            None => Nil,
        };
        self.context = context;
        self.closures.frames = self.closures.frames.init();
        entries
    }

    /// The checker and the result of a lambda: as declared, or as the signature has it, or as the
    /// body gives it.
    #[verifier::opaque]
    pub open spec fn lambda_returned(
        self,
        declared: HirType,
        signature: Option<HirType>,
        body_ty: Option<HirType>,
    ) -> (TypeChecker, HirType) {
        if !inferred(declared) {
            (
                match body_ty {
                    Some(ty) => self.fitted(Some(declared), ty),
                    None => self,
                },
                declared,
            )
        } else {
            match (signature, body_ty) {
                (Some(ret), Some(ty)) => (
                    if ty is Never || ret is Void {
                        self
                    } else {
                        self.fitted(Some(ret), ty)
                    },
                    ret,
                ),
                (Some(ret), None) => (self, ret),
                (None, Some(ty)) => (
                    self,
                    if ty is Never {
                        HirType::Void
                    } else {
                        ty
                    },
                ),
                (None, None) => (self, HirType::Void),
            }
        }
    }

    fn find_lambda_return(
        &mut self,
        declared: &HirType,
        signature: Option<HirType>,
        body_ty: Option<HirType>,
    ) -> (ret: HirType)
        ensures
            (*final(self), ret) == old(self).lambda_returned(*declared, signature, body_ty),
            final(self).settled_in_scope(*old(self)),
    {
        proof {
            reveal(TypeChecker::lambda_returned);
        }
        if !matches!(declared, HirType::Unknown | HirType::Void) {
            match &body_ty {
                Some(ty) => self.fit(Some(declared), ty),
                None => {},
            }
            return declared.dup();
        }
        match (signature, body_ty) {
            (Some(ret), Some(ty)) => {
                if !matches!(ty, HirType::Never) && !matches!(ret, HirType::Void) {
                    self.fit(Some(&ret), &ty);
                }
                ret
            },
            (Some(ret), None) => ret,
            (None, Some(ty)) => if matches!(ty, HirType::Never) {
                HirType::Void
            } else {
                ty
            },
            (None, None) => HirType::Void,
        }
    }

    /// The checker after a lambda of these types meets a signature: what the signature leaves open
    /// is what the lambda has.
    #[verifier::opaque]
    pub open spec fn signature_met(
        self,
        sig: Option<HirType>,
        types: List<HirType>,
        ret: HirType,
    ) -> TypeChecker {
        match sig {
            Some(HirType::Lambda { params, return_type }) => {
                let subs = unified(*return_type, ret, all_unified(params, types, Nil));
                TypeChecker {
                    closures: ClosureState {
                        generic_subs: with_absent(self.closures.generic_subs, subs),
                        ..self.closures
                    },
                    ..self
                }.fitted(signature_return(sig), ret)
            },
            _ => self,
        }
    }

    fn meet_signature(&mut self, sig: &Option<HirType>, types: &List<HirType>, ret: &HirType)
        ensures
            *final(self) == old(self).signature_met(*sig, *types, *ret),
            final(self).settled_in_scope(*old(self)),
    {
        proof {
            reveal(TypeChecker::signature_met);
        }
        match sig {
            Some(HirType::Lambda { params, return_type }) => {
                let from_params = self.unify_all(params, types, Nil);
                let subs = self.unify_generic(return_type, ret, from_params);
                self.closures.generic_subs = add_absent(self.closures.generic_subs.dup(), &subs);
                let expected = find_signature_return(sig);
                self.fit(expected.as_ref(), ret);
            },
            _ => {},
        }
    }

    /// The checker after a complaint for each capture of a lambda that can have none.
    #[verifier::opaque]
    pub open spec fn captures_refused(self, captures: List<HirClosureCapture>) -> TypeChecker
        decreases captures,
    {
        match captures {
            Nil => self,
            Cons(capture, rest) => self.said(
                Message::PointerLambdaCaptures {
                    root: capture.source,
                    path: capture.source_path,
                },
            ).captures_refused(*rest),
        }
    }

    fn refuse_captures(&mut self, captures: &List<HirClosureCapture>)
        ensures
            *final(self) == old(self).captures_refused(*captures),
            final(self).settled_in_scope(*old(self)),
        decreases captures,
    {
        proof {
            reveal(TypeChecker::captures_refused);
        }
        match captures {
            Nil => {},
            Cons(capture, rest) => {
                self.say(
                    Message::PointerLambdaCaptures {
                        root: capture.source,
                        path: capture.source_path.dup(),
                    },
                );
                self.refuse_captures(rest);
            },
        }
    }

    /// The checker after a closure uses what it captures, for the closures around it.
    pub open spec fn captures_noted(self, captures: List<HirClosureCapture>) -> TypeChecker
        decreases captures,
    {
        match captures {
            Nil => self,
            Cons(capture, rest) => self.noted(
                capture.source,
                capture.source_path,
                level_of_mode(capture.mode),
            ).captures_noted(*rest),
        }
    }

    fn note_captures(&mut self, captures: &List<HirClosureCapture>)
        ensures
            *final(self) == old(self).captures_noted(*captures),
            final(self).settled_in_scope(*old(self)),
        decreases captures,
    {
        match captures {
            Nil => {},
            Cons(capture, rest) => {
                self.note_capture_use(
                    capture.source,
                    &capture.source_path,
                    UseLevel::of_mode(capture.mode),
                );
                self.note_captures(rest);
            },
        }
    }

    /// The checker and the names of a closure's environment and function, which stay the same where
    /// the closure is looked at again.
    pub open spec fn closure_named(self, body_key: usize) -> (TypeChecker, (StrId, StrId)) {
        match lookup(self.closures.table, body_key) {
            Some(known) => (self, (known.env_name, known.fn_name)),
            None => (
                TypeChecker {
                    closures: ClosureState {
                        next_id: after_u32(self.closures.next_id),
                        ..self.closures
                    },
                    ..self
                },
                (
                    StrId::ClosureEnv(self.closures.next_id),
                    StrId::ClosureFn(self.closures.next_id),
                ),
            ),
        }
    }

    fn name_closure(&mut self, body_key: usize) -> (names: (StrId, StrId))
        ensures
            (*final(self), names) == old(self).closure_named(body_key),
            final(self).settled_in_scope(*old(self)),
    {
        match find(&self.closures.table, &body_key) {
            Some(known) => (known.env_name, known.fn_name),
            None => {
                let id: u32 = self.closures.next_id;
                self.closures.next_id = next_u32(id);
                (StrId::ClosureEnv(id), StrId::ClosureFn(id))
            },
        }
    }

    /// The checker after a lambda becomes a closure with these captures, and the type of its
    /// environment.
    #[verifier::opaque]
    pub open spec fn closure_made(
        self,
        key: usize,
        body_key: usize,
        entries: List<CaptureEntry>,
        param_tys: List<HirType>,
        ret_ty: HirType,
        span: SourceSpan,
    ) -> (TypeChecker, HirType) {
        let captures = captures_of(entries, 0);
        let (named, (env_name, fn_name)) = self.closure_named(body_key);
        let env_ty = HirType::Struct {
            name: env_name,
            field_types: capture_types(self.context, self.program.graph, entries, span),
            type_args: Nil,
        };
        let (loaned, loans) = named.captures_noted(captures).capture_loans(captures, span);
        (
            TypeChecker {
                loans: LoanTables {
                    closures: updated(loaned.loans.closures, key, loans),
                    ..loaned.loans
                },
                closures: ClosureState {
                    table: updated(
                        loaned.closures.table,
                        body_key,
                        ClosureLowering {
                            env_name,
                            fn_name,
                            env_ty,
                            captures,
                            param_tys,
                            ret_ty,
                            kind: kind_of(entries),
                        },
                    ),
                    ..loaned.closures
                },
                ..loaned
            },
            env_ty,
        )
    }

    /// How a closure captures what it uses, the types of the fields that hold it, and how often the
    /// closure can be called.
    fn finalize_captures(&self, entries: &List<CaptureEntry>, span: SourceSpan) -> (result: (
        List<HirClosureCapture>,
        List<HirType>,
        ClosureKind,
    ))
        ensures
            result.0 == captures_of(*entries, 0),
            result.1 == capture_types(self.context, self.program.graph, *entries, span),
            result.2 == kind_of(*entries),
    {
        (list_captures(entries, 0), self.capture_field_types(entries, span), closure_kind(entries))
    }

    /// How the closures of the program are lowered, by the keys of their bodies.
    pub fn closure_table(&self) -> (table: &Table<usize, ClosureLowering>)
        ensures
            *table == self.closures.table,
    {
        &self.closures.table
    }

    fn make_closure(
        &mut self,
        key: usize,
        body_key: usize,
        entries: &List<CaptureEntry>,
        param_tys: List<HirType>,
        ret_ty: HirType,
        span: SourceSpan,
    ) -> (ty: HirType)
        ensures
            (*final(self), ty) == old(self).closure_made(
                key,
                body_key,
                *entries,
                param_tys,
                ret_ty,
                span,
            ),
            final(self).settled_in_scope(*old(self)),
    {
        proof {
            reveal(TypeChecker::closure_made);
        }
        let (captures, field_types, kind) = self.finalize_captures(entries, span);
        let (env_name, fn_name) = self.name_closure(body_key);
        let env_ty = HirType::Struct { name: env_name, field_types, type_args: Nil };
        self.note_captures(&captures);
        let loans = self.register_capture_loans(&captures, span);
        self.loans.closures = update(&self.loans.closures, key, loans);
        let lowering = ClosureLowering {
            env_name,
            fn_name,
            env_ty: env_ty.dup(),
            captures,
            param_tys,
            ret_ty,
            kind,
        };
        self.closures.table = update(&self.closures.table, body_key, lowering);
        env_ty
    }

    /// The checker after a lambda where a signature may be expected. A closure is a value of the
    /// struct that holds its captures; any other lambda is a function pointer without captures.
    #[verifier::opaque]
    pub open spec fn lambda_checked(self, expr: HirExpr, sig: Option<HirType>, as_closure: bool) -> (
        TypeChecker,
        HirType,
    )
        decreases expr, 1int, 0int,
    {
        match expr.kind {
            ExprKind::Lambda { params, return_type, body, span } => {
                let here = self.at_span(span);
                let (typed, types) = here.lambda_params(params, signature_params(sig), as_closure);
                let (done, body_ty) = typed.params_declared(params, types, true).lambda_entered(
                    return_type,
                    unused_entries(captured_paths(here.context, params, *body)),
                ).stmt_checked(*body);
                let entries = done.innermost();
                let (returned, ret) = done.lambda_left(here.context).lambda_returned(
                    return_type,
                    signature_return(sig),
                    body_ty,
                );
                let met = returned.signature_met(sig, types, ret);
                if as_closure {
                    met.closure_made(expr.key, body.key, entries, types, ret, span)
                } else {
                    (
                        met.captures_refused(captures_of(entries, 0)),
                        HirType::Lambda { params: types, return_type: Rc::new(ret) },
                    )
                }
            },
            _ => (self, HirType::Unknown),
        }
    }

    pub fn check_lambda(&mut self, expr: &HirExpr, sig: &Option<HirType>, as_closure: bool) -> (ty: HirType)
        ensures
            (*final(self), ty) == old(self).lambda_checked(*expr, *sig, as_closure),
            final(self).settled_in_scope(*old(self)),
        decreases expr, 1int, 0int,
    {
        proof {
            reveal(TypeChecker::lambda_checked);
        }
        match &expr.kind {
            ExprKind::Lambda { params, return_type, body, span } => {
                self.set_span(*span);
                let outside = self.context.create_child_scope();
                let free = self.find_captures(params, body);
                let types = self.resolve_lambda_params(
                    params,
                    &find_signature_params(sig),
                    as_closure,
                );
                self.declare_params(params, &types, true);
                self.enter_lambda(return_type, new_entries(&free));
                let body_ty = self.check_stmt(body);
                let entries = self.leave_lambda(outside);
                let ret = self.find_lambda_return(
                    return_type,
                    find_signature_return(sig),
                    body_ty,
                );
                self.meet_signature(sig, &types, &ret);
                if as_closure {
                    self.make_closure(expr.key, body.key, &entries, types, ret, *span)
                } else {
                    self.refuse_captures(&list_captures(&entries, 0));
                    HirType::Lambda { params: types, return_type: Rc::new(ret) }
                }
            },
            _ => HirType::Unknown,
        }
    }

    /// The checker after a lambda of which only the annotations count.
    pub open spec fn annotated_lambda_checked(
        self,
        params: List<HirLambdaParam>,
        body: HirStmt,
    ) -> TypeChecker {
        self.params_declared(params, annotated_types(params), false).stmt_checked(
            body,
        ).0.with_context(self.context)
    }

    pub fn check_lambda_expr(
        &mut self,
        params: &List<HirLambdaParam>,
        return_type: &HirType,
        body: &HirStmt,
    ) -> (ty: HirType)
        ensures
            *final(self) == old(self).annotated_lambda_checked(*params, *body),
            ty == (HirType::Lambda {
                params: annotated_types(*params),
                return_type: Rc::new(*return_type),
            }),
            final(self).settled_in_scope(*old(self)),
    {
        let outside = self.context.create_child_scope();
        let types = find_annotated_types(params);
        self.declare_params(params, &types, false);
        self.check_stmt(body);
        self.context = outside;
        HirType::Lambda { params: types, return_type: Rc::new(return_type.dup()) }
    }
}

} // verus!
