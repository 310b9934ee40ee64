//! Checking calls.

use std::rc::Rc;

use vstd::prelude::*;

use crate::borrow::{BorrowKind, ReadTemplate, RefTemplate, TemplateBase};
use crate::borrowck::ignores_contents;
use crate::closures::{closure_constraint, pre_inferred};
use crate::errors::{FunctionName, Message, TypeErrorKind};
use crate::expressions::{extend_substitutions, or_void, type_or_void};
use crate::hir::{
    dup_type, ExprKind, HirEffectAccess, HirExpr, HirFunc, HirModuleAccess, HirParam, HirType,
    RefKind, SourceSpan, StrId, ThisPassingKind, Word,
};
use crate::instantiations::{params_substituted, struct_substitutions, substituted};
use crate::list::{extended, find, has_key, lookup, update, updated, Cons, List, Nil};
use crate::methods::{find_method, method_named};
use crate::ref_effects::{any_unique, grants_unique};
use crate::type_checker::{after_usize, next_usize, LoanTables, TypeChecker};
use crate::types::{integer, interface_of, stripped};

verus! {

/// What is known of a callee while its arguments are checked.
#[derive(Debug, PartialEq, Eq)]
pub struct Passing {
    /// The parameter that the returned reference starts from.
    pub base: Option<usize>,
    pub func: Rc<HirFunc>,
    pub writes: Option<List<bool>>,
    pub reads: Option<List<ReadTemplate>>,
}

pub open spec fn param_count(func: HirFunc) -> usize {
    match func.params {
        Some(params) => params.count(),
        None => 0,
    }
}

/// The number of parameters without the receiver.
pub open spec fn method_param_count(func: HirFunc) -> usize {
    if param_count(func) == 0 {
        0
    } else {
        (param_count(func) - 1) as usize
    }
}

fn count_params(func: &HirFunc) -> (count: usize)
    ensures
        count == param_count(*func),
{
    match &func.params {
        Some(params) => params.len(),
        None => 0,
    }
}

fn count_method_params(func: &HirFunc) -> (count: usize)
    ensures
        count == method_param_count(*func),
{
    let count: usize = count_params(func);
    if count == 0 {
        0
    } else {
        count - 1
    }
}

pub open spec fn behind_first<T>(list: List<T>) -> List<T> {
    match list {
        Cons(_, rest) => *rest,
        Nil => Nil,
    }
}

fn params_behind_first(params: &List<HirParam>) -> (rest: List<HirParam>)
    ensures
        rest == behind_first(*params),
{
    match params {
        Cons(_, rest) => rest.dup(),
        Nil => Nil,
    }
}

/// The parameter that a returned reference starts from.
pub open spec fn templated_base(template: Option<RefTemplate>) -> Option<usize> {
    match template {
        Some(RefTemplate::Path { base: TemplateBase::Param(index), .. }) => Some(index),
        _ => None,
    }
}

fn find_templated_base(template: &Option<RefTemplate>) -> (base: Option<usize>)
    ensures
        base == templated_base(*template),
{
    match template {
        Some(RefTemplate::Path { base: TemplateBase::Param(index), .. }) => Some(*index),
        _ => None,
    }
}

/// Whether a method that takes its receiver this way changes it.
pub open spec fn changes_receiver(
    kind: ThisPassingKind,
    multi_place: Option<List<HirEffectAccess>>,
) -> bool {
    match kind {
        ThisPassingKind::RefMut | ThisPassingKind::MutSafePtr | ThisPassingKind::MoveMut => true,
        ThisPassingKind::MultiPlace => match multi_place {
            Some(accesses) => grants_unique(accesses),
            None => false,
        },
        _ => false,
    }
}

fn mutates_receiver(kind: ThisPassingKind, multi_place: &Option<List<HirEffectAccess>>) -> (yes: bool)
    ensures
        yes == changes_receiver(kind, *multi_place),
{
    match kind {
        ThisPassingKind::RefMut | ThisPassingKind::MutSafePtr | ThisPassingKind::MoveMut => true,
        ThisPassingKind::MultiPlace => match multi_place {
            Some(accesses) => any_unique(accesses),
            None => false,
        },
        _ => false,
    }
}

pub open spec fn receiver_use(changed: bool) -> BorrowKind {
    if changed {
        BorrowKind::Mutable
    } else {
        BorrowKind::Shared
    }
}

fn use_of_receiver(changed: bool) -> (kind: BorrowKind)
    ensures
        kind == receiver_use(changed),
{
    if changed {
        BorrowKind::Mutable
    } else {
        BorrowKind::Shared
    }
}

/// The methods that slices have without declaring them.
pub open spec fn slice_primitive(method: StrId) -> bool {
    method == StrId::Known(Word::WriteUninit) || method == StrId::Known(Word::WriteUninitAll)
        || method == StrId::Known(Word::GetUnchecked)
}

impl TypeChecker {
    /// The checker after a receiver is handed to a method of an interface.
    #[verifier::opaque]
    pub open spec fn interface_receiver(
        self,
        object: HirExpr,
        object_ty: HirType,
        method: StrId,
        params: List<HirParam>,
    ) -> TypeChecker {
        match params {
            Cons(first, _) => match *first {
                HirParam::This { kind, multi_place, .. } => {
                    let changed = changes_receiver(kind, multi_place);
                    let allowed = if changed {
                        self.recovered(self.receiver_result(object, method))
                    } else {
                        self
                    };
                    match (kind, multi_place) {
                        (ThisPassingKind::MultiPlace, Some(accesses)) => {
                            let (made, loans) = allowed.multi_place_loans(object, accesses);
                            made.loans_ended(loans)
                        },
                        _ => if kind is Move || kind is MoveMut {
                            allowed.value_used(object, object_ty)
                        } else {
                            allowed.place_used(object, receiver_use(changed))
                        },
                    }
                },
                HirParam::Normal { .. } => self,
            },
            Nil => self,
        }
    }

    fn pass_interface_receiver(
        &mut self,
        object: &HirExpr,
        object_ty: &HirType,
        method: StrId,
        params: &List<HirParam>,
    )
        ensures
            *final(self) == old(self).interface_receiver(*object, *object_ty, method, *params),
            final(self).settled_in_scope(*old(self)),
    {
        proof {
            reveal(TypeChecker::interface_receiver);
        }
        match params {
            Cons(first, _) => match &**first {
                HirParam::This { kind, multi_place, .. } => {
                    let changed = mutates_receiver(*kind, multi_place);
                    if changed {
                        let result = self.check_receiver_is_mutable(object, method);
                        self.recover(result);
                    }
                    match (kind, multi_place) {
                        (ThisPassingKind::MultiPlace, Some(accesses)) => {
                            let loans = self.register_multi_place_loans(object, accesses);
                            self.end_loans(&loans);
                        },
                        _ => {
                            if matches!(kind, ThisPassingKind::Move | ThisPassingKind::MoveMut) {
                                self.check_and_record_value_use(object, object_ty);
                            } else {
                                self.use_place(object, use_of_receiver(changed));
                            }
                        },
                    }
                },
                HirParam::Normal { .. } => {},
            },
            Nil => {},
        }
    }

    /// The checker after a receiver is handed to a method, and the loans it makes. Where the place
    /// that the result points to is known, the whole receiver is not used.
    #[verifier::opaque]
    pub open spec fn receiver_passed(
        self,
        call: HirExpr,
        object: HirExpr,
        object_ty: HirType,
        method: StrId,
        params: List<HirParam>,
        ret_ty: HirType,
        template: Option<RefTemplate>,
    ) -> (TypeChecker, List<usize>) {
        match params {
            Cons(first, _) => match *first {
                HirParam::This { kind, multi_place, .. } => {
                    let changed = changes_receiver(kind, multi_place);
                    let allowed = if changed {
                        self.recovered(self.receiver_result(object, method))
                    } else {
                        self
                    };
                    match (kind, multi_place) {
                        (ThisPassingKind::MultiPlace, Some(accesses)) => allowed.multi_place_loans(
                            object,
                            accesses,
                        ),
                        _ => if kind is Move || kind is MoveMut {
                            (allowed.value_used(object, object_ty), Nil)
                        } else if match template {
                            Some(known) => known is Path,
                            None => false,
                        } {
                            (allowed, Nil)
                        } else {
                            let (after, place) = allowed.resolved(object);
                            (
                                match place {
                                    None => after,
                                    Some(found) => if !changed && !after.aliases(ret_ty) {
                                        after.shell_used(call, found, receiver_use(changed))
                                    } else {
                                        after.used(call, found, receiver_use(changed))
                                    },
                                },
                                Nil,
                            )
                        },
                    }
                },
                HirParam::Normal { .. } => (self, Nil),
            },
            Nil => (self, Nil),
        }
    }

    fn pass_receiver(
        &mut self,
        call: &HirExpr,
        object: &HirExpr,
        object_ty: &HirType,
        method: StrId,
        params: &List<HirParam>,
        ret_ty: &HirType,
        template: &Option<RefTemplate>,
    ) -> (loans: List<usize>)
        ensures
            (*final(self), loans) == old(self).receiver_passed(
                *call,
                *object,
                *object_ty,
                method,
                *params,
                *ret_ty,
                *template,
            ),
            final(self).settled_in_scope(*old(self)),
    {
        proof {
            reveal(TypeChecker::receiver_passed);
        }
        match params {
            Cons(first, _) => match &**first {
                HirParam::This { kind, multi_place, .. } => {
                    let changed = mutates_receiver(*kind, multi_place);
                    if changed {
                        let result = self.check_receiver_is_mutable(object, method);
                        self.recover(result);
                    }
                    match (kind, multi_place) {
                        (ThisPassingKind::MultiPlace, Some(accesses)) => {
                            self.register_multi_place_loans(object, accesses)
                        },
                        _ => {
                            if matches!(kind, ThisPassingKind::Move | ThisPassingKind::MoveMut) {
                                self.check_and_record_value_use(object, object_ty);
                            } else if !matches!(template, Some(RefTemplate::Path { .. })) {
                                match self.resolve_place(object) {
                                    None => {},
                                    Some(place) => {
                                        let kind = use_of_receiver(changed);
                                        if !changed && !self.return_type_may_alias(ret_ty) {
                                            self.check_borrow_use_shell(call, place, kind);
                                        } else {
                                            self.check_borrow_use(call, place, kind);
                                        }
                                    },
                                }
                            }
                            Nil
                        },
                    }
                },
                HirParam::Normal { .. } => Nil,
            },
            Nil => Nil,
        }
    }

    /// The checker, and what the reference that a function returns points to, where it may return
    /// one.
    #[verifier::opaque]
    pub open spec fn call_template(self, func: HirFunc, ret_ty: HirType) -> (
        TypeChecker,
        Option<RefTemplate>,
    ) {
        if self.aliases(ret_ty) {
            (self.after_ref_template(func), Some(self.ref_template_of(func)))
        } else {
            (self, None)
        }
    }

    fn find_call_template(&mut self, func: &HirFunc, ret_ty: &HirType) -> (template: Option<
        RefTemplate,
    >)
        ensures
            (*final(self), template) == old(self).call_template(*func, *ret_ty),
            final(self).settled_in_scope(*old(self)),
    {
        proof {
            reveal(TypeChecker::call_template);
        }
        if self.return_type_may_alias(ret_ty) {
            Some(self.analyze_ref_template(func))
        } else {
            None
        }
    }

    /// The checker after what a callee reads through the references it is given.
    #[verifier::opaque]
    pub open spec fn call_reads(self, func: HirFunc, args: List<HirExpr>) -> TypeChecker {
        self.after_read_templates(func).shared_reads(args, self.reads_of(func), args)
    }

    fn check_call_reads(&mut self, func: &HirFunc, args: &List<HirExpr>)
        ensures
            *final(self) == old(self).call_reads(*func, *args),
            final(self).settled_in_scope(*old(self)),
    {
        proof {
            reveal(TypeChecker::call_reads);
        }
        let templates = self.analyze_read_templates(func);
        self.check_shared_reads(args, &templates, args);
    }

    /// The checker, and what it knows of a callee before its arguments.
    #[verifier::opaque]
    pub open spec fn passing(self, base: Option<usize>, func: Rc<HirFunc>) -> (TypeChecker, Passing) {
        let written = self.after_definite_writes(*func);
        (
            written.after_read_templates(*func),
            Passing {
                base,
                func,
                writes: Some(self.writes_of(*func)),
                reads: Some(written.reads_of(*func)),
            },
        )
    }

    fn prepare_passing(&mut self, base: Option<usize>, func: Rc<HirFunc>) -> (passing: Passing)
        ensures
            (*final(self), passing) == old(self).passing(base, func),
            final(self).settled_in_scope(*old(self)),
    {
        proof {
            reveal(TypeChecker::passing);
        }
        let writes = self.analyze_definite_writes(&func);
        let reads = self.analyze_read_templates(&func);
        Passing { base, func, writes: Some(writes), reads: Some(reads) }
    }

    /// The checker after the loan of a place is looked up, and its number.
    #[verifier::opaque]
    pub open spec fn arg_loan(self, place: HirExpr) -> (TypeChecker, List<usize>) {
        let (after, found) = self.resolved(place);
        match found {
            Some(source) => {
                let (named, loan) = after.loan_found(source);
                (named, List::one_of(loan))
            },
            None => (after, Nil),
        }
    }

    fn find_arg_loan(&mut self, place: &HirExpr) -> (loans: List<usize>)
        ensures
            (*final(self), loans) == old(self).arg_loan(*place),
            final(self).settled_in_scope(*old(self)),
    {
        proof {
            reveal(TypeChecker::arg_loan);
        }
        match self.resolve_place(place) {
            Some(source) => {
                let loan: usize = self.find_loan(source);
                List::one(loan)
            },
            None => Nil,
        }
    }

    /// The checker after a call.
    #[verifier::opaque]
    pub open spec fn call_checked(self, expr: HirExpr) -> (TypeChecker, HirType)
        decreases expr, 1int, 0int,
    {
        match expr.kind {
            ExprKind::Call { callee, args, span, type_args } => match callee.kind {
                ExprKind::Ident(name, ident_span) => {
                    let here = self.at_span(ident_span);
                    if has_key(here.context.variables, name) {
                        let (after, ty) = here.checked(*callee);
                        after.value_called(ty, args)
                    } else {
                        match here.context.function_in(here.context.current_module_idx, name) {
                            None => (
                                here.recorded(
                                    TypeErrorKind::UndefinedFunction(FunctionName::Plain(name)),
                                ),
                                HirType::Unknown,
                            ),
                            Some(func) => here.function_called(
                                func,
                                name,
                                ident_span,
                                args,
                                type_args,
                            ),
                        }
                    }
                },
                ExprKind::FieldAccess { object, field, span: field_span } => {
                    let (after, object_ty) = self.at_span(field_span).checked(*object);
                    after.method_called(expr, *object, field, field_span, object_ty, args)
                },
                ExprKind::ModuleAccess(access) => self.at_span(access.span).member_called(
                    access,
                    args,
                ),
                _ => {
                    let (after, ty) = self.at_span(span).checked(*callee);
                    match ty {
                        HirType::Lambda { return_type, .. } => (after, *return_type),
                        _ => (after.said(Message::NotCallable { ty }), HirType::Unknown),
                    }
                },
            },
            _ => (self, HirType::Unknown),
        }
    }

    /// The checker after a local is called: a function pointer, or a closure by its constraint.
    #[verifier::opaque]
    pub open spec fn value_called(self, ty: HirType, args: List<HirExpr>) -> (TypeChecker, HirType)
        decreases args, 5int, 0int,
    {
        match ty {
            HirType::Lambda { return_type, .. } => (self, *return_type),
            HirType::Generic(name) => match lookup(self.closures.constraints, name) {
                Some(constraint) => self.closure_called(constraint, args),
                None => (self.said(Message::NotCallable { ty }), HirType::Unknown),
            },
            _ => (self.said(Message::NotCallable { ty }), HirType::Unknown),
        }
    }

    /// The checker after a closure is called that is known by its constraint.
    #[verifier::opaque]
    pub open spec fn closure_called(self, constraint: HirType, args: List<HirExpr>) -> (
        TypeChecker,
        HirType,
    )
        decreases args, 4int, 0int,
    {
        match constraint {
            HirType::Lambda { params, return_type } => (
                self.counted(params.count(), args.count()).closure_args_checked(args, params),
                *return_type,
            ),
            _ => (self, HirType::Unknown),
        }
    }

    #[verifier::opaque]
    pub open spec fn closure_args_checked(self, args: List<HirExpr>, params: List<HirType>) -> TypeChecker
        decreases args, 3int, 0int,
    {
        match (args, params) {
            (Cons(arg, more), Cons(param, rest)) => {
                let (after, ty) = self.expected(*arg, *param);
                after.value_used(*arg, ty).fitted(Some(*param), ty).closure_args_checked(
                    *more,
                    *rest,
                )
            },
            _ => self,
        }
    }

    /// The checker after a function of this module is called by its name.
    #[verifier::opaque]
    pub open spec fn function_called(
        self,
        func: Rc<HirFunc>,
        name: StrId,
        span: SourceSpan,
        args: List<HirExpr>,
        type_args: Option<List<HirType>>,
    ) -> (TypeChecker, HirType)
        decreases args, 5int, 0int,
    {
        let noted = self.after_safety(*func, Message::UnsafeCall { name }).item_occurrence(
            span,
            name,
            or_void(func.return_type),
            func.declaring_module_idx,
        );
        let named = noted.recovered(
            noted.visibility_result(func.visibility, func.declaring_module_idx, name),
        ).after_function_name(name);
        let (resolved, given) = named.call_substitutions(*func, name, type_args);
        let subs = match func.params {
            Some(params) => extended(
                given,
                pre_inferred(resolved.context, *func, args, params),
            ),
            None => given,
        };
        let ready = resolved.with_pre_substitutions(subs).counted(
            param_count(*func),
            args.count(),
        );
        let ret_ty = substituted(or_void(func.return_type), subs);
        match func.params {
            None => (
                if type_args is None {
                    ready.after_inference(*func, subs, name, span)
                } else {
                    ready
                },
                ret_ty,
            ),
            Some(params) => (
                ready.args_passed(func, params_substituted(params, subs), args, ret_ty),
                ret_ty,
            ),
        }
    }

    /// The checker after the arguments of a call of a function.
    #[verifier::opaque]
    pub open spec fn args_passed(
        self,
        func: Rc<HirFunc>,
        params: List<HirParam>,
        args: List<HirExpr>,
        ret_ty: HirType,
    ) -> TypeChecker
        decreases args, 4int, 0int,
    {
        match params {
            Nil => self,
            Cons(first, _) => if *first is This {
                self.recorded(
                    TypeErrorKind::IllegalThisParam { func_name: func.unmangled_name },
                )
            } else {
                let (known, template) = self.call_template(*func, ret_ty);
                let (ready, passing) = known.call_reads(*func, args).passing(
                    templated_base(template),
                    func,
                );
                let (after, loans) = ready.args_checked(args, params, 0, passing);
                after.call_finalized(None, args, loans, ret_ty, template).0
            },
        }
    }

    /// The checker after the arguments for these parameters, and the loans they make.
    #[verifier::opaque]
    pub open spec fn args_checked(
        self,
        args: List<HirExpr>,
        params: List<HirParam>,
        index: usize,
        passing: Passing,
    ) -> (TypeChecker, List<usize>)
        decreases args, 3int, 0int,
    {
        match (args, params) {
            (Cons(arg, more), Cons(param, rest)) => {
                let (after, loans) = self.arg_passed(*arg, *param, index, passing);
                let (last, others) = after.args_checked(*more, *rest, after_usize(index), passing);
                (last, loans.then_all(others))
            },
            _ => (self, Nil),
        }
    }

    /// The checker after one argument, and the loans it makes.
    #[verifier::opaque]
    pub open spec fn arg_passed(
        self,
        arg: HirExpr,
        param: HirParam,
        index: usize,
        passing: Passing,
    ) -> (TypeChecker, List<usize>)
        decreases arg, 9int, 0int,
    {
        let declared = param.declared_type();
        let ignored = ignores_contents(passing.writes, passing.reads, index);
        match (param, arg.kind) {
            (
                HirParam::Normal { multi_place: Some(accesses), .. },
                ExprKind::Ref { expr: place, ref_kind, span },
            ) => {
                let (after, ty) = self.ref_checked(*place, ref_kind, span, false);
                let fitting = after.fitted(declared, ty);
                let marked = if ref_kind is Shared {
                    fitting
                } else {
                    fitting.after_mut_target(*place)
                };
                marked.multi_place_loans(*place, accesses)
            },
            (_, ExprKind::Ref { expr: place, ref_kind, span }) => if passing.base == Some(index) {
                let (after, ty) = self.ref_deferred(
                    *place,
                    ref_kind,
                    span,
                    false,
                    !(ref_kind is Shared) && ignored,
                );
                let fitting = after.fitted(declared, ty);
                (
                    if ref_kind is Shared {
                        fitting
                    } else {
                        fitting.after_mut_target(*place)
                    },
                    Nil,
                )
            } else if param is Normal && !(ref_kind is Shared) {
                let (after, ty) = self.ref_deferred(*place, ref_kind, span, true, ignored);
                let fitting = after.fitted(declared, ty);
                let marked = if ignored {
                    fitting.after_mut_target(*place)
                } else {
                    fitting
                };
                marked.arg_loan(*place)
            } else {
                let (after, ty) = self.arg_checked(arg, declared, passing.func);
                after.value_used(arg, ty).fitted(declared, ty).arg_loan(*place)
            },
            _ => {
                let (after, ty) = self.arg_checked(arg, declared, passing.func);
                (after.value_used(arg, ty).fitted(declared, ty), Nil)
            },
        }
    }

    /// The checker after an argument that is handed over as a value.
    #[verifier::opaque]
    pub open spec fn arg_checked(self, arg: HirExpr, declared: Option<HirType>, func: Rc<HirFunc>) -> (
        TypeChecker,
        HirType,
    )
        decreases arg, 8int, 0int,
    {
        match declared {
            None => self.checked(arg),
            Some(ty) => if arg.kind is Lambda {
                match closure_constraint(ty, Some(*func), self.closures.pre_subs) {
                    Some(constraint) => self.lambda_checked(arg, Some(constraint), true),
                    None => self.expected(arg, ty),
                }
            } else {
                self.expected(arg, ty)
            },
        }
    }

    /// The checker after a method is called.
    #[verifier::opaque]
    pub open spec fn method_called(
        self,
        call: HirExpr,
        object: HirExpr,
        method: StrId,
        span: SourceSpan,
        object_ty: HirType,
        args: List<HirExpr>,
    ) -> (TypeChecker, HirType)
        decreases args, 6int, 0int,
    {
        let ty = stripped(object_ty);
        let primitive = if slice_primitive(method) {
            match ty {
                HirType::Slice(elem) => Some(*elem),
                HirType::Array(elem, _) => Some(*elem),
                _ => None,
            }
        } else {
            None
        };
        match (primitive, interface_of(self.context, ty)) {
            (Some(elem), _) => self.primitive_called(object, elem, method, args),
            (None, Some(interface)) => self.interface_method_called(
                object,
                object_ty,
                interface,
                method,
                args,
            ),
            (None, None) => match self.callable(ty, method) {
                None => (
                    self.said(Message::NoMethod { method, ty: object_ty }),
                    HirType::Unknown,
                ),
                Some((owner, func)) => self.own_method_called(
                    call,
                    object,
                    method,
                    span,
                    object_ty,
                    owner,
                    func,
                    args,
                ),
            },
        }
    }

    /// The checker after a method of an interface is called on an object.
    #[verifier::opaque]
    pub open spec fn interface_method_called(
        self,
        object: HirExpr,
        object_ty: HirType,
        interface: StrId,
        method: StrId,
        args: List<HirExpr>,
    ) -> (TypeChecker, HirType)
        decreases args, 5int, 0int,
    {
        match self.interface_method(interface, method) {
            Err(kind) => (self.recorded(kind), HirType::Unknown),
            Ok(func) => {
                let ready = self.counted(method_param_count(func), args.count());
                (
                    match func.params {
                        None => ready,
                        Some(params) => ready.interface_receiver(
                            object,
                            object_ty,
                            method,
                            params,
                        ).plain_args_checked(args, behind_first(params)),
                    },
                    or_void(func.return_type),
                )
            },
        }
    }

    /// The method of an interface, or why there is none.
    #[verifier::opaque]
    pub open spec fn interface_method(self, interface: StrId, method: StrId) -> Result<
        HirFunc,
        TypeErrorKind,
    > {
        match lookup(self.context.interfaces, interface) {
            None => Err(TypeErrorKind::UndefinedType(interface)),
            Some(iface) => {
                let found = match iface.methods {
                    Some(methods) => method_named(methods, method),
                    None => None,
                };
                match found {
                    Some(func) => Ok(func),
                    None => Err(
                        TypeErrorKind::Generic(Message::NoInterfaceMethod { method, interface }),
                    ),
                }
            },
        }
    }

    #[verifier::opaque]
    pub open spec fn plain_args_checked(self, args: List<HirExpr>, params: List<HirParam>) -> TypeChecker
        decreases args, 3int, 0int,
    {
        match (args, params) {
            (Cons(arg, more), Cons(param, rest)) => {
                let (after, ty) = self.checked(*arg);
                after.value_used(*arg, ty).fitted(param.declared_type(), ty).plain_args_checked(
                    *more,
                    *rest,
                )
            },
            _ => self,
        }
    }

    /// The checker after a method of a type is called on an object.
    #[verifier::opaque]
    pub open spec fn own_method_called(
        self,
        call: HirExpr,
        object: HirExpr,
        method: StrId,
        span: SourceSpan,
        object_ty: HirType,
        owner: StrId,
        func: Rc<HirFunc>,
        args: List<HirExpr>,
    ) -> (TypeChecker, HirType)
        decreases args, 5int, 0int,
    {
        let ready = self.after_safety(
            *func,
            Message::UnsafeMethodCall { owner, name: method },
        ).counted(method_param_count(*func), args.count());
        let subs = struct_substitutions(
            ready.context,
            owner,
            match stripped(object_ty) {
                HirType::Struct { type_args, .. } => type_args,
                _ => Nil,
            },
        );
        let ret_ty = substituted(or_void(func.return_type), subs);
        let (known, template) = ready.method_occurrence(span, method, ret_ty, owner).call_template(
            *func,
            ret_ty,
        );
        match func.params {
            None => (known, ret_ty),
            Some(params) => {
                let (received, receiver_loans) = known.receiver_passed(
                    call,
                    object,
                    object_ty,
                    method,
                    params,
                    ret_ty,
                    template,
                );
                let (prepared, passing) = received.call_reads(*func, args).passing(None, func);
                let (passed, loans) = prepared.args_checked(
                    args,
                    behind_first(params_substituted(params, subs)),
                    0,
                    passing,
                );
                let (last, loan) = passed.call_finalized(
                    Some(object),
                    args,
                    loans,
                    ret_ty,
                    template,
                );
                (
                    match loan {
                        Some(made) => last.call_loan_kept(call.key, made).loans_ended_if(
                            receiver_loans,
                            made,
                        ),
                        None => last,
                    },
                    ret_ty,
                )
            },
        }
    }

    pub open spec fn call_loan_kept(self, key: usize, loan: usize) -> TypeChecker {
        TypeChecker {
            loans: LoanTables { calls: updated(self.loans.calls, key, loan), ..self.loans },
            ..self
        }
    }

    /// The checker after one of the unchecked accesses to a slice.
    #[verifier::opaque]
    pub open spec fn primitive_called(
        self,
        object: HirExpr,
        elem: HirType,
        method: StrId,
        args: List<HirExpr>,
    ) -> (TypeChecker, HirType)
        decreases args, 5int, 0int,
    {
        let ret_ty = if method == StrId::Known(Word::GetUnchecked) {
            elem
        } else {
            HirType::Void
        };
        let guarded = if self.unsafe_here() {
            self
        } else {
            self.said(Message::PrimitiveNeedsUnsafe { method })
        };
        let wanted: usize = if method == StrId::Known(Word::WriteUninit) {
            2
        } else {
            1
        };
        let changed = method != StrId::Known(Word::GetUnchecked);
        if args.count() != wanted {
            (
                guarded.recorded(
                    TypeErrorKind::InvalidFunctionCall {
                        expected_args: wanted,
                        found_args: args.count(),
                    },
                ).all_checked(args).0,
                ret_ty,
            )
        } else {
            let allowed = if changed {
                guarded.recovered(guarded.receiver_result(object, method))
            } else {
                guarded
            };
            (
                allowed.place_used(object, receiver_use(changed)).primitive_args_checked(
                    elem,
                    method,
                    args,
                ),
                ret_ty,
            )
        }
    }

    #[verifier::opaque]
    pub open spec fn primitive_args_checked(self, elem: HirType, method: StrId, args: List<HirExpr>) -> TypeChecker
        decreases args, 4int, 0int,
    {
        match args {
            Nil => self,
            Cons(first, rest) => if method == StrId::Known(Word::WriteUninitAll) {
                let (after, source_ty) = self.checked(*first);
                let fitting = match stripped(source_ty) {
                    HirType::Slice(found) => after.fitted(Some(elem), *found),
                    HirType::Array(found, _) => after.fitted(Some(elem), *found),
                    _ => after.said(Message::WriteAllNeedsSlice { ty: source_ty }),
                };
                fitting.place_used(*first, BorrowKind::Shared)
            } else {
                let (after, index_ty) = self.expected(*first, HirType::Usize);
                let indexed = if integer(index_ty) {
                    after
                } else {
                    after.said(Message::IndexNotInteger { ty: index_ty })
                };
                if method == StrId::Known(Word::WriteUninit) {
                    match *rest {
                        Nil => indexed,
                        Cons(value, _) => {
                            let (last, value_ty) = indexed.expected(*value, elem);
                            last.value_used(*value, value_ty).fitted(Some(elem), value_ty)
                        },
                    }
                } else {
                    indexed
                }
            },
        }
    }

    /// The checker after a function of another module, or a method of one of its types, is called.
    #[verifier::opaque]
    pub open spec fn member_called(self, access: HirModuleAccess, args: List<HirExpr>) -> (
        TypeChecker,
        HirType,
    )
        decreases args, 5int, 0int,
    {
        let target = self.module_target(access.path);
        match self.member_function(access.path, target, access.member, true) {
            None => (
                self.function_missing(
                    FunctionName::Qualified(access.path, access.member),
                    access.member,
                ),
                HirType::Unknown,
            ),
            Some(func) => {
                let ready = self.after_module_path(access.path).counted(
                    param_count(*func),
                    args.count(),
                );
                let ret_ty = or_void(func.return_type);
                let passed = match func.params {
                    None => ready,
                    Some(params) => {
                        let (prepared, passing) = ready.call_reads(*func, args).passing(
                            None,
                            func,
                        );
                        let (after, loans) = prepared.args_checked(args, params, 0, passing);
                        if after.aliases(ret_ty) {
                            after
                        } else {
                            after.loans_ended(loans)
                        }
                    },
                };
                (
                    match target.0 {
                        None => passed,
                        Some(module) => if self.free_function(target.0, access.member) is Some {
                            passed.item_occurrence(access.span, access.member, ret_ty, module)
                        } else {
                            match target.1 {
                                Some(owner) => passed.method_occurrence(
                                    access.span,
                                    access.member,
                                    ret_ty,
                                    owner,
                                ),
                                None => passed,
                            }
                        },
                    },
                    ret_ty,
                )
            },
        }
    }

    /// The checker after a call through an interface.
    #[verifier::opaque]
    pub open spec fn interface_call_checked(self, expr: HirExpr) -> (TypeChecker, HirType)
        decreases expr, 1int, 0int,
    {
        match expr.kind {
            ExprKind::InterfaceCall { callee, interface, args, .. } => match callee.kind {
                ExprKind::FieldAccess { object, field, .. } | ExprKind::Get { object, field, .. } => {
                    let (after, _) = self.checked(*object);
                    match after.interface_method(interface, field) {
                        Err(kind) => (after.recorded(kind), HirType::Unknown),
                        Ok(func) => {
                            let ready = after.counted(method_param_count(func), args.count());
                            (
                                match func.params {
                                    None => ready,
                                    Some(params) => ready.typed_args_checked(
                                        args,
                                        behind_first(params),
                                    ),
                                },
                                or_void(func.return_type),
                            )
                        },
                    }
                },
                _ => (self.said(Message::InterfaceCalleeNotField), HirType::Unknown),
            },
            _ => (self, HirType::Unknown),
        }
    }

    #[verifier::opaque]
    pub open spec fn typed_args_checked(self, args: List<HirExpr>, params: List<HirParam>) -> TypeChecker
        decreases args, 3int, 0int,
    {
        match (args, params) {
            (Cons(arg, more), Cons(param, rest)) => {
                let (after, ty) = match param.declared_type() {
                    Some(declared) => self.expected(*arg, declared),
                    None => self.checked(*arg),
                };
                after.value_used(*arg, ty).fitted(param.declared_type(), ty).typed_args_checked(
                    *more,
                    *rest,
                )
            },
            _ => self,
        }
    }

    pub fn check_call_expr(&mut self, expr: &HirExpr) -> (ty: HirType)
        ensures
            (*final(self), ty) == old(self).call_checked(*expr),
            final(self).settled(*old(self)),
        decreases expr, 1int, 0int,
    {
        proof {
            reveal(TypeChecker::call_checked);
            reveal(TypeChecker::function_called);
            reveal(TypeChecker::member_called);
            reveal(TypeChecker::method_called);
            reveal(TypeChecker::value_called);
        }
        match &expr.kind {
            ExprKind::Call { callee, args, span, type_args } => match &callee.kind {
                ExprKind::Ident(name, ident_span) => {
                    self.set_span(*ident_span);
                    if self.context.is_local_binding(*name) {
                        let ty = self.check_expr(callee);
                        self.check_value_call(&ty, args)
                    } else {
                        match self.context.get_function(*name) {
                            None => {
                                self.record(
                                    TypeErrorKind::UndefinedFunction(FunctionName::Plain(*name)),
                                );
                                HirType::Unknown
                            },
                            Some(func) => self.check_function_call(
                                func,
                                *name,
                                *ident_span,
                                args,
                                type_args,
                            ),
                        }
                    }
                },
                ExprKind::FieldAccess { object, field, span: field_span } => {
                    self.set_span(*field_span);
                    let object_ty = self.check_expr(object);
                    self.check_method_call(expr, object, *field, *field_span, &object_ty, args)
                },
                ExprKind::ModuleAccess(access) => {
                    self.set_span(access.span);
                    self.check_member_call(access, args)
                },
                _ => {
                    self.set_span(*span);
                    let ty = self.check_expr(callee);
                    match &ty {
                        HirType::Lambda { return_type, .. } => return_type.dup(),
                        _ => {
                            self.say(Message::NotCallable { ty: ty.dup() });
                            HirType::Unknown
                        },
                    }
                },
            },
            _ => HirType::Unknown,
        }
    }

    fn check_value_call(&mut self, ty: &HirType, args: &List<HirExpr>) -> (result: HirType)
        ensures
            (*final(self), result) == old(self).value_called(*ty, *args),
            final(self).settled(*old(self)),
        decreases args, 5int, 0int,
    {
        proof {
            reveal(TypeChecker::value_called);
            reveal(TypeChecker::closure_called);
        }
        match ty {
            HirType::Lambda { return_type, .. } => return_type.dup(),
            HirType::Generic(name) => {
                let constraint: Option<HirType> = match find(&self.closures.constraints, name) {
                    Some(constraint) => Some(constraint.dup()),
                    None => None,
                };
                match constraint {
                    Some(constraint) => self.check_closure_call(&constraint, args),
                    None => {
                        self.say(Message::NotCallable { ty: ty.dup() });
                        HirType::Unknown
                    },
                }
            },
            _ => {
                self.say(Message::NotCallable { ty: ty.dup() });
                HirType::Unknown
            },
        }
    }

    pub fn check_closure_call(&mut self, constraint: &HirType, args: &List<HirExpr>) -> (ty: HirType)
        ensures
            (*final(self), ty) == old(self).closure_called(*constraint, *args),
            final(self).settled(*old(self)),
        decreases args, 4int, 0int,
    {
        proof {
            reveal(TypeChecker::closure_called);
            reveal(TypeChecker::closure_args_checked);
        }
        match constraint {
            HirType::Lambda { params, return_type } => {
                self.check_arg_count(params.len(), args.len());
                self.check_closure_args(args, params);
                return_type.dup()
            },
            _ => HirType::Unknown,
        }
    }

    fn check_closure_args(&mut self, args: &List<HirExpr>, params: &List<HirType>)
        ensures
            *final(self) == old(self).closure_args_checked(*args, *params),
            final(self).settled(*old(self)),
        decreases args, 3int, 0int,
    {
        proof {
            reveal(TypeChecker::closure_args_checked);
        }
        match (args, params) {
            (Cons(arg, more), Cons(param, rest)) => {
                let ty = self.check_expr_expected(arg, param);
                self.check_and_record_value_use(arg, &ty);
                self.fit(Some(&**param), &ty);
                self.check_closure_args(more, rest);
            },
            _ => {},
        }
    }

    fn check_function_call(
        &mut self,
        func: Rc<HirFunc>,
        name: StrId,
        span: SourceSpan,
        args: &List<HirExpr>,
        type_args: &Option<List<HirType>>,
    ) -> (ty: HirType)
        ensures
            (*final(self), ty) == old(self).function_called(func, name, span, *args, *type_args),
            final(self).settled(*old(self)),
        decreases args, 5int, 0int,
    {
        proof {
            reveal(TypeChecker::function_called);
            reveal(TypeChecker::args_passed);
        }
        let declared = type_or_void(dup_type(&func.return_type));
        self.check_unsafe_call(&func, Message::UnsafeCall { name });
        self.record_item_occurrence(span, name, declared.dup(), func.declaring_module_idx);
        let visible = self.check_visibility(func.visibility, func.declaring_module_idx, name);
        self.recover(visible);
        self.check_name_import_visibility(name);
        let given = self.resolve_call_substitutions(&func, name, type_args);
        let subs = match &func.params {
            Some(params) => {
                let more = self.pre_infer_generics(&func, args, params);
                extend_substitutions(given, &more)
            },
            None => given,
        };
        self.closures.pre_subs = subs.dup();
        self.closures.generic_subs = Nil;
        self.check_arg_count(count_params(&func), args.len());
        let ret_ty = self.substitute_type_local(&declared, &subs);
        match &func.params {
            None => {
                if type_args.is_none() {
                    self.check_generics_inferred(&func, &subs, name, span);
                }
            },
            Some(params) => {
                let filled = self.substitute_params_local(params, &subs);
                self.check_potential_this_param_for_move(
                    crate::list::share(&func),
                    &filled,
                    args,
                    &ret_ty,
                );
            },
        }
        ret_ty
    }

    pub fn check_potential_this_param_for_move(
        &mut self,
        func: Rc<HirFunc>,
        params: &List<HirParam>,
        args: &List<HirExpr>,
        ret_ty: &HirType,
    )
        ensures
            *final(self) == old(self).args_passed(func, *params, *args, *ret_ty),
            final(self).settled(*old(self)),
        decreases args, 4int, 0int,
    {
        proof {
            reveal(TypeChecker::args_passed);
            reveal(TypeChecker::args_checked);
        }
        match params {
            Nil => {},
            Cons(first, _) => {
                if matches!(**first, HirParam::This { .. }) {
                    self.record(
                        TypeErrorKind::IllegalThisParam { func_name: func.unmangled_name },
                    );
                } else {
                    let template = self.find_call_template(&func, ret_ty);
                    self.check_call_reads(&func, args);
                    let passing = self.prepare_passing(find_templated_base(&template), func);
                    let loans = self.check_all_func_args(args, params, 0, &passing);
                    self.finalize_call_loans(None, args, &loans, ret_ty, &template);
                }
            },
        }
    }

    pub fn check_all_func_args(
        &mut self,
        args: &List<HirExpr>,
        params: &List<HirParam>,
        index: usize,
        passing: &Passing,
    ) -> (loans: List<usize>)
        ensures
            (*final(self), loans) == old(self).args_checked(*args, *params, index, *passing),
            final(self).settled(*old(self)),
        decreases args, 3int, 0int,
    {
        proof {
            reveal(TypeChecker::args_checked);
            reveal(TypeChecker::arg_passed);
        }
        match (args, params) {
            (Cons(arg, more), Cons(param, rest)) => {
                let loans = self.check_func_arg(arg, param, index, passing);
                let others = self.check_all_func_args(more, rest, next_usize(index), passing);
                loans.append(&others)
            },
            _ => Nil,
        }
    }

    fn check_func_arg(
        &mut self,
        arg: &HirExpr,
        param: &HirParam,
        index: usize,
        passing: &Passing,
    ) -> (loans: List<usize>)
        ensures
            (*final(self), loans) == old(self).arg_passed(*arg, *param, index, *passing),
            final(self).settled(*old(self)),
        decreases arg, 9int, 0int,
    {
        proof {
            reveal(TypeChecker::arg_passed);
            reveal(TypeChecker::arg_checked);
        }
        let ignored = Self::callee_ignores_initial_contents(
            &passing.writes,
            &passing.reads,
            index,
        );
        match &arg.kind {
            ExprKind::Ref { expr: place, ref_kind, span } => {
                let shared = matches!(ref_kind, RefKind::Shared);
                match param {
                    HirParam::Normal { multi_place: Some(accesses), .. } => {
                        let ty = self.check_ref_expr(place, *ref_kind, *span, false);
                        self.fit(param.get_type(), &ty);
                        if !shared {
                            self.optimistically_mark_mut_target_init(place);
                        }
                        return self.register_multi_place_loans(place, accesses);
                    },
                    _ => {},
                }
                let is_base = match passing.base {
                    Some(base) => base == index,
                    None => false,
                };
                if is_base {
                    let ty = self.check_ref_expr_deferring_init(
                        place,
                        *ref_kind,
                        *span,
                        false,
                        !shared && ignored,
                    );
                    self.fit(param.get_type(), &ty);
                    if !shared {
                        self.optimistically_mark_mut_target_init(place);
                    }
                    Nil
                } else if matches!(param, HirParam::Normal { .. }) && !shared {
                    let ty = self.check_ref_expr_deferring_init(
                        place,
                        *ref_kind,
                        *span,
                        true,
                        ignored,
                    );
                    self.fit(param.get_type(), &ty);
                    if ignored {
                        self.optimistically_mark_mut_target_init(place);
                    }
                    self.find_arg_loan(place)
                } else {
                    let ty = self.check_arg_expr(arg, param.get_type(), &passing.func);
                    self.check_and_record_value_use(arg, &ty);
                    self.fit(param.get_type(), &ty);
                    self.find_arg_loan(place)
                }
            },
            _ => {
                let ty = self.check_arg_expr(arg, param.get_type(), &passing.func);
                self.check_and_record_value_use(arg, &ty);
                self.fit(param.get_type(), &ty);
                Nil
            },
        }
    }

    pub fn check_arg_expr(&mut self, arg: &HirExpr, declared: Option<&HirType>, func: &Rc<HirFunc>) -> (ty:
        HirType)
        ensures
            (*final(self), ty) == old(self).arg_checked(
                *arg,
                match declared {
                    Some(expected) => Some(*expected),
                    None => None,
                },
                *func,
            ),
            final(self).settled(*old(self)),
        decreases arg, 8int, 0int,
    {
        proof {
            reveal(TypeChecker::arg_checked);
        }
        match declared {
            None => self.check_expr(arg),
            Some(ty) => {
                if matches!(arg.kind, ExprKind::Lambda { .. }) {
                    match self.closure_constraint_for(ty, Some(&**func)) {
                        Some(constraint) => self.check_lambda(arg, &Some(constraint), true),
                        None => self.check_expr_expected(arg, ty),
                    }
                } else {
                    self.check_expr_expected(arg, ty)
                }
            },
        }
    }

    fn check_method_call(
        &mut self,
        call: &HirExpr,
        object: &HirExpr,
        method: StrId,
        span: SourceSpan,
        object_ty: &HirType,
        args: &List<HirExpr>,
    ) -> (result: HirType)
        ensures
            (*final(self), result) == old(self).method_called(
                *call,
                *object,
                method,
                span,
                *object_ty,
                *args,
            ),
            final(self).settled(*old(self)),
        decreases args, 6int, 0int,
    {
        proof {
            reveal(TypeChecker::method_called);
            reveal(TypeChecker::interface_method_called);
            reveal(TypeChecker::own_method_called);
            reveal(TypeChecker::primitive_called);
        }
        let ty = Self::strip_ref(object_ty);
        let known = method == StrId::Known(Word::WriteUninit) || method == StrId::Known(
            Word::WriteUninitAll,
        ) || method == StrId::Known(Word::GetUnchecked);
        if known {
            match ty {
                HirType::Slice(elem) => {
                    return self.check_slice_primitive_call(object, elem, method, args);
                },
                HirType::Array(elem, _) => {
                    return self.check_slice_primitive_call(object, elem, method, args);
                },
                _ => {},
            }
        }
        match self.interface_name(ty) {
            Some(interface) => self.check_interface_method_call(
                object,
                object_ty,
                interface,
                method,
                args,
            ),
            None => match self.resolve_callable_method(ty, method) {
                None => {
                    self.say(Message::NoMethod { method, ty: object_ty.dup() });
                    HirType::Unknown
                },
                Some((owner, func)) => self.check_own_method_call(
                    call,
                    object,
                    method,
                    span,
                    object_ty,
                    owner,
                    func,
                    args,
                ),
            },
        }
    }

    fn find_interface_method(&self, interface: StrId, method: StrId) -> (found: Result<
        Rc<HirFunc>,
        TypeErrorKind,
    >)
        ensures
            match self.interface_method(interface, method) {
                Ok(func) => found == Ok::<Rc<HirFunc>, TypeErrorKind>(Rc::new(func)),
                Err(kind) => found == Err::<Rc<HirFunc>, TypeErrorKind>(kind),
            },
    {
        proof {
            reveal(TypeChecker::interface_method);
        }
        match self.context.get_interface(interface) {
            None => Err(TypeErrorKind::UndefinedType(interface)),
            Some(iface) => {
                let found = match &iface.methods {
                    Some(methods) => find_method(methods, method),
                    None => None,
                };
                match found {
                    Some(func) => Ok(func),
                    None => Err(
                        TypeErrorKind::Generic(Message::NoInterfaceMethod { method, interface }),
                    ),
                }
            },
        }
    }

    fn check_interface_method_call(
        &mut self,
        object: &HirExpr,
        object_ty: &HirType,
        interface: StrId,
        method: StrId,
        args: &List<HirExpr>,
    ) -> (ty: HirType)
        ensures
            (*final(self), ty) == old(self).interface_method_called(
                *object,
                *object_ty,
                interface,
                method,
                *args,
            ),
            final(self).settled(*old(self)),
        decreases args, 5int, 0int,
    {
        proof {
            reveal(TypeChecker::interface_method_called);
            reveal(TypeChecker::plain_args_checked);
        }
        match self.find_interface_method(interface, method) {
            Err(kind) => {
                self.record(kind);
                HirType::Unknown
            },
            Ok(func) => {
                self.check_arg_count(count_method_params(&func), args.len());
                match &func.params {
                    None => {},
                    Some(params) => {
                        self.pass_interface_receiver(object, object_ty, method, params);
                        self.check_plain_args(args, &params_behind_first(params));
                    },
                }
                type_or_void(dup_type(&func.return_type))
            },
        }
    }

    fn check_plain_args(&mut self, args: &List<HirExpr>, params: &List<HirParam>)
        ensures
            *final(self) == old(self).plain_args_checked(*args, *params),
            final(self).settled(*old(self)),
        decreases args, 3int, 0int,
    {
        proof {
            reveal(TypeChecker::plain_args_checked);
        }
        match (args, params) {
            (Cons(arg, more), Cons(param, rest)) => {
                let ty = self.check_expr(arg);
                self.check_and_record_value_use(arg, &ty);
                self.fit(param.get_type(), &ty);
                self.check_plain_args(more, rest);
            },
            _ => {},
        }
    }

    fn check_own_method_call(
        &mut self,
        call: &HirExpr,
        object: &HirExpr,
        method: StrId,
        span: SourceSpan,
        object_ty: &HirType,
        owner: StrId,
        func: Rc<HirFunc>,
        args: &List<HirExpr>,
    ) -> (ty: HirType)
        ensures
            (*final(self), ty) == old(self).own_method_called(
                *call,
                *object,
                method,
                span,
                *object_ty,
                owner,
                func,
                *args,
            ),
            final(self).settled(*old(self)),
        decreases args, 5int, 0int,
    {
        proof {
            reveal(TypeChecker::own_method_called);
            reveal(TypeChecker::args_checked);
        }
        self.check_unsafe_call(&func, Message::UnsafeMethodCall { owner, name: method });
        self.check_arg_count(count_method_params(&func), args.len());
        let type_args = match Self::strip_ref(object_ty) {
            HirType::Struct { type_args, .. } => type_args.dup(),
            _ => Nil,
        };
        let subs = self.generic_substitutions_for_struct(owner, &type_args);
        let declared = type_or_void(dup_type(&func.return_type));
        let ret_ty = self.substitute_type_local(&declared, &subs);
        self.record_method_occurrence(span, method, ret_ty.dup(), owner);
        let template = self.find_call_template(&func, &ret_ty);
        match &func.params {
            None => {},
            Some(params) => {
                let receiver_loans = self.pass_receiver(
                    call,
                    object,
                    object_ty,
                    method,
                    params,
                    &ret_ty,
                    &template,
                );
                let filled = self.substitute_params_local(params, &subs);
                self.check_call_reads(&func, args);
                let passing = self.prepare_passing(None, crate::list::share(&func));
                let loans = self.check_all_func_args(
                    args,
                    &params_behind_first(&filled),
                    0,
                    &passing,
                );
                match self.finalize_call_loans(Some(object), args, &loans, &ret_ty, &template) {
                    Some(made) => {
                        self.keep_call_loan(call.key, made);
                        self.end_loans_if(&receiver_loans, made);
                    },
                    None => {},
                }
            },
        }
        ret_ty
    }

    pub fn keep_call_loan(&mut self, key: usize, loan: usize)
        ensures
            *final(self) == old(self).call_loan_kept(key, loan),
            final(self).settled_in_scope(*old(self)),
    {
        self.loans.calls = update(&self.loans.calls, key, loan);
    }

    pub fn check_slice_primitive_call(
        &mut self,
        object: &HirExpr,
        elem: &HirType,
        method: StrId,
        args: &List<HirExpr>,
    ) -> (ty: HirType)
        ensures
            (*final(self), ty) == old(self).primitive_called(*object, *elem, method, *args),
            final(self).settled(*old(self)),
        decreases args, 5int, 0int,
    {
        proof {
            reveal(TypeChecker::primitive_called);
            reveal(TypeChecker::primitive_args_checked);
        }
        let changed = method != StrId::Known(Word::GetUnchecked);
        let ret_ty = if changed {
            HirType::Void
        } else {
            elem.dup()
        };
        if !self.in_unsafe() {
            self.say(Message::PrimitiveNeedsUnsafe { method });
        }
        let wanted: usize = if method == StrId::Known(Word::WriteUninit) {
            2
        } else {
            1
        };
        let found: usize = args.len();
        if found != wanted {
            self.record(
                TypeErrorKind::InvalidFunctionCall { expected_args: wanted, found_args: found },
            );
            self.check_all(args);
            return ret_ty;
        }
        if changed {
            let result = self.check_receiver_is_mutable(object, method);
            self.recover(result);
        }
        self.use_place(object, use_of_receiver(changed));
        self.check_primitive_args(elem, method, args);
        ret_ty
    }

    fn check_primitive_args(&mut self, elem: &HirType, method: StrId, args: &List<HirExpr>)
        ensures
            *final(self) == old(self).primitive_args_checked(*elem, method, *args),
            final(self).settled(*old(self)),
        decreases args, 4int, 0int,
    {
        proof {
            reveal(TypeChecker::primitive_args_checked);
        }
        match args {
            Nil => {},
            Cons(first, rest) => {
                if method == StrId::Known(Word::WriteUninitAll) {
                    let source_ty = self.check_expr(first);
                    match Self::strip_ref(&source_ty) {
                        HirType::Slice(found) => self.fit(Some(elem), found),
                        HirType::Array(found, _) => self.fit(Some(elem), found),
                        _ => self.say(Message::WriteAllNeedsSlice { ty: source_ty.dup() }),
                    }
                    self.use_place(first, BorrowKind::Shared);
                } else {
                    let index_ty = self.check_expr_expected(first, &HirType::Usize);
                    if !self.is_integer(&index_ty) {
                        self.say(Message::IndexNotInteger { ty: index_ty });
                    }
                    if method == StrId::Known(Word::WriteUninit) {
                        match &**rest {
                            Nil => {},
                            Cons(value, _) => {
                                let value_ty = self.check_expr_expected(value, elem);
                                self.check_and_record_value_use(value, &value_ty);
                                self.fit(Some(elem), &value_ty);
                            },
                        }
                    }
                }
            },
        }
    }

    fn check_member_call(&mut self, access: &HirModuleAccess, args: &List<HirExpr>) -> (ty: HirType)
        ensures
            (*final(self), ty) == old(self).member_called(*access, *args),
            final(self).settled(*old(self)),
        decreases args, 5int, 0int,
    {
        proof {
            reveal(TypeChecker::member_called);
            reveal(TypeChecker::args_checked);
        }
        let target = self.resolve_module_target(&access.path);
        let free = self.find_free_function(target.0, access.member).is_some();
        match self.find_member_function(&access.path, target, access.member, true) {
            None => {
                self.report_missing_function(
                    FunctionName::Qualified(access.path.dup(), access.member),
                    access.member,
                );
                HirType::Unknown
            },
            Some(func) => {
                self.check_module_path_imported(&access.path);
                self.check_arg_count(count_params(&func), args.len());
                let ret_ty = type_or_void(dup_type(&func.return_type));
                match &func.params {
                    None => {},
                    Some(params) => {
                        self.check_call_reads(&func, args);
                        let passing = self.prepare_passing(None, crate::list::share(&func));
                        let loans = self.check_all_func_args(args, params, 0, &passing);
                        if !self.return_type_may_alias(&ret_ty) {
                            self.end_loans(&loans);
                        }
                    },
                }
                match target.0 {
                    None => {},
                    Some(module) => {
                        if free {
                            self.record_item_occurrence(
                                access.span,
                                access.member,
                                ret_ty.dup(),
                                module,
                            );
                        } else {
                            match target.1 {
                                Some(owner) => self.record_method_occurrence(
                                    access.span,
                                    access.member,
                                    ret_ty.dup(),
                                    owner,
                                ),
                                None => {},
                            }
                        }
                    },
                }
                ret_ty
            },
        }
    }

    pub fn check_interface_call_expr(&mut self, expr: &HirExpr) -> (ty: HirType)
        ensures
            (*final(self), ty) == old(self).interface_call_checked(*expr),
            final(self).settled(*old(self)),
        decreases expr, 1int, 0int,
    {
        proof {
            reveal(TypeChecker::interface_call_checked);
            reveal(TypeChecker::typed_args_checked);
        }
        match &expr.kind {
            ExprKind::InterfaceCall { callee, interface, args, .. } => match &callee.kind {
                ExprKind::FieldAccess { object, field, .. } | ExprKind::Get { object, field, .. } => {
                    self.check_expr(object);
                    match self.find_interface_method(*interface, *field) {
                        Err(kind) => {
                            self.record(kind);
                            HirType::Unknown
                        },
                        Ok(func) => {
                            self.check_arg_count(count_method_params(&func), args.len());
                            match &func.params {
                                None => {},
                                Some(params) => {
                                    self.check_typed_args(args, &params_behind_first(params));
                                },
                            }
                            type_or_void(dup_type(&func.return_type))
                        },
                    }
                },
                _ => {
                    self.say(Message::InterfaceCalleeNotField);
                    HirType::Unknown
                },
            },
            _ => HirType::Unknown,
        }
    }

    fn check_typed_args(&mut self, args: &List<HirExpr>, params: &List<HirParam>)
        ensures
            *final(self) == old(self).typed_args_checked(*args, *params),
            final(self).settled(*old(self)),
        decreases args, 3int, 0int,
    {
        proof {
            reveal(TypeChecker::typed_args_checked);
        }
        match (args, params) {
            (Cons(arg, more), Cons(param, rest)) => {
                let ty = match param.get_type() {
                    Some(declared) => self.check_expr_expected(arg, declared),
                    None => self.check_expr(arg),
                };
                self.check_and_record_value_use(arg, &ty);
                self.fit(param.get_type(), &ty);
                self.check_typed_args(more, rest);
            },
            _ => {},
        }
    }
}

} // verus!
