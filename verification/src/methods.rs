//! Which function a method call calls.

use std::rc::Rc;

use vstd::prelude::*;

use crate::closures::{find_lambda_constraint, lambda_constraint};
use crate::errors::{Message, TypeError, TypeErrorKind};
use crate::hir::{FuncSafety, HirExpr, HirFunc, HirGeneric, HirType, SourceSpan, StrId, Word};
use crate::instantiations::Substitutions;
use crate::list::{contains_key, has_key, lookup, share, Cons, List, Nil};
use crate::references::root_local;
use crate::type_checker::{TypeCheckResult, TypeChecker};
use crate::type_context::{find_list, list_at};

verus! {

/// The name under which the methods of a built-in type or a struct are filed.
pub open spec fn element_name(ty: HirType) -> Option<StrId> {
    match ty {
        HirType::I8 => Some(StrId::Known(Word::I8)),
        HirType::I16 => Some(StrId::Known(Word::I16)),
        HirType::I32 => Some(StrId::Known(Word::I32)),
        HirType::I64 => Some(StrId::Known(Word::I64)),
        HirType::I128 => Some(StrId::Known(Word::I128)),
        HirType::U8 => Some(StrId::Known(Word::U8)),
        HirType::U16 => Some(StrId::Known(Word::U16)),
        HirType::U32 => Some(StrId::Known(Word::U32)),
        HirType::U64 => Some(StrId::Known(Word::U64)),
        HirType::U128 => Some(StrId::Known(Word::U128)),
        HirType::Usize => Some(StrId::Known(Word::Usize)),
        HirType::Isize => Some(StrId::Known(Word::Isize)),
        HirType::F32 => Some(StrId::Known(Word::F32)),
        HirType::F64 => Some(StrId::Known(Word::F64)),
        HirType::Boolean => Some(StrId::Known(Word::Bool)),
        HirType::String => Some(StrId::Known(Word::Str)),
        HirType::Char => Some(StrId::Known(Word::Char)),
        HirType::Struct { name, .. } => Some(name),
        _ => None,
    }
}

/// The method of an interface with a name.
pub open spec fn method_named(methods: List<HirFunc>, name: StrId) -> Option<HirFunc>
    decreases methods,
{
    match methods {
        Nil => None,
        Cons(method, rest) => if method.unmangled_name == name {
            Some(*method)
        } else {
            method_named(*rest, name)
        },
    }
}

pub fn find_method(methods: &List<HirFunc>, name: StrId) -> (method: Option<Rc<HirFunc>>)
    ensures
        method == match method_named(*methods, name) {
            Some(found) => Some(Rc::new(found)),
            None => None,
        },
    decreases methods,
{
    match methods {
        Nil => None,
        Cons(method, rest) => if method.unmangled_name == name {
            Some(share(method))
        } else {
            find_method(rest, name)
        },
    }
}

/// The method of an interface with a name and a body.
pub open spec fn default_method(methods: List<HirFunc>, name: StrId) -> Option<HirFunc>
    decreases methods,
{
    match methods {
        Nil => None,
        Cons(method, rest) => if method.unmangled_name == name && method.body is Some {
            Some(*method)
        } else {
            default_method(*rest, name)
        },
    }
}

fn find_default_method(methods: &List<HirFunc>, name: StrId) -> (method: Option<Rc<HirFunc>>)
    ensures
        method == match default_method(*methods, name) {
            Some(found) => Some(Rc::new(found)),
            None => None,
        },
    decreases methods,
{
    match methods {
        Nil => None,
        Cons(method, rest) => if method.unmangled_name == name && method.body.is_some() {
            Some(share(method))
        } else {
            find_default_method(rest, name)
        },
    }
}

/// Whether a parameter is left over: it has no argument and is no closure.
pub open spec fn any_unresolved(generics: List<HirGeneric>, subs: Substitutions) -> bool
    decreases generics,
{
    match generics {
        Nil => false,
        Cons(generic, rest) => (!has_key(subs, generic.name) && lambda_constraint(
            generic.constraints,
        ) is None) || any_unresolved(*rest, subs),
    }
}

fn has_unresolved(generics: &List<HirGeneric>, subs: &Substitutions) -> (found: bool)
    ensures
        found == any_unresolved(*generics, *subs),
    decreases generics,
{
    match generics {
        Nil => false,
        Cons(generic, rest) => (!contains_key(subs, &generic.name) && find_lambda_constraint(
            &generic.constraints,
        ).is_none()) || has_unresolved(rest, subs),
    }
}

impl TypeChecker {
    /// The first method with a body that one of the interfaces has under a name.
    pub open spec fn inherited(self, interfaces: List<StrId>, method: StrId) -> Option<HirFunc>
        decreases interfaces,
    {
        match interfaces {
            Nil => None,
            Cons(interface, rest) => {
                let found = match lookup(self.context.interfaces, *interface) {
                    Some(iface) => match iface.methods {
                        Some(methods) => default_method(methods, method),
                        None => None,
                    },
                    None => None,
                };
                match found {
                    Some(func) => Some(func),
                    None => self.inherited(*rest, method),
                }
            },
        }
    }

    fn find_inherited(&self, interfaces: &List<StrId>, method: StrId) -> (func: Option<Rc<HirFunc>>)
        ensures
            func == match self.inherited(*interfaces, method) {
                Some(found) => Some(Rc::new(found)),
                None => None,
            },
        decreases interfaces,
    {
        match interfaces {
            Nil => None,
            Cons(interface, rest) => {
                let found = match self.context.get_interface(**interface) {
                    Some(iface) => match &iface.methods {
                        Some(methods) => find_default_method(methods, method),
                        None => None,
                    },
                    None => None,
                };
                match found {
                    Some(func) => Some(func),
                    None => self.find_inherited(rest, method),
                }
            },
        }
    }

    pub fn resolve_default_interface_method(&self, struct_name: StrId, method: StrId) -> (found: Option<
        (StrId, Rc<HirFunc>),
    >)
        ensures
            found == match self.inherited(
                list_at(self.context.struct_interfaces, struct_name),
                method,
            ) {
                Some(func) => Some((struct_name, Rc::new(func))),
                None => None,
            },
    {
        let interfaces = find_list(&self.context.struct_interfaces, &struct_name);
        match self.find_inherited(&interfaces, method) {
            Some(func) => Some((struct_name, func)),
            None => None,
        }
    }

    pub open spec fn own_method(self, owner: StrId, method: StrId) -> Option<(StrId, Rc<HirFunc>)> {
        match self.context.method_of(owner, method) {
            Some(func) => Some((owner, func)),
            None => None,
        }
    }

    fn find_own_method(&self, owner: StrId, method: StrId) -> (found: Option<(StrId, Rc<HirFunc>)>)
        ensures
            found == self.own_method(owner, method),
    {
        match self.context.get_method(owner, method) {
            Some(func) => Some((owner, func)),
            None => None,
        }
    }

    /// The method that a value of a type has under a name, and the type it is filed under. A struct
    /// has its own methods and those with a body of its interfaces; a slice has the methods of
    /// slices of its elements, then those of all slices.
    #[verifier::opaque]
    pub open spec fn callable(self, ty: HirType, method: StrId) -> Option<(StrId, Rc<HirFunc>)> {
        match ty {
            HirType::Struct { name, .. } => match self.own_method(name, method) {
                Some(found) => Some(found),
                None => match self.inherited(
                    list_at(self.context.struct_interfaces, name),
                    method,
                ) {
                    Some(func) => Some((name, Rc::new(func))),
                    None => None,
                },
            },
            HirType::Slice(elem) | HirType::Array(elem, _) => {
                let special = match element_name(*elem) {
                    Some(elem_name) => match lookup(self.program.graph.slice_types, elem_name) {
                        Some(owner) => self.own_method(owner, method),
                        None => None,
                    },
                    None => None,
                };
                match special {
                    Some(found) => Some(found),
                    None => self.own_method(StrId::Known(Word::Slice), method),
                }
            },
            _ => match element_name(ty) {
                Some(name) => self.own_method(name, method),
                None => None,
            },
        }
    }

    pub fn resolve_callable_method(&self, ty: &HirType, method: StrId) -> (found: Option<
        (StrId, Rc<HirFunc>),
    >)
        ensures
            found == self.callable(*ty, method),
    {
        proof {
            reveal(TypeChecker::callable);
        }
        match ty {
            HirType::Struct { name, .. } => match self.find_own_method(*name, method) {
                Some(found) => Some(found),
                None => self.resolve_default_interface_method(*name, method),
            },
            HirType::Slice(elem) | HirType::Array(elem, _) => {
                let special = match self.builtin_element_name(elem) {
                    Some(elem_name) => match self.program.graph.slice_type(elem_name) {
                        Some(owner) => self.find_own_method(owner, method),
                        None => None,
                    },
                    None => None,
                };
                match special {
                    Some(found) => Some(found),
                    None => self.find_own_method(StrId::Known(Word::Slice), method),
                }
            },
            _ => match self.builtin_element_name(ty) {
                Some(name) => self.find_own_method(name, method),
                None => None,
            },
        }
    }

    pub fn builtin_element_name(&self, ty: &HirType) -> (name: Option<StrId>)
        ensures
            name == element_name(*ty),
    {
        match ty {
            HirType::I8 => Some(StrId::Known(Word::I8)),
            HirType::I16 => Some(StrId::Known(Word::I16)),
            HirType::I32 => Some(StrId::Known(Word::I32)),
            HirType::I64 => Some(StrId::Known(Word::I64)),
            HirType::I128 => Some(StrId::Known(Word::I128)),
            HirType::U8 => Some(StrId::Known(Word::U8)),
            HirType::U16 => Some(StrId::Known(Word::U16)),
            HirType::U32 => Some(StrId::Known(Word::U32)),
            HirType::U64 => Some(StrId::Known(Word::U64)),
            HirType::U128 => Some(StrId::Known(Word::U128)),
            HirType::Usize => Some(StrId::Known(Word::Usize)),
            HirType::Isize => Some(StrId::Known(Word::Isize)),
            HirType::F32 => Some(StrId::Known(Word::F32)),
            HirType::F64 => Some(StrId::Known(Word::F64)),
            HirType::Boolean => Some(StrId::Known(Word::Bool)),
            HirType::String => Some(StrId::Known(Word::Str)),
            HirType::Char => Some(StrId::Known(Word::Char)),
            HirType::Struct { name, .. } => Some(*name),
            _ => None,
        }
    }

    /// A method that changes its receiver needs the local it lies in to be mutable.
    #[verifier::opaque]
    pub open spec fn receiver_result(self, receiver: HirExpr, method: StrId) -> TypeCheckResult<()> {
        match root_local(receiver) {
            None => Ok(()),
            Some(root) => if self.context.mutable_variables.has(root) {
                Ok(())
            } else {
                Err(
                    TypeError {
                        kind: TypeErrorKind::Generic(Message::ReceiverNotMut { method, root }),
                        span: self.diagnostics.current_span,
                    },
                )
            },
        }
    }

    pub fn check_receiver_is_mutable(&self, receiver: &HirExpr, method: StrId) -> (result: TypeCheckResult<
        (),
    >)
        ensures
            result == self.receiver_result(*receiver, method),
    {
        proof {
            reveal(TypeChecker::receiver_result);
        }
        match Self::find_root_local_ident(receiver) {
            None => Ok(()),
            Some(root) => if self.context.is_mutable(root) {
                Ok(())
            } else {
                Err(
                    TypeErrorKind::Generic(Message::ReceiverNotMut { method, root }).at(
                        self.diagnostics.current_span,
                    ),
                )
            },
        }
    }

    /// The checker after a call without type arguments, whose parameters must all be known by then.
    #[verifier::opaque]
    pub open spec fn after_inference(
        self,
        func: HirFunc,
        subs: Substitutions,
        name: StrId,
        span: SourceSpan,
    ) -> TypeChecker {
        match func.generics {
            None => self,
            Some(generics) => if any_unresolved(generics, subs) {
                self.at_span(span).said(Message::GenericsNotInferred { name })
            } else {
                self
            },
        }
    }

    pub fn check_generics_inferred(
        &mut self,
        func: &HirFunc,
        subs: &Substitutions,
        name: StrId,
        span: SourceSpan,
    )
        ensures
            *final(self) == old(self).after_inference(*func, *subs, name, span),
            final(self).settled_in_scope(*old(self)),
    {
        proof {
            reveal(TypeChecker::after_inference);
        }
        match &func.generics {
            None => {},
            Some(generics) => {
                if has_unresolved(generics, subs) {
                    self.set_span(span);
                    self.say(Message::GenericsNotInferred { name });
                }
            },
        }
    }

    /// The checker after a call: an unsafe function may be called in an unsafe block only.
    #[verifier::opaque]
    pub open spec fn after_safety(self, func: HirFunc, message: Message) -> TypeChecker {
        if func.func_safety is Unsafe && !self.unsafe_here() {
            self.said(message)
        } else {
            self
        }
    }

    pub fn check_unsafe_call(&mut self, func: &HirFunc, message: Message)
        ensures
            *final(self) == old(self).after_safety(*func, message),
            final(self).settled_in_scope(*old(self)),
    {
        proof {
            reveal(TypeChecker::after_safety);
        }
        if matches!(func.func_safety, FuncSafety::Unsafe) && !self.in_unsafe() {
            self.say(message);
        }
    }
}

/// A struct's own method hides those of its interfaces.
pub proof fn own_method_comes_first(checker: TypeChecker, ty: HirType, method: StrId)
    requires
        ty is Struct,
    ensures
        match checker.context.method_of(element_name(ty)->0, method) {
            Some(func) => checker.callable(ty, method) == Some((element_name(ty)->0, func)),
            None => true,
        },
{
    reveal(TypeChecker::callable);
}

} // verus!
