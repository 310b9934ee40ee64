//! Checking intrinsics.

use std::rc::Rc;

use vstd::prelude::*;

use crate::borrow::BorrowKind;
use crate::errors::{Atomic, Message, TypeErrorKind, TypeText};
use crate::expressions::{bookkeeping, slice_ownership};
use crate::hir::{
    ExprKind, HirExpr, HirType, IntrinsicKind, ProvenanceAnnotation, ProvenanceRoot, RefKind,
    StrId, Word,
};
use crate::list::{Cons, List, Nil};
use crate::ref_effects::field_path;
use crate::ref_provenance::provenance_of;
use crate::type_checker::TypeChecker;
use crate::types::{integer, peeked, stripped};

verus! {

/// The sizes that an owned slice is made with.
#[derive(Clone, Copy, Debug, PartialEq, Eq, Structural)]
pub enum OwnSize {
    Len,
    Cap,
    /// The only size that was given.
    Only,
}

impl OwnSize {
    pub open spec fn complaint(self, ty: HirType) -> Message {
        match self {
            OwnSize::Len => Message::OwnLenNotInteger { ty },
            OwnSize::Cap => Message::OwnCapNotInteger { ty },
            OwnSize::Only => Message::OwnArgNotInteger { ty },
        }
    }

    fn complain(self, ty: HirType) -> (message: Message)
        ensures
            message == self.complaint(ty),
    {
        match self {
            OwnSize::Len => Message::OwnLenNotInteger { ty },
            OwnSize::Cap => Message::OwnCapNotInteger { ty },
            OwnSize::Only => Message::OwnArgNotInteger { ty },
        }
    }
}

/// Whether a number is a positive power of two.
pub open spec fn power_of_two(value: int) -> bool
    decreases value,
{
    value == 1 || (value > 1 && value % 2 == 0 && power_of_two(value / 2))
}

fn is_power_of_two(value: i64) -> (yes: bool)
    ensures
        yes == power_of_two(value as int),
    decreases value,
{
    if value == 1 {
        true
    } else if value > 1 && value % 2 == 0 {
        is_power_of_two(value / 2)
    } else {
        false
    }
}

/// The place that an argument names, with or without a reference to it.
pub open spec fn replaced_place(arg: HirExpr) -> HirExpr {
    match arg.kind {
        ExprKind::Ref { expr, .. } => *expr,
        _ => arg,
    }
}

pub open spec fn names_place(expr: HirExpr) -> bool {
    expr.kind is Ident || expr.kind is FieldAccess || expr.kind is Get || expr.kind is Deref
        || expr.kind is Index
}

/// What a raw pointer points to.
pub open spec fn raw_pointee(ty: HirType) -> Option<HirType> {
    match ty {
        HirType::SafePointer { inner, .. } => Some(*inner),
        HirType::UnsafePointer { inner, .. } => Some(*inner),
        _ => None,
    }
}

fn find_raw_pointee(ty: &HirType) -> (pointee: Option<HirType>)
    ensures
        pointee == raw_pointee(*ty),
{
    match ty {
        HirType::SafePointer { inner, .. } => Some(inner.dup()),
        HirType::UnsafePointer { inner, .. } => Some(inner.dup()),
        _ => None,
    }
}

pub open spec fn owned_pointer(inner: HirType, allocator: ProvenanceAnnotation) -> HirType {
    HirType::OwnedPointer { inner: Rc::new(inner), allocator: Some(allocator) }
}

pub open spec fn this_allocator() -> ProvenanceAnnotation {
    ProvenanceAnnotation { root: ProvenanceRoot::ThisRoot, path: Nil }
}

impl TypeChecker {
    /// Whether an expression names the length or capacity of a slice.
    pub open spec fn names_slice_size(self, expr: HirExpr) -> bool {
        match expr.kind {
            ExprKind::FieldAccess { object, field, .. } | ExprKind::Get { object, field, .. } => {
                bookkeeping(field) && slice_ownership(peeked(self.context, *object)) is Some
            },
            _ => false,
        }
    }

    fn is_slice_size(&self, expr: &HirExpr) -> (yes: bool)
        ensures
            yes == self.names_slice_size(*expr),
    {
        match &expr.kind {
            ExprKind::FieldAccess { object, field, .. } | ExprKind::Get { object, field, .. } => {
                if *field == StrId::Known(Word::Len) || *field == StrId::Known(Word::Cap) {
                    Self::slice_field_owned(&self.peek_type(object)).is_some()
                } else {
                    false
                }
            },
            _ => false,
        }
    }

    /// What is known of a place once a new value is in it.
    #[verifier::opaque]
    pub open spec fn replacement_noted(self, place: HirExpr, value_ty: HirType) -> TypeChecker {
        match field_path(place) {
            None => self,
            Some((root, path)) => if value_ty is Nullable || value_ty is Null {
                self.cleared_non_null(root, path).field_marked(root, path)
            } else {
                self.marked_non_null(root, path).field_marked(root, path)
            },
        }
    }

    fn note_replacement(&mut self, place: &HirExpr, value_ty: &HirType)
        ensures
            *final(self) == old(self).replacement_noted(*place, *value_ty),
            final(self).settled_in_scope(*old(self)),
    {
        proof {
            reveal(TypeChecker::replacement_noted);
        }
        match Self::static_field_path(place) {
            None => {},
            Some((root, path)) => {
                if matches!(value_ty, HirType::Nullable(_) | HirType::Null) {
                    self.clear_non_null(root, &path);
                } else {
                    self.mark_non_null(root, &path);
                }
                self.mark_field_init(root, &path);
            },
        }
    }

    /// The checker after a complaint where something that must hold does not.
    pub open spec fn demanded(self, holds: bool, message: Message) -> TypeChecker {
        if holds {
            self
        } else {
            self.said(message)
        }
    }

    fn demand(&mut self, holds: bool, message: Message)
        ensures
            *final(self) == old(self).demanded(holds, message),
            final(self).settled_in_scope(*old(self)),
    {
        if !holds {
            self.say(message);
        }
    }

    /// The checker after an intrinsic, and the type of its value.
    #[verifier::opaque]
    pub open spec fn intrinsic_checked(self, expr: HirExpr) -> (TypeChecker, HirType)
        decreases expr, 1int, 0int,
    {
        match expr.kind {
            ExprKind::Intrinsic { kind, type_args, args, .. } => match kind {
                IntrinsicKind::Replace => self.demanded(
                    type_args is Nil,
                    Message::ReplaceNoTypeArgs,
                ).replace_checked(args),
                IntrinsicKind::Reinterpret => self.reinterpret_checked(type_args, args),
                IntrinsicKind::Unreachable => (
                    self.demanded(
                        type_args is Nil,
                        Message::UnreachableNoTypeArgs,
                    ).demanded(args is Nil, Message::UnreachableNoArgs),
                    HirType::Never,
                ),
                IntrinsicKind::SizeOf | IntrinsicKind::AlignOf | IntrinsicKind::TypeName => (
                    self.demanded(
                        type_args.count() == 1,
                        Message::OneTypeArg { found: type_args.count() },
                    ).demanded(args is Nil, Message::NoValueArgs),
                    if kind is TypeName {
                        HirType::String
                    } else {
                        HirType::Usize
                    },
                ),
                IntrinsicKind::Own => self.demanded(
                    type_args is Nil,
                    Message::OwnNoTypeArgs,
                ).own_checked(expr.key, args),
                IntrinsicKind::AssertAlign => (
                    self.demanded(
                        type_args is Nil,
                        Message::AlignNoTypeArgs,
                    ).align_checked(args),
                    HirType::Void,
                ),
                IntrinsicKind::AtomicCasU32 => (
                    self.atomic_checked(Atomic::Cas, 3, args),
                    HirType::U32,
                ),
                IntrinsicKind::AtomicLoadU32 => (
                    self.atomic_checked(Atomic::Load, 1, args),
                    HirType::U32,
                ),
                IntrinsicKind::AtomicStoreU32 => (
                    self.atomic_checked(Atomic::Store, 2, args),
                    HirType::Void,
                ),
                IntrinsicKind::CpuRelax => (
                    self.demanded(args is Nil, Message::CpuRelaxNoArgs),
                    HirType::Void,
                ),
            },
            _ => (self, HirType::Unknown),
        }
    }

    /// The checker after `$replace`, whose value is what was in the place before.
    #[verifier::opaque]
    pub open spec fn replace_checked(self, args: List<HirExpr>) -> (TypeChecker, HirType)
        decreases args, 5int, 0int,
    {
        if args.count() != 2 {
            (self.counted(2, args.count()), HirType::Unknown)
        } else {
            match args {
                Nil => (self, HirType::Unknown),
                Cons(target, rest) => match *rest {
                    Nil => (self, HirType::Unknown),
                    Cons(value, _) => {
                        let place = replaced_place(*target);
                        if !names_place(place) {
                            (self.said(Message::ReplaceNeedsPlace), HirType::Unknown)
                        } else if value.kind is Uninit {
                            (self.said(Message::ReplaceUninit), HirType::Unknown)
                        } else if self.names_slice_size(place) {
                            (self.said(Message::ReplaceSliceField), HirType::Unknown)
                        } else {
                            let (seen, target_ty) = match target.kind {
                                ExprKind::Ref { expr: inner, .. } => self.placed(*inner),
                                _ => self.placed(*target),
                            };
                            let (valued, value_ty) = seen.after_compound_read(
                                place,
                                target_ty,
                            ).expected(*value, target_ty);
                            (
                                valued.value_used(*value, value_ty).fitted(
                                    Some(target_ty),
                                    value_ty,
                                ).mutability_checked(place, true).place_used(
                                    place,
                                    BorrowKind::Mutable,
                                ).replacement_noted(place, value_ty),
                                target_ty,
                            )
                        }
                    },
                },
            }
        }
    }

    #[verifier::opaque]
    pub open spec fn reinterpret_checked(self, type_args: List<HirType>, args: List<HirExpr>) -> (
        TypeChecker,
        HirType,
    )
        decreases args, 5int, 0int,
    {
        match type_args {
            Cons(target, more) => if type_args.count() != 1 {
                (
                    self.said(Message::ReinterpretTypeArgCount { found: type_args.count() }),
                    HirType::Unknown,
                )
            } else {
                match args {
                    Cons(source, _) => if args.count() != 1 {
                        (self.counted(1, args.count()), HirType::Unknown)
                    } else {
                        let (seen, ty) = self.checked(*source);
                        let used = seen.value_used(*source, ty);
                        (
                            used.demanded(
                                used.unsafe_here(),
                                Message::ReinterpretNeedsUnsafe,
                            ),
                            *target,
                        )
                    },
                    Nil => (self.counted(1, 0), HirType::Unknown),
                }
            },
            Nil => (self.said(Message::ReinterpretTypeArgCount { found: 0 }), HirType::Unknown),
        }
    }

    /// The checker after `$own`.
    #[verifier::opaque]
    pub open spec fn own_checked(self, key: usize, args: List<HirExpr>) -> (TypeChecker, HirType)
        decreases args, 5int, 0int,
    {
        match args {
            Nil => (self.said(Message::OwnArgCount { found: 0 }), HirType::Unknown),
            Cons(pointer, rest) => if args.count() > 4 {
                (self.said(Message::OwnArgCount { found: args.count() }), HirType::Unknown)
            } else {
                let (seen, ty) = self.checked(*pointer);
                let used = seen.value_used(*pointer, ty);
                match raw_pointee(stripped(ty)) {
                    None => (used.said(Message::OwnNeedsPointer { ty }), HirType::Unknown),
                    Some(pointee) => used.own_made(key, *rest, pointee),
                }
            },
        }
    }

    /// The checker after the arguments of `$own` behind the pointer: an allocator, then a length
    /// and a capacity. A single one is a length if it is an integer.
    #[verifier::opaque]
    pub open spec fn own_made(self, key: usize, rest: List<HirExpr>, pointee: HirType) -> (
        TypeChecker,
        HirType,
    )
        decreases rest, 4int, 0int,
    {
        match rest {
            Nil => (self, owned_pointer(pointee, this_allocator())),
            Cons(second, more) => match *more {
                Nil => {
                    let (seen, ty) = self.checked(*second);
                    if integer(ty) {
                        (
                            seen.own_size_checked(*second, OwnSize::Only).said(
                                Message::OwnNeedsLenAndCap,
                            ),
                            owned_pointer(HirType::Slice(Rc::new(pointee)), this_allocator()),
                        )
                    } else {
                        let (after, allocator) = seen.allocator_checked(key, *second);
                        match allocator {
                            None => (after, HirType::Unknown),
                            Some(provenance) => (after, owned_pointer(pointee, provenance)),
                        }
                    }
                },
                Cons(len, last) => {
                    let (after, allocator) = self.allocator_checked(key, *second);
                    match allocator {
                        None => (after, HirType::Unknown),
                        Some(provenance) => (
                            match *last {
                                Nil => after.own_size_checked(*len, OwnSize::Only).said(
                                    Message::OwnNeedsLenAndCap,
                                ),
                                Cons(cap, _) => after.own_size_checked(
                                    *len,
                                    OwnSize::Len,
                                ).own_size_checked(*cap, OwnSize::Cap),
                            },
                            owned_pointer(HirType::Slice(Rc::new(pointee)), provenance),
                        ),
                    }
                },
            },
        }
    }

    #[verifier::opaque]
    pub open spec fn own_size_checked(self, size: HirExpr, which: OwnSize) -> TypeChecker
        decreases size, 5int, 0int,
    {
        let (seen, ty) = self.checked(size);
        seen.value_used(size, ty).demanded(integer(ty), which.complaint(ty))
    }

    /// The checker after the allocator of `$own`, and where it is. What is made borrows an
    /// allocator that is not a global.
    #[verifier::opaque]
    pub open spec fn allocator_checked(self, key: usize, expr: HirExpr) -> (
        TypeChecker,
        Option<ProvenanceAnnotation>,
    )
        decreases expr, 5int, 0int,
    {
        let (seen, ty) = self.checked(expr);
        let used = seen.value_used(expr, ty);
        match provenance_of(used.program.graph, expr) {
            None => (used.said(Message::OwnAllocatorUnstable), None),
            Some(provenance) => match stripped(ty) {
                HirType::Struct { name, .. } => (
                    used.demanded(
                        used.context.implements(name, StrId::Known(Word::RawAllocator)),
                        Message::NotRawAllocator { name },
                    ).allocator_borrowed(key, expr, provenance),
                    Some(provenance),
                ),
                _ => (used.said(Message::OwnAllocatorNotStruct), None),
            },
        }
    }

    #[verifier::opaque]
    pub open spec fn allocator_borrowed(
        self,
        key: usize,
        expr: HirExpr,
        provenance: ProvenanceAnnotation,
    ) -> TypeChecker {
        if provenance.root is Global {
            self
        } else {
            let (after, place) = self.resolved(expr);
            match place {
                None => after,
                Some(source) => {
                    let (made, loan) = after.borrowed(source, RefKind::Shared, Some(provenance));
                    made.call_loan_kept(key, loan)
                },
            }
        }
    }

    fn borrow_allocator(&mut self, key: usize, expr: &HirExpr, provenance: &ProvenanceAnnotation)
        ensures
            *final(self) == old(self).allocator_borrowed(key, *expr, *provenance),
            final(self).settled_in_scope(*old(self)),
    {
        proof {
            reveal(TypeChecker::allocator_borrowed);
        }
        if !matches!(provenance.root, ProvenanceRoot::Global { .. }) {
            match self.resolve_place(expr) {
                None => {},
                Some(source) => {
                    let loan: usize = self.borrow_place(
                        source,
                        RefKind::Shared,
                        Some(provenance.dup()),
                    );
                    self.keep_call_loan(key, loan);
                },
            }
        }
    }

    /// The checker after `$assert_align`.
    #[verifier::opaque]
    pub open spec fn align_checked(self, args: List<HirExpr>) -> TypeChecker
        decreases args, 5int, 0int,
    {
        if args.count() != 2 {
            self.counted(2, args.count())
        } else {
            match args {
                Nil => self,
                Cons(pointer, rest) => match *rest {
                    Nil => self,
                    Cons(align, _) => {
                        let (seen, ty) = self.checked(*pointer);
                        let pointed = seen.value_used(*pointer, ty).demanded(
                            stripped(ty) is SafePointer || stripped(ty) is UnsafePointer
                                || stripped(ty) is OwnedPointer,
                            Message::AlignNeedsPointer { ty },
                        );
                        let (aligned, align_ty) = pointed.checked(*align);
                        let told = aligned.demanded(
                            integer(align_ty),
                            Message::AlignNotInteger { ty: align_ty },
                        );
                        match align.kind {
                            ExprKind::Number(value, _) => told.demanded(
                                power_of_two(value as int),
                                Message::AlignNotPowerOfTwo { value },
                            ),
                            _ => told,
                        }
                    },
                },
            }
        }
    }

    /// The checker after one of the atomic operations.
    #[verifier::opaque]
    pub open spec fn atomic_checked(self, atomic: Atomic, wanted: usize, args: List<HirExpr>) -> TypeChecker
        decreases args, 5int, 0int,
    {
        let guarded = self.demanded(
            self.unsafe_here(),
            Message::AtomicNeedsUnsafe { atomic },
        );
        if args.count() != wanted {
            guarded.counted(wanted, args.count())
        } else {
            match args {
                Nil => guarded,
                Cons(pointer, rest) => {
                    let (seen, ty) = guarded.checked(*pointer);
                    seen.value_used(*pointer, ty).demanded(
                        raw_pointee(stripped(ty)) == Some(HirType::U32),
                        Message::AtomicNeedsPointer { atomic, ty },
                    ).words_checked(*rest)
                },
            }
        }
    }

    #[verifier::opaque]
    pub open spec fn words_checked(self, args: List<HirExpr>) -> TypeChecker
        decreases args, 0int, 0int,
    {
        match args {
            Nil => self,
            Cons(arg, rest) => {
                let (seen, ty) = self.checked(*arg);
                let used = seen.value_used(*arg, ty);
                let told = if ty is U32 {
                    used
                } else {
                    used.mismatched(TypeText::U32, TypeText::Type(ty))
                };
                told.words_checked(*rest)
            },
        }
    }

    pub fn check_intrinsic_expr(&mut self, expr: &HirExpr) -> (ty: HirType)
        ensures
            (*final(self), ty) == old(self).intrinsic_checked(*expr),
            final(self).settled(*old(self)),
        decreases expr, 1int, 0int,
    {
        proof {
            reveal(TypeChecker::intrinsic_checked);
            reveal(TypeChecker::align_checked);
            reveal(TypeChecker::atomic_checked);
            reveal(TypeChecker::own_checked);
            reveal(TypeChecker::reinterpret_checked);
            reveal(TypeChecker::replace_checked);
        }
        match &expr.kind {
            ExprKind::Intrinsic { kind, type_args, args, .. } => match kind {
                IntrinsicKind::Replace => {
                    self.demand(type_args.is_empty(), Message::ReplaceNoTypeArgs);
                    self.check_replace(args)
                },
                IntrinsicKind::Reinterpret => self.check_reinterpret(type_args, args),
                IntrinsicKind::Unreachable => {
                    self.demand(type_args.is_empty(), Message::UnreachableNoTypeArgs);
                    self.demand(args.is_empty(), Message::UnreachableNoArgs);
                    HirType::Never
                },
                IntrinsicKind::SizeOf | IntrinsicKind::AlignOf | IntrinsicKind::TypeName => {
                    let found: usize = type_args.len();
                    self.demand(found == 1, Message::OneTypeArg { found });
                    self.demand(args.is_empty(), Message::NoValueArgs);
                    if matches!(kind, IntrinsicKind::TypeName) {
                        HirType::String
                    } else {
                        HirType::Usize
                    }
                },
                IntrinsicKind::Own => {
                    self.demand(type_args.is_empty(), Message::OwnNoTypeArgs);
                    self.check_own(expr.key, args)
                },
                IntrinsicKind::AssertAlign => {
                    self.demand(type_args.is_empty(), Message::AlignNoTypeArgs);
                    self.check_align(args);
                    HirType::Void
                },
                IntrinsicKind::AtomicCasU32 => {
                    self.check_atomic(Atomic::Cas, 3, args);
                    HirType::U32
                },
                IntrinsicKind::AtomicLoadU32 => {
                    self.check_atomic(Atomic::Load, 1, args);
                    HirType::U32
                },
                IntrinsicKind::AtomicStoreU32 => {
                    self.check_atomic(Atomic::Store, 2, args);
                    HirType::Void
                },
                IntrinsicKind::CpuRelax => {
                    self.demand(args.is_empty(), Message::CpuRelaxNoArgs);
                    HirType::Void
                },
            },
            _ => HirType::Unknown,
        }
    }

    fn check_replace(&mut self, args: &List<HirExpr>) -> (ty: HirType)
        ensures
            (*final(self), ty) == old(self).replace_checked(*args),
            final(self).settled(*old(self)),
        decreases args, 5int, 0int,
    {
        proof {
            reveal(TypeChecker::replace_checked);
        }
        let found: usize = args.len();
        if found != 2 {
            self.check_arg_count(2, found);
            return HirType::Unknown;
        }
        match args {
            Nil => HirType::Unknown,
            Cons(target, rest) => match &**rest {
                Nil => HirType::Unknown,
                Cons(value, _) => {
                    let place: &HirExpr = match &target.kind {
                        ExprKind::Ref { expr: inner, .. } => inner,
                        _ => target,
                    };
                    let named = matches!(
                        place.kind,
                        ExprKind::Ident(_, _) | ExprKind::FieldAccess { .. } | ExprKind::Get { .. }
                        | ExprKind::Deref { .. } | ExprKind::Index { .. }
                    );
                    if !named {
                        self.say(Message::ReplaceNeedsPlace);
                        return HirType::Unknown;
                    }
                    if matches!(value.kind, ExprKind::Uninit { .. }) {
                        self.say(Message::ReplaceUninit);
                        return HirType::Unknown;
                    }
                    if self.is_slice_size(place) {
                        self.say(Message::ReplaceSliceField);
                        return HirType::Unknown;
                    }
                    let target_ty = match &target.kind {
                        ExprKind::Ref { expr: inner, .. } => self.check_expr_as_place(inner),
                        _ => self.check_expr_as_place(target),
                    };
                    self.check_read_for_compound_target(place, &target_ty);
                    let value_ty = self.check_expr_expected(value, &target_ty);
                    self.check_and_record_value_use(value, &value_ty);
                    self.fit(Some(&target_ty), &value_ty);
                    self.check_mutability(place, true);
                    self.use_place(place, BorrowKind::Mutable);
                    self.note_replacement(place, &value_ty);
                    target_ty
                },
            },
        }
    }

    fn check_reinterpret(&mut self, type_args: &List<HirType>, args: &List<HirExpr>) -> (ty: HirType)
        ensures
            (*final(self), ty) == old(self).reinterpret_checked(*type_args, *args),
            final(self).settled(*old(self)),
        decreases args, 5int, 0int,
    {
        proof {
            reveal(TypeChecker::reinterpret_checked);
        }
        let given: usize = type_args.len();
        let found: usize = args.len();
        match type_args {
            Nil => {
                self.say(Message::ReinterpretTypeArgCount { found: 0 });
                HirType::Unknown
            },
            Cons(target, _) => {
                if given != 1 {
                    self.say(Message::ReinterpretTypeArgCount { found: given });
                    return HirType::Unknown;
                }
                match args {
                    Nil => {
                        self.check_arg_count(1, 0);
                        HirType::Unknown
                    },
                    Cons(source, _) => {
                        if found != 1 {
                            self.check_arg_count(1, found);
                            return HirType::Unknown;
                        }
                        let ty = self.check_expr(source);
                        self.check_and_record_value_use(source, &ty);
                        let inside = self.in_unsafe();
                        self.demand(inside, Message::ReinterpretNeedsUnsafe);
                        target.dup()
                    },
                }
            },
        }
    }

    fn check_own(&mut self, key: usize, args: &List<HirExpr>) -> (result: HirType)
        ensures
            (*final(self), result) == old(self).own_checked(key, *args),
            final(self).settled(*old(self)),
        decreases args, 5int, 0int,
    {
        proof {
            reveal(TypeChecker::own_checked);
            reveal(TypeChecker::own_made);
            reveal(TypeChecker::allocator_checked);
            reveal(TypeChecker::own_size_checked);
        }
        match args {
            Nil => {
                self.say(Message::OwnArgCount { found: 0 });
                HirType::Unknown
            },
            Cons(pointer, rest) => {
                let found: usize = args.len();
                if found > 4 {
                    self.say(Message::OwnArgCount { found });
                    return HirType::Unknown;
                }
                let ty = self.check_expr(pointer);
                self.check_and_record_value_use(pointer, &ty);
                match find_raw_pointee(Self::strip_ref(&ty)) {
                    None => {
                        self.say(Message::OwnNeedsPointer { ty });
                        HirType::Unknown
                    },
                    Some(pointee) => self.make_owned(key, rest, pointee),
                }
            },
        }
    }

    fn make_owned(&mut self, key: usize, rest: &List<HirExpr>, pointee: HirType) -> (result: HirType)
        ensures
            (*final(self), result) == old(self).own_made(key, *rest, pointee),
            final(self).settled(*old(self)),
        decreases rest, 4int, 0int,
    {
        proof {
            reveal(TypeChecker::own_made);
            reveal(TypeChecker::allocator_checked);
            reveal(TypeChecker::own_size_checked);
        }
        let this_root = ProvenanceAnnotation { root: ProvenanceRoot::ThisRoot, path: Nil };
        match rest {
            Nil => HirType::OwnedPointer { inner: Rc::new(pointee), allocator: Some(this_root) },
            Cons(second, more) => match &**more {
                Nil => {
                    let ty = self.check_expr(second);
                    if self.is_integer(&ty) {
                        self.check_own_size(second, OwnSize::Only);
                        self.say(Message::OwnNeedsLenAndCap);
                        HirType::OwnedPointer {
                            inner: Rc::new(HirType::Slice(Rc::new(pointee))),
                            allocator: Some(this_root),
                        }
                    } else {
                        match self.check_allocator(key, second) {
                            None => HirType::Unknown,
                            Some(provenance) => HirType::OwnedPointer {
                                inner: Rc::new(pointee),
                                allocator: Some(provenance),
                            },
                        }
                    }
                },
                Cons(len, last) => match self.check_allocator(key, second) {
                    None => HirType::Unknown,
                    Some(provenance) => {
                        match &**last {
                            Nil => {
                                self.check_own_size(len, OwnSize::Only);
                                self.say(Message::OwnNeedsLenAndCap);
                            },
                            Cons(cap, _) => {
                                self.check_own_size(len, OwnSize::Len);
                                self.check_own_size(cap, OwnSize::Cap);
                            },
                        }
                        HirType::OwnedPointer {
                            inner: Rc::new(HirType::Slice(Rc::new(pointee))),
                            allocator: Some(provenance),
                        }
                    },
                },
            },
        }
    }

    fn check_own_size(&mut self, size: &HirExpr, which: OwnSize)
        ensures
            *final(self) == old(self).own_size_checked(*size, which),
            final(self).settled(*old(self)),
        decreases size, 5int, 0int,
    {
        proof {
            reveal(TypeChecker::own_size_checked);
        }
        let ty = self.check_expr(size);
        self.check_and_record_value_use(size, &ty);
        let fits = self.is_integer(&ty);
        self.demand(fits, which.complain(ty));
    }

    fn check_allocator(&mut self, key: usize, expr: &HirExpr) -> (allocator: Option<
        ProvenanceAnnotation,
    >)
        ensures
            (*final(self), allocator) == old(self).allocator_checked(key, *expr),
            final(self).settled(*old(self)),
        decreases expr, 5int, 0int,
    {
        proof {
            reveal(TypeChecker::allocator_checked);
        }
        let ty = self.check_expr(expr);
        self.check_and_record_value_use(expr, &ty);
        match self.infer_provenance(expr) {
            None => {
                self.say(Message::OwnAllocatorUnstable);
                None
            },
            Some(provenance) => match Self::strip_ref(&ty) {
                HirType::Struct { name, .. } => {
                    let raw = self.context.struct_implements(
                        *name,
                        StrId::Known(Word::RawAllocator),
                    );
                    self.demand(raw, Message::NotRawAllocator { name: *name });
                    self.borrow_allocator(key, expr, &provenance);
                    Some(provenance)
                },
                _ => {
                    self.say(Message::OwnAllocatorNotStruct);
                    None
                },
            },
        }
    }

    fn check_align(&mut self, args: &List<HirExpr>)
        ensures
            *final(self) == old(self).align_checked(*args),
            final(self).settled(*old(self)),
        decreases args, 5int, 0int,
    {
        proof {
            reveal(TypeChecker::align_checked);
        }
        let found: usize = args.len();
        if found != 2 {
            self.check_arg_count(2, found);
            return;
        }
        match args {
            Nil => {},
            Cons(pointer, rest) => match &**rest {
                Nil => {},
                Cons(align, _) => {
                    let ty = self.check_expr(pointer);
                    self.check_and_record_value_use(pointer, &ty);
                    let pointed = matches!(
                        Self::strip_ref(&ty),
                        HirType::SafePointer { .. } | HirType::UnsafePointer { .. }
                        | HirType::OwnedPointer { .. }
                    );
                    self.demand(pointed, Message::AlignNeedsPointer { ty });
                    let align_ty = self.check_expr(align);
                    let fits = self.is_integer(&align_ty);
                    self.demand(fits, Message::AlignNotInteger { ty: align_ty });
                    match &align.kind {
                        ExprKind::Number(value, _) => self.demand(
                            is_power_of_two(*value),
                            Message::AlignNotPowerOfTwo { value: *value },
                        ),
                        _ => {},
                    }
                },
            },
        }
    }

    fn check_atomic(&mut self, atomic: Atomic, wanted: usize, args: &List<HirExpr>)
        ensures
            *final(self) == old(self).atomic_checked(atomic, wanted, *args),
            final(self).settled(*old(self)),
        decreases args, 5int, 0int,
    {
        proof {
            reveal(TypeChecker::atomic_checked);
            reveal(TypeChecker::words_checked);
        }
        let inside = self.in_unsafe();
        self.demand(inside, Message::AtomicNeedsUnsafe { atomic });
        let found: usize = args.len();
        if found != wanted {
            self.check_arg_count(wanted, found);
            return;
        }
        match args {
            Nil => {},
            Cons(pointer, rest) => {
                let ty = self.check_expr(pointer);
                self.check_and_record_value_use(pointer, &ty);
                let pointed = matches!(find_raw_pointee(Self::strip_ref(&ty)), Some(HirType::U32));
                self.demand(pointed, Message::AtomicNeedsPointer { atomic, ty });
                self.check_words(rest);
            },
        }
    }

    fn check_words(&mut self, args: &List<HirExpr>)
        ensures
            *final(self) == old(self).words_checked(*args),
            final(self).settled(*old(self)),
        decreases args, 0int, 0int,
    {
        proof {
            reveal(TypeChecker::words_checked);
        }
        match args {
            Nil => {},
            Cons(arg, rest) => {
                let ty = self.check_expr(arg);
                self.check_and_record_value_use(arg, &ty);
                if !matches!(ty, HirType::U32) {
                    self.record(
                        TypeErrorKind::TypeMismatch {
                            expected: TypeText::U32,
                            found: TypeText::Type(ty),
                        },
                    );
                }
                self.check_words(rest);
            },
        }
    }
}

} // verus!
