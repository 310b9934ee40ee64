//! What the borrow checker is asked: the places that expressions name, the loans that calls and
//! captures make, and the uses and moves of values.

use std::rc::Rc;

use vstd::prelude::*;

use crate::borrow::{
    BorrowKind, BorrowOp, Bound, IndexTemplate, Place, ReadTemplate, RefTemplate,
    TemplateProjection,
};
use crate::closures::{level_of, CaptureMode, HirClosureCapture, UseLevel};
use crate::errors::Message;
use crate::hir::{
    ExprKind, HirEffectAccess, HirEffectSegment, HirExpr, HirType, Operator, ProvenanceAnnotation,
    ProvenancePathSegment, ProvenanceRoot, RefKind, SourceSpan, StrId, Word,
};
use crate::list::{add_member, has_key, lookup, share, with_member, Cons, List, Nil, Table};
use crate::list::{find, remove, removed, update, updated};
use crate::read_templates::touches_contents;
use crate::ref_provenance::{provenance_of, template_provenance, template_start};
use crate::ref_provenance::find_template_start;
use crate::type_checker::{this_name, LoanTables, TypeChecker};
use crate::types::{peeked, reference_like};

verus! {

/// The number that is as far on the other side of zero. The least number is its own opposite.
pub open spec fn opposite(value: i64) -> i64 {
    if value == i64::MIN {
        value
    } else {
        (-value) as i64
    }
}

fn negate(value: i64) -> (result: i64)
    ensures
        result == opposite(value),
{
    if value == i64::MIN {
        value
    } else {
        -value
    }
}

/// What an arithmetic operator makes of two symbolic indices, where one of them is known.
pub open spec fn combined(op: Operator, left: Bound, right: Bound) -> Option<Bound> {
    match (op, left, right) {
        (Operator::Add, _, Bound::Const(offset)) => Some(
            Bound::Offset { base: Rc::new(left), offset },
        ),
        (Operator::Add, Bound::Const(offset), _) => Some(
            Bound::Offset { base: Rc::new(right), offset },
        ),
        (Operator::Subtract, _, Bound::Const(offset)) => Some(
            Bound::Offset { base: Rc::new(left), offset: opposite(offset) },
        ),
        (Operator::Multiply, _, Bound::Const(factor)) => Some(
            Bound::Scale { base: Rc::new(left), factor },
        ),
        (Operator::Multiply, Bound::Const(factor), _) => Some(
            Bound::Scale { base: Rc::new(right), factor },
        ),
        _ => None,
    }
}

fn combine(op: Operator, left: Bound, right: Bound) -> (bound: Option<Bound>)
    ensures
        bound == combined(op, left, right),
{
    match (op, left, right) {
        (Operator::Add, left, Bound::Const(offset)) => Some(
            Bound::Offset { base: Rc::new(left), offset },
        ),
        (Operator::Add, Bound::Const(offset), right) => Some(
            Bound::Offset { base: Rc::new(right), offset },
        ),
        (Operator::Subtract, left, Bound::Const(offset)) => Some(
            Bound::Offset { base: Rc::new(left), offset: negate(offset) },
        ),
        (Operator::Multiply, left, Bound::Const(factor)) => Some(
            Bound::Scale { base: Rc::new(left), factor },
        ),
        (Operator::Multiply, Bound::Const(factor), right) => Some(
            Bound::Scale { base: Rc::new(right), factor },
        ),
        _ => None,
    }
}

pub open spec fn arithmetic(op: Operator) -> bool {
    op is Add || op is Subtract || op is Multiply
}

/// The keys of a table.
pub open spec fn keys_of<K, V>(table: Table<K, V>) -> List<K>
    decreases table,
{
    match table {
        Nil => Nil,
        Cons(entry, rest) => List::cons_of(entry.0, keys_of(*rest)),
    }
}

/// The entries of a table whose keys are in a list.
pub open spec fn kept_calls(calls: Table<usize, usize>, before: List<usize>) -> Table<usize, usize>
    decreases calls,
{
    match calls {
        Nil => Nil,
        Cons(entry, rest) => if before.has(entry.0) {
            Cons(entry, Rc::new(kept_calls(*rest, before)))
        } else {
            kept_calls(*rest, before)
        },
    }
}

fn keep_calls(calls: &Table<usize, usize>, before: &List<usize>) -> (result: Table<usize, usize>)
    ensures
        result == kept_calls(*calls, *before),
    decreases calls,
{
    match calls {
        Nil => Nil,
        Cons(entry, rest) => if before.contains(&entry.0) {
            Cons(share(entry), Rc::new(keep_calls(rest, before)))
        } else {
            keep_calls(rest, before)
        },
    }
}

fn call_keys(calls: &Table<usize, usize>) -> (keys: List<usize>)
    ensures
        keys == keys_of(*calls),
    decreases calls,
{
    match calls {
        Nil => Nil,
        Cons(entry, rest) => List::cons(entry.0, call_keys(rest)),
    }
}

/// The loans that a local holds.
pub open spec fn owned_by(owners: Table<usize, StrId>, name: StrId) -> List<usize>
    decreases owners,
{
    match owners {
        Nil => Nil,
        Cons(entry, rest) => if entry.1 == name {
            List::cons_of(entry.0, owned_by(*rest, name))
        } else {
            owned_by(*rest, name)
        },
    }
}

fn loans_owned_by(owners: &Table<usize, StrId>, name: StrId) -> (loans: List<usize>)
    ensures
        loans == owned_by(*owners, name),
    decreases owners,
{
    match owners {
        Nil => Nil,
        Cons(entry, rest) => if entry.1 == name {
            List::cons(entry.0, loans_owned_by(rest, name))
        } else {
            loans_owned_by(rest, name)
        },
    }
}

/// Whether a comparison says that its sides are equal or that they are not.
pub open spec fn equality(op: Operator) -> Option<bool> {
    match op {
        Operator::Equals => Some(true),
        Operator::NotEquals => Some(false),
        _ => None,
    }
}

fn equality_of(op: Operator) -> (equal: Option<bool>)
    ensures
        equal == equality(op),
{
    match op {
        Operator::Equals => Some(true),
        Operator::NotEquals => Some(false),
        _ => None,
    }
}

/// The kind of the loan that a call which returns this type makes.
pub open spec fn returned_kind(ret_ty: HirType) -> RefKind {
    match ret_ty {
        HirType::Ref { ref_kind, .. } => ref_kind,
        _ => RefKind::Shared,
    }
}

/// Whether a callee either writes an argument whatever happens or never looks into it.
pub open spec fn ignores_contents(
    writes: Option<List<bool>>,
    reads: Option<List<ReadTemplate>>,
    index: usize,
) -> bool {
    ||| match writes {
        Some(list) => list.nth(index) == Some(true),
        None => false,
    }
    ||| match reads {
        Some(list) => match list.nth(index) {
            Some(template) => !touches_contents(template),
            None => false,
        },
        None => false,
    }
}

/// Whether moving a field out of this type is forbidden.
pub open spec fn keeps_its_fields(drop_types: List<StrId>, container: Option<HirType>) -> bool {
    match container {
        Some(HirType::Struct { name, .. }) => drop_types.has(name),
        Some(HirType::Enum { name, .. }) => drop_types.has(name),
        _ => false,
    }
}

impl TypeChecker {
    /// The checker with a local that has a place of its own from here on. Nothing is known of what it
    /// points to.
    pub open spec fn declared_local(self, name: StrId) -> TypeChecker {
        TypeChecker {
            loans: LoanTables {
                declared: with_member(self.loans.declared, name),
                pointees: removed(self.loans.pointees, Place::Local(name)),
                ..self.loans
            },
            ..self
        }.asked(BorrowOp::Declare(name))
    }

    pub fn declare_local(&mut self, name: StrId)
        ensures
            *final(self) == old(self).declared_local(name),
            final(self).settled_in_scope(*old(self)),
    {
        self.loans.declared = add_member(&self.loans.declared, name);
        self.loans.pointees = remove(&self.loans.pointees, &Place::Local(name));
        self.ask(BorrowOp::Declare(name));
    }

    pub open spec fn own_place(self, name: StrId) -> Option<Place> {
        if self.loans.declared.has(name) {
            Some(Place::Local(name))
        } else {
            None
        }
    }

    pub open spec fn place_of_local(self, name: StrId) -> Option<Place> {
        match lookup(self.loans.slots, name) {
            Some(slot) => Some(Place::Slot { slot, local: name }),
            None => self.own_place(name),
        }
    }

    pub fn local_place(&self, name: StrId) -> (place: Option<Place>)
        ensures
            place == self.own_place(name),
    {
        if self.loans.declared.contains(&name) {
            Some(Place::Local(name))
        } else {
            None
        }
    }

    /// The checker with a place remembered for a local.
    pub open spec fn remembered(self, name: StrId, place: Place) -> TypeChecker {
        let slot = self.loans.next_slot;
        TypeChecker {
            loans: LoanTables {
                slots: updated(self.loans.slots, name, slot),
                next_slot: crate::type_checker::after_usize(slot),
                ..self.loans
            },
            ..self
        }.asked(BorrowOp::Remember { slot, place })
    }

    pub fn remember_place(&mut self, name: StrId, place: Place)
        ensures
            *final(self) == old(self).remembered(name, place),
            final(self).settled_in_scope(*old(self)),
    {
        let slot: usize = self.loans.next_slot;
        self.loans.slots = update(&self.loans.slots, name, slot);
        self.loans.next_slot = crate::type_checker::next_usize(slot);
        self.ask(BorrowOp::Remember { slot, place });
    }

    /// The checker that no longer knows where a reference in a local points.
    pub open spec fn forgot(self, name: StrId) -> TypeChecker {
        TypeChecker {
            loans: LoanTables {
                slots: removed(self.loans.slots, name),
                ref_kinds: removed(self.loans.ref_kinds, name),
                ..self.loans
            },
            ..self
        }
    }

    pub fn forget_local(&mut self, name: StrId)
        ensures
            *final(self) == old(self).forgot(name),
            final(self).settled_in_scope(*old(self)),
    {
        self.loans.slots = remove(&self.loans.slots, &name);
        self.loans.ref_kinds = remove(&self.loans.ref_kinds, &name);
    }

    /// The checker and the symbolic value of an index.
    pub open spec fn bound_of(self, expr: HirExpr) -> (TypeChecker, Bound)
        decreases expr,
    {
        match expr.kind {
            ExprKind::Number(value, _) => (self, Bound::Const(value)),
            ExprKind::Ident(name, _) => (self, Bound::Symbol { root: name, path: Nil }),
            ExprKind::Binary { left, op, right, .. } => if arithmetic(op) {
                let (after_left, left_bound) = self.bound_of(*left);
                let (after_right, right_bound) = after_left.bound_of(*right);
                match combined(op, left_bound, right_bound) {
                    Some(bound) => (after_right, bound),
                    None => after_right.with_fresh_opaque(),
                }
            } else {
                self.with_fresh_opaque()
            },
            _ => self.with_fresh_opaque(),
        }
    }

    pub fn expr_to_bound(&mut self, expr: &HirExpr) -> (bound: Bound)
        ensures
            (*final(self), bound) == old(self).bound_of(*expr),
            final(self).settled_in_scope(*old(self)),
        decreases expr,
    {
        match &expr.kind {
            ExprKind::Number(value, _) => Bound::Const(*value),
            ExprKind::Ident(name, _) => Bound::Symbol { root: *name, path: Nil },
            ExprKind::Binary { left, op, right, .. } => {
                match op {
                    Operator::Add | Operator::Subtract | Operator::Multiply => {
                        let left_bound = self.expr_to_bound(left);
                        let right_bound = self.expr_to_bound(right);
                        match combine(*op, left_bound, right_bound) {
                            Some(bound) => bound,
                            None => self.fresh_opaque(),
                        }
                    },
                    _ => self.fresh_opaque(),
                }
            },
            _ => self.fresh_opaque(),
        }
    }

    /// The place that lies an index away from what the pointer at a place points to, if that is
    /// known.
    pub open spec fn pointed_to(self, pointer: Place, index: HirExpr, forward: bool) -> (
        TypeChecker,
        Option<Place>,
    ) {
        match lookup(self.loans.pointees, pointer) {
            None => (self, None),
            Some((target, offset)) => {
                let (after, bound) = self.bound_of(index);
                let distance = if forward {
                    bound
                } else {
                    Bound::Scale { base: Rc::new(bound), factor: -1i64 }
                };
                (
                    after,
                    Some(
                        Place::Index(
                            Rc::new(target),
                            Bound::Sum(Rc::new(offset), Rc::new(distance)),
                        ),
                    ),
                )
            },
        }
    }

    pub fn find_pointee(&self, pointer: &Place) -> (pointee: Option<(Place, Bound)>)
        ensures
            pointee == lookup(self.loans.pointees, *pointer),
    {
        match find(&self.loans.pointees, pointer) {
            Some((target, offset)) => Some((target.dup(), offset.dup())),
            None => None,
        }
    }

    fn follow_pointer(&mut self, pointer: &Place, index: &HirExpr, forward: bool) -> (place: Option<
        Place,
    >)
        ensures
            (*final(self), place) == old(self).pointed_to(*pointer, *index, forward),
            final(self).settled_in_scope(*old(self)),
    {
        match self.find_pointee(pointer) {
            None => None,
            Some((target, offset)) => {
                let bound = self.expr_to_bound(index);
                let distance = if forward {
                    bound
                } else {
                    Bound::Scale { base: Rc::new(bound), factor: -1i64 }
                };
                Some(
                    Place::Index(
                        Rc::new(target),
                        Bound::Sum(Rc::new(offset), Rc::new(distance)),
                    ),
                )
            },
        }
    }

    /// The checker and the place that an expression names, if it names one.
    pub open spec fn resolved(self, expr: HirExpr) -> (TypeChecker, Option<Place>)
        decreases expr,
    {
        match expr.kind {
            ExprKind::Ident(name, _) => (self, self.place_of_local(name)),
            ExprKind::This { .. } => (self, self.own_place(this_name())),
            ExprKind::FieldAccess { object, field, .. } | ExprKind::Get { object, field, .. } => {
                let (after, place) = self.resolved(*object);
                match place {
                    Some(base) => (
                        after,
                        Some(
                            Place::Field(
                                Rc::new(
                                    if reference_like(peeked(self.context, *object)) {
                                        Place::Deref(Rc::new(base))
                                    } else {
                                        base
                                    },
                                ),
                                field,
                            ),
                        ),
                    ),
                    None => (after, None),
                }
            },
            ExprKind::Deref { expr: inner, .. } => {
                let (after, place) = self.resolved(*inner);
                match place {
                    Some(base) => (after, Some(Place::Deref(Rc::new(base)))),
                    None => (after, None),
                }
            },
            ExprKind::Index { object, index, .. } => {
                let (after, place) = self.resolved(*object);
                match (peeked(self.context, *object), place) {
                    (HirType::Array(_, _), Some(base)) | (HirType::Slice(_), Some(base)) => {
                        let (last, bound) = after.bound_of(*index);
                        (last, Some(Place::Index(Rc::new(base), bound)))
                    },
                    (HirType::OwnedPointer { inner, .. }, Some(base)) => {
                        if *inner is Slice || *inner is Array {
                            let (last, bound) = after.bound_of(*index);
                            (
                                last,
                                Some(Place::Index(Rc::new(Place::Deref(Rc::new(base))), bound)),
                            )
                        } else {
                            (self, None)
                        }
                    },
                    (HirType::SafePointer { .. }, Some(base))
                    | (HirType::UnsafePointer { .. }, Some(base)) => after.pointed_to(
                        base,
                        *index,
                        true,
                    ),
                    (HirType::Array(_, _), None)
                    | (HirType::Slice(_), None)
                    | (HirType::SafePointer { .. }, None)
                    | (HirType::UnsafePointer { .. }, None) => (after, None),
                    (HirType::OwnedPointer { inner, .. }, None) => {
                        if *inner is Slice || *inner is Array {
                            (after, None)
                        } else {
                            (self, None)
                        }
                    },
                    _ => (self, None),
                }
            },
            ExprKind::Binary { left, op, right, .. } => {
                if (op is Add || op is Subtract) && crate::closures::raw_pointer(
                    peeked(self.context, *left),
                ) {
                    let (after, place) = self.resolved(*left);
                    match place {
                        Some(base) => after.pointed_to(base, *right, op is Add),
                        None => (after, None),
                    }
                } else {
                    (self, None)
                }
            },
            _ => (self, None),
        }
    }

    pub fn resolve_place(&mut self, expr: &HirExpr) -> (place: Option<Place>)
        ensures
            (*final(self), place) == old(self).resolved(*expr),
            final(self).settled_in_scope(*old(self)),
        decreases expr,
    {
        match &expr.kind {
            ExprKind::Ident(name, _) => match find(&self.loans.slots, name) {
                Some(slot) => Some(Place::Slot { slot: *slot, local: *name }),
                None => self.local_place(*name),
            },
            ExprKind::This { .. } => self.local_place(StrId::Known(Word::This)),
            ExprKind::FieldAccess { object, field, .. } | ExprKind::Get { object, field, .. } => {
                let object_ty = self.peek_type(object);
                match self.resolve_place(object) {
                    Some(base) => {
                        let reached = if self.is_reference_like(&object_ty) {
                            Place::Deref(Rc::new(base))
                        } else {
                            base
                        };
                        Some(Place::Field(Rc::new(reached), *field))
                    },
                    None => None,
                }
            },
            ExprKind::Deref { expr: inner, .. } => match self.resolve_place(inner) {
                Some(base) => Some(Place::Deref(Rc::new(base))),
                None => None,
            },
            ExprKind::Index { object, index, .. } => match self.peek_type(object) {
                HirType::Array(_, _) | HirType::Slice(_) => match self.resolve_place(object) {
                    Some(base) => {
                        let bound = self.expr_to_bound(index);
                        Some(Place::Index(Rc::new(base), bound))
                    },
                    None => None,
                },
                HirType::OwnedPointer { inner, .. } => {
                    if matches!(*inner, HirType::Slice(_) | HirType::Array(_, _)) {
                        match self.resolve_place(object) {
                            Some(base) => {
                                let bound = self.expr_to_bound(index);
                                Some(Place::Index(Rc::new(Place::Deref(Rc::new(base))), bound))
                            },
                            None => None,
                        }
                    } else {
                        None
                    }
                },
                HirType::SafePointer { .. } | HirType::UnsafePointer { .. } => {
                    match self.resolve_place(object) {
                        Some(base) => self.follow_pointer(&base, index, true),
                        None => None,
                    }
                },
                _ => None,
            },
            ExprKind::Binary { left, op, right, .. } => {
                let forward = match op {
                    Operator::Add => true,
                    Operator::Subtract => false,
                    _ => {
                        return None;
                    },
                };
                if !matches!(
                    self.peek_type(left),
                    HirType::SafePointer { .. } | HirType::UnsafePointer { .. }
                ) {
                    return None;
                }
                match self.resolve_place(left) {
                    Some(base) => self.follow_pointer(&base, right, forward),
                    None => None,
                }
            },
            _ => None,
        }
    }

    /// The place that declared segments lead to.
    pub open spec fn along_effect(self, place: Place, path: List<HirEffectSegment>) -> (
        TypeChecker,
        Place,
    )
        decreases path,
    {
        match path {
            Nil => (self, place),
            Cons(segment, rest) => match *segment {
                HirEffectSegment::Field(field) => self.along_effect(
                    Place::Field(Rc::new(place), field),
                    *rest,
                ),
                HirEffectSegment::Index(key) => {
                    let (after, bound) = self.after_key_bound(key);
                    after.along_effect(Place::Index(Rc::new(place), bound), *rest)
                },
            },
        }
    }

    fn follow_effect(&mut self, place: Place, path: &List<HirEffectSegment>) -> (result: Place)
        ensures
            (*final(self), result) == old(self).along_effect(place, *path),
            final(self).settled_in_scope(*old(self)),
        decreases path,
    {
        match path {
            Nil => place,
            Cons(segment, rest) => match &**segment {
                HirEffectSegment::Field(field) => self.follow_effect(
                    Place::Field(Rc::new(place), *field),
                    rest,
                ),
                HirEffectSegment::Index(key) => {
                    let bound = self.effect_index_key_to_bound(key);
                    self.follow_effect(Place::Index(Rc::new(place), bound), rest)
                },
            },
        }
    }

    /// The checker after a loan, and the number of the loan.
    pub open spec fn borrowed(
        self,
        place: Place,
        kind: RefKind,
        blame: Option<ProvenanceAnnotation>,
    ) -> (TypeChecker, usize) {
        let loan = self.loans.next_loan;
        (
            self.with_loan_taken().asked(BorrowOp::Borrow { loan, place, kind, blame }),
            loan,
        )
    }

    pub fn borrow_place(
        &mut self,
        place: Place,
        kind: RefKind,
        blame: Option<ProvenanceAnnotation>,
    ) -> (loan: usize)
        ensures
            (*final(self), loan) == old(self).borrowed(place, kind, blame),
            final(self).settled_in_scope(*old(self)),
    {
        let loan: usize = self.take_loan();
        self.ask(BorrowOp::Borrow { loan, place, kind, blame });
        loan
    }

    /// The checker after naming the loan of a place, and the name.
    pub open spec fn loan_found(self, place: Place) -> (TypeChecker, usize) {
        let loan = self.loans.next_loan;
        (self.with_loan_taken().asked(BorrowOp::FindLoan { loan, place }), loan)
    }

    pub fn find_loan(&mut self, place: Place) -> (loan: usize)
        ensures
            (*final(self), loan) == old(self).loan_found(place),
            final(self).settled_in_scope(*old(self)),
    {
        let loan: usize = self.take_loan();
        self.ask(BorrowOp::FindLoan { loan, place });
        loan
    }

    pub open spec fn owned(self, loan: usize, name: StrId) -> TypeChecker {
        TypeChecker {
            loans: LoanTables { owners: updated(self.loans.owners, loan, name), ..self.loans },
            ..self
        }
    }

    pub fn give_loan(&mut self, loan: usize, name: StrId)
        ensures
            *final(self) == old(self).owned(loan, name),
            final(self).settled_in_scope(*old(self)),
    {
        self.loans.owners = update(&self.loans.owners, loan, name);
    }

    pub open spec fn all_owned(self, loans: List<usize>, name: StrId) -> TypeChecker
        decreases loans,
    {
        match loans {
            Nil => self,
            Cons(loan, rest) => self.owned(*loan, name).all_owned(*rest, name),
        }
    }

    pub fn give_loans(&mut self, loans: &List<usize>, name: StrId)
        ensures
            *final(self) == old(self).all_owned(*loans, name),
            final(self).settled_in_scope(*old(self)),
        decreases loans,
    {
        match loans {
            Nil => {},
            Cons(loan, rest) => {
                self.give_loan(**loan, name);
                self.give_loans(rest, name);
            },
        }
    }

    pub open spec fn loans_ended(self, loans: List<usize>) -> TypeChecker
        decreases loans,
    {
        match loans {
            Nil => self,
            Cons(loan, rest) => self.asked(BorrowOp::EndLoan(*loan)).loans_ended(*rest),
        }
    }

    pub fn end_loans(&mut self, loans: &List<usize>)
        ensures
            *final(self) == old(self).loans_ended(*loans),
            final(self).settled_in_scope(*old(self)),
        decreases loans,
    {
        match loans {
            Nil => {},
            Cons(loan, rest) => {
                self.ask(BorrowOp::EndLoan(**loan));
                self.end_loans(rest);
            },
        }
    }

    #[verifier::opaque]
    pub open spec fn loans_ended_if(self, loans: List<usize>, made: usize) -> TypeChecker
        decreases loans,
    {
        match loans {
            Nil => self,
            Cons(loan, rest) => self.asked(
                BorrowOp::EndLoanIfMade { loan: *loan, made },
            ).loans_ended_if(*rest, made),
        }
    }

    pub fn end_loans_if(&mut self, loans: &List<usize>, made: usize)
        ensures
            *final(self) == old(self).loans_ended_if(*loans, made),
            final(self).settled_in_scope(*old(self)),
        decreases loans,
    {
        proof {
            reveal(TypeChecker::loans_ended_if);
        }
        match loans {
            Nil => {},
            Cons(loan, rest) => {
                self.ask(BorrowOp::EndLoanIfMade { loan: **loan, made });
                self.end_loans_if(rest, made);
            },
        }
    }

    pub open spec fn access_loans(self, base: Place, accesses: List<HirEffectAccess>) -> (
        TypeChecker,
        List<usize>,
    )
        decreases accesses,
    {
        match accesses {
            Nil => (self, Nil),
            Cons(access, rest) => {
                let (there, place) = self.along_effect(base, access.path);
                let (made, loan) = there.borrowed(place, access.ref_kind, None);
                let (last, more) = made.access_loans(base, *rest);
                (last, List::cons_of(loan, more))
            },
        }
    }

    fn borrow_accesses(&mut self, base: &Place, accesses: &List<HirEffectAccess>) -> (loans: List<
        usize,
    >)
        ensures
            (*final(self), loans) == old(self).access_loans(*base, *accesses),
            final(self).settled_in_scope(*old(self)),
        decreases accesses,
    {
        match accesses {
            Nil => Nil,
            Cons(access, rest) => {
                let place = self.follow_effect(base.dup(), &access.path);
                let loan: usize = self.borrow_place(place, access.ref_kind, None);
                let more = self.borrow_accesses(base, rest);
                List::cons(loan, more)
            },
        }
    }

    /// The checker after one loan for each access that a parameter declares.
    #[verifier::opaque]
    pub open spec fn multi_place_loans(self, base: HirExpr, accesses: List<HirEffectAccess>) -> (
        TypeChecker,
        List<usize>,
    ) {
        let (after, place) = self.resolved(base);
        match place {
            Some(found) => after.access_loans(found, accesses),
            None => (after, Nil),
        }
    }

    pub fn register_multi_place_loans(
        &mut self,
        base_expr: &HirExpr,
        accesses: &List<HirEffectAccess>,
    ) -> (loans: List<usize>)
        ensures
            (*final(self), loans) == old(self).multi_place_loans(*base_expr, *accesses),
            final(self).settled_in_scope(*old(self)),
    {
        proof {
            reveal(TypeChecker::multi_place_loans);
        }
        match self.resolve_place(base_expr) {
            Some(base) => self.borrow_accesses(&base, accesses),
            None => Nil,
        }
    }

    /// The checker after one loan for each path that a closure holds by reference.
    pub open spec fn capture_loans(self, captures: List<HirClosureCapture>, span: SourceSpan) -> (
        TypeChecker,
        List<usize>,
    )
        decreases captures,
    {
        match captures {
            Nil => (self, Nil),
            Cons(capture, rest) => match capture.mode {
                CaptureMode::ByValue => self.capture_loans(*rest, span),
                CaptureMode::ByRef(kind) => {
                    let (after, place) = self.resolved(
                        crate::closures::root_expr(capture.source, span),
                    );
                    match place {
                        None => after.capture_loans(*rest, span),
                        Some(base) => {
                            let (there, reached) = after.along_effect(base, capture.source_path);
                            let (made, loan) = there.borrowed(reached, kind, None);
                            let (last, more) = made.capture_loans(*rest, span);
                            (last, List::cons_of(loan, more))
                        },
                    }
                },
            },
        }
    }

    pub fn register_capture_loans(&mut self, captures: &List<HirClosureCapture>, span: SourceSpan) -> (loans:
        List<usize>)
        ensures
            (*final(self), loans) == old(self).capture_loans(*captures, span),
            final(self).settled_in_scope(*old(self)),
        decreases captures,
    {
        match captures {
            Nil => Nil,
            Cons(capture, rest) => match capture.mode {
                CaptureMode::ByValue => self.register_capture_loans(rest, span),
                CaptureMode::ByRef(kind) => {
                    let root = Self::capture_root_expr(capture.source, span);
                    match self.resolve_place(&root) {
                        None => self.register_capture_loans(rest, span),
                        Some(base) => {
                            let reached = self.follow_effect(base, &capture.source_path);
                            let loan: usize = self.borrow_place(reached, kind, None);
                            let more = self.register_capture_loans(rest, span);
                            List::cons(loan, more)
                        },
                    }
                },
            },
        }
    }

    pub fn snapshot_call_loan_keys(&self) -> (keys: List<usize>)
        ensures
            keys == keys_of(self.loans.calls),
    {
        call_keys(&self.loans.calls)
    }

    pub open spec fn new_calls_ended(self, calls: Table<usize, usize>, before: List<usize>) -> TypeChecker
        decreases calls,
    {
        match calls {
            Nil => self,
            Cons(entry, rest) => if before.has(entry.0) {
                self.new_calls_ended(*rest, before)
            } else {
                self.asked(BorrowOp::EndLoan(entry.1)).new_calls_ended(*rest, before)
            },
        }
    }

    fn end_new_calls(&mut self, calls: &Table<usize, usize>, before: &List<usize>)
        ensures
            *final(self) == old(self).new_calls_ended(*calls, *before),
            final(self).settled_in_scope(*old(self)),
        decreases calls,
    {
        match calls {
            Nil => {},
            Cons(entry, rest) => {
                if !before.contains(&entry.0) {
                    self.ask(BorrowOp::EndLoan(entry.1));
                }
                self.end_new_calls(rest, before);
            },
        }
    }

    /// The checker without the call loans that were not there before.
    #[verifier::opaque]
    pub open spec fn temp_loans_ended(self, before: List<usize>) -> TypeChecker {
        let ended = self.new_calls_ended(self.loans.calls, before);
        TypeChecker {
            loans: LoanTables { calls: kept_calls(self.loans.calls, before), ..ended.loans },
            ..ended
        }
    }

    pub fn end_temp_call_loans(&mut self, before: &List<usize>)
        ensures
            *final(self) == old(self).temp_loans_ended(*before),
            final(self).settled_in_scope(*old(self)),
    {
        proof {
            reveal(TypeChecker::temp_loans_ended);
        }
        let calls = self.loans.calls.dup();
        self.end_new_calls(&calls, before);
        self.loans.calls = keep_calls(&calls, before);
    }

    /// The checker after a use of a place.
    pub open spec fn used(self, expr: HirExpr, place: Place, kind: BorrowKind) -> TypeChecker {
        self.noted_expr(expr, level_of(kind)).asked(
            BorrowOp::Use { place, kind, blame: provenance_of(self.program.graph, expr) },
        )
    }

    pub fn check_borrow_use(&mut self, expr: &HirExpr, place: Place, kind: BorrowKind)
        ensures
            *final(self) == old(self).used(*expr, place, kind),
            final(self).settled_in_scope(*old(self)),
    {
        self.note_expr_use(expr, UseLevel::of_borrow(kind));
        let blame = self.infer_provenance(expr);
        self.ask(BorrowOp::Use { place, kind, blame });
    }

    /// The checker after a use of a place, but not of what it points to.
    pub open spec fn shell_used(self, expr: HirExpr, place: Place, kind: BorrowKind) -> TypeChecker {
        self.noted_expr(expr, level_of(kind)).asked(
            BorrowOp::UseShell { place, kind, blame: provenance_of(self.program.graph, expr) },
        )
    }

    pub fn check_borrow_use_shell(&mut self, expr: &HirExpr, place: Place, kind: BorrowKind)
        ensures
            *final(self) == old(self).shell_used(*expr, place, kind),
            final(self).settled_in_scope(*old(self)),
    {
        self.note_expr_use(expr, UseLevel::of_borrow(kind));
        let blame = self.infer_provenance(expr);
        self.ask(BorrowOp::UseShell { place, kind, blame });
    }

    /// The checker after a use of what an expression names, if it names a place.
    #[verifier::opaque]
    pub open spec fn place_used(self, expr: HirExpr, kind: BorrowKind) -> TypeChecker {
        let (after, place) = self.resolved(expr);
        match place {
            Some(found) => after.used(expr, found, kind),
            None => after,
        }
    }

    pub fn use_place(&mut self, expr: &HirExpr, kind: BorrowKind)
        ensures
            *final(self) == old(self).place_used(*expr, kind),
            final(self).settled_in_scope(*old(self)),
    {
        proof {
            reveal(TypeChecker::place_used);
        }
        match self.resolve_place(expr) {
            Some(place) => self.check_borrow_use(expr, place, kind),
            None => {},
        }
    }

    /// The checker after a value is moved out of a local or one of its fields.
    pub open spec fn moved(
        self,
        root: StrId,
        field: Option<StrId>,
        field_ty: HirType,
        container: Option<HirType>,
    ) -> TypeChecker {
        if self.program.facts.copied(field_ty) {
            self
        } else {
            let noted = self.noted(
                root,
                match field {
                    Some(name) => List::one_of(HirEffectSegment::Field(name)),
                    None => Nil,
                },
                UseLevel::Move,
            );
            let asked = match self.own_place(root) {
                Some(base) => noted.asked(
                    BorrowOp::Move {
                        place: match field {
                            Some(name) => Place::Field(Rc::new(base), name),
                            None => base,
                        },
                        blame: ProvenanceAnnotation {
                            root: ProvenanceRoot::Var(root),
                            path: match field {
                                Some(name) => List::one_of(ProvenancePathSegment::Field(name)),
                                None => Nil,
                            },
                        },
                    },
                ),
                None => noted,
            };
            match field {
                None => asked.with_moves(asked.flow.moves.with_whole(root)),
                Some(name) => if keeps_its_fields(self.program.facts.drop_types, container) {
                    asked.said(Message::PartialMoveOfDrop { container: container->0 })
                } else {
                    asked.with_moves(asked.flow.moves.with_field(root, name))
                },
            }
        }
    }

    pub open spec fn with_moves(self, moves: crate::move_state::MoveState) -> TypeChecker {
        TypeChecker { flow: crate::type_checker::FlowState { moves, ..self.flow }, ..self }
    }

    pub fn record_move(
        &mut self,
        root: StrId,
        field: Option<StrId>,
        field_ty: &HirType,
        container: Option<HirType>,
    )
        ensures
            *final(self) == old(self).moved(root, field, *field_ty, container),
            final(self).settled_in_scope(*old(self)),
    {
        if self.program.facts.type_is_copy(field_ty) {
            return;
        }
        let path = match field {
            Some(name) => List::one(HirEffectSegment::Field(name)),
            None => Nil,
        };
        self.note_capture_use(root, &path, UseLevel::Move);
        match self.local_place(root) {
            Some(base) => {
                let place = match field {
                    Some(name) => Place::Field(Rc::new(base), name),
                    None => base,
                };
                let path = match field {
                    Some(name) => List::one(ProvenancePathSegment::Field(name)),
                    None => Nil,
                };
                let blame = ProvenanceAnnotation { root: ProvenanceRoot::Var(root), path };
                self.ask(BorrowOp::Move { place, blame });
            },
            None => {},
        }
        match field {
            None => self.flow.moves.mark_whole_moved(root),
            Some(name) => match container {
                Some(ty) => {
                    let blocked = match &ty {
                        HirType::Struct { name, .. } | HirType::Enum { name, .. } => {
                            self.program.facts.implements_drop(*name)
                        },
                        _ => false,
                    };
                    if blocked {
                        self.say(Message::PartialMoveOfDrop { container: ty });
                    } else {
                        self.flow.moves.mark_field_moved(root, name);
                    }
                },
                None => self.flow.moves.mark_field_moved(root, name),
            },
        }
    }

    /// The checker after a use of a local or one of its fields that must not have been moved.
    pub open spec fn use_checked(self, root: StrId, field: Option<StrId>, root_ty: HirType) -> TypeChecker {
        if self.program.facts.copied(root_ty) {
            self
        } else {
            match field {
                None => if self.flow.moves.whole_blocked(root) {
                    self.said(Message::MovedValue { root })
                } else {
                    self
                },
                Some(name) => if self.flow.moves.field_gone(root, name) {
                    self.said(Message::MovedField { root, field: name })
                } else {
                    self
                },
            }
        }
    }

    pub fn check_use(&mut self, root: StrId, field: Option<StrId>, root_ty: &HirType)
        ensures
            *final(self) == old(self).use_checked(root, field, *root_ty),
            final(self).settled_in_scope(*old(self)),
    {
        if self.program.facts.type_is_copy(root_ty) {
            return;
        }
        match field {
            None => {
                if self.flow.moves.blocks_whole_use(root) {
                    self.say(Message::MovedValue { root });
                }
            },
            Some(name) => {
                if self.flow.moves.is_field_moved(root, name) {
                    self.say(Message::MovedField { root, field: name });
                }
            },
        }
    }

    pub open spec fn variable_type(self, name: StrId) -> Option<HirType> {
        match lookup(self.context.variables, name) {
            Some((_, ty)) => Some(ty),
            None => None,
        }
    }

    fn type_of_variable(&self, name: StrId) -> (ty: Option<HirType>)
        ensures
            ty == self.variable_type(name),
    {
        match self.context.get_variable(name) {
            Some((_, ty)) => Some(ty),
            None => None,
        }
    }

    /// The checker after the value of an expression is used up.
    #[verifier::opaque]
    pub open spec fn value_used(self, expr: HirExpr, ty: HirType) -> TypeChecker {
        let seen = self.noted_expr(expr, UseLevel::Read).place_used(expr, BorrowKind::Shared);
        match expr.kind {
            ExprKind::Ident(name, _) => seen.use_checked(name, None, ty).moved(
                name,
                None,
                ty,
                None,
            ),
            ExprKind::FieldAccess { object, field, .. } | ExprKind::Get { object, field, .. } => {
                match object.kind {
                    ExprKind::Ident(root, _) => seen.use_checked(root, Some(field), ty).moved(
                        root,
                        Some(field),
                        ty,
                        seen.variable_type(root),
                    ),
                    _ => seen,
                }
            },
            _ => seen,
        }
    }

    pub fn check_and_record_value_use(&mut self, expr: &HirExpr, ty: &HirType)
        ensures
            *final(self) == old(self).value_used(*expr, *ty),
            final(self).settled_in_scope(*old(self)),
    {
        proof {
            reveal(TypeChecker::value_used);
        }
        self.note_expr_use(expr, UseLevel::Read);
        self.use_place(expr, BorrowKind::Shared);
        match &expr.kind {
            ExprKind::Ident(name, _) => {
                self.check_use(*name, None, ty);
                self.record_move(*name, None, ty, None);
            },
            ExprKind::FieldAccess { object, field, .. } | ExprKind::Get { object, field, .. } => {
                match &object.kind {
                    ExprKind::Ident(root, _) => {
                        let container = self.type_of_variable(*root);
                        self.check_use(*root, Some(*field), ty);
                        self.record_move(*root, Some(*field), ty, container);
                    },
                    _ => {},
                }
            },
            _ => {},
        }
    }

    /// The place that projections lead to, as far as the arguments say.
    pub open spec fn place_from(
        self,
        place: Place,
        projections: List<TemplateProjection>,
        args: List<HirExpr>,
    ) -> (TypeChecker, Place)
        decreases projections,
    {
        match projections {
            Nil => (self, place),
            Cons(projection, rest) => match *projection {
                TemplateProjection::Field(field) => self.place_from(
                    Place::Field(Rc::new(place), field),
                    *rest,
                    args,
                ),
                TemplateProjection::Deref => self.place_from(
                    Place::Deref(Rc::new(place)),
                    *rest,
                    args,
                ),
                TemplateProjection::Index(IndexTemplate::Const(value)) => self.place_from(
                    Place::Index(Rc::new(place), Bound::Const(value)),
                    *rest,
                    args,
                ),
                TemplateProjection::Index(IndexTemplate::Param(i)) => match args.nth(i) {
                    Some(arg) => {
                        let (after, bound) = self.bound_of(arg);
                        after.place_from(Place::Index(Rc::new(place), bound), *rest, args)
                    },
                    None => (self, place),
                },
                TemplateProjection::Index(IndexTemplate::Opaque) => (self, place),
            },
        }
    }

    pub fn resolve_template_place_from(
        &mut self,
        place: Place,
        projections: &List<TemplateProjection>,
        call_args: &List<HirExpr>,
    ) -> (result: Place)
        ensures
            (*final(self), result) == old(self).place_from(place, *projections, *call_args),
            final(self).settled_in_scope(*old(self)),
        decreases projections,
    {
        match projections {
            Nil => place,
            Cons(projection, rest) => match &**projection {
                TemplateProjection::Field(field) => self.resolve_template_place_from(
                    Place::Field(Rc::new(place), *field),
                    rest,
                    call_args,
                ),
                TemplateProjection::Deref => self.resolve_template_place_from(
                    Place::Deref(Rc::new(place)),
                    rest,
                    call_args,
                ),
                TemplateProjection::Index(IndexTemplate::Const(value)) => {
                    self.resolve_template_place_from(
                        Place::Index(Rc::new(place), Bound::Const(*value)),
                        rest,
                        call_args,
                    )
                },
                TemplateProjection::Index(IndexTemplate::Param(i)) => match call_args.get(*i) {
                    Some(arg) => {
                        let bound = self.expr_to_bound(arg);
                        self.resolve_template_place_from(
                            Place::Index(Rc::new(place), bound),
                            rest,
                            call_args,
                        )
                    },
                    None => place,
                },
                TemplateProjection::Index(IndexTemplate::Opaque) => place,
            },
        }
    }

    /// The place that projections lead to, unless an argument they need is missing.
    pub open spec fn projected_place(
        self,
        place: Place,
        projections: List<TemplateProjection>,
        args: List<HirExpr>,
    ) -> (TypeChecker, Option<Place>)
        decreases projections,
    {
        match projections {
            Nil => (self, Some(place)),
            Cons(projection, rest) => match *projection {
                TemplateProjection::Field(field) => self.projected_place(
                    Place::Field(Rc::new(place), field),
                    *rest,
                    args,
                ),
                TemplateProjection::Deref => self.projected_place(
                    Place::Deref(Rc::new(place)),
                    *rest,
                    args,
                ),
                TemplateProjection::Index(IndexTemplate::Const(value)) => self.projected_place(
                    Place::Index(Rc::new(place), Bound::Const(value)),
                    *rest,
                    args,
                ),
                TemplateProjection::Index(IndexTemplate::Param(i)) => match args.nth(i) {
                    Some(arg) => {
                        let (after, bound) = self.bound_of(arg);
                        after.projected_place(Place::Index(Rc::new(place), bound), *rest, args)
                    },
                    None => (self, None),
                },
                TemplateProjection::Index(IndexTemplate::Opaque) => self.projected_place(
                    Place::Index(Rc::new(place), Bound::Opaque(0)),
                    *rest,
                    args,
                ),
            },
        }
    }

    fn project_place(
        &mut self,
        place: Place,
        projections: &List<TemplateProjection>,
        args: &List<HirExpr>,
    ) -> (result: Option<Place>)
        ensures
            (*final(self), result) == old(self).projected_place(place, *projections, *args),
            final(self).settled_in_scope(*old(self)),
        decreases projections,
    {
        match projections {
            Nil => Some(place),
            Cons(projection, rest) => match &**projection {
                TemplateProjection::Field(field) => self.project_place(
                    Place::Field(Rc::new(place), *field),
                    rest,
                    args,
                ),
                TemplateProjection::Deref => self.project_place(
                    Place::Deref(Rc::new(place)),
                    rest,
                    args,
                ),
                TemplateProjection::Index(IndexTemplate::Const(value)) => self.project_place(
                    Place::Index(Rc::new(place), Bound::Const(*value)),
                    rest,
                    args,
                ),
                TemplateProjection::Index(IndexTemplate::Param(i)) => match args.get(*i) {
                    Some(arg) => {
                        let bound = self.expr_to_bound(arg);
                        self.project_place(Place::Index(Rc::new(place), bound), rest, args)
                    },
                    None => None,
                },
                TemplateProjection::Index(IndexTemplate::Opaque) => self.project_place(
                    Place::Index(Rc::new(place), Bound::Opaque(0)),
                    rest,
                    args,
                ),
            },
        }
    }

    /// The place that a returned reference points to.
    pub open spec fn template_place(
        self,
        template: RefTemplate,
        receiver: Option<HirExpr>,
        args: List<HirExpr>,
    ) -> (TypeChecker, Option<Place>) {
        match template {
            RefTemplate::Opaque => (self, None),
            RefTemplate::Path { base, projections, .. } => match template_start(
                base,
                receiver,
                args,
            ) {
                None => (self, None),
                Some(start) => {
                    let (after, place) = self.resolved(start);
                    match place {
                        Some(found) => after.projected_place(found, projections, args),
                        None => (after, None),
                    }
                },
            },
        }
    }

    pub fn resolve_template_place(
        &mut self,
        template: &RefTemplate,
        receiver: Option<&HirExpr>,
        args: &List<HirExpr>,
    ) -> (place: Option<Place>)
        ensures
            (*final(self), place) == old(self).template_place(
                *template,
                match receiver {
                    Some(expr) => Some(*expr),
                    None => None,
                },
                *args,
            ),
            final(self).settled_in_scope(*old(self)),
    {
        match template {
            RefTemplate::Opaque => None,
            RefTemplate::Path { base, projections, .. } => {
                match find_template_start(*base, receiver, args) {
                    None => None,
                    Some(start) => match self.resolve_place(start) {
                        Some(place) => self.project_place(place, projections, args),
                        None => None,
                    },
                }
            },
        }
    }

    /// The places that a call reads below a place.
    pub open spec fn read_places(
        self,
        base: Place,
        paths: List<List<TemplateProjection>>,
        args: List<HirExpr>,
    ) -> (TypeChecker, List<Place>)
        decreases paths,
    {
        match paths {
            Nil => (self, Nil),
            Cons(projections, rest) => {
                let (after, place) = self.place_from(base, *projections, args);
                let (last, more) = after.read_places(base, *rest, args);
                (last, List::cons_of(place, more))
            },
        }
    }

    fn resolve_read_places(
        &mut self,
        base: &Place,
        paths: &List<List<TemplateProjection>>,
        args: &List<HirExpr>,
    ) -> (places: List<Place>)
        ensures
            (*final(self), places) == old(self).read_places(*base, *paths, *args),
            final(self).settled_in_scope(*old(self)),
        decreases paths,
    {
        match paths {
            Nil => Nil,
            Cons(projections, rest) => {
                let place = self.resolve_template_place_from(base.dup(), projections, args);
                let more = self.resolve_read_places(base, rest, args);
                List::cons(place, more)
            },
        }
    }

    /// The checker after what a callee reads through an argument.
    pub open spec fn read_effects(
        self,
        inner: HirExpr,
        template: ReadTemplate,
        args: List<HirExpr>,
    ) -> TypeChecker {
        let (after, place) = self.resolved(inner);
        match (place, template) {
            (None, _) => after,
            (Some(base), ReadTemplate::Opaque) => after.asked(BorrowOp::ReadAll(base)),
            (Some(base), ReadTemplate::Paths(paths)) => {
                let (last, parts) = after.read_places(base, paths, args);
                last.asked(BorrowOp::ReadParts { base, parts })
            },
        }
    }

    pub fn check_call_arg_read_effects(
        &mut self,
        inner: &HirExpr,
        read_template: &ReadTemplate,
        call_args: &List<HirExpr>,
    )
        ensures
            *final(self) == old(self).read_effects(*inner, *read_template, *call_args),
            final(self).settled_in_scope(*old(self)),
    {
        match self.resolve_place(inner) {
            None => {},
            Some(base) => match read_template {
                ReadTemplate::Opaque => self.ask(BorrowOp::ReadAll(base)),
                ReadTemplate::Paths(paths) => {
                    let parts = self.resolve_read_places(&base, paths, call_args);
                    self.ask(BorrowOp::ReadParts { base, parts });
                },
            },
        }
    }

    /// The checker after what a callee reads through its shared reference arguments.
    pub open spec fn shared_reads(
        self,
        rest: List<HirExpr>,
        templates: List<ReadTemplate>,
        args: List<HirExpr>,
    ) -> TypeChecker
        decreases rest,
    {
        match (rest, templates) {
            (Cons(arg, more), Cons(template, others)) => {
                let next = match arg.kind {
                    ExprKind::Ref { expr: inner, ref_kind: RefKind::Shared, .. } => {
                        self.read_effects(*inner, *template, args)
                    },
                    _ => self,
                };
                next.shared_reads(*more, *others, args)
            },
            _ => self,
        }
    }

    pub fn check_shared_reads(
        &mut self,
        rest: &List<HirExpr>,
        templates: &List<ReadTemplate>,
        args: &List<HirExpr>,
    )
        ensures
            *final(self) == old(self).shared_reads(*rest, *templates, *args),
            final(self).settled_in_scope(*old(self)),
        decreases rest,
    {
        match (rest, templates) {
            (Cons(arg, more), Cons(template, others)) => {
                match &arg.kind {
                    ExprKind::Ref { expr: inner, ref_kind: RefKind::Shared, .. } => {
                        self.check_call_arg_read_effects(inner, template, args);
                    },
                    _ => {},
                }
                self.check_shared_reads(more, others, args);
            },
            _ => {},
        }
    }

    /// The checker after a call gives its argument loans back, and the loan of its result.
    #[verifier::opaque]
    pub open spec fn call_finalized(
        self,
        receiver: Option<HirExpr>,
        args: List<HirExpr>,
        arg_loans: List<usize>,
        ret_ty: HirType,
        template: Option<RefTemplate>,
    ) -> (TypeChecker, Option<usize>) {
        match template {
            None => (self.loans_ended(arg_loans), None),
            Some(known) => {
                let ended = if known is Path {
                    self.loans_ended(arg_loans)
                } else {
                    self
                };
                let (after, place) = ended.template_place(known, receiver, args);
                match place {
                    None => (after, None),
                    Some(found) => {
                        let (made, loan) = after.borrowed(
                            found,
                            returned_kind(ret_ty),
                            template_provenance(self.program.graph, known, receiver, args),
                        );
                        (made, Some(loan))
                    },
                }
            },
        }
    }

    pub fn finalize_call_loans(
        &mut self,
        receiver: Option<&HirExpr>,
        args: &List<HirExpr>,
        arg_loans: &List<usize>,
        ret_ty: &HirType,
        template: &Option<RefTemplate>,
    ) -> (loan: Option<usize>)
        ensures
            (*final(self), loan) == old(self).call_finalized(
                match receiver {
                    Some(expr) => Some(*expr),
                    None => None,
                },
                *args,
                *arg_loans,
                *ret_ty,
                *template,
            ),
            final(self).settled_in_scope(*old(self)),
    {
        proof {
            reveal(TypeChecker::call_finalized);
        }
        match template {
            None => {
                self.end_loans(arg_loans);
                None
            },
            Some(known) => {
                let blame = self.provenance_from_template(known, receiver, args);
                if matches!(known, RefTemplate::Path { .. }) {
                    self.end_loans(arg_loans);
                }
                match self.resolve_template_place(known, receiver, args) {
                    None => None,
                    Some(place) => {
                        let kind = match ret_ty {
                            HirType::Ref { ref_kind, .. } => *ref_kind,
                            _ => RefKind::Shared,
                        };
                        Some(self.borrow_place(place, kind, blame))
                    },
                }
            },
        }
    }

    pub fn callee_ignores_initial_contents(
        write_template: &Option<List<bool>>,
        read_template: &Option<List<ReadTemplate>>,
        index: usize,
    ) -> (ignores: bool)
        ensures
            ignores == ignores_contents(*write_template, *read_template, index),
    {
        let written = match write_template {
            Some(list) => match list.get(index) {
                Some(written) => *written,
                None => false,
            },
            None => false,
        };
        let unread = match read_template {
            Some(list) => match list.get(index) {
                Some(template) => !Self::read_template_touches_contents(template),
                None => false,
            },
            None => false,
        };
        written || unread
    }

    /// The checker and what a comparison says of two indices.
    pub open spec fn condition_fact(self, cond: HirExpr) -> (
        TypeChecker,
        Option<(Bound, Bound, bool)>,
    ) {
        match cond.kind {
            ExprKind::Comparison { left, op, right, .. } => match equality(op) {
                Some(equal) => {
                    let (after_left, left_bound) = self.bound_of(*left);
                    let (after_right, right_bound) = after_left.bound_of(*right);
                    (after_right, Some((left_bound, right_bound, equal)))
                },
                None => (self, None),
            },
            _ => (self, None),
        }
    }

    pub fn condition_to_fact(&mut self, cond: &HirExpr) -> (fact: Option<(Bound, Bound, bool)>)
        ensures
            (*final(self), fact) == old(self).condition_fact(*cond),
            final(self).settled_in_scope(*old(self)),
    {
        match &cond.kind {
            ExprKind::Comparison { left, op, right, .. } => match equality_of(*op) {
                Some(equal) => {
                    let left_bound = self.expr_to_bound(left);
                    let right_bound = self.expr_to_bound(right);
                    Some((left_bound, right_bound, equal))
                },
                None => None,
            },
            _ => None,
        }
    }

    /// The loans that an expression holds, where it is a local.
    pub open spec fn referents(self, expr: HirExpr) -> List<usize> {
        match expr.kind {
            ExprKind::Ident(name, _) => owned_by(self.loans.owners, name),
            _ => Nil,
        }
    }

    pub fn loan_referents(&self, expr: &HirExpr) -> (loans: List<usize>)
        ensures
            loans == self.referents(*expr),
    {
        match &expr.kind {
            ExprKind::Ident(name, _) => loans_owned_by(&self.loans.owners, *name),
            _ => Nil,
        }
    }

    /// What a comparison says of the places that two references point to.
    pub open spec fn place_fact(self, cond: HirExpr) -> Option<(List<usize>, List<usize>, bool)> {
        match cond.kind {
            ExprKind::Comparison { left, op, right, .. } => match equality(op) {
                Some(equal) => if self.referents(*left) is Nil || self.referents(*right) is Nil {
                    None
                } else {
                    Some((self.referents(*left), self.referents(*right), equal))
                },
                None => None,
            },
            _ => None,
        }
    }

    pub fn condition_to_place_fact(&self, cond: &HirExpr) -> (fact: Option<
        (List<usize>, List<usize>, bool),
    >)
        ensures
            fact == self.place_fact(*cond),
    {
        match &cond.kind {
            ExprKind::Comparison { left, op, right, .. } => match equality_of(*op) {
                Some(equal) => {
                    let left_loans = self.loan_referents(left);
                    let right_loans = self.loan_referents(right);
                    if left_loans.is_empty() || right_loans.is_empty() {
                        None
                    } else {
                        Some((left_loans, right_loans, equal))
                    }
                },
                None => None,
            },
            _ => None,
        }
    }

    /// Two checkers that differ in nothing but the opaque indices handed out.
    pub open spec fn only_opaque_differs(self, other: TypeChecker) -> bool {
        other == (TypeChecker {
            loans: LoanTables { next_opaque_id: other.loans.next_opaque_id, ..self.loans },
            ..self
        })
    }
}

/// Finding out what bounds an index changes nothing but the supply of opaque indices.
pub proof fn bounding_keeps_rest(checker: TypeChecker, expr: HirExpr)
    ensures
        checker.only_opaque_differs(checker.bound_of(expr).0),
    decreases expr,
{
    match expr.kind {
        ExprKind::Binary { left, op, right, .. } => {
            if arithmetic(op) {
                bounding_keeps_rest(checker, expr.left());
                bounding_keeps_rest(checker.bound_of(expr.left()).0, expr.right());
            }
        },
        _ => {},
    }
}

/// Finding out which place an expression names changes nothing but the supply of opaque indices.
pub proof fn resolving_keeps_rest(checker: TypeChecker, expr: HirExpr)
    ensures
        checker.only_opaque_differs(checker.resolved(expr).0),
    decreases expr,
{
    match expr.kind {
        ExprKind::FieldAccess { .. } | ExprKind::Get { .. } | ExprKind::Deref { .. } => {
            resolving_keeps_rest(checker, expr.object());
        },
        ExprKind::Index { .. } => {
            resolving_keeps_rest(checker, expr.object());
            bounding_keeps_rest(checker.resolved(expr.object()).0, expr.right());
        },
        ExprKind::Binary { .. } => {
            resolving_keeps_rest(checker, expr.left());
            bounding_keeps_rest(checker.resolved(expr.left()).0, expr.right());
        },
        _ => {},
    }
}

/// An element behind a raw pointer is no place as long as it is not known what the pointer points to.
pub proof fn unknown_pointers_lead_nowhere(checker: TypeChecker, expr: HirExpr)
    requires
        expr.kind is Index,
        crate::closures::raw_pointer(peeked(checker.context, expr.object())),
        match checker.resolved(expr.object()).1 {
            Some(pointer) => !has_key(checker.loans.pointees, pointer),
            None => true,
        },
    ensures
        checker.resolved(expr).1 is None,
{
    resolving_keeps_rest(checker, expr.object());
}

/// A value that was moved, and is not of a copied type, cannot be used again without an error.
pub proof fn second_use_is_reported(checker: TypeChecker, root: StrId, ty: HirType)
    requires
        !checker.program.facts.copied(ty),
    ensures
        checker.moved(root, None, ty, None).use_checked(root, None, ty) == checker.moved(
            root,
            None,
            ty,
            None,
        ).said(Message::MovedValue { root }),
{
    crate::list::member_added(
        checker.moved(root, None, ty, None).flow.moves.whole,
        root,
        root,
    );
    crate::list::member_added(checker.flow.moves.whole, root, root);
}

} // verus!
