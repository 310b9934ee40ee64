//! The vocabulary of the borrow checker: symbolic places, loan templates, and the steps that a
//! borrow checker is asked to perform.
//!
//! The type checker does not decide whether two places overlap. It names the places and the loans,
//! and writes down, in program order, what is borrowed, used, moved and ended.

use std::rc::Rc;

use vstd::prelude::*;

use crate::hir::{ProvenanceAnnotation, RefKind, SourceSpan, StrId};
use crate::list::{Key, List};

verus! {

#[derive(Clone, Copy, Debug, PartialEq, Eq, Structural)]
pub enum BorrowKind {
    Shared,
    Alias,
    Mutable,
}

/// A symbolic index. A symbol is a local and the fields that lead from it.
#[derive(Debug, PartialEq, Eq)]
pub enum Bound {
    Const(i64),
    Symbol { root: StrId, path: List<StrId> },
    Offset { base: Rc<Bound>, offset: i64 },
    Scale { base: Rc<Bound>, factor: i64 },
    Sum(Rc<Bound>, Rc<Bound>),
    Opaque(u32),
}

/// A place, by the projections that lead to it.
#[derive(Debug, PartialEq, Eq)]
pub enum Place {
    /// The place that was declared for a local.
    Local(StrId),
    /// The place remembered in a slot, or that of a local where the slot holds none.
    Slot { slot: usize, local: StrId },
    Field(Rc<Place>, StrId),
    Deref(Rc<Place>),
    /// The element of an array or slice at an index.
    Index(Rc<Place>, Bound),
    /// The place that a loan is of.
    OfLoan(usize),
}

#[derive(Clone, Copy, Debug, PartialEq, Eq, Structural)]
pub enum TemplateBase {
    Param(usize),
    This,
}

#[derive(Clone, Copy, Debug, PartialEq, Eq, Structural)]
pub enum IndexTemplate {
    Const(i64),
    Param(usize),
    Opaque,
}

#[derive(Clone, Copy, Debug, PartialEq, Eq, Structural)]
pub enum TemplateProjection {
    Field(StrId),
    Deref,
    Index(IndexTemplate),
}

/// What a function reads through one of its parameters: anything, or the listed paths.
#[derive(Debug, PartialEq, Eq)]
pub enum ReadTemplate {
    Opaque,
    Paths(List<List<TemplateProjection>>),
}

/// What the reference that a function returns points to.
#[derive(Debug, PartialEq, Eq)]
pub enum RefTemplate {
    Opaque,
    Path { base: TemplateBase, ref_kind: RefKind, projections: List<TemplateProjection> },
}

/// One thing that the borrow checker is asked to do. A loan is named by the number that the step
/// which makes it gives; a step on a loan that was not made does nothing, nor does one on a place
/// that cannot be found.
#[derive(Debug, PartialEq, Eq)]
pub enum BorrowOp {
    /// Forget every local, loan and fact.
    Reset,
    BeginScope,
    EndScope,
    Declare(StrId),
    Borrow { loan: usize, place: Place, kind: RefKind, blame: Option<ProvenanceAnnotation> },
    /// Give a number to the loan of a place that is already borrowed.
    FindLoan { loan: usize, place: Place },
    EndLoan(usize),
    /// End a loan if another one was made.
    EndLoanIfMade { loan: usize, made: usize },
    Use { place: Place, kind: BorrowKind, blame: Option<ProvenanceAnnotation> },
    UseShell { place: Place, kind: BorrowKind, blame: Option<ProvenanceAnnotation> },
    Move { place: Place, blame: ProvenanceAnnotation },
    MarkInit(Place),
    MarkUninit(Place),
    Remember { slot: usize, place: Place },
    AssumeEqual(Bound, Bound),
    AssumeNotEqual(Bound, Bound),
    /// The places of the first loan made of each list are different.
    AssumePlacesDiffer(List<usize>, List<usize>),
    /// A call reads the whole of what is reachable from a place.
    ReadAll(Place),
    /// A call reads these parts of a place.
    ReadParts { base: Place, parts: List<Place> },
}

/// A step, where in the source it comes from, and whether its failure is reported.
#[derive(Debug, PartialEq, Eq)]
pub struct BorrowStep {
    pub op: BorrowOp,
    pub span: SourceSpan,
    pub report: bool,
}

/// Why a step failed.
#[derive(Clone, Copy, Debug, PartialEq, Eq, Structural)]
pub enum BorrowError {
    UseAfterMove,
    MutablyBorrowed,
    AlreadyMutablyBorrowed,
    Borrowed,
    InvalidMove,
    InvalidWrite,
    InvalidRead,
    CannotMoveBorrowed,
    UnknownAlias,
    UseOfUninitialized,
    CannotDropUninitialized,
    LoanNotFound,
    PlaceNotFound,
    ProvenanceNotFound,
    AliasConflict,
}

impl Bound {
    pub fn dup(&self) -> (copy: Bound)
        ensures
            copy == *self,
    {
        match self {
            Bound::Const(value) => Bound::Const(*value),
            Bound::Symbol { root, path } => Bound::Symbol { root: *root, path: path.dup() },
            Bound::Offset { base, offset } => Bound::Offset {
                base: crate::list::share(base),
                offset: *offset,
            },
            Bound::Scale { base, factor } => Bound::Scale {
                base: crate::list::share(base),
                factor: *factor,
            },
            Bound::Sum(left, right) => Bound::Sum(
                crate::list::share(left),
                crate::list::share(right),
            ),
            Bound::Opaque(id) => Bound::Opaque(*id),
        }
    }
}

impl Place {
    pub fn dup(&self) -> (copy: Place)
        ensures
            copy == *self,
    {
        match self {
            Place::Local(name) => Place::Local(*name),
            Place::Slot { slot, local } => Place::Slot { slot: *slot, local: *local },
            Place::Field(base, field) => Place::Field(crate::list::share(base), *field),
            Place::Deref(base) => Place::Deref(crate::list::share(base)),
            Place::Index(base, bound) => Place::Index(crate::list::share(base), bound.dup()),
            Place::OfLoan(loan) => Place::OfLoan(*loan),
        }
    }
}

impl Key for Bound {
    fn same(&self, other: &Self) -> (equal: bool)
        decreases self,
    {
        match (self, other) {
            (Bound::Const(a), Bound::Const(b)) => *a == *b,
            (Bound::Symbol { root: a, path: p }, Bound::Symbol { root: b, path: q }) => *a == *b
                && p.same(q),
            (Bound::Offset { base: a, offset: x }, Bound::Offset { base: b, offset: y }) => *x == *y
                && a.same(b),
            (Bound::Scale { base: a, factor: x }, Bound::Scale { base: b, factor: y }) => *x == *y
                && a.same(b),
            (Bound::Sum(a, x), Bound::Sum(b, y)) => a.same(b) && x.same(y),
            (Bound::Opaque(a), Bound::Opaque(b)) => *a == *b,
            _ => false,
        }
    }
}

impl Key for Place {
    fn same(&self, other: &Self) -> (equal: bool)
        decreases self,
    {
        match (self, other) {
            (Place::Local(a), Place::Local(b)) => *a == *b,
            (Place::Slot { slot: i, local: a }, Place::Slot { slot: j, local: b }) => *i == *j && *a
                == *b,
            (Place::Field(a, x), Place::Field(b, y)) => *x == *y && a.same(b),
            (Place::Deref(a), Place::Deref(b)) => a.same(b),
            (Place::Index(a, x), Place::Index(b, y)) => x.same(y) && a.same(b),
            (Place::OfLoan(a), Place::OfLoan(b)) => *a == *b,
            _ => false,
        }
    }
}

impl ReadTemplate {
    pub fn dup(&self) -> (copy: ReadTemplate)
        ensures
            copy == *self,
    {
        match self {
            ReadTemplate::Opaque => ReadTemplate::Opaque,
            ReadTemplate::Paths(paths) => ReadTemplate::Paths(paths.dup()),
        }
    }
}

impl RefTemplate {
    pub fn dup(&self) -> (copy: RefTemplate)
        ensures
            copy == *self,
    {
        match self {
            RefTemplate::Opaque => RefTemplate::Opaque,
            RefTemplate::Path { base, ref_kind, projections } => RefTemplate::Path {
                base: *base,
                ref_kind: *ref_kind,
                projections: projections.dup(),
            },
        }
    }
}

} // verus!
