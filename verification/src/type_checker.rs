//! The state of the checker.

use std::rc::Rc;

use vstd::prelude::*;

use crate::borrow::{BorrowOp, BorrowStep, Bound, Place, ReadTemplate, RefTemplate};
use crate::closures::{ClosureFrame, ClosureLowering};
use crate::errors::{Message, TypeError, TypeErrorKind};
use crate::hir::{HirExpr, HirType, RefKind, SourceSpan, StrId, Word};
use crate::initialization::{BindingMode, InitNode, InitState};
use crate::list::{find, lookup, share, update, updated, Cons, List, Nil, Table};
use crate::move_state::MoveState;
use crate::program::{Facts, ModuleGraph, ModuleImports};
use crate::type_context::{LocalSymbolId, SymbolId, TypeContext};

verus! {

/// The fields of each local that are known not to be null.
pub type NonNullState = Table<StrId, List<List<StrId>>>;

/// The registered modules. Checking a body does not change them.
#[derive(Debug, PartialEq, Eq)]
pub struct Program {
    pub graph: ModuleGraph,
    pub facts: Facts,
    pub auto_imports: List<List<StrId>>,
    pub imports_by_module: Table<usize, ModuleImports>,
    pub functions_by_module: Table<usize, List<StrId>>,
    pub structs_by_module: Table<usize, List<StrId>>,
    pub enums_by_module: Table<usize, List<StrId>>,
}

/// A use or declaration of a name.
#[derive(Debug, PartialEq, Eq)]
pub struct Occurrence {
    pub span: SourceSpan,
    pub name: StrId,
    pub ty: HirType,
    pub module_idx: usize,
    pub symbol: SymbolId,
    pub is_declaration: bool,
}

/// Something the checker has found out, in the order of the program.
#[derive(Debug, PartialEq, Eq)]
pub enum Event {
    Error(TypeError),
    Borrow(BorrowStep),
}

/// What has been reported. The latest entry of each list comes first.
#[derive(Debug, PartialEq, Eq)]
pub struct Diagnostics {
    pub log: List<Event>,
    pub occurrences: List<Occurrence>,
    pub current_span: SourceSpan,
    pub suppress_errors: bool,
}

/// What is known at a point of the program, and merged where paths meet.
#[derive(Debug, PartialEq, Eq)]
pub struct FlowState {
    pub moves: MoveState,
    pub inits: InitState,
    pub non_null: NonNullState,
}

/// How the expression at hand is to be looked at.
#[derive(Clone, Copy, Debug, PartialEq, Eq, Structural)]
pub struct Modes {
    pub suppress_init_read: bool,
    pub in_place_context: bool,
    pub skip_slice_init_check: bool,
    pub unsafe_depth: usize,
}

/// What is known of functions from their bodies alone, by their names.
#[derive(Debug, PartialEq, Eq)]
pub struct Templates {
    pub refs: Table<StrId, RefTemplate>,
    pub reads: Table<StrId, List<ReadTemplate>>,
    pub writes: Table<StrId, List<bool>>,
}

/// Who holds which loan, and where the references in locals point.
#[derive(Debug, PartialEq, Eq)]
pub struct LoanTables {
    /// The locals that have a place of their own.
    pub declared: List<StrId>,
    pub owners: Table<usize, StrId>,
    pub slots: Table<StrId, usize>,
    pub ref_kinds: Table<StrId, RefKind>,
    pub calls: Table<usize, usize>,
    pub closures: Table<usize, List<usize>>,
    /// What the raw pointers at places point to, as far as it is known: a place, and how far beyond
    /// its start.
    pub pointees: Table<Place, (Place, Bound)>,
    pub next_loan: usize,
    pub next_slot: usize,
    pub next_opaque_id: u32,
}

/// The points of the function at hand, and the locals used at each.
#[derive(Debug, PartialEq, Eq)]
pub struct Points {
    pub successors: Table<usize, List<usize>>,
    pub stmt_points: Table<usize, usize>,
    pub stmt_after_points: Table<usize, usize>,
    pub locals_used: Table<usize, List<StrId>>,
    pub current: usize,
}

/// What was found out of single expressions, by their keys.
#[derive(Debug, PartialEq, Eq)]
pub struct Backfills {
    pub undefined: Table<usize, HirType>,
    pub uninit: Table<usize, HirType>,
    pub binding_modes: Table<usize, BindingMode>,
    pub instance_args: Table<usize, List<HirType>>,
}

#[derive(Debug, PartialEq, Eq)]
pub struct ClosureState {
    /// The closures that enclose the expression at hand, the outermost first.
    pub frames: List<ClosureFrame>,
    pub table: Table<usize, ClosureLowering>,
    pub next_id: u32,
    pub constraints: Table<StrId, HirType>,
    pub pre_subs: Table<StrId, HirType>,
    pub generic_subs: Table<StrId, HirType>,
}

#[derive(Debug, PartialEq, Eq)]
pub struct TypeChecker {
    pub context: TypeContext,
    pub program: Program,
    pub diagnostics: Diagnostics,
    pub flow: FlowState,
    pub modes: Modes,
    pub templates: Templates,
    pub loans: LoanTables,
    pub points: Points,
    pub backfills: Backfills,
    pub closures: ClosureState,
    pub next_symbol_id: u32,
}

/// The result of a check that can fail: the error goes to the caller, who may record it.
pub type TypeCheckResult<T> = Result<T, TypeError>;

pub open spec fn this_name() -> StrId {
    StrId::Known(Word::This)
}

pub open spec fn no_span() -> SourceSpan {
    SourceSpan { line: 0, column: 0, end_line: 0, end_column: 0 }
}

/// The number behind a number, wrapping around at the largest.
pub open spec fn after_u32(value: u32) -> u32 {
    if value == u32::MAX {
        0
    } else {
        (value + 1) as u32
    }
}

pub open spec fn after_usize(value: usize) -> usize {
    if value == usize::MAX {
        0
    } else {
        (value + 1) as usize
    }
}

pub open spec fn before_usize(value: usize) -> usize {
    if value == 0 {
        usize::MAX
    } else {
        (value - 1) as usize
    }
}

pub fn next_u32(value: u32) -> (next: u32)
    ensures
        next == after_u32(value),
{
    if value == u32::MAX {
        0
    } else {
        value + 1
    }
}

pub fn next_usize(value: usize) -> (next: usize)
    ensures
        next == after_usize(value),
{
    if value == usize::MAX {
        0
    } else {
        value + 1
    }
}

pub fn previous_usize(value: usize) -> (previous: usize)
    ensures
        previous == before_usize(value),
{
    if value == 0 {
        usize::MAX
    } else {
        value - 1
    }
}

/// The errors of a log whose latest event comes first, the oldest error first.
pub open spec fn errors_of(log: List<Event>, later: List<TypeError>) -> List<TypeError>
    decreases log,
{
    match log {
        Nil => later,
        Cons(event, rest) => match *event {
            Event::Error(error) => errors_of(*rest, List::cons_of(error, later)),
            Event::Borrow(_) => errors_of(*rest, later),
        },
    }
}

/// A log the other way round, in front of what came later.
pub open spec fn oldest_first(log: List<Event>, later: List<Event>) -> List<Event>
    decreases log,
{
    match log {
        Nil => later,
        Cons(event, rest) => oldest_first(*rest, Cons(event, Rc::new(later))),
    }
}

fn turn_round(log: &List<Event>, later: List<Event>) -> (events: List<Event>)
    ensures
        events == oldest_first(*log, later),
    decreases log,
{
    match log {
        Nil => later,
        Cons(event, rest) => turn_round(rest, Cons(share(event), Rc::new(later))),
    }
}

/// A log that is turned round holds the same events, the oldest first.
pub proof fn turning_round_reverses(log: List<Event>, later: List<Event>)
    ensures
        oldest_first(log, later).seq() == log.seq().reverse() + later.seq(),
    decreases log,
{
    match log {
        Nil => {
            assert(log.seq().reverse() + later.seq() == later.seq());
        },
        Cons(_, _) => {
            let next = List::cons_of(log.head(), later);
            turning_round_reverses(log.rest(), next);
            assert(next.seq() == seq![log.head()] + later.seq());
            assert(log.seq() == seq![log.head()] + log.rest().seq());
            assert(log.seq().reverse() + later.seq() == log.rest().seq().reverse() + next.seq());
        },
    }
}

/// Whether a log holds an error.
pub open spec fn has_error(log: List<Event>) -> bool
    decreases log,
{
    match log {
        Nil => false,
        Cons(event, rest) => *event is Error || has_error(*rest),
    }
}

/// A log without its errors.
pub open spec fn without_errors(log: List<Event>) -> List<Event>
    decreases log,
{
    match log {
        Nil => Nil,
        Cons(event, rest) => match *event {
            Event::Error(_) => without_errors(*rest),
            Event::Borrow(_) => Cons(event, Rc::new(without_errors(*rest))),
        },
    }
}

impl TypeError {
    pub fn dup(&self) -> (copy: TypeError)
        ensures
            copy == *self,
    {
        TypeError { kind: self.kind.dup(), span: self.span }
    }
}

impl Diagnostics {
    pub open spec fn with_event(self, event: Event) -> Diagnostics {
        Diagnostics { log: List::cons_of(event, self.log), ..self }
    }

    pub open spec fn with_error(self, error: TypeError) -> Diagnostics {
        if self.suppress_errors {
            self
        } else {
            self.with_event(Event::Error(error))
        }
    }

    pub fn push_error(&mut self, error: TypeError)
        ensures
            *final(self) == old(self).with_error(error),
    {
        if !self.suppress_errors {
            self.log = List::cons(Event::Error(error), self.log.dup());
        }
    }
}

impl TypeChecker {
    /// What no check of a statement or an expression changes: the registered modules, whether
    /// errors are left out, and how the code around is looked at.
    pub open spec fn settled(self, before: TypeChecker) -> bool {
        &&& self.program == before.program
        &&& self.diagnostics.suppress_errors == before.diagnostics.suppress_errors
        &&& self.modes.suppress_init_read == before.modes.suppress_init_read
        &&& self.modes.in_place_context == before.modes.in_place_context
        &&& self.modes.unsafe_depth == before.modes.unsafe_depth
    }

    /// Beyond that, what is in scope is what was.
    pub open spec fn settled_in_scope(self, before: TypeChecker) -> bool {
        &&& self.settled(before)
        &&& self.context == before.context
    }

    /// The checker after an error at the current position.
    pub open spec fn recorded(self, kind: TypeErrorKind) -> TypeChecker {
        TypeChecker {
            diagnostics: self.diagnostics.with_error(
                TypeError { kind, span: self.diagnostics.current_span },
            ),
            ..self
        }
    }

    pub open spec fn said(self, message: Message) -> TypeChecker {
        self.recorded(TypeErrorKind::Generic(message))
    }

    /// The checker after a check: its error is recorded where it has one.
    pub open spec fn recovered(self, result: TypeCheckResult<()>) -> TypeChecker {
        match result {
            Ok(_) => self,
            Err(error) => TypeChecker { diagnostics: self.diagnostics.with_error(error), ..self },
        }
    }

    #[verifier::opaque]
    pub open spec fn at_span(self, span: SourceSpan) -> TypeChecker {
        TypeChecker { diagnostics: Diagnostics { current_span: span, ..self.diagnostics }, ..self }
    }

    /// The checker after asking the borrow checker for a step.
    pub open spec fn asked(self, op: BorrowOp) -> TypeChecker {
        TypeChecker {
            diagnostics: self.diagnostics.with_event(
                Event::Borrow(
                    BorrowStep {
                        op,
                        span: self.diagnostics.current_span,
                        report: !self.diagnostics.suppress_errors,
                    },
                ),
            ),
            ..self
        }
    }

    pub open spec fn with_occurrence(self, occurrence: Occurrence) -> TypeChecker {
        TypeChecker {
            diagnostics: Diagnostics {
                occurrences: List::cons_of(occurrence, self.diagnostics.occurrences),
                ..self.diagnostics
            },
            ..self
        }
    }

    pub open spec fn minted(self) -> (TypeChecker, SymbolId) {
        (
            TypeChecker { next_symbol_id: after_u32(self.next_symbol_id), ..self },
            SymbolId::Local(LocalSymbolId(self.next_symbol_id)),
        )
    }

    /// The checker with a number taken for a loan.
    pub open spec fn with_loan_taken(self) -> TypeChecker {
        TypeChecker {
            loans: LoanTables { next_loan: after_usize(self.loans.next_loan), ..self.loans },
            ..self
        }
    }

    pub open spec fn with_fresh_opaque(self) -> (TypeChecker, Bound) {
        (
            TypeChecker {
                loans: LoanTables {
                    next_opaque_id: after_u32(self.loans.next_opaque_id),
                    ..self.loans
                },
                ..self
            },
            Bound::Opaque(after_u32(self.loans.next_opaque_id)),
        )
    }

    pub open spec fn unsafe_here(self) -> bool {
        self.modes.unsafe_depth != 0
    }

    /// A checker with nothing registered and nothing found out.
    pub open spec fn fresh(graph: ModuleGraph, facts: Facts, auto_imports: List<List<StrId>>) -> TypeChecker {
        TypeChecker {
            context: TypeContext::fresh(),
            program: Program {
                graph,
                facts,
                auto_imports,
                imports_by_module: Nil,
                functions_by_module: Nil,
                structs_by_module: Nil,
                enums_by_module: Nil,
            },
            diagnostics: Diagnostics {
                log: Nil,
                occurrences: Nil,
                current_span: no_span(),
                suppress_errors: false,
            },
            flow: FlowState {
                moves: MoveState { whole: Nil, fields: Nil },
                inits: Nil,
                non_null: Nil,
            },
            modes: Modes {
                suppress_init_read: false,
                in_place_context: false,
                skip_slice_init_check: false,
                unsafe_depth: 0,
            },
            templates: Templates { refs: Nil, reads: Nil, writes: Nil },
            loans: LoanTables {
                declared: Nil,
                owners: Nil,
                slots: Nil,
                ref_kinds: Nil,
                calls: Nil,
                closures: Nil,
                pointees: Nil,
                next_loan: 0,
                next_slot: 0,
                next_opaque_id: 0,
            },
            points: Points {
                successors: Nil,
                stmt_points: Nil,
                stmt_after_points: Nil,
                locals_used: Nil,
                current: 0,
            },
            backfills: Backfills {
                undefined: Nil,
                uninit: Nil,
                binding_modes: Nil,
                instance_args: Nil,
            },
            closures: ClosureState {
                frames: Nil,
                table: Nil,
                next_id: 0,
                constraints: Nil,
                pre_subs: Nil,
                generic_subs: Nil,
            },
            next_symbol_id: 0,
        }
    }

    pub fn new(graph: ModuleGraph, facts: Facts, auto_imports: List<List<StrId>>) -> (checker: TypeChecker)
        ensures
            checker == TypeChecker::fresh(graph, facts, auto_imports),
    {
        TypeChecker {
            context: TypeContext::new(),
            program: Program {
                graph,
                facts,
                auto_imports,
                imports_by_module: Nil,
                functions_by_module: Nil,
                structs_by_module: Nil,
                enums_by_module: Nil,
            },
            diagnostics: Diagnostics {
                log: Nil,
                occurrences: Nil,
                current_span: SourceSpan { line: 0, column: 0, end_line: 0, end_column: 0 },
                suppress_errors: false,
            },
            flow: FlowState { moves: MoveState::new(), inits: Nil, non_null: Nil },
            modes: Modes {
                suppress_init_read: false,
                in_place_context: false,
                skip_slice_init_check: false,
                unsafe_depth: 0,
            },
            templates: Templates { refs: Nil, reads: Nil, writes: Nil },
            loans: LoanTables {
                declared: Nil,
                owners: Nil,
                slots: Nil,
                ref_kinds: Nil,
                calls: Nil,
                closures: Nil,
                pointees: Nil,
                next_loan: 0,
                next_slot: 0,
                next_opaque_id: 0,
            },
            points: Points {
                successors: Nil,
                stmt_points: Nil,
                stmt_after_points: Nil,
                locals_used: Nil,
                current: 0,
            },
            backfills: Backfills {
                undefined: Nil,
                uninit: Nil,
                binding_modes: Nil,
                instance_args: Nil,
            },
            closures: ClosureState {
                frames: Nil,
                table: Nil,
                next_id: 0,
                constraints: Nil,
                pre_subs: Nil,
                generic_subs: Nil,
            },
            next_symbol_id: 0,
        }
    }

    pub fn record(&mut self, kind: TypeErrorKind)
        ensures
            *final(self) == old(self).recorded(kind),
            final(self).settled_in_scope(*old(self)),
    {
        let span = self.diagnostics.current_span;
        self.diagnostics.push_error(kind.at(span));
    }

    pub fn say(&mut self, message: Message)
        ensures
            *final(self) == old(self).said(message),
            final(self).settled_in_scope(*old(self)),
    {
        self.record(TypeErrorKind::Generic(message));
    }

    pub fn recover(&mut self, result: TypeCheckResult<()>)
        ensures
            *final(self) == old(self).recovered(result),
            final(self).settled_in_scope(*old(self)),
    {
        match result {
            Ok(_) => {},
            Err(error) => self.diagnostics.push_error(error),
        }
    }

    pub fn set_span(&mut self, span: SourceSpan)
        ensures
            *final(self) == old(self).at_span(span),
            final(self).settled_in_scope(*old(self)),
    {
        proof {
            reveal(TypeChecker::at_span);
        }
        self.diagnostics.current_span = span;
    }

    pub fn ask(&mut self, op: BorrowOp)
        ensures
            *final(self) == old(self).asked(op),
            final(self).settled_in_scope(*old(self)),
    {
        let step = BorrowStep {
            op,
            span: self.diagnostics.current_span,
            report: !self.diagnostics.suppress_errors,
        };
        self.diagnostics.log = List::cons(Event::Borrow(step), self.diagnostics.log.dup());
    }

    pub fn push_occurrence(&mut self, occurrence: Occurrence)
        ensures
            *final(self) == old(self).with_occurrence(occurrence),
            final(self).settled_in_scope(*old(self)),
    {
        self.diagnostics.occurrences = List::cons(occurrence, self.diagnostics.occurrences.dup());
    }

    pub fn mint_symbol_id(&mut self) -> (id: SymbolId)
        ensures
            (*final(self), id) == old(self).minted(),
            final(self).settled_in_scope(*old(self)),
    {
        let id = LocalSymbolId(self.next_symbol_id);
        self.next_symbol_id = next_u32(self.next_symbol_id);
        SymbolId::Local(id)
    }

    pub fn take_loan(&mut self) -> (loan: usize)
        ensures
            *final(self) == old(self).with_loan_taken(),
            loan == old(self).loans.next_loan,
            final(self).settled_in_scope(*old(self)),
    {
        let loan: usize = self.loans.next_loan;
        self.loans.next_loan = next_usize(loan);
        loan
    }

    pub fn fresh_opaque(&mut self) -> (bound: Bound)
        ensures
            (*final(self), bound) == old(self).with_fresh_opaque(),
            final(self).settled_in_scope(*old(self)),
    {
        self.loans.next_opaque_id = next_u32(self.loans.next_opaque_id);
        Bound::Opaque(self.loans.next_opaque_id)
    }

    pub fn in_unsafe(&self) -> (inside: bool)
        ensures
            inside == self.unsafe_here(),
    {
        self.modes.unsafe_depth != 0
    }

    /// The errors so far, oldest first.
    pub fn errors(&self) -> (errors: List<TypeError>)
        ensures
            errors == errors_of(self.diagnostics.log, Nil),
    {
        collect_errors(&self.diagnostics.log, Nil)
    }

    pub fn has_errors(&self) -> (found: bool)
        ensures
            found == has_error(self.diagnostics.log),
    {
        any_error(&self.diagnostics.log)
    }

    /// Hands the errors out and forgets them.
    /// Takes what was found out, and what the borrow checker is to be asked, in the order of the
    /// program.
    pub fn take_events(&mut self) -> (events: List<Event>)
        ensures
            events == oldest_first(old(self).diagnostics.log, Nil),
            *final(self) == (TypeChecker {
                diagnostics: Diagnostics { log: Nil, ..old(self).diagnostics },
                ..*old(self)
            }),
    {
        let events = turn_round(&self.diagnostics.log, Nil);
        self.diagnostics.log = Nil;
        events
    }

    pub fn take_errors(&mut self) -> (errors: List<TypeError>)
        ensures
            errors == errors_of(old(self).diagnostics.log, Nil),
            *final(self) == (TypeChecker {
                diagnostics: Diagnostics {
                    log: without_errors(old(self).diagnostics.log),
                    ..old(self).diagnostics
                },
                ..*old(self)
            }),
    {
        let errors = collect_errors(&self.diagnostics.log, Nil);
        self.diagnostics.log = drop_errors(&self.diagnostics.log);
        errors
    }

    /// Everything found out, in the order of the program.
    pub fn events(&self) -> (events: List<Event>)
        ensures
            events == self.diagnostics.log.reversed_onto(Nil),
    {
        self.diagnostics.log.reverse()
    }

    /// The uses and declarations of names, oldest first.
    pub fn occurrences(&self) -> (occurrences: List<Occurrence>)
        ensures
            occurrences == self.diagnostics.occurrences.reversed_onto(Nil),
    {
        self.diagnostics.occurrences.reverse()
    }

    pub fn scope_end_init_snapshot(&self, name: StrId) -> (node: Option<&InitNode>)
        ensures
            node == match lookup(self.flow.inits, name) {
                Some(found) => Some(&found),
                None => None,
            },
    {
        find(&self.flow.inits, &name)
    }

    pub fn uninit_ty(&self, expr: &HirExpr) -> (ty: Option<HirType>)
        ensures
            ty == lookup(self.backfills.uninit, expr.key),
    {
        match find(&self.backfills.uninit, &expr.key) {
            Some(ty) => Some(ty.dup()),
            None => None,
        }
    }

    pub fn undefined_ty(&self, expr: &HirExpr) -> (ty: Option<HirType>)
        ensures
            ty == lookup(self.backfills.undefined, expr.key),
    {
        match find(&self.backfills.undefined, &expr.key) {
            Some(ty) => Some(ty.dup()),
            None => None,
        }
    }

    #[verifier::opaque]
    pub open spec fn item_occurrence(
        self,
        span: SourceSpan,
        name: StrId,
        ty: HirType,
        declaring_module_idx: usize,
    ) -> TypeChecker {
        match lookup(self.program.graph.items, (declaring_module_idx, name)) {
            None => self,
            Some((module_idx, item_idx, tag)) => self.with_occurrence(
                Occurrence {
                    span,
                    name,
                    ty,
                    module_idx: self.context.current_module_idx,
                    symbol: SymbolId::Item { module_idx, item_idx, tag },
                    is_declaration: false,
                },
            ),
        }
    }

    pub fn record_item_occurrence(
        &mut self,
        span: SourceSpan,
        name: StrId,
        ty: HirType,
        declaring_module_idx: usize,
    )
        ensures
            *final(self) == old(self).item_occurrence(span, name, ty, declaring_module_idx),
            final(self).settled_in_scope(*old(self)),
    {
        proof {
            reveal(TypeChecker::item_occurrence);
        }
        match self.program.graph.resolve_item_in_module(declaring_module_idx, name) {
            None => {},
            Some((module_idx, item_idx, tag)) => {
                let here: usize = self.context.current_module_idx;
                self.push_occurrence(
                    Occurrence {
                        span,
                        name,
                        ty,
                        module_idx: here,
                        symbol: SymbolId::Item { module_idx, item_idx, tag },
                        is_declaration: false,
                    },
                );
            },
        }
    }

    #[verifier::opaque]
    pub open spec fn method_occurrence(
        self,
        span: SourceSpan,
        name: StrId,
        ty: HirType,
        target: StrId,
    ) -> TypeChecker {
        match lookup(self.program.graph.methods, (target, name)) {
            None => self,
            Some((module_idx, item_idx, method_idx)) => self.with_occurrence(
                Occurrence {
                    span,
                    name,
                    ty,
                    module_idx: self.context.current_module_idx,
                    symbol: SymbolId::Method { module_idx, item_idx, method_idx },
                    is_declaration: false,
                },
            ),
        }
    }

    pub fn record_method_occurrence(
        &mut self,
        span: SourceSpan,
        name: StrId,
        ty: HirType,
        target: StrId,
    )
        ensures
            *final(self) == old(self).method_occurrence(span, name, ty, target),
            final(self).settled_in_scope(*old(self)),
    {
        proof {
            reveal(TypeChecker::method_occurrence);
        }
        match self.program.graph.resolve_method(target, name) {
            None => {},
            Some((module_idx, item_idx, method_idx)) => {
                let here: usize = self.context.current_module_idx;
                self.push_occurrence(
                    Occurrence {
                        span,
                        name,
                        ty,
                        module_idx: here,
                        symbol: SymbolId::Method { module_idx, item_idx, method_idx },
                        is_declaration: false,
                    },
                );
            },
        }
    }

    pub fn record_instance_args(&mut self, expr: &HirExpr, args: &List<HirType>)
        ensures
            *final(self) == (TypeChecker {
                backfills: Backfills {
                    instance_args: updated(old(self).backfills.instance_args, expr.key, *args),
                    ..old(self).backfills
                },
                ..*old(self)
            }),
            final(self).settled_in_scope(*old(self)),
    {
        self.backfills.instance_args = update(
            &self.backfills.instance_args,
            expr.key,
            args.dup(),
        );
    }
}

fn collect_errors(log: &List<Event>, later: List<TypeError>) -> (errors: List<TypeError>)
    ensures
        errors == errors_of(*log, later),
    decreases log,
{
    match log {
        Nil => later,
        Cons(event, rest) => match &**event {
            Event::Error(error) => collect_errors(rest, List::cons(error.dup(), later)),
            Event::Borrow(_) => collect_errors(rest, later),
        },
    }
}

fn any_error(log: &List<Event>) -> (found: bool)
    ensures
        found == has_error(*log),
    decreases log,
{
    match log {
        Nil => false,
        Cons(event, rest) => match &**event {
            Event::Error(_) => true,
            Event::Borrow(_) => any_error(rest),
        },
    }
}

fn drop_errors(log: &List<Event>) -> (result: List<Event>)
    ensures
        result == without_errors(*log),
    decreases log,
{
    match log {
        Nil => Nil,
        Cons(event, rest) => match &**event {
            Event::Error(_) => drop_errors(rest),
            Event::Borrow(_) => Cons(share(event), Rc::new(drop_errors(rest))),
        },
    }
}

/// A symbol that is minted is none of those that were minted before, as long as the numbers last.
pub proof fn minted_symbols_differ(checker: TypeChecker, earlier: u32)
    requires
        earlier < checker.next_symbol_id < u32::MAX,
    ensures
        checker.minted().1 != SymbolId::Local(LocalSymbolId(earlier)),
        checker.minted().0.minted().1 != checker.minted().1,
        checker.next_symbol_id < checker.minted().0.next_symbol_id,
{
}

proof fn later_errors_follow(log: List<Event>, later: List<TypeError>)
    ensures
        errors_of(log, later).seq() == errors_of(log, Nil).seq() + later.seq(),
    decreases log,
{
    match log {
        Nil => {
            assert(Seq::<TypeError>::empty() + later.seq() == later.seq());
        },
        Cons(_, _) => {
            match log.head() {
                Event::Error(error) => {
                    later_errors_follow(log.rest(), List::cons_of(error, later));
                    later_errors_follow(log.rest(), List::cons_of(error, Nil));
                    reveal_with_fuel(List::seq, 2);
                    assert(List::cons_of(error, later).seq() == seq![error] + later.seq());
                    assert(List::cons_of(error, Nil).seq() == seq![error]);
                    let before = errors_of(log.rest(), Nil).seq();
                    assert(before + (seq![error] + later.seq()) == (before + seq![error])
                        + later.seq());
                },
                Event::Borrow(_) => later_errors_follow(log.rest(), later),
            }
        },
    }
}

proof fn no_errors_are_left(log: List<Event>)
    ensures
        errors_of(without_errors(log), Nil) is Nil,
        !has_error(without_errors(log)),
    decreases log,
{
    match log {
        Nil => {},
        Cons(_, _) => no_errors_are_left(log.rest()),
    }
}

/// An error that is recorded comes out behind those before it, unless errors are suppressed. Errors
/// come out once.
pub proof fn errors_come_out_in_order(checker: TypeChecker, kind: TypeErrorKind)
    ensures
        !checker.diagnostics.suppress_errors ==> errors_of(
            checker.recorded(kind).diagnostics.log,
            Nil,
        ).seq() == errors_of(checker.diagnostics.log, Nil).seq().push(
            TypeError { kind, span: checker.diagnostics.current_span },
        ),
        checker.diagnostics.suppress_errors ==> checker.recorded(kind) == checker,
        errors_of(without_errors(checker.diagnostics.log), Nil) is Nil,
{
    let error = TypeError { kind, span: checker.diagnostics.current_span };
    later_errors_follow(checker.diagnostics.log, List::cons_of(error, Nil));
    no_errors_are_left(checker.diagnostics.log);
    reveal_with_fuel(List::seq, 2);
    assert(List::cons_of(error, Nil).seq() == seq![error]);
    assert(errors_of(checker.diagnostics.log, Nil).seq() + seq![error] == errors_of(
        checker.diagnostics.log,
        Nil,
    ).seq().push(error));
}

} // verus!
