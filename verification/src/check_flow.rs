//! Checking blocks, branches, loops and declarations.

use std::rc::Rc;

use vstd::prelude::*;

use crate::borrow::{BorrowOp, Place};
use crate::borrowck::{keys_of, resolving_keeps_rest};
use crate::errors::{Message, TypeErrorKind};
use crate::expressions::{or_void, type_or_void};
use crate::hir::{
    dup_type, ExprKind, HirExpr, HirFieldInit, HirMatchArm, HirStmt, HirType, ProvenanceAnnotation,
    SourceSpan, StmtKind, StrId, Word,
};
use crate::init_nodes::{complete, joined_states, same_states, states_agree, untouched};
use crate::initialization::{BindingMode, InitState};
use crate::list::{
    find, has_key, lookup, remove, removed, share, update, updated, with_member, Cons, List, Nil,
    Table,
};
use crate::liveness::stmts_mention;
use crate::move_state::{join_is_union, MoveState};
use crate::nullables::{non_null_fact, non_null_joined};
use crate::ref_provenance::provenance_of;
use crate::type_checker::{Backfills, Diagnostics, LoanTables, NonNullState, TypeChecker};
use crate::type_context::TypeContext;

verus! {

/// The locals that the statements of a block declare.
pub open spec fn let_names(stmts: List<HirStmt>) -> List<StrId>
    decreases stmts,
{
    match stmts {
        Nil => Nil,
        Cons(stmt, rest) => match stmt.kind {
            StmtKind::Let { name, .. } => List::cons_of(name, let_names(*rest)),
            _ => let_names(*rest),
        },
    }
}

/// The loans that none of these locals holds.
pub open spec fn owned_elsewhere(owners: Table<usize, StrId>, names: List<StrId>) -> Table<
    usize,
    StrId,
>
    decreases owners,
{
    match owners {
        Nil => Nil,
        Cons(entry, rest) => if names.has(entry.1) {
            owned_elsewhere(*rest, names)
        } else {
            Cons(entry, Rc::new(owned_elsewhere(*rest, names)))
        },
    }
}

fn keep_owned_elsewhere(owners: &Table<usize, StrId>, names: &List<StrId>) -> (result: Table<
    usize,
    StrId,
>)
    ensures
        result == owned_elsewhere(*owners, *names),
    decreases owners,
{
    match owners {
        Nil => Nil,
        Cons(entry, rest) => if names.contains(&entry.1) {
            keep_owned_elsewhere(rest, names)
        } else {
            Cons(share(entry), Rc::new(keep_owned_elsewhere(rest, names)))
        },
    }
}

/// What is known where two branches meet. A branch that does not come to an end has no say.
pub open spec fn non_null_behind(
    after_then: NonNullState,
    after_else: NonNullState,
    then_ty: HirType,
    else_ty: Option<HirType>,
) -> NonNullState {
    let then_ends = then_ty is Never;
    let else_ends = else_ty == Some(HirType::Never);
    if then_ends && !else_ends {
        after_else
    } else if else_ends && !then_ends {
        after_then
    } else {
        non_null_joined(after_then, after_else)
    }
}

impl TypeChecker {
    /// The checker with another scope.
    pub open spec fn with_context(self, context: TypeContext) -> TypeChecker {
        TypeChecker { context, ..self }
    }

    pub open spec fn suppressing(self, suppress_errors: bool) -> TypeChecker {
        TypeChecker { diagnostics: Diagnostics { suppress_errors, ..self.diagnostics }, ..self }
    }

    /// What a condition tells where it holds, or where it does not.
    #[verifier::opaque]
    pub open spec fn assumed(self, cond: HirExpr, holds: bool) -> TypeChecker {
        let (known, fact) = self.condition_fact(cond);
        let bounded = match fact {
            Some((left, right, equal)) => known.asked(
                if equal == holds {
                    BorrowOp::AssumeEqual(left, right)
                } else {
                    BorrowOp::AssumeNotEqual(left, right)
                },
            ),
            None => known,
        };
        let parted = match known.place_fact(cond) {
            Some((left, right, equal)) => if equal != holds {
                bounded.asked(BorrowOp::AssumePlacesDiffer(left, right))
            } else {
                bounded
            },
            None => bounded,
        };
        match non_null_fact(cond) {
            Some((root, path, where_true)) => if where_true == holds {
                parted.marked_non_null(root, path)
            } else {
                parted
            },
            None => parted,
        }
    }

    fn assume_if_condition(&mut self, cond: &HirExpr, holds: bool)
        ensures
            *final(self) == old(self).assumed(*cond, holds),
            final(self).settled_in_scope(*old(self)),
    {
        proof {
            reveal(TypeChecker::assumed);
        }
        let fact = self.condition_to_fact(cond);
        let non_null = self.condition_to_non_null_fact(cond);
        let place_fact = self.condition_to_place_fact(cond);
        match fact {
            Some((left, right, equal)) => {
                if equal == holds {
                    self.ask(BorrowOp::AssumeEqual(left, right));
                } else {
                    self.ask(BorrowOp::AssumeNotEqual(left, right));
                }
            },
            None => {},
        }
        match place_fact {
            Some((left, right, equal)) => {
                if equal != holds {
                    self.ask(BorrowOp::AssumePlacesDiffer(left, right));
                }
            },
            None => {},
        }
        match non_null {
            Some((root, path, where_true)) => {
                if where_true == holds {
                    self.mark_non_null(root, &path);
                }
            },
            None => {},
        }
    }

    pub fn assume_if_condition_is_true(&mut self, cond: &HirExpr)
        ensures
            *final(self) == old(self).assumed(*cond, true),
            final(self).settled_in_scope(*old(self)),
    {
        self.assume_if_condition(cond, true);
    }

    pub fn assume_if_condition_is_false(&mut self, cond: &HirExpr)
        ensures
            *final(self) == old(self).assumed(*cond, false),
            final(self).settled_in_scope(*old(self)),
    {
        self.assume_if_condition(cond, false);
    }

    /// The other branch starts with what was known before the first.
    pub fn restore_state_for_else_branch(
        &mut self,
        cond: &HirExpr,
        moves: MoveState,
        non_null: NonNullState,
    )
        ensures
            *final(self) == old(self).with_moves(moves).with_non_null(non_null).assumed(
                *cond,
                false,
            ),
            final(self).settled_in_scope(*old(self)),
    {
        self.flow.moves = moves;
        self.flow.non_null = non_null;
        self.assume_if_condition_is_false(cond);
    }

    /// What is known behind two branches, given what is known behind each. A branch that ends the
    /// function tells nothing.
    pub fn join_if_branch_states(
        &mut self,
        then_moves: &MoveState,
        else_moves: &MoveState,
        then_non_null: &NonNullState,
        else_non_null: &NonNullState,
        then_ty: &HirType,
        else_ty: &Option<HirType>,
    )
        ensures
            *final(self) == old(self).with_moves(then_moves.joined(*else_moves)).with_non_null(
                non_null_behind(*then_non_null, *else_non_null, *then_ty, *else_ty),
            ),
            final(self).settled_in_scope(*old(self)),
    {
        let then_ends = matches!(then_ty, HirType::Never);
        let else_ends = matches!(else_ty, Some(HirType::Never));
        self.flow.moves = MoveState::join(then_moves, else_moves);
        self.flow.non_null = if then_ends && !else_ends {
            else_non_null.dup()
        } else if else_ends && !then_ends {
            then_non_null.dup()
        } else {
            Self::join_non_null_states(then_non_null, else_non_null)
        };
    }

    /// Whether a local is used neither behind a statement nor by those that follow it.
    pub open spec fn is_dead(self, behind: Option<usize>, rest: List<HirStmt>, name: StrId) -> bool {
        match behind {
            Some(point) => !self.points.used_from(point, name),
            None => !stmts_mention(rest, name),
        }
    }

    /// The loans of these locals that are no longer needed.
    pub open spec fn dead_loans(
        self,
        owners: Table<usize, StrId>,
        names: List<StrId>,
        behind: Option<usize>,
        rest: List<HirStmt>,
    ) -> List<usize>
        decreases owners,
    {
        match owners {
            Nil => Nil,
            Cons(entry, more) => {
                let others = self.dead_loans(*more, names, behind, rest);
                if names.has(entry.1) && self.is_dead(behind, rest, entry.1) {
                    List::cons_of(entry.0, others)
                } else {
                    others
                }
            },
        }
    }

    fn find_dead_loans(
        &self,
        owners: &Table<usize, StrId>,
        names: &List<StrId>,
        behind: Option<usize>,
        rest: &List<HirStmt>,
    ) -> (loans: List<usize>)
        ensures
            loans == self.dead_loans(*owners, *names, behind, *rest),
        decreases owners,
    {
        match owners {
            Nil => Nil,
            Cons(entry, more) => {
                let others = self.find_dead_loans(more, names, behind, rest);
                let dead = if names.contains(&entry.1) {
                    match behind {
                        Some(point) => !self.local_used_after(point, entry.1),
                        None => !self.stmts_reference_local(rest, entry.1),
                    }
                } else {
                    false
                };
                if dead {
                    List::cons(entry.0, others)
                } else {
                    others
                }
            },
        }
    }

    /// The checker after loans are ended and given up.
    pub open spec fn loans_dropped(self, loans: List<usize>) -> TypeChecker
        decreases loans,
    {
        match loans {
            Nil => self,
            Cons(loan, rest) => {
                let ended = self.asked(BorrowOp::EndLoan(*loan));
                TypeChecker {
                    loans: LoanTables { owners: removed(ended.loans.owners, *loan), ..ended.loans },
                    ..ended
                }.loans_dropped(*rest)
            },
        }
    }

    fn drop_loans(&mut self, loans: &List<usize>)
        ensures
            *final(self) == old(self).loans_dropped(*loans),
            final(self).settled_in_scope(*old(self)),
        decreases loans,
    {
        match loans {
            Nil => {},
            Cons(loan, rest) => {
                self.ask(BorrowOp::EndLoan(**loan));
                self.loans.owners = remove(&self.loans.owners, loan);
                self.drop_loans(rest);
            },
        }
    }

    /// The checker behind a statement of a block, with the loans ended that nothing needs any more.
    #[verifier::opaque]
    pub open spec fn dead_ended(self, stmt: HirStmt, rest: List<HirStmt>, names: List<StrId>) -> TypeChecker {
        self.loans_dropped(
            self.dead_loans(
                self.loans.owners,
                names,
                lookup(self.points.stmt_after_points, stmt.key),
                rest,
            ),
        )
    }

    pub fn end_dead_block_loans(&mut self, stmt: &HirStmt, rest: &List<HirStmt>, names: &List<StrId>)
        ensures
            *final(self) == old(self).dead_ended(*stmt, *rest, *names),
            final(self).settled_in_scope(*old(self)),
    {
        proof {
            reveal(TypeChecker::dead_ended);
        }
        let behind: Option<usize> = match find(&self.points.stmt_after_points, &stmt.key) {
            Some(point) => Some(*point),
            None => None,
        };
        let loans = self.find_dead_loans(&self.loans.owners, names, behind, rest);
        self.drop_loans(&loans);
    }

    pub open spec fn names_forgotten(self, names: List<StrId>) -> TypeChecker
        decreases names,
    {
        match names {
            Nil => self,
            Cons(name, rest) => self.forgot(*name).names_forgotten(*rest),
        }
    }

    fn forget_names(&mut self, names: &List<StrId>)
        ensures
            *final(self) == old(self).names_forgotten(*names),
            final(self).settled_in_scope(*old(self)),
        decreases names,
    {
        match names {
            Nil => {},
            Cons(name, rest) => {
                self.forget_local(**name);
                self.forget_names(rest);
            },
        }
    }

    /// The checker behind a block that declared these locals.
    #[verifier::opaque]
    pub open spec fn locals_left(self, names: List<StrId>) -> TypeChecker {
        TypeChecker {
            loans: LoanTables {
                owners: owned_elsewhere(self.loans.owners, names),
                ..self.loans
            },
            ..self
        }.names_forgotten(names)
    }

    pub fn cleanup_block_locals(&mut self, names: &List<StrId>)
        ensures
            *final(self) == old(self).locals_left(*names),
            final(self).settled_in_scope(*old(self)),
    {
        proof {
            reveal(TypeChecker::locals_left);
        }
        self.loans.owners = keep_owned_elsewhere(&self.loans.owners, names);
        self.forget_names(names);
    }

    pub fn collect_block_local_names(stmts: &List<HirStmt>) -> (names: List<StrId>)
        ensures
            names == let_names(*stmts),
        decreases stmts,
    {
        match stmts {
            Nil => Nil,
            Cons(stmt, rest) => match &stmt.kind {
                StmtKind::Let { name, .. } => List::cons(
                    *name,
                    Self::collect_block_local_names(rest),
                ),
                _ => Self::collect_block_local_names(rest),
            },
        }
    }

    /// The checker after the fields of a new struct that are left uninitialized.
    pub open spec fn fields_left_uninit(self, name: StrId, inits: List<HirFieldInit>) -> TypeChecker
        decreases inits,
    {
        match inits {
            Nil => self,
            Cons(init, rest) => {
                let marked = if init.value.kind is Uninit {
                    self.field_unmarked(name, List::one_of(init.name))
                } else {
                    self
                };
                marked.fields_left_uninit(name, *rest)
            },
        }
    }

    fn leave_fields_uninit(&mut self, name: StrId, inits: &List<HirFieldInit>)
        ensures
            *final(self) == old(self).fields_left_uninit(name, *inits),
            final(self).settled_in_scope(*old(self)),
        decreases inits,
    {
        match inits {
            Nil => {},
            Cons(init, rest) => {
                if matches!(init.value.kind, ExprKind::Uninit { .. }) {
                    self.mark_field_uninit(name, &List::one(init.name));
                }
                self.leave_fields_uninit(name, rest);
            },
        }
    }

    /// What is known of how far a new local is initialized.
    pub open spec fn let_initialized(self, name: StrId, value: HirExpr) -> TypeChecker {
        match value.kind {
            ExprKind::Uninit { .. } => self.with_init_node(name, untouched()),
            ExprKind::StructInit { args, .. } => self.with_init_node(
                name,
                complete(),
            ).fields_left_uninit(name, args),
            _ => self.with_init_node(name, complete()),
        }
    }

    fn initialize_let(&mut self, name: StrId, value: &HirExpr)
        ensures
            *final(self) == old(self).let_initialized(name, *value),
            final(self).settled_in_scope(*old(self)),
    {
        match &value.kind {
            ExprKind::Uninit { .. } => self.mark_whole_uninit(name),
            ExprKind::StructInit { args, .. } => {
                self.mark_whole_init(name);
                self.leave_fields_uninit(name, args);
            },
            _ => self.mark_whole_init(name),
        }
    }

    /// What a new pointer points to is what the pointer it comes from points to.
    pub open spec fn pointee_recorded(self, name: StrId, ty: HirType, value: HirExpr) -> TypeChecker {
        if ty is SafePointer || ty is UnsafePointer {
            let (after, place) = self.resolved(value);
            match place {
                Some(source) => match lookup(after.loans.pointees, source) {
                    Some(pointee) => TypeChecker {
                        loans: LoanTables {
                            pointees: updated(after.loans.pointees, Place::Local(name), pointee),
                            ..after.loans
                        },
                        ..after
                    },
                    None => after,
                },
                None => after,
            }
        } else {
            self
        }
    }

    fn record_pointee(&mut self, name: StrId, ty: &HirType, value: &HirExpr)
        ensures
            *final(self) == old(self).pointee_recorded(name, *ty, *value),
            final(self).settled_in_scope(*old(self)),
    {
        if matches!(ty, HirType::SafePointer { .. } | HirType::UnsafePointer { .. }) {
            match self.resolve_place(value) {
                Some(source) => match self.find_pointee(&source) {
                    Some(pointee) => {
                        self.loans.pointees = update(
                            &self.loans.pointees,
                            Place::Local(name),
                            pointee,
                        );
                    },
                    None => {},
                },
                None => {},
            }
        }
    }

    /// The loans that a new local takes over from the value that it is given.
    pub open spec fn let_loans(self, name: StrId, value: HirExpr) -> TypeChecker {
        let captured = match lookup(self.loans.closures, value.key) {
            Some(loans) => TypeChecker {
                loans: LoanTables {
                    closures: removed(self.loans.closures, value.key),
                    ..self.loans
                },
                ..self
            }.all_owned(loans, name),
            None => self,
        };
        match lookup(captured.loans.calls, value.key) {
            Some(loan) => TypeChecker {
                loans: LoanTables {
                    calls: removed(captured.loans.calls, value.key),
                    ..captured.loans
                },
                ..captured
            }.owned(loan, name).remembered(name, Place::OfLoan(loan)),
            None => match value.kind {
                ExprKind::Ref { expr: target, .. } => {
                    let (after, place) = captured.resolved(*target);
                    match place {
                        Some(source) => {
                            let (named, loan) = after.remembered(name, source).loan_found(source);
                            named.owned(loan, name)
                        },
                        None => after,
                    }
                },
                _ => captured,
            },
        }
    }

    fn take_over_loans(&mut self, name: StrId, value: &HirExpr)
        ensures
            *final(self) == old(self).let_loans(name, *value),
            final(self).settled_in_scope(*old(self)),
    {
        let captured: Option<List<usize>> = match find(&self.loans.closures, &value.key) {
            Some(loans) => Some(loans.dup()),
            None => None,
        };
        match captured {
            Some(loans) => {
                self.loans.closures = remove(&self.loans.closures, &value.key);
                self.give_loans(&loans, name);
            },
            None => {},
        }
        let called: Option<usize> = match find(&self.loans.calls, &value.key) {
            Some(loan) => Some(*loan),
            None => None,
        };
        match called {
            Some(loan) => {
                self.loans.calls = remove(&self.loans.calls, &value.key);
                self.give_loan(loan, name);
                self.remember_place(name, Place::OfLoan(loan));
            },
            None => match &value.kind {
                ExprKind::Ref { expr: target, .. } => match self.resolve_place(target) {
                    Some(source) => {
                        self.remember_place(name, source.dup());
                        let loan: usize = self.find_loan(source);
                        self.give_loan(loan, name);
                    },
                    None => {},
                },
                _ => {},
            },
        }
    }

    /// The checker after a local is declared with its value.
    #[verifier::opaque]
    pub open spec fn let_bound(
        self,
        name: StrId,
        ty: HirType,
        value: HirExpr,
        mutable: bool,
        span: SourceSpan,
    ) -> TypeChecker {
        let marked = if self.dangles(value) {
            self.with_context(
                TypeContext {
                    dangling_locals: with_member(self.context.dangling_locals, name),
                    ..self.context
                },
            )
        } else {
            self
        };
        let (minted, symbol) = marked.minted();
        minted.with_context(
            minted.context.with_let_variable(name, ty, mutable, symbol),
        ).declared_local(name).occurred(span, name, ty, symbol, true).let_initialized(
            name,
            value,
        ).pointee_recorded(name, ty, value).let_loans(name, value)
    }

    fn bind_let(&mut self, name: StrId, ty: &HirType, value: &HirExpr, mutable: bool, span: SourceSpan)
        ensures
            *final(self) == old(self).let_bound(name, *ty, *value, mutable, span),
            final(self).settled(*old(self)),
    {
        proof {
            reveal(TypeChecker::let_bound);
        }
        if self.expr_is_dangling(value) {
            self.context.mark_dangling(name);
        }
        let symbol = self.mint_symbol_id();
        self.context.add_variable_with_mutability(name, ty.dup(), mutable, symbol);
        self.declare_local(name);
        self.note_occurrence(span, name, ty.dup(), symbol, true);
        self.initialize_let(name, value);
        self.record_pointee(name, ty, value);
        self.take_over_loans(name, value);
    }

    /// The checker after a constant is declared.
    #[verifier::opaque]
    pub open spec fn const_bound(self, name: StrId, ty: HirType) -> TypeChecker {
        let told = if has_key(self.context.variables, name) {
            self.recorded(TypeErrorKind::VariableAlreadyExists { var_name: name })
        } else {
            self
        };
        let (minted, symbol) = told.minted();
        minted.with_context(minted.context.with_variable(name, ty, symbol))
    }

    pub fn bind_const(&mut self, name: StrId, ty: &HirType)
        ensures
            *final(self) == old(self).const_bound(name, *ty),
            final(self).settled(*old(self)),
    {
        proof {
            reveal(TypeChecker::const_bound);
        }
        if self.context.is_local_binding(name) {
            self.record(TypeErrorKind::VariableAlreadyExists { var_name: name });
        }
        let symbol = self.mint_symbol_id();
        self.context.add_variable(name, ty.dup(), symbol);
    }

    /// The checker after a path that must name a module.
    pub open spec fn path_resolved(self, path: List<StrId>, message: Message) -> TypeChecker {
        if self.program.graph.module_at(path) is None {
            self.said(message)
        } else {
            self
        }
    }

    pub fn check_import_stmt(&mut self, path: &List<StrId>)
        ensures
            *final(self) == old(self).path_resolved(
                *path,
                Message::UnresolvedImport { path: *path },
            ),
            final(self).settled_in_scope(*old(self)),
    {
        if self.program.graph.resolve_module_path(path).is_none() {
            self.say(Message::UnresolvedImport { path: path.dup() });
        }
    }

    pub fn check_package_stmt(&mut self, path: &List<StrId>)
        ensures
            *final(self) == old(self).path_resolved(
                *path,
                Message::UnresolvedPackage { path: *path },
            ),
            final(self).settled_in_scope(*old(self)),
    {
        if self.program.graph.resolve_module_path(path).is_none() {
            self.say(Message::UnresolvedPackage { path: path.dup() });
        }
    }

    pub open spec fn binding_mode_noted(self, key: usize, mode: BindingMode) -> TypeChecker {
        TypeChecker {
            backfills: Backfills {
                binding_modes: updated(self.backfills.binding_modes, key, mode),
                ..self.backfills
            },
            ..self
        }
    }

    /// The checker after the arms of a match on a scrutinee of a type, and the type of the value.
    /// The statements of an arm have no scope of their own unless the arm is `plain`.
    #[verifier::opaque]
    pub open spec fn arms_joined(
        self,
        scrutinee: HirExpr,
        ty: HirType,
        arms: List<HirMatchArm>,
        expected: Option<HirType>,
        plain: bool,
    ) -> (TypeChecker, HirType)
        decreases arms, 1int, 0int,
    {
        let counted = self.exhausted(ty, arms);
        let before = counted.flow.moves;
        let (after, types, moves) = counted.arms_checked(
            scrutinee,
            ty,
            arms,
            expected,
            plain,
            before,
            before,
        );
        after.with_moves(moves).values_joined(None, types)
    }

    /// The checker after these arms, the types of their values, and what has been moved behind one
    /// of them or of those whose moves are given.
    #[verifier::opaque]
    pub open spec fn arms_checked(
        self,
        scrutinee: HirExpr,
        ty: HirType,
        arms: List<HirMatchArm>,
        expected: Option<HirType>,
        plain: bool,
        before: MoveState,
        joined: MoveState,
    ) -> (TypeChecker, List<HirType>, MoveState)
        decreases arms, 0int, 0int,
    {
        match arms {
            Nil => (self, Nil, joined),
            Cons(arm, rest) => {
                let (after, arm_ty) = self.arm_checked(
                    scrutinee,
                    ty,
                    *arm,
                    expected,
                    plain,
                    before,
                );
                let (last, types, moves) = after.arms_checked(
                    scrutinee,
                    ty,
                    *rest,
                    expected,
                    plain,
                    before,
                    joined.joined(after.flow.moves),
                );
                (last, List::cons_of(arm_ty, types), moves)
            },
        }
    }

    #[verifier::opaque]
    pub open spec fn arm_checked(
        self,
        scrutinee: HirExpr,
        ty: HirType,
        arm: HirMatchArm,
        expected: Option<HirType>,
        plain: bool,
        before: MoveState,
    ) -> (TypeChecker, HirType)
        decreases arm, 0int, 0int,
    {
        let mode = self.binding_mode(scrutinee);
        let (resolved, place) = self.resolved(scrutinee);
        let bound = resolved.binding_mode_noted(scrutinee.key, mode).with_moves(before).asked(
            BorrowOp::BeginScope,
        ).pattern_checked(arm.pattern, ty).pattern_bound(
            arm.pattern,
            ty,
            mode,
            provenance_of(self.program.graph, scrutinee),
            place,
        );
        let guarded = match arm.guard {
            Some(guard) => {
                let (seen, guard_ty) = bound.checked(*guard);
                seen.boolean_checked(guard_ty)
            },
            None => bound,
        };
        let (done, arm_ty) = if plain {
            let (after, value) = guarded.stmt_checked(*arm.body);
            (after, or_void(value))
        } else {
            guarded.block_tail_checked(*arm.body, expected)
        };
        (
            done.with_context(self.context).asked(BorrowOp::EndScope).arm_left(arm.pattern, ty),
            arm_ty,
        )
    }

    /// The checker after a block that stands where a value of no particular type does.
    #[verifier::opaque]
    pub open spec fn block_expr_checked(self, body: List<HirStmt>, is_unsafe: bool) -> (
        TypeChecker,
        HirType,
    )
        decreases body, 1int, 0int,
    {
        let inside = if is_unsafe {
            self.deeper()
        } else {
            self
        };
        let (after, ty) = inside.asked(BorrowOp::BeginScope).stmts_checked(body, HirType::Void);
        let left = after.with_context(self.context).asked(BorrowOp::EndScope);
        (
            if is_unsafe {
                left.shallower()
            } else {
                left
            },
            ty,
        )
    }

    #[verifier::opaque]
    pub open spec fn stmts_checked(self, stmts: List<HirStmt>, ty: HirType) -> (
        TypeChecker,
        HirType,
    )
        decreases stmts, 0int, 0int,
    {
        match stmts {
            Nil => (self, ty),
            Cons(stmt, rest) => {
                let (after, value) = self.stmt_checked(*stmt);
                after.stmts_checked(*rest, or_void(value))
            },
        }
    }

    /// The checker after a block, whose last statement gives the value where a tail is wanted.
    #[verifier::opaque]
    pub open spec fn block_checked(
        self,
        body: List<HirStmt>,
        tail: bool,
        expected: Option<HirType>,
    ) -> (TypeChecker, Option<HirType>)
        decreases body, 1int, 0int,
    {
        let names = let_names(body);
        let (after, value) = self.asked(BorrowOp::BeginScope).block_rest(
            body,
            tail,
            expected,
            names,
            None,
        );
        (
            after.with_context(self.context).asked(BorrowOp::EndScope).locals_left(names),
            value,
        )
    }

    #[verifier::opaque]
    pub open spec fn block_rest(
        self,
        stmts: List<HirStmt>,
        tail: bool,
        expected: Option<HirType>,
        names: List<StrId>,
        value: Option<HirType>,
    ) -> (TypeChecker, Option<HirType>)
        decreases stmts, 0int, 0int,
    {
        match stmts {
            Nil => (self, value),
            Cons(stmt, rest) => {
                let (after, found) = if tail && *rest is Nil {
                    let (done, ty) = self.tail_checked(*stmt, expected);
                    (done, Some(ty))
                } else {
                    self.stmt_checked(*stmt)
                };
                after.dead_ended(*stmt, *rest, names).block_rest(
                    *rest,
                    tail,
                    expected,
                    names,
                    found,
                )
            },
        }
    }

    /// The checker after a statement whose value is used.
    #[verifier::opaque]
    pub open spec fn tail_checked(self, stmt: HirStmt, expected: Option<HirType>) -> (
        TypeChecker,
        HirType,
    )
        decreases stmt, 3int, 0int,
    {
        match stmt.kind {
            StmtKind::Expr(expr) => match expected {
                Some(ty) => self.expected(*expr, ty),
                None => self.checked(*expr),
            },
            StmtKind::Match { expr: scrutinee, arms, span } => {
                let (after, ty) = self.at_span(span).checked(*scrutinee);
                after.arms_joined(*scrutinee, ty, arms, expected, false)
            },
            StmtKind::If { span, .. } => {
                let (after, value) = self.at_span(span).if_checked(stmt, expected);
                (after, or_void(value))
            },
            StmtKind::Block { body, span } => {
                let (after, value) = self.at_span(span).block_checked(body, true, expected);
                (after, or_void(value))
            },
            _ => {
                let (after, value) = self.stmt_checked(stmt);
                (after, or_void(value))
            },
        }
    }

    /// The checker after the statements of an arm. An arm that is no block is a block of itself.
    #[verifier::opaque]
    pub open spec fn block_tail_checked(self, body: HirStmt, expected: Option<HirType>) -> (
        TypeChecker,
        HirType,
    )
        decreases body, 4int, 0int,
    {
        match body.kind {
            StmtKind::Block { body: stmts, .. } => self.stmts_then_tail(stmts, expected),
            _ => self.tail_checked(body, expected),
        }
    }

    #[verifier::opaque]
    pub open spec fn stmts_then_tail(self, stmts: List<HirStmt>, expected: Option<HirType>) -> (
        TypeChecker,
        HirType,
    )
        decreases stmts, 0int, 0int,
    {
        match stmts {
            Nil => (self, HirType::Void),
            Cons(stmt, rest) => if *rest is Nil {
                self.tail_checked(*stmt, expected)
            } else {
                self.stmt_checked(*stmt).0.stmts_then_tail(*rest, expected)
            },
        }
    }

    /// The checker after a conditional, and its value where it has both branches.
    #[verifier::opaque]
    pub open spec fn if_checked(self, stmt: HirStmt, expected: Option<HirType>) -> (
        TypeChecker,
        Option<HirType>,
    )
        decreases stmt, 1int, 0int,
    {
        match stmt.kind {
            StmtKind::If { cond, then_block, else_block, .. } => {
                let (seen, cond_ty) = self.checked(cond);
                let tested = seen.temp_loans_ended(keys_of(self.loans.calls)).boolean_checked(
                    cond_ty,
                );
                let (taken, then_ty) = tested.asked(BorrowOp::BeginScope).assumed(
                    cond,
                    true,
                ).stmts_then_tail(then_block, expected);
                let after_then = taken.with_context(tested.context).asked(BorrowOp::EndScope);
                let restored = after_then.with_moves(tested.flow.moves).with_non_null(
                    tested.flow.non_null,
                ).assumed(cond, false);
                let (after_else, else_ty) = match else_block {
                    Some(block) => {
                        let (done, ty) = restored.asked(BorrowOp::BeginScope).assumed(
                            cond,
                            false,
                        ).tail_checked(*block, expected);
                        (
                            done.with_context(restored.context).asked(BorrowOp::EndScope),
                            Some(ty),
                        )
                    },
                    None => (restored, None),
                };
                let met = after_else.with_moves(
                    after_then.flow.moves.joined(after_else.flow.moves),
                ).with_non_null(
                    non_null_behind(
                        after_then.flow.non_null,
                        after_else.flow.non_null,
                        then_ty,
                        else_ty,
                    ),
                );
                match else_ty {
                    Some(ty) => {
                        let (last, value) = met.values_joined(
                            None,
                            List::cons_of(then_ty, List::one_of(ty)),
                        );
                        (last, Some(value))
                    },
                    None => (met, None),
                }
            },
            _ => (self, None),
        }
    }

    /// What is moved and initialized at the start of a loop's body, however often it has run: the
    /// states that one more run adds nothing to.
    #[verifier::opaque]
    pub open spec fn loop_converged(
        self,
        body: HirStmt,
        moves: MoveState,
        inits: InitState,
        fuel: usize,
    ) -> (TypeChecker, MoveState, InitState)
        decreases body, 3int, fuel as int,
    {
        if fuel == 0 {
            (self, moves, inits)
        } else {
            let (after, _) = self.with_moves(moves).with_inits(inits).stmt_checked(body);
            let next_moves = moves.joined(after.flow.moves);
            let next_inits = joined_states(inits, after.flow.inits);
            if moves.includes(next_moves) && states_agree(inits, next_inits) {
                (after, next_moves, next_inits)
            } else {
                after.loop_converged(body, next_moves, next_inits, (fuel - 1) as usize)
            }
        }
    }

    /// The checker after the body of a loop.
    #[verifier::opaque]
    pub open spec fn loop_checked(self, body: HirStmt) -> TypeChecker
        decreases body, 4int, 0int,
    {
        let inside = TypeContext { in_loop: true, ..self.context };
        let (after, moves, inits) = self.with_context(inside).suppressing(true).loop_converged(
            body,
            self.flow.moves,
            self.flow.inits,
            usize::MAX,
        );
        let (last, _) = after.with_context(inside).suppressing(
            self.diagnostics.suppress_errors,
        ).with_moves(moves).with_inits(inits).stmt_checked(body);
        last.with_context(TypeContext { in_loop: false, ..last.context })
    }

    /// The checker after a condition of a loop.
    #[verifier::opaque]
    pub open spec fn condition_checked(self, cond: HirExpr) -> TypeChecker
        decreases cond, 3int, 0int,
    {
        let (after, ty) = self.checked(cond);
        after.boolean_checked(ty)
    }

    /// The checker after a loop with a header.
    #[verifier::opaque]
    pub open spec fn for_checked(self, stmt: HirStmt) -> TypeChecker
        decreases stmt, 1int, 0int,
    {
        match stmt.kind {
            StmtKind::For { init, condition, increment, body } => {
                let started = match init {
                    Some(first) => self.stmt_checked(*first).0,
                    None => self,
                };
                let tested = match condition {
                    Some(cond) => started.condition_checked(*cond),
                    None => started,
                };
                let repeated = tested.loop_checked(*body);
                match increment {
                    Some(step) => repeated.checked(*step).0,
                    None => repeated,
                }
            },
            _ => self,
        }
    }

    /// The checker after a `return`.
    #[verifier::opaque]
    pub open spec fn return_checked(self, stmt: HirStmt) -> TypeChecker
        decreases stmt, 1int, 0int,
    {
        let expected = self.context.current_return_type;
        match stmt.kind {
            StmtKind::Return(Some(value), _) => {
                let (after, ty) = match expected {
                    Some(ret) => self.expected(*value, ret),
                    None => self.checked(*value),
                };
                let used = after.value_used(*value, ty);
                used.recovered(used.dangling_result(*value)).fitted(expected, ty)
            },
            StmtKind::Return(None, _) => match expected {
                Some(ret) => if ret is Void {
                    self
                } else {
                    self.recorded(TypeErrorKind::InvalidReturnType { expected: ret })
                },
                None => self,
            },
            _ => self,
        }
    }

    /// The checker after a `break`.
    #[verifier::opaque]
    pub open spec fn break_checked(self, stmt: HirStmt) -> TypeChecker
        decreases stmt, 1int, 0int,
    {
        let told = if self.context.in_loop {
            self
        } else {
            self.recorded(TypeErrorKind::BreakOutsideLoop)
        };
        match stmt.kind {
            StmtKind::Break(Some(value), _) => {
                let (after, ty) = told.checked(*value);
                let used = after.value_used(*value, ty);
                used.fitted(used.context.current_return_type, ty)
            },
            _ => told,
        }
    }

    /// The checker after a local is declared. The block behind `? else` runs where the value is
    /// null.
    #[verifier::opaque]
    pub open spec fn let_checked(self, stmt: HirStmt) -> TypeChecker
        decreases stmt, 1int, 0int,
    {
        match stmt.kind {
            StmtKind::Let { name, ty, value, mutable, else_block, span, .. } => {
                let told = if name != StrId::Known(Word::Underscore) && has_key(
                    self.context.variables,
                    name,
                ) {
                    self.recorded(TypeErrorKind::VariableAlreadyExists { var_name: name })
                } else {
                    self
                };
                let (after, value_ty) = told.expected(value, ty);
                let used = if value.kind is Uninit {
                    after
                } else {
                    after.value_used(value, value_ty)
                };
                let given = match else_block {
                    Some(block) => match value_ty {
                        HirType::Nullable(inner) => {
                            let fitting = used.fitted(Some(ty), *inner);
                            fitting.stmt_checked(*block).0.with_context(fitting.context)
                        },
                        _ => used.said(Message::ElseOnNonNullable { ty: value_ty }),
                    },
                    None => used.fitted(Some(ty), value_ty),
                };
                given.let_bound(name, ty, value, mutable, span)
            },
            _ => self,
        }
    }

    pub fn check_match_arms(
        &mut self,
        scrutinee: &HirExpr,
        ty: &HirType,
        arms: &List<HirMatchArm>,
        expected: &Option<HirType>,
        plain: bool,
    ) -> (value: HirType)
        ensures
            (*final(self), value) == old(self).arms_joined(
                *scrutinee,
                *ty,
                *arms,
                *expected,
                plain,
            ),
            final(self).settled_in_scope(*old(self)),
        decreases arms, 1int, 0int,
    {
        proof {
            reveal(TypeChecker::arms_joined);
            reveal(TypeChecker::arms_checked);
        }
        self.check_match_exhaustiveness(ty, arms);
        let before = self.flow.moves.dup();
        let (types, moves) = self.check_arms(
            scrutinee,
            ty,
            arms,
            expected,
            plain,
            &before,
            before.dup(),
        );
        self.flow.moves = moves;
        self.join_value_types(&types)
    }

    fn check_arms(
        &mut self,
        scrutinee: &HirExpr,
        ty: &HirType,
        arms: &List<HirMatchArm>,
        expected: &Option<HirType>,
        plain: bool,
        before: &MoveState,
        joined: MoveState,
    ) -> (result: (List<HirType>, MoveState))
        ensures
            (*final(self), result.0, result.1) == old(self).arms_checked(
                *scrutinee,
                *ty,
                *arms,
                *expected,
                plain,
                *before,
                joined,
            ),
            final(self).settled_in_scope(*old(self)),
        decreases arms, 0int, 0int,
    {
        proof {
            reveal(TypeChecker::arms_checked);
            reveal(TypeChecker::arm_checked);
        }
        match arms {
            Nil => (Nil, joined),
            Cons(arm, rest) => {
                let arm_ty = self.check_match_arm(scrutinee, ty, arm, expected, plain, before);
                let so_far = MoveState::join(&joined, &self.flow.moves);
                let (types, moves) = self.check_arms(
                    scrutinee,
                    ty,
                    rest,
                    expected,
                    plain,
                    before,
                    so_far,
                );
                (List::cons(arm_ty, types), moves)
            },
        }
    }

    pub fn check_match_arm_pattern(
        &mut self,
        arm: &HirMatchArm,
        ty: &HirType,
        mode: BindingMode,
        provenance: &Option<ProvenanceAnnotation>,
        place: &Option<Place>,
    )
        ensures
            *final(self) == old(self).pattern_checked(arm.pattern, *ty).pattern_bound(
                arm.pattern,
                *ty,
                mode,
                *provenance,
                *place,
            ),
            final(self).settled(*old(self)),
    {
        self.check_pattern_against_type(&arm.pattern, ty);
        self.register_pattern_bindings(&arm.pattern, ty, mode, provenance, place);
    }

    pub fn check_match_arm_guard(&mut self, guard: &Option<Rc<HirExpr>>)
        ensures
            *final(self) == match *guard {
                Some(condition) => {
                    let (seen, ty) = old(self).checked(*condition);
                    seen.boolean_checked(ty)
                },
                None => *old(self),
            },
            final(self).settled(*old(self)),
        decreases guard, 3int, 0int,
    {
        match guard {
            Some(condition) => {
                let ty = self.check_expr(condition);
                self.check_boolean(&ty);
            },
            None => {},
        }
    }

    pub fn check_match_arm(
        &mut self,
        scrutinee: &HirExpr,
        ty: &HirType,
        arm: &HirMatchArm,
        expected: &Option<HirType>,
        plain: bool,
        before: &MoveState,
    ) -> (arm_ty: HirType)
        ensures
            (*final(self), arm_ty) == old(self).arm_checked(
                *scrutinee,
                *ty,
                *arm,
                *expected,
                plain,
                *before,
            ),
            final(self).settled_in_scope(*old(self)),
        decreases arm, 0int, 0int,
    {
        proof {
            resolving_keeps_rest(*old(self), *scrutinee);
            reveal(TypeChecker::arm_checked);
            reveal(TypeChecker::block_tail_checked);
        }
        let mode = self.scrutinee_binding_mode(scrutinee);
        let place = self.resolve_place(scrutinee);
        let provenance = self.infer_provenance(scrutinee);
        self.backfills.binding_modes = update(
            &self.backfills.binding_modes,
            scrutinee.key,
            mode,
        );
        self.flow.moves = before.dup();
        self.ask(BorrowOp::BeginScope);
        let outside = self.context.create_child_scope();
        self.check_match_arm_pattern(arm, ty, mode, &provenance, &place);
        self.check_match_arm_guard(&arm.guard);
        let arm_ty = if plain {
            type_or_void(self.check_stmt(&arm.body))
        } else {
            self.check_block_tail_expected(&arm.body, expected)
        };
        self.context = outside;
        self.ask(BorrowOp::EndScope);
        self.cleanup_match_arm_bindings(&arm.pattern, ty);
        arm_ty
    }

    pub fn check_block_expr(&mut self, body: &List<HirStmt>, is_unsafe: bool) -> (ty: HirType)
        ensures
            (*final(self), ty) == old(self).block_expr_checked(*body, is_unsafe),
            final(self).settled_in_scope(*old(self)),
        decreases body, 1int, 0int,
    {
        proof {
            reveal(TypeChecker::block_expr_checked);
            reveal(TypeChecker::stmts_checked);
        }
        if is_unsafe {
            self.enter_unsafe();
        }
        let outside = self.context.create_child_scope();
        self.ask(BorrowOp::BeginScope);
        let ty = self.check_stmts(body, HirType::Void);
        self.context = outside;
        self.ask(BorrowOp::EndScope);
        if is_unsafe {
            self.leave_unsafe();
        }
        ty
    }

    fn check_stmts(&mut self, stmts: &List<HirStmt>, ty: HirType) -> (last: HirType)
        ensures
            (*final(self), last) == old(self).stmts_checked(*stmts, ty),
            final(self).settled(*old(self)),
        decreases stmts, 0int, 0int,
    {
        proof {
            reveal(TypeChecker::stmts_checked);
        }
        match stmts {
            Nil => ty,
            Cons(stmt, rest) => {
                let value = self.check_stmt(stmt);
                self.check_stmts(rest, type_or_void(value))
            },
        }
    }

    pub fn check_block_body(
        &mut self,
        body: &List<HirStmt>,
        tail: bool,
        expected: &Option<HirType>,
    ) -> (value: Option<HirType>)
        ensures
            (*final(self), value) == old(self).block_checked(*body, tail, *expected),
            final(self).settled_in_scope(*old(self)),
        decreases body, 1int, 0int,
    {
        proof {
            reveal(TypeChecker::block_checked);
            reveal(TypeChecker::block_rest);
        }
        let outside = self.context.create_child_scope();
        self.ask(BorrowOp::BeginScope);
        let names = Self::collect_block_local_names(body);
        let value = self.check_block_rest(body, tail, expected, &names, None);
        self.context = outside;
        self.ask(BorrowOp::EndScope);
        self.cleanup_block_locals(&names);
        value
    }

    fn check_block_rest(
        &mut self,
        stmts: &List<HirStmt>,
        tail: bool,
        expected: &Option<HirType>,
        names: &List<StrId>,
        value: Option<HirType>,
    ) -> (last: Option<HirType>)
        ensures
            (*final(self), last) == old(self).block_rest(*stmts, tail, *expected, *names, value),
            final(self).settled(*old(self)),
        decreases stmts, 0int, 0int,
    {
        proof {
            reveal(TypeChecker::block_rest);
            reveal(TypeChecker::tail_checked);
        }
        match stmts {
            Nil => value,
            Cons(stmt, rest) => {
                let found = if tail && rest.is_empty() {
                    Some(self.check_tail_expected(stmt, expected))
                } else {
                    self.check_stmt(stmt)
                };
                self.end_dead_block_loans(stmt, rest, names);
                self.check_block_rest(rest, tail, expected, names, found)
            },
        }
    }

    pub fn check_tail_expected(&mut self, stmt: &HirStmt, expected: &Option<HirType>) -> (ty: HirType)
        ensures
            (*final(self), ty) == old(self).tail_checked(*stmt, *expected),
            final(self).settled(*old(self)),
        decreases stmt, 3int, 0int,
    {
        proof {
            reveal(TypeChecker::tail_checked);
            reveal(TypeChecker::arms_joined);
            reveal(TypeChecker::block_checked);
            reveal(TypeChecker::if_checked);
        }
        match &stmt.kind {
            StmtKind::Expr(expr) => match expected {
                Some(ty) => self.check_expr_expected(expr, ty),
                None => self.check_expr(expr),
            },
            StmtKind::Match { expr: scrutinee, arms, span } => {
                self.set_span(*span);
                let ty = self.check_expr(scrutinee);
                self.check_match_arms(scrutinee, &ty, arms, expected, false)
            },
            StmtKind::If { span, .. } => {
                self.set_span(*span);
                type_or_void(self.check_if_branches(stmt, expected))
            },
            StmtKind::Block { body, span } => {
                self.set_span(*span);
                type_or_void(self.check_block_body(body, true, expected))
            },
            _ => type_or_void(self.check_stmt(stmt)),
        }
    }

    pub fn check_block_tail_expected(&mut self, body: &HirStmt, expected: &Option<HirType>) -> (ty:
        HirType)
        ensures
            (*final(self), ty) == old(self).block_tail_checked(*body, *expected),
            final(self).settled(*old(self)),
        decreases body, 4int, 0int,
    {
        proof {
            reveal(TypeChecker::block_tail_checked);
            reveal(TypeChecker::stmts_then_tail);
            reveal(TypeChecker::tail_checked);
        }
        match &body.kind {
            StmtKind::Block { body: stmts, .. } => self.check_stmts_then_tail(stmts, expected),
            _ => self.check_tail_expected(body, expected),
        }
    }

    fn check_stmts_then_tail(&mut self, stmts: &List<HirStmt>, expected: &Option<HirType>) -> (ty:
        HirType)
        ensures
            (*final(self), ty) == old(self).stmts_then_tail(*stmts, *expected),
            final(self).settled(*old(self)),
        decreases stmts, 0int, 0int,
    {
        proof {
            reveal(TypeChecker::stmts_then_tail);
            reveal(TypeChecker::tail_checked);
        }
        match stmts {
            Nil => HirType::Void,
            Cons(stmt, rest) => if rest.is_empty() {
                self.check_tail_expected(stmt, expected)
            } else {
                self.check_stmt(stmt);
                self.check_stmts_then_tail(rest, expected)
            },
        }
    }

    pub fn check_if_condition(&mut self, cond: &HirExpr)
        ensures
            ({
                let (seen, ty) = old(self).checked(*cond);
                *final(self) == seen.temp_loans_ended(
                    keys_of(old(self).loans.calls),
                ).boolean_checked(ty)
            }),
            final(self).settled(*old(self)),
        decreases cond, 3int, 0int,
    {
        let keys = self.snapshot_call_loan_keys();
        let cond_ty = self.check_expr(cond);
        self.end_temp_call_loans(&keys);
        self.check_boolean(&cond_ty);
    }

    pub fn check_if_then_branch(
        &mut self,
        cond: &HirExpr,
        then_block: &List<HirStmt>,
        expected: &Option<HirType>,
    ) -> (ty: HirType)
        ensures
            ({
                let (taken, value) = old(self).asked(BorrowOp::BeginScope).assumed(
                    *cond,
                    true,
                ).stmts_then_tail(*then_block, *expected);
                &&& *final(self) == taken.with_context(old(self).context).asked(BorrowOp::EndScope)
                &&& ty == value
            }),
            final(self).settled_in_scope(*old(self)),
        decreases then_block, 1int, 0int,
    {
        let outside = self.context.create_child_scope();
        self.ask(BorrowOp::BeginScope);
        self.assume_if_condition_is_true(cond);
        let ty = self.check_stmts_then_tail(then_block, expected);
        self.context = outside;
        self.ask(BorrowOp::EndScope);
        ty
    }

    pub fn check_if_else_branch(
        &mut self,
        cond: &HirExpr,
        else_block: &HirStmt,
        expected: &Option<HirType>,
    ) -> (ty: HirType)
        ensures
            ({
                let (done, value) = old(self).asked(BorrowOp::BeginScope).assumed(
                    *cond,
                    false,
                ).tail_checked(*else_block, *expected);
                &&& *final(self) == done.with_context(old(self).context).asked(BorrowOp::EndScope)
                &&& ty == value
            }),
            final(self).settled_in_scope(*old(self)),
        decreases else_block, 5int, 0int,
    {
        let outside = self.context.create_child_scope();
        self.ask(BorrowOp::BeginScope);
        self.assume_if_condition_is_false(cond);
        let ty = self.check_tail_expected(else_block, expected);
        self.context = outside;
        self.ask(BorrowOp::EndScope);
        ty
    }

    pub fn check_if_branches(&mut self, stmt: &HirStmt, expected: &Option<HirType>) -> (value: Option<
        HirType,
    >)
        ensures
            (*final(self), value) == old(self).if_checked(*stmt, *expected),
            final(self).settled(*old(self)),
        decreases stmt, 1int, 0int,
    {
        proof {
            reveal(TypeChecker::if_checked);
            reveal(TypeChecker::stmts_then_tail);
            reveal(TypeChecker::tail_checked);
        }
        match &stmt.kind {
            StmtKind::If { cond, then_block, else_block, .. } => {
                self.check_if_condition(cond);
                let moves = self.flow.moves.dup();
                let non_null = self.flow.non_null.dup();
                let then_ty = self.check_if_then_branch(cond, then_block, expected);
                let then_moves = self.flow.moves.dup();
                let then_non_null = self.flow.non_null.dup();
                self.restore_state_for_else_branch(cond, moves, non_null);
                let else_ty = match else_block {
                    Some(block) => Some(self.check_if_else_branch(cond, block, expected)),
                    None => None,
                };
                let else_moves = self.flow.moves.dup();
                let else_non_null = self.flow.non_null.dup();
                self.join_if_branch_states(
                    &then_moves,
                    &else_moves,
                    &then_non_null,
                    &else_non_null,
                    &then_ty,
                    &else_ty,
                );
                match else_ty {
                    Some(ty) => {
                        let branches = List::cons(then_ty, List::one(ty));
                        Some(self.join_value_types(&branches))
                    },
                    None => None,
                }
            },
            _ => None,
        }
    }

    fn converge_loop_states(&mut self, body: &HirStmt, moves: MoveState, inits: InitState, fuel: usize) -> (
        result: (MoveState, InitState))
        ensures
            (*final(self), result.0, result.1) == old(self).loop_converged(
                *body,
                moves,
                inits,
                fuel,
            ),
            final(self).settled(*old(self)),
        decreases body, 3int, fuel as int,
    {
        proof {
            reveal(TypeChecker::loop_converged);
        }
        if fuel == 0 {
            (moves, inits)
        } else {
            self.flow.moves = moves.dup();
            self.flow.inits = inits.dup();
            self.check_stmt(body);
            let next_moves = MoveState::join(&moves, &self.flow.moves);
            let next_inits = Self::join_init_states(&inits, &self.flow.inits);
            if moves.is_superset_of(&next_moves) && same_states(&inits, &next_inits) {
                (next_moves, next_inits)
            } else {
                self.converge_loop_states(body, next_moves, next_inits, fuel - 1)
            }
        }
    }

    /// Checks the body of a loop with the states that hold however often it has run.
    pub fn check_loop_body(&mut self, body: &HirStmt)
        ensures
            *final(self) == old(self).loop_checked(*body),
            final(self).settled(*old(self)),
        decreases body, 4int, 0int,
    {
        proof {
            reveal(TypeChecker::loop_checked);
            reveal(TypeChecker::loop_converged);
        }
        self.context.enter_loop();
        let inside = self.context.create_child_scope();
        let suppress = self.diagnostics.suppress_errors;
        let entry_moves = self.flow.moves.dup();
        let entry_inits = self.flow.inits.dup();
        self.diagnostics.suppress_errors = true;
        let (moves, inits) = self.converge_loop_states(body, entry_moves, entry_inits, usize::MAX);
        self.context = inside;
        self.diagnostics.suppress_errors = suppress;
        self.flow.moves = moves;
        self.flow.inits = inits;
        self.check_stmt(body);
        self.context.exit_loop();
    }

    pub fn check_condition(&mut self, cond: &HirExpr)
        ensures
            *final(self) == old(self).condition_checked(*cond),
            final(self).settled(*old(self)),
        decreases cond, 3int, 0int,
    {
        proof {
            reveal(TypeChecker::condition_checked);
        }
        let ty = self.check_expr(cond);
        self.check_boolean(&ty);
    }

    pub fn check_while_stmt(&mut self, stmt: &HirStmt)
        ensures
            *final(self) == match stmt.kind {
                StmtKind::While { cond, body } => old(self).condition_checked(*cond).loop_checked(
                    *body,
                ),
                _ => *old(self),
            },
            final(self).settled(*old(self)),
        decreases stmt, 1int, 0int,
    {
        match &stmt.kind {
            StmtKind::While { cond, body } => {
                self.check_condition(cond);
                self.check_loop_body(body);
            },
            _ => {},
        }
    }

    pub fn check_for_stmt(&mut self, stmt: &HirStmt)
        ensures
            *final(self) == old(self).for_checked(*stmt),
            final(self).settled(*old(self)),
        decreases stmt, 1int, 0int,
    {
        proof {
            reveal(TypeChecker::for_checked);
            reveal(TypeChecker::condition_checked);
            reveal(TypeChecker::loop_checked);
        }
        match &stmt.kind {
            StmtKind::For { init, condition, increment, body } => {
                match init {
                    Some(first) => {
                        self.check_stmt(first);
                    },
                    None => {},
                }
                match condition {
                    Some(cond) => self.check_condition(cond),
                    None => {},
                }
                self.check_loop_body(body);
                match increment {
                    Some(step) => {
                        self.check_expr(step);
                    },
                    None => {},
                }
            },
            _ => {},
        }
    }

    pub fn check_return_stmt(&mut self, stmt: &HirStmt)
        ensures
            *final(self) == old(self).return_checked(*stmt),
            final(self).settled(*old(self)),
        decreases stmt, 1int, 0int,
    {
        proof {
            reveal(TypeChecker::return_checked);
        }
        let expected = dup_type(&self.context.current_return_type);
        match &stmt.kind {
            StmtKind::Return(Some(value), _) => {
                let ty = match &expected {
                    Some(ret) => self.check_expr_expected(value, ret),
                    None => self.check_expr(value),
                };
                self.check_and_record_value_use(value, &ty);
                let dangling = self.check_no_dangling_pointer(value);
                self.recover(dangling);
                self.fit(expected.as_ref(), &ty);
            },
            StmtKind::Return(None, _) => match expected {
                Some(ret) => {
                    if !matches!(ret, HirType::Void) {
                        self.record(TypeErrorKind::InvalidReturnType { expected: ret });
                    }
                },
                None => {},
            },
            _ => {},
        }
    }

    pub fn check_break_stmt(&mut self, stmt: &HirStmt)
        ensures
            *final(self) == old(self).break_checked(*stmt),
            final(self).settled(*old(self)),
        decreases stmt, 1int, 0int,
    {
        proof {
            reveal(TypeChecker::break_checked);
        }
        if !self.context.in_loop {
            self.record(TypeErrorKind::BreakOutsideLoop);
        }
        match &stmt.kind {
            StmtKind::Break(Some(value), _) => {
                let ty = self.check_expr(value);
                self.check_and_record_value_use(value, &ty);
                let expected = dup_type(&self.context.current_return_type);
                self.fit(expected.as_ref(), &ty);
            },
            _ => {},
        }
    }

    pub fn check_let_stmt(&mut self, stmt: &HirStmt)
        ensures
            *final(self) == old(self).let_checked(*stmt),
            final(self).settled(*old(self)),
        decreases stmt, 1int, 0int,
    {
        proof {
            reveal(TypeChecker::let_checked);
        }
        match &stmt.kind {
            StmtKind::Let { name, ty, value, mutable, else_block, span, .. } => {
                if *name != StrId::Known(Word::Underscore) && self.context.is_local_binding(
                    *name,
                ) {
                    self.record(TypeErrorKind::VariableAlreadyExists { var_name: *name });
                }
                let value_ty = self.check_expr_expected(value, ty);
                if !matches!(value.kind, ExprKind::Uninit { .. }) {
                    self.check_and_record_value_use(value, &value_ty);
                }
                match else_block {
                    Some(block) => match &value_ty {
                        HirType::Nullable(inner) => {
                            self.fit(Some(ty), inner);
                            let outside = self.context.create_child_scope();
                            self.check_stmt(block);
                            self.context = outside;
                        },
                        _ => self.say(Message::ElseOnNonNullable { ty: value_ty.dup() }),
                    },
                    None => self.fit(Some(ty), &value_ty),
                }
                self.bind_let(*name, ty, value, *mutable, *span);
            },
            _ => {},
        }
    }}

/// What is moved before a loop counts as moved at the start of every run of its body.
pub proof fn loops_keep_moves(
    checker: TypeChecker,
    body: HirStmt,
    moves: MoveState,
    inits: InitState,
    fuel: usize,
    root: StrId,
    field: StrId,
)
    ensures
        moves.whole.has(root) ==> checker.loop_converged(body, moves, inits, fuel).1.whole.has(root),
        moves.field_gone(root, field) ==> checker.loop_converged(
            body,
            moves,
            inits,
            fuel,
        ).1.field_gone(root, field),
    decreases fuel,
{
    reveal(TypeChecker::loop_converged);
    if fuel > 0 {
        let (after, _) = checker.with_moves(moves).with_inits(inits).stmt_checked(body);
        let next_moves = moves.joined(after.flow.moves);
        let next_inits = joined_states(inits, after.flow.inits);
        join_is_union(moves, after.flow.moves, root, field);
        loops_keep_moves(
            after,
            body,
            next_moves,
            next_inits,
            (fuel - 1) as usize,
            root,
            field,
        );
    }
}

/// What is moved before a match, or behind one of its arms, counts as moved behind the match.
pub proof fn matches_keep_moves(
    checker: TypeChecker,
    scrutinee: HirExpr,
    ty: HirType,
    arms: List<HirMatchArm>,
    expected: Option<HirType>,
    plain: bool,
    before: MoveState,
    joined: MoveState,
    root: StrId,
    field: StrId,
)
    ensures
        ({
            let moves = checker.arms_checked(
                scrutinee,
                ty,
                arms,
                expected,
                plain,
                before,
                joined,
            ).2;
            &&& joined.whole.has(root) ==> moves.whole.has(root)
            &&& joined.field_gone(root, field) ==> moves.field_gone(root, field)
            &&& !(arms is Nil) ==> {
                let (after, _) = checker.arm_checked(
                    scrutinee,
                    ty,
                    arms.head(),
                    expected,
                    plain,
                    before,
                );
                &&& after.flow.moves.whole.has(root) ==> moves.whole.has(root)
                &&& after.flow.moves.field_gone(root, field) ==> moves.field_gone(root, field)
            }
        }),
    decreases arms,
{
    reveal(TypeChecker::arms_checked);
    let all = checker.arms_checked(scrutinee, ty, arms, expected, plain, before, joined);
    match arms {
        Nil => {},
        Cons(_, _) => {
            let (after, _) = checker.arm_checked(
                scrutinee,
                ty,
                arms.head(),
                expected,
                plain,
                before,
            );
            let met = joined.joined(after.flow.moves);
            let others = after.arms_checked(
                scrutinee,
                ty,
                arms.rest(),
                expected,
                plain,
                before,
                met,
            );
            assert(all.2 == others.2) by {
                reveal(TypeChecker::arm_checked);
            }
            join_is_union(joined, after.flow.moves, root, field);
            matches_keep_moves(
                after,
                scrutinee,
                ty,
                arms.rest(),
                expected,
                plain,
                before,
                met,
                root,
                field,
            );
        },
    }
}

} // verus!
