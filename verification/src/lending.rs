//! The loans that calls take, and when they end.

use vstd::prelude::*;

use crate::borrow::{BorrowOp, Place};
use crate::hir::{HirEffectAccess, HirEffectSegment, HirExpr, HirType, StrId};
use crate::list::{Cons, List, Nil};
use crate::paths::lies_in;
use crate::steps::steps_of;
use crate::type_checker::{errors_of, TypeChecker};

verus! {

/// Ending loans asks for the end of each, in turn.
pub proof fn ended_loans_end_in_turn(checker: TypeChecker, loans: List<usize>)
    ensures
        checker.loans_ended(loans).steps() == checker.steps() + loans.seq().map_values(
            |loan: usize| BorrowOp::EndLoan(loan),
        ),
        checker.loans_ended(loans).complaints() == checker.complaints(),
        checker.loans_ended(loans).flow == checker.flow,
    decreases loans,
{
    let end = |loan: usize| BorrowOp::EndLoan(loan);
    match loans {
        Nil => {
            assert(checker.steps() + Seq::<usize>::empty().map_values(end) == checker.steps());
        },
        Cons(_, _) => {
            reveal_with_fuel(steps_of, 2);
            reveal_with_fuel(errors_of, 2);
            let next = checker.asked(BorrowOp::EndLoan(loans.head()));
            ended_loans_end_in_turn(next, loans.rest());
            assert(next.steps() == checker.steps().push(BorrowOp::EndLoan(loans.head())));
            assert(loans.seq() == seq![loans.head()] + loans.rest().seq());
            assert(loans.seq().map_values(end) == seq![end(loans.head())]
                + loans.rest().seq().map_values(end));
            assert(checker.steps().push(end(loans.head())) + loans.rest().seq().map_values(end)
                == checker.steps() + loans.seq().map_values(end));
        },
    }
}

/// Behind a call that returns nothing borrowed, the loans of its arguments are over, and it holds
/// none itself.
pub proof fn plain_calls_hold_no_loan(
    checker: TypeChecker,
    receiver: Option<HirExpr>,
    args: List<HirExpr>,
    loans: List<usize>,
    ret_ty: HirType,
)
    ensures
        ({
            let (after, kept) = checker.call_finalized(receiver, args, loans, ret_ty, None);
            &&& kept is None
            &&& after.steps() == checker.steps() + loans.seq().map_values(
                |loan: usize| BorrowOp::EndLoan(loan),
            )
        }),
{
    reveal(TypeChecker::call_finalized);
    ended_loans_end_in_turn(checker, loans);
}

proof fn effects_lead_on(
    checker: TypeChecker,
    place: Place,
    path: List<HirEffectSegment>,
    name: StrId,
)
    ensures
        checker.along_effect(place, path).0.diagnostics == checker.diagnostics,
        checker.along_effect(place, path).0.loans.next_loan == checker.loans.next_loan,
        lies_in(place, name) ==> lies_in(checker.along_effect(place, path).1, name),
    decreases path,
{
    match path {
        Nil => {},
        Cons(_, _) => match path.head() {
            HirEffectSegment::Field(field) => {
                effects_lead_on(
                    checker,
                    Place::Field(std::rc::Rc::new(place), field),
                    path.rest(),
                    name,
                );
            },
            HirEffectSegment::Index(key) => {
                let (after, bound) = checker.after_key_bound(key);
                effects_lead_on(
                    after,
                    Place::Index(std::rc::Rc::new(place), bound),
                    path.rest(),
                    name,
                );
            },
        },
    }
}

/// Each part of an argument that a function declares to touch is borrowed as declared, one after the
/// other.
pub proof fn declared_accesses_are_borrowed(
    checker: TypeChecker,
    base: Place,
    accesses: List<HirEffectAccess>,
    name: StrId,
    at: int,
)
    requires
        0 <= at < accesses.seq().len(),
        lies_in(base, name),
    ensures
        ({
            let (after, loans) = checker.access_loans(base, accesses);
            let count = checker.steps().len();
            &&& loans.seq().len() == accesses.seq().len()
            &&& after.steps().len() == count + accesses.seq().len()
            &&& checker.steps().is_prefix_of(after.steps())
            &&& after.steps()[count + at] matches BorrowOp::Borrow { loan, place, kind, .. } && kind
                == accesses.seq()[at].ref_kind && loan == loans.seq()[at] && lies_in(place, name)
        }),
    decreases accesses,
{
    reveal_with_fuel(steps_of, 2);
    match accesses {
        Nil => {},
        Cons(_, _) => {
            let access = accesses.head();
            let rest = accesses.rest();
            assert(accesses.seq() == seq![access] + rest.seq());
            let (there, place) = checker.along_effect(base, access.path);
            effects_lead_on(checker, base, access.path, name);
            let (made, loan) = there.borrowed(place, access.ref_kind, None);
            assert(made.steps() == checker.steps().push(
                BorrowOp::Borrow { loan, place, kind: access.ref_kind, blame: None },
            ));
            let (last, more) = made.access_loans(base, rest);
            assert(checker.access_loans(base, accesses).1.seq() == seq![loan] + more.seq());
            accesses_add_one_each(made, base, rest);
            if at > 0 {
                declared_accesses_are_borrowed(made, base, rest, name, at - 1);
            } else {
                assert(last.steps()[made.steps().len() - 1] == made.steps().last());
            }
        },
    }
}

proof fn accesses_add_one_each(checker: TypeChecker, base: Place, accesses: List<HirEffectAccess>)
    ensures
        checker.access_loans(base, accesses).1.seq().len() == accesses.seq().len(),
        checker.access_loans(base, accesses).0.steps().len() == checker.steps().len()
            + accesses.seq().len(),
        checker.steps().is_prefix_of(checker.access_loans(base, accesses).0.steps()),
    decreases accesses,
{
    reveal_with_fuel(steps_of, 2);
    match accesses {
        Nil => {},
        Cons(_, _) => {
            let access = accesses.head();
            let (there, place) = checker.along_effect(base, access.path);
            effects_lead_on(checker, base, access.path, arbitrary());
            let (made, _) = there.borrowed(place, access.ref_kind, None);
            accesses_add_one_each(made, base, accesses.rest());
        },
    }
}

} // verus!
