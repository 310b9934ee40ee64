//! Which operands operators accept, and which casts are defined.

use std::rc::Rc;

use vstd::prelude::*;

use crate::errors::{Message, TypeError, TypeErrorKind};
use crate::hir::{AssignmentOperator, HirType, Operator, StrId};
use crate::list::Nil;
use crate::type_checker::{errors_come_out_in_order, errors_of, TypeCheckResult, TypeChecker};
use crate::types::{alike, comparable, integer, nullable_comparable, numeric, reference_like};

verus! {

/// The type of the result of a binary operator, where it accepts its operands.
pub open spec fn operator_result(left: HirType, op: Operator, right: HirType) -> Option<HirType> {
    match op {
        Operator::Add
        | Operator::Subtract
        | Operator::Multiply
        | Operator::Divide
        | Operator::Modulo => if numeric(left) && numeric(right) {
            Some(left)
        } else {
            None
        },
        Operator::Equals | Operator::NotEquals => if (comparable(left) && comparable(right)) || (
        reference_like(left) && reference_like(right) && alike(left, right)) || nullable_comparable(
            left,
            right,
        ) {
            Some(HirType::Boolean)
        } else {
            None
        },
        Operator::LessThan
        | Operator::LessThanOrEqual
        | Operator::GreaterThan
        | Operator::GreaterThanOrEqual => if comparable(left) && comparable(right) {
            Some(HirType::Boolean)
        } else {
            None
        },
        Operator::LogicalAnd | Operator::LogicalOr => if left is Boolean && right is Boolean {
            Some(HirType::Boolean)
        } else {
            None
        },
        Operator::BitAnd
        | Operator::BitOr
        | Operator::BitXor
        | Operator::ShiftLeft
        | Operator::ShiftRight => if integer(left) && integer(right) {
            Some(left)
        } else {
            None
        },
        Operator::Other(_) => None,
    }
}

/// The operator that a compound assignment applies.
pub open spec fn applied(op: AssignmentOperator) -> Option<Operator> {
    match op {
        AssignmentOperator::Assign => None,
        AssignmentOperator::AddAssign => Some(Operator::Add),
        AssignmentOperator::SubtractAssign => Some(Operator::Subtract),
        AssignmentOperator::MultiplyAssign => Some(Operator::Multiply),
        AssignmentOperator::DivideAssign => Some(Operator::Divide),
        AssignmentOperator::ModuloAssign => Some(Operator::Modulo),
        AssignmentOperator::BitAndAssign => Some(Operator::BitAnd),
        AssignmentOperator::BitOrAssign => Some(Operator::BitOr),
        AssignmentOperator::BitXorAssign => Some(Operator::BitXor),
        AssignmentOperator::ShiftLeftAssign => Some(Operator::ShiftLeft),
        AssignmentOperator::ShiftRightAssign => Some(Operator::ShiftRight),
    }
}

pub fn applied_operator(op: AssignmentOperator) -> (operator: Option<Operator>)
    ensures
        operator == applied(op),
{
    match op {
        AssignmentOperator::Assign => None,
        AssignmentOperator::AddAssign => Some(Operator::Add),
        AssignmentOperator::SubtractAssign => Some(Operator::Subtract),
        AssignmentOperator::MultiplyAssign => Some(Operator::Multiply),
        AssignmentOperator::DivideAssign => Some(Operator::Divide),
        AssignmentOperator::ModuloAssign => Some(Operator::Modulo),
        AssignmentOperator::BitAndAssign => Some(Operator::BitAnd),
        AssignmentOperator::BitOrAssign => Some(Operator::BitOr),
        AssignmentOperator::BitXorAssign => Some(Operator::BitXor),
        AssignmentOperator::ShiftLeftAssign => Some(Operator::ShiftLeft),
        AssignmentOperator::ShiftRightAssign => Some(Operator::ShiftRight),
    }
}

pub open spec fn pointer(ty: HirType) -> bool {
    ty is SafePointer || ty is UnsafePointer || ty is OwnedPointer
}

/// Pointers to these can be cast into each other. `void` stands for anything.
pub open spec fn pointees_match(a: HirType, b: HirType) -> bool {
    a is Void || b is Void || alike(a, b)
}

/// What a cast of this type to a raw pointer points to, where there is such a cast.
pub open spec fn cast_pointee(source: HirType) -> Option<HirType> {
    match source {
        HirType::SafePointer { inner, .. } => Some(*inner),
        HirType::UnsafePointer { inner, .. } => Some(*inner),
        HirType::Slice(inner) => Some(*inner),
        HirType::Array(inner, _) => Some(*inner),
        HirType::OwnedPointer { inner, .. } => match *inner {
            HirType::Slice(elem) => Some(*elem),
            _ => None,
        },
        _ => None,
    }
}

/// Whether there is a conversion between two types.
pub open spec fn castable(source: HirType, target: HirType) -> bool {
    ||| alike(source, target)
    ||| numeric(source) && numeric(target)
    ||| source is Boolean && numeric(target)
    ||| match target {
        HirType::SafePointer { inner, .. } | HirType::UnsafePointer { inner, .. } => {
            match cast_pointee(source) {
                Some(pointee) => pointees_match(pointee, *inner),
                None => source is OwnedPointer && *inner is Void,
            }
        },
        _ => false,
    }
    ||| pointer(source) && integer(target)
    ||| integer(source) && pointer(target)
}

impl TypeChecker {
    pub open spec fn binary_result(self, left: HirType, op: Operator, right: HirType) -> TypeCheckResult<
        HirType,
    > {
        match operator_result(left, op, right) {
            Some(ty) => Ok(ty),
            None => Err(
                TypeError {
                    kind: match op {
                        Operator::Other(_) => TypeErrorKind::Generic(
                            Message::OperatorMisplaced { op },
                        ),
                        _ => TypeErrorKind::InvalidBinaryOp { op, left, right },
                    },
                    span: self.diagnostics.current_span,
                },
            ),
        }
    }

    pub fn check_binary_op(&self, left: &HirType, op: Operator, right: &HirType) -> (result: TypeCheckResult<
        HirType,
    >)
        ensures
            result == self.binary_result(*left, op, *right),
    {
        let accepted = match op {
            Operator::Add
            | Operator::Subtract
            | Operator::Multiply
            | Operator::Divide
            | Operator::Modulo => if self.is_numeric(left) && self.is_numeric(right) {
                Some(left.dup())
            } else {
                None
            },
            Operator::Equals | Operator::NotEquals => if (self.is_comparable(left)
                && self.is_comparable(right)) || (self.is_reference_like(left)
                && self.is_reference_like(right) && self.types_structurally_equal(left, right))
                || self.nullable_equality_compatible(left, right) {
                Some(HirType::Boolean)
            } else {
                None
            },
            Operator::LessThan
            | Operator::LessThanOrEqual
            | Operator::GreaterThan
            | Operator::GreaterThanOrEqual => if self.is_comparable(left) && self.is_comparable(
                right,
            ) {
                Some(HirType::Boolean)
            } else {
                None
            },
            Operator::LogicalAnd | Operator::LogicalOr => match (left, right) {
                (HirType::Boolean, HirType::Boolean) => Some(HirType::Boolean),
                _ => None,
            },
            Operator::BitAnd
            | Operator::BitOr
            | Operator::BitXor
            | Operator::ShiftLeft
            | Operator::ShiftRight => if self.is_integer(left) && self.is_integer(right) {
                Some(left.dup())
            } else {
                None
            },
            Operator::Other(_) => {
                return Err(
                    TypeErrorKind::Generic(Message::OperatorMisplaced { op }).at(
                        self.diagnostics.current_span,
                    ),
                );
            },
        };
        match accepted {
            Some(ty) => Ok(ty),
            None => Err(
                TypeErrorKind::InvalidBinaryOp { op, left: left.dup(), right: right.dup() }.at(
                    self.diagnostics.current_span,
                ),
            ),
        }
    }

    /// The checker after an operator, and the type of its result.
    #[verifier::opaque]
    pub open spec fn operated(self, left: HirType, op: Operator, right: HirType) -> (
        TypeChecker,
        HirType,
    ) {
        match self.binary_result(left, op, right) {
            Ok(ty) => (self, ty),
            Err(error) => (self.recovered(Err(error)), HirType::Unknown),
        }
    }

    pub fn operate(&mut self, left: &HirType, op: Operator, right: &HirType) -> (ty: HirType)
        ensures
            (*final(self), ty) == old(self).operated(*left, op, *right),
            final(self).settled_in_scope(*old(self)),
    {
        proof {
            reveal(TypeChecker::operated);
        }
        match self.check_binary_op(left, op, right) {
            Ok(ty) => ty,
            Err(error) => {
                self.recover(Err(error));
                HirType::Unknown
            },
        }
    }

    /// The checker after a value is assigned to a target.
    pub open spec fn assigned(self, target: HirType, op: AssignmentOperator, value: HirType) -> TypeChecker {
        match applied(op) {
            None => self.recovered(self.compatibility(target, value)),
            Some(operator) => self.operated(target, operator, value).0,
        }
    }

    pub fn check_assigned(&mut self, target: &HirType, op: AssignmentOperator, value: &HirType)
        ensures
            *final(self) == old(self).assigned(*target, op, *value),
            final(self).settled_in_scope(*old(self)),
    {
        match applied_operator(op) {
            None => {
                let result = self.types_compatible(target, value);
                self.recover(result);
            },
            Some(operator) => {
                self.operate(target, operator, value);
            },
        }
    }

    #[verifier::opaque]
    pub open spec fn cast_result(self, source: HirType, target: HirType) -> TypeCheckResult<()> {
        if castable(source, target) {
            Ok(())
        } else {
            Err(
                TypeError {
                    kind: TypeErrorKind::Generic(Message::NoCast { source, target }),
                    span: self.diagnostics.current_span,
                },
            )
        }
    }

    fn pointees_castable(&self, a: &HirType, b: &HirType) -> (castable: bool)
        ensures
            castable == pointees_match(*a, *b),
    {
        matches!(a, HirType::Void) || matches!(b, HirType::Void)
            || self.types_structurally_equal(a, b)
    }

    fn casts_to_pointer(&self, source: &HirType, pointee: &HirType) -> (castable: bool)
        ensures
            castable == match cast_pointee(*source) {
                Some(found) => pointees_match(found, *pointee),
                None => source is OwnedPointer && pointee is Void,
            },
    {
        match source {
            HirType::SafePointer { inner, .. } | HirType::UnsafePointer { inner, .. } => {
                self.pointees_castable(inner, pointee)
            },
            HirType::Slice(inner) => self.pointees_castable(inner, pointee),
            HirType::Array(inner, _) => self.pointees_castable(inner, pointee),
            HirType::OwnedPointer { inner, .. } => match &**inner {
                HirType::Slice(elem) => self.pointees_castable(elem, pointee),
                _ => matches!(pointee, HirType::Void),
            },
            _ => false,
        }
    }

    pub fn check_cast_legality(&self, source: &HirType, target: &HirType) -> (result: TypeCheckResult<
        (),
    >)
        ensures
            result == self.cast_result(*source, *target),
    {
        proof {
            reveal(TypeChecker::cast_result);
        }
        let source_pointer = matches!(
            source,
            HirType::SafePointer { .. }
            | HirType::UnsafePointer { .. }
            | HirType::OwnedPointer { .. }
        );
        let target_pointer = matches!(
            target,
            HirType::SafePointer { .. }
            | HirType::UnsafePointer { .. }
            | HirType::OwnedPointer { .. }
        );
        let raw = match target {
            HirType::SafePointer { inner, .. } | HirType::UnsafePointer { inner, .. } => {
                self.casts_to_pointer(source, inner)
            },
            _ => false,
        };
        if self.types_structurally_equal(source, target) || (self.is_numeric(source)
            && self.is_numeric(target)) || (matches!(source, HirType::Boolean)
            && self.is_numeric(target)) || raw || (source_pointer && self.is_integer(target)) || (
        self.is_integer(source) && target_pointer) {
            Ok(())
        } else {
            Err(
                TypeErrorKind::Generic(
                    Message::NoCast { source: source.dup(), target: target.dup() },
                ).at(self.diagnostics.current_span),
            )
        }
    }
}

/// Every type can be cast to itself, and every raw pointer to a pointer to `void` and back.
pub proof fn casts_to_itself_and_void(ty: HirType, void_pointer: HirType)
    requires
        match void_pointer {
            HirType::SafePointer { inner, .. } | HirType::UnsafePointer { inner, .. } => {
                *inner is Void
            },
            _ => false,
        },
    ensures
        castable(ty, ty),
        pointer(ty) ==> castable(ty, void_pointer),
        ty is SafePointer || ty is UnsafePointer ==> castable(void_pointer, ty),
{
    crate::types::alike_reflexive(ty);
}

/// The types of whole numbers, one by one.
pub open spec fn whole_number(ty: HirType) -> bool {
    ||| ty == HirType::I8
    ||| ty == HirType::I16
    ||| ty == HirType::I32
    ||| ty == HirType::I64
    ||| ty == HirType::I128
    ||| ty == HirType::Isize
    ||| ty == HirType::U8
    ||| ty == HirType::U16
    ||| ty == HirType::U32
    ||| ty == HirType::U64
    ||| ty == HirType::U128
    ||| ty == HirType::Usize
}

/// The types of numbers, one by one.
pub open spec fn number(ty: HirType) -> bool {
    whole_number(ty) || ty == HirType::F32 || ty == HirType::F64
}

/// The types whose values have an order, one by one.
pub open spec fn ordered(ty: HirType) -> bool {
    number(ty) || ty == HirType::Boolean || ty == HirType::String
}

/// The types whose values are addresses.
pub open spec fn address(ty: HirType) -> bool {
    match ty {
        HirType::Ref { .. } | HirType::SafePointer { .. } => true,
        HirType::UnsafePointer { .. } | HirType::OwnedPointer { .. } => true,
        _ => false,
    }
}

/// Arithmetic takes two numbers and gives one of the first's type.
pub proof fn arithmetic_takes_numbers(left: HirType, op: Operator, right: HirType)
    requires
        op == Operator::Add || op == Operator::Subtract || op == Operator::Multiply || op
            == Operator::Divide || op == Operator::Modulo,
    ensures
        number(left) && number(right) ==> operator_result(left, op, right) == Some(left),
        !number(left) || !number(right) ==> operator_result(left, op, right) is None,
{
}

/// Work on bits takes two whole numbers and gives one of the first's type.
pub proof fn bits_are_of_whole_numbers(left: HirType, op: Operator, right: HirType)
    requires
        op == Operator::BitAnd || op == Operator::BitOr || op == Operator::BitXor || op
            == Operator::ShiftLeft || op == Operator::ShiftRight,
    ensures
        whole_number(left) && whole_number(right) ==> operator_result(left, op, right) == Some(left),
        !whole_number(left) || !whole_number(right) ==> operator_result(left, op, right) is None,
{
}

/// Two booleans, and nothing else, can be joined by "and" and by "or", into a boolean.
pub proof fn logic_takes_booleans(left: HirType, op: Operator, right: HirType)
    requires
        op == Operator::LogicalAnd || op == Operator::LogicalOr,
    ensures
        operator_result(HirType::Boolean, op, HirType::Boolean) == Some(HirType::Boolean),
        left != HirType::Boolean || right != HirType::Boolean ==> operator_result(left, op, right)
            is None,
{
}

/// What has an order can be put in order, into a boolean, and nothing else can.
pub proof fn order_takes_what_has_one(left: HirType, op: Operator, right: HirType)
    requires
        op == Operator::LessThan || op == Operator::LessThanOrEqual || op == Operator::GreaterThan
            || op == Operator::GreaterThanOrEqual,
    ensures
        ordered(left) && ordered(right) ==> operator_result(left, op, right) == Some(
            HirType::Boolean,
        ),
        !ordered(left) || !ordered(right) ==> operator_result(left, op, right) is None,
{
}

/// Equality takes what has an order, two addresses of the same type, and a nullable value beside null
/// or beside what it may hold, and gives a boolean. It takes nothing else, and it does not matter
/// which side a value stands on.
pub proof fn equality_takes_what_can_be_equal(
    left: HirType,
    op: Operator,
    right: HirType,
    value: HirType,
)
    requires
        op == Operator::Equals || op == Operator::NotEquals,
    ensures
        operator_result(left, op, right) is Some ==> operator_result(left, op, right) == Some(
            HirType::Boolean,
        ),
        operator_result(left, op, right) == operator_result(right, op, left),
        ordered(left) && ordered(right) ==> operator_result(left, op, right) is Some,
        address(left) ==> operator_result(left, op, left) is Some,
        address(left) && address(right) ==> (operator_result(left, op, right) is Some <==> alike(
            left,
            right,
        )),
        operator_result(HirType::Nullable(Rc::new(value)), op, HirType::Null) is Some,
        ordered(value) || address(value) ==> operator_result(
            HirType::Nullable(Rc::new(value)),
            op,
            value,
        ) is Some && operator_result(
            HirType::Nullable(Rc::new(value)),
            op,
            HirType::Nullable(Rc::new(value)),
        ) is Some,
        ordered(left) && ordered(right) && left != right ==> operator_result(
            HirType::Nullable(Rc::new(left)),
            op,
            right,
        ) is None && operator_result(
            HirType::Nullable(Rc::new(left)),
            op,
            HirType::Nullable(Rc::new(right)),
        ) is None,
        !ordered(left) && !address(left) && !(left is Nullable) && !(left is Null) ==> (
        operator_result(left, op, right) is None),
        left is Null && !(right is Nullable) ==> operator_result(left, op, right) is None,
        ordered(left) && address(right) ==> operator_result(left, op, right) is None,
{
    crate::types::alike_symmetric(left, right);
    crate::types::alike_reflexive(left);
    crate::types::alike_reflexive(value);
    match (left, right) {
        (HirType::Nullable(_), HirType::Nullable(_)) => {
            crate::types::alike_symmetric(left.part(), right.part());
        },
        (HirType::Nullable(_), _) => crate::types::alike_symmetric(left.part(), right),
        (_, HirType::Nullable(_)) => crate::types::alike_symmetric(left, right.part()),
        _ => {},
    }
}

/// An operator that stands between no two values is refused whatever stands there.
pub proof fn other_operators_take_nothing(checker: TypeChecker, left: HirType, name: StrId, right: HirType)
    ensures
        checker.binary_result(left, Operator::Other(name), right) == Err::<HirType, TypeError>(
            TypeError {
                kind: TypeErrorKind::Generic(
                    Message::OperatorMisplaced { op: Operator::Other(name) },
                ),
                span: checker.diagnostics.current_span,
            },
        ),
{
}

/// What an operator refuses is reported, once, at the place that is looked at, with both operands in
/// their order, and its type is unknown. What it takes is not reported.
pub proof fn refused_operands_are_reported(
    checker: TypeChecker,
    left: HirType,
    op: Operator,
    right: HirType,
)
    requires
        !(op is Other),
        !checker.diagnostics.suppress_errors,
    ensures
        ({
            let (after, ty) = checker.operated(left, op, right);
            match operator_result(left, op, right) {
                Some(result) => after == checker && ty == result,
                None => ty == HirType::Unknown && errors_of(after.diagnostics.log, Nil).seq()
                    == errors_of(checker.diagnostics.log, Nil).seq().push(
                    TypeError {
                        kind: TypeErrorKind::InvalidBinaryOp { op, left, right },
                        span: checker.diagnostics.current_span,
                    },
                ),
            }
        }),
{
    reveal(TypeChecker::operated);
    errors_come_out_in_order(checker, TypeErrorKind::InvalidBinaryOp { op, left, right });
}

/// A compound assignment applies the operator it is named after: it takes what the operator takes.
pub proof fn compound_assignments_apply_their_operator(
    checker: TypeChecker,
    target: HirType,
    op: AssignmentOperator,
    value: HirType,
)
    ensures
        op == AssignmentOperator::AddAssign || op == AssignmentOperator::SubtractAssign || op
            == AssignmentOperator::MultiplyAssign || op == AssignmentOperator::DivideAssign || op
            == AssignmentOperator::ModuloAssign ==> (checker.assigned(target, op, value) == checker
            <==> checker.diagnostics.suppress_errors || (number(target) && number(value))),
        op == AssignmentOperator::BitAndAssign || op == AssignmentOperator::BitOrAssign || op
            == AssignmentOperator::BitXorAssign || op == AssignmentOperator::ShiftLeftAssign || op
            == AssignmentOperator::ShiftRightAssign ==> (checker.assigned(target, op, value)
            == checker <==> checker.diagnostics.suppress_errors || (whole_number(target)
            && whole_number(value))),
        op == AssignmentOperator::Assign ==> (checker.assigned(target, op, value) == checker <==>
            checker.diagnostics.suppress_errors || checker.fits(target, value)),
        op == AssignmentOperator::AddAssign ==> applied(op) == Some(Operator::Add),
        op == AssignmentOperator::SubtractAssign ==> applied(op) == Some(Operator::Subtract),
        op == AssignmentOperator::MultiplyAssign ==> applied(op) == Some(Operator::Multiply),
        op == AssignmentOperator::DivideAssign ==> applied(op) == Some(Operator::Divide),
        op == AssignmentOperator::ModuloAssign ==> applied(op) == Some(Operator::Modulo),
        op == AssignmentOperator::BitAndAssign ==> applied(op) == Some(Operator::BitAnd),
        op == AssignmentOperator::BitOrAssign ==> applied(op) == Some(Operator::BitOr),
        op == AssignmentOperator::BitXorAssign ==> applied(op) == Some(Operator::BitXor),
        op == AssignmentOperator::ShiftLeftAssign ==> applied(op) == Some(Operator::ShiftLeft),
        op == AssignmentOperator::ShiftRightAssign ==> applied(op) == Some(Operator::ShiftRight),
{
    reveal(TypeChecker::operated);
}

/// Between numbers, from a boolean to a number, and between addresses and whole numbers every cast
/// is defined. Nothing else can be cast to a number, nor to a boolean, a string or a character.
pub proof fn casts_between_plain_types(checker: TypeChecker, source: HirType, target: HirType)
    ensures
        checker.cast_result(source, target) is Ok <==> castable(source, target),
        number(source) && number(target) ==> castable(source, target),
        source == HirType::Boolean && number(target) ==> castable(source, target),
        (source is SafePointer || source is UnsafePointer || source is OwnedPointer)
            && whole_number(target) ==> castable(source, target),
        whole_number(source) && (target is SafePointer || target is UnsafePointer || target
            is OwnedPointer) ==> castable(source, target),
        number(target) && castable(source, target) ==> number(source) || source == HirType::Boolean
            || (address(source) && whole_number(target)) || source is Generic,
        (target == HirType::Boolean || target == HirType::String || target == HirType::Char)
            && castable(source, target) ==> source == target || source is Generic,
        target is Ref && castable(source, target) ==> source is Ref || source is Generic,
        target is Nullable && castable(source, target) ==> source is Nullable || source is Generic,
        target is Struct && castable(source, target) ==> source is Struct || source is Generic,
        source is Struct && castable(source, target) ==> target is Struct || target is Generic,
        (source == HirType::F32 || source == HirType::F64) && castable(source, target) ==> number(
            target,
        ) || target is Generic,
{
    reveal(TypeChecker::cast_result);
}

/// A cast to a raw pointer keeps what is pointed to, but for `void`: slices and arrays give a pointer
/// to their elements, and an owned slice one to those it owns.
pub proof fn casts_to_raw_pointers(element: HirType, len: usize, source: HirType, target: HirType)
    requires
        target is SafePointer || target is UnsafePointer,
        !(source is Generic),
    ensures
        alike(element, target.part()) || target.part() is Void ==> {
            &&& castable(HirType::Slice(Rc::new(element)), target)
            &&& castable(HirType::Array(Rc::new(element), len), target)
            &&& castable(
                HirType::OwnedPointer {
                    inner: Rc::new(HirType::Slice(Rc::new(element))),
                    allocator: None,
                },
                target,
            )
        },
        source is SafePointer || source is UnsafePointer || source is Slice || source is Array ==> (
        castable(source, target) <==> alike(source.part(), target.part()) || source.part() is Void
            || target.part() is Void),
        castable(source, target) ==> source is SafePointer || source is UnsafePointer || source
            is Slice || source is Array || source is OwnedPointer || whole_number(source),
{
}

} // verus!
