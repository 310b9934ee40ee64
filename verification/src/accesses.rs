//! What an access to a name, a field, an element or a pointer gives, and what is said of it.

use std::rc::Rc;

use vstd::prelude::*;

use crate::borrow::{BorrowKind, BorrowOp, Place};
use crate::errors::{Message, TypeError, TypeErrorKind};
use crate::expressions::{fields_left_out, initializes};
use crate::hir::{
    field_index, field_named, AssignmentOperator, ExprKind, HirExpr, HirField, HirFieldInit,
    HirStruct, HirType, SourceSpan, StrId, Word,
};
use crate::init_nodes::{complete, initialized_reads_initialized, untouched};
use crate::initialization::{InitNode, InitStatus};
use crate::list::{has_key, held, lookup, update_then_lookup, Cons, List, Nil};
use crate::ref_effects::field_path;
use crate::ref_provenance::provenance_of;
use crate::steps::steps_of;
use crate::type_checker::{errors_come_out_in_order, Occurrence, TypeChecker};
use crate::types::{integer, stripped};

verus! {

impl TypeChecker {
    /// Nothing was said and nothing was asked on the way to another state.
    pub open spec fn quiet_until(self, after: TypeChecker) -> bool {
        &&& after.complaints() == self.complaints()
        &&& after.steps() == self.steps()
        &&& after.flow == self.flow
        &&& after.context == self.context
        &&& after.modes == self.modes
    }

    /// One error was reported on the way to another state, and nothing was asked.
    pub open spec fn reports(self, kind: TypeErrorKind, after: TypeChecker) -> bool {
        &&& after.complaints() == self.complaints().push(
            TypeError { kind, span: self.diagnostics.current_span },
        )
        &&& after.steps() == self.steps()
        &&& after.flow == self.flow
        &&& after.context == self.context
        &&& after.modes == self.modes
    }

    /// One error was reported, in words.
    pub open spec fn says(self, message: Message, after: TypeChecker) -> bool {
        self.reports(TypeErrorKind::Generic(message), after)
    }
}

/// An error is reported where it is recorded, unless errors are suppressed.
pub proof fn recording_reports(checker: TypeChecker, kind: TypeErrorKind)
    requires
        !checker.diagnostics.suppress_errors,
    ensures
        checker.reports(kind, checker.recorded(kind)),
{
    errors_come_out_in_order(checker, kind);
    reveal_with_fuel(steps_of, 2);
}

proof fn saying_reports(checker: TypeChecker, message: Message)
    requires
        !checker.diagnostics.suppress_errors,
    ensures
        checker.says(message, checker.said(message)),
{
    recording_reports(checker, TypeErrorKind::Generic(message));
}

/// A name has the type of its declaration, and what it stands for is noted where it occurs. A name
/// that is not declared is reported.
pub proof fn names_need_declarations(checker: TypeChecker, name: StrId, span: SourceSpan)
    requires
        !checker.diagnostics.suppress_errors,
    ensures
        ({
            let (after, ty) = checker.ident_checked(name, span, false);
            match lookup(checker.context.variables, name) {
                Some((symbol, declared)) => {
                    &&& ty == declared
                    &&& checker.quiet_until(after)
                    &&& after.diagnostics.occurrences.head() == (Occurrence {
                        span,
                        name,
                        ty: declared,
                        module_idx: checker.context.current_module_idx,
                        symbol,
                        is_declaration: false,
                    })
                },
                None => {
                    &&& ty is Unknown
                    &&& checker.reports(TypeErrorKind::UndefinedVariable(name), after)
                },
            }
        }),
{
    reveal(TypeChecker::ident_checked);
    recording_reports(checker, TypeErrorKind::UndefinedVariable(name));
}

/// Reading a local that is not initialized, or not on every path, is reported; reading one that is,
/// is not. Where reads are not looked at, nothing is reported.
pub proof fn reads_need_values(checker: TypeChecker, name: StrId, span: SourceSpan)
    requires
        !checker.diagnostics.suppress_errors,
        has_key(checker.context.variables, name),
    ensures
        ({
            let after = checker.ident_checked(name, span, true).0;
            let node = lookup(checker.flow.inits, name);
            if checker.modes.suppress_init_read || node is None || node == Some(complete()) {
                checker.quiet_until(after)
            } else {
                &&& node == Some(untouched()) ==> checker.says(
                    Message::UninitValue { name },
                    after,
                )
                &&& node == Some(InitNode::Whole(InitStatus::Maybe)) ==> checker.says(
                    Message::MaybeUninitValue { name },
                    after,
                )
            }
        }),
{
    reveal(TypeChecker::ident_checked);
    saying_reports(checker, Message::UninitValue { name });
    saying_reports(checker, Message::MaybeUninitValue { name });
}

/// A local that was written to can be read; one that was left without a value cannot.
pub proof fn writes_give_values(
    checker: TypeChecker,
    target: HirExpr,
    name: StrId,
    span: SourceSpan,
    value_ty: HirType,
    uninit: bool,
)
    requires
        !checker.diagnostics.suppress_errors,
        !checker.modes.suppress_init_read,
        target.kind == ExprKind::Ident(name, span),
        has_key(checker.context.variables, name),
    ensures
        ({
            let written = checker.target_marked(target, value_ty, uninit);
            let after = written.ident_checked(name, span, true).0;
            if uninit {
                written.says(Message::UninitValue { name }, after)
            } else {
                written.quiet_until(after)
            }
        }),
        forall|other: StrId| other != name ==> lookup(
            checker.target_marked(target, value_ty, uninit).flow.inits,
            other,
        ) == lookup(checker.flow.inits, other),
{
    let written = checker.target_marked(target, value_ty, uninit);
    let node = if uninit {
        untouched()
    } else {
        complete()
    };
    assert forall|other: StrId| true implies lookup(written.flow.inits, other) == if other == name {
        Some(node)
    } else {
        lookup(checker.flow.inits, other)
    } by {
        update_then_lookup(checker.flow.inits, name, node, other);
    }
    reads_need_values(written, name, span);
}

/// A field that was written to can be read.
pub proof fn written_fields_have_values(
    checker: TypeChecker,
    target: HirExpr,
    root: StrId,
    path: List<StrId>,
    field: StrId,
    value_ty: HirType,
)
    requires
        match target.kind {
            ExprKind::FieldAccess { object, field: f, .. } | ExprKind::Get { object, field: f, .. } => f
                == field && field_path(*object) == Some((root, path)),
            _ => false,
        },
    ensures
        ({
            let written = checker.target_marked(target, value_ty, false);
            written.after_path_read(root, path.snoc(field)) == written
        }),
{
    let node = crate::init_nodes::local_node(checker.flow.inits, root);
    let whole = path.snoc(field);
    initialized_reads_initialized(node, whole);
    let value = crate::init_nodes::initialized_at(node, whole);
    update_then_lookup(checker.flow.inits, root, value, root);
}

/// An element of an array or a slice has the type of its elements. One behind a raw pointer has the
/// type that the pointer leads to, and needs an unsafe block. Nothing else has elements.
pub proof fn elements_have_the_element_type(
    checker: TypeChecker,
    object_ty: HirType,
    safe: Message,
    raw: Message,
)
    requires
        !checker.diagnostics.suppress_errors,
    ensures
        ({
            let (after, ty) = checker.element_reached(object_ty, safe, raw);
            match object_ty {
                HirType::SafePointer { inner, .. } | HirType::UnsafePointer { inner, .. } => {
                    &&& ty == *inner
                    &&& checker.modes.unsafe_depth > 0 ==> after == checker
                    &&& checker.modes.unsafe_depth == 0 ==> checker.says(
                        if object_ty is SafePointer {
                            safe
                        } else {
                            raw
                        },
                        after,
                    )
                },
                HirType::Array(inner, _) => ty == *inner && after == checker,
                HirType::Slice(inner) => ty == *inner && after == checker,
                HirType::Ref { inner: behind, .. } => match *behind {
                    HirType::Array(inner, _) => ty == *inner && after == checker,
                    HirType::Slice(inner) => ty == *inner && after == checker,
                    _ => true,
                },
                HirType::OwnedPointer { inner: behind, .. } => match *behind {
                    HirType::Array(inner, _) => ty == *inner && after == checker,
                    HirType::Slice(inner) => ty == *inner && after == checker,
                    _ => true,
                },
                _ => ty is Unknown && checker.says(Message::CannotIndex { ty: object_ty }, after),
            }
        }),
{
    reveal(TypeChecker::element_reached);
    saying_reports(checker, safe);
    saying_reports(checker, raw);
    saying_reports(checker, Message::CannotIndex { ty: object_ty });
}

/// A dereference gives what the pointer leads to, and reads it. A raw pointer needs an unsafe block;
/// what is no pointer cannot be dereferenced.
pub proof fn dereferences_give_the_target(checker: TypeChecker, expr: HirExpr, ty: HirType)
    requires
        !checker.diagnostics.suppress_errors,
        !(ty is Nullable),
    ensures
        ({
            let (after, found) = checker.dereferenced(expr, ty);
            let error = |message: Message|
                checker.complaints().push(
                    TypeError {
                        kind: TypeErrorKind::Generic(message),
                        span: checker.diagnostics.current_span,
                    },
                );
            &&& after.flow == checker.flow
            &&& after.steps() == match checker.resolved(expr).1 {
                Some(base) => checker.steps().push(
                    BorrowOp::Use {
                        place: Place::Deref(Rc::new(base)),
                        kind: BorrowKind::Shared,
                        blame: provenance_of(checker.program.graph, expr),
                    },
                ),
                None => checker.steps(),
            }
            &&& match ty {
                HirType::Ref { inner, .. } | HirType::OwnedPointer { inner, .. } => found == *inner
                    && after.complaints() == checker.complaints(),
                HirType::SafePointer { inner, .. } => found == *inner && after.complaints()
                    == if checker.modes.unsafe_depth > 0 {
                    checker.complaints()
                } else {
                    error(Message::RawDerefNeedsUnsafe)
                },
                HirType::UnsafePointer { inner, .. } => found == *inner && after.complaints()
                    == if checker.modes.unsafe_depth > 0 {
                    checker.complaints()
                } else {
                    error(Message::UnsafeDerefNeedsUnsafe)
                },
                _ => found is Unknown && after.complaints() == error(Message::CannotDeref { ty }),
            }
        }),
{
    reveal(TypeChecker::dereferenced);
    reveal_with_fuel(steps_of, 3);
    reveal_with_fuel(crate::type_checker::errors_of, 2);
    crate::borrowck::resolving_keeps_rest(checker, expr);
    let (after, place) = checker.resolved(expr);
    let seen = match place {
        Some(base) => after.used(expr, Place::Deref(Rc::new(base)), BorrowKind::Shared),
        None => after,
    };
    assert(seen.complaints() == checker.complaints());
    assert(seen.modes == checker.modes);
    assert(seen.flow == checker.flow);
    saying_reports(seen, Message::RawDerefNeedsUnsafe);
    saying_reports(seen, Message::UnsafeDerefNeedsUnsafe);
    saying_reports(seen, Message::CannotDeref { ty });
}

/// A part of an array or a slice is a slice of the same elements, between two integers.
pub proof fn slices_keep_the_element_type(
    checker: TypeChecker,
    object: HirExpr,
    start: HirExpr,
    end: HirExpr,
    types: (HirType, HirType, HirType),
)
    requires
        !checker.diagnostics.suppress_errors,
    ensures
        ({
            let (after, ty) = checker.sliced(object, start, end, types, false);
            let bounds = integer(types.1) && integer(types.2);
            match types.0 {
                HirType::Array(inner, _) | HirType::Slice(inner) => {
                    &&& ty == HirType::Slice(inner)
                    &&& bounds ==> after == checker
                    &&& !bounds ==> checker.says(Message::SliceBoundsNotIntegers, after)
                },
                HirType::Ref { .. } | HirType::SafePointer { .. } | HirType::UnsafePointer { .. }
                | HirType::OwnedPointer { .. } => true,
                _ => {
                    &&& ty is Unknown
                    &&& bounds ==> checker.says(Message::CannotSlice { ty: types.0 }, after)
                },
            }
        }),
{
    reveal(TypeChecker::sliced);
    saying_reports(checker, Message::SliceBoundsNotIntegers);
    saying_reports(checker, Message::CannotSlice { ty: types.0 });
}

/// The length of a slice is set by a plain assignment of an integer in an unsafe block. Its capacity
/// is not assigned at all.
pub proof fn lengths_are_set_with_care(
    checker: TypeChecker,
    owned: bool,
    op: AssignmentOperator,
    value_ty: HirType,
)
    requires
        !checker.diagnostics.suppress_errors,
    ensures
        ({
            let len = StrId::Known(Word::Len);
            let (after, ty) = checker.bookkeeping_assigned(len, owned, op, value_ty);
            let guarded = checker.modes.unsafe_depth > 0;
            &&& ty is Usize
            &&& (after.complaints() == checker.complaints()) == (guarded && integer(value_ty) && op
                is Assign)
            &&& !guarded && integer(value_ty) && op is Assign ==> checker.says(
                Message::LenNeedsUnsafe,
                after,
            )
            &&& guarded && !integer(value_ty) && op is Assign ==> checker.says(
                Message::LenNotInteger { ty: value_ty },
                after,
            )
            &&& guarded && integer(value_ty) && !(op is Assign) ==> checker.says(
                Message::LenPlainAssignmentOnly,
                after,
            )
        }),
        ({
            let cap = StrId::Known(Word::Cap);
            let (after, ty) = checker.bookkeeping_assigned(cap, owned, op, value_ty);
            ty is Unknown && checker.says(
                if owned {
                    Message::CapNotAssignable
                } else {
                    Message::CapOnlyOnOwned
                },
                after,
            )
        }),
{
    reveal(TypeChecker::bookkeeping_assigned);
    saying_reports(checker, Message::CapNotAssignable);
    saying_reports(checker, Message::CapOnlyOnOwned);
    saying_reports(checker, Message::LenNeedsUnsafe);
    saying_reports(checker, Message::LenNotInteger { ty: value_ty });
    saying_reports(checker, Message::LenPlainAssignmentOnly);
    let guarded = if checker.unsafe_here() {
        checker
    } else {
        checker.said(Message::LenNeedsUnsafe)
    };
    saying_reports(guarded, Message::LenNotInteger { ty: value_ty });
    let counted = if integer(value_ty) {
        guarded
    } else {
        guarded.said(Message::LenNotInteger { ty: value_ty })
    };
    saying_reports(counted, Message::LenPlainAssignmentOnly);
    assert(counted.complaints().len() >= checker.complaints().len());
}

/// A value that is all zeros, or left without one, needs a type; zeros need one that allows them.
pub proof fn empty_values_need_types(checker: TypeChecker, ty: HirType)
    requires
        !checker.diagnostics.suppress_errors,
    ensures
        ty is Unknown ==> {
            &&& checker.zeroed(ty).1 is Unknown
            &&& checker.left_uninit(ty).1 is Unknown
            &&& checker.reports(TypeErrorKind::TypeCannotBeInferred, checker.zeroed(ty).0)
            &&& checker.reports(TypeErrorKind::TypeCannotBeInferred, checker.left_uninit(ty).0)
        },
        !(ty is Unknown) ==> {
            &&& checker.left_uninit(ty) == (checker, ty)
            &&& checker.zero_ok(ty) ==> checker.zeroed(ty) == (checker, ty)
            &&& !checker.zero_ok(ty) ==> checker.zeroed(ty).1 is Unknown && checker.says(
                Message::NotZeroable { ty },
                checker.zeroed(ty).0,
            )
        },
{
    reveal(TypeChecker::zeroed);
    reveal(TypeChecker::left_uninit);
    recording_reports(checker, TypeErrorKind::TypeCannotBeInferred);
    saying_reports(checker, Message::NotZeroable { ty });
}

/// The object of a method has the type declared for it; outside of methods there is none.
pub proof fn methods_have_an_object(checker: TypeChecker, span: SourceSpan)
    requires
        !checker.diagnostics.suppress_errors,
    ensures
        ({
            let (after, ty) = checker.this_checked(span);
            match lookup(checker.context.variables, StrId::Known(Word::This)) {
                Some((_, declared)) => ty == declared && checker.quiet_until(after),
                None => ty is Unknown && checker.says(Message::ThisOutsideMethod, after),
            }
        }),
{
    reveal(TypeChecker::this_checked);
    saying_reports(checker, Message::ThisOutsideMethod);
}

/// The fields that a struct is built without are those declared and not given.
pub proof fn left_out_fields_are_those_not_given(
    fields: List<HirField>,
    inits: List<HirFieldInit>,
    name: StrId,
)
    ensures
        fields_left_out(fields, inits).has(name) == (field_named(fields, name) is Some && !(exists|
            i: int,
        | 0 <= i < inits.seq().len() && inits.seq()[i].name == name)),
    decreases fields,
{
    given_names(inits, name);
    match fields {
        Nil => {},
        Cons(_, _) => {
            left_out_fields_are_those_not_given(fields.rest(), inits, name);
            if fields.head().name == name {
                given_names(inits, name);
            }
        },
    }
}

proof fn given_names(inits: List<HirFieldInit>, name: StrId)
    ensures
        initializes(inits, name) == exists|i: int|
            0 <= i < inits.seq().len() && inits.seq()[i].name == name,
    decreases inits,
{
    match inits {
        Nil => {},
        Cons(_, _) => {
            given_names(inits.rest(), name);
            let all = inits.seq();
            let later = inits.rest().seq();
            assert(all == seq![inits.head()] + later);
            if inits.head().name == name {
                assert(all[0].name == name);
            }
            if exists|i: int| 0 <= i < later.len() && later[i].name == name {
                let i = choose|i: int| 0 <= i < later.len() && later[i].name == name;
                assert(all[i + 1].name == name);
            }
            if exists|i: int| 0 <= i < all.len() && all[i].name == name {
                let i = choose|i: int| 0 <= i < all.len() && all[i].name == name;
                if i > 0 {
                    assert(later[i - 1].name == name);
                }
            }
        },
    }
}

/// A struct is complete where every declared field is given; where not, the missing ones are
/// reported.
pub proof fn structs_need_all_their_fields(
    checker: TypeChecker,
    name: StrId,
    span: SourceSpan,
    def: HirStruct,
    inits: List<HirFieldInit>,
    ty: HirType,
)
    requires
        !checker.diagnostics.suppress_errors,
        lookup(checker.context.struct_owner_module, name) is None,
    ensures
        ({
            let after = checker.struct_built(name, span, def, inits, ty);
            if forall|field: StrId| field_named(def.fields, field) is Some ==> initializes(
                inits,
                field,
            ) {
                after == checker
            } else {
                checker.says(
                    Message::MissingFields { names: fields_left_out(def.fields, inits) },
                    after,
                )
            }
        }),
{
    reveal(TypeChecker::struct_built);
    let names = fields_left_out(def.fields, inits);
    saying_reports(checker, Message::MissingFields { names });
    if let Cons(_, _) = names {
        left_out_fields_are_those_not_given(def.fields, inits, names.head());
        given_names(inits, names.head());
        assert(field_named(def.fields, names.head()) is Some);
    } else {
        assert forall|field: StrId| field_named(def.fields, field) is Some implies initializes(
            inits,
            field,
        ) by {
            left_out_fields_are_those_not_given(def.fields, inits, field);
            given_names(inits, field);
        }
    }
}

/// A call is told how many arguments it has and needs, where the two differ.
pub proof fn argument_counts_must_agree(checker: TypeChecker, expected: usize, found: usize)
    requires
        !checker.diagnostics.suppress_errors,
    ensures
        expected == found ==> checker.counted(expected, found) == checker,
        expected != found ==> checker.reports(
            TypeErrorKind::InvalidFunctionCall { expected_args: expected, found_args: found },
            checker.counted(expected, found),
        ),
{
    recording_reports(
        checker,
        TypeErrorKind::InvalidFunctionCall { expected_args: expected, found_args: found },
    );
}

/// A field of a struct has the type declared for it. A field that is not declared, and a field of
/// what is no struct, is reported. The length of an array or a slice counts as a field.
pub proof fn fields_have_their_declared_type(
    checker: TypeChecker,
    object: HirExpr,
    field: StrId,
    object_ty: HirType,
)
    requires
        !checker.diagnostics.suppress_errors,
        match object_ty {
            HirType::Struct { name, type_args, .. } => {
                &&& type_args is Nil
                &&& lookup(checker.context.struct_owner_module, name) is None
            },
            HirType::Ref { .. } | HirType::SafePointer { .. } | HirType::UnsafePointer { .. }
            | HirType::OwnedPointer { .. } | HirType::Nullable(_) => false,
            _ => true,
        },
    ensures
        ({
            let (after, ty) = checker.field_reached(object, field, object_ty, false);
            match object_ty {
                HirType::Struct { name, .. } => match lookup(checker.context.structs, name) {
                    None => ty is Unknown && checker.reports(
                        TypeErrorKind::UndefinedType(name),
                        after,
                    ),
                    Some(def) => match field_named(def.fields, field) {
                        Some(declared) => field_index(def.fields, field) is Some ==> ty
                            == declared.field_type && checker.quiet_until(after),
                        None => ty is Unknown && checker.reports(
                            TypeErrorKind::FieldNotFound { struct_name: name, field },
                            after,
                        ),
                    },
                },
                _ => if (object_ty is Array || object_ty is Slice) && field == StrId::Known(
                    Word::Len,
                ) {
                    ty is Usize && after == checker
                } else {
                    ty is Unknown && checker.says(
                        Message::FieldOnNonStruct { ty: object_ty },
                        after,
                    )
                },
            }
        }),
{
    reveal(TypeChecker::field_reached);
    saying_reports(checker, Message::FieldOnNonStruct { ty: object_ty });
    if let HirType::Struct { name, .. } = object_ty {
        recording_reports(checker, TypeErrorKind::UndefinedType(name));
        recording_reports(checker, TypeErrorKind::FieldNotFound { struct_name: name, field });
        if let Some(def) = lookup(checker.context.structs, name) {
            named_fields_have_an_index(held(&def).fields, field);
            reveal(TypeChecker::after_field_owner);
        }
    }
}

proof fn named_fields_have_an_index(fields: List<HirField>, name: StrId)
    ensures
        field_named(fields, name) is None ==> field_index(fields, name) is None,
    decreases fields,
{
    match fields {
        Nil => {},
        Cons(_, _) => named_fields_have_an_index(fields.rest(), name),
    }
}

} // verus!
