use std::rc::Rc;

use zeta::errors::{Atomic, FunctionName, Message, TypeErrorKind, TypeText};
use zeta::hir::{
    AssignmentOperator, ExprKind, FlowGraph, FuncSafety, Hir, HirEnum, HirEnumVariant, HirExpr,
    HirField, HirFieldInit, HirFunc, HirGeneric, HirImpl, HirInterface, HirMatchArm, HirModule,
    HirParam, HirPattern, HirStmt, HirStruct, HirType, ImportPath, IntrinsicKind, MutabilityState,
    Operator, ProvenanceAnnotation, ProvenanceRoot, RefKind, SourceSpan, StmtKind, StrId,
    ThisPassingKind, Visibility, Word,
};
use zeta::list::List;
use zeta::program::{Facts, ModuleGraph, TypeShape};
use zeta::type_checker::TypeChecker;

fn id(n: u32) -> StrId {
    StrId::Interned(n)
}

const POINT: u32 = 10;
const X: u32 = 11;
const Y: u32 = 12;
const SHAPE: u32 = 20;
const CIRCLE: u32 = 21;
const DOT: u32 = 22;
const RADIUS: u32 = 23;
const PAIR: u32 = 25;
const T: u32 = 26;
const MAYBE: u32 = 27;
const ADD: u32 = 30;
const RISKY: u32 = 31;
const GENERIC: u32 = 32;
const GREET: u32 = 33;
const BUMP: u32 = 34;
const NAMED: u32 = 35;
const A: u32 = 1;
const B: u32 = 2;
const C: u32 = 3;

fn here() -> SourceSpan {
    SourceSpan { line: 1, column: 1, end_line: 1, end_column: 2 }
}

fn none<T>() -> List<T> {
    List::from_vec(vec![])
}

fn e(kind: ExprKind) -> HirExpr {
    HirExpr { key: 0, kind }
}

fn num(n: i64) -> HirExpr {
    e(ExprKind::Number(n, here()))
}

fn yes() -> HirExpr {
    e(ExprKind::Boolean(true, here()))
}

fn text(n: u32) -> HirExpr {
    e(ExprKind::String(id(n), here()))
}

fn null() -> HirExpr {
    e(ExprKind::Null(here()))
}

fn var(n: u32) -> HirExpr {
    e(ExprKind::Ident(id(n), here()))
}

fn this() -> HirExpr {
    e(ExprKind::This { span: here() })
}

fn binary(left: HirExpr, op: Operator, right: HirExpr) -> HirExpr {
    e(ExprKind::Binary { left: Rc::new(left), op, right: Rc::new(right), span: here() })
}

fn field(object: HirExpr, name: StrId) -> HirExpr {
    e(ExprKind::FieldAccess { object: Rc::new(object), field: name, span: here() })
}

fn index(object: HirExpr, at: HirExpr) -> HirExpr {
    e(ExprKind::Index { object: Rc::new(object), index: Rc::new(at), span: here() })
}

fn slice(object: HirExpr, start: HirExpr, end: HirExpr) -> HirExpr {
    e(ExprKind::Slice {
        object: Rc::new(object),
        start: Rc::new(start),
        end: Rc::new(end),
        inclusive: false,
        span: here(),
    })
}

fn deref(inner: HirExpr) -> HirExpr {
    e(ExprKind::Deref { expr: Rc::new(inner), span: here() })
}

fn reference(inner: HirExpr, ref_kind: RefKind) -> HirExpr {
    e(ExprKind::Ref { expr: Rc::new(inner), ref_kind, span: here() })
}

fn call(callee: HirExpr, args: Vec<HirExpr>) -> HirExpr {
    e(ExprKind::Call {
        callee: Rc::new(callee),
        args: List::from_vec(args),
        span: here(),
        type_args: None,
    })
}

fn call_with(callee: HirExpr, args: Vec<HirExpr>, type_args: Vec<HirType>) -> HirExpr {
    e(ExprKind::Call {
        callee: Rc::new(callee),
        args: List::from_vec(args),
        span: here(),
        type_args: Some(List::from_vec(type_args)),
    })
}

fn intrinsic(kind: IntrinsicKind, type_args: Vec<HirType>, args: Vec<HirExpr>) -> HirExpr {
    e(ExprKind::Intrinsic {
        kind,
        type_args: List::from_vec(type_args),
        args: List::from_vec(args),
        span: here(),
    })
}

fn assign(target: HirExpr, op: AssignmentOperator, value: HirExpr) -> HirExpr {
    e(ExprKind::Assignment { target: Rc::new(target), op, value: Rc::new(value), span: here() })
}

fn set(target: HirExpr, value: HirExpr) -> HirExpr {
    assign(target, AssignmentOperator::Assign, value)
}

fn cast(inner: HirExpr, target_type: HirType) -> HirExpr {
    e(ExprKind::Cast { expr: Rc::new(inner), target_type, span: here() })
}

fn array(elements: Vec<HirExpr>) -> HirExpr {
    e(ExprKind::ArrayLiteral { elements: List::from_vec(elements), span: here() })
}

fn tuple(elements: Vec<HirExpr>) -> HirExpr {
    e(ExprKind::Tuple(List::from_vec(elements), here()))
}

fn uninit(ty: HirType) -> HirExpr {
    e(ExprKind::Uninit { span: here(), ty })
}

fn undefined(ty: HirType) -> HirExpr {
    e(ExprKind::Undefined { span: here(), ty })
}

fn in_unsafe(expr: HirExpr) -> HirExpr {
    e(ExprKind::Block { body: List::from_vec(vec![stmt(expr)]), is_unsafe: true, span: here() })
}

fn init(name: u32, fields: Vec<(u32, HirExpr)>, type_args: Option<Vec<HirType>>) -> HirExpr {
    e(ExprKind::StructInit {
        name: Rc::new(var(name)),
        args: List::from_vec(
            fields
                .into_iter()
                .map(|(name, value)| HirFieldInit { name: id(name), name_span: here(), value })
                .collect(),
        ),
        span: here(),
        type_args: type_args.map(List::from_vec),
    })
}

fn variant(enum_name: u32, name: u32, args: Vec<HirExpr>, type_args: Option<Vec<HirType>>) -> HirExpr {
    e(ExprKind::EnumInit {
        enum_name: id(enum_name),
        variant: id(name),
        args: List::from_vec(args),
        type_args: type_args.map(List::from_vec),
        span: here(),
    })
}

fn matching(subject: HirExpr, patterns: Vec<HirPattern>) -> HirExpr {
    e(ExprKind::Match {
        expr: Rc::new(subject),
        arms: List::from_vec(
            patterns
                .into_iter()
                .map(|pattern| HirMatchArm { pattern, guard: None, body: Rc::new(block(vec![])) })
                .collect(),
        ),
        span: here(),
    })
}

fn s(kind: StmtKind) -> HirStmt {
    HirStmt { key: 0, kind }
}

fn stmt(expr: HirExpr) -> HirStmt {
    s(StmtKind::Expr(Rc::new(expr)))
}

fn block(body: Vec<HirStmt>) -> HirStmt {
    s(StmtKind::Block { body: List::from_vec(body), span: here() })
}

fn bind(name: u32, ty: HirType, value: HirExpr, mutable: bool) -> HirStmt {
    s(StmtKind::Let {
        name: id(name),
        ty,
        value,
        mutable,
        else_block: None,
        span: here(),
        is_static: false,
        catch_pattern: None,
    })
}

fn ret(value: Option<HirExpr>) -> HirStmt {
    s(StmtKind::Return(value.map(Rc::new), here()))
}

fn param(name: u32, param_type: HirType) -> HirParam {
    HirParam::Normal { name: id(name), param_type, multi_place: None, span: here() }
}

fn func(name: u32, params: Vec<HirParam>, result: Option<HirType>, body: Option<HirStmt>) -> HirFunc {
    HirFunc {
        name: id(name),
        unmangled_name: id(name),
        params: Some(List::from_vec(params)),
        return_type: result,
        body: body.map(Rc::new),
        generics: None,
        impl_target: None,
        declaring_module_idx: 0,
        func_safety: FuncSafety::Safe,
        visibility: Visibility::Public,
        span: here(),
        flow: FlowGraph {
            entry: None,
            successors: none(),
            stmt_points: none(),
            stmt_after_points: none(),
        },
    }
}

fn ptr(inner: HirType, mutability_state: MutabilityState) -> HirType {
    HirType::UnsafePointer { inner: Rc::new(inner), mutability_state }
}

fn struct_type(name: u32, fields: Vec<HirType>, args: Vec<HirType>) -> HirType {
    HirType::Struct {
        name: id(name),
        field_types: List::from_vec(fields),
        type_args: List::from_vec(args),
    }
}

fn point_type() -> HirType {
    struct_type(POINT, vec![HirType::I64, HirType::I64], vec![])
}

fn shape_type() -> HirType {
    HirType::Enum { name: id(SHAPE), type_args: none() }
}

fn fields(list: Vec<(u32, HirType)>) -> List<HirField> {
    List::from_vec(
        list.into_iter().map(|(name, field_type)| HirField { name: id(name), field_type }).collect(),
    )
}

fn generic(name: u32) -> Option<List<HirGeneric>> {
    Some(List::from_vec(vec![HirGeneric { name: id(name), constraints: none(), default_type: None }]))
}

fn items() -> Vec<Hir> {
    let point = HirStruct {
        name: id(POINT),
        fields: fields(vec![(X, HirType::I64), (Y, HirType::I64)]),
        generics: None,
    };
    let pair = HirStruct {
        name: id(PAIR),
        fields: fields(vec![(X, HirType::Generic(id(T)))]),
        generics: generic(T),
    };
    let shape = HirEnum {
        name: id(SHAPE),
        variants: List::from_vec(vec![
            HirEnumVariant { name: id(CIRCLE), fields: fields(vec![(RADIUS, HirType::I64)]) },
            HirEnumVariant { name: id(DOT), fields: none() },
        ]),
        generics: None,
    };
    let maybe = HirEnum {
        name: id(MAYBE),
        variants: List::from_vec(vec![
            HirEnumVariant { name: id(CIRCLE), fields: fields(vec![(RADIUS, HirType::Generic(id(T)))]) },
            HirEnumVariant { name: id(DOT), fields: none() },
        ]),
        generics: generic(T),
    };
    let add = func(ADD, vec![param(A, HirType::I64), param(B, HirType::I64)], Some(HirType::I64), None);
    let mut risky = func(RISKY, vec![], None, None);
    risky.func_safety = FuncSafety::Unsafe;
    let mut same = func(GENERIC, vec![param(A, HirType::Generic(id(T)))], None, None);
    same.generics = generic(T);
    let receiver = |kind: ThisPassingKind| HirParam::This { kind, span: here(), multi_place: None };
    let greet = func(GREET, vec![receiver(ThisPassingKind::RefConst)], Some(HirType::I64), None);
    let bump = func(BUMP, vec![receiver(ThisPassingKind::RefMut)], None, None);
    vec![
        Hir::Struct(Rc::new(point)),
        Hir::Struct(Rc::new(pair)),
        Hir::Enum(Rc::new(shape)),
        Hir::Enum(Rc::new(maybe)),
        Hir::Func(Rc::new(add)),
        Hir::Func(Rc::new(risky)),
        Hir::Func(Rc::new(same)),
        Hir::Impl(Rc::new(HirImpl {
            target: id(POINT),
            interface: None,
            methods: Some(List::from_vec(vec![greet, bump])),
        })),
        Hir::Interface(Rc::new(HirInterface { name: id(NAMED), methods: None })),
    ]
}

fn graph() -> ModuleGraph {
    ModuleGraph {
        paths: none(),
        packages: none(),
        items: none(),
        methods: none(),
        members: none(),
        constants: none(),
        functions: none(),
        auto_packages: none(),
        package_types: none(),
        mangled_types: none(),
        slice_types: none(),
    }
}

fn facts() -> Facts {
    Facts {
        coercions: List::from_vec(vec![
            (RefKind::Shared, RefKind::Shared),
            (RefKind::Alias, RefKind::Alias),
            (RefKind::Unique, RefKind::Unique),
            (RefKind::Unique, RefKind::Shared),
        ]),
        pointer_shapes: List::from_vec(vec![
            TypeShape::SharedRef,
            TypeShape::AliasRef,
            TypeShape::UniqueRef,
        ]),
        copy_shapes: List::from_vec(vec![
            TypeShape::Integer,
            TypeShape::Float,
            TypeShape::Boolean,
            TypeShape::Char,
            TypeShape::String,
            TypeShape::Null,
            TypeShape::SharedRef,
            TypeShape::UnsafePointer,
            TypeShape::Array,
            TypeShape::Tuple,
            TypeShape::Nullable,
        ]),
        copy_types: List::from_vec(vec![id(SHAPE)]),
        drop_types: none(),
        name_ranks: none(),
    }
}

fn module(items: Vec<Hir>) -> HirModule {
    HirModule { items: List::from_vec(items), imports: none() }
}

fn fresh() -> TypeChecker {
    let mut checker = TypeChecker::new(graph(), facts(), none());
    checker.register_module(&module(items()), 0);
    checker.context.current_module_idx = 0;
    checker
}

fn kinds(checker: &TypeChecker) -> Vec<TypeErrorKind> {
    let errors = checker.errors();
    let mut found = Vec::new();
    let mut at = 0;
    while let Some(error) = errors.get(at) {
        found.push(error.kind.dup());
        at += 1;
    }
    found
}

fn run(stmts: Vec<HirStmt>) -> Vec<TypeErrorKind> {
    let mut checker = fresh();
    for stmt in &stmts {
        checker.check_stmt(stmt);
    }
    kinds(&checker)
}

fn say(message: Message) -> Vec<TypeErrorKind> {
    vec![TypeErrorKind::Generic(message)]
}

fn mismatch(expected: HirType, found: HirType) -> TypeErrorKind {
    TypeErrorKind::TypeMismatch {
        expected: TypeText::Type(expected),
        found: TypeText::Type(found),
    }
}

fn type_of(expr: HirExpr) -> HirType {
    let mut checker = fresh();
    let ty = checker.check_expr(&expr);
    assert_eq!(kinds(&checker), vec![]);
    ty
}

#[test]
fn literals_have_types() {
    assert_eq!(type_of(num(1)), HirType::I64);
    assert_eq!(type_of(yes()), HirType::Boolean);
    assert_eq!(type_of(text(A)), HirType::String);
    assert_eq!(type_of(null()), HirType::Null);
    assert_eq!(type_of(e(ExprKind::Char('c', here()))), HirType::Char);
    assert_eq!(type_of(e(ExprKind::Decimal(0, here()))), HirType::F64);
    assert_eq!(
        type_of(tuple(vec![num(1), yes()])),
        HirType::Tuple(List::from_vec(vec![HirType::I64, HirType::Boolean]))
    );
    assert_eq!(type_of(array(vec![num(1), num(2)])), HirType::Array(Rc::new(HirType::I64), 2));
    assert_eq!(
        type_of(e(ExprKind::Range {
            start: Rc::new(num(1)),
            end: Rc::new(num(2)),
            inclusive: true,
            span: here(),
        })),
        HirType::Range { elem: Rc::new(HirType::I64), inclusive: true }
    );
}

#[test]
fn operators_have_types() {
    assert_eq!(type_of(binary(num(1), Operator::Add, num(2))), HirType::I64);
    assert_eq!(type_of(binary(num(1), Operator::LessThan, num(2))), HirType::Boolean);
    assert_eq!(type_of(binary(yes(), Operator::LogicalAnd, yes())), HirType::Boolean);
    assert_eq!(type_of(binary(num(1), Operator::Equals, num(1))), HirType::Boolean);
    assert_eq!(type_of(binary(num(1), Operator::BitXor, num(3))), HirType::I64);
}

#[test]
fn operands_must_suit_the_operator() {
    assert_eq!(
        run(vec![stmt(binary(num(1), Operator::Add, yes()))]),
        vec![TypeErrorKind::InvalidBinaryOp {
            op: Operator::Add,
            left: HirType::I64,
            right: HirType::Boolean,
        }]
    );
    assert_eq!(
        run(vec![stmt(binary(num(1), Operator::Other(id(A)), num(1)))]),
        say(Message::OperatorMisplaced { op: Operator::Other(id(A)) })
    );
}

#[test]
fn unknown_names_are_reported() {
    assert_eq!(run(vec![stmt(var(A))]), vec![TypeErrorKind::UndefinedVariable(id(A))]);
    assert_eq!(
        run(vec![stmt(call(var(77), vec![]))]),
        vec![TypeErrorKind::UndefinedFunction(FunctionName::Plain(id(77)))]
    );
    assert_eq!(
        run(vec![stmt(init(77, vec![], None))]),
        vec![TypeErrorKind::UndefinedType(id(77))]
    );
}

#[test]
fn bindings_must_fit_their_type() {
    assert_eq!(run(vec![bind(A, HirType::I64, num(1), false)]), vec![]);
    assert_eq!(run(vec![bind(A, HirType::I32, num(1), false)]), vec![]);
    assert_eq!(
        run(vec![bind(A, HirType::I64, yes(), false)]),
        vec![mismatch(HirType::I64, HirType::Boolean)]
    );
}

#[test]
fn names_are_bound_once() {
    assert_eq!(
        run(vec![bind(A, HirType::I64, num(1), false), bind(A, HirType::I64, num(2), false)]),
        vec![TypeErrorKind::VariableAlreadyExists { var_name: id(A) }]
    );
}

#[test]
fn assignment_needs_a_mutable_target() {
    assert_eq!(
        run(vec![bind(A, HirType::I64, num(1), true), stmt(set(var(A), num(2)))]),
        vec![]
    );
    assert_eq!(
        run(vec![bind(A, HirType::I64, num(1), false), stmt(set(var(A), num(2)))]),
        say(Message::NotDeclaredMut { name: id(A) })
    );
    assert_eq!(
        run(vec![bind(A, HirType::I64, num(1), true), stmt(set(var(A), yes()))]),
        vec![mismatch(HirType::I64, HirType::Boolean)]
    );
    assert_eq!(
        run(vec![
            bind(A, HirType::I64, num(1), true),
            stmt(assign(var(A), AssignmentOperator::AddAssign, num(2))),
        ]),
        vec![]
    );
}

#[test]
fn jumps_belong_in_loops() {
    let stop = || s(StmtKind::Break(None, here()));
    let next = || s(StmtKind::Continue(here()));
    assert_eq!(run(vec![stop()]), vec![TypeErrorKind::BreakOutsideLoop]);
    assert_eq!(run(vec![next()]), vec![TypeErrorKind::ContinueOutsideLoop]);
    let inside = s(StmtKind::While {
        cond: Rc::new(yes()),
        body: Rc::new(block(vec![stop(), next()])),
    });
    assert_eq!(run(vec![inside]), vec![]);
}

#[test]
fn conditions_are_boolean() {
    let odd = s(StmtKind::While { cond: Rc::new(num(1)), body: Rc::new(block(vec![])) });
    assert_eq!(
        run(vec![odd]),
        vec![TypeErrorKind::TypeMismatch {
            expected: TypeText::Bool,
            found: TypeText::Type(HirType::I64),
        }]
    );
}

#[test]
fn functions_return_what_they_declare() {
    let check = |result: Option<HirType>, body: Vec<HirStmt>| {
        let mut checker = fresh();
        checker.check_function(&func(50, vec![param(A, HirType::I64)], result, Some(block(body))));
        kinds(&checker)
    };
    assert_eq!(check(Some(HirType::I64), vec![ret(Some(var(A)))]), vec![]);
    assert_eq!(check(None, vec![ret(None)]), vec![]);
    assert_eq!(
        check(Some(HirType::I64), vec![ret(None)]),
        vec![TypeErrorKind::InvalidReturnType { expected: HirType::I64 }]
    );
    assert_eq!(
        check(Some(HirType::Boolean), vec![ret(Some(var(A)))]),
        vec![mismatch(HirType::Boolean, HirType::I64)]
    );
}

#[test]
fn calls_take_the_declared_arguments() {
    assert_eq!(type_of(call(var(ADD), vec![num(1), num(2)])), HirType::I64);
    assert_eq!(
        run(vec![stmt(call(var(ADD), vec![num(1)]))]),
        vec![TypeErrorKind::InvalidFunctionCall { expected_args: 2, found_args: 1 }]
    );
    assert_eq!(
        run(vec![stmt(call(var(ADD), vec![num(1), yes()]))]),
        vec![mismatch(HirType::I64, HirType::Boolean)]
    );
    assert_eq!(
        run(vec![bind(A, HirType::I64, num(1), false), stmt(call(var(A), vec![]))]),
        say(Message::NotCallable { ty: HirType::I64 })
    );
    assert_eq!(
        run(vec![stmt(call_with(var(ADD), vec![num(1), num(1)], vec![HirType::I64]))]),
        say(Message::FunctionNotGeneric { name: id(ADD) })
    );
    assert_eq!(
        run(vec![stmt(call_with(
            var(GENERIC),
            vec![num(1)],
            vec![HirType::I64, HirType::I64]
        ))]),
        say(Message::FunctionTypeArgCount { name: id(GENERIC), expected: 1, found: 2 })
    );
    assert_eq!(run(vec![stmt(call(var(GENERIC), vec![num(1)]))]), vec![]);
}

#[test]
fn unsafe_functions_need_unsafe_blocks() {
    assert_eq!(
        run(vec![stmt(call(var(RISKY), vec![]))]),
        say(Message::UnsafeCall { name: id(RISKY) })
    );
    assert_eq!(run(vec![stmt(in_unsafe(call(var(RISKY), vec![])))]), vec![]);
}

fn a_point() -> HirExpr {
    init(POINT, vec![(X, num(1)), (Y, num(2))], None)
}

#[test]
fn structs_have_all_fields_once() {
    assert_eq!(type_of(a_point()), point_type());
    assert_eq!(
        run(vec![stmt(init(POINT, vec![(X, num(1))], None))]),
        say(Message::MissingFields { names: List::from_vec(vec![id(Y)]) })
    );
    assert_eq!(
        run(vec![stmt(init(POINT, vec![(X, num(1)), (Y, num(1)), (X, num(2))], None))]),
        say(Message::FieldInitializedTwice { field: id(X) })
    );
    assert_eq!(
        run(vec![stmt(init(POINT, vec![(X, yes()), (Y, num(1))], None))]),
        vec![mismatch(HirType::I64, HirType::Boolean)]
    );
    assert_eq!(
        run(vec![stmt(init(POINT, vec![(X, num(1)), (Y, num(1)), (C, num(1))], None))]),
        vec![TypeErrorKind::FieldNotFound { struct_name: id(POINT), field: id(C) }]
    );
    assert_eq!(
        run(vec![stmt(init(POINT, vec![(X, num(1)), (Y, num(1))], Some(vec![HirType::I64])))]),
        say(Message::StructNotGeneric { name: id(POINT) })
    );
    assert_eq!(
        run(vec![stmt(init(PAIR, vec![(X, num(1))], Some(vec![HirType::I64, HirType::I64])))]),
        say(Message::StructTypeArgCount { name: id(PAIR), expected: 1, found: 2 })
    );
}

#[test]
fn fields_are_found_in_structs() {
    assert_eq!(type_of(field(a_point(), id(X))), HirType::I64);
    assert_eq!(
        run(vec![stmt(field(a_point(), id(C)))]),
        vec![TypeErrorKind::FieldNotFound { struct_name: id(POINT), field: id(C) }]
    );
    assert_eq!(
        run(vec![stmt(field(num(1), id(X)))]),
        say(Message::FieldOnNonStruct { ty: HirType::I64 })
    );
}

#[test]
fn enums_have_variants() {
    assert_eq!(type_of(variant(SHAPE, CIRCLE, vec![num(1)], None)), shape_type());
    assert_eq!(
        run(vec![stmt(variant(SHAPE, C, vec![], None))]),
        say(Message::NoSuchVariant { enum_name: id(SHAPE), variant: id(C) })
    );
    assert_eq!(
        run(vec![stmt(variant(SHAPE, DOT, vec![], Some(vec![HirType::I64])))]),
        say(Message::EnumNotGeneric { name: id(SHAPE) })
    );
    assert_eq!(
        run(vec![stmt(variant(MAYBE, CIRCLE, vec![num(1)], Some(vec![HirType::I64, HirType::I64])))]),
        say(Message::EnumTypeArgCount { name: id(MAYBE), expected: 1, found: 2 })
    );
}

#[test]
fn methods_are_found_by_type() {
    assert_eq!(type_of(call(field(a_point(), id(GREET)), vec![])), HirType::I64);
    let errors = run(vec![
        bind(A, point_type(), a_point(), false),
        stmt(call(field(var(A), id(BUMP)), vec![])),
    ]);
    assert_eq!(errors, say(Message::ReceiverNotMut { method: id(BUMP), root: id(A) }));
    assert_eq!(
        run(vec![
            bind(A, point_type(), a_point(), true),
            stmt(call(field(var(A), id(BUMP)), vec![])),
        ]),
        vec![]
    );
}

#[test]
fn only_indexable_types_are_indexed() {
    assert_eq!(type_of(index(array(vec![num(1)]), num(0))), HirType::I64);
    assert_eq!(
        run(vec![stmt(index(num(1), num(0)))]),
        say(Message::CannotIndex { ty: HirType::I64 })
    );
    assert_eq!(
        run(vec![stmt(index(array(vec![num(1)]), yes()))]),
        vec![mismatch(HirType::I64, HirType::Boolean)]
    );
    assert_eq!(
        type_of(slice(array(vec![num(1)]), num(0), num(1))),
        HirType::Slice(Rc::new(HirType::I64))
    );
    assert_eq!(
        run(vec![stmt(slice(num(1), num(0), num(1)))]),
        say(Message::CannotSlice { ty: HirType::I64 })
    );
    assert_eq!(
        run(vec![stmt(slice(array(vec![num(1)]), yes(), num(1)))]),
        say(Message::SliceBoundsNotIntegers)
    );
    assert_eq!(run(vec![stmt(array(vec![]))]), vec![TypeErrorKind::TypeCannotBeInferred]);
}

#[test]
fn ranges_have_integer_bounds() {
    let range = e(ExprKind::Range {
        start: Rc::new(yes()),
        end: Rc::new(yes()),
        inclusive: false,
        span: here(),
    });
    assert_eq!(
        run(vec![stmt(range)]),
        say(Message::RangeBoundsNotIntegers { ty: HirType::Boolean })
    );
}

#[test]
fn only_pointers_are_followed() {
    assert_eq!(
        run(vec![stmt(deref(num(1)))]),
        say(Message::CannotDeref { ty: HirType::I64 })
    );
    let follow = |ty: HirType, expr: HirExpr| {
        let mut checker = fresh();
        checker.check_function(&func(50, vec![param(A, ty)], None, Some(block(vec![stmt(expr)]))));
        kinds(&checker)
    };
    let raw = || HirType::SafePointer {
        inner: Rc::new(HirType::I64),
        mutability_state: MutabilityState::Const,
    };
    let wild = || ptr(HirType::I64, MutabilityState::Const);
    assert_eq!(follow(raw(), deref(var(A))), say(Message::RawDerefNeedsUnsafe));
    assert_eq!(follow(wild(), deref(var(A))), say(Message::UnsafeDerefNeedsUnsafe));
    assert_eq!(follow(raw(), in_unsafe(deref(var(A)))), vec![]);
    assert_eq!(follow(wild(), in_unsafe(deref(var(A)))), vec![]);
    assert_eq!(follow(raw(), index(var(A), num(0))), say(Message::RawIndexNeedsUnsafe));
    assert_eq!(follow(wild(), index(var(A), num(0))), say(Message::UnsafeIndexNeedsUnsafe));
}

#[test]
fn casts_follow_rules() {
    assert_eq!(type_of(cast(num(1), HirType::U8)), HirType::U8);
    assert_eq!(
        run(vec![stmt(cast(a_point(), HirType::I64))]),
        say(Message::NoCast { source: point_type(), target: HirType::I64 })
    );
}

#[test]
fn conditional_values_need_both_branches() {
    let value = e(ExprKind::If {
        if_stmt: Rc::new(s(StmtKind::If {
            cond: yes(),
            then_block: none(),
            else_block: None,
            span: here(),
        })),
        span: here(),
    });
    assert_eq!(run(vec![stmt(value)]), say(Message::IfNeedsElse));
}

#[test]
fn this_belongs_in_methods() {
    assert_eq!(run(vec![stmt(this())]), say(Message::ThisOutsideMethod));
}

#[test]
fn unknown_intrinsics_are_reported() {
    let odd = e(ExprKind::UnknownIntrinsic { span: here(), name: id(A) });
    assert_eq!(run(vec![stmt(odd)]), say(Message::UnknownIntrinsic { name: id(A) }));
}

#[test]
fn matches_cover_every_case() {
    assert_eq!(
        run(vec![stmt(matching(yes(), vec![HirPattern::Boolean(true)]))]),
        say(Message::NonExhaustiveBool)
    );
    assert_eq!(
        run(vec![stmt(matching(
            yes(),
            vec![HirPattern::Boolean(true), HirPattern::Boolean(false)]
        ))]),
        vec![]
    );
    assert_eq!(
        run(vec![stmt(matching(num(1), vec![HirPattern::Number(1)]))]),
        say(Message::NeedsCatchAll { ty: HirType::I64 })
    );
    assert_eq!(
        run(vec![stmt(matching(num(1), vec![HirPattern::Number(1), HirPattern::Wildcard]))]),
        vec![]
    );
    let dot = || variant(SHAPE, DOT, vec![], None);
    let only = |name: u32, bindings: Vec<StrId>| HirPattern::EnumVariant {
        variant: id(name),
        bindings: List::from_vec(bindings),
    };
    assert_eq!(
        run(vec![stmt(matching(dot(), vec![only(DOT, vec![])]))]),
        say(Message::MissingVariants {
            enum_name: id(SHAPE),
            names: List::from_vec(vec![id(CIRCLE)]),
        })
    );
    assert_eq!(
        run(vec![stmt(matching(dot(), vec![only(DOT, vec![]), only(CIRCLE, vec![id(B)])]))]),
        vec![]
    );
    let maybe = HirType::Nullable(Rc::new(HirType::I64));
    let errors = run(vec![
        bind(A, maybe.dup(), num(1), false),
        stmt(matching(var(A), vec![HirPattern::Number(1)])),
    ]);
    assert!(errors.contains(&TypeErrorKind::Generic(Message::MissingNullArm { ty: maybe })));
}

#[test]
fn patterns_fit_what_they_match() {
    let pair = || tuple(vec![num(1), yes()]);
    let wrong = |pattern: HirPattern, subject: HirExpr| {
        run(vec![stmt(matching(subject, vec![pattern, HirPattern::Wildcard]))])
    };
    assert_eq!(
        wrong(HirPattern::Tuple(List::from_vec(vec![HirPattern::Wildcard])), pair()),
        say(Message::TuplePatternLength { pattern: 1, elems: 2 })
    );
    assert_eq!(
        wrong(HirPattern::Array(List::from_vec(vec![HirPattern::Wildcard])), array(vec![num(1), num(2)])),
        say(Message::ArrayPatternLength {
            pattern: 1,
            ty: HirType::Array(Rc::new(HirType::I64), 2),
            len: 2,
        })
    );
    assert_eq!(wrong(HirPattern::Or(none()), num(1)), say(Message::EmptyOrPattern));
    assert_eq!(
        wrong(
            HirPattern::EnumVariant { variant: id(CIRCLE), bindings: none() },
            variant(SHAPE, DOT, vec![], None)
        ),
        say(Message::VariantFieldCount {
            enum_name: id(SHAPE),
            variant: id(CIRCLE),
            fields: 1,
            bound: 0,
        })
    );
    assert_eq!(
        wrong(
            HirPattern::EnumVariant { variant: id(C), bindings: none() },
            variant(SHAPE, DOT, vec![], None)
        ),
        say(Message::NoSuchVariant { enum_name: id(SHAPE), variant: id(C) })
    );
    let mixed = HirPattern::Or(List::from_vec(vec![HirPattern::Ident(id(A)), HirPattern::Number(1)]));
    assert_eq!(
        wrong(mixed, num(1)),
        say(Message::OrPatternBindings {
            expected: List::from_vec(vec![id(A)]),
            found: none(),
        })
    );
    assert_eq!(
        wrong(HirPattern::Boolean(true), num(1)),
        vec![TypeErrorKind::TypeMismatch {
            expected: TypeText::Type(HirType::I64),
            found: TypeText::Bool,
        }]
    );
}

#[test]
fn values_are_read_once_initialized() {
    assert_eq!(
        run(vec![bind(A, HirType::I64, uninit(HirType::I64), true), stmt(var(A))]),
        say(Message::UninitValue { name: id(A) })
    );
    assert_eq!(
        run(vec![
            bind(A, HirType::I64, uninit(HirType::I64), true),
            stmt(set(var(A), num(1))),
            stmt(var(A)),
        ]),
        vec![]
    );
    let again = s(StmtKind::While {
        cond: Rc::new(yes()),
        body: Rc::new(block(vec![stmt(var(A)), stmt(set(var(A), num(1)))])),
    });
    assert_eq!(
        run(vec![bind(A, HirType::I64, uninit(HirType::I64), true), again]),
        say(Message::MaybeUninitValue { name: id(A) })
    );
}

#[test]
fn fields_are_initialized_one_by_one() {
    let start = || bind(A, point_type(), uninit(point_type()), true);
    assert_eq!(
        run(vec![start(), stmt(set(field(var(A), id(X)), num(1))), stmt(field(var(A), id(X)))]),
        vec![]
    );
    assert_eq!(
        run(vec![start(), stmt(set(field(var(A), id(X)), num(1))), stmt(field(var(A), id(Y)))]),
        say(Message::UninitPath { root: id(A), path: List::from_vec(vec![id(Y)]) })
    );
}

#[test]
fn elements_are_initialized_one_by_one() {
    let ty = HirType::Array(Rc::new(HirType::I64), 2);
    let start = || bind(A, ty.dup(), uninit(ty.dup()), true);
    assert_eq!(
        run(vec![start(), stmt(set(index(var(A), num(0)), num(1))), stmt(index(var(A), num(0)))]),
        vec![]
    );
    assert_eq!(
        run(vec![start(), stmt(set(index(var(A), num(0)), num(1))), stmt(index(var(A), num(1)))]),
        say(Message::UninitElement { root: id(A), index: 1 })
    );
    assert_eq!(
        run(vec![
            start(),
            bind(B, HirType::I64, num(0), false),
            stmt(index(var(A), var(B))),
        ]),
        say(Message::IndexNeedsWhole { root: id(A) })
    );
    assert_eq!(
        run(vec![start(), stmt(slice(var(A), num(0), num(2)))]),
        say(Message::UninitRange { root: id(A), start: 0, end: 2 })
    );
    assert_eq!(
        run(vec![
            start(),
            bind(B, HirType::I64, num(0), false),
            stmt(slice(var(A), num(0), var(B))),
        ]),
        say(Message::SliceNeedsWhole { root: id(A) })
    );
}

#[test]
fn values_are_moved_once() {
    assert_eq!(
        run(vec![
            bind(A, point_type(), a_point(), false),
            bind(B, point_type(), var(A), false),
            bind(C, point_type(), var(A), false),
        ]),
        say(Message::MovedValue { root: id(A) })
    );
    assert_eq!(
        run(vec![
            bind(A, HirType::I64, num(1), false),
            bind(B, HirType::I64, var(A), false),
            bind(C, HirType::I64, var(A), false),
        ]),
        vec![]
    );
}

#[test]
fn zeroed_values_have_zeroable_types() {
    assert_eq!(type_of(undefined(HirType::I64)), HirType::I64);
    let reference =
        HirType::Ref { inner: Rc::new(HirType::I64), ref_kind: RefKind::Shared, provenance: None };
    assert_eq!(
        run(vec![stmt(undefined(reference.dup()))]),
        say(Message::NotZeroable { ty: reference })
    );
}

#[test]
fn else_is_for_nullable_values() {
    let binding = s(StmtKind::Let {
        name: id(A),
        ty: HirType::I64,
        value: num(1),
        mutable: false,
        else_block: Some(Rc::new(block(vec![]))),
        span: here(),
        is_static: false,
        catch_pattern: None,
    });
    assert_eq!(run(vec![binding]), say(Message::ElseOnNonNullable { ty: HirType::I64 }));
}

#[test]
fn intrinsics_take_their_arguments() {
    let of = |kind: IntrinsicKind, types: Vec<HirType>, args: Vec<HirExpr>| {
        run(vec![stmt(intrinsic(kind, types, args))])
    };
    assert_eq!(
        of(IntrinsicKind::Unreachable, vec![HirType::I64], vec![]),
        say(Message::UnreachableNoTypeArgs)
    );
    assert_eq!(of(IntrinsicKind::Unreachable, vec![], vec![num(1)]), say(Message::UnreachableNoArgs));
    assert_eq!(of(IntrinsicKind::SizeOf, vec![HirType::I64], vec![]), vec![]);
    assert_eq!(of(IntrinsicKind::SizeOf, vec![], vec![]), say(Message::OneTypeArg { found: 0 }));
    assert_eq!(of(IntrinsicKind::AlignOf, vec![HirType::I64], vec![num(1)]), say(Message::NoValueArgs));
    assert_eq!(of(IntrinsicKind::CpuRelax, vec![], vec![num(1)]), say(Message::CpuRelaxNoArgs));
    assert_eq!(
        of(IntrinsicKind::Reinterpret, vec![], vec![num(1)]),
        say(Message::ReinterpretTypeArgCount { found: 0 })
    );
    assert_eq!(
        of(IntrinsicKind::Own, vec![], vec![]),
        say(Message::OwnArgCount { found: 0 })
    );
    let errors = of(IntrinsicKind::Reinterpret, vec![HirType::U64], vec![num(1)]);
    assert!(errors.contains(&TypeErrorKind::Generic(Message::ReinterpretNeedsUnsafe)));
    let errors = of(IntrinsicKind::AtomicLoadU32, vec![], vec![num(1)]);
    assert!(errors.contains(&TypeErrorKind::Generic(Message::AtomicNeedsUnsafe { atomic: Atomic::Load })));
    assert!(errors.contains(&TypeErrorKind::Generic(Message::AtomicNeedsPointer {
        atomic: Atomic::Load,
        ty: HirType::I64,
    })));
    let errors = of(IntrinsicKind::AssertAlign, vec![], vec![num(1), num(3)]);
    assert!(errors.contains(&TypeErrorKind::Generic(Message::AlignNeedsPointer { ty: HirType::I64 })));
    assert!(errors.contains(&TypeErrorKind::Generic(Message::AlignNotPowerOfTwo { value: 3 })));
    let errors = of(IntrinsicKind::Replace, vec![HirType::I64], vec![num(1), num(2)]);
    assert!(errors.contains(&TypeErrorKind::Generic(Message::ReplaceNoTypeArgs)));
    let errors = of(IntrinsicKind::Replace, vec![], vec![num(1), num(2)]);
    assert!(errors.contains(&TypeErrorKind::Generic(Message::ReplaceNeedsPlace)));
    let errors = of(IntrinsicKind::Own, vec![], vec![num(1), num(1)]);
    assert!(errors.contains(&TypeErrorKind::Generic(Message::OwnNeedsPointer { ty: HirType::I64 })));
}

#[test]
fn imports_lead_to_modules() {
    let path = || List::from_vec(vec![id(A), id(B)]);
    assert_eq!(
        run(vec![s(StmtKind::Import(path(), here()))]),
        say(Message::UnresolvedImport { path: path() })
    );
    assert_eq!(
        run(vec![s(StmtKind::Package(path(), here()))]),
        say(Message::UnresolvedPackage { path: path() })
    );
    let mut checker = TypeChecker::new(graph(), facts(), none());
    checker.register_module(
        &HirModule {
            items: none(),
            imports: List::from_vec(vec![ImportPath { path: path(), member: None }]),
        },
        0,
    );
    assert_eq!(kinds(&checker), say(Message::UnresolvedImport { path: path() }));
}

#[test]
fn functions_are_declared_once() {
    let mut checker = TypeChecker::new(graph(), facts(), none());
    let twice = || Hir::Func(Rc::new(func(ADD, vec![], None, None)));
    checker.register_module(&module(vec![twice(), twice()]), 0);
    assert_eq!(kinds(&checker), say(Message::DuplicateFunction { name: id(ADD) }));
}

#[test]
fn copied_types_have_no_destructor() {
    let mut all = items();
    for word in [Word::Copy, Word::Drop] {
        all.push(Hir::Impl(Rc::new(HirImpl {
            target: id(POINT),
            interface: Some(StrId::Known(word)),
            methods: None,
        })));
    }
    let whole = module(all);
    let mut checker = TypeChecker::new(graph(), facts(), none());
    checker.register_module(&whole, 0);
    checker.check_module_body(&whole, 0);
    let found = kinds(&checker);
    assert!(
        found.contains(&TypeErrorKind::Generic(Message::CopyAndDrop { name: id(POINT) })),
        "{:?}",
        found
    );
}

#[test]
fn pointers_to_locals_do_not_leave() {
    let result = HirType::Ref {
        inner: Rc::new(HirType::I64),
        ref_kind: RefKind::Shared,
        provenance: None,
    };
    let check = |body: Vec<HirStmt>| {
        let mut checker = fresh();
        checker.check_function(&func(50, vec![], Some(result.dup()), Some(block(body))));
        kinds(&checker)
    };
    let local = || bind(B, HirType::I64, num(1), false);
    let direct = check(vec![local(), ret(Some(reference(var(B), RefKind::Shared)))]);
    assert!(
        direct.contains(&TypeErrorKind::Generic(Message::PointerToLocal { name: id(B) })),
        "{:?}",
        direct
    );
    let held = check(vec![
        local(),
        bind(C, result.dup(), reference(var(B), RefKind::Shared), false),
        ret(Some(var(C))),
    ]);
    assert!(
        held.contains(&TypeErrorKind::Generic(Message::ReturnsDangling { name: id(C) })),
        "{:?}",
        held
    );
}

#[test]
fn errors_are_taken_once() {
    let mut checker = fresh();
    checker.check_stmt(&stmt(var(A)));
    assert!(checker.has_errors());
    assert_eq!(checker.take_errors().len(), 1);
    assert!(!checker.has_errors());
    assert!(checker.take_errors().is_empty());
}

#[test]
fn occurrences_are_noted_in_order() {
    let mut checker = fresh();
    checker.check_stmt(&bind(A, HirType::I64, num(1), false));
    checker.check_stmt(&stmt(var(A)));
    let occurrences = checker.occurrences();
    assert_eq!(occurrences.len(), 2);
    let first = occurrences.get(0).unwrap();
    let second = occurrences.get(1).unwrap();
    assert!(first.is_declaration);
    assert!(!second.is_declaration);
    assert_eq!(first.symbol, second.symbol);
    assert_eq!(first.name, id(A));
    assert_eq!(second.ty, HirType::I64);
}

#[test]
fn known_words_are_not_names_of_the_source() {
    assert_ne!(StrId::Known(Word::Len), id(0));
    let provenance = ProvenanceAnnotation { root: ProvenanceRoot::ThisRoot, path: none() };
    assert_eq!(provenance.dup(), provenance);
}

fn nested_type() -> HirType {
    struct_type(40, vec![point_type(), point_type()], vec![])
}

fn with_line() -> TypeChecker {
    let mut all = items();
    all.push(Hir::Struct(Rc::new(HirStruct {
        name: id(40),
        fields: fields(vec![(41, point_type()), (42, point_type())]),
        generics: None,
    })));
    let fill_body = block(vec![stmt(set(deref(var(A)), num(7)))]);
    let fill = func(
        43,
        vec![param(
            A,
            HirType::Ref { inner: Rc::new(HirType::I64), ref_kind: RefKind::Unique, provenance: None },
        )],
        None,
        Some(fill_body),
    );
    all.push(Hir::Func(Rc::new(fill)));
    let mut checker = TypeChecker::new(graph(), facts(), none());
    checker.register_module(&module(all), 0);
    checker.context.current_module_idx = 0;
    checker
}

fn accepted(stmts: Vec<HirStmt>) {
    let mut checker = with_line();
    for stmt in &stmts {
        checker.check_stmt(stmt);
    }
    assert_eq!(kinds(&checker), vec![]);
}

fn int_uninit(name: u32) -> HirStmt {
    bind(name, HirType::I64, uninit(HirType::I64), true)
}

#[test]
fn scalar_is_written_then_read() {
    accepted(vec![int_uninit(A), stmt(set(var(A), num(42))), stmt(var(A))]);
    accepted(vec![
        int_uninit(A),
        stmt(set(var(A), num(1))),
        stmt(set(var(A), num(2))),
        stmt(var(A)),
    ]);
}

#[test]
fn both_branches_initialize() {
    let branches = s(StmtKind::If {
        cond: yes(),
        then_block: List::from_vec(vec![stmt(set(var(A), num(10)))]),
        else_block: Some(Rc::new(block(vec![stmt(set(var(A), num(20)))]))),
        span: here(),
    });
    accepted(vec![int_uninit(A), branches, stmt(var(A))]);
}

#[test]
fn nested_fields_are_initialized() {
    let at = |outer: u32, inner: u32| field(field(var(A), id(outer)), id(inner));
    accepted(vec![
        bind(A, nested_type(), uninit(nested_type()), true),
        stmt(set(at(41, X), num(0))),
        stmt(set(at(41, Y), num(0))),
        stmt(set(at(42, X), num(5))),
        stmt(set(at(42, Y), num(5))),
        bind(B, HirType::I64, binary(at(42, X), Operator::Subtract, at(41, X)), false),
    ]);
}

#[test]
fn array_elements_are_initialized_then_borrowed() {
    let ty = || HirType::Array(Rc::new(HirType::I64), 2);
    let unique = HirType::Ref {
        inner: Rc::new(HirType::I64),
        ref_kind: RefKind::Unique,
        provenance: None,
    };
    accepted(vec![
        bind(A, ty(), uninit(ty()), true),
        stmt(set(index(var(A), num(0)), num(100))),
        stmt(set(index(var(A), num(1)), num(200))),
        bind(B, HirType::I64, index(var(A), num(1)), false),
        bind(C, unique, reference(index(var(A), num(1)), RefKind::Unique), false),
        stmt(set(deref(var(C)), num(30))),
    ]);
}

#[test]
fn callee_initializes_what_it_borrows() {
    accepted(vec![
        int_uninit(B),
        stmt(call(var(43), vec![reference(var(B), RefKind::Unique)])),
        stmt(var(B)),
    ]);
}

#[test]
fn initialized_values_are_moved_out() {
    accepted(vec![
        bind(A, point_type(), uninit(point_type()), true),
        stmt(set(field(var(A), id(X)), num(9))),
        stmt(set(field(var(A), id(Y)), num(9))),
        bind(B, point_type(), var(A), false),
        stmt(field(var(B), id(X))),
    ]);
}
