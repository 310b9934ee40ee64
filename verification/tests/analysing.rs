use std::rc::Rc;

use zeta::alphabet::{is_earlier, rank_names};
use zeta::borrow::{BorrowError, BorrowOp, Bound, Place as BorrowPlace};
use zeta::closures::UseLevel;
use zeta::compiler::instances_settled;
use zeta::errors::{BareImportKind, FunctionName, Message, TypeErrorKind, TypeText};
use zeta::hir::{
    AssignmentOperator, ExprKind, Hir, HirExpr, HirField, HirModule, HirPattern, HirStmt, HirStruct,
    HirType, MutabilityState, Operator, ProvenanceAnnotation, ProvenanceRoot, RefKind, SourceSpan,
    StmtKind, StrId, Visibility, Word,
};
use zeta::initialization::{BindingMode, InitNode, InitStatus, IntervalSet};
use zeta::list::{find, remove, update, List, Table};
use zeta::move_state::MoveState;
use zeta::naming::{describe_failed_step, mangle_function_name, type_to_string, Text};
use zeta::program::{Facts, ModuleGraph, ModuleImports};
use zeta::rendering::str_id_to_string;
use zeta::type_checker::{Event, TypeChecker};
use zeta::type_context::{LocalSymbolId, SymbolId};

fn id(n: u32) -> StrId {
    StrId::Interned(n)
}

fn none<T>() -> List<T> {
    List::from_vec(vec![])
}

fn here() -> SourceSpan {
    SourceSpan { line: 1, column: 1, end_line: 1, end_column: 2 }
}

fn set(ranges: Vec<(i64, i64)>) -> IntervalSet {
    let mut result = IntervalSet::default();
    for (start, end) in ranges {
        result.insert(start, end);
    }
    result
}

#[test]
fn ranges_merge_where_they_touch() {
    assert_eq!(set(vec![(0, 2), (4, 6)]).ranges, List::from_vec(vec![(0i64, 2i64), (4, 6)]));
    assert_eq!(set(vec![(0, 2), (2, 4)]).ranges, List::from_vec(vec![(0i64, 4i64)]));
    assert_eq!(set(vec![(4, 6), (0, 2), (1, 5)]).ranges, List::from_vec(vec![(0i64, 6i64)]));
    assert_eq!(set(vec![(0, 2), (4, 6), (8, 9), (1, 8)]).ranges, List::from_vec(vec![(0i64, 9i64)]));
}

#[test]
fn ranges_are_contained() {
    let held = set(vec![(0, 4), (6, 8)]);
    assert!(held.contains_range(1, 4));
    assert!(!held.contains_range(3, 7));
    assert!(held.contains_range(6, 8));
    assert!(!held.contains_range(6, 9));
    assert!(set(vec![(0, 3), (3, 5)]).covers_full(5));
    assert!(!set(vec![(0, 3), (4, 5)]).covers_full(5));
    assert!(!set(vec![(1, 5)]).covers_full(5));
}

#[test]
fn common_ranges_are_in_both() {
    let left = set(vec![(0, 4), (6, 10)]);
    let right = set(vec![(2, 7), (9, 12)]);
    let both = left.intersect(&right);
    assert_eq!(both.ranges, List::from_vec(vec![(2i64, 4i64), (6, 7), (9, 10)]));
    assert_eq!(right.intersect(&left), both);
    assert_eq!(left.intersect(&left), left);
    assert_eq!(left.intersect(&IntervalSet::default()), IntervalSet::default());
}

#[test]
fn single_elements_are_removed() {
    let mut held = set(vec![(0, 4)]);
    held.remove(2);
    assert_eq!(held.ranges, List::from_vec(vec![(0i64, 2i64), (3, 4)]));
    held.remove(0);
    held.remove(9);
    assert_eq!(held.ranges, List::from_vec(vec![(1i64, 2i64), (3, 4)]));
}

#[test]
fn moves_add_up() {
    let mut left = MoveState::new();
    left.mark_whole_moved(id(1));
    let mut right = MoveState::new();
    right.mark_field_moved(id(2), id(3));
    let both = MoveState::join(&left, &right);
    assert!(both.blocks_whole_use(id(1)));
    assert!(both.blocks_whole_use(id(2)));
    assert!(both.is_field_moved(id(1), id(9)));
    assert!(both.is_field_moved(id(2), id(3)));
    assert!(!both.is_field_moved(id(2), id(4)));
    assert!(!both.blocks_whole_use(id(5)));
    assert!(both.is_superset_of(&left));
    assert!(both.is_superset_of(&right));
    assert!(!left.is_superset_of(&right));
}

fn whole(status: InitStatus) -> InitNode {
    InitNode::Whole(status)
}

#[test]
fn initialization_is_joined() {
    let init = || whole(InitStatus::Initialized);
    let uninit = || whole(InitStatus::Uninitialized);
    assert_eq!(TypeChecker::join_nodes(&init(), &init()), init());
    assert_eq!(TypeChecker::join_nodes(&init(), &uninit()), whole(InitStatus::Maybe));
    assert_eq!(TypeChecker::join_nodes(&uninit(), &uninit()), uninit());
    let left = InitNode::Array { ranges: set(vec![(0, 3)]), len: Some(4) };
    let right = InitNode::Array { ranges: set(vec![(1, 4)]), len: Some(4) };
    assert_eq!(
        TypeChecker::join_nodes(&left, &right),
        InitNode::Array { ranges: set(vec![(1, 3)]), len: Some(4) }
    );
}

#[test]
fn parts_are_put_and_found() {
    let path = List::from_vec(vec![id(1), id(2)]);
    let start = whole(InitStatus::Uninitialized);
    let put = TypeChecker::replace_node_at_path(&start, &path, whole(InitStatus::Initialized));
    assert_eq!(TypeChecker::node_at_path(&put, &path), whole(InitStatus::Initialized));
    assert_eq!(TypeChecker::status_at_path(&put, &path), InitStatus::Initialized);
    let other = List::from_vec(vec![id(1), id(3)]);
    assert_eq!(TypeChecker::status_at_path(&put, &other), InitStatus::Uninitialized);
    let complete = whole(InitStatus::Initialized);
    assert_eq!(TypeChecker::status_at_path(&complete, &path), InitStatus::Initialized);
}

fn fresh() -> TypeChecker {
    TypeChecker::new(
        ModuleGraph {
            paths: none(),
            packages: none(),
            items: none(),
            methods: none(),
            members: none(),
            constants: none(),
            functions: none(),
            auto_packages: none(),
            package_types: none(),
            mangled_types: none(),
            slice_types: none(),
        },
        Facts {
            coercions: none(),
            pointer_shapes: none(),
            copy_shapes: none(),
            copy_types: none(),
            drop_types: none(),
            name_ranks: none(),
        },
        none(),
    )
}

#[test]
fn clearing_forgets_what_lies_below() {
    let mut checker = fresh();
    let a = List::from_vec(vec![id(1)]);
    let ab = List::from_vec(vec![id(1), id(2)]);
    let c = List::from_vec(vec![id(3)]);
    for path in [&a, &ab, &c] {
        checker.mark_non_null(id(9), path);
    }
    assert!(checker.is_non_null(id(9), &ab));
    checker.clear_non_null(id(9), &a);
    assert!(!checker.is_non_null(id(9), &a));
    assert!(!checker.is_non_null(id(9), &ab));
    assert!(checker.is_non_null(id(9), &c));
    assert!(!checker.is_non_null(id(8), &c));
}

#[test]
fn knowledge_survives_on_both_paths_only() {
    let mut left = fresh();
    let mut right = fresh();
    let a = List::from_vec(vec![id(1)]);
    let b = List::from_vec(vec![id(2)]);
    left.mark_non_null(id(9), &a);
    left.mark_non_null(id(9), &b);
    right.mark_non_null(id(9), &b);
    right.mark_non_null(id(7), &a);
    let joined = TypeChecker::join_non_null_states(&left.flow.non_null, &right.flow.non_null);
    assert_eq!(joined, List::from_vec(vec![(id(9), List::from_vec(vec![b.dup()]))]));
}

#[test]
fn comparisons_with_null_say_something() {
    let checker = fresh();
    let x = || HirExpr { key: 0, kind: ExprKind::Ident(id(1), here()) };
    let null = || HirExpr { key: 0, kind: ExprKind::Null(here()) };
    let five = || HirExpr { key: 0, kind: ExprKind::Number(5, here()) };
    let compare = |left: HirExpr, op: Operator, right: HirExpr| HirExpr {
        key: 0,
        kind: ExprKind::Comparison { left: Rc::new(left), op, right: Rc::new(right), span: here() },
    };
    let fact = |cond: HirExpr| checker.condition_to_non_null_fact(&cond).map(|(r, _, when)| (r, when));
    assert_eq!(fact(compare(x(), Operator::NotEquals, null())), Some((id(1), true)));
    assert_eq!(fact(compare(null(), Operator::Equals, x())), Some((id(1), false)));
    assert_eq!(fact(compare(x(), Operator::Equals, five())), Some((id(1), true)));
    assert_eq!(fact(compare(x(), Operator::NotEquals, five())), None);
    assert_eq!(fact(compare(x(), Operator::LessThan, null())), None);
}

#[test]
fn structural_equality_goes_both_ways() {
    let checker = fresh();
    let nullable = |ty: HirType| HirType::Nullable(Rc::new(ty));
    let pointer = |m: MutabilityState| HirType::SafePointer {
        inner: Rc::new(HirType::I64),
        mutability_state: m,
    };
    let reference = |kind: RefKind| HirType::Ref {
        inner: Rc::new(HirType::I64),
        ref_kind: kind,
        provenance: None,
    };
    let same = |a: &HirType, b: &HirType| {
        assert_eq!(checker.types_structurally_equal(a, b), checker.types_structurally_equal(b, a));
        checker.types_structurally_equal(a, b)
    };
    assert!(same(&HirType::I64, &HirType::I64));
    assert!(!same(&HirType::I64, &HirType::I32));
    assert!(same(&HirType::Generic(id(1)), &HirType::I32));
    assert!(same(&nullable(HirType::I64), &nullable(HirType::Generic(id(1)))));
    assert!(!same(&pointer(MutabilityState::Mut), &pointer(MutabilityState::Const)));
    assert!(!same(&reference(RefKind::Shared), &reference(RefKind::Unique)));
    assert!(checker.errors().is_empty());
}

#[test]
fn writes_reach_the_end() {
    let root = id(1);
    let write = || {
        let target = HirExpr {
            key: 0,
            kind: ExprKind::Deref {
                expr: Rc::new(HirExpr { key: 0, kind: ExprKind::Ident(root, here()) }),
                span: here(),
            },
        };
        HirStmt {
            key: 0,
            kind: StmtKind::Expr(Rc::new(HirExpr {
                key: 0,
                kind: ExprKind::Assignment {
                    target: Rc::new(target),
                    op: AssignmentOperator::Assign,
                    value: Rc::new(HirExpr { key: 0, kind: ExprKind::Number(7, here()) }),
                    span: here(),
                },
            })),
        }
    };
    let ret = || HirStmt { key: 0, kind: StmtKind::Return(None, here()) };
    let branch = |then: Vec<HirStmt>, other: Option<HirStmt>| HirStmt {
        key: 0,
        kind: StmtKind::If {
            cond: HirExpr { key: 0, kind: ExprKind::Boolean(true, here()) },
            then_block: List::from_vec(then),
            else_block: other.map(Rc::new),
            span: here(),
        },
    };
    let flow = |stmt: HirStmt, before: bool| TypeChecker::analyze_write_stmt(&stmt, root, before);
    assert!(flow(write(), false).written);
    assert!(!flow(branch(vec![write()], None), false).written);
    assert!(flow(branch(vec![write()], Some(write())), false).written);
    let early = flow(branch(vec![ret()], Some(write())), false);
    assert!(early.written && !early.returns_ok && !early.diverges);
    let left = flow(ret(), false);
    assert!(left.diverges && !left.returns_ok);
    assert!(flow(branch(vec![ret()], None), true).written);
    assert!(flow(branch(vec![ret()], None), true).returns_ok);
}

#[test]
fn tables_keep_one_value_per_key() {
    let table: Table<StrId, usize> = none();
    let table = update(&table, id(1), 10);
    let table = update(&table, id(2), 20);
    let table = update(&table, id(1), 11);
    assert_eq!(find(&table, &id(1)), Some(&11));
    assert_eq!(find(&table, &id(2)), Some(&20));
    assert_eq!(table.len(), 2);
    let table = remove(&table, &id(1));
    assert_eq!(find(&table, &id(1)), None);
    assert_eq!(find(&table, &id(2)), Some(&20));
}

#[test]
fn lists_share_and_join() {
    let left = List::from_vec(vec![1usize, 2]);
    let right = List::from_vec(vec![3usize]);
    let both = left.append(&right);
    assert_eq!(both, List::from_vec(vec![1usize, 2, 3]));
    assert_eq!(both.reverse(), List::from_vec(vec![3usize, 2, 1]));
    assert_eq!(both.get(1), Some(&2));
    assert_eq!(both.get(3), None);
    assert_eq!(both.dup(), both);
    assert_eq!(both.set(0, 9), List::from_vec(vec![9usize, 2, 3]));
    assert_eq!(both.last(), Some(&3));
    assert_eq!(both.init(), left);
    assert_eq!(both.take(2), left);
    assert_eq!(both.skip(2), right);
    assert!(both.contains(&3));
    assert!(!both.contains(&4));
}

#[test]
fn strongest_use_counts() {
    assert_eq!(UseLevel::Read.max(UseLevel::Mut), UseLevel::Mut);
    assert_eq!(UseLevel::Move.max(UseLevel::Read), UseLevel::Move);
    assert_eq!(UseLevel::Alias.max(UseLevel::Mut), UseLevel::Mut);
    assert_eq!(UseLevel::Alias.max(UseLevel::Read), UseLevel::Alias);
}

#[test]
fn keywords_of_imports() {
    assert_eq!(BareImportKind::Struct.as_str(), "struct");
    assert_eq!(BareImportKind::Enum.as_str(), "enum");
}

#[test]
fn function_names_carry_their_package() {
    let name = "run".to_string();
    assert_eq!(mangle_function_name(&None, &name), "run");
    assert_eq!(mangle_function_name(&Some("a::b".to_string()), &name), "a_b_run");
    assert_eq!(mangle_function_name(&Some("one".to_string()), &name), "one_run");
    assert_eq!(mangle_function_name(&Some("a:::b".to_string()), &name), "a_:b_run");
}

#[test]
fn types_and_messages_have_words() {
    let shown = |ty: &HirType| format!("{:?}", type_to_string(ty));
    assert!(shown(&HirType::I64).contains("i64"));
    assert_ne!(shown(&HirType::I64), shown(&HirType::U64));
    let told = format!("{:?}", Message::IfNeedsElse.text());
    assert!(told.contains("else"));
    let step = BorrowOp::ReadAll(BorrowPlace::Local(id(1)));
    let told = format!("{:?}", describe_failed_step(&step, BorrowError::Borrowed));
    assert!(told.contains("it may alias a value that's still mutably borrowed"));
}

#[test]
fn items_are_seen_as_far_as_they_say() {
    let mut checker = fresh();
    checker.program.graph.packages = List::from_vec(vec![(0, id(70)), (1, id(70)), (2, id(71))]);
    checker.context.current_module_idx = 1;
    assert!(checker.check_visibility(Visibility::Public, 2, id(1)).is_ok());
    assert!(checker.check_visibility(Visibility::Module, 1, id(1)).is_ok());
    assert!(checker.check_visibility(Visibility::Module, 0, id(1)).is_err());
    assert!(checker.check_visibility(Visibility::Private, 1, id(1)).is_ok());
    assert!(checker.check_visibility(Visibility::Private, 0, id(1)).is_err());
    assert!(checker.check_visibility(Visibility::Internal, 0, id(1)).is_ok());
    assert!(checker.check_visibility(Visibility::Internal, 2, id(1)).is_err());
}

#[test]
fn symbols_are_minted_once() {
    let mut checker = fresh();
    assert_eq!(checker.mint_symbol_id(), SymbolId::Local(LocalSymbolId(0)));
    assert_eq!(checker.mint_symbol_id(), SymbolId::Local(LocalSymbolId(1)));
}

#[test]
fn places_are_no_part_of_reference_types() {
    let checker = fresh();
    let place = |name: u32| ProvenanceAnnotation { root: ProvenanceRoot::Var(id(name)), path: none() };
    let reference = |kind: RefKind, name: u32| HirType::Ref {
        inner: Rc::new(HirType::I64),
        ref_kind: kind,
        provenance: Some(place(name)),
    };
    let first = reference(RefKind::Unique, 1);
    assert!(checker.types_structurally_equal(&first, &reference(RefKind::Unique, 2)));
    assert!(!checker.types_structurally_equal(&first, &reference(RefKind::Shared, 1)));
}

#[test]
fn errors_come_out_once_and_in_order() {
    let mut checker = fresh();
    checker.record(TypeErrorKind::BreakOutsideLoop);
    checker.record(TypeErrorKind::ContinueOutsideLoop);
    checker.diagnostics.suppress_errors = true;
    checker.record(TypeErrorKind::TypeCannotBeInferred);
    let errors = checker.take_errors();
    assert_eq!(errors.len(), 2);
    assert_eq!(errors.get(0).unwrap().kind, TypeErrorKind::BreakOutsideLoop);
    assert_eq!(errors.get(1).unwrap().kind, TypeErrorKind::ContinueOutsideLoop);
    assert!(checker.take_errors().is_empty());
}

fn e(kind: ExprKind) -> HirExpr {
    HirExpr { key: 0, kind }
}

fn st(kind: StmtKind) -> HirStmt {
    HirStmt { key: 0, kind }
}

fn leave() -> HirStmt {
    st(StmtKind::Return(None, here()))
}

fn block(body: Vec<HirStmt>) -> HirStmt {
    st(StmtKind::Block { body: List::from_vec(body), span: here() })
}

fn write_through(root: StrId) -> HirStmt {
    let target = e(ExprKind::Deref {
        expr: Rc::new(e(ExprKind::Ident(root, here()))),
        span: here(),
    });
    st(StmtKind::Expr(Rc::new(e(ExprKind::Assignment {
        target: Rc::new(target),
        op: AssignmentOperator::Assign,
        value: Rc::new(e(ExprKind::Number(7, here()))),
        span: here(),
    }))))
}

fn repeat(body: HirStmt) -> HirStmt {
    st(StmtKind::While {
        cond: Rc::new(e(ExprKind::Boolean(true, here()))),
        body: Rc::new(body),
    })
}

fn declare(value: HirExpr, otherwise: Option<HirStmt>) -> HirStmt {
    st(StmtKind::Let {
        name: id(2),
        ty: HirType::I64,
        value,
        mutable: false,
        else_block: otherwise.map(Rc::new),
        span: here(),
        is_static: false,
        catch_pattern: None,
    })
}

#[test]
fn returns_out_of_loops_must_have_written() {
    let root = id(1);
    let flow = |stmt: HirStmt, before: bool| TypeChecker::analyze_write_stmt(&stmt, root, before);
    let around = flow(repeat(block(vec![leave()])), false);
    assert!(!around.written && !around.diverges && !around.returns_ok);
    assert!(flow(repeat(block(vec![leave()])), true).returns_ok);
    assert!(flow(repeat(block(vec![write_through(root), leave()])), false).returns_ok);
    let counted = |body: HirStmt, init: Option<HirStmt>| {
        st(StmtKind::For {
            init: init.map(Rc::new),
            condition: None,
            increment: None,
            body: Rc::new(body),
        })
    };
    assert!(!flow(counted(leave(), None), false).returns_ok);
    assert!(flow(counted(leave(), Some(write_through(root))), false).returns_ok);
    assert!(flow(counted(block(vec![]), None), false).returns_ok);
    // `while (c) { return; } *x = 7;` does not always write.
    let late = flow(block(vec![repeat(leave()), write_through(root)]), false);
    assert!(late.written && !late.returns_ok);
}

#[test]
fn returns_inside_declarations_must_have_written() {
    let root = id(1);
    let flow = |stmt: HirStmt, before: bool| TypeChecker::analyze_write_stmt(&stmt, root, before);
    let number = || e(ExprKind::Number(1, here()));
    assert!(flow(declare(number(), None), false).returns_ok);
    assert!(!flow(declare(number(), Some(leave())), false).returns_ok);
    assert!(flow(declare(number(), Some(leave())), true).returns_ok);
    let inner = || e(ExprKind::Block {
        body: List::from_vec(vec![leave()]),
        is_unsafe: false,
        span: here(),
    });
    assert!(!flow(declare(inner(), None), false).returns_ok);
    let sum = e(ExprKind::Binary {
        left: Rc::new(number()),
        op: Operator::Add,
        right: Rc::new(inner()),
        span: here(),
    });
    assert!(!flow(st(StmtKind::Expr(Rc::new(sum))), false).returns_ok);
    let lambda = e(ExprKind::Lambda {
        params: none(),
        return_type: HirType::Void,
        body: Rc::new(leave()),
        span: here(),
    });
    assert!(flow(declare(lambda, None), false).returns_ok);
}

fn imports(named: Vec<(StrId, usize)>, modules: Vec<usize>, wildcard: Vec<usize>) -> ModuleImports {
    ModuleImports {
        named: List::from_vec(named),
        modules: List::from_vec(modules),
        module_aliases: none(),
        wildcard: List::from_vec(wildcard),
    }
}

#[test]
fn plain_imports_make_nothing_usable_bare() {
    let asked = |imported: ModuleImports, name: StrId| {
        let mut checker = fresh();
        checker.context.current_module_idx = 0;
        checker.program.imports_by_module = List::from_vec(vec![(0, imported)]);
        checker.check_bare_name_import(Some(5), name, BareImportKind::Struct);
        checker.take_errors()
    };
    let errors = asked(imports(vec![], vec![5], vec![]), id(9));
    assert_eq!(errors.len(), 1);
    assert_eq!(
        errors.get(0).unwrap().kind,
        TypeErrorKind::Generic(Message::NotImported { kind: BareImportKind::Struct, name: id(9) })
    );
    assert!(asked(imports(vec![(id(9), 5)], vec![], vec![]), id(9)).is_empty());
    assert_eq!(asked(imports(vec![(id(8), 5)], vec![], vec![]), id(9)).len(), 1);
    assert_eq!(asked(imports(vec![(id(9), 6)], vec![], vec![]), id(9)).len(), 1);
    assert!(asked(imports(vec![], vec![], vec![5]), id(9)).is_empty());
}

#[test]
fn removing_keeps_everything_else() {
    let mut held = set(vec![(0, 4), (6, 8)]);
    held.remove(2);
    assert_eq!(held.ranges, List::from_vec(vec![(0i64, 2i64), (3, 4), (6, 8)]));
    held.remove(6);
    held.remove(9);
    assert_eq!(held.ranges, List::from_vec(vec![(0i64, 2i64), (3, 4), (7, 8)]));
    held.remove(i64::MAX);
    assert!(!held.contains_range(2, 3));
    assert!(held.contains_range(7, 8));
}

#[test]
fn registering_declares_what_is_collected() {
    let mut checker = fresh();
    let pattern = HirPattern::Tuple(List::from_vec(vec![
        HirPattern::Ident(id(1)),
        HirPattern::Wildcard,
        HirPattern::Array(List::from_vec(vec![HirPattern::Ident(id(2)), HirPattern::Ident(id(3))])),
    ]));
    let ty = HirType::Nullable(Rc::new(HirType::Tuple(List::from_vec(vec![
        HirType::I64,
        HirType::Char,
        HirType::Slice(Rc::new(HirType::Boolean)),
    ]))));
    let listed = checker.collect_pattern_bindings(&pattern, &ty, none());
    assert_eq!(listed.len(), 3);
    checker.register_pattern_bindings(&pattern, &ty, BindingMode::ByValue, &None, &None);
    assert_eq!(checker.context.variables.len(), 3);
    let mut at = 0;
    while let Some((name, bound)) = listed.get(at) {
        let variable = find(&checker.context.variables, name).unwrap();
        assert_eq!(&variable.1, bound);
        at += 1;
    }
    assert!(checker.take_errors().is_empty());
}

#[test]
fn texts_read_as_strings() {
    let names = List::from_vec(vec![(id(1), "Point".to_string())]);
    let point = HirType::Struct {
        name: id(1),
        field_types: none(),
        type_args: List::from_vec(vec![HirType::I64, HirType::Boolean]),
    };
    let text = |ty: &HirType, trees: Vec<String>| {
        type_to_string(ty).render(&names, &List::from_vec(trees))
    };
    assert_eq!(text(&point, vec![]), "struct Point<i64, bool>");
    let array = HirType::Array(Rc::new(HirType::U8), 16);
    assert_eq!(text(&array, vec![]), "[16]u8");
    let pointer = HirType::Nullable(Rc::new(HirType::Char));
    assert_eq!(text(&pointer, vec!["Char".to_string()]), "?Char");
    let message = Message::NotImported { kind: BareImportKind::Struct, name: id(1) };
    assert_eq!(
        message.text().render(&names, &none()),
        "struct `Point` is declared in another module and has not been imported"
    );
    assert_eq!(str_id_to_string(&names, StrId::Known(Word::Len)), "len");
    assert_eq!(str_id_to_string(&names, StrId::ClosureEnv(12)), "__closure_env_12");
    assert_eq!(str_id_to_string(&names, StrId::Capture(0)), "__cap_0");
    assert_eq!(str_id_to_string(&names, id(99)), "");
    let low = Text::new().number(i64::MIN).add(" ").number(-7).add(" ").number(10).count(3);
    assert_eq!(low.render(&names, &none()), "-9223372036854775808 -7 103");
}

#[test]
fn names_are_ranked_by_their_spelling() {
    let spell = |n: u32, text: &str| (id(n), text.to_string());
    let names = List::from_vec(vec![
        spell(1, "b"),
        spell(2, "ab"),
        spell(3, "a"),
        spell(4, "B"),
        spell(5, "ab"),
        (StrId::Known(Word::Len), String::new()),
    ]);
    let ranks = rank_names(&names);
    let rank = |name: StrId| *find(&ranks, &name).unwrap();
    assert_eq!(rank(id(4)), 0);
    assert_eq!(rank(id(3)), 1);
    assert_eq!(rank(id(2)), 2);
    assert_eq!(rank(id(5)), 2);
    assert_eq!(rank(id(1)), 4);
    assert_eq!(rank(StrId::Known(Word::Len)), 5);
    assert!(is_earlier("", "a"));
    assert!(!is_earlier("a", "a"));
    assert!(is_earlier("z", "\u{e9}"));
}

#[test]
fn alternatives_bind_alike_in_any_order() {
    let names = List::from_vec(vec![(id(1), "y".to_string()), (id(2), "x".to_string())]);
    let mut checker = fresh();
    checker.program.facts.name_ranks = rank_names(&names);
    let ty = HirType::Tuple(List::from_vec(vec![HirType::I64, HirType::I64]));
    let pair = |a: u32, b: u32| {
        HirPattern::Tuple(List::from_vec(vec![HirPattern::Ident(id(a)), HirPattern::Ident(id(b))]))
    };
    let either = HirPattern::Or(List::from_vec(vec![pair(1, 2), pair(2, 1)]));
    checker.check_pattern_against_type(&either, &ty);
    assert!(checker.take_errors().is_empty());
    let apart = HirPattern::Or(List::from_vec(vec![pair(1, 2), pair(2, 3)]));
    checker.check_pattern_against_type(&apart, &ty);
    assert_eq!(checker.take_errors().len(), 1);
}

#[test]
fn checking_leaves_the_scope_of_a_block() {
    let mut checker = fresh();
    checker.diagnostics.suppress_errors = true;
    let inner = declare(e(ExprKind::Number(1, here())), None);
    checker.check_stmt(&block(vec![inner]));
    assert!(checker.context.variables.is_empty());
    assert!(checker.diagnostics.suppress_errors);
    checker.check_stmt(&repeat(block(vec![])));
    assert!(checker.diagnostics.suppress_errors);
    let before = checker.modes;
    checker.check_expr(&e(ExprKind::Block {
        body: List::from_vec(vec![declare(e(ExprKind::Number(2, here())), None)]),
        is_unsafe: true,
        span: here(),
    }));
    assert_eq!(checker.modes, before);
    assert!(checker.context.variables.is_empty());
}

#[test]
fn fields_need_only_the_module_of_their_struct() {
    let asked = |imported: ModuleImports| {
        let mut checker = fresh();
        let fields = List::from_vec(vec![HirField { name: id(4), field_type: HirType::I32 }]);
        let point = HirStruct { name: id(3), fields, generics: None };
        checker.context.add_struct(5, id(3), Rc::new(point));
        checker.context.current_module_idx = 0;
        checker.program.imports_by_module = List::from_vec(vec![(0, imported)]);
        let ty = HirType::Struct { name: id(3), field_types: none(), type_args: none() };
        let object = e(ExprKind::Ident(id(1), here()));
        assert_eq!(checker.reach_field(&object, id(4), &ty, false), HirType::I32);
        let by_field = checker.take_errors();
        checker.check_bare_name_import(Some(5), id(3), BareImportKind::Struct);
        (by_field, checker.take_errors().len())
    };
    assert_eq!(asked(imports(vec![], vec![5], vec![])), (none(), 1));
    assert_eq!(asked(imports(vec![(id(9), 5)], vec![], vec![])), (none(), 1));
    assert_eq!(asked(imports(vec![(id(3), 5)], vec![], vec![])), (none(), 0));
    assert_eq!(asked(imports(vec![], vec![], vec![5])), (none(), 0));
    let (errors, _) = asked(imports(vec![(id(3), 6)], vec![6], vec![]));
    assert_eq!(errors.len(), 1);
    assert_eq!(
        errors.get(0).unwrap().kind,
        TypeErrorKind::Generic(Message::NotImported { kind: BareImportKind::Struct, name: id(3) })
    );
}

#[test]
fn elements_behind_pointers_are_places_where_the_pointee_is_known() {
    let mut checker = fresh();
    let pointer = HirType::UnsafePointer {
        inner: Rc::new(HirType::I64),
        mutability_state: MutabilityState::Mut,
    };
    checker.context.add_variable(id(1), pointer, SymbolId::Local(LocalSymbolId(1)));
    checker.declare_local(id(1));
    let named = || Rc::new(e(ExprKind::Ident(id(1), here())));
    let element = e(ExprKind::Index {
        object: named(),
        index: Rc::new(e(ExprKind::Number(2, here()))),
        span: here(),
    });
    let back = e(ExprKind::Binary {
        left: named(),
        op: Operator::Subtract,
        right: Rc::new(e(ExprKind::Number(2, here()))),
        span: here(),
    });
    assert_eq!(checker.resolve_place(&element), None);
    assert_eq!(checker.resolve_place(&back), None);
    let target = || BorrowPlace::Local(id(7));
    let known = (BorrowPlace::Local(id(1)), (target(), Bound::Const(3)));
    checker.loans.pointees = List::from_vec(vec![known]);
    let sum = |distance: Bound| {
        let offset = Bound::Sum(Rc::new(Bound::Const(3)), Rc::new(distance));
        Some(BorrowPlace::Index(Rc::new(target()), offset))
    };
    assert_eq!(checker.resolve_place(&element), sum(Bound::Const(2)));
    let scaled = Bound::Scale { base: Rc::new(Bound::Const(2)), factor: -1 };
    assert_eq!(checker.resolve_place(&back), sum(scaled));
    checker.declare_local(id(1));
    assert_eq!(checker.resolve_place(&element), None);
}

#[test]
fn initializing_one_field_keeps_the_others() {
    let mut checker = fresh();
    let path = |names: Vec<u32>| List::from_vec(names.into_iter().map(id).collect());
    checker.mark_whole_uninit(id(1));
    checker.mark_field_init(id(1), &path(vec![2]));
    checker.mark_field_init(id(1), &path(vec![3, 4]));
    checker.check_init_read_path(id(1), &path(vec![2]));
    checker.check_init_read_path(id(1), &path(vec![3, 4]));
    assert!(checker.take_errors().is_empty());
    checker.check_init_read_path(id(1), &path(vec![3, 5]));
    assert_eq!(checker.take_errors().len(), 1);
}

#[test]
fn only_substituted_generics_are_replaced() {
    let checker = fresh();
    let pair = |a: HirType, b: HirType| HirType::Tuple(List::from_vec(vec![a, b]));
    let subs = List::from_vec(vec![(id(1), HirType::Char)]);
    let ty = pair(HirType::Generic(id(2)), HirType::Slice(Rc::new(HirType::Generic(id(3)))));
    assert_eq!(checker.substitute_type_local(&ty, &subs), ty);
    let mixed = pair(HirType::Generic(id(1)), HirType::Generic(id(2)));
    let expected = pair(HirType::Char, HirType::Generic(id(2)));
    assert_eq!(checker.substitute_type_local(&mixed, &subs), expected);
}

#[test]
fn events_are_taken_in_the_order_of_the_program() {
    let mut checker = fresh();
    checker.say(Message::IfNeedsElse);
    checker.ask(BorrowOp::BeginScope);
    checker.say(Message::EmptyOrPattern);
    let events = checker.take_events();
    assert_eq!(events.len(), 3);
    match (events.get(0), events.get(1), events.get(2)) {
        (Some(Event::Error(first)), Some(Event::Borrow(step)), Some(Event::Error(last))) => {
            assert_eq!(first.kind, TypeErrorKind::Generic(Message::IfNeedsElse));
            assert_eq!(step.op, BorrowOp::BeginScope);
            assert!(step.report);
            assert_eq!(last.kind, TypeErrorKind::Generic(Message::EmptyOrPattern));
        }
        _ => panic!("out of order"),
    }
    assert!(checker.take_events().is_empty());
}

#[test]
fn expected_and_missing_things_read_as_strings() {
    let names = List::from_vec(vec![
        (id(1), "Point".to_string()),
        (id(2), "geo".to_string()),
        (id(3), "area".to_string()),
    ]);
    let shown = |text: Text| text.render(&names, &none());
    assert_eq!(shown(TypeText::Bool.text()), "bool");
    assert_eq!(shown(TypeText::TuplePattern(2).text()), "tuple pattern with 2 element(s)");
    assert_eq!(shown(TypeText::NamedFieldPattern(id(1)).text()), "named-field pattern `Point`");
    assert_eq!(shown(TypeText::Type(HirType::U8).text()), "u8");
    let path = || List::from_vec(vec![id(1), id(2)]);
    assert_eq!(shown(FunctionName::Plain(id(3)).text()), "area");
    assert_eq!(shown(FunctionName::Member(path(), id(3)).text()), "Point::geo.area");
    assert_eq!(shown(FunctionName::Qualified(path(), id(3)).text()), "Point::geo::area");
}

#[test]
fn registered_modules_have_their_own_names() {
    let mut checker = fresh();
    let def = |n: u32| Hir::Struct(Rc::new(HirStruct { name: id(n), fields: none(), generics: None }));
    let module = |items: Vec<Hir>| HirModule { items: List::from_vec(items), imports: none() };
    checker.register_module(&module(vec![def(1), def(2), def(1)]), 4);
    checker.register_module(&module(vec![def(3)]), 5);
    let listed = |checker: &TypeChecker, module: usize| {
        find(&checker.program.structs_by_module, &module).unwrap().dup()
    };
    assert_eq!(listed(&checker, 4), List::from_vec(vec![id(1), id(2)]));
    assert_eq!(listed(&checker, 5), List::from_vec(vec![id(3)]));
    checker.register_module(&module(vec![def(6)]), 4);
    assert_eq!(listed(&checker, 4), List::from_vec(vec![id(6)]));
    assert!(instances_settled(3, 3) && !instances_settled(3, 4));
}
