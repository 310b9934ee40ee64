use std::rc::Rc;

use zeta::ast::{
    Block, Expr, FuncDecl, ImportStmt, InternalExprStmt, LetStmt, MatchArm, MatchStmt, MutKeyword,
    Op, Pattern, ReturnStmt, Stmt,
};
use zeta::codegen::{Codegen, CodegenError, Step};
use zeta::compiler::{
    choose_file_loader, emit_verdict, group_modules, link_arguments, link_verdict, loading_verdict,
    plan_finish, runtime_source, structure_verdict, Compiler, Instance, LoaderKind, Platform,
    Registry, TypeInstances, Work,
};
use zeta::compiler_errors::CompilerError;
use zeta::hir::StrId;
use zeta::list::List;
use zeta::parser::{
    parse_block, parse_expr, parse_match_arm, parse_number, parse_pattern, parse_program,
    parse_stmt, Pair, Pairs, Rule,
};
use zeta::tokens::{Token, TokenType};

fn id(n: u32) -> StrId {
    StrId::Interned(n)
}

fn text(s: &str) -> String {
    s.to_string()
}

fn pairs(nodes: Vec<Pair>) -> Pairs {
    let mut list = Pairs::End;
    for node in nodes.into_iter().rev() {
        list = Pairs::More(Rc::new(node), Rc::new(list));
    }
    list
}

fn leaf(rule: Rule, s: &str) -> Pair {
    Pair { rule, text: text(s), inner: Pairs::End }
}

fn node(rule: Rule, inner: Vec<Pair>) -> Pair {
    Pair { rule, text: String::new(), inner: pairs(inner) }
}

#[test]
fn tokens_hold_their_parts() {
    let token = Token::new(TokenType::Identifier, Some(text("x")));
    assert_eq!(token.token_type, TokenType::Identifier);
    assert_eq!(token.value, Some(text("x")));
}

#[test]
fn numbers_are_read() {
    assert_eq!(parse_number(&text("0")), Some(0));
    assert_eq!(parse_number(&text("-42")), Some(-42));
    assert_eq!(parse_number(&text("+7")), Some(7));
    assert_eq!(parse_number(&text("9223372036854775807")), Some(i64::MAX));
    assert_eq!(parse_number(&text("-9223372036854775808")), Some(i64::MIN));
    assert_eq!(parse_number(&text("9223372036854775808")), None);
    assert_eq!(parse_number(&text("-9223372036854775809")), None);
    assert_eq!(parse_number(&text("00012")), Some(12));
    assert_eq!(parse_number(&text("")), None);
    assert_eq!(parse_number(&text("-")), None);
    assert_eq!(parse_number(&text("1x")), None);
    assert_eq!(parse_number(&text("99999999999999999999999999999999999999999")), None);
}

#[test]
fn expressions_are_leaves() {
    assert_eq!(parse_expr(&leaf(Rule::Number, "5")), Some(Expr::Number(5)));
    assert_eq!(parse_expr(&leaf(Rule::String, "s")), Some(Expr::String(text("s"))));
    assert_eq!(parse_expr(&leaf(Rule::Ident, "v")), Some(Expr::Ident(text("v"))));
    assert_eq!(parse_expr(&leaf(Rule::Number, "v")), None);
    assert_eq!(parse_expr(&leaf(Rule::Block, "v")), None);
}

#[test]
fn patterns_nest() {
    let tuple = node(
        Rule::TuplePattern,
        vec![
            leaf(Rule::Ident, "a"),
            node(Rule::TuplePattern, vec![leaf(Rule::Number, "1"), leaf(Rule::String, "s")]),
        ],
    );
    assert_eq!(
        parse_pattern(&tuple),
        Some(Pattern::Tuple(List::from_vec(vec![
            Pattern::Ident(text("a")),
            Pattern::Tuple(List::from_vec(vec![Pattern::Number(1), Pattern::String(text("s"))])),
        ])))
    );
    assert_eq!(parse_pattern(&leaf(Rule::Stmt, "a")), None);
}

#[test]
fn statements_are_read() {
    let import = node(Rule::ImportStmt, vec![leaf(Rule::Ident, "std")]);
    assert_eq!(parse_stmt(&import), Some(Stmt::Import(ImportStmt { path: text("std") })));
    let binding = node(
        Rule::LetStmt,
        vec![
            leaf(Rule::Other, "mut"),
            leaf(Rule::Ident, "x"),
            leaf(Rule::Ident, "int"),
            leaf(Rule::Number, "3"),
        ],
    );
    assert_eq!(
        parse_stmt(&binding),
        Some(Stmt::Let(LetStmt {
            mutability: Some(MutKeyword::Mut),
            ident: text("x"),
            type_annotation: Some(text("int")),
            value: Rc::new(Expr::Number(3)),
        }))
    );
    assert_eq!(parse_stmt(&node(Rule::LetStmt, vec![leaf(Rule::Ident, "x")])), None);
    assert_eq!(
        parse_stmt(&node(Rule::ReturnStmt, vec![])),
        Some(Stmt::Return(ReturnStmt { value: None }))
    );
    assert_eq!(
        parse_stmt(&node(Rule::ReturnStmt, vec![leaf(Rule::Ident, "x")])),
        Some(Stmt::Return(ReturnStmt { value: Some(Rc::new(Expr::Ident(text("x")))) }))
    );
    assert_eq!(parse_stmt(&node(Rule::Program, vec![])), None);
}

#[test]
fn matches_have_arms() {
    let arm = node(
        Rule::MatchArm,
        vec![leaf(Rule::Number, "1"), node(Rule::Block, vec![node(Rule::ReturnStmt, vec![])])],
    );
    let body = Block { block: List::from_vec(vec![Stmt::Return(ReturnStmt { value: None })]) };
    assert_eq!(
        parse_match_arm(&arm),
        Some(MatchArm { pattern: Pattern::Number(1), block: body })
    );
    let body = Block { block: List::from_vec(vec![Stmt::Return(ReturnStmt { value: None })]) };
    let whole = node(Rule::MatchStmt, vec![leaf(Rule::Ident, "v"), arm]);
    assert_eq!(
        parse_stmt(&whole),
        Some(Stmt::Match(MatchStmt {
            expr: Rc::new(Expr::Ident(text("v"))),
            arms: List::from_vec(vec![MatchArm { pattern: Pattern::Number(1), block: body }]),
        }))
    );
    assert_eq!(parse_match_arm(&node(Rule::MatchArm, vec![leaf(Rule::Number, "1")])), None);
    assert_eq!(parse_block(&node(Rule::Block, vec![])), Some(Block { block: List::from_vec(vec![]) }));
}

#[test]
fn programs_hold_statement_nodes() {
    assert_eq!(parse_program(&pairs(vec![])), Some(List::from_vec(vec![])));
    assert_eq!(parse_program(&pairs(vec![node(Rule::ReturnStmt, vec![])])), None);
    assert_eq!(parse_program(&pairs(vec![node(Rule::Stmt, vec![])])), None);
}

fn binding(name: &str, value: Expr) -> Stmt {
    Stmt::Let(LetStmt {
        mutability: None,
        ident: text(name),
        type_annotation: None,
        value: Rc::new(value),
    })
}

fn func(body: Vec<Stmt>) -> FuncDecl {
    FuncDecl {
        visibility: None,
        is_async: false,
        is_unsafe: false,
        name: text("f"),
        params: List::from_vec(vec![]),
        return_type: None,
        body: Block { block: List::from_vec(body) },
    }
}

fn ident(name: &str) -> Expr {
    Expr::Ident(text(name))
}

fn binary(left: Expr, op: Op, right: Expr) -> Expr {
    Expr::Binary { left: Rc::new(left), op, right: Rc::new(right) }
}

#[test]
fn functions_become_steps() {
    let mut codegen = Codegen::new();
    let body = vec![
        binding("a", Expr::Number(2)),
        binding("b", binary(ident("a"), Op::Mul, Expr::Number(3))),
        Stmt::Return(ReturnStmt {
            value: Some(Rc::new(binary(ident("b"), Op::Sub, ident("a")))),
        }),
    ];
    let steps = codegen.compile_func(&func(body));
    assert_eq!(
        steps,
        Ok(List::from_vec(vec![
            Step::Const(2),
            Step::DeclareVar(0),
            Step::DefineVar(0, 0),
            Step::UseVar(0),
            Step::Const(3),
            Step::Mul(1, 2),
            Step::DeclareVar(1),
            Step::DefineVar(1, 3),
            Step::UseVar(1),
            Step::UseVar(0),
            Step::Sub(4, 5),
            Step::Return(Some(6)),
            Step::Return(None),
        ]))
    );
    let again = codegen.compile_func(&func(vec![
        Stmt::ExprStmt(InternalExprStmt {
            expr: Rc::new(binary(ident("a"), Op::Div, binary(ident("b"), Op::Add, ident("b")))),
        }),
        Stmt::Return(ReturnStmt { value: None }),
    ]));
    assert_eq!(
        again,
        Ok(List::from_vec(vec![
            Step::UseVar(0),
            Step::UseVar(1),
            Step::UseVar(1),
            Step::Add(1, 2),
            Step::Div(0, 3),
            Step::Return(None),
            Step::Return(None),
        ]))
    );
}

#[test]
fn shadowing_takes_the_number_of_names() {
    let mut codegen = Codegen::new();
    let steps = codegen.compile_func(&func(vec![
        binding("a", Expr::Number(1)),
        binding("a", Expr::Number(2)),
        binding("b", Expr::Number(3)),
        Stmt::ExprStmt(InternalExprStmt { expr: Rc::new(ident("a")) }),
    ]));
    assert_eq!(
        steps,
        Ok(List::from_vec(vec![
            Step::Const(1),
            Step::DeclareVar(0),
            Step::DefineVar(0, 0),
            Step::Const(2),
            Step::DeclareVar(1),
            Step::DefineVar(1, 1),
            Step::Const(3),
            Step::DeclareVar(1),
            Step::DefineVar(1, 2),
            Step::UseVar(1),
            Step::Return(None),
        ]))
    );
}

#[test]
fn what_cannot_be_compiled() {
    let mut codegen = Codegen::new();
    let expr = |e: Expr| func(vec![Stmt::ExprStmt(InternalExprStmt { expr: Rc::new(e) })]);
    assert_eq!(
        codegen.compile_func(&expr(ident("q"))),
        Err(CodegenError::UndefinedVariable(text("q")))
    );
    assert_eq!(
        codegen.compile_func(&expr(binary(
            Expr::Number(1),
            Op::Other(text("%")),
            Expr::Number(1)
        ))),
        Err(CodegenError::UnsupportedOp(text("%")))
    );
    assert_eq!(
        codegen.compile_func(&expr(Expr::String(text("s")))),
        Err(CodegenError::UnsupportedExpression)
    );
}

#[test]
fn errors_are_told() {
    let path = text("/p");
    assert_eq!(CompilerError::SourceNotFound(path.clone()).message(), "Source not found: /p");
    assert_eq!(CompilerError::NoSourceFiles.message(), "No .zeta source files found");
    assert_eq!(
        CompilerError::FailedToReadFile(path, text("gone")).message(),
        "Failed to read /p: gone"
    );
    assert_eq!(CompilerError::FailedToAllocateBump.message(), "Failed to allocate bump arena");
    assert_eq!(
        CompilerError::FailedToAllocateStringPool.message(),
        "Failed to allocate string pool"
    );
    assert_eq!(
        CompilerError::InvalidFileName(vec![0, 47, 255]).message(),
        "Invalid file name bytes: [0, 47, 255]"
    );
    assert_eq!(CompilerError::InvalidFileName(vec![]).message(), "Invalid file name bytes: []");
    assert_eq!(
        CompilerError::ParserError(vec![text("a\"b"), text("c\n")]).message(),
        "Parser errors: [\"a\\\"b\", \"c\\n\"]"
    );
    assert_eq!(CompilerError::TypeCheckError.message(), "Type check failed");
    assert_eq!(CompilerError::FinishError(text("x")).message(), "Backend finish error: x");
    assert_eq!(
        CompilerError::LinkFailed.message(),
        "Backend could not link the stdlib to the binary."
    );
    assert_eq!(
        CompilerError::InvalidModuleStructure { package_mismatches: 10, unresolved_imports: 0 }
            .message(),
        "invalid module structure 10 0"
    );
    assert_eq!(
        CompilerError::CompilationAborted { reason: text("r") }.message(),
        "Compilation aborted: r"
    );
}

#[test]
fn loaders_depend_on_the_platform() {
    assert_eq!(choose_file_loader(Platform::Linux), Some(LoaderKind::IoUring(256)));
    assert_eq!(choose_file_loader(Platform::Other), Some(LoaderKind::Standard));
    assert_eq!(choose_file_loader(Platform::Windows), None);
}

#[test]
fn modules_keep_their_numbers() {
    let mut compiler = Compiler::new();
    assert_eq!(compiler.module_idx_for(id(1)), 0);
    assert_eq!(compiler.module_idx_for(id(2)), 1);
    assert_eq!(compiler.module_idx_for(id(1)), 0);
    assert_eq!(compiler.load_file(id(3), true), 2);
    assert_eq!(compiler.module_idx_for_path(id(3)), Some(2));
    assert_eq!(compiler.module_idx_for_path(id(9)), None);
    assert_eq!(compiler.stdlib_module_ids, List::from_vec(vec![2usize]));
}

#[test]
fn standard_library_is_imported_everywhere() {
    let mut compiler = Compiler::new();
    compiler.load_file(id(1), false);
    compiler.load_file(id(2), true);
    compiler.load_file(id(3), true);
    let batch = List::from_vec(vec![1usize, 2]);
    assert_eq!(
        compiler.imports_to_register(&batch, true),
        List::from_vec(vec![(0usize, 1usize), (0, 2)])
    );
    compiler.load_file(id(4), false);
    assert_eq!(
        compiler.imports_to_register(&List::from_vec(vec![3usize]), false),
        List::from_vec(vec![(3usize, 1usize), (3, 2)])
    );
}

#[test]
fn modules_that_depend_on_each_other_form_a_group() {
    let order = List::from_vec(vec![2usize, 0, 1, 3]);
    let cycles = List::from_vec(vec![
        (0usize, List::from_vec(vec![0usize, 1])),
        (1, List::from_vec(vec![0, 1])),
        (2, List::from_vec(vec![2])),
        (3, List::from_vec(vec![3])),
    ]);
    assert_eq!(
        group_modules(&order, &cycles, List::from_vec(vec![])),
        List::from_vec(vec![
            List::from_vec(vec![2usize]),
            List::from_vec(vec![0, 1]),
            List::from_vec(vec![3]),
        ])
    );
}

#[test]
fn groups_are_registered_before_they_are_checked() {
    let mut compiler = Compiler::new();
    compiler.record_module(0, true);
    compiler.record_module(1, false);
    compiler.record_module(2, true);
    let group = List::from_vec(vec![0usize, 1, 2]);
    let ready = List::from_vec(vec![0usize, 2]);
    assert_eq!(compiler.ready(&group), ready);
    assert_eq!(
        compiler.plan_check(&group),
        List::from_vec(vec![
            Work::Register(0),
            Work::Register(2),
            Work::Recompute(List::from_vec(vec![0usize, 2])),
            Work::CheckBody(0),
            Work::CheckBody(2),
        ])
    );
    assert!(compiler.plan_check(&List::from_vec(vec![1usize])).is_empty());
    assert!(plan_finish(&ready, true).is_empty());
    assert_eq!(
        plan_finish(&ready, false),
        List::from_vec(vec![Work::Monomorphize(0), Work::Monomorphize(2)])
    );
    assert_eq!(compiler.importers_to_refresh(&List::from_vec(vec![1usize, 5])), List::from_vec(vec![1usize]));
}

#[test]
fn modules_that_were_not_compiled_are_missing() {
    let mut compiler = Compiler::new();
    for n in 0..3u32 {
        compiler.module_idx_for(id(n));
        compiler.record_module(n as usize, true);
    }
    compiler.record_monomorphized(2);
    compiler.record_monomorphized(0);
    assert_eq!(compiler.missing(), List::from_vec(vec![1usize]));
    assert_eq!(compiler.ordered(), List::from_vec(vec![0usize, 2]));
    assert_eq!(compiler.close_module(id(1)), Some(1));
    assert!(compiler.missing().is_empty());
    assert_eq!(compiler.modules, List::from_vec(vec![0usize, 2]));
    assert_eq!(compiler.close_module(id(8)), None);
}

#[test]
fn instances_belong_to_the_modules_of_their_items() {
    let mut compiler = Compiler::new();
    compiler.record_monomorphized(0);
    compiler.record_monomorphized(1);
    let registry = Registry {
        instantiated_functions: List::from_vec(vec![id(1), id(2), id(1), id(3)]),
        functions: List::from_vec(vec![(id(1), 0usize), (id(3), 7)]),
        instantiated_structs: TypeInstances {
            names: List::from_vec(vec![id(4), id(5), id(2)]),
            known: List::from_vec(vec![id(4), id(2)]),
            origins: List::from_vec(vec![(id(4), id(40)), (id(5), id(40)), (id(2), id(40))]),
            owners: List::from_vec(vec![(id(40), 0usize)]),
        },
        instantiated_enums: TypeInstances {
            names: List::from_vec(vec![id(6)]),
            known: List::from_vec(vec![id(6)]),
            origins: List::from_vec(vec![(id(6), id(60))]),
            owners: List::from_vec(vec![(id(60), 1usize)]),
        },
    };
    assert_eq!(
        registry.finalize_monomorphization(&compiler),
        List::from_vec(vec![
            (0usize, List::from_vec(vec![Instance::Func(id(1)), Instance::Struct(id(4))])),
            (1, List::from_vec(vec![Instance::Enum(id(6))])),
        ])
    );
}

#[test]
fn builds_fail_for_reasons() {
    assert!(structure_verdict(0, 0).is_ok());
    assert!(matches!(
        structure_verdict(1, 2),
        Err(CompilerError::InvalidModuleStructure { package_mismatches: 1, unresolved_imports: 2 })
    ));
    assert!(emit_verdict(&vec![], &vec![], &vec![]).is_ok());
    let reason = |verdict: Result<(), CompilerError>| match verdict {
        Err(CompilerError::CompilationAborted { reason }) => reason,
        _ => text("none"),
    };
    assert_eq!(
        reason(emit_verdict(&vec![text("a"), text("b")], &vec![text("m")], &vec![])),
        "2 module(s) failed type checking and were not compiled:\n  a\n  b"
    );
    assert_eq!(reason(emit_verdict(&vec![], &vec![text("m"), text("n")], &vec![text("u")])), "m\nn");
    assert_eq!(reason(emit_verdict(&vec![], &vec![], &vec![text("u")])), "u");
    assert!(matches!(loading_verdict(true, true), Err(CompilerError::ParserError(e)) if e.is_empty()));
    assert!(matches!(loading_verdict(false, true), Err(CompilerError::TypeCheckError)));
    assert!(loading_verdict(false, false).is_ok());
    assert!(link_verdict(true).is_ok());
    assert!(matches!(link_verdict(false), Err(CompilerError::LinkFailed)));
}

#[test]
fn linker_gets_its_arguments() {
    assert_eq!(runtime_source(true, true), Some(text("zeta_rt.c")));
    assert_eq!(
        runtime_source(false, true),
        Some(text("/home/flameyosflow/data/zeta-lang/zeta_rt.c"))
    );
    assert_eq!(runtime_source(false, false), None);
    assert_eq!(
        link_arguments(&vec![text("a.o"), text("b.o")], &Some(text("rt.c")), "out", true),
        vec![text("a.o"), text("b.o"), text("rt.c"), text("-o"), text("out")]
    );
    assert_eq!(
        link_arguments(&vec![], &None, "out", false),
        vec![text("-o"), text("out"), text("-nostdlib")]
    );
}
