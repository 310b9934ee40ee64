use std::rc::Rc;

use zeta::documents::{Action, Change, ServerState};
use zeta::hir::{
    FlowGraph, FuncSafety, HirEnum, HirField, HirFunc, HirParam, HirStruct, HirType, RefKind,
    SourceSpan, StrId, Visibility,
};
use zeta::list::{List, Table};
use zeta::semantic_tokens::{
    build_semantic_tokens, legend, ItemDecl, ItemKind, SemanticToken, SourceModule, TokenKind,
};
use zeta::server::{
    apply_change, completion_base, completions_after, completions_at, document_symbols_at,
    find_name, go_to_definition, hover_at, hover_word, item_decl_span, narrow_completion_base,
    references_at, rename_at, strip_container, CompletionItem, CompletionKind, Detail,
    DocumentSymbol, Hover, Location, MidCharacter, RenameError,
};
use zeta::text_utils::{Position, Range};
use zeta::type_checker::Occurrence;
use zeta::type_context::{LocalSymbolId, SymbolId, TypeContext};

fn id(n: u32) -> StrId {
    StrId::Interned(n)
}

fn span(line: usize, column: usize, end_column: usize) -> SourceSpan {
    SourceSpan { line, column, end_line: line, end_column }
}

fn pos(line: u32, character: u32) -> Position {
    Position { line, character }
}

fn range(line: u32, start: u32, end: u32) -> Range {
    Range { start: pos(line, start), end: pos(line, end) }
}

fn local(n: u32) -> SymbolId {
    SymbolId::Local(LocalSymbolId(n))
}

fn item(n: usize, tag: u32) -> SymbolId {
    SymbolId::Item { module_idx: 0, item_idx: n, tag: id(tag) }
}

fn occurrence(name: u32, at: SourceSpan, symbol: SymbolId, is_declaration: bool) -> Occurrence {
    Occurrence {
        span: at,
        name: id(name),
        ty: HirType::I32,
        module_idx: 0,
        symbol,
        is_declaration,
    }
}

fn names() -> Table<StrId, String> {
    List::from_vec(vec![
        (id(1), "abc".to_string()),
        (id(2), "f".to_string()),
        (id(3), "Point".to_string()),
        (id(4), "x".to_string()),
        (id(5), "go".to_string()),
        (id(6), "func_sig".to_string()),
        (id(7), "type".to_string()),
        (id(8), "Colour".to_string()),
    ])
}

fn decl(kind: ItemKind, name: u32, at: SourceSpan) -> ItemDecl {
    ItemDecl { kind, name: id(name), span: at }
}

const TEXT: &str = "let abc = f;\nabc + abc";

fn modules() -> Table<usize, SourceModule> {
    List::from_vec(vec![(
        0usize,
        SourceModule {
            source: TEXT.to_string(),
            items: List::from_vec(vec![
                decl(ItemKind::Func, 2, span(1, 11, 12)),
                decl(ItemKind::Other, 1, span(1, 5, 8)),
                decl(ItemKind::Struct, 3, span(1, 1, 4)),
                decl(ItemKind::Enum, 8, span(1, 1, 4)),
                decl(ItemKind::Interface, 8, span(1, 1, 4)),
            ]),
        },
    )])
}

fn occurrences() -> List<Occurrence> {
    List::from_vec(vec![
        occurrence(1, span(2, 7, 10), local(1), false),
        occurrence(1, span(1, 5, 8), local(1), true),
        occurrence(2, span(1, 11, 12), item(0, 6), true),
        occurrence(1, span(2, 1, 4), local(1), false),
    ])
}

fn token(delta_line: u32, delta_start: u32, length: u32, token_type: u32) -> SemanticToken {
    SemanticToken { delta_line, delta_start, length, token_type, token_modifiers_bitset: 0 }
}

#[test]
fn tokens_come_in_order_and_relative() {
    let tokens = build_semantic_tokens(&occurrences(), &modules(), &names(), 0, &TEXT.to_string());
    assert_eq!(
        tokens,
        vec![token(0, 4, 3, 0), token(0, 6, 1, 2), token(1, 0, 3, 0), token(0, 6, 3, 0)]
    );
}

#[test]
fn tokens_add_up_to_places() {
    let tokens = build_semantic_tokens(&occurrences(), &modules(), &names(), 0, &TEXT.to_string());
    let mut line = 0;
    let mut start = 0;
    let mut places = Vec::new();
    for t in tokens {
        line += t.delta_line;
        start = if t.delta_line == 0 { start + t.delta_start } else { t.delta_start };
        places.push((line, start));
    }
    assert_eq!(places, vec![(0, 4), (0, 10), (1, 0), (1, 6)]);
}

#[test]
fn one_token_per_place_the_first() {
    let twice = List::from_vec(vec![
        occurrence(1, span(1, 5, 8), local(1), true),
        occurrence(1, span(1, 5, 8), SymbolId::Field { struct_name: id(3), field_name: id(1) }, false),
    ]);
    let tokens = build_semantic_tokens(&twice, &modules(), &names(), 0, &TEXT.to_string());
    assert_eq!(tokens, vec![token(0, 4, 3, 0)]);
}

#[test]
fn tokens_of_every_kind() {
    let all = List::from_vec(vec![
        occurrence(1, span(1, 5, 8), SymbolId::Field { struct_name: id(3), field_name: id(1) }, false),
        occurrence(
            1,
            span(2, 1, 4),
            SymbolId::Method { module_idx: 0, item_idx: 0, method_idx: 0 },
            false,
        ),
        occurrence(1, span(2, 7, 10), item(2, 7), false),
        occurrence(2, span(1, 11, 12), item(3, 7), false),
    ]);
    let tokens = build_semantic_tokens(&all, &modules(), &names(), 0, &TEXT.to_string());
    assert_eq!(
        tokens,
        vec![token(0, 4, 3, 1), token(0, 6, 1, 5), token(1, 0, 3, 3), token(0, 6, 3, 4)]
    );
    let odd = List::from_vec(vec![
        occurrence(1, span(1, 5, 8), item(1, 7), false),
        occurrence(1, span(2, 1, 4), item(9, 7), false),
        occurrence(1, span(1, 1, 4), local(1), false),
        occurrence(2, span(1, 11, 12), item(4, 7), false),
    ]);
    let tokens = build_semantic_tokens(&odd, &modules(), &names(), 0, &TEXT.to_string());
    assert_eq!(tokens, vec![token(0, 10, 1, 6)]);
    assert!(build_semantic_tokens(&odd, &modules(), &names(), 3, &TEXT.to_string()).is_empty());
}

#[test]
fn renaming_reaches_all_occurrences() {
    let edits = rename_at(&occurrences(), 0, &TEXT.to_string(), pos(1, 1), &modules(), &names());
    let all = List::from_vec(vec![
        Location { module_idx: 0, range: range(1, 6, 9) },
        Location { module_idx: 0, range: range(0, 4, 7) },
        Location { module_idx: 0, range: range(1, 0, 3) },
    ]);
    assert_eq!(edits, Ok(all));
    let shown =
        references_at(&occurrences(), 0, &TEXT.to_string(), pos(1, 1), true, &modules(), &names());
    assert_eq!(edits, Ok(shown));
}

#[test]
fn renaming_can_be_refused() {
    let text = TEXT.to_string();
    assert_eq!(
        rename_at(&occurrences(), 0, &text, pos(0, 10), &modules(), &names()),
        Err(RenameError::TopLevelItem)
    );
    assert_eq!(
        rename_at(&occurrences(), 0, &text, pos(5, 0), &modules(), &names()),
        Err(RenameError::NoSymbol)
    );
    assert_eq!(
        rename_at(&occurrences(), 0, &text, pos(1, 1), &List::from_vec(vec![]), &names()),
        Err(RenameError::SourceUnavailable)
    );
    let wide = List::from_vec(vec![occurrence(1, span(1, 1, 8), local(1), false)]);
    assert_eq!(
        rename_at(&wide, 0, &text, pos(0, 1), &modules(), &names()),
        Err(RenameError::NotLocated(id(1)))
    );
    assert_eq!(
        zeta::server::rename_symbol(&occurrences(), local(9), &modules(), &names()),
        Err(RenameError::NoOccurrences)
    );
}

#[test]
fn references_leave_the_declaration_out() {
    let text = TEXT.to_string();
    let uses = references_at(&occurrences(), 0, &text, pos(1, 1), false, &modules(), &names());
    assert_eq!(
        uses,
        List::from_vec(vec![
            Location { module_idx: 0, range: range(1, 6, 9) },
            Location { module_idx: 0, range: range(1, 0, 3) },
        ])
    );
    let of_item = references_at(&occurrences(), 0, &text, pos(0, 10), true, &modules(), &names());
    assert_eq!(
        of_item,
        List::from_vec(vec![Location { module_idx: 0, range: range(0, 10, 11) }])
    );
    let none = references_at(&occurrences(), 0, &text, pos(0, 10), false, &modules(), &names());
    assert!(none.is_empty());
    assert!(references_at(&occurrences(), 0, &text, pos(9, 0), true, &modules(), &names()).is_empty());
}

#[test]
fn definition_of_the_symbol_at_the_cursor() {
    let text = TEXT.to_string();
    assert_eq!(go_to_definition(&occurrences(), 0, &text, pos(1, 7)), Some(range(0, 4, 7)));
    assert_eq!(go_to_definition(&occurrences(), 0, &text, pos(7, 7)), None);
}

#[test]
fn outline_lists_declarations() {
    let items = List::from_vec(vec![
        decl(ItemKind::Other, 1, span(1, 1, 4)),
        decl(ItemKind::Func, 2, span(1, 5, 8)),
    ]);
    assert_eq!(
        document_symbols_at(&items, &TEXT.to_string()),
        List::from_vec(vec![DocumentSymbol {
            name: id(2),
            kind: ItemKind::Func,
            range: range(0, 4, 7),
        }])
    );
}

#[test]
fn tags_tell_what_a_declaration_is() {
    let at = span(1, 1, 2);
    let items = List::from_vec(vec![
        decl(ItemKind::Func, 1, at),
        decl(ItemKind::Struct, 1, at),
        decl(ItemKind::Enum, 1, at),
        decl(ItemKind::Interface, 1, at),
        decl(ItemKind::Other, 1, at),
    ]);
    assert_eq!(item_decl_span(&items, 0, &"func_sig".to_string()), Some(at));
    assert_eq!(item_decl_span(&items, 0, &"func_body".to_string()), Some(at));
    assert_eq!(item_decl_span(&items, 0, &"type".to_string()), None);
    assert_eq!(item_decl_span(&items, 1, &"type".to_string()), Some(at));
    assert_eq!(item_decl_span(&items, 2, &"type".to_string()), Some(at));
    assert_eq!(item_decl_span(&items, 3, &"trait".to_string()), Some(at));
    assert_eq!(item_decl_span(&items, 4, &"type".to_string()), None);
    assert_eq!(item_decl_span(&items, 9, &"type".to_string()), None);
}

#[test]
fn containers_are_stripped() {
    let inner = HirType::OwnedPointer { inner: Rc::new(HirType::I32), allocator: None };
    let ty = HirType::Ref { inner: Rc::new(inner), ref_kind: RefKind::Shared, provenance: None };
    assert_eq!(strip_container(&ty), HirType::I32);
    assert_eq!(strip_container(&HirType::Nullable(Rc::new(HirType::I32))), HirType::Nullable(Rc::new(HirType::I32)));
}

fn func(name: u32, params: Option<List<HirParam>>, result: Option<HirType>) -> HirFunc {
    HirFunc {
        name: id(name),
        unmangled_name: id(name),
        params,
        return_type: result,
        body: None,
        generics: None,
        impl_target: None,
        declaring_module_idx: 0,
        func_safety: FuncSafety::Safe,
        visibility: Visibility::Public,
        span: span(1, 1, 2),
        flow: FlowGraph {
            entry: None,
            successors: List::from_vec(vec![]),
            stmt_points: List::from_vec(vec![]),
            stmt_after_points: List::from_vec(vec![]),
        },
    }
}

fn point() -> HirStruct {
    HirStruct {
        name: id(3),
        fields: List::from_vec(vec![HirField { name: id(4), field_type: HirType::I32 }]),
        generics: None,
    }
}

fn context() -> TypeContext {
    let mut context = TypeContext::new();
    context.add_struct(0, id(3), Rc::new(point()));
    context.add_enum(
        0,
        id(8),
        Rc::new(HirEnum { name: id(8), variants: List::from_vec(vec![]), generics: None }),
    );
    context.add_function(0, id(2), Rc::new(func(2, None, Some(HirType::Char))));
    context.add_function(1, id(5), Rc::new(func(5, None, None)));
    context
}

#[test]
fn base_stands_before_the_last_dot() {
    assert_eq!(completion_base("a.b.c"), Some("b".to_string()));
    assert_eq!(completion_base("abc"), None);
    assert_eq!(completion_base("(.x"), None);
    assert_eq!(narrow_completion_base("  p."), (true, Some("p".to_string())));
    assert_eq!(narrow_completion_base("→p.x"), (false, None));
}

#[test]
fn members_of_a_struct_are_completed() {
    let field = CompletionItem {
        label: id(4),
        kind: CompletionKind::Field,
        detail: Detail::Type(HirType::I32),
    };
    let none: List<usize> = List::from_vec(vec![]);
    let text = "Point.".to_string();
    let items = completions_after(
        &context(),
        &names(),
        &List::from_vec(vec![]),
        0,
        &none,
        &text,
        pos(0, 6),
        &Some("Point".to_string()),
    );
    assert_eq!(items, List::from_vec(vec![field]));

    let mut value = occurrence(1, span(1, 1, 4), local(1), true);
    value.ty = HirType::SafePointer {
        inner: Rc::new(HirType::Struct {
            name: id(3),
            field_types: List::from_vec(vec![]),
            type_args: List::from_vec(vec![]),
        }),
        mutability_state: zeta::hir::MutabilityState::Const,
    };
    let through = completions_after(
        &context(),
        &names(),
        &List::from_vec(vec![value]),
        0,
        &none,
        &"abc.".to_string(),
        pos(0, 4),
        &Some("abc".to_string()),
    );
    assert_eq!(through.len(), 1);

    let unknown = completions_after(
        &context(),
        &names(),
        &List::from_vec(vec![]),
        0,
        &none,
        &text,
        pos(0, 6),
        &Some("nowhere".to_string()),
    );
    assert!(unknown.is_empty());
}

#[test]
fn global_names_are_completed() {
    let items = completions_after(
        &context(),
        &names(),
        &List::from_vec(vec![]),
        0,
        &List::from_vec(vec![1usize, 7]),
        &String::new(),
        pos(0, 0),
        &None,
    );
    let expected = vec![
        CompletionItem { label: id(3), kind: CompletionKind::Struct, detail: Detail::Nothing },
        CompletionItem { label: id(8), kind: CompletionKind::Enum, detail: Detail::Nothing },
        CompletionItem {
            label: id(2),
            kind: CompletionKind::Function,
            detail: Detail::Gives(Some(HirType::Char)),
        },
        CompletionItem { label: id(5), kind: CompletionKind::Function, detail: Detail::Nothing },
    ];
    assert_eq!(items, List::from_vec(expected));
}

#[test]
fn hover_tells_types_and_declarations() {
    let none: List<Occurrence> = List::from_vec(vec![]);
    let text = TEXT.to_string();
    let ask = |word: &str, at: Position, occurrences: &List<Occurrence>| {
        hover_word(&context(), &names(), occurrences, 0, &text, at, &word.to_string())
    };
    assert_eq!(ask("abc", pos(1, 1), &occurrences()), Some(Hover::Value(HirType::I32)));
    assert_eq!(ask("Point", pos(0, 0), &none), Some(Hover::Struct(1)));
    assert_eq!(ask("Colour", pos(0, 0), &none), Some(Hover::Enum));
    assert_eq!(ask("f", pos(0, 0), &none), Some(Hover::Function(0, Some(HirType::Char))));
    assert_eq!(ask("go", pos(0, 0), &none), None);
    assert_eq!(ask("nothing", pos(1, 1), &occurrences()), None);
}

#[test]
fn completions_follow_the_cursor() {
    let none: List<usize> = List::from_vec(vec![]);
    let ask = |text: &str, at: Position| {
        completions_at(
            &context(),
            &names(),
            &List::from_vec(vec![]),
            0,
            &none,
            &text.to_string(),
            at,
        )
    };
    let members = ask("\n  Point.x", pos(1, 8)).unwrap();
    assert_eq!(members.len(), 1);
    assert_eq!(members.get(0).unwrap().label, id(4));
    let globals = ask("\n  Point.x", pos(1, 7)).unwrap();
    assert_eq!(globals.get(0).unwrap().kind, CompletionKind::Struct);
    assert!(ask("nowhere.", pos(0, 8)).unwrap().is_empty());
    assert_eq!(ask("→p.x", pos(0, 4)), Err(MidCharacter));
    assert_eq!(ask("", pos(4, 0)), ask("", pos(0, 0)));
}

#[test]
fn hover_follows_the_cursor() {
    let none: List<Occurrence> = List::from_vec(vec![]);
    let ask = |text: &str, at: Position| {
        hover_at(&context(), &names(), &none, 0, &text.to_string(), at)
    };
    let point = Some(("Point".to_string(), Hover::Struct(1)));
    assert_eq!(ask("let Point", pos(0, 6)), Ok(point));
    assert_eq!(ask("let Point", pos(0, 3)), Ok(None));
    assert_eq!(ask("let Point", pos(3, 0)), Ok(None));
    assert_eq!(ask(" + Colour", pos(0, 1)), Ok(None));
    assert_eq!(ask("→Point", pos(0, 3)), Err(MidCharacter));
    let text = TEXT.to_string();
    let told = hover_at(&context(), &names(), &occurrences(), 0, &text, pos(1, 1));
    assert_eq!(told, Ok(Some(("abc".to_string(), Hover::Value(HirType::I32)))));
}

#[test]
fn names_are_found_by_spelling() {
    assert_eq!(find_name(&names(), &"Point".to_string()), Some(id(3)));
    assert_eq!(find_name(&names(), &"point".to_string()), None);
}

#[test]
fn changes_replace_parts() {
    let mut text = "aé\nb😀c\n".to_string();
    apply_change(&mut text, Some(Range { start: pos(0, 1), end: pos(1, 3) }), &"-".to_string());
    assert_eq!(text, "a-c\n");
    apply_change(&mut text, Some(range(0, 2, 2)), &String::new());
    assert_eq!(text, "a-c\n");
    apply_change(&mut text, Some(Range { start: pos(5, 0), end: pos(6, 0) }), &"end".to_string());
    assert_eq!(text, "a-c\nend");
    apply_change(&mut text, None, &"whole".to_string());
    assert_eq!(text, "whole");
}

#[test]
fn documents_follow_the_editor() {
    let mut state = ServerState::new();
    let uri = "file:///a".to_string();
    let path = "/a".to_string();
    let opened = state.opened(&uri, 1, &"one".to_string(), &path);
    assert!(matches!(opened, Action::Compile { path: p, text: t } if p == "/a" && t == "one"));
    let changes = vec![
        Change { range: Some(range(0, 0, 1)), text: "t".to_string() },
        Change { range: Some(range(0, 1, 3)), text: "wo".to_string() },
    ];
    let changed = state.changed(&uri, 2, &changes);
    assert!(matches!(changed, Action::Compile { path: p, text: t } if p == "/a" && t == "two"));
    assert_eq!(state.documents[0].version, 2);
    assert_eq!(state.documents[0].text, "two");
    assert!(matches!(state.saved(&uri), Action::ReadAndCompile { path: p } if p == "/a"));
    let other = "file:///b".to_string();
    assert!(matches!(state.changed(&other, 3, &changes), Action::Nothing));
    assert!(matches!(state.saved(&other), Action::Nothing));
    assert!(matches!(state.closed(&other), Action::Nothing));
    state.opened(&uri, 5, &"again".to_string(), &path);
    assert_eq!(state.documents.len(), 1);
    assert!(matches!(state.closed(&uri), Action::Close { path: p } if p == "/a"));
    assert!(state.documents.is_empty());
    assert!(!state.should_exit);
    state.exited();
    assert!(state.should_exit);
}

#[test]
fn token_numbers_stand_for_kinds() {
    let kinds = legend();
    assert_eq!(kinds.len(), 7);
    assert_eq!(kinds[0], TokenKind::Variable);
    assert_eq!(kinds[1], TokenKind::Property);
    assert_eq!(kinds[2], TokenKind::Function);
    assert_eq!(kinds[3], TokenKind::Method);
    assert_eq!(kinds[4], TokenKind::Struct);
    assert_eq!(kinds[5], TokenKind::Enum);
    assert_eq!(kinds[6], TokenKind::Interface);
}
