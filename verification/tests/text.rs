use zeta::hir::{HirType, SourceSpan, StrId};
use zeta::list::List;
use zeta::text_utils::{
    byte_offset_from_utf16, byte_offset_in_source, declaration_span, ident_at_column, ident_at_end,
    line_at, narrow_ident_at_column, narrow_ident_at_end, nearest_prior_occurrence, prefix_before,
    span_text, span_to_position, span_to_range, tightest_occurrence, to_span_coords,
    utf16_offset_from_byte, word_bounds, Position, Range,
};
use zeta::type_checker::Occurrence;
use zeta::type_context::{LocalSymbolId, SymbolId};

fn pos(line: u32, character: u32) -> Position {
    Position { line, character }
}

fn span(line: usize, column: usize, end_line: usize, end_column: usize) -> SourceSpan {
    SourceSpan { line, column, end_line, end_column }
}

fn local(id: u32) -> SymbolId {
    SymbolId::Local(LocalSymbolId(id))
}

fn occurrence(name: u32, ty: HirType, at: SourceSpan, id: u32, is_declaration: bool) -> Occurrence {
    Occurrence {
        span: at,
        name: StrId::Interned(name),
        ty,
        module_idx: 0,
        symbol: local(id),
        is_declaration,
    }
}

#[test]
fn code_units_lead_to_bytes() {
    let line = "aé😀b";
    assert_eq!(byte_offset_from_utf16(line, 0), 0);
    assert_eq!(byte_offset_from_utf16(line, 1), 1);
    assert_eq!(byte_offset_from_utf16(line, 2), 3);
    assert_eq!(byte_offset_from_utf16(line, 3), 7);
    assert_eq!(byte_offset_from_utf16(line, 4), 7);
    assert_eq!(byte_offset_from_utf16(line, 5), 8);
    assert_eq!(byte_offset_from_utf16(line, 99), 8);
    assert_eq!(byte_offset_from_utf16("", 3), 0);
}

#[test]
fn bytes_lead_to_code_units() {
    let line = "aé😀b";
    assert_eq!(utf16_offset_from_byte(line, 0), 0);
    assert_eq!(utf16_offset_from_byte(line, 1), 1);
    assert_eq!(utf16_offset_from_byte(line, 3), 2);
    assert_eq!(utf16_offset_from_byte(line, 7), 4);
    assert_eq!(utf16_offset_from_byte(line, 8), 5);
    assert_eq!(utf16_offset_from_byte(line, 1000), 5);
}

#[test]
fn offsets_convert_back_and_forth() {
    let line = "x€y😀z";
    for bytes in [0usize, 1, 4, 5, 9, 10] {
        let units = utf16_offset_from_byte(line, bytes);
        assert_eq!(byte_offset_from_utf16(line, units), bytes);
    }
}

#[test]
fn lines_end_at_line_feeds() {
    let source = "a\r\nb\n\nc\rd\r";
    assert_eq!(line_at(source, 0), Some("a"));
    assert_eq!(line_at(source, 1), Some("b"));
    assert_eq!(line_at(source, 2), Some(""));
    assert_eq!(line_at(source, 3), Some("c\rd\r"));
    assert_eq!(line_at(source, 4), None);
    assert_eq!(line_at("x\n", 0), Some("x"));
    assert_eq!(line_at("x\n", 1), None);
    assert_eq!(line_at("", 0), None);
    assert_eq!(line_at("\n", 0), Some(""));
}

#[test]
fn prefix_stops_at_the_cursor() {
    let source = "let 😀x = 1;\nnext";
    assert_eq!(prefix_before(source, pos(0, 6)), "let 😀");
    assert_eq!(prefix_before(source, pos(1, 2)), "ne");
    assert_eq!(prefix_before(source, pos(1, 40)), "next");
    assert_eq!(prefix_before(source, pos(7, 1)), "");
}

#[test]
fn identifier_at_the_end_of_a_text() {
    assert_eq!(ident_at_end("foo.bar_1"), "bar_1");
    assert_eq!(ident_at_end("foo."), "");
    assert_eq!(ident_at_end("abc"), "abc");
    assert_eq!(ident_at_end(""), "");
    assert_eq!(ident_at_end("(été"), "été");
    assert_eq!(narrow_ident_at_end("foo.bar_1"), Some("bar_1"));
    assert_eq!(narrow_ident_at_end("→bar"), None);
}

#[test]
fn identifier_around_a_column() {
    let line = "let abc = x;";
    assert_eq!(ident_at_column(line, 5), Some("abc"));
    assert_eq!(ident_at_column(line, 4), Some("abc"));
    assert_eq!(ident_at_column(line, 7), Some("abc"));
    assert_eq!(ident_at_column(line, 3), Some("let"));
    assert_eq!(ident_at_column(line, 9), None);
    assert_eq!(ident_at_column(line, 100), None);
    assert_eq!(narrow_ident_at_column(line, 5), (true, Some("abc")));
    assert_eq!(narrow_ident_at_column("→abc", 2), (false, None));
}

#[test]
fn word_reaches_as_far_as_its_characters() {
    let words = vec![false, true, true, false, true];
    assert_eq!(word_bounds(&words, 2), (1, 3));
    assert_eq!(word_bounds(&words, 0), (0, 0));
    assert_eq!(word_bounds(&words, 3), (1, 3));
    assert_eq!(word_bounds(&words, 5), (4, 5));
}

#[test]
fn positions_become_span_coordinates() {
    let source = "aé😀b\nxy";
    assert_eq!(to_span_coords(source, pos(0, 2)), (1, 4));
    assert_eq!(to_span_coords(source, pos(1, 1)), (2, 2));
    assert_eq!(to_span_coords(source, pos(5, 7)), (6, 8));
}

#[test]
fn span_coordinates_become_positions() {
    let source = "aé😀b\nxy";
    assert_eq!(span_to_position(source, 1, 4), pos(0, 2));
    assert_eq!(span_to_position(source, 1, 8), pos(0, 4));
    assert_eq!(span_to_position(source, 0, 0), pos(0, 0));
    assert_eq!(span_to_position(source, 9, 5), pos(8, 4));
    assert_eq!(
        span_to_range(source, 1, 2, 2, 3),
        Range { start: pos(0, 1), end: pos(1, 2) }
    );
}

#[test]
fn tightest_occurrence_wins() {
    let occurrences = List::from_vec(vec![
        occurrence(1, HirType::I32, span(1, 1, 3, 9), 1, true),
        occurrence(2, HirType::Boolean, span(1, 5, 1, 20), 2, false),
        occurrence(3, HirType::Char, span(1, 8, 1, 12), 3, false),
        occurrence(4, HirType::Void, span(1, 8, 1, 12), 4, false),
    ]);
    assert_eq!(
        tightest_occurrence(&occurrences, 0, 1, 10),
        Some((StrId::Interned(3), HirType::Char, local(3)))
    );
    assert_eq!(
        tightest_occurrence(&occurrences, 0, 1, 20),
        Some((StrId::Interned(2), HirType::Boolean, local(2)))
    );
    assert_eq!(
        tightest_occurrence(&occurrences, 0, 2, 999),
        Some((StrId::Interned(1), HirType::I32, local(1)))
    );
    assert_eq!(tightest_occurrence(&occurrences, 0, 4, 1), None);
    assert_eq!(tightest_occurrence(&occurrences, 1, 1, 10), None);
}

#[test]
fn declarations_are_found_by_symbol() {
    let occurrences = List::from_vec(vec![
        occurrence(1, HirType::I32, span(2, 1, 2, 2), 7, false),
        occurrence(1, HirType::I32, span(1, 5, 1, 6), 7, true),
    ]);
    assert_eq!(declaration_span(&occurrences, local(7)), Some(span(1, 5, 1, 6)));
    assert_eq!(declaration_span(&occurrences, local(8)), None);
}

#[test]
fn nearest_occurrence_before_the_cursor() {
    let occurrences = List::from_vec(vec![
        occurrence(1, HirType::I32, span(1, 1, 1, 2), 1, true),
        occurrence(1, HirType::Char, span(3, 4, 3, 5), 2, true),
        occurrence(1, HirType::Boolean, span(3, 4, 3, 5), 3, true),
        occurrence(2, HirType::Void, span(3, 5, 3, 6), 4, true),
        occurrence(1, HirType::String, span(9, 1, 9, 2), 5, true),
    ]);
    let name = StrId::Interned(1);
    assert_eq!(nearest_prior_occurrence(&occurrences, 0, name, 3, 4), Some(HirType::Boolean));
    assert_eq!(nearest_prior_occurrence(&occurrences, 0, name, 3, 3), Some(HirType::I32));
    assert_eq!(nearest_prior_occurrence(&occurrences, 0, name, 0, 9), None);
    assert_eq!(nearest_prior_occurrence(&occurrences, 2, name, 9, 9), None);
}

#[test]
fn text_of_a_span() {
    let source = "let été = 1;\nxy";
    assert_eq!(span_text(source, &span(1, 5, 1, 10)), Some("été".to_string()));
    assert_eq!(span_text(source, &span(2, 1, 2, 3)), Some("xy".to_string()));
    assert_eq!(span_text(source, &span(2, 1, 2, 4)), None);
    assert_eq!(span_text(source, &span(2, 3, 2, 2)), None);
    assert_eq!(span_text(source, &span(1, 1, 2, 1)), None);
    assert_eq!(span_text(source, &span(5, 1, 5, 2)), None);
}

#[test]
fn offsets_in_a_whole_text() {
    let source = "aé\nb😀c\n";
    assert_eq!(byte_offset_in_source(source, pos(0, 1)), 1);
    assert_eq!(byte_offset_in_source(source, pos(0, 2)), 3);
    assert_eq!(byte_offset_in_source(source, pos(0, 9)), 4);
    assert_eq!(byte_offset_in_source(source, pos(1, 0)), 4);
    assert_eq!(byte_offset_in_source(source, pos(1, 3)), 9);
    assert_eq!(byte_offset_in_source(source, pos(8, 3)), 11);
    assert_eq!(byte_offset_in_source("", pos(0, 0)), 0);
}
