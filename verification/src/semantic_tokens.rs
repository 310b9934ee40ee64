//! The tokens that an editor colours.
//!
//! Every occurrence of a name that stands in the text as it is spelled becomes a token. The tokens
//! are ordered by where they start, one per place, and each is told relative to the one before it.

use vstd::prelude::*;
use vstd::string::*;

use crate::hir::{SourceSpan, StrId};
use crate::list::{find, lookup, Cons, List, Nil, Table};
use crate::text_utils::{
    between_chars, bytes_end, covered, line_at, line_text, one_less, position_of, span_fits,
    span_text, span_to_position, unit_len, utf16_offset_from_byte,
};
use crate::type_checker::Occurrence;
use crate::type_context::SymbolId;

verus! {

#[derive(Clone, Copy, Debug, PartialEq, Eq, Structural)]
pub enum ItemKind {
    Func,
    Struct,
    Enum,
    Interface,
    Other,
}

/// A top-level statement of a module.
#[derive(Clone, Copy, Debug, PartialEq, Eq, Structural)]
pub struct ItemDecl {
    pub kind: ItemKind,
    pub name: StrId,
    pub span: SourceSpan,
}

/// A loaded module: its text and its top-level statements.
#[derive(Debug)]
pub struct SourceModule {
    pub source: String,
    pub items: List<ItemDecl>,
}

/// A token by where it stands in the text.
#[derive(Clone, Copy, Debug, PartialEq, Eq, Structural)]
pub struct RawToken {
    pub line: u32,
    pub start_char: u32,
    pub length: u32,
    pub token_type: u32,
}

/// A token relative to the one before it: how many lines further down it is, and how many code units
/// further right, from the start of the line where the line is another.
#[derive(Clone, Copy, Debug, PartialEq, Eq, Structural)]
pub struct SemanticToken {
    pub delta_line: u32,
    pub delta_start: u32,
    pub length: u32,
    pub token_type: u32,
    pub token_modifiers_bitset: u32,
}

/// What a token is.
#[derive(Clone, Copy, Debug, PartialEq, Eq, Structural)]
pub enum TokenKind {
    Variable,
    Property,
    Function,
    Method,
    Struct,
    Enum,
    Interface,
}

/// The kinds of tokens in the order of their numbers.
pub open spec fn token_kinds() -> Seq<TokenKind> {
    seq![
        TokenKind::Variable,
        TokenKind::Property,
        TokenKind::Function,
        TokenKind::Method,
        TokenKind::Struct,
        TokenKind::Enum,
        TokenKind::Interface,
    ]
}

/// The kinds of tokens, by which an editor reads the numbers of tokens.
pub fn legend() -> (kinds: Vec<TokenKind>)
    ensures
        kinds@ == token_kinds(),
{
    let mut kinds: Vec<TokenKind> = Vec::new();
    kinds.push(TokenKind::Variable);
    kinds.push(TokenKind::Property);
    kinds.push(TokenKind::Function);
    kinds.push(TokenKind::Method);
    kinds.push(TokenKind::Struct);
    kinds.push(TokenKind::Enum);
    kinds.push(TokenKind::Interface);
    kinds
}

pub open spec fn type_of_item(kind: ItemKind) -> Option<u32> {
    match kind {
        ItemKind::Func => Some(2),
        ItemKind::Struct => Some(4),
        ItemKind::Enum => Some(5),
        ItemKind::Interface => Some(6),
        ItemKind::Other => None,
    }
}

/// The number of a symbol's kind in the legend.
pub open spec fn type_of_symbol(modules: Table<usize, SourceModule>, symbol: SymbolId) -> Option<u32> {
    match symbol {
        SymbolId::Local(_) => Some(0),
        SymbolId::Field { .. } => Some(1),
        SymbolId::Method { .. } => Some(3),
        SymbolId::Item { module_idx, item_idx, .. } => match lookup(modules, module_idx) {
            None => None,
            Some(module) => match module.items.nth(item_idx) {
                Some(item) => type_of_item(item.kind),
                None => None,
            },
        },
    }
}

fn token_type(modules: &Table<usize, SourceModule>, symbol: &SymbolId) -> (ty: Option<u32>)
    ensures
        ty == type_of_symbol(*modules, *symbol),
{
    match symbol {
        SymbolId::Local(_) => Some(0),
        SymbolId::Field { .. } => Some(1),
        SymbolId::Method { .. } => Some(3),
        SymbolId::Item { module_idx, item_idx, .. } => match find(modules, module_idx) {
            None => None,
            Some(module) => match module.items.get(*item_idx) {
                Some(item) => match item.kind {
                    ItemKind::Func => Some(2),
                    ItemKind::Struct => Some(4),
                    ItemKind::Enum => Some(5),
                    ItemKind::Interface => Some(6),
                    ItemKind::Other => None,
                },
                None => None,
            },
        },
    }
}

/// How a name is spelled.
pub open spec fn spelling(names: Table<StrId, String>, name: StrId) -> Option<Seq<char>> {
    match lookup(names, name) {
        Some(text) => Some(text@),
        None => None,
    }
}

/// Whether the text of a span can be taken: its line is counted from one, and where the span fits the
/// line it starts and ends between characters, on a line short enough to count.
pub open spec fn span_sound(chars: Seq<char>, span: SourceSpan) -> bool {
    &&& span.line == span.end_line ==> span.line > 0
    &&& span_fits(chars, span) ==> match line_text(chars, ((span.line - 1) as u32) as nat) {
        Some(line) => {
            &&& between_chars(line, one_less(span.column) as int)
            &&& between_chars(line, one_less(span.end_column) as int)
            &&& unit_len(line) <= u32::MAX
        },
        None => true,
    }
}

/// Whether the text of a span is the spelling of a name.
pub open spec fn is_spelled(
    chars: Seq<char>,
    span: SourceSpan,
    names: Table<StrId, String>,
    name: StrId,
) -> bool {
    covered(chars, span) is Some && covered(chars, span) == spelling(names, name)
}

/// Whether the text of a span is the spelling of a name.
pub fn spells(source: &String, span: &SourceSpan, names: &Table<StrId, String>, name: StrId) -> (yes: bool)
    requires
        span_sound(source@, *span),
    ensures
        yes == is_spelled(source@, *span, *names, name),
{
    match span_text(source.as_str(), span) {
        None => false,
        Some(text) => match find(names, &name) {
            Some(expected) => text == *expected,
            None => false,
        },
    }
}

/// Where in its line a span ends, in code units.
pub open spec fn end_char(chars: Seq<char>, span: SourceSpan) -> u32 {
    match line_text(chars, (one_less(span.line) as u32) as nat) {
        Some(line) => unit_len(line.take(bytes_end(line, one_less(span.end_column) as int))) as u32,
        None => 0,
    }
}

/// The token of an occurrence in the text of a module, if it has one.
pub open spec fn token_of(
    occurrence: Occurrence,
    modules: Table<usize, SourceModule>,
    names: Table<StrId, String>,
    module_idx: usize,
    chars: Seq<char>,
) -> Option<RawToken> {
    if occurrence.module_idx != module_idx {
        None
    } else {
        match type_of_symbol(modules, occurrence.symbol) {
            None => None,
            Some(token_type) => if !is_spelled(chars, occurrence.span, names, occurrence.name) {
                None
            } else {
                let start = position_of(chars, occurrence.span.line, occurrence.span.column);
                Some(
                    RawToken {
                        line: start.line,
                        start_char: start.character,
                        length: (end_char(chars, occurrence.span) - start.character) as u32,
                        token_type,
                    },
                )
            },
        }
    }
}

/// The tokens of all occurrences in the text of a module, in the order of the occurrences.
pub open spec fn tokens_of(
    occurrences: List<Occurrence>,
    modules: Table<usize, SourceModule>,
    names: Table<StrId, String>,
    module_idx: usize,
    chars: Seq<char>,
) -> Seq<RawToken>
    decreases occurrences,
{
    match occurrences {
        Nil => Seq::empty(),
        Cons(occurrence, rest) => {
            let later = tokens_of(*rest, modules, names, module_idx, chars);
            match token_of(*occurrence, modules, names, module_idx, chars) {
                Some(token) => seq![token] + later,
                None => later,
            }
        },
    }
}

/// Whether the spans of all occurrences in a module suit its text.
pub open spec fn spans_sound(occurrences: List<Occurrence>, module_idx: usize, chars: Seq<char>) -> bool
    decreases occurrences,
{
    match occurrences {
        Nil => true,
        Cons(occurrence, rest) => {
            &&& occurrence.module_idx == module_idx ==> span_sound(chars, occurrence.span)
            &&& spans_sound(*rest, module_idx, chars)
        },
    }
}

proof fn span_starts_before_it_ends(chars: Seq<char>, span: SourceSpan)
    requires
        span_sound(chars, span),
        span_fits(chars, span),
    ensures
        position_of(chars, span.line, span.column).character <= end_char(chars, span),
{
    if let Some(line) = line_text(chars, ((span.line - 1) as u32) as nat) {
        let from = one_less(span.column) as int;
        let to = one_less(span.end_column) as int;
        crate::text_utils::fewer_bytes_end_earlier(line, from, to, 0);
        let first = bytes_end(line, from);
        let last = bytes_end(line, to);
        crate::text_utils::shorter_prefix(line, first, last);
        crate::text_utils::shorter_prefix(line, last, line.len() as int);
        assert(line.take(line.len() as int) == line);
    }
}

fn make_token(
    occurrence: &Occurrence,
    modules: &Table<usize, SourceModule>,
    names: &Table<StrId, String>,
    module_idx: usize,
    source: &String,
) -> (token: Option<RawToken>)
    requires
        occurrence.module_idx == module_idx ==> span_sound(source@, occurrence.span),
    ensures
        token == token_of(*occurrence, *modules, *names, module_idx, source@),
{
    if occurrence.module_idx != module_idx {
        return None;
    }
    match token_type(modules, &occurrence.symbol) {
        None => None,
        Some(token_type) => {
            let span = occurrence.span;
            if !spells(source, &span, names, occurrence.name) {
                return None;
            }
            proof {
                span_starts_before_it_ends(source@, span);
            }
            let start = span_to_position(source.as_str(), span.line, span.column);
            let column: usize = if span.end_column == 0 {
                0
            } else {
                span.end_column - 1
            };
            match line_at(source.as_str(), start.line) {
                None => None,
                Some(line) => {
                    let end: u32 = utf16_offset_from_byte(line, column);
                    Some(
                        RawToken {
                            line: start.line,
                            start_char: start.character,
                            length: end - start.character,
                            token_type,
                        },
                    )
                },
            }
        },
    }
}

fn collect_tokens(
    occurrences: &List<Occurrence>,
    modules: &Table<usize, SourceModule>,
    names: &Table<StrId, String>,
    module_idx: usize,
    source: &String,
    tokens: &mut Vec<RawToken>,
)
    requires
        spans_sound(*occurrences, module_idx, source@),
    ensures
        final(tokens)@ == old(tokens)@ + tokens_of(*occurrences, *modules, *names, module_idx, source@),
    decreases occurrences,
{
    match occurrences {
        Nil => {},
        Cons(occurrence, rest) => {
            if let Some(token) = make_token(occurrence, modules, names, module_idx, source) {
                tokens.push(token);
            }
            collect_tokens(rest, modules, names, module_idx, source, tokens);
        },
    }
}

pub open spec fn same_place(a: RawToken, b: RawToken) -> bool {
    a.line == b.line && a.start_char == b.start_char
}

/// Whether one token starts before another.
pub open spec fn starts_before(a: RawToken, b: RawToken) -> bool {
    a.line < b.line || (a.line == b.line && a.start_char < b.start_char)
}

pub open spec fn in_order(tokens: Seq<RawToken>) -> bool {
    forall|i: int, j: int|
        0 <= i < j < tokens.len() ==> #[trigger] starts_before(tokens[i], tokens[j])
}

/// Whether a token is the first of those that start where it starts.
pub open spec fn first_there(tokens: Seq<RawToken>, token: RawToken) -> bool {
    exists|i: int|
        0 <= i < tokens.len() && #[trigger] tokens[i] == token && forall|k: int|
            0 <= k < i ==> !same_place(#[trigger] tokens[k], token)
}

pub open spec fn place_taken(tokens: Seq<RawToken>, token: RawToken) -> bool {
    exists|i: int| 0 <= i < tokens.len() && same_place(#[trigger] tokens[i], token)
}

/// Whether the second sequence orders the first by place, with the first token of every place and no
/// other.
pub open spec fn arranges(tokens: Seq<RawToken>, sorted: Seq<RawToken>) -> bool {
    &&& in_order(sorted)
    &&& forall|i: int| 0 <= i < sorted.len() ==> #[trigger] first_there(tokens, sorted[i])
    &&& forall|i: int| 0 <= i < tokens.len() ==> #[trigger] place_taken(sorted, tokens[i])
}

/// Where a token belongs: behind all that start before it.
fn find_place(sorted: &Vec<RawToken>, token: &RawToken) -> (place: usize)
    requires
        in_order(sorted@),
    ensures
        place <= sorted.len(),
        forall|i: int| 0 <= i < place ==> starts_before(#[trigger] sorted[i], *token),
        forall|i: int| place <= i < sorted.len() ==> !starts_before(#[trigger] sorted[i], *token),
{
    let mut place: usize = 0;
    while place < sorted.len() && (sorted[place].line < token.line || (sorted[place].line
        == token.line && sorted[place].start_char < token.start_char))
        invariant
            place <= sorted.len(),
            forall|i: int| 0 <= i < place ==> starts_before(#[trigger] sorted[i], *token),
        decreases sorted.len() - place,
    {
        place = place + 1;
    }
    proof {
        assert forall|i: int| place <= i < sorted.len() implies !starts_before(
            #[trigger] sorted[i],
            *token,
        ) by {
            if place < i {
                assert(starts_before(sorted@[place as int], sorted@[i]));
            }
        }
    }
    place
}

/// The tokens ordered by place, with the first of every place.
fn arrange(tokens: &Vec<RawToken>) -> (sorted: Vec<RawToken>)
    ensures
        arranges(tokens@, sorted@),
{
    let mut sorted: Vec<RawToken> = Vec::new();
    let mut done: usize = 0;
    while done < tokens.len()
        invariant
            done <= tokens.len(),
            arranges(tokens@.take(done as int), sorted@),
        decreases tokens.len() - done,
    {
        let token = tokens[done];
        let place: usize = find_place(&sorted, &token);
        let ghost before = sorted@;
        let ghost seen = tokens@.take(done as int);
        if place < sorted.len() && sorted[place].line == token.line && sorted[place].start_char
            == token.start_char {
            proof {
                taken_place_arranges(seen, before, token, place as int);
            }
        } else {
            sorted.insert(place, token);
            proof {
                new_place_arranges(seen, before, token, place as int);
            }
        }
        assert(tokens@.take(done + 1) == seen.push(token));
        done = done + 1;
    }
    assert(tokens@.take(tokens.len() as int) == tokens@);
    sorted
}

proof fn first_stays_first(tokens: Seq<RawToken>, later: RawToken, token: RawToken)
    requires
        first_there(tokens, token),
    ensures
        first_there(tokens.push(later), token),
{
    let i = choose|i: int|
        0 <= i < tokens.len() && #[trigger] tokens[i] == token && forall|k: int|
            0 <= k < i ==> !same_place(#[trigger] tokens[k], token);
    assert(tokens.push(later)[i] == token);
    assert forall|k: int| 0 <= k < i implies !same_place(
        #[trigger] tokens.push(later)[k],
        token,
    ) by {
        assert(!same_place(tokens[k], token));
    }
}

proof fn taken_place_arranges(tokens: Seq<RawToken>, sorted: Seq<RawToken>, token: RawToken, place: int)
    requires
        arranges(tokens, sorted),
        0 <= place < sorted.len(),
        same_place(sorted[place], token),
    ensures
        arranges(tokens.push(token), sorted),
{
    let longer = tokens.push(token);
    assert forall|i: int| 0 <= i < sorted.len() implies #[trigger] first_there(longer, sorted[i]) by {
        first_stays_first(tokens, token, sorted[i]);
    }
    assert forall|i: int| 0 <= i < longer.len() implies #[trigger] place_taken(sorted, longer[i]) by {
        if i < tokens.len() {
            assert(place_taken(sorted, tokens[i]));
        } else {
            assert(same_place(sorted[place], token));
        }
    }
}

proof fn new_place_arranges(tokens: Seq<RawToken>, sorted: Seq<RawToken>, token: RawToken, place: int)
    requires
        arranges(tokens, sorted),
        0 <= place <= sorted.len(),
        forall|i: int| 0 <= i < place ==> starts_before(#[trigger] sorted[i], token),
        forall|i: int| place <= i < sorted.len() ==> !starts_before(#[trigger] sorted[i], token),
        place < sorted.len() ==> !same_place(sorted[place], token),
    ensures
        arranges(tokens.push(token), sorted.insert(place, token)),
{
    let longer = tokens.push(token);
    let result = sorted.insert(place, token);
    assert forall|i: int| place <= i < sorted.len() implies starts_before(token, #[trigger] sorted[i]) by {
        if place < i {
            assert(starts_before(sorted[place], sorted[i]));
        }
    }
    assert forall|i: int, j: int| 0 <= i < j < result.len() implies #[trigger] starts_before(
        result[i],
        result[j],
    ) by {
        if j < place {
            assert(starts_before(sorted[i], sorted[j]));
        } else if j > place {
            if i < place {
                assert(starts_before(sorted[i], sorted[j - 1]));
            } else if i > place {
                assert(starts_before(sorted[i - 1], sorted[j - 1]));
            } else {
                assert(starts_before(token, sorted[j - 1]));
            }
        } else {
            assert(starts_before(sorted[i], token));
        }
    }
    assert forall|k: int| 0 <= k < tokens.len() implies !same_place(#[trigger] tokens[k], token) by {
        assert(place_taken(sorted, tokens[k]));
        let i = choose|i: int| 0 <= i < sorted.len() && same_place(#[trigger] sorted[i], tokens[k]);
        if i < place {
            assert(starts_before(sorted[i], token));
        } else {
            assert(starts_before(token, sorted[i]));
        }
    }
    assert(longer[tokens.len() as int] == token);
    assert forall|k: int| 0 <= k < tokens.len() implies !same_place(#[trigger] longer[k], token) by {
        assert(longer[k] == tokens[k]);
    }
    assert(first_there(longer, token));
    assert forall|i: int| 0 <= i < result.len() implies #[trigger] first_there(longer, result[i]) by {
        if i < place {
            first_stays_first(tokens, token, sorted[i]);
        } else if i > place {
            first_stays_first(tokens, token, sorted[i - 1]);
        }
    }
    assert forall|i: int| 0 <= i < longer.len() implies #[trigger] place_taken(result, longer[i]) by {
        if i < tokens.len() {
            assert(place_taken(sorted, tokens[i]));
            let k = choose|k: int| 0 <= k < sorted.len() && same_place(#[trigger] sorted[k], tokens[i]);
            if k < place {
                assert(result[k] == sorted[k]);
            } else {
                assert(result[k + 1] == sorted[k]);
            }
        } else {
            assert(result[place] == token);
        }
    }
}

/// There is one way only to arrange tokens.
pub proof fn arranged_one_way(tokens: Seq<RawToken>, first: Seq<RawToken>, second: Seq<RawToken>)
    requires
        arranges(tokens, first),
        arranges(tokens, second),
    ensures
        first == second,
{
    arranged_alike_up_to(tokens, first, second, first.len() as int);
    arranged_alike_up_to(tokens, second, first, second.len() as int);
    assert(first == second);
}

/// Two ways to arrange tokens agree on as many tokens as the first has.
proof fn arranged_alike_up_to(
    tokens: Seq<RawToken>,
    first: Seq<RawToken>,
    second: Seq<RawToken>,
    count: int,
)
    requires
        arranges(tokens, first),
        arranges(tokens, second),
        0 <= count <= first.len(),
    ensures
        count <= second.len(),
        forall|i: int| 0 <= i < count ==> first[i] == second[i],
    decreases count,
{
    if count > 0 {
        let last = count - 1;
        arranged_alike_up_to(tokens, first, second, last);
        let here = taken_in(tokens, first, second, last);
        if here < last {
            assert(starts_before(first[here], first[last]));
        }
        assert(here >= last);
        let there = taken_in(tokens, second, first, last);
        if here > last {
            assert(starts_before(second[last], second[here]));
            if there < last {
                assert(starts_before(second[there], second[last]));
            } else if there > last {
                assert(starts_before(first[last], first[there]));
            }
        }
        assert(here == last);
        firsts_agree(tokens, first[last], second[last]);
    }
}

/// The place in the second arrangement of a token of the first.
proof fn taken_in(tokens: Seq<RawToken>, first: Seq<RawToken>, second: Seq<RawToken>, at: int) -> (place: int)
    requires
        arranges(tokens, first),
        arranges(tokens, second),
        0 <= at < first.len(),
    ensures
        0 <= place < second.len(),
        same_place(second[place], first[at]),
{
    assert(first_there(tokens, first[at]));
    let i = choose|i: int|
        0 <= i < tokens.len() && #[trigger] tokens[i] == first[at] && forall|k: int|
            0 <= k < i ==> !same_place(#[trigger] tokens[k], first[at]);
    assert(place_taken(second, tokens[i]));
    choose|place: int| 0 <= place < second.len() && same_place(#[trigger] second[place], tokens[i])
}

proof fn firsts_agree(tokens: Seq<RawToken>, a: RawToken, b: RawToken)
    requires
        first_there(tokens, a),
        first_there(tokens, b),
        same_place(a, b),
    ensures
        a == b,
{
    let i = choose|i: int|
        0 <= i < tokens.len() && #[trigger] tokens[i] == a && forall|k: int|
            0 <= k < i ==> !same_place(#[trigger] tokens[k], a);
    let j = choose|j: int|
        0 <= j < tokens.len() && #[trigger] tokens[j] == b && forall|k: int|
            0 <= k < j ==> !same_place(#[trigger] tokens[k], b);
    if i < j {
        assert(!same_place(tokens[i], b));
    } else if j < i {
        assert(!same_place(tokens[j], a));
    }
}

/// A token relative to one before it.
pub open spec fn relative(line: u32, start_char: u32, token: RawToken) -> SemanticToken {
    SemanticToken {
        delta_line: (token.line - line) as u32,
        delta_start: if token.line == line {
            (token.start_char - start_char) as u32
        } else {
            token.start_char
        },
        length: token.length,
        token_type: token.token_type,
        token_modifiers_bitset: 0,
    }
}

/// The tokens, each relative to the one before it, the first to the start of the text.
pub open spec fn relatives(sorted: Seq<RawToken>) -> Seq<SemanticToken> {
    Seq::new(
        sorted.len(),
        |i: int|
            if i == 0 {
                relative(0, 0, sorted[i])
            } else {
                relative(sorted[i - 1].line, sorted[i - 1].start_char, sorted[i])
            },
    )
}

fn encode(sorted: &Vec<RawToken>) -> (tokens: Vec<SemanticToken>)
    requires
        in_order(sorted@),
    ensures
        tokens@ == relatives(sorted@),
{
    let mut tokens: Vec<SemanticToken> = Vec::new();
    let mut line: u32 = 0;
    let mut start_char: u32 = 0;
    while tokens.len() < sorted.len()
        invariant
            in_order(sorted@),
            tokens.len() <= sorted.len(),
            tokens@ == relatives(sorted@).take(tokens.len() as int),
            tokens.len() == 0 ==> line == 0 && start_char == 0,
            tokens.len() > 0 ==> line == sorted[tokens.len() - 1].line && start_char
                == sorted[tokens.len() - 1].start_char,
        decreases sorted.len() - tokens.len(),
    {
        let token = sorted[tokens.len()];
        proof {
            if tokens.len() > 0 {
                assert(starts_before(sorted@[tokens.len() - 1], sorted@[tokens.len() as int]));
            }
        }
        let delta_line: u32 = token.line - line;
        let delta_start: u32 = if delta_line == 0 {
            token.start_char - start_char
        } else {
            token.start_char
        };
        tokens.push(
            SemanticToken {
                delta_line,
                delta_start,
                length: token.length,
                token_type: token.token_type,
                token_modifiers_bitset: 0,
            },
        );
        line = token.line;
        start_char = token.start_char;
    }
    assert(relatives(sorted@).take(sorted.len() as int) == relatives(sorted@));
    tokens
}

/// The tokens of the text of a module.
pub fn build_semantic_tokens(
    occurrences: &List<Occurrence>,
    modules: &Table<usize, SourceModule>,
    names: &Table<StrId, String>,
    module_idx: usize,
    source: &String,
) -> (tokens: Vec<SemanticToken>)
    requires
        spans_sound(*occurrences, module_idx, source@),
    ensures
        exists|sorted: Seq<RawToken>| #[trigger]
            arranges(tokens_of(*occurrences, *modules, *names, module_idx, source@), sorted)
                && tokens@ == relatives(sorted),
{
    let mut raw: Vec<RawToken> = Vec::new();
    collect_tokens(occurrences, modules, names, module_idx, source, &mut raw);
    let sorted = arrange(&raw);
    assert(raw@ == tokens_of(*occurrences, *modules, *names, module_idx, source@));
    encode(&sorted)
}

/// Where the last of a number of tokens stands, by what they say.
pub open spec fn decoded(tokens: Seq<SemanticToken>, count: nat) -> (int, int)
    decreases count,
{
    if count == 0 {
        (0, 0)
    } else {
        let (line, start_char) = decoded(tokens, (count - 1) as nat);
        let token = tokens[count - 1];
        (
            line + token.delta_line,
            if token.delta_line == 0 {
                start_char + token.delta_start
            } else {
                token.delta_start as int
            },
        )
    }
}

/// Adding up what the tokens say leads back to where each of them stands.
pub proof fn tokens_decode(sorted: Seq<RawToken>, at: int)
    requires
        in_order(sorted),
        0 <= at < sorted.len(),
    ensures
        decoded(relatives(sorted), (at + 1) as nat) == (
            sorted[at].line as int,
            sorted[at].start_char as int,
        ),
    decreases at,
{
    if at > 0 {
        tokens_decode(sorted, at - 1);
        assert(starts_before(sorted[at - 1], sorted[at]));
    } else {
        assert(decoded(relatives(sorted), 0) == (0int, 0int));
    }
}

/// The number of a symbol's kind stands in the legend for what the symbol is.
pub proof fn legend_tells_kinds(modules: Table<usize, SourceModule>, symbol: SymbolId)
    ensures
        match type_of_symbol(modules, symbol) {
            None => symbol is Item,
            Some(number) => {
                &&& number < token_kinds().len()
                &&& symbol is Local ==> token_kinds()[number as int] is Variable
                &&& symbol is Field ==> token_kinds()[number as int] is Property
                &&& symbol is Method ==> token_kinds()[number as int] is Method
                &&& symbol matches SymbolId::Item { module_idx, item_idx, .. } ==> {
                    let item = lookup(modules, module_idx)->0.items.nth(item_idx)->0;
                    match token_kinds()[number as int] {
                        TokenKind::Function => item.kind is Func,
                        TokenKind::Struct => item.kind is Struct,
                        TokenKind::Enum => item.kind is Enum,
                        TokenKind::Interface => item.kind is Interface,
                        _ => false,
                    }
                }
            },
        },
{
}

} // verus!
