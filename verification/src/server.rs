//! What the language server answers.
//!
//! Every answer is computed from the checked program, the loaded modules and a position in one of
//! them.

use vstd::prelude::*;
use vstd::string::*;

use crate::hir::{HirField, HirFunc, HirType, SourceSpan, StrId};
use crate::list::{find, has_key, lookup, Cons, List, Nil, Table};
use crate::semantic_tokens::{is_spelled, span_sound, spelling, spells, ItemDecl, ItemKind, SourceModule};
use crate::text_utils::{
    chars_before, column_countable, declaration_span, declared_at, find_position, ident_around,
    ident_at_end, latest_before, line_at, line_text, narrow_before, narrow_ident_at_column,
    narrow_ident_at_end, nearest_prior_occurrence, position_inside, position_of, prefix_before,
    span_coords, span_to_range, text_before, tightest, tightest_occurrence, to_span_coords,
    units_end, word_start, words_of, Position, Range,
};
use crate::type_checker::Occurrence;
use crate::type_context::{SymbolId, TypeContext};
use std::rc::Rc;

verus! {

/// Whether both ends of a span can be counted in code units.
pub open spec fn span_countable(chars: Seq<char>, span: SourceSpan) -> bool {
    column_countable(chars, span.line, span.column) && column_countable(
        chars,
        span.end_line,
        span.end_column,
    )
}

/// The range of an editor that stands for a span.
pub open spec fn range_of(chars: Seq<char>, span: SourceSpan) -> Range {
    Range {
        start: position_of(chars, span.line, span.column),
        end: position_of(chars, span.end_line, span.end_column),
    }
}

fn find_range(source: &String, span: &SourceSpan) -> (range: Range)
    requires
        span_countable(source@, *span),
    ensures
        range == range_of(source@, *span),
{
    span_to_range(source.as_str(), span.line, span.column, span.end_line, span.end_column)
}

/// The type behind references and pointers.
pub open spec fn stripped(ty: HirType) -> HirType
    decreases ty,
{
    match ty {
        HirType::Ref { inner, .. } => stripped(*inner),
        HirType::SafePointer { inner, .. } => stripped(*inner),
        HirType::UnsafePointer { inner, .. } => stripped(*inner),
        HirType::OwnedPointer { inner, .. } => stripped(*inner),
        _ => ty,
    }
}

pub fn strip_container(ty: &HirType) -> (inner: HirType)
    ensures
        inner == stripped(*ty),
    decreases ty,
{
    match ty {
        HirType::Ref { inner, .. } => strip_container(inner),
        HirType::SafePointer { inner, .. } => strip_container(inner),
        HirType::UnsafePointer { inner, .. } => strip_container(inner),
        HirType::OwnedPointer { inner, .. } => strip_container(inner),
        _ => ty.dup(),
    }
}

/// What is behind references and pointers is none of these itself.
pub proof fn nothing_left_to_strip(ty: HirType)
    ensures
        stripped(stripped(ty)) == stripped(ty),
    decreases ty,
{
    match ty {
        HirType::Ref { .. } => nothing_left_to_strip(ty.part()),
        HirType::SafePointer { .. } => nothing_left_to_strip(ty.part()),
        HirType::UnsafePointer { .. } => nothing_left_to_strip(ty.part()),
        HirType::OwnedPointer { .. } => nothing_left_to_strip(ty.part()),
        _ => {},
    }
}

/// The name with a spelling.
pub open spec fn named(names: Table<StrId, String>, text: Seq<char>) -> Option<StrId>
    decreases names,
{
    match names {
        Nil => None,
        Cons(entry, rest) => if entry.1@ == text {
            Some(entry.0)
        } else {
            named(*rest, text)
        },
    }
}

pub fn find_name(names: &Table<StrId, String>, text: &String) -> (name: Option<StrId>)
    ensures
        name == named(*names, text@),
    decreases names,
{
    match names {
        Nil => None,
        Cons(entry, rest) => if entry.1 == *text {
            Some(entry.0)
        } else {
            find_name(rest, text)
        },
    }
}

#[derive(Clone, Copy, Debug, PartialEq, Eq, Structural)]
pub enum CompletionKind {
    Field,
    Method,
    Struct,
    Enum,
    Interface,
    Function,
}

/// What is told beside a completion.
#[derive(Debug, PartialEq, Eq)]
pub enum Detail {
    Nothing,
    Type(HirType),
    /// What a call of a method gives. Without a type it gives nothing.
    Call(Option<HirType>),
    /// What a function gives. Without a type it gives nothing.
    Gives(Option<HirType>),
}

#[derive(Debug, PartialEq, Eq)]
pub struct CompletionItem {
    pub label: StrId,
    pub kind: CompletionKind,
    pub detail: Detail,
}

/// The last dot in front of a position.
pub open spec fn last_dot(chars: Seq<char>, at: int) -> Option<int>
    decreases at,
{
    if at <= 0 {
        None
    } else if chars[at - 1] == '.' {
        Some(at - 1)
    } else {
        last_dot(chars, at - 1)
    }
}

/// The identifier in front of the last dot of a text, where there is a dot with an identifier in
/// front.
pub open spec fn member_base(chars: Seq<char>) -> Option<Seq<char>> {
    match last_dot(chars, chars.len() as int) {
        None => None,
        Some(dot) => {
            let front = chars.take(dot);
            let base = front.skip(word_start(words_of(front), dot));
            if base.len() == 0 {
                None
            } else {
                Some(base)
            }
        },
    }
}

/// Whether what stands in front of the identifier before the last dot is a single byte wide.
pub open spec fn base_narrow(chars: Seq<char>) -> bool {
    match last_dot(chars, chars.len() as int) {
        None => true,
        Some(dot) => narrow_before(chars.take(dot), dot),
    }
}

fn find_last_dot(text: &str) -> (dot: Option<usize>)
    ensures
        match dot {
            Some(found) => last_dot(text@, text@.len() as int) == Some(found as int) && found
                < text@.len(),
            None => last_dot(text@, text@.len() as int) is None,
        },
{
    let len: usize = text.unicode_len();
    let mut at: usize = len;
    while at > 0
        invariant
            at <= len,
            len == text@.len(),
            last_dot(text@, len as int) == last_dot(text@, at as int),
        decreases at,
    {
        if text.get_char(at - 1) == '.' {
            return Some(at - 1);
        }
        at = at - 1;
    }
    None
}

/// The identifier in front of the last dot of a text. What stands in front of it must be a single
/// byte wide.
pub fn completion_base(prefix: &str) -> (base: Option<String>)
    requires
        base_narrow(prefix@),
    ensures
        match base {
            Some(found) => member_base(prefix@) == Some(found@),
            None => member_base(prefix@) is None,
        },
{
    match find_last_dot(prefix) {
        None => None,
        Some(dot) => {
            let front = prefix.substring_char(0, dot);
            assert(front@ == prefix@.take(dot as int));
            let base = ident_at_end(front);
            if base.unicode_len() == 0 {
                None
            } else {
                Some(base.to_owned())
            }
        },
    }
}

/// The identifier in front of the last dot of a text, and whether what stands in front of it is a
/// single byte wide, as it must be for an identifier to be found.
pub fn narrow_completion_base(prefix: &str) -> (base: (bool, Option<String>))
    ensures
        base.0 == base_narrow(prefix@),
        match base.1 {
            Some(found) => base.0 && member_base(prefix@) == Some(found@),
            None => base.0 ==> member_base(prefix@) is None,
        },
{
    let narrow: bool = match find_last_dot(prefix) {
        None => true,
        Some(dot) => {
            let front = prefix.substring_char(0, dot);
            assert(front@ == prefix@.take(dot as int));
            narrow_ident_at_end(front).is_some()
        },
    };
    if narrow {
        (true, completion_base(prefix))
    } else {
        (false, None)
    }
}

/// The struct whose members are accessed through a name: the struct of that name, or that of the
/// latest value of the name.
pub open spec fn accessed_struct(
    context: TypeContext,
    occurrences: List<Occurrence>,
    module_idx: usize,
    base: StrId,
    coords: (usize, usize),
) -> Option<StrId> {
    if has_key(context.structs, base) {
        Some(base)
    } else {
        match latest_before(occurrences, module_idx, base, coords.0, coords.1) {
            Some(occurrence) => match stripped(occurrence.ty) {
                HirType::Struct { name, .. } => Some(name),
                _ => None,
            },
            None => None,
        }
    }
}

fn find_accessed_struct(
    context: &TypeContext,
    occurrences: &List<Occurrence>,
    module_idx: usize,
    base: StrId,
    coords: (usize, usize),
) -> (name: Option<StrId>)
    ensures
        name == accessed_struct(*context, *occurrences, module_idx, base, coords),
{
    if find(&context.structs, &base).is_some() {
        Some(base)
    } else {
        match nearest_prior_occurrence(occurrences, module_idx, base, coords.0, coords.1) {
            Some(ty) => match strip_container(&ty) {
                HirType::Struct { name, .. } => Some(name),
                _ => None,
            },
            None => None,
        }
    }
}

pub open spec fn field_items(fields: List<HirField>) -> List<CompletionItem>
    decreases fields,
{
    match fields {
        Nil => Nil,
        Cons(field, rest) => List::cons_of(
            CompletionItem {
                label: field.name,
                kind: CompletionKind::Field,
                detail: Detail::Type(field.field_type),
            },
            field_items(*rest),
        ),
    }
}

fn list_fields(fields: &List<HirField>) -> (items: List<CompletionItem>)
    ensures
        items == field_items(*fields),
    decreases fields,
{
    match fields {
        Nil => Nil,
        Cons(field, rest) => List::cons(
            CompletionItem {
                label: field.name,
                kind: CompletionKind::Field,
                detail: Detail::Type(field.field_type.dup()),
            },
            list_fields(rest),
        ),
    }
}

fn copy_result(func: &HirFunc) -> (result: Option<HirType>)
    ensures
        result == func.return_type,
{
    match &func.return_type {
        Some(ty) => Some(ty.dup()),
        None => None,
    }
}

pub open spec fn method_items(methods: Table<StrId, Rc<HirFunc>>) -> List<CompletionItem>
    decreases methods,
{
    match methods {
        Nil => Nil,
        Cons(entry, rest) => List::cons_of(
            CompletionItem {
                label: entry.0,
                kind: CompletionKind::Method,
                detail: Detail::Call(entry.1.return_type),
            },
            method_items(*rest),
        ),
    }
}

fn list_methods(methods: &Table<StrId, Rc<HirFunc>>) -> (items: List<CompletionItem>)
    ensures
        items == method_items(*methods),
    decreases methods,
{
    match methods {
        Nil => Nil,
        Cons(entry, rest) => List::cons(
            CompletionItem {
                label: entry.0,
                kind: CompletionKind::Method,
                detail: Detail::Call(copy_result(&entry.1)),
            },
            list_methods(rest),
        ),
    }
}

/// The members of a struct: its fields, then its methods.
pub open spec fn member_items(context: TypeContext, name: StrId) -> List<CompletionItem> {
    let fields = match lookup(context.structs, name) {
        Some(def) => field_items(def.fields),
        None => Nil,
    };
    let methods = match lookup(context.type_methods, name) {
        Some(table) => method_items(table.methods),
        None => Nil,
    };
    fields.then_all(methods)
}

fn list_members(context: &TypeContext, name: StrId) -> (items: List<CompletionItem>)
    ensures
        items == member_items(*context, name),
{
    let fields = match find(&context.structs, &name) {
        Some(def) => list_fields(&def.fields),
        None => Nil,
    };
    let methods = match find(&context.type_methods, &name) {
        Some(table) => list_methods(&table.methods),
        None => Nil,
    };
    fields.append(&methods)
}

/// The keys of a table as completions of a kind, followed by others.
pub open spec fn key_items<V>(
    table: Table<StrId, V>,
    kind: CompletionKind,
    others: List<CompletionItem>,
) -> List<CompletionItem>
    decreases table,
{
    match table {
        Nil => others,
        Cons(entry, rest) => List::cons_of(
            CompletionItem { label: entry.0, kind, detail: Detail::Nothing },
            key_items(*rest, kind, others),
        ),
    }
}

fn list_keys<V>(table: &Table<StrId, V>, kind: CompletionKind, others: List<CompletionItem>) -> (items:
    List<CompletionItem>)
    ensures
        items == key_items(*table, kind, others),
    decreases table,
{
    match table {
        Nil => others,
        Cons(entry, rest) => List::cons(
            CompletionItem { label: entry.0, kind, detail: Detail::Nothing },
            list_keys(rest, kind, others),
        ),
    }
}

pub open spec fn function_items(
    functions: Table<StrId, Rc<HirFunc>>,
    others: List<CompletionItem>,
) -> List<CompletionItem>
    decreases functions,
{
    match functions {
        Nil => others,
        Cons(entry, rest) => List::cons_of(
            CompletionItem {
                label: entry.0,
                kind: CompletionKind::Function,
                detail: Detail::Gives(entry.1.return_type),
            },
            function_items(*rest, others),
        ),
    }
}

fn list_functions(functions: &Table<StrId, Rc<HirFunc>>, others: List<CompletionItem>) -> (items: List<
    CompletionItem,
>)
    ensures
        items == function_items(*functions, others),
    decreases functions,
{
    match functions {
        Nil => others,
        Cons(entry, rest) => List::cons(
            CompletionItem {
                label: entry.0,
                kind: CompletionKind::Function,
                detail: Detail::Gives(copy_result(&entry.1)),
            },
            list_functions(rest, others),
        ),
    }
}

/// The functions of imported modules, by their names alone.
pub open spec fn imported_items(context: TypeContext, imports: List<usize>) -> List<CompletionItem>
    decreases imports,
{
    match imports {
        Nil => Nil,
        Cons(module_idx, rest) => match lookup(context.module_functions, *module_idx) {
            Some(functions) => key_items(
                functions,
                CompletionKind::Function,
                imported_items(context, *rest),
            ),
            None => imported_items(context, *rest),
        },
    }
}

fn list_imported(context: &TypeContext, imports: &List<usize>) -> (items: List<CompletionItem>)
    ensures
        items == imported_items(*context, *imports),
    decreases imports,
{
    match imports {
        Nil => Nil,
        Cons(module_idx, rest) => {
            let later = list_imported(context, rest);
            match find(&context.module_functions, &**module_idx) {
                Some(functions) => list_keys(functions, CompletionKind::Function, later),
                None => later,
            }
        },
    }
}

/// Everything that can be named in a module: structs, enums, interfaces, its own functions and those
/// of the modules it imports.
pub open spec fn global_items(
    context: TypeContext,
    module_idx: usize,
    imports: List<usize>,
) -> List<CompletionItem> {
    let imported = imported_items(context, imports);
    let functions = match lookup(context.module_functions, module_idx) {
        Some(own) => function_items(own, imported),
        None => imported,
    };
    key_items(
        context.structs,
        CompletionKind::Struct,
        key_items(
            context.enums,
            CompletionKind::Enum,
            key_items(context.interfaces, CompletionKind::Interface, functions),
        ),
    )
}

fn list_global(context: &TypeContext, module_idx: usize, imports: &List<usize>) -> (items: List<
    CompletionItem,
>)
    ensures
        items == global_items(*context, module_idx, *imports),
{
    let imported = list_imported(context, imports);
    let functions = match find(&context.module_functions, &module_idx) {
        Some(own) => list_functions(own, imported),
        None => imported,
    };
    let interfaces = list_keys(&context.interfaces, CompletionKind::Interface, functions);
    let enums = list_keys(&context.enums, CompletionKind::Enum, interfaces);
    list_keys(&context.structs, CompletionKind::Struct, enums)
}

/// The completions at a position, given the identifier in front of the last dot before it.
pub open spec fn completions(
    context: TypeContext,
    names: Table<StrId, String>,
    occurrences: List<Occurrence>,
    module_idx: usize,
    imports: List<usize>,
    chars: Seq<char>,
    position: Position,
    base: Option<Seq<char>>,
) -> List<CompletionItem> {
    match base {
        None => global_items(context, module_idx, imports),
        Some(text) => match named(names, text) {
            None => Nil,
            Some(name) => match accessed_struct(
                context,
                occurrences,
                module_idx,
                name,
                span_coords(chars, position),
            ) {
                Some(owner) => member_items(context, owner),
                None => Nil,
            },
        },
    }
}

/// The completions at a position, given the identifier in front of the last dot before it.
pub fn completions_after(
    context: &TypeContext,
    names: &Table<StrId, String>,
    occurrences: &List<Occurrence>,
    module_idx: usize,
    imports: &List<usize>,
    source: &String,
    position: Position,
    base: &Option<String>,
) -> (items: List<CompletionItem>)
    ensures
        items == completions(
            *context,
            *names,
            *occurrences,
            module_idx,
            *imports,
            source@,
            position,
            match *base {
                Some(text) => Some(text@),
                None => None,
            },
        ),
{
    match base {
        None => list_global(context, module_idx, imports),
        Some(text) => match find_name(names, text) {
            None => Nil,
            Some(name) => {
                let coords = to_span_coords(source.as_str(), position);
                match find_accessed_struct(context, occurrences, module_idx, name, coords) {
                    Some(owner) => list_members(context, owner),
                    None => Nil,
                }
            },
        },
    }
}

/// What stands in front of an identifier ends in a character of more than one byte, so that the
/// identifier cannot be cut out.
#[derive(Clone, Copy, Debug, PartialEq, Eq, Structural)]
pub struct MidCharacter;

/// The completions at a position of a text: the members of what is named in front of the last dot
/// before the position, or else everything that can be named.
pub fn completions_at(
    context: &TypeContext,
    names: &Table<StrId, String>,
    occurrences: &List<Occurrence>,
    module_idx: usize,
    imports: &List<usize>,
    source: &String,
    position: Position,
) -> (items: Result<List<CompletionItem>, MidCharacter>)
    ensures
        match items {
            Ok(found) => base_narrow(text_before(source@, position)) && found == completions(
                *context,
                *names,
                *occurrences,
                module_idx,
                *imports,
                source@,
                position,
                member_base(text_before(source@, position)),
            ),
            Err(_) => !base_narrow(text_before(source@, position)),
        },
{
    let prefix = prefix_before(source.as_str(), position);
    let (narrow, base) = narrow_completion_base(prefix.as_str());
    if narrow {
        Ok(
            completions_after(
                context,
                names,
                occurrences,
                module_idx,
                imports,
                source,
                position,
                &base,
            ),
        )
    } else {
        Err(MidCharacter)
    }
}

/// What is told of the word under the cursor.
#[derive(Debug, PartialEq, Eq)]
pub enum Hover {
    /// A value of a type.
    Value(HirType),
    /// A struct with a number of fields.
    Struct(usize),
    Enum,
    Interface,
    /// A function with a number of parameters. Without a type it gives nothing.
    Function(usize, Option<HirType>),
}

/// What is told of a word by its declaration.
pub open spec fn hover_declared(context: TypeContext, module_idx: usize, name: StrId) -> Option<Hover> {
    match lookup(context.structs, name) {
        Some(def) => Some(Hover::Struct(def.fields.count())),
        None => if has_key(context.enums, name) {
            Some(Hover::Enum)
        } else if has_key(context.interfaces, name) {
            Some(Hover::Interface)
        } else {
            match context.function_in(module_idx, name) {
                Some(func) => Some(
                    Hover::Function(
                        match func.params {
                            Some(params) => params.count(),
                            None => 0,
                        },
                        func.return_type,
                    ),
                ),
                None => None,
            }
        },
    }
}

fn find_hover_declared(context: &TypeContext, module_idx: usize, name: StrId) -> (hover: Option<Hover>)
    ensures
        hover == hover_declared(*context, module_idx, name),
{
    match find(&context.structs, &name) {
        Some(def) => Some(Hover::Struct(def.fields.len())),
        None => if find(&context.enums, &name).is_some() {
            Some(Hover::Enum)
        } else if find(&context.interfaces, &name).is_some() {
            Some(Hover::Interface)
        } else {
            match context.get_module_function(module_idx, name) {
                Some(func) => {
                    let params: usize = match &func.params {
                        Some(params) => params.len(),
                        None => 0,
                    };
                    Some(Hover::Function(params, copy_result(&func)))
                },
                None => None,
            }
        },
    }
}

/// What is told of the word at a position: the type of the narrowest occurrence there, if the word is
/// its name, or else what is declared under the word.
pub open spec fn hover(
    context: TypeContext,
    names: Table<StrId, String>,
    occurrences: List<Occurrence>,
    module_idx: usize,
    coords: (usize, usize),
    word: Seq<char>,
) -> Option<Hover> {
    let declared = match named(names, word) {
        Some(name) => hover_declared(context, module_idx, name),
        None => None,
    };
    match tightest(occurrences, module_idx, coords.0, coords.1) {
        Some(occurrence) => if spelling(names, occurrence.name) == Some(word) {
            Some(Hover::Value(occurrence.ty))
        } else {
            declared
        },
        None => declared,
    }
}

/// What is told of a word at a position.
pub fn hover_word(
    context: &TypeContext,
    names: &Table<StrId, String>,
    occurrences: &List<Occurrence>,
    module_idx: usize,
    source: &String,
    position: Position,
    word: &String,
) -> (told: Option<Hover>)
    ensures
        told == hover(
            *context,
            *names,
            *occurrences,
            module_idx,
            span_coords(source@, position),
            word@,
        ),
{
    let (line, column) = to_span_coords(source.as_str(), position);
    if let Some((name, ty, _)) = tightest_occurrence(occurrences, module_idx, line, column) {
        if let Some(text) = find(names, &name) {
            if *text == *word {
                return Some(Hover::Value(ty));
            }
        }
    }
    match find_name(names, word) {
        Some(name) => find_hover_declared(context, module_idx, name),
        None => None,
    }
}

/// The word at a position of a text.
pub open spec fn word_at(chars: Seq<char>, position: Position) -> Option<Seq<char>> {
    match line_text(chars, position.line as nat) {
        Some(line) => ident_around(line, units_end(line, position.character as int)),
        None => None,
    }
}

/// Whether what stands in front of the word at a position is a single byte wide.
pub open spec fn word_narrow(chars: Seq<char>, position: Position) -> bool {
    match line_text(chars, position.line as nat) {
        Some(line) => narrow_before(line, units_end(line, position.character as int)),
        None => true,
    }
}

/// The word at a position of a text, and what is told of it, if there is a word of which something is
/// known.
pub fn hover_at(
    context: &TypeContext,
    names: &Table<StrId, String>,
    occurrences: &List<Occurrence>,
    module_idx: usize,
    source: &String,
    position: Position,
) -> (told: Result<Option<(String, Hover)>, MidCharacter>)
    ensures
        match told {
            Err(_) => !word_narrow(source@, position),
            Ok(found) => word_narrow(source@, position) && match word_at(source@, position) {
                None => found is None,
                Some(word) => match hover(
                    *context,
                    *names,
                    *occurrences,
                    module_idx,
                    span_coords(source@, position),
                    word,
                ) {
                    None => found is None,
                    Some(expected) => found matches Some(pair) && pair.0@ == word && pair.1
                        == expected,
                },
            },
        },
{
    let line = match line_at(source.as_str(), position.line) {
        Some(line) => line,
        None => {
            return Ok(None);
        },
    };
    let (narrow, word) = narrow_ident_at_column(line, position.character);
    if !narrow {
        return Err(MidCharacter);
    }
    match word {
        None => Ok(None),
        Some(found) => {
            let word = found.to_owned();
            match hover_word(context, names, occurrences, module_idx, source, position, &word) {
                None => Ok(None),
                Some(told) => Ok(Some((word, told))),
            }
        },
    }
}

/// A declaration as the outline of a document shows it.
#[derive(Clone, Copy, Debug, PartialEq, Eq, Structural)]
pub struct DocumentSymbol {
    pub name: StrId,
    pub kind: ItemKind,
    pub range: Range,
}

/// Whether the spans of all declarations suit the text.
pub open spec fn items_countable(items: List<ItemDecl>, chars: Seq<char>) -> bool
    decreases items,
{
    match items {
        Nil => true,
        Cons(item, rest) => {
            &&& !(item.kind is Other) ==> span_countable(chars, item.span)
            &&& items_countable(*rest, chars)
        },
    }
}

/// The declarations of a document in the order of the text.
pub open spec fn outline(items: List<ItemDecl>, chars: Seq<char>) -> List<DocumentSymbol>
    decreases items,
{
    match items {
        Nil => Nil,
        Cons(item, rest) => if item.kind is Other {
            outline(*rest, chars)
        } else {
            List::cons_of(
                DocumentSymbol {
                    name: item.name,
                    kind: item.kind,
                    range: range_of(chars, item.span),
                },
                outline(*rest, chars),
            )
        },
    }
}

pub fn document_symbols_at(items: &List<ItemDecl>, source: &String) -> (symbols: List<DocumentSymbol>)
    requires
        items_countable(*items, source@),
    ensures
        symbols == outline(*items, source@),
    decreases items,
{
    match items {
        Nil => Nil,
        Cons(item, rest) => {
            let later = document_symbols_at(rest, source);
            match item.kind {
                ItemKind::Other => later,
                _ => List::cons(
                    DocumentSymbol {
                        name: item.name,
                        kind: item.kind,
                        range: find_range(source, &item.span),
                    },
                    later,
                ),
            }
        },
    }
}

/// Whether a declaration of a kind is what a tag stands for.
pub open spec fn tag_fits(kind: ItemKind, tag: Seq<char>) -> bool {
    match kind {
        ItemKind::Func => tag == "func_sig"@ || tag == "func_body"@,
        ItemKind::Struct => tag == "type"@,
        ItemKind::Enum => tag == "type"@,
        ItemKind::Interface => tag == "trait"@,
        ItemKind::Other => false,
    }
}

/// Where the item at a place of a module is declared, if it is what the tag stands for.
pub open spec fn item_declared_at(items: List<ItemDecl>, item_idx: usize, tag: Seq<char>) -> Option<
    SourceSpan,
> {
    match items.nth(item_idx) {
        Some(item) => if tag_fits(item.kind, tag) {
            Some(item.span)
        } else {
            None
        },
        None => None,
    }
}

pub fn item_decl_span(items: &List<ItemDecl>, item_idx: usize, tag: &String) -> (span: Option<SourceSpan>)
    ensures
        span == item_declared_at(*items, item_idx, tag@),
{
    match items.get(item_idx) {
        Some(item) => {
            let fits: bool = match item.kind {
                ItemKind::Func => *tag == "func_sig".to_owned() || *tag == "func_body".to_owned(),
                ItemKind::Struct => *tag == "type".to_owned(),
                ItemKind::Enum => *tag == "type".to_owned(),
                ItemKind::Interface => *tag == "trait".to_owned(),
                ItemKind::Other => false,
            };
            if fits {
                Some(item.span)
            } else {
                None
            }
        },
        None => None,
    }
}

/// A range in the text of a module.
#[derive(Clone, Copy, Debug, PartialEq, Eq, Structural)]
pub struct Location {
    pub module_idx: usize,
    pub range: Range,
}

/// Where the symbol at a position is declared, told as a range of the text that was asked about.
pub open spec fn definition(
    occurrences: List<Occurrence>,
    module_idx: usize,
    chars: Seq<char>,
    position: Position,
) -> Option<SourceSpan> {
    let coords = span_coords(chars, position);
    match tightest(occurrences, module_idx, coords.0, coords.1) {
        Some(occurrence) => declared_at(occurrences, occurrence.symbol),
        None => None,
    }
}

pub fn go_to_definition(
    occurrences: &List<Occurrence>,
    module_idx: usize,
    source: &String,
    position: Position,
) -> (range: Option<Range>)
    requires
        match definition(*occurrences, module_idx, source@, position) {
            Some(span) => span_countable(source@, span),
            None => true,
        },
    ensures
        range == match definition(*occurrences, module_idx, source@, position) {
            Some(span) => Some(range_of(source@, span)),
            None => None,
        },
{
    let (line, column) = to_span_coords(source.as_str(), position);
    match tightest_occurrence(occurrences, module_idx, line, column) {
        None => None,
        Some((_, _, symbol)) => match declaration_span(occurrences, symbol) {
            None => None,
            Some(span) => Some(find_range(source, &span)),
        },
    }
}

/// Whether the spans of all occurrences of a symbol suit the texts they are in.
pub open spec fn symbol_countable(
    occurrences: List<Occurrence>,
    symbol: SymbolId,
    modules: Table<usize, SourceModule>,
) -> bool
    decreases occurrences,
{
    match occurrences {
        Nil => true,
        Cons(occurrence, rest) => {
            &&& occurrence.symbol == symbol ==> match lookup(modules, occurrence.module_idx) {
                Some(module) => span_countable(module.source@, occurrence.span),
                None => true,
            }
            &&& symbol_countable(*rest, symbol, modules)
        },
    }
}

/// The occurrences of a symbol in loaded modules, with or without its declaration.
pub open spec fn uses_of(
    occurrences: List<Occurrence>,
    symbol: SymbolId,
    include_declaration: bool,
    modules: Table<usize, SourceModule>,
) -> List<Location>
    decreases occurrences,
{
    match occurrences {
        Nil => Nil,
        Cons(occurrence, rest) => {
            let later = uses_of(*rest, symbol, include_declaration, modules);
            if occurrence.symbol != symbol || (occurrence.is_declaration && !include_declaration) {
                later
            } else {
                match lookup(modules, occurrence.module_idx) {
                    Some(module) => List::cons_of(
                        Location {
                            module_idx: occurrence.module_idx,
                            range: range_of(module.source@, occurrence.span),
                        },
                        later,
                    ),
                    None => later,
                }
            }
        },
    }
}

fn find_uses(
    occurrences: &List<Occurrence>,
    symbol: SymbolId,
    include_declaration: bool,
    modules: &Table<usize, SourceModule>,
) -> (uses: List<Location>)
    requires
        symbol_countable(*occurrences, symbol, *modules),
    ensures
        uses == uses_of(*occurrences, symbol, include_declaration, *modules),
    decreases occurrences,
{
    match occurrences {
        Nil => Nil,
        Cons(occurrence, rest) => {
            let later = find_uses(rest, symbol, include_declaration, modules);
            if occurrence.symbol != symbol || (occurrence.is_declaration && !include_declaration) {
                later
            } else {
                match find(modules, &occurrence.module_idx) {
                    Some(module) => List::cons(
                        Location {
                            module_idx: occurrence.module_idx,
                            range: find_range(&module.source, &occurrence.span),
                        },
                        later,
                    ),
                    None => later,
                }
            }
        },
    }
}

/// Where a top-level item is declared, in which module.
pub open spec fn item_place(
    modules: Table<usize, SourceModule>,
    names: Table<StrId, String>,
    module_idx: usize,
    item_idx: usize,
    tag: StrId,
) -> Option<(Seq<char>, SourceSpan)> {
    match lookup(modules, module_idx) {
        None => None,
        Some(module) => match spelling(names, tag) {
            None => None,
            Some(text) => match item_declared_at(module.items, item_idx, text) {
                Some(span) => Some((module.source@, span)),
                None => None,
            },
        },
    }
}

/// The references to a symbol: for a top-level item its declaration, for any other symbol its
/// occurrences.
pub open spec fn references(
    occurrences: List<Occurrence>,
    symbol: SymbolId,
    include_declaration: bool,
    modules: Table<usize, SourceModule>,
    names: Table<StrId, String>,
) -> List<Location> {
    match symbol {
        SymbolId::Item { module_idx, item_idx, tag } => if !include_declaration {
            Nil
        } else {
            match item_place(modules, names, module_idx, item_idx, tag) {
                Some((chars, span)) => List::one_of(
                    Location { module_idx, range: range_of(chars, span) },
                ),
                None => Nil,
            }
        },
        _ => uses_of(occurrences, symbol, include_declaration, modules),
    }
}

/// Whether the spans that tell of a symbol suit the texts they are in.
pub open spec fn references_countable(
    occurrences: List<Occurrence>,
    symbol: SymbolId,
    modules: Table<usize, SourceModule>,
    names: Table<StrId, String>,
) -> bool {
    match symbol {
        SymbolId::Item { module_idx, item_idx, tag } => match item_place(
            modules,
            names,
            module_idx,
            item_idx,
            tag,
        ) {
            Some((chars, span)) => span_countable(chars, span),
            None => true,
        },
        _ => symbol_countable(occurrences, symbol, modules),
    }
}

/// The references to a symbol.
pub fn references_to(
    occurrences: &List<Occurrence>,
    symbol: SymbolId,
    include_declaration: bool,
    modules: &Table<usize, SourceModule>,
    names: &Table<StrId, String>,
) -> (locations: List<Location>)
    requires
        references_countable(*occurrences, symbol, *modules, *names),
    ensures
        locations == references(*occurrences, symbol, include_declaration, *modules, *names),
{
    match symbol {
        SymbolId::Item { module_idx, item_idx, tag } => {
            if !include_declaration {
                return Nil;
            }
            match find(modules, &module_idx) {
                None => Nil,
                Some(module) => match find(names, &tag) {
                    None => Nil,
                    Some(text) => match item_decl_span(&module.items, item_idx, text) {
                        None => Nil,
                        Some(span) => List::one(
                            Location { module_idx, range: find_range(&module.source, &span) },
                        ),
                    },
                },
            }
        },
        _ => find_uses(occurrences, symbol, include_declaration, modules),
    }
}

/// The references to the symbol at a position.
pub fn references_at(
    occurrences: &List<Occurrence>,
    module_idx: usize,
    source: &String,
    position: Position,
    include_declaration: bool,
    modules: &Table<usize, SourceModule>,
    names: &Table<StrId, String>,
) -> (locations: List<Location>)
    requires
        match tightest(
            *occurrences,
            module_idx,
            span_coords(source@, position).0,
            span_coords(source@, position).1,
        ) {
            Some(occurrence) => references_countable(
                *occurrences,
                occurrence.symbol,
                *modules,
                *names,
            ),
            None => true,
        },
    ensures
        locations == match tightest(
            *occurrences,
            module_idx,
            span_coords(source@, position).0,
            span_coords(source@, position).1,
        ) {
            Some(occurrence) => references(
                *occurrences,
                occurrence.symbol,
                include_declaration,
                *modules,
                *names,
            ),
            None => Nil,
        },
{
    let (line, column) = to_span_coords(source.as_str(), position);
    match tightest_occurrence(occurrences, module_idx, line, column) {
        None => Nil,
        Some((_, _, symbol)) => references_to(
            occurrences,
            symbol,
            include_declaration,
            modules,
            names,
        ),
    }
}

#[derive(Clone, Copy, Debug, PartialEq, Eq, Structural)]
pub enum RenameError {
    NoSymbol,
    /// Only the declarations of top-level items are known, not their uses.
    TopLevelItem,
    NoOccurrences,
    SourceUnavailable,
    /// The text at an occurrence is not the name.
    NotLocated(StrId),
}

/// Whether the spans of all occurrences of a symbol can be read and counted.
pub open spec fn symbol_sound(
    occurrences: List<Occurrence>,
    symbol: SymbolId,
    modules: Table<usize, SourceModule>,
) -> bool
    decreases occurrences,
{
    match occurrences {
        Nil => true,
        Cons(occurrence, rest) => {
            &&& occurrence.symbol == symbol ==> match lookup(modules, occurrence.module_idx) {
                Some(module) => span_sound(module.source@, occurrence.span) && span_countable(
                    module.source@,
                    occurrence.span,
                ),
                None => true,
            }
            &&& symbol_sound(*rest, symbol, modules)
        },
    }
}

/// Where a symbol is to be renamed: at all of its occurrences, each of which must stand in the text as
/// the name is spelled.
pub open spec fn edits_of(
    occurrences: List<Occurrence>,
    symbol: SymbolId,
    modules: Table<usize, SourceModule>,
    names: Table<StrId, String>,
) -> Result<List<Location>, RenameError>
    decreases occurrences,
{
    match occurrences {
        Nil => Ok(Nil),
        Cons(occurrence, rest) => {
            if occurrence.symbol != symbol {
                edits_of(*rest, symbol, modules, names)
            } else {
                match lookup(modules, occurrence.module_idx) {
                    None => Err(RenameError::SourceUnavailable),
                    Some(module) => if !is_spelled(
                        module.source@,
                        occurrence.span,
                        names,
                        occurrence.name,
                    ) {
                        Err(RenameError::NotLocated(occurrence.name))
                    } else {
                        match edits_of(*rest, symbol, modules, names) {
                            Err(error) => Err(error),
                            Ok(later) => Ok(
                                List::cons_of(
                                    Location {
                                        module_idx: occurrence.module_idx,
                                        range: range_of(module.source@, occurrence.span),
                                    },
                                    later,
                                ),
                            ),
                        }
                    },
                }
            }
        },
    }
}

fn find_edits(
    occurrences: &List<Occurrence>,
    symbol: SymbolId,
    modules: &Table<usize, SourceModule>,
    names: &Table<StrId, String>,
) -> (edits: Result<List<Location>, RenameError>)
    requires
        symbol_sound(*occurrences, symbol, *modules),
    ensures
        edits == edits_of(*occurrences, symbol, *modules, *names),
    decreases occurrences,
{
    match occurrences {
        Nil => Ok(Nil),
        Cons(occurrence, rest) => {
            if occurrence.symbol != symbol {
                return find_edits(rest, symbol, modules, names);
            }
            match find(modules, &occurrence.module_idx) {
                None => Err(RenameError::SourceUnavailable),
                Some(module) => {
                    if !spells(&module.source, &occurrence.span, names, occurrence.name) {
                        return Err(RenameError::NotLocated(occurrence.name));
                    }
                    match find_edits(rest, symbol, modules, names) {
                        Err(error) => Err(error),
                        Ok(later) => Ok(
                            List::cons(
                                Location {
                                    module_idx: occurrence.module_idx,
                                    range: find_range(&module.source, &occurrence.span),
                                },
                                later,
                            ),
                        ),
                    }
                },
            }
        },
    }
}

/// Where a symbol is to be renamed, or why it cannot be.
pub open spec fn renaming(
    occurrences: List<Occurrence>,
    symbol: SymbolId,
    modules: Table<usize, SourceModule>,
    names: Table<StrId, String>,
) -> Result<List<Location>, RenameError> {
    if symbol is Item {
        Err(RenameError::TopLevelItem)
    } else {
        match edits_of(occurrences, symbol, modules, names) {
            Ok(edits) => if edits is Nil {
                Err(RenameError::NoOccurrences)
            } else {
                Ok(edits)
            },
            Err(error) => Err(error),
        }
    }
}

/// Where a symbol is to be renamed, or why it cannot be.
pub fn rename_symbol(
    occurrences: &List<Occurrence>,
    symbol: SymbolId,
    modules: &Table<usize, SourceModule>,
    names: &Table<StrId, String>,
) -> (edits: Result<List<Location>, RenameError>)
    requires
        symbol is Item || symbol_sound(*occurrences, symbol, *modules),
    ensures
        edits == renaming(*occurrences, symbol, *modules, *names),
{
    match symbol {
        SymbolId::Item { .. } => {
            return Err(RenameError::TopLevelItem);
        },
        _ => {},
    }
    match find_edits(occurrences, symbol, modules, names) {
        Ok(edits) => if edits.is_empty() {
            Err(RenameError::NoOccurrences)
        } else {
            Ok(edits)
        },
        Err(error) => Err(error),
    }
}

/// Where the symbol at a position is to be renamed, or why it cannot be.
pub fn rename_at(
    occurrences: &List<Occurrence>,
    module_idx: usize,
    source: &String,
    position: Position,
    modules: &Table<usize, SourceModule>,
    names: &Table<StrId, String>,
) -> (edits: Result<List<Location>, RenameError>)
    requires
        match tightest(
            *occurrences,
            module_idx,
            span_coords(source@, position).0,
            span_coords(source@, position).1,
        ) {
            Some(occurrence) => occurrence.symbol is Item || symbol_sound(
                *occurrences,
                occurrence.symbol,
                *modules,
            ),
            None => true,
        },
    ensures
        edits == match tightest(
            *occurrences,
            module_idx,
            span_coords(source@, position).0,
            span_coords(source@, position).1,
        ) {
            Some(occurrence) => renaming(*occurrences, occurrence.symbol, *modules, *names),
            None => Err(RenameError::NoSymbol),
        },
{
    let (line, column) = to_span_coords(source.as_str(), position);
    match tightest_occurrence(occurrences, module_idx, line, column) {
        None => Err(RenameError::NoSymbol),
        Some((_, _, symbol)) => rename_symbol(occurrences, symbol, modules, names),
    }
}

/// A symbol that can be renamed is renamed wherever a reference to it is shown, its declaration
/// included: no occurrence is left under the old name.
pub proof fn renaming_reaches_every_reference(
    occurrences: List<Occurrence>,
    symbol: SymbolId,
    modules: Table<usize, SourceModule>,
    names: Table<StrId, String>,
)
    ensures
        match renaming(occurrences, symbol, modules, names) {
            Ok(edits) => edits == references(occurrences, symbol, true, modules, names),
            Err(_) => true,
        },
{
    edits_reach_every_use(occurrences, symbol, modules, names);
}

proof fn edits_reach_every_use(
    occurrences: List<Occurrence>,
    symbol: SymbolId,
    modules: Table<usize, SourceModule>,
    names: Table<StrId, String>,
)
    ensures
        match edits_of(occurrences, symbol, modules, names) {
            Ok(edits) => edits == uses_of(occurrences, symbol, true, modules),
            Err(_) => true,
        },
    decreases occurrences,
{
    match occurrences {
        Nil => {},
        Cons(_, _) => {
            edits_reach_every_use(occurrences.rest(), symbol, modules, names);
        },
    }
}

/// A text in which the part between two positions, or all of it, is replaced by another.
pub open spec fn changed(chars: Seq<char>, range: Option<Range>, text: Seq<char>) -> Seq<char> {
    match range {
        Some(part) => chars.take(chars_before(chars, part.start)) + text + chars.skip(
            chars_before(chars, part.end),
        ),
        None => text,
    }
}

/// Applies an edit of an editor to a text. A part that is replaced must not end before it starts.
pub fn apply_change(source: &mut String, range: Option<Range>, text: &String)
    requires
        match range {
            Some(part) => chars_before(old(source)@, part.start) <= chars_before(
                old(source)@,
                part.end,
            ),
            None => true,
        },
    ensures
        final(source)@ == changed(old(source)@, range, text@),
{
    match range {
        None => {
            *source = text.clone();
        },
        Some(part) => {
            let ghost before = source@;
            let start: usize = find_position(source.as_str(), part.start);
            let end: usize = find_position(source.as_str(), part.end);
            let len: usize = source.as_str().unicode_len();
            let front = source.as_str().substring_char(0, start);
            let back = source.as_str().substring_char(end, len);
            let mut result = front.to_owned();
            result.append(text.as_str());
            result.append(back);
            assert(front@ == before.take(start as int));
            assert(back@ == before.skip(end as int));
            assert(result@ == changed(before, range, text@));
            *source = result;
        },
    }
}

/// Replacing nothing by nothing changes nothing.
pub proof fn empty_change_changes_nothing(chars: Seq<char>, position: Position)
    ensures
        changed(chars, Some(Range { start: position, end: position }), Seq::empty()) == chars,
{
    position_inside(chars, position);
    let at = chars_before(chars, position);
    assert(chars.take(at) + Seq::<char>::empty() + chars.skip(at) == chars);
}

} // verus!
