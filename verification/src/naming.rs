//! How types and messages read.
//!
//! A text is a list of pieces. How it reads as a string depends on how names are spelled and how a
//! type in the notation of the tree reads.

use vstd::prelude::*;
use vstd::string::*;

use crate::borrow::{BorrowError, BorrowOp};
use crate::errors::{Atomic, FunctionName, Message, TypeText, UsedIndex};
use crate::hir::{
    HirEffectSegment, HirType, MutabilityState, Operator, ProvenanceAnnotation,
    ProvenancePathSegment, ProvenanceRoot, RefKind, StrId,
};
use crate::initialization::{next_index, succ};
use crate::list::{Cons, List, Nil};

verus! {

/// A part of a text.
#[derive(Debug, PartialEq, Eq)]
pub enum Piece {
    Words(&'static str),
    Name(StrId),
    Number(i64),
    Count(usize),
    /// A type in the notation of the tree.
    Shown(HirType),
    Mutability(MutabilityState),
    /// Where a reference points, in the notation of the tree.
    Provenance(ProvenanceAnnotation),
    /// The expression that is called, in the notation of the tree.
    Callee,
}

#[derive(Debug, PartialEq, Eq)]
pub struct Text {
    pub pieces: List<Piece>,
}

impl Atomic {
    /// The name of the intrinsic.
    pub open spec fn word(self) -> &'static str {
        match self {
            Atomic::Cas => "$atomic_cas_u32",
            Atomic::Load => "$atomic_load_u32",
            Atomic::Store => "$atomic_store_u32",
        }
    }

    pub fn as_str(&self) -> (word: &'static str)
        ensures
            word == self.word(),
    {
        match self {
            Atomic::Cas => "$atomic_cas_u32",
            Atomic::Load => "$atomic_load_u32",
            Atomic::Store => "$atomic_store_u32",
        }
    }
}

/// How a binary operator is written.
pub open spec fn symbol(op: Operator) -> &'static str {
    match op {
        Operator::Add => "+",
        Operator::Subtract => "-",
        Operator::Multiply => "*",
        Operator::Divide => "/",
        Operator::Modulo => "%",
        Operator::Equals => "==",
        Operator::NotEquals => "!=",
        Operator::LessThan => "<",
        Operator::LessThanOrEqual => "<=",
        Operator::GreaterThan => ">",
        Operator::GreaterThanOrEqual => ">=",
        Operator::LogicalAnd => "&&",
        Operator::LogicalOr => "||",
        Operator::BitAnd => "&",
        Operator::BitOr => "|",
        Operator::BitXor => "^",
        Operator::ShiftLeft => "<<",
        Operator::ShiftRight => ">>",
        Operator::Other(_) => "",
    }
}

fn find_symbol(op: Operator) -> (word: &'static str)
    ensures
        word == symbol(op),
{
    match op {
        Operator::Add => "+",
        Operator::Subtract => "-",
        Operator::Multiply => "*",
        Operator::Divide => "/",
        Operator::Modulo => "%",
        Operator::Equals => "==",
        Operator::NotEquals => "!=",
        Operator::LessThan => "<",
        Operator::LessThanOrEqual => "<=",
        Operator::GreaterThan => ">",
        Operator::GreaterThanOrEqual => ">=",
        Operator::LogicalAnd => "&&",
        Operator::LogicalOr => "||",
        Operator::BitAnd => "&",
        Operator::BitOr => "|",
        Operator::BitXor => "^",
        Operator::ShiftLeft => "<<",
        Operator::ShiftRight => ">>",
        Operator::Other(_) => "",
    }
}

/// The word for a type that has no parts.
pub open spec fn plain_word(ty: HirType) -> &'static str {
    match ty {
        HirType::I8 => "i8",
        HirType::I16 => "i16",
        HirType::I32 => "i32",
        HirType::I64 => "i64",
        HirType::U8 => "u8",
        HirType::U16 => "u16",
        HirType::U32 => "u32",
        HirType::U64 => "u64",
        HirType::F32 => "f32",
        HirType::F64 => "f64",
        HirType::I128 => "i128",
        HirType::U128 => "u128",
        HirType::Boolean => "bool",
        HirType::String => "str",
        HirType::Void => "void",
        HirType::Unknown => "<unknown>",
        HirType::Lambda { .. } => "lambda",
        HirType::This => "this",
        HirType::Null => "null",
        HirType::Char => "char",
        HirType::Usize => "usize",
        HirType::Isize => "isize",
        HirType::Never => "never",
        _ => "",
    }
}

fn find_plain_word(ty: &HirType) -> (word: &'static str)
    ensures
        word == plain_word(*ty),
{
    match ty {
        HirType::I8 => "i8",
        HirType::I16 => "i16",
        HirType::I32 => "i32",
        HirType::I64 => "i64",
        HirType::U8 => "u8",
        HirType::U16 => "u16",
        HirType::U32 => "u32",
        HirType::U64 => "u64",
        HirType::F32 => "f32",
        HirType::F64 => "f64",
        HirType::I128 => "i128",
        HirType::U128 => "u128",
        HirType::Boolean => "bool",
        HirType::String => "str",
        HirType::Void => "void",
        HirType::Unknown => "<unknown>",
        HirType::Lambda { .. } => "lambda",
        HirType::This => "this",
        HirType::Null => "null",
        HirType::Char => "char",
        HirType::Usize => "usize",
        HirType::Isize => "isize",
        HirType::Never => "never",
        _ => "",
    }
}

impl Text {
    pub open spec fn none() -> Text {
        Text { pieces: Nil }
    }

    pub open spec fn with_piece(self, piece: Piece) -> Text {
        Text { pieces: self.pieces.snoc(piece) }
    }

    pub open spec fn with(self, words: &'static str) -> Text {
        self.with_piece(Piece::Words(words))
    }

    pub open spec fn with_name(self, name: StrId) -> Text {
        self.with_piece(Piece::Name(name))
    }

    pub open spec fn with_number(self, value: i64) -> Text {
        self.with_piece(Piece::Number(value))
    }

    pub open spec fn with_count(self, value: usize) -> Text {
        self.with_piece(Piece::Count(value))
    }

    pub open spec fn with_shown(self, ty: HirType) -> Text {
        self.with_piece(Piece::Shown(ty))
    }

    /// The text and a name, where there is one.
    pub open spec fn with_any_name(self, name: Option<StrId>) -> Text {
        match name {
            Some(known) => self.with_name(known),
            None => self,
        }
    }

    /// The text and names with something between each two of them.
    pub open spec fn with_names(self, names: List<StrId>, between: &'static str) -> Text
        decreases names,
    {
        match names {
            Nil => self,
            Cons(name, rest) => if *rest is Nil {
                self.with_name(*name)
            } else {
                self.with_name(*name).with(between).with_names(*rest, between)
            },
        }
    }

    /// The text and fields, each behind a dot.
    pub open spec fn with_dotted(self, path: List<StrId>) -> Text
        decreases path,
    {
        match path {
            Nil => self,
            Cons(field, rest) => self.with(".").with_name(*field).with_dotted(*rest),
        }
    }

    /// The text and an index in brackets: a single element, a range, or a place.
    pub open spec fn with_index(self, index: Option<UsedIndex>) -> Text {
        match index {
            None => self,
            Some(UsedIndex::Range(start, end)) => if end == succ(start) {
                self.with("[").with_number(start).with("]")
            } else {
                self.with("[").with_number(start).with("..").with_number(end).with("]")
            },
            Some(UsedIndex::Place(root, path)) => self.with("[").with_name(root).with_dotted(
                path,
            ).with("]"),
        }
    }

    /// The text and the fields and indices that an access goes through.
    pub open spec fn with_effect(self, path: List<HirEffectSegment>) -> Text
        decreases path,
    {
        match path {
            Nil => self,
            Cons(segment, rest) => match *segment {
                HirEffectSegment::Field(field) => self.with(".").with_name(field).with_effect(
                    *rest,
                ),
                HirEffectSegment::Index(_) => self.with("[..]").with_effect(*rest),
            },
        }
    }

    pub open spec fn with_operator(self, op: Operator) -> Text {
        match op {
            Operator::Other(name) => self.with_name(name),
            _ => self.with(symbol(op)),
        }
    }

    /// The text and a provenance: each dereference of the path is a star in front, each field a
    /// dot and its name behind.
    pub open spec fn with_provenance(self, provenance: ProvenanceAnnotation) -> Text {
        self.with_stars(provenance.path).with_root(provenance.root).with_fields(provenance.path)
    }

    pub open spec fn with_stars(self, path: List<ProvenancePathSegment>) -> Text
        decreases path,
    {
        match path {
            Nil => self,
            Cons(segment, rest) => if *segment is Deref {
                self.with("*").with_stars(*rest)
            } else {
                self.with_stars(*rest)
            },
        }
    }

    pub open spec fn with_root(self, root: ProvenanceRoot) -> Text {
        match root {
            ProvenanceRoot::Var(name) => self.with_name(name),
            ProvenanceRoot::ThisRoot => self.with("this"),
            ProvenanceRoot::Global { name, .. } => self.with_name(name),
        }
    }

    pub open spec fn with_fields(self, path: List<ProvenancePathSegment>) -> Text
        decreases path,
    {
        match path {
            Nil => self,
            Cons(segment, rest) => match *segment {
                ProvenancePathSegment::Field(field) => self.with(".").with_name(
                    field,
                ).with_fields(*rest),
                ProvenancePathSegment::Deref => self.with_fields(*rest),
            },
        }
    }

    /// The text and a name with type arguments in angle brackets, where it has some.
    pub open spec fn with_applied(self, word: &'static str, name: StrId, args: List<HirType>) -> Text
        decreases args, 1int,
    {
        let named = self.with(word).with_name(name);
        if args is Nil {
            named
        } else {
            named.with("<").with_types(args).with(">")
        }
    }

    /// The text and types with commas between them.
    pub open spec fn with_types(self, types: List<HirType>) -> Text
        decreases types, 0int,
    {
        match types {
            Nil => self,
            Cons(ty, rest) => if *rest is Nil {
                self.with_type(*ty)
            } else {
                self.with_type(*ty).with(", ").with_types(*rest)
            },
        }
    }

    /// The text and the bounds of a dynamic type. From the second on, each is followed by a plus.
    pub open spec fn with_bounds(self, bounds: List<HirType>, first: bool) -> Text
        decreases bounds,
    {
        match bounds {
            Nil => self,
            Cons(bound, rest) => if first {
                self.with_shown(*bound).with_bounds(*rest, false)
            } else {
                self.with_shown(*bound).with(" + ").with_bounds(*rest, false)
            },
        }
    }

    /// The text and a type.
    pub open spec fn with_type(self, ty: HirType) -> Text
        decreases ty, 0int,
    {
        match ty {
            HirType::Struct { name, type_args, .. } => self.with_applied(
                "struct ",
                name,
                type_args,
            ),
            HirType::DynInterface(name, _) => self.with("interface ").with_name(name),
            HirType::Enum { name, type_args } => self.with_applied("enum ", name, type_args),
            HirType::Generic(name) => self.with("generic ").with_name(name),
            HirType::SafePointer { inner, mutability_state } => self.with("*").with_piece(
                Piece::Mutability(mutability_state),
            ).with(" ").with_shown(*inner),
            HirType::UnsafePointer { inner, mutability_state } => self.with("[*]").with_piece(
                Piece::Mutability(mutability_state),
            ).with(" ").with_shown(*inner),
            HirType::Ref { inner, ref_kind, provenance } => {
                let pointing = match provenance {
                    Some(known) => self.with("&").with_piece(Piece::Provenance(known)),
                    None => self.with("&"),
                };
                match ref_kind {
                    RefKind::Unique => pointing.with("mut ").with_shown(*inner),
                    RefKind::Alias => pointing.with("alias ").with_shown(*inner),
                    RefKind::Shared => pointing.with_shown(*inner),
                }
            },
            HirType::Nullable(inner) => self.with("?").with_shown(*inner),
            HirType::Dyn { bounds } => self.with("dyn ").with_bounds(bounds, true),
            HirType::Tuple(types) => self.with("(").with_types(types).with(")"),
            HirType::Array(inner, len) => self.with("[").with_count(len).with("]").with_type(
                *inner,
            ),
            HirType::Slice(inner) => self.with("[]").with_type(*inner),
            HirType::OwnedPointer { inner, allocator } => {
                let owned = match allocator {
                    Some(known) => self.with("^").with_provenance(known),
                    None => self.with("^"),
                };
                owned.with(" ").with_type(*inner)
            },
            HirType::Range { elem, inclusive } => self.with("range<").with_type(*elem).with(
                if inclusive {
                    "> (inclusive)"
                } else {
                    ">"
                },
            ),
            _ => self.with(plain_word(ty)),
        }
    }

    pub fn new() -> (text: Text)
        ensures
            text == Text::none(),
    {
        Text { pieces: Nil }
    }

    pub fn piece(self, piece: Piece) -> (text: Text)
        ensures
            text == self.with_piece(piece),
    {
        Text { pieces: self.pieces.push(piece) }
    }

    pub fn add(self, words: &'static str) -> (text: Text)
        ensures
            text == self.with(words),
    {
        self.piece(Piece::Words(words))
    }

    pub fn name(self, name: StrId) -> (text: Text)
        ensures
            text == self.with_name(name),
    {
        self.piece(Piece::Name(name))
    }

    pub fn number(self, value: i64) -> (text: Text)
        ensures
            text == self.with_number(value),
    {
        self.piece(Piece::Number(value))
    }

    pub fn count(self, value: usize) -> (text: Text)
        ensures
            text == self.with_count(value),
    {
        self.piece(Piece::Count(value))
    }

    fn shown(self, ty: &HirType) -> (text: Text)
        ensures
            text == self.with_shown(*ty),
    {
        self.piece(Piece::Shown(ty.dup()))
    }

    fn any_name(self, name: Option<StrId>) -> (text: Text)
        ensures
            text == self.with_any_name(name),
    {
        match name {
            Some(known) => self.name(known),
            None => self,
        }
    }

    pub fn names(self, names: &List<StrId>, between: &'static str) -> (text: Text)
        ensures
            text == self.with_names(*names, between),
        decreases names,
    {
        match names {
            Nil => self,
            Cons(name, rest) => if rest.is_empty() {
                self.name(**name)
            } else {
                self.name(**name).add(between).names(rest, between)
            },
        }
    }

    fn dotted(self, path: &List<StrId>) -> (text: Text)
        ensures
            text == self.with_dotted(*path),
        decreases path,
    {
        match path {
            Nil => self,
            Cons(field, rest) => self.add(".").name(**field).dotted(rest),
        }
    }

    fn index(self, index: &Option<UsedIndex>) -> (text: Text)
        ensures
            text == self.with_index(*index),
    {
        match index {
            None => self,
            Some(UsedIndex::Range(start, end)) => if *end == next_index(*start) {
                self.add("[").number(*start).add("]")
            } else {
                self.add("[").number(*start).add("..").number(*end).add("]")
            },
            Some(UsedIndex::Place(root, path)) => self.add("[").name(*root).dotted(path).add("]"),
        }
    }

    fn effect(self, path: &List<HirEffectSegment>) -> (text: Text)
        ensures
            text == self.with_effect(*path),
        decreases path,
    {
        match path {
            Nil => self,
            Cons(segment, rest) => match &**segment {
                HirEffectSegment::Field(field) => self.add(".").name(*field).effect(rest),
                HirEffectSegment::Index(_) => self.add("[..]").effect(rest),
            },
        }
    }

    fn operator(self, op: Operator) -> (text: Text)
        ensures
            text == self.with_operator(op),
    {
        match op {
            Operator::Other(name) => self.name(name),
            _ => self.add(find_symbol(op)),
        }
    }

    fn provenance(self, provenance: &ProvenanceAnnotation) -> (text: Text)
        ensures
            text == self.with_provenance(*provenance),
    {
        self.stars(&provenance.path).root(provenance.root).fields(&provenance.path)
    }

    fn stars(self, path: &List<ProvenancePathSegment>) -> (text: Text)
        ensures
            text == self.with_stars(*path),
        decreases path,
    {
        match path {
            Nil => self,
            Cons(segment, rest) => if matches!(**segment, ProvenancePathSegment::Deref) {
                self.add("*").stars(rest)
            } else {
                self.stars(rest)
            },
        }
    }

    fn root(self, root: ProvenanceRoot) -> (text: Text)
        ensures
            text == self.with_root(root),
    {
        match root {
            ProvenanceRoot::Var(name) => self.name(name),
            ProvenanceRoot::ThisRoot => self.add("this"),
            ProvenanceRoot::Global { name, .. } => self.name(name),
        }
    }

    fn fields(self, path: &List<ProvenancePathSegment>) -> (text: Text)
        ensures
            text == self.with_fields(*path),
        decreases path,
    {
        match path {
            Nil => self,
            Cons(segment, rest) => match &**segment {
                ProvenancePathSegment::Field(field) => self.add(".").name(*field).fields(rest),
                ProvenancePathSegment::Deref => self.fields(rest),
            },
        }
    }

    fn applied(self, word: &'static str, name: StrId, args: &List<HirType>) -> (text: Text)
        ensures
            text == self.with_applied(word, name, *args),
        decreases args, 1int,
    {
        let named = self.add(word).name(name);
        if args.is_empty() {
            named
        } else {
            named.add("<").types(args).add(">")
        }
    }

    fn types(self, types: &List<HirType>) -> (text: Text)
        ensures
            text == self.with_types(*types),
        decreases types, 0int,
    {
        match types {
            Nil => self,
            Cons(ty, rest) => if rest.is_empty() {
                self.ty(ty)
            } else {
                self.ty(ty).add(", ").types(rest)
            },
        }
    }

    fn bounds(self, bounds: &List<HirType>, first: bool) -> (text: Text)
        ensures
            text == self.with_bounds(*bounds, first),
        decreases bounds,
    {
        match bounds {
            Nil => self,
            Cons(bound, rest) => if first {
                self.shown(bound).bounds(rest, false)
            } else {
                self.shown(bound).add(" + ").bounds(rest, false)
            },
        }
    }

    pub fn ty(self, ty: &HirType) -> (text: Text)
        ensures
            text == self.with_type(*ty),
        decreases ty, 0int,
    {
        match ty {
            HirType::Struct { name, type_args, .. } => self.applied("struct ", *name, type_args),
            HirType::DynInterface(name, _) => self.add("interface ").name(*name),
            HirType::Enum { name, type_args } => self.applied("enum ", *name, type_args),
            HirType::Generic(name) => self.add("generic ").name(*name),
            HirType::SafePointer { inner, mutability_state } => self.add("*").piece(
                Piece::Mutability(*mutability_state),
            ).add(" ").shown(inner),
            HirType::UnsafePointer { inner, mutability_state } => self.add("[*]").piece(
                Piece::Mutability(*mutability_state),
            ).add(" ").shown(inner),
            HirType::Ref { inner, ref_kind, provenance } => {
                let pointing = match provenance {
                    Some(known) => self.add("&").piece(Piece::Provenance(known.dup())),
                    None => self.add("&"),
                };
                match ref_kind {
                    RefKind::Unique => pointing.add("mut ").shown(inner),
                    RefKind::Alias => pointing.add("alias ").shown(inner),
                    RefKind::Shared => pointing.shown(inner),
                }
            },
            HirType::Nullable(inner) => self.add("?").shown(inner),
            HirType::Dyn { bounds } => self.add("dyn ").bounds(bounds, true),
            HirType::Tuple(types) => self.add("(").types(types).add(")"),
            HirType::Array(inner, len) => self.add("[").count(*len).add("]").ty(inner),
            HirType::Slice(inner) => self.add("[]").ty(inner),
            HirType::OwnedPointer { inner, allocator } => {
                let owned = match allocator {
                    Some(known) => self.add("^").provenance(known),
                    None => self.add("^"),
                };
                owned.add(" ").ty(inner)
            },
            HirType::Range { elem, inclusive } => {
                let ending = if *inclusive {
                    "> (inclusive)"
                } else {
                    ">"
                };
                self.add("range<").ty(elem).add(ending)
            },
            _ => self.add(find_plain_word(ty)),
        }
    }
}

pub fn operator_symbol(op: Operator) -> (text: Text)
    ensures
        text == Text::none().with_operator(op),
{
    Text::new().operator(op)
}

pub fn type_to_string(ty: &HirType) -> (text: Text)
    ensures
        text == Text::none().with_type(*ty),
{
    Text::new().ty(ty)
}

pub fn provenance_to_string(provenance: &ProvenanceAnnotation) -> (text: Text)
    ensures
        text == Text::none().with_provenance(*provenance),
{
    Text::new().provenance(provenance)
}

pub fn path_display(path: &List<StrId>, index: &Option<UsedIndex>) -> (text: Text)
    ensures
        text == Text::none().with_dotted(*path).with_index(*index),
{
    Text::new().dotted(path).index(index)
}

impl BorrowError {
    pub open spec fn complaint(self) -> &'static str {
        match self {
            BorrowError::UseAfterMove => "use of a value after it was moved",
            BorrowError::MutablyBorrowed => "cannot borrow: value is already mutably borrowed",
            BorrowError::AlreadyMutablyBorrowed =>
                "cannot borrow as mutable: already mutably borrowed elsewhere",
            BorrowError::Borrowed => "cannot borrow as mutable: value is already borrowed",
            BorrowError::InvalidMove => "invalid move",
            BorrowError::InvalidWrite => "invalid write",
            BorrowError::InvalidRead => "invalid read",
            BorrowError::CannotMoveBorrowed => "cannot move out of a value while it is borrowed",
            BorrowError::UnknownAlias => "cannot prove these two accesses don't overlap",
            BorrowError::UseOfUninitialized => "use of uninitialized value",
            BorrowError::CannotDropUninitialized => "cannot drop uninitialized value",
            BorrowError::LoanNotFound
            | BorrowError::PlaceNotFound
            | BorrowError::ProvenanceNotFound => "internal borrow-checker error",
            BorrowError::AliasConflict =>
                "cannot borrow as &alias, an immutable reference or a mutable reference co-exists.",
        }
    }

    fn complain(self) -> (words: &'static str)
        ensures
            words == self.complaint(),
    {
        match self {
            BorrowError::UseAfterMove => "use of a value after it was moved",
            BorrowError::MutablyBorrowed => "cannot borrow: value is already mutably borrowed",
            BorrowError::AlreadyMutablyBorrowed =>
                "cannot borrow as mutable: already mutably borrowed elsewhere",
            BorrowError::Borrowed => "cannot borrow as mutable: value is already borrowed",
            BorrowError::InvalidMove => "invalid move",
            BorrowError::InvalidWrite => "invalid write",
            BorrowError::InvalidRead => "invalid read",
            BorrowError::CannotMoveBorrowed => "cannot move out of a value while it is borrowed",
            BorrowError::UnknownAlias => "cannot prove these two accesses don't overlap",
            BorrowError::UseOfUninitialized => "use of uninitialized value",
            BorrowError::CannotDropUninitialized => "cannot drop uninitialized value",
            BorrowError::LoanNotFound
            | BorrowError::PlaceNotFound
            | BorrowError::ProvenanceNotFound => "internal borrow-checker error",
            BorrowError::AliasConflict =>
                "cannot borrow as &alias, an immutable reference or a mutable reference co-exists.",
        }
    }
}

impl TypeText {
    /// How something that stands for a type reads.
    pub open spec fn wording(self) -> Text {
        match self {
            TypeText::Type(ty) => Text::none().with_type(ty),
            TypeText::Bool => Text::none().with("bool"),
            TypeText::Null => Text::none().with("null"),
            TypeText::Str => Text::none().with("str"),
            TypeText::Integer => Text::none().with("integer"),
            TypeText::U32 => Text::none().with("u32"),
            TypeText::TuplePattern(count) => Text::none().with("tuple pattern with ").with_count(
                count,
            ).with(" element(s)"),
            TypeText::ArrayPattern(count) => Text::none().with("array pattern with ").with_count(
                count,
            ).with(" element(s)"),
            TypeText::NamedFieldPattern(name) => Text::none().with("named-field pattern `")
                .with_name(name).with("`"),
        }
    }

    pub fn text(&self) -> (text: Text)
        ensures
            text == self.wording(),
    {
        match self {
            TypeText::Type(ty) => type_to_string(ty),
            TypeText::Bool => Text::new().add("bool"),
            TypeText::Null => Text::new().add("null"),
            TypeText::Str => Text::new().add("str"),
            TypeText::Integer => Text::new().add("integer"),
            TypeText::U32 => Text::new().add("u32"),
            TypeText::TuplePattern(count) => Text::new().add("tuple pattern with ").count(*count).add(
                " element(s)",
            ),
            TypeText::ArrayPattern(count) => Text::new().add("array pattern with ").count(*count).add(
                " element(s)",
            ),
            TypeText::NamedFieldPattern(name) => Text::new().add("named-field pattern `").name(
                *name,
            ).add("`"),
        }
    }
}

impl FunctionName {
    /// How a function reads as it is named in a call.
    pub open spec fn wording(self) -> Text {
        match self {
            FunctionName::Plain(name) => Text::none().with_name(name),
            FunctionName::Member(path, member) => Text::none().with_names(path, "::").with(".")
                .with_name(member),
            FunctionName::Qualified(path, member) => Text::none().with_names(path, "::").with("::")
                .with_name(member),
        }
    }

    pub fn text(&self) -> (text: Text)
        ensures
            text == self.wording(),
    {
        match self {
            FunctionName::Plain(name) => Text::new().name(*name),
            FunctionName::Member(path, member) => Text::new().names(path, "::").add(".").name(
                *member,
            ),
            FunctionName::Qualified(path, member) => Text::new().names(path, "::").add("::").name(
                *member,
            ),
        }
    }
}

/// Why a step failed, and through which reference.
pub open spec fn borrow_complaint(
    error: BorrowError,
    provenance: Option<ProvenanceAnnotation>,
) -> Text {
    let base = Text::none().with(error.complaint());
    match provenance {
        Some(known) => base.with(" (via ").with_provenance(known).with(")"),
        None => base,
    }
}

pub fn describe_borrow_error(error: BorrowError, provenance: &Option<ProvenanceAnnotation>) -> (text:
    Text)
    ensures
        text == borrow_complaint(error, *provenance),
{
    let base = Text::new().add(error.complain());
    match provenance {
        Some(known) => base.add(" (via ").provenance(known).add(")"),
        None => base,
    }
}

/// Why a step of the borrow checker failed, as it is told.
pub open spec fn step_complaint(op: BorrowOp, error: BorrowError) -> Text {
    match op {
        BorrowOp::ReadAll(_) => Text::none().with(
            "cannot pass this reference here: it may alias a value that's still mutably borrowed, and this call's effect on it isn't provably disjoint (the callee's parameter usage couldn't be bounded)",
        ),
        BorrowOp::ReadParts { .. } => Text::none().with(
            "cannot pass this reference here: the callee reads a part of it that's still mutably borrowed",
        ),
        BorrowOp::Borrow { blame, .. } => borrow_complaint(error, blame),
        BorrowOp::Use { blame, .. } => borrow_complaint(error, blame),
        BorrowOp::UseShell { blame, .. } => borrow_complaint(error, blame),
        BorrowOp::Move { blame, .. } => borrow_complaint(error, Some(blame)),
        _ => borrow_complaint(error, None),
    }
}

pub fn describe_failed_step(op: &BorrowOp, error: BorrowError) -> (text: Text)
    ensures
        text == step_complaint(*op, error),
{
    match op {
        BorrowOp::ReadAll(_) => Text::new().add(
            "cannot pass this reference here: it may alias a value that's still mutably borrowed, and this call's effect on it isn't provably disjoint (the callee's parameter usage couldn't be bounded)",
        ),
        BorrowOp::ReadParts { .. } => Text::new().add(
            "cannot pass this reference here: the callee reads a part of it that's still mutably borrowed",
        ),
        BorrowOp::Borrow { blame, .. } => describe_borrow_error(error, blame),
        BorrowOp::Use { blame, .. } => describe_borrow_error(error, blame),
        BorrowOp::UseShell { blame, .. } => describe_borrow_error(error, blame),
        BorrowOp::Move { blame, .. } => describe_borrow_error(error, &Some(blame.dup())),
        _ => describe_borrow_error(error, &None),
    }
}

impl Message {
    /// How a message reads.
    pub open spec fn wording(self) -> Text {
        match self {
            Message::PointerToLocal { name } => Text::none().with("cannot return a pointer to local variable `")
                .with_name(name).with("`: its storage does not outlive this function"),
            Message::ReturnsDangling { name } => Text::none().with("cannot return `")
                .with_name(name)
                .with("`: it holds a pointer to local stack memory that does not outlive this function"),
            Message::CompoundReadsUninit { root, index } => Text::none().with("use of uninitialized value `")
                .with_name(root).with("[").with_number(index)
                .with("]`: a compound assignment reads the current value first"),
            Message::UninitPath { root, path } => Text::none().with("use of uninitialized value `")
                .with_name(root).with_dotted(path).with("`: not assigned since `uninit`"),
            Message::MaybeUninitPath { root, path } => Text::none().with("use of possibly uninitialized value `")
                .with_name(root).with_dotted(path)
                .with("`: not initialized on all control-flow paths"),
            Message::UninitValue { name } => Text::none().with("use of uninitialized value `")
                .with_name(name).with("`"),
            Message::MaybeUninitValue { name } => Text::none().with("use of possibly uninitialized value `")
                .with_name(name).with("`"),
            Message::UninitRange { root, start, end } => Text::none().with("use of uninitialized value `")
                .with_name(root).with("[").with_number(start).with("..").with_number(end)
                .with("]`: not every element in this range has been assigned since `uninit`"),
            Message::SliceNeedsWhole { root } => Text::none().with("slicing `").with_name(root)
                .with("` with a non-constant bound requires the whole array to be initialized (the compiler can't prove which elements are covered)"),
            Message::UninitElement { root, index } => Text::none().with("use of uninitialized value `")
                .with_name(root).with("[").with_number(index).with("]`"),
            Message::IndexNeedsWhole { root } => Text::none().with("indexing `").with_name(root)
                .with("` with a non-constant index requires the whole array to be initialized (the compiler can't prove which element you're reading)"),
            Message::WriteNotGranted { root, path, index } => Text::none().with("writes to `")
                .with_name(root).with_dotted(path).with_index(index)
                .with("` but the declared effects don't grant `&mut` access there"),
            Message::ReadNotListed { root, path, index } => Text::none().with("reads `")
                .with_name(root).with_dotted(path).with_index(index)
                .with("` but it isn't listed in the declared effects"),
            Message::AccessListNeedsReference => Text::none().with("`.{...}` access lists are only valid on reference or pointer parameters"),
            Message::MutThroughShared => Text::none().with("declares `&mut` access through a parameter that isn't itself `&mut`"),
            Message::ProvenanceNotProjection { provenance } => Text::none().with("return type declares provenance `")
                .with_provenance(provenance)
                .with("` but the body's returned reference isn't a simple projection"),
            Message::ProvenanceRootMismatch { provenance } => Text::none().with("declared provenance `")
                .with_provenance(provenance)
                .with("` doesn't match the parameter the returned reference is actually rooted in"),
            Message::PartialMoveOfDrop { container } => Text::none().with("cannot partially move out of `")
                .with_type(container).with("`, which implements `Drop`"),
            Message::MovedValue { root } => Text::none().with("use of moved value: `")
                .with_name(root).with("`"),
            Message::MovedField { root, field } => Text::none().with("use of moved value: `")
                .with_name(root).with(".").with_name(field).with("`"),
            Message::DuplicateFunction { name } => Text::none().with("function `").with_name(name)
                .with("` is already declared in this module with the same signature"),
            Message::UnresolvedImport { path } => Text::none().with("cannot resolve imported module `")
                .with_names(path, "::").with("`"),
            Message::UnresolvedPackage { path } => Text::none().with("cannot resolve package path `")
                .with_names(path, "::").with("`"),
            Message::AmbiguousAlias { existing, added, alias } => Text::none().with("auto-imported packages `")
                .with_any_name(existing).with("` and `").with_any_name(added)
                .with("` both alias to `").with_name(alias)
                .with("`; add an explicit `import` to disambiguate"),
            Message::CopyAndDrop { name } => Text::none().with_name(name)
                .with(" should not implement Copy and Drop at the same time"),
            Message::NotZeroable { ty } => Text::none().with("`undefined` cannot be used for type `")
                .with_type(ty).with("`: it cannot be safely zero-initialized"),
            Message::PointerIndexNeedsUnsafe => Text::none().with("indexing a raw/unsafe pointer requires an unsafe block"),
            Message::RawIndexNeedsUnsafe => Text::none().with("indexing a raw pointer requires an unsafe block"),
            Message::UnsafeIndexNeedsUnsafe => Text::none().with("indexing an unsafe pointer requires an unsafe block"),
            Message::RawDerefNeedsUnsafe => Text::none().with("dereferencing a raw pointer requires an unsafe block"),
            Message::UnsafeDerefNeedsUnsafe => Text::none().with("dereferencing an unsafe pointer requires an unsafe block"),
            Message::CannotIndex { ty } => Text::none().with("cannot index type `").with_type(ty)
                .with("`"),
            Message::CannotSlice { ty } => Text::none().with("cannot slice type `").with_type(ty)
                .with("`"),
            Message::CannotDeref { ty } => Text::none().with("cannot dereference non-pointer type `")
                .with_type(ty).with("`"),
            Message::SliceBoundsNotIntegers => Text::none().with("slice bounds must be integers"),
            Message::RangeBoundsNotIntegers { ty } => Text::none().with("range bounds must be integers, found `")
                .with_type(ty).with("`"),
            Message::IfNeedsElse => Text::none().with("if used as an expression must have an else branch"),
            Message::UnknownIntrinsic { name } => Text::none().with("Unknown intrinsic ")
                .with_name(name),
            Message::ElseOnNonNullable { ty } => Text::none().with("`? else` used on non-nullable type `")
                .with_type(ty).with("`"),
            Message::CapOnlyOnOwned => Text::none().with("`.cap` only exists on an owned slice"),
            Message::CapNotAssignable => Text::none().with("cannot assign to `.cap`: it is allocator-managed bookkeeping tied to the slice's actual allocation size, and there is no way to write it that keeps it in sync with the real allocation."),
            Message::LenNeedsUnsafe => Text::none().with("writing to `.len` requires an unsafe block: it directly edits a slice's length bookkeeping and can expose uninitialized memory or break drop tracking"),
            Message::LenNotInteger { ty } => Text::none().with("`.len` must be assigned an integer, found `")
                .with_type(ty).with("`"),
            Message::LenPlainAssignmentOnly => Text::none().with("`.len` only supports plain assignment, not compound assignment"),
            Message::NotDeclaredMut { name } => Text::none().with("cannot assign to `")
                .with_name(name).with("`: it is not declared `mut`"),
            Message::StructTypeArgCount { name, expected, found } => Text::none().with("struct `")
                .with_name(name).with("` expects ").with_count(expected)
                .with(" type argument(s), found ").with_count(found),
            Message::StructNeedsTypeArgs { name } => Text::none().with("struct `").with_name(name)
                .with("` is generic and requires explicit type arguments, e.g. `").with_name(name)
                .with("<Type> { .. }`"),
            Message::StructNotGeneric { name } => Text::none().with("struct `").with_name(name)
                .with("` is not generic; no type arguments expected"),
            Message::FieldInitializedTwice { field } => Text::none().with("field `")
                .with_name(field).with("` initialized more than once"),
            Message::MissingFields { names } => Text::none().with("missing field(s) in struct init: ")
                .with_names(names, ", "),
            Message::NoSuchVariant { enum_name, variant } => Text::none().with("enum `")
                .with_name(enum_name).with("` has no variant `").with_name(variant).with("`"),
            Message::EnumTypeArgCount { name, expected, found } => Text::none().with("enum `")
                .with_name(name).with("` expects ").with_count(expected)
                .with(" type argument(s), found ").with_count(found),
            Message::EnumNeedsTypeArgs { name, variant } => Text::none().with("enum `")
                .with_name(name).with("` is generic and requires explicit type arguments, e.g. `")
                .with_name(name).with("<Type>::").with_name(variant).with("(..)`"),
            Message::EnumNotGeneric { name } => Text::none().with("enum `").with_name(name)
                .with("` is not generic; no type arguments expected"),
            Message::FieldOnNonStruct { ty } => Text::none().with("Cannot access field on non-struct type: ")
                .with_type(ty),
            Message::OperatorMisplaced { op } => Text::none().with("operator `").with_operator(op)
                .with("` cannot appear in this position"),
            Message::NotImported { kind, name } => Text::none().with(kind.word()).with(" `")
                .with_name(name).with("` is declared in another module and has not been imported"),
            Message::AmbiguousName { name, packages } => Text::none().with("`").with_name(name)
                .with("` is ambiguous: it is auto-imported from multiple packages (")
                .with_names(packages, ", ").with("); add an explicit `import` to disambiguate"),
            Message::FunctionNotVisible { name } => Text::none().with("function `")
                .with_name(name).with("` is not visible from this module"),
            Message::NoCast { source, target } => Text::none().with("cannot cast `")
                .with_type(source).with("` as `").with_type(target)
                .with("`: no defined conversion between these types"),
            Message::ReplaceNoTypeArgs => Text::none().with("$replace takes no type arguments"),
            Message::ReplaceNeedsPlace => Text::none().with("$replace's first argument must be a place (variable, field, deref, or index)"),
            Message::ReplaceUninit => Text::none().with("$replace cannot write `uninit`: the slot must always hold a valid value"),
            Message::ReplaceSliceField => Text::none().with("$replace cannot target a slice's `.len`/`.cap`"),
            Message::ReplaceNotMut { name } => Text::none().with("cannot $replace `")
                .with_name(name).with("`: it is not declared `mut`"),
            Message::ReinterpretTypeArgCount { found } => Text::none().with("$reinterpret expects exactly 1 type argument, found ")
                .with_count(found),
            Message::ReinterpretNeedsUnsafe => Text::none().with("$reinterpret requires an unsafe block: it reinterprets a value's bit representation as a different type with no conversion or validation"),
            Message::UnreachableNoTypeArgs => Text::none().with("$unreachable takes no type arguments"),
            Message::UnreachableNoArgs => Text::none().with("$unreachable takes no value arguments"),
            Message::OneTypeArg { found } => Text::none().with("intrinsic expects exactly 1 type argument, found ")
                .with_count(found),
            Message::NoValueArgs => Text::none().with("this intrinsic takes no value arguments"),
            Message::OwnNoTypeArgs => Text::none().with("$own takes no type arguments"),
            Message::OwnArgCount { found } => Text::none().with("$own expects 1 argument (ptr), 2 (ptr, allocator or len), 3 (ptr, allocator, len), or 4 (ptr, allocator, len, cap) for owned slices, found ")
                .with_count(found),
            Message::OwnNeedsPointer { ty } => Text::none().with("$own expects a `*T` or `[*]T`, found `")
                .with_type(ty).with("`"),
            Message::OwnAllocatorUnstable => Text::none().with("$own's allocator argument must be a place with stable provenance (a global, `this`, a param, or a projection through them)"),
            Message::OwnAllocatorNotStruct => Text::none().with("$own's allocator argument must be a struct implementing RawAllocator"),
            Message::NotRawAllocator { name } => Text::none().with("`").with_name(name)
                .with("` does not implement `RawAllocator`"),
            Message::OwnLenNotInteger { ty } => Text::none().with("$own's len argument must be an integer, found `")
                .with_type(ty).with("`"),
            Message::OwnCapNotInteger { ty } => Text::none().with("$own's cap argument must be an integer, found `")
                .with_type(ty).with("`"),
            Message::OwnArgNotInteger { ty } => Text::none().with("$own's argument must be an integer, found `")
                .with_type(ty).with("`"),
            Message::OwnNeedsLenAndCap => Text::none().with("$own for an owned slice requires both `len` and `cap`: use `$own(ptr, allocator, len, cap)`"),
            Message::AlignNoTypeArgs => Text::none().with("$assert_align takes no type arguments"),
            Message::AlignNeedsPointer { ty } => Text::none().with("$assert_align expects a pointer, found `")
                .with_type(ty).with("`"),
            Message::AlignNotInteger { ty } => Text::none().with("$assert_align expects an integer alignment, found `")
                .with_type(ty).with("`"),
            Message::AlignNotPowerOfTwo { value } => Text::none().with("alignment must be a positive power of two, found ")
                .with_number(value),
            Message::AtomicNeedsUnsafe { atomic } => Text::none().with(atomic.word())
                .with(" requires an unsafe block"),
            Message::AtomicNeedsPointer { atomic, ty } => Text::none().with(atomic.word())
                .with(" expects a pointer to `u32`, found `").with_type(ty).with("`"),
            Message::CpuRelaxNoArgs => Text::none().with("$cpu_relax takes no arguments"),
            Message::ThisOutsideMethod => Text::none().with("`this` used outside of a method that has a `this` receiver"),
            Message::UnsafeCall { name } => Text::none().with("call to unsafe function `")
                .with_name(name).with("` requires an `unsafe` block"),
            Message::UnsafeMethodCall { owner, name } => Text::none().with("call to unsafe function `")
                .with_name(owner).with(".").with_name(name).with("` requires an `unsafe` block"),
            Message::InterfaceCalleeNotField => Text::none().with("interface call callee must be a field access, found ")
                .with_piece(Piece::Callee),
            Message::NoInterfaceMethod { method, interface } => Text::none().with("no method `")
                .with_name(method).with("` on interface `").with_name(interface).with("`"),
            Message::NotCallable { ty } => Text::none().with("Expression of type `").with_type(ty)
                .with("` is not callable"),
            Message::FunctionTypeArgCount { name, expected, found } => Text::none().with("function `")
                .with_name(name).with("` expects ").with_count(expected)
                .with(" type argument(s), found ").with_count(found),
            Message::FunctionNotGeneric { name } => Text::none().with("function `")
                .with_name(name).with("` is not generic; no type arguments expected"),
            Message::GenericsNotInferred { name } => Text::none().with("generic function `")
                .with_name(name).with("` requires explicit type arguments, e.g. `")
                .with_name(name).with("<Type>(...)`"),
            Message::NoMethod { method, ty } => Text::none().with("no method `").with_name(method)
                .with("` on `").with_type(ty).with("`"),
            Message::PrimitiveNeedsUnsafe { method } => Text::none().with("`").with_name(method)
                .with("` requires an unsafe block: it performs no bounds check"),
            Message::IndexNotInteger { ty } => Text::none().with("index must be an integer, found `")
                .with_type(ty).with("`"),
            Message::WriteAllNeedsSlice { ty } => Text::none().with("`write_uninit_all` expects a slice or array source, found `")
                .with_type(ty).with("`"),
            Message::NotDeclared { name } => Text::none().with("`").with_name(name)
                .with("` is not declared in this module and has not been imported"),
            Message::ModuleNotImported { path } => Text::none().with("module `")
                .with_names(path, "::").with("` used without an `import ").with_names(path, "::")
                .with(";` declaration"),
            Message::ReceiverNotMut { method, root } => Text::none().with("cannot call `")
                .with_name(method).with("` on `").with_name(root).with("`: `").with_name(root)
                .with("` is not declared `mut`"),
            Message::VariantFieldCount { enum_name, variant, fields, bound } => Text::none().with("variant `")
                .with_name(enum_name).with("::").with_name(variant).with("` has ")
                .with_count(fields).with(" field(s), but the pattern binds ").with_count(bound),
            Message::TuplePatternLength { pattern, elems } => Text::none().with("tuple pattern has ")
                .with_count(pattern).with(" element(s), but the scrutinee has ").with_count(elems),
            Message::ArrayPatternLength { pattern, ty, len } => Text::none().with("array pattern has ")
                .with_count(pattern).with(" element(s), but the array type `").with_type(ty)
                .with("` has length ").with_count(len),
            Message::FieldMatchedTwice { field } => Text::none().with("field `").with_name(field)
                .with("` matched more than once in this pattern"),
            Message::NoVariantField { enum_name, variant, field } => Text::none().with("variant `")
                .with_name(enum_name).with("::").with_name(variant).with("` has no field `")
                .with_name(field).with("`"),
            Message::MissingVariantFields { names, enum_name, variant } => Text::none().with("pattern doesn't bind field(s) ")
                .with_names(names, ", ").with(" of variant `").with_name(enum_name).with("::")
                .with_name(variant).with("`"),
            Message::EmptyOrPattern => Text::none().with("or-pattern must have at least one alternative"),
            Message::OrPatternBindings { expected, found } => Text::none().with("all alternatives of an or-pattern must bind the same names with the same types: found `")
                .with_names(expected, ", ").with("` in one alternative but `")
                .with_names(found, ", ").with("` in another"),
            Message::MissingNullArm { ty } => Text::none().with("non-exhaustive match on `")
                .with_type(ty).with("`: missing a `null` arm"),
            Message::MissingVariants { enum_name, names } => Text::none().with("non-exhaustive match on enum `")
                .with_name(enum_name).with("`: missing variant(s) ").with_names(names, ", "),
            Message::NonExhaustiveBool => Text::none().with("non-exhaustive match on `bool`: requires a wildcard (`_`) arm or both `true` and `false` arms"),
            Message::NeedsCatchAll { ty } => Text::none().with("non-exhaustive match on `")
                .with_type(ty).with("`: requires a wildcard (`_`) or binding (catch-all) arm"),
            Message::PointerLambdaCaptures { root, path } => Text::none().with("a function-pointer lambda cannot capture `")
                .with_name(root).with_effect(path)
                .with("`; take a generic parameter constrained by `func(..)` to use a closure"),
        }
    }

    pub fn text(&self) -> (text: Text)
        ensures
            text == self.wording(),
    {
        match self {
            Message::PointerToLocal { name } => Text::new().add("cannot return a pointer to local variable `")
                .name(*name).add("`: its storage does not outlive this function"),
            Message::ReturnsDangling { name } => Text::new().add("cannot return `").name(*name)
                .add("`: it holds a pointer to local stack memory that does not outlive this function"),
            Message::CompoundReadsUninit { root, index } => Text::new().add("use of uninitialized value `")
                .name(*root).add("[").number(*index)
                .add("]`: a compound assignment reads the current value first"),
            Message::UninitPath { root, path } => Text::new().add("use of uninitialized value `")
                .name(*root).dotted(path).add("`: not assigned since `uninit`"),
            Message::MaybeUninitPath { root, path } => Text::new().add("use of possibly uninitialized value `")
                .name(*root).dotted(path).add("`: not initialized on all control-flow paths"),
            Message::UninitValue { name } => Text::new().add("use of uninitialized value `")
                .name(*name).add("`"),
            Message::MaybeUninitValue { name } => Text::new().add("use of possibly uninitialized value `")
                .name(*name).add("`"),
            Message::UninitRange { root, start, end } => Text::new().add("use of uninitialized value `")
                .name(*root).add("[").number(*start).add("..").number(*end)
                .add("]`: not every element in this range has been assigned since `uninit`"),
            Message::SliceNeedsWhole { root } => Text::new().add("slicing `").name(*root)
                .add("` with a non-constant bound requires the whole array to be initialized (the compiler can't prove which elements are covered)"),
            Message::UninitElement { root, index } => Text::new().add("use of uninitialized value `")
                .name(*root).add("[").number(*index).add("]`"),
            Message::IndexNeedsWhole { root } => Text::new().add("indexing `").name(*root)
                .add("` with a non-constant index requires the whole array to be initialized (the compiler can't prove which element you're reading)"),
            Message::WriteNotGranted { root, path, index } => Text::new().add("writes to `")
                .name(*root).dotted(path).index(index)
                .add("` but the declared effects don't grant `&mut` access there"),
            Message::ReadNotListed { root, path, index } => Text::new().add("reads `").name(*root)
                .dotted(path).index(index).add("` but it isn't listed in the declared effects"),
            Message::AccessListNeedsReference => Text::new().add("`.{...}` access lists are only valid on reference or pointer parameters"),
            Message::MutThroughShared => Text::new().add("declares `&mut` access through a parameter that isn't itself `&mut`"),
            Message::ProvenanceNotProjection { provenance } => Text::new().add("return type declares provenance `")
                .provenance(provenance)
                .add("` but the body's returned reference isn't a simple projection"),
            Message::ProvenanceRootMismatch { provenance } => Text::new().add("declared provenance `")
                .provenance(provenance)
                .add("` doesn't match the parameter the returned reference is actually rooted in"),
            Message::PartialMoveOfDrop { container } => Text::new().add("cannot partially move out of `")
                .ty(container).add("`, which implements `Drop`"),
            Message::MovedValue { root } => Text::new().add("use of moved value: `").name(*root)
                .add("`"),
            Message::MovedField { root, field } => Text::new().add("use of moved value: `")
                .name(*root).add(".").name(*field).add("`"),
            Message::DuplicateFunction { name } => Text::new().add("function `").name(*name)
                .add("` is already declared in this module with the same signature"),
            Message::UnresolvedImport { path } => Text::new().add("cannot resolve imported module `")
                .names(path, "::").add("`"),
            Message::UnresolvedPackage { path } => Text::new().add("cannot resolve package path `")
                .names(path, "::").add("`"),
            Message::AmbiguousAlias { existing, added, alias } => Text::new().add("auto-imported packages `")
                .any_name(*existing).add("` and `").any_name(*added).add("` both alias to `")
                .name(*alias).add("`; add an explicit `import` to disambiguate"),
            Message::CopyAndDrop { name } => Text::new().name(*name)
                .add(" should not implement Copy and Drop at the same time"),
            Message::NotZeroable { ty } => Text::new().add("`undefined` cannot be used for type `")
                .ty(ty).add("`: it cannot be safely zero-initialized"),
            Message::PointerIndexNeedsUnsafe => Text::new().add("indexing a raw/unsafe pointer requires an unsafe block"),
            Message::RawIndexNeedsUnsafe => Text::new().add("indexing a raw pointer requires an unsafe block"),
            Message::UnsafeIndexNeedsUnsafe => Text::new().add("indexing an unsafe pointer requires an unsafe block"),
            Message::RawDerefNeedsUnsafe => Text::new().add("dereferencing a raw pointer requires an unsafe block"),
            Message::UnsafeDerefNeedsUnsafe => Text::new().add("dereferencing an unsafe pointer requires an unsafe block"),
            Message::CannotIndex { ty } => Text::new().add("cannot index type `").ty(ty).add("`"),
            Message::CannotSlice { ty } => Text::new().add("cannot slice type `").ty(ty).add("`"),
            Message::CannotDeref { ty } => Text::new().add("cannot dereference non-pointer type `")
                .ty(ty).add("`"),
            Message::SliceBoundsNotIntegers => Text::new().add("slice bounds must be integers"),
            Message::RangeBoundsNotIntegers { ty } => Text::new().add("range bounds must be integers, found `")
                .ty(ty).add("`"),
            Message::IfNeedsElse => Text::new().add("if used as an expression must have an else branch"),
            Message::UnknownIntrinsic { name } => Text::new().add("Unknown intrinsic ").name(*name),
            Message::ElseOnNonNullable { ty } => Text::new().add("`? else` used on non-nullable type `")
                .ty(ty).add("`"),
            Message::CapOnlyOnOwned => Text::new().add("`.cap` only exists on an owned slice"),
            Message::CapNotAssignable => Text::new().add("cannot assign to `.cap`: it is allocator-managed bookkeeping tied to the slice's actual allocation size, and there is no way to write it that keeps it in sync with the real allocation."),
            Message::LenNeedsUnsafe => Text::new().add("writing to `.len` requires an unsafe block: it directly edits a slice's length bookkeeping and can expose uninitialized memory or break drop tracking"),
            Message::LenNotInteger { ty } => Text::new().add("`.len` must be assigned an integer, found `")
                .ty(ty).add("`"),
            Message::LenPlainAssignmentOnly => Text::new().add("`.len` only supports plain assignment, not compound assignment"),
            Message::NotDeclaredMut { name } => Text::new().add("cannot assign to `").name(*name)
                .add("`: it is not declared `mut`"),
            Message::StructTypeArgCount { name, expected, found } => Text::new().add("struct `")
                .name(*name).add("` expects ").count(*expected).add(" type argument(s), found ")
                .count(*found),
            Message::StructNeedsTypeArgs { name } => Text::new().add("struct `").name(*name)
                .add("` is generic and requires explicit type arguments, e.g. `").name(*name)
                .add("<Type> { .. }`"),
            Message::StructNotGeneric { name } => Text::new().add("struct `").name(*name)
                .add("` is not generic; no type arguments expected"),
            Message::FieldInitializedTwice { field } => Text::new().add("field `").name(*field)
                .add("` initialized more than once"),
            Message::MissingFields { names } => Text::new().add("missing field(s) in struct init: ")
                .names(names, ", "),
            Message::NoSuchVariant { enum_name, variant } => Text::new().add("enum `")
                .name(*enum_name).add("` has no variant `").name(*variant).add("`"),
            Message::EnumTypeArgCount { name, expected, found } => Text::new().add("enum `")
                .name(*name).add("` expects ").count(*expected).add(" type argument(s), found ")
                .count(*found),
            Message::EnumNeedsTypeArgs { name, variant } => Text::new().add("enum `").name(*name)
                .add("` is generic and requires explicit type arguments, e.g. `").name(*name)
                .add("<Type>::").name(*variant).add("(..)`"),
            Message::EnumNotGeneric { name } => Text::new().add("enum `").name(*name)
                .add("` is not generic; no type arguments expected"),
            Message::FieldOnNonStruct { ty } => Text::new().add("Cannot access field on non-struct type: ")
                .ty(ty),
            Message::OperatorMisplaced { op } => Text::new().add("operator `").operator(*op)
                .add("` cannot appear in this position"),
            Message::NotImported { kind, name } => Text::new().add(kind.as_str()).add(" `")
                .name(*name).add("` is declared in another module and has not been imported"),
            Message::AmbiguousName { name, packages } => Text::new().add("`").name(*name)
                .add("` is ambiguous: it is auto-imported from multiple packages (")
                .names(packages, ", ").add("); add an explicit `import` to disambiguate"),
            Message::FunctionNotVisible { name } => Text::new().add("function `").name(*name)
                .add("` is not visible from this module"),
            Message::NoCast { source, target } => Text::new().add("cannot cast `").ty(source)
                .add("` as `").ty(target).add("`: no defined conversion between these types"),
            Message::ReplaceNoTypeArgs => Text::new().add("$replace takes no type arguments"),
            Message::ReplaceNeedsPlace => Text::new().add("$replace's first argument must be a place (variable, field, deref, or index)"),
            Message::ReplaceUninit => Text::new().add("$replace cannot write `uninit`: the slot must always hold a valid value"),
            Message::ReplaceSliceField => Text::new().add("$replace cannot target a slice's `.len`/`.cap`"),
            Message::ReplaceNotMut { name } => Text::new().add("cannot $replace `").name(*name)
                .add("`: it is not declared `mut`"),
            Message::ReinterpretTypeArgCount { found } => Text::new().add("$reinterpret expects exactly 1 type argument, found ")
                .count(*found),
            Message::ReinterpretNeedsUnsafe => Text::new().add("$reinterpret requires an unsafe block: it reinterprets a value's bit representation as a different type with no conversion or validation"),
            Message::UnreachableNoTypeArgs => Text::new().add("$unreachable takes no type arguments"),
            Message::UnreachableNoArgs => Text::new().add("$unreachable takes no value arguments"),
            Message::OneTypeArg { found } => Text::new().add("intrinsic expects exactly 1 type argument, found ")
                .count(*found),
            Message::NoValueArgs => Text::new().add("this intrinsic takes no value arguments"),
            Message::OwnNoTypeArgs => Text::new().add("$own takes no type arguments"),
            Message::OwnArgCount { found } => Text::new().add("$own expects 1 argument (ptr), 2 (ptr, allocator or len), 3 (ptr, allocator, len), or 4 (ptr, allocator, len, cap) for owned slices, found ")
                .count(*found),
            Message::OwnNeedsPointer { ty } => Text::new().add("$own expects a `*T` or `[*]T`, found `")
                .ty(ty).add("`"),
            Message::OwnAllocatorUnstable => Text::new().add("$own's allocator argument must be a place with stable provenance (a global, `this`, a param, or a projection through them)"),
            Message::OwnAllocatorNotStruct => Text::new().add("$own's allocator argument must be a struct implementing RawAllocator"),
            Message::NotRawAllocator { name } => Text::new().add("`").name(*name)
                .add("` does not implement `RawAllocator`"),
            Message::OwnLenNotInteger { ty } => Text::new().add("$own's len argument must be an integer, found `")
                .ty(ty).add("`"),
            Message::OwnCapNotInteger { ty } => Text::new().add("$own's cap argument must be an integer, found `")
                .ty(ty).add("`"),
            Message::OwnArgNotInteger { ty } => Text::new().add("$own's argument must be an integer, found `")
                .ty(ty).add("`"),
            Message::OwnNeedsLenAndCap => Text::new().add("$own for an owned slice requires both `len` and `cap`: use `$own(ptr, allocator, len, cap)`"),
            Message::AlignNoTypeArgs => Text::new().add("$assert_align takes no type arguments"),
            Message::AlignNeedsPointer { ty } => Text::new().add("$assert_align expects a pointer, found `")
                .ty(ty).add("`"),
            Message::AlignNotInteger { ty } => Text::new().add("$assert_align expects an integer alignment, found `")
                .ty(ty).add("`"),
            Message::AlignNotPowerOfTwo { value } => Text::new().add("alignment must be a positive power of two, found ")
                .number(*value),
            Message::AtomicNeedsUnsafe { atomic } => Text::new().add(atomic.as_str())
                .add(" requires an unsafe block"),
            Message::AtomicNeedsPointer { atomic, ty } => Text::new().add(atomic.as_str())
                .add(" expects a pointer to `u32`, found `").ty(ty).add("`"),
            Message::CpuRelaxNoArgs => Text::new().add("$cpu_relax takes no arguments"),
            Message::ThisOutsideMethod => Text::new().add("`this` used outside of a method that has a `this` receiver"),
            Message::UnsafeCall { name } => Text::new().add("call to unsafe function `")
                .name(*name).add("` requires an `unsafe` block"),
            Message::UnsafeMethodCall { owner, name } => Text::new().add("call to unsafe function `")
                .name(*owner).add(".").name(*name).add("` requires an `unsafe` block"),
            Message::InterfaceCalleeNotField => Text::new().add("interface call callee must be a field access, found ")
                .piece(Piece::Callee),
            Message::NoInterfaceMethod { method, interface } => Text::new().add("no method `")
                .name(*method).add("` on interface `").name(*interface).add("`"),
            Message::NotCallable { ty } => Text::new().add("Expression of type `").ty(ty)
                .add("` is not callable"),
            Message::FunctionTypeArgCount { name, expected, found } => Text::new().add("function `")
                .name(*name).add("` expects ").count(*expected).add(" type argument(s), found ")
                .count(*found),
            Message::FunctionNotGeneric { name } => Text::new().add("function `").name(*name)
                .add("` is not generic; no type arguments expected"),
            Message::GenericsNotInferred { name } => Text::new().add("generic function `")
                .name(*name).add("` requires explicit type arguments, e.g. `").name(*name)
                .add("<Type>(...)`"),
            Message::NoMethod { method, ty } => Text::new().add("no method `").name(*method)
                .add("` on `").ty(ty).add("`"),
            Message::PrimitiveNeedsUnsafe { method } => Text::new().add("`").name(*method)
                .add("` requires an unsafe block: it performs no bounds check"),
            Message::IndexNotInteger { ty } => Text::new().add("index must be an integer, found `")
                .ty(ty).add("`"),
            Message::WriteAllNeedsSlice { ty } => Text::new().add("`write_uninit_all` expects a slice or array source, found `")
                .ty(ty).add("`"),
            Message::NotDeclared { name } => Text::new().add("`").name(*name)
                .add("` is not declared in this module and has not been imported"),
            Message::ModuleNotImported { path } => Text::new().add("module `").names(path, "::")
                .add("` used without an `import ").names(path, "::").add(";` declaration"),
            Message::ReceiverNotMut { method, root } => Text::new().add("cannot call `")
                .name(*method).add("` on `").name(*root).add("`: `").name(*root)
                .add("` is not declared `mut`"),
            Message::VariantFieldCount { enum_name, variant, fields, bound } => Text::new().add("variant `")
                .name(*enum_name).add("::").name(*variant).add("` has ").count(*fields)
                .add(" field(s), but the pattern binds ").count(*bound),
            Message::TuplePatternLength { pattern, elems } => Text::new().add("tuple pattern has ")
                .count(*pattern).add(" element(s), but the scrutinee has ").count(*elems),
            Message::ArrayPatternLength { pattern, ty, len } => Text::new().add("array pattern has ")
                .count(*pattern).add(" element(s), but the array type `").ty(ty)
                .add("` has length ").count(*len),
            Message::FieldMatchedTwice { field } => Text::new().add("field `").name(*field)
                .add("` matched more than once in this pattern"),
            Message::NoVariantField { enum_name, variant, field } => Text::new().add("variant `")
                .name(*enum_name).add("::").name(*variant).add("` has no field `").name(*field)
                .add("`"),
            Message::MissingVariantFields { names, enum_name, variant } => Text::new().add("pattern doesn't bind field(s) ")
                .names(names, ", ").add(" of variant `").name(*enum_name).add("::").name(*variant)
                .add("`"),
            Message::EmptyOrPattern => Text::new().add("or-pattern must have at least one alternative"),
            Message::OrPatternBindings { expected, found } => Text::new().add("all alternatives of an or-pattern must bind the same names with the same types: found `")
                .names(expected, ", ").add("` in one alternative but `").names(found, ", ")
                .add("` in another"),
            Message::MissingNullArm { ty } => Text::new().add("non-exhaustive match on `").ty(ty)
                .add("`: missing a `null` arm"),
            Message::MissingVariants { enum_name, names } => Text::new().add("non-exhaustive match on enum `")
                .name(*enum_name).add("`: missing variant(s) ").names(names, ", "),
            Message::NonExhaustiveBool => Text::new().add("non-exhaustive match on `bool`: requires a wildcard (`_`) arm or both `true` and `false` arms"),
            Message::NeedsCatchAll { ty } => Text::new().add("non-exhaustive match on `").ty(ty)
                .add("`: requires a wildcard (`_`) or binding (catch-all) arm"),
            Message::PointerLambdaCaptures { root, path } => Text::new().add("a function-pointer lambda cannot capture `")
                .name(*root).effect(path)
                .add("`; take a generic parameter constrained by `func(..)` to use a closure"),
        }
    }
}

proof fn pieces_stay(list: List<Piece>, last: Piece)
    ensures
        list.snoc(last).seq() == list.seq().push(last),
    decreases list,
{
    match list {
        Nil => {
            assert(List::<Piece>::Nil.seq() == Seq::<Piece>::empty());
            assert(list.snoc(last).seq() == seq![last] + Seq::<Piece>::empty());
        },
        Cons(_, _) => {
            pieces_stay(list.rest(), last);
            assert(seq![list.head()] + list.rest().seq().push(last) == (seq![list.head()]
                + list.rest().seq()).push(last));
        },
    }
}

/// Adding to a text keeps what it says already and puts the new piece behind it.
pub proof fn adding_keeps_text(text: Text, piece: Piece)
    ensures
        text.with_piece(piece).pieces.seq() == text.pieces.seq().push(piece),
{
    pieces_stay(text.pieces, piece);
}

/// A text from some place on with an underscore for every `::`.
pub open spec fn underscored(chars: Seq<char>, from: int) -> Seq<char>
    decreases chars.len() - from,
{
    if from < 0 || from >= chars.len() {
        Seq::empty()
    } else if from + 1 < chars.len() && chars[from] == ':' && chars[from + 1] == ':' {
        seq!['_'] + underscored(chars, from + 2)
    } else {
        seq![chars[from]] + underscored(chars, from + 1)
    }
}

/// The name of a function in compiled programs: the segments of its package and its own name, with
/// underscores between them. A function without a package keeps its name.
pub open spec fn mangled_function(package: Option<Seq<char>>, name: Seq<char>) -> Seq<char> {
    match package {
        Some(path) => underscored(path, 0) + "_"@ + name,
        None => name,
    }
}

pub fn mangle_function_name(package: &Option<String>, name: &String) -> (mangled: String)
    ensures
        mangled@ == mangled_function(
            match *package {
                Some(path) => Some(path@),
                None => None,
            },
            name@,
        ),
{
    match package {
        None => name.clone(),
        Some(path) => {
            let mut mangled = underscore(path.as_str(), 0);
            mangled.append("_");
            mangled.append(name.as_str());
            mangled
        },
    }
}

fn underscore(path: &str, from: usize) -> (result: String)
    requires
        from <= path@.len(),
    ensures
        result@ == underscored(path@, from as int),
{
    proof {
        reveal_strlit("_");
    }
    let len: usize = path.unicode_len();
    let mut result = String::new();
    let mut at: usize = from;
    while at < len
        invariant
            at <= len,
            len == path@.len(),
            "_"@ == seq!['_'],
            result@ + underscored(path@, at as int) == underscored(path@, from as int),
        decreases len - at,
    {
        let ghost before = result@;
        if at < len - 1 && path.get_char(at) == ':' && path.get_char(at + 1) == ':' {
            result.append("_");
            assert(result@ + underscored(path@, at + 2) == before + underscored(path@, at as int));
            at = at + 2;
        } else {
            let piece = path.substring_char(at, at + 1);
            result.append(piece);
            assert(piece@ == seq![path@[at as int]]);
            assert(result@ + underscored(path@, at + 1) == before + underscored(path@, at as int));
            at = at + 1;
        }
    }
    assert(result@ + underscored(path@, at as int) == result@);
    result
}

} // verus!
