//! Texts as strings.

use vstd::prelude::*;
use vstd::string::*;

use crate::compiler_errors::{append_number, append_u64, decimal};
use crate::hir::{StrId, Word};
use crate::list::{find, lookup, Cons, List, Nil, Table};
use crate::naming::{Piece, Text};

verus! {

impl Word {
    /// How a word is spelled.
    pub open spec fn spelling(self) -> &'static str {
        match self {
            Word::This => "this",
            Word::Len => "len",
            Word::Cap => "cap",
            Word::Underscore => "_",
            Word::Copy => "Copy",
            Word::Drop => "Drop",
            Word::RawAllocator => "RawAllocator",
            Word::Slice => "slice",
            Word::WriteUninit => "write_uninit",
            Word::WriteUninitAll => "write_uninit_all",
            Word::GetUnchecked => "get_unchecked",
            Word::I8 => "i8",
            Word::I16 => "i16",
            Word::I32 => "i32",
            Word::I64 => "i64",
            Word::I128 => "i128",
            Word::U8 => "u8",
            Word::U16 => "u16",
            Word::U32 => "u32",
            Word::U64 => "u64",
            Word::U128 => "u128",
            Word::Usize => "usize",
            Word::Isize => "isize",
            Word::F32 => "f32",
            Word::F64 => "f64",
            Word::Bool => "bool",
            Word::Str => "str",
            Word::Char => "char",
        }
    }

    pub fn as_str(&self) -> (word: &'static str)
        ensures
            word == self.spelling(),
    {
        match self {
            Word::This => "this",
            Word::Len => "len",
            Word::Cap => "cap",
            Word::Underscore => "_",
            Word::Copy => "Copy",
            Word::Drop => "Drop",
            Word::RawAllocator => "RawAllocator",
            Word::Slice => "slice",
            Word::WriteUninit => "write_uninit",
            Word::WriteUninitAll => "write_uninit_all",
            Word::GetUnchecked => "get_unchecked",
            Word::I8 => "i8",
            Word::I16 => "i16",
            Word::I32 => "i32",
            Word::I64 => "i64",
            Word::I128 => "i128",
            Word::U8 => "u8",
            Word::U16 => "u16",
            Word::U32 => "u32",
            Word::U64 => "u64",
            Word::U128 => "u128",
            Word::Usize => "usize",
            Word::Isize => "isize",
            Word::F32 => "f32",
            Word::F64 => "f64",
            Word::Bool => "bool",
            Word::Str => "str",
            Word::Char => "char",
        }
    }
}

/// How a name is spelled. A name of the source text that has no spelling stands for nothing.
pub open spec fn spelled(names: Table<StrId, String>, name: StrId) -> Seq<char> {
    match name {
        StrId::Known(word) => word.spelling()@,
        StrId::Interned(_) => match lookup(names, name) {
            Some(text) => text@,
            None => Seq::empty(),
        },
        StrId::ClosureEnv(n) => "__closure_env_"@ + decimal(n as nat),
        StrId::ClosureFn(n) => "__closure_fn_"@ + decimal(n as nat),
        StrId::Capture(n) => "__cap_"@ + decimal(n as nat),
    }
}

fn append_name(text: &mut String, names: &Table<StrId, String>, name: StrId)
    ensures
        final(text)@ == old(text)@ + spelled(*names, name),
{
    match name {
        StrId::Known(word) => text.append(word.as_str()),
        StrId::Interned(_) => match find(names, &name) {
            Some(known) => text.append(known.as_str()),
            None => {
                assert(text@ + Seq::<char>::empty() == text@);
            },
        },
        StrId::ClosureEnv(n) => {
            text.append("__closure_env_");
            append_u64(text, n as u64);
            assert(text@ == old(text)@ + spelled(*names, name));
        },
        StrId::ClosureFn(n) => {
            text.append("__closure_fn_");
            append_u64(text, n as u64);
            assert(text@ == old(text)@ + spelled(*names, name));
        },
        StrId::Capture(n) => {
            text.append("__cap_");
            append_number(text, n);
            assert(text@ == old(text)@ + spelled(*names, name));
        },
    }
}

/// The name as a string.
pub fn str_id_to_string(names: &Table<StrId, String>, name: StrId) -> (text: String)
    ensures
        text@ == spelled(*names, name),
{
    let mut text = String::new();
    append_name(&mut text, names, name);
    assert(text@ == spelled(*names, name));
    text
}

/// A number with its sign, where it is negative.
pub open spec fn signed(value: i64) -> Seq<char> {
    if value < 0 {
        "-"@ + decimal(-value as nat)
    } else {
        decimal(value as nat)
    }
}

fn append_signed(text: &mut String, value: i64)
    ensures
        final(text)@ == old(text)@ + signed(value),
{
    if value < 0 {
        text.append("-");
        let size: u64 = if value == i64::MIN {
            0x8000_0000_0000_0000
        } else {
            (-value) as u64
        };
        append_u64(text, size);
        assert(text@ == old(text)@ + signed(value));
    } else {
        append_u64(text, value as u64);
    }
}

/// How pieces read one after another. Those in the notation of the tree read as the given texts, in
/// this order.
pub open spec fn rendered(
    pieces: List<Piece>,
    names: Table<StrId, String>,
    trees: List<String>,
) -> Seq<char>
    decreases pieces,
{
    match pieces {
        Nil => Seq::empty(),
        Cons(piece, rest) => match *piece {
            Piece::Words(words) => words@ + rendered(*rest, names, trees),
            Piece::Name(name) => spelled(names, name) + rendered(*rest, names, trees),
            Piece::Number(value) => signed(value) + rendered(*rest, names, trees),
            Piece::Count(value) => decimal(value as nat) + rendered(*rest, names, trees),
            _ => match trees {
                Cons(tree, more) => tree@ + rendered(*rest, names, *more),
                Nil => rendered(*rest, names, Nil),
            },
        },
    }
}

fn append_pieces(
    text: &mut String,
    pieces: &List<Piece>,
    names: &Table<StrId, String>,
    trees: &List<String>,
)
    ensures
        final(text)@ == old(text)@ + rendered(*pieces, *names, *trees),
    decreases pieces,
{
    match pieces {
        Nil => {
            assert(text@ + Seq::<char>::empty() == text@);
        },
        Cons(piece, rest) => {
            match &**piece {
                Piece::Words(words) => {
                    text.append(words);
                    append_pieces(text, rest, names, trees);
                },
                Piece::Name(name) => {
                    append_name(text, names, *name);
                    append_pieces(text, rest, names, trees);
                },
                Piece::Number(value) => {
                    append_signed(text, *value);
                    append_pieces(text, rest, names, trees);
                },
                Piece::Count(value) => {
                    append_number(text, *value);
                    append_pieces(text, rest, names, trees);
                },
                _ => match trees {
                    Cons(tree, more) => {
                        text.append(tree.as_str());
                        append_pieces(text, rest, names, more);
                    },
                    Nil => append_pieces(text, rest, names, trees),
                },
            }
            assert(text@ == old(text)@ + rendered(*pieces, *names, *trees));
        },
    }
}

impl Text {
    /// The text as a string, given how names are spelled and how what is in the notation of the tree
    /// reads.
    pub fn render(&self, names: &Table<StrId, String>, trees: &List<String>) -> (text: String)
        ensures
            text@ == rendered(self.pieces, *names, *trees),
    {
        let mut text = String::new();
        append_pieces(&mut text, &self.pieces, names, trees);
        assert(text@ == rendered(self.pieces, *names, *trees));
        text
    }
}

/// Words and names that are added to a text come behind it.
pub proof fn text_reads_in_order(
    text: Text,
    names: Table<StrId, String>,
    trees: List<String>,
    words: &'static str,
    name: StrId,
)
    ensures
        rendered(text.with(words).pieces, names, trees) == rendered(text.pieces, names, trees)
            + words@,
        rendered(text.with_name(name).pieces, names, trees) == rendered(text.pieces, names, trees)
            + spelled(names, name),
{
    last_piece_reads_last(text.pieces, Piece::Words(words), words@, names, trees);
    last_piece_reads_last(text.pieces, Piece::Name(name), spelled(names, name), names, trees);
}

proof fn last_piece_reads_last(
    pieces: List<Piece>,
    last: Piece,
    reading: Seq<char>,
    names: Table<StrId, String>,
    trees: List<String>,
)
    requires
        last matches Piece::Words(words) ==> reading == words@,
        last matches Piece::Name(name) ==> reading == spelled(names, name),
        last is Words || last is Name,
    ensures
        rendered(pieces.snoc(last), names, trees) == rendered(pieces, names, trees) + reading,
    decreases pieces,
{
    match pieces {
        Nil => {
            reveal_with_fuel(rendered, 2);
            assert(reading + Seq::<char>::empty() == Seq::<char>::empty() + reading);
        },
        Cons(_, _) => {
            last_piece_reads_last(pieces.rest(), last, reading, names, trees);
            last_piece_reads_last(pieces.rest(), last, reading, names, trees.rest());
            assert(rendered(pieces.snoc(last), names, trees) == rendered(pieces, names, trees)
                + reading);
        },
    }
}

} // verus!
