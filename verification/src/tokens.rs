//! The tokens of the language.

use vstd::prelude::*;

verus! {

#[derive(Clone, Copy, Debug, PartialEq, Eq, Structural)]
pub enum TokenType {
    Integer,
    Float,
    Long,
    Double,
    String,
    Char,
    Boolean,
    Void,
    Byte,
    Short,
    UnsignedByte,
    UnsignedShort,
    Plus,
    Minus,
    Mul,
    Div,
    LParen,
    RParen,
    CurlyLParen,
    CurlyRParen,
    Identifier,
    Equal,
    Comma,
    Println,
    Colon,
    LAngleParen,
    RAngleParen,
    Exclamation,
    DoubleQuote,
    SingleQuote,
    Dot,
    End,
    Arrow,
    LSquareParen,
    RSquareParen,
    And,
    Ampersand,
    Or,
    Class,
    Interface,
    Enum,
    Data,
    Unsafe,
    Return,
    Let,
    Mut,
    If,
    Else,
    While,
    For,
    In,
    Break,
    Continue,
    True,
    False,
    Private,
    Public,
    Protected,
    UnsignedInteger,
    UnsignedDouble,
    UnsignedFloat,
    UnsignedLong,
    This,
    Super,
    Import,
}

#[derive(Debug)]
pub struct Token {
    pub token_type: TokenType,
    pub value: Option<String>,
}

impl Token {
    pub fn new(token_type: TokenType, value: Option<String>) -> (token: Token)
        ensures
            token.token_type == token_type,
            token.value == value,
    {
        Token { token_type, value }
    }
}

} // verus!
