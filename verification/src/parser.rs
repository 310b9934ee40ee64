//! From the parse tree of a program to its syntax tree.
//!
//! A node of the parse tree has the rule of the grammar that it was made by, its text, and the nodes
//! that it is made of.

use std::rc::Rc;

use vstd::prelude::*;
use vstd::string::*;

use crate::ast::{
    Block, Expr, ImportStmt, LetStmt, MatchArm, MatchStmt, MutKeyword, Pattern, ReturnStmt, Stmt,
};
use crate::list::{List, Nil};

verus! {

/// A rule of the grammar.
#[derive(Clone, Copy, Debug, PartialEq, Eq, Structural)]
pub enum Rule {
    Program,
    Stmt,
    ImportStmt,
    LetStmt,
    ReturnStmt,
    MatchStmt,
    MatchArm,
    Block,
    Ident,
    Number,
    String,
    TuplePattern,
    Other,
}

/// A node of the parse tree.
#[derive(Debug, PartialEq, Eq)]
pub struct Pair {
    pub rule: Rule,
    pub text: String,
    pub inner: Pairs,
}

/// Nodes of the parse tree, in the order of the text.
#[derive(Debug, PartialEq, Eq)]
pub enum Pairs {
    End,
    More(Rc<Pair>, Rc<Pairs>),
}

pub use Pairs::{End, More};

impl Pairs {
    /// The node at a place.
    pub open spec fn nth(self, index: usize) -> Option<Pair>
        decreases self,
    {
        match self {
            End => None,
            More(pair, rest) => if index == 0 {
                Some(*pair)
            } else {
                rest.nth((index - 1) as usize)
            },
        }
    }

    pub fn get(&self, index: usize) -> (pair: Option<&Pair>)
        ensures
            pair == match self.nth(index) {
                Some(found) => Some(&found),
                None => None,
            },
        decreases self,
    {
        match self {
            End => None,
            More(pair, rest) => if index == 0 {
                Some(pair)
            } else {
                rest.get(index - 1)
            },
        }
    }
}

/// Makes syntax trees of parse trees.
#[derive(Clone, Copy, Debug, PartialEq, Eq, Structural)]
pub struct ZetaParser;

pub open spec fn is_digit(c: char) -> bool {
    '0' <= c && c <= '9'
}

/// The number that digits stand for.
pub open spec fn digits_value(chars: Seq<char>) -> int
    decreases chars.len(),
{
    if chars.len() == 0 {
        0
    } else {
        10 * digits_value(chars.drop_last()) + (chars.last() as int - '0' as int)
    }
}

pub open spec fn all_digits(chars: Seq<char>) -> bool {
    forall|i: int| 0 <= i < chars.len() ==> is_digit(#[trigger] chars[i])
}

/// The digits of a number, without its sign.
pub open spec fn unsigned_part(chars: Seq<char>) -> Seq<char> {
    if chars.len() > 0 && (chars[0] == '+' || chars[0] == '-') {
        chars.skip(1)
    } else {
        chars
    }
}

pub open spec fn signed_value(chars: Seq<char>) -> int {
    if chars.len() > 0 && chars[0] == '-' {
        -digits_value(unsigned_part(chars))
    } else {
        digits_value(unsigned_part(chars))
    }
}

/// The number that a text stands for: digits with or without a sign, whose value fits.
pub open spec fn number_of(chars: Seq<char>) -> Option<i64> {
    if unsigned_part(chars).len() > 0 && all_digits(unsigned_part(chars)) && i64::MIN
        <= signed_value(chars) <= i64::MAX {
        Some(signed_value(chars) as i64)
    } else {
        None
    }
}

proof fn more_digits(chars: Seq<char>, count: int)
    requires
        all_digits(chars),
        0 <= count <= chars.len(),
    ensures
        0 <= digits_value(chars.take(count)) <= digits_value(chars),
    decreases chars.len(), count,
{
    if count == chars.len() {
        assert(chars.take(count) == chars);
        if count > 0 {
            assert(is_digit(chars[count - 1]));
            assert(all_digits(chars.drop_last()));
            more_digits(chars.drop_last(), count - 1);
        }
    } else {
        assert(all_digits(chars.drop_last()));
        more_digits(chars.drop_last(), count);
        assert(chars.drop_last().take(count) == chars.take(count));
        assert(is_digit(chars[chars.len() - 1]));
    }
}

/// The number that a text stands for.
pub fn parse_number(text: &String) -> (number: Option<i64>)
    ensures
        number == number_of(text@),
{
    let source = text.as_str();
    let len: usize = source.unicode_len();
    let mut at: usize = 0;
    let mut negative: bool = false;
    if len > 0 {
        let first = source.get_char(0);
        if first == '-' {
            negative = true;
            at = 1;
        } else if first == '+' {
            at = 1;
        }
    }
    let ghost digits = unsigned_part(text@);
    let ghost from = at as int;
    assert(digits == text@.skip(from));
    if at == len {
        return None;
    }
    let mut value: i128 = 0;
    while at < len
        invariant
            from <= at <= len,
            len == text@.len(),
            source@ == text@,
            0 <= from <= text@.len(),
            digits == text@.skip(from),
            digits == unsigned_part(text@),
            forall|i: int| 0 <= i < at - from ==> is_digit(#[trigger] digits[i]),
            value == digits_value(digits.take(at - from)),
            0 <= value <= 9223372036854775808,
        decreases len - at,
    {
        let c = source.get_char(at);
        proof {
            assert(digits[at - from] == c);
            assert(digits.take(at - from + 1).drop_last() == digits.take(at - from));
        }
        if c < '0' || c > '9' {
            assert(!is_digit(digits[at - from]));
            return None;
        }
        value = 10 * value + (c as u32 as i128 - 48);
        at = at + 1;
        if value > 9223372036854775808 {
            proof {
                if all_digits(digits) {
                    more_digits(digits, at - from);
                }
            }
            return None;
        }
    }
    assert(digits.take(digits.len() as int) == digits);
    if negative {
        Some((-value) as i64)
    } else if value <= 9223372036854775807 {
        Some(value as i64)
    } else {
        None
    }
}

/// The text of a node, if there is one.
pub open spec fn text_at(pairs: Pairs, index: usize) -> Option<String> {
    match pairs.nth(index) {
        Some(pair) => Some(pair.text),
        None => None,
    }
}

fn copy_text(pairs: &Pairs, index: usize) -> (text: Option<String>)
    ensures
        text == text_at(*pairs, index),
{
    match pairs.get(index) {
        Some(pair) => Some(pair.text.clone()),
        None => None,
    }
}

/// The expression of a node: a number, a string or an identifier.
pub open spec fn expr_of(pair: Pair) -> Option<Expr> {
    match pair.rule {
        Rule::Number => match number_of(pair.text@) {
            Some(number) => Some(Expr::Number(number)),
            None => None,
        },
        Rule::String => Some(Expr::String(pair.text)),
        Rule::Ident => Some(Expr::Ident(pair.text)),
        _ => None,
    }
}

pub fn parse_expr(pair: &Pair) -> (expr: Option<Expr>)
    ensures
        expr == expr_of(*pair),
{
    match pair.rule {
        Rule::Number => match parse_number(&pair.text) {
            Some(number) => Some(Expr::Number(number)),
            None => None,
        },
        Rule::String => Some(Expr::String(pair.text.clone())),
        Rule::Ident => Some(Expr::Ident(pair.text.clone())),
        _ => None,
    }
}

/// The pattern of a node.
pub open spec fn pattern_of(pair: Pair) -> Option<Pattern>
    decreases pair,
{
    match pair.rule {
        Rule::Ident => Some(Pattern::Ident(pair.text)),
        Rule::Number => match number_of(pair.text@) {
            Some(number) => Some(Pattern::Number(number)),
            None => None,
        },
        Rule::String => Some(Pattern::String(pair.text)),
        Rule::TuplePattern => match patterns_of(pair.inner) {
            Some(patterns) => Some(Pattern::Tuple(patterns)),
            None => None,
        },
        _ => None,
    }
}

pub open spec fn patterns_of(pairs: Pairs) -> Option<List<Pattern>>
    decreases pairs,
{
    match pairs {
        End => Some(Nil),
        More(pair, rest) => match (pattern_of(*pair), patterns_of(*rest)) {
            (Some(pattern), Some(later)) => Some(List::cons_of(pattern, later)),
            _ => None,
        },
    }
}

pub fn parse_pattern(pair: &Pair) -> (pattern: Option<Pattern>)
    ensures
        pattern == pattern_of(*pair),
    decreases pair,
{
    match pair.rule {
        Rule::Ident => Some(Pattern::Ident(pair.text.clone())),
        Rule::Number => match parse_number(&pair.text) {
            Some(number) => Some(Pattern::Number(number)),
            None => None,
        },
        Rule::String => Some(Pattern::String(pair.text.clone())),
        Rule::TuplePattern => match parse_patterns(&pair.inner) {
            Some(patterns) => Some(Pattern::Tuple(patterns)),
            None => None,
        },
        _ => None,
    }
}

fn parse_patterns(pairs: &Pairs) -> (patterns: Option<List<Pattern>>)
    ensures
        patterns == patterns_of(*pairs),
    decreases pairs,
{
    match pairs {
        End => Some(Nil),
        More(pair, rest) => match parse_pattern(pair) {
            None => None,
            Some(pattern) => match parse_patterns(rest) {
                Some(later) => Some(List::cons(pattern, later)),
                None => None,
            },
        },
    }
}

/// The statement of a `let` node: its first part stands for the keyword `mut`, then come the name,
/// the type, and the value.
pub open spec fn let_of(inner: Pairs) -> Option<Stmt> {
    match (text_at(inner, 1), inner.nth(3)) {
        (Some(ident), Some(value)) => match expr_of(value) {
            Some(expr) => Some(
                Stmt::Let(
                    LetStmt {
                        mutability: Some(MutKeyword::Mut),
                        ident,
                        type_annotation: text_at(inner, 2),
                        value: Rc::new(expr),
                    },
                ),
            ),
            None => None,
        },
        _ => None,
    }
}

pub open spec fn return_of(inner: Pairs) -> Option<Stmt> {
    match inner.nth(0) {
        None => Some(Stmt::Return(ReturnStmt { value: None })),
        Some(value) => match expr_of(value) {
            Some(expr) => Some(Stmt::Return(ReturnStmt { value: Some(Rc::new(expr)) })),
            None => None,
        },
    }
}

/// The statement of a node.
pub open spec fn stmt_of(pair: Pair) -> Option<Stmt>
    decreases pair, 0int,
{
    match pair.rule {
        Rule::ImportStmt => match text_at(pair.inner, 0) {
            Some(path) => Some(Stmt::Import(ImportStmt { path })),
            None => None,
        },
        Rule::LetStmt => let_of(pair.inner),
        Rule::ReturnStmt => return_of(pair.inner),
        Rule::MatchStmt => match pair.inner {
            End => None,
            More(subject, rest) => match (expr_of(*subject), arms_of(*rest)) {
                (Some(expr), Some(arms)) => Some(
                    Stmt::Match(MatchStmt { expr: Rc::new(expr), arms }),
                ),
                _ => None,
            },
        },
        _ => None,
    }
}

pub open spec fn arms_of(pairs: Pairs) -> Option<List<MatchArm>>
    decreases pairs, 0int,
{
    match pairs {
        End => Some(Nil),
        More(pair, rest) => match (arm_of(*pair), arms_of(*rest)) {
            (Some(arm), Some(later)) => Some(List::cons_of(arm, later)),
            _ => None,
        },
    }
}

/// The arm of a node: a pattern and a block.
pub open spec fn arm_of(pair: Pair) -> Option<MatchArm>
    decreases pair, 0int,
{
    match pair.inner {
        End => None,
        More(first, rest) => match *rest {
            End => None,
            More(second, _) => match (pattern_of(*first), stmts_of(second.inner)) {
                (Some(pattern), Some(stmts)) => Some(
                    MatchArm { pattern, block: Block { block: stmts } },
                ),
                _ => None,
            },
        },
    }
}

pub open spec fn stmts_of(pairs: Pairs) -> Option<List<Stmt>>
    decreases pairs, 0int,
{
    match pairs {
        End => Some(Nil),
        More(pair, rest) => match (stmt_of(*pair), stmts_of(*rest)) {
            (Some(stmt), Some(later)) => Some(List::cons_of(stmt, later)),
            _ => None,
        },
    }
}

fn parse_let(inner: &Pairs) -> (stmt: Option<Stmt>)
    ensures
        stmt == let_of(*inner),
{
    match (copy_text(inner, 1), inner.get(3)) {
        (Some(ident), Some(value)) => match parse_expr(value) {
            Some(expr) => Some(
                Stmt::Let(
                    LetStmt {
                        mutability: Some(MutKeyword::Mut),
                        ident,
                        type_annotation: copy_text(inner, 2),
                        value: Rc::new(expr),
                    },
                ),
            ),
            None => None,
        },
        _ => None,
    }
}

fn parse_return(inner: &Pairs) -> (stmt: Option<Stmt>)
    ensures
        stmt == return_of(*inner),
{
    match inner.get(0) {
        None => Some(Stmt::Return(ReturnStmt { value: None })),
        Some(value) => match parse_expr(value) {
            Some(expr) => Some(Stmt::Return(ReturnStmt { value: Some(Rc::new(expr)) })),
            None => None,
        },
    }
}

pub fn parse_stmt(pair: &Pair) -> (stmt: Option<Stmt>)
    ensures
        stmt == stmt_of(*pair),
    decreases pair, 0int,
{
    match pair.rule {
        Rule::ImportStmt => match copy_text(&pair.inner, 0) {
            Some(path) => Some(Stmt::Import(ImportStmt { path })),
            None => None,
        },
        Rule::LetStmt => parse_let(&pair.inner),
        Rule::ReturnStmt => parse_return(&pair.inner),
        Rule::MatchStmt => match &pair.inner {
            End => None,
            More(subject, rest) => match parse_expr(subject) {
                None => None,
                Some(expr) => match parse_match_arms(rest) {
                    Some(arms) => Some(Stmt::Match(MatchStmt { expr: Rc::new(expr), arms })),
                    None => None,
                },
            },
        },
        _ => None,
    }
}

fn parse_match_arms(pairs: &Pairs) -> (arms: Option<List<MatchArm>>)
    ensures
        arms == arms_of(*pairs),
    decreases pairs, 0int,
{
    match pairs {
        End => Some(Nil),
        More(pair, rest) => match parse_match_arm(pair) {
            None => None,
            Some(arm) => match parse_match_arms(rest) {
                Some(later) => Some(List::cons(arm, later)),
                None => None,
            },
        },
    }
}

pub fn parse_match_arm(pair: &Pair) -> (arm: Option<MatchArm>)
    ensures
        arm == arm_of(*pair),
    decreases pair, 0int,
{
    match &pair.inner {
        End => None,
        More(first, rest) => match &**rest {
            End => None,
            More(second, _) => match parse_pattern(first) {
                None => None,
                Some(pattern) => match parse_stmts(&second.inner) {
                    Some(stmts) => Some(MatchArm { pattern, block: Block { block: stmts } }),
                    None => None,
                },
            },
        },
    }
}

fn parse_stmts(pairs: &Pairs) -> (stmts: Option<List<Stmt>>)
    ensures
        stmts == stmts_of(*pairs),
    decreases pairs, 0int,
{
    match pairs {
        End => Some(Nil),
        More(pair, rest) => match parse_stmt(pair) {
            None => None,
            Some(stmt) => match parse_stmts(rest) {
                Some(later) => Some(List::cons(stmt, later)),
                None => None,
            },
        },
    }
}

/// The block of a node.
pub fn parse_block(pair: &Pair) -> (block: Option<Block>)
    ensures
        block == match stmts_of(pair.inner) {
            Some(stmts) => Some(Block { block: stmts }),
            None => None,
        },
{
    match parse_stmts(&pair.inner) {
        Some(stmts) => Some(Block { block: stmts }),
        None => None,
    }
}

/// The statements of a program, all of whose nodes must be statements.
pub open spec fn program_of(pairs: Pairs) -> Option<List<Stmt>>
    decreases pairs,
{
    match pairs {
        End => Some(Nil),
        More(pair, rest) => if pair.rule is Stmt {
            match (stmt_of(*pair), program_of(*rest)) {
                (Some(stmt), Some(later)) => Some(List::cons_of(stmt, later)),
                _ => None,
            }
        } else {
            None
        },
    }
}

pub fn parse_program(pairs: &Pairs) -> (stmts: Option<List<Stmt>>)
    ensures
        stmts == program_of(*pairs),
    decreases pairs,
{
    match pairs {
        End => Some(Nil),
        More(pair, rest) => {
            match pair.rule {
                Rule::Stmt => {},
                _ => {
                    return None;
                },
            }
            match parse_stmt(pair) {
                None => None,
                Some(stmt) => match parse_program(rest) {
                    Some(later) => Some(List::cons(stmt, later)),
                    None => None,
                },
            }
        },
    }
}

} // verus!
