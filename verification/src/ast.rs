//! The syntax tree of a program.

use std::rc::Rc;

use vstd::prelude::*;

use crate::list::List;

verus! {

#[derive(Debug, PartialEq, Eq)]
pub enum Stmt {
    Import(ImportStmt),
    Let(LetStmt),
    Return(ReturnStmt),
    If(IfStmt),
    Else(ElseBranch),
    While(WhileStmt),
    For(ForStmt),
    Match(MatchStmt),
    UnsafeBlock(UnsafeBlock),
    FuncDecl(Rc<FuncDecl>),
    ClassDecl(Rc<ClassDecl>),
    ExprStmt(InternalExprStmt),
}

#[derive(Debug, PartialEq, Eq)]
pub struct ImportStmt {
    pub path: String,
}

#[derive(Debug, PartialEq, Eq)]
pub struct LetStmt {
    pub mutability: Option<MutKeyword>,
    pub ident: String,
    pub type_annotation: Option<String>,
    pub value: Rc<Expr>,
}

#[derive(Debug, PartialEq, Eq)]
pub struct ReturnStmt {
    pub value: Option<Rc<Expr>>,
}

#[derive(Debug, PartialEq, Eq)]
pub struct IfStmt {
    pub condition: Rc<Expr>,
    pub then_branch: Block,
    pub else_branch: Option<Rc<ElseBranch>>,
}

#[derive(Debug, PartialEq, Eq)]
pub enum ElseBranch {
    If(Rc<IfStmt>),
    Else(Block),
}

#[derive(Debug, PartialEq, Eq)]
pub struct WhileStmt {
    pub condition: Rc<Expr>,
    pub block: Block,
}

#[derive(Debug, PartialEq, Eq)]
pub struct ForStmt {
    pub let_stmt: LetStmt,
    pub condition: Rc<Expr>,
    pub increment: Rc<Expr>,
    pub block: Block,
}

#[derive(Debug, PartialEq, Eq)]
pub struct MatchStmt {
    pub expr: Rc<Expr>,
    pub arms: List<MatchArm>,
}

#[derive(Debug, PartialEq, Eq)]
pub struct MatchArm {
    pub pattern: Pattern,
    pub block: Block,
}

#[derive(Debug, PartialEq, Eq)]
pub enum Pattern {
    Ident(String),
    Number(i64),
    String(String),
    Tuple(List<Pattern>),
    Wildcard,
}

#[derive(Debug, PartialEq, Eq)]
pub struct UnsafeBlock {
    pub block: Block,
}

#[derive(Debug, PartialEq, Eq)]
pub struct FuncDecl {
    pub visibility: Option<String>,
    pub is_async: bool,
    pub is_unsafe: bool,
    pub name: String,
    pub params: List<Param>,
    pub return_type: Option<String>,
    pub body: Block,
}

#[derive(Debug, PartialEq, Eq)]
pub struct ClassDecl {
    pub visibility: Option<String>,
    pub name: String,
    pub params: Option<List<Param>>,
    pub body: Block,
}

#[derive(Debug, PartialEq, Eq)]
pub struct Param {
    pub name: String,
    pub type_annotation: Option<String>,
}

#[derive(Debug, PartialEq, Eq)]
pub struct Block {
    pub block: List<Stmt>,
}

#[derive(Debug, PartialEq, Eq)]
pub struct InternalExprStmt {
    pub expr: Rc<Expr>,
}

#[derive(Clone, Copy, Debug, PartialEq, Eq, Structural)]
pub enum MutKeyword {
    Mut,
}

#[derive(Debug, PartialEq, Eq)]
pub enum Op {
    Add,
    Sub,
    Mul,
    Div,
    /// An operator that numbers do not have, by its symbol.
    Other(String),
}

#[derive(Debug, PartialEq, Eq)]
pub enum Expr {
    Number(i64),
    String(String),
    Ident(String),
    Binary { left: Rc<Expr>, op: Op, right: Rc<Expr> },
    Assignment(Rc<Expr>, String, Rc<Expr>),
}

} // verus!
