//! The instructions of a compiled program.

use vstd::prelude::*;

verus! {

#[derive(Debug)]
pub enum OpCode {
    Const(i64),
    Add,
    Sub,
    Mul,
    Div,
    Store(String),
    Load(String),
    Call(String),
    Jump(usize),
    JumpIfFalse(usize),
}

} // verus!
