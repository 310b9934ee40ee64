//! The instruction set.

use vstd::prelude::*;

verus! {

/// The number of a type.
#[derive(Clone, Copy, Debug, PartialEq, Eq, Structural)]
pub struct TypeID(pub u16);

/// A kind of types.
#[derive(Clone, Copy, Debug, PartialEq, Eq, Structural)]
pub struct TypeKind(pub u8);

#[derive(Debug)]
pub enum Instruction {
    LoadLocal(u8),
    StoreLocal(u8),
    LoadGlobal(u16),
    LoadGlobalDeferred,
    StoreGlobal(u16),
    StoreGlobalDeferred,
    GetField(u8),
    GetFieldDeferred,
    SetField(u8),
    SetFieldDeferred,
    GetArrayElement,
    SetArrayElement,
    GetMapElement,
    SetMapElement,
    GetStringByte,
    GetStringCodepoint,
    SetStringByte,
    SetStringCodepoint,
    CreateRecord(TypeID),
    CreateArray(TypeID),
    CreateMap(TypeID),
    CreateString,
    /// A real number, by its bits.
    ConstReal(u64),
    ConstInteger(i32),
    ConstCharacter(char),
    ConstBoolean(bool),
    ConstNil,
    ConstTypeID(TypeID),
    ConstString(String),
    NegateReal,
    NegateInteger,
    AbsReal,
    AbsInteger,
    NotInteger,
    NotBoolean,
    AddReal,
    AddInteger,
    SubReal,
    SubInteger,
    MulReal,
    MulInteger,
    DivReal,
    DivInteger,
    RemReal,
    RemInteger,
    PowReal,
    PowInteger,
    AndInteger,
    OrInteger,
    XorInteger,
    AndBoolean,
    OrBoolean,
    EqReal,
    EqInteger,
    EqCharacter,
    EqBoolean,
    NeReal,
    NeInteger,
    NeCharacter,
    NeBoolean,
    GtReal,
    GtInteger,
    GtCharacter,
    LtReal,
    LtInteger,
    LtCharacter,
    GeReal,
    GeInteger,
    GeCharacter,
    LeReal,
    LeInteger,
    LeCharacter,
    Call,
    Branch(usize),
    ConditionalBranch(usize, usize),
    Return,
    Panic,
    CastRealToInteger,
    CastIntegerToReal,
    CastCharacterToInteger,
    CastIntegerToCharacter,
    CastIntegerToBoolean,
    CastBooleanToInteger,
    CastDeferred,
    TypeIDOfLocal(u8),
    TypeIDOfGlobal(u16),
    TypeIDOfGlobalDeferred,
    TypeIDOfField(u8),
    TypeIDOfFieldDeferred,
    TypeIDOfKey,
    TypeIDOfElement,
    TypeIDOfParameter(u8),
    TypeIDOfReturn,
    TypeIDOfValue,
    GlobalExists,
    FieldExists,
    ParameterExists,
    ReturnExists,
    TypeIDToName,
    FieldCount,
    ElementCount,
    ParameterCount,
    IsTypeKind(TypeKind),
    EqTypeID,
    NeTypeID,
}

} // verus!
