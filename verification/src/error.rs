//! The fatal-error taxonomy: the first error aborts a compilation, and each
//! variant says which stage rejected the input.
use vstd::prelude::*;
use crate::token::DebugInfo;
use crate::token::DebugV;

verus! {

/// A compilation failure. `Lexical` carries the offending character
/// position; parse errors carry the offending token's debug record.
#[derive(Debug, PartialEq)]
pub enum CompileError {
    /// No token pattern matches at this character position.
    Lexical(usize),
    /// A token stands where the grammar does not allow it.
    UnexpectedToken(DebugInfo),
    /// The token stream ended inside a construct.
    UnexpectedEof,
    /// The name is already bound in the innermost scope.
    Redefinition(String),
    /// An identifier does not resolve in the environment.
    UndeclaredIdentifier(String),
    /// A call names a function that was never declared.
    UndeclaredFunction(String),
    /// A call's argument count disagrees with the declaration.
    ArityMismatch(String),
    /// A name resolves, but not to a type.
    NotAType(String),
    /// A struct tag does not resolve.
    UndeclaredTag(String),
    /// A field access names no field of the struct.
    NoSuchField(String),
    /// `break` or `continue` outside any loop or switch.
    InvalidJump,
    /// A global initializer is not a compile-time constant.
    NotAConstant,
    /// A numeric literal does not fit the machine word.
    NumberOverflow,
    /// A construct the lowerer does not accept.
    Unsupported,
}

/// Mathematical view of a compilation failure.
pub enum ErrV {
    Lexical(nat),
    UnexpectedToken(DebugV),
    UnexpectedEof,
    Redefinition(Seq<char>),
    UndeclaredIdentifier(Seq<char>),
    UndeclaredFunction(Seq<char>),
    ArityMismatch(Seq<char>),
    NotAType(Seq<char>),
    UndeclaredTag(Seq<char>),
    NoSuchField(Seq<char>),
    InvalidJump,
    NotAConstant,
    NumberOverflow,
    Unsupported,
}

impl View for CompileError {
    type V = ErrV;

    open spec fn view(&self) -> ErrV {
        match self {
            CompileError::Lexical(p) => ErrV::Lexical(*p as nat),
            CompileError::UnexpectedToken(d) => ErrV::UnexpectedToken(d.view()),
            CompileError::UnexpectedEof => ErrV::UnexpectedEof,
            CompileError::Redefinition(s) => ErrV::Redefinition(s.view()),
            CompileError::UndeclaredIdentifier(s) => ErrV::UndeclaredIdentifier(s.view()),
            CompileError::UndeclaredFunction(s) => ErrV::UndeclaredFunction(s.view()),
            CompileError::ArityMismatch(s) => ErrV::ArityMismatch(s.view()),
            CompileError::NotAType(s) => ErrV::NotAType(s.view()),
            CompileError::UndeclaredTag(s) => ErrV::UndeclaredTag(s.view()),
            CompileError::NoSuchField(s) => ErrV::NoSuchField(s.view()),
            CompileError::InvalidJump => ErrV::InvalidJump,
            CompileError::NotAConstant => ErrV::NotAConstant,
            CompileError::NumberOverflow => ErrV::NumberOverflow,
            CompileError::Unsupported => ErrV::Unsupported,
        }
    }
}

} // verus!
