//! A compiler front end and lowering pipeline for a C-like language: a
//! pattern-list lexer, a Pratt expression parser with recursive descent for
//! declarations and statements, and a lowerer that emits a textual SSA
//! module together with a small builtin helper module.
pub mod builtin;
pub mod emitter;
pub mod environment;
pub mod error;
pub mod expression;
pub mod ir;
pub mod laws;
pub mod lexer;
pub mod parser;
pub mod text;
pub mod token;

use vstd::prelude::*;
use crate::error::CompileError;
use crate::error::ErrV;
use crate::lexer::Lexer;
use crate::lexer::spec_lex;
use crate::parser::DeclV;
use crate::parser::spec_program_new;

verus! {

/// The front end as one mathematical function: the token sequence the
/// pattern list defines, then the program the grammar defines, or the
/// first fatal error.
pub open spec fn spec_front_end(code: Seq<char>) -> Result<Seq<DeclV>, ErrV> {
    match spec_lex(code) {
        Ok(toks) => spec_program_new(toks),
        Err(e) => Err(e),
    }
}

/// The whole pipeline as one mathematical function of the source text: the
/// front end, then the lowering of its program from a fresh module, then
/// the rendered module texts. Two runs on one source are byte-identical.
pub open spec fn spec_compile(code: Seq<char>) -> Result<(Seq<char>, Seq<char>), ErrV> {
    match spec_front_end(code) {
        Err(e) => Err(e),
        Ok(prog) => match crate::emitter::sv_emit_program(crate::emitter::sv_new_emitter(), prog) {
            Err(e) => Err(e),
            Ok(em) => Ok(
                (crate::emitter::sv_module_text(em), crate::builtin::builtin_module_text()),
            ),
        },
    }
}

/// Compiles one source text to the pair of the user module and the builtin
/// module, both as IR text. The front end — lexing and parsing — is pinned
/// to `spec_front_end`, so its outcome is a function of the source alone;
/// on a front-end error that error is returned unchanged.
pub fn compile(code: String) -> (r: Result<(String, String), CompileError>)
    ensures
        match r {
            Ok(pair) => spec_compile(code@) == Ok::<(Seq<char>, Seq<char>), ErrV>(
                (pair.0@, pair.1@),
            ),
            Err(e) => spec_compile(code@) == Err::<(Seq<char>, Seq<char>), ErrV>(e@),
        },
        r is Ok <==> spec_compile(code@) is Ok,
{
    let lx = Lexer::new();
    let mut tokens = match lx.lex(code) {
        Ok(t) => t,
        Err(e) => {
            return Err(e);
        },
    };
    let program = match crate::parser::parser(&mut tokens) {
        Ok(p) => p,
        Err(e) => {
            return Err(e);
        },
    };
    let mut em = crate::emitter::Emitter::new();
    match em.emit(&program) {
        Ok(()) => (),
        Err(e) => {
            return Err(e);
        },
    }
    let compiled = em.module_text();
    let builtin = crate::builtin::emit_builtin();
    Ok((compiled, builtin))
}

} // verus!
