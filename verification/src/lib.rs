//! A small compiler for programs of one function that returns the value
//! of an integer expression.
//!
//! The source text is cut into tokens ([`lexer`]) and parsed into a syntax
//! tree ([`parser`], [`ast`]). The tree is lowered into a three-address
//! form ([`tacky`]), for which assembly instructions are selected
//! ([`codegen`], [`assembly`]). Passes over the assembly lay out storage
//! and rewrite what the machine cannot encode ([`asm_pass`],
//! [`stack_allocator`]), and the result is written out as text
//! ([`emitter`], [`codewriter`]). [`pipeline`] runs the stages from the
//! tree to the text and states what holds of their result.

pub mod asm_pass;
pub mod assembly;
pub mod ast;
pub mod codegen;
pub mod codewriter;
pub mod decimal;
pub mod emitter;
pub mod lexer;
pub mod parser;
pub mod pipeline;
pub mod sequence;
pub mod stack_allocator;
pub mod tacky;
