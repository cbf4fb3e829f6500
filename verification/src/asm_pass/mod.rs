//! Passes over assembly programs. Each pass takes a whole program and
//! gives back a new one.

pub mod binary_operation;
pub mod invalid_mov_rewrite;
pub mod pseudo_register;

pub use self::binary_operation::BinaryOperation;
pub use self::invalid_mov_rewrite::InvalidMovRewrite;
pub use self::pseudo_register::AsmPassPseudoRegister;

use vstd::prelude::*;
use crate::assembly;

verus! {

/// A pass: a rewriting of assembly programs.
pub trait AsmPass {
    /// Whether the pass, in its present state, can run on `program`.
    spec fn accepts(&self, program: assembly::ProgramView) -> bool;

    /// The program that the pass, in its present state, makes of `program`.
    spec fn rewritten(&self, program: assembly::ProgramView) -> assembly::ProgramView;

    fn run(&mut self, program: assembly::Program) -> (result: assembly::Program)
        requires
            old(self).accepts(program@),
        ensures
            result@ == old(self).rewritten(program@),
    ;
}

} // verus!
