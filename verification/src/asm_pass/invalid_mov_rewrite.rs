//! Moves from one stack slot to another, which the machine cannot encode,
//! are split in two with the scratch register `R10` between them.

use vstd::prelude::*;
use crate::asm_pass::AsmPass;
use crate::assembly;
use crate::assembly::{Instruction, InstructionView, Operand, OperandView, Program, Register};
use crate::sequence::{expand, lemma_expand_all, lemma_expand_first, lemma_expand_push};

verus! {

/// What the pass makes of one instruction: a move between two stack slots
/// becomes a move into `R10` and a move out of it; anything else stays as
/// it is.
pub open spec fn split_move(instruction: InstructionView) -> Seq<InstructionView> {
    match instruction {
        InstructionView::Mov { src: OperandView::Stack(from), dest: OperandView::Stack(to) } => seq![
            InstructionView::Mov {
                src: OperandView::Stack(from),
                dest: OperandView::Register(Register::R10),
            },
            InstructionView::Mov {
                src: OperandView::Register(Register::R10),
                dest: OperandView::Stack(to),
            },
        ],
        other => seq![other],
    }
}

/// [`split_move`] as a function value.
pub open spec fn move_splitting() -> spec_fn(InstructionView) -> Seq<InstructionView> {
    |instruction: InstructionView| split_move(instruction)
}

/// What the pass makes of a function: every instruction is replaced by
/// what [`split_move`] makes of it, in order.
pub open spec fn split_moves(function: assembly::FunctionView) -> assembly::FunctionView {
    assembly::FunctionView {
        name: function.name,
        instructions: expand(function.instructions, move_splitting()),
    }
}

/// After the pass no move goes from one stack slot to another.
pub proof fn lemma_split_moves_leaves_no_memory_move(function: assembly::FunctionView)
    ensures
        assembly::is_free_of_memory_moves(split_moves(function).instructions),
{
    let holds = |instruction: InstructionView| !instruction.is_memory_move();
    lemma_expand_all(function.instructions, move_splitting(), holds);
}

/// The pass brings in no pseudo register.
pub proof fn lemma_split_moves_keeps_free_of_pseudo(function: assembly::FunctionView)
    requires
        assembly::is_free_of_pseudo(function.instructions),
    ensures
        assembly::is_free_of_pseudo(split_moves(function).instructions),
{
    let holds = |instruction: InstructionView| instruction.is_free_of_pseudo();
    lemma_expand_all(function.instructions, move_splitting(), holds);
}

/// The pass names no stack slot that the function did not name.
pub proof fn lemma_split_moves_keeps_slots_within(function: assembly::FunctionView, size: nat)
    requires
        assembly::slots_within(function.instructions, size),
    ensures
        assembly::slots_within(split_moves(function).instructions, size),
{
    let holds = |instruction: InstructionView| instruction.slots_within(size);
    assert forall|i: int, j: int|
        0 <= i < function.instructions.len() && 0 <= j < move_splitting()(
            function.instructions[i],
        ).len() implies holds(#[trigger] move_splitting()(function.instructions[i])[j]) by {}
    lemma_expand_all(function.instructions, move_splitting(), holds);
}

/// The pass leaves the reservation of the frame where and as it was.
pub proof fn lemma_split_moves_keeps_reservation(function: assembly::FunctionView, size: nat)
    requires
        assembly::reserves_once(function.instructions, size),
    ensures
        assembly::reserves_once(split_moves(function).instructions, size),
{
    let rest = function.instructions.skip(1);
    let holds = |instruction: InstructionView| !(instruction is AllocateStack);
    lemma_expand_first(function.instructions, move_splitting());
    lemma_expand_all(rest, move_splitting(), holds);
}

/// The pass that splits moves between two stack slots.
pub struct InvalidMovRewrite {}

impl InvalidMovRewrite {
    pub fn new() -> Self {
        Self {  }
    }

    fn handle_function(&mut self, function: assembly::Function) -> (rewritten: assembly::Function)
        ensures
            rewritten@ == split_moves(function@),
    {
        let (name, ins) = function.decompose();
        let ghost source = assembly::instruction_views(ins@);
        let mut instructions: Vec<Instruction> = Vec::new();
        for instruction in iter: ins
            invariant
                assembly::instruction_views(iter.seq()) == source,
                assembly::instruction_views(instructions@) == expand(
                    source.take(iter.index() as int),
                    move_splitting(),
                ),
        {
            proof {
                let done = source.take(iter.index() as int);
                assert(source.take(iter.index() + 1) =~= done.push(instruction@));
                lemma_expand_push(done, move_splitting(), instruction@);
            }
            let mut run = self.handle_instruction(instruction);
            instructions.append(&mut run);
        }
        proof {
            assert(source.take(source.len() as int) =~= source);
        }
        assembly::Function::new(name, instructions)
    }

    fn handle_instruction(&mut self, instruction: Instruction) -> (run: Vec<Instruction>)
        ensures
            assembly::instruction_views(run@) == split_move(instruction@),
    {
        let run = match instruction {
            Instruction::Mov { src, dest } => {
                match (src, dest) {
                    (Operand::Stack(offset_src), Operand::Stack(offset_dst)) => {
                        vec![
                            Instruction::Mov {
                                src: Operand::Stack(offset_src),
                                dest: Operand::Register(Register::R10),
                            },
                            Instruction::Mov {
                                src: Operand::Register(Register::R10),
                                dest: Operand::Stack(offset_dst),
                            },
                        ]
                    },
                    (src, dest) => vec![Instruction::Mov { src, dest }],
                }
            },
            instruction => vec![instruction],
        };
        run
    }
}

impl AsmPass for InvalidMovRewrite {
    open spec fn accepts(&self, program: assembly::ProgramView) -> bool {
        true
    }

    open spec fn rewritten(&self, program: assembly::ProgramView) -> assembly::ProgramView {
        assembly::ProgramView { function: split_moves(program.function) }
    }

    fn run(&mut self, program: Program) -> (result: Program) {
        let function = self.handle_function(program.into_function());
        Program::from_function(function)
    }
}

} // verus!
