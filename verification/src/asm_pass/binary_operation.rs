//! Divisions by an immediate, additions and subtractions between two stack
//! slots, and multiplications into a stack slot, none of which the machine
//! can encode, are rewritten with the scratch registers `R10` and `R11`.

use vstd::prelude::*;
use crate::asm_pass::AsmPass;
use crate::assembly;
use crate::assembly::{
    BinaryOperator,
    Instruction,
    InstructionView,
    Operand,
    OperandView,
    Program,
    Register,
};
use crate::sequence::{expand, lemma_expand_all, lemma_expand_first, lemma_expand_push};

verus! {

/// What the pass makes of one instruction.
///
/// A division by an immediate first moves the immediate into `R10`. An
/// addition or subtraction between two stack slots first moves its source
/// into `R10`. A multiplication into a stack slot is carried out in `R11`:
/// the slot is loaded, multiplied, and stored back. Anything else stays as
/// it is.
pub open spec fn fix_operands(instruction: InstructionView) -> Seq<InstructionView> {
    match instruction {
        InstructionView::Idiv(OperandView::Imm(value)) => seq![
            InstructionView::Mov {
                src: OperandView::Imm(value),
                dest: OperandView::Register(Register::R10),
            },
            InstructionView::Idiv(OperandView::Register(Register::R10)),
        ],
        InstructionView::Binary(
            BinaryOperator::Add,
            OperandView::Stack(from),
            OperandView::Stack(to),
        ) => through_scratch(BinaryOperator::Add, from, to),
        InstructionView::Binary(
            BinaryOperator::Sub,
            OperandView::Stack(from),
            OperandView::Stack(to),
        ) => through_scratch(BinaryOperator::Sub, from, to),
        InstructionView::Binary(BinaryOperator::Mul, src, OperandView::Stack(to)) => seq![
            InstructionView::Mov {
                src: OperandView::Stack(to),
                dest: OperandView::Register(Register::R11),
            },
            InstructionView::Binary(BinaryOperator::Mul, src, OperandView::Register(Register::R11)),
            InstructionView::Mov {
                src: OperandView::Register(Register::R11),
                dest: OperandView::Stack(to),
            },
        ],
        other => seq![other],
    }
}

/// An addition or subtraction from the slot at `from` into the slot at
/// `to`, with the source moved into `R10` first.
pub open spec fn through_scratch(operator: BinaryOperator, from: i64, to: i64) -> Seq<
    InstructionView,
> {
    seq![
        InstructionView::Mov {
            src: OperandView::Stack(from),
            dest: OperandView::Register(Register::R10),
        },
        InstructionView::Binary(
            operator,
            OperandView::Register(Register::R10),
            OperandView::Stack(to),
        ),
    ]
}

/// [`fix_operands`] as a function value.
pub open spec fn operand_fixing() -> spec_fn(InstructionView) -> Seq<InstructionView> {
    |instruction: InstructionView| fix_operands(instruction)
}

/// What the pass makes of a function: every instruction is replaced by
/// what [`fix_operands`] makes of it, in order.
pub open spec fn fix_function(function: assembly::FunctionView) -> assembly::FunctionView {
    assembly::FunctionView {
        name: function.name,
        instructions: expand(function.instructions, operand_fixing()),
    }
}

/// After the pass every instruction can be encoded, if no move went from
/// one stack slot to another before it.
pub proof fn lemma_fix_function_is_encodable(function: assembly::FunctionView)
    requires
        assembly::is_free_of_memory_moves(function.instructions),
    ensures
        assembly::is_encodable(fix_function(function).instructions),
{
    let holds = |instruction: InstructionView| instruction.is_encodable();
    lemma_expand_all(function.instructions, operand_fixing(), holds);
}

/// The pass brings in no pseudo register.
pub proof fn lemma_fix_function_keeps_free_of_pseudo(function: assembly::FunctionView)
    requires
        assembly::is_free_of_pseudo(function.instructions),
    ensures
        assembly::is_free_of_pseudo(fix_function(function).instructions),
{
    let holds = |instruction: InstructionView| instruction.is_free_of_pseudo();
    lemma_expand_all(function.instructions, operand_fixing(), holds);
}

/// The pass names no stack slot that the function did not name.
pub proof fn lemma_fix_function_keeps_slots_within(function: assembly::FunctionView, size: nat)
    requires
        assembly::slots_within(function.instructions, size),
    ensures
        assembly::slots_within(fix_function(function).instructions, size),
{
    let holds = |instruction: InstructionView| instruction.slots_within(size);
    lemma_expand_all(function.instructions, operand_fixing(), holds);
}

/// The pass leaves the reservation of the frame where and as it was.
pub proof fn lemma_fix_function_keeps_reservation(function: assembly::FunctionView, size: nat)
    requires
        assembly::reserves_once(function.instructions, size),
    ensures
        assembly::reserves_once(fix_function(function).instructions, size),
{
    let rest = function.instructions.skip(1);
    let holds = |instruction: InstructionView| !(instruction is AllocateStack);
    lemma_expand_first(function.instructions, operand_fixing());
    lemma_expand_all(rest, operand_fixing(), holds);
}

/// The pass that rewrites divisions, additions, subtractions and
/// multiplications whose operands the machine cannot encode.
pub struct BinaryOperation {}

impl BinaryOperation {
    pub fn new() -> Self {
        Self {  }
    }

    fn handle_function(&mut self, function: assembly::Function) -> (rewritten: assembly::Function)
        ensures
            rewritten@ == fix_function(function@),
    {
        let (name, ins) = function.decompose();
        let ghost source = assembly::instruction_views(ins@);
        let mut instructions: Vec<Instruction> = Vec::new();
        for instruction in iter: ins
            invariant
                assembly::instruction_views(iter.seq()) == source,
                assembly::instruction_views(instructions@) == expand(
                    source.take(iter.index() as int),
                    operand_fixing(),
                ),
        {
            proof {
                let done = source.take(iter.index() as int);
                assert(source.take(iter.index() + 1) =~= done.push(instruction@));
                lemma_expand_push(done, operand_fixing(), instruction@);
            }
            let mut run = self.handle_instruction(instruction);
            instructions.append(&mut run);
        }
        proof {
            assert(source.take(source.len() as int) =~= source);
        }
        assembly::Function::new(name, instructions)
    }

    fn handle_instruction(&mut self, instruction: Instruction) -> (run: Vec<Instruction>)
        ensures
            assembly::instruction_views(run@) == fix_operands(instruction@),
    {
        let run = match instruction {
            Instruction::Idiv(operand) => {
                if let Operand::Imm(value) = operand {
                    vec![
                        Instruction::Mov {
                            src: Operand::Imm(value),
                            dest: Operand::Register(Register::R10),
                        },
                        Instruction::Idiv(Operand::Register(Register::R10)),
                    ]
                } else {
                    vec![Instruction::Idiv(operand)]
                }
            },
            Instruction::Binary(operator, src, dest)
                if operator == BinaryOperator::Add || operator == BinaryOperator::Sub => {
                match (src, dest) {
                    (Operand::Stack(src_offset), Operand::Stack(dest_offset)) => {
                        vec![
                            Instruction::Mov {
                                src: Operand::Stack(src_offset),
                                dest: Operand::Register(Register::R10),
                            },
                            Instruction::Binary(
                                operator,
                                Operand::Register(Register::R10),
                                Operand::Stack(dest_offset),
                            ),
                        ]
                    },
                    (src, dest) => vec![Instruction::Binary(operator, src, dest)],
                }
            },
            Instruction::Binary(operator, src, dest) if operator == BinaryOperator::Mul => {
                if let Operand::Stack(dest_offset) = dest {
                    vec![
                        Instruction::Mov {
                            src: Operand::Stack(dest_offset),
                            dest: Operand::Register(Register::R11),
                        },
                        Instruction::Binary(operator, src, Operand::Register(Register::R11)),
                        Instruction::Mov {
                            src: Operand::Register(Register::R11),
                            dest: Operand::Stack(dest_offset),
                        },
                    ]
                } else {
                    vec![Instruction::Binary(operator, src, dest)]
                }
            },
            instruction => vec![instruction],
        };
        run
    }
}

impl AsmPass for BinaryOperation {
    open spec fn accepts(&self, program: assembly::ProgramView) -> bool {
        true
    }

    open spec fn rewritten(&self, program: assembly::ProgramView) -> assembly::ProgramView {
        assembly::ProgramView { function: fix_function(program.function) }
    }

    fn run(&mut self, program: Program) -> (result: Program) {
        let function = self.handle_function(program.into_function());
        Program::from_function(function)
    }
}

} // verus!
