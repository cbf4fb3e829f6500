//! Instruction selection: from the three-address form to assembly whose
//! operands may still be pseudo registers.
//!
//! [`select_instruction`] is the model: each instruction of the
//! intermediate form becomes a short run of assembly instructions, and the
//! runs follow one another in the order of the instructions they come from.

use vstd::prelude::*;
use vstd::string::*;
use crate::assembly;
use crate::assembly::{InstructionView, OperandView, Register};
use crate::sequence::{expand, lemma_expand_push};
use crate::tacky;

verus! {

/// The operand for a value: an immediate for a constant, the pseudo
/// register of the same name for a variable.
pub open spec fn select_operand(value: tacky::ValueView) -> OperandView {
    match value {
        tacky::ValueView::Constant(constant) => OperandView::Imm(constant),
        tacky::ValueView::Var { identifier } => OperandView::Pseudo(identifier),
    }
}

/// The assembly operator for a unary operator.
pub open spec fn select_unary_operator(operator: tacky::UnaryOperator) -> assembly::UnaryOperator {
    match operator {
        tacky::UnaryOperator::Negate => assembly::UnaryOperator::Neg,
        tacky::UnaryOperator::Complement => assembly::UnaryOperator::Not,
    }
}

/// The assembly instructions for one instruction of the intermediate form.
///
/// A return moves the value into `AX`. A unary operator and an addition,
/// subtraction or multiplication work in place, so the first operand is
/// moved into the destination before the operator is applied there. A
/// division leaves the quotient in `AX` and the remainder in `DX`,
/// whichever of the two was asked for.
pub open spec fn select_instruction(instruction: tacky::InstructionView) -> Seq<InstructionView> {
    match instruction {
        tacky::InstructionView::Return { val } => seq![
            InstructionView::Mov {
                src: select_operand(val),
                dest: OperandView::Register(Register::AX),
            },
            InstructionView::Ret,
        ],
        tacky::InstructionView::Unary { operator, src, dst } => seq![
            InstructionView::Mov { src: select_operand(src), dest: select_operand(dst) },
            InstructionView::Unary(select_unary_operator(operator), select_operand(dst)),
        ],
        tacky::InstructionView::Binary { operator, lhs, rhs, dst } => match operator {
            tacky::BinaryOperator::Add => in_place(assembly::BinaryOperator::Add, lhs, rhs, dst),
            tacky::BinaryOperator::Subtract => in_place(
                assembly::BinaryOperator::Sub,
                lhs,
                rhs,
                dst,
            ),
            tacky::BinaryOperator::Multiply => in_place(
                assembly::BinaryOperator::Mul,
                lhs,
                rhs,
                dst,
            ),
            tacky::BinaryOperator::Divide => division(Register::AX, lhs, rhs, dst),
            tacky::BinaryOperator::Remainder => division(Register::DX, lhs, rhs, dst),
        },
    }
}

/// `dst = lhs operator rhs` for an operator that works in place: `lhs` is
/// moved into `dst`, then the operator is applied to `rhs` and `dst`.
pub open spec fn in_place(
    operator: assembly::BinaryOperator,
    lhs: tacky::ValueView,
    rhs: tacky::ValueView,
    dst: tacky::ValueView,
) -> Seq<InstructionView> {
    seq![
        InstructionView::Mov { src: select_operand(lhs), dest: select_operand(dst) },
        InstructionView::Binary(operator, select_operand(rhs), select_operand(dst)),
    ]
}

/// A signed division of `lhs` by `rhs`: `lhs` is moved into `AX` and
/// sign-extended into `DX`, the division runs, and `dst` receives the
/// register `result`, which is `AX` for the quotient and `DX` for the
/// remainder.
pub open spec fn division(
    result: Register,
    lhs: tacky::ValueView,
    rhs: tacky::ValueView,
    dst: tacky::ValueView,
) -> Seq<InstructionView> {
    seq![
        InstructionView::Mov {
            src: select_operand(lhs),
            dest: OperandView::Register(Register::AX),
        },
        InstructionView::Cdq,
        InstructionView::Idiv(select_operand(rhs)),
        InstructionView::Mov { src: OperandView::Register(result), dest: select_operand(dst) },
    ]
}

/// [`select_instruction`] as a function value.
pub open spec fn selection() -> spec_fn(tacky::InstructionView) -> Seq<InstructionView> {
    |instruction: tacky::InstructionView| select_instruction(instruction)
}

/// The assembly instructions for a sequence of instructions of the
/// intermediate form: those of each instruction, in order.
pub open spec fn select_instructions(instructions: Seq<tacky::InstructionView>) -> Seq<
    InstructionView,
> {
    expand(instructions, selection())
}

/// The assembly function for a function of the intermediate form.
pub open spec fn select_function(function: tacky::FunctionView) -> assembly::FunctionView {
    assembly::FunctionView {
        name: function.identifier,
        instructions: select_instructions(function.instructions),
    }
}

/// The assembly program for a program of the intermediate form.
pub open spec fn select_program(program: tacky::ProgramView) -> assembly::ProgramView {
    assembly::ProgramView { function: select_function(program.function) }
}

/// Selects the assembly instructions for a program of the intermediate form.
pub fn codegen(program: &tacky::Program) -> (selected: assembly::Program)
    ensures
        selected@ == select_program(program@),
{
    assembly::Program::new(codegen_function(program.function()))
}

fn codegen_function(function: &tacky::Function) -> (selected: assembly::Function)
    ensures
        selected@ == select_function(function@),
{
    let mut instruction: Vec<assembly::Instruction> = Vec::new();
    let source = function.instructions();
    for index in 0..source.len()
        invariant
            tacky::instruction_views(source@) == function@.instructions,
            tacky::all_write_variables(function@.instructions),
            assembly::instruction_views(instruction@) == select_instructions(
                function@.instructions.take(index as int),
            ),
    {
        proof {
            let done = function@.instructions.take(index as int);
            assert(function@.instructions.take(index + 1) =~= done.push(source@[index as int]@));
            assert(function@.instructions[index as int] == source@[index as int]@);
            lemma_expand_push(done, selection(), source@[index as int]@);
        }
        codegen_instruction(&source[index], &mut instruction);
    }
    proof {
        assert(function@.instructions.take(source.len() as int) =~= function@.instructions);
    }
    assembly::Function::new(function.identifier().to_owned(), instruction)
}

fn codegen_instruction(instr: &tacky::Instruction, instructions: &mut Vec<assembly::Instruction>)
    requires
        instr@.writes_variable(),
    ensures
        assembly::instruction_views(final(instructions)@) == assembly::instruction_views(
            old(instructions)@,
        ) + select_instruction(instr@),
{
    match instr {
        tacky::Instruction::Return { val } => codegen_ret(instructions, val),
        tacky::Instruction::Unary { operator, src, dst } => codegen_unary(
            instructions,
            operator,
            src,
            dst,
        ),
        tacky::Instruction::Binary { operator, lhs, rhs, dst } => codegen_binary(
            instructions,
            operator,
            lhs,
            rhs,
            dst,
        ),
    }
}

/// Appends `instruction` to `instructions`.
fn emit(instructions: &mut Vec<assembly::Instruction>, instruction: assembly::Instruction)
    ensures
        assembly::instruction_views(final(instructions)@) == assembly::instruction_views(
            old(instructions)@,
        ).push(instruction@),
{
    instructions.push(instruction);
}

fn codegen_ret(instructions: &mut Vec<assembly::Instruction>, val: &tacky::Value)
    ensures
        assembly::instruction_views(final(instructions)@) == assembly::instruction_views(
            old(instructions)@,
        ) + select_instruction(tacky::InstructionView::Return { val: val@ }),
{
    let src_operand = codegen_operand(val);
    emit(
        instructions,
        assembly::Instruction::Mov {
            src: src_operand,
            dest: assembly::Operand::Register(assembly::Register::AX),
        },
    );
    emit(instructions, assembly::Instruction::Ret);
}

fn codegen_operand(operand: &tacky::Value) -> (selected: assembly::Operand)
    ensures
        selected@ == select_operand(operand@),
{
    match operand {
        tacky::Value::Var { identifier } => assembly::Operand::Pseudo(identifier.clone()),
        tacky::Value::Constant(value) => assembly::Operand::Imm(*value),
    }
}

fn codegen_unary(
    instructions: &mut Vec<assembly::Instruction>,
    operator: &tacky::UnaryOperator,
    src: &tacky::Value,
    dst: &tacky::Value,
)
    requires
        dst@ is Var,
    ensures
        assembly::instruction_views(final(instructions)@) == assembly::instruction_views(
            old(instructions)@,
        ) + select_instruction(
            tacky::InstructionView::Unary { operator: *operator, src: src@, dst: dst@ },
        ),
{
    let src_operand = codegen_operand(src);
    let dst_operand = codegen_operand(dst);
    let op = codegen_unary_op(operator);

    if let assembly::Operand::Imm(_) = dst_operand {
        // The destination is a variable, never a value.
        unreached()
    }
    emit(instructions, assembly::Instruction::Mov { src: src_operand, dest: dst_operand.clone() });
    emit(instructions, assembly::Instruction::Unary(op, dst_operand));
}

fn codegen_unary_op(unary_op: &tacky::UnaryOperator) -> (selected: assembly::UnaryOperator)
    ensures
        selected == select_unary_operator(*unary_op),
{
    match unary_op {
        tacky::UnaryOperator::Negate => assembly::UnaryOperator::Neg,
        tacky::UnaryOperator::Complement => assembly::UnaryOperator::Not,
    }
}

fn codegen_binary(
    instructions: &mut Vec<assembly::Instruction>,
    operator: &tacky::BinaryOperator,
    left: &tacky::Value,
    right: &tacky::Value,
    dst: &tacky::Value,
)
    ensures
        assembly::instruction_views(final(instructions)@) == assembly::instruction_views(
            old(instructions)@,
        ) + select_instruction(
            tacky::InstructionView::Binary {
                operator: *operator,
                lhs: left@,
                rhs: right@,
                dst: dst@,
            },
        ),
{
    let left_operand = codegen_operand(left);
    let right_operand = codegen_operand(right);
    let dst_operand = codegen_operand(dst);

    match operator {
        tacky::BinaryOperator::Add
        | tacky::BinaryOperator::Subtract
        | tacky::BinaryOperator::Multiply => {
            let op = codegen_binary_op(operator);
            emit(
                instructions,
                assembly::Instruction::Mov { src: left_operand, dest: dst_operand.clone() },
            );
            emit(instructions, assembly::Instruction::Binary(op, right_operand, dst_operand));
        },
        tacky::BinaryOperator::Divide | tacky::BinaryOperator::Remainder => {
            emit(
                instructions,
                assembly::Instruction::Mov {
                    src: left_operand,
                    dest: assembly::Operand::Register(Register::AX),
                },
            );
            emit(instructions, assembly::Instruction::Cdq);
            emit(instructions, assembly::Instruction::Idiv(right_operand));
            if *operator == tacky::BinaryOperator::Divide {
                emit(
                    instructions,
                    assembly::Instruction::Mov {
                        src: assembly::Operand::Register(Register::AX),
                        dest: dst_operand,
                    },
                );
            } else {
                emit(
                    instructions,
                    assembly::Instruction::Mov {
                        src: assembly::Operand::Register(Register::DX),
                        dest: dst_operand,
                    },
                );
            }
        },
    }
}

fn codegen_binary_op(binary_op: &tacky::BinaryOperator) -> (selected: assembly::BinaryOperator)
    requires
        binary_op != tacky::BinaryOperator::Divide,
        binary_op != tacky::BinaryOperator::Remainder,
    ensures
        *binary_op == tacky::BinaryOperator::Add ==> selected == assembly::BinaryOperator::Add,
        *binary_op == tacky::BinaryOperator::Subtract ==> selected == assembly::BinaryOperator::Sub,
        *binary_op == tacky::BinaryOperator::Multiply ==> selected == assembly::BinaryOperator::Mul,
{
    match binary_op {
        tacky::BinaryOperator::Add => assembly::BinaryOperator::Add,
        tacky::BinaryOperator::Subtract => assembly::BinaryOperator::Sub,
        tacky::BinaryOperator::Multiply => assembly::BinaryOperator::Mul,
        // Division and remainder are handled separately.
        _ => unreached(),
    }
}

} // verus!
