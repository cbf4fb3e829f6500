//! The text of an assembly program.
//!
//! The emitter decides nothing: every instruction has a fixed text, and the
//! text of a program is the text of its lines one after another.
//! [`program_text`] is the model.

use vstd::prelude::*;
use vstd::string::*;
use crate::assembly;
use crate::assembly::{
    BinaryOperator,
    Instruction,
    InstructionView,
    Operand,
    OperandView,
    Register,
    UnaryOperator,
};
use crate::codewriter::{line_text, CodeWriter, LineWriter};
use crate::decimal::{decimal, push_decimal, push_signed_decimal, signed_decimal};
use crate::sequence::{expand, lemma_expand_one, lemma_expand_push};

verus! {

/// The name of the 32-bit part of a register.
pub open spec fn register_text(register: Register) -> Seq<char> {
    match register {
        Register::AX => "%eax"@,
        Register::R10 => "%r10d"@,
        Register::DX => "%edx"@,
        Register::R11 => "%r11d"@,
    }
}

/// The text of an operand: a register by its name, an immediate as `$` and
/// its decimal digits, a stack slot as its offset from the frame pointer.
/// A pseudo register has no text.
pub open spec fn operand_text(operand: OperandView) -> Seq<char> {
    match operand {
        OperandView::Register(register) => register_text(register),
        OperandView::Imm(value) => "$"@ + decimal(value as nat),
        OperandView::Stack(offset) => signed_decimal(offset as int) + "(%rbp)"@,
        OperandView::Pseudo(_) => Seq::empty(),
    }
}

/// The mnemonic of a unary operator.
pub open spec fn unary_operator_text(operator: UnaryOperator) -> Seq<char> {
    match operator {
        UnaryOperator::Neg => "negl"@,
        UnaryOperator::Not => "notl"@,
    }
}

/// The mnemonic of a binary operator.
pub open spec fn binary_operator_text(operator: BinaryOperator) -> Seq<char> {
    match operator {
        BinaryOperator::Add => "addl"@,
        BinaryOperator::Sub => "subl"@,
        BinaryOperator::Mul => "imull"@,
    }
}

/// The lines of an instruction, without indentation and line feeds. Every
/// instruction is one line but the return, which restores the caller's
/// frame before it returns.
pub open spec fn instruction_lines(instruction: InstructionView) -> Seq<Seq<char>> {
    match instruction {
        InstructionView::Mov { src, dest } => seq![
            "movl "@ + operand_text(src) + ", "@ + operand_text(dest),
        ],
        InstructionView::Ret => seq!["movq %rbp, %rsp"@, "popq %rbp"@, "ret"@],
        InstructionView::Unary(operator, operand) => seq![
            unary_operator_text(operator) + " "@ + operand_text(operand),
        ],
        InstructionView::Cdq => seq!["cdq"@],
        InstructionView::Idiv(operand) => seq!["idivl "@ + operand_text(operand)],
        InstructionView::Binary(operator, left, right) => seq![
            binary_operator_text(operator) + " "@ + operand_text(left) + ", "@ + operand_text(
                right,
            ),
        ],
        InstructionView::AllocateStack(size) => seq![
            "subq $"@ + signed_decimal(size as int) + ", %rsp"@,
        ],
    }
}

/// The function that gives a line its text at level `level`.
pub open spec fn line_writing(level: nat) -> spec_fn(Seq<char>) -> Seq<char> {
    |content: Seq<char>| line_text(level, content)
}

/// The text of an instruction at level `level`.
pub open spec fn instruction_text(level: nat, instruction: InstructionView) -> Seq<char> {
    expand(instruction_lines(instruction), line_writing(level))
}

/// The function that gives an instruction its text at level `level`.
pub open spec fn instruction_writing(level: nat) -> spec_fn(InstructionView) -> Seq<char> {
    |instruction: InstructionView| instruction_text(level, instruction)
}

/// The text of a sequence of instructions at level `level`.
pub open spec fn instructions_text(level: nat, instructions: Seq<InstructionView>) -> Seq<char> {
    expand(instructions, instruction_writing(level))
}

/// The symbol of a function: its name, but `_main` for `main`.
pub open spec fn symbol(name: Seq<char>) -> Seq<char> {
    if name == "main"@ {
        "_main"@
    } else {
        name
    }
}

/// The text of the body of a function at level `level`: the two lines
/// that set up the frame, then the instructions.
pub open spec fn frame_text(level: nat, instructions: Seq<InstructionView>) -> Seq<char> {
    line_text(level, "pushq %rbp"@) + line_text(level, "movq %rsp, %rbp"@) + instructions_text(
        level,
        instructions,
    )
}

/// The text of a function at level `level`: the symbol is declared global
/// and defined, and the body follows one level deeper.
pub open spec fn function_text(level: nat, function: assembly::FunctionView) -> Seq<char> {
    line_text(level, ".global "@ + symbol(function.name)) + line_text(
        level,
        symbol(function.name) + ":"@,
    ) + frame_text(level + 1, function.instructions)
}

/// The text of a program at level `level`: that of its function and an
/// empty line.
pub open spec fn program_text(level: nat, program: assembly::ProgramView) -> Seq<char> {
    function_text(level, program.function) + seq!['\n']
}

/// Appends the text of `program` to `writer`. The program must be free of
/// pseudo registers.
pub fn emit(writer: &mut CodeWriter, program: &assembly::Program)
    requires
        assembly::is_free_of_pseudo(program@.function.instructions),
        old(writer)@.indent_level < usize::MAX,
    ensures
        final(writer)@.output == old(writer)@.output + program_text(
            old(writer)@.indent_level,
            program@,
        ),
        final(writer)@.indent_level == old(writer)@.indent_level,
{
    emit_function(writer, program.function());
    writer.blank_line();
}

fn emit_function(writer: &mut CodeWriter, function: &assembly::Function)
    requires
        assembly::is_free_of_pseudo(function@.instructions),
        old(writer)@.indent_level < usize::MAX,
    ensures
        final(writer)@.output == old(writer)@.output + function_text(
            old(writer)@.indent_level,
            function@,
        ),
        final(writer)@.indent_level == old(writer)@.indent_level,
{
    let function_name = if is_main(function.name()) {
        "_main"
    } else {
        function.name()
    };
    let mut declaration = String::from_str(".global ");
    declaration.append(function_name);
    writer.write_line(declaration.as_str());
    let mut label = String::from_str(function_name);
    label.append(":");
    writer.write_line(label.as_str());
    let body = |writer: &mut CodeWriter|
        ensures
            final(writer)@.indent_level == old(writer)@.indent_level,
            final(writer)@.output == old(writer)@.output + frame_text(
                old(writer)@.indent_level,
                function@.instructions,
            ),
        {
            writer.write_line("pushq %rbp");
            writer.write_line("movq %rsp, %rbp");
            emit_instructions(writer, function.instructions());
            assert(writer@.output =~= old(writer)@.output + frame_text(
                old(writer)@.indent_level,
                function@.instructions,
            ));
        };
    writer.write_block(body);
}

/// Whether `name` is `main`. The two are compared as owned strings, whose
/// equality is that of their characters.
fn is_main(name: &str) -> (same: bool)
    ensures
        same == (name@ == "main"@),
{
    name.to_owned() == "main".to_owned()
}

/// Appends the text of every instruction, in order.
fn emit_instructions(writer: &mut CodeWriter, instructions: &Vec<Instruction>)
    requires
        assembly::is_free_of_pseudo(assembly::instruction_views(instructions@)),
    ensures
        final(writer)@.output == old(writer)@.output + instructions_text(
            old(writer)@.indent_level,
            assembly::instruction_views(instructions@),
        ),
        final(writer)@.indent_level == old(writer)@.indent_level,
{
    let ghost level = writer@.indent_level;
    let ghost source = assembly::instruction_views(instructions@);
    for index in 0..instructions.len()
        invariant
            source == assembly::instruction_views(instructions@),
            assembly::is_free_of_pseudo(source),
            writer@.indent_level == level,
            writer@.output == old(writer)@.output + instructions_text(
                level,
                source.take(index as int),
            ),
    {
        proof {
            let done = source.take(index as int);
            assert(source.take(index + 1) =~= done.push(source[index as int]));
            lemma_expand_push(done, instruction_writing(level), source[index as int]);
        }
        emit_instruction(writer, &instructions[index]);
    }
    proof {
        assert(source.take(source.len() as int) =~= source);
    }
}

/// The text of an instruction of one line is that line's text.
proof fn lemma_one_line(level: nat, content: Seq<char>)
    ensures
        expand(seq![content], line_writing(level)) == line_text(level, content),
{
    lemma_expand_one(line_writing(level), content);
}

/// The text of an instruction of three lines is that of the three, in
/// order.
proof fn lemma_three_lines(level: nat, first: Seq<char>, second: Seq<char>, third: Seq<char>)
    ensures
        expand(seq![first, second, third], line_writing(level)) == line_text(level, first)
            + line_text(level, second) + line_text(level, third),
{
    lemma_one_line(level, first);
    lemma_expand_push(seq![first], line_writing(level), second);
    lemma_expand_push(seq![first, second], line_writing(level), third);
    assert(seq![first].push(second) =~= seq![first, second]);
    assert(seq![first, second].push(third) =~= seq![first, second, third]);
}

fn emit_instruction(writer: &mut CodeWriter, instruction: &Instruction)
    requires
        instruction@.is_free_of_pseudo(),
    ensures
        final(writer)@.output == old(writer)@.output + instruction_text(
            old(writer)@.indent_level,
            instruction@,
        ),
        final(writer)@.indent_level == old(writer)@.indent_level,
{
    let ghost level = writer@.indent_level;
    match instruction {
        Instruction::Mov { src, dest } => {
            proof {
                lemma_one_line(level, instruction_lines(instruction@)[0]);
            }
            let composer = |writer: &mut LineWriter|
                ensures
                    final(writer)@ == old(writer)@ + "movl "@ + operand_text(src@) + ", "@
                        + operand_text(dest@),
                {
                    writer.write("movl ");
                    emit_operand(writer, src);
                    writer.write(", ");
                    emit_operand(writer, dest);
                };
            writer.line(composer);
        },
        Instruction::Ret => {
            proof {
                lemma_three_lines(level, "movq %rbp, %rsp"@, "popq %rbp"@, "ret"@);
            }
            writer.write_line("movq %rbp, %rsp");
            writer.write_line("popq %rbp");
            writer.write_line("ret");
        },
        Instruction::Unary(op, operand) => {
            proof {
                lemma_one_line(level, instruction_lines(instruction@)[0]);
            }
            let composer = |writer: &mut LineWriter|
                ensures
                    final(writer)@ == old(writer)@ + unary_operator_text(*op) + " "@
                        + operand_text(operand@),
                {
                    emit_unary_operator(writer, op);
                    writer.write(" ");
                    emit_operand(writer, operand);
                };
            writer.line(composer);
        },
        Instruction::Cdq => {
            proof {
                lemma_one_line(level, "cdq"@);
            }
            writer.write_line("cdq");
        },
        Instruction::Idiv(operand) => {
            proof {
                assert(instruction@.operands()[0] == operand@);
                lemma_one_line(level, instruction_lines(instruction@)[0]);
            }
            let composer = |writer: &mut LineWriter|
                ensures
                    final(writer)@ == old(writer)@ + "idivl "@ + operand_text(operand@),
                {
                    writer.write("idivl ");
                    emit_operand(writer, operand);
                };
            writer.line(composer);
        },
        Instruction::Binary(op, left, right) => {
            proof {
                lemma_one_line(level, instruction_lines(instruction@)[0]);
            }
            let composer = |writer: &mut LineWriter|
                ensures
                    final(writer)@ == old(writer)@ + binary_operator_text(*op) + " "@
                        + operand_text(left@) + ", "@ + operand_text(right@),
                {
                    emit_binary_operator(writer, op);
                    writer.write(" ");
                    emit_operand(writer, left);
                    writer.write(", ");
                    emit_operand(writer, right);
                };
            writer.line(composer);
        },
        Instruction::AllocateStack(size) => {
            proof {
                lemma_one_line(level, instruction_lines(instruction@)[0]);
            }
            let mut text = String::from_str("subq $");
            push_signed_decimal(&mut text, *size);
            text.append(", %rsp");
            writer.write_line(text.as_str());
        },
    }
}

fn emit_unary_operator(writer: &mut LineWriter, operator: &UnaryOperator)
    ensures
        final(writer)@ == old(writer)@ + unary_operator_text(*operator),
{
    match operator {
        UnaryOperator::Neg => writer.write("negl"),
        UnaryOperator::Not => writer.write("notl"),
    }
}

fn emit_binary_operator(writer: &mut LineWriter, operator: &BinaryOperator)
    ensures
        final(writer)@ == old(writer)@ + binary_operator_text(*operator),
{
    match operator {
        BinaryOperator::Add => writer.write("addl"),
        BinaryOperator::Sub => writer.write("subl"),
        BinaryOperator::Mul => writer.write("imull"),
    }
}

fn emit_operand(writer: &mut LineWriter, operand: &Operand)
    requires
        !(operand@ is Pseudo),
    ensures
        final(writer)@ == old(writer)@ + operand_text(operand@),
{
    match operand {
        Operand::Register(register) => emit_register(writer, register),
        Operand::Imm(value) => {
            let mut text = String::from_str("$");
            push_decimal(&mut text, *value);
            writer.write(text.as_str());
        },
        Operand::Stack(offset) => {
            let mut text = String::new();
            push_signed_decimal(&mut text, *offset);
            text.append("(%rbp)");
            writer.write(text.as_str());
        },
        Operand::Pseudo(_) => unreached(),
    }
}

fn emit_register(writer: &mut LineWriter, register: &Register)
    ensures
        final(writer)@ == old(writer)@ + register_text(*register),
{
    match register {
        Register::AX => writer.write("%eax"),
        Register::R10 => writer.write("%r10d"),
        Register::DX => writer.write("%edx"),
        Register::R11 => writer.write("%r11d"),
    }
}

} // verus!
