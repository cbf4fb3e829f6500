use minic::assembly::{BinaryOperator, Function, Instruction, Operand, Program, Register, UnaryOperator};
use minic::codewriter::CodeWriter;
use minic::emitter::emit;

fn text_of(name: &str, instructions: Vec<Instruction>) -> String {
    let program = Program::new(Function::new(name.to_owned(), instructions));
    let mut writer = CodeWriter::new();
    emit(&mut writer, &program);
    writer.into()
}

fn body_of(instructions: Vec<Instruction>) -> String {
    let text = text_of("f", instructions);
    let head = ".global f\nf:\n  pushq %rbp\n  movq %rsp, %rbp\n";
    assert!(text.starts_with(head));
    assert!(text.ends_with("\n\n") || text == format!("{}\n", head));
    text[head.len()..text.len() - 1].to_owned()
}

fn register(register: Register) -> Operand {
    Operand::Register(register)
}

#[test]
fn main_gets_a_leading_underscore() {
    assert_eq!(text_of("main", vec![]), ".global _main\n_main:\n  pushq %rbp\n  movq %rsp, %rbp\n\n");
}

#[test]
fn other_names_are_kept() {
    assert_eq!(text_of("start", vec![]), ".global start\nstart:\n  pushq %rbp\n  movq %rsp, %rbp\n\n");
    assert_eq!(text_of("_main", vec![]), ".global _main\n_main:\n  pushq %rbp\n  movq %rsp, %rbp\n\n");
    assert_eq!(text_of("mai", vec![]), ".global mai\nmai:\n  pushq %rbp\n  movq %rsp, %rbp\n\n");
}

#[test]
fn return_restores_the_frame() {
    assert_eq!(body_of(vec![Instruction::Ret]), "  movq %rbp, %rsp\n  popq %rbp\n  ret\n");
}

#[test]
fn moves_and_operands() {
    assert_eq!(
        body_of(vec![
            Instruction::Mov { src: Operand::Imm(2), dest: register(Register::AX) },
            Instruction::Mov { src: Operand::Stack(-4), dest: register(Register::R10) },
            Instruction::Mov { src: register(Register::R11), dest: Operand::Stack(-12) },
            Instruction::Mov { src: register(Register::DX), dest: Operand::Stack(8) },
            Instruction::Mov { src: Operand::Imm(u64::MAX), dest: Operand::Stack(0) },
        ]),
        "  movl $2, %eax\n  movl -4(%rbp), %r10d\n  movl %r11d, -12(%rbp)\n  movl %edx, 8(%rbp)\n  movl $18446744073709551615, 0(%rbp)\n"
    );
}

#[test]
fn unary_binary_and_division() {
    assert_eq!(
        body_of(vec![
            Instruction::Unary(UnaryOperator::Neg, Operand::Stack(-4)),
            Instruction::Unary(UnaryOperator::Not, register(Register::AX)),
            Instruction::Binary(BinaryOperator::Add, Operand::Imm(1), Operand::Stack(-4)),
            Instruction::Binary(BinaryOperator::Sub, register(Register::R10), Operand::Stack(-8)),
            Instruction::Binary(BinaryOperator::Mul, Operand::Stack(-8), register(Register::R11)),
            Instruction::Cdq,
            Instruction::Idiv(register(Register::R10)),
            Instruction::Idiv(Operand::Stack(-16)),
        ]),
        "  negl -4(%rbp)\n  notl %eax\n  addl $1, -4(%rbp)\n  subl %r10d, -8(%rbp)\n  imull -8(%rbp), %r11d\n  cdq\n  idivl %r10d\n  idivl -16(%rbp)\n"
    );
}

#[test]
fn frame_reservation() {
    assert_eq!(body_of(vec![Instruction::AllocateStack(0)]), "  subq $0, %rsp\n");
    assert_eq!(body_of(vec![Instruction::AllocateStack(24)]), "  subq $24, %rsp\n");
    assert_eq!(body_of(vec![Instruction::AllocateStack(-8)]), "  subq $-8, %rsp\n");
}

#[test]
fn emit_appends_at_the_level_of_the_writer() {
    let program = Program::new(Function::new("f".to_owned(), vec![Instruction::Cdq]));
    let mut writer = CodeWriter::new();
    writer.write_line("# start");
    writer.write_block(|writer| emit(writer, &program));
    let text: String = writer.into();
    assert_eq!(text, "# start\n  .global f\n  f:\n    pushq %rbp\n    movq %rsp, %rbp\n    cdq\n\n");
}
