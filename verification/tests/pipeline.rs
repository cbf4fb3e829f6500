use minic::assembly::{BinaryOperator, Instruction, Operand, Register, UnaryOperator};
use minic::ast;
use minic::pipeline::{assemble, compile, legalize, program_fits};

fn constant(value: u64) -> Box<ast::Expression> {
    Box::new(ast::Expression::Constant(value))
}

fn main_returning(expression: ast::Expression) -> ast::Program {
    ast::Program::new(ast::Function::new("main".to_owned(), ast::Statement::Return(expression)))
}

fn assembled(expression: ast::Expression) -> Vec<Instruction> {
    let program = main_returning(expression);
    assert!(program_fits(&program));
    assemble(&program).into_function().decompose().1
}

fn register(register: Register) -> Operand {
    Operand::Register(register)
}

fn operands(instruction: &Instruction) -> Vec<&Operand> {
    match instruction {
        Instruction::Mov { src, dest } => vec![src, dest],
        Instruction::Unary(_, operand) => vec![operand],
        Instruction::Binary(_, src, dest) => vec![src, dest],
        Instruction::Idiv(operand) => vec![operand],
        Instruction::Cdq | Instruction::AllocateStack(_) | Instruction::Ret => vec![],
    }
}

fn is_stack(operand: &Operand) -> bool {
    matches!(operand, Operand::Stack(_))
}

/// 1 - 2 * (3 / 4 % 5) + ~(-6) * 7
fn mixed() -> ast::Expression {
    let quotient = ast::Expression::Binary(ast::BinaryOperator::Div, constant(3), constant(4));
    let remainder = ast::Expression::Binary(ast::BinaryOperator::Rem, Box::new(quotient), constant(5));
    let product = ast::Expression::Binary(ast::BinaryOperator::Mul, constant(2), Box::new(remainder));
    let difference = ast::Expression::Binary(ast::BinaryOperator::Sub, constant(1), Box::new(product));
    let negated = ast::Expression::Unary(ast::UnaryOperator::Negate, constant(6));
    let complement = ast::Expression::Unary(ast::UnaryOperator::Complement, Box::new(negated));
    let second = ast::Expression::Binary(ast::BinaryOperator::Mul, Box::new(complement), constant(7));
    ast::Expression::Binary(ast::BinaryOperator::Add, Box::new(difference), Box::new(second))
}

#[test]
fn return_two() {
    assert_eq!(
        assembled(ast::Expression::Constant(2)),
        vec![
            Instruction::AllocateStack(0),
            Instruction::Mov { src: Operand::Imm(2), dest: register(Register::AX) },
            Instruction::Ret,
        ]
    );
    assert_eq!(
        compile(&main_returning(ast::Expression::Constant(2))),
        ".global _main\n_main:\n  pushq %rbp\n  movq %rsp, %rbp\n  subq $0, %rsp\n  movl $2, %eax\n  movq %rbp, %rsp\n  popq %rbp\n  ret\n\n"
    );
}

#[test]
fn return_minus_five() {
    assert_eq!(
        assembled(ast::Expression::Unary(ast::UnaryOperator::Negate, constant(5))),
        vec![
            Instruction::AllocateStack(4),
            Instruction::Mov { src: Operand::Imm(5), dest: Operand::Stack(-4) },
            Instruction::Unary(UnaryOperator::Neg, Operand::Stack(-4)),
            Instruction::Mov { src: Operand::Stack(-4), dest: register(Register::AX) },
            Instruction::Ret,
        ]
    );
    assert_eq!(
        compile(&main_returning(ast::Expression::Unary(ast::UnaryOperator::Negate, constant(5)))),
        ".global _main\n_main:\n  pushq %rbp\n  movq %rsp, %rbp\n  subq $4, %rsp\n  movl $5, -4(%rbp)\n  negl -4(%rbp)\n  movl -4(%rbp), %eax\n  movq %rbp, %rsp\n  popq %rbp\n  ret\n\n"
    );
}

#[test]
fn return_three_plus_four_times_two() {
    let product = ast::Expression::Binary(ast::BinaryOperator::Mul, constant(4), constant(2));
    let sum = ast::Expression::Binary(ast::BinaryOperator::Add, constant(3), Box::new(product));
    assert_eq!(
        assembled(sum),
        vec![
            Instruction::AllocateStack(8),
            Instruction::Mov { src: Operand::Imm(4), dest: Operand::Stack(-4) },
            Instruction::Mov { src: Operand::Stack(-4), dest: register(Register::R11) },
            Instruction::Binary(BinaryOperator::Mul, Operand::Imm(2), register(Register::R11)),
            Instruction::Mov { src: register(Register::R11), dest: Operand::Stack(-4) },
            Instruction::Mov { src: Operand::Imm(3), dest: Operand::Stack(-8) },
            Instruction::Mov { src: Operand::Stack(-4), dest: register(Register::R10) },
            Instruction::Binary(BinaryOperator::Add, register(Register::R10), Operand::Stack(-8)),
            Instruction::Mov { src: Operand::Stack(-8), dest: register(Register::AX) },
            Instruction::Ret,
        ]
    );
}

#[test]
fn return_seven_divided_by_two() {
    assert_eq!(
        assembled(ast::Expression::Binary(ast::BinaryOperator::Div, constant(7), constant(2))),
        vec![
            Instruction::AllocateStack(4),
            Instruction::Mov { src: Operand::Imm(7), dest: register(Register::AX) },
            Instruction::Cdq,
            Instruction::Mov { src: Operand::Imm(2), dest: register(Register::R10) },
            Instruction::Idiv(register(Register::R10)),
            Instruction::Mov { src: register(Register::AX), dest: Operand::Stack(-4) },
            Instruction::Mov { src: Operand::Stack(-4), dest: register(Register::AX) },
            Instruction::Ret,
        ]
    );
}

#[test]
fn return_seven_modulo_two() {
    let text = compile(&main_returning(ast::Expression::Binary(
        ast::BinaryOperator::Rem,
        constant(7),
        constant(2),
    )));
    assert_eq!(
        text,
        ".global _main\n_main:\n  pushq %rbp\n  movq %rsp, %rbp\n  subq $4, %rsp\n  movl $7, %eax\n  cdq\n  movl $2, %r10d\n  idivl %r10d\n  movl %edx, -4(%rbp)\n  movl -4(%rbp), %eax\n  movq %rbp, %rsp\n  popq %rbp\n  ret\n\n"
    );
}

#[test]
fn division_by_a_variable_is_laid_out() {
    // 7 / -2
    let divisor = ast::Expression::Unary(ast::UnaryOperator::Negate, constant(2));
    assert_eq!(
        assembled(ast::Expression::Binary(ast::BinaryOperator::Div, constant(7), Box::new(divisor))),
        vec![
            Instruction::AllocateStack(8),
            Instruction::Mov { src: Operand::Imm(2), dest: Operand::Stack(-4) },
            Instruction::Unary(UnaryOperator::Neg, Operand::Stack(-4)),
            Instruction::Mov { src: Operand::Imm(7), dest: register(Register::AX) },
            Instruction::Cdq,
            Instruction::Idiv(Operand::Stack(-4)),
            Instruction::Mov { src: register(Register::AX), dest: Operand::Stack(-8) },
            Instruction::Mov { src: Operand::Stack(-8), dest: register(Register::AX) },
            Instruction::Ret,
        ]
    );
}

#[test]
fn compiling_twice_gives_the_same_text() {
    let first = compile(&main_returning(mixed()));
    let second = compile(&main_returning(mixed()));
    assert_eq!(first, second);
    assert_eq!(first.as_bytes(), second.as_bytes());
}

#[test]
fn no_pseudo_register_is_left() {
    let program = assemble(&main_returning(mixed()));
    assert!(program.function().is_free_of_pseudo());
    for instruction in program.function().instructions() {
        for operand in operands(instruction) {
            assert!(!matches!(operand, Operand::Pseudo(_)));
        }
    }
}

#[test]
fn every_instruction_can_be_encoded() {
    for instruction in assembled(mixed()) {
        match &instruction {
            Instruction::Mov { src, dest } => assert!(!(is_stack(src) && is_stack(dest))),
            Instruction::Binary(BinaryOperator::Add, src, dest)
            | Instruction::Binary(BinaryOperator::Sub, src, dest) => {
                assert!(!(is_stack(src) && is_stack(dest)))
            }
            Instruction::Binary(BinaryOperator::Mul, _, dest) => assert!(!is_stack(dest)),
            Instruction::Idiv(operand) => assert!(!matches!(operand, Operand::Imm(_))),
            _ => {}
        }
    }
}

#[test]
fn frame_holds_every_slot() {
    let instructions = assembled(mixed());
    // One temporary for each of the eight operators.
    assert_eq!(instructions[0], Instruction::AllocateStack(32));
    let mut offsets = Vec::new();
    for instruction in &instructions[1..] {
        assert!(!matches!(instruction, Instruction::AllocateStack(_)));
        for operand in operands(instruction) {
            if let Operand::Stack(offset) = operand {
                assert!(-32 <= *offset && *offset <= -4);
                assert_eq!(offset % 4, 0);
                if !offsets.contains(offset) {
                    offsets.push(*offset);
                }
            }
        }
    }
    offsets.sort();
    assert_eq!(offsets, vec![-32, -28, -24, -20, -16, -12, -8, -4]);
}

#[test]
fn distinct_temporaries_get_distinct_slots() {
    // -(~(-1)): three temporaries, each moved into the next.
    let mut expression = ast::Expression::Constant(1);
    for operator in [ast::UnaryOperator::Negate, ast::UnaryOperator::Complement, ast::UnaryOperator::Negate] {
        expression = ast::Expression::Unary(operator, Box::new(expression));
    }
    assert_eq!(
        assembled(expression),
        vec![
            Instruction::AllocateStack(12),
            Instruction::Mov { src: Operand::Imm(1), dest: Operand::Stack(-4) },
            Instruction::Unary(UnaryOperator::Neg, Operand::Stack(-4)),
            Instruction::Mov { src: Operand::Stack(-4), dest: register(Register::R10) },
            Instruction::Mov { src: register(Register::R10), dest: Operand::Stack(-8) },
            Instruction::Unary(UnaryOperator::Not, Operand::Stack(-8)),
            Instruction::Mov { src: Operand::Stack(-8), dest: register(Register::R10) },
            Instruction::Mov { src: register(Register::R10), dest: Operand::Stack(-12) },
            Instruction::Unary(UnaryOperator::Neg, Operand::Stack(-12)),
            Instruction::Mov { src: Operand::Stack(-12), dest: register(Register::AX) },
            Instruction::Ret,
        ]
    );
}

#[test]
fn legalize_runs_the_passes_in_order() {
    let raw = minic::assembly::Program::new(minic::assembly::Function::new(
        "f".to_owned(),
        vec![
            Instruction::Mov { src: Operand::Pseudo("a".to_owned()), dest: Operand::Pseudo("b".to_owned()) },
            Instruction::Binary(
                BinaryOperator::Sub,
                Operand::Pseudo("b".to_owned()),
                Operand::Pseudo("a".to_owned()),
            ),
            Instruction::Idiv(Operand::Imm(9)),
        ],
    ));
    let (name, instructions) = legalize(raw).into_function().decompose();
    assert_eq!(name, "f");
    assert_eq!(
        instructions,
        vec![
            Instruction::AllocateStack(8),
            Instruction::Mov { src: Operand::Stack(-4), dest: register(Register::R10) },
            Instruction::Mov { src: register(Register::R10), dest: Operand::Stack(-8) },
            Instruction::Mov { src: Operand::Stack(-8), dest: register(Register::R10) },
            Instruction::Binary(BinaryOperator::Sub, register(Register::R10), Operand::Stack(-4)),
            Instruction::Mov { src: Operand::Imm(9), dest: register(Register::R10) },
            Instruction::Idiv(register(Register::R10)),
        ]
    );
}

#[test]
fn function_name_is_kept() {
    let program = ast::Program::new(ast::Function::new(
        "answer".to_owned(),
        ast::Statement::Return(ast::Expression::Constant(42)),
    ));
    assert_eq!(program.function().name(), "answer");
    assert!(matches!(program.function().body(), ast::Statement::Return(ast::Expression::Constant(42))));
    assert!(compile(&program).starts_with(".global answer\nanswer:\n"));
}
