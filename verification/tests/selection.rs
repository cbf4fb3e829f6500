use minic::assembly::{BinaryOperator, Instruction, Operand, Register, UnaryOperator};
use minic::ast;
use minic::codegen::codegen;
use minic::tacky::TackEmitter;

fn constant(value: u64) -> Box<ast::Expression> {
    Box::new(ast::Expression::Constant(value))
}

fn select(expression: ast::Expression) -> Vec<Instruction> {
    let program =
        ast::Program::new(ast::Function::new("f".to_owned(), ast::Statement::Return(expression)));
    let ir = TackEmitter::new().emit_program(&program);
    let selected = codegen(&ir);
    assert_eq!(selected.function().name(), "f");
    selected.into_function().decompose().1
}

fn pseudo(name: &str) -> Operand {
    Operand::Pseudo(name.to_owned())
}

fn register(register: Register) -> Operand {
    Operand::Register(register)
}

#[test]
fn return_moves_into_ax() {
    assert_eq!(
        select(ast::Expression::Constant(2)),
        vec![Instruction::Mov { src: Operand::Imm(2), dest: register(Register::AX) }, Instruction::Ret]
    );
}

#[test]
fn unary_copies_then_works_in_place() {
    assert_eq!(
        select(ast::Expression::Unary(ast::UnaryOperator::Negate, constant(5))),
        vec![
            Instruction::Mov { src: Operand::Imm(5), dest: pseudo("tmp.0") },
            Instruction::Unary(UnaryOperator::Neg, pseudo("tmp.0")),
            Instruction::Mov { src: pseudo("tmp.0"), dest: register(Register::AX) },
            Instruction::Ret,
        ]
    );
    assert_eq!(
        select(ast::Expression::Unary(ast::UnaryOperator::Complement, constant(5)))[1],
        Instruction::Unary(UnaryOperator::Not, pseudo("tmp.0"))
    );
}

#[test]
fn addition_subtraction_multiplication_work_in_place() {
    let cases = [
        (ast::BinaryOperator::Add, BinaryOperator::Add),
        (ast::BinaryOperator::Sub, BinaryOperator::Sub),
        (ast::BinaryOperator::Mul, BinaryOperator::Mul),
    ];
    for (source, selected) in cases {
        assert_eq!(
            select(ast::Expression::Binary(source, constant(3), constant(4))),
            vec![
                Instruction::Mov { src: Operand::Imm(3), dest: pseudo("tmp.0") },
                Instruction::Binary(selected, Operand::Imm(4), pseudo("tmp.0")),
                Instruction::Mov { src: pseudo("tmp.0"), dest: register(Register::AX) },
                Instruction::Ret,
            ]
        );
    }
}

#[test]
fn division_reads_the_quotient_from_ax() {
    assert_eq!(
        select(ast::Expression::Binary(ast::BinaryOperator::Div, constant(7), constant(2))),
        vec![
            Instruction::Mov { src: Operand::Imm(7), dest: register(Register::AX) },
            Instruction::Cdq,
            Instruction::Idiv(Operand::Imm(2)),
            Instruction::Mov { src: register(Register::AX), dest: pseudo("tmp.0") },
            Instruction::Mov { src: pseudo("tmp.0"), dest: register(Register::AX) },
            Instruction::Ret,
        ]
    );
}

#[test]
fn remainder_reads_from_dx() {
    assert_eq!(
        select(ast::Expression::Binary(ast::BinaryOperator::Rem, constant(7), constant(2))),
        vec![
            Instruction::Mov { src: Operand::Imm(7), dest: register(Register::AX) },
            Instruction::Cdq,
            Instruction::Idiv(Operand::Imm(2)),
            Instruction::Mov { src: register(Register::DX), dest: pseudo("tmp.0") },
            Instruction::Mov { src: pseudo("tmp.0"), dest: register(Register::AX) },
            Instruction::Ret,
        ]
    );
}

#[test]
fn selection_keeps_the_order_of_instructions() {
    // 3 + 4 * 2
    let product = ast::Expression::Binary(ast::BinaryOperator::Mul, constant(4), constant(2));
    assert_eq!(
        select(ast::Expression::Binary(ast::BinaryOperator::Add, constant(3), Box::new(product))),
        vec![
            Instruction::Mov { src: Operand::Imm(4), dest: pseudo("tmp.0") },
            Instruction::Binary(BinaryOperator::Mul, Operand::Imm(2), pseudo("tmp.0")),
            Instruction::Mov { src: Operand::Imm(3), dest: pseudo("tmp.1") },
            Instruction::Binary(BinaryOperator::Add, pseudo("tmp.0"), pseudo("tmp.1")),
            Instruction::Mov { src: pseudo("tmp.1"), dest: register(Register::AX) },
            Instruction::Ret,
        ]
    );
}
