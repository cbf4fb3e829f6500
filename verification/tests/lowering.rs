use minic::ast;
use minic::tacky::{BinaryOperator, Instruction, TackEmitter, UnaryOperator, Value, VariableNameGenerator};

fn constant(value: u64) -> Box<ast::Expression> {
    Box::new(ast::Expression::Constant(value))
}

fn program_returning(expression: ast::Expression) -> ast::Program {
    ast::Program::new(ast::Function::new("main".to_owned(), ast::Statement::Return(expression)))
}

fn var(name: &str) -> Value {
    Value::Var { identifier: name.to_owned() }
}

#[test]
fn constant_needs_no_instruction() {
    let program = program_returning(ast::Expression::Constant(2));
    let ir = TackEmitter::new().emit_program(&program);
    assert_eq!(ir.function().instructions(), &vec![Instruction::Return { val: Value::Constant(2) }]);
}

#[test]
fn negate_constant_uses_one_temporary() {
    let program = program_returning(ast::Expression::Unary(ast::UnaryOperator::Negate, constant(5)));
    let mut emitter = TackEmitter::new();
    let ir = emitter.emit_program(&program);
    let expected = vec![
        Instruction::Unary { operator: UnaryOperator::Negate, src: Value::Constant(5), dst: var("tmp.0") },
        Instruction::Return { val: var("tmp.0") },
    ];
    assert_eq!(ir.function().instructions(), &expected);
    assert_eq!(ir.function().identifier(), "main");
}

#[test]
fn nested_unary_lowers_operand_first() {
    let inner = ast::Expression::Unary(ast::UnaryOperator::Negate, constant(8));
    let program = program_returning(ast::Expression::Unary(ast::UnaryOperator::Complement, Box::new(inner)));
    let ir = TackEmitter::new().emit_program(&program);
    let expected = vec![
        Instruction::Unary { operator: UnaryOperator::Negate, src: Value::Constant(8), dst: var("tmp.0") },
        Instruction::Unary { operator: UnaryOperator::Complement, src: var("tmp.0"), dst: var("tmp.1") },
        Instruction::Return { val: var("tmp.1") },
    ];
    assert_eq!(ir.function().instructions(), &expected);
}

#[test]
fn binary_lowers_left_before_right() {
    // (1 - 2) * (3 + 4)
    let left = ast::Expression::Binary(ast::BinaryOperator::Sub, constant(1), constant(2));
    let right = ast::Expression::Binary(ast::BinaryOperator::Add, constant(3), constant(4));
    let program = program_returning(ast::Expression::Binary(
        ast::BinaryOperator::Mul,
        Box::new(left),
        Box::new(right),
    ));
    let ir = TackEmitter::new().emit_program(&program);
    let expected = vec![
        Instruction::Binary {
            operator: BinaryOperator::Subtract,
            lhs: Value::Constant(1),
            rhs: Value::Constant(2),
            dst: var("tmp.0"),
        },
        Instruction::Binary {
            operator: BinaryOperator::Add,
            lhs: Value::Constant(3),
            rhs: Value::Constant(4),
            dst: var("tmp.1"),
        },
        Instruction::Binary {
            operator: BinaryOperator::Multiply,
            lhs: var("tmp.0"),
            rhs: var("tmp.1"),
            dst: var("tmp.2"),
        },
        Instruction::Return { val: var("tmp.2") },
    ];
    assert_eq!(ir.function().instructions(), &expected);
}

#[test]
fn division_and_remainder_keep_their_operators() {
    let program = program_returning(ast::Expression::Binary(
        ast::BinaryOperator::Rem,
        Box::new(ast::Expression::Binary(ast::BinaryOperator::Div, constant(7), constant(2))),
        constant(3),
    ));
    let ir = TackEmitter::new().emit_program(&program);
    let expected = vec![
        Instruction::Binary {
            operator: BinaryOperator::Divide,
            lhs: Value::Constant(7),
            rhs: Value::Constant(2),
            dst: var("tmp.0"),
        },
        Instruction::Binary {
            operator: BinaryOperator::Remainder,
            lhs: var("tmp.0"),
            rhs: Value::Constant(3),
            dst: var("tmp.1"),
        },
        Instruction::Return { val: var("tmp.1") },
    ];
    assert_eq!(ir.function().instructions(), &expected);
}

#[test]
fn emitter_goes_on_counting_between_programs() {
    let mut emitter = TackEmitter::new();
    let first = program_returning(ast::Expression::Unary(ast::UnaryOperator::Negate, constant(1)));
    let second = program_returning(ast::Expression::Unary(ast::UnaryOperator::Negate, constant(1)));
    emitter.emit_program(&first);
    let ir = emitter.emit_program(&second);
    assert_eq!(ir.function().instructions()[1], Instruction::Return { val: var("tmp.1") });
}

#[test]
fn temporaries_are_numbered_in_decimal() {
    let mut generator = VariableNameGenerator::new();
    let mut names = Vec::new();
    for _ in 0..12 {
        names.push(generator.make_temporary());
    }
    assert_eq!(names[0], "tmp.0");
    assert_eq!(names[9], "tmp.9");
    assert_eq!(names[10], "tmp.10");
    assert_eq!(names[11], "tmp.11");
    for i in 0..names.len() {
        for j in 0..i {
            assert_ne!(names[i], names[j]);
        }
    }
}

#[test]
fn every_destination_is_a_fresh_variable() {
    let mut expression = ast::Expression::Constant(1);
    for i in 0..15 {
        expression = ast::Expression::Binary(ast::BinaryOperator::Add, Box::new(expression), constant(i));
    }
    let ir = TackEmitter::new().emit_program(&program_returning(expression));
    let instructions = ir.function().instructions();
    assert_eq!(instructions.len(), 16);
    for (at, instruction) in instructions.iter().enumerate() {
        match instruction {
            Instruction::Binary { dst, .. } => assert_eq!(dst, &var(&format!("tmp.{}", at))),
            Instruction::Return { val } => {
                assert_eq!(at, 15);
                assert_eq!(val, &var("tmp.14"));
            }
            Instruction::Unary { .. } => panic!("no unary operator was lowered"),
        }
    }
}

#[test]
fn operators_within_counts_operators() {
    let expression = ast::Expression::Binary(
        ast::BinaryOperator::Add,
        constant(3),
        Box::new(ast::Expression::Unary(ast::UnaryOperator::Negate, constant(4))),
    );
    assert_eq!(expression.operators_within(5), Some(3));
    assert_eq!(expression.operators_within(2), Some(0));
    assert_eq!(expression.operators_within(1), None);
    assert_eq!(ast::Expression::Constant(9).operators_within(0), Some(0));
}
