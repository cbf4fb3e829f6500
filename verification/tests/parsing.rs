use minic::ast::{BinaryOperator, Expression, Statement, UnaryOperator};
use minic::lexer::Token;
use minic::parser::{binary_operator_precedence, parse, TokenStream};

fn parse_source(source: &str) -> Result<minic::ast::Program, String> {
    parse(&mut TokenStream::from_source(source))
}

fn expression_of(text: &str) -> Expression {
    let source = format!("int main(void) {{ return {}; }}", text);
    let program = parse_source(&source).unwrap();
    assert_eq!(program.function().name(), "main");
    match program.function().body() {
        Statement::Return(expression) => clone(expression),
    }
}

fn clone(expression: &Expression) -> Expression {
    match expression {
        Expression::Constant(value) => Expression::Constant(*value),
        Expression::Unary(operator, operand) => Expression::Unary(*operator, Box::new(clone(operand))),
        Expression::Binary(operator, left, right) => {
            Expression::Binary(*operator, Box::new(clone(left)), Box::new(clone(right)))
        }
    }
}

fn error_of(source: &str) -> String {
    match parse_source(source) {
        Ok(program) => panic!("parsed {:?}", program),
        Err(message) => message,
    }
}

fn constant(value: u64) -> Box<Expression> {
    Box::new(Expression::Constant(value))
}

fn binary(operator: BinaryOperator, left: Expression, right: Expression) -> Expression {
    Expression::Binary(operator, Box::new(left), Box::new(right))
}

#[test]
fn return_constant() {
    let program = parse_source("int main(void) {\n  return 2;\n}").unwrap();
    assert_eq!(program.function().name(), "main");
    assert_eq!(program.function().body(), &Statement::Return(Expression::Constant(2)));
}

#[test]
fn function_name_is_the_identifier() {
    let program = parse_source("int answer_42(void){return 42;}").unwrap();
    assert_eq!(program.function().name(), "answer_42");
}

#[test]
fn unary_operators_nest() {
    assert_eq!(
        expression_of("-~-5"),
        Expression::Unary(
            UnaryOperator::Negate,
            Box::new(Expression::Unary(
                UnaryOperator::Complement,
                Box::new(Expression::Unary(UnaryOperator::Negate, constant(5)))
            ))
        )
    );
}

#[test]
fn multiplication_binds_more_tightly_than_addition() {
    assert_eq!(
        expression_of("3 + 4 * 2"),
        binary(
            BinaryOperator::Add,
            Expression::Constant(3),
            binary(BinaryOperator::Mul, Expression::Constant(4), Expression::Constant(2))
        )
    );
    assert_eq!(
        expression_of("3 * 4 + 2"),
        binary(
            BinaryOperator::Add,
            binary(BinaryOperator::Mul, Expression::Constant(3), Expression::Constant(4)),
            Expression::Constant(2)
        )
    );
}

#[test]
fn equal_operators_associate_to_the_left() {
    assert_eq!(
        expression_of("1 - 2 - 3"),
        binary(
            BinaryOperator::Sub,
            binary(BinaryOperator::Sub, Expression::Constant(1), Expression::Constant(2)),
            Expression::Constant(3)
        )
    );
    assert_eq!(
        expression_of("8 / 4 % 3 * 2"),
        binary(
            BinaryOperator::Mul,
            binary(
                BinaryOperator::Rem,
                binary(BinaryOperator::Div, Expression::Constant(8), Expression::Constant(4)),
                Expression::Constant(3)
            ),
            Expression::Constant(2)
        )
    );
}

#[test]
fn parentheses_group() {
    assert_eq!(
        expression_of("(3 + 4) * 2"),
        binary(
            BinaryOperator::Mul,
            binary(BinaryOperator::Add, Expression::Constant(3), Expression::Constant(4)),
            Expression::Constant(2)
        )
    );
    assert_eq!(expression_of("((7))"), Expression::Constant(7));
    assert_eq!(
        expression_of("-(1 + 2)"),
        Expression::Unary(
            UnaryOperator::Negate,
            Box::new(binary(BinaryOperator::Add, Expression::Constant(1), Expression::Constant(2)))
        )
    );
}

#[test]
fn parentheses_keep_a_right_operand_together() {
    assert_eq!(
        expression_of("1 - (2 - 3)"),
        binary(
            BinaryOperator::Sub,
            Expression::Constant(1),
            binary(BinaryOperator::Sub, Expression::Constant(2), Expression::Constant(3))
        )
    );
    assert_eq!(
        expression_of("8 / (4 / 2)"),
        binary(
            BinaryOperator::Div,
            Expression::Constant(8),
            binary(BinaryOperator::Div, Expression::Constant(4), Expression::Constant(2))
        )
    );
    assert_eq!(
        expression_of("~(1 + 2) * 3"),
        binary(
            BinaryOperator::Mul,
            Expression::Unary(
                UnaryOperator::Complement,
                Box::new(binary(BinaryOperator::Add, Expression::Constant(1), Expression::Constant(2)))
            ),
            Expression::Constant(3)
        )
    );
}

#[test]
fn unary_binds_more_tightly_than_binary() {
    assert_eq!(
        expression_of("-1 - -2"),
        binary(
            BinaryOperator::Sub,
            Expression::Unary(UnaryOperator::Negate, constant(1)),
            Expression::Unary(UnaryOperator::Negate, constant(2))
        )
    );
    assert_eq!(
        expression_of("~2 * 3"),
        binary(
            BinaryOperator::Mul,
            Expression::Unary(UnaryOperator::Complement, constant(2)),
            Expression::Constant(3)
        )
    );
}

#[test]
fn precedences() {
    assert_eq!(binary_operator_precedence(&BinaryOperator::Add), 45);
    assert_eq!(binary_operator_precedence(&BinaryOperator::Sub), 45);
    assert_eq!(binary_operator_precedence(&BinaryOperator::Mul), 50);
    assert_eq!(binary_operator_precedence(&BinaryOperator::Div), 50);
    assert_eq!(binary_operator_precedence(&BinaryOperator::Rem), 50);
}

#[test]
fn missing_int() {
    assert_eq!(error_of("main(void) { return 2; }"), "Expected token 'int'");
    assert_eq!(error_of("return 2;"), "Expected token 'int'");
}

#[test]
fn missing_name() {
    assert_eq!(error_of("int (void) { return 2; }"), "Expected identifier");
    assert_eq!(error_of("int int(void) { return 2; }"), "Expected identifier");
}

#[test]
fn wrong_token_in_the_head() {
    assert_eq!(error_of("int main{void) { return 2; }"), "Expected token OpenParenthesis, got OpeningBrace");
    assert_eq!(error_of("int main(int) { return 2; }"), "Expected token KwVoid, got KwInt");
    assert_eq!(error_of("int main(void { return 2; }"), "Expected token CloseParenthesis, got OpeningBrace");
    assert_eq!(error_of("int main(void) return 2; }"), "Expected token OpeningBrace, got KwReturn");
    assert_eq!(
        error_of("int main(x) { return 2; }"),
        "Expected token KwVoid, got Identifier(\"x\")"
    );
    assert_eq!(error_of("int main(7) { return 2; }"), "Expected token KwVoid, got Constant(7)");
}

#[test]
fn wrong_statement() {
    assert_eq!(error_of("int main(void) { 2; }"), "Unexpected token Constant(2)");
    assert_eq!(error_of("int main(void) { foo; }"), "Unexpected token Identifier(\"foo\")");
    assert_eq!(error_of("int main(void) { }"), "Unexpected token ClosingBrace");
}

#[test]
fn wrong_expression() {
    assert_eq!(error_of("int main(void) { return ; }"), "Unexpected token Semicolon");
    assert_eq!(error_of("int main(void) { return 1 + ; }"), "Unexpected token Semicolon");
    assert_eq!(error_of("int main(void) { return --1; }"), "Unexpected token TwoHyphens");
    assert_eq!(error_of("int main(void) { return x; }"), "Unexpected token Identifier(\"x\")");
    assert_eq!(error_of("int main(void) { return (1; }"), "Expected token CloseParenthesis, got Semicolon");
    assert_eq!(error_of("int main(void) { return 1 2; }"), "Expected token Semicolon, got Constant(2)");
    assert_eq!(error_of("int main(void) { return 2 }"), "Expected token Semicolon, got ClosingBrace");
}

#[test]
fn end_of_file() {
    assert_eq!(error_of(""), "Unexpected end-of-file");
    assert_eq!(error_of("int"), "Unexpected end-of-file");
    assert_eq!(error_of("int main(void) { return 2"), "Unexpected end-of-file");
    assert_eq!(error_of("int main(void) { return 2;"), "Unexpected end-of-file");
    assert_eq!(error_of("int main(void) { return -"), "Unexpected end-of-file");
}

#[test]
fn extra_tokens() {
    assert_eq!(error_of("int main(void) { return 2; } int"), "Extra token in the source");
    assert_eq!(error_of("int main(void) { return 2; } }"), "Extra token in the source");
    assert_eq!(error_of("int main(void) { return 2; } @"), "Extra token in the source");
}

#[test]
fn error_of_the_tokenizer_comes_where_its_token_is_asked_for() {
    assert_eq!(error_of("int main(void) { return 2 @; }"), "Unknown token");
    assert_eq!(error_of("int @"), "Unknown token");
    assert_eq!(error_of("main @"), "Expected token 'int'");
    assert_eq!(error_of("int main(void) { return 99999999999999999999; }"), "Invalid constant");
}

#[test]
fn stream_of_given_tokens() {
    let tokens = vec![
        Token::KwInt,
        Token::Identifier("f".to_owned()),
        Token::OpenParenthesis,
        Token::KwVoid,
        Token::CloseParenthesis,
        Token::OpeningBrace,
        Token::KwReturn,
        Token::Constant(1),
        Token::Semicolon,
        Token::ClosingBrace,
    ];
    let program = parse(&mut TokenStream::new(tokens, None)).unwrap();
    assert_eq!(program.function().name(), "f");
    assert_eq!(program.function().body(), &Statement::Return(Expression::Constant(1)));
    let stopped = parse(&mut TokenStream::new(vec![Token::KwInt], Some("stopped".to_owned())));
    assert_eq!(stopped.err(), Some("stopped".to_owned()));
}

#[test]
fn identifier_in_a_message_is_quoted_as_a_string() {
    let tokens = vec![Token::Identifier("a\"b\\c\n".to_owned())];
    let message = parse(&mut TokenStream::new(tokens, None)).err().unwrap();
    assert_eq!(message, "Expected token 'int'");
    let tokens = vec![
        Token::KwInt,
        Token::Identifier("f".to_owned()),
        Token::Identifier("a\"b\\c\n".to_owned()),
    ];
    let message = parse(&mut TokenStream::new(tokens, None)).err().unwrap();
    assert_eq!(message, "Expected token OpenParenthesis, got Identifier(\"a\\\"b\\\\c\\n\")");
    assert_eq!(message, format!("Expected token OpenParenthesis, got {:?}", Token::Identifier("a\"b\\c\n".to_owned())));
}

#[test]
fn source_to_text() {
    let program = parse_source("int main(void) { return 7 % 2; }").unwrap();
    assert!(minic::pipeline::program_fits(&program));
    assert_eq!(
        minic::pipeline::compile(&program),
        ".global _main\n_main:\n  pushq %rbp\n  movq %rsp, %rbp\n  subq $4, %rsp\n  movl $7, %eax\n  cdq\n  movl $2, %r10d\n  idivl %r10d\n  movl %edx, -4(%rbp)\n  movl -4(%rbp), %eax\n  movq %rbp, %rsp\n  popq %rbp\n  ret\n\n"
    );
}
