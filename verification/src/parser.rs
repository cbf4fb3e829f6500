//! The syntax tree of a sequence of tokens.
//!
//! A program is one function, `int name(void) { return expression; }`. In
//! an expression the binary operators associate to the left, and `*`, `/`
//! and `%` bind more tightly than `+` and `-`. [`program`] is the model: a
//! function from the tokens to the tree or to the message of the first
//! error. [`written`] writes a tree down with these rules, and parsing
//! what it writes gives the tree back.

use vstd::prelude::*;
use vstd::string::*;
use crate::ast;
use crate::ast::{BinaryOperator, Expression, Function, Program, Statement, UnaryOperator};
use crate::decimal::{decimal, push_decimal};
use crate::lexer::{lex, token_views, Token, TokenView, Tokenizer};

verus! {

/// The text that `{:?}` gives for `text`: `text` between double quotes,
/// with the characters escaped that Rust escapes in a string.
pub uninterp spec fn quoted(text: Seq<char>) -> Seq<char>;

/// `format!` with `{:?}` on a string. The contract names the result
/// [`quoted`].
#[verifier::external_body]
fn quote(text: &str) -> (result: String)
    ensures
        result@ == quoted(text@),
{
    format!("{:?}", text)
}

/// The text of a token in messages: the name of its kind, and for an
/// identifier or a constant what it holds, in parentheses.
pub open spec fn token_text(token: TokenView) -> Seq<char> {
    match token {
        TokenView::Identifier(name) => "Identifier("@ + quoted(name) + ")"@,
        TokenView::OpenParenthesis => "OpenParenthesis"@,
        TokenView::CloseParenthesis => "CloseParenthesis"@,
        TokenView::OpeningBrace => "OpeningBrace"@,
        TokenView::ClosingBrace => "ClosingBrace"@,
        TokenView::Constant(value) => "Constant("@ + decimal(value as nat) + ")"@,
        TokenView::Semicolon => "Semicolon"@,
        TokenView::KwInt => "KwInt"@,
        TokenView::KwReturn => "KwReturn"@,
        TokenView::KwVoid => "KwVoid"@,
        TokenView::Hyphen => "Hyphen"@,
        TokenView::TwoHyphens => "TwoHyphens"@,
        TokenView::Tilde => "Tilde"@,
        TokenView::Plus => "Plus"@,
        TokenView::Asterisk => "Asterisk"@,
        TokenView::ForwardSlash => "ForwardSlash"@,
        TokenView::Percent => "Percent"@,
    }
}

/// Appends the text of `token` to `out`.
fn push_token_text(out: &mut String, token: &Token)
    ensures
        final(out)@ == old(out)@ + token_text(token@),
{
    match token {
        Token::Identifier(name) => {
            out.append("Identifier(");
            let name = quote(name.as_str());
            out.append(name.as_str());
            out.append(")");
        },
        Token::OpenParenthesis => out.append("OpenParenthesis"),
        Token::CloseParenthesis => out.append("CloseParenthesis"),
        Token::OpeningBrace => out.append("OpeningBrace"),
        Token::ClosingBrace => out.append("ClosingBrace"),
        Token::Constant(value) => {
            out.append("Constant(");
            push_decimal(out, *value);
            out.append(")");
        },
        Token::Semicolon => out.append("Semicolon"),
        Token::KwInt => out.append("KwInt"),
        Token::KwReturn => out.append("KwReturn"),
        Token::KwVoid => out.append("KwVoid"),
        Token::Hyphen => out.append("Hyphen"),
        Token::TwoHyphens => out.append("TwoHyphens"),
        Token::Tilde => out.append("Tilde"),
        Token::Plus => out.append("Plus"),
        Token::Asterisk => out.append("Asterisk"),
        Token::ForwardSlash => out.append("ForwardSlash"),
        Token::Percent => out.append("Percent"),
    }
}

/// The message for a token that cannot stand where it stands.
pub open spec fn unexpected_token_message(token: TokenView) -> Seq<char> {
    "Unexpected token "@ + token_text(token)
}

/// The message for the token `got` where `expected` must stand.
pub open spec fn expected_token_message(expected: TokenView, got: TokenView) -> Seq<char> {
    "Expected token "@ + token_text(expected) + ", got "@ + token_text(got)
}

/// The message for tokens that end where more must follow.
pub open spec fn end_of_file_message() -> Seq<char> {
    "Unexpected end-of-file"@
}

/// What the parser makes of the start of a sequence of tokens: a value or
/// the message of an error, and the tokens that follow.
pub struct Parsed<T> {
    pub result: Result<T, Seq<char>>,
    pub rest: Seq<TokenView>,
}

/// The error `message`, with no token taken.
pub open spec fn failure<T>(message: Seq<char>, rest: Seq<TokenView>) -> Parsed<T> {
    Parsed { result: Err(message), rest }
}

/// The first of `tokens`. Where there is none, the error of the tokenizer,
/// if it stopped at one, or else that of the end of the file.
pub open spec fn peeked(tokens: Seq<TokenView>, error: Option<Seq<char>>) -> Result<
    TokenView,
    Seq<char>,
> {
    if tokens.len() > 0 {
        Ok(tokens[0])
    } else {
        match error {
            Some(message) => Err(message),
            None => Err(end_of_file_message()),
        }
    }
}

/// The token `expected` at the start of `tokens`.
pub open spec fn expected(
    tokens: Seq<TokenView>,
    error: Option<Seq<char>>,
    expected: TokenView,
) -> Parsed<TokenView> {
    match peeked(tokens, error) {
        Err(message) => failure(message, tokens),
        Ok(token) => if token == expected {
            Parsed { result: Ok(token), rest: tokens.skip(1) }
        } else {
            failure(expected_token_message(expected, token), tokens.skip(1))
        },
    }
}

/// The binary operator that a token stands for, if it stands for one.
pub open spec fn binary_operator_of(token: TokenView) -> Option<BinaryOperator> {
    match token {
        TokenView::Plus => Some(BinaryOperator::Add),
        TokenView::Hyphen => Some(BinaryOperator::Sub),
        TokenView::Asterisk => Some(BinaryOperator::Mul),
        TokenView::ForwardSlash => Some(BinaryOperator::Div),
        TokenView::Percent => Some(BinaryOperator::Rem),
        _ => None,
    }
}

/// How tightly a binary operator binds.
pub open spec fn precedence(operator: BinaryOperator) -> nat {
    match operator {
        BinaryOperator::Div => 50,
        BinaryOperator::Add => 45,
        BinaryOperator::Mul => 50,
        BinaryOperator::Sub => 45,
        BinaryOperator::Rem => 50,
    }
}

/// A factor at the start of `tokens`: a constant, a unary operator and
/// its factor, or an expression in parentheses.
pub open spec fn factor(tokens: Seq<TokenView>, error: Option<Seq<char>>) -> Parsed<Expression>
    decreases tokens.len(), 0nat,
{
    match peeked(tokens, error) {
        Err(message) => failure(message, tokens),
        Ok(TokenView::Constant(value)) => Parsed {
            result: Ok(Expression::Constant(value)),
            rest: tokens.skip(1),
        },
        Ok(TokenView::Tilde) => negated(
            UnaryOperator::Complement,
            factor(tokens.skip(1), error),
        ),
        Ok(TokenView::Hyphen) => negated(UnaryOperator::Negate, factor(tokens.skip(1), error)),
        Ok(TokenView::OpenParenthesis) => {
            let inner = expression(tokens.skip(1), error, 0);
            match inner.result {
                Err(message) => failure(message, inner.rest),
                Ok(value) => {
                    let close = expected(inner.rest, error, TokenView::CloseParenthesis);
                    match close.result {
                        Err(message) => failure(message, close.rest),
                        Ok(_) => Parsed { result: Ok(value), rest: close.rest },
                    }
                },
            }
        },
        Ok(token) => failure(unexpected_token_message(token), tokens),
    }
}

/// The unary operator `operator` applied to the factor `operand`.
pub open spec fn negated(operator: UnaryOperator, operand: Parsed<Expression>) -> Parsed<
    Expression,
> {
    match operand.result {
        Err(message) => failure(message, operand.rest),
        Ok(value) => Parsed {
            result: Ok(Expression::Unary(operator, Box::new(value))),
            rest: operand.rest,
        },
    }
}

/// An expression at the start of `tokens` whose binary operators outside
/// parentheses all bind at least as tightly as `least`: a factor, and as
/// many such operators with their right operands as follow.
pub open spec fn expression(
    tokens: Seq<TokenView>,
    error: Option<Seq<char>>,
    least: nat,
) -> Parsed<Expression>
    decreases tokens.len(), 1nat,
{
    let first = factor(tokens, error);
    match first.result {
        Err(message) => failure(message, first.rest),
        Ok(left) => if first.rest.len() < tokens.len() {
            operators(first.rest, error, left, least)
        } else {
            first
        },
    }
}

/// The expression that starts with `left` and goes on with the binary
/// operators at the start of `tokens` that bind at least as tightly as
/// `least`. The right operand of an operator holds only operators that
/// bind more tightly than it, so operators that bind equally associate to
/// the left.
pub open spec fn operators(
    tokens: Seq<TokenView>,
    error: Option<Seq<char>>,
    left: Expression,
    least: nat,
) -> Parsed<Expression>
    decreases tokens.len(), 2nat,
{
    match peeked(tokens, error) {
        Err(message) => failure(message, tokens),
        Ok(token) => match binary_operator_of(token) {
            Some(operator) => if precedence(operator) >= least {
                let right = expression(tokens.skip(1), error, precedence(operator) + 1);
                match right.result {
                    Err(message) => failure(message, right.rest),
                    Ok(value) => if right.rest.len() < tokens.len() {
                        operators(
                            right.rest,
                            error,
                            Expression::Binary(operator, Box::new(left), Box::new(value)),
                            least,
                        )
                    } else {
                        right
                    },
                }
            } else {
                Parsed { result: Ok(left), rest: tokens }
            },
            None => Parsed { result: Ok(left), rest: tokens },
        },
    }
}

/// What follows a successful factor, expression or run of operators is
/// part of what they started from, and a factor or an expression takes at
/// least one token.
pub proof fn lemma_parsing_takes_tokens(
    tokens: Seq<TokenView>,
    error: Option<Seq<char>>,
    left: Expression,
    least: nat,
    rank: nat,
)
    requires
        rank <= 2,
    ensures
        rank == 0 && factor(tokens, error).result is Ok ==> factor(tokens, error).rest.len()
            < tokens.len(),
        rank == 1 && expression(tokens, error, least).result is Ok ==> expression(
            tokens,
            error,
            least,
        ).rest.len() < tokens.len(),
        rank == 2 && operators(tokens, error, left, least).result is Ok ==> operators(
            tokens,
            error,
            left,
            least,
        ).rest.len() <= tokens.len(),
    decreases tokens.len(), rank,
{
    if rank == 0 {
        if tokens.len() > 0 {
            match tokens[0] {
                TokenView::Tilde => {
                    lemma_parsing_takes_tokens(tokens.skip(1), error, left, least, 0);
                },
                TokenView::Hyphen => {
                    lemma_parsing_takes_tokens(tokens.skip(1), error, left, least, 0);
                },
                TokenView::OpenParenthesis => {
                    lemma_parsing_takes_tokens(tokens.skip(1), error, left, 0, 1);
                },
                _ => {},
            }
        }
    } else if rank == 1 {
        lemma_parsing_takes_tokens(tokens, error, left, least, 0);
        let first = factor(tokens, error);
        if first.result is Ok {
            lemma_parsing_takes_tokens(first.rest, error, first.result->Ok_0, least, 2);
        }
    } else {
        if tokens.len() > 0 {
            match binary_operator_of(tokens[0]) {
                Some(operator) => {
                    if precedence(operator) >= least {
                        let right = expression(tokens.skip(1), error, precedence(operator) + 1);
                        lemma_parsing_takes_tokens(
                            tokens.skip(1),
                            error,
                            left,
                            precedence(operator) + 1,
                            1,
                        );
                        if right.result is Ok {
                            lemma_parsing_takes_tokens(
                                right.rest,
                                error,
                                Expression::Binary(
                                    operator,
                                    Box::new(left),
                                    Box::new(right.result->Ok_0),
                                ),
                                least,
                                2,
                            );
                        }
                    }
                },
                None => {},
            }
        }
    }
}

/// A statement at the start of `tokens`: `return`, an expression and a
/// semicolon.
pub open spec fn statement(tokens: Seq<TokenView>, error: Option<Seq<char>>) -> Parsed<Statement> {
    match peeked(tokens, error) {
        Err(message) => failure(message, tokens),
        Ok(TokenView::KwReturn) => {
            let value = expression(tokens.skip(1), error, 0);
            match value.result {
                Err(message) => failure(message, value.rest),
                Ok(returned) => {
                    let end = expected(value.rest, error, TokenView::Semicolon);
                    match end.result {
                        Err(message) => failure(message, end.rest),
                        Ok(_) => Parsed { result: Ok(Statement::Return(returned)), rest: end.rest },
                    }
                },
            }
        },
        Ok(token) => failure(unexpected_token_message(token), tokens.skip(1)),
    }
}

/// The tokens in `wanted`, one after another, at the start of `tokens`.
pub open spec fn expected_all(
    tokens: Seq<TokenView>,
    error: Option<Seq<char>>,
    wanted: Seq<TokenView>,
) -> Parsed<()>
    decreases wanted.len(),
{
    if wanted.len() == 0 {
        Parsed { result: Ok(()), rest: tokens }
    } else {
        let first = expected(tokens, error, wanted[0]);
        match first.result {
            Err(message) => failure(message, first.rest),
            Ok(_) => expected_all(first.rest, error, wanted.skip(1)),
        }
    }
}

/// A function at the start of `tokens`: `int`, a name, `(void)`, and a
/// statement in braces.
pub open spec fn function(tokens: Seq<TokenView>, error: Option<Seq<char>>) -> Parsed<
    ast::FunctionView,
> {
    match peeked(tokens, error) {
        Err(message) => failure(message, tokens),
        Ok(TokenView::KwInt) => match peeked(tokens.skip(1), error) {
            Err(message) => failure(message, tokens),
            Ok(TokenView::Identifier(name)) => {
                let head = expected_all(
                    tokens.skip(2),
                    error,
                    seq![
                        TokenView::OpenParenthesis,
                        TokenView::KwVoid,
                        TokenView::CloseParenthesis,
                        TokenView::OpeningBrace,
                    ],
                );
                match head.result {
                    Err(message) => failure(message, head.rest),
                    Ok(_) => {
                        let body = statement(head.rest, error);
                        match body.result {
                            Err(message) => failure(message, body.rest),
                            Ok(body_statement) => {
                                let close = expected(body.rest, error, TokenView::ClosingBrace);
                                match close.result {
                                    Err(message) => failure(message, close.rest),
                                    Ok(_) => Parsed {
                                        result: Ok(
                                            ast::FunctionView { name, body: body_statement },
                                        ),
                                        rest: close.rest,
                                    },
                                }
                            },
                        }
                    },
                }
            },
            Ok(_) => failure("Expected identifier"@, tokens),
        },
        Ok(_) => failure("Expected token 'int'"@, tokens),
    }
}

/// The program that `tokens` are the whole text of: a function, after
/// which neither a token nor an error of the tokenizer follows.
pub open spec fn program(tokens: Seq<TokenView>, error: Option<Seq<char>>) -> Result<
    ast::ProgramView,
    Seq<char>,
> {
    let only = function(tokens, error);
    match only.result {
        Err(message) => Err(message),
        Ok(parsed) => if only.rest.len() > 0 || error is Some {
            Err("Extra token in the source"@)
        } else {
            Ok(ast::ProgramView { function: parsed })
        },
    }
}

/// The token of a unary operator.
pub open spec fn unary_token(operator: UnaryOperator) -> TokenView {
    match operator {
        UnaryOperator::Complement => TokenView::Tilde,
        UnaryOperator::Negate => TokenView::Hyphen,
    }
}

/// The token of a binary operator.
pub open spec fn binary_token(operator: BinaryOperator) -> TokenView {
    match operator {
        BinaryOperator::Add => TokenView::Plus,
        BinaryOperator::Sub => TokenView::Hyphen,
        BinaryOperator::Mul => TokenView::Asterisk,
        BinaryOperator::Div => TokenView::ForwardSlash,
        BinaryOperator::Rem => TokenView::Percent,
    }
}

/// The level of a factor: above the precedence of every binary operator.
pub open spec fn factor_level() -> nat {
    51
}

/// Tokens that write `value` down where only operators that bind at least
/// as tightly as `least` may stand outside parentheses.
///
/// A binary operator stands between its operands; the left one may hold
/// operators that bind as tightly, the right one only operators that bind
/// more tightly. An expression whose operator binds less tightly than
/// `least` is put in parentheses. A unary operator stands before its
/// operand, which is written as a factor.
pub open spec fn written(value: Expression, least: nat) -> Seq<TokenView>
    decreases value, (if stands_open(value, least) { 0nat } else { 1nat }),
{
    match value {
        Expression::Constant(constant) => seq![TokenView::Constant(constant)],
        Expression::Unary(operator, operand) => seq![unary_token(operator)] + written(
            *operand,
            factor_level(),
        ),
        Expression::Binary(operator, left, right) => if precedence(operator) >= least {
            written(*left, precedence(operator)) + seq![binary_token(operator)] + written(
                *right,
                precedence(operator) + 1,
            )
        } else {
            seq![TokenView::OpenParenthesis] + written(value, 0) + seq![
                TokenView::CloseParenthesis,
            ]
        },
    }
}

/// Whether `value` is written at level `least` without parentheses around
/// it: it is no binary operator, or one that binds at least as tightly as
/// `least`.
pub open spec fn stands_open(value: Expression, least: nat) -> bool {
    value matches Expression::Binary(operator, _, _) ==> precedence(operator) >= least
}

/// Whether `rest` can follow `value`, written at level `least`, without
/// taking part of it as an operand: where `value` is written as a binary
/// operator without parentheses, a token follows, and no operator that
/// binds more tightly than that of `value`.
pub open spec fn can_follow(rest: Seq<TokenView>, value: Expression, least: nat) -> bool {
    value matches Expression::Binary(operator, _, _) ==> precedence(operator) >= least ==> {
        &&& rest.len() > 0
        &&& binary_operator_of(rest[0]) matches Some(next) ==> precedence(next) <= precedence(
            operator,
        )
    }
}

/// Tokens that write a program down: `int`, the name, `(void)`, and in
/// braces `return`, the expression and a semicolon.
pub open spec fn program_tokens(tree: ast::ProgramView) -> Seq<TokenView> {
    seq![
        TokenView::KwInt,
        TokenView::Identifier(tree.function.name),
        TokenView::OpenParenthesis,
        TokenView::KwVoid,
        TokenView::CloseParenthesis,
        TokenView::OpeningBrace,
        TokenView::KwReturn,
    ] + written(tree.function.body->0, 0) + seq![TokenView::Semicolon, TokenView::ClosingBrace]
}

/// Parsing, at a level `low`, tokens that write a value down at a level
/// that is not lower takes these tokens, has the value as the left operand,
/// and goes on with the operators that follow.
pub proof fn lemma_expression_of_written(
    value: Expression,
    least: nat,
    low: nat,
    rest: Seq<TokenView>,
    error: Option<Seq<char>>,
)
    requires
        low <= least <= factor_level(),
        can_follow(rest, value, least),
    ensures
        expression(written(value, least) + rest, error, low) == operators(rest, error, value, low),
    decreases value, (if value is Binary && stands_open(value, least) { 0nat } else { 2nat }),
{
    let tokens = written(value, least) + rest;
    match value {
        Expression::Constant(_) => {
            assert(tokens.skip(1) =~= rest);
        },
        Expression::Unary(operator, operand) => {
            lemma_factor_of_written(value, rest, error);
        },
        Expression::Binary(operator, left, right) => {
            if precedence(operator) >= least {
                let binding = precedence(operator);
                let after_operator = written(*right, binding + 1) + rest;
                let after_left = seq![binary_token(operator)] + after_operator;
                assert(tokens =~= written(*left, binding) + after_left);
                assert(after_left.skip(1) =~= after_operator);
                lemma_expression_of_written(*left, binding, low, after_left, error);
                lemma_expression_of_written(*right, binding + 1, binding + 1, rest, error);
            } else {
                lemma_factor_of_written(value, rest, error);
            }
        },
    }
}

/// Tokens that write a value down as a factor are parsed as a factor with
/// that value, whatever follows them.
pub proof fn lemma_factor_of_written(value: Expression, rest: Seq<TokenView>, error: Option<Seq<char>>)
    ensures
        factor(written(value, factor_level()) + rest, error) == (Parsed { result: Ok(value), rest }),
    decreases value, 1nat,
{
    let tokens = written(value, factor_level()) + rest;
    match value {
        Expression::Constant(_) => {
            assert(tokens.skip(1) =~= rest);
        },
        Expression::Unary(operator, operand) => {
            assert(tokens.skip(1) =~= written(*operand, factor_level()) + rest);
            lemma_factor_of_written(*operand, rest, error);
        },
        Expression::Binary(..) => {
            let closing = seq![TokenView::CloseParenthesis] + rest;
            assert(tokens.skip(1) =~= written(value, 0) + closing);
            lemma_expression_of_written(value, 0, 0, closing, error);
            assert(closing.skip(1) =~= rest);
        },
    }
}

/// Tokens that write a program down are parsed as that program: every
/// syntax tree is the tree of the text that writes it down, with the
/// operators that bind more tightly applied first and operators that bind
/// equally applied from left to right.
pub proof fn lemma_program_of_tokens(tree: ast::ProgramView)
    ensures
        program(program_tokens(tree), None) == Ok::<ast::ProgramView, Seq<char>>(tree),
{
    let tokens = program_tokens(tree);
    let value = tree.function.body->0;
    let end = seq![TokenView::Semicolon, TokenView::ClosingBrace];
    let body = seq![TokenView::KwReturn] + written(value, 0) + end;
    reveal_with_fuel(expected_all, 5);
    assert(tokens.skip(2).skip(1).skip(1).skip(1).skip(1) =~= body);
    assert(body.skip(1) =~= written(value, 0) + end);
    lemma_expression_of_written(value, 0, 0, end, None);
}

/// The tokens of a source text, read one at a time.
pub struct TokenStream {
    tokens: Vec<Token>,
    error: Option<String>,
    position: usize,
}

/// What a [`TokenStream`] holds.
pub struct TokenStreamView {
    /// The tokens that have not been taken.
    pub remaining: Seq<TokenView>,
    /// The error at which the tokenizer stopped, if it did not reach the
    /// end of the text.
    pub error: Option<Seq<char>>,
}

impl View for TokenStream {
    type V = TokenStreamView;

    closed spec fn view(&self) -> TokenStreamView {
        TokenStreamView {
            remaining: token_views(self.tokens@).skip(self.position as int),
            error: match self.error {
                Some(message) => Some(message@),
                None => None,
            },
        }
    }
}

impl TokenStream {
    #[verifier::type_invariant]
    closed spec fn position_is_in_range(&self) -> bool {
        self.position <= self.tokens@.len()
    }

    /// The stream of `tokens`, which end with `error` if it is an error
    /// and with the text if not.
    pub fn new(tokens: Vec<Token>, error: Option<String>) -> (stream: TokenStream)
        ensures
            stream@.remaining == token_views(tokens@),
            stream@.error is Some == error is Some,
            error matches Some(message) ==> stream@.error == Some(message@),
    {
        TokenStream { tokens, error, position: 0 }
    }

    /// The stream of the tokens of `source`.
    pub fn from_source(source: &str) -> (stream: TokenStream)
        ensures
            stream@.remaining == lex(source@).tokens,
            stream@.error == lex(source@).error,
    {
        let (tokens, error) = Tokenizer::new(source).collect();
        TokenStream::new(tokens, error)
    }

    /// The number of tokens that have not been taken.
    fn remaining(&self) -> (count: usize)
        ensures
            count == self@.remaining.len(),
    {
        proof {
            use_type_invariant(self);
        }
        self.tokens.len() - self.position
    }

    /// Whether the tokenizer stopped at an error.
    fn has_error(&self) -> (stopped: bool)
        ensures
            stopped == self@.error is Some,
    {
        self.error.is_some()
    }

    /// The message for a stream with no token left.
    fn exhausted(&self) -> (message: String)
        requires
            self@.remaining.len() == 0,
        ensures
            Err::<TokenView, Seq<char>>(message@) == peeked(self@.remaining, self@.error),
    {
        match &self.error {
            Some(message) => message.clone(),
            None => "Unexpected end-of-file".to_owned(),
        }
    }
}

/// The view of a result whose error is a message.
pub open spec fn token_result_view(result: Result<Token, String>) -> Result<TokenView, Seq<char>> {
    match result {
        Ok(token) => Ok(token@),
        Err(message) => Err(message@),
    }
}

/// The view of a result whose error is a message.
pub open spec fn result_view<T>(result: Result<T, String>) -> Result<T, Seq<char>> {
    match result {
        Ok(value) => Ok(value),
        Err(message) => Err(message@),
    }
}

fn next_token(tokens: &mut TokenStream) -> (token: Result<Token, String>)
    ensures
        token_result_view(token) == peeked(old(tokens)@.remaining, old(tokens)@.error),
        final(tokens)@.error == old(tokens)@.error,
        token is Ok ==> final(tokens)@.remaining == old(tokens)@.remaining.skip(1),
        token is Err ==> final(tokens)@ == old(tokens)@,
{
    proof {
        use_type_invariant(&*tokens);
    }
    if tokens.position < tokens.tokens.len() {
        let token = tokens.tokens[tokens.position].clone();
        tokens.position += 1;
        Ok(token)
    } else {
        Err(tokens.exhausted())
    }
}

fn peek(tokens: &mut TokenStream) -> (token: Result<Token, String>)
    ensures
        token_result_view(token) == peeked(old(tokens)@.remaining, old(tokens)@.error),
        final(tokens)@ == old(tokens)@,
{
    proof {
        use_type_invariant(&*tokens);
    }
    if tokens.position < tokens.tokens.len() {
        let token = tokens.tokens[tokens.position].clone();
        Ok(token)
    } else {
        Err(tokens.exhausted())
    }
}

/// Whether two tokens are the same.
fn same_token(first: &Token, second: &Token) -> (same: bool)
    ensures
        same == (first@ == second@),
{
    match (first, second) {
        (Token::Identifier(a), Token::Identifier(b)) => *a == *b,
        (Token::OpenParenthesis, Token::OpenParenthesis) => true,
        (Token::CloseParenthesis, Token::CloseParenthesis) => true,
        (Token::OpeningBrace, Token::OpeningBrace) => true,
        (Token::ClosingBrace, Token::ClosingBrace) => true,
        (Token::Constant(a), Token::Constant(b)) => *a == *b,
        (Token::Semicolon, Token::Semicolon) => true,
        (Token::KwInt, Token::KwInt) => true,
        (Token::KwReturn, Token::KwReturn) => true,
        (Token::KwVoid, Token::KwVoid) => true,
        (Token::Hyphen, Token::Hyphen) => true,
        (Token::TwoHyphens, Token::TwoHyphens) => true,
        (Token::Tilde, Token::Tilde) => true,
        (Token::Plus, Token::Plus) => true,
        (Token::Asterisk, Token::Asterisk) => true,
        (Token::ForwardSlash, Token::ForwardSlash) => true,
        (Token::Percent, Token::Percent) => true,
        _ => false,
    }
}

/// Takes the next token, which must be `wanted`.
fn expect_token(tokens: &mut TokenStream, wanted: Token) -> (token: Result<Token, String>)
    ensures
        token_result_view(token) == expected(
            old(tokens)@.remaining,
            old(tokens)@.error,
            wanted@,
        ).result,
        final(tokens)@.error == old(tokens)@.error,
        token is Ok ==> final(tokens)@.remaining == expected(
            old(tokens)@.remaining,
            old(tokens)@.error,
            wanted@,
        ).rest,
{
    let token = next_token(tokens)?;
    if !same_token(&wanted, &token) {
        let mut message = "Expected token ".to_owned();
        push_token_text(&mut message, &wanted);
        message.append(", got ");
        push_token_text(&mut message, &token);
        return Err(message);
    }
    Ok(token)
}

/// The message for a token that cannot stand where it stands.
fn unexpected_token(token: &Token) -> (message: String)
    ensures
        message@ == unexpected_token_message(token@),
{
    let mut message = "Unexpected token ".to_owned();
    push_token_text(&mut message, token);
    message
}

/// The syntax tree of the program that `tokens` hold from their start to
/// their end, or the message of the first error.
pub fn parse(tokens: &mut TokenStream) -> (parsed: Result<Program, String>)
    ensures
        match parsed {
            Ok(tree) => program(old(tokens)@.remaining, old(tokens)@.error) == Ok::<
                ast::ProgramView,
                Seq<char>,
            >(tree@),
            Err(message) => program(old(tokens)@.remaining, old(tokens)@.error) == Err::<
                ast::ProgramView,
                Seq<char>,
            >(message@),
        },
{
    let function = parse_function(tokens)?;
    if tokens.remaining() > 0 || tokens.has_error() {
        return Err("Extra token in the source".to_owned());
    }
    Ok(Program::new(function))
}

fn parse_function(tokens: &mut TokenStream) -> (parsed: Result<Function, String>)
    ensures
        final(tokens)@.error == old(tokens)@.error,
        match parsed {
            Ok(tree) => {
                &&& function(old(tokens)@.remaining, old(tokens)@.error).result == Ok::<
                    ast::FunctionView,
                    Seq<char>,
                >(tree@)
                &&& final(tokens)@.remaining == function(
                    old(tokens)@.remaining,
                    old(tokens)@.error,
                ).rest
            },
            Err(message) => function(old(tokens)@.remaining, old(tokens)@.error).result == Err::<
                ast::FunctionView,
                Seq<char>,
            >(message@),
        },
{
    let ghost start = tokens@.remaining;
    let first = next_token(tokens)?;
    if !same_token(&Token::KwInt, &first) {
        return Err("Expected token 'int'".to_owned());
    }
    let name = if let Token::Identifier(name) = next_token(tokens)? {
        name
    } else {
        return Err("Expected identifier".to_owned());
    };
    proof {
        assert(start.skip(1).skip(1) =~= start.skip(2));
        reveal_with_fuel(expected_all, 5);
    }
    expect_token(tokens, Token::OpenParenthesis)?;
    expect_token(tokens, Token::KwVoid)?;
    expect_token(tokens, Token::CloseParenthesis)?;
    expect_token(tokens, Token::OpeningBrace)?;

    let body = parse_statement(tokens)?;

    expect_token(tokens, Token::ClosingBrace)?;

    Ok(Function::new(name, body))
}

fn parse_statement(tokens: &mut TokenStream) -> (parsed: Result<Statement, String>)
    ensures
        final(tokens)@.error == old(tokens)@.error,
        result_view(parsed) == statement(old(tokens)@.remaining, old(tokens)@.error).result,
        parsed is Ok ==> final(tokens)@.remaining == statement(
            old(tokens)@.remaining,
            old(tokens)@.error,
        ).rest,
{
    let statement = match next_token(tokens)? {
        Token::KwReturn => {
            let expression = parse_expression(tokens, 0)?;
            Statement::Return(expression)
        },
        token => {
            return Err(unexpected_token(&token));
        },
    };

    expect_token(tokens, Token::Semicolon)?;

    Ok(statement)
}

fn parse_factor(tokens: &mut TokenStream) -> (parsed: Result<Expression, String>)
    ensures
        final(tokens)@.error == old(tokens)@.error,
        result_view(parsed) == factor(old(tokens)@.remaining, old(tokens)@.error).result,
        parsed is Ok ==> final(tokens)@.remaining == factor(
            old(tokens)@.remaining,
            old(tokens)@.error,
        ).rest,
    decreases old(tokens)@.remaining.len(), 0nat,
{
    match peek(tokens)? {
        Token::Constant(_) => {
            let token = next_token(tokens)?;
            if let Token::Constant(value) = token {
                Ok(Expression::Constant(value))
            } else {
                unreached()
            }
        },
        Token::Tilde | Token::Hyphen => {
            let operator = parse_unary_operator(tokens)?;
            let expression = parse_factor(tokens)?;

            Ok(Expression::Unary(operator, Box::new(expression)))
        },
        Token::OpenParenthesis => {
            expect_token(tokens, Token::OpenParenthesis)?;
            let expression = parse_expression(tokens, 0)?;
            expect_token(tokens, Token::CloseParenthesis)?;

            Ok(expression)
        },
        token => Err(unexpected_token(&token)),
    }
}

fn parse_expression(tokens: &mut TokenStream, min_precedence: usize) -> (parsed: Result<
    Expression,
    String,
>)
    requires
        min_precedence <= 51,
    ensures
        final(tokens)@.error == old(tokens)@.error,
        result_view(parsed) == expression(
            old(tokens)@.remaining,
            old(tokens)@.error,
            min_precedence as nat,
        ).result,
        parsed is Ok ==> final(tokens)@.remaining == expression(
            old(tokens)@.remaining,
            old(tokens)@.error,
            min_precedence as nat,
        ).rest,
    decreases old(tokens)@.remaining.len(), 1nat,
{
    let ghost start = tokens@.remaining;
    let ghost error = tokens@.error;
    let mut left = parse_factor(tokens)?;
    proof {
        lemma_parsing_takes_tokens(start, error, left, min_precedence as nat, 0);
    }
    loop
        invariant
            min_precedence <= 51,
            start == old(tokens)@.remaining,
            error == old(tokens)@.error,
            tokens@.error == error,
            tokens@.remaining.len() < start.len(),
            expression(start, error, min_precedence as nat) == operators(
                tokens@.remaining,
                error,
                left,
                min_precedence as nat,
            ),
        decreases tokens@.remaining.len(),
    {
        let ghost here = tokens@.remaining;
        let ope = peek_is_binary_operator(tokens)?;
        let climbs = match &ope {
            Some(operator) => binary_operator_precedence(operator) >= min_precedence,
            None => false,
        };
        if !climbs {
            return Ok(left);
        }
        let operator = parse_binary_operator(tokens)?;
        let right = parse_expression(tokens, binary_operator_precedence(&operator) + 1)?;
        proof {
            lemma_parsing_takes_tokens(
                here.skip(1),
                error,
                left,
                precedence(operator) + 1,
                1,
            );
        }
        left = Expression::Binary(operator, Box::new(left), Box::new(right));
    }
}

fn peek_is_binary_operator(tokens: &mut TokenStream) -> (operator: Result<
    Option<BinaryOperator>,
    String,
>)
    ensures
        final(tokens)@ == old(tokens)@,
        match operator {
            Ok(found) => peeked(old(tokens)@.remaining, old(tokens)@.error) matches Ok(token)
                && found == binary_operator_of(token),
            Err(message) => peeked(old(tokens)@.remaining, old(tokens)@.error) == Err::<
                TokenView,
                Seq<char>,
            >(message@),
        },
{
    let token = peek(tokens)?;
    match token {
        Token::Plus => Ok(Some(BinaryOperator::Add)),
        Token::Hyphen => Ok(Some(BinaryOperator::Sub)),
        Token::Asterisk => Ok(Some(BinaryOperator::Mul)),
        Token::ForwardSlash => Ok(Some(BinaryOperator::Div)),
        Token::Percent => Ok(Some(BinaryOperator::Rem)),
        _ => Ok(None),
    }
}

fn parse_binary_operator(tokens: &mut TokenStream) -> (operator: Result<BinaryOperator, String>)
    ensures
        final(tokens)@.error == old(tokens)@.error,
        match operator {
            Ok(found) => peeked(old(tokens)@.remaining, old(tokens)@.error) matches Ok(token)
                && binary_operator_of(token) == Some(found) && final(tokens)@.remaining == old(
                tokens,
            )@.remaining.skip(1),
            Err(message) => match peeked(old(tokens)@.remaining, old(tokens)@.error) {
                Ok(token) => binary_operator_of(token) is None && message@
                    == "Expected binary operator"@,
                Err(stopped) => message@ == stopped,
            },
        },
{
    match next_token(tokens)? {
        Token::Plus => Ok(BinaryOperator::Add),
        Token::Hyphen => Ok(BinaryOperator::Sub),
        Token::Asterisk => Ok(BinaryOperator::Mul),
        Token::ForwardSlash => Ok(BinaryOperator::Div),
        Token::Percent => Ok(BinaryOperator::Rem),
        _ => Err("Expected binary operator".to_owned()),
    }
}

fn parse_unary_operator(tokens: &mut TokenStream) -> (operator: Result<UnaryOperator, String>)
    ensures
        final(tokens)@.error == old(tokens)@.error,
        match operator {
            Ok(found) => {
                &&& final(tokens)@.remaining == old(tokens)@.remaining.skip(1)
                &&& peeked(old(tokens)@.remaining, old(tokens)@.error) == Ok::<
                    TokenView,
                    Seq<char>,
                >(
                    match found {
                        UnaryOperator::Negate => TokenView::Hyphen,
                        UnaryOperator::Complement => TokenView::Tilde,
                    },
                )
            },
            Err(message) => match peeked(old(tokens)@.remaining, old(tokens)@.error) {
                Ok(token) => token != TokenView::Hyphen && token != TokenView::Tilde && message@
                    == "Expected unary operator ('~' or '-'), got "@ + token_text(token),
                Err(stopped) => message@ == stopped,
            },
        },
{
    match next_token(tokens)? {
        Token::Hyphen => Ok(UnaryOperator::Negate),
        Token::Tilde => Ok(UnaryOperator::Complement),
        token => {
            let mut message = "Expected unary operator ('~' or '-'), got ".to_owned();
            push_token_text(&mut message, &token);
            Err(message)
        },
    }
}

/// How tightly a binary operator binds.
pub fn binary_operator_precedence(binary_operator: &BinaryOperator) -> (binding: usize)
    ensures
        binding == precedence(*binary_operator),
{
    match binary_operator {
        BinaryOperator::Div => 50,
        BinaryOperator::Add => 45,
        BinaryOperator::Mul => 50,
        BinaryOperator::Sub => 45,
        BinaryOperator::Rem => 50,
    }
}

} // verus!
