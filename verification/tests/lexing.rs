use minic::lexer::{parse_constant, Token, Tokenizer};

fn tokens_of(source: &str) -> Vec<Token> {
    let (tokens, error) = Tokenizer::new(source).collect();
    assert_eq!(error, None);
    tokens
}

fn identifier(name: &str) -> Token {
    Token::Identifier(name.to_owned())
}

#[test]
fn whole_function() {
    assert_eq!(
        tokens_of("int main(void) {\n    return 2;\n}\n"),
        vec![
            Token::KwInt,
            identifier("main"),
            Token::OpenParenthesis,
            Token::KwVoid,
            Token::CloseParenthesis,
            Token::OpeningBrace,
            Token::KwReturn,
            Token::Constant(2),
            Token::Semicolon,
            Token::ClosingBrace,
        ]
    );
}

#[test]
fn operators() {
    assert_eq!(
        tokens_of("~-+*/%--- ( )"),
        vec![
            Token::Tilde,
            Token::Hyphen,
            Token::Plus,
            Token::Asterisk,
            Token::ForwardSlash,
            Token::Percent,
            Token::TwoHyphens,
            Token::Hyphen,
            Token::OpenParenthesis,
            Token::CloseParenthesis,
        ]
    );
}

#[test]
fn keywords_are_whole_words() {
    assert_eq!(
        tokens_of("int integer return returns void voided _int int_ Int"),
        vec![
            Token::KwInt,
            identifier("integer"),
            Token::KwReturn,
            identifier("returns"),
            Token::KwVoid,
            identifier("voided"),
            identifier("_int"),
            identifier("int_"),
            identifier("Int"),
        ]
    );
}

#[test]
fn identifiers_take_letters_digits_and_underscores() {
    assert_eq!(tokens_of("a1_b2 _ __x9"), vec![identifier("a1_b2"), identifier("_"), identifier("__x9")]);
    assert_eq!(tokens_of("caf\u{e9}+1"), vec![identifier("caf\u{e9}"), Token::Plus, Token::Constant(1)]);
}

#[test]
fn constants() {
    assert_eq!(
        tokens_of("0 007 42 18446744073709551615"),
        vec![Token::Constant(0), Token::Constant(7), Token::Constant(42), Token::Constant(u64::MAX)]
    );
    assert_eq!(tokens_of("1+2"), vec![Token::Constant(1), Token::Plus, Token::Constant(2)]);
}

#[test]
fn white_space_is_skipped() {
    assert_eq!(tokens_of(""), vec![]);
    assert_eq!(tokens_of(" \t\r\n "), vec![]);
    assert_eq!(tokens_of("\u{a0}\u{2003}7\u{3000}"), vec![Token::Constant(7)]);
    assert_eq!(tokens_of("  return\n\t2 ;"), vec![Token::KwReturn, Token::Constant(2), Token::Semicolon]);
}

#[test]
fn constant_followed_by_a_letter_is_unknown() {
    let (tokens, error) = Tokenizer::new("return 123abc;").collect();
    assert_eq!(tokens, vec![Token::KwReturn]);
    assert_eq!(error, Some("Unknown token".to_owned()));
}

#[test]
fn unknown_character_stops_the_tokens() {
    let (tokens, error) = Tokenizer::new("int @ main").collect();
    assert_eq!(tokens, vec![Token::KwInt]);
    assert_eq!(error, Some("Unknown token".to_owned()));
    let (tokens, error) = Tokenizer::new("#").collect();
    assert_eq!(tokens, vec![]);
    assert_eq!(error, Some("Unknown token".to_owned()));
}

#[test]
fn constant_beyond_64_bits_is_an_error() {
    let (tokens, error) = Tokenizer::new("1 18446744073709551616 2").collect();
    assert_eq!(tokens, vec![Token::Constant(1)]);
    assert_eq!(error, Some("Invalid constant".to_owned()));
}

#[test]
fn next_yields_one_token_at_a_time() {
    let mut tokenizer = Tokenizer::new(" int x ");
    assert_eq!(tokenizer.next(), Some(Ok(Token::KwInt)));
    assert_eq!(tokenizer.next(), Some(Ok(identifier("x"))));
    assert_eq!(tokenizer.next(), None);
    assert_eq!(tokenizer.next(), None);
}

#[test]
fn next_repeats_an_error() {
    let mut tokenizer = Tokenizer::new("; $ ;");
    assert_eq!(tokenizer.next(), Some(Ok(Token::Semicolon)));
    assert_eq!(tokenizer.next(), Some(Err("Unknown token".to_owned())));
    assert_eq!(tokenizer.next(), Some(Err("Unknown token".to_owned())));
}

#[test]
fn parse_constant_reads_digits_only() {
    assert_eq!(parse_constant("0"), Some(0));
    assert_eq!(parse_constant("000123"), Some(123));
    assert_eq!(parse_constant("18446744073709551615"), Some(u64::MAX));
    assert_eq!(parse_constant("18446744073709551616"), None);
    assert_eq!(parse_constant("99999999999999999999999"), None);
    assert_eq!(parse_constant(""), None);
    assert_eq!(parse_constant("12a"), None);
    assert_eq!(parse_constant("+12"), None);
    assert_eq!(parse_constant("-1"), None);
    assert_eq!(parse_constant("1 "), None);
    assert_eq!(parse_constant("\u{661}"), None);
}

#[test]
fn token_clone_is_equal() {
    for token in tokens_of("int main ( void ) { return 2 ; } - -- ~ + * / %") {
        assert_eq!(token.clone(), token);
    }
}
