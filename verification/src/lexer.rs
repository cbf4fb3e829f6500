//! The tokens of a source text.
//!
//! White space separates tokens and is otherwise ignored. Each kind of
//! token is written down as a pattern; the patterns are tried in a fixed
//! order at the start of what is left of the text, and the first that
//! matches decides the token. [`scan`] is the model of one step and
//! [`lex`] that of the whole text.

use vstd::prelude::*;
use vstd::string::*;
use crate::decimal::decimal;

verus! {

/// A token of the language.
#[derive(Debug, Eq, PartialEq)]
pub enum Token {
    Identifier(String),
    OpenParenthesis,
    CloseParenthesis,
    OpeningBrace,
    ClosingBrace,
    Constant(u64),
    Semicolon,
    KwInt,
    KwReturn,
    KwVoid,
    Hyphen,
    TwoHyphens,
    Tilde,
    Plus,
    Asterisk,
    ForwardSlash,
    Percent,
}

/// A [`Token`] with its name as a sequence of characters.
pub enum TokenView {
    Identifier(Seq<char>),
    OpenParenthesis,
    CloseParenthesis,
    OpeningBrace,
    ClosingBrace,
    Constant(u64),
    Semicolon,
    KwInt,
    KwReturn,
    KwVoid,
    Hyphen,
    TwoHyphens,
    Tilde,
    Plus,
    Asterisk,
    ForwardSlash,
    Percent,
}

impl View for Token {
    type V = TokenView;

    open spec fn view(&self) -> TokenView {
        match *self {
            Token::Identifier(name) => TokenView::Identifier(name@),
            Token::OpenParenthesis => TokenView::OpenParenthesis,
            Token::CloseParenthesis => TokenView::CloseParenthesis,
            Token::OpeningBrace => TokenView::OpeningBrace,
            Token::ClosingBrace => TokenView::ClosingBrace,
            Token::Constant(value) => TokenView::Constant(value),
            Token::Semicolon => TokenView::Semicolon,
            Token::KwInt => TokenView::KwInt,
            Token::KwReturn => TokenView::KwReturn,
            Token::KwVoid => TokenView::KwVoid,
            Token::Hyphen => TokenView::Hyphen,
            Token::TwoHyphens => TokenView::TwoHyphens,
            Token::Tilde => TokenView::Tilde,
            Token::Plus => TokenView::Plus,
            Token::Asterisk => TokenView::Asterisk,
            Token::ForwardSlash => TokenView::ForwardSlash,
            Token::Percent => TokenView::Percent,
        }
    }
}

impl Clone for Token {
    fn clone(&self) -> (copy: Token)
        ensures
            copy@ == self@,
    {
        match self {
            Token::Identifier(name) => Token::Identifier(name.clone()),
            Token::OpenParenthesis => Token::OpenParenthesis,
            Token::CloseParenthesis => Token::CloseParenthesis,
            Token::OpeningBrace => Token::OpeningBrace,
            Token::ClosingBrace => Token::ClosingBrace,
            Token::Constant(value) => Token::Constant(*value),
            Token::Semicolon => Token::Semicolon,
            Token::KwInt => Token::KwInt,
            Token::KwReturn => Token::KwReturn,
            Token::KwVoid => Token::KwVoid,
            Token::Hyphen => Token::Hyphen,
            Token::TwoHyphens => Token::TwoHyphens,
            Token::Tilde => Token::Tilde,
            Token::Plus => Token::Plus,
            Token::Asterisk => Token::Asterisk,
            Token::ForwardSlash => Token::ForwardSlash,
            Token::Percent => Token::Percent,
        }
    }
}

/// The views of a sequence of tokens, in the same order.
pub open spec fn token_views(tokens: Seq<Token>) -> Seq<TokenView> {
    tokens.map_values(|token: Token| token@)
}

/// `regex::Error`, the error of a pattern that `regex::Regex::new` does
/// not accept. Nothing is known of what it holds.
#[verifier::external_type_specification]
#[verifier::external_body]
pub struct ExPatternError(regex::Error);

/// The number of characters that `str::trim_start` takes off the start of
/// `text`: the length of its longest prefix of white space.
pub uninterp spec fn leading_white_space(text: Seq<char>) -> nat;

/// Whether `regex::Regex::new` accepts `pattern`.
pub uninterp spec fn compiles(pattern: Seq<char>) -> bool;

/// The number of characters of `haystack` that stand before the end of the
/// first match that `regex::Regex::find` finds for `pattern`, which
/// compiles, in `haystack`; `None` where it finds no match.
pub uninterp spec fn match_end(pattern: Seq<char>, haystack: Seq<char>) -> Option<nat>;

/// `str::trim_start`: what is left of `text` without its leading white
/// space. The contract says that the result is `text` without its first
/// [`leading_white_space`] characters, and that `text` has as many.
#[verifier::external_body]
fn trim_start(text: &str) -> (rest: &str)
    ensures
        rest@.len() + leading_white_space(text@) == text@.len(),
        rest@ == text@.skip(leading_white_space(text@) as int),
{
    text.trim_start()
}

/// Compiles `pattern` with `regex::Regex::new`, searches `haystack` with
/// `regex::Regex::find`, and splits `haystack` where `regex::Match::end`
/// says the match ends.
///
/// The contract says that the pattern's error comes back exactly where the
/// pattern does not compile ([`compiles`]); that otherwise a pair comes
/// back exactly where there is a match; and that the two parts of the pair
/// are `haystack` cut in two after [`match_end`] characters.
#[verifier::external_body]
fn find_prefix<'a>(pattern: &str, haystack: &'a str) -> (found: Result<
    Option<(&'a str, &'a str)>,
    regex::Error,
>)
    ensures
        found is Ok <==> compiles(pattern@),
        found matches Ok(parts) ==> match parts {
            Some((head, tail)) => match_end(pattern@, haystack@) == Some(head@.len())
                && head@ + tail@ == haystack@,
            None => match_end(pattern@, haystack@) is None,
        },
{
    match regex::Regex::new(pattern) {
        Ok(regex) => Ok(
            match regex.find(haystack) {
                Some(found) => Some(haystack.split_at(found.end())),
                None => None,
            },
        ),
        Err(error) => Err(error),
    }
}

/// What is left of `text` without its leading white space.
pub open spec fn trimmed(text: Seq<char>) -> Seq<char> {
    if leading_white_space(text) <= text.len() {
        text.skip(leading_white_space(text) as int)
    } else {
        text
    }
}

/// The length of the token that `pattern` finds at the start of `text`:
/// where the match ends, if there is one that is not empty and ends in
/// `text`.
pub open spec fn token_length(pattern: Seq<char>, text: Seq<char>) -> Option<nat> {
    match match_end(pattern, text) {
        Some(end) => if 0 < end <= text.len() {
            Some(end)
        } else {
            None
        },
        None => None,
    }
}

/// Whether `pattern` matches somewhere in `text`.
pub open spec fn is_match(pattern: Seq<char>, text: Seq<char>) -> bool {
    match_end(pattern, text) is Some
}

/// The pattern of identifiers and keywords.
pub open spec fn identifier_pattern() -> Seq<char> {
    "^[a-zA-Z_]\\w*\\b"@
}

/// The pattern of constants.
pub open spec fn constant_pattern() -> Seq<char> {
    "^[0-9]+\\b"@
}

/// The number of patterns for punctuation.
pub open spec fn punctuation_count() -> nat {
    12
}

/// The patterns for punctuation, in the order in which they are tried. Two
/// hyphens come before one.
pub open spec fn punctuation_pattern(index: nat) -> Seq<char> {
    if index == 0 {
        "^\\{"@
    } else if index == 1 {
        "^}"@
    } else if index == 2 {
        "^\\("@
    } else if index == 3 {
        "^;"@
    } else if index == 4 {
        "^\\)"@
    } else if index == 5 {
        "^--"@
    } else if index == 6 {
        "^-"@
    } else if index == 7 {
        "^~"@
    } else if index == 8 {
        "^\\+"@
    } else if index == 9 {
        "^\\*"@
    } else if index == 10 {
        "^/"@
    } else {
        "^%"@
    }
}

/// The token of each pattern for punctuation.
pub open spec fn punctuation_token(index: nat) -> TokenView {
    if index == 0 {
        TokenView::OpeningBrace
    } else if index == 1 {
        TokenView::ClosingBrace
    } else if index == 2 {
        TokenView::OpenParenthesis
    } else if index == 3 {
        TokenView::Semicolon
    } else if index == 4 {
        TokenView::CloseParenthesis
    } else if index == 5 {
        TokenView::TwoHyphens
    } else if index == 6 {
        TokenView::Hyphen
    } else if index == 7 {
        TokenView::Tilde
    } else if index == 8 {
        TokenView::Plus
    } else if index == 9 {
        TokenView::Asterisk
    } else if index == 10 {
        TokenView::ForwardSlash
    } else {
        TokenView::Percent
    }
}

/// The message for a text that starts with no token.
pub open spec fn unknown_token_message() -> Seq<char> {
    "Unknown token"@
}

/// The message for a pattern that does not compile.
pub open spec fn invalid_pattern_message() -> Seq<char> {
    "Invalid token pattern"@
}

/// The message for a constant that does not fit in 64 bits.
pub open spec fn invalid_constant_message() -> Seq<char> {
    "Invalid constant"@
}

/// The value of the digit `c`, or `None` if `c` is no digit.
pub open spec fn digit_value(c: char) -> Option<nat> {
    if c == '0' {
        Some(0)
    } else if c == '1' {
        Some(1)
    } else if c == '2' {
        Some(2)
    } else if c == '3' {
        Some(3)
    } else if c == '4' {
        Some(4)
    } else if c == '5' {
        Some(5)
    } else if c == '6' {
        Some(6)
    } else if c == '7' {
        Some(7)
    } else if c == '8' {
        Some(8)
    } else if c == '9' {
        Some(9)
    } else {
        None
    }
}

/// The number that `digits` is the decimal text of, or `None` if `digits`
/// is empty or holds anything but digits.
pub open spec fn digits_value(digits: Seq<char>) -> Option<nat>
    decreases digits.len(),
{
    if digits.len() == 0 {
        None
    } else {
        match digit_value(digits.last()) {
            Some(last) => if digits.len() == 1 {
                Some(last)
            } else {
                match digits_value(digits.drop_last()) {
                    Some(front) => Some(10 * front + last),
                    None => None,
                }
            },
            None => None,
        }
    }
}

/// The value of the constant with the text `text`, if the text is made of
/// digits and the number fits in 64 bits.
pub open spec fn constant_value(text: Seq<char>) -> Option<u64> {
    match digits_value(text) {
        Some(value) => if value <= u64::MAX {
            Some(value as u64)
        } else {
            None
        },
        None => None,
    }
}

/// A constant that is written as the decimal text of a number that fits
/// in 64 bits has that number as its value.
pub proof fn lemma_constant_value_of_decimal(value: u64)
    ensures
        constant_value(decimal(value as nat)) == Some(value),
{
    lemma_digits_value_of_decimal(value as nat);
}

/// The decimal text of a number is the text of that number.
pub proof fn lemma_digits_value_of_decimal(value: nat)
    ensures
        digits_value(decimal(value)) == Some(value),
    decreases value,
{
    let text = decimal(value);
    if value >= 10 {
        lemma_digits_value_of_decimal(value / 10);
        assert(text.drop_last() =~= decimal(value / 10));
    }
}

/// One step of the tokenizer: the token or the error that it yields, or
/// `None` at the end of the text, and the text that is left.
pub struct Scanned {
    pub outcome: Option<Result<TokenView, Seq<char>>>,
    pub rest: Seq<char>,
}

/// The step that fails with `message` and leaves `input` as it is.
pub open spec fn failed(input: Seq<char>, message: Seq<char>) -> Scanned {
    Scanned { outcome: Some(Err(message)), rest: input }
}

/// The step that yields `token` and leaves `rest`.
pub open spec fn yielded(token: TokenView, rest: Seq<char>) -> Scanned {
    Scanned { outcome: Some(Ok(token)), rest }
}

/// The token for a word: a keyword if the word is one, an identifier with
/// the word as its name otherwise.
pub open spec fn scan_word(input: Seq<char>, word: Seq<char>, rest: Seq<char>) -> Scanned {
    if !compiles("^int\\b"@) {
        failed(input, invalid_pattern_message())
    } else if is_match("^int\\b"@, word) {
        yielded(TokenView::KwInt, rest)
    } else if !compiles("^return\\b"@) {
        failed(input, invalid_pattern_message())
    } else if is_match("^return\\b"@, word) {
        yielded(TokenView::KwReturn, rest)
    } else if !compiles("^void\\b"@) {
        failed(input, invalid_pattern_message())
    } else if is_match("^void\\b"@, word) {
        yielded(TokenView::KwVoid, rest)
    } else {
        yielded(TokenView::Identifier(word), rest)
    }
}

/// The step for a text `text`, trimmed and not empty, that starts with
/// neither a word nor a constant: the token of the first pattern for
/// punctuation, from `index` on, that matches.
pub open spec fn scan_punctuation(input: Seq<char>, text: Seq<char>, index: nat) -> Scanned
    decreases punctuation_count() - index,
{
    if index >= punctuation_count() {
        failed(input, unknown_token_message())
    } else if !compiles(punctuation_pattern(index)) {
        failed(input, invalid_pattern_message())
    } else {
        match token_length(punctuation_pattern(index), text) {
            Some(length) => yielded(punctuation_token(index), text.skip(length as int)),
            None => scan_punctuation(input, text, index + 1),
        }
    }
}

/// One step of the tokenizer on `input`.
///
/// Leading white space is skipped. At the end of the text the step yields
/// nothing. Otherwise the patterns are tried in order: that of words, that
/// of constants, those of punctuation. A step that yields no token leaves
/// the text as it was.
pub open spec fn scan(input: Seq<char>) -> Scanned {
    let text = trimmed(input);
    if text.len() == 0 {
        Scanned { outcome: None, rest: input }
    } else if !compiles(identifier_pattern()) {
        failed(input, invalid_pattern_message())
    } else {
        match token_length(identifier_pattern(), text) {
            Some(length) => scan_word(input, text.take(length as int), text.skip(length as int)),
            None => if !compiles(constant_pattern()) {
                failed(input, invalid_pattern_message())
            } else {
                match token_length(constant_pattern(), text) {
                    Some(length) => match constant_value(text.take(length as int)) {
                        Some(value) => yielded(
                            TokenView::Constant(value),
                            text.skip(length as int),
                        ),
                        None => failed(input, invalid_constant_message()),
                    },
                    None => scan_punctuation(input, text, 0),
                }
            },
        }
    }
}

/// A step that yields a token leaves less text than there was.
pub proof fn lemma_scan_makes_progress(input: Seq<char>)
    requires
        scan(input).outcome matches Some(Ok(_)),
    ensures
        scan(input).rest.len() < input.len(),
{
    let text = trimmed(input);
    if compiles(identifier_pattern()) && token_length(identifier_pattern(), text) is None
        && compiles(constant_pattern()) && token_length(constant_pattern(), text) is None {
        lemma_punctuation_makes_progress(input, text, 0);
    }
}

proof fn lemma_punctuation_makes_progress(input: Seq<char>, text: Seq<char>, index: nat)
    requires
        text.len() <= input.len(),
        scan_punctuation(input, text, index).outcome matches Some(Ok(_)),
    ensures
        scan_punctuation(input, text, index).rest.len() < input.len(),
    decreases punctuation_count() - index,
{
    if index < punctuation_count() && compiles(punctuation_pattern(index)) && token_length(
        punctuation_pattern(index),
        text,
    ) is None {
        lemma_punctuation_makes_progress(input, text, index + 1);
    }
}

/// What the tokenizer makes of a whole text.
pub struct Lexed {
    /// The tokens up to the end of the text or to the first error.
    pub tokens: Seq<TokenView>,
    /// The error at which the tokens end, if they do not end with the
    /// text.
    pub error: Option<Seq<char>>,
}

/// The tokens of `input`, up to its end or to the first error.
pub open spec fn lex(input: Seq<char>) -> Lexed
    decreases input.len(),
{
    let step = scan(input);
    match step.outcome {
        None => Lexed { tokens: Seq::empty(), error: None },
        Some(Err(message)) => Lexed { tokens: Seq::empty(), error: Some(message) },
        Some(Ok(token)) => if step.rest.len() < input.len() {
            let rest = lex(step.rest);
            Lexed { tokens: seq![token] + rest.tokens, error: rest.error }
        } else {
            Lexed { tokens: Seq::empty(), error: None }
        },
    }
}

/// The view of what a step yields.
pub open spec fn outcome_view(outcome: Option<Result<Token, String>>) -> Option<
    Result<TokenView, Seq<char>>,
> {
    match outcome {
        None => None,
        Some(Ok(token)) => Some(Ok(token@)),
        Some(Err(message)) => Some(Err(message@)),
    }
}

/// The value of the digit `c`.
fn digit_of(c: char) -> (value: Option<u64>)
    ensures
        value matches Some(digit) ==> digit_value(c) == Some(digit as nat),
        value is None ==> digit_value(c) is None,
{
    if c == '0' {
        Some(0)
    } else if c == '1' {
        Some(1)
    } else if c == '2' {
        Some(2)
    } else if c == '3' {
        Some(3)
    } else if c == '4' {
        Some(4)
    } else if c == '5' {
        Some(5)
    } else if c == '6' {
        Some(6)
    } else if c == '7' {
        Some(7)
    } else if c == '8' {
        Some(8)
    } else if c == '9' {
        Some(9)
    } else {
        None
    }
}

/// The value of a constant from its text.
pub fn parse_constant(text: &str) -> (value: Option<u64>)
    ensures
        value == constant_value(text@),
{
    let length = text.unicode_len();
    if length == 0 {
        return None;
    }
    let mut value: u64 = 0;
    let mut fits = true;
    for index in 0..length
        invariant
            length == text@.len(),
            length > 0,
            fits ==> index > 0 ==> digits_value(text@.take(index as int)) == Some(value as nat),
            !fits ==> index > 0 && (digits_value(text@.take(index as int)) matches Some(more)
                && more > u64::MAX),
            index == 0 ==> fits && value == 0,
    {
        let ghost done = text@.take(index as int);
        let ghost next = text@.take(index + 1);
        proof {
            assert(next.drop_last() =~= done);
        }
        match digit_of(text.get_char(index)) {
            None => {
                proof {
                    lemma_digits_value_of_prefix(text@, index + 1);
                }
                return None;
            },
            Some(digit) => {
                if fits {
                    match value.checked_mul(10) {
                        Some(tens) => match tens.checked_add(digit) {
                            Some(sum) => {
                                value = sum;
                            },
                            None => {
                                fits = false;
                            },
                        },
                        None => {
                            fits = false;
                        },
                    }
                }
            },
        }
    }
    proof {
        assert(text@.take(length as int) =~= text@);
    }
    if fits {
        Some(value)
    } else {
        None
    }
}

/// Where a prefix of a text is not the decimal text of a number, neither
/// is the text.
proof fn lemma_digits_value_of_prefix(text: Seq<char>, length: int)
    requires
        0 < length <= text.len(),
        digits_value(text.take(length)) is None,
    ensures
        digits_value(text) is None,
    decreases text.len() - length,
{
    if length < text.len() {
        let longer = text.take(length + 1);
        assert(longer.drop_last() =~= text.take(length));
        lemma_digits_value_of_prefix(text, length + 1);
    } else {
        assert(text.take(length) =~= text);
    }
}

/// Tries `pattern` at the start of `text`: the token that it finds and
/// what follows it, `None` if it finds no token, or the message for a
/// pattern that does not compile.
fn token_at<'a>(pattern: &str, text: &'a str) -> (found: Result<Option<(&'a str, &'a str)>, String>)
    ensures
        found is Ok <==> compiles(pattern@),
        found matches Err(message) ==> message@ == invalid_pattern_message(),
        found matches Ok(parts) ==> match parts {
            Some((head, tail)) => token_length(pattern@, text@) == Some(head@.len()) && head@
                == text@.take(head@.len() as int) && tail@ == text@.skip(head@.len() as int),
            None => token_length(pattern@, text@) is None,
        },
{
    match find_prefix(pattern, text) {
        Ok(Some((head, tail))) => {
            if head.is_empty() {
                Ok(None)
            } else {
                Ok(Some((head, tail)))
            }
        },
        Ok(None) => Ok(None),
        Err(_) => Err("Invalid token pattern".to_owned()),
    }
}

/// Whether `pattern` matches somewhere in `text`, or the message for a
/// pattern that does not compile.
fn matches(pattern: &str, text: &str) -> (found: Result<bool, String>)
    ensures
        found is Ok <==> compiles(pattern@),
        found matches Err(message) ==> message@ == invalid_pattern_message(),
        found matches Ok(matching) ==> matching == is_match(pattern@, text@),
{
    match find_prefix(pattern, text) {
        Ok(parts) => Ok(parts.is_some()),
        Err(_) => Err("Invalid token pattern".to_owned()),
    }
}

/// The pattern for punctuation at `index`, and its token.
fn punctuation(index: usize) -> (entry: (&'static str, Token))
    requires
        index < punctuation_count(),
    ensures
        entry.0@ == punctuation_pattern(index as nat),
        entry.1@ == punctuation_token(index as nat),
{
    if index == 0 {
        ("^\\{", Token::OpeningBrace)
    } else if index == 1 {
        ("^}", Token::ClosingBrace)
    } else if index == 2 {
        ("^\\(", Token::OpenParenthesis)
    } else if index == 3 {
        ("^;", Token::Semicolon)
    } else if index == 4 {
        ("^\\)", Token::CloseParenthesis)
    } else if index == 5 {
        ("^--", Token::TwoHyphens)
    } else if index == 6 {
        ("^-", Token::Hyphen)
    } else if index == 7 {
        ("^~", Token::Tilde)
    } else if index == 8 {
        ("^\\+", Token::Plus)
    } else if index == 9 {
        ("^\\*", Token::Asterisk)
    } else if index == 10 {
        ("^/", Token::ForwardSlash)
    } else {
        ("^%", Token::Percent)
    }
}

/// Reads the tokens of a source text, one at each step.
pub struct Tokenizer<'a> {
    input: &'a str,
}

impl<'a> View for Tokenizer<'a> {
    type V = Seq<char>;

    closed spec fn view(&self) -> Seq<char> {
        self.input@
    }
}

impl<'a> Tokenizer<'a> {
    pub fn new(source: &'a str) -> (tokenizer: Self)
        ensures
            tokenizer@ == source@,
    {
        Tokenizer { input: source }
    }

    /// The next token of the text, an error if the text goes on with no
    /// token, or `None` at the end of the text.
    pub fn next(&mut self) -> (item: Option<Result<Token, String>>)
        ensures
            outcome_view(item) == scan(old(self)@).outcome,
            final(self)@ == scan(old(self)@).rest,
    {
        let input = trim_start(self.input);
        if input.is_empty() {
            return None;
        }
        match token_at("^[a-zA-Z_]\\w*\\b", input) {
            Err(message) => {
                return Some(Err(message));
            },
            Ok(Some((identifier, next))) => {
                return self.word(identifier, next);
            },
            Ok(None) => {},
        }
        match token_at("^[0-9]+\\b", input) {
            Err(message) => {
                return Some(Err(message));
            },
            Ok(Some((value, next))) => {
                return match parse_constant(value) {
                    Some(value) => {
                        self.input = next;
                        Some(Ok(Token::Constant(value)))
                    },
                    None => Some(Err("Invalid constant".to_owned())),
                };
            },
            Ok(None) => {},
        }
        let mut index: usize = 0;
        while index < 12
            invariant
                index <= 12,
                self.input == old(self).input,
                input@ == trimmed(self.input@),
                scan(old(self)@) == scan_punctuation(old(self)@, input@, index as nat),
            decreases 12 - index,
        {
            let (pattern, token) = punctuation(index);
            match token_at(pattern, input) {
                Err(message) => {
                    return Some(Err(message));
                },
                Ok(Some((_, next))) => {
                    self.input = next;
                    return Some(Ok(token));
                },
                Ok(None) => {},
            }
            index += 1;
        }
        Some(Err("Unknown token".to_owned()))
    }

    /// The token for the word `identifier`, which `next` follows.
    fn word(&mut self, identifier: &str, next: &'a str) -> (item: Option<Result<Token, String>>)
        ensures
            outcome_view(item) == scan_word(old(self)@, identifier@, next@).outcome,
            final(self)@ == scan_word(old(self)@, identifier@, next@).rest,
    {
        match matches("^int\\b", identifier) {
            Err(message) => {
                return Some(Err(message));
            },
            Ok(true) => {
                self.input = next;
                return Some(Ok(Token::KwInt));
            },
            Ok(false) => {},
        }
        match matches("^return\\b", identifier) {
            Err(message) => {
                return Some(Err(message));
            },
            Ok(true) => {
                self.input = next;
                return Some(Ok(Token::KwReturn));
            },
            Ok(false) => {},
        }
        match matches("^void\\b", identifier) {
            Err(message) => {
                return Some(Err(message));
            },
            Ok(true) => {
                self.input = next;
                return Some(Ok(Token::KwVoid));
            },
            Ok(false) => {},
        }
        self.input = next;
        Some(Ok(Token::Identifier(identifier.to_owned())))
    }

    /// The tokens of what is left of the text, up to its end or to the
    /// first error, and that error.
    pub fn collect(self) -> (lexed: (Vec<Token>, Option<String>))
        ensures
            token_views(lexed.0@) == lex(self@).tokens,
            lexed.1 is Some == lex(self@).error is Some,
            lexed.1 matches Some(message) ==> lex(self@).error == Some(message@),
    {
        let mut tokens: Vec<Token> = Vec::new();
        let ghost source = self@;
        let mut tokenizer = self;
        loop
            invariant_except_break
                source == self@,
                lex(source).tokens == token_views(tokens@) + lex(tokenizer@).tokens,
                lex(source).error == lex(tokenizer@).error,
            ensures
                source == self@,
                token_views(tokens@) == lex(source).tokens,
                lex(source).error is None,
            decreases tokenizer@.len(),
        {
            let ghost before = tokenizer@;
            match tokenizer.next() {
                None => {
                    break ;
                },
                Some(Err(message)) => {
                    return (tokens, Some(message));
                },
                Some(Ok(token)) => {
                    proof {
                        lemma_scan_makes_progress(before);
                    }
                    tokens.push(token);
                },
            }
        }
        (tokens, None)
    }
}

} // verus!
