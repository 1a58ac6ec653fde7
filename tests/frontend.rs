use miniscript::frontend::error::{Error, ErrorKind};
use miniscript::frontend::lexer::Lexer;
use miniscript::frontend::token::{Token, TokenType};

fn lex(s: &str) -> Vec<(TokenType, String)> {
    let mut lexer = Lexer::new(String::from(s));
    lexer.tokenize().into_iter().map(|t| (t.token_type, t.content)).collect()
}

fn t(k: TokenType, s: &str) -> (TokenType, String) {
    (k, String::from(s))
}

#[test]
fn tokenize_function_header() {
    assert_eq!(
        lex("fn main(a, b) {"),
        vec![
            t(TokenType::Keyword, "fn"),
            t(TokenType::Whitespace, " "),
            t(TokenType::Word, "main"),
            t(TokenType::Delimiter, "("),
            t(TokenType::Word, "a"),
            t(TokenType::Delimiter, ","),
            t(TokenType::Whitespace, " "),
            t(TokenType::Word, "b"),
            t(TokenType::Delimiter, ")"),
            t(TokenType::Whitespace, " "),
            t(TokenType::Delimiter, "{"),
        ]
    );
}

#[test]
fn keywords_need_the_whole_word() {
    assert_eq!(
        lex("var vars\t\n_x1"),
        vec![
            t(TokenType::Keyword, "var"),
            t(TokenType::Whitespace, " "),
            t(TokenType::Word, "vars"),
            t(TokenType::Whitespace, "\t\n"),
            t(TokenType::Word, "_x1"),
        ]
    );
}

#[test]
fn every_keyword_is_recognised() {
    for k in ["fn", "if", "while", "return", "break", "for", "loop", "else", "true", "false", "var", "const", "mod"] {
        assert_eq!(lex(k), vec![t(TokenType::Keyword, k)]);
    }
    assert_eq!(lex("struct"), vec![t(TokenType::Word, "struct")]);
}

#[test]
fn digits_lex_as_words() {
    assert_eq!(lex("123"), vec![t(TokenType::Word, "123")]);
}

#[test]
fn operators_run_together_delimiters_do_not() {
    assert_eq!(
        lex("a==>b;;"),
        vec![
            t(TokenType::Word, "a"),
            t(TokenType::Operator, "==>"),
            t(TokenType::Word, "b"),
            t(TokenType::Delimiter, ";"),
            t(TokenType::Delimiter, ";"),
        ]
    );
}

#[test]
fn lexing_stops_at_unknown_character() {
    assert_eq!(lex("x # y"), vec![t(TokenType::Word, "x"), t(TokenType::Whitespace, " ")]);
    assert_eq!(lex(""), vec![]);
}

#[test]
fn token_new_keeps_fields() {
    let tok = Token::new(TokenType::Operator, String::from("+"));
    assert_eq!(tok.token_type, TokenType::Operator);
    assert_eq!(tok.content, "+");
    assert_eq!(tok.duplicate().content, "+");
}

#[test]
fn error_description() {
    let e = Error { kind: ErrorKind::Syntax, message: String::from("Missing delimiter") };
    assert_eq!(e.description(), "Syntax error! Missing delimiter");
    let e = Error { kind: ErrorKind::Unknown, message: String::new() };
    assert_eq!(e.description(), "Unknown error! ");
}
