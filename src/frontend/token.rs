use vstd::prelude::*;

verus! {

/// The class of a token.
#[derive(Clone, Copy, Debug, PartialEq, Eq, Structural)]
pub enum TokenType {
    Whitespace,
    Keyword,
    Word,
    Integer,
    Operator,
    Delimiter,
}

/// One token: its class and the characters it spans.
#[derive(Clone, Debug)]
pub struct Token {
    pub token_type: TokenType,
    pub content: String,
}

impl View for Token {
    type V = (TokenType, Seq<char>);

    open spec fn view(&self) -> (TokenType, Seq<char>) {
        (self.token_type, self.content@)
    }
}

impl Token {
    pub fn new(token_type: TokenType, content: String) -> (r: Self)
        ensures
            r@ == (token_type, content@),
    {
        Self { token_type: token_type, content: content }
    }

    /// A copy of this token.
    pub fn duplicate(&self) -> (r: Self)
        ensures
            r@ == self@,
    {
        Self { token_type: self.token_type, content: self.content.clone() }
    }
}

/// The label under which a token class is printed.
pub open spec fn type_label(t: TokenType) -> Seq<char> {
    match t {
        TokenType::Whitespace => "WHITESPACE"@,
        TokenType::Delimiter => "DELIM"@,
        TokenType::Operator => "OP"@,
        TokenType::Word => "WORD"@,
        TokenType::Keyword => "KEYWORD"@,
        TokenType::Integer => "INT"@,
    }
}

pub fn map_type(token_type: &TokenType) -> (r: &'static str)
    ensures
        r@ == type_label(*token_type),
{
    match token_type {
        TokenType::Whitespace => "WHITESPACE",
        TokenType::Delimiter => "DELIM",
        TokenType::Operator => "OP",
        TokenType::Word => "WORD",
        TokenType::Keyword => "KEYWORD",
        TokenType::Integer => "INT",
    }
}

/// The views of a sequence of tokens.
pub open spec fn token_views(ts: Seq<Token>) -> Seq<(TokenType, Seq<char>)> {
    ts.map_values(|t: Token| t@)
}

} // verus!
