use vstd::prelude::*;

use crate::frontend::token::{token_views, Token, TokenType};
use crate::text::{
    chars_of, is_alphanumeric, is_numeric, is_whitespace, push_char, same_text,
    unicode_alphanumeric, unicode_numeric, unicode_whitespace,
};

verus! {

/// A class of characters that the lexer takes in runs.
#[derive(Clone, Copy, Debug, PartialEq, Eq, Structural)]
pub enum CharClass {
    Whitespace,
    WordChar,
    Numeric,
    OperatorChar,
}

pub open spec fn is_delimiter(c: char) -> bool {
    c == '(' || c == ')' || c == '{' || c == '}' || c == '.' || c == ',' || c == ':' || c == ';'
}

pub open spec fn is_operator_char(c: char) -> bool {
    c == '+' || c == '-' || c == '*' || c == '/' || c == '=' || c == '>' || c == '<' || c == '!'
}

pub open spec fn in_class(c: char, class: CharClass) -> bool {
    match class {
        CharClass::Whitespace => unicode_whitespace(c),
        CharClass::WordChar => unicode_alphanumeric(c) || c == '_',
        CharClass::Numeric => unicode_numeric(c),
        CharClass::OperatorChar => is_operator_char(c),
    }
}

/// The reserved words of the language.
pub open spec fn is_keyword(w: Seq<char>) -> bool {
    w == "fn"@ || w == "if"@ || w == "while"@ || w == "return"@ || w == "break"@ || w == "for"@
        || w == "loop"@ || w == "else"@ || w == "true"@ || w == "false"@ || w == "var"@
        || w == "const"@ || w == "mod"@
}

/// The length of the longest run of `class` characters that starts at `i`.
pub open spec fn run_len(s: Seq<char>, i: int, class: CharClass) -> nat
    decreases s.len() - i,
{
    if 0 <= i < s.len() && in_class(s[i], class) {
        1 + run_len(s, i + 1, class)
    } else {
        0
    }
}

pub proof fn lemma_run_len_bound(s: Seq<char>, i: int, class: CharClass)
    requires
        0 <= i <= s.len(),
    ensures
        i + run_len(s, i, class) <= s.len(),
        forall|k: int| i <= k < i + run_len(s, i, class) ==> in_class(#[trigger] s[k], class),
    decreases s.len() - i,
{
    if i < s.len() && in_class(s[i], class) {
        lemma_run_len_bound(s, i + 1, class);
    }
}

/// A run that ends where the class stops, or at the end, is the longest run.
proof fn lemma_run_len_exact(s: Seq<char>, i: int, j: int, class: CharClass)
    requires
        0 <= i <= j <= s.len(),
        forall|k: int| i <= k < j ==> in_class(#[trigger] s[k], class),
        j == s.len() || !in_class(s[j], class),
    ensures
        run_len(s, i, class) == j - i,
    decreases j - i,
{
    if i < j {
        lemma_run_len_exact(s, i + 1, j, class);
    }
}

/// The tokens of `s` from `i` on. At each position the lexer takes, in this
/// order of preference: a run of whitespace; a run of word characters (a
/// keyword if it is one, else a word); a run of numeric characters; one
/// delimiter; a run of operator characters. Where none of these starts, it stops.
pub open spec fn lex(s: Seq<char>, i: int) -> Seq<(TokenType, Seq<char>)>
    decreases s.len() - i,
    via lex_decreases
{
    if i < 0 || i >= s.len() {
        Seq::empty()
    } else {
        let w = run_len(s, i, CharClass::Whitespace);
        let k = run_len(s, i, CharClass::WordChar);
        let n = run_len(s, i, CharClass::Numeric);
        let o = run_len(s, i, CharClass::OperatorChar);
        if w > 0 {
            seq![(TokenType::Whitespace, s.subrange(i, i + w))] + lex(s, i + w)
        } else if k > 0 {
            let word = s.subrange(i, i + k);
            let t = if is_keyword(word) { TokenType::Keyword } else { TokenType::Word };
            seq![(t, word)] + lex(s, i + k)
        } else if n > 0 {
            seq![(TokenType::Integer, s.subrange(i, i + n))] + lex(s, i + n)
        } else if is_delimiter(s[i]) {
            seq![(TokenType::Delimiter, seq![s[i]])] + lex(s, i + 1)
        } else if o > 0 {
            seq![(TokenType::Operator, s.subrange(i, i + o))] + lex(s, i + o)
        } else {
            Seq::empty()
        }
    }
}

#[via_fn]
proof fn lex_decreases(s: Seq<char>, i: int) {
    if 0 <= i < s.len() {
        lemma_run_len_bound(s, i, CharClass::Whitespace);
        lemma_run_len_bound(s, i, CharClass::WordChar);
        lemma_run_len_bound(s, i, CharClass::Numeric);
        lemma_run_len_bound(s, i, CharClass::OperatorChar);
    }
}

fn char_in_class(c: char, class: CharClass) -> (r: bool)
    ensures
        r == in_class(c, class),
{
    match class {
        CharClass::Whitespace => is_whitespace(c),
        CharClass::WordChar => is_alphanumeric(c) || c == '_',
        CharClass::Numeric => is_numeric(c),
        CharClass::OperatorChar => c == '+' || c == '-' || c == '*' || c == '/' || c == '='
            || c == '>' || c == '<' || c == '!',
    }
}

/// Splits source text into tokens.
pub struct Lexer {
    chars: Vec<char>,
    cursor: usize,
    cursor_stack: Vec<usize>,
}

impl Lexer {
    /// The characters being lexed.
    pub closed spec fn text(&self) -> Seq<char> {
        self.chars@
    }

    /// The position of the next character to read.
    pub closed spec fn position(&self) -> int {
        self.cursor as int
    }

    pub closed spec fn wf(&self) -> bool {
        &&& self.cursor <= self.chars@.len()
        &&& self.chars@.len() <= usize::MAX
        &&& forall|k: int| 0 <= k < self.cursor_stack@.len() ==> #[trigger] self.cursor_stack@[k] <= self.chars@.len()
    }

    pub fn new(code: String) -> (r: Self)
        ensures
            r.wf(),
            r.text() == code@,
            r.position() == 0,
    {
        let chars = chars_of(code.as_str());
        let _n = chars.len();
        Self { chars: chars, cursor: 0, cursor_stack: Vec::new() }
    }

    /// Lexes from the current position to the end, or to the first character
    /// at which no token starts.
    pub fn tokenize(&mut self) -> (r: Vec<Token>)
        requires
            old(self).wf(),
        ensures
            final(self).wf(),
            token_views(r@) == lex(old(self).text(), old(self).position()),
    {
        let mut tokens: Vec<Token> = Vec::new();
        let ghost s = self.chars@;
        let ghost start = self.cursor as int;
        while !self.eoi()
            invariant
                self.wf(),
                self.chars@ == s,
                s == old(self).chars@,
                start == old(self).cursor,
                token_views(tokens@) + lex(s, self.cursor as int) == lex(s, start),
            decreases s.len() - self.cursor,
        {
            let ghost c = self.cursor as int;
            let ghost rest = lex(s, c);
            proof {
                lemma_run_len_bound(s, c, CharClass::Whitespace);
                lemma_run_len_bound(s, c, CharClass::WordChar);
                lemma_run_len_bound(s, c, CharClass::Numeric);
                lemma_run_len_bound(s, c, CharClass::OperatorChar);
            }
            let mut token_opt = self.swallow_whitespaces();
            if token_opt.is_none() {
                token_opt = self.swallow_keyword();
            }
            if token_opt.is_none() {
                token_opt = self.swallow_word();
            }
            if token_opt.is_none() {
                token_opt = self.swallow_integer();
            }
            if token_opt.is_none() {
                token_opt = self.swallow_delimiter();
            }
            if token_opt.is_none() {
                token_opt = self.swallow_operator();
            }
            match token_opt {
                Some(t) => {
                    let ghost before = tokens@;
                    tokens.push(t);
                    proof {
                        assert(rest == seq![t@] + lex(s, self.cursor as int));
                        assert(token_views(tokens@) =~= token_views(before).push(t@));
                        assert(token_views(tokens@) + lex(s, self.cursor as int) =~= token_views(before) + rest);
                    }
                },
                None => {
                    proof {
                        assert(rest =~= Seq::empty());
                        assert(token_views(tokens@) + rest =~= token_views(tokens@));
                    }
                    return tokens;
                },
            }
        }
        proof {
            assert(token_views(tokens@) + lex(s, self.cursor as int) =~= token_views(tokens@));
        }
        tokens
    }

    fn eoi(&self) -> (r: bool)
        ensures
            r == (self.cursor >= self.chars@.len()),
    {
        self.cursor >= self.chars.len()
    }

    fn push_cursor(&mut self)
        requires
            old(self).wf(),
        ensures
            final(self).wf(),
            final(self).chars@ == old(self).chars@,
            final(self).cursor == old(self).cursor,
            final(self).cursor_stack@ == old(self).cursor_stack@.push(old(self).cursor),
    {
        self.cursor_stack.push(self.cursor);
    }

    /// Returns to the position saved last, if one is saved.
    fn pop_cursor(&mut self)
        requires
            old(self).wf(),
        ensures
            final(self).wf(),
            final(self).chars@ == old(self).chars@,
            old(self).cursor_stack@.len() > 0 ==> final(self).cursor == old(self).cursor_stack@.last()
                && final(self).cursor_stack@ == old(self).cursor_stack@.drop_last(),
            old(self).cursor_stack@.len() == 0 ==> final(self).cursor == old(self).cursor
                && final(self).cursor_stack@ == old(self).cursor_stack@,
    {
        match self.cursor_stack.pop() {
            Some(c) => {
                self.cursor = c;
            },
            None => {},
        }
    }

    /// Takes the longest run of `class` characters at the cursor.
    fn swallow_run(&mut self, class: CharClass) -> (r: String)
        requires
            old(self).wf(),
        ensures
            final(self).wf(),
            final(self).chars@ == old(self).chars@,
            final(self).cursor_stack@ == old(self).cursor_stack@,
            final(self).cursor == old(self).cursor + run_len(old(self).chars@, old(self).cursor as int, class),
            r@ == old(self).chars@.subrange(old(self).cursor as int, final(self).cursor as int),
    {
        let mut chars = String::new();
        let ghost start = self.cursor as int;
        loop
            invariant
                self.wf(),
                self.chars@ == old(self).chars@,
                self.cursor_stack@ == old(self).cursor_stack@,
                start <= self.cursor,
                start == old(self).cursor,
                chars@ == self.chars@.subrange(start, self.cursor as int),
                forall|k: int| start <= k < self.cursor ==> in_class(#[trigger] self.chars@[k], class),
            ensures
                self.wf(),
                self.chars@ == old(self).chars@,
                self.cursor_stack@ == old(self).cursor_stack@,
                start <= self.cursor,
                chars@ == self.chars@.subrange(start, self.cursor as int),
                forall|k: int| start <= k < self.cursor ==> in_class(#[trigger] self.chars@[k], class),
                self.cursor == self.chars@.len() || !in_class(self.chars@[self.cursor as int], class),
            decreases self.chars@.len() - self.cursor,
        {
            if self.eoi() {
                break;
            }
            let c = self.chars[self.cursor];
            if char_in_class(c, class) {
                push_char(&mut chars, c);
                self.cursor = self.cursor + 1;
                assert(chars@ =~= self.chars@.subrange(start, self.cursor as int));
            } else {
                break;
            }
        }
        proof {
            lemma_run_len_exact(self.chars@, start, self.cursor as int, class);
        }
        chars
    }

    /// Where the run is empty nothing moves and no token comes.
    fn swallow_class(&mut self, class: CharClass, token_type: TokenType) -> (r: Option<Token>)
        requires
            old(self).wf(),
        ensures
            final(self).wf(),
            final(self).chars@ == old(self).chars@,
            final(self).cursor_stack@ == old(self).cursor_stack@,
            ({
                let c = old(self).cursor as int;
                let n = run_len(old(self).chars@, c, class);
                if n == 0 {
                    r is None && final(self).cursor == old(self).cursor
                } else {
                    r is Some && r.unwrap()@ == (token_type, old(self).chars@.subrange(c, c + n))
                        && final(self).cursor == c + n
                }
            }),
    {
        let start = self.cursor;
        let chars = self.swallow_run(class);
        if self.cursor == start {
            return None;
        }
        Some(Token::new(token_type, chars))
    }

    fn swallow_whitespaces(&mut self) -> (r: Option<Token>)
        requires
            old(self).wf(),
        ensures
            final(self).wf(),
            final(self).chars@ == old(self).chars@,
            ({
                let c = old(self).cursor as int;
                let n = run_len(old(self).chars@, c, CharClass::Whitespace);
                if n == 0 {
                    r is None && final(self).cursor == old(self).cursor
                } else {
                    r is Some && r.unwrap()@ == (TokenType::Whitespace, old(self).chars@.subrange(c, c + n))
                        && final(self).cursor == c + n
                }
            }),
    {
        self.swallow_class(CharClass::Whitespace, TokenType::Whitespace)
    }

    fn swallow_word(&mut self) -> (r: Option<Token>)
        requires
            old(self).wf(),
        ensures
            final(self).wf(),
            final(self).chars@ == old(self).chars@,
            final(self).cursor_stack@ == old(self).cursor_stack@,
            ({
                let c = old(self).cursor as int;
                let n = run_len(old(self).chars@, c, CharClass::WordChar);
                if n == 0 {
                    r is None && final(self).cursor == old(self).cursor
                } else {
                    r is Some && r.unwrap()@ == (TokenType::Word, old(self).chars@.subrange(c, c + n))
                        && final(self).cursor == c + n
                }
            }),
    {
        self.swallow_class(CharClass::WordChar, TokenType::Word)
    }

    fn swallow_integer(&mut self) -> (r: Option<Token>)
        requires
            old(self).wf(),
        ensures
            final(self).wf(),
            final(self).chars@ == old(self).chars@,
            ({
                let c = old(self).cursor as int;
                let n = run_len(old(self).chars@, c, CharClass::Numeric);
                if n == 0 {
                    r is None && final(self).cursor == old(self).cursor
                } else {
                    r is Some && r.unwrap()@ == (TokenType::Integer, old(self).chars@.subrange(c, c + n))
                        && final(self).cursor == c + n
                }
            }),
    {
        self.swallow_class(CharClass::Numeric, TokenType::Integer)
    }

    fn swallow_operator(&mut self) -> (r: Option<Token>)
        requires
            old(self).wf(),
        ensures
            final(self).wf(),
            final(self).chars@ == old(self).chars@,
            ({
                let c = old(self).cursor as int;
                let n = run_len(old(self).chars@, c, CharClass::OperatorChar);
                if n == 0 {
                    r is None && final(self).cursor == old(self).cursor
                } else {
                    r is Some && r.unwrap()@ == (TokenType::Operator, old(self).chars@.subrange(c, c + n))
                        && final(self).cursor == c + n
                }
            }),
    {
        self.swallow_class(CharClass::OperatorChar, TokenType::Operator)
    }

    fn swallow_delimiter(&mut self) -> (r: Option<Token>)
        requires
            old(self).wf(),
        ensures
            final(self).wf(),
            final(self).chars@ == old(self).chars@,
            ({
                let c = old(self).cursor as int;
                if c < old(self).chars@.len() && is_delimiter(old(self).chars@[c]) {
                    r is Some && r.unwrap()@ == (TokenType::Delimiter, seq![old(self).chars@[c]])
                        && final(self).cursor == c + 1
                } else {
                    r is None && final(self).cursor == old(self).cursor
                }
            }),
    {
        if self.eoi() {
            return None;
        }
        let c = self.chars[self.cursor];
        if c == '(' || c == ')' || c == '{' || c == '}' || c == '.' || c == ',' || c == ':' || c == ';' {
            let mut chars = String::new();
            push_char(&mut chars, c);
            self.cursor = self.cursor + 1;
            assert(chars@ =~= seq![c]);
            Some(Token::new(TokenType::Delimiter, chars))
        } else {
            None
        }
    }

    /// A word that is a keyword, as a keyword token; otherwise nothing moves.
    fn swallow_keyword(&mut self) -> (r: Option<Token>)
        requires
            old(self).wf(),
        ensures
            final(self).wf(),
            final(self).chars@ == old(self).chars@,
            ({
                let c = old(self).cursor as int;
                let n = run_len(old(self).chars@, c, CharClass::WordChar);
                let word = old(self).chars@.subrange(c, c + n);
                if n > 0 && is_keyword(word) {
                    r is Some && r.unwrap()@ == (TokenType::Keyword, word) && final(self).cursor == c + n
                } else {
                    r is None && final(self).cursor == old(self).cursor
                }
            }),
    {
        self.push_cursor();
        let word_opt = self.swallow_word();
        let word = match word_opt {
            Some(w) => w,
            None => {
                self.pop_cursor();
                return None;
            },
        };
        let w = word.content.as_str();
        let known = same_text(w, "fn") || same_text(w, "if") || same_text(w, "while")
            || same_text(w, "return") || same_text(w, "break") || same_text(w, "for")
            || same_text(w, "loop") || same_text(w, "else") || same_text(w, "true")
            || same_text(w, "false") || same_text(w, "var") || same_text(w, "const")
            || same_text(w, "mod");
        if !known {
            self.pop_cursor();
            return None;
        }
        Some(Token::new(TokenType::Keyword, word.content))
    }
}

} // verus!
