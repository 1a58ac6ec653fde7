use vstd::prelude::*;

use crate::compiler::ast::{Declaration, Program, Statement};
use crate::frontend::token::{token_views, Token, TokenType};
use crate::text::same_text;

verus! {

/// A token as the grammar sees it: its class and its characters.
pub type TokenView = (TokenType, Seq<char>);

/// A function declaration as the grammar sees it: its name, its argument
/// names and the names of the variables that its body declares.
pub type FunctionShape = (Seq<char>, Seq<Seq<char>>, Seq<Seq<char>>);

/// The position after an optional token of class `t` at `c`.
pub open spec fn skip(ts: Seq<TokenView>, c: int, t: TokenType) -> int {
    if 0 <= c < ts.len() && ts[c].0 == t {
        c + 1
    } else {
        c
    }
}

/// The characters of the token at `c`, if it has class `t`.
pub open spec fn take(ts: Seq<TokenView>, c: int, t: TokenType) -> Option<Seq<char>> {
    if 0 <= c < ts.len() && ts[c].0 == t {
        Some(ts[c].1)
    } else {
        None
    }
}

/// The length of the run of tokens of class `t` from `c` on.
pub open spec fn run_count(ts: Seq<TokenView>, c: int, t: TokenType) -> nat
    decreases ts.len() - c,
{
    if 0 <= c < ts.len() && ts[c].0 == t {
        1 + run_count(ts, c + 1, t)
    } else {
        0
    }
}

/// `name ;` after `var`, whitespace allowed before each; the position where
/// reading stopped comes with the result.
pub open spec fn var_decl(ts: Seq<TokenView>, c: int) -> (Option<Seq<char>>, int) {
    let c1 = skip(ts, c, TokenType::Whitespace);
    match take(ts, c1, TokenType::Word) {
        None => (None, c1),
        Some(name) => {
            let c2 = skip(ts, c1 + 1, TokenType::Whitespace);
            match take(ts, c2, TokenType::Delimiter) {
                None => (None, c2),
                Some(d) => (if d == ";"@ { Some(name) } else { None }, c2 + 1),
            }
        },
    }
}

/// Argument names, each followed by a delimiter; `)` ends the list, and so
/// does a missing name or delimiter.
pub open spec fn arguments(ts: Seq<TokenView>, c: int) -> (Seq<Seq<char>>, int)
    decreases ts.len() - c,
{
    if c < 0 || c >= ts.len() {
        (Seq::empty(), c)
    } else {
        let c1 = skip(ts, c, TokenType::Whitespace);
        let a = take(ts, c1, TokenType::Word);
        let c2 = skip(ts, skip(ts, c1, TokenType::Word), TokenType::Whitespace);
        let d = take(ts, c2, TokenType::Delimiter);
        let c3 = skip(ts, c2, TokenType::Delimiter);
        if a is None || d is None {
            (Seq::empty(), c3)
        } else if d->0 == ")"@ {
            (seq![a->0], c3)
        } else {
            let (rest, c4) = arguments(ts, c3);
            (seq![a->0] + rest, c4)
        }
    }
}

/// Variable declarations up to a closing `}`. Where a round reads nothing
/// the list ends there.
pub open spec fn statements(ts: Seq<TokenView>, c: int) -> (Seq<Seq<char>>, int)
    decreases ts.len() - c,
{
    if c < 0 || c >= ts.len() {
        (Seq::empty(), c)
    } else {
        let c1 = skip(ts, c, TokenType::Whitespace);
        let kw = take(ts, c1, TokenType::Keyword);
        let v = var_decl(ts, c1 + 1);
        if kw == Some("var"@) && v.0 is Some && v.1 > c {
            let (rest, c3) = statements(ts, v.1);
            (seq![v.0->0] + rest, c3)
        } else {
            let next = if kw is Some && kw != Some("var"@) { c1 + 1 } else { c };
            let d1 = skip(ts, next, TokenType::Whitespace);
            if take(ts, d1, TokenType::Delimiter) == Some("}"@) {
                (Seq::empty(), d1 + 1)
            } else if next <= c {
                (Seq::empty(), c)
            } else {
                statements(ts, next)
            }
        }
    }
}

/// `fn name ( arguments` then `{ statements` or another delimiter. Where it
/// fails, nothing is read.
pub open spec fn function_declaration(ts: Seq<TokenView>, c: int) -> (Option<FunctionShape>, int) {
    let c1 = skip(ts, c, TokenType::Whitespace);
    let c2 = skip(ts, c1 + 1, TokenType::Whitespace);
    let c3 = skip(ts, c2 + 1, TokenType::Whitespace);
    let (args, c4) = arguments(ts, c3 + 1);
    let c5 = skip(ts, c4, TokenType::Whitespace);
    if take(ts, c1, TokenType::Keyword) != Some("fn"@) || take(ts, c2, TokenType::Word) is None
        || take(ts, c3, TokenType::Delimiter) != Some("("@) || take(ts, c5, TokenType::Delimiter) is None {
        (None, c)
    } else {
        let name = take(ts, c2, TokenType::Word)->0;
        if take(ts, c5, TokenType::Delimiter) == Some("{"@) {
            let (body, c6) = statements(ts, c5 + 1);
            (Some((name, args, body)), c6)
        } else {
            (Some((name, args, Seq::empty())), c5 + 1)
        }
    }
}

pub proof fn lemma_statements_advance(ts: Seq<TokenView>, c: int)
    ensures
        statements(ts, c).1 >= c,
    decreases ts.len() - c,
{
    if 0 <= c < ts.len() {
        let c1 = skip(ts, c, TokenType::Whitespace);
        let kw = take(ts, c1, TokenType::Keyword);
        let v = var_decl(ts, c1 + 1);
        if kw == Some("var"@) && v.0 is Some && v.1 > c {
            lemma_statements_advance(ts, v.1);
        } else {
            let next = if kw is Some && kw != Some("var"@) { c1 + 1 } else { c };
            if next > c {
                lemma_statements_advance(ts, next);
            }
        }
    }
}

pub proof fn lemma_arguments_advance(ts: Seq<TokenView>, c: int)
    ensures
        arguments(ts, c).1 >= c,
    decreases ts.len() - c,
{
    if 0 <= c < ts.len() {
        let c1 = skip(ts, c, TokenType::Whitespace);
        let c2 = skip(ts, skip(ts, c1, TokenType::Word), TokenType::Whitespace);
        let c3 = skip(ts, c2, TokenType::Delimiter);
        if take(ts, c1, TokenType::Word) is Some && take(ts, c2, TokenType::Delimiter) is Some
            && take(ts, c2, TokenType::Delimiter)->0 != ")"@ {
            lemma_arguments_advance(ts, c3);
        }
    }
}

/// The function declarations from `c` on, up to the first place where none starts.
pub open spec fn program(ts: Seq<TokenView>, c: int) -> Seq<FunctionShape>
    decreases ts.len() - c,
    via program_decreases
{
    if c < 0 || c >= ts.len() {
        Seq::empty()
    } else {
        let (f, c2) = function_declaration(ts, c);
        match f {
            None => Seq::empty(),
            Some(shape) => seq![shape] + program(ts, c2),
        }
    }
}

#[via_fn]
proof fn program_decreases(ts: Seq<TokenView>, c: int) {
    if 0 <= c < ts.len() {
        let c1 = skip(ts, c, TokenType::Whitespace);
        let c2 = skip(ts, c1 + 1, TokenType::Whitespace);
        let c3 = skip(ts, c2 + 1, TokenType::Whitespace);
        lemma_arguments_advance(ts, c3 + 1);
        let c4 = arguments(ts, c3 + 1).1;
        let c5 = skip(ts, c4, TokenType::Whitespace);
        lemma_statements_advance(ts, c5 + 1);
        lemma_function_declaration_bound(ts, c);
    }
}

/// A declaration that was read ends at most at the end of the tokens.
pub proof fn lemma_function_declaration_bound(ts: Seq<TokenView>, c: int)
    requires
        0 <= c <= ts.len(),
    ensures
        c <= function_declaration(ts, c).1 <= ts.len(),
        function_declaration(ts, c).0 is Some ==> function_declaration(ts, c).1 > c,
{
    let c1 = skip(ts, c, TokenType::Whitespace);
    let c2 = skip(ts, c1 + 1, TokenType::Whitespace);
    let c3 = skip(ts, c2 + 1, TokenType::Whitespace);
    lemma_arguments_advance(ts, c3 + 1);
    lemma_arguments_bound(ts, c3 + 1);
    let c4 = arguments(ts, c3 + 1).1;
    let c5 = skip(ts, c4, TokenType::Whitespace);
    lemma_statements_advance(ts, c5 + 1);
    lemma_statements_bound(ts, c5 + 1);
}

pub proof fn lemma_arguments_bound(ts: Seq<TokenView>, c: int)
    requires
        0 <= c,
    ensures
        c <= ts.len() ==> arguments(ts, c).1 <= ts.len(),
    decreases ts.len() - c,
{
    if 0 <= c < ts.len() {
        let c1 = skip(ts, c, TokenType::Whitespace);
        let c2 = skip(ts, skip(ts, c1, TokenType::Word), TokenType::Whitespace);
        let c3 = skip(ts, c2, TokenType::Delimiter);
        if take(ts, c1, TokenType::Word) is Some && take(ts, c2, TokenType::Delimiter) is Some
            && take(ts, c2, TokenType::Delimiter)->0 != ")"@ {
            lemma_arguments_bound(ts, c3);
        }
    }
}

pub proof fn lemma_statements_bound(ts: Seq<TokenView>, c: int)
    requires
        0 <= c,
    ensures
        c <= ts.len() ==> statements(ts, c).1 <= ts.len(),
    decreases ts.len() - c,
{
    if 0 <= c < ts.len() {
        let c1 = skip(ts, c, TokenType::Whitespace);
        let kw = take(ts, c1, TokenType::Keyword);
        let v = var_decl(ts, c1 + 1);
        if kw == Some("var"@) && v.0 is Some && v.1 > c {
            lemma_statements_bound(ts, v.1);
        } else {
            let next = if kw is Some && kw != Some("var"@) { c1 + 1 } else { c };
            if next > c {
                lemma_statements_bound(ts, next);
            }
        }
    }
}

/// The variable names that a list of statements declares, or `None` where a
/// statement is not a declaration.
pub open spec fn statement_names(s: Seq<Statement>) -> Seq<Option<Seq<char>>> {
    s.map_values(|st: Statement| match st {
        Statement::Variable(n) => Some(n@),
        _ => None,
    })
}

pub open spec fn string_views(s: Seq<String>) -> Seq<Seq<char>> {
    s.map_values(|x: String| x@)
}

/// Whether a declaration is the function that `shape` describes.
pub open spec fn has_shape(d: Declaration, shape: FunctionShape) -> bool {
    match d {
        Declaration::Function(name, args, body) => {
            &&& name@ == shape.0
            &&& string_views(args@) == shape.1
            &&& statement_names(body@) == shape.2.map_values(|n: Seq<char>| Some(n))
        },
    }
}

proof fn lemma_run_count_exact(ts: Seq<TokenView>, i: int, j: int, t: TokenType)
    requires
        0 <= i <= j <= ts.len(),
        forall|k: int| i <= k < j ==> (#[trigger] ts[k]).0 == t,
        j == ts.len() || ts[j].0 != t,
    ensures
        run_count(ts, i, t) == j - i,
    decreases j - i,
{
    if i < j {
        lemma_run_count_exact(ts, i + 1, j, t);
    }
}

/// Reads the declarations of a program from a token list.
pub struct Parser {
    tokens: Vec<Token>,
    cursor: usize,
    cursor_stack: Vec<usize>,
}

impl Parser {
    /// The tokens being parsed.
    pub closed spec fn views(&self) -> Seq<TokenView> {
        token_views(self.tokens@)
    }

    /// The position of the next token to read.
    pub closed spec fn position(&self) -> int {
        self.cursor as int
    }

    pub closed spec fn wf(&self) -> bool {
        &&& self.cursor <= self.tokens@.len()
        &&& self.tokens@.len() <= usize::MAX
        &&& forall|k: int| 0 <= k < self.cursor_stack@.len() ==> #[trigger] self.cursor_stack@[k] <= self.tokens@.len()
    }

    pub fn new(tokens: Vec<Token>) -> (r: Self)
        ensures
            r.wf(),
            r.views() == token_views(tokens@),
            r.position() == 0,
    {
        let _n = tokens.len();
        Self { tokens: tokens, cursor: 0, cursor_stack: Vec::new() }
    }

    /// Reads function declarations until the tokens end or no declaration starts.
    pub fn parse(&mut self) -> (r: Program)
        requires
            old(self).wf(),
        ensures
            final(self).wf(),
            r.decl@.len() == program(old(self).views(), old(self).position()).len(),
            forall|i: int| 0 <= i < r.decl@.len() ==> has_shape(#[trigger] r.decl@[i], program(old(self).views(), old(self).position())[i]),
    {
        let mut ret = Program { decl: Vec::new() };
        let ghost ts = self.views();
        let ghost start = self.cursor as int;
        let ghost mut done: Seq<FunctionShape> = Seq::empty();
        while !self.eoi()
            invariant
                self.wf(),
                self.views() == ts,
                ts == old(self).views(),
                start == old(self).position(),
                program(ts, start) == done + program(ts, self.cursor as int),
                ret.decl@.len() == done.len(),
                forall|i: int| 0 <= i < ret.decl@.len() ==> has_shape(#[trigger] ret.decl@[i], done[i]),
            decreases ts.len() - self.cursor,
        {
            let ghost c = self.cursor as int;
            proof {
                lemma_function_declaration_bound(ts, c);
            }
            match self.parse_function_declaration() {
                Some(d) => {
                    let ghost shape = function_declaration(ts, c).0->0;
                    ret.decl.push(d);
                    proof {
                        assert(program(ts, c) == seq![shape] + program(ts, self.cursor as int));
                        done = done.push(shape);
                        assert(program(ts, start) =~= done + program(ts, self.cursor as int));
                    }
                },
                None => {
                    proof {
                        assert(program(ts, start) =~= done);
                    }
                    return ret;
                },
            }
        }
        proof {
            assert(program(ts, start) =~= done);
        }
        ret
    }

    fn parse_function_declaration(&mut self) -> (r: Option<Declaration>)
        requires
            old(self).wf(),
        ensures
            final(self).wf(),
            final(self).views() == old(self).views(),
            match function_declaration(old(self).views(), old(self).position()) {
                (None, c) => r is None && final(self).position() == c,
                (Some(shape), c) => r is Some && has_shape(r->0, shape) && final(self).position() == c,
            },
    {
        let ghost ts = self.views();
        self.push_cursor();
        let _ = self.swallow(TokenType::Whitespace);
        let keyword = match self.swallow(TokenType::Keyword) {
            Some(k) => k,
            None => {
                self.pop_cursor();
                return None;
            },
        };
        if !same_text(keyword.content.as_str(), "fn") {
            self.pop_cursor();
            return None;
        }
        let _ = self.swallow(TokenType::Whitespace);
        if self.peek(0).is_none() {
            self.pop_cursor();
            return None;
        }
        let name = match self.swallow(TokenType::Word) {
            Some(n) => n,
            None => {
                self.pop_cursor();
                return None;
            },
        };
        let _ = self.swallow(TokenType::Whitespace);
        let delim = match self.swallow(TokenType::Delimiter) {
            Some(d) => d,
            None => {
                self.pop_cursor();
                return None;
            },
        };
        if !same_text(delim.content.as_str(), "(") {
            self.pop_cursor();
            return None;
        }
        let arguments = self.parse_function_arguments();
        let _ = self.swallow(TokenType::Whitespace);
        let final_delim = match self.swallow(TokenType::Delimiter) {
            Some(d) => d,
            None => {
                self.pop_cursor();
                return None;
            },
        };
        let mut statements: Vec<Statement> = Vec::new();
        if same_text(final_delim.content.as_str(), "{") {
            statements = self.parse_statements();
        }
        proof {
            assert(statement_names(Seq::<Statement>::empty()) =~= Seq::<Seq<char>>::empty().map_values(|n: Seq<char>| Some(n)));
        }
        Some(Declaration::Function(name.content, arguments, statements))
    }

    fn parse_function_arguments(&mut self) -> (r: Vec<String>)
        requires
            old(self).wf(),
        ensures
            final(self).wf(),
            final(self).views() == old(self).views(),
            final(self).cursor_stack@ == old(self).cursor_stack@,
            string_views(r@) == arguments(old(self).views(), old(self).position()).0,
            final(self).position() == arguments(old(self).views(), old(self).position()).1,
    {
        let mut ret: Vec<String> = Vec::new();
        let ghost ts = self.views();
        let ghost start = self.cursor as int;
        loop
            invariant
                self.wf(),
                self.views() == ts,
                ts == old(self).views(),
                start == old(self).position(),
                self.cursor_stack@ == old(self).cursor_stack@,
                string_views(ret@) + arguments(ts, self.cursor as int).0 == arguments(ts, start).0,
                arguments(ts, self.cursor as int).1 == arguments(ts, start).1,
            decreases ts.len() - self.cursor,
        {
            let ghost c = self.cursor as int;
            let ghost before = ret@;
            if self.eoi() {
                proof {
                    assert(string_views(ret@) + Seq::<Seq<char>>::empty() =~= string_views(ret@));
                }
                return ret;
            }
            let _ = self.swallow(TokenType::Whitespace);
            let arg_opt = self.swallow(TokenType::Word);
            let _ = self.swallow(TokenType::Whitespace);
            let delim_opt = self.swallow(TokenType::Delimiter);
            let arg = match arg_opt {
                Some(a) => a,
                None => {
                    proof {
                        assert(string_views(ret@) + Seq::<Seq<char>>::empty() =~= string_views(ret@));
                    }
                    return ret;
                },
            };
            let delim = match delim_opt {
                Some(d) => d,
                None => {
                    proof {
                        assert(string_views(ret@) + Seq::<Seq<char>>::empty() =~= string_views(ret@));
                    }
                    return ret;
                },
            };
            ret.push(arg.content);
            proof {
                assert(string_views(ret@) =~= string_views(before).push(arg@.1));
            }
            if same_text(delim.content.as_str(), ")") {
                proof {
                    assert(string_views(ret@) =~= string_views(before) + seq![arg@.1]);
                }
                return ret;
            }
            proof {
                assert(string_views(ret@) + arguments(ts, self.cursor as int).0 =~= string_views(before) + arguments(ts, c).0);
            }
        }
    }

    fn parse_statements(&mut self) -> (r: Vec<Statement>)
        requires
            old(self).wf(),
        ensures
            final(self).wf(),
            final(self).views() == old(self).views(),
            statement_names(r@) == statements(old(self).views(), old(self).position()).0.map_values(|n: Seq<char>| Some(n)),
            final(self).position() == statements(old(self).views(), old(self).position()).1,
    {
        let mut ret: Vec<Statement> = Vec::new();
        let ghost ts = self.views();
        let ghost start = self.cursor as int;
        loop
            invariant
                self.wf(),
                self.views() == ts,
                ts == old(self).views(),
                start == old(self).position(),
                statement_names(ret@) + statements(ts, self.cursor as int).0.map_values(|n: Seq<char>| Some(n))
                    == statements(ts, start).0.map_values(|n: Seq<char>| Some(n)),
                statements(ts, self.cursor as int).1 == statements(ts, start).1,
            decreases ts.len() - self.cursor,
        {
            let ghost before = ret@;
            let c = self.cursor;
            if self.eoi() {
                proof {
                    assert(statement_names(ret@) + Seq::<Seq<char>>::empty().map_values(|n: Seq<char>| Some(n)) =~= statement_names(ret@));
                }
                return ret;
            }
            self.push_cursor();
            let _ = self.swallow(TokenType::Whitespace);
            match self.swallow(TokenType::Keyword) {
                Some(keyword) => {
                    if same_text(keyword.content.as_str(), "var") {
                        match self.parse_var_decl() {
                            Some(st) => {
                                ret.push(st);
                                proof {
                                    let v = var_decl(ts, skip(ts, c as int, TokenType::Whitespace) + 1);
                                    let tail = statements(ts, self.cursor as int).0;
                                    assert(statements(ts, c as int).0 == seq![v.0->0] + tail);
                                    assert(statement_names(ret@) =~= statement_names(before).push(Some(v.0->0)));
                                    assert((seq![v.0->0] + tail).map_values(|n: Seq<char>| Some(n))
                                        =~= seq![Some(v.0->0)] + tail.map_values(|n: Seq<char>| Some(n)));
                                    assert(statement_names(ret@) + tail.map_values(|n: Seq<char>| Some(n))
                                        =~= statement_names(before) + statements(ts, c as int).0.map_values(|n: Seq<char>| Some(n)));
                                }
                                continue;
                            },
                            None => {
                                self.pop_cursor();
                            },
                        }
                    }
                },
                None => {
                    self.pop_cursor();
                },
            }
            self.push_cursor();
            let _ = self.swallow(TokenType::Whitespace);
            match self.swallow(TokenType::Delimiter) {
                Some(delim) => {
                    if same_text(delim.content.as_str(), "}") {
                        proof {
                            assert(statement_names(ret@) + Seq::<Seq<char>>::empty().map_values(|n: Seq<char>| Some(n)) =~= statement_names(ret@));
                        }
                        return ret;
                    } else {
                        self.pop_cursor();
                    }
                },
                None => {
                    self.pop_cursor();
                },
            }
            if self.cursor <= c {
                proof {
                    assert(statement_names(ret@) + Seq::<Seq<char>>::empty().map_values(|n: Seq<char>| Some(n)) =~= statement_names(ret@));
                }
                return ret;
            }
        }
    }

    fn parse_var_decl(&mut self) -> (r: Option<Statement>)
        requires
            old(self).wf(),
        ensures
            final(self).wf(),
            final(self).views() == old(self).views(),
            final(self).cursor_stack@ == old(self).cursor_stack@,
            final(self).position() == var_decl(old(self).views(), old(self).position()).1,
            match var_decl(old(self).views(), old(self).position()).0 {
                None => r is None,
                Some(n) => r matches Some(Statement::Variable(x)) && x@ == n,
            },
    {
        let _ = self.swallow(TokenType::Whitespace);
        let name = match self.swallow(TokenType::Word) {
            Some(n) => n,
            None => {
                return None;
            },
        };
        let _ = self.swallow(TokenType::Whitespace);
        let delim = match self.swallow(TokenType::Delimiter) {
            Some(d) => d,
            None => {
                return None;
            },
        };
        if !same_text(delim.content.as_str(), ";") {
            return None;
        }
        Some(Statement::Variable(name.content))
    }

    fn eoi(&self) -> (r: bool)
        ensures
            r == (self.cursor >= self.tokens@.len()),
    {
        self.cursor >= self.tokens.len()
    }

    fn inc_cursor(&mut self, i: usize)
        requires
            old(self).wf(),
            old(self).cursor + i <= old(self).tokens@.len(),
        ensures
            final(self).wf(),
            final(self).tokens@ == old(self).tokens@,
            final(self).cursor_stack@ == old(self).cursor_stack@,
            final(self).cursor == old(self).cursor + i,
    {
        self.cursor = self.cursor + i;
    }

    fn push_cursor(&mut self)
        requires
            old(self).wf(),
        ensures
            final(self).wf(),
            final(self).tokens@ == old(self).tokens@,
            final(self).cursor == old(self).cursor,
            final(self).cursor_stack@ == old(self).cursor_stack@.push(old(self).cursor),
    {
        self.cursor_stack.push(self.cursor);
    }

    /// Returns to the position saved last, if one is saved.
    fn pop_cursor(&mut self)
        requires
            old(self).wf(),
        ensures
            final(self).wf(),
            final(self).tokens@ == old(self).tokens@,
            old(self).cursor_stack@.len() > 0 ==> final(self).cursor == old(self).cursor_stack@.last()
                && final(self).cursor_stack@ == old(self).cursor_stack@.drop_last(),
            old(self).cursor_stack@.len() == 0 ==> final(self).cursor == old(self).cursor
                && final(self).cursor_stack@ == old(self).cursor_stack@,
    {
        match self.cursor_stack.pop() {
            Some(c) => {
                self.cursor = c;
            },
            None => {},
        }
    }

    /// A copy of the token `n` places ahead of the cursor, if there is one.
    fn peek(&self, n: usize) -> (r: Option<Token>)
        requires
            self.wf(),
        ensures
            r is Some <==> self.cursor + n < self.tokens@.len(),
            r is Some ==> r->0@ == self.views()[self.cursor + n],
    {
        if n >= self.tokens.len() - self.cursor {
            return None;
        }
        Some(self.tokens[self.cursor + n].duplicate())
    }

    /// Takes the token at the cursor if it has class `token_type`.
    fn swallow(&mut self, token_type: TokenType) -> (r: Option<Token>)
        requires
            old(self).wf(),
        ensures
            final(self).wf(),
            final(self).tokens@ == old(self).tokens@,
            final(self).cursor_stack@ == old(self).cursor_stack@,
            match take(old(self).views(), old(self).position(), token_type) {
                Some(content) => r is Some && r->0@ == (token_type, content) && final(self).cursor == old(self).cursor + 1,
                None => r is None && final(self).cursor == old(self).cursor,
            },
    {
        if self.eoi() {
            return None;
        }
        let token = match self.peek(0) {
            Some(t) => t,
            None => {
                return None;
            },
        };
        if token.token_type != token_type {
            return None;
        }
        self.inc_cursor(1);
        Some(token)
    }

    /// Takes the whole run of tokens of class `token_type` at the cursor;
    /// `None` where the run is empty.
    fn swallow_multiple(&mut self, token_type: TokenType) -> (r: Option<Vec<Token>>)
        requires
            old(self).wf(),
        ensures
            final(self).wf(),
            final(self).tokens@ == old(self).tokens@,
            final(self).cursor_stack@ == old(self).cursor_stack@,
            ({
                let c = old(self).position();
                let n = run_count(old(self).views(), c, token_type);
                if n == 0 {
                    r is None && final(self).cursor == old(self).cursor
                } else {
                    r is Some && token_views(r->0@) == old(self).views().subrange(c, c + n)
                        && final(self).cursor == c + n
                }
            }),
    {
        let mut tokens: Vec<Token> = Vec::new();
        let ghost start = self.cursor as int;
        let ghost ts = self.views();
        loop
            invariant
                self.wf(),
                self.tokens@ == old(self).tokens@,
                self.cursor_stack@ == old(self).cursor_stack@,
                ts == self.views(),
                start == old(self).cursor,
                start <= self.cursor,
                token_views(tokens@) == ts.subrange(start, self.cursor as int),
                forall|k: int| start <= k < self.cursor ==> (#[trigger] ts[k]).0 == token_type,
            ensures
                self.wf(),
                self.tokens@ == old(self).tokens@,
                self.cursor_stack@ == old(self).cursor_stack@,
                start <= self.cursor,
                token_views(tokens@) == ts.subrange(start, self.cursor as int),
                forall|k: int| start <= k < self.cursor ==> (#[trigger] ts[k]).0 == token_type,
                self.cursor == ts.len() || ts[self.cursor as int].0 != token_type,
            decreases ts.len() - self.cursor,
        {
            if self.eoi() {
                break;
            }
            let token = match self.peek(0) {
                Some(t) => t,
                None => {
                    break;
                },
            };
            if token.token_type == token_type {
                let ghost before = tokens@;
                let ghost c = self.cursor as int;
                tokens.push(token.duplicate());
                assert(token_views(tokens@) =~= token_views(before).push(ts[c]));
                self.inc_cursor(1);
                assert(token_views(tokens@) =~= ts.subrange(start, self.cursor as int));
            } else {
                break;
            }
        }
        proof {
            lemma_run_count_exact(ts, start, self.cursor as int, token_type);
        }
        if tokens.len() == 0 {
            return None;
        }
        Some(tokens)
    }
}

} // verus!
