//! The recursive-descent parser: one token of lookahead beyond a held current
//! token, one statement per source line, and a flat, right-associative
//! expression grammar.
//!
//! The grammar is specified first as pure functions over a token-view
//! sequence and a cursor (`sp_primary`, `sp_expr`, `sp_args`, `sp_statement`,
//! `sp_program`); the executable parser's contracts state that it returns
//! exactly what those functions describe.

use crate::ast::{BinaryOperator, Expression, ExprView, Program, Statement, StmtView};
use crate::numtext::{int_text_val, is_i32_text, text_to_i32};
use crate::token::{ParseError, Token, TokenKind, TokenView};
use vstd::prelude::*;

verus! {

/// The token at cursor `c`, with an end-of-input padding token beyond the end
/// of the stream.
pub open spec fn tok_at(ts: Seq<TokenView>, c: int) -> TokenView {
    if 0 <= c < ts.len() {
        ts[c]
    } else {
        TokenView { kind: TokenKind::Eof, text: Seq::empty() }
    }
}

/// Can a token of kind `k` begin an expression?
pub open spec fn is_primary_start(k: TokenKind) -> bool {
    k == TokenKind::Ident || k == TokenKind::Int || k == TokenKind::LParen
}

/// The binary operator an arithmetic operator token stands for, if any. Only
/// these five continue an expression; comparisons and boolean operators are
/// not part of the expression grammar.
pub open spec fn arith_op_of(k: TokenKind) -> Option<BinaryOperator> {
    match k {
        TokenKind::Plus => Some(BinaryOperator::Add),
        TokenKind::Minus => Some(BinaryOperator::Sub),
        TokenKind::Asterisk => Some(BinaryOperator::Mul),
        TokenKind::Slash => Some(BinaryOperator::Div),
        TokenKind::Percent => Some(BinaryOperator::Mod),
        _ => None,
    }
}

/// How many tokens remain at cursor `c`: the parser's termination measure.
pub open spec fn rem_toks(ts: Seq<TokenView>, c: int) -> int {
    if c < ts.len() {
        ts.len() - c
    } else {
        0
    }
}

/// Every integer-literal token carries the text of a value in `i32` range:
/// the tokenizer's contract.
pub open spec fn texts_ok(ts: Seq<TokenView>) -> bool {
    forall|i: int|
        0 <= i < ts.len() ==> ((#[trigger] ts[i]).kind == TokenKind::Int ==> is_i32_text(
            ts[i].text,
        ))
}

/// Parse one primary: an identifier, an integer literal, or a parenthesized
/// expression. On success, the returned cursor is the position of the
/// primary's last token.
pub open spec fn sp_primary(ts: Seq<TokenView>, c: int) -> Result<(ExprView, int), TokenView>
    decreases rem_toks(ts, c), 0int,
{
    let t = tok_at(ts, c);
    if t.kind == TokenKind::Ident {
        Ok((ExprView::Identifier(t.text), c))
    } else if t.kind == TokenKind::Int {
        if is_i32_text(t.text) {
            Ok((ExprView::Integer(int_text_val(t.text) as i32), c))
        } else {
            Err(t)
        }
    } else if t.kind == TokenKind::LParen {
        match sp_expr(ts, c + 1) {
            Err(e) => Err(e),
            Ok((inner, c2)) => {
                if tok_at(ts, c2).kind == TokenKind::RParen {
                    Ok((inner, c2))
                } else {
                    Err(tok_at(ts, c2))
                }
            },
        }
    } else {
        Err(t)
    }
}

/// Parse one expression: a primary, then, if an arithmetic operator follows,
/// the whole rest as the right operand — the grammar is precedence-flat and
/// right-associative. On success, the returned cursor is the position just
/// after the expression.
pub open spec fn sp_expr(ts: Seq<TokenView>, c: int) -> Result<(ExprView, int), TokenView>
    decreases rem_toks(ts, c), 1int,
{
    if !is_primary_start(tok_at(ts, c).kind) {
        Err(tok_at(ts, c))
    } else {
        match sp_primary(ts, c) {
            Err(e) => Err(e),
            Ok((prim, c1)) => {
                let c2 = c1 + 1;
                match arith_op_of(tok_at(ts, c2).kind) {
                    Some(op) => {
                        let start = if c2 + 1 > c { c2 + 1 } else { c + 1 };
                        match sp_expr(ts, start) {
                            Err(e) => Err(e),
                            Ok((rhs, c3)) => Ok(
                                (
                                    ExprView::Binary {
                                        left: Box::new(prim),
                                        operator: op,
                                        right: Box::new(rhs),
                                    },
                                    c3,
                                ),
                            ),
                        }
                    },
                    None => Ok((prim, c2)),
                }
            },
        }
    }
}

/// Parse a comma-separated, non-empty argument list; each comma is consumed
/// and followed by a further expression. On success, the returned cursor is
/// the position just after the last argument.
pub open spec fn sp_args(ts: Seq<TokenView>, c: int) -> Result<(Seq<ExprView>, int), TokenView>
    decreases rem_toks(ts, c), 2int,
{
    if !is_primary_start(tok_at(ts, c).kind) {
        Err(tok_at(ts, c))
    } else {
        match sp_expr(ts, c) {
            Err(e) => Err(e),
            Ok((e, c1)) => {
                if tok_at(ts, c1).kind == TokenKind::Comma {
                    let start = if c1 + 1 > c { c1 + 1 } else { c + 1 };
                    match sp_args(ts, start) {
                        Err(e2) => Err(e2),
                        Ok((rest, c2)) => Ok((seq![e].add(rest), c2)),
                    }
                } else {
                    Ok((seq![e], c1))
                }
            },
        }
    }
}

/// Parse one statement: a constant binding after the binding keyword, a
/// built-in call after the call keyword (named by that keyword token's own
/// text), and an empty statement — which consumes nothing — otherwise.
pub open spec fn sp_statement(ts: Seq<TokenView>, c: int) -> Result<(StmtView, int), TokenView>
    decreases rem_toks(ts, c), 3int,
{
    let t = tok_at(ts, c);
    if t.kind == TokenKind::Const {
        let name = tok_at(ts, c + 1).text;
        if tok_at(ts, c + 2).kind != TokenKind::Assign {
            Err(tok_at(ts, c + 2))
        } else {
            match sp_expr(ts, c + 3) {
                Err(e) => Err(e),
                Ok((e, c1)) => {
                    if tok_at(ts, c1).kind == TokenKind::Eol {
                        Ok((StmtView::ConstAssignment { identifier: name, expression: e }, c1))
                    } else {
                        Err(tok_at(ts, c1 + 1))
                    }
                },
            }
        }
    } else if t.kind == TokenKind::Print {
        match sp_args(ts, c + 1) {
            Err(e) => Err(e),
            Ok((args, c1)) => Ok(
                (StmtView::MethodInvocation { identifier: t.text, arguments: args }, c1),
            ),
        }
    } else {
        Ok((StmtView::Empty, c))
    }
}

/// Parse a whole program: statements until end-of-input, each required to end
/// at an end-of-line or end-of-input token, which is then consumed.
pub open spec fn sp_program(ts: Seq<TokenView>, c: int) -> Result<Seq<StmtView>, TokenView>
    decreases rem_toks(ts, c), 4int,
{
    if tok_at(ts, c).kind == TokenKind::Eof {
        Ok(Seq::empty())
    } else {
        match sp_statement(ts, c) {
            Err(e) => Err(e),
            Ok((s, c1)) => {
                let k = tok_at(ts, c1).kind;
                if k == TokenKind::Eol || k == TokenKind::Eof {
                    let start = if c1 + 1 > c { c1 + 1 } else { c + 1 };
                    match sp_program(ts, start) {
                        Err(e2) => Err(e2),
                        Ok(rest) => Ok(seq![s].add(rest)),
                    }
                } else {
                    Err(tok_at(ts, c1 + 1))
                }
            },
        }
    }
}

/// The recursive-descent parser: the token stream, a two-token window
/// (`current_token`, `next_token`), and the index of the next stream token to
/// pull into the window. The ghost `cursor` is the position of
/// `current_token` in the stream.
pub struct Parser {
    tokens: Vec<Token>,
    pos: usize,
    current_token: Token,
    next_token: Token,
    cursor: Ghost<int>,
}

/// An end-of-input token, used to pad the window past the end of the stream.
fn eof_token() -> (t: Token)
    ensures
        t@ == (TokenView { kind: TokenKind::Eof, text: Seq::empty() }),
{
    Token { kind: TokenKind::Eof, value: String::new() }
}

impl Parser {
    /// The stream as token views.
    pub closed spec fn toks(&self) -> Seq<TokenView> {
        self.tokens@.map_values(|t: Token| t@)
    }

    /// The position of the current token.
    pub closed spec fn cur(&self) -> int {
        self.cursor@
    }

    /// The window and the pull index agree with the ghost cursor.
    pub closed spec fn wf(&self) -> bool {
        &&& 0 <= self.cursor@
        &&& self.current_token@ == tok_at(self.toks(), self.cursor@)
        &&& self.next_token@ == tok_at(self.toks(), self.cursor@ + 1)
        &&& self.pos as int == if self.cursor@ + 2 <= self.toks().len() {
            self.cursor@ + 2
        } else {
            self.toks().len() as int
        }
    }

    /// Builds a parser over `tokens`, priming the two-token window.
    pub fn new(tokens: Vec<Token>) -> (p: Parser)
        ensures
            p.wf(),
            p.cur() == 0,
            p.toks() == tokens@.map_values(|t: Token| t@),
    {
        let n = tokens.len();
        let current_token = if n > 0 {
            tokens[0].clone()
        } else {
            eof_token()
        };
        let next_token = if n > 1 {
            tokens[1].clone()
        } else {
            eof_token()
        };
        let pos: usize = if n >= 2 {
            2
        } else {
            n
        };
        Parser { tokens, pos, current_token, next_token, cursor: Ghost(0) }
    }

    /// Advances the window by one token.
    fn next_token(&mut self)
        requires
            old(self).wf(),
        ensures
            final(self).wf(),
            final(self).toks() == old(self).toks(),
            final(self).cur() == old(self).cur() + 1,
    {
        self.current_token = self.next_token.clone();
        if self.pos < self.tokens.len() {
            self.next_token = self.tokens[self.pos].clone();
            self.pos = self.pos + 1;
        } else {
            self.next_token = eof_token();
        }
        proof {
            self.cursor@ = self.cursor@ + 1;
        }
    }

    /// Advances past the lookahead token if it has the expected kind.
    fn expect_next_token(&mut self, expect: TokenKind) -> (b: bool)
        requires
            old(self).wf(),
        ensures
            final(self).wf(),
            final(self).toks() == old(self).toks(),
            b == (tok_at(old(self).toks(), old(self).cur() + 1).kind == expect),
            b ==> final(self).cur() == old(self).cur() + 1,
            !b ==> *final(self) == *old(self),
    {
        if self.next_token.kind == expect {
            self.next_token();
            true
        } else {
            false
        }
    }

    /// The current token must be an integer literal with valid text; returns
    /// its value.
    fn parse_integer(&self) -> (n: i32)
        requires
            self.wf(),
            is_i32_text(tok_at(self.toks(), self.cur()).text),
        ensures
            n as int == int_text_val(tok_at(self.toks(), self.cur()).text),
    {
        text_to_i32(self.current_token.value.as_str())
    }

    /// Parses a parenthesized expression; the current token must be the
    /// opening parenthesis, and on success the closing one is current.
    fn parse_grouped_expression(&mut self) -> (r: Result<Expression, ParseError>)
        requires
            old(self).wf(),
            texts_ok(old(self).toks()),
            tok_at(old(self).toks(), old(self).cur()).kind == TokenKind::LParen,
        ensures
            final(self).wf(),
            final(self).toks() == old(self).toks(),
            old(self).cur() <= final(self).cur(),
            (match r {
                Ok(e) => sp_primary(old(self).toks(), old(self).cur()) matches Ok((ev, c1))
                    && e@ == ev && final(self).cur() == c1 && c1 > old(self).cur(),
                Err(pe) => sp_primary(old(self).toks(), old(self).cur()) matches Err(g) && pe@
                    == g,
            }),
        decreases rem_toks(self.toks(), self.cur()), 0int,
    {
        self.next_token();
        match self.parse_expression() {
            Err(e) => Err(e),
            Ok(e) => {
                if self.current_token.kind == TokenKind::RParen {
                    Ok(e)
                } else {
                    Err(ParseError::TokenInvalid(self.current_token.clone()))
                }
            },
        }
    }

    /// Parses the right operand of a binary operation and wraps it with the
    /// given left operand; the current token must be the operator.
    fn parse_binary_operation(&mut self, left: Expression, operator: BinaryOperator) -> (r: Result<
        Expression,
        ParseError,
    >)
        requires
            old(self).wf(),
            texts_ok(old(self).toks()),
            arith_op_of(tok_at(old(self).toks(), old(self).cur()).kind) == Some(operator),
        ensures
            final(self).wf(),
            final(self).toks() == old(self).toks(),
            old(self).cur() <= final(self).cur(),
            (match r {
                Ok(e) => sp_expr(old(self).toks(), old(self).cur() + 1) matches Ok((rv, c3))
                    && e@ == (ExprView::Binary {
                    left: Box::new(left@),
                    operator,
                    right: Box::new(rv),
                }) && final(self).cur() == c3 && c3 > old(self).cur() + 1,
                Err(pe) => sp_expr(old(self).toks(), old(self).cur() + 1) matches Err(g) && pe@
                    == g,
            }),
        decreases rem_toks(self.toks(), self.cur()), 2int,
    {
        self.next_token();
        match self.parse_expression() {
            Err(e) => Err(e),
            Ok(right) => Ok(
                Expression::Binary { left: Box::new(left), operator, right: Box::new(right) },
            ),
        }
    }

    /// Parses one expression starting at the current token.
    fn parse_expression(&mut self) -> (r: Result<Expression, ParseError>)
        requires
            old(self).wf(),
            texts_ok(old(self).toks()),
        ensures
            final(self).wf(),
            final(self).toks() == old(self).toks(),
            old(self).cur() <= final(self).cur(),
            (match r {
                Ok(e) => sp_expr(old(self).toks(), old(self).cur()) matches Ok((ev, c2)) && e@
                    == ev && final(self).cur() == c2 && c2 > old(self).cur(),
                Err(pe) => sp_expr(old(self).toks(), old(self).cur()) matches Err(g) && pe@ == g,
            }),
        decreases rem_toks(self.toks(), self.cur()), 1int,
    {
        let ghost ts = self.toks();
        let ghost c0 = self.cur();
        let prim: Expression;
        match self.current_token.kind {
            TokenKind::Ident => {
                prim = Expression::Identifier(self.current_token.value.clone());
            },
            TokenKind::Int => {
                let v = self.parse_integer();
                prim = Expression::Integer(v);
            },
            TokenKind::LParen => {
                match self.parse_grouped_expression() {
                    Ok(e) => {
                        prim = e;
                    },
                    Err(pe) => {
                        return Err(pe);
                    },
                }
            },
            _ => {
                return Err(ParseError::TokenInvalid(self.current_token.clone()));
            },
        }
        proof {
            assert(sp_primary(ts, c0) matches Ok((pv, c1)) && prim@ == pv && self.cur() == c1);
        }
        let ghost c1 = self.cur();
        self.next_token();
        let operator: BinaryOperator;
        match self.current_token.kind {
            TokenKind::Plus => {
                operator = BinaryOperator::Add;
            },
            TokenKind::Minus => {
                operator = BinaryOperator::Sub;
            },
            TokenKind::Asterisk => {
                operator = BinaryOperator::Mul;
            },
            TokenKind::Slash => {
                operator = BinaryOperator::Div;
            },
            TokenKind::Percent => {
                operator = BinaryOperator::Mod;
            },
            _ => {
                return Ok(prim);
            },
        }
        self.parse_binary_operation(prim, operator)
    }

    /// Parses a non-empty, comma-separated argument list.
    fn parse_arguments(&mut self) -> (r: Result<Vec<Expression>, ParseError>)
        requires
            old(self).wf(),
            texts_ok(old(self).toks()),
        ensures
            final(self).wf(),
            final(self).toks() == old(self).toks(),
            old(self).cur() <= final(self).cur(),
            (match r {
                Ok(args) => sp_args(old(self).toks(), old(self).cur()) matches Ok((avs, c1))
                    && args@.map_values(|e: Expression| e@) == avs && final(self).cur() == c1,
                Err(pe) => sp_args(old(self).toks(), old(self).cur()) matches Err(g) && pe@ == g,
            }),
        decreases rem_toks(self.toks(), self.cur()), 3int,
    {
        let ghost ts = self.toks();
        let ghost c0 = self.cur();
        proof {
            if !is_primary_start(tok_at(ts, c0).kind) {
                assert(sp_expr(ts, c0) == Err::<(ExprView, int), TokenView>(tok_at(ts, c0)));
            }
        }
        match self.parse_expression() {
            Err(e) => Err(e),
            Ok(e) => {
                if self.current_token.kind == TokenKind::Comma {
                    self.next_token();
                    match self.parse_arguments() {
                        Err(e2) => Err(e2),
                        Ok(mut rest) => {
                            rest.insert(0, e);
                            proof {
                                assert(rest@.map_values(|x: Expression| x@) =~= seq![e@].add(
                                    rest@.skip(1).map_values(|x: Expression| x@),
                                ));
                            }
                            Ok(rest)
                        },
                    }
                } else {
                    let mut args: Vec<Expression> = Vec::new();
                    args.push(e);
                    proof {
                        assert(args@.map_values(|x: Expression| x@) =~= seq![e@]);
                    }
                    Ok(args)
                }
            },
        }
    }

    /// Parses a constant-binding statement; the current token must be the
    /// binding keyword.
    fn parse_const_assignment_statement(&mut self) -> (r: Result<Statement, ParseError>)
        requires
            old(self).wf(),
            texts_ok(old(self).toks()),
            tok_at(old(self).toks(), old(self).cur()).kind == TokenKind::Const,
        ensures
            final(self).wf(),
            final(self).toks() == old(self).toks(),
            old(self).cur() <= final(self).cur(),
            (match r {
                Ok(s) => sp_statement(old(self).toks(), old(self).cur()) matches Ok((sv, c1))
                    && s@ == sv && final(self).cur() == c1,
                Err(pe) => sp_statement(old(self).toks(), old(self).cur()) matches Err(g) && pe@
                    == g,
            }),
    {
        self.next_token();
        let identifier = self.current_token.value.clone();
        if !self.expect_next_token(TokenKind::Assign) {
            return Err(ParseError::TokenInvalid(self.next_token.clone()));
        }
        self.next_token();
        let expression = match self.parse_expression() {
            Ok(e) => e,
            Err(pe) => {
                return Err(pe);
            },
        };
        if self.current_token.kind != TokenKind::Eol {
            return Err(ParseError::TokenInvalid(self.next_token.clone()));
        }
        Ok(Statement::ConstAssignment { identifier, expression })
    }

    /// Parses a built-in-call statement; the current token must be the call
    /// keyword, whose own text names the built-in.
    fn parse_print_statement(&mut self) -> (r: Result<Statement, ParseError>)
        requires
            old(self).wf(),
            texts_ok(old(self).toks()),
            tok_at(old(self).toks(), old(self).cur()).kind == TokenKind::Print,
        ensures
            final(self).wf(),
            final(self).toks() == old(self).toks(),
            old(self).cur() <= final(self).cur(),
            (match r {
                Ok(s) => sp_statement(old(self).toks(), old(self).cur()) matches Ok((sv, c1))
                    && s@ == sv && final(self).cur() == c1,
                Err(pe) => sp_statement(old(self).toks(), old(self).cur()) matches Err(g) && pe@
                    == g,
            }),
    {
        let identifier = self.current_token.value.clone();
        self.next_token();
        match self.parse_arguments() {
            Err(e) => Err(e),
            Ok(arguments) => Ok(Statement::MethodInvocation { identifier, arguments }),
        }
    }

    /// Parses one statement, dispatching on the current token's kind; an
    /// empty statement consumes nothing.
    fn parse_statement(&mut self) -> (r: Result<Statement, ParseError>)
        requires
            old(self).wf(),
            texts_ok(old(self).toks()),
        ensures
            final(self).wf(),
            final(self).toks() == old(self).toks(),
            old(self).cur() <= final(self).cur(),
            (match r {
                Ok(s) => sp_statement(old(self).toks(), old(self).cur()) matches Ok((sv, c1))
                    && s@ == sv && final(self).cur() == c1,
                Err(pe) => sp_statement(old(self).toks(), old(self).cur()) matches Err(g) && pe@
                    == g,
            }),
    {
        match self.current_token.kind {
            TokenKind::Const => self.parse_const_assignment_statement(),
            TokenKind::Print => self.parse_print_statement(),
            _ => Ok(Statement::Empty),
        }
    }

    /// Parses statements until end-of-input, each required to end at an
    /// end-of-line or end-of-input token.
    fn parse_statements(&mut self) -> (r: Result<Vec<Statement>, ParseError>)
        requires
            old(self).wf(),
            texts_ok(old(self).toks()),
        ensures
            final(self).wf(),
            (match r {
                Ok(ss) => sp_program(old(self).toks(), old(self).cur()) matches Ok(svs)
                    && ss@.map_values(|s: Statement| s@) == svs,
                Err(pe) => sp_program(old(self).toks(), old(self).cur()) matches Err(g) && pe@
                    == g,
            }),
        decreases rem_toks(self.toks(), self.cur()), 5int,
    {
        let ghost ts = self.toks();
        let ghost c0 = self.cur();
        if self.current_token.kind == TokenKind::Eof {
            let ss: Vec<Statement> = Vec::new();
            proof {
                assert(ss@.map_values(|s: Statement| s@) =~= Seq::<StmtView>::empty());
            }
            return Ok(ss);
        }
        match self.parse_statement() {
            Err(e) => Err(e),
            Ok(s) => {
                let k = self.current_token.kind;
                if !(k == TokenKind::Eol || k == TokenKind::Eof) {
                    return Err(ParseError::TokenInvalid(self.next_token.clone()));
                }
                self.next_token();
                match self.parse_statements() {
                    Err(e2) => Err(e2),
                    Ok(mut rest) => {
                        rest.insert(0, s);
                        proof {
                            assert(rest@.map_values(|x: Statement| x@) =~= seq![s@].add(
                                rest@.skip(1).map_values(|x: Statement| x@),
                            ));
                        }
                        Ok(rest)
                    },
                }
            },
        }
    }

    /// Parses the whole token stream into a program, or reports the first
    /// offending token. Requires the tokenizer's guarantee that every
    /// integer-literal token's text denotes a value in `i32` range.
    pub fn parse_program(&mut self) -> (r: Result<Program, ParseError>)
        requires
            old(self).wf(),
            texts_ok(old(self).toks()),
        ensures
            final(self).wf(),
            (match r {
                Ok(prog) => sp_program(old(self).toks(), old(self).cur()) matches Ok(svs)
                    && prog@ == svs,
                Err(pe) => sp_program(old(self).toks(), old(self).cur()) matches Err(g) && pe@
                    == g,
            }),
    {
        match self.parse_statements() {
            Err(e) => Err(e),
            Ok(statements) => Ok(Program { statements }),
        }
    }
}

} // verus!
