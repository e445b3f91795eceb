//! The parser's position in the token list, and the steps that read one
//! token.

use vstd::prelude::*;
use crate::lexer::{Span, Token, TokenKind, TokenView};
use crate::parser::errors::{ParseError, ParseErrorView};
use crate::text::owned;

verus! {

/// What a grammar function yields: a value and the position after it, or
/// the error that ends the parse.
pub type Parsed<V> = Result<(V, nat), ParseErrorView>;

/// Whether the token at `pos` exists and has this kind.
pub open spec fn is_kind(toks: Seq<TokenView>, pos: nat, kind: TokenKind) -> bool {
    pos < toks.len() && toks[pos as int].kind == kind
}

/// The error for what stands at `pos` when `expected` was due: the token
/// there, or the end of input.
pub open spec fn unexpected(toks: Seq<TokenView>, pos: nat, expected: Seq<char>) -> ParseErrorView {
    if pos < toks.len() {
        ParseErrorView::UnexpectedToken {
            found: toks[pos as int].text,
            expected: expected,
            position: toks[pos as int].span.start,
        }
    } else {
        ParseErrorView::UnexpectedEof { expected: expected }
    }
}

/// One token of the given kind: the token and the position after it.
pub open spec fn expect(toks: Seq<TokenView>, pos: nat, kind: TokenKind, expected: Seq<char>) -> Parsed<TokenView> {
    if is_kind(toks, pos, kind) {
        Ok((toks[pos as int], pos + 1))
    } else {
        Err(unexpected(toks, pos, expected))
    }
}

/// Whether a kind can serve as a field or parameter name: an identifier,
/// or one of the words `entity`, `event` and `id`.
pub open spec fn is_name_kind(kind: TokenKind) -> bool {
    kind == TokenKind::Identifier || kind == TokenKind::Entity || kind == TokenKind::Event || kind
        == TokenKind::TypeId
}

/// One field or parameter name.
pub open spec fn expect_name(toks: Seq<TokenView>, pos: nat, expected: Seq<char>) -> Parsed<TokenView> {
    if pos < toks.len() && is_name_kind(toks[pos as int].kind) {
        Ok((toks[pos as int], pos + 1))
    } else {
        Err(unexpected(toks, pos, expected))
    }
}

/// The span of the tokens from `from` up to, not including, `to`: from the
/// start of the first to the end of the last.
pub open spec fn span_between(toks: Seq<TokenView>, from: nat, to: nat) -> Span {
    Span { start: toks[from as int].span.start, end: toks[to - 1].span.end }
}

/// The error of a parse that would not move. Every production consumes a
/// token, so no input yields it (`laws::lemma_parse_never_stalls`); it is
/// what lets the grammar be read as a definition by recursion on the tokens
/// that remain.
pub open spec fn stalled() -> ParseErrorView {
    ParseErrorView::InvalidSyntax { message: "no progress"@ }
}

/// A result, provided it moved forward from `from` and stayed within the
/// tokens. On every result of the grammar this is the identity: that is
/// what the lemmas of `laws` show, production by production.
pub open spec fn step<V>(toks: Seq<TokenView>, from: nat, r: Parsed<V>) -> Parsed<V> {
    match r {
        Ok((v, p)) => if from < p <= toks.len() {
            r
        } else {
            Err(stalled())
        },
        Err(_) => r,
    }
}

/// Whether what was parsed is what the grammar yields, and the parser
/// stands where the grammar says.
pub open spec fn realises<T: View>(r: Result<T, ParseError>, after: Parser, want: Parsed<T::V>) -> bool {
    match want {
        Ok((v, p)) => r is Ok && r->Ok_0@ == v && after.at() == p,
        Err(e) => r is Err && r->Err_0@ == e,
    }
}

/// The parser: the tokens and the index of the next one.
pub struct Parser {
    tokens: Vec<Token>,
    pos: usize,
}

impl Parser {
    /// The tokens being parsed.
    pub closed spec fn toks(self) -> Seq<TokenView> {
        Token::views(self.tokens@)
    }

    /// The index of the next token.
    pub closed spec fn at(self) -> nat {
        self.pos as nat
    }

    /// The position is within the tokens, or just past them.
    pub closed spec fn wf(self) -> bool {
        self.pos <= self.tokens.len()
    }

    /// `self` is `before` after some tokens were consumed: the tokens are
    /// the same and the position is valid.
    pub closed spec fn follows(self, before: Parser) -> bool {
        self.tokens == before.tokens && self.wf()
    }

    /// Consuming leaves the tokens as they were.
    pub broadcast proof fn lemma_follows(self, before: Parser)
        requires
            #[trigger] self.follows(before),
        ensures
            self.toks() == before.toks(),
            self.wf(),
            self.at() <= self.toks().len(),
    {
    }

    /// A valid parser follows itself.
    pub broadcast proof fn lemma_follows_refl(self)
        requires
            #[trigger] self.wf(),
        ensures
            self.follows(self),
    {
    }

    /// Following is transitive.
    pub broadcast proof fn lemma_follows_trans(self, mid: Parser, before: Parser)
        requires
            #[trigger] self.follows(mid),
            #[trigger] mid.follows(before),
        ensures
            self.follows(before),
    {
    }

    pub fn new(tokens: Vec<Token>) -> (p: Self)
        ensures
            p.toks() == Token::views(tokens@),
            p.at() == 0,
            p.wf(),
    {
        Self { tokens, pos: 0 }
    }

    pub fn is_at_end(&self) -> (r: bool)
        requires
            self.wf(),
        ensures
            r == (self.at() >= self.toks().len()),
    {
        self.pos >= self.tokens.len()
    }

    /// The next token, if there is one.
    pub fn peek(&self) -> (r: Option<&Token>)
        requires
            self.wf(),
        ensures
            r is Some == (self.at() < self.toks().len()),
            r is Some ==> r->0@ == self.toks()[self.at() as int],
    {
        if self.pos < self.tokens.len() {
            Some(&self.tokens[self.pos])
        } else {
            None
        }
    }

    /// The kind of the token `ahead` places after the next one.
    pub fn peek_kind(&self, ahead: usize) -> (r: Option<TokenKind>)
        requires
            self.wf(),
        ensures
            r is Some == (self.at() + ahead < self.toks().len()),
            r is Some ==> r->0 == self.toks()[self.at() + ahead].kind,
    {
        if ahead < self.tokens.len() - self.pos {
            Some(self.tokens[self.pos + ahead].kind)
        } else {
            None
        }
    }

    /// Moves past the next token, if there is one.
    pub fn advance(&mut self) -> (r: Option<&Token>)
        requires
            old(self).wf(),
        ensures
            final(self).follows(*old(self)),
            r is Some == (old(self).at() < old(self).toks().len()),
            r is Some ==> r->0@ == old(self).toks()[old(self).at() as int] && final(self).at() == old(self).at()
                + 1,
            r is None ==> final(self).at() == old(self).at(),
    {
        if self.pos < self.tokens.len() {
            self.pos = self.pos + 1;
            Some(&self.tokens[self.pos - 1])
        } else {
            None
        }
    }

    /// Moves past the next token, which the caller knows to be there.
    pub fn skip(&mut self)
        requires
            old(self).wf(),
            old(self).at() < old(self).toks().len(),
        ensures
            final(self).follows(*old(self)),
            final(self).at() == old(self).at() + 1,
    {
        self.pos = self.pos + 1;
    }

    /// Whether the next token has this kind.
    pub fn check(&self, kind: TokenKind) -> (r: bool)
        requires
            self.wf(),
        ensures
            r == is_kind(self.toks(), self.at(), kind),
    {
        if self.pos < self.tokens.len() {
            self.tokens[self.pos].kind == kind
        } else {
            false
        }
    }

    /// The error for what stands at the position when `expected` was due.
    pub fn error_here(&self, expected: &str) -> (e: ParseError)
        requires
            self.wf(),
        ensures
            e@ == unexpected(self.toks(), self.at(), expected@),
    {
        if self.pos < self.tokens.len() {
            let token = &self.tokens[self.pos];
            ParseError::UnexpectedToken {
                found: token.text.clone(),
                expected: owned(expected),
                position: token.span.start,
            }
        } else {
            ParseError::UnexpectedEof { expected: owned(expected) }
        }
    }

    /// Consumes one token of the given kind.
    pub fn consume(&mut self, kind: TokenKind, expected: &str) -> (r: Result<Token, ParseError>)
        requires
            old(self).wf(),
        ensures
            final(self).follows(*old(self)),
            match expect(old(self).toks(), old(self).at(), kind, expected@) {
                Ok((t, p)) => r is Ok && r->Ok_0@ == t && final(self).at() == p,
                Err(e) => r is Err && r->Err_0@ == e && final(self).at() == old(self).at(),
            },
    {
        if self.check(kind) {
            let token = &self.tokens[self.pos];
            let copy = Token { kind: token.kind, text: token.text.clone(), span: token.span };
            self.pos = self.pos + 1;
            Ok(copy)
        } else {
            Err(self.error_here(expected))
        }
    }

    /// Consumes one field or parameter name.
    pub fn consume_name(&mut self, expected: &str) -> (r: Result<Token, ParseError>)
        requires
            old(self).wf(),
        ensures
            final(self).follows(*old(self)),
            match expect_name(old(self).toks(), old(self).at(), expected@) {
                Ok((t, p)) => r is Ok && r->Ok_0@ == t && final(self).at() == p,
                Err(e) => r is Err && r->Err_0@ == e && final(self).at() == old(self).at(),
            },
    {
        if self.pos < self.tokens.len() {
            let token = &self.tokens[self.pos];
            match token.kind {
                TokenKind::Identifier | TokenKind::Entity | TokenKind::Event | TokenKind::TypeId => {
                    let copy = Token { kind: token.kind, text: token.text.clone(), span: token.span };
                    self.pos = self.pos + 1;
                    return Ok(copy);
                },
                _ => {},
            }
        }
        Err(self.error_here(expected))
    }

    /// A copy of the text of the next token.
    pub fn text_here(&self) -> (text: String)
        requires
            self.wf(),
            self.at() < self.toks().len(),
        ensures
            text@ == self.toks()[self.at() as int].text,
    {
        self.tokens[self.pos].text.clone()
    }

    /// The span of the next token.
    pub fn span_here(&self) -> (span: Span)
        requires
            self.wf(),
            self.at() < self.toks().len(),
        ensures
            span == self.toks()[self.at() as int].span,
    {
        self.tokens[self.pos].span
    }

    /// The index of the next token.
    pub fn position(&self) -> (p: usize)
        ensures
            p == self.at(),
    {
        self.pos
    }

    /// The span of the tokens consumed since position `from`.
    pub fn span_from(&self, from: usize) -> (s: Span)
        requires
            self.wf(),
            from < self.at(),
        ensures
            s == span_between(self.toks(), from as nat, self.at()),
    {
        Span { start: self.tokens[from].span.start, end: self.tokens[self.pos - 1].span.end }
    }
}

} // verus!
