//! Tokens of the rule language and the tokenizer that produces them.

use vstd::prelude::*;

pub mod rules;
pub mod tokenizer;

pub use crate::lexer::tokenizer::tokenize;
use crate::text::{decimal_text, push_decimal, push_str, string_from_chars};

verus! {

/// A half-open range of byte offsets into the source text.
#[derive(Debug, Clone, Copy, PartialEq, Eq, Structural)]
pub struct Span {
    pub start: usize,
    pub end: usize,
}

impl Span {
    pub fn new(start: usize, end: usize) -> (s: Self)
        ensures
            s.start == start,
            s.end == end,
    {
        Self { start, end }
    }
}

/// Why the tokenizer stopped.
#[derive(Debug, Clone, Copy, PartialEq, Eq, Structural)]
pub enum LexerError {
    /// No token starts with the character at this byte offset.
    UnexpectedCharacter { position: usize, character: char },
    /// Reserved: a string literal that never closes is at present reported
    /// as an unexpected quote character.
    UnterminatedString { position: usize },
}

impl LexerError {
    /// The text shown for this error.
    pub open spec fn spec_message(self) -> Seq<char> {
        match self {
            LexerError::UnexpectedCharacter { position, character } => "Unexpected character at position "@
                + decimal_text(position as nat) + ": '"@ + seq![character] + "'"@,
            LexerError::UnterminatedString { position } => "Unterminated string literal starting at position "@
                + decimal_text(position as nat),
        }
    }

    /// The text shown for this error.
    pub fn message(&self) -> (text: String)
        ensures
            text@ == self.spec_message(),
    {
        let mut out: Vec<char> = Vec::new();
        match self {
            LexerError::UnexpectedCharacter { position, character } => {
                push_str(&mut out, "Unexpected character at position ");
                push_decimal(&mut out, *position as u64);
                push_str(&mut out, ": '");
                out.push(*character);
                push_str(&mut out, "'");
                assert(out@ =~= self.spec_message());
            },
            LexerError::UnterminatedString { position } => {
                push_str(&mut out, "Unterminated string literal starting at position ");
                push_decimal(&mut out, *position as u64);
            },
        }
        string_from_chars(&out)
    }
}

/// The kinds of token.
#[derive(Debug, Clone, Copy, PartialEq, Eq, Structural)]
pub enum TokenKind {
    // Keywords
    Component,
    Rule,
    On,
    Trigger,
    Event,
    Entity,
    If,
    Else,
    For,
    While,
    Fn,
    Return,
    True,
    False,
    Null,
    Schedule,
    Cancel,
    Recurring,
    Module,
    Import,
    When,
    Create,
    Delete,
    Has,
    Let,
    In,
    Choice,
    New,
    Clone,
    Having,
    Entities,
    // Types
    TypeString,
    TypeBoolean,
    TypeInteger,
    TypeFloat,
    TypeDecimal,
    TypeId,
    TypeList,
    /// `[a-zA-Z_][a-zA-Z0-9_]*` that is no keyword
    Identifier,
    /// `@` followed by an identifier
    EntityRef,
    /// `"..."`
    StringLiteral,
    /// `'...'`
    StringLiteralSingle,
    /// `digits.digits` followed by `d`
    DecimalLiteral,
    /// `digits.digits`
    FloatLiteral,
    /// `digits`
    IntegerLiteral,
    // Delimiters
    LBrace,
    RBrace,
    LParen,
    RParen,
    LBracket,
    RBracket,
    Comma,
    Colon,
    Semicolon,
    Dot,
    Question,
    // Operators
    Plus,
    Minus,
    Star,
    Slash,
    Percent,
    Eq,
    EqEq,
    NotEq,
    Lt,
    LtEq,
    Gt,
    GtEq,
    AndAnd,
    OrOr,
    Not,
    And,
    PlusEq,
    MinusEq,
    StarEq,
    SlashEq,
    Arrow,
}

/// A token: its kind, its text and where it stands.
#[derive(Debug, Clone, PartialEq)]
pub struct Token {
    pub kind: TokenKind,
    pub text: String,
    pub span: Span,
}

/// What a [`Token`] denotes.
pub struct TokenView {
    pub kind: TokenKind,
    pub text: Seq<char>,
    pub span: Span,
}

impl Token {
    pub open spec fn spec_view(self) -> TokenView {
        TokenView { kind: self.kind, text: self.text@, span: self.span }
    }

    /// The values of a list of tokens.
    pub open spec fn views(s: Seq<Token>) -> Seq<TokenView> {
        Seq::new(s.len(), |i: int| s[i].spec_view())
    }
}

impl View for Token {
    type V = TokenView;

    open spec fn view(&self) -> TokenView {
        (*self).spec_view()
    }
}

/// Viewing commutes with appending one token.
pub broadcast proof fn lemma_token_views_push(s: Seq<Token>, x: Token)
    ensures
        #[trigger] Token::views(s.push(x)) == Token::views(s).push(x.spec_view()),
{
    assert(Token::views(s.push(x)) =~= Token::views(s).push(x.spec_view()));
}

} // verus!
