//! The tokenizer: the lexical rules, carried out on a source text.

use vstd::prelude::*;
use vstd::utf8::{char_is_scalar, encode_scalar, encode_utf8};

use crate::lexer::rules::{
    byte_offset, comment_at, comment_end, digits_end, double_kind, ident_end, is_ident_start, is_space,
    lemma_digits_end_bounds, lemma_progress, line_end, make_token, number_at, single_kind, spec_tokenize,
    string_end, token_at, tokens_from, word_kind,
};
use crate::lexer::{lemma_token_views_push, LexerError, Span, Token, TokenKind};
use crate::text::{chars_of, is_digit, is_digit_char, owned, slice_to_string};

verus! {

broadcast use {lemma_token_views_push, char_is_scalar};

/// The encoding of a text is the encodings of its two parts, one after the
/// other.
pub proof fn lemma_encode_concat(a: Seq<char>, b: Seq<char>)
    ensures
        encode_utf8(a + b) == encode_utf8(a) + encode_utf8(b),
    decreases a.len(),
{
    if a.len() == 0 {
        assert(a + b =~= b);
        assert(encode_utf8(a) + encode_utf8(b) =~= encode_utf8(b));
    } else {
        lemma_encode_concat(a.drop_first(), b);
        assert((a + b).drop_first() =~= a.drop_first() + b);
        assert(encode_utf8(a + b) =~= encode_utf8(a) + encode_utf8(b));
    }
}

/// The offset after a character is the offset before it plus the length of
/// its encoding; and no offset exceeds the length of the whole encoding.
pub proof fn lemma_byte_offset_step(s: Seq<char>, i: nat)
    requires
        i < s.len(),
    ensures
        byte_offset(s, i + 1) == byte_offset(s, i) + encode_scalar(s[i as int] as u32).len(),
        byte_offset(s, i + 1) <= encode_utf8(s).len(),
{
    reveal_with_fuel(encode_utf8, 2);
    let one = seq![s[i as int]];
    assert(s.take(i + 1 as int) =~= s.take(i as int) + one);
    lemma_encode_concat(s.take(i as int), one);
    assert(one.drop_first() =~= Seq::<char>::empty());
    assert(encode_utf8(one) =~= encode_scalar(s[i as int] as u32));
    assert(s =~= s.take(i + 1 as int) + s.skip(i + 1 as int));
    lemma_encode_concat(s.take(i + 1 as int), s.skip(i + 1 as int));
}

/// The number of bytes that encode a character.
pub fn utf8_width(c: char) -> (w: usize)
    ensures
        w == encode_scalar(c as u32).len(),
        1 <= w <= 4,
{
    let v = c as u32;
    if v < 0x80 {
        1
    } else if v < 0x800 {
        2
    } else if v < 0x10000 {
        3
    } else {
        4
    }
}

/// The byte offset of every character, and of the end of the text.
pub fn byte_offsets(source: &str, chars: &Vec<char>) -> (offsets: Vec<usize>)
    requires
        chars@ == source@,
    ensures
        offsets@.len() == chars@.len() + 1,
        forall|i: int| 0 <= i <= chars@.len() ==> offsets@[i] == byte_offset(chars@, i as nat),
{
    let total = source.as_bytes().len();
    assert(total == encode_utf8(chars@).len());
    let mut offsets: Vec<usize> = Vec::new();
    offsets.push(0);
    assert(chars@.take(0) =~= Seq::<char>::empty());
    let mut i: usize = 0;
    while i < chars.len()
        invariant
            i <= chars.len(),
            total == encode_utf8(chars@).len(),
            offsets@.len() == i + 1,
            forall|j: int| 0 <= j <= i ==> offsets@[j] == byte_offset(chars@, j as nat),
        decreases chars.len() - i,
    {
        proof {
            lemma_byte_offset_step(chars@, i as nat);
        }
        let next = offsets[i] + utf8_width(chars[i]);
        offsets.push(next);
        i = i + 1;
    }
    offsets
}

/// Whether `c` is a blank, a tab, a line feed or a carriage return.
pub fn is_space_char(c: char) -> (r: bool)
    ensures
        r == is_space(c),
{
    c == ' ' || c == '\t' || c == '\n' || c == '\r'
}

/// Whether `c` can begin an identifier.
pub fn is_ident_start_char(c: char) -> (r: bool)
    ensures
        r == is_ident_start(c),
{
    ('a' <= c && c <= 'z') || ('A' <= c && c <= 'Z') || c == '_'
}

/// The first index at or after `from` that holds no identifier character.
pub fn scan_ident(chars: &Vec<char>, from: usize) -> (end: usize)
    requires
        from <= chars.len(),
    ensures
        end == ident_end(chars@, from as nat),
        from <= end <= chars.len(),
{
    let mut i = from;
    while i < chars.len() && (is_ident_start_char(chars[i]) || is_digit_char(chars[i]))
        invariant
            from <= i <= chars.len(),
            ident_end(chars@, from as nat) == ident_end(chars@, i as nat),
        decreases chars.len() - i,
    {
        i = i + 1;
    }
    i
}

/// The first index at or after `from` that holds no digit.
pub fn scan_digits(chars: &Vec<char>, from: usize) -> (end: usize)
    requires
        from <= chars.len(),
    ensures
        end == digits_end(chars@, from as nat),
        from <= end <= chars.len(),
{
    let mut i = from;
    while i < chars.len() && is_digit_char(chars[i])
        invariant
            from <= i <= chars.len(),
            digits_end(chars@, from as nat) == digits_end(chars@, i as nat),
        decreases chars.len() - i,
    {
        i = i + 1;
    }
    i
}

/// The first index at or after `from` that holds a line feed.
pub fn scan_line(chars: &Vec<char>, from: usize) -> (end: usize)
    requires
        from <= chars.len(),
    ensures
        end == line_end(chars@, from as nat),
        from <= end <= chars.len(),
{
    let mut i = from;
    while i < chars.len() && chars[i] != '\n'
        invariant
            from <= i <= chars.len(),
            line_end(chars@, from as nat) == line_end(chars@, i as nat),
        decreases chars.len() - i,
    {
        i = i + 1;
    }
    i
}

/// The index just after the first `*/` at or after `from`.
pub fn scan_comment(chars: &Vec<char>, from: usize) -> (end: Option<usize>)
    requires
        from <= chars.len(),
    ensures
        match comment_end(chars@, from as nat) {
            Some(e) => end == Some(e as usize) && from + 2 <= e <= chars.len(),
            None => end is None,
        },
{
    let mut i = from;
    while chars.len() - i > 1
        invariant
            from <= i <= chars.len(),
            comment_end(chars@, from as nat) == comment_end(chars@, i as nat),
        decreases chars.len() - i,
    {
        if chars[i] == '*' && chars[i + 1] == '/' {
            return Some(i + 2);
        }
        i = i + 1;
    }
    None
}

/// The index just after the quote that closes a string whose contents
/// begin at `from`.
pub fn scan_string(chars: &Vec<char>, from: usize, quote: char) -> (end: Option<usize>)
    requires
        from <= chars.len(),
    ensures
        match string_end(chars@, from as nat, quote) {
            Some(e) => end == Some(e as usize) && from < e <= chars.len(),
            None => end is None,
        },
{
    let mut i = from;
    while i < chars.len()
        invariant
            from <= i <= chars.len(),
            string_end(chars@, from as nat, quote) == string_end(chars@, i as nat, quote),
        decreases chars.len() - i,
    {
        let c = chars[i];
        if c == quote {
            return Some(i + 1);
        } else if c == '\\' {
            if i + 1 < chars.len() && chars[i + 1] != '\n' {
                i = i + 2;
            } else {
                return None;
            }
        } else {
            i = i + 1;
        }
    }
    None
}

/// Whether a word is this one.
fn is_word(word: &String, literal: &str) -> (r: bool)
    ensures
        r == (word@ == literal@),
{
    let other = owned(literal);
    *word == other
}

/// The kind of a word: the keyword it is, else an identifier.
pub fn kind_of_word(word: &String) -> (kind: TokenKind)
    ensures
        kind == word_kind(word@),
{
    if is_word(word, "component") {
        TokenKind::Component
    } else if is_word(word, "rule") {
        TokenKind::Rule
    } else if is_word(word, "on") {
        TokenKind::On
    } else if is_word(word, "trigger") {
        TokenKind::Trigger
    } else if is_word(word, "event") {
        TokenKind::Event
    } else if is_word(word, "entity") {
        TokenKind::Entity
    } else if is_word(word, "if") {
        TokenKind::If
    } else if is_word(word, "else") {
        TokenKind::Else
    } else if is_word(word, "for") {
        TokenKind::For
    } else if is_word(word, "while") {
        TokenKind::While
    } else if is_word(word, "fn") {
        TokenKind::Fn
    } else if is_word(word, "return") {
        TokenKind::Return
    } else if is_word(word, "true") {
        TokenKind::True
    } else if is_word(word, "false") {
        TokenKind::False
    } else if is_word(word, "null") {
        TokenKind::Null
    } else if is_word(word, "schedule") {
        TokenKind::Schedule
    } else if is_word(word, "cancel") {
        TokenKind::Cancel
    } else if is_word(word, "recurring") {
        TokenKind::Recurring
    } else if is_word(word, "module") {
        TokenKind::Module
    } else if is_word(word, "import") {
        TokenKind::Import
    } else if is_word(word, "when") {
        TokenKind::When
    } else if is_word(word, "create") {
        TokenKind::Create
    } else if is_word(word, "delete") {
        TokenKind::Delete
    } else if is_word(word, "has") {
        TokenKind::Has
    } else if is_word(word, "let") {
        TokenKind::Let
    } else if is_word(word, "in") {
        TokenKind::In
    } else if is_word(word, "choice") {
        TokenKind::Choice
    } else if is_word(word, "new") {
        TokenKind::New
    } else if is_word(word, "clone") {
        TokenKind::Clone
    } else if is_word(word, "having") {
        TokenKind::Having
    } else if is_word(word, "entities") {
        TokenKind::Entities
    } else if is_word(word, "string") {
        TokenKind::TypeString
    } else if is_word(word, "boolean") {
        TokenKind::TypeBoolean
    } else if is_word(word, "integer") {
        TokenKind::TypeInteger
    } else if is_word(word, "float") {
        TokenKind::TypeFloat
    } else if is_word(word, "decimal") {
        TokenKind::TypeDecimal
    } else if is_word(word, "id") {
        TokenKind::TypeId
    } else if is_word(word, "list") {
        TokenKind::TypeList
    } else {
        TokenKind::Identifier
    }
}

/// The operator or delimiter that one character is.
pub fn single_operator(c: char) -> (r: Option<TokenKind>)
    ensures
        r == single_kind(c),
{
    if c == '{' {
        Some(TokenKind::LBrace)
    } else if c == '}' {
        Some(TokenKind::RBrace)
    } else if c == '(' {
        Some(TokenKind::LParen)
    } else if c == ')' {
        Some(TokenKind::RParen)
    } else if c == '[' {
        Some(TokenKind::LBracket)
    } else if c == ']' {
        Some(TokenKind::RBracket)
    } else if c == ',' {
        Some(TokenKind::Comma)
    } else if c == ':' {
        Some(TokenKind::Colon)
    } else if c == ';' {
        Some(TokenKind::Semicolon)
    } else if c == '.' {
        Some(TokenKind::Dot)
    } else if c == '?' {
        Some(TokenKind::Question)
    } else if c == '+' {
        Some(TokenKind::Plus)
    } else if c == '-' {
        Some(TokenKind::Minus)
    } else if c == '*' {
        Some(TokenKind::Star)
    } else if c == '/' {
        Some(TokenKind::Slash)
    } else if c == '%' {
        Some(TokenKind::Percent)
    } else if c == '=' {
        Some(TokenKind::Eq)
    } else if c == '<' {
        Some(TokenKind::Lt)
    } else if c == '>' {
        Some(TokenKind::Gt)
    } else if c == '!' {
        Some(TokenKind::Not)
    } else if c == '&' {
        Some(TokenKind::And)
    } else {
        None
    }
}

/// The operator that two characters are.
pub fn double_operator(a: char, b: char) -> (r: Option<TokenKind>)
    ensures
        r == double_kind(a, b),
{
    if a == '=' && b == '=' {
        Some(TokenKind::EqEq)
    } else if a == '!' && b == '=' {
        Some(TokenKind::NotEq)
    } else if a == '<' && b == '=' {
        Some(TokenKind::LtEq)
    } else if a == '>' && b == '=' {
        Some(TokenKind::GtEq)
    } else if a == '&' && b == '&' {
        Some(TokenKind::AndAnd)
    } else if a == '|' && b == '|' {
        Some(TokenKind::OrOr)
    } else if a == '+' && b == '=' {
        Some(TokenKind::PlusEq)
    } else if a == '-' && b == '=' {
        Some(TokenKind::MinusEq)
    } else if a == '*' && b == '=' {
        Some(TokenKind::StarEq)
    } else if a == '/' && b == '=' {
        Some(TokenKind::SlashEq)
    } else if a == '-' && b == '>' {
        Some(TokenKind::Arrow)
    } else {
        None
    }
}

/// Where the comment that begins at `pos` ends, if one begins there.
pub fn scan_comment_at(chars: &Vec<char>, pos: usize) -> (end: Option<usize>)
    requires
        pos < chars.len(),
    ensures
        match comment_at(chars@, pos as nat) {
            Some(e) => end == Some(e as usize) && pos < e <= chars.len(),
            None => end is None,
        },
{
    if pos + 1 < chars.len() && chars[pos] == '/' {
        if chars[pos + 1] == '/' {
            return Some(scan_line(chars, pos + 2));
        } else if chars[pos + 1] == '*' {
            return scan_comment(chars, pos + 2);
        }
    }
    None
}

/// The number that begins at `pos`.
pub fn scan_number(chars: &Vec<char>, pos: usize) -> (r: (TokenKind, usize))
    requires
        pos < chars.len(),
        is_digit(chars@[pos as int]),
    ensures
        (r.0, r.1 as nat) == number_at(chars@, pos as nat),
        pos < r.1 <= chars.len(),
{
    proof {
        lemma_digits_end_bounds(chars@, pos as nat);
    }
    let whole = scan_digits(chars, pos);
    if chars.len() - whole > 1 && chars[whole] == '.' && is_digit_char(chars[whole + 1]) {
        let fraction = scan_digits(chars, whole + 1);
        if fraction < chars.len() && chars[fraction] == 'd' {
            (TokenKind::DecimalLiteral, fraction + 1)
        } else {
            (TokenKind::FloatLiteral, fraction)
        }
    } else {
        (TokenKind::IntegerLiteral, whole)
    }
}

/// The token that begins at `pos`: its kind and the index just after it.
pub fn scan_token(chars: &Vec<char>, pos: usize) -> (r: Option<(TokenKind, usize)>)
    requires
        pos < chars.len(),
    ensures
        match token_at(chars@, pos as nat) {
            Some((kind, end)) => r == Some((kind, end as usize)) && pos < end <= chars.len(),
            None => r is None,
        },
{
    proof {
        lemma_progress(chars@, pos as nat);
    }
    let c = chars[pos];
    if is_ident_start_char(c) {
        let end = scan_ident(chars, pos);
        let word = slice_to_string(chars, pos, end);
        Some((kind_of_word(&word), end))
    } else if c == '@' {
        if pos + 1 < chars.len() && is_ident_start_char(chars[pos + 1]) {
            Some((TokenKind::EntityRef, scan_ident(chars, pos + 1)))
        } else {
            None
        }
    } else if is_digit_char(c) {
        Some(scan_number(chars, pos))
    } else if c == '"' {
        match scan_string(chars, pos + 1, '"') {
            Some(end) => Some((TokenKind::StringLiteral, end)),
            None => None,
        }
    } else if c == '\'' {
        match scan_string(chars, pos + 1, '\'') {
            Some(end) => Some((TokenKind::StringLiteralSingle, end)),
            None => None,
        }
    } else {
        let double = if pos + 1 < chars.len() {
            double_operator(c, chars[pos + 1])
        } else {
            None
        };
        match double {
            Some(kind) => Some((kind, pos + 2)),
            None => match single_operator(c) {
                Some(kind) => Some((kind, pos + 1)),
                None => None,
            },
        }
    }
}

/// Splits a source text into tokens. The result is the list of tokens that
/// the lexical rules read from the text, or the error at the first
/// character that begins no token. Spans are byte offsets into the UTF-8
/// encoding of the text.
pub fn tokenize(source: &str) -> (r: Result<Vec<Token>, LexerError>)
    ensures
        match spec_tokenize(source@) {
            Ok(tokens) => r is Ok && Token::views(r->Ok_0@) == tokens,
            Err(e) => r == Err::<Vec<Token>, LexerError>(e),
        },
{
    let chars = chars_of(source);
    let offsets = byte_offsets(source, &chars);
    let mut tokens: Vec<Token> = Vec::new();
    let mut pos: usize = 0;
    assert(Token::views(tokens@) =~= Seq::empty());
    while pos < chars.len()
        invariant
            pos <= chars.len(),
            chars@ == source@,
            offsets@.len() == chars@.len() + 1,
            forall|i: int| 0 <= i <= chars@.len() ==> offsets@[i] == byte_offset(chars@, i as nat),
            spec_tokenize(chars@) == tokens_from(chars@, pos as nat, Token::views(tokens@)),
        decreases chars.len() - pos,
    {
        if is_space_char(chars[pos]) {
            pos = pos + 1;
        } else {
            match scan_comment_at(&chars, pos) {
                Some(end) => {
                    pos = end;
                },
                None => match scan_token(&chars, pos) {
                    Some((kind, end)) => {
                        let token = Token {
                            kind,
                            text: slice_to_string(&chars, pos, end),
                            span: Span::new(offsets[pos], offsets[end]),
                        };
                        assert(token.spec_view() == make_token(chars@, kind, pos as nat, end as nat));
                        tokens.push(token);
                        pos = end;
                    },
                    None => {
                        return Err(LexerError::UnexpectedCharacter { position: offsets[pos], character: chars[pos] });
                    },
                },
            }
        }
    }
    Ok(tokens)
}

} // verus!
