//! The lexical rules: what token, if any, starts at a position of the
//! source text.
//!
//! The text is a sequence of characters. A token is the longest piece of
//! text that one of the token shapes matches; where a keyword and the
//! identifier shape match the same piece, it is the keyword. Whitespace and
//! comments separate tokens and are dropped.

use vstd::prelude::*;
use vstd::utf8::encode_utf8;
use crate::lexer::{LexerError, Span, TokenKind, TokenView};
use crate::text::is_digit;

verus! {

/// Whether `c` is a blank, a tab, a line feed or a carriage return.
pub open spec fn is_space(c: char) -> bool {
    c == ' ' || c == '\t' || c == '\n' || c == '\r'
}

/// Whether `c` can begin an identifier: an ASCII letter or `_`.
pub open spec fn is_ident_start(c: char) -> bool {
    ('a' <= c && c <= 'z') || ('A' <= c && c <= 'Z') || c == '_'
}

/// Whether `c` can continue an identifier.
pub open spec fn is_ident_char(c: char) -> bool {
    is_ident_start(c) || is_digit(c)
}

/// The byte offset of the character at index `i`: the length of the UTF-8
/// encoding of the characters before it.
pub open spec fn byte_offset(s: Seq<char>, i: nat) -> nat {
    encode_utf8(s.take(i as int)).len()
}

/// The first index at or after `i` that holds no identifier character.
pub open spec fn ident_end(s: Seq<char>, i: nat) -> nat
    decreases s.len() - i,
{
    if i < s.len() && is_ident_char(s[i as int]) {
        ident_end(s, i + 1)
    } else {
        i
    }
}

/// The first index at or after `i` that holds no digit.
pub open spec fn digits_end(s: Seq<char>, i: nat) -> nat
    decreases s.len() - i,
{
    if i < s.len() && is_digit(s[i as int]) {
        digits_end(s, i + 1)
    } else {
        i
    }
}

/// The first index at or after `i` that holds a line feed, or the length
/// of the text.
pub open spec fn line_end(s: Seq<char>, i: nat) -> nat
    decreases s.len() - i,
{
    if i < s.len() && s[i as int] != '\n' {
        line_end(s, i + 1)
    } else {
        i
    }
}

/// The index just after the first `*/` that begins at or after `i`, if
/// there is one.
pub open spec fn comment_end(s: Seq<char>, i: nat) -> Option<nat>
    decreases s.len() - i,
{
    if i + 1 >= s.len() {
        None
    } else if s[i as int] == '*' && s[(i + 1) as int] == '/' {
        Some(i + 2)
    } else {
        comment_end(s, i + 1)
    }
}

/// The index just after the quote that closes a string whose contents
/// begin at `i`, if it closes. A backslash takes the next character with
/// it, unless that is a line feed, which ends the match.
pub open spec fn string_end(s: Seq<char>, i: nat, quote: char) -> Option<nat>
    decreases s.len() - i,
{
    if i >= s.len() {
        None
    } else if s[i as int] == quote {
        Some(i + 1)
    } else if s[i as int] == '\\' {
        if i + 1 < s.len() && s[(i + 1) as int] != '\n' {
            string_end(s, i + 2, quote)
        } else {
            None
        }
    } else {
        string_end(s, i + 1, quote)
    }
}

/// The keyword or type name that a word is, if it is one.
pub open spec fn keyword_kind(w: Seq<char>) -> Option<TokenKind> {
    if w == "component"@ {
        Some(TokenKind::Component)
    } else if w == "rule"@ {
        Some(TokenKind::Rule)
    } else if w == "on"@ {
        Some(TokenKind::On)
    } else if w == "trigger"@ {
        Some(TokenKind::Trigger)
    } else if w == "event"@ {
        Some(TokenKind::Event)
    } else if w == "entity"@ {
        Some(TokenKind::Entity)
    } else if w == "if"@ {
        Some(TokenKind::If)
    } else if w == "else"@ {
        Some(TokenKind::Else)
    } else if w == "for"@ {
        Some(TokenKind::For)
    } else if w == "while"@ {
        Some(TokenKind::While)
    } else if w == "fn"@ {
        Some(TokenKind::Fn)
    } else if w == "return"@ {
        Some(TokenKind::Return)
    } else if w == "true"@ {
        Some(TokenKind::True)
    } else if w == "false"@ {
        Some(TokenKind::False)
    } else if w == "null"@ {
        Some(TokenKind::Null)
    } else if w == "schedule"@ {
        Some(TokenKind::Schedule)
    } else if w == "cancel"@ {
        Some(TokenKind::Cancel)
    } else if w == "recurring"@ {
        Some(TokenKind::Recurring)
    } else if w == "module"@ {
        Some(TokenKind::Module)
    } else if w == "import"@ {
        Some(TokenKind::Import)
    } else if w == "when"@ {
        Some(TokenKind::When)
    } else if w == "create"@ {
        Some(TokenKind::Create)
    } else if w == "delete"@ {
        Some(TokenKind::Delete)
    } else if w == "has"@ {
        Some(TokenKind::Has)
    } else if w == "let"@ {
        Some(TokenKind::Let)
    } else if w == "in"@ {
        Some(TokenKind::In)
    } else if w == "choice"@ {
        Some(TokenKind::Choice)
    } else if w == "new"@ {
        Some(TokenKind::New)
    } else if w == "clone"@ {
        Some(TokenKind::Clone)
    } else if w == "having"@ {
        Some(TokenKind::Having)
    } else if w == "entities"@ {
        Some(TokenKind::Entities)
    } else if w == "string"@ {
        Some(TokenKind::TypeString)
    } else if w == "boolean"@ {
        Some(TokenKind::TypeBoolean)
    } else if w == "integer"@ {
        Some(TokenKind::TypeInteger)
    } else if w == "float"@ {
        Some(TokenKind::TypeFloat)
    } else if w == "decimal"@ {
        Some(TokenKind::TypeDecimal)
    } else if w == "id"@ {
        Some(TokenKind::TypeId)
    } else if w == "list"@ {
        Some(TokenKind::TypeList)
    } else {
        None
    }
}

/// The kind of a word: the keyword it is, else an identifier.
pub open spec fn word_kind(w: Seq<char>) -> TokenKind {
    match keyword_kind(w) {
        Some(k) => k,
        None => TokenKind::Identifier,
    }
}

/// The number that begins at `pos`, where a digit stands: `digits.digits`
/// followed by `d` is a decimal, `digits.digits` a float, `digits` an
/// integer. A point that no digit follows is not part of the number.
pub open spec fn number_at(s: Seq<char>, pos: nat) -> (TokenKind, nat) {
    let whole = digits_end(s, pos);
    if whole + 1 < s.len() && s[whole as int] == '.' && is_digit(s[(whole + 1) as int]) {
        let fraction = digits_end(s, whole + 1);
        if fraction < s.len() && s[fraction as int] == 'd' {
            (TokenKind::DecimalLiteral, fraction + 1)
        } else {
            (TokenKind::FloatLiteral, fraction)
        }
    } else {
        (TokenKind::IntegerLiteral, whole)
    }
}

/// The operator or delimiter that one character is, if it is one.
pub open spec fn single_kind(c: char) -> Option<TokenKind> {
    if c == '{' {
        Some(TokenKind::LBrace)
    } else if c == '}' {
        Some(TokenKind::RBrace)
    } else if c == '(' {
        Some(TokenKind::LParen)
    } else if c == ')' {
        Some(TokenKind::RParen)
    } else if c == '[' {
        Some(TokenKind::LBracket)
    } else if c == ']' {
        Some(TokenKind::RBracket)
    } else if c == ',' {
        Some(TokenKind::Comma)
    } else if c == ':' {
        Some(TokenKind::Colon)
    } else if c == ';' {
        Some(TokenKind::Semicolon)
    } else if c == '.' {
        Some(TokenKind::Dot)
    } else if c == '?' {
        Some(TokenKind::Question)
    } else if c == '+' {
        Some(TokenKind::Plus)
    } else if c == '-' {
        Some(TokenKind::Minus)
    } else if c == '*' {
        Some(TokenKind::Star)
    } else if c == '/' {
        Some(TokenKind::Slash)
    } else if c == '%' {
        Some(TokenKind::Percent)
    } else if c == '=' {
        Some(TokenKind::Eq)
    } else if c == '<' {
        Some(TokenKind::Lt)
    } else if c == '>' {
        Some(TokenKind::Gt)
    } else if c == '!' {
        Some(TokenKind::Not)
    } else if c == '&' {
        Some(TokenKind::And)
    } else {
        None
    }
}

/// The operator that two characters are, if they are one.
pub open spec fn double_kind(a: char, b: char) -> Option<TokenKind> {
    if a == '=' && b == '=' {
        Some(TokenKind::EqEq)
    } else if a == '!' && b == '=' {
        Some(TokenKind::NotEq)
    } else if a == '<' && b == '=' {
        Some(TokenKind::LtEq)
    } else if a == '>' && b == '=' {
        Some(TokenKind::GtEq)
    } else if a == '&' && b == '&' {
        Some(TokenKind::AndAnd)
    } else if a == '|' && b == '|' {
        Some(TokenKind::OrOr)
    } else if a == '+' && b == '=' {
        Some(TokenKind::PlusEq)
    } else if a == '-' && b == '=' {
        Some(TokenKind::MinusEq)
    } else if a == '*' && b == '=' {
        Some(TokenKind::StarEq)
    } else if a == '/' && b == '=' {
        Some(TokenKind::SlashEq)
    } else if a == '-' && b == '>' {
        Some(TokenKind::Arrow)
    } else {
        None
    }
}

/// The operator or delimiter at `pos`: two characters where they make an
/// operator, else one.
pub open spec fn operator_at(s: Seq<char>, pos: nat) -> Option<(TokenKind, nat)> {
    if pos + 1 < s.len() && double_kind(s[pos as int], s[(pos + 1) as int]) is Some {
        Some((double_kind(s[pos as int], s[(pos + 1) as int])->0, pos + 2))
    } else {
        match single_kind(s[pos as int]) {
            Some(k) => Some((k, pos + 1)),
            None => None,
        }
    }
}

/// The token that begins at `pos`: its kind and the index just after it.
/// `None` when no token begins with the character there.
pub open spec fn token_at(s: Seq<char>, pos: nat) -> Option<(TokenKind, nat)>
    recommends
        pos < s.len(),
{
    let c = s[pos as int];
    if is_ident_start(c) {
        Some((word_kind(s.subrange(pos as int, ident_end(s, pos) as int)), ident_end(s, pos)))
    } else if c == '@' {
        if pos + 1 < s.len() && is_ident_start(s[(pos + 1) as int]) {
            Some((TokenKind::EntityRef, ident_end(s, pos + 1)))
        } else {
            None
        }
    } else if is_digit(c) {
        Some(number_at(s, pos))
    } else if c == '"' {
        match string_end(s, pos + 1, '"') {
            Some(end) => Some((TokenKind::StringLiteral, end)),
            None => None,
        }
    } else if c == '\'' {
        match string_end(s, pos + 1, '\'') {
            Some(end) => Some((TokenKind::StringLiteralSingle, end)),
            None => None,
        }
    } else {
        operator_at(s, pos)
    }
}

/// Where the comment that begins at `pos` ends, if one begins there: a
/// line comment runs up to the line feed, a block comment through its
/// first `*/`. A `/*` that never closes is no comment.
pub open spec fn comment_at(s: Seq<char>, pos: nat) -> Option<nat> {
    if pos + 1 < s.len() && s[pos as int] == '/' && s[(pos + 1) as int] == '/' {
        Some(line_end(s, pos + 2))
    } else if pos + 1 < s.len() && s[pos as int] == '/' && s[(pos + 1) as int] == '*' {
        comment_end(s, pos + 2)
    } else {
        None
    }
}

/// The token with this kind that the characters from `pos` to `end` make.
pub open spec fn make_token(s: Seq<char>, kind: TokenKind, pos: nat, end: nat) -> TokenView {
    TokenView {
        kind: kind,
        text: s.subrange(pos as int, end as int),
        span: Span { start: byte_offset(s, pos) as usize, end: byte_offset(s, end) as usize },
    }
}

/// The tokens from `pos` on, after the tokens `acc`; or the error at the
/// first character that begins no token. A comment and a token always end
/// after they begin and within the text (`lemma_progress`), so the branches
/// that ask for it never stop the scan early.
pub open spec fn tokens_from(s: Seq<char>, pos: nat, acc: Seq<TokenView>) -> Result<Seq<TokenView>, LexerError>
    decreases s.len() - pos,
{
    if pos >= s.len() {
        Ok(acc)
    } else if is_space(s[pos as int]) {
        tokens_from(s, pos + 1, acc)
    } else {
        match comment_at(s, pos) {
            Some(end) => if pos < end <= s.len() {
                tokens_from(s, end, acc)
            } else {
                Ok(acc)
            },
            None => match token_at(s, pos) {
                Some((kind, end)) => if pos < end <= s.len() {
                    tokens_from(s, end, acc.push(make_token(s, kind, pos, end)))
                } else {
                    Ok(acc)
                },
                None => Err(
                    LexerError::UnexpectedCharacter {
                        position: byte_offset(s, pos) as usize,
                        character: s[pos as int],
                    },
                ),
            },
        }
    }
}

/// The tokens of a source text.
pub open spec fn spec_tokenize(s: Seq<char>) -> Result<Seq<TokenView>, LexerError> {
    tokens_from(s, 0, Seq::empty())
}

/// A scan ends at or after where it began, and within the text.
pub proof fn lemma_ident_end_bounds(s: Seq<char>, i: nat)
    requires
        i <= s.len(),
    ensures
        i <= ident_end(s, i) <= s.len(),
        i < s.len() && is_ident_char(s[i as int]) ==> i < ident_end(s, i),
    decreases s.len() - i,
{
    if i < s.len() && is_ident_char(s[i as int]) {
        lemma_ident_end_bounds(s, i + 1);
    }
}

/// A scan ends at or after where it began, and within the text.
pub proof fn lemma_digits_end_bounds(s: Seq<char>, i: nat)
    requires
        i <= s.len(),
    ensures
        i <= digits_end(s, i) <= s.len(),
        i < s.len() && is_digit(s[i as int]) ==> i < digits_end(s, i),
    decreases s.len() - i,
{
    if i < s.len() && is_digit(s[i as int]) {
        lemma_digits_end_bounds(s, i + 1);
    }
}

/// A scan ends at or after where it began, and within the text.
pub proof fn lemma_line_end_bounds(s: Seq<char>, i: nat)
    requires
        i <= s.len(),
    ensures
        i <= line_end(s, i) <= s.len(),
    decreases s.len() - i,
{
    if i < s.len() && s[i as int] != '\n' {
        lemma_line_end_bounds(s, i + 1);
    }
}

/// A comment that closes, closes after it began and within the text.
pub proof fn lemma_comment_end_bounds(s: Seq<char>, i: nat)
    requires
        comment_end(s, i) is Some,
    ensures
        i + 2 <= comment_end(s, i)->0 <= s.len(),
    decreases s.len() - i,
{
    if i + 1 >= s.len() {
    } else if s[i as int] == '*' && s[(i + 1) as int] == '/' {
    } else {
        lemma_comment_end_bounds(s, i + 1);
    }
}

/// A string that closes, closes after it began and within the text.
pub proof fn lemma_string_end_bounds(s: Seq<char>, i: nat, quote: char)
    requires
        string_end(s, i, quote) is Some,
    ensures
        i < string_end(s, i, quote)->0 <= s.len(),
    decreases s.len() - i,
{
    if i >= s.len() {
    } else if s[i as int] == quote {
    } else if s[i as int] == '\\' {
        if i + 1 < s.len() && s[(i + 1) as int] != '\n' {
            lemma_string_end_bounds(s, i + 2, quote);
        }
    } else {
        lemma_string_end_bounds(s, i + 1, quote);
    }
}

/// Every token and every comment has at least one character and ends
/// within the text. The tests on this in `tokens_from` therefore never
/// fail; they are there so that it is a definition by recursion on the text
/// that remains.
pub proof fn lemma_progress(s: Seq<char>, pos: nat)
    requires
        pos < s.len(),
    ensures
        comment_at(s, pos) is Some ==> pos < comment_at(s, pos)->0 <= s.len(),
        token_at(s, pos) is Some ==> pos < (token_at(s, pos)->0).1 <= s.len(),
{
    if comment_at(s, pos) is Some {
        if s[(pos + 1) as int] == '/' {
            lemma_line_end_bounds(s, pos + 2);
        } else {
            lemma_comment_end_bounds(s, pos + 2);
        }
    }
    if token_at(s, pos) is Some {
        let c = s[pos as int];
        if is_ident_start(c) {
            lemma_ident_end_bounds(s, pos);
        } else if c == '@' {
            lemma_ident_end_bounds(s, pos + 1);
        } else if is_digit(c) {
            lemma_digits_end_bounds(s, pos);
            let whole = digits_end(s, pos);
            if whole + 1 < s.len() && s[whole as int] == '.' && is_digit(s[(whole + 1) as int]) {
                lemma_digits_end_bounds(s, whole + 1);
            }
        } else if c == '"' {
            lemma_string_end_bounds(s, pos + 1, '"');
        } else if c == '\'' {
            lemma_string_end_bounds(s, pos + 1, '\'');
        }
    }
}

} // verus!
