//! The lexical rules on concrete texts.

use blink_compiler::lexer::{tokenize, LexerError, Span, Token, TokenKind};

fn kinds(source: &str) -> Vec<TokenKind> {
    tokenize(source).unwrap().iter().map(|t| t.kind).collect()
}

fn texts(source: &str) -> Vec<String> {
    tokenize(source).unwrap().iter().map(|t| t.text.clone()).collect()
}

#[test]
fn span_new_keeps_its_arguments() {
    let span = Span::new(3, 9);
    assert_eq!(span.start, 3);
    assert_eq!(span.end, 9);
}

#[test]
fn every_keyword_has_its_kind() {
    let words = [
        ("component", TokenKind::Component),
        ("rule", TokenKind::Rule),
        ("on", TokenKind::On),
        ("trigger", TokenKind::Trigger),
        ("event", TokenKind::Event),
        ("entity", TokenKind::Entity),
        ("if", TokenKind::If),
        ("else", TokenKind::Else),
        ("for", TokenKind::For),
        ("while", TokenKind::While),
        ("fn", TokenKind::Fn),
        ("return", TokenKind::Return),
        ("true", TokenKind::True),
        ("false", TokenKind::False),
        ("null", TokenKind::Null),
        ("schedule", TokenKind::Schedule),
        ("cancel", TokenKind::Cancel),
        ("recurring", TokenKind::Recurring),
        ("module", TokenKind::Module),
        ("import", TokenKind::Import),
        ("when", TokenKind::When),
        ("create", TokenKind::Create),
        ("delete", TokenKind::Delete),
        ("has", TokenKind::Has),
        ("let", TokenKind::Let),
        ("in", TokenKind::In),
        ("choice", TokenKind::Choice),
        ("new", TokenKind::New),
        ("clone", TokenKind::Clone),
        ("having", TokenKind::Having),
        ("entities", TokenKind::Entities),
        ("string", TokenKind::TypeString),
        ("boolean", TokenKind::TypeBoolean),
        ("integer", TokenKind::TypeInteger),
        ("float", TokenKind::TypeFloat),
        ("decimal", TokenKind::TypeDecimal),
        ("id", TokenKind::TypeId),
        ("list", TokenKind::TypeList),
    ];
    for (word, kind) in words {
        assert_eq!(kinds(word), vec![kind], "{}", word);
    }
}

#[test]
fn a_longer_word_is_an_identifier() {
    assert_eq!(kinds("components"), vec![TokenKind::Identifier]);
    assert_eq!(kinds("iff"), vec![TokenKind::Identifier]);
    assert_eq!(kinds("_id"), vec![TokenKind::Identifier]);
    assert_eq!(kinds("Entity"), vec![TokenKind::Identifier]);
    assert_eq!(kinds("tracker"), vec![TokenKind::Identifier]);
    assert_eq!(kinds("a1_b2"), vec![TokenKind::Identifier]);
}

#[test]
fn operators_take_the_longest_match() {
    assert_eq!(
        kinds("= == != < <= > >= && & || ! + += - -= -> * *= / /= %"),
        vec![
            TokenKind::Eq,
            TokenKind::EqEq,
            TokenKind::NotEq,
            TokenKind::Lt,
            TokenKind::LtEq,
            TokenKind::Gt,
            TokenKind::GtEq,
            TokenKind::AndAnd,
            TokenKind::And,
            TokenKind::OrOr,
            TokenKind::Not,
            TokenKind::Plus,
            TokenKind::PlusEq,
            TokenKind::Minus,
            TokenKind::MinusEq,
            TokenKind::Arrow,
            TokenKind::Star,
            TokenKind::StarEq,
            TokenKind::Slash,
            TokenKind::SlashEq,
            TokenKind::Percent,
        ]
    );
    assert_eq!(kinds("==="), vec![TokenKind::EqEq, TokenKind::Eq]);
    assert_eq!(kinds("a-=-b"), vec![
        TokenKind::Identifier,
        TokenKind::MinusEq,
        TokenKind::Minus,
        TokenKind::Identifier
    ]);
}

#[test]
fn delimiters() {
    assert_eq!(
        kinds("{ } ( ) [ ] , : ; . ?"),
        vec![
            TokenKind::LBrace,
            TokenKind::RBrace,
            TokenKind::LParen,
            TokenKind::RParen,
            TokenKind::LBracket,
            TokenKind::RBracket,
            TokenKind::Comma,
            TokenKind::Colon,
            TokenKind::Semicolon,
            TokenKind::Dot,
            TokenKind::Question,
        ]
    );
}

#[test]
fn numbers() {
    assert_eq!(kinds("42"), vec![TokenKind::IntegerLiteral]);
    assert_eq!(kinds("3.14"), vec![TokenKind::FloatLiteral]);
    assert_eq!(kinds("10.50d"), vec![TokenKind::DecimalLiteral]);
    // a point that no digit follows is not part of the number
    assert_eq!(kinds("42."), vec![TokenKind::IntegerLiteral, TokenKind::Dot]);
    assert_eq!(kinds("1.x"), vec![TokenKind::IntegerLiteral, TokenKind::Dot, TokenKind::Identifier]);
    // only a fraction can end in d
    assert_eq!(kinds("42d"), vec![TokenKind::IntegerLiteral, TokenKind::Identifier]);
    assert_eq!(texts("1.5dx"), vec!["1.5d", "x"]);
    assert_eq!(texts("1.5e3"), vec!["1.5", "e3"]);
    assert_eq!(texts("1.2.3"), vec!["1.2", ".", "3"]);
}

#[test]
fn entity_references() {
    let tokens = tokenize("@goblin_1 x").unwrap();
    assert_eq!(tokens[0].kind, TokenKind::EntityRef);
    assert_eq!(tokens[0].text, "@goblin_1");
    assert_eq!(tokens[0].span, Span::new(0, 9));
    assert_eq!(tokens[1].span, Span::new(10, 11));
}

#[test]
fn strings_keep_their_quotes_and_escapes() {
    let tokens = tokenize(r#""a \" b" 'it\'s' "" "multi
line""#).unwrap();
    assert_eq!(tokens.len(), 4);
    assert_eq!(tokens[0].kind, TokenKind::StringLiteral);
    assert_eq!(tokens[0].text, r#""a \" b""#);
    assert_eq!(tokens[1].kind, TokenKind::StringLiteralSingle);
    assert_eq!(tokens[1].text, r"'it\'s'");
    assert_eq!(tokens[2].text, "\"\"");
    assert_eq!(tokens[3].text, "\"multi\nline\"");
}

#[test]
fn a_double_quote_inside_single_quotes_is_text() {
    assert_eq!(texts(r#"'say "hi"'"#), vec![r#"'say "hi"'"#]);
}

#[test]
fn comments_are_dropped() {
    assert_eq!(kinds("a // b c\n d"), vec![TokenKind::Identifier, TokenKind::Identifier]);
    assert_eq!(kinds("a /* b \n c */ d"), vec![TokenKind::Identifier, TokenKind::Identifier]);
    assert_eq!(kinds("a /**/ d"), vec![TokenKind::Identifier, TokenKind::Identifier]);
    assert_eq!(kinds("a /*** x ***/ d"), vec![TokenKind::Identifier, TokenKind::Identifier]);
    assert_eq!(kinds("// only a comment"), vec![]);
    assert_eq!(kinds("//"), vec![]);
    // the first */ closes
    assert_eq!(kinds("/* a */ b */"), vec![TokenKind::Identifier, TokenKind::Star, TokenKind::Slash]);
}

#[test]
fn a_block_comment_that_never_closes_is_no_comment() {
    assert_eq!(kinds("/* a"), vec![TokenKind::Slash, TokenKind::Star, TokenKind::Identifier]);
    assert_eq!(kinds("/*/"), vec![TokenKind::Slash, TokenKind::Star, TokenKind::Slash]);
}

#[test]
fn spans_are_byte_offsets() {
    let tokens = tokenize("\"é\" x /* ü */ y").unwrap();
    assert_eq!(tokens[0].text, "\"é\"");
    assert_eq!(tokens[0].span, Span::new(0, 4));
    assert_eq!(tokens[1].span, Span::new(5, 6));
    assert_eq!(tokens[2].text, "y");
    assert_eq!(tokens[2].span, Span::new(16, 17));
    let source = "'日本語' a \"😀\" b";
    let tokens = tokenize(source).unwrap();
    for token in &tokens {
        assert_eq!(&source[token.span.start..token.span.end], token.text);
    }
    assert_eq!(tokens[0].span, Span::new(0, 11));
    assert_eq!(tokens[2].span, Span::new(14, 20));
}

#[test]
fn span_and_text_of_every_token_agree_with_the_source() {
    let source = "component Health {\n  current: integer // hp\n  max: list<id>?\n}\nrule r on E when a.b >= 1.5d { x += -2 }";
    let tokens: Vec<Token> = tokenize(source).unwrap();
    assert_eq!(tokens.len(), 30);
    for token in &tokens {
        assert_eq!(&source[token.span.start..token.span.end], token.text);
    }
    for pair in tokens.windows(2) {
        assert!(pair[0].span.end <= pair[1].span.start);
    }
}

#[test]
fn unexpected_character_is_reported_where_it_stands() {
    assert_eq!(
        tokenize("abc # def").unwrap_err(),
        LexerError::UnexpectedCharacter { position: 4, character: '#' }
    );
    assert_eq!(tokenize("a | b").unwrap_err(), LexerError::UnexpectedCharacter { position: 2, character: '|' });
    assert_eq!(tokenize("@ x").unwrap_err(), LexerError::UnexpectedCharacter { position: 0, character: '@' });
    assert_eq!(tokenize("@1").unwrap_err(), LexerError::UnexpectedCharacter { position: 0, character: '@' });
    assert_eq!(tokenize("é").unwrap_err(), LexerError::UnexpectedCharacter { position: 0, character: 'é' });
    // the offset counts bytes, not characters
    assert_eq!(
        tokenize("\"é\" $").unwrap_err(),
        LexerError::UnexpectedCharacter { position: 5, character: '$' }
    );
}

#[test]
fn a_string_that_never_closes_is_an_unexpected_quote() {
    assert_eq!(
        tokenize("x \"abc").unwrap_err(),
        LexerError::UnexpectedCharacter { position: 2, character: '"' }
    );
    assert_eq!(tokenize("'abc").unwrap_err(), LexerError::UnexpectedCharacter { position: 0, character: '\'' });
    // a backslash takes the closing quote with it
    assert_eq!(
        tokenize("\"abc\\\"").unwrap_err(),
        LexerError::UnexpectedCharacter { position: 0, character: '"' }
    );
    // a backslash before a line feed ends the match
    assert_eq!(
        tokenize("\"a\\\nb\"").unwrap_err(),
        LexerError::UnexpectedCharacter { position: 0, character: '"' }
    );
}

#[test]
fn lexer_error_messages() {
    assert_eq!(
        LexerError::UnexpectedCharacter { position: 12, character: '#' }.message(),
        "Unexpected character at position 12: '#'"
    );
    assert_eq!(
        LexerError::UnterminatedString { position: 0 }.message(),
        "Unterminated string literal starting at position 0"
    );
}

#[test]
fn whitespace_of_every_sort_separates() {
    assert_eq!(kinds(" \t\r\n a\tb\r\nc "), vec![
        TokenKind::Identifier,
        TokenKind::Identifier,
        TokenKind::Identifier
    ]);
}
