//! Each stage on its own: tokenizer, parser, analyzer, generator.

use blink_compiler::analyzer::analyze;
use blink_compiler::ir::generate;
use blink_compiler::lexer::{tokenize, TokenKind};
use blink_compiler::parser::{parse, Item};
use blink_compiler::{compile, CompilerOptions};

#[test]
fn test_empty_source() {
    let tokens = tokenize("").unwrap();
    assert!(tokens.is_empty());
}

#[test]
fn test_component_keyword() {
    let tokens = tokenize("component").unwrap();
    assert_eq!(tokens.len(), 1);
    assert_eq!(tokens[0].kind, TokenKind::Component);
}

#[test]
fn test_simple_component() {
    let source = r#"
            component Health {
                current: integer
                maximum: integer
            }
        "#;
    let tokens = tokenize(source).unwrap();

    // Should have: component, Health, {, current, :, integer, maximum, :, integer, }
    assert!(tokens.len() >= 10);
    assert_eq!(tokens[0].kind, TokenKind::Component);
    assert_eq!(tokens[1].kind, TokenKind::Identifier);
    assert_eq!(tokens[2].kind, TokenKind::LBrace);
}

#[test]
fn test_comments() {
    let source = r#"
            // This is a comment
            component /* inline */ Test { }
        "#;
    let tokens = tokenize(source).unwrap();

    // Comments should be skipped
    assert_eq!(tokens[0].kind, TokenKind::Component);
}

#[test]
fn test_literals() {
    let source = r#"42 3.14 10.50d "hello" 'world'"#;
    let tokens = tokenize(source).unwrap();

    assert_eq!(tokens[0].kind, TokenKind::IntegerLiteral);
    assert_eq!(tokens[1].kind, TokenKind::FloatLiteral);
    assert_eq!(tokens[2].kind, TokenKind::DecimalLiteral);
    assert_eq!(tokens[3].kind, TokenKind::StringLiteral);
    assert_eq!(tokens[4].kind, TokenKind::StringLiteralSingle);
}

#[test]
fn test_compile_empty() {
    // Empty source should produce empty IR
    let result = compile("", &CompilerOptions::default());
    assert!(result.is_ok());
}

#[test]
fn test_parse_empty() {
    let tokens = tokenize("").unwrap();
    let module = parse(tokens).unwrap();
    assert!(module.items.is_empty());
}

#[test]
fn test_parse_component() {
    let source = r#"
            component Health {
                current: integer
                maximum: integer
            }
        "#;
    let tokens = tokenize(source).unwrap();
    let module = parse(tokens).unwrap();

    assert_eq!(module.items.len(), 1);
    if let Item::Component(comp) = &module.items[0] {
        assert_eq!(comp.name, "Health");
        assert_eq!(comp.fields.len(), 2);
        assert_eq!(comp.fields[0].name, "current");
        assert_eq!(comp.fields[1].name, "maximum");
    } else {
        panic!("Expected Component item");
    }
}

#[test]
fn test_analyze_empty() {
    let tokens = tokenize("").unwrap();
    let ast = parse(tokens).unwrap();
    let result = analyze(ast);
    assert!(result.is_ok());
}

#[test]
fn test_analyze_component() {
    let source = r#"
            component Health {
                current: integer
                maximum: integer
            }
        "#;
    let tokens = tokenize(source).unwrap();
    let ast = parse(tokens).unwrap();
    let result = analyze(ast).unwrap();

    assert_eq!(result.items.len(), 1);
    assert!(result.symbols.get_component("Health").is_some());
}

#[test]
fn test_generate_empty() {
    let tokens = tokenize("").unwrap();
    let ast = parse(tokens).unwrap();
    let typed = analyze(ast).unwrap();
    let ir = generate(typed, &CompilerOptions::default()).unwrap();

    assert_eq!(ir.version, "1.0");
    assert!(ir.components.is_empty());
    assert!(ir.rules.is_empty());
}

#[test]
fn test_generate_component() {
    let source = r#"
            component Health {
                current: integer
                maximum: integer
            }
        "#;
    let tokens = tokenize(source).unwrap();
    let ast = parse(tokens).unwrap();
    let typed = analyze(ast).unwrap();
    let ir = generate(typed, &CompilerOptions::default()).unwrap();

    assert_eq!(ir.components.len(), 1);
    assert_eq!(ir.components[0].name, "Health");
    assert_eq!(ir.components[0].fields.len(), 2);
}
