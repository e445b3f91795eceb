//! The grammar of types and expressions, as functions from a position in
//! the token list to what stands there.
//!
//! A grammar function takes the tokens and a position and yields the value
//! parsed together with the position after it, or the error that ends the
//! parse. Lists are read by functions that carry what was read so far.

use vstd::prelude::*;
use crate::lexer::{Span, TokenKind, TokenView};
use crate::parser::ast::{
    BinaryOp, ComponentInitView, ExprView, LiteralView, TypeExprView, UnaryOp,
};
use crate::parser::cursor::{expect, expect_name, is_kind, span_between, step, unexpected, Parsed};
use crate::parser::errors::ParseErrorView;
use crate::text::{number_within, strip_ends, strip_first, trim_end};

verus! {

/// A type without a `?`: a scalar type, `list` or `list<T>`, or the name of
/// a component. A bare `list` is a list of ids.
pub open spec fn g_base_type(toks: Seq<TokenView>, pos: nat) -> Parsed<TypeExprView>
    decreases toks.len() - pos, 0nat,
{
    if pos >= toks.len() {
        Err(ParseErrorView::UnexpectedEof { expected: "type"@ })
    } else {
        let t = toks[pos as int];
        match t.kind {
            TokenKind::TypeString => Ok((TypeExprView::String, pos + 1)),
            TokenKind::TypeBoolean => Ok((TypeExprView::Boolean, pos + 1)),
            TokenKind::TypeInteger => Ok((TypeExprView::Integer, pos + 1)),
            TokenKind::TypeFloat => Ok((TypeExprView::Float, pos + 1)),
            TokenKind::TypeDecimal => Ok((TypeExprView::Decimal, pos + 1)),
            TokenKind::TypeId => Ok((TypeExprView::Id, pos + 1)),
            TokenKind::TypeList => if is_kind(toks, pos + 1, TokenKind::Lt) {
                match g_type(toks, pos + 2) {
                    Ok((inner, p)) => match expect(toks, p, TokenKind::Gt, ">"@) {
                        Ok((_, pos2)) => Ok((TypeExprView::List(Box::new(inner)), pos2)),
                        Err(e) => Err(e),
                    },
                    Err(e) => Err(e),
                }
            } else {
                Ok((TypeExprView::List(Box::new(TypeExprView::Id)), pos + 1))
            },
            TokenKind::Identifier => Ok((TypeExprView::Component(t.text), pos + 1)),
            _ => Err(unexpected(toks, pos, "type"@)),
        }
    }
}

/// A type: a base type, optional when a `?` follows.
pub open spec fn g_type(toks: Seq<TokenView>, pos: nat) -> Parsed<TypeExprView>
    decreases toks.len() - pos, 1nat,
{
    match g_base_type(toks, pos) {
        Ok((t, p)) => if is_kind(toks, p, TokenKind::Question) {
            Ok((TypeExprView::Optional(Box::new(t)), p + 1))
        } else {
            Ok((t, p))
        },
        Err(e) => Err(e),
    }
}

/// What a `&` chain with a member that is no component type is refused
/// with.
pub open spec fn composite_error() -> ParseErrorView {
    ParseErrorView::InvalidSyntax { message: "every member of a composite type must be a component type"@ }
}

/// The members of a composite type after the first: `& Name` repeated.
pub open spec fn g_composite_rest(toks: Seq<TokenView>, pos: nat, acc: Seq<TypeExprView>) -> Parsed<TypeExprView>
    decreases toks.len() - pos,
{
    if is_kind(toks, pos, TokenKind::And) {
        if is_kind(toks, pos + 1, TokenKind::Identifier) {
            g_composite_rest(toks, pos + 2, acc.push(TypeExprView::Component(toks[(pos + 1) as int].text)))
        } else if pos + 1 < toks.len() {
            Err(composite_error())
        } else {
            Err(ParseErrorView::UnexpectedEof { expected: "component type"@ })
        }
    } else {
        Ok((TypeExprView::Composite(acc), pos))
    }
}

/// The type of a choice-function parameter: a type, or component types
/// joined by `&`.
pub open spec fn g_param_type(toks: Seq<TokenView>, pos: nat) -> Parsed<TypeExprView> {
    match g_type(toks, pos) {
        Ok((t, p)) => if !is_kind(toks, p, TokenKind::And) {
            Ok((t, p))
        } else if t is Component {
            g_composite_rest(toks, p, seq![t])
        } else {
            Err(composite_error())
        },
        Err(e) => Err(e),
    }
}

/// The binary operator that a token stands for at a precedence level.
/// Levels bind tighter as they fall: 6 is `||`, 5 is `&&`, 4 equality, 3
/// comparison, 2 additive, 1 multiplicative.
pub open spec fn binary_op_at(level: nat, kind: TokenKind) -> Option<BinaryOp> {
    if level == 6 {
        if kind == TokenKind::OrOr {
            Some(BinaryOp::Or)
        } else {
            None
        }
    } else if level == 5 {
        if kind == TokenKind::AndAnd {
            Some(BinaryOp::And)
        } else {
            None
        }
    } else if level == 4 {
        if kind == TokenKind::EqEq {
            Some(BinaryOp::Eq)
        } else if kind == TokenKind::NotEq {
            Some(BinaryOp::NotEq)
        } else {
            None
        }
    } else if level == 3 {
        if kind == TokenKind::Lt {
            Some(BinaryOp::Lt)
        } else if kind == TokenKind::LtEq {
            Some(BinaryOp::LtEq)
        } else if kind == TokenKind::Gt {
            Some(BinaryOp::Gt)
        } else if kind == TokenKind::GtEq {
            Some(BinaryOp::GtEq)
        } else {
            None
        }
    } else if level == 2 {
        if kind == TokenKind::Plus {
            Some(BinaryOp::Add)
        } else if kind == TokenKind::Minus {
            Some(BinaryOp::Sub)
        } else {
            None
        }
    } else if level == 1 {
        if kind == TokenKind::Star {
            Some(BinaryOp::Mul)
        } else if kind == TokenKind::Slash {
            Some(BinaryOp::Div)
        } else if kind == TokenKind::Percent {
            Some(BinaryOp::Mod)
        } else {
            None
        }
    } else {
        None
    }
}

/// The operator at `pos` for a level, if a token is there and stands for
/// one.
pub open spec fn binary_op_here(toks: Seq<TokenView>, pos: nat, level: nat) -> Option<BinaryOp> {
    if pos < toks.len() {
        binary_op_at(level, toks[pos as int].kind)
    } else {
        None
    }
}

/// What an integer literal that is no `i64` is refused with.
pub open spec fn integer_error(text: Seq<char>) -> ParseErrorView {
    ParseErrorView::InvalidSyntax { message: "Invalid integer literal: '"@ + text + "'"@ }
}

/// The span that an expression carries.
pub open spec fn expr_span(e: ExprView) -> Span {
    match e {
        ExprView::Literal(_, s) => s,
        ExprView::Identifier(_, s) => s,
        ExprView::EntityRef(_, s) => s,
        ExprView::FieldAccess(_, _, s) => s,
        ExprView::IndexAccess(_, _, s) => s,
        ExprView::Binary(_, _, _, s) => s,
        ExprView::Unary(_, _, s) => s,
        ExprView::Call(_, _, s) => s,
        ExprView::MethodCall(_, _, _, s) => s,
        ExprView::HasComponent(_, _, s) => s,
        ExprView::Cast(_, _, s) => s,
        ExprView::List(_, s) => s,
        ExprView::Paren(_, s) => s,
        ExprView::EntitiesHaving(_, s) => s,
        ExprView::CloneEntity(_, _, s) => s,
    }
}

/// An expression.
pub open spec fn g_expression(toks: Seq<TokenView>, pos: nat) -> Parsed<ExprView>
    decreases toks.len() - pos, 11nat,
{
    g_binary(toks, pos, 6)
}

/// An expression of a precedence level: operands of the next tighter level
/// joined by the operators of this one, grouping to the left. Level 0 is
/// the unary expressions.
pub open spec fn g_binary(toks: Seq<TokenView>, pos: nat, level: nat) -> Parsed<ExprView>
    decreases toks.len() - pos, 4 + level,
{
    if level == 0 || level > 6 {
        g_unary(toks, pos)
    } else {
        match step(toks, pos, g_binary(toks, pos, (level - 1) as nat)) {
            Ok((left, p)) => g_binary_rest(toks, p, pos, left, level),
            Err(e) => Err(e),
        }
    }
}

/// The rest of a binary expression that began at `start` and reads `left`
/// so far.
pub open spec fn g_binary_rest(toks: Seq<TokenView>, pos: nat, start: nat, left: ExprView, level: nat) -> Parsed<
    ExprView,
>
    decreases toks.len() - pos, 0nat,
{
    if 0 < level <= 6 && binary_op_here(toks, pos, level) is Some {
        match step(toks, pos, g_binary(toks, pos + 1, (level - 1) as nat)) {
            Ok((right, p)) => g_binary_rest(
                toks,
                p,
                start,
                ExprView::Binary(
                    Box::new(left),
                    binary_op_here(toks, pos, level)->0,
                    Box::new(right),
                    span_between(toks, start, p),
                ),
                level,
            ),
            Err(e) => Err(e),
        }
    } else {
        Ok((left, pos))
    }
}

/// A unary expression: `!` or `-` before a unary expression, or a postfix
/// expression.
pub open spec fn g_unary(toks: Seq<TokenView>, pos: nat) -> Parsed<ExprView>
    decreases toks.len() - pos, 3nat,
{
    if is_kind(toks, pos, TokenKind::Not) || is_kind(toks, pos, TokenKind::Minus) {
        match g_unary(toks, pos + 1) {
            Ok((inner, p)) => Ok(
                (
                    ExprView::Unary(
                        if is_kind(toks, pos, TokenKind::Not) {
                            UnaryOp::Not
                        } else {
                            UnaryOp::Neg
                        },
                        Box::new(inner),
                        span_between(toks, pos, p),
                    ),
                    p,
                ),
            ),
            Err(e) => Err(e),
        }
    } else {
        g_postfix(toks, pos)
    }
}

/// A postfix expression: a primary expression followed by any number of
/// `.field`, `.method(args)` and `[index]`.
pub open spec fn g_postfix(toks: Seq<TokenView>, pos: nat) -> Parsed<ExprView>
    decreases toks.len() - pos, 2nat,
{
    match step(toks, pos, g_primary(toks, pos)) {
        Ok((e, p)) => g_postfix_rest(toks, p, pos, e),
        Err(e) => Err(e),
    }
}

/// The rest of a postfix expression that began at `start` and reads `e` so
/// far.
pub open spec fn g_postfix_rest(toks: Seq<TokenView>, pos: nat, start: nat, e: ExprView) -> Parsed<ExprView>
    decreases toks.len() - pos, 0nat,
{
    if is_kind(toks, pos, TokenKind::Dot) {
        match expect_name(toks, pos + 1, "field name"@) {
            Ok((name, pos1)) => if is_kind(toks, pos1, TokenKind::LParen) {
                match step(toks, pos, g_list(toks, pos1 + 1, TokenKind::RParen, Seq::empty())) {
                    Ok((args, pos2)) => match expect(toks, pos2, TokenKind::RParen, ")"@) {
                        Ok((_, pos3)) => g_postfix_rest(
                            toks,
                            pos3,
                            start,
                            ExprView::MethodCall(Box::new(e), name.text, args, span_between(toks, start, pos3)),
                        ),
                        Err(err) => Err(err),
                    },
                    Err(err) => Err(err),
                }
            } else {
                g_postfix_rest(
                    toks,
                    pos1,
                    start,
                    ExprView::FieldAccess(Box::new(e), name.text, span_between(toks, start, pos1)),
                )
            },
            Err(err) => Err(err),
        }
    } else if is_kind(toks, pos, TokenKind::LBracket) {
        match step(toks, pos, g_expression(toks, pos + 1)) {
            Ok((index, p)) => match expect(toks, p, TokenKind::RBracket, "]"@) {
                Ok((_, pos2)) => g_postfix_rest(
                    toks,
                    pos2,
                    start,
                    ExprView::IndexAccess(Box::new(e), Box::new(index), span_between(toks, start, pos2)),
                ),
                Err(err) => Err(err),
            },
            Err(err) => Err(err),
        }
    } else {
        Ok((e, pos))
    }
}

/// Expressions up to a closing token or the end of input, each optionally
/// followed by a comma. The closing token is not consumed.
pub open spec fn g_list(toks: Seq<TokenView>, pos: nat, close: TokenKind, acc: Seq<ExprView>) -> Parsed<
    Seq<ExprView>,
>
    decreases toks.len() - pos, 20nat,
{
    if pos >= toks.len() || is_kind(toks, pos, close) {
        Ok((acc, pos))
    } else {
        match step(toks, pos, g_expression(toks, pos)) {
            Ok((e, p)) => g_list(
                toks,
                if is_kind(toks, p, TokenKind::Comma) {
                    p + 1
                } else {
                    p
                },
                close,
                acc.push(e),
            ),
            Err(err) => Err(err),
        }
    }
}

/// `name: expr` entries up to a `}` or the end of input. The brace is
/// not consumed.
pub open spec fn g_field_inits(toks: Seq<TokenView>, pos: nat, acc: Seq<(Seq<char>, ExprView)>) -> Parsed<
    Seq<(Seq<char>, ExprView)>,
>
    decreases toks.len() - pos, 0nat,
{
    if pos >= toks.len() || is_kind(toks, pos, TokenKind::RBrace) {
        Ok((acc, pos))
    } else {
        match expect_name(toks, pos, "field name"@) {
            Ok((name, pos1)) => match expect(toks, pos1, TokenKind::Colon, ":"@) {
                Ok((_, pos2)) => match step(toks, pos, g_expression(toks, pos2)) {
                    Ok((value, pos3)) => g_field_inits(toks, pos3, acc.push((name.text, value))),
                    Err(err) => Err(err),
                },
                Err(err) => Err(err),
            },
            Err(err) => Err(err),
        }
    }
}

/// `Name { field: expr* }`
pub open spec fn g_component_init(toks: Seq<TokenView>, pos: nat) -> Parsed<ComponentInitView>
    decreases toks.len() - pos, 1nat,
{
    match expect(toks, pos, TokenKind::Identifier, "component name"@) {
        Ok((name, pos1)) => match expect(toks, pos1, TokenKind::LBrace, "{"@) {
            Ok((_, pos2)) => match g_field_inits(toks, pos2, Seq::empty()) {
                Ok((fields, pos3)) => match expect(toks, pos3, TokenKind::RBrace, "}"@) {
                    Ok((_, pos4)) => Ok(
                        (
                            ComponentInitView { name: name.text, fields: fields, span: span_between(toks, pos, pos4) },
                            pos4,
                        ),
                    ),
                    Err(err) => Err(err),
                },
                Err(err) => Err(err),
            },
            Err(err) => Err(err),
        },
        Err(err) => Err(err),
    }
}

/// Component initialisers up to a `}` or the end of input. The brace is
/// not consumed.
pub open spec fn g_component_inits(toks: Seq<TokenView>, pos: nat, acc: Seq<ComponentInitView>) -> Parsed<
    Seq<ComponentInitView>,
>
    decreases toks.len() - pos, 20nat,
{
    if pos >= toks.len() || is_kind(toks, pos, TokenKind::RBrace) {
        Ok((acc, pos))
    } else {
        match step(toks, pos, g_component_init(toks, pos)) {
            Ok((c, p)) => g_component_inits(toks, p, acc.push(c)),
            Err(err) => Err(err),
        }
    }
}

/// A primary expression: a literal, a name, a call, `@name`, a
/// parenthesised expression, a list, `entities having Name`, or `clone`.
pub open spec fn g_primary(toks: Seq<TokenView>, pos: nat) -> Parsed<ExprView>
    decreases toks.len() - pos, 1nat,
{
    if pos >= toks.len() {
        Err(ParseErrorView::UnexpectedEof { expected: "expression"@ })
    } else {
        let t = toks[pos as int];
        match t.kind {
            TokenKind::IntegerLiteral => match number_within(t.text, i64::MAX as nat) {
                Some(v) => Ok((ExprView::Literal(LiteralView::Integer(v as i64), t.span), pos + 1)),
                None => Err(integer_error(t.text)),
            },
            TokenKind::FloatLiteral => Ok((ExprView::Literal(LiteralView::Float(t.text), t.span), pos + 1)),
            TokenKind::DecimalLiteral => Ok(
                (ExprView::Literal(LiteralView::Decimal(trim_end(t.text, 'd')), t.span), pos + 1),
            ),
            TokenKind::StringLiteral => Ok(
                (ExprView::Literal(LiteralView::String(strip_ends(t.text)), t.span), pos + 1),
            ),
            TokenKind::StringLiteralSingle => Ok(
                (ExprView::Literal(LiteralView::String(strip_ends(t.text)), t.span), pos + 1),
            ),
            TokenKind::True => Ok((ExprView::Literal(LiteralView::Boolean(true), t.span), pos + 1)),
            TokenKind::False => Ok((ExprView::Literal(LiteralView::Boolean(false), t.span), pos + 1)),
            TokenKind::Null => Ok((ExprView::Literal(LiteralView::Null, t.span), pos + 1)),
            TokenKind::Entity => Ok((ExprView::Identifier(t.text, t.span), pos + 1)),
            TokenKind::Event => Ok((ExprView::Identifier(t.text, t.span), pos + 1)),
            TokenKind::Identifier => if is_kind(toks, pos + 1, TokenKind::LParen) {
                match g_list(toks, pos + 2, TokenKind::RParen, Seq::empty()) {
                    Ok((args, p)) => match expect(toks, p, TokenKind::RParen, ")"@) {
                        Ok((_, pos2)) => Ok((ExprView::Call(t.text, args, span_between(toks, pos, pos2)), pos2)),
                        Err(err) => Err(err),
                    },
                    Err(err) => Err(err),
                }
            } else {
                Ok((ExprView::Identifier(t.text, t.span), pos + 1))
            },
            TokenKind::EntityRef => Ok((ExprView::EntityRef(strip_first(t.text), t.span), pos + 1)),
            TokenKind::LParen => match g_expression(toks, pos + 1) {
                Ok((inner, p)) => match expect(toks, p, TokenKind::RParen, ")"@) {
                    Ok((_, pos2)) => Ok((ExprView::Paren(Box::new(inner), span_between(toks, pos, pos2)), pos2)),
                    Err(err) => Err(err),
                },
                Err(err) => Err(err),
            },
            TokenKind::LBracket => match g_list(toks, pos + 1, TokenKind::RBracket, Seq::empty()) {
                Ok((elements, p)) => match expect(toks, p, TokenKind::RBracket, "]"@) {
                    Ok((_, pos2)) => Ok((ExprView::List(elements, span_between(toks, pos, pos2)), pos2)),
                    Err(err) => Err(err),
                },
                Err(err) => Err(err),
            },
            TokenKind::Entities => match expect(toks, pos + 1, TokenKind::Having, "having"@) {
                Ok((_, pos1)) => match expect(toks, pos1, TokenKind::Identifier, "component name"@) {
                    Ok((name, pos2)) => Ok((ExprView::EntitiesHaving(name.text, span_between(toks, pos, pos2)), pos2)),
                    Err(err) => Err(err),
                },
                Err(err) => Err(err),
            },
            TokenKind::Clone => match step(toks, pos, g_postfix(toks, pos + 1)) {
                Ok((source, p)) => if is_kind(toks, p, TokenKind::LBrace) {
                    match g_component_inits(toks, p + 1, Seq::empty()) {
                        Ok((overrides, pos2)) => match expect(toks, pos2, TokenKind::RBrace, "}"@) {
                            Ok((_, pos3)) => Ok(
                                (
                                    ExprView::CloneEntity(
                                        Box::new(source),
                                        overrides,
                                        span_between(toks, pos, pos3),
                                    ),
                                    pos3,
                                ),
                            ),
                            Err(err) => Err(err),
                        },
                        Err(err) => Err(err),
                    }
                } else {
                    Ok((ExprView::CloneEntity(Box::new(source), Seq::empty(), span_between(toks, pos, p)), p))
                },
                Err(err) => Err(err),
            },
            _ => Err(unexpected(toks, pos, "expression"@)),
        }
    }
}

} // verus!
