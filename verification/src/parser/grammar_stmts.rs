//! The grammar of statements and blocks.

use vstd::prelude::*;
use crate::lexer::{TokenKind, TokenView};
use crate::parser::ast::{
    AssignOp, AssignmentStatementView, BlockView, CancelStatementView, CreateStatementView, DeleteStatementView,
    ElseClauseView, ExprView, ForStatementView, IfStatementView, LetStatementView, ReturnStatementView,
    ScheduleStatementView, StatementView, TypeExprView, WhileStatementView,
};
use crate::parser::cursor::{expect, is_kind, span_between, step, Parsed};
use crate::parser::errors::ParseErrorView;
use crate::parser::grammar::{g_component_inits, g_expression, g_field_inits, g_type};

verus! {

/// The assignment operator that a token stands for.
pub open spec fn assign_op_of(kind: TokenKind) -> Option<AssignOp> {
    match kind {
        TokenKind::Eq => Some(AssignOp::Assign),
        TokenKind::PlusEq => Some(AssignOp::AddAssign),
        TokenKind::MinusEq => Some(AssignOp::SubAssign),
        TokenKind::StarEq => Some(AssignOp::MulAssign),
        TokenKind::SlashEq => Some(AssignOp::DivAssign),
        _ => None,
    }
}

/// The assignment operator at `pos`, if a token is there and stands for
/// one.
pub open spec fn assign_op_here(toks: Seq<TokenView>, pos: nat) -> Option<AssignOp> {
    if pos < toks.len() {
        assign_op_of(toks[pos as int].kind)
    } else {
        None
    }
}

/// Whether a kind is a keyword that begins a statement.
pub open spec fn starts_statement(kind: TokenKind) -> bool {
    kind == TokenKind::Let || kind == TokenKind::If || kind == TokenKind::For || kind == TokenKind::While || kind
        == TokenKind::Return || kind == TokenKind::Schedule || kind == TokenKind::Cancel || kind
        == TokenKind::Create || kind == TokenKind::Delete
}

/// An optional `: type`.
pub open spec fn g_type_annotation(toks: Seq<TokenView>, pos: nat) -> Parsed<Option<TypeExprView>> {
    if is_kind(toks, pos, TokenKind::Colon) {
        match g_type(toks, pos + 1) {
            Ok((t, p)) => Ok((Some(t), p)),
            Err(e) => Err(e),
        }
    } else {
        Ok((None, pos))
    }
}

/// `let name [: type] = value`
pub open spec fn g_let(toks: Seq<TokenView>, pos: nat) -> Parsed<StatementView> {
    match expect(toks, pos, TokenKind::Let, "let"@) {
        Ok((_, pos1)) => match expect(toks, pos1, TokenKind::Identifier, "variable name"@) {
            Ok((name, pos2)) => match g_type_annotation(toks, pos2) {
                Ok((annotation, pos3)) => match expect(toks, pos3, TokenKind::Eq, "="@) {
                    Ok((_, pos4)) => match g_expression(toks, pos4) {
                        Ok((value, pos5)) => Ok(
                            (
                                StatementView::Let(
                                    LetStatementView {
                                        name: name.text,
                                        type_annotation: annotation,
                                        value: value,
                                        span: span_between(toks, pos, pos5),
                                    },
                                ),
                                pos5,
                            ),
                        ),
                        Err(e) => Err(e),
                    },
                    Err(e) => Err(e),
                },
                Err(e) => Err(e),
            },
            Err(e) => Err(e),
        },
        Err(e) => Err(e),
    }
}

/// Whether an expression follows `return` at `pos`: something stands
/// there that neither closes the block nor begins a statement.
pub open spec fn return_has_value(toks: Seq<TokenView>, pos: nat) -> bool {
    pos < toks.len() && toks[pos as int].kind != TokenKind::RBrace && !starts_statement(toks[pos as int].kind)
}

/// `return [expr]`
pub open spec fn g_return(toks: Seq<TokenView>, pos: nat) -> Parsed<StatementView> {
    match expect(toks, pos, TokenKind::Return, "return"@) {
        Ok((_, pos1)) => if return_has_value(toks, pos1) {
            match g_expression(toks, pos1) {
                Ok((value, pos2)) => Ok(
                    (
                        StatementView::Return(
                            ReturnStatementView { value: Some(value), span: span_between(toks, pos, pos2) },
                        ),
                        pos2,
                    ),
                ),
                Err(e) => Err(e),
            }
        } else {
            Ok(
                (StatementView::Return(ReturnStatementView { value: None, span: span_between(toks, pos, pos1) }), pos1),
            )
        },
        Err(e) => Err(e),
    }
}

/// The optional `[name: expr]` of a schedule: the delay when the name is
/// `delay`, the interval when it is `interval`; any other name is read and
/// dropped.
pub open spec fn g_schedule_timing(toks: Seq<TokenView>, pos: nat) -> Parsed<(Option<ExprView>, Option<ExprView>)> {
    if is_kind(toks, pos, TokenKind::LBracket) {
        match expect(toks, pos + 1, TokenKind::Identifier, "delay or interval"@) {
            Ok((name, pos1)) => match expect(toks, pos1, TokenKind::Colon, ":"@) {
                Ok((_, pos2)) => match g_expression(toks, pos2) {
                    Ok((value, pos3)) => match expect(toks, pos3, TokenKind::RBracket, "]"@) {
                        Ok((_, pos4)) => Ok(
                            (
                                (
                                    if name.text == "delay"@ {
                                        Some(value)
                                    } else {
                                        None
                                    },
                                    if name.text != "delay"@ && name.text == "interval"@ {
                                        Some(value)
                                    } else {
                                        None
                                    },
                                ),
                                pos4,
                            ),
                        ),
                        Err(e) => Err(e),
                    },
                    Err(e) => Err(e),
                },
                Err(e) => Err(e),
            },
            Err(e) => Err(e),
        }
    } else {
        Ok(((None, None), pos))
    }
}

/// `schedule [recurring] [[delay: e] | [interval: e]] Event { field: e* }`
pub open spec fn g_schedule(toks: Seq<TokenView>, pos: nat) -> Parsed<StatementView> {
    match expect(toks, pos, TokenKind::Schedule, "schedule"@) {
        Ok((_, pos1)) => {
            let recurring = is_kind(toks, pos1, TokenKind::Recurring);
            let pos2 = if recurring {
                pos1 + 1
            } else {
                pos1
            };
            match g_schedule_timing(toks, pos2) {
                Ok((timing, pos3)) => match expect(toks, pos3, TokenKind::Identifier, "event name"@) {
                    Ok((event, pos4)) => match expect(toks, pos4, TokenKind::LBrace, "{"@) {
                        Ok((_, pos5)) => match g_field_inits(toks, pos5, Seq::empty()) {
                            Ok((fields, pos6)) => match expect(toks, pos6, TokenKind::RBrace, "}"@) {
                                Ok((_, pos7)) => Ok(
                                    (
                                        StatementView::Schedule(
                                            ScheduleStatementView {
                                                recurring: recurring,
                                                delay: timing.0,
                                                interval: timing.1,
                                                event_name: event.text,
                                                fields: fields,
                                                span: span_between(toks, pos, pos7),
                                            },
                                        ),
                                        pos7,
                                    ),
                                ),
                                Err(e) => Err(e),
                            },
                            Err(e) => Err(e),
                        },
                        Err(e) => Err(e),
                    },
                    Err(e) => Err(e),
                },
                Err(e) => Err(e),
            }
        },
        Err(e) => Err(e),
    }
}

/// `cancel expr`
pub open spec fn g_cancel(toks: Seq<TokenView>, pos: nat) -> Parsed<StatementView> {
    match expect(toks, pos, TokenKind::Cancel, "cancel"@) {
        Ok((_, pos1)) => match g_expression(toks, pos1) {
            Ok((target, pos2)) => Ok(
                (
                    StatementView::Cancel(CancelStatementView { target: target, span: span_between(toks, pos, pos2) }),
                    pos2,
                ),
            ),
            Err(e) => Err(e),
        },
        Err(e) => Err(e),
    }
}

/// `delete expr`
pub open spec fn g_delete(toks: Seq<TokenView>, pos: nat) -> Parsed<StatementView> {
    match expect(toks, pos, TokenKind::Delete, "delete"@) {
        Ok((_, pos1)) => match g_expression(toks, pos1) {
            Ok((entity, pos2)) => Ok(
                (
                    StatementView::Delete(DeleteStatementView { entity: entity, span: span_between(toks, pos, pos2) }),
                    pos2,
                ),
            ),
            Err(e) => Err(e),
        },
        Err(e) => Err(e),
    }
}

/// `create entity { componentInit* }`
pub open spec fn g_create(toks: Seq<TokenView>, pos: nat) -> Parsed<StatementView> {
    match expect(toks, pos, TokenKind::Create, "create"@) {
        Ok((_, pos1)) => match expect(toks, pos1, TokenKind::Entity, "entity"@) {
            Ok((_, pos2)) => match expect(toks, pos2, TokenKind::LBrace, "{"@) {
                Ok((_, pos3)) => match g_component_inits(toks, pos3, Seq::empty()) {
                    Ok((components, pos4)) => match expect(toks, pos4, TokenKind::RBrace, "}"@) {
                        Ok((_, pos5)) => Ok(
                            (
                                StatementView::Create(
                                    CreateStatementView {
                                        components: components,
                                        span: span_between(toks, pos, pos5),
                                    },
                                ),
                                pos5,
                            ),
                        ),
                        Err(e) => Err(e),
                    },
                    Err(e) => Err(e),
                },
                Err(e) => Err(e),
            },
            Err(e) => Err(e),
        },
        Err(e) => Err(e),
    }
}

/// An expression, which is the target of an assignment when an assignment
/// operator follows it, and a statement of its own otherwise.
pub open spec fn g_expr_statement(toks: Seq<TokenView>, pos: nat) -> Parsed<StatementView> {
    match g_expression(toks, pos) {
        Ok((e, pos1)) => match assign_op_here(toks, pos1) {
            Some(op) => match g_expression(toks, pos1 + 1) {
                Ok((value, pos2)) => Ok(
                    (
                        StatementView::Assignment(
                            AssignmentStatementView {
                                target: e,
                                op: op,
                                value: value,
                                span: span_between(toks, pos, pos2),
                            },
                        ),
                        pos2,
                    ),
                ),
                Err(err) => Err(err),
            },
            None => Ok((StatementView::Expr(e), pos1)),
        },
        Err(err) => Err(err),
    }
}

/// `{ statement* }`
pub open spec fn g_block(toks: Seq<TokenView>, pos: nat) -> Parsed<BlockView>
    decreases toks.len() - pos, 5nat,
{
    match expect(toks, pos, TokenKind::LBrace, "{"@) {
        Ok((_, pos1)) => match g_statements(toks, pos1, Seq::empty()) {
            Ok((statements, pos2)) => match expect(toks, pos2, TokenKind::RBrace, "}"@) {
                Ok((_, pos3)) => Ok((BlockView { statements: statements, span: span_between(toks, pos, pos3) }, pos3)),
                Err(e) => Err(e),
            },
            Err(e) => Err(e),
        },
        Err(e) => Err(e),
    }
}

/// Statements up to a `}` or the end of input. The brace is not
/// consumed.
pub open spec fn g_statements(toks: Seq<TokenView>, pos: nat, acc: Seq<StatementView>) -> Parsed<
    Seq<StatementView>,
>
    decreases toks.len() - pos, 20nat,
{
    if pos >= toks.len() || is_kind(toks, pos, TokenKind::RBrace) {
        Ok((acc, pos))
    } else {
        match step(toks, pos, g_statement(toks, pos)) {
            Ok((s, p)) => g_statements(toks, p, acc.push(s)),
            Err(e) => Err(e),
        }
    }
}

/// What follows the then-block of an `if`: `else if ..`, `else { .. }`, or
/// nothing.
pub open spec fn g_else(toks: Seq<TokenView>, pos: nat) -> Parsed<Option<Box<ElseClauseView>>>
    decreases toks.len() - pos, 4nat,
{
    if is_kind(toks, pos, TokenKind::Else) {
        if is_kind(toks, pos + 1, TokenKind::If) {
            match g_if(toks, pos + 1) {
                Ok((inner, p)) => Ok((Some(Box::new(ElseClauseView::ElseIf(inner))), p)),
                Err(e) => Err(e),
            }
        } else {
            match g_block(toks, pos + 1) {
                Ok((block, p)) => Ok((Some(Box::new(ElseClauseView::Else(block))), p)),
                Err(e) => Err(e),
            }
        }
    } else {
        Ok((None, pos))
    }
}

/// `if cond { .. } [else ..]`
pub open spec fn g_if(toks: Seq<TokenView>, pos: nat) -> Parsed<IfStatementView>
    decreases toks.len() - pos, 5nat,
{
    match expect(toks, pos, TokenKind::If, "if"@) {
        Ok((_, pos1)) => match step(toks, pos, g_expression(toks, pos1)) {
            Ok((condition, pos2)) => match step(toks, pos, g_block(toks, pos2)) {
                Ok((then_block, pos3)) => match g_else(toks, pos3) {
                    Ok((else_block, pos4)) => Ok(
                        (
                            IfStatementView {
                                condition: condition,
                                then_block: then_block,
                                else_block: else_block,
                                span: span_between(toks, pos, pos4),
                            },
                            pos4,
                        ),
                    ),
                    Err(e) => Err(e),
                },
                Err(e) => Err(e),
            },
            Err(e) => Err(e),
        },
        Err(e) => Err(e),
    }
}

/// `for x in expr { .. }`
pub open spec fn g_for(toks: Seq<TokenView>, pos: nat) -> Parsed<StatementView>
    decreases toks.len() - pos, 5nat,
{
    match expect(toks, pos, TokenKind::For, "for"@) {
        Ok((_, pos1)) => match expect(toks, pos1, TokenKind::Identifier, "loop variable"@) {
            Ok((variable, pos2)) => match expect(toks, pos2, TokenKind::In, "in"@) {
                Ok((_, pos3)) => match step(toks, pos, g_expression(toks, pos3)) {
                    Ok((iterable, pos4)) => match g_block(toks, pos4) {
                        Ok((body, pos5)) => Ok(
                            (
                                StatementView::For(
                                    ForStatementView {
                                        variable: variable.text,
                                        iterable: iterable,
                                        body: body,
                                        span: span_between(toks, pos, pos5),
                                    },
                                ),
                                pos5,
                            ),
                        ),
                        Err(e) => Err(e),
                    },
                    Err(e) => Err(e),
                },
                Err(e) => Err(e),
            },
            Err(e) => Err(e),
        },
        Err(e) => Err(e),
    }
}

/// `while cond { .. }`
pub open spec fn g_while(toks: Seq<TokenView>, pos: nat) -> Parsed<StatementView>
    decreases toks.len() - pos, 5nat,
{
    match expect(toks, pos, TokenKind::While, "while"@) {
        Ok((_, pos1)) => match step(toks, pos, g_expression(toks, pos1)) {
            Ok((condition, pos2)) => match g_block(toks, pos2) {
                Ok((body, pos3)) => Ok(
                    (
                        StatementView::While(
                            WhileStatementView {
                                condition: condition,
                                body: body,
                                span: span_between(toks, pos, pos3),
                            },
                        ),
                        pos3,
                    ),
                ),
                Err(e) => Err(e),
            },
            Err(e) => Err(e),
        },
        Err(e) => Err(e),
    }
}

/// A statement, chosen by its first token.
pub open spec fn g_statement(toks: Seq<TokenView>, pos: nat) -> Parsed<StatementView>
    decreases toks.len() - pos, 10nat,
{
    if pos >= toks.len() {
        Err(ParseErrorView::UnexpectedEof { expected: "statement"@ })
    } else {
        match toks[pos as int].kind {
            TokenKind::Let => g_let(toks, pos),
            TokenKind::If => match g_if(toks, pos) {
                Ok((i, p)) => Ok((StatementView::If(i), p)),
                Err(e) => Err(e),
            },
            TokenKind::For => g_for(toks, pos),
            TokenKind::While => g_while(toks, pos),
            TokenKind::Return => g_return(toks, pos),
            TokenKind::Schedule => g_schedule(toks, pos),
            TokenKind::Cancel => g_cancel(toks, pos),
            TokenKind::Create => g_create(toks, pos),
            TokenKind::Delete => g_delete(toks, pos),
            _ => g_expr_statement(toks, pos),
        }
    }
}

} // verus!
