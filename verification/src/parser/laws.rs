//! What holds of everything the grammar reads.
//!
//! Every production consumes at least one token and stays within the
//! token list, and every expression carries the span of exactly the tokens
//! it was read from. It follows that the error of a parse that would not
//! move is never the result of parsing.

use vstd::prelude::*;
use crate::lexer::{TokenKind, TokenView};
use crate::parser::ast::{
    BoundFunctionDefView, ComponentInitView, ExprView, FieldDefView, ItemView, ModuleView, ParamDefView,
    StatementView, TypeExprView,
};
use crate::parser::cursor::{expect, expect_name, is_kind, span_between, stalled, Parsed};
use crate::parser::errors::ParseErrorView;
use crate::parser::grammar::{
    binary_op_here, composite_error, g_base_type, g_binary, g_binary_rest, g_component_init, g_component_inits,
    g_composite_rest, g_expression, g_field_inits, g_list, g_param_type, g_postfix, g_postfix_rest, g_primary,
    expr_span, g_type, g_unary, integer_error,
};
use crate::parser::grammar_items::{
    g_bound_function, g_component, g_entity, g_entity_body, g_entity_head, g_field, g_fields, g_function,
    g_import, g_import_names, g_import_path, g_item, g_items, g_module_def, g_param, g_params, g_priority,
    g_rule, g_signature_and_body, g_when, priority_error, spec_parse,
};
use crate::parser::grammar_stmts::{
    assign_op_here, g_block, g_cancel, g_create, g_delete, g_else, g_expr_statement, g_for, g_if, g_let,
    g_return, g_schedule, g_schedule_timing, g_statement, g_statements, g_type_annotation, g_while,
};

verus! {

/// Whether a result moved forward from `pos` and stayed within the tokens,
/// or is an error other than that of a parse that would not move.
pub open spec fn advances<V>(toks: Seq<TokenView>, pos: nat, r: Parsed<V>) -> bool {
    match r {
        Ok((_, p)) => pos < p <= toks.len(),
        Err(e) => e != stalled(),
    }
}

/// As `advances`, for what may read nothing: lists and optional parts.
pub open spec fn keeps_place<V>(toks: Seq<TokenView>, pos: nat, r: Parsed<V>) -> bool {
    match r {
        Ok((_, p)) => pos <= p <= toks.len(),
        Err(e) => e != stalled(),
    }
}

/// Whether a result is an expression that moved forward from `pos`, stayed
/// within the tokens, and carries the span of the tokens it was read from;
/// or is an error other than that of a parse that would not move.
pub open spec fn reads_expr(toks: Seq<TokenView>, pos: nat, r: Parsed<ExprView>) -> bool {
    match r {
        Ok((e, p)) => pos < p <= toks.len() && expr_span(e) == span_between(toks, pos, p),
        Err(e) => e != stalled(),
    }
}

/// The errors that the grammar raises by name are not that of a parse that
/// would not move.
pub proof fn lemma_named_errors(text: Seq<char>)
    ensures
        composite_error() != stalled(),
        integer_error(text) != stalled(),
        priority_error(text) != stalled(),
{
    reveal_strlit("no progress");
    reveal_strlit("every member of a composite type must be a component type");
    reveal_strlit("Invalid integer literal: '");
    reveal_strlit("Invalid priority value: '");
    assert(stalled()->InvalidSyntax_message.len() == 11);
    assert(composite_error()->InvalidSyntax_message.len() == 57);
    assert(integer_error(text)->InvalidSyntax_message.len() >= 26);
    assert(priority_error(text)->InvalidSyntax_message.len() >= 25);
}

/// One expected token moves forward by one.
pub proof fn lemma_expect(toks: Seq<TokenView>, pos: nat, kind: TokenKind, expected: Seq<char>)
    ensures
        advances(toks, pos, expect(toks, pos, kind, expected)),
        expect(toks, pos, kind, expected) is Ok ==> (expect(toks, pos, kind, expected)->Ok_0).1 == pos + 1,
        advances(toks, pos, expect_name(toks, pos, expected)),
        expect_name(toks, pos, expected) is Ok ==> (expect_name(toks, pos, expected)->Ok_0).1 == pos + 1,
{
}

/// A type moves forward.
pub proof fn lemma_type(toks: Seq<TokenView>, pos: nat)
    ensures
        advances(toks, pos, g_type(toks, pos)),
        advances(toks, pos, g_base_type(toks, pos)),
    decreases toks.len() - pos,
{
    if pos < toks.len() && toks[pos as int].kind == TokenKind::TypeList && is_kind(toks, pos + 1, TokenKind::Lt) {
        lemma_type(toks, pos + 2);
    }
}

/// The rest of a composite type stays in place or moves forward.
pub proof fn lemma_composite_rest(toks: Seq<TokenView>, pos: nat, acc: Seq<TypeExprView>)
    requires
        pos <= toks.len(),
    ensures
        keeps_place(toks, pos, g_composite_rest(toks, pos, acc)),
    decreases toks.len() - pos,
{
    lemma_named_errors(Seq::empty());
    if is_kind(toks, pos, TokenKind::And) && is_kind(toks, pos + 1, TokenKind::Identifier) {
        lemma_composite_rest(toks, pos + 2, acc.push(TypeExprView::Component(toks[(pos + 1) as int].text)));
    }
}

/// The type of a choice-function parameter moves forward.
pub proof fn lemma_param_type(toks: Seq<TokenView>, pos: nat)
    ensures
        advances(toks, pos, g_param_type(toks, pos)),
{
    lemma_named_errors(Seq::empty());
    lemma_type(toks, pos);
    match g_type(toks, pos) {
        Ok((t, p)) => {
            lemma_composite_rest(toks, p, seq![t]);
        },
        Err(_) => {},
    }
}

/// An expression moves forward and carries the span of its tokens.
pub proof fn lemma_expression(toks: Seq<TokenView>, pos: nat)
    ensures
        reads_expr(toks, pos, g_expression(toks, pos)),
    decreases toks.len() - pos, 11nat,
{
    lemma_binary(toks, pos, 6);
}

/// An expression of a precedence level moves forward and carries the span
/// of its tokens.
pub proof fn lemma_binary(toks: Seq<TokenView>, pos: nat, level: nat)
    ensures
        reads_expr(toks, pos, g_binary(toks, pos, level)),
    decreases toks.len() - pos, 4 + level,
{
    if level == 0 || level > 6 {
        lemma_unary(toks, pos);
    } else {
        lemma_binary(toks, pos, (level - 1) as nat);
        match g_binary(toks, pos, (level - 1) as nat) {
            Ok((left, p)) => {
                lemma_binary_rest(toks, p, pos, left, level);
            },
            Err(_) => {},
        }
    }
}

/// The rest of a binary expression keeps the start of its span and ends
/// it where it stops.
pub proof fn lemma_binary_rest(toks: Seq<TokenView>, pos: nat, start: nat, left: ExprView, level: nat)
    requires
        start < pos <= toks.len(),
        expr_span(left) == span_between(toks, start, pos),
    ensures
        match g_binary_rest(toks, pos, start, left, level) {
            Ok((e, p)) => pos <= p <= toks.len() && expr_span(e) == span_between(toks, start, p),
            Err(e) => e != stalled(),
        },
    decreases toks.len() - pos, 0nat,
{
    if 0 < level <= 6 && binary_op_here(toks, pos, level) is Some {
        lemma_binary(toks, pos + 1, (level - 1) as nat);
        match g_binary(toks, pos + 1, (level - 1) as nat) {
            Ok((right, p)) => {
                lemma_binary_rest(
                    toks,
                    p,
                    start,
                    ExprView::Binary(
                        Box::new(left),
                        binary_op_here(toks, pos, level)->0,
                        Box::new(right),
                        span_between(toks, start, p),
                    ),
                    level,
                );
            },
            Err(_) => {},
        }
    }
}

/// A unary expression moves forward and carries the span of its tokens.
pub proof fn lemma_unary(toks: Seq<TokenView>, pos: nat)
    ensures
        reads_expr(toks, pos, g_unary(toks, pos)),
    decreases toks.len() - pos, 3nat,
{
    if is_kind(toks, pos, TokenKind::Not) || is_kind(toks, pos, TokenKind::Minus) {
        lemma_unary(toks, pos + 1);
    } else {
        lemma_postfix(toks, pos);
    }
}

/// A postfix expression moves forward and carries the span of its tokens.
pub proof fn lemma_postfix(toks: Seq<TokenView>, pos: nat)
    ensures
        reads_expr(toks, pos, g_postfix(toks, pos)),
    decreases toks.len() - pos, 2nat,
{
    lemma_primary(toks, pos);
    match g_primary(toks, pos) {
        Ok((e, p)) => {
            lemma_postfix_rest(toks, p, pos, e);
        },
        Err(_) => {},
    }
}

/// The rest of a postfix expression keeps the start of its span and ends
/// it where it stops.
pub proof fn lemma_postfix_rest(toks: Seq<TokenView>, pos: nat, start: nat, e: ExprView)
    requires
        start < pos <= toks.len(),
        expr_span(e) == span_between(toks, start, pos),
    ensures
        match g_postfix_rest(toks, pos, start, e) {
            Ok((r, p)) => pos <= p <= toks.len() && expr_span(r) == span_between(toks, start, p),
            Err(err) => err != stalled(),
        },
    decreases toks.len() - pos, 0nat,
{
    if is_kind(toks, pos, TokenKind::Dot) {
        match expect_name(toks, pos + 1, "field name"@) {
            Ok((name, pos1)) => {
                if is_kind(toks, pos1, TokenKind::LParen) {
                    lemma_list(toks, pos1 + 1, TokenKind::RParen, Seq::empty());
                    match g_list(toks, pos1 + 1, TokenKind::RParen, Seq::empty()) {
                        Ok((args, pos2)) => {
                            match expect(toks, pos2, TokenKind::RParen, ")"@) {
                                Ok((_, pos3)) => {
                                    lemma_postfix_rest(
                                        toks,
                                        pos3,
                                        start,
                                        ExprView::MethodCall(
                                            Box::new(e),
                                            name.text,
                                            args,
                                            span_between(toks, start, pos3),
                                        ),
                                    );
                                },
                                Err(_) => {},
                            }
                        },
                        Err(_) => {},
                    }
                } else {
                    lemma_postfix_rest(
                        toks,
                        pos1,
                        start,
                        ExprView::FieldAccess(Box::new(e), name.text, span_between(toks, start, pos1)),
                    );
                }
            },
            Err(_) => {},
        }
    } else if is_kind(toks, pos, TokenKind::LBracket) {
        lemma_expression(toks, pos + 1);
        match g_expression(toks, pos + 1) {
            Ok((index, p)) => {
                match expect(toks, p, TokenKind::RBracket, "]"@) {
                    Ok((_, pos2)) => {
                        lemma_postfix_rest(
                            toks,
                            pos2,
                            start,
                            ExprView::IndexAccess(Box::new(e), Box::new(index), span_between(toks, start, pos2)),
                        );
                    },
                    Err(_) => {},
                }
            },
            Err(_) => {},
        }
    }
}

/// A list of expressions stays in place or moves forward.
pub proof fn lemma_list(toks: Seq<TokenView>, pos: nat, close: TokenKind, acc: Seq<ExprView>)
    requires
        pos <= toks.len(),
    ensures
        keeps_place(toks, pos, g_list(toks, pos, close, acc)),
    decreases toks.len() - pos, 20nat,
{
    if pos >= toks.len() || is_kind(toks, pos, close) {
    } else {
        lemma_expression(toks, pos);
        match g_expression(toks, pos) {
            Ok((e, p)) => {
                lemma_list(
                    toks,
                    if is_kind(toks, p, TokenKind::Comma) {
                        p + 1
                    } else {
                        p
                    },
                    close,
                    acc.push(e),
                );
            },
            Err(_) => {},
        }
    }
}

/// A list of named expressions stays in place or moves forward.
pub proof fn lemma_field_inits(toks: Seq<TokenView>, pos: nat, acc: Seq<(Seq<char>, ExprView)>)
    requires
        pos <= toks.len(),
    ensures
        keeps_place(toks, pos, g_field_inits(toks, pos, acc)),
    decreases toks.len() - pos, 0nat,
{
    if pos >= toks.len() || is_kind(toks, pos, TokenKind::RBrace) {
    } else {
        match expect_name(toks, pos, "field name"@) {
            Ok((name, pos1)) => {
                match expect(toks, pos1, TokenKind::Colon, ":"@) {
                    Ok((_, pos2)) => {
                        lemma_expression(toks, pos2);
                        match g_expression(toks, pos2) {
                            Ok((value, pos3)) => {
                                lemma_field_inits(toks, pos3, acc.push((name.text, value)));
                            },
                            Err(_) => {},
                        }
                    },
                    Err(_) => {},
                }
            },
            Err(_) => {},
        }
    }
}

/// A component initialiser moves forward.
pub proof fn lemma_component_init(toks: Seq<TokenView>, pos: nat)
    ensures
        advances(toks, pos, g_component_init(toks, pos)),
    decreases toks.len() - pos, 1nat,
{
    if is_kind(toks, pos, TokenKind::Identifier) && is_kind(toks, pos + 1, TokenKind::LBrace) {
        lemma_field_inits(toks, pos + 2, Seq::empty());
    }
}

/// A list of component initialisers stays in place or moves forward.
pub proof fn lemma_component_inits(toks: Seq<TokenView>, pos: nat, acc: Seq<ComponentInitView>)
    requires
        pos <= toks.len(),
    ensures
        keeps_place(toks, pos, g_component_inits(toks, pos, acc)),
    decreases toks.len() - pos, 20nat,
{
    if pos >= toks.len() || is_kind(toks, pos, TokenKind::RBrace) {
    } else {
        lemma_component_init(toks, pos);
        match g_component_init(toks, pos) {
            Ok((c, p)) => {
                lemma_component_inits(toks, p, acc.push(c));
            },
            Err(_) => {},
        }
    }
}

/// A primary expression moves forward and carries the span of its tokens.
pub proof fn lemma_primary(toks: Seq<TokenView>, pos: nat)
    ensures
        reads_expr(toks, pos, g_primary(toks, pos)),
    decreases toks.len() - pos, 1nat,
{
    lemma_named_errors(if pos < toks.len() {
        toks[pos as int].text
    } else {
        Seq::empty()
    });
    if pos < toks.len() {
        let t = toks[pos as int];
        assert(t.span == span_between(toks, pos, pos + 1));
        match t.kind {
            TokenKind::Identifier => {
                if is_kind(toks, pos + 1, TokenKind::LParen) {
                    lemma_list(toks, pos + 2, TokenKind::RParen, Seq::empty());
                }
            },
            TokenKind::LParen => {
                lemma_expression(toks, pos + 1);
            },
            TokenKind::LBracket => {
                lemma_list(toks, pos + 1, TokenKind::RBracket, Seq::empty());
            },
            TokenKind::Clone => {
                lemma_postfix(toks, pos + 1);
                match g_postfix(toks, pos + 1) {
                    Ok((source, p)) => {
                        if is_kind(toks, p, TokenKind::LBrace) {
                            lemma_component_inits(toks, p + 1, Seq::empty());
                        }
                    },
                    Err(_) => {},
                }
            },
            _ => {},
        }
    }
}

/// An optional type annotation stays in place or moves forward.
pub proof fn lemma_type_annotation(toks: Seq<TokenView>, pos: nat)
    requires
        pos <= toks.len(),
    ensures
        keeps_place(toks, pos, g_type_annotation(toks, pos)),
{
    if is_kind(toks, pos, TokenKind::Colon) {
        lemma_type(toks, pos + 1);
    }
}

/// A `let` moves forward.
pub proof fn lemma_let(toks: Seq<TokenView>, pos: nat)
    ensures
        advances(toks, pos, g_let(toks, pos)),
{
    if is_kind(toks, pos, TokenKind::Let) && is_kind(toks, pos + 1, TokenKind::Identifier) {
        lemma_type_annotation(toks, pos + 2);
        match g_type_annotation(toks, pos + 2) {
            Ok((_, pos3)) => {
                if is_kind(toks, pos3, TokenKind::Eq) {
                    lemma_expression(toks, pos3 + 1);
                }
            },
            Err(_) => {},
        }
    }
}

/// A `return`, a `cancel` and a `delete` move forward.
pub proof fn lemma_keyword_and_expression(toks: Seq<TokenView>, pos: nat)
    ensures
        advances(toks, pos, g_return(toks, pos)),
        advances(toks, pos, g_cancel(toks, pos)),
        advances(toks, pos, g_delete(toks, pos)),
{
    if pos < toks.len() {
        lemma_expression(toks, pos + 1);
    }
}

/// A `schedule` moves forward.
pub proof fn lemma_schedule(toks: Seq<TokenView>, pos: nat)
    ensures
        advances(toks, pos, g_schedule(toks, pos)),
{
    if is_kind(toks, pos, TokenKind::Schedule) {
        let pos2 = if is_kind(toks, pos + 1, TokenKind::Recurring) {
            pos + 2
        } else {
            pos + 1
        };
        lemma_schedule_timing(toks, pos2);
        match g_schedule_timing(toks, pos2) {
            Ok((_, pos3)) => {
                if is_kind(toks, pos3, TokenKind::Identifier) && is_kind(toks, pos3 + 1, TokenKind::LBrace) {
                    lemma_field_inits(toks, pos3 + 2, Seq::empty());
                }
            },
            Err(_) => {},
        }
    }
}

/// A `create` moves forward.
pub proof fn lemma_create(toks: Seq<TokenView>, pos: nat)
    ensures
        advances(toks, pos, g_create(toks, pos)),
{
    if is_kind(toks, pos, TokenKind::Create) && is_kind(toks, pos + 1, TokenKind::Entity) && is_kind(
        toks,
        pos + 2,
        TokenKind::LBrace,
    ) {
        lemma_component_inits(toks, pos + 3, Seq::empty());
    }
}

/// An assignment and an expression statement move forward.
pub proof fn lemma_expr_statement(toks: Seq<TokenView>, pos: nat)
    ensures
        advances(toks, pos, g_expr_statement(toks, pos)),
{
    lemma_expression(toks, pos);
    match g_expression(toks, pos) {
        Ok((_, pos1)) => {
            if assign_op_here(toks, pos1) is Some {
                lemma_expression(toks, pos1 + 1);
            }
        },
        Err(_) => {},
    }
}

/// The optional timing of a schedule stays in place or moves forward.
pub proof fn lemma_schedule_timing(toks: Seq<TokenView>, pos: nat)
    requires
        pos <= toks.len(),
    ensures
        keeps_place(toks, pos, g_schedule_timing(toks, pos)),
{
    if is_kind(toks, pos, TokenKind::LBracket) && is_kind(toks, pos + 1, TokenKind::Identifier) && is_kind(
        toks,
        pos + 2,
        TokenKind::Colon,
    ) {
        lemma_expression(toks, pos + 3);
    }
}

/// A block moves forward.
pub proof fn lemma_block(toks: Seq<TokenView>, pos: nat)
    ensures
        advances(toks, pos, g_block(toks, pos)),
    decreases toks.len() - pos, 5nat,
{
    if is_kind(toks, pos, TokenKind::LBrace) {
        lemma_statements(toks, pos + 1, Seq::empty());
    }
}

/// A list of statements stays in place or moves forward.
pub proof fn lemma_statements(toks: Seq<TokenView>, pos: nat, acc: Seq<StatementView>)
    requires
        pos <= toks.len(),
    ensures
        keeps_place(toks, pos, g_statements(toks, pos, acc)),
    decreases toks.len() - pos, 20nat,
{
    if pos >= toks.len() || is_kind(toks, pos, TokenKind::RBrace) {
    } else {
        lemma_statement(toks, pos);
        match g_statement(toks, pos) {
            Ok((s, p)) => {
                lemma_statements(toks, p, acc.push(s));
            },
            Err(_) => {},
        }
    }
}

/// What follows a then-block stays in place or moves forward.
pub proof fn lemma_else(toks: Seq<TokenView>, pos: nat)
    requires
        pos <= toks.len(),
    ensures
        keeps_place(toks, pos, g_else(toks, pos)),
    decreases toks.len() - pos, 4nat,
{
    if is_kind(toks, pos, TokenKind::Else) {
        if is_kind(toks, pos + 1, TokenKind::If) {
            lemma_if(toks, pos + 1);
        } else {
            lemma_block(toks, pos + 1);
        }
    }
}

/// An `if` moves forward.
pub proof fn lemma_if(toks: Seq<TokenView>, pos: nat)
    ensures
        advances(toks, pos, g_if(toks, pos)),
    decreases toks.len() - pos, 5nat,
{
    if is_kind(toks, pos, TokenKind::If) {
        lemma_expression(toks, pos + 1);
        match g_expression(toks, pos + 1) {
            Ok((_, pos2)) => {
                lemma_block(toks, pos2);
                match g_block(toks, pos2) {
                    Ok((_, pos3)) => {
                        lemma_else(toks, pos3);
                    },
                    Err(_) => {},
                }
            },
            Err(_) => {},
        }
    }
}

/// The loops move forward.
pub proof fn lemma_loops(toks: Seq<TokenView>, pos: nat)
    ensures
        advances(toks, pos, g_for(toks, pos)),
        advances(toks, pos, g_while(toks, pos)),
    decreases toks.len() - pos, 5nat,
{
    if is_kind(toks, pos, TokenKind::For) && is_kind(toks, pos + 1, TokenKind::Identifier) && is_kind(
        toks,
        pos + 2,
        TokenKind::In,
    ) {
        lemma_expression(toks, pos + 3);
        match g_expression(toks, pos + 3) {
            Ok((_, pos4)) => {
                lemma_block(toks, pos4);
            },
            Err(_) => {},
        }
    }
    if is_kind(toks, pos, TokenKind::While) {
        lemma_expression(toks, pos + 1);
        match g_expression(toks, pos + 1) {
            Ok((_, pos2)) => {
                lemma_block(toks, pos2);
            },
            Err(_) => {},
        }
    }
}

/// A statement moves forward.
pub proof fn lemma_statement(toks: Seq<TokenView>, pos: nat)
    ensures
        advances(toks, pos, g_statement(toks, pos)),
    decreases toks.len() - pos, 10nat,
{
    if pos < toks.len() {
        match toks[pos as int].kind {
            TokenKind::Let => {
                lemma_let(toks, pos);
            },
            TokenKind::Return => {
                lemma_keyword_and_expression(toks, pos);
            },
            TokenKind::Cancel => {
                lemma_keyword_and_expression(toks, pos);
            },
            TokenKind::Delete => {
                lemma_keyword_and_expression(toks, pos);
            },
            TokenKind::Schedule => {
                lemma_schedule(toks, pos);
            },
            TokenKind::Create => {
                lemma_create(toks, pos);
            },
            TokenKind::If => {
                lemma_if(toks, pos);
            },
            TokenKind::For => {
                lemma_loops(toks, pos);
            },
            TokenKind::While => {
                lemma_loops(toks, pos);
            },
            _ => {
                lemma_expr_statement(toks, pos);
            },
        }
    }
}

/// A list of fields stays in place or moves forward.
pub proof fn lemma_fields(toks: Seq<TokenView>, pos: nat, acc: Seq<FieldDefView>)
    requires
        pos <= toks.len(),
    ensures
        keeps_place(toks, pos, g_fields(toks, pos, acc)),
    decreases toks.len() - pos,
{
    if pos >= toks.len() || is_kind(toks, pos, TokenKind::RBrace) {
    } else {
        lemma_type(toks, pos + 2);
        match g_field(toks, pos) {
            Ok((f, p)) => {
                lemma_fields(toks, p, acc.push(f));
            },
            Err(_) => {},
        }
    }
}

/// A list of parameters stays in place or moves forward.
pub proof fn lemma_params(toks: Seq<TokenView>, pos: nat, choice: bool, acc: Seq<ParamDefView>)
    requires
        pos <= toks.len(),
    ensures
        keeps_place(toks, pos, g_params(toks, pos, choice, acc)),
    decreases toks.len() - pos,
{
    if pos >= toks.len() || is_kind(toks, pos, TokenKind::RParen) {
    } else {
        lemma_type(toks, pos + 2);
        lemma_param_type(toks, pos + 2);
        match g_param(toks, pos, choice) {
            Ok((param, p)) => {
                lemma_params(
                    toks,
                    if is_kind(toks, p, TokenKind::Comma) {
                        p + 1
                    } else {
                        p
                    },
                    choice,
                    acc.push(param),
                );
            },
            Err(_) => {},
        }
    }
}

/// A parameter list with what follows it moves forward.
pub proof fn lemma_signature_and_body(toks: Seq<TokenView>, pos: nat, choice: bool)
    ensures
        advances(toks, pos, g_signature_and_body(toks, pos, choice)),
{
    if is_kind(toks, pos, TokenKind::LParen) {
        lemma_params(toks, pos + 1, choice, Seq::empty());
        match g_params(toks, pos + 1, choice, Seq::empty()) {
            Ok((_, pos2)) => {
                if is_kind(toks, pos2, TokenKind::RParen) {
                    lemma_type_annotation(toks, pos2 + 1);
                    match g_type_annotation(toks, pos2 + 1) {
                        Ok((_, pos4)) => {
                            lemma_block(toks, pos4);
                        },
                        Err(_) => {},
                    }
                }
            },
            Err(_) => {},
        }
    }
}

/// The items that hold no item move forward.
pub proof fn lemma_simple_items(toks: Seq<TokenView>, pos: nat)
    ensures
        advances(toks, pos, g_component(toks, pos)),
        advances(toks, pos, g_function(toks, pos)),
        advances(toks, pos, g_bound_function(toks, pos)),
        advances(toks, pos, g_rule(toks, pos)),
        advances(toks, pos, g_import(toks, pos)),
        advances(toks, pos, g_entity(toks, pos)),
{
    lemma_named_errors(Seq::empty());
    if pos < toks.len() {
        // component
        if is_kind(toks, pos, TokenKind::Component) && is_kind(toks, pos + 1, TokenKind::Identifier) && is_kind(
            toks,
            pos + 2,
            TokenKind::LBrace,
        ) {
            lemma_fields(toks, pos + 3, Seq::empty());
        }
        // function and choice function
        lemma_signature_and_body(toks, pos + 2, false);
        lemma_signature_and_body(toks, pos + 4, true);
        // rule
        if is_kind(toks, pos, TokenKind::Rule) {
            let pos2 = if is_kind(toks, pos + 1, TokenKind::Identifier) {
                pos + 2
            } else {
                pos + 1
            };
            if is_kind(toks, pos2, TokenKind::On) && is_kind(toks, pos2 + 1, TokenKind::Identifier) {
                lemma_when(toks, pos2 + 2);
                match g_when(toks, pos2 + 2) {
                    Ok((_, pos5)) => {
                        lemma_priority(toks, pos5);
                        match g_priority(toks, pos5) {
                            Ok((_, pos6)) => {
                                lemma_block(toks, pos6);
                            },
                            Err(_) => {},
                        }
                    },
                    Err(_) => {},
                }
            }
        }
        // import
        if is_kind(toks, pos, TokenKind::Import) && is_kind(toks, pos + 1, TokenKind::Identifier) {
            lemma_import_path(toks, pos + 2, seq![toks[(pos + 1) as int].text]);
            match g_import_path(toks, pos + 2, seq![toks[(pos + 1) as int].text]) {
                Ok((_, pos3)) => {
                    if is_kind(toks, pos3, TokenKind::LBrace) {
                        lemma_import_names(toks, pos3 + 1, Seq::empty());
                    }
                },
                Err(_) => {},
            }
        }
        // entity
        match g_entity_head(toks, pos) {
            Ok((_, pos1)) => {
                if is_kind(toks, pos1, TokenKind::LBrace) {
                    lemma_entity_body(toks, pos1 + 1, Seq::empty(), Seq::empty());
                }
            },
            Err(_) => {},
        }
    }
}

/// The optional condition of a rule stays in place or moves forward.
pub proof fn lemma_when(toks: Seq<TokenView>, pos: nat)
    requires
        pos <= toks.len(),
    ensures
        keeps_place(toks, pos, g_when(toks, pos)),
{
    if is_kind(toks, pos, TokenKind::When) {
        lemma_expression(toks, pos + 1);
    }
}

/// The optional priority of a rule stays in place or moves forward.
pub proof fn lemma_priority(toks: Seq<TokenView>, pos: nat)
    requires
        pos <= toks.len(),
    ensures
        keeps_place(toks, pos, g_priority(toks, pos)),
{
    if pos + 3 < toks.len() {
        lemma_named_errors(toks[(pos + 3) as int].text);
    }
}

/// The rest of an import path stays in place or moves forward.
pub proof fn lemma_import_path(toks: Seq<TokenView>, pos: nat, acc: Seq<Seq<char>>)
    requires
        pos <= toks.len(),
    ensures
        keeps_place(toks, pos, g_import_path(toks, pos, acc)),
    decreases toks.len() - pos,
{
    if is_kind(toks, pos, TokenKind::Dot) && is_kind(toks, pos + 1, TokenKind::Identifier) {
        lemma_import_path(toks, pos + 2, acc.push(toks[(pos + 1) as int].text));
    }
}

/// The names of an import list stay in place or move forward.
pub proof fn lemma_import_names(toks: Seq<TokenView>, pos: nat, acc: Seq<Seq<char>>)
    requires
        pos <= toks.len(),
    ensures
        keeps_place(toks, pos, g_import_names(toks, pos, acc)),
    decreases toks.len() - pos,
{
    if pos >= toks.len() || is_kind(toks, pos, TokenKind::RBrace) {
    } else if is_kind(toks, pos, TokenKind::Identifier) {
        lemma_import_names(
            toks,
            if is_kind(toks, pos + 1, TokenKind::Comma) {
                pos + 2
            } else {
                pos + 1
            },
            acc.push(toks[pos as int].text),
        );
    }
}

/// The contents of an entity stay in place or move forward.
pub proof fn lemma_entity_body(
    toks: Seq<TokenView>,
    pos: nat,
    components: Seq<ComponentInitView>,
    functions: Seq<BoundFunctionDefView>,
)
    requires
        pos <= toks.len(),
    ensures
        keeps_place(toks, pos, g_entity_body(toks, pos, components, functions)),
    decreases toks.len() - pos,
{
    if pos >= toks.len() || is_kind(toks, pos, TokenKind::RBrace) {
    } else if is_kind(toks, pos, TokenKind::Dot) {
        lemma_signature_and_body(toks, pos + 4, true);
        match g_bound_function(toks, pos) {
            Ok((f, p)) => {
                lemma_entity_body(toks, p, components, functions.push(f));
            },
            Err(_) => {},
        }
    } else {
        lemma_component_init(toks, pos);
        match g_component_init(toks, pos) {
            Ok((c, p)) => {
                lemma_entity_body(toks, p, components.push(c), functions);
            },
            Err(_) => {},
        }
    }
}

/// A nested module moves forward.
pub proof fn lemma_module_def(toks: Seq<TokenView>, pos: nat)
    ensures
        advances(toks, pos, g_module_def(toks, pos)),
    decreases toks.len() - pos, 5nat,
{
    if is_kind(toks, pos, TokenKind::Module) && is_kind(toks, pos + 1, TokenKind::Identifier) && is_kind(
        toks,
        pos + 2,
        TokenKind::LBrace,
    ) {
        lemma_items(toks, pos + 3, true, Seq::empty());
    }
}

/// A list of items stays in place or moves forward.
pub proof fn lemma_items(toks: Seq<TokenView>, pos: nat, nested: bool, acc: Seq<ItemView>)
    requires
        pos <= toks.len(),
    ensures
        keeps_place(toks, pos, g_items(toks, pos, nested, acc)),
    decreases toks.len() - pos, 20nat,
{
    if pos >= toks.len() || (nested && is_kind(toks, pos, TokenKind::RBrace)) {
    } else {
        lemma_item(toks, pos);
        match g_item(toks, pos) {
            Ok((item, p)) => {
                lemma_items(toks, p, nested, acc.push(item));
            },
            Err(_) => {},
        }
    }
}

/// An item moves forward.
pub proof fn lemma_item(toks: Seq<TokenView>, pos: nat)
    ensures
        advances(toks, pos, g_item(toks, pos)),
    decreases toks.len() - pos, 10nat,
{
    if pos < toks.len() {
        lemma_simple_items(toks, pos);
        if toks[pos as int].kind == TokenKind::Module {
            lemma_module_def(toks, pos);
        }
    }
}

/// A list of items at the top level ends only where the tokens end.
pub proof fn lemma_items_reach_the_end(toks: Seq<TokenView>, pos: nat, acc: Seq<ItemView>)
    requires
        pos <= toks.len(),
    ensures
        g_items(toks, pos, false, acc) is Ok ==> (g_items(toks, pos, false, acc)->Ok_0).1 == toks.len(),
    decreases toks.len() - pos,
{
    if pos < toks.len() {
        lemma_item(toks, pos);
        match g_item(toks, pos) {
            Ok((item, p)) => {
                lemma_items_reach_the_end(toks, p, acc.push(item));
            },
            Err(_) => {},
        }
    }
}

/// Parsing is all or nothing: a module is read from all the tokens, not
/// from some of them.
pub proof fn lemma_parse_reads_every_token(toks: Seq<TokenView>)
    ensures
        spec_parse(toks) is Ok <==> g_items(toks, 0, false, Seq::empty()) == Ok::<
            (Seq<ItemView>, nat),
            ParseErrorView,
        >((spec_parse(toks)->Ok_0.items, toks.len())),
{
    lemma_items_reach_the_end(toks, 0, Seq::empty());
}

/// Parsing never yields the error of a parse that would not move: the
/// tests on progress in the grammar pass on every input.
pub proof fn lemma_parse_never_stalls(toks: Seq<TokenView>)
    ensures
        spec_parse(toks) != Err::<ModuleView, ParseErrorView>(stalled()),
{
    lemma_items(toks, 0, false, Seq::empty());
}

} // verus!
