//! Parsing of statements and blocks.

use vstd::prelude::*;
use crate::lexer::TokenKind;
use crate::parser::ast::{
    group_ast_views, AssignmentStatement, AssignOp, Block, CancelStatement, CreateStatement, DeleteStatement,
    ElseClause, Expr, ExprView, ForStatement, IfStatement, LetStatement, ReturnStatement, ScheduleStatement,
    Statement, StatementView, TypeExpr, TypeExprView, WhileStatement,
};
use crate::parser::cursor::{is_kind, realises, Parser};
use crate::parser::errors::ParseError;

use crate::parser::grammar_stmts::{
    assign_op_here, g_block, g_cancel, g_create, g_delete, g_else, g_expr_statement, g_for, g_if, g_let,
    g_return, g_schedule, g_schedule_timing, g_statement, g_statements, g_type_annotation, g_while,
    starts_statement,
};
use crate::text::owned;

verus! {

broadcast use {
    group_ast_views,
    Parser::lemma_follows,
    Parser::lemma_follows_refl,
    Parser::lemma_follows_trans,
};

/// Whether a kind is a keyword that begins a statement.
pub fn begins_statement(kind: TokenKind) -> (r: bool)
    ensures
        r == starts_statement(kind),
{
    match kind {
        TokenKind::Let
        | TokenKind::If
        | TokenKind::For
        | TokenKind::While
        | TokenKind::Return
        | TokenKind::Schedule
        | TokenKind::Cancel
        | TokenKind::Create
        | TokenKind::Delete => true,
        _ => false,
    }
}

/// The value of an optional written type.
pub open spec fn opt_type_view(t: Option<TypeExpr>) -> Option<TypeExprView> {
    match t {
        Some(x) => Some(x.spec_view()),
        None => None,
    }
}

/// The value of an optional expression.
pub open spec fn opt_expr_view(e: Option<Expr>) -> Option<ExprView> {
    match e {
        Some(x) => Some(x.spec_view()),
        None => None,
    }
}

impl Parser {
    /// An optional `: type`.
    pub fn parse_type_annotation(&mut self) -> (r: Result<Option<TypeExpr>, ParseError>)
        requires
            old(self).wf(),
        ensures
            final(self).follows(*old(self)),
            match g_type_annotation(old(self).toks(), old(self).at()) {
                Ok((t, p)) => r is Ok && opt_type_view(r->Ok_0) == t && final(self).at() == p,
                Err(e) => r is Err && r->Err_0@ == e,
            },
            r is Ok ==> old(self).at() <= final(self).at(),
    {
        if self.check(TokenKind::Colon) {
            self.skip();
            match self.parse_type() {
                Ok(t) => Ok(Some(t)),
                Err(e) => Err(e),
            }
        } else {
            Ok(None)
        }
    }

    /// `let name [: type] = value`
    pub fn parse_let_statement(&mut self) -> (r: Result<Statement, ParseError>)
        requires
            old(self).wf(),
        ensures
            final(self).follows(*old(self)),
            realises(r, *final(self), g_let(old(self).toks(), old(self).at())),
            r is Ok ==> old(self).at() < final(self).at(),
    {
        let start = self.position();
        match self.consume(TokenKind::Let, "let") {
            Ok(_) => {},
            Err(e) => {
                return Err(e);
            },
        }
        let name = match self.consume(TokenKind::Identifier, "variable name") {
            Ok(t) => t,
            Err(e) => {
                return Err(e);
            },
        };
        let type_annotation = match self.parse_type_annotation() {
            Ok(t) => t,
            Err(e) => {
                return Err(e);
            },
        };
        match self.consume(TokenKind::Eq, "=") {
            Ok(_) => {},
            Err(e) => {
                return Err(e);
            },
        }
        let value = match self.parse_expression() {
            Ok(e) => e,
            Err(e) => {
                return Err(e);
            },
        };
        Ok(Statement::Let(LetStatement { name: name.text, type_annotation, value, span: self.span_from(start) }))
    }

    /// `return [expr]`
    pub fn parse_return_statement(&mut self) -> (r: Result<Statement, ParseError>)
        requires
            old(self).wf(),
        ensures
            final(self).follows(*old(self)),
            realises(r, *final(self), g_return(old(self).toks(), old(self).at())),
            r is Ok ==> old(self).at() < final(self).at(),
    {
        let start = self.position();
        match self.consume(TokenKind::Return, "return") {
            Ok(_) => {},
            Err(e) => {
                return Err(e);
            },
        }
        let has_value = match self.peek_kind(0) {
            Some(kind) => kind != TokenKind::RBrace && !begins_statement(kind),
            None => false,
        };
        let value = if has_value {
            match self.parse_expression() {
                Ok(e) => Some(e),
                Err(e) => {
                    return Err(e);
                },
            }
        } else {
            None
        };
        Ok(Statement::Return(ReturnStatement { value, span: self.span_from(start) }))
    }

    /// The optional `[delay: e]` or `[interval: e]` of a schedule.
    fn parse_schedule_timing(&mut self) -> (r: Result<(Option<Expr>, Option<Expr>), ParseError>)
        requires
            old(self).wf(),
        ensures
            final(self).follows(*old(self)),
            match g_schedule_timing(old(self).toks(), old(self).at()) {
                Ok((t, p)) => r is Ok && (opt_expr_view(r->Ok_0.0), opt_expr_view(r->Ok_0.1)) == t && final(self).at() == p,
                Err(e) => r is Err && r->Err_0@ == e,
            },
            r is Ok ==> old(self).at() <= final(self).at(),
    {
        if !self.check(TokenKind::LBracket) {
            return Ok((None, None));
        }
        self.skip();
        let name = match self.consume(TokenKind::Identifier, "delay or interval") {
            Ok(t) => t,
            Err(e) => {
                return Err(e);
            },
        };
        match self.consume(TokenKind::Colon, ":") {
            Ok(_) => {},
            Err(e) => {
                return Err(e);
            },
        }
        let value = match self.parse_expression() {
            Ok(e) => e,
            Err(e) => {
                return Err(e);
            },
        };
        match self.consume(TokenKind::RBracket, "]") {
            Ok(_) => {},
            Err(e) => {
                return Err(e);
            },
        }
        if name.text == owned("delay") {
            Ok((Some(value), None))
        } else if name.text == owned("interval") {
            Ok((None, Some(value)))
        } else {
            Ok((None, None))
        }
    }

    /// `schedule [recurring] [[delay: e] | [interval: e]] Event { field: e* }`
    pub fn parse_schedule_statement(&mut self) -> (r: Result<Statement, ParseError>)
        requires
            old(self).wf(),
        ensures
            final(self).follows(*old(self)),
            realises(r, *final(self), g_schedule(old(self).toks(), old(self).at())),
            r is Ok ==> old(self).at() < final(self).at(),
    {
        let start = self.position();
        match self.consume(TokenKind::Schedule, "schedule") {
            Ok(_) => {},
            Err(e) => {
                return Err(e);
            },
        }
        let recurring = self.check(TokenKind::Recurring);
        if recurring {
            self.skip();
        }
        let timing = match self.parse_schedule_timing() {
            Ok(t) => t,
            Err(e) => {
                return Err(e);
            },
        };
        let event = match self.consume(TokenKind::Identifier, "event name") {
            Ok(t) => t,
            Err(e) => {
                return Err(e);
            },
        };
        match self.consume(TokenKind::LBrace, "{") {
            Ok(_) => {},
            Err(e) => {
                return Err(e);
            },
        }
        let fields = match self.parse_field_inits() {
            Ok(f) => f,
            Err(e) => {
                return Err(e);
            },
        };
        match self.consume(TokenKind::RBrace, "}") {
            Ok(_) => {},
            Err(e) => {
                return Err(e);
            },
        }
        Ok(
            Statement::Schedule(
                ScheduleStatement {
                    recurring,
                    delay: timing.0,
                    interval: timing.1,
                    event_name: event.text,
                    fields,
                    span: self.span_from(start),
                },
            ),
        )
    }

    /// `cancel expr`
    pub fn parse_cancel_statement(&mut self) -> (r: Result<Statement, ParseError>)
        requires
            old(self).wf(),
        ensures
            final(self).follows(*old(self)),
            realises(r, *final(self), g_cancel(old(self).toks(), old(self).at())),
            r is Ok ==> old(self).at() < final(self).at(),
    {
        let start = self.position();
        match self.consume(TokenKind::Cancel, "cancel") {
            Ok(_) => {},
            Err(e) => {
                return Err(e);
            },
        }
        let target = match self.parse_expression() {
            Ok(e) => e,
            Err(e) => {
                return Err(e);
            },
        };
        Ok(Statement::Cancel(CancelStatement { target, span: self.span_from(start) }))
    }

    /// `delete expr`
    pub fn parse_delete_statement(&mut self) -> (r: Result<Statement, ParseError>)
        requires
            old(self).wf(),
        ensures
            final(self).follows(*old(self)),
            realises(r, *final(self), g_delete(old(self).toks(), old(self).at())),
            r is Ok ==> old(self).at() < final(self).at(),
    {
        let start = self.position();
        match self.consume(TokenKind::Delete, "delete") {
            Ok(_) => {},
            Err(e) => {
                return Err(e);
            },
        }
        let entity = match self.parse_expression() {
            Ok(e) => e,
            Err(e) => {
                return Err(e);
            },
        };
        Ok(Statement::Delete(DeleteStatement { entity, span: self.span_from(start) }))
    }

    /// `create entity { componentInit* }`
    pub fn parse_create_statement(&mut self) -> (r: Result<Statement, ParseError>)
        requires
            old(self).wf(),
        ensures
            final(self).follows(*old(self)),
            realises(r, *final(self), g_create(old(self).toks(), old(self).at())),
            r is Ok ==> old(self).at() < final(self).at(),
    {
        let start = self.position();
        match self.consume(TokenKind::Create, "create") {
            Ok(_) => {},
            Err(e) => {
                return Err(e);
            },
        }
        match self.consume(TokenKind::Entity, "entity") {
            Ok(_) => {},
            Err(e) => {
                return Err(e);
            },
        }
        match self.consume(TokenKind::LBrace, "{") {
            Ok(_) => {},
            Err(e) => {
                return Err(e);
            },
        }
        let components = match self.parse_component_inits() {
            Ok(c) => c,
            Err(e) => {
                return Err(e);
            },
        };
        match self.consume(TokenKind::RBrace, "}") {
            Ok(_) => {},
            Err(e) => {
                return Err(e);
            },
        }
        Ok(Statement::Create(CreateStatement { components, span: self.span_from(start) }))
    }

    /// The assignment operator that the next token stands for.
    fn assign_op(&self) -> (r: Option<AssignOp>)
        requires
            self.wf(),
        ensures
            r == assign_op_here(self.toks(), self.at()),
    {
        match self.peek_kind(0) {
            Some(TokenKind::Eq) => Some(AssignOp::Assign),
            Some(TokenKind::PlusEq) => Some(AssignOp::AddAssign),
            Some(TokenKind::MinusEq) => Some(AssignOp::SubAssign),
            Some(TokenKind::StarEq) => Some(AssignOp::MulAssign),
            Some(TokenKind::SlashEq) => Some(AssignOp::DivAssign),
            _ => None,
        }
    }

    /// An assignment or an expression statement.
    pub fn parse_expr_statement(&mut self) -> (r: Result<Statement, ParseError>)
        requires
            old(self).wf(),
        ensures
            final(self).follows(*old(self)),
            realises(r, *final(self), g_expr_statement(old(self).toks(), old(self).at())),
            r is Ok ==> old(self).at() < final(self).at(),
    {
        let start = self.position();
        let expr = match self.parse_expression() {
            Ok(e) => e,
            Err(e) => {
                return Err(e);
            },
        };
        match self.assign_op() {
            Some(op) => {
                self.skip();
                let value = match self.parse_expression() {
                    Ok(e) => e,
                    Err(e) => {
                        return Err(e);
                    },
                };
                Ok(
                    Statement::Assignment(
                        AssignmentStatement { target: expr, op, value, span: self.span_from(start) },
                    ),
                )
            },
            None => Ok(Statement::Expr(expr)),
        }
    }

    /// `{ statement* }`
    pub fn parse_block(&mut self) -> (r: Result<Block, ParseError>)
        requires
            old(self).wf(),
        ensures
            final(self).follows(*old(self)),
            realises(r, *final(self), g_block(old(self).toks(), old(self).at())),
            r is Ok ==> old(self).at() < final(self).at(),
        decreases old(self).toks().len() - old(self).at(), 5nat,
    {
        let start = self.position();
        let ghost toks = self.toks();
        match self.consume(TokenKind::LBrace, "{") {
            Ok(_) => {},
            Err(e) => {
                return Err(e);
            },
        }
        let ghost pos1 = self.at();
        let mut statements: Vec<Statement> = Vec::new();
        assert(Statement::views(statements@) =~= Seq::empty());
        while !self.is_at_end() && !self.check(TokenKind::RBrace)
            invariant
                self.follows(*old(self)),
                toks == self.toks(),
                toks == old(self).toks(),
                old(self).at() < self.at(),
                pos1 == old(self).at() + 1,
                is_kind(toks, old(self).at(), TokenKind::LBrace),
                g_statements(toks, pos1, Seq::empty()) == g_statements(toks, self.at(), Statement::views(statements@)),
            decreases self.toks().len() - self.at(),
        {
            let s = match self.parse_statement() {
                Ok(s) => s,
                Err(e) => {
                    return Err(e);
                },
            };
            statements.push(s);
        }
        match self.consume(TokenKind::RBrace, "}") {
            Ok(_) => {},
            Err(e) => {
                return Err(e);
            },
        }
        Ok(Block { statements, span: self.span_from(start) })
    }

    /// What follows the then-block of an `if`.
    fn parse_else(&mut self) -> (r: Result<Option<Box<ElseClause>>, ParseError>)
        requires
            old(self).wf(),
        ensures
            final(self).follows(*old(self)),
            match g_else(old(self).toks(), old(self).at()) {
                Ok((c, p)) => r is Ok && (match r->Ok_0 {
                    Some(b) => Some(Box::new((*b).spec_view())),
                    None => None,
                }) == c && final(self).at() == p,
                Err(e) => r is Err && r->Err_0@ == e,
            },
            r is Ok ==> old(self).at() <= final(self).at(),
        decreases old(self).toks().len() - old(self).at(), 4nat,
    {
        if !self.check(TokenKind::Else) {
            return Ok(None);
        }
        self.skip();
        if self.check(TokenKind::If) {
            match self.parse_if_inner() {
                Ok(inner) => Ok(Some(Box::new(ElseClause::ElseIf(inner)))),
                Err(e) => Err(e),
            }
        } else {
            match self.parse_block() {
                Ok(block) => Ok(Some(Box::new(ElseClause::Else(block)))),
                Err(e) => Err(e),
            }
        }
    }

    /// `if cond { .. } [else ..]`
    pub fn parse_if_inner(&mut self) -> (r: Result<IfStatement, ParseError>)
        requires
            old(self).wf(),
        ensures
            final(self).follows(*old(self)),
            realises(r, *final(self), g_if(old(self).toks(), old(self).at())),
            r is Ok ==> old(self).at() < final(self).at(),
        decreases old(self).toks().len() - old(self).at(), 5nat,
    {
        let start = self.position();
        match self.consume(TokenKind::If, "if") {
            Ok(_) => {},
            Err(e) => {
                return Err(e);
            },
        }
        let condition = match self.parse_expression() {
            Ok(e) => e,
            Err(e) => {
                return Err(e);
            },
        };
        let then_block = match self.parse_block() {
            Ok(b) => b,
            Err(e) => {
                return Err(e);
            },
        };
        let else_block = match self.parse_else() {
            Ok(c) => c,
            Err(e) => {
                return Err(e);
            },
        };
        Ok(IfStatement { condition, then_block, else_block, span: self.span_from(start) })
    }

    /// An `if` statement.
    pub fn parse_if_statement(&mut self) -> (r: Result<Statement, ParseError>)
        requires
            old(self).wf(),
        ensures
            final(self).follows(*old(self)),
            match g_if(old(self).toks(), old(self).at()) {
                Ok((i, p)) => r is Ok && r->Ok_0@ == StatementView::If(i) && final(self).at()
                    == p,
                Err(e) => r is Err && r->Err_0@ == e,
            },
            r is Ok ==> old(self).at() < final(self).at(),
        decreases old(self).toks().len() - old(self).at(), 6nat,
    {
        match self.parse_if_inner() {
            Ok(i) => Ok(Statement::If(i)),
            Err(e) => Err(e),
        }
    }

    /// `for x in expr { .. }`
    pub fn parse_for_statement(&mut self) -> (r: Result<Statement, ParseError>)
        requires
            old(self).wf(),
        ensures
            final(self).follows(*old(self)),
            realises(r, *final(self), g_for(old(self).toks(), old(self).at())),
            r is Ok ==> old(self).at() < final(self).at(),
        decreases old(self).toks().len() - old(self).at(), 5nat,
    {
        let start = self.position();
        match self.consume(TokenKind::For, "for") {
            Ok(_) => {},
            Err(e) => {
                return Err(e);
            },
        }
        let variable = match self.consume(TokenKind::Identifier, "loop variable") {
            Ok(t) => t,
            Err(e) => {
                return Err(e);
            },
        };
        match self.consume(TokenKind::In, "in") {
            Ok(_) => {},
            Err(e) => {
                return Err(e);
            },
        }
        let iterable = match self.parse_expression() {
            Ok(e) => e,
            Err(e) => {
                return Err(e);
            },
        };
        let body = match self.parse_block() {
            Ok(b) => b,
            Err(e) => {
                return Err(e);
            },
        };
        Ok(Statement::For(ForStatement { variable: variable.text, iterable, body, span: self.span_from(start) }))
    }

    /// `while cond { .. }`
    pub fn parse_while_statement(&mut self) -> (r: Result<Statement, ParseError>)
        requires
            old(self).wf(),
        ensures
            final(self).follows(*old(self)),
            realises(r, *final(self), g_while(old(self).toks(), old(self).at())),
            r is Ok ==> old(self).at() < final(self).at(),
        decreases old(self).toks().len() - old(self).at(), 5nat,
    {
        let start = self.position();
        match self.consume(TokenKind::While, "while") {
            Ok(_) => {},
            Err(e) => {
                return Err(e);
            },
        }
        let condition = match self.parse_expression() {
            Ok(e) => e,
            Err(e) => {
                return Err(e);
            },
        };
        let body = match self.parse_block() {
            Ok(b) => b,
            Err(e) => {
                return Err(e);
            },
        };
        Ok(Statement::While(WhileStatement { condition, body, span: self.span_from(start) }))
    }

    /// A statement, chosen by its first token.
    pub fn parse_statement(&mut self) -> (r: Result<Statement, ParseError>)
        requires
            old(self).wf(),
        ensures
            final(self).follows(*old(self)),
            realises(r, *final(self), g_statement(old(self).toks(), old(self).at())),
            r is Ok ==> old(self).at() < final(self).at(),
        decreases old(self).toks().len() - old(self).at(), 10nat,
    {
        let kind = match self.peek_kind(0) {
            Some(kind) => kind,
            None => {
                return Err(ParseError::UnexpectedEof { expected: owned("statement") });
            },
        };
        match kind {
            TokenKind::Let => self.parse_let_statement(),
            TokenKind::If => self.parse_if_statement(),
            TokenKind::For => self.parse_for_statement(),
            TokenKind::While => self.parse_while_statement(),
            TokenKind::Return => self.parse_return_statement(),
            TokenKind::Schedule => self.parse_schedule_statement(),
            TokenKind::Cancel => self.parse_cancel_statement(),
            TokenKind::Create => self.parse_create_statement(),
            TokenKind::Delete => self.parse_delete_statement(),
            _ => self.parse_expr_statement(),
        }
    }
}

} // verus!
