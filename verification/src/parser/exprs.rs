//! Parsing of types and expressions.

use vstd::prelude::*;
use crate::lexer::{Span, TokenKind};
use crate::parser::ast::{group_ast_views, BinaryOp, ComponentInit, Expr, Literal, TypeExpr, UnaryOp};
use crate::parser::cursor::{is_kind, realises, Parser};
use crate::parser::errors::ParseError;
use crate::parser::grammar::{
    binary_op_at, binary_op_here, expr_span, g_base_type, g_binary, g_binary_rest, g_component_init, g_component_inits,
    g_composite_rest, g_expression, g_field_inits, g_list, g_param_type, g_postfix, g_postfix_rest,
    g_primary, g_type, g_unary,
};
use crate::text::{concat3, owned, parse_number, without_ends, without_first, without_trailing};

verus! {

broadcast use {
    group_ast_views,
    Parser::lemma_follows,
    Parser::lemma_follows_refl,
    Parser::lemma_follows_trans,
};

/// The binary operator that a token stands for at a precedence level.
pub fn binary_op_for(level: u8, kind: TokenKind) -> (r: Option<BinaryOp>)
    ensures
        r == binary_op_at(level as nat, kind),
{
    if level == 6 {
        match kind {
            TokenKind::OrOr => Some(BinaryOp::Or),
            _ => None,
        }
    } else if level == 5 {
        match kind {
            TokenKind::AndAnd => Some(BinaryOp::And),
            _ => None,
        }
    } else if level == 4 {
        match kind {
            TokenKind::EqEq => Some(BinaryOp::Eq),
            TokenKind::NotEq => Some(BinaryOp::NotEq),
            _ => None,
        }
    } else if level == 3 {
        match kind {
            TokenKind::Lt => Some(BinaryOp::Lt),
            TokenKind::LtEq => Some(BinaryOp::LtEq),
            TokenKind::Gt => Some(BinaryOp::Gt),
            TokenKind::GtEq => Some(BinaryOp::GtEq),
            _ => None,
        }
    } else if level == 2 {
        match kind {
            TokenKind::Plus => Some(BinaryOp::Add),
            TokenKind::Minus => Some(BinaryOp::Sub),
            _ => None,
        }
    } else if level == 1 {
        match kind {
            TokenKind::Star => Some(BinaryOp::Mul),
            TokenKind::Slash => Some(BinaryOp::Div),
            TokenKind::Percent => Some(BinaryOp::Mod),
            _ => None,
        }
    } else {
        None
    }
}

impl Expr {
    /// The span of the tokens that the expression was read from.
    pub fn span(&self) -> (s: Span)
        ensures
            s == expr_span(self@),
    {
        match self {
            Expr::Literal(_, s) => *s,
            Expr::Identifier(_, s) => *s,
            Expr::EntityRef(_, s) => *s,
            Expr::FieldAccess(_, _, s) => *s,
            Expr::IndexAccess(_, _, s) => *s,
            Expr::Binary(_, _, _, s) => *s,
            Expr::Unary(_, _, s) => *s,
            Expr::Call(_, _, s) => *s,
            Expr::MethodCall(_, _, _, s) => *s,
            Expr::HasComponent(_, _, s) => *s,
            Expr::Cast(_, _, s) => *s,
            Expr::List(_, s) => *s,
            Expr::Paren(_, s) => *s,
            Expr::EntitiesHaving(_, s) => *s,
            Expr::CloneEntity(_, _, s) => *s,
        }
    }
}

impl Parser {
    /// A type without a `?`.
    fn parse_base_type(&mut self) -> (r: Result<TypeExpr, ParseError>)
        requires
            old(self).wf(),
        ensures
            final(self).follows(*old(self)),
            realises(r, *final(self), g_base_type(old(self).toks(), old(self).at())),
            r is Ok ==> old(self).at() < final(self).at(),
        decreases old(self).toks().len() - old(self).at(), 0nat,
    {
        let kind = match self.peek_kind(0) {
            Some(kind) => kind,
            None => {
                return Err(ParseError::UnexpectedEof { expected: owned("type") });
            },
        };
        match kind {
            TokenKind::TypeString => {
                self.skip();
                Ok(TypeExpr::String)
            },
            TokenKind::TypeBoolean => {
                self.skip();
                Ok(TypeExpr::Boolean)
            },
            TokenKind::TypeInteger => {
                self.skip();
                Ok(TypeExpr::Integer)
            },
            TokenKind::TypeFloat => {
                self.skip();
                Ok(TypeExpr::Float)
            },
            TokenKind::TypeDecimal => {
                self.skip();
                Ok(TypeExpr::Decimal)
            },
            TokenKind::TypeId => {
                self.skip();
                Ok(TypeExpr::Id)
            },
            TokenKind::TypeList => {
                self.skip();
                if self.check(TokenKind::Lt) {
                    self.skip();
                    let inner = match self.parse_type() {
                        Ok(t) => t,
                        Err(e) => {
                            return Err(e);
                        },
                    };
                    match self.consume(TokenKind::Gt, ">") {
                        Ok(_) => {},
                        Err(e) => {
                            return Err(e);
                        },
                    }
                    Ok(TypeExpr::List(Box::new(inner)))
                } else {
                    Ok(TypeExpr::List(Box::new(TypeExpr::Id)))
                }
            },
            TokenKind::Identifier => {
                let name = self.text_here();
                self.skip();
                Ok(TypeExpr::Component(name))
            },
            _ => Err(self.error_here("type")),
        }
    }

    /// A type: a base type, optional when a `?` follows.
    pub fn parse_type(&mut self) -> (r: Result<TypeExpr, ParseError>)
        requires
            old(self).wf(),
        ensures
            final(self).follows(*old(self)),
            realises(r, *final(self), g_type(old(self).toks(), old(self).at())),
            r is Ok ==> old(self).at() < final(self).at(),
        decreases old(self).toks().len() - old(self).at(), 1nat,
    {
        let base = match self.parse_base_type() {
            Ok(t) => t,
            Err(e) => {
                return Err(e);
            },
        };
        if self.check(TokenKind::Question) {
            self.skip();
            Ok(TypeExpr::Optional(Box::new(base)))
        } else {
            Ok(base)
        }
    }

    /// The type of a choice-function parameter: a type, or component types
    /// joined by `&`.
    pub fn parse_param_type(&mut self) -> (r: Result<TypeExpr, ParseError>)
        requires
            old(self).wf(),
        ensures
            final(self).follows(*old(self)),
            realises(r, *final(self), g_param_type(old(self).toks(), old(self).at())),
            r is Ok ==> old(self).at() < final(self).at(),
    {
        let first = match self.parse_type() {
            Ok(t) => t,
            Err(e) => {
                return Err(e);
            },
        };
        if !self.check(TokenKind::And) {
            return Ok(first);
        }
        match &first {
            TypeExpr::Component(_) => {},
            _ => {
                return Err(
                    ParseError::InvalidSyntax {
                        message: owned("every member of a composite type must be a component type"),
                    },
                );
            },
        }
        let ghost toks = self.toks();
        let mut members: Vec<TypeExpr> = Vec::new();
        members.push(first);
        assert(TypeExpr::views(members@) =~= seq![first.spec_view()]);
        while self.check(TokenKind::And)
            invariant
                self.follows(*old(self)),
                toks == self.toks(),
                old(self).at() < self.at(),
                g_param_type(toks, old(self).at()) == g_composite_rest(
                    toks,
                    self.at(),
                    TypeExpr::views(members@),
                ),
            decreases self.toks().len() - self.at(),
        {
            self.skip();
            match self.peek_kind(0) {
                Some(TokenKind::Identifier) => {
                    let name = self.text_here();
                    self.skip();
                    members.push(TypeExpr::Component(name));
                },
                Some(_) => {
                    return Err(
                        ParseError::InvalidSyntax {
                            message: owned("every member of a composite type must be a component type"),
                        },
                    );
                },
                None => {
                    return Err(ParseError::UnexpectedEof { expected: owned("component type") });
                },
            }
        }
        Ok(TypeExpr::Composite(members))
    }

    /// The operator of a level that the next token stands for.
    fn binary_op(&self, level: u8) -> (r: Option<BinaryOp>)
        requires
            self.wf(),
        ensures
            r == binary_op_here(self.toks(), self.at(), level as nat),
    {
        match self.peek_kind(0) {
            Some(kind) => binary_op_for(level, kind),
            None => None,
        }
    }

    /// An expression.
    pub fn parse_expression(&mut self) -> (r: Result<Expr, ParseError>)
        requires
            old(self).wf(),
        ensures
            final(self).follows(*old(self)),
            realises(r, *final(self), g_expression(old(self).toks(), old(self).at())),
            r is Ok ==> old(self).at() < final(self).at(),
        decreases old(self).toks().len() - old(self).at(), 11nat,
    {
        self.parse_binary(6)
    }

    /// An expression of a precedence level.
    pub fn parse_binary(&mut self, level: u8) -> (r: Result<Expr, ParseError>)
        requires
            old(self).wf(),
        ensures
            final(self).follows(*old(self)),
            realises(r, *final(self), g_binary(old(self).toks(), old(self).at(), level as nat)),
            r is Ok ==> old(self).at() < final(self).at(),
        decreases old(self).toks().len() - old(self).at(), 4 + level,
    {
        if level == 0 || level > 6 {
            return self.parse_unary_expr();
        }
        let start = self.position();
        let ghost toks = self.toks();
        let mut left = match self.parse_binary(level - 1) {
            Ok(e) => e,
            Err(e) => {
                return Err(e);
            },
        };
        let mut op = self.binary_op(level);
        while op.is_some()
            invariant
                self.follows(*old(self)),
                toks == self.toks(),
                start == old(self).at(),
                0 < level <= 6,
                start < self.at(),
                op == binary_op_here(toks, self.at(), level as nat),
                g_binary(toks, start as nat, level as nat) == g_binary_rest(
                    toks,
                    self.at(),
                    start as nat,
                    left@,
                    level as nat,
                ),
            decreases self.toks().len() - self.at(),
        {
            self.skip();
            let right = match self.parse_binary(level - 1) {
                Ok(e) => e,
                Err(e) => {
                    return Err(e);
                },
            };
            left = Expr::Binary(Box::new(left), op.unwrap(), Box::new(right), self.span_from(start));
            op = self.binary_op(level);
        }
        Ok(left)
    }

    /// `a || b`
    pub fn parse_or_expr(&mut self) -> (r: Result<Expr, ParseError>)
        requires
            old(self).wf(),
        ensures
            final(self).follows(*old(self)),
            realises(r, *final(self), g_binary(old(self).toks(), old(self).at(), 6)),
    {
        self.parse_binary(6)
    }

    /// `a && b`
    pub fn parse_and_expr(&mut self) -> (r: Result<Expr, ParseError>)
        requires
            old(self).wf(),
        ensures
            final(self).follows(*old(self)),
            realises(r, *final(self), g_binary(old(self).toks(), old(self).at(), 5)),
    {
        self.parse_binary(5)
    }

    /// `a == b`, `a != b`
    pub fn parse_equality_expr(&mut self) -> (r: Result<Expr, ParseError>)
        requires
            old(self).wf(),
        ensures
            final(self).follows(*old(self)),
            realises(r, *final(self), g_binary(old(self).toks(), old(self).at(), 4)),
    {
        self.parse_binary(4)
    }

    /// `a < b`, `a <= b`, `a > b`, `a >= b`
    pub fn parse_comparison_expr(&mut self) -> (r: Result<Expr, ParseError>)
        requires
            old(self).wf(),
        ensures
            final(self).follows(*old(self)),
            realises(r, *final(self), g_binary(old(self).toks(), old(self).at(), 3)),
    {
        self.parse_binary(3)
    }

    /// `a + b`, `a - b`
    pub fn parse_additive_expr(&mut self) -> (r: Result<Expr, ParseError>)
        requires
            old(self).wf(),
        ensures
            final(self).follows(*old(self)),
            realises(r, *final(self), g_binary(old(self).toks(), old(self).at(), 2)),
    {
        self.parse_binary(2)
    }

    /// `a * b`, `a / b`, `a % b`
    pub fn parse_multiplicative_expr(&mut self) -> (r: Result<Expr, ParseError>)
        requires
            old(self).wf(),
        ensures
            final(self).follows(*old(self)),
            realises(r, *final(self), g_binary(old(self).toks(), old(self).at(), 1)),
    {
        self.parse_binary(1)
    }

    /// `!a`, `-a`, or a postfix expression.
    pub fn parse_unary_expr(&mut self) -> (r: Result<Expr, ParseError>)
        requires
            old(self).wf(),
        ensures
            final(self).follows(*old(self)),
            realises(r, *final(self), g_unary(old(self).toks(), old(self).at())),
            r is Ok ==> old(self).at() < final(self).at(),
        decreases old(self).toks().len() - old(self).at(), 3nat,
    {
        let op = match self.peek_kind(0) {
            Some(TokenKind::Not) => Some(UnaryOp::Not),
            Some(TokenKind::Minus) => Some(UnaryOp::Neg),
            _ => None,
        };
        match op {
            Some(op) => {
                let start = self.position();
                self.skip();
                let inner = match self.parse_unary_expr() {
                    Ok(e) => e,
                    Err(e) => {
                        return Err(e);
                    },
                };
                Ok(Expr::Unary(op, Box::new(inner), self.span_from(start)))
            },
            None => self.parse_postfix_expr(),
        }
    }

    /// A primary expression followed by any number of `.field`,
    /// `.method(args)` and `[index]`.
    pub fn parse_postfix_expr(&mut self) -> (r: Result<Expr, ParseError>)
        requires
            old(self).wf(),
        ensures
            final(self).follows(*old(self)),
            realises(r, *final(self), g_postfix(old(self).toks(), old(self).at())),
            r is Ok ==> old(self).at() < final(self).at(),
        decreases old(self).toks().len() - old(self).at(), 2nat,
    {
        let start = self.position();
        let ghost toks = self.toks();
        let mut expr = match self.parse_primary_expr() {
            Ok(e) => e,
            Err(e) => {
                return Err(e);
            },
        };
        let mut more = self.check(TokenKind::Dot) || self.check(TokenKind::LBracket);
        while more
            invariant
                self.follows(*old(self)),
                toks == self.toks(),
                start == old(self).at(),
                start < self.at(),
                more == (is_kind(toks, self.at(), TokenKind::Dot) || is_kind(toks, self.at(), TokenKind::LBracket)),
                g_postfix(toks, start as nat) == g_postfix_rest(
                    toks,
                    self.at(),
                    start as nat,
                    expr@,
                ),
            decreases self.toks().len() - self.at(),
        {
            if self.check(TokenKind::Dot) {
                self.skip();
                let field = match self.consume_name("field name") {
                    Ok(t) => t,
                    Err(e) => {
                        return Err(e);
                    },
                };
                if self.check(TokenKind::LParen) {
                    self.skip();
                    let args = match self.parse_list(TokenKind::RParen) {
                        Ok(a) => a,
                        Err(e) => {
                            return Err(e);
                        },
                    };
                    match self.consume(TokenKind::RParen, ")") {
                        Ok(_) => {},
                        Err(e) => {
                            return Err(e);
                        },
                    }
                    expr = Expr::MethodCall(Box::new(expr), field.text, args, self.span_from(start));
                } else {
                    expr = Expr::FieldAccess(Box::new(expr), field.text, self.span_from(start));
                }
            } else {
                self.skip();
                let index = match self.parse_expression() {
                    Ok(e) => e,
                    Err(e) => {
                        return Err(e);
                    },
                };
                match self.consume(TokenKind::RBracket, "]") {
                    Ok(_) => {},
                    Err(e) => {
                        return Err(e);
                    },
                }
                expr = Expr::IndexAccess(Box::new(expr), Box::new(index), self.span_from(start));
            }
            more = self.check(TokenKind::Dot) || self.check(TokenKind::LBracket);
        }
        Ok(expr)
    }

    /// Expressions up to a closing token or the end of input, each
    /// optionally followed by a comma.
    pub fn parse_list(&mut self, close: TokenKind) -> (r: Result<Vec<Expr>, ParseError>)
        requires
            old(self).wf(),
        ensures
            final(self).follows(*old(self)),
            match g_list(old(self).toks(), old(self).at(), close, Seq::empty()) {
                Ok((v, p)) => r is Ok && Expr::views(r->Ok_0@) == v && final(self).at() == p,
                Err(e) => r is Err && r->Err_0@ == e,
            },
            r is Ok ==> old(self).at() <= final(self).at(),
        decreases old(self).toks().len() - old(self).at(), 20nat,
    {
        let ghost toks = self.toks();
        let mut out: Vec<Expr> = Vec::new();
        assert(Expr::views(out@) =~= Seq::empty());
        while !self.is_at_end() && !self.check(close)
            invariant
                self.follows(*old(self)),
                toks == self.toks(),
                old(self).at() <= self.at(),
                g_list(toks, old(self).at(), close, Seq::empty()) == g_list(
                    toks,
                    self.at(),
                    close,
                    Expr::views(out@),
                ),
            decreases self.toks().len() - self.at(),
        {
            let e = match self.parse_expression() {
                Ok(e) => e,
                Err(err) => {
                    return Err(err);
                },
            };
            out.push(e);
            if self.check(TokenKind::Comma) {
                self.skip();
            }
        }
        Ok(out)
    }

    /// `name: expr` entries up to a `}` or the end of input.
    pub fn parse_field_inits(&mut self) -> (r: Result<Vec<(String, Expr)>, ParseError>)
        requires
            old(self).wf(),
        ensures
            final(self).follows(*old(self)),
            match g_field_inits(old(self).toks(), old(self).at(), Seq::empty()) {
                Ok((v, p)) => r is Ok && Expr::named_views(r->Ok_0@) == v && final(self).at() == p,
                Err(e) => r is Err && r->Err_0@ == e,
            },
            r is Ok ==> old(self).at() <= final(self).at(),
        decreases old(self).toks().len() - old(self).at(), 0nat,
    {
        let ghost toks = self.toks();
        let mut out: Vec<(String, Expr)> = Vec::new();
        assert(Expr::named_views(out@) =~= Seq::empty());
        while !self.is_at_end() && !self.check(TokenKind::RBrace)
            invariant
                self.follows(*old(self)),
                toks == self.toks(),
                old(self).at() <= self.at(),
                g_field_inits(toks, old(self).at(), Seq::empty()) == g_field_inits(
                    toks,
                    self.at(),
                    Expr::named_views(out@),
                ),
            decreases self.toks().len() - self.at(),
        {
            let name = match self.consume_name("field name") {
                Ok(t) => t,
                Err(e) => {
                    return Err(e);
                },
            };
            match self.consume(TokenKind::Colon, ":") {
                Ok(_) => {},
                Err(e) => {
                    return Err(e);
                },
            }
            let value = match self.parse_expression() {
                Ok(e) => e,
                Err(e) => {
                    return Err(e);
                },
            };
            out.push((name.text, value));
        }
        Ok(out)
    }

    /// `Name { field: expr* }`
    pub fn parse_component_init(&mut self) -> (r: Result<ComponentInit, ParseError>)
        requires
            old(self).wf(),
        ensures
            final(self).follows(*old(self)),
            realises(r, *final(self), g_component_init(old(self).toks(), old(self).at())),
            r is Ok ==> old(self).at() < final(self).at(),
        decreases old(self).toks().len() - old(self).at(), 1nat,
    {
        let start = self.position();
        let name = match self.consume(TokenKind::Identifier, "component name") {
            Ok(t) => t,
            Err(e) => {
                return Err(e);
            },
        };
        match self.consume(TokenKind::LBrace, "{") {
            Ok(_) => {},
            Err(e) => {
                return Err(e);
            },
        }
        let fields = match self.parse_field_inits() {
            Ok(f) => f,
            Err(e) => {
                return Err(e);
            },
        };
        match self.consume(TokenKind::RBrace, "}") {
            Ok(_) => {},
            Err(e) => {
                return Err(e);
            },
        }
        Ok(ComponentInit { name: name.text, fields, span: self.span_from(start) })
    }

    /// Component initialisers up to a `}` or the end of input.
    pub fn parse_component_inits(&mut self) -> (r: Result<Vec<ComponentInit>, ParseError>)
        requires
            old(self).wf(),
        ensures
            final(self).follows(*old(self)),
            match g_component_inits(old(self).toks(), old(self).at(), Seq::empty()) {
                Ok((v, p)) => r is Ok && ComponentInit::views(r->Ok_0@) == v && final(self).at() == p,
                Err(e) => r is Err && r->Err_0@ == e,
            },
            r is Ok ==> old(self).at() <= final(self).at(),
        decreases old(self).toks().len() - old(self).at(), 20nat,
    {
        let ghost toks = self.toks();
        let mut out: Vec<ComponentInit> = Vec::new();
        assert(ComponentInit::views(out@) =~= Seq::empty());
        while !self.is_at_end() && !self.check(TokenKind::RBrace)
            invariant
                self.follows(*old(self)),
                toks == self.toks(),
                old(self).at() <= self.at(),
                g_component_inits(toks, old(self).at(), Seq::empty()) == g_component_inits(
                    toks,
                    self.at(),
                    ComponentInit::views(out@),
                ),
            decreases self.toks().len() - self.at(),
        {
            let c = match self.parse_component_init() {
                Ok(c) => c,
                Err(e) => {
                    return Err(e);
                },
            };
            out.push(c);
        }
        Ok(out)
    }

    /// A primary expression.
    pub fn parse_primary_expr(&mut self) -> (r: Result<Expr, ParseError>)
        requires
            old(self).wf(),
        ensures
            final(self).follows(*old(self)),
            realises(r, *final(self), g_primary(old(self).toks(), old(self).at())),
            r is Ok ==> old(self).at() < final(self).at(),
        decreases old(self).toks().len() - old(self).at(), 1nat,
    {
        let kind = match self.peek_kind(0) {
            Some(kind) => kind,
            None => {
                return Err(ParseError::UnexpectedEof { expected: owned("expression") });
            },
        };
        let start = self.position();
        let text = self.text_here();
        let span = self.span_here();
        match kind {
            TokenKind::IntegerLiteral => {
                match parse_number(text.as_str(), 0x7fff_ffff_ffff_ffff) {
                    Some(v) => {
                        self.skip();
                        Ok(Expr::Literal(Literal::Integer(v as i64), span))
                    },
                    None => Err(
                        ParseError::InvalidSyntax {
                            message: concat3("Invalid integer literal: '", text.as_str(), "'"),
                        },
                    ),
                }
            },
            TokenKind::FloatLiteral => {
                self.skip();
                Ok(Expr::Literal(Literal::Float(text), span))
            },
            TokenKind::DecimalLiteral => {
                self.skip();
                Ok(Expr::Literal(Literal::Decimal(without_trailing(text.as_str(), 'd')), span))
            },
            TokenKind::StringLiteral | TokenKind::StringLiteralSingle => {
                self.skip();
                Ok(Expr::Literal(Literal::String(without_ends(text.as_str())), span))
            },
            TokenKind::True => {
                self.skip();
                Ok(Expr::Literal(Literal::Boolean(true), span))
            },
            TokenKind::False => {
                self.skip();
                Ok(Expr::Literal(Literal::Boolean(false), span))
            },
            TokenKind::Null => {
                self.skip();
                Ok(Expr::Literal(Literal::Null, span))
            },
            TokenKind::Entity | TokenKind::Event => {
                self.skip();
                Ok(Expr::Identifier(text, span))
            },
            TokenKind::Identifier => {
                self.skip();
                if self.check(TokenKind::LParen) {
                    self.skip();
                    let args = match self.parse_list(TokenKind::RParen) {
                        Ok(a) => a,
                        Err(e) => {
                            return Err(e);
                        },
                    };
                    match self.consume(TokenKind::RParen, ")") {
                        Ok(_) => {},
                        Err(e) => {
                            return Err(e);
                        },
                    }
                    Ok(Expr::Call(text, args, self.span_from(start)))
                } else {
                    Ok(Expr::Identifier(text, span))
                }
            },
            TokenKind::EntityRef => {
                self.skip();
                Ok(Expr::EntityRef(without_first(text.as_str()), span))
            },
            TokenKind::LParen => {
                self.skip();
                let inner = match self.parse_expression() {
                    Ok(e) => e,
                    Err(e) => {
                        return Err(e);
                    },
                };
                match self.consume(TokenKind::RParen, ")") {
                    Ok(_) => {},
                    Err(e) => {
                        return Err(e);
                    },
                }
                Ok(Expr::Paren(Box::new(inner), self.span_from(start)))
            },
            TokenKind::LBracket => {
                self.skip();
                let elements = match self.parse_list(TokenKind::RBracket) {
                    Ok(a) => a,
                    Err(e) => {
                        return Err(e);
                    },
                };
                match self.consume(TokenKind::RBracket, "]") {
                    Ok(_) => {},
                    Err(e) => {
                        return Err(e);
                    },
                }
                Ok(Expr::List(elements, self.span_from(start)))
            },
            TokenKind::Entities => {
                self.skip();
                match self.consume(TokenKind::Having, "having") {
                    Ok(_) => {},
                    Err(e) => {
                        return Err(e);
                    },
                }
                let name = match self.consume(TokenKind::Identifier, "component name") {
                    Ok(t) => t,
                    Err(e) => {
                        return Err(e);
                    },
                };
                Ok(Expr::EntitiesHaving(name.text, self.span_from(start)))
            },
            TokenKind::Clone => {
                self.skip();
                let source = match self.parse_postfix_expr() {
                    Ok(e) => e,
                    Err(e) => {
                        return Err(e);
                    },
                };
                if self.check(TokenKind::LBrace) {
                    self.skip();
                    let overrides = match self.parse_component_inits() {
                        Ok(c) => c,
                        Err(e) => {
                            return Err(e);
                        },
                    };
                    match self.consume(TokenKind::RBrace, "}") {
                        Ok(_) => {},
                        Err(e) => {
                            return Err(e);
                        },
                    }
                    Ok(Expr::CloneEntity(Box::new(source), overrides, self.span_from(start)))
                } else {
                    let none: Vec<ComponentInit> = Vec::new();
                    assert(ComponentInit::views(none@) =~= Seq::empty());
                    Ok(Expr::CloneEntity(Box::new(source), none, self.span_from(start)))
                }
            },
            _ => Err(self.error_here("expression")),
        }
    }
}

} // verus!
