//! Parsing of top-level items and of a whole module.

use vstd::prelude::*;
use crate::lexer::{Token, TokenKind};
use crate::parser::ast::{
    group_ast_views, Block, BoundFunctionDef, ComponentDef, ComponentInit, EntityDef, Expr, FieldDef, FunctionDef,
    ImportDef, Item, Module, ModuleItemDef, ParamDef, RuleDef, TypeExpr,
};
use crate::parser::cursor::{expect, is_kind, realises, Parser};
use crate::parser::errors::{ParseError, ParseErrorView};
use crate::parser::grammar_items::{
    g_bound_function, g_component, g_entity, g_entity_body, g_entity_head, g_field, g_fields, g_function,
    g_import, g_import_items, g_import_names, g_import_path, g_item, g_items, g_module_def, g_param,
    g_params, g_priority, g_rule, g_signature_and_body, g_when, spec_parse,
};
use crate::parser::stmts::{opt_expr_view, opt_type_view};
use crate::text::{
    concat3, lemma_strings_view_push, opt_view, owned, parse_number, strings_view, without_first,
};

verus! {

broadcast use {
    group_ast_views,
    lemma_strings_view_push,
    Parser::lemma_follows,
    Parser::lemma_follows_refl,
    Parser::lemma_follows_trans,
};

impl Parser {
    /// One field of a component.
    pub fn parse_field(&mut self) -> (r: Result<FieldDef, ParseError>)
        requires
            old(self).wf(),
        ensures
            final(self).follows(*old(self)),
            realises(r, *final(self), g_field(old(self).toks(), old(self).at())),
            r is Ok ==> old(self).at() < final(self).at(),
    {
        let start = self.position();
        let name = match self.consume_name("field name") {
            Ok(t) => t,
            Err(e) => {
                return Err(e);
            },
        };
        match self.consume(TokenKind::Colon, ":") {
            Ok(_) => {},
            Err(e) => {
                return Err(e);
            },
        }
        let field_type = match self.parse_type() {
            Ok(t) => t,
            Err(e) => {
                return Err(e);
            },
        };
        let optional = match &field_type {
            TypeExpr::Optional(_) => true,
            _ => false,
        };
        Ok(FieldDef { name: name.text, field_type, optional, span: self.span_from(start) })
    }

    /// `component Name { field* }`
    pub fn parse_component(&mut self) -> (r: Result<ComponentDef, ParseError>)
        requires
            old(self).wf(),
        ensures
            final(self).follows(*old(self)),
            realises(r, *final(self), g_component(old(self).toks(), old(self).at())),
            r is Ok ==> old(self).at() < final(self).at(),
    {
        let start = self.position();
        let ghost toks = self.toks();
        match self.consume(TokenKind::Component, "component") {
            Ok(_) => {},
            Err(e) => {
                return Err(e);
            },
        }
        let name = match self.consume(TokenKind::Identifier, "component name") {
            Ok(t) => t,
            Err(e) => {
                return Err(e);
            },
        };
        match self.consume(TokenKind::LBrace, "{") {
            Ok(_) => {},
            Err(e) => {
                return Err(e);
            },
        }
        let ghost pos3 = self.at();
        let mut fields: Vec<FieldDef> = Vec::new();
        assert(FieldDef::views(fields@) =~= Seq::empty());
        while !self.is_at_end() && !self.check(TokenKind::RBrace)
            invariant
                self.follows(*old(self)),
                toks == self.toks(),
                toks == old(self).toks(),
                pos3 == old(self).at() + 3,
                pos3 <= self.at(),
                expect(toks, old(self).at(), TokenKind::Component, "component"@) is Ok,
                expect(toks, old(self).at() + 1, TokenKind::Identifier, "component name"@) is Ok,
                expect(toks, old(self).at() + 2, TokenKind::LBrace, "{"@) is Ok,
                g_fields(toks, pos3, Seq::empty()) == g_fields(toks, self.at(), FieldDef::views(fields@)),
            decreases self.toks().len() - self.at(),
        {
            let f = match self.parse_field() {
                Ok(f) => f,
                Err(e) => {
                    return Err(e);
                },
            };
            fields.push(f);
        }
        match self.consume(TokenKind::RBrace, "}") {
            Ok(_) => {},
            Err(e) => {
                return Err(e);
            },
        }
        Ok(ComponentDef { name: name.text, fields, span: self.span_from(start) })
    }

    /// One parameter.
    fn parse_param(&mut self, choice: bool) -> (r: Result<ParamDef, ParseError>)
        requires
            old(self).wf(),
        ensures
            final(self).follows(*old(self)),
            realises(r, *final(self), g_param(old(self).toks(), old(self).at(), choice)),
            r is Ok ==> old(self).at() < final(self).at(),
    {
        let start = self.position();
        let name = match self.consume_name("parameter name") {
            Ok(t) => t,
            Err(e) => {
                return Err(e);
            },
        };
        match self.consume(TokenKind::Colon, ":") {
            Ok(_) => {},
            Err(e) => {
                return Err(e);
            },
        }
        let parsed = if choice {
            self.parse_param_type()
        } else {
            self.parse_type()
        };
        let param_type = match parsed {
            Ok(t) => t,
            Err(e) => {
                return Err(e);
            },
        };
        Ok(ParamDef { name: name.text, param_type, span: self.span_from(start) })
    }

    /// Parameters up to a `)` or the end of input.
    fn parse_params(&mut self, choice: bool) -> (r: Result<Vec<ParamDef>, ParseError>)
        requires
            old(self).wf(),
        ensures
            final(self).follows(*old(self)),
            match g_params(old(self).toks(), old(self).at(), choice, Seq::empty()) {
                Ok((v, p)) => r is Ok && ParamDef::views(r->Ok_0@) == v && final(self).at() == p,
                Err(e) => r is Err && r->Err_0@ == e,
            },
            r is Ok ==> old(self).at() <= final(self).at(),
    {
        let ghost toks = self.toks();
        let mut out: Vec<ParamDef> = Vec::new();
        assert(ParamDef::views(out@) =~= Seq::empty());
        while !self.is_at_end() && !self.check(TokenKind::RParen)
            invariant
                self.follows(*old(self)),
                toks == self.toks(),
                old(self).at() <= self.at(),
                g_params(toks, old(self).at(), choice, Seq::empty()) == g_params(
                    toks,
                    self.at(),
                    choice,
                    ParamDef::views(out@),
                ),
            decreases self.toks().len() - self.at(),
        {
            let param = match self.parse_param(choice) {
                Ok(p) => p,
                Err(e) => {
                    return Err(e);
                },
            };
            out.push(param);
            if self.check(TokenKind::Comma) {
                self.skip();
            }
        }
        Ok(out)
    }

    /// `(params) [: type] { .. }`
    fn parse_signature_and_body(&mut self, choice: bool) -> (r: Result<
        (Vec<ParamDef>, Option<TypeExpr>, Block),
        ParseError,
    >)
        requires
            old(self).wf(),
        ensures
            final(self).follows(*old(self)),
            match g_signature_and_body(old(self).toks(), old(self).at(), choice) {
                Ok((v, p)) => r is Ok && (ParamDef::views(r->Ok_0.0@), opt_type_view(r->Ok_0.1), r->Ok_0.2@) == v
                    && final(self).at() == p,
                Err(e) => r is Err && r->Err_0@ == e,
            },
            r is Ok ==> old(self).at() < final(self).at(),
    {
        match self.consume(TokenKind::LParen, "(") {
            Ok(_) => {},
            Err(e) => {
                return Err(e);
            },
        }
        let params = match self.parse_params(choice) {
            Ok(p) => p,
            Err(e) => {
                return Err(e);
            },
        };
        match self.consume(TokenKind::RParen, ")") {
            Ok(_) => {},
            Err(e) => {
                return Err(e);
            },
        }
        let return_type = match self.parse_type_annotation() {
            Ok(t) => t,
            Err(e) => {
                return Err(e);
            },
        };
        let body = match self.parse_block() {
            Ok(b) => b,
            Err(e) => {
                return Err(e);
            },
        };
        Ok((params, return_type, body))
    }

    /// `fn name(params) [: type] { .. }`
    pub fn parse_function(&mut self) -> (r: Result<FunctionDef, ParseError>)
        requires
            old(self).wf(),
        ensures
            final(self).follows(*old(self)),
            realises(r, *final(self), g_function(old(self).toks(), old(self).at())),
            r is Ok ==> old(self).at() < final(self).at(),
    {
        let start = self.position();
        match self.consume(TokenKind::Fn, "fn") {
            Ok(_) => {},
            Err(e) => {
                return Err(e);
            },
        }
        let name = match self.consume(TokenKind::Identifier, "function name") {
            Ok(t) => t,
            Err(e) => {
                return Err(e);
            },
        };
        let parts = match self.parse_signature_and_body(false) {
            Ok(p) => p,
            Err(e) => {
                return Err(e);
            },
        };
        Ok(
            FunctionDef {
                name: name.text,
                params: parts.0,
                return_type: parts.1,
                body: parts.2,
                span: self.span_from(start),
            },
        )
    }

    /// `.name = choice(params) [: type] { .. }`
    pub fn parse_bound_function(&mut self) -> (r: Result<BoundFunctionDef, ParseError>)
        requires
            old(self).wf(),
        ensures
            final(self).follows(*old(self)),
            realises(r, *final(self), g_bound_function(old(self).toks(), old(self).at())),
            r is Ok ==> old(self).at() < final(self).at(),
    {
        let start = self.position();
        match self.consume(TokenKind::Dot, ".") {
            Ok(_) => {},
            Err(e) => {
                return Err(e);
            },
        }
        let name = match self.consume(TokenKind::Identifier, "function name") {
            Ok(t) => t,
            Err(e) => {
                return Err(e);
            },
        };
        match self.consume(TokenKind::Eq, "=") {
            Ok(_) => {},
            Err(e) => {
                return Err(e);
            },
        }
        match self.consume(TokenKind::Choice, "choice") {
            Ok(_) => {},
            Err(e) => {
                return Err(e);
            },
        }
        let parts = match self.parse_signature_and_body(true) {
            Ok(p) => p,
            Err(e) => {
                return Err(e);
            },
        };
        Ok(
            BoundFunctionDef {
                name: name.text,
                params: parts.0,
                return_type: parts.1,
                body: parts.2,
                span: self.span_from(start),
            },
        )
    }

    /// The optional `[priority: N]` of a rule.
    fn parse_priority(&mut self) -> (r: Result<Option<i32>, ParseError>)
        requires
            old(self).wf(),
        ensures
            final(self).follows(*old(self)),
            match g_priority(old(self).toks(), old(self).at()) {
                Ok((v, p)) => r == Ok::<Option<i32>, ParseError>(v) && final(self).at() == p,
                Err(e) => r is Err && r->Err_0@ == e,
            },
            r is Ok ==> old(self).at() <= final(self).at(),
    {
        if !self.check(TokenKind::LBracket) {
            return Ok(None);
        }
        self.skip();
        match self.consume(TokenKind::Identifier, "priority") {
            Ok(_) => {},
            Err(e) => {
                return Err(e);
            },
        }
        match self.consume(TokenKind::Colon, ":") {
            Ok(_) => {},
            Err(e) => {
                return Err(e);
            },
        }
        let value = match self.consume(TokenKind::IntegerLiteral, "priority value") {
            Ok(t) => t,
            Err(e) => {
                return Err(e);
            },
        };
        let priority = match parse_number(value.text.as_str(), 0x7fff_ffff) {
            Some(n) => n as i32,
            None => {
                return Err(
                    ParseError::InvalidSyntax {
                        message: concat3("Invalid priority value: '", value.text.as_str(), "' is not a valid integer"),
                    },
                );
            },
        };
        match self.consume(TokenKind::RBracket, "]") {
            Ok(_) => {},
            Err(e) => {
                return Err(e);
            },
        }
        Ok(Some(priority))
    }

    /// The optional `when expr` of a rule.
    fn parse_when(&mut self) -> (r: Result<Option<Expr>, ParseError>)
        requires
            old(self).wf(),
        ensures
            final(self).follows(*old(self)),
            match g_when(old(self).toks(), old(self).at()) {
                Ok((v, p)) => r is Ok && opt_expr_view(r->Ok_0) == v && final(self).at() == p,
                Err(e) => r is Err && r->Err_0@ == e,
            },
            r is Ok ==> old(self).at() <= final(self).at(),
    {
        if self.check(TokenKind::When) {
            self.skip();
            match self.parse_expression() {
                Ok(e) => Ok(Some(e)),
                Err(e) => Err(e),
            }
        } else {
            Ok(None)
        }
    }

    /// `rule [name] on Event [when expr] [[priority: N]] { .. }`
    pub fn parse_rule(&mut self) -> (r: Result<RuleDef, ParseError>)
        requires
            old(self).wf(),
        ensures
            final(self).follows(*old(self)),
            realises(r, *final(self), g_rule(old(self).toks(), old(self).at())),
            r is Ok ==> old(self).at() < final(self).at(),
    {
        let start = self.position();
        match self.consume(TokenKind::Rule, "rule") {
            Ok(_) => {},
            Err(e) => {
                return Err(e);
            },
        }
        let name = if self.check(TokenKind::Identifier) {
            let text = self.text_here();
            self.skip();
            Some(text)
        } else {
            None
        };
        match self.consume(TokenKind::On, "on") {
            Ok(_) => {},
            Err(e) => {
                return Err(e);
            },
        }
        let event = match self.consume(TokenKind::Identifier, "event name") {
            Ok(t) => t,
            Err(e) => {
                return Err(e);
            },
        };
        let condition = match self.parse_when() {
            Ok(c) => c,
            Err(e) => {
                return Err(e);
            },
        };
        let priority = match self.parse_priority() {
            Ok(p) => p,
            Err(e) => {
                return Err(e);
            },
        };
        let body = match self.parse_block() {
            Ok(b) => b,
            Err(e) => {
                return Err(e);
            },
        };
        Ok(RuleDef { name, trigger_event: event.text, condition, priority, body, span: self.span_from(start) })
    }

    /// The optional `{ names }` of an import.
    fn parse_import_items(&mut self) -> (r: Result<Option<Vec<String>>, ParseError>)
        requires
            old(self).wf(),
        ensures
            final(self).follows(*old(self)),
            match g_import_items(old(self).toks(), old(self).at()) {
                Ok((v, p)) => r is Ok && (match r->Ok_0 {
                    Some(names) => Some(strings_view(names@)),
                    None => None,
                }) == v && final(self).at() == p,
                Err(e) => r is Err && r->Err_0@ == e,
            },
            r is Ok ==> old(self).at() <= final(self).at(),
    {
        if !self.check(TokenKind::LBrace) {
            return Ok(None);
        }
        let ghost toks = self.toks();
        self.skip();
        let ghost pos1 = self.at();
        let mut names: Vec<String> = Vec::new();
        assert(strings_view(names@) =~= Seq::empty());
        while !self.is_at_end() && !self.check(TokenKind::RBrace)
            invariant
                self.follows(*old(self)),
                toks == self.toks(),
                toks == old(self).toks(),
                is_kind(toks, old(self).at(), TokenKind::LBrace),
                pos1 == old(self).at() + 1,
                pos1 <= self.at(),
                g_import_names(toks, pos1, Seq::empty()) == g_import_names(toks, self.at(), strings_view(names@)),
            decreases self.toks().len() - self.at(),
        {
            let name = match self.consume(TokenKind::Identifier, "import item") {
                Ok(t) => t,
                Err(e) => {
                    return Err(e);
                },
            };
            names.push(name.text);
            if self.check(TokenKind::Comma) {
                self.skip();
            }
        }
        match self.consume(TokenKind::RBrace, "}") {
            Ok(_) => {},
            Err(e) => {
                return Err(e);
            },
        }
        Ok(Some(names))
    }

    /// `import a.b.c [{ x, y }]`
    pub fn parse_import(&mut self) -> (r: Result<ImportDef, ParseError>)
        requires
            old(self).wf(),
        ensures
            final(self).follows(*old(self)),
            realises(r, *final(self), g_import(old(self).toks(), old(self).at())),
            r is Ok ==> old(self).at() < final(self).at(),
    {
        let start = self.position();
        let ghost toks = self.toks();
        match self.consume(TokenKind::Import, "import") {
            Ok(_) => {},
            Err(e) => {
                return Err(e);
            },
        }
        let first = match self.consume(TokenKind::Identifier, "module path") {
            Ok(t) => t,
            Err(e) => {
                return Err(e);
            },
        };
        let ghost pos2 = self.at();
        let ghost first_text = first.text@;
        let mut path: Vec<String> = Vec::new();
        path.push(first.text);
        assert(strings_view(path@) =~= seq![first_text]);
        while self.check(TokenKind::Dot)
            invariant
                self.follows(*old(self)),
                toks == self.toks(),
                toks == old(self).toks(),
                pos2 == old(self).at() + 2,
                pos2 <= self.at(),
                expect(toks, old(self).at(), TokenKind::Import, "import"@) is Ok,
                expect(toks, old(self).at() + 1, TokenKind::Identifier, "module path"@) is Ok,
                first_text == toks[(old(self).at() + 1) as int].text,
                g_import_path(toks, pos2, seq![first_text]) == g_import_path(toks, self.at(), strings_view(path@)),
            decreases self.toks().len() - self.at(),
        {
            self.skip();
            let segment = match self.consume(TokenKind::Identifier, "module path segment") {
                Ok(t) => t,
                Err(e) => {
                    return Err(e);
                },
            };
            path.push(segment.text);
        }
        let items = match self.parse_import_items() {
            Ok(i) => i,
            Err(e) => {
                return Err(e);
            },
        };
        Ok(ImportDef { path, items, span: self.span_from(start) })
    }

    /// The head of an entity declaration: the name it is bound to.
    fn parse_entity_head(&mut self) -> (r: Result<Option<String>, ParseError>)
        requires
            old(self).wf(),
        ensures
            final(self).follows(*old(self)),
            match g_entity_head(old(self).toks(), old(self).at()) {
                Ok((v, p)) => r is Ok && opt_view(r->Ok_0) == v && final(self).at() == p,
                Err(e) => r is Err && r->Err_0@ == e,
            },
            r is Ok ==> old(self).at() < final(self).at(),
    {
        match self.peek_kind(0) {
            Some(TokenKind::Identifier) => {
                let name = self.text_here();
                self.skip();
                match self.consume(TokenKind::Eq, "=") {
                    Ok(_) => {},
                    Err(e) => {
                        return Err(e);
                    },
                }
                match self.consume(TokenKind::New, "new") {
                    Ok(_) => {},
                    Err(e) => {
                        return Err(e);
                    },
                }
                match self.consume(TokenKind::Entity, "entity") {
                    Ok(_) => {},
                    Err(e) => {
                        return Err(e);
                    },
                }
                Ok(Some(name))
            },
            Some(TokenKind::Entity) => {
                self.skip();
                match self.peek_kind(0) {
                    Some(TokenKind::EntityRef) => {
                        let text = self.text_here();
                        self.skip();
                        Ok(Some(without_first(text.as_str())))
                    },
                    Some(TokenKind::Identifier) => {
                        let text = self.text_here();
                        self.skip();
                        Ok(Some(text))
                    },
                    _ => Ok(None),
                }
            },
            Some(TokenKind::EntityRef) => {
                let text = self.text_here();
                self.skip();
                Ok(Some(without_first(text.as_str())))
            },
            _ => Err(self.error_here("component, rule, fn, import, module, or entity")),
        }
    }

    /// An entity declaration, in any of its forms.
    pub fn parse_entity(&mut self) -> (r: Result<EntityDef, ParseError>)
        requires
            old(self).wf(),
        ensures
            final(self).follows(*old(self)),
            realises(r, *final(self), g_entity(old(self).toks(), old(self).at())),
            r is Ok ==> old(self).at() < final(self).at(),
    {
        let start = self.position();
        let ghost toks = self.toks();
        let variable = match self.parse_entity_head() {
            Ok(v) => v,
            Err(e) => {
                return Err(e);
            },
        };
        let ghost pos1 = self.at();
        match self.consume(TokenKind::LBrace, "{") {
            Ok(_) => {},
            Err(e) => {
                return Err(e);
            },
        }
        let ghost pos2 = self.at();
        let mut components: Vec<ComponentInit> = Vec::new();
        let mut bound_functions: Vec<BoundFunctionDef> = Vec::new();
        assert(ComponentInit::views(components@) =~= Seq::empty());
        assert(BoundFunctionDef::views(bound_functions@) =~= Seq::empty());
        while !self.is_at_end() && !self.check(TokenKind::RBrace)
            invariant
                self.follows(*old(self)),
                toks == self.toks(),
                toks == old(self).toks(),
                start == old(self).at(),
                start < pos1,
                pos2 == pos1 + 1,
                pos2 <= self.at(),
                g_entity_head(toks, start as nat) == Ok::<
                    (Option<Seq<char>>, nat),
                    ParseErrorView,
                >((opt_view(variable), pos1)),
                expect(toks, pos1, TokenKind::LBrace, "{"@) is Ok,
                g_entity_body(toks, pos2, Seq::empty(), Seq::empty()) == g_entity_body(
                    toks,
                    self.at(),
                    ComponentInit::views(components@),
                    BoundFunctionDef::views(bound_functions@),
                ),
            decreases self.toks().len() - self.at(),
        {
            if self.check(TokenKind::Dot) {
                let f = match self.parse_bound_function() {
                    Ok(f) => f,
                    Err(e) => {
                        return Err(e);
                    },
                };
                bound_functions.push(f);
            } else {
                let c = match self.parse_component_init() {
                    Ok(c) => c,
                    Err(e) => {
                        return Err(e);
                    },
                };
                components.push(c);
            }
        }
        match self.consume(TokenKind::RBrace, "}") {
            Ok(_) => {},
            Err(e) => {
                return Err(e);
            },
        }
        Ok(EntityDef { variable, components, bound_functions, span: self.span_from(start) })
    }

    /// `module name { item* }`
    pub fn parse_module_def(&mut self) -> (r: Result<ModuleItemDef, ParseError>)
        requires
            old(self).wf(),
        ensures
            final(self).follows(*old(self)),
            realises(r, *final(self), g_module_def(old(self).toks(), old(self).at())),
            r is Ok ==> old(self).at() < final(self).at(),
        decreases old(self).toks().len() - old(self).at(), 5nat,
    {
        let start = self.position();
        match self.consume(TokenKind::Module, "module") {
            Ok(_) => {},
            Err(e) => {
                return Err(e);
            },
        }
        let name = match self.consume(TokenKind::Identifier, "module name") {
            Ok(t) => t,
            Err(e) => {
                return Err(e);
            },
        };
        match self.consume(TokenKind::LBrace, "{") {
            Ok(_) => {},
            Err(e) => {
                return Err(e);
            },
        }
        let items = match self.parse_items(true) {
            Ok(i) => i,
            Err(e) => {
                return Err(e);
            },
        };
        match self.consume(TokenKind::RBrace, "}") {
            Ok(_) => {},
            Err(e) => {
                return Err(e);
            },
        }
        Ok(ModuleItemDef { name: name.text, items, span: self.span_from(start) })
    }

    /// Items up to the end of input, or, inside a nested module, up to a
    /// `}`.
    pub fn parse_items(&mut self, nested: bool) -> (r: Result<Vec<Item>, ParseError>)
        requires
            old(self).wf(),
        ensures
            final(self).follows(*old(self)),
            match g_items(old(self).toks(), old(self).at(), nested, Seq::empty()) {
                Ok((v, p)) => r is Ok && Item::views(r->Ok_0@) == v && final(self).at() == p,
                Err(e) => r is Err && r->Err_0@ == e,
            },
            r is Ok ==> old(self).at() <= final(self).at(),
        decreases old(self).toks().len() - old(self).at(), 20nat,
    {
        let ghost toks = self.toks();
        let mut items: Vec<Item> = Vec::new();
        assert(Item::views(items@) =~= Seq::empty());
        while !self.is_at_end() && !(nested && self.check(TokenKind::RBrace))
            invariant
                self.follows(*old(self)),
                toks == self.toks(),
                old(self).at() <= self.at(),
                g_items(toks, old(self).at(), nested, Seq::empty()) == g_items(
                    toks,
                    self.at(),
                    nested,
                    Item::views(items@),
                ),
            decreases self.toks().len() - self.at(),
        {
            let item = match self.parse_item() {
                Ok(i) => i,
                Err(e) => {
                    return Err(e);
                },
            };
            items.push(item);
        }
        Ok(items)
    }

    /// An item, chosen by its first token.
    pub fn parse_item(&mut self) -> (r: Result<Item, ParseError>)
        requires
            old(self).wf(),
        ensures
            final(self).follows(*old(self)),
            realises(r, *final(self), g_item(old(self).toks(), old(self).at())),
            r is Ok ==> old(self).at() < final(self).at(),
        decreases old(self).toks().len() - old(self).at(), 10nat,
    {
        let kind = match self.peek_kind(0) {
            Some(kind) => kind,
            None => {
                return Err(ParseError::UnexpectedEof { expected: owned("item") });
            },
        };
        match kind {
            TokenKind::Component => match self.parse_component() {
                Ok(c) => Ok(Item::Component(c)),
                Err(e) => Err(e),
            },
            TokenKind::Rule => match self.parse_rule() {
                Ok(r) => Ok(Item::Rule(r)),
                Err(e) => Err(e),
            },
            TokenKind::Fn => match self.parse_function() {
                Ok(f) => Ok(Item::Function(f)),
                Err(e) => Err(e),
            },
            TokenKind::Import => match self.parse_import() {
                Ok(i) => Ok(Item::Import(i)),
                Err(e) => Err(e),
            },
            TokenKind::Module => match self.parse_module_def() {
                Ok(m) => Ok(Item::ModuleDef(m)),
                Err(e) => Err(e),
            },
            TokenKind::Entity | TokenKind::EntityRef => match self.parse_entity() {
                Ok(e) => Ok(Item::Entity(e)),
                Err(e) => Err(e),
            },
            TokenKind::Identifier => {
                let next = self.peek_kind(1);
                match next {
                    Some(TokenKind::Eq) => match self.parse_entity() {
                        Ok(e) => Ok(Item::Entity(e)),
                        Err(e) => Err(e),
                    },
                    _ => Err(self.error_here("component, rule, fn, import, module, or entity")),
                }
            },
            _ => Err(self.error_here("component, rule, fn, import, module, or entity")),
        }
    }

    /// The whole token list, as a module.
    pub fn parse_module(&mut self) -> (r: Result<Module, ParseError>)
        requires
            old(self).wf(),
            old(self).at() == 0,
        ensures
            final(self).follows(*old(self)),
            match spec_parse(old(self).toks()) {
                Ok(m) => r is Ok && r->Ok_0@ == m,
                Err(e) => r is Err && r->Err_0@ == e,
            },
    {
        match self.parse_items(false) {
            Ok(items) => Ok(Module { items }),
            Err(e) => Err(e),
        }
    }
}

/// Parses a token list into a module. Parsing is all or nothing: the
/// result is the module that the grammar reads from the tokens, or the first
/// syntax error.
pub fn parse(tokens: Vec<Token>) -> (r: Result<Module, ParseError>)
    ensures
        match spec_parse(Token::views(tokens@)) {
            Ok(m) => r is Ok && r->Ok_0@ == m,
            Err(e) => r is Err && r->Err_0@ == e,
        },
{
    let mut parser = Parser::new(tokens);
    parser.parse_module()
}

} // verus!
