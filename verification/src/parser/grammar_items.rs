//! The grammar of top-level items, and of a whole module.

use vstd::prelude::*;
use crate::lexer::{TokenKind, TokenView};
use crate::parser::ast::{
    BlockView, BoundFunctionDefView, ComponentDefView, ComponentInitView, EntityDefView, ExprView,
    FieldDefView, FunctionDefView, ImportDefView, ItemView, ModuleItemDefView, ModuleView, ParamDefView,
    RuleDefView, TypeExprView,
};
use crate::parser::cursor::{expect, expect_name, is_kind, span_between, step, unexpected, Parsed};
use crate::parser::errors::ParseErrorView;
use crate::parser::grammar::{g_component_init, g_expression, g_param_type, g_type};
use crate::parser::grammar_stmts::{g_block, g_type_annotation};
use crate::text::{number_within, strip_first};

verus! {

/// What may begin an item.
pub open spec fn item_expected() -> Seq<char> {
    "component, rule, fn, import, module, or entity"@
}

/// One field of a component: `name: type`. The field is optional exactly
/// when its type is.
pub open spec fn g_field(toks: Seq<TokenView>, pos: nat) -> Parsed<FieldDefView> {
    match expect_name(toks, pos, "field name"@) {
        Ok((name, pos1)) => match expect(toks, pos1, TokenKind::Colon, ":"@) {
            Ok((_, pos2)) => match g_type(toks, pos2) {
                Ok((t, pos3)) => Ok(
                    (
                        FieldDefView {
                            name: name.text,
                            field_type: t,
                            optional: t is Optional,
                            span: span_between(toks, pos, pos3),
                        },
                        pos3,
                    ),
                ),
                Err(e) => Err(e),
            },
            Err(e) => Err(e),
        },
        Err(e) => Err(e),
    }
}

/// Fields up to a `}` or the end of input.
pub open spec fn g_fields(toks: Seq<TokenView>, pos: nat, acc: Seq<FieldDefView>) -> Parsed<Seq<FieldDefView>>
    decreases toks.len() - pos,
{
    if pos >= toks.len() || is_kind(toks, pos, TokenKind::RBrace) {
        Ok((acc, pos))
    } else {
        match step(toks, pos, g_field(toks, pos)) {
            Ok((f, p)) => g_fields(toks, p, acc.push(f)),
            Err(e) => Err(e),
        }
    }
}

/// `component Name { field* }`
pub open spec fn g_component(toks: Seq<TokenView>, pos: nat) -> Parsed<ComponentDefView> {
    match expect(toks, pos, TokenKind::Component, "component"@) {
        Ok((_, pos1)) => match expect(toks, pos1, TokenKind::Identifier, "component name"@) {
            Ok((name, pos2)) => match expect(toks, pos2, TokenKind::LBrace, "{"@) {
                Ok((_, pos3)) => match g_fields(toks, pos3, Seq::empty()) {
                    Ok((fields, pos4)) => match expect(toks, pos4, TokenKind::RBrace, "}"@) {
                        Ok((_, pos5)) => Ok(
                            (
                                ComponentDefView {
                                    name: name.text,
                                    fields: fields,
                                    span: span_between(toks, pos, pos5),
                                },
                                pos5,
                            ),
                        ),
                        Err(e) => Err(e),
                    },
                    Err(e) => Err(e),
                },
                Err(e) => Err(e),
            },
            Err(e) => Err(e),
        },
        Err(e) => Err(e),
    }
}

/// One parameter: `name: type`. Only the parameters of a choice function
/// may have a composite type.
pub open spec fn g_param(toks: Seq<TokenView>, pos: nat, choice: bool) -> Parsed<ParamDefView> {
    match expect_name(toks, pos, "parameter name"@) {
        Ok((name, pos1)) => match expect(toks, pos1, TokenKind::Colon, ":"@) {
            Ok((_, pos2)) => match (if choice {
                g_param_type(toks, pos2)
            } else {
                g_type(toks, pos2)
            }) {
                Ok((t, pos3)) => Ok(
                    (ParamDefView { name: name.text, param_type: t, span: span_between(toks, pos, pos3) }, pos3),
                ),
                Err(e) => Err(e),
            },
            Err(e) => Err(e),
        },
        Err(e) => Err(e),
    }
}

/// Parameters up to a `)` or the end of input, each optionally followed by
/// a comma.
pub open spec fn g_params(toks: Seq<TokenView>, pos: nat, choice: bool, acc: Seq<ParamDefView>) -> Parsed<
    Seq<ParamDefView>,
>
    decreases toks.len() - pos,
{
    if pos >= toks.len() || is_kind(toks, pos, TokenKind::RParen) {
        Ok((acc, pos))
    } else {
        match step(toks, pos, g_param(toks, pos, choice)) {
            Ok((param, p)) => g_params(
                toks,
                if is_kind(toks, p, TokenKind::Comma) {
                    p + 1
                } else {
                    p
                },
                choice,
                acc.push(param),
            ),
            Err(e) => Err(e),
        }
    }
}

/// `(params) [: type] { .. }`: what a function and a choice function share.
pub open spec fn g_signature_and_body(toks: Seq<TokenView>, pos: nat, choice: bool) -> Parsed<
    (Seq<ParamDefView>, Option<TypeExprView>, BlockView),
> {
    match expect(toks, pos, TokenKind::LParen, "("@) {
        Ok((_, pos1)) => match g_params(toks, pos1, choice, Seq::empty()) {
            Ok((params, pos2)) => match expect(toks, pos2, TokenKind::RParen, ")"@) {
                Ok((_, pos3)) => match g_type_annotation(toks, pos3) {
                    Ok((return_type, pos4)) => match g_block(toks, pos4) {
                        Ok((body, pos5)) => Ok(((params, return_type, body), pos5)),
                        Err(e) => Err(e),
                    },
                    Err(e) => Err(e),
                },
                Err(e) => Err(e),
            },
            Err(e) => Err(e),
        },
        Err(e) => Err(e),
    }
}

/// `fn name(params) [: type] { .. }`
pub open spec fn g_function(toks: Seq<TokenView>, pos: nat) -> Parsed<FunctionDefView> {
    match expect(toks, pos, TokenKind::Fn, "fn"@) {
        Ok((_, pos1)) => match expect(toks, pos1, TokenKind::Identifier, "function name"@) {
            Ok((name, pos2)) => match g_signature_and_body(toks, pos2, false) {
                Ok((parts, pos3)) => Ok(
                    (
                        FunctionDefView {
                            name: name.text,
                            params: parts.0,
                            return_type: parts.1,
                            body: parts.2,
                            span: span_between(toks, pos, pos3),
                        },
                        pos3,
                    ),
                ),
                Err(e) => Err(e),
            },
            Err(e) => Err(e),
        },
        Err(e) => Err(e),
    }
}

/// `.name = choice(params) [: type] { .. }`
pub open spec fn g_bound_function(toks: Seq<TokenView>, pos: nat) -> Parsed<BoundFunctionDefView> {
    match expect(toks, pos, TokenKind::Dot, "."@) {
        Ok((_, pos1)) => match expect(toks, pos1, TokenKind::Identifier, "function name"@) {
            Ok((name, pos2)) => match expect(toks, pos2, TokenKind::Eq, "="@) {
                Ok((_, pos3)) => match expect(toks, pos3, TokenKind::Choice, "choice"@) {
                    Ok((_, pos4)) => match g_signature_and_body(toks, pos4, true) {
                        Ok((parts, pos5)) => Ok(
                            (
                                BoundFunctionDefView {
                                    name: name.text,
                                    params: parts.0,
                                    return_type: parts.1,
                                    body: parts.2,
                                    span: span_between(toks, pos, pos5),
                                },
                                pos5,
                            ),
                        ),
                        Err(e) => Err(e),
                    },
                    Err(e) => Err(e),
                },
                Err(e) => Err(e),
            },
            Err(e) => Err(e),
        },
        Err(e) => Err(e),
    }
}

/// What a priority that is no `i32` is refused with.
pub open spec fn priority_error(text: Seq<char>) -> ParseErrorView {
    ParseErrorView::InvalidSyntax {
        message: "Invalid priority value: '"@ + text + "' is not a valid integer"@,
    }
}

/// The optional `[priority: N]` of a rule. The word before the colon may be
/// any identifier.
pub open spec fn g_priority(toks: Seq<TokenView>, pos: nat) -> Parsed<Option<i32>> {
    if is_kind(toks, pos, TokenKind::LBracket) {
        match expect(toks, pos + 1, TokenKind::Identifier, "priority"@) {
            Ok((_, pos1)) => match expect(toks, pos1, TokenKind::Colon, ":"@) {
                Ok((_, pos2)) => match expect(toks, pos2, TokenKind::IntegerLiteral, "priority value"@) {
                    Ok((value, pos3)) => match number_within(value.text, i32::MAX as nat) {
                        Some(n) => match expect(toks, pos3, TokenKind::RBracket, "]"@) {
                            Ok((_, pos4)) => Ok((Some(n as i32), pos4)),
                            Err(e) => Err(e),
                        },
                        None => Err(priority_error(value.text)),
                    },
                    Err(e) => Err(e),
                },
                Err(e) => Err(e),
            },
            Err(e) => Err(e),
        }
    } else {
        Ok((None, pos))
    }
}

/// The optional `when expr` of a rule.
pub open spec fn g_when(toks: Seq<TokenView>, pos: nat) -> Parsed<Option<ExprView>> {
    if is_kind(toks, pos, TokenKind::When) {
        match g_expression(toks, pos + 1) {
            Ok((e, p)) => Ok((Some(e), p)),
            Err(e) => Err(e),
        }
    } else {
        Ok((None, pos))
    }
}

/// `rule [name] on Event [when expr] [[priority: N]] { .. }`
pub open spec fn g_rule(toks: Seq<TokenView>, pos: nat) -> Parsed<RuleDefView> {
    match expect(toks, pos, TokenKind::Rule, "rule"@) {
        Ok((_, pos1)) => {
            let named = is_kind(toks, pos1, TokenKind::Identifier);
            let pos2 = if named {
                pos1 + 1
            } else {
                pos1
            };
            match expect(toks, pos2, TokenKind::On, "on"@) {
                Ok((_, pos3)) => match expect(toks, pos3, TokenKind::Identifier, "event name"@) {
                    Ok((event, pos4)) => match g_when(toks, pos4) {
                        Ok((condition, pos5)) => match g_priority(toks, pos5) {
                            Ok((priority, pos6)) => match g_block(toks, pos6) {
                                Ok((body, pos7)) => Ok(
                                    (
                                        RuleDefView {
                                            name: if named {
                                                Some(toks[pos1 as int].text)
                                            } else {
                                                None
                                            },
                                            trigger_event: event.text,
                                            condition: condition,
                                            priority: priority,
                                            body: body,
                                            span: span_between(toks, pos, pos7),
                                        },
                                        pos7,
                                    ),
                                ),
                                Err(e) => Err(e),
                            },
                            Err(e) => Err(e),
                        },
                        Err(e) => Err(e),
                    },
                    Err(e) => Err(e),
                },
                Err(e) => Err(e),
            }
        },
        Err(e) => Err(e),
    }
}

/// The segments of an import path after the first: `.name` repeated.
pub open spec fn g_import_path(toks: Seq<TokenView>, pos: nat, acc: Seq<Seq<char>>) -> Parsed<Seq<Seq<char>>>
    decreases toks.len() - pos,
{
    if is_kind(toks, pos, TokenKind::Dot) {
        match expect(toks, pos + 1, TokenKind::Identifier, "module path segment"@) {
            Ok((segment, p)) => g_import_path(toks, p, acc.push(segment.text)),
            Err(e) => Err(e),
        }
    } else {
        Ok((acc, pos))
    }
}

/// The names of an import list up to a `}` or the end of input, each
/// optionally followed by a comma.
pub open spec fn g_import_names(toks: Seq<TokenView>, pos: nat, acc: Seq<Seq<char>>) -> Parsed<Seq<Seq<char>>>
    decreases toks.len() - pos,
{
    if pos >= toks.len() || is_kind(toks, pos, TokenKind::RBrace) {
        Ok((acc, pos))
    } else {
        match expect(toks, pos, TokenKind::Identifier, "import item"@) {
            Ok((name, p)) => g_import_names(
                toks,
                if is_kind(toks, p, TokenKind::Comma) {
                    p + 1
                } else {
                    p
                },
                acc.push(name.text),
            ),
            Err(e) => Err(e),
        }
    }
}

/// The optional `{ names }` of an import.
pub open spec fn g_import_items(toks: Seq<TokenView>, pos: nat) -> Parsed<Option<Seq<Seq<char>>>> {
    if is_kind(toks, pos, TokenKind::LBrace) {
        match g_import_names(toks, pos + 1, Seq::empty()) {
            Ok((names, pos1)) => match expect(toks, pos1, TokenKind::RBrace, "}"@) {
                Ok((_, pos2)) => Ok((Some(names), pos2)),
                Err(e) => Err(e),
            },
            Err(e) => Err(e),
        }
    } else {
        Ok((None, pos))
    }
}

/// `import a.b.c [{ x, y }]`
pub open spec fn g_import(toks: Seq<TokenView>, pos: nat) -> Parsed<ImportDefView> {
    match expect(toks, pos, TokenKind::Import, "import"@) {
        Ok((_, pos1)) => match expect(toks, pos1, TokenKind::Identifier, "module path"@) {
            Ok((first, pos2)) => match g_import_path(toks, pos2, seq![first.text]) {
                Ok((path, pos3)) => match g_import_items(toks, pos3) {
                    Ok((items, pos4)) => Ok(
                        (ImportDefView { path: path, items: items, span: span_between(toks, pos, pos4) }, pos4),
                    ),
                    Err(e) => Err(e),
                },
                Err(e) => Err(e),
            },
            Err(e) => Err(e),
        },
        Err(e) => Err(e),
    }
}

/// The contents of an entity up to a `}` or the end of input: component
/// initialisers, and choice functions, which begin with a dot.
pub open spec fn g_entity_body(
    toks: Seq<TokenView>,
    pos: nat,
    components: Seq<ComponentInitView>,
    functions: Seq<BoundFunctionDefView>,
) -> Parsed<(Seq<ComponentInitView>, Seq<BoundFunctionDefView>)>
    decreases toks.len() - pos,
{
    if pos >= toks.len() || is_kind(toks, pos, TokenKind::RBrace) {
        Ok(((components, functions), pos))
    } else if is_kind(toks, pos, TokenKind::Dot) {
        match step(toks, pos, g_bound_function(toks, pos)) {
            Ok((f, p)) => g_entity_body(toks, p, components, functions.push(f)),
            Err(e) => Err(e),
        }
    } else {
        match step(toks, pos, g_component_init(toks, pos)) {
            Ok((c, p)) => g_entity_body(toks, p, components.push(c), functions),
            Err(e) => Err(e),
        }
    }
}

/// The head of an entity declaration: the name it is bound to, if any, and
/// the position of its `{`. The three forms are `name = new entity`,
/// `entity`, `entity name` or `entity @name`, and the bare `@name`.
pub open spec fn g_entity_head(toks: Seq<TokenView>, pos: nat) -> Parsed<Option<Seq<char>>> {
    if is_kind(toks, pos, TokenKind::Identifier) {
        match expect(toks, pos + 1, TokenKind::Eq, "="@) {
            Ok((_, pos2)) => match expect(toks, pos2, TokenKind::New, "new"@) {
                Ok((_, pos3)) => match expect(toks, pos3, TokenKind::Entity, "entity"@) {
                    Ok((_, pos4)) => Ok((Some(toks[pos as int].text), pos4)),
                    Err(e) => Err(e),
                },
                Err(e) => Err(e),
            },
            Err(e) => Err(e),
        }
    } else if is_kind(toks, pos, TokenKind::Entity) {
        if is_kind(toks, pos + 1, TokenKind::EntityRef) {
            Ok((Some(strip_first(toks[(pos + 1) as int].text)), pos + 2))
        } else if is_kind(toks, pos + 1, TokenKind::Identifier) {
            Ok((Some(toks[(pos + 1) as int].text), pos + 2))
        } else {
            Ok((None, pos + 1))
        }
    } else if is_kind(toks, pos, TokenKind::EntityRef) {
        Ok((Some(strip_first(toks[pos as int].text)), pos + 1))
    } else {
        Err(unexpected(toks, pos, item_expected()))
    }
}

/// An entity declaration, in any of its forms.
pub open spec fn g_entity(toks: Seq<TokenView>, pos: nat) -> Parsed<EntityDefView> {
    match g_entity_head(toks, pos) {
        Ok((variable, pos1)) => match expect(toks, pos1, TokenKind::LBrace, "{"@) {
            Ok((_, pos2)) => match g_entity_body(toks, pos2, Seq::empty(), Seq::empty()) {
                Ok((parts, pos3)) => match expect(toks, pos3, TokenKind::RBrace, "}"@) {
                    Ok((_, pos4)) => Ok(
                        (
                            EntityDefView {
                                variable: variable,
                                components: parts.0,
                                bound_functions: parts.1,
                                span: span_between(toks, pos, pos4),
                            },
                            pos4,
                        ),
                    ),
                    Err(e) => Err(e),
                },
                Err(e) => Err(e),
            },
            Err(e) => Err(e),
        },
        Err(e) => Err(e),
    }
}

/// `module name { item* }`
pub open spec fn g_module_def(toks: Seq<TokenView>, pos: nat) -> Parsed<ModuleItemDefView>
    decreases toks.len() - pos, 5nat,
{
    match expect(toks, pos, TokenKind::Module, "module"@) {
        Ok((_, pos1)) => match expect(toks, pos1, TokenKind::Identifier, "module name"@) {
            Ok((name, pos2)) => match expect(toks, pos2, TokenKind::LBrace, "{"@) {
                Ok((_, pos3)) => match g_items(toks, pos3, true, Seq::empty()) {
                    Ok((items, pos4)) => match expect(toks, pos4, TokenKind::RBrace, "}"@) {
                        Ok((_, pos5)) => Ok(
                            (
                                ModuleItemDefView {
                                    name: name.text,
                                    items: items,
                                    span: span_between(toks, pos, pos5),
                                },
                                pos5,
                            ),
                        ),
                        Err(e) => Err(e),
                    },
                    Err(e) => Err(e),
                },
                Err(e) => Err(e),
            },
            Err(e) => Err(e),
        },
        Err(e) => Err(e),
    }
}

/// Items up to the end of input, or, inside a nested module, up to a `}`.
pub open spec fn g_items(toks: Seq<TokenView>, pos: nat, nested: bool, acc: Seq<ItemView>) -> Parsed<Seq<ItemView>>
    decreases toks.len() - pos, 20nat,
{
    if pos >= toks.len() || (nested && is_kind(toks, pos, TokenKind::RBrace)) {
        Ok((acc, pos))
    } else {
        match step(toks, pos, g_item(toks, pos)) {
            Ok((item, p)) => g_items(toks, p, nested, acc.push(item)),
            Err(e) => Err(e),
        }
    }
}

/// An item, chosen by its first token. An identifier begins an entity only
/// when `=` follows it.
pub open spec fn g_item(toks: Seq<TokenView>, pos: nat) -> Parsed<ItemView>
    decreases toks.len() - pos, 10nat,
{
    if pos >= toks.len() {
        Err(ParseErrorView::UnexpectedEof { expected: "item"@ })
    } else {
        match toks[pos as int].kind {
            TokenKind::Component => match g_component(toks, pos) {
                Ok((c, p)) => Ok((ItemView::Component(c), p)),
                Err(e) => Err(e),
            },
            TokenKind::Rule => match g_rule(toks, pos) {
                Ok((r, p)) => Ok((ItemView::Rule(r), p)),
                Err(e) => Err(e),
            },
            TokenKind::Fn => match g_function(toks, pos) {
                Ok((f, p)) => Ok((ItemView::Function(f), p)),
                Err(e) => Err(e),
            },
            TokenKind::Import => match g_import(toks, pos) {
                Ok((i, p)) => Ok((ItemView::Import(i), p)),
                Err(e) => Err(e),
            },
            TokenKind::Module => match g_module_def(toks, pos) {
                Ok((m, p)) => Ok((ItemView::ModuleDef(m), p)),
                Err(e) => Err(e),
            },
            TokenKind::Entity => match g_entity(toks, pos) {
                Ok((e, p)) => Ok((ItemView::Entity(e), p)),
                Err(e) => Err(e),
            },
            TokenKind::EntityRef => match g_entity(toks, pos) {
                Ok((e, p)) => Ok((ItemView::Entity(e), p)),
                Err(e) => Err(e),
            },
            TokenKind::Identifier => if is_kind(toks, pos + 1, TokenKind::Eq) {
                match g_entity(toks, pos) {
                    Ok((e, p)) => Ok((ItemView::Entity(e), p)),
                    Err(e) => Err(e),
                }
            } else {
                Err(unexpected(toks, pos, item_expected()))
            },
            _ => Err(unexpected(toks, pos, item_expected())),
        }
    }
}

/// The module that a token list denotes, or the first syntax error in it.
pub open spec fn spec_parse(toks: Seq<TokenView>) -> Result<ModuleView, ParseErrorView> {
    match g_items(toks, 0, false, Seq::empty()) {
        Ok((items, _)) => Ok(ModuleView { items: items }),
        Err(e) => Err(e),
    }
}

} // verus!
