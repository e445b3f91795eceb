//! The analyzer: the typing rules, carried out on syntax trees.

use vstd::prelude::*;
use crate::analyzer::errors::{
    joined_messages, lemma_semantic_error_views_push, SemanticError, SemanticErrorView,
};
use crate::analyzer::rules::{
    binary_type, builtin_symbols, call_type, collect, element_type, field_signature, field_type, first_type,
    float_param, identifier_type, literal_type, param_scope, param_signature, promote, require_component,
    resolve_return_type, resolve_type, resolve_types, spec_analyze, spec_analyze_with, spec_block,
    spec_bound_function, spec_bound_functions, spec_component, spec_component_init, spec_component_inits,
    spec_else, spec_entity, spec_expr, spec_exprs, spec_field_inits, spec_fields, spec_function, spec_if,
    spec_item, spec_items, spec_opt_expr, spec_params, spec_rule, spec_statement, spec_statements,
    spec_tracker, Errors,
};
use crate::analyzer::scope::Scope;
use crate::analyzer::symbols::{assoc_map, assoc_map_of, SymbolTable, SymbolTableView};
use crate::analyzer::typed::{
    group_typed_views, TypedBlock, TypedBoundFunction, TypedComponent, TypedComponentInit, TypedElseClause,
    TypedEntity, TypedExpr, TypedExprKind, TypedField, TypedFunction, TypedItem, TypedModule, TypedParam,
    TypedRule, TypedStatement, TypedTracker,
};
use crate::analyzer::types::{group_type_views, Type, TypeView};
use crate::parser::ast::{
    BinaryOp, Block, BoundFunctionDef, ComponentDef, ComponentInit, ElseClause, EntityDef, Expr, FieldDef,
    FunctionDef, IfStatement, Item, Literal, Module, ParamDef, RuleDef, Statement, TrackerDef, TypeExpr, UnaryOp,
};
use crate::text::{clone_opt_string, owned, push_str, string_from_chars};

verus! {

broadcast use {group_typed_views, group_type_views, lemma_semantic_error_views_push};

impl Type {
    /// The type that a written type stands for.
    pub fn from_type_expr(expr: &TypeExpr) -> (t: Self)
        ensures
            t@ == resolve_type(expr@),
        decreases expr,
    {
        match expr {
            TypeExpr::String => Type::String,
            TypeExpr::Boolean => Type::Boolean,
            TypeExpr::Integer => Type::Integer,
            TypeExpr::Float => Type::Float,
            TypeExpr::Decimal => Type::Decimal,
            TypeExpr::Id => Type::EntityId,
            TypeExpr::Component(name) => Type::Component(name.clone()),
            TypeExpr::List(inner) => Type::List(Box::new(Type::from_type_expr(inner))),
            TypeExpr::Optional(inner) => Type::Optional(Box::new(Type::from_type_expr(inner))),
            TypeExpr::Composite(members) => {
                let mut out: Vec<Type> = Vec::new();
                let mut i: usize = 0;
                while i < members.len()
                    invariant
                        i <= members.len(),
                        decreases_to!(expr => members),
                        out@.len() == i,
                        forall|j: int| 0 <= j < i ==> (#[trigger] out@[j]).spec_view() == resolve_type(
                            members@[j].spec_view(),
                        ),
                    decreases members.len() - i,
                {
                    let member = Type::from_type_expr(&members[i]);
                    out.push(member);
                    i = i + 1;
                }
                assert(Type::views(out@) =~= resolve_types(TypeExpr::views(members@)));
                Type::Composite(out)
            },
        }
    }

    /// The type of an optional annotation; none means `Void`.
    pub fn from_return_type(expr: &Option<TypeExpr>) -> (t: Self)
        ensures
            t@ == resolve_return_type(
                match *expr {
                    Some(x) => Some(x.spec_view()),
                    None => None,
                },
            ),
    {
        match expr {
            Some(t) => Type::from_type_expr(t),
            None => Type::Void,
        }
    }

    /// The type of an arithmetic result: `Float` if either side is, else
    /// `Decimal` if either side is, else `Integer`.
    pub fn promoted(left: &Type, right: &Type) -> (t: Self)
        ensures
            t@ == promote(left@, right@),
    {
        match (left, right) {
            (Type::Float, _) => Type::Float,
            (_, Type::Float) => Type::Float,
            (Type::Decimal, _) => Type::Decimal,
            (_, Type::Decimal) => Type::Decimal,
            _ => Type::Integer,
        }
    }

    /// The type of a binary expression.
    pub fn of_binary(op: BinaryOp, left: &Type, right: &Type) -> (t: Self)
        ensures
            t@ == binary_type(op, left@, right@),
    {
        match op {
            BinaryOp::Add | BinaryOp::Sub | BinaryOp::Mul | BinaryOp::Div | BinaryOp::Mod => Type::promoted(
                left,
                right,
            ),
            _ => Type::Boolean,
        }
    }

    /// The element type of a list type, `Unknown` for any other type.
    pub fn element(&self) -> (t: Self)
        ensures
            t@ == element_type(self@),
    {
        match self {
            Type::List(inner) => inner.duplicate(),
            _ => Type::Unknown,
        }
    }

    /// The type of a literal.
    pub fn of_literal(lit: &Literal) -> (t: Self)
        ensures
            t@ == literal_type(lit@),
    {
        proof {
            reveal_with_fuel(Type::spec_view, 2);
        }
        match lit {
            Literal::String(_) => Type::String,
            Literal::Integer(_) => Type::Integer,
            Literal::Float(_) => Type::Float,
            Literal::Decimal(_) => Type::Decimal,
            Literal::Boolean(_) => Type::Boolean,
            Literal::Null => Type::Optional(Box::new(Type::Unknown)),
        }
    }
}

/// The state of one analysis: the symbols of the unit and the errors found
/// so far. An analyzer serves one compilation.
pub struct Analyzer {
    symbols: SymbolTable,
    errors: Vec<SemanticError>,
}

impl Analyzer {
    /// The symbols this analyzer resolves names against.
    pub closed spec fn symbols_view(self) -> SymbolTableView {
        self.symbols@
    }

    /// The errors found so far, oldest first.
    pub closed spec fn errors_view(self) -> Errors {
        SemanticError::views(self.errors@)
    }

    /// An analyzer that knows the built-in functions and nothing else.
    pub fn new() -> (a: Self)
        ensures
            a.symbols_view() == builtin_symbols(),
            a.errors_view() == Seq::<SemanticErrorView>::empty(),
    {
        let mut symbols = SymbolTable::new();
        symbols.add_function(owned("min"), float_params2("a", "b"), Type::Float);
        symbols.add_function(owned("max"), float_params2("a", "b"), Type::Float);
        symbols.add_function(owned("floor"), float_params1("x"), Type::Integer);
        symbols.add_function(owned("ceil"), float_params1("x"), Type::Integer);
        symbols.add_function(owned("round"), float_params1("x"), Type::Integer);
        symbols.add_function(owned("abs"), float_params1("x"), Type::Float);
        let none: Vec<(String, Type)> = Vec::new();
        assert(Type::named_views(none@) =~= Seq::empty());
        symbols.add_function(owned("random"), none, Type::Float);
        symbols.add_function(owned("random_range"), float_params2("min", "max"), Type::Float);
        proof {
            reveal_with_fuel(Type::spec_view, 2);
        }
        let mut list: Vec<(String, Type)> = Vec::new();
        list.push((owned("list"), Type::List(Box::new(Type::Unknown))));
        assert(Type::named_views(list@) =~= seq![("list"@, TypeView::List(Box::new(TypeView::Unknown)))]);
        symbols.add_function(owned("len"), list, Type::Integer);
        let a = Self { symbols, errors: Vec::new() };
        assert(SemanticError::views(a.errors@) =~= Seq::empty());
        a
    }

    /// The errors found so far, oldest first.
    pub fn errors(&self) -> (r: &Vec<SemanticError>)
        ensures
            SemanticError::views(r@) == self.errors_view(),
    {
        &self.errors
    }

    /// The symbols this analyzer resolves names against.
    pub fn symbols(&self) -> (r: &SymbolTable)
        ensures
            r@ == self.symbols_view(),
    {
        &self.symbols
    }

    /// Records `UndefinedComponent` unless `name` is declared.
    fn check_component(&mut self, name: &String)
        ensures
            final(self).symbols_view() == old(self).symbols_view(),
            final(self).errors_view() == require_component(old(self).symbols_view(), name@, old(self).errors_view()),
    {
        if self.symbols.get_component(name.as_str()).is_none() {
            self.errors.push(SemanticError::UndefinedComponent { name: name.clone() });
        }
    }

    /// The type of an identifier: a variable in sight, else a declared
    /// component, else unknown and an error.
    fn identifier_type(&mut self, name: &String, scope: &Scope) -> (t: Type)
        ensures
            final(self).symbols_view() == old(self).symbols_view(),
            (t@, final(self).errors_view()) == identifier_type(
                old(self).symbols_view(),
                scope@,
                name@,
                old(self).errors_view(),
            ),
    {
        match scope.lookup(name.as_str()) {
            Some(t) => t.duplicate(),
            None => {
                if self.symbols.get_component(name.as_str()).is_some() {
                    Type::Component(name.clone())
                } else {
                    self.errors.push(SemanticError::UndefinedVariable { name: name.clone() });
                    Type::Unknown
                }
            },
        }
    }

    /// The type of `base.field`.
    fn field_access_type(&self, base: &Type, field: &String) -> (t: Type)
        ensures
            t@ == field_type(self.symbols_view(), base@, field@),
    {
        match base {
            Type::Component(name) => match self.symbols.get_component(name.as_str()) {
                Some(info) => lookup_field(&info.fields, field),
                None => Type::Unknown,
            },
            _ => Type::Unknown,
        }
    }

    /// The return type of a call: that of the function, else unknown and
    /// an error.
    fn call_type(&mut self, name: &String) -> (t: Type)
        ensures
            final(self).symbols_view() == old(self).symbols_view(),
            (t@, final(self).errors_view()) == call_type(old(self).symbols_view(), name@, old(self).errors_view()),
    {
        match self.symbols.get_function(name.as_str()) {
            Some(f) => f.return_type.duplicate(),
            None => {
                self.errors.push(SemanticError::UndefinedFunction { name: name.clone() });
                Type::Unknown
            },
        }
    }

    /// Types an expression. Never fails: what cannot be resolved is typed
    /// `Unknown`, and an error is recorded where the rules ask for one.
    pub fn analyze_expr(&mut self, expr: &Expr, scope: &Scope) -> (r: TypedExpr)
        ensures
            final(self).symbols_view() == old(self).symbols_view(),
            (r@, final(self).errors_view()) == spec_expr(
                old(self).symbols_view(),
                scope@,
                expr@,
                old(self).errors_view(),
            ),
        decreases expr, 0nat,
    {
        proof {
            reveal_with_fuel(Type::spec_view, 2);
        }
        match expr {
            Expr::Literal(lit, _) => {
                let typ = Type::of_literal(lit);
                TypedExpr { kind: TypedExprKind::Literal(lit.clone()), typ }
            },
            Expr::Identifier(name, _) => {
                let typ = self.identifier_type(name, scope);
                TypedExpr { kind: TypedExprKind::Identifier(name.clone()), typ }
            },
            Expr::EntityRef(name, _) => TypedExpr {
                kind: TypedExprKind::EntityRef(name.clone()),
                typ: Type::EntityId,
            },
            Expr::FieldAccess(base, field, _) => {
                let base_typed = self.analyze_expr(base, scope);
                let typ = self.field_access_type(&base_typed.typ, field);
                TypedExpr { kind: TypedExprKind::FieldAccess(Box::new(base_typed), field.clone()), typ }
            },
            Expr::IndexAccess(base, index, _) => {
                let base_typed = self.analyze_expr(base, scope);
                let index_typed = self.analyze_expr(index, scope);
                let typ = base_typed.typ.element();
                TypedExpr {
                    kind: TypedExprKind::IndexAccess(Box::new(base_typed), Box::new(index_typed)),
                    typ,
                }
            },
            Expr::Binary(left, op, right, _) => {
                let left_typed = self.analyze_expr(left, scope);
                let right_typed = self.analyze_expr(right, scope);
                let typ = Type::of_binary(*op, &left_typed.typ, &right_typed.typ);
                TypedExpr { kind: TypedExprKind::Binary(Box::new(left_typed), *op, Box::new(right_typed)), typ }
            },
            Expr::Unary(op, inner, _) => {
                let inner_typed = self.analyze_expr(inner, scope);
                let typ = match op {
                    UnaryOp::Not => Type::Boolean,
                    UnaryOp::Neg => inner_typed.typ.duplicate(),
                };
                TypedExpr { kind: TypedExprKind::Unary(*op, Box::new(inner_typed)), typ }
            },
            Expr::Call(name, args, _) => {
                let args_typed = self.analyze_exprs(args, scope);
                let typ = self.call_type(name);
                TypedExpr { kind: TypedExprKind::Call(name.clone(), args_typed), typ }
            },
            Expr::MethodCall(base, method, args, _) => {
                let base_typed = self.analyze_expr(base, scope);
                let args_typed = self.analyze_exprs(args, scope);
                TypedExpr {
                    kind: TypedExprKind::MethodCall(Box::new(base_typed), method.clone(), args_typed),
                    typ: Type::Unknown,
                }
            },
            Expr::HasComponent(base, component, _) => {
                let base_typed = self.analyze_expr(base, scope);
                self.check_component(component);
                TypedExpr {
                    kind: TypedExprKind::HasComponent(Box::new(base_typed), component.clone()),
                    typ: Type::Boolean,
                }
            },
            Expr::Cast(inner, to_type, _) => {
                let inner_typed = self.analyze_expr(inner, scope);
                let target = Type::from_type_expr(to_type);
                let typ = target.duplicate();
                TypedExpr { kind: TypedExprKind::Cast(Box::new(inner_typed), target), typ }
            },
            Expr::List(elements, _) => {
                let elements_typed = self.analyze_exprs(elements, scope);
                let element = if elements_typed.len() > 0 {
                    elements_typed[0].typ.duplicate()
                } else {
                    Type::Unknown
                };
                assert(element@ == first_type(TypedExpr::views(elements_typed@)));
                TypedExpr { kind: TypedExprKind::List(elements_typed), typ: Type::List(Box::new(element)) }
            },
            Expr::Paren(inner, _) => self.analyze_expr(inner, scope),
            Expr::EntitiesHaving(component, _) => {
                self.check_component(component);
                TypedExpr {
                    kind: TypedExprKind::EntitiesHaving(component.clone()),
                    typ: Type::List(Box::new(Type::EntityId)),
                }
            },
            Expr::CloneEntity(source, overrides, _) => {
                let source_typed = self.analyze_expr(source, scope);
                let overrides_typed = self.analyze_component_inits(overrides, scope);
                TypedExpr {
                    kind: TypedExprKind::CloneEntity(Box::new(source_typed), overrides_typed),
                    typ: Type::EntityId,
                }
            },
        }
    }

    /// Types the expressions of a list, left to right.
    fn analyze_exprs(&mut self, es: &Vec<Expr>, scope: &Scope) -> (r: Vec<TypedExpr>)
        ensures
            final(self).symbols_view() == old(self).symbols_view(),
            (TypedExpr::views(r@), final(self).errors_view()) == spec_exprs(
                old(self).symbols_view(),
                scope@,
                Expr::views(es@),
                es@.len(),
                old(self).errors_view(),
            ),
        decreases es, 1nat,
    {
        let mut out: Vec<TypedExpr> = Vec::new();
        let mut i: usize = 0;
        assert(TypedExpr::views(out@) =~= Seq::empty());
        while i < es.len()
            invariant
                i <= es.len(),
                self.symbols_view() == old(self).symbols_view(),
                (TypedExpr::views(out@), self.errors_view()) == spec_exprs(
                    old(self).symbols_view(),
                    scope@,
                    Expr::views(es@),
                    i as nat,
                    old(self).errors_view(),
                ),
            decreases es.len() - i,
        {
            let typed = self.analyze_expr(&es[i], scope);
            out.push(typed);
            i = i + 1;
        }
        out
    }

    /// Types the named expressions of a list, in order.
    fn analyze_field_inits(&mut self, fields: &Vec<(String, Expr)>, scope: &Scope) -> (r: Vec<(String, TypedExpr)>)
        ensures
            final(self).symbols_view() == old(self).symbols_view(),
            (TypedExpr::named_views(r@), final(self).errors_view()) == spec_field_inits(
                old(self).symbols_view(),
                scope@,
                Expr::named_views(fields@),
                fields@.len(),
                old(self).errors_view(),
            ),
        decreases fields, 1nat,
    {
        let mut out: Vec<(String, TypedExpr)> = Vec::new();
        let mut i: usize = 0;
        assert(TypedExpr::named_views(out@) =~= Seq::empty());
        while i < fields.len()
            invariant
                i <= fields.len(),
                self.symbols_view() == old(self).symbols_view(),
                (TypedExpr::named_views(out@), self.errors_view()) == spec_field_inits(
                    old(self).symbols_view(),
                    scope@,
                    Expr::named_views(fields@),
                    i as nat,
                    old(self).errors_view(),
                ),
            decreases fields.len() - i,
        {
            let typed = self.analyze_expr(&fields[i].1, scope);
            out.push((fields[i].0.clone(), typed));
            i = i + 1;
        }
        out
    }

    /// Types a component initialiser.
    fn analyze_component_init(&mut self, init: &ComponentInit, scope: &Scope) -> (r: TypedComponentInit)
        ensures
            final(self).symbols_view() == old(self).symbols_view(),
            (r@, final(self).errors_view()) == spec_component_init(
                old(self).symbols_view(),
                scope@,
                init@,
                old(self).errors_view(),
            ),
        decreases init, 0nat,
    {
        self.check_component(&init.name);
        let fields = self.analyze_field_inits(&init.fields, scope);
        TypedComponentInit { name: init.name.clone(), fields }
    }

    /// Types the component initialisers of a list, in order.
    fn analyze_component_inits(&mut self, inits: &Vec<ComponentInit>, scope: &Scope) -> (r: Vec<
        TypedComponentInit,
    >)
        ensures
            final(self).symbols_view() == old(self).symbols_view(),
            (TypedComponentInit::views(r@), final(self).errors_view()) == spec_component_inits(
                old(self).symbols_view(),
                scope@,
                ComponentInit::views(inits@),
                inits@.len(),
                old(self).errors_view(),
            ),
        decreases inits, 1nat,
    {
        let mut out: Vec<TypedComponentInit> = Vec::new();
        let mut i: usize = 0;
        assert(TypedComponentInit::views(out@) =~= Seq::empty());
        while i < inits.len()
            invariant
                i <= inits.len(),
                self.symbols_view() == old(self).symbols_view(),
                (TypedComponentInit::views(out@), self.errors_view()) == spec_component_inits(
                    old(self).symbols_view(),
                    scope@,
                    ComponentInit::views(inits@),
                    i as nat,
                    old(self).errors_view(),
                ),
            decreases inits.len() - i,
        {
            let typed = self.analyze_component_init(&inits[i], scope);
            out.push(typed);
            i = i + 1;
        }
        out
    }
}

impl Analyzer {
    /// Types an optional expression.
    fn analyze_opt_expr(&mut self, e: &Option<Expr>, scope: &Scope) -> (r: Option<TypedExpr>)
        ensures
            final(self).symbols_view() == old(self).symbols_view(),
            (
                match r {
                    Some(x) => Some(x.spec_view()),
                    None => None,
                },
                final(self).errors_view(),
            ) == spec_opt_expr(
                old(self).symbols_view(),
                scope@,
                match *e {
                    Some(x) => Some(x.spec_view()),
                    None => None,
                },
                old(self).errors_view(),
            ),
    {
        match e {
            Some(x) => Some(self.analyze_expr(x, scope)),
            None => None,
        }
    }

    /// Types a statement. A `let` defines its variable in `scope`; nothing
    /// else changes it.
    pub fn analyze_statement(&mut self, stmt: &Statement, scope: &mut Scope) -> (r: TypedStatement)
        ensures
            final(self).symbols_view() == old(self).symbols_view(),
            (r@, final(scope)@, final(self).errors_view()) == spec_statement(
                old(self).symbols_view(),
                old(scope)@,
                stmt@,
                old(self).errors_view(),
            ),
        decreases stmt, 0nat,
    {
        match stmt {
            Statement::Let(let_stmt) => {
                let value = self.analyze_expr(&let_stmt.value, scope);
                let var_type = match &let_stmt.type_annotation {
                    Some(t) => Type::from_type_expr(t),
                    None => value.typ.duplicate(),
                };
                scope.define(let_stmt.name.clone(), var_type.duplicate());
                TypedStatement::Let { name: let_stmt.name.clone(), var_type, value }
            },
            Statement::Assignment(assign) => {
                let target = self.analyze_expr(&assign.target, scope);
                let value = self.analyze_expr(&assign.value, scope);
                TypedStatement::Assignment { target, op: assign.op, value }
            },
            Statement::If(if_stmt) => {
                let parts = self.analyze_if(if_stmt, scope);
                TypedStatement::If { condition: parts.0, then_block: parts.1, else_block: parts.2 }
            },
            Statement::For(for_stmt) => {
                let iterable = self.analyze_expr(&for_stmt.iterable, scope);
                let mut body_scope = Scope::with_parent(scope.duplicate());
                body_scope.define(for_stmt.variable.clone(), iterable.typ.element());
                let body = self.analyze_block(&for_stmt.body, body_scope);
                TypedStatement::For { variable: for_stmt.variable.clone(), iterable, body }
            },
            Statement::While(while_stmt) => {
                let condition = self.analyze_expr(&while_stmt.condition, scope);
                let body = self.analyze_block(&while_stmt.body, Scope::with_parent(scope.duplicate()));
                TypedStatement::While { condition, body }
            },
            Statement::Return(ret) => {
                let value = self.analyze_opt_expr(&ret.value, scope);
                TypedStatement::Return { value }
            },
            Statement::Schedule(sched) => {
                let delay = self.analyze_opt_expr(&sched.delay, scope);
                let interval = self.analyze_opt_expr(&sched.interval, scope);
                let fields = self.analyze_field_inits(&sched.fields, scope);
                TypedStatement::Schedule {
                    recurring: sched.recurring,
                    delay,
                    interval,
                    event_name: sched.event_name.clone(),
                    fields,
                }
            },
            Statement::Cancel(cancel) => {
                let target = self.analyze_expr(&cancel.target, scope);
                TypedStatement::Cancel { target }
            },
            Statement::Create(create) => {
                let components = self.analyze_component_inits(&create.components, scope);
                TypedStatement::Create { components }
            },
            Statement::Delete(delete) => {
                let entity = self.analyze_expr(&delete.entity, scope);
                TypedStatement::Delete { entity }
            },
            Statement::Expr(expr) => {
                let typed = self.analyze_expr(expr, scope);
                TypedStatement::Expr(typed)
            },
        }
    }

    /// Types a block, starting from `scope`. The block's own definitions are
    /// gone with `scope` when it ends.
    pub fn analyze_block(&mut self, block: &Block, scope: Scope) -> (r: TypedBlock)
        ensures
            final(self).symbols_view() == old(self).symbols_view(),
            (r@, final(self).errors_view()) == spec_block(
                old(self).symbols_view(),
                scope@,
                block@,
                old(self).errors_view(),
            ),
        decreases block, 0nat,
    {
        let mut scope = scope;
        let ghost scope0 = scope@;
        let mut out: Vec<TypedStatement> = Vec::new();
        let mut i: usize = 0;
        assert(TypedStatement::views(out@) =~= Seq::empty());
        while i < block.statements.len()
            invariant
                i <= block.statements.len(),
                decreases_to!(block => block.statements),
                self.symbols_view() == old(self).symbols_view(),
                (TypedStatement::views(out@), scope@, self.errors_view()) == spec_statements(
                    old(self).symbols_view(),
                    scope0,
                    Statement::views(block.statements@),
                    i as nat,
                    old(self).errors_view(),
                ),
            decreases block.statements.len() - i,
        {
            let typed = self.analyze_statement(&block.statements[i], &mut scope);
            out.push(typed);
            i = i + 1;
        }
        TypedBlock { statements: out }
    }

    /// Types the parts of an `if`: the condition in `scope`, each branch in a
    /// scope of its own.
    fn analyze_if(&mut self, if_stmt: &IfStatement, scope: &Scope) -> (r: (
        TypedExpr,
        TypedBlock,
        Option<TypedElseClause>,
    ))
        ensures
            final(self).symbols_view() == old(self).symbols_view(),
            (
                r.0@,
                r.1@,
                match r.2 {
                    Some(c) => Some(c.spec_view()),
                    None => None,
                },
                final(self).errors_view(),
            ) == spec_if(old(self).symbols_view(), scope@, if_stmt@, old(self).errors_view()),
        decreases if_stmt, 0nat,
    {
        let condition = self.analyze_expr(&if_stmt.condition, scope);
        let then_block = self.analyze_block(&if_stmt.then_block, Scope::with_parent(scope.duplicate()));
        let else_block = match &if_stmt.else_block {
            Some(clause) => Some(self.analyze_else_clause(clause, scope)),
            None => None,
        };
        (condition, then_block, else_block)
    }

    /// Types what follows an `else`.
    fn analyze_else_clause(&mut self, clause: &ElseClause, scope: &Scope) -> (r: TypedElseClause)
        ensures
            final(self).symbols_view() == old(self).symbols_view(),
            (r@, final(self).errors_view()) == spec_else(
                old(self).symbols_view(),
                scope@,
                clause@,
                old(self).errors_view(),
            ),
        decreases clause, 0nat,
    {
        match clause {
            ElseClause::ElseIf(if_stmt) => {
                let parts = self.analyze_if(if_stmt, scope);
                TypedElseClause::ElseIf {
                    condition: parts.0,
                    then_block: parts.1,
                    else_block: match parts.2 {
                        Some(c) => Some(Box::new(c)),
                        None => None,
                    },
                }
            },
            ElseClause::Else(block) => {
                let typed = self.analyze_block(block, Scope::with_parent(scope.duplicate()));
                TypedElseClause::Else(typed)
            },
        }
    }

    /// The typed form of a component declaration.
    pub fn analyze_component(&mut self, comp: &ComponentDef) -> (r: TypedComponent)
        ensures
            *final(self) == *old(self),
            r@ == spec_component(comp@),
    {
        let mut fields: Vec<TypedField> = Vec::new();
        let mut i: usize = 0;
        while i < comp.fields.len()
            invariant
                i <= comp.fields.len(),
                fields@.len() == i,
                forall|j: int|
                    0 <= j < i ==> (#[trigger] fields@[j]).spec_view() == spec_fields(
                        FieldDef::views(comp.fields@),
                    )[j],
            decreases comp.fields.len() - i,
        {
            let f = &comp.fields[i];
            fields.push(
                TypedField {
                    name: f.name.clone(),
                    field_type: Type::from_type_expr(&f.field_type),
                    optional: f.optional,
                },
            );
            i = i + 1;
        }
        assert(TypedField::views(fields@) =~= spec_fields(FieldDef::views(comp.fields@)));
        TypedComponent { name: comp.name.clone(), fields }
    }

    /// The typed form of a tracker; its component must be declared.
    pub fn analyze_tracker(&mut self, tracker: &TrackerDef) -> (r: TypedTracker)
        ensures
            final(self).symbols_view() == old(self).symbols_view(),
            (r@, final(self).errors_view()) == spec_tracker(
                old(self).symbols_view(),
                tracker@,
                old(self).errors_view(),
            ),
    {
        self.check_component(&tracker.component);
        TypedTracker { component: tracker.component.clone(), event: tracker.event.clone() }
    }

    /// The typed form of a rule. Its body sees `event` and `entity`.
    fn analyze_rule(&mut self, rule: &RuleDef) -> (r: TypedRule)
        ensures
            final(self).symbols_view() == old(self).symbols_view(),
            (r@, final(self).errors_view()) == spec_rule(old(self).symbols_view(), rule@, old(self).errors_view()),
    {
        let mut scope = Scope::new();
        scope.define(owned("event"), Type::EntityId);
        scope.define(owned("entity"), Type::EntityId);
        let condition = self.analyze_opt_expr(&rule.condition, &scope);
        let body = self.analyze_block(&rule.body, scope);
        TypedRule {
            name: clone_opt_string(&rule.name),
            trigger_event: rule.trigger_event.clone(),
            condition,
            priority: rule.priority,
            body,
        }
    }

    /// The typed form of a function. Its body sees the parameters.
    fn analyze_function(&mut self, func: &FunctionDef) -> (r: TypedFunction)
        ensures
            final(self).symbols_view() == old(self).symbols_view(),
            (r@, final(self).errors_view()) == spec_function(
                old(self).symbols_view(),
                func@,
                old(self).errors_view(),
            ),
    {
        let scope = scope_of_params(&func.params);
        let body = self.analyze_block(&func.body, scope);
        TypedFunction {
            name: func.name.clone(),
            params: typed_params(&func.params),
            return_type: Type::from_return_type(&func.return_type),
            body,
        }
    }

    /// The typed form of a choice function bound to an entity.
    fn analyze_bound_function(&mut self, func: &BoundFunctionDef) -> (r: TypedBoundFunction)
        ensures
            final(self).symbols_view() == old(self).symbols_view(),
            (r@, final(self).errors_view()) == spec_bound_function(
                old(self).symbols_view(),
                func@,
                old(self).errors_view(),
            ),
    {
        let scope = scope_of_params(&func.params);
        let body = self.analyze_block(&func.body, scope);
        TypedBoundFunction {
            name: func.name.clone(),
            params: typed_params(&func.params),
            return_type: Type::from_return_type(&func.return_type),
            body,
        }
    }

    /// The typed form of an entity of the initial state.
    fn analyze_entity(&mut self, entity: &EntityDef) -> (r: TypedEntity)
        ensures
            final(self).symbols_view() == old(self).symbols_view(),
            (r@, final(self).errors_view()) == spec_entity(
                old(self).symbols_view(),
                entity@,
                old(self).errors_view(),
            ),
    {
        let scope = Scope::new();
        let components = self.analyze_component_inits(&entity.components, &scope);
        let ghost errs1 = self.errors_view();
        let mut bound_functions: Vec<TypedBoundFunction> = Vec::new();
        let mut i: usize = 0;
        assert(TypedBoundFunction::views(bound_functions@) =~= Seq::empty());
        while i < entity.bound_functions.len()
            invariant
                i <= entity.bound_functions.len(),
                self.symbols_view() == old(self).symbols_view(),
                (TypedBoundFunction::views(bound_functions@), self.errors_view()) == spec_bound_functions(
                    old(self).symbols_view(),
                    BoundFunctionDef::views(entity.bound_functions@),
                    i as nat,
                    errs1,
                ),
            decreases entity.bound_functions.len() - i,
        {
            let typed = self.analyze_bound_function(&entity.bound_functions[i]);
            bound_functions.push(typed);
            i = i + 1;
        }
        TypedEntity { variable: clone_opt_string(&entity.variable), components, bound_functions }
    }

    /// The typed form of an item; imports and nested modules have none.
    fn analyze_item(&mut self, item: &Item) -> (r: Option<TypedItem>)
        ensures
            final(self).symbols_view() == old(self).symbols_view(),
            (
                match r {
                    Some(x) => Some(x.spec_view()),
                    None => None,
                },
                final(self).errors_view(),
            ) == spec_item(old(self).symbols_view(), item@, old(self).errors_view()),
    {
        match item {
            Item::Component(comp) => Some(TypedItem::Component(self.analyze_component(comp))),
            Item::Rule(rule) => Some(TypedItem::Rule(self.analyze_rule(rule))),
            Item::Function(func) => Some(TypedItem::Function(self.analyze_function(func))),
            Item::Tracker(tracker) => Some(TypedItem::Tracker(self.analyze_tracker(tracker))),
            Item::Entity(entity) => Some(TypedItem::Entity(self.analyze_entity(entity))),
            Item::Import(_) => None,
            Item::ModuleDef(_) => None,
        }
    }

    /// The typed forms of the items, in source order.
    fn analyze_items(&mut self, items: &Vec<Item>) -> (r: Vec<TypedItem>)
        ensures
            final(self).symbols_view() == old(self).symbols_view(),
            (TypedItem::views(r@), final(self).errors_view()) == spec_items(
                old(self).symbols_view(),
                Item::views(items@),
                items@.len(),
                old(self).errors_view(),
            ),
    {
        let mut out: Vec<TypedItem> = Vec::new();
        let mut i: usize = 0;
        assert(TypedItem::views(out@) =~= Seq::empty());
        while i < items.len()
            invariant
                i <= items.len(),
                self.symbols_view() == old(self).symbols_view(),
                (TypedItem::views(out@), self.errors_view()) == spec_items(
                    old(self).symbols_view(),
                    Item::views(items@),
                    i as nat,
                    old(self).errors_view(),
                ),
            decreases items.len() - i,
        {
            match self.analyze_item(&items[i]) {
                Some(typed) => {
                    out.push(typed);
                },
                None => {},
            }
            i = i + 1;
        }
        out
    }

    /// Registers what the items define. Nothing is checked yet, so an item
    /// may refer to a definition that comes after it.
    fn collect_definitions(&mut self, module: &Module)
        ensures
            final(self).symbols_view() == collect(
                old(self).symbols_view(),
                Item::views(module.items@),
                module.items@.len(),
            ),
            final(self).errors_view() == old(self).errors_view(),
    {
        let mut i: usize = 0;
        while i < module.items.len()
            invariant
                i <= module.items.len(),
                self.symbols_view() == collect(old(self).symbols_view(), Item::views(module.items@), i as nat),
                self.errors_view() == old(self).errors_view(),
            decreases module.items.len() - i,
        {
            match &module.items[i] {
                Item::Component(comp) => {
                    self.symbols.add_component(comp.name.clone(), fields_of(&comp.fields));
                },
                Item::Function(func) => {
                    self.symbols.add_function(
                        func.name.clone(),
                        signature_of(&func.params),
                        Type::from_return_type(&func.return_type),
                    );
                },
                Item::Tracker(tracker) => {
                    self.symbols.add_tracker(tracker.component.clone(), tracker.event.clone());
                },
                _ => {},
            }
            i = i + 1;
        }
    }

    /// Analyzes a module: collects every definition, then types every item.
    /// The typed module comes back exactly when no error was found;
    /// otherwise all the errors of the walk come back, in source order.
    pub fn analyze(self, module: &Module) -> (r: Result<TypedModule, Vec<SemanticError>>)
        ensures
            ({
                let want = spec_analyze_with(self.symbols_view(), self.errors_view(), module@);
                match r {
                    Ok(typed) => want.1.len() == 0 && typed@ == want.0,
                    Err(errors) => want.1.len() > 0 && SemanticError::views(errors@) == want.1,
                }
            }),
    {
        let mut this = self;
        this.collect_definitions(module);
        let items = this.analyze_items(&module.items);
        if this.errors.len() == 0 {
            Ok(TypedModule { items, symbols: this.symbols })
        } else {
            Err(this.errors)
        }
    }
}

/// The scope in which a body sees its parameters.
fn scope_of_params(params: &Vec<ParamDef>) -> (scope: Scope)
    ensures
        scope@ == param_scope(ParamDef::views(params@), params@.len()),
{
    let mut scope = Scope::new();
    let mut i: usize = 0;
    while i < params.len()
        invariant
            i <= params.len(),
            scope@ == param_scope(ParamDef::views(params@), i as nat),
        decreases params.len() - i,
    {
        scope.define(params[i].name.clone(), Type::from_type_expr(&params[i].param_type));
        i = i + 1;
    }
    scope
}

/// The typed forms of a parameter list.
fn typed_params(params: &Vec<ParamDef>) -> (r: Vec<TypedParam>)
    ensures
        TypedParam::views(r@) == spec_params(ParamDef::views(params@)),
{
    let mut out: Vec<TypedParam> = Vec::new();
    let mut i: usize = 0;
    while i < params.len()
        invariant
            i <= params.len(),
            out@.len() == i,
            forall|j: int|
                0 <= j < i ==> (#[trigger] out@[j]).spec_view() == spec_params(ParamDef::views(params@))[j],
        decreases params.len() - i,
    {
        out.push(
            TypedParam { name: params[i].name.clone(), param_type: Type::from_type_expr(&params[i].param_type) },
        );
        i = i + 1;
    }
    assert(TypedParam::views(out@) =~= spec_params(ParamDef::views(params@)));
    out
}

/// A parameter list as (name, type) pairs.
fn signature_of(params: &Vec<ParamDef>) -> (r: Vec<(String, Type)>)
    ensures
        Type::named_views(r@) == param_signature(ParamDef::views(params@)),
{
    let mut out: Vec<(String, Type)> = Vec::new();
    let mut i: usize = 0;
    while i < params.len()
        invariant
            i <= params.len(),
            out@.len() == i,
            forall|j: int|
                0 <= j < i ==> ((#[trigger] out@[j]).0@, out@[j].1.spec_view()) == param_signature(
                    ParamDef::views(params@),
                )[j],
        decreases params.len() - i,
    {
        out.push((params[i].name.clone(), Type::from_type_expr(&params[i].param_type)));
        i = i + 1;
    }
    assert(Type::named_views(out@) =~= param_signature(ParamDef::views(params@)));
    out
}

/// A component's fields as (name, type) pairs.
fn fields_of(fields: &Vec<FieldDef>) -> (r: Vec<(String, Type)>)
    ensures
        Type::named_views(r@) == field_signature(FieldDef::views(fields@)),
{
    let mut out: Vec<(String, Type)> = Vec::new();
    let mut i: usize = 0;
    while i < fields.len()
        invariant
            i <= fields.len(),
            out@.len() == i,
            forall|j: int|
                0 <= j < i ==> ((#[trigger] out@[j]).0@, out@[j].1.spec_view()) == field_signature(
                    FieldDef::views(fields@),
                )[j],
        decreases fields.len() - i,
    {
        out.push((fields[i].name.clone(), Type::from_type_expr(&fields[i].field_type)));
        i = i + 1;
    }
    assert(Type::named_views(out@) =~= field_signature(FieldDef::views(fields@)));
    out
}

/// The type of `field` in a component's field list; `Unknown` if absent.
fn lookup_field(fields: &Vec<(String, Type)>, field: &String) -> (t: Type)
    ensures
        t@ == (if assoc_map_of(Type::named_views(fields@)).contains_key(field@) {
            assoc_map_of(Type::named_views(fields@))[field@]
        } else {
            TypeView::Unknown
        }),
{
    let ghost entries = Type::named_views(fields@);
    let mut i: usize = fields.len();
    while i > 0
        invariant
            i <= fields.len(),
            entries == Type::named_views(fields@),
            assoc_map_of(entries).contains_key(field@)
                == assoc_map(entries, i as nat).contains_key(field@),
            assoc_map(entries, i as nat).contains_key(field@)
                ==> assoc_map_of(entries)[field@] == assoc_map(
                entries,
                i as nat,
            )[field@],
        decreases i,
    {
        i = i - 1;
        if fields[i].0 == *field {
            return fields[i].1.duplicate();
        }
    }
    Type::Unknown
}

/// One parameter of type `Float`.
fn float_params1(a: &str) -> (r: Vec<(String, Type)>)
    ensures
        Type::named_views(r@) == seq![float_param(a@)],
{
    let mut r: Vec<(String, Type)> = Vec::new();
    r.push((owned(a), Type::Float));
    assert(Type::named_views(r@) =~= seq![float_param(a@)]);
    r
}

/// Two parameters of type `Float`.
fn float_params2(a: &str, b: &str) -> (r: Vec<(String, Type)>)
    ensures
        Type::named_views(r@) == seq![float_param(a@), float_param(b@)],
{
    let mut r: Vec<(String, Type)> = Vec::new();
    r.push((owned(a), Type::Float));
    r.push((owned(b), Type::Float));
    assert(Type::named_views(r@) =~= seq![
        float_param(a@),
        float_param(b@),
    ]);
    r
}

/// The messages of the errors, one per line.
pub fn join_messages(errors: &Vec<SemanticError>) -> (text: String)
    ensures
        text@ == joined_messages(SemanticError::views(errors@), errors@.len()),
{
    let mut out: Vec<char> = Vec::new();
    let mut i: usize = 0;
    while i < errors.len()
        invariant
            i <= errors.len(),
            out@ == joined_messages(SemanticError::views(errors@), i as nat),
        decreases errors.len() - i,
    {
        if i > 0 {
            push_str(&mut out, "\n");
        }
        let message = errors[i].message();
        push_str(&mut out, message.as_str());
        assert(out@ =~= joined_messages(SemanticError::views(errors@), (i + 1) as nat));
        i = i + 1;
    }
    string_from_chars(&out)
}

/// Analyzes a module with a fresh analyzer. The typed module comes back
/// exactly when analysis finds no error; otherwise the messages of all the
/// errors come back, one per line, in the order they were found.
pub fn analyze(module: Module) -> (r: Result<TypedModule, String>)
    ensures
        match r {
            Ok(typed) => spec_analyze(module@).1.len() == 0 && typed@ == spec_analyze(module@).0,
            Err(text) => spec_analyze(module@).1.len() > 0 && text@ == joined_messages(
                spec_analyze(module@).1,
                spec_analyze(module@).1.len(),
            ),
        },
{
    let analyzer = Analyzer::new();
    assert(analyzer.errors_view() =~= Seq::empty());
    match analyzer.analyze(&module) {
        Ok(typed) => Ok(typed),
        Err(errors) => Err(join_messages(&errors)),
    }
}

} // verus!
