//! The generator: typed trees to the intermediate representation.

use vstd::prelude::*;
use indexmap::IndexMap;
use crate::analyzer::typed::{
    TypedBlock, TypedBoundFunction, TypedComponent, TypedComponentInit, TypedElseClause, TypedEntity,
    TypedExpr, TypedExprKind, TypedField, TypedFunction, TypedItem, TypedModule, TypedModuleView, TypedParam,
    TypedRule, TypedStatement, TypedTracker,
};
use crate::analyzer::types::Type;
use crate::ir::lowering::{
    assign_op_name, binary_op_name, compiler_version, extra_files, ir_action, ir_actions, ir_block,
    ir_bound_function, ir_bound_functions, ir_component, ir_component_init, ir_component_inits, ir_else,
    ir_entity, ir_entity_components, ir_expr, ir_expr_kind, ir_exprs, entity_non_literal_fields, ir_field,
    ir_field_access, ir_field_value, module_non_literal_fields, non_literal_fields, ir_field_values,
    ir_fields, ir_function, ir_function_body, ir_literal, ir_module, ir_named_exprs, ir_opt_expr, ir_params,
    ir_rule, ir_tracker, ir_type, is_decimal_text, is_decimal_with_point, language_of, lower_item,
    lower_items, lowered_start, modify_target, first_return, lemma_lower_items_none, source_files,
    source_map, unary_op_name, Counters, Lowered,
};
use crate::ir::maps::{
    bound_function_entries, bound_function_map_insert, bound_function_map_new, component_entries,
    component_map_insert, component_map_new, expression_entries, expression_map_insert, expression_map_new,
    value_entries, value_map_insert, value_map_new,
};
use crate::ir::model::{
    group_ir_views, IRAction, IRBoundFunction, IRComponent, IRComponentInit, IREntity, IRError, IRErrorView,
    IRExpression, IRField, IRFunction, IRInitialState, IRMetadata, IRModule, IRModuleView, IRNumber, IRParam,
    IRRule, IRTracker, IRTrigger, IRType, IRValue, SourceFile, SourceMap, SourceMapView,
};
use crate::ir::timestamp::{generate_timestamp, is_timestamp};
use crate::options::CompilerOptions;
use crate::parser::ast::{AssignOp, BinaryOp, Literal, UnaryOp};
use crate::text::{chars_of, clone_opt_string, concat2, has_suffix, is_digit, is_digit_char, owned};

verus! {

broadcast use group_ir_views;

/// The text of additional source files: (path, content, language).
pub open spec fn triples_view(s: Seq<(String, String, String)>) -> Seq<(Seq<char>, Seq<char>, Seq<char>)> {
    Seq::new(s.len(), |i: int| (s[i].0@, s[i].1@, s[i].2@))
}

/// The text of an optional string slice.
pub open spec fn opt_str_view(s: Option<&str>) -> Option<Seq<char>> {
    match s {
        Some(x) => Some(x@),
        None => None,
    }
}

/// What the one generation error says.
pub open spec fn out_of_ids_message() -> Seq<char> {
    "no id left for a definition"@
}

/// The text shown for a generation error.
pub open spec fn ir_error_message(e: IRErrorView) -> Seq<char> {
    match e {
        IRErrorView::GenerationError(text) => "IR generation error: "@ + text,
    }
}

impl IRError {
    /// The text shown for this error.
    pub fn message(&self) -> (text: String)
        ensures
            text@ == ir_error_message(self@),
    {
        match self {
            IRError::GenerationError(text) => concat2("IR generation error: ", text.as_str()),
        }
    }
}

/// Whether the text reads `digits.digits`.
pub fn decimal_text_ok(text: &String) -> (r: bool)
    ensures
        r == is_decimal_text(text@),
{
    let chars = chars_of(text.as_str());
    let mut p: usize = 0;
    while p < chars.len() && is_digit_char(chars[p])
        invariant
            p <= chars.len(),
            chars@ == text@,
            forall|i: int| 0 <= i < p ==> is_digit(#[trigger] chars@[i]),
        decreases chars.len() - p,
    {
        p = p + 1;
    }
    if p == 0 || p >= chars.len() || chars[p] != '.' || p + 1 >= chars.len() {
        assert(!is_decimal_text(text@)) by {
            if is_decimal_text(text@) {
                let q = choose|q: int| is_decimal_with_point(text@, q);
                if q < p {
                    assert(is_digit(text@[q]));
                } else if q > p {
                    assert(is_digit(text@[p as int]));
                }
            }
        }
        return false;
    }
    let mut i: usize = p + 1;
    while i < chars.len()
        invariant
            p < i <= chars.len(),
            0 < p < chars.len() - 1,
            chars@ == text@,
            chars@[p as int] == '.',
            forall|j: int| 0 <= j < i && j != p ==> is_digit(#[trigger] chars@[j]),
        decreases chars.len() - i,
    {
        if !is_digit_char(chars[i]) {
            assert(!is_decimal_text(text@)) by {
                if is_decimal_text(text@) {
                    let q = choose|q: int| is_decimal_with_point(text@, q);
                    if q != i {
                        assert(is_digit(text@[i as int]));
                    } else {
                        assert(is_digit(text@[p as int]));
                    }
                }
            }
            return false;
        }
        i = i + 1;
    }
    assert(is_decimal_with_point(text@, p as int));
    true
}

/// The dialect that a path's extension names.
pub fn language_for(path: &str) -> (language: String)
    ensures
        language@ == language_of(path@),
{
    let chars = chars_of(path);
    if has_suffix(&chars, ".bcl") {
        owned("bcl")
    } else if has_suffix(&chars, ".bdl") {
        owned("bdl")
    } else {
        owned("brl")
    }
}

/// The version of the compiler, as stamped into every module.
pub fn version() -> (v: String)
    ensures
        v@ == compiler_version(),
{
    owned("0.1.0")
}

/// The state of one generation: the next id of each kind of definition.
/// Ids are handed out in source order and never reused.
#[derive(Debug)]
pub struct IRGenerator {
    pub component_id_counter: u32,
    pub rule_id_counter: u32,
    pub function_id_counter: u32,
    pub tracker_id_counter: u32,
    pub entity_id_counter: u32,
}

impl IRGenerator {
    /// The next id of each kind.
    pub open spec fn counters(self) -> Counters {
        Counters {
            component: self.component_id_counter,
            rule: self.rule_id_counter,
            function: self.function_id_counter,
            tracker: self.tracker_id_counter,
            entity: self.entity_id_counter,
        }
    }

    /// A generator whose ids all start at 0.
    pub fn new() -> (g: Self)
        ensures
            g.counters() == (Counters { component: 0, rule: 0, function: 0, tracker: 0, entity: 0 }),
    {
        Self {
            component_id_counter: 0,
            rule_id_counter: 0,
            function_id_counter: 0,
            tracker_id_counter: 0,
            entity_id_counter: 0,
        }
    }

    pub fn next_component_id(&mut self) -> (id: u32)
        requires
            old(self).component_id_counter < u32::MAX,
        ensures
            id == old(self).component_id_counter,
            final(self).counters() == (Counters { component: (id + 1) as u32, ..old(self).counters() }),
    {
        let id = self.component_id_counter;
        self.component_id_counter = self.component_id_counter + 1;
        id
    }

    pub fn next_rule_id(&mut self) -> (id: u32)
        requires
            old(self).rule_id_counter < u32::MAX,
        ensures
            id == old(self).rule_id_counter,
            final(self).counters() == (Counters { rule: (id + 1) as u32, ..old(self).counters() }),
    {
        let id = self.rule_id_counter;
        self.rule_id_counter = self.rule_id_counter + 1;
        id
    }

    pub fn next_function_id(&mut self) -> (id: u32)
        requires
            old(self).function_id_counter < u32::MAX,
        ensures
            id == old(self).function_id_counter,
            final(self).counters() == (Counters { function: (id + 1) as u32, ..old(self).counters() }),
    {
        let id = self.function_id_counter;
        self.function_id_counter = self.function_id_counter + 1;
        id
    }

    pub fn next_tracker_id(&mut self) -> (id: u32)
        requires
            old(self).tracker_id_counter < u32::MAX,
        ensures
            id == old(self).tracker_id_counter,
            final(self).counters() == (Counters { tracker: (id + 1) as u32, ..old(self).counters() }),
    {
        let id = self.tracker_id_counter;
        self.tracker_id_counter = self.tracker_id_counter + 1;
        id
    }

    pub fn next_entity_id(&mut self) -> (id: u32)
        requires
            old(self).entity_id_counter < u32::MAX,
        ensures
            id == old(self).entity_id_counter,
            final(self).counters() == (Counters { entity: (id + 1) as u32, ..old(self).counters() }),
    {
        let id = self.entity_id_counter;
        self.entity_id_counter = self.entity_id_counter + 1;
        id
    }

    /// The wire type of a type.
    pub fn convert_type(&self, typ: &Type) -> (r: IRType)
        ensures
            r == ir_type(typ@),
        decreases typ,
    {
        match typ {
            Type::String => IRType::String,
            Type::Boolean => IRType::Boolean,
            Type::Integer => IRType::Number,
            Type::Float => IRType::Number,
            Type::Decimal => IRType::Number,
            Type::EntityId => IRType::Entity,
            Type::Component(_) => IRType::Entity,
            Type::Composite(_) => IRType::Entity,
            Type::List(inner) => IRType::List { element: Box::new(self.convert_type(inner)) },
            Type::Optional(inner) => self.convert_type(inner),
            Type::Void => IRType::Number,
            Type::Unknown => IRType::Number,
        }
    }

    /// The wire name of an assignment operator.
    pub fn convert_assign_op(&self, op: &AssignOp) -> (r: String)
        ensures
            r@ == assign_op_name(*op),
    {
        match op {
            AssignOp::Assign => owned("set"),
            AssignOp::AddAssign => owned("add"),
            AssignOp::SubAssign => owned("subtract"),
            AssignOp::MulAssign => owned("multiply"),
            AssignOp::DivAssign => owned("divide"),
        }
    }

    /// The wire name of a binary operator.
    pub fn convert_binary_op(&self, op: &BinaryOp) -> (r: String)
        ensures
            r@ == binary_op_name(*op),
    {
        match op {
            BinaryOp::Add => owned("add"),
            BinaryOp::Sub => owned("subtract"),
            BinaryOp::Mul => owned("multiply"),
            BinaryOp::Div => owned("divide"),
            BinaryOp::Mod => owned("modulo"),
            BinaryOp::Eq => owned("eq"),
            BinaryOp::NotEq => owned("neq"),
            BinaryOp::Lt => owned("lt"),
            BinaryOp::LtEq => owned("lte"),
            BinaryOp::Gt => owned("gt"),
            BinaryOp::GtEq => owned("gte"),
            BinaryOp::And => owned("and"),
            BinaryOp::Or => owned("or"),
        }
    }

    /// The wire name of a unary operator.
    pub fn convert_unary_op(&self, op: &UnaryOp) -> (r: String)
        ensures
            r@ == unary_op_name(*op),
    {
        match op {
            UnaryOp::Neg => owned("negate"),
            UnaryOp::Not => owned("not"),
        }
    }

    /// The value of a literal.
    pub fn convert_literal(&self, lit: &Literal) -> (r: IRValue)
        ensures
            r@ == ir_literal(lit@),
    {
        match lit {
            Literal::String(s) => IRValue::String(s.clone()),
            Literal::Integer(n) => IRValue::Number(IRNumber::Integer(*n)),
            Literal::Float(s) => if decimal_text_ok(s) {
                IRValue::Number(IRNumber::Decimal(s.clone()))
            } else {
                IRValue::Null
            },
            Literal::Decimal(s) => if decimal_text_ok(s) {
                IRValue::Number(IRNumber::Decimal(s.clone()))
            } else {
                IRValue::Null
            },
            Literal::Boolean(b) => IRValue::Boolean(*b),
            Literal::Null => IRValue::Null,
        }
    }

    /// The lowered form of an expression.
    pub fn generate_expression(&self, expr: &TypedExpr) -> (r: IRExpression)
        ensures
            r@ == ir_expr(expr@),
        decreases expr, 0nat,
    {
        self.generate_expression_from_kind(&expr.kind)
    }

    /// The lowered form of an expression, from its shape alone.
    pub fn generate_expression_from_kind(&self, kind: &TypedExprKind) -> (r: IRExpression)
        ensures
            r@ == ir_expr_kind(kind@),
        decreases kind, 0nat,
    {
        match kind {
            TypedExprKind::Literal(lit) => IRExpression::Literal { value: self.convert_literal(lit) },
            TypedExprKind::Identifier(name) => IRExpression::Var { name: name.clone() },
            TypedExprKind::EntityRef(name) => IRExpression::Var { name: concat2("@", name.as_str()) },
            TypedExprKind::FieldAccess(base, field) => self.generate_field_access(&base.kind, field),
            TypedExprKind::Binary(left, op, right) => IRExpression::Binary {
                op: self.convert_binary_op(op),
                left: Box::new(self.generate_expression(left)),
                right: Box::new(self.generate_expression(right)),
            },
            TypedExprKind::Unary(op, inner) => IRExpression::Unary {
                op: self.convert_unary_op(op),
                expr: Box::new(self.generate_expression(inner)),
            },
            TypedExprKind::Call(name, args) => IRExpression::Call {
                function: name.clone(),
                args: self.generate_expressions(args),
            },
            TypedExprKind::IndexAccess(base, index) => {
                let mut args: Vec<IRExpression> = Vec::new();
                args.push(self.generate_expression(base));
                args.push(self.generate_expression(index));
                assert(IRExpression::views(args@) =~= seq![ir_expr_kind(base@.kind), ir_expr_kind(index@.kind)]);
                IRExpression::Call { function: owned("get"), args }
            },
            TypedExprKind::List(elements) => IRExpression::Call {
                function: owned("list"),
                args: self.generate_expressions(elements),
            },
            _ => IRExpression::Literal { value: IRValue::Null },
        }
    }

    /// The lowered form of `base.field`.
    fn generate_field_access(&self, base: &TypedExprKind, field: &String) -> (r: IRExpression)
        ensures
            r@ == ir_field_access(base@, field@),
    {
        proof {
            reveal_with_fuel(TypedExprKind::spec_view, 2);
        }
        match base {
            TypedExprKind::FieldAccess(entity_expr, component) => match &entity_expr.kind {
                TypedExprKind::Identifier(entity) => IRExpression::Field {
                    entity: entity.clone(),
                    component: component.clone(),
                    field: field.clone(),
                },
                _ => IRExpression::Var { name: field.clone() },
            },
            _ => IRExpression::Var { name: field.clone() },
        }
    }

    /// The lowered forms of a list of expressions.
    fn generate_expressions(&self, es: &Vec<TypedExpr>) -> (r: Vec<IRExpression>)
        ensures
            IRExpression::views(r@) == ir_exprs(TypedExpr::views(es@)),
        decreases es, 1nat,
    {
        let mut out: Vec<IRExpression> = Vec::new();
        let mut i: usize = 0;
        while i < es.len()
            invariant
                i <= es.len(),
                out@.len() == i,
                forall|j: int| 0 <= j < i ==> (#[trigger] out@[j]).spec_view() == ir_expr_kind(es@[j].spec_view().kind),
            decreases es.len() - i,
        {
            let e = self.generate_expression(&es[i]);
            out.push(e);
            i = i + 1;
        }
        assert(IRExpression::views(out@) =~= ir_exprs(TypedExpr::views(es@)));
        out
    }

    /// The lowered form of an optional expression.
    fn generate_opt_expression(&self, e: &Option<TypedExpr>) -> (r: Option<IRExpression>)
        ensures
            (match r {
                Some(x) => Some(x.spec_view()),
                None => None,
            }) == ir_opt_expr(
                match *e {
                    Some(x) => Some(x.spec_view()),
                    None => None,
                },
            ),
    {
        match e {
            Some(x) => Some(self.generate_expression(x)),
            None => None,
        }
    }

    /// The map of a list of named expressions.
    fn generate_named_expressions(&self, fields: &Vec<(String, TypedExpr)>) -> (r: IndexMap<String, IRExpression>)
        ensures
            expression_entries(r) == ir_named_exprs(TypedExpr::named_views(fields@), fields@.len()),
    {
        let mut map = expression_map_new();
        let mut i: usize = 0;
        while i < fields.len()
            invariant
                i <= fields.len(),
                expression_entries(map) == ir_named_exprs(TypedExpr::named_views(fields@), i as nat),
            decreases fields.len() - i,
        {
            let value = self.generate_expression(&fields[i].1);
            expression_map_insert(&mut map, fields[i].0.clone(), value);
            i = i + 1;
        }
        map
    }

    /// The lowered form of a component initialiser.
    pub fn generate_component_init(&self, init: &TypedComponentInit) -> (r: IRComponentInit)
        ensures
            r@ == ir_component_init(init@),
    {
        IRComponentInit { name: init.name.clone(), fields: self.generate_named_expressions(&init.fields) }
    }

    /// The entity and the component that an assignment to `expr.field`
    /// modifies.
    pub fn extract_entity_component(&self, expr: &TypedExpr) -> (r: (IRExpression, String))
        ensures
            (r.0@, r.1@) == modify_target(expr@),
    {
        match &expr.kind {
            TypedExprKind::FieldAccess(base, component) => (self.generate_expression(base), component.clone()),
            _ => (self.generate_expression(expr), owned("Unknown")),
        }
    }

    /// The action a statement lowers to, if it has one.
    pub fn generate_statement_action(&self, stmt: &TypedStatement) -> (r: Option<IRAction>)
        ensures
            (match r {
                Some(a) => Some(a.spec_view()),
                None => None,
            }) == ir_action(stmt@),
        decreases stmt, 0nat,
    {
        match stmt {
            TypedStatement::Assignment { target, op, value } => {
                match &target.kind {
                    TypedExprKind::FieldAccess(base, field) => {
                        let parts = self.extract_entity_component(base);
                        Some(
                            IRAction::Modify {
                                entity: parts.0,
                                component: parts.1,
                                field: field.clone(),
                                op: self.convert_assign_op(op),
                                value: self.generate_expression(value),
                            },
                        )
                    },
                    _ => None,
                }
            },
            TypedStatement::If { condition, then_block, else_block } => {
                let then_actions = self.generate_block_actions(then_block);
                let else_actions = match else_block {
                    Some(clause) => Some(self.generate_else_clause_actions(clause)),
                    None => None,
                };
                Some(
                    IRAction::Conditional { condition: self.generate_expression(condition), then_actions, else_actions },
                )
            },
            TypedStatement::For { variable, iterable, body } => {
                let body_actions = self.generate_block_actions(body);
                Some(
                    IRAction::Loop {
                        variable: variable.clone(),
                        iterable: self.generate_expression(iterable),
                        body: body_actions,
                    },
                )
            },
            TypedStatement::Schedule { recurring, delay, interval, event_name, fields } => {
                let field_map = if fields.len() == 0 {
                    None
                } else {
                    Some(self.generate_named_expressions(fields))
                };
                Some(
                    IRAction::Schedule {
                        event: event_name.clone(),
                        source: None,
                        delay: self.generate_opt_expression(delay),
                        fields: field_map,
                    },
                )
            },
            TypedStatement::Create { components } => {
                let mut out: Vec<IRComponentInit> = Vec::new();
                let mut i: usize = 0;
                while i < components.len()
                    invariant
                        i <= components.len(),
                        out@.len() == i,
                        forall|j: int|
                            0 <= j < i ==> (#[trigger] out@[j]).spec_view() == ir_component_init(
                                components@[j].spec_view(),
                            ),
                    decreases components.len() - i,
                {
                    out.push(self.generate_component_init(&components[i]));
                    i = i + 1;
                }
                assert(IRComponentInit::views(out@) =~= ir_component_inits(TypedComponentInit::views(components@)));
                Some(IRAction::Spawn { components: out })
            },
            TypedStatement::Delete { entity } => Some(IRAction::Despawn { entity: self.generate_expression(entity) }),
            _ => None,
        }
    }

    /// The actions of a block, in order.
    pub fn generate_block_actions(&self, block: &TypedBlock) -> (r: Vec<IRAction>)
        ensures
            IRAction::views(r@) == ir_block(block@),
        decreases block, 0nat,
    {
        let mut actions: Vec<IRAction> = Vec::new();
        let mut i: usize = 0;
        assert(IRAction::views(actions@) =~= Seq::empty());
        while i < block.statements.len()
            invariant
                i <= block.statements.len(),
                decreases_to!(block => block.statements),
                IRAction::views(actions@) == ir_actions(TypedStatement::views(block.statements@), i as nat),
            decreases block.statements.len() - i,
        {
            match self.generate_statement_action(&block.statements[i]) {
                Some(action) => {
                    actions.push(action);
                },
                None => {},
            }
            i = i + 1;
        }
        actions
    }

    /// The actions of an else-clause.
    pub fn generate_else_clause_actions(&self, clause: &TypedElseClause) -> (r: Vec<IRAction>)
        ensures
            IRAction::views(r@) == ir_else(clause@),
        decreases clause, 0nat,
    {
        match clause {
            TypedElseClause::ElseIf { condition, then_block, else_block } => {
                let then_actions = self.generate_block_actions(then_block);
                let else_actions = match else_block {
                    Some(c) => Some(self.generate_else_clause_actions(c)),
                    None => None,
                };
                let mut out: Vec<IRAction> = Vec::new();
                out.push(
                    IRAction::Conditional { condition: self.generate_expression(condition), then_actions, else_actions },
                );
                assert(IRAction::views(out@) =~= ir_else(clause@));
                out
            },
            TypedElseClause::Else(block) => self.generate_block_actions(block),
        }
    }

    /// The body of a function: the value of its first top-level `return`.
    pub fn generate_function_body(&self, block: &TypedBlock) -> (r: IRExpression)
        ensures
            r@ == ir_function_body(block@),
    {
        let ghost ss = TypedStatement::views(block.statements@);
        let mut i: usize = 0;
        while i < block.statements.len()
            invariant
                i <= block.statements.len(),
                ss == TypedStatement::views(block.statements@),
                first_return(ss, 0) == first_return(ss, i as nat),
            decreases block.statements.len() - i,
        {
            match &block.statements[i] {
                TypedStatement::Return { value } => match value {
                    Some(expr) => {
                        return self.generate_expression(expr);
                    },
                    None => {},
                },
                _ => {},
            }
            i = i + 1;
        }
        IRExpression::Literal { value: IRValue::Number(IRNumber::Integer(0)) }
    }

    /// The lowered form of a parameter list.
    fn generate_params(&self, params: &Vec<TypedParam>) -> (r: Vec<IRParam>)
        ensures
            IRParam::views(r@) == ir_params(TypedParam::views(params@)),
    {
        let mut out: Vec<IRParam> = Vec::new();
        let mut i: usize = 0;
        while i < params.len()
            invariant
                i <= params.len(),
                out@.len() == i,
                forall|j: int|
                    0 <= j < i ==> (#[trigger] out@[j]).spec_view() == ir_params(TypedParam::views(params@))[j],
            decreases params.len() - i,
        {
            out.push(IRParam { name: params[i].name.clone(), param_type: self.convert_type(&params[i].param_type) });
            i = i + 1;
        }
        assert(IRParam::views(out@) =~= ir_params(TypedParam::views(params@)));
        out
    }

    /// The lowered form of a component field.
    pub fn generate_field(&self, field: &TypedField) -> (r: IRField)
        ensures
            r@ == ir_field(field@),
    {
        IRField { name: field.name.clone(), field_type: self.convert_type(&field.field_type), default: None }
    }

    /// The component, under the next component id.
    pub fn generate_component(&mut self, comp: &TypedComponent) -> (r: IRComponent)
        requires
            old(self).component_id_counter < u32::MAX,
        ensures
            r@ == ir_component(comp@, old(self).component_id_counter),
            final(self).counters() == (Counters {
                component: (old(self).component_id_counter + 1) as u32,
                ..old(self).counters()
            }),
    {
        let id = self.next_component_id();
        let mut fields: Vec<IRField> = Vec::new();
        let mut i: usize = 0;
        while i < comp.fields.len()
            invariant
                i <= comp.fields.len(),
                fields@.len() == i,
                forall|j: int|
                    0 <= j < i ==> (#[trigger] fields@[j]).spec_view() == ir_fields(
                        TypedField::views(comp.fields@),
                    )[j],
            decreases comp.fields.len() - i,
        {
            fields.push(self.generate_field(&comp.fields[i]));
            i = i + 1;
        }
        assert(IRField::views(fields@) =~= ir_fields(TypedField::views(comp.fields@)));
        IRComponent { id, name: comp.name.clone(), fields }
    }

    /// The rule, under the next rule id.
    pub fn generate_rule(&mut self, rule: &TypedRule) -> (r: IRRule)
        requires
            old(self).rule_id_counter < u32::MAX,
        ensures
            r@ == ir_rule(rule@, old(self).rule_id_counter),
            final(self).counters() == (Counters {
                rule: (old(self).rule_id_counter + 1) as u32,
                ..old(self).counters()
            }),
    {
        let actions = self.generate_block_actions(&rule.body);
        IRRule {
            id: self.next_rule_id(),
            name: clone_opt_string(&rule.name),
            trigger: IRTrigger {
                trigger_type: owned("event"),
                event: Some(rule.trigger_event.clone()),
                bindings: None,
            },
            filter: None,
            condition: self.generate_opt_expression(&rule.condition),
            actions,
        }
    }

    /// The function, under the next function id.
    pub fn generate_function(&mut self, func: &TypedFunction) -> (r: IRFunction)
        requires
            old(self).function_id_counter < u32::MAX,
        ensures
            r@ == ir_function(func@, old(self).function_id_counter),
            final(self).counters() == (Counters {
                function: (old(self).function_id_counter + 1) as u32,
                ..old(self).counters()
            }),
    {
        let params = self.generate_params(&func.params);
        let body = self.generate_function_body(&func.body);
        IRFunction {
            id: self.next_function_id(),
            name: func.name.clone(),
            params,
            return_type: self.convert_type(&func.return_type),
            body,
        }
    }

    /// The tracker, under the next tracker id.
    pub fn generate_tracker(&mut self, tracker: &TypedTracker) -> (r: IRTracker)
        requires
            old(self).tracker_id_counter < u32::MAX,
        ensures
            r@ == ir_tracker(tracker@, old(self).tracker_id_counter),
            final(self).counters() == (Counters {
                tracker: (old(self).tracker_id_counter + 1) as u32,
                ..old(self).counters()
            }),
    {
        IRTracker { id: self.next_tracker_id(), component: tracker.component.clone(), event: tracker.event.clone() }
    }

    /// The lowered form of a choice function.
    pub fn generate_bound_function(&self, func: &TypedBoundFunction) -> (r: IRBoundFunction)
        ensures
            r@ == ir_bound_function(func@),
    {
        let params = self.generate_params(&func.params);
        let body = self.generate_function_body(&func.body);
        IRBoundFunction { params, return_type: self.convert_type(&func.return_type), body, source: None }
    }

    /// The value of an entity field: only a literal is data; anything else
    /// becomes `null`.
    pub fn expression_to_value(&self, expr: &TypedExpr) -> (r: IRValue)
        ensures
            r@ == ir_field_value(expr@),
    {
        match &expr.kind {
            TypedExprKind::Literal(lit) => self.convert_literal(lit),
            _ => IRValue::Null,
        }
    }

    /// The entity, under the next entity id.
    pub fn generate_entity(&mut self, entity: &TypedEntity) -> (r: IREntity)
        requires
            old(self).entity_id_counter < u32::MAX,
        ensures
            r@ == ir_entity(entity@, old(self).entity_id_counter),
            final(self).counters() == (Counters {
                entity: (old(self).entity_id_counter + 1) as u32,
                ..old(self).counters()
            }),
    {
        let id = self.next_entity_id();
        let mut components = component_map_new();
        let mut i: usize = 0;
        while i < entity.components.len()
            invariant
                i <= entity.components.len(),
                component_entries(components) == ir_entity_components(
                    TypedComponentInit::views(entity.components@),
                    i as nat,
                ),
            decreases entity.components.len() - i,
        {
            let comp = &entity.components[i];
            let mut fields = value_map_new();
            let mut k: usize = 0;
            while k < comp.fields.len()
                invariant
                    k <= comp.fields.len(),
                    value_entries(fields) == ir_field_values(TypedExpr::named_views(comp.fields@), k as nat),
                decreases comp.fields.len() - k,
            {
                let value = self.expression_to_value(&comp.fields[k].1);
                value_map_insert(&mut fields, comp.fields[k].0.clone(), value);
                k = k + 1;
            }
            component_map_insert(&mut components, comp.name.clone(), fields);
            i = i + 1;
        }
        let bound_functions = if entity.bound_functions.len() == 0 {
            None
        } else {
            let mut funcs = bound_function_map_new();
            let mut j: usize = 0;
            while j < entity.bound_functions.len()
                invariant
                    j <= entity.bound_functions.len(),
                    bound_function_entries(funcs) == ir_bound_functions(
                        TypedBoundFunction::views(entity.bound_functions@),
                        j as nat,
                    ),
                decreases entity.bound_functions.len() - j,
            {
                let func = &entity.bound_functions[j];
                bound_function_map_insert(&mut funcs, func.name.clone(), self.generate_bound_function(func));
                j = j + 1;
            }
            Some(funcs)
        };
        IREntity { id, variable: clone_opt_string(&entity.variable), components, bound_functions }
    }
}

/// The stamp that a module carries; empty if it has no metadata.
pub open spec fn stamp_of(ir: IRModuleView) -> Seq<char> {
    match ir.metadata {
        Some(m) => m.compiled_at,
        None => Seq::empty(),
    }
}

/// The module that generation yields from ids `start` on, stamped
/// `compiled_at`; `None` when some kind of definition runs out of ids.
pub open spec fn spec_generate(
    module: TypedModuleView,
    start: Counters,
    map: Option<SourceMapView>,
    compiled_at: Seq<char>,
) -> Option<IRModuleView> {
    match lower_items(module.items, module.items.len(), start) {
        Some(l) => Some(ir_module(l, map, compiled_at)),
        None => None,
    }
}

/// The files of a source map.
fn collect_source_files(
    source: Option<&str>,
    source_path: Option<&str>,
    additional_sources: &[(String, String, String)],
) -> (files: Vec<SourceFile>)
    ensures
        SourceFile::views(files@) == source_files(
            opt_str_view(source),
            opt_str_view(source_path),
            triples_view(additional_sources@),
        ),
{
    let mut files: Vec<SourceFile> = Vec::new();
    match (source, source_path) {
        (Some(text), Some(path)) => {
            files.push(SourceFile { path: owned(path), content: owned(text), language: language_for(path) });
        },
        _ => {},
    }
    let ghost head = SourceFile::views(files@);
    assert(SourceFile::views(files@) =~= head + extra_files(triples_view(additional_sources@)).take(0));
    let mut i: usize = 0;
    while i < additional_sources.len()
        invariant
            i <= additional_sources.len(),
            SourceFile::views(files@) == head + extra_files(triples_view(additional_sources@)).take(i as int),
        decreases additional_sources.len() - i,
    {
        let entry = &additional_sources[i];
        files.push(SourceFile { path: entry.0.clone(), content: entry.1.clone(), language: entry.2.clone() });
        assert(extra_files(triples_view(additional_sources@)).take(i + 1) =~= extra_files(
            triples_view(additional_sources@),
        ).take(i as int).push(extra_files(triples_view(additional_sources@))[i as int]));
        assert(SourceFile::views(files@) =~= head + extra_files(triples_view(additional_sources@)).take(i + 1));
        i = i + 1;
    }
    assert(extra_files(triples_view(additional_sources@)).take(additional_sources@.len() as int) =~= extra_files(
        triples_view(additional_sources@),
    ));
    files
}

/// (component, field) pairs as text.
pub open spec fn pairs_view(s: Seq<(String, String)>) -> Seq<(Seq<char>, Seq<char>)> {
    Seq::new(s.len(), |i: int| (s[i].0@, s[i].1@))
}

/// The entity fields of a module whose value is no literal, as (component,
/// field) pairs in source order. Generation gives each of them the value
/// `null`; a caller that wants to warn of them finds them here.
pub fn data_violations(module: &TypedModule) -> (r: Vec<(String, String)>)
    ensures
        pairs_view(r@) == module_non_literal_fields(module@.items, module@.items.len()),
{
    let mut out: Vec<(String, String)> = Vec::new();
    let ghost items = TypedItem::views(module.items@);
    assert(pairs_view(out@) =~= Seq::empty());
    let mut i: usize = 0;
    while i < module.items.len()
        invariant
            i <= module.items.len(),
            items == TypedItem::views(module.items@),
            pairs_view(out@) == module_non_literal_fields(items, i as nat),
        decreases module.items.len() - i,
    {
        match &module.items[i] {
            TypedItem::Entity(entity) => {
                let ghost before = pairs_view(out@);
                let ghost cs = TypedComponentInit::views(entity.components@);
                assert(before + entity_non_literal_fields(cs, 0) =~= before);
                let mut j: usize = 0;
                while j < entity.components.len()
                    invariant
                        j <= entity.components.len(),
                        cs == TypedComponentInit::views(entity.components@),
                        pairs_view(out@) == before + entity_non_literal_fields(cs, j as nat),
                    decreases entity.components.len() - j,
                {
                    let component = &entity.components[j];
                    let ghost c = component@;
                    let ghost mid = pairs_view(out@);
                    assert(mid + non_literal_fields(c, 0) =~= mid);
                    let mut k: usize = 0;
                    while k < component.fields.len()
                        invariant
                            k <= component.fields.len(),
                            c == component@,
                            pairs_view(out@) == mid + non_literal_fields(c, k as nat),
                        decreases component.fields.len() - k,
                    {
                        let ghost so_far = pairs_view(out@);
                        assert(c.fields[k as int] == (
                            component.fields@[k as int].0@,
                            component.fields@[k as int].1.spec_view(),
                        ));
                        match &component.fields[k].1.kind {
                            TypedExprKind::Literal(_) => {},
                            _ => {
                                out.push((component.name.clone(), component.fields[k].0.clone()));
                                assert(pairs_view(out@) =~= so_far.push(
                                    (component.name@, component.fields@[k as int].0@),
                                ));
                                assert(pairs_view(out@) =~= mid + non_literal_fields(c, (k + 1) as nat));
                            },
                        }
                        k = k + 1;
                    }
                    assert(pairs_view(out@) =~= before + entity_non_literal_fields(cs, (j + 1) as nat));
                    j = j + 1;
                }
            },
            _ => {},
        }
        i = i + 1;
    }
    out
}

/// The definitions of a module, each kind in source order.
pub struct Definitions {
    pub components: Vec<IRComponent>,
    pub rules: Vec<IRRule>,
    pub functions: Vec<IRFunction>,
    pub trackers: Vec<IRTracker>,
    pub entities: Vec<IREntity>,
}

impl Definitions {
    /// What these definitions denote, with the ids that come next.
    pub open spec fn lowered(self, next: Counters) -> Lowered {
        Lowered {
            components: IRComponent::views(self.components@),
            rules: IRRule::views(self.rules@),
            functions: IRFunction::views(self.functions@),
            trackers: IRTracker::views(self.trackers@),
            entities: IREntity::views(self.entities@),
            next: next,
        }
    }

    /// No definitions.
    pub fn new() -> (d: Self)
        ensures
            forall|next: Counters| #[trigger] d.lowered(next) == lowered_start(next),
    {
        let d = Definitions {
            components: Vec::new(),
            rules: Vec::new(),
            functions: Vec::new(),
            trackers: Vec::new(),
            entities: Vec::new(),
        };
        assert(IRComponent::views(d.components@) =~= Seq::empty());
        assert(IRRule::views(d.rules@) =~= Seq::empty());
        assert(IRFunction::views(d.functions@) =~= Seq::empty());
        assert(IRTracker::views(d.trackers@) =~= Seq::empty());
        assert(IREntity::views(d.entities@) =~= Seq::empty());
        d
    }
}

impl IRGenerator {
    /// Lowers one item into `defs` under the next id of its kind. Returns
    /// `false`, and changes nothing, when that kind has no id left.
    pub fn lower_one(&mut self, defs: &mut Definitions, item: &TypedItem) -> (ok: bool)
        ensures
            match lower_item(old(defs).lowered(old(self).counters()), item@) {
                Some(l) => ok && final(defs).lowered(final(self).counters()) == l,
                None => !ok && *final(defs) == *old(defs) && *final(self) == *old(self),
            },
    {
        match item {
            TypedItem::Component(comp) => {
                if self.component_id_counter == u32::MAX {
                    return false;
                }
                let c = self.generate_component(comp);
                defs.components.push(c);
            },
            TypedItem::Rule(rule) => {
                if self.rule_id_counter == u32::MAX {
                    return false;
                }
                let r = self.generate_rule(rule);
                defs.rules.push(r);
            },
            TypedItem::Function(func) => {
                if self.function_id_counter == u32::MAX {
                    return false;
                }
                let f = self.generate_function(func);
                defs.functions.push(f);
            },
            TypedItem::Tracker(tracker) => {
                if self.tracker_id_counter == u32::MAX {
                    return false;
                }
                let t = self.generate_tracker(tracker);
                defs.trackers.push(t);
            },
            TypedItem::Entity(entity) => {
                if self.entity_id_counter == u32::MAX {
                    return false;
                }
                let e = self.generate_entity(entity);
                defs.entities.push(e);
            },
        }
        true
    }

    /// Lowers the items in source order; `None` when a kind of definition
    /// runs out of ids.
    pub fn lower_all(&mut self, items: &Vec<TypedItem>) -> (r: Option<Definitions>)
        ensures
            match lower_items(TypedItem::views(items@), items@.len(), old(self).counters()) {
                Some(l) => r is Some && r->0.lowered(final(self).counters()) == l,
                None => r is None,
            },
    {
        let mut defs = Definitions::new();
        let ghost views = TypedItem::views(items@);
        let ghost start = self.counters();
        let mut i: usize = 0;
        while i < items.len()
            invariant
                i <= items.len(),
                views == TypedItem::views(items@),
                start == old(self).counters(),
                lower_items(views, i as nat, start) == Some(defs.lowered(self.counters())),
            decreases items.len() - i,
        {
            let ghost before = defs.lowered(self.counters());
            let ok = self.lower_one(&mut defs, &items[i]);
            assert(views[i as int] == items@[i as int].spec_view());
            if !ok {
                proof {
                    lemma_lower_items_none(views, (i + 1) as nat, views.len(), start);
                }
                return None;
            }
            i = i + 1;
        }
        Some(defs)
    }

    /// Lowers a typed module. Every definition takes the next id of its
    /// kind, in source order. Fails only when a kind has no id left. The
    /// one part of the result that the arguments do not decide is the
    /// stamp, which is that of some moment.
    pub fn generate(
        &mut self,
        typed_module: TypedModule,
        options: &CompilerOptions,
        source: Option<&str>,
        source_path: Option<&str>,
        additional_sources: &[(String, String, String)],
    ) -> (r: Result<IRModule, IRError>)
        ensures
            match r {
                Ok(ir) => {
                    &&& is_timestamp(stamp_of(ir@))
                    &&& Some(ir@) == spec_generate(
                        typed_module@,
                        old(self).counters(),
                        source_map(
                            options.include_source_map,
                            opt_str_view(source),
                            opt_str_view(source_path),
                            triples_view(additional_sources@),
                        ),
                        stamp_of(ir@),
                    )
                    &&& Some(final(self).counters()) == match lower_items(
                        typed_module@.items,
                        typed_module@.items.len(),
                        old(self).counters(),
                    ) {
                        Some(l) => Some(l.next),
                        None => None,
                    }
                },
                Err(e) => {
                    &&& lower_items(typed_module@.items, typed_module@.items.len(), old(self).counters()) is None
                    &&& e@ == IRErrorView::GenerationError(out_of_ids_message())
                },
            },
    {
        let defs = match self.lower_all(&typed_module.items) {
            Some(defs) => defs,
            None => {
                return Err(IRError::GenerationError(owned("no id left for a definition")));
            },
        };
        proof {
            }
        let Definitions { components, rules, functions, trackers, entities } = defs;
        let source_map = if options.include_source_map {
            let files = collect_source_files(source, source_path, additional_sources);
            if files.len() == 0 {
                None
            } else {
                Some(SourceMap { files })
            }
        } else {
            None
        };
        let initial_state = if entities.len() == 0 {
            None
        } else {
            Some(IRInitialState { entities })
        };
        Ok(
            IRModule {
                version: owned("1.0"),
                module: owned("unnamed"),
                metadata: Some(
                    IRMetadata {
                        compiled_at: generate_timestamp(),
                        compiler_version: version(),
                        source_hash: None,
                    },
                ),
                components,
                rules,
                functions,
                trackers,
                constants: value_map_new(),
                initial_state,
                source_map,
            },
        )
    }
}

/// What [`generate`] and its variants return for a module: the lowered
/// module, or the text of the generation error.
pub open spec fn generate_result(
    r: Result<IRModule, String>,
    module: TypedModuleView,
    map: Option<SourceMapView>,
) -> bool {
    let start = Counters { component: 0, rule: 0, function: 0, tracker: 0, entity: 0 };
    match r {
        Ok(ir) => is_timestamp(stamp_of(ir@)) && Some(ir@) == spec_generate(module, start, map, stamp_of(ir@)),
        Err(text) => spec_generate(module, start, map, Seq::empty()) is None && text@ == ir_error_message(
            IRErrorView::GenerationError(out_of_ids_message()),
        ),
    }
}

/// Generates the module, with the error as text.
fn run_generator(
    typed_module: TypedModule,
    options: &CompilerOptions,
    source: Option<&str>,
    source_path: Option<&str>,
    additional_sources: &[(String, String, String)],
) -> (r: Result<IRModule, String>)
    ensures
        generate_result(
            r,
            typed_module@,
            source_map(
                options.include_source_map,
                opt_str_view(source),
                opt_str_view(source_path),
                triples_view(additional_sources@),
            ),
        ),
{
    let mut generator = IRGenerator::new();
    match generator.generate(typed_module, options, source, source_path, additional_sources) {
        Ok(ir) => Ok(ir),
        Err(e) => Err(e.message()),
    }
}

/// Lowers a typed module, with ids from 0. No source map is attached, as
/// there is no file to record.
pub fn generate(typed_module: TypedModule, options: &CompilerOptions) -> (r: Result<IRModule, String>)
    ensures
        generate_result(r, typed_module@, None),
{
    let none: Vec<(String, String, String)> = Vec::new();
    assert(triples_view(none@) =~= Seq::empty());
    assert(extra_files(Seq::empty()) =~= Seq::empty());
    run_generator(typed_module, options, None, None, none.as_slice())
}

/// Lowers a typed module; the source map, when asked for, records the
/// source under `source_path`.
pub fn generate_with_source(typed_module: TypedModule, options: &CompilerOptions, source: &str, source_path: &str) -> (r:
    Result<IRModule, String>)
    ensures
        generate_result(
            r,
            typed_module@,
            source_map(options.include_source_map, Some(source@), Some(source_path@), Seq::empty()),
        ),
{
    let none: Vec<(String, String, String)> = Vec::new();
    assert(triples_view(none@) =~= Seq::empty());
    run_generator(typed_module, options, Some(source), Some(source_path), none.as_slice())
}

/// Lowers a typed module; the source map, when asked for, records the
/// source if a path is given, then the additional files.
pub fn generate_with_sources(
    typed_module: TypedModule,
    options: &CompilerOptions,
    source: &str,
    source_path: Option<&str>,
    additional_sources: &[(String, String, String)],
) -> (r: Result<IRModule, String>)
    ensures
        generate_result(
            r,
            typed_module@,
            source_map(
                options.include_source_map,
                Some(source@),
                opt_str_view(source_path),
                triples_view(additional_sources@),
            ),
        ),
{
    run_generator(typed_module, options, Some(source), source_path, additional_sources)
}

} // verus!
