//! What generation produces, as functions on the values of typed trees.

use vstd::prelude::*;
use crate::analyzer::typed::{
    TypedBlockView, TypedBoundFunctionView, TypedComponentInitView, TypedComponentView, TypedElseClauseView,
    TypedEntityView, TypedExprKindView, TypedExprView, TypedFieldView, TypedFunctionView, TypedItemView,
    TypedParamView, TypedRuleView, TypedStatementView, TypedTrackerView,
};
use crate::analyzer::types::TypeView;
use crate::ir::maps::entries_insert;
use crate::ir::model::{
    IRActionView, IRBoundFunctionView, IRComponentInitView, IRComponentView, IREntityView, IRExpressionView,
    IRFieldView, IRFunctionView, IRInitialStateView, IRMetadataView, IRModuleView, IRNumberView, IRParamView,
    IRRuleView, IRTrackerView, IRTriggerView, IRType, IRValueView, SourceFileView, SourceMapView,
};
use crate::parser::ast::{AssignOp, BinaryOp, LiteralView, UnaryOp};
use crate::text::is_digit;

verus! {

/// The wire type of a type. The three numeric types are one `number`;
/// components and composites are entities; an optional is what it wraps;
/// `Void` and `Unknown` default to `number`.
pub open spec fn ir_type(t: TypeView) -> IRType
    decreases t,
{
    match t {
        TypeView::String => IRType::String,
        TypeView::Boolean => IRType::Boolean,
        TypeView::Integer => IRType::Number,
        TypeView::Float => IRType::Number,
        TypeView::Decimal => IRType::Number,
        TypeView::EntityId => IRType::Entity,
        TypeView::Component(_) => IRType::Entity,
        TypeView::Composite(_) => IRType::Entity,
        TypeView::List(inner) => IRType::List { element: Box::new(ir_type(*inner)) },
        TypeView::Optional(inner) => ir_type(*inner),
        TypeView::Void => IRType::Number,
        TypeView::Unknown => IRType::Number,
    }
}

/// Whether `s` reads `digits.digits`, one digit at least on either side.
pub open spec fn is_decimal_text(s: Seq<char>) -> bool {
    exists|p: int| is_decimal_with_point(s, p)
}

/// Whether `s` is digits but for a point at `p`, which stands neither
/// first nor last.
pub open spec fn is_decimal_with_point(s: Seq<char>, p: int) -> bool {
    &&& 0 < p < s.len() - 1
    &&& s[p] == '.'
    &&& forall|i: int| 0 <= i < s.len() && i != p ==> is_digit(#[trigger] s[i])
}

/// The value of a literal. A float or decimal whose text is not
/// `digits.digits` stands for no number and becomes `null`.
pub open spec fn ir_literal(lit: LiteralView) -> IRValueView {
    match lit {
        LiteralView::String(s) => IRValueView::String(s),
        LiteralView::Integer(n) => IRValueView::Number(IRNumberView::Integer(n)),
        LiteralView::Float(s) => if is_decimal_text(s) {
            IRValueView::Number(IRNumberView::Decimal(s))
        } else {
            IRValueView::Null
        },
        LiteralView::Decimal(s) => if is_decimal_text(s) {
            IRValueView::Number(IRNumberView::Decimal(s))
        } else {
            IRValueView::Null
        },
        LiteralView::Boolean(b) => IRValueView::Boolean(b),
        LiteralView::Null => IRValueView::Null,
    }
}

/// The wire name of an assignment operator.
pub open spec fn assign_op_name(op: AssignOp) -> Seq<char> {
    match op {
        AssignOp::Assign => "set"@,
        AssignOp::AddAssign => "add"@,
        AssignOp::SubAssign => "subtract"@,
        AssignOp::MulAssign => "multiply"@,
        AssignOp::DivAssign => "divide"@,
    }
}

/// The wire name of a binary operator.
pub open spec fn binary_op_name(op: BinaryOp) -> Seq<char> {
    match op {
        BinaryOp::Add => "add"@,
        BinaryOp::Sub => "subtract"@,
        BinaryOp::Mul => "multiply"@,
        BinaryOp::Div => "divide"@,
        BinaryOp::Mod => "modulo"@,
        BinaryOp::Eq => "eq"@,
        BinaryOp::NotEq => "neq"@,
        BinaryOp::Lt => "lt"@,
        BinaryOp::LtEq => "lte"@,
        BinaryOp::Gt => "gt"@,
        BinaryOp::GtEq => "gte"@,
        BinaryOp::And => "and"@,
        BinaryOp::Or => "or"@,
    }
}

/// The wire name of a unary operator.
pub open spec fn unary_op_name(op: UnaryOp) -> Seq<char> {
    match op {
        UnaryOp::Neg => "negate"@,
        UnaryOp::Not => "not"@,
    }
}

/// The expression that `base.field` lowers to: a field reference when
/// `base` is `identifier.component`, else the bare field name as a variable.
pub open spec fn ir_field_access(base: TypedExprKindView, field: Seq<char>) -> IRExpressionView {
    match base {
        TypedExprKindView::FieldAccess(entity, component) => match entity.kind {
            TypedExprKindView::Identifier(name) => IRExpressionView::Field {
                entity: name,
                component: component,
                field: field,
            },
            _ => IRExpressionView::Var { name: field },
        },
        _ => IRExpressionView::Var { name: field },
    }
}

/// The lowered form of an expression. Its type plays no part. Method
/// calls, component tests, casts, entity queries and clones have no lowered
/// form and become the literal `null`.
pub open spec fn ir_expr_kind(kind: TypedExprKindView) -> IRExpressionView
    decreases kind,
{
    match kind {
        TypedExprKindView::Literal(lit) => IRExpressionView::Literal { value: ir_literal(lit) },
        TypedExprKindView::Identifier(name) => IRExpressionView::Var { name: name },
        TypedExprKindView::EntityRef(name) => IRExpressionView::Var { name: "@"@ + name },
        TypedExprKindView::FieldAccess(base, field) => ir_field_access(base.kind, field),
        TypedExprKindView::Binary(left, op, right) => IRExpressionView::Binary {
            op: binary_op_name(op),
            left: Box::new(ir_expr_kind(left.kind)),
            right: Box::new(ir_expr_kind(right.kind)),
        },
        TypedExprKindView::Unary(op, inner) => IRExpressionView::Unary {
            op: unary_op_name(op),
            expr: Box::new(ir_expr_kind(inner.kind)),
        },
        TypedExprKindView::Call(name, args) => IRExpressionView::Call { function: name, args: ir_exprs(args) },
        TypedExprKindView::IndexAccess(base, index) => IRExpressionView::Call {
            function: "get"@,
            args: seq![ir_expr_kind(base.kind), ir_expr_kind(index.kind)],
        },
        TypedExprKindView::List(elements) => IRExpressionView::Call { function: "list"@, args: ir_exprs(elements) },
        _ => IRExpressionView::Literal { value: IRValueView::Null },
    }
}

/// The lowered forms of a list of expressions.
pub open spec fn ir_exprs(es: Seq<TypedExprView>) -> Seq<IRExpressionView>
    decreases es,
{
    Seq::new(
        es.len(),
        |i: int|
            if 0 <= i < es.len() {
                ir_expr_kind(es[i].kind)
            } else {
                arbitrary()
            },
    )
}

/// The lowered form of an expression.
pub open spec fn ir_expr(e: TypedExprView) -> IRExpressionView {
    ir_expr_kind(e.kind)
}

/// The lowered form of an optional expression.
pub open spec fn ir_opt_expr(e: Option<TypedExprView>) -> Option<IRExpressionView> {
    match e {
        Some(e) => Some(ir_expr(e)),
        None => None,
    }
}

/// The map that the first `n` named expressions build, inserted in order.
pub open spec fn ir_named_exprs(fields: Seq<(Seq<char>, TypedExprView)>, n: nat) -> Seq<
    (Seq<char>, IRExpressionView),
>
    decreases n,
{
    if n == 0 || n > fields.len() {
        Seq::empty()
    } else {
        entries_insert(ir_named_exprs(fields, (n - 1) as nat), fields[n - 1].0, ir_expr(fields[n - 1].1))
    }
}

/// The lowered form of a component initialiser.
pub open spec fn ir_component_init(c: TypedComponentInitView) -> IRComponentInitView {
    IRComponentInitView { name: c.name, fields: ir_named_exprs(c.fields, c.fields.len()) }
}

/// The lowered forms of a list of component initialisers.
pub open spec fn ir_component_inits(cs: Seq<TypedComponentInitView>) -> Seq<IRComponentInitView> {
    Seq::new(cs.len(), |i: int| ir_component_init(cs[i]))
}

/// The entity and component that an assignment to `base.field` modifies:
/// those of `entity.component` when `base` has that shape, else `base`
/// itself and the component `Unknown`.
pub open spec fn modify_target(base: TypedExprView) -> (IRExpressionView, Seq<char>) {
    match base.kind {
        TypedExprKindView::FieldAccess(entity, component) => (ir_expr(*entity), component),
        _ => (ir_expr(base), "Unknown"@),
    }
}

/// The action a statement lowers to. An assignment whose target is no
/// field access, and `let`, `while`, `return`, `cancel` and bare
/// expressions, lower to nothing.
pub open spec fn ir_action(s: TypedStatementView) -> Option<IRActionView>
    decreases s, 0nat,
{
    match s {
        TypedStatementView::Assignment { target, op, value } => match target.kind {
            TypedExprKindView::FieldAccess(base, field) => Some(
                IRActionView::Modify {
                    entity: modify_target(*base).0,
                    component: modify_target(*base).1,
                    field: field,
                    op: assign_op_name(op),
                    value: ir_expr(value),
                },
            ),
            _ => None,
        },
        TypedStatementView::If { condition, then_block, else_block } => Some(
            IRActionView::Conditional {
                condition: ir_expr(condition),
                then_actions: ir_block(then_block),
                else_actions: match else_block {
                    Some(clause) => Some(ir_else(clause)),
                    None => None,
                },
            },
        ),
        TypedStatementView::For { variable, iterable, body } => Some(
            IRActionView::Loop { variable: variable, iterable: ir_expr(iterable), body: ir_block(body) },
        ),
        TypedStatementView::Schedule { recurring, delay, interval, event_name, fields } => Some(
            IRActionView::Schedule {
                event: event_name,
                source: None,
                delay: ir_opt_expr(delay),
                fields: if fields.len() == 0 {
                    None
                } else {
                    Some(ir_named_exprs(fields, fields.len()))
                },
            },
        ),
        TypedStatementView::Create { components } => Some(
            IRActionView::Spawn { components: ir_component_inits(components) },
        ),
        TypedStatementView::Delete { entity } => Some(IRActionView::Despawn { entity: ir_expr(entity) }),
        _ => None,
    }
}

/// The actions of the first `n` statements, in order; a statement without
/// an action leaves no trace.
pub open spec fn ir_actions(ss: Seq<TypedStatementView>, n: nat) -> Seq<IRActionView>
    decreases ss, n,
{
    if n == 0 || n > ss.len() {
        Seq::empty()
    } else {
        match ir_action(ss[n - 1]) {
            Some(a) => ir_actions(ss, (n - 1) as nat).push(a),
            None => ir_actions(ss, (n - 1) as nat),
        }
    }
}

/// The actions of a block.
pub open spec fn ir_block(b: TypedBlockView) -> Seq<IRActionView>
    decreases b, 0nat,
{
    ir_actions(b.statements, b.statements.len())
}

/// The actions of an else-clause: an `else if` is one nested conditional,
/// an `else` is the actions of its block.
pub open spec fn ir_else(clause: TypedElseClauseView) -> Seq<IRActionView>
    decreases clause, 0nat,
{
    match clause {
        TypedElseClauseView::ElseIf { condition, then_block, else_block } => seq![
            IRActionView::Conditional {
                condition: ir_expr(condition),
                then_actions: ir_block(then_block),
                else_actions: match else_block {
                    Some(c) => Some(ir_else(*c)),
                    None => None,
                },
            },
        ],
        TypedElseClauseView::Else(b) => ir_block(b),
    }
}

/// The index of the first `return` with a value at or after `from`, or the
/// number of statements.
pub open spec fn first_return(ss: Seq<TypedStatementView>, from: nat) -> nat
    decreases ss.len() - from,
{
    if from >= ss.len() {
        ss.len()
    } else if ss[from as int] matches TypedStatementView::Return { value: Some(_) } {
        from
    } else {
        first_return(ss, from + 1)
    }
}

/// The body of a function: the value of the first top-level `return` that
/// has one, else the number 0.
pub open spec fn ir_function_body(b: TypedBlockView) -> IRExpressionView {
    let i = first_return(b.statements, 0);
    if i < b.statements.len() {
        match b.statements[i as int] {
            TypedStatementView::Return { value: Some(e) } => ir_expr(e),
            _ => arbitrary(),
        }
    } else {
        IRExpressionView::Literal { value: IRValueView::Number(IRNumberView::Integer(0)) }
    }
}

/// The lowered form of a parameter list.
pub open spec fn ir_params(params: Seq<TypedParamView>) -> Seq<IRParamView> {
    Seq::new(
        params.len(),
        |i: int| IRParamView { name: params[i].name, param_type: ir_type(params[i].param_type) },
    )
}

/// The lowered form of a component field. It has no default value.
pub open spec fn ir_field(field: TypedFieldView) -> IRFieldView {
    IRFieldView { name: field.name, field_type: ir_type(field.field_type), default: None }
}

/// The lowered form of the fields of a component.
pub open spec fn ir_fields(fields: Seq<TypedFieldView>) -> Seq<IRFieldView> {
    Seq::new(fields.len(), |i: int| ir_field(fields[i]))
}

/// The component with this id.
pub open spec fn ir_component(c: TypedComponentView, id: u32) -> IRComponentView {
    IRComponentView { id: id, name: c.name, fields: ir_fields(c.fields) }
}

/// The rule with this id: triggered by its event, without a filter.
pub open spec fn ir_rule(r: TypedRuleView, id: u32) -> IRRuleView {
    IRRuleView {
        id: id,
        name: r.name,
        trigger: IRTriggerView { trigger_type: "event"@, event: Some(r.trigger_event), bindings: false },
        filter: None,
        condition: ir_opt_expr(r.condition),
        actions: ir_block(r.body),
    }
}

/// The function with this id.
pub open spec fn ir_function(f: TypedFunctionView, id: u32) -> IRFunctionView {
    IRFunctionView {
        id: id,
        name: f.name,
        params: ir_params(f.params),
        return_type: ir_type(f.return_type),
        body: ir_function_body(f.body),
    }
}

/// The tracker with this id.
pub open spec fn ir_tracker(t: TypedTrackerView, id: u32) -> IRTrackerView {
    IRTrackerView { id: id, component: t.component, event: t.event }
}

/// The lowered form of a choice function.
pub open spec fn ir_bound_function(f: TypedBoundFunctionView) -> IRBoundFunctionView {
    IRBoundFunctionView {
        params: ir_params(f.params),
        return_type: ir_type(f.return_type),
        body: ir_function_body(f.body),
        source: None,
    }
}

/// The value of an entity field: that of a literal; anything else is not
/// data and becomes `null`.
pub open spec fn ir_field_value(e: TypedExprView) -> IRValueView {
    match e.kind {
        TypedExprKindView::Literal(lit) => ir_literal(lit),
        _ => IRValueView::Null,
    }
}

/// The map that the first `n` field values build, inserted in order.
pub open spec fn ir_field_values(fields: Seq<(Seq<char>, TypedExprView)>, n: nat) -> Seq<(Seq<char>, IRValueView)>
    decreases n,
{
    if n == 0 || n > fields.len() {
        Seq::empty()
    } else {
        entries_insert(ir_field_values(fields, (n - 1) as nat), fields[n - 1].0, ir_field_value(fields[n - 1].1))
    }
}

/// The map that the first `n` components of an entity build.
pub open spec fn ir_entity_components(cs: Seq<TypedComponentInitView>, n: nat) -> Seq<
    (Seq<char>, Seq<(Seq<char>, IRValueView)>),
>
    decreases n,
{
    if n == 0 || n > cs.len() {
        Seq::empty()
    } else {
        entries_insert(
            ir_entity_components(cs, (n - 1) as nat),
            cs[n - 1].name,
            ir_field_values(cs[n - 1].fields, cs[n - 1].fields.len()),
        )
    }
}

/// The map that the first `n` bound functions of an entity build.
pub open spec fn ir_bound_functions(fs: Seq<TypedBoundFunctionView>, n: nat) -> Seq<
    (Seq<char>, IRBoundFunctionView),
>
    decreases n,
{
    if n == 0 || n > fs.len() {
        Seq::empty()
    } else {
        entries_insert(ir_bound_functions(fs, (n - 1) as nat), fs[n - 1].name, ir_bound_function(fs[n - 1]))
    }
}

/// The fields among the first `n` of a component of an entity whose value
/// is no literal, as (component, field) pairs. Their values are not data;
/// each becomes `null`.
pub open spec fn non_literal_fields(c: TypedComponentInitView, n: nat) -> Seq<(Seq<char>, Seq<char>)>
    decreases n,
{
    if n == 0 || n > c.fields.len() {
        Seq::empty()
    } else if c.fields[n - 1].1.kind is Literal {
        non_literal_fields(c, (n - 1) as nat)
    } else {
        non_literal_fields(c, (n - 1) as nat).push((c.name, c.fields[n - 1].0))
    }
}

/// The non-literal fields of the first `n` components of an entity.
pub open spec fn entity_non_literal_fields(cs: Seq<TypedComponentInitView>, n: nat) -> Seq<(Seq<char>, Seq<char>)>
    decreases n,
{
    if n == 0 || n > cs.len() {
        Seq::empty()
    } else {
        entity_non_literal_fields(cs, (n - 1) as nat) + non_literal_fields(cs[n - 1], cs[n - 1].fields.len())
    }
}

/// The non-literal fields of the entities among the first `n` items, in
/// source order.
pub open spec fn module_non_literal_fields(items: Seq<TypedItemView>, n: nat) -> Seq<(Seq<char>, Seq<char>)>
    decreases n,
{
    if n == 0 || n > items.len() {
        Seq::empty()
    } else {
        match items[n - 1] {
            TypedItemView::Entity(e) => module_non_literal_fields(items, (n - 1) as nat)
                + entity_non_literal_fields(e.components, e.components.len()),
            _ => module_non_literal_fields(items, (n - 1) as nat),
        }
    }
}

/// The entity with this id.
pub open spec fn ir_entity(e: TypedEntityView, id: u32) -> IREntityView {
    IREntityView {
        id: id,
        variable: e.variable,
        components: ir_entity_components(e.components, e.components.len()),
        bound_functions: if e.bound_functions.len() == 0 {
            None
        } else {
            Some(ir_bound_functions(e.bound_functions, e.bound_functions.len()))
        },
    }
}

/// The next id of each kind of definition.
pub struct Counters {
    pub component: u32,
    pub rule: u32,
    pub function: u32,
    pub tracker: u32,
    pub entity: u32,
}

/// The definitions lowered so far, and the ids that come next.
pub struct Lowered {
    pub components: Seq<IRComponentView>,
    pub rules: Seq<IRRuleView>,
    pub functions: Seq<IRFunctionView>,
    pub trackers: Seq<IRTrackerView>,
    pub entities: Seq<IREntityView>,
    pub next: Counters,
}

/// Nothing lowered yet.
pub open spec fn lowered_start(next: Counters) -> Lowered {
    Lowered {
        components: Seq::empty(),
        rules: Seq::empty(),
        functions: Seq::empty(),
        trackers: Seq::empty(),
        entities: Seq::empty(),
        next: next,
    }
}

/// One more item lowered. It takes the next id of its kind; `None` when
/// that kind has no id left.
pub open spec fn lower_item(l: Lowered, item: TypedItemView) -> Option<Lowered> {
    match item {
        TypedItemView::Component(c) => if l.next.component == u32::MAX {
            None
        } else {
            Some(
                Lowered {
                    components: l.components.push(ir_component(c, l.next.component)),
                    next: Counters { component: (l.next.component + 1) as u32, ..l.next },
                    ..l
                },
            )
        },
        TypedItemView::Rule(r) => if l.next.rule == u32::MAX {
            None
        } else {
            Some(
                Lowered {
                    rules: l.rules.push(ir_rule(r, l.next.rule)),
                    next: Counters { rule: (l.next.rule + 1) as u32, ..l.next },
                    ..l
                },
            )
        },
        TypedItemView::Function(f) => if l.next.function == u32::MAX {
            None
        } else {
            Some(
                Lowered {
                    functions: l.functions.push(ir_function(f, l.next.function)),
                    next: Counters { function: (l.next.function + 1) as u32, ..l.next },
                    ..l
                },
            )
        },
        TypedItemView::Tracker(t) => if l.next.tracker == u32::MAX {
            None
        } else {
            Some(
                Lowered {
                    trackers: l.trackers.push(ir_tracker(t, l.next.tracker)),
                    next: Counters { tracker: (l.next.tracker + 1) as u32, ..l.next },
                    ..l
                },
            )
        },
        TypedItemView::Entity(e) => if l.next.entity == u32::MAX {
            None
        } else {
            Some(
                Lowered {
                    entities: l.entities.push(ir_entity(e, l.next.entity)),
                    next: Counters { entity: (l.next.entity + 1) as u32, ..l.next },
                    ..l
                },
            )
        },
    }
}

/// The first `n` items lowered in source order, starting from `start`.
pub open spec fn lower_items(items: Seq<TypedItemView>, n: nat, start: Counters) -> Option<Lowered>
    decreases n,
{
    if n == 0 || n > items.len() {
        Some(lowered_start(start))
    } else {
        match lower_items(items, (n - 1) as nat, start) {
            Some(l) => lower_item(l, items[n - 1]),
            None => None,
        }
    }
}

/// Once an id has run out, lowering more items does not bring it back.
pub proof fn lemma_lower_items_none(items: Seq<TypedItemView>, n: nat, m: nat, start: Counters)
    requires
        n <= m <= items.len(),
        lower_items(items, n, start) is None,
    ensures
        lower_items(items, m, start) is None,
    decreases m,
{
    if n < m {
        lemma_lower_items_none(items, n, (m - 1) as nat, start);
    }
}

/// Whether `s` ends with `suffix`.
pub open spec fn ends_with(s: Seq<char>, suffix: Seq<char>) -> bool {
    s.len() >= suffix.len() && s.subrange(s.len() - suffix.len(), s.len() as int) == suffix
}

/// The dialect that a path's extension names; `brl` unless it is `.bcl` or
/// `.bdl`.
pub open spec fn language_of(path: Seq<char>) -> Seq<char> {
    if ends_with(path, ".bcl"@) {
        "bcl"@
    } else if ends_with(path, ".bdl"@) {
        "bdl"@
    } else {
        "brl"@
    }
}

/// The additional files of a source map, as given.
pub open spec fn extra_files(extra: Seq<(Seq<char>, Seq<char>, Seq<char>)>) -> Seq<SourceFileView> {
    Seq::new(extra.len(), |i: int| SourceFileView { path: extra[i].0, content: extra[i].1, language: extra[i].2 })
}

/// The files of a source map: the main file when both its text and its path
/// are given, then the additional files.
pub open spec fn source_files(
    source: Option<Seq<char>>,
    path: Option<Seq<char>>,
    extra: Seq<(Seq<char>, Seq<char>, Seq<char>)>,
) -> Seq<SourceFileView> {
    match (source, path) {
        (Some(text), Some(p)) => seq![SourceFileView { path: p, content: text, language: language_of(p) }]
            + extra_files(extra),
        _ => extra_files(extra),
    }
}

/// The source map: present when asked for and there is a file to record.
pub open spec fn source_map(
    wanted: bool,
    source: Option<Seq<char>>,
    path: Option<Seq<char>>,
    extra: Seq<(Seq<char>, Seq<char>, Seq<char>)>,
) -> Option<SourceMapView> {
    if wanted && source_files(source, path, extra).len() > 0 {
        Some(SourceMapView { files: source_files(source, path, extra) })
    } else {
        None
    }
}

/// The version of the format.
pub open spec fn format_version() -> Seq<char> {
    "1.0"@
}

/// The version of the compiler.
pub open spec fn compiler_version() -> Seq<char> {
    "0.1.0"@
}

/// The module that lowered definitions make up, stamped `compiled_at`.
pub open spec fn ir_module(l: Lowered, map: Option<SourceMapView>, compiled_at: Seq<char>) -> IRModuleView {
    IRModuleView {
        version: format_version(),
        module: "unnamed"@,
        metadata: Some(
            IRMetadataView {
                compiled_at: compiled_at,
                compiler_version: compiler_version(),
                source_hash: None,
            },
        ),
        components: l.components,
        rules: l.rules,
        functions: l.functions,
        trackers: l.trackers,
        constants: Seq::empty(),
        initial_state: if l.entities.len() == 0 {
            None
        } else {
            Some(IRInitialStateView { entities: l.entities })
        },
        source_map: map,
    }
}

} // verus!
