//! The typing rules, as functions on the values of syntax trees.
//!
//! Analysis does not stop at an error: every function here takes the errors
//! found so far and returns them with its own appended, in the order the
//! tree is walked.

use vstd::prelude::*;
use crate::analyzer::errors::SemanticErrorView;
use crate::analyzer::scope::ScopeView;
use crate::analyzer::symbols::SymbolTableView;
use crate::analyzer::typed::{
    TypedBlockView, TypedBoundFunctionView, TypedComponentInitView, TypedComponentView, TypedElseClauseView,
    TypedEntityView, TypedExprKindView, TypedExprView, TypedFieldView, TypedFunctionView, TypedItemView,
    TypedModuleView, TypedParamView, TypedRuleView, TypedStatementView, TypedTrackerView,
};
use crate::analyzer::types::TypeView;
use crate::parser::ast::{
    BinaryOp, BlockView, BoundFunctionDefView, ComponentDefView, ComponentInitView, ElseClauseView, EntityDefView,
    ExprView, FieldDefView, FunctionDefView, IfStatementView, ItemView, LiteralView, ModuleView, ParamDefView,
    RuleDefView, StatementView, TrackerDefView, TypeExprView, UnaryOp,
};

verus! {

/// The errors found so far, oldest first.
pub type Errors = Seq<SemanticErrorView>;

/// The type that a written type stands for.
pub open spec fn resolve_type(t: TypeExprView) -> TypeView
    decreases t,
{
    match t {
        TypeExprView::String => TypeView::String,
        TypeExprView::Boolean => TypeView::Boolean,
        TypeExprView::Integer => TypeView::Integer,
        TypeExprView::Float => TypeView::Float,
        TypeExprView::Decimal => TypeView::Decimal,
        TypeExprView::Id => TypeView::EntityId,
        TypeExprView::Component(name) => TypeView::Component(name),
        TypeExprView::List(inner) => TypeView::List(Box::new(resolve_type(*inner))),
        TypeExprView::Optional(inner) => TypeView::Optional(Box::new(resolve_type(*inner))),
        TypeExprView::Composite(members) => TypeView::Composite(resolve_types(members)),
    }
}

/// The types that a list of written types stands for.
pub open spec fn resolve_types(members: Seq<TypeExprView>) -> Seq<TypeView>
    decreases members,
{
    Seq::new(
        members.len(),
        |i: int|
            if 0 <= i < members.len() {
                resolve_type(members[i])
            } else {
                arbitrary()
            },
    )
}

/// The type of an optional annotation; none means `Void`.
pub open spec fn resolve_return_type(t: Option<TypeExprView>) -> TypeView {
    match t {
        Some(t) => resolve_type(t),
        None => TypeView::Void,
    }
}

/// The type of a literal. `null` is an optional of unknown content.
pub open spec fn literal_type(lit: LiteralView) -> TypeView {
    match lit {
        LiteralView::String(_) => TypeView::String,
        LiteralView::Integer(_) => TypeView::Integer,
        LiteralView::Float(_) => TypeView::Float,
        LiteralView::Decimal(_) => TypeView::Decimal,
        LiteralView::Boolean(_) => TypeView::Boolean,
        LiteralView::Null => TypeView::Optional(Box::new(TypeView::Unknown)),
    }
}

/// Whether the operator computes a number from two numbers.
pub open spec fn is_arithmetic(op: BinaryOp) -> bool {
    op == BinaryOp::Add || op == BinaryOp::Sub || op == BinaryOp::Mul || op == BinaryOp::Div || op
        == BinaryOp::Mod
}

/// The type of an arithmetic result: `Float` if either side is, else
/// `Decimal` if either side is, else `Integer`.
pub open spec fn promote(left: TypeView, right: TypeView) -> TypeView {
    if left == TypeView::Float || right == TypeView::Float {
        TypeView::Float
    } else if left == TypeView::Decimal || right == TypeView::Decimal {
        TypeView::Decimal
    } else {
        TypeView::Integer
    }
}

/// The type of a binary expression: arithmetic promotes, everything else is
/// `Boolean`.
pub open spec fn binary_type(op: BinaryOp, left: TypeView, right: TypeView) -> TypeView {
    if is_arithmetic(op) {
        promote(left, right)
    } else {
        TypeView::Boolean
    }
}

/// The type of a unary expression: `!` is `Boolean`, `-` keeps its operand's
/// type.
pub open spec fn unary_type(op: UnaryOp, inner: TypeView) -> TypeView {
    match op {
        UnaryOp::Not => TypeView::Boolean,
        UnaryOp::Neg => inner,
    }
}

/// The element type of a list type; anything else has elements of unknown
/// type.
pub open spec fn element_type(t: TypeView) -> TypeView {
    match t {
        TypeView::List(inner) => *inner,
        _ => TypeView::Unknown,
    }
}

/// The type of `base.field`: known only when `base` is a declared component
/// that has the field. An unresolved access is not an error.
pub open spec fn field_type(sym: SymbolTableView, base: TypeView, field: Seq<char>) -> TypeView {
    match base {
        TypeView::Component(name) => if sym.components.contains_key(name) && sym.components[name].fields.contains_key(
            field,
        ) {
            sym.components[name].fields[field]
        } else {
            TypeView::Unknown
        },
        _ => TypeView::Unknown,
    }
}

/// The errors with `UndefinedComponent` appended unless `name` is declared.
pub open spec fn require_component(sym: SymbolTableView, name: Seq<char>, errs: Errors) -> Errors {
    if sym.components.contains_key(name) {
        errs
    } else {
        errs.push(SemanticErrorView::UndefinedComponent { name: name })
    }
}

/// The type of the first element, `Unknown` for the empty list. The other
/// elements are not compared with it.
pub open spec fn first_type(elements: Seq<TypedExprView>) -> TypeView {
    if elements.len() > 0 {
        elements[0].typ
    } else {
        TypeView::Unknown
    }
}

/// The type of an identifier and the errors after it: the type of the
/// variable in sight, else the component of that name, else `Unknown` and
/// one more error.
pub open spec fn identifier_type(sym: SymbolTableView, scope: ScopeView, name: Seq<char>, errs: Errors) -> (
    TypeView,
    Errors,
) {
    if scope.contains_key(name) {
        (scope[name], errs)
    } else if sym.components.contains_key(name) {
        (TypeView::Component(name), errs)
    } else {
        (TypeView::Unknown, errs.push(SemanticErrorView::UndefinedVariable { name: name }))
    }
}

/// The type of a call and the errors after it: the return type of the
/// function, else `Unknown` and one more error.
pub open spec fn call_type(sym: SymbolTableView, name: Seq<char>, errs: Errors) -> (TypeView, Errors) {
    if sym.functions.contains_key(name) {
        (sym.functions[name].return_type, errs)
    } else {
        (TypeView::Unknown, errs.push(SemanticErrorView::UndefinedFunction { name: name }))
    }
}

/// The typed form of an expression, and the errors after it.
pub open spec fn spec_expr(sym: SymbolTableView, scope: ScopeView, e: ExprView, errs: Errors) -> (
    TypedExprView,
    Errors,
)
    decreases e, 0nat,
{
    match e {
        ExprView::Literal(lit, _) => (
            TypedExprView { kind: TypedExprKindView::Literal(lit), typ: literal_type(lit) },
            errs,
        ),
        ExprView::Identifier(name, _) => (
            TypedExprView {
                kind: TypedExprKindView::Identifier(name),
                typ: identifier_type(sym, scope, name, errs).0,
            },
            identifier_type(sym, scope, name, errs).1,
        ),
        ExprView::EntityRef(name, _) => (
            TypedExprView { kind: TypedExprKindView::EntityRef(name), typ: TypeView::EntityId },
            errs,
        ),
        ExprView::FieldAccess(base, field, _) => {
            let b = spec_expr(sym, scope, *base, errs);
            (
                TypedExprView {
                    kind: TypedExprKindView::FieldAccess(Box::new(b.0), field),
                    typ: field_type(sym, b.0.typ, field),
                },
                b.1,
            )
        },
        ExprView::IndexAccess(base, index, _) => {
            let b = spec_expr(sym, scope, *base, errs);
            let i = spec_expr(sym, scope, *index, b.1);
            (
                TypedExprView {
                    kind: TypedExprKindView::IndexAccess(Box::new(b.0), Box::new(i.0)),
                    typ: element_type(b.0.typ),
                },
                i.1,
            )
        },
        ExprView::Binary(left, op, right, _) => {
            let l = spec_expr(sym, scope, *left, errs);
            let r = spec_expr(sym, scope, *right, l.1);
            (
                TypedExprView {
                    kind: TypedExprKindView::Binary(Box::new(l.0), op, Box::new(r.0)),
                    typ: binary_type(op, l.0.typ, r.0.typ),
                },
                r.1,
            )
        },
        ExprView::Unary(op, inner, _) => {
            let i = spec_expr(sym, scope, *inner, errs);
            (
                TypedExprView { kind: TypedExprKindView::Unary(op, Box::new(i.0)), typ: unary_type(op, i.0.typ) },
                i.1,
            )
        },
        ExprView::Call(name, args, _) => {
            let a = spec_exprs(sym, scope, args, args.len(), errs);
            (
                TypedExprView { kind: TypedExprKindView::Call(name, a.0), typ: call_type(sym, name, a.1).0 },
                call_type(sym, name, a.1).1,
            )
        },
        ExprView::MethodCall(base, method, args, _) => {
            let b = spec_expr(sym, scope, *base, errs);
            let a = spec_exprs(sym, scope, args, args.len(), b.1);
            (
                TypedExprView {
                    kind: TypedExprKindView::MethodCall(Box::new(b.0), method, a.0),
                    typ: TypeView::Unknown,
                },
                a.1,
            )
        },
        ExprView::HasComponent(base, component, _) => {
            let b = spec_expr(sym, scope, *base, errs);
            (
                TypedExprView {
                    kind: TypedExprKindView::HasComponent(Box::new(b.0), component),
                    typ: TypeView::Boolean,
                },
                require_component(sym, component, b.1),
            )
        },
        ExprView::Cast(inner, to, _) => {
            let i = spec_expr(sym, scope, *inner, errs);
            (
                TypedExprView {
                    kind: TypedExprKindView::Cast(Box::new(i.0), resolve_type(to)),
                    typ: resolve_type(to),
                },
                i.1,
            )
        },
        ExprView::List(elements, _) => {
            let a = spec_exprs(sym, scope, elements, elements.len(), errs);
            (
                TypedExprView {
                    kind: TypedExprKindView::List(a.0),
                    typ: TypeView::List(Box::new(first_type(a.0))),
                },
                a.1,
            )
        },
        ExprView::Paren(inner, _) => spec_expr(sym, scope, *inner, errs),
        ExprView::EntitiesHaving(component, _) => (
            TypedExprView {
                kind: TypedExprKindView::EntitiesHaving(component),
                typ: TypeView::List(Box::new(TypeView::EntityId)),
            },
            require_component(sym, component, errs),
        ),
        ExprView::CloneEntity(source, overrides, _) => {
            let s = spec_expr(sym, scope, *source, errs);
            let c = spec_component_inits(sym, scope, overrides, overrides.len(), s.1);
            (
                TypedExprView {
                    kind: TypedExprKindView::CloneEntity(Box::new(s.0), c.0),
                    typ: TypeView::EntityId,
                },
                c.1,
            )
        },
    }
}

/// The typed forms of the first `n` expressions of a list, left to right.
pub open spec fn spec_exprs(sym: SymbolTableView, scope: ScopeView, es: Seq<ExprView>, n: nat, errs: Errors) -> (
    Seq<TypedExprView>,
    Errors,
)
    decreases es, n,
{
    if n == 0 || n > es.len() {
        (Seq::empty(), errs)
    } else {
        let before = spec_exprs(sym, scope, es, (n - 1) as nat, errs);
        let last = spec_expr(sym, scope, es[n - 1], before.1);
        (before.0.push(last.0), last.1)
    }
}

/// The typed forms of the first `n` named expressions of a list.
pub open spec fn spec_field_inits(
    sym: SymbolTableView,
    scope: ScopeView,
    fields: Seq<(Seq<char>, ExprView)>,
    n: nat,
    errs: Errors,
) -> (Seq<(Seq<char>, TypedExprView)>, Errors)
    decreases fields, n,
{
    if n == 0 || n > fields.len() {
        (Seq::empty(), errs)
    } else {
        let before = spec_field_inits(sym, scope, fields, (n - 1) as nat, errs);
        let last = spec_expr(sym, scope, fields[n - 1].1, before.1);
        (before.0.push((fields[n - 1].0, last.0)), last.1)
    }
}

/// The typed form of a component initialiser: the component must be
/// declared, then the fields are typed in order.
pub open spec fn spec_component_init(sym: SymbolTableView, scope: ScopeView, c: ComponentInitView, errs: Errors) -> (
    TypedComponentInitView,
    Errors,
)
    decreases c, 0nat,
{
    let f = spec_field_inits(sym, scope, c.fields, c.fields.len(), require_component(sym, c.name, errs));
    (TypedComponentInitView { name: c.name, fields: f.0 }, f.1)
}

/// The typed forms of the first `n` component initialisers of a list.
pub open spec fn spec_component_inits(
    sym: SymbolTableView,
    scope: ScopeView,
    cs: Seq<ComponentInitView>,
    n: nat,
    errs: Errors,
) -> (Seq<TypedComponentInitView>, Errors)
    decreases cs, n,
{
    if n == 0 || n > cs.len() {
        (Seq::empty(), errs)
    } else {
        let before = spec_component_inits(sym, scope, cs, (n - 1) as nat, errs);
        let last = spec_component_init(sym, scope, cs[n - 1], before.1);
        (before.0.push(last.0), last.1)
    }
}

/// The typed form of an optional expression.
pub open spec fn spec_opt_expr(sym: SymbolTableView, scope: ScopeView, e: Option<ExprView>, errs: Errors) -> (
    Option<TypedExprView>,
    Errors,
) {
    match e {
        Some(e) => {
            let r = spec_expr(sym, scope, e, errs);
            (Some(r.0), r.1)
        },
        None => (None, errs),
    }
}

/// The typed form of a statement, the scope after it, and the errors after
/// it. Only `let` changes the scope.
pub open spec fn spec_statement(sym: SymbolTableView, scope: ScopeView, s: StatementView, errs: Errors) -> (
    TypedStatementView,
    ScopeView,
    Errors,
)
    decreases s, 0nat,
{
    match s {
        StatementView::Let(l) => {
            let v = spec_expr(sym, scope, l.value, errs);
            let var_type = match l.type_annotation {
                Some(t) => resolve_type(t),
                None => v.0.typ,
            };
            (
                TypedStatementView::Let { name: l.name, var_type: var_type, value: v.0 },
                scope.insert(l.name, var_type),
                v.1,
            )
        },
        StatementView::Assignment(a) => {
            let t = spec_expr(sym, scope, a.target, errs);
            let v = spec_expr(sym, scope, a.value, t.1);
            (TypedStatementView::Assignment { target: t.0, op: a.op, value: v.0 }, scope, v.1)
        },
        StatementView::If(i) => {
            let r = spec_if(sym, scope, i, errs);
            (TypedStatementView::If { condition: r.0, then_block: r.1, else_block: r.2 }, scope, r.3)
        },
        StatementView::For(f) => {
            let it = spec_expr(sym, scope, f.iterable, errs);
            let body = spec_block(sym, scope.insert(f.variable, element_type(it.0.typ)), f.body, it.1);
            (TypedStatementView::For { variable: f.variable, iterable: it.0, body: body.0 }, scope, body.1)
        },
        StatementView::While(w) => {
            let c = spec_expr(sym, scope, w.condition, errs);
            let body = spec_block(sym, scope, w.body, c.1);
            (TypedStatementView::While { condition: c.0, body: body.0 }, scope, body.1)
        },
        StatementView::Return(r) => {
            let v = spec_opt_expr(sym, scope, r.value, errs);
            (TypedStatementView::Return { value: v.0 }, scope, v.1)
        },
        StatementView::Schedule(sch) => {
            let d = spec_opt_expr(sym, scope, sch.delay, errs);
            let i = spec_opt_expr(sym, scope, sch.interval, d.1);
            let f = spec_field_inits(sym, scope, sch.fields, sch.fields.len(), i.1);
            (
                TypedStatementView::Schedule {
                    recurring: sch.recurring,
                    delay: d.0,
                    interval: i.0,
                    event_name: sch.event_name,
                    fields: f.0,
                },
                scope,
                f.1,
            )
        },
        StatementView::Cancel(c) => {
            let t = spec_expr(sym, scope, c.target, errs);
            (TypedStatementView::Cancel { target: t.0 }, scope, t.1)
        },
        StatementView::Create(c) => {
            let cs = spec_component_inits(sym, scope, c.components, c.components.len(), errs);
            (TypedStatementView::Create { components: cs.0 }, scope, cs.1)
        },
        StatementView::Delete(d) => {
            let e = spec_expr(sym, scope, d.entity, errs);
            (TypedStatementView::Delete { entity: e.0 }, scope, e.1)
        },
        StatementView::Expr(e) => {
            let r = spec_expr(sym, scope, e, errs);
            (TypedStatementView::Expr(r.0), scope, r.1)
        },
    }
}

/// The typed forms of the first `n` statements of a list; each sees the
/// variables that the ones before it defined.
pub open spec fn spec_statements(
    sym: SymbolTableView,
    scope: ScopeView,
    ss: Seq<StatementView>,
    n: nat,
    errs: Errors,
) -> (Seq<TypedStatementView>, ScopeView, Errors)
    decreases ss, n,
{
    if n == 0 || n > ss.len() {
        (Seq::empty(), scope, errs)
    } else {
        let before = spec_statements(sym, scope, ss, (n - 1) as nat, errs);
        let last = spec_statement(sym, before.1, ss[n - 1], before.2);
        (before.0.push(last.0), last.1, last.2)
    }
}

/// The typed form of a block. What the block defines ends with it.
pub open spec fn spec_block(sym: SymbolTableView, scope: ScopeView, b: BlockView, errs: Errors) -> (
    TypedBlockView,
    Errors,
)
    decreases b, 0nat,
{
    let r = spec_statements(sym, scope, b.statements, b.statements.len(), errs);
    (TypedBlockView { statements: r.0 }, r.2)
}

/// The typed parts of an `if`: condition, then-block, else-clause, errors.
pub open spec fn spec_if(sym: SymbolTableView, scope: ScopeView, i: IfStatementView, errs: Errors) -> (
    TypedExprView,
    TypedBlockView,
    Option<TypedElseClauseView>,
    Errors,
)
    decreases i, 0nat,
{
    let c = spec_expr(sym, scope, i.condition, errs);
    let t = spec_block(sym, scope, i.then_block, c.1);
    match i.else_block {
        Some(clause) => {
            let e = spec_else(sym, scope, *clause, t.1);
            (c.0, t.0, Some(e.0), e.1)
        },
        None => (c.0, t.0, None, t.1),
    }
}

/// The typed form of an else-clause.
pub open spec fn spec_else(sym: SymbolTableView, scope: ScopeView, clause: ElseClauseView, errs: Errors) -> (
    TypedElseClauseView,
    Errors,
)
    decreases clause, 0nat,
{
    match clause {
        ElseClauseView::ElseIf(i) => {
            let r = spec_if(sym, scope, i, errs);
            (
                TypedElseClauseView::ElseIf {
                    condition: r.0,
                    then_block: r.1,
                    else_block: match r.2 {
                        Some(c) => Some(Box::new(c)),
                        None => None,
                    },
                },
                r.3,
            )
        },
        ElseClauseView::Else(b) => {
            let r = spec_block(sym, scope, b, errs);
            (TypedElseClauseView::Else(r.0), r.1)
        },
    }
}

/// The typed form of a component declaration.
pub open spec fn spec_component(c: ComponentDefView) -> TypedComponentView {
    TypedComponentView { name: c.name, fields: spec_fields(c.fields) }
}

/// The typed forms of the fields of a component.
pub open spec fn spec_fields(fields: Seq<FieldDefView>) -> Seq<TypedFieldView> {
    Seq::new(
        fields.len(),
        |i: int|
            TypedFieldView {
                name: fields[i].name,
                field_type: resolve_type(fields[i].field_type),
                optional: fields[i].optional,
            },
    )
}

/// The typed forms of a parameter list.
pub open spec fn spec_params(params: Seq<ParamDefView>) -> Seq<TypedParamView> {
    Seq::new(
        params.len(),
        |i: int| TypedParamView { name: params[i].name, param_type: resolve_type(params[i].param_type) },
    )
}

/// A parameter list as (name, type) pairs.
pub open spec fn param_signature(params: Seq<ParamDefView>) -> Seq<(Seq<char>, TypeView)> {
    Seq::new(params.len(), |i: int| (params[i].name, resolve_type(params[i].param_type)))
}

/// The scope in which a body sees the first `n` parameters; of two
/// parameters with one name the later one counts.
pub open spec fn param_scope(params: Seq<ParamDefView>, n: nat) -> ScopeView
    decreases n,
{
    if n == 0 || n > params.len() {
        Map::empty()
    } else {
        param_scope(params, (n - 1) as nat).insert(params[n - 1].name, resolve_type(params[n - 1].param_type))
    }
}

/// The scope of a rule: `event` and `entity`, both entity ids.
pub open spec fn rule_scope() -> ScopeView {
    Map::<Seq<char>, TypeView>::empty().insert("event"@, TypeView::EntityId).insert("entity"@, TypeView::EntityId)
}

/// The typed form of a rule.
pub open spec fn spec_rule(sym: SymbolTableView, r: RuleDefView, errs: Errors) -> (TypedRuleView, Errors) {
    let c = spec_opt_expr(sym, rule_scope(), r.condition, errs);
    let b = spec_block(sym, rule_scope(), r.body, c.1);
    (
        TypedRuleView {
            name: r.name,
            trigger_event: r.trigger_event,
            condition: c.0,
            priority: r.priority,
            body: b.0,
        },
        b.1,
    )
}

/// The typed form of a function.
pub open spec fn spec_function(sym: SymbolTableView, f: FunctionDefView, errs: Errors) -> (
    TypedFunctionView,
    Errors,
) {
    let b = spec_block(sym, param_scope(f.params, f.params.len()), f.body, errs);
    (
        TypedFunctionView {
            name: f.name,
            params: spec_params(f.params),
            return_type: resolve_return_type(f.return_type),
            body: b.0,
        },
        b.1,
    )
}

/// The typed form of a choice function bound to an entity.
pub open spec fn spec_bound_function(sym: SymbolTableView, f: BoundFunctionDefView, errs: Errors) -> (
    TypedBoundFunctionView,
    Errors,
) {
    let b = spec_block(sym, param_scope(f.params, f.params.len()), f.body, errs);
    (
        TypedBoundFunctionView {
            name: f.name,
            params: spec_params(f.params),
            return_type: resolve_return_type(f.return_type),
            body: b.0,
        },
        b.1,
    )
}

/// The typed forms of the first `n` bound functions of a list.
pub open spec fn spec_bound_functions(sym: SymbolTableView, fs: Seq<BoundFunctionDefView>, n: nat, errs: Errors) -> (
    Seq<TypedBoundFunctionView>,
    Errors,
)
    decreases n,
{
    if n == 0 || n > fs.len() {
        (Seq::empty(), errs)
    } else {
        let before = spec_bound_functions(sym, fs, (n - 1) as nat, errs);
        let last = spec_bound_function(sym, fs[n - 1], before.1);
        (before.0.push(last.0), last.1)
    }
}

/// The typed form of a tracker: its component must be declared.
pub open spec fn spec_tracker(sym: SymbolTableView, t: TrackerDefView, errs: Errors) -> (TypedTrackerView, Errors) {
    (TypedTrackerView { component: t.component, event: t.event }, require_component(sym, t.component, errs))
}

/// The typed form of an entity: its field values see no variables.
pub open spec fn spec_entity(sym: SymbolTableView, e: EntityDefView, errs: Errors) -> (TypedEntityView, Errors) {
    let c = spec_component_inits(sym, Map::empty(), e.components, e.components.len(), errs);
    let f = spec_bound_functions(sym, e.bound_functions, e.bound_functions.len(), c.1);
    (TypedEntityView { variable: e.variable, components: c.0, bound_functions: f.0 }, f.1)
}

/// The typed form of an item. Imports and nested modules have none.
pub open spec fn spec_item(sym: SymbolTableView, item: ItemView, errs: Errors) -> (Option<TypedItemView>, Errors) {
    match item {
        ItemView::Component(c) => (Some(TypedItemView::Component(spec_component(c))), errs),
        ItemView::Rule(r) => {
            let t = spec_rule(sym, r, errs);
            (Some(TypedItemView::Rule(t.0)), t.1)
        },
        ItemView::Function(f) => {
            let t = spec_function(sym, f, errs);
            (Some(TypedItemView::Function(t.0)), t.1)
        },
        ItemView::Tracker(k) => {
            let t = spec_tracker(sym, k, errs);
            (Some(TypedItemView::Tracker(t.0)), t.1)
        },
        ItemView::Entity(e) => {
            let t = spec_entity(sym, e, errs);
            (Some(TypedItemView::Entity(t.0)), t.1)
        },
        ItemView::Import(_) => (None, errs),
        ItemView::ModuleDef(_) => (None, errs),
    }
}

/// The typed forms of the first `n` items, in source order.
pub open spec fn spec_items(sym: SymbolTableView, items: Seq<ItemView>, n: nat, errs: Errors) -> (
    Seq<TypedItemView>,
    Errors,
)
    decreases n,
{
    if n == 0 || n > items.len() {
        (Seq::empty(), errs)
    } else {
        let before = spec_items(sym, items, (n - 1) as nat, errs);
        let last = spec_item(sym, items[n - 1], before.1);
        match last.0 {
            Some(t) => (before.0.push(t), last.1),
            None => (before.0, last.1),
        }
    }
}

/// A component's fields as (name, type) pairs.
pub open spec fn field_signature(fields: Seq<FieldDefView>) -> Seq<(Seq<char>, TypeView)> {
    Seq::new(fields.len(), |i: int| (fields[i].name, resolve_type(fields[i].field_type)))
}

/// The table after one item has been registered. Only components,
/// functions and trackers register anything.
pub open spec fn collect_item(table: SymbolTableView, item: ItemView) -> SymbolTableView {
    match item {
        ItemView::Component(c) => table.with_component(c.name, field_signature(c.fields)),
        ItemView::Function(f) => table.with_function(
            f.name,
            param_signature(f.params),
            resolve_return_type(f.return_type),
        ),
        ItemView::Tracker(t) => table.with_tracker(t.component, t.event),
        _ => table,
    }
}

/// The table after the first `n` items have been registered.
pub open spec fn collect(table: SymbolTableView, items: Seq<ItemView>, n: nat) -> SymbolTableView
    decreases n,
{
    if n == 0 || n > items.len() {
        table
    } else {
        collect_item(collect(table, items, (n - 1) as nat), items[n - 1])
    }
}

/// One parameter named `name` of type `Float`.
pub open spec fn float_param(name: Seq<char>) -> (Seq<char>, TypeView) {
    (name, TypeView::Float)
}

/// The table that every analysis starts from: the built-in functions.
pub open spec fn builtin_symbols() -> SymbolTableView {
    SymbolTableView::empty().with_function(
        "min"@,
        seq![float_param("a"@), float_param("b"@)],
        TypeView::Float,
    ).with_function("max"@, seq![float_param("a"@), float_param("b"@)], TypeView::Float).with_function(
        "floor"@,
        seq![float_param("x"@)],
        TypeView::Integer,
    ).with_function("ceil"@, seq![float_param("x"@)], TypeView::Integer).with_function(
        "round"@,
        seq![float_param("x"@)],
        TypeView::Integer,
    ).with_function("abs"@, seq![float_param("x"@)], TypeView::Float).with_function(
        "random"@,
        Seq::empty(),
        TypeView::Float,
    ).with_function(
        "random_range"@,
        seq![float_param("min"@), float_param("max"@)],
        TypeView::Float,
    ).with_function("len"@, seq![("list"@, TypeView::List(Box::new(TypeView::Unknown)))], TypeView::Integer)
}

/// The symbols of a module: the built-ins, then every item's definitions,
/// whatever their order in the source.
pub open spec fn module_symbols(m: ModuleView) -> SymbolTableView {
    collect(builtin_symbols(), m.items, m.items.len())
}

/// The analysis of a module by an analyzer that knows `known` and has found
/// `errs`: all definitions are collected first, then every item is typed
/// against them.
pub open spec fn spec_analyze_with(known: SymbolTableView, errs: Errors, m: ModuleView) -> (
    TypedModuleView,
    Errors,
) {
    let sym = collect(known, m.items, m.items.len());
    let r = spec_items(sym, m.items, m.items.len(), errs);
    (TypedModuleView { items: r.0, symbols: sym }, r.1)
}

/// The analysis of a module by a fresh analyzer. The errors are all that
/// the walk finds.
pub open spec fn spec_analyze(m: ModuleView) -> (TypedModuleView, Errors) {
    spec_analyze_with(builtin_symbols(), Seq::empty(), m)
}

} // verus!
