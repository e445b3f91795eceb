//! What holds of every analysis.

use vstd::prelude::*;
use crate::analyzer::errors::SemanticErrorView;
use crate::analyzer::rules::{
    builtin_symbols, collect, collect_item, element_type, is_arithmetic, module_symbols, param_scope,
    require_component, rule_scope, spec_analyze, spec_block, spec_bound_functions, spec_component_init,
    spec_component_inits, spec_else, spec_expr, spec_exprs, spec_field_inits, spec_if, spec_item, spec_items,
    spec_opt_expr, spec_statement, spec_statements, Errors,
};
use crate::analyzer::scope::ScopeView;
use crate::analyzer::symbols::SymbolTableView;
use crate::analyzer::types::TypeView;
use crate::lexer::Span;
use crate::parser::ast::{
    BinaryOp, BlockView, BoundFunctionDefView, ComponentInitView, ElseClauseView, ExprView, IfStatementView,
    ItemView, ModuleView, StatementView,
};

verus! {

/// Type promotion: an arithmetic expression is `Float` if either operand
/// is, else `Decimal` if either operand is, else `Integer`; whatever the
/// operands are and whatever errors they hold.
pub proof fn lemma_type_promotion(
    sym: SymbolTableView,
    scope: ScopeView,
    left: ExprView,
    op: BinaryOp,
    right: ExprView,
    span: Span,
    errs: Errors,
)
    requires
        is_arithmetic(op),
    ensures
        ({
            let l = spec_expr(sym, scope, left, errs);
            let r = spec_expr(sym, scope, right, l.1);
            let whole = spec_expr(sym, scope, ExprView::Binary(Box::new(left), op, Box::new(right), span), errs).0;
            &&& (l.0.typ == TypeView::Float || r.0.typ == TypeView::Float) ==> whole.typ == TypeView::Float
            &&& (l.0.typ != TypeView::Float && r.0.typ != TypeView::Float && (l.0.typ == TypeView::Decimal
                || r.0.typ == TypeView::Decimal)) ==> whole.typ == TypeView::Decimal
            &&& (l.0.typ != TypeView::Float && r.0.typ != TypeView::Float && l.0.typ != TypeView::Decimal
                && r.0.typ != TypeView::Decimal) ==> whole.typ == TypeView::Integer
        }),
{
}

/// A comparison, an equality test and a logical operator are `Boolean`,
/// whatever their operands are.
pub proof fn lemma_comparison_is_boolean(
    sym: SymbolTableView,
    scope: ScopeView,
    left: ExprView,
    op: BinaryOp,
    right: ExprView,
    span: Span,
    errs: Errors,
)
    requires
        !is_arithmetic(op),
    ensures
        spec_expr(sym, scope, ExprView::Binary(Box::new(left), op, Box::new(right), span), errs).0.typ
            == TypeView::Boolean,
{
}

/// Registering an item forgets no component.
pub proof fn lemma_collect_item_keeps(table: SymbolTableView, item: ItemView, name: Seq<char>)
    requires
        table.components.contains_key(name),
    ensures
        collect_item(table, item).components.contains_key(name),
{
}

/// A component registered among the first `k + 1` items is known after any
/// number of further items.
pub proof fn lemma_collect_has_component(table: SymbolTableView, items: Seq<ItemView>, k: int, n: nat)
    requires
        0 <= k < n <= items.len(),
        items[k] is Component,
    ensures
        collect(table, items, n).components.contains_key(items[k]->Component_0.name),
    decreases n,
{
    if n == k + 1 {
    } else {
        lemma_collect_has_component(table, items, k, (n - 1) as nat);
        lemma_collect_item_keeps(
            collect(table, items, (n - 1) as nat),
            items[n - 1],
            items[k]->Component_0.name,
        );
    }
}

/// Forward reference: every component that a module declares, wherever it
/// stands, is in the symbols that every item is checked against; so its
/// name, used as an identifier anywhere in the module, is no error.
pub proof fn lemma_forward_reference(m: ModuleView, k: int, scope: ScopeView, span: Span, errs: Errors)
    requires
        0 <= k < m.items.len(),
        m.items[k] is Component,
    ensures
        module_symbols(m).components.contains_key(m.items[k]->Component_0.name),
        spec_expr(module_symbols(m), scope, ExprView::Identifier(m.items[k]->Component_0.name, span), errs).1
            == errs,
        spec_analyze(m).0.symbols == module_symbols(m),
{
    lemma_collect_has_component(builtin_symbols(), m.items, k, m.items.len());
}

/// Analysis of an expression keeps every error found before it: the errors
/// that go in are a prefix of those that come out.
pub proof fn lemma_expr_keeps_errors(sym: SymbolTableView, scope: ScopeView, e: ExprView, errs: Errors)
    ensures
        errs.is_prefix_of(spec_expr(sym, scope, e, errs).1),
    decreases e, 0nat,
{
    match e {
        ExprView::FieldAccess(base, _, _) => {
            lemma_expr_keeps_errors(sym, scope, *base, errs);
        },
        ExprView::IndexAccess(base, index, _) => {
            lemma_expr_keeps_errors(sym, scope, *base, errs);
            lemma_expr_keeps_errors(sym, scope, *index, spec_expr(sym, scope, *base, errs).1);
        },
        ExprView::Binary(left, _, right, _) => {
            lemma_expr_keeps_errors(sym, scope, *left, errs);
            lemma_expr_keeps_errors(sym, scope, *right, spec_expr(sym, scope, *left, errs).1);
        },
        ExprView::Unary(_, inner, _) => {
            lemma_expr_keeps_errors(sym, scope, *inner, errs);
        },
        ExprView::Call(_, args, _) => {
            lemma_exprs_keep_errors(sym, scope, args, args.len(), errs);
        },
        ExprView::MethodCall(base, _, args, _) => {
            lemma_expr_keeps_errors(sym, scope, *base, errs);
            lemma_exprs_keep_errors(sym, scope, args, args.len(), spec_expr(sym, scope, *base, errs).1);
        },
        ExprView::HasComponent(base, _, _) => {
            lemma_expr_keeps_errors(sym, scope, *base, errs);
        },
        ExprView::Cast(inner, _, _) => {
            lemma_expr_keeps_errors(sym, scope, *inner, errs);
        },
        ExprView::List(elements, _) => {
            lemma_exprs_keep_errors(sym, scope, elements, elements.len(), errs);
        },
        ExprView::Paren(inner, _) => {
            lemma_expr_keeps_errors(sym, scope, *inner, errs);
        },
        ExprView::CloneEntity(source, overrides, _) => {
            lemma_expr_keeps_errors(sym, scope, *source, errs);
            lemma_component_inits_keep_errors(
                sym,
                scope,
                overrides,
                overrides.len(),
                spec_expr(sym, scope, *source, errs).1,
            );
        },
        _ => {},
    }
}

/// Analysis of a list of expressions keeps every error found before it.
pub proof fn lemma_exprs_keep_errors(sym: SymbolTableView, scope: ScopeView, es: Seq<ExprView>, n: nat, errs: Errors)
    ensures
        errs.is_prefix_of(spec_exprs(sym, scope, es, n, errs).1),
    decreases es, n,
{
    if n == 0 || n > es.len() {
    } else {
        lemma_exprs_keep_errors(sym, scope, es, (n - 1) as nat, errs);
        lemma_expr_keeps_errors(sym, scope, es[n - 1], spec_exprs(sym, scope, es, (n - 1) as nat, errs).1);
    }
}

/// Analysis of a list of named expressions keeps every error found before
/// it.
pub proof fn lemma_field_inits_keep_errors(
    sym: SymbolTableView,
    scope: ScopeView,
    fields: Seq<(Seq<char>, ExprView)>,
    n: nat,
    errs: Errors,
)
    ensures
        errs.is_prefix_of(spec_field_inits(sym, scope, fields, n, errs).1),
    decreases fields, n,
{
    if n == 0 || n > fields.len() {
    } else {
        lemma_field_inits_keep_errors(sym, scope, fields, (n - 1) as nat, errs);
        lemma_expr_keeps_errors(
            sym,
            scope,
            fields[n - 1].1,
            spec_field_inits(sym, scope, fields, (n - 1) as nat, errs).1,
        );
    }
}

/// Analysis of a component initialiser keeps every error found before it.
pub proof fn lemma_component_init_keeps_errors(
    sym: SymbolTableView,
    scope: ScopeView,
    c: ComponentInitView,
    errs: Errors,
)
    ensures
        errs.is_prefix_of(spec_component_init(sym, scope, c, errs).1),
    decreases c, 0nat,
{
    lemma_field_inits_keep_errors(sym, scope, c.fields, c.fields.len(), require_component(sym, c.name, errs));
}

/// Analysis of a list of component initialisers keeps every error found
/// before it.
pub proof fn lemma_component_inits_keep_errors(
    sym: SymbolTableView,
    scope: ScopeView,
    cs: Seq<ComponentInitView>,
    n: nat,
    errs: Errors,
)
    ensures
        errs.is_prefix_of(spec_component_inits(sym, scope, cs, n, errs).1),
    decreases cs, n,
{
    if n == 0 || n > cs.len() {
    } else {
        lemma_component_inits_keep_errors(sym, scope, cs, (n - 1) as nat, errs);
        lemma_component_init_keeps_errors(
            sym,
            scope,
            cs[n - 1],
            spec_component_inits(sym, scope, cs, (n - 1) as nat, errs).1,
        );
    }
}

/// Analysis of an optional expression keeps every error found before it.
pub proof fn lemma_opt_expr_keeps_errors(sym: SymbolTableView, scope: ScopeView, e: Option<ExprView>, errs: Errors)
    ensures
        errs.is_prefix_of(spec_opt_expr(sym, scope, e, errs).1),
{
    match e {
        Some(e) => {
            lemma_expr_keeps_errors(sym, scope, e, errs);
        },
        None => {},
    }
}

/// Analysis of a statement keeps every error found before it.
pub proof fn lemma_statement_keeps_errors(sym: SymbolTableView, scope: ScopeView, s: StatementView, errs: Errors)
    ensures
        errs.is_prefix_of(spec_statement(sym, scope, s, errs).2),
    decreases s, 0nat,
{
    match s {
        StatementView::Let(l) => {
            lemma_expr_keeps_errors(sym, scope, l.value, errs);
        },
        StatementView::Assignment(a) => {
            lemma_expr_keeps_errors(sym, scope, a.target, errs);
            lemma_expr_keeps_errors(sym, scope, a.value, spec_expr(sym, scope, a.target, errs).1);
        },
        StatementView::If(i) => {
            lemma_if_keeps_errors(sym, scope, i, errs);
        },
        StatementView::For(f) => {
            lemma_expr_keeps_errors(sym, scope, f.iterable, errs);
            let it = spec_expr(sym, scope, f.iterable, errs);
            lemma_block_keeps_errors(
                sym,
                scope.insert(f.variable, element_type(it.0.typ)),
                f.body,
                it.1,
            );
        },
        StatementView::While(w) => {
            lemma_expr_keeps_errors(sym, scope, w.condition, errs);
            lemma_block_keeps_errors(sym, scope, w.body, spec_expr(sym, scope, w.condition, errs).1);
        },
        StatementView::Return(r) => {
            lemma_opt_expr_keeps_errors(sym, scope, r.value, errs);
        },
        StatementView::Schedule(sch) => {
            lemma_opt_expr_keeps_errors(sym, scope, sch.delay, errs);
            let d = spec_opt_expr(sym, scope, sch.delay, errs);
            lemma_opt_expr_keeps_errors(sym, scope, sch.interval, d.1);
            let i = spec_opt_expr(sym, scope, sch.interval, d.1);
            lemma_field_inits_keep_errors(sym, scope, sch.fields, sch.fields.len(), i.1);
        },
        StatementView::Cancel(c) => {
            lemma_expr_keeps_errors(sym, scope, c.target, errs);
        },
        StatementView::Create(c) => {
            lemma_component_inits_keep_errors(sym, scope, c.components, c.components.len(), errs);
        },
        StatementView::Delete(d) => {
            lemma_expr_keeps_errors(sym, scope, d.entity, errs);
        },
        StatementView::Expr(e) => {
            lemma_expr_keeps_errors(sym, scope, e, errs);
        },
    }
}

/// Analysis of a list of statements keeps every error found before it.
pub proof fn lemma_statements_keep_errors(
    sym: SymbolTableView,
    scope: ScopeView,
    ss: Seq<StatementView>,
    n: nat,
    errs: Errors,
)
    ensures
        errs.is_prefix_of(spec_statements(sym, scope, ss, n, errs).2),
    decreases ss, n,
{
    if n == 0 || n > ss.len() {
    } else {
        lemma_statements_keep_errors(sym, scope, ss, (n - 1) as nat, errs);
        let before = spec_statements(sym, scope, ss, (n - 1) as nat, errs);
        lemma_statement_keeps_errors(sym, before.1, ss[n - 1], before.2);
    }
}

/// Analysis of a block keeps every error found before it.
pub proof fn lemma_block_keeps_errors(sym: SymbolTableView, scope: ScopeView, b: BlockView, errs: Errors)
    ensures
        errs.is_prefix_of(spec_block(sym, scope, b, errs).1),
    decreases b, 0nat,
{
    lemma_statements_keep_errors(sym, scope, b.statements, b.statements.len(), errs);
}

/// Analysis of an `if` keeps every error found before it.
pub proof fn lemma_if_keeps_errors(sym: SymbolTableView, scope: ScopeView, i: IfStatementView, errs: Errors)
    ensures
        errs.is_prefix_of(spec_if(sym, scope, i, errs).3),
    decreases i, 0nat,
{
    lemma_expr_keeps_errors(sym, scope, i.condition, errs);
    let c = spec_expr(sym, scope, i.condition, errs);
    lemma_block_keeps_errors(sym, scope, i.then_block, c.1);
    let t = spec_block(sym, scope, i.then_block, c.1);
    match i.else_block {
        Some(clause) => {
            lemma_else_keeps_errors(sym, scope, *clause, t.1);
        },
        None => {},
    }
}

/// Analysis of an else-clause keeps every error found before it.
pub proof fn lemma_else_keeps_errors(sym: SymbolTableView, scope: ScopeView, clause: ElseClauseView, errs: Errors)
    ensures
        errs.is_prefix_of(spec_else(sym, scope, clause, errs).1),
    decreases clause, 0nat,
{
    match clause {
        ElseClauseView::ElseIf(i) => {
            lemma_if_keeps_errors(sym, scope, i, errs);
        },
        ElseClauseView::Else(b) => {
            lemma_block_keeps_errors(sym, scope, b, errs);
        },
    }
}

/// Analysis of a list of bound functions keeps every error found before
/// it.
pub proof fn lemma_bound_functions_keep_errors(
    sym: SymbolTableView,
    fs: Seq<BoundFunctionDefView>,
    n: nat,
    errs: Errors,
)
    ensures
        errs.is_prefix_of(spec_bound_functions(sym, fs, n, errs).1),
    decreases n,
{
    if n == 0 || n > fs.len() {
    } else {
        lemma_bound_functions_keep_errors(sym, fs, (n - 1) as nat, errs);
        let before = spec_bound_functions(sym, fs, (n - 1) as nat, errs);
        lemma_block_keeps_errors(
            sym,
            param_scope(fs[n - 1].params, fs[n - 1].params.len()),
            fs[n - 1].body,
            before.1,
        );
    }
}

/// Analysis of an item keeps every error found before it.
pub proof fn lemma_item_keeps_errors(sym: SymbolTableView, item: ItemView, errs: Errors)
    ensures
        errs.is_prefix_of(spec_item(sym, item, errs).1),
{
    match item {
        ItemView::Rule(r) => {
            lemma_opt_expr_keeps_errors(sym, rule_scope(), r.condition, errs);
            let c = spec_opt_expr(sym, rule_scope(), r.condition, errs);
            lemma_block_keeps_errors(sym, rule_scope(), r.body, c.1);
        },
        ItemView::Function(f) => {
            lemma_block_keeps_errors(
                sym,
                param_scope(f.params, f.params.len()),
                f.body,
                errs,
            );
        },
        ItemView::Entity(e) => {
            lemma_component_inits_keep_errors(sym, Map::empty(), e.components, e.components.len(), errs);
            let c = spec_component_inits(sym, Map::empty(), e.components, e.components.len(), errs);
            lemma_bound_functions_keep_errors(sym, e.bound_functions, e.bound_functions.len(), c.1);
        },
        _ => {},
    }
}

/// Accumulation: analysis never stops at an error and never drops one.
/// The errors found in the first `n` items are still there, in the same
/// order, when more items have been analyzed.
pub proof fn lemma_items_accumulate_errors(sym: SymbolTableView, items: Seq<ItemView>, n: nat, m: nat, errs: Errors)
    requires
        n <= m <= items.len(),
    ensures
        spec_items(sym, items, n, errs).1.is_prefix_of(spec_items(sym, items, m, errs).1),
    decreases m,
{
    if n < m {
        lemma_items_accumulate_errors(sym, items, n, (m - 1) as nat, errs);
        lemma_item_keeps_errors(sym, items[m - 1], spec_items(sym, items, (m - 1) as nat, errs).1);
    }
}

/// Only `let` changes what the statements after it see: every other
/// statement, whatever blocks it holds, leaves the scope as it found it.
pub proof fn lemma_only_let_changes_scope(sym: SymbolTableView, scope: ScopeView, s: StatementView, errs: Errors)
    ensures
        !(s is Let) ==> spec_statement(sym, scope, s, errs).1 == scope,
        s is Let ==> spec_statement(sym, scope, s, errs).1.dom() == scope.dom().insert(s->Let_0.name),
{
}

/// An identifier that is neither a variable in sight nor a declared
/// component adds exactly one error, `UndefinedVariable`, and analysis goes
/// on with the type `Unknown`.
pub proof fn lemma_undefined_variable(sym: SymbolTableView, scope: ScopeView, name: Seq<char>, span: Span, errs: Errors)
    requires
        !scope.contains_key(name),
        !sym.components.contains_key(name),
    ensures
        spec_expr(sym, scope, ExprView::Identifier(name, span), errs).1 == errs.push(
            SemanticErrorView::UndefinedVariable { name: name },
        ),
        spec_expr(sym, scope, ExprView::Identifier(name, span), errs).0.typ == TypeView::Unknown,
{
}

/// A call of a function that is neither declared nor built in adds
/// exactly one error, `UndefinedFunction`, after those of its arguments.
pub proof fn lemma_undefined_function(
    sym: SymbolTableView,
    scope: ScopeView,
    name: Seq<char>,
    args: Seq<ExprView>,
    span: Span,
    errs: Errors,
)
    requires
        !sym.functions.contains_key(name),
    ensures
        spec_expr(sym, scope, ExprView::Call(name, args, span), errs).1 == spec_exprs(
            sym,
            scope,
            args,
            args.len(),
            errs,
        ).1.push(SemanticErrorView::UndefinedFunction { name: name }),
        spec_expr(sym, scope, ExprView::Call(name, args, span), errs).0.typ == TypeView::Unknown,
{
}

/// A query for the entities that have an undeclared component adds exactly
/// one error, `UndefinedComponent`.
pub proof fn lemma_undefined_component(
    sym: SymbolTableView,
    scope: ScopeView,
    name: Seq<char>,
    span: Span,
    errs: Errors,
)
    requires
        !sym.components.contains_key(name),
    ensures
        spec_expr(sym, scope, ExprView::EntitiesHaving(name, span), errs).1 == errs.push(
            SemanticErrorView::UndefinedComponent { name: name },
        ),
{
}

/// A reference that resolves adds no error.
pub proof fn lemma_defined_references(sym: SymbolTableView, scope: ScopeView, name: Seq<char>, span: Span, errs: Errors)
    ensures
        scope.contains_key(name) || sym.components.contains_key(name) ==> spec_expr(
            sym,
            scope,
            ExprView::Identifier(name, span),
            errs,
        ).1 == errs,
        sym.functions.contains_key(name) ==> spec_expr(sym, scope, ExprView::Call(name, Seq::empty(), span), errs).1
            == errs,
        sym.components.contains_key(name) ==> spec_expr(sym, scope, ExprView::EntitiesHaving(name, span), errs).1
            == errs,
{
    assert(spec_exprs(sym, scope, Seq::<ExprView>::empty(), 0, errs).1 == errs);
}

} // verus!
