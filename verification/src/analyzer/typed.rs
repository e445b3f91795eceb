//! The typed syntax tree: the parser's tree with every expression given a
//! [`Type`], and every written type resolved.

use vstd::prelude::*;
use crate::parser::ast::{AssignOp, BinaryOp, Literal, LiteralView, UnaryOp};
use crate::analyzer::types::{Type, TypeView};
use crate::analyzer::symbols::{SymbolTable, SymbolTableView};

verus! {

/// The result of analysis: the typed items and the symbols they were
/// checked against.
#[derive(Debug)]
pub struct TypedModule {
    pub items: Vec<TypedItem>,
    pub symbols: SymbolTable,
}

/// The value of [`TypedModule`]: text as `Seq<char>`, lists as `Seq`.
pub struct TypedModuleView {
    pub items: Seq<TypedItemView>,
    pub symbols: SymbolTableView,
}

impl TypedModule {
    /// What this value denotes.
    pub open spec fn spec_view(self) -> TypedModuleView
    {
        TypedModuleView { items: TypedItem::views(self.items@), symbols: self.symbols.spec_view() }
    }
}

impl View for TypedModule {
    type V = TypedModuleView;

    open spec fn view(&self) -> TypedModuleView {
        (*self).spec_view()
    }
}

/// A typed top-level item. Imports and nested modules have none.
#[derive(Debug)]
pub enum TypedItem {
    Component(TypedComponent),
    Rule(TypedRule),
    Function(TypedFunction),
    Tracker(TypedTracker),
    Entity(TypedEntity),
}

/// The value of [`TypedItem`]: text as `Seq<char>`, lists as `Seq`.
pub enum TypedItemView {
    Component(TypedComponentView),
    Rule(TypedRuleView),
    Function(TypedFunctionView),
    Tracker(TypedTrackerView),
    Entity(TypedEntityView),
}

impl TypedItem {
    /// What this value denotes.
    pub open spec fn spec_view(self) -> TypedItemView
    {
        match self {
            TypedItem::Component(a) => TypedItemView::Component(a.spec_view()),
            TypedItem::Rule(a) => TypedItemView::Rule(a.spec_view()),
            TypedItem::Function(a) => TypedItemView::Function(a.spec_view()),
            TypedItem::Tracker(a) => TypedItemView::Tracker(a.spec_view()),
            TypedItem::Entity(a) => TypedItemView::Entity(a.spec_view()),
        }
    }

    /// The values of a list, element by element.
    pub open spec fn views(s: Seq<TypedItem>) -> Seq<TypedItemView>
    {
        Seq::new(s.len(), |i: int| s[i].spec_view())
    }
}

impl View for TypedItem {
    type V = TypedItemView;

    open spec fn view(&self) -> TypedItemView {
        (*self).spec_view()
    }
}

/// A typed entity of the initial state.
#[derive(Debug)]
pub struct TypedEntity {
    /// The name the entity was bound to, if any.
    pub variable: Option<String>,
    pub components: Vec<TypedComponentInit>,
    pub bound_functions: Vec<TypedBoundFunction>,
}

/// The value of [`TypedEntity`]: text as `Seq<char>`, lists as `Seq`.
pub struct TypedEntityView {
    pub variable: Option<Seq<char>>,
    pub components: Seq<TypedComponentInitView>,
    pub bound_functions: Seq<TypedBoundFunctionView>,
}

impl TypedEntity {
    /// What this value denotes.
    pub open spec fn spec_view(self) -> TypedEntityView
    {
        TypedEntityView {
            variable: match self.variable { Some(x1) => Some(x1@), None => None },
            components: TypedComponentInit::views(self.components@),
            bound_functions: TypedBoundFunction::views(self.bound_functions@),
        }
    }
}

impl View for TypedEntity {
    type V = TypedEntityView;

    open spec fn view(&self) -> TypedEntityView {
        (*self).spec_view()
    }
}

/// A typed choice function bound to an entity.
#[derive(Debug)]
pub struct TypedBoundFunction {
    pub name: String,
    pub params: Vec<TypedParam>,
    pub return_type: Type,
    pub body: TypedBlock,
}

/// The value of [`TypedBoundFunction`]: text as `Seq<char>`, lists as `Seq`.
pub struct TypedBoundFunctionView {
    pub name: Seq<char>,
    pub params: Seq<TypedParamView>,
    pub return_type: TypeView,
    pub body: TypedBlockView,
}

impl TypedBoundFunction {
    /// What this value denotes.
    pub open spec fn spec_view(self) -> TypedBoundFunctionView
    {
        TypedBoundFunctionView {
            name: self.name@,
            params: TypedParam::views(self.params@),
            return_type: self.return_type.spec_view(),
            body: self.body.spec_view(),
        }
    }

    /// The values of a list, element by element.
    pub open spec fn views(s: Seq<TypedBoundFunction>) -> Seq<TypedBoundFunctionView>
    {
        Seq::new(s.len(), |i: int| s[i].spec_view())
    }
}

impl View for TypedBoundFunction {
    type V = TypedBoundFunctionView;

    open spec fn view(&self) -> TypedBoundFunctionView {
        (*self).spec_view()
    }
}

/// A typed component declaration.
#[derive(Debug)]
pub struct TypedComponent {
    pub name: String,
    pub fields: Vec<TypedField>,
}

/// The value of [`TypedComponent`]: text as `Seq<char>`, lists as `Seq`.
pub struct TypedComponentView {
    pub name: Seq<char>,
    pub fields: Seq<TypedFieldView>,
}

impl TypedComponent {
    /// What this value denotes.
    pub open spec fn spec_view(self) -> TypedComponentView
    {
        TypedComponentView { name: self.name@, fields: TypedField::views(self.fields@) }
    }
}

impl View for TypedComponent {
    type V = TypedComponentView;

    open spec fn view(&self) -> TypedComponentView {
        (*self).spec_view()
    }
}

/// A typed component field.
#[derive(Debug)]
pub struct TypedField {
    pub name: String,
    pub field_type: Type,
    pub optional: bool,
}

/// The value of [`TypedField`]: text as `Seq<char>`, lists as `Seq`.
pub struct TypedFieldView {
    pub name: Seq<char>,
    pub field_type: TypeView,
    pub optional: bool,
}

impl TypedField {
    /// What this value denotes.
    pub open spec fn spec_view(self) -> TypedFieldView
    {
        TypedFieldView { name: self.name@, field_type: self.field_type.spec_view(), optional: self.optional }
    }

    /// The values of a list, element by element.
    pub open spec fn views(s: Seq<TypedField>) -> Seq<TypedFieldView>
    {
        Seq::new(s.len(), |i: int| s[i].spec_view())
    }
}

impl View for TypedField {
    type V = TypedFieldView;

    open spec fn view(&self) -> TypedFieldView {
        (*self).spec_view()
    }
}

/// A typed rule.
#[derive(Debug)]
pub struct TypedRule {
    pub name: Option<String>,
    pub trigger_event: String,
    pub condition: Option<TypedExpr>,
    pub priority: Option<i32>,
    pub body: TypedBlock,
}

/// The value of [`TypedRule`]: text as `Seq<char>`, lists as `Seq`.
pub struct TypedRuleView {
    pub name: Option<Seq<char>>,
    pub trigger_event: Seq<char>,
    pub condition: Option<TypedExprView>,
    pub priority: Option<i32>,
    pub body: TypedBlockView,
}

impl TypedRule {
    /// What this value denotes.
    pub open spec fn spec_view(self) -> TypedRuleView
    {
        TypedRuleView {
            name: match self.name { Some(x2) => Some(x2@), None => None },
            trigger_event: self.trigger_event@,
            condition: match self.condition { Some(x3) => Some(x3.spec_view()), None => None },
            priority: match self.priority { Some(x4) => Some(x4), None => None },
            body: self.body.spec_view(),
        }
    }
}

impl View for TypedRule {
    type V = TypedRuleView;

    open spec fn view(&self) -> TypedRuleView {
        (*self).spec_view()
    }
}

/// A typed function.
#[derive(Debug)]
pub struct TypedFunction {
    pub name: String,
    pub params: Vec<TypedParam>,
    pub return_type: Type,
    pub body: TypedBlock,
}

/// The value of [`TypedFunction`]: text as `Seq<char>`, lists as `Seq`.
pub struct TypedFunctionView {
    pub name: Seq<char>,
    pub params: Seq<TypedParamView>,
    pub return_type: TypeView,
    pub body: TypedBlockView,
}

impl TypedFunction {
    /// What this value denotes.
    pub open spec fn spec_view(self) -> TypedFunctionView
    {
        TypedFunctionView {
            name: self.name@,
            params: TypedParam::views(self.params@),
            return_type: self.return_type.spec_view(),
            body: self.body.spec_view(),
        }
    }
}

impl View for TypedFunction {
    type V = TypedFunctionView;

    open spec fn view(&self) -> TypedFunctionView {
        (*self).spec_view()
    }
}

/// A typed parameter.
#[derive(Debug)]
pub struct TypedParam {
    pub name: String,
    pub param_type: Type,
}

/// The value of [`TypedParam`]: text as `Seq<char>`, lists as `Seq`.
pub struct TypedParamView {
    pub name: Seq<char>,
    pub param_type: TypeView,
}

impl TypedParam {
    /// What this value denotes.
    pub open spec fn spec_view(self) -> TypedParamView
    {
        TypedParamView { name: self.name@, param_type: self.param_type.spec_view() }
    }

    /// The values of a list, element by element.
    pub open spec fn views(s: Seq<TypedParam>) -> Seq<TypedParamView>
    {
        Seq::new(s.len(), |i: int| s[i].spec_view())
    }
}

impl View for TypedParam {
    type V = TypedParamView;

    open spec fn view(&self) -> TypedParamView {
        (*self).spec_view()
    }
}

/// A typed tracker binding.
#[derive(Debug)]
pub struct TypedTracker {
    pub component: String,
    pub event: String,
}

/// The value of [`TypedTracker`]: text as `Seq<char>`, lists as `Seq`.
pub struct TypedTrackerView {
    pub component: Seq<char>,
    pub event: Seq<char>,
}

impl TypedTracker {
    /// What this value denotes.
    pub open spec fn spec_view(self) -> TypedTrackerView
    {
        TypedTrackerView { component: self.component@, event: self.event@ }
    }
}

impl View for TypedTracker {
    type V = TypedTrackerView;

    open spec fn view(&self) -> TypedTrackerView {
        (*self).spec_view()
    }
}

/// A typed block.
#[derive(Debug)]
pub struct TypedBlock {
    pub statements: Vec<TypedStatement>,
}

/// The value of [`TypedBlock`]: text as `Seq<char>`, lists as `Seq`.
pub struct TypedBlockView {
    pub statements: Seq<TypedStatementView>,
}

impl TypedBlock {
    /// What this value denotes.
    pub open spec fn spec_view(self) -> TypedBlockView
        decreases self,
    {
        TypedBlockView { statements: TypedStatement::views(self.statements@) }
    }
}

impl View for TypedBlock {
    type V = TypedBlockView;

    open spec fn view(&self) -> TypedBlockView {
        (*self).spec_view()
    }
}

/// A typed statement.
#[derive(Debug)]
#[allow(inconsistent_fields)]
pub enum TypedStatement {
    Let { name: String, var_type: Type, value: TypedExpr },
    Assignment { target: TypedExpr, op: AssignOp, value: TypedExpr },
    If { condition: TypedExpr, then_block: TypedBlock, else_block: Option<TypedElseClause> },
    For { variable: String, iterable: TypedExpr, body: TypedBlock },
    While { condition: TypedExpr, body: TypedBlock },
    Return { value: Option<TypedExpr> },
    Schedule { recurring: bool, delay: Option<TypedExpr>, interval: Option<TypedExpr>, event_name: String, fields: Vec<(String, TypedExpr)> },
    Cancel { target: TypedExpr },
    Create { components: Vec<TypedComponentInit> },
    Delete { entity: TypedExpr },
    Expr(TypedExpr),
}

/// The value of [`TypedStatement`]: text as `Seq<char>`, lists as `Seq`.
#[allow(inconsistent_fields)]
pub enum TypedStatementView {
    Let { name: Seq<char>, var_type: TypeView, value: TypedExprView },
    Assignment { target: TypedExprView, op: AssignOp, value: TypedExprView },
    If { condition: TypedExprView, then_block: TypedBlockView, else_block: Option<TypedElseClauseView> },
    For { variable: Seq<char>, iterable: TypedExprView, body: TypedBlockView },
    While { condition: TypedExprView, body: TypedBlockView },
    Return { value: Option<TypedExprView> },
    Schedule { recurring: bool, delay: Option<TypedExprView>, interval: Option<TypedExprView>, event_name: Seq<char>, fields: Seq<(Seq<char>, TypedExprView)> },
    Cancel { target: TypedExprView },
    Create { components: Seq<TypedComponentInitView> },
    Delete { entity: TypedExprView },
    Expr(TypedExprView),
}

impl TypedStatement {
    /// What this value denotes.
    pub open spec fn spec_view(self) -> TypedStatementView
        decreases self,
    {
        match self {
            TypedStatement::Let { name, var_type, value } => TypedStatementView::Let {
                name: name@,
                var_type: var_type.spec_view(),
                value: value.spec_view(),
            },
            TypedStatement::Assignment { target, op, value } => TypedStatementView::Assignment {
                target: target.spec_view(),
                op: op,
                value: value.spec_view(),
            },
            TypedStatement::If { condition, then_block, else_block } => TypedStatementView::If {
                condition: condition.spec_view(),
                then_block: then_block.spec_view(),
                else_block: match else_block { Some(x5) => Some(x5.spec_view()), None => None },
            },
            TypedStatement::For { variable, iterable, body } => TypedStatementView::For {
                variable: variable@,
                iterable: iterable.spec_view(),
                body: body.spec_view(),
            },
            TypedStatement::While { condition, body } => TypedStatementView::While {
                condition: condition.spec_view(),
                body: body.spec_view(),
            },
            TypedStatement::Return { value } => TypedStatementView::Return {
                value: match value { Some(x6) => Some(x6.spec_view()), None => None },
            },
            TypedStatement::Schedule { recurring, delay, interval, event_name, fields } => TypedStatementView::Schedule {
                recurring: recurring,
                delay: match delay { Some(x7) => Some(x7.spec_view()), None => None },
                interval: match interval { Some(x8) => Some(x8.spec_view()), None => None },
                event_name: event_name@,
                fields: TypedExpr::named_views(fields@),
            },
            TypedStatement::Cancel { target } => TypedStatementView::Cancel { target: target.spec_view() },
            TypedStatement::Create { components } => TypedStatementView::Create {
                components: TypedComponentInit::views(components@),
            },
            TypedStatement::Delete { entity } => TypedStatementView::Delete { entity: entity.spec_view() },
            TypedStatement::Expr(a) => TypedStatementView::Expr(a.spec_view()),
        }
    }

    /// The values of a list, element by element.
    pub open spec fn views(s: Seq<TypedStatement>) -> Seq<TypedStatementView>
        decreases s,
    {
        Seq::new(s.len(), |i: int| if 0 <= i < s.len() { s[i].spec_view() } else { arbitrary() })
    }
}

impl View for TypedStatement {
    type V = TypedStatementView;

    open spec fn view(&self) -> TypedStatementView {
        (*self).spec_view()
    }
}

/// A typed `else`.
#[derive(Debug)]
#[allow(inconsistent_fields)]
pub enum TypedElseClause {
    ElseIf { condition: TypedExpr, then_block: TypedBlock, else_block: Option<Box<TypedElseClause>> },
    Else(TypedBlock),
}

/// The value of [`TypedElseClause`]: text as `Seq<char>`, lists as `Seq`.
#[allow(inconsistent_fields)]
pub enum TypedElseClauseView {
    ElseIf { condition: TypedExprView, then_block: TypedBlockView, else_block: Option<Box<TypedElseClauseView>> },
    Else(TypedBlockView),
}

impl TypedElseClause {
    /// What this value denotes.
    pub open spec fn spec_view(self) -> TypedElseClauseView
        decreases self,
    {
        match self {
            TypedElseClause::ElseIf { condition, then_block, else_block } => TypedElseClauseView::ElseIf {
                condition: condition.spec_view(),
                then_block: then_block.spec_view(),
                else_block: match else_block { Some(x9) => Some(Box::new((*x9).spec_view())), None => None },
            },
            TypedElseClause::Else(a) => TypedElseClauseView::Else(a.spec_view()),
        }
    }
}

impl View for TypedElseClause {
    type V = TypedElseClauseView;

    open spec fn view(&self) -> TypedElseClauseView {
        (*self).spec_view()
    }
}

/// A typed component initialiser.
#[derive(Debug)]
pub struct TypedComponentInit {
    pub name: String,
    pub fields: Vec<(String, TypedExpr)>,
}

/// The value of [`TypedComponentInit`]: text as `Seq<char>`, lists as `Seq`.
pub struct TypedComponentInitView {
    pub name: Seq<char>,
    pub fields: Seq<(Seq<char>, TypedExprView)>,
}

impl TypedComponentInit {
    /// What this value denotes.
    pub open spec fn spec_view(self) -> TypedComponentInitView
        decreases self,
    {
        TypedComponentInitView { name: self.name@, fields: TypedExpr::named_views(self.fields@) }
    }

    /// The values of a list, element by element.
    pub open spec fn views(s: Seq<TypedComponentInit>) -> Seq<TypedComponentInitView>
        decreases s,
    {
        Seq::new(s.len(), |i: int| if 0 <= i < s.len() { s[i].spec_view() } else { arbitrary() })
    }
}

impl View for TypedComponentInit {
    type V = TypedComponentInitView;

    open spec fn view(&self) -> TypedComponentInitView {
        (*self).spec_view()
    }
}

/// An expression together with its type.
#[derive(Debug)]
pub struct TypedExpr {
    pub kind: TypedExprKind,
    pub typ: Type,
}

/// The value of [`TypedExpr`]: text as `Seq<char>`, lists as `Seq`.
pub struct TypedExprView {
    pub kind: TypedExprKindView,
    pub typ: TypeView,
}

impl TypedExpr {
    /// What this value denotes.
    pub open spec fn spec_view(self) -> TypedExprView
        decreases self,
    {
        TypedExprView { kind: self.kind.spec_view(), typ: self.typ.spec_view() }
    }

    /// The values of a list, element by element.
    pub open spec fn views(s: Seq<TypedExpr>) -> Seq<TypedExprView>
        decreases s,
    {
        Seq::new(s.len(), |i: int| if 0 <= i < s.len() { s[i].spec_view() } else { arbitrary() })
    }

    /// The values of a list of named entries, entry by entry.
    pub open spec fn named_views(s: Seq<(String, TypedExpr)>) -> Seq<(Seq<char>, TypedExprView)>
        decreases s,
    {
        Seq::new(s.len(), |i: int| if 0 <= i < s.len() { (s[i].0@, s[i].1.spec_view()) } else { arbitrary() })
    }
}

impl View for TypedExpr {
    type V = TypedExprView;

    open spec fn view(&self) -> TypedExprView {
        (*self).spec_view()
    }
}

/// The shape of a typed expression. Parentheses are gone.
#[derive(Debug)]
pub enum TypedExprKind {
    Literal(Literal),
    Identifier(String),
    EntityRef(String),
    FieldAccess(Box<TypedExpr>, String),
    IndexAccess(Box<TypedExpr>, Box<TypedExpr>),
    Binary(Box<TypedExpr>, BinaryOp, Box<TypedExpr>),
    Unary(UnaryOp, Box<TypedExpr>),
    Call(String, Vec<TypedExpr>),
    MethodCall(Box<TypedExpr>, String, Vec<TypedExpr>),
    HasComponent(Box<TypedExpr>, String),
    Cast(Box<TypedExpr>, Type),
    List(Vec<TypedExpr>),
    /// `entities having Component`: the entities that have it.
    EntitiesHaving(String),
    /// A copy of an entity, with the components that replace its own.
    CloneEntity(Box<TypedExpr>, Vec<TypedComponentInit>),
}

/// The value of [`TypedExprKind`]: text as `Seq<char>`, lists as `Seq`.
pub enum TypedExprKindView {
    Literal(LiteralView),
    Identifier(Seq<char>),
    EntityRef(Seq<char>),
    FieldAccess(Box<TypedExprView>, Seq<char>),
    IndexAccess(Box<TypedExprView>, Box<TypedExprView>),
    Binary(Box<TypedExprView>, BinaryOp, Box<TypedExprView>),
    Unary(UnaryOp, Box<TypedExprView>),
    Call(Seq<char>, Seq<TypedExprView>),
    MethodCall(Box<TypedExprView>, Seq<char>, Seq<TypedExprView>),
    HasComponent(Box<TypedExprView>, Seq<char>),
    Cast(Box<TypedExprView>, TypeView),
    List(Seq<TypedExprView>),
    EntitiesHaving(Seq<char>),
    CloneEntity(Box<TypedExprView>, Seq<TypedComponentInitView>),
}

impl TypedExprKind {
    /// What this value denotes.
    pub open spec fn spec_view(self) -> TypedExprKindView
        decreases self,
    {
        match self {
            TypedExprKind::Literal(a) => TypedExprKindView::Literal(a.spec_view()),
            TypedExprKind::Identifier(a) => TypedExprKindView::Identifier(a@),
            TypedExprKind::EntityRef(a) => TypedExprKindView::EntityRef(a@),
            TypedExprKind::FieldAccess(a0, a1) => TypedExprKindView::FieldAccess(
                Box::new((*a0).spec_view()),
                a1@,
            ),
            TypedExprKind::IndexAccess(a0, a1) => TypedExprKindView::IndexAccess(
                Box::new((*a0).spec_view()),
                Box::new((*a1).spec_view()),
            ),
            TypedExprKind::Binary(a0, a1, a2) => TypedExprKindView::Binary(
                Box::new((*a0).spec_view()),
                a1,
                Box::new((*a2).spec_view()),
            ),
            TypedExprKind::Unary(a0, a1) => TypedExprKindView::Unary(a0, Box::new((*a1).spec_view())),
            TypedExprKind::Call(a0, a1) => TypedExprKindView::Call(a0@, TypedExpr::views(a1@)),
            TypedExprKind::MethodCall(a0, a1, a2) => TypedExprKindView::MethodCall(
                Box::new((*a0).spec_view()),
                a1@,
                TypedExpr::views(a2@),
            ),
            TypedExprKind::HasComponent(a0, a1) => TypedExprKindView::HasComponent(
                Box::new((*a0).spec_view()),
                a1@,
            ),
            TypedExprKind::Cast(a0, a1) => TypedExprKindView::Cast(
                Box::new((*a0).spec_view()),
                a1.spec_view(),
            ),
            TypedExprKind::List(a) => TypedExprKindView::List(TypedExpr::views(a@)),
            TypedExprKind::EntitiesHaving(a) => TypedExprKindView::EntitiesHaving(a@),
            TypedExprKind::CloneEntity(a0, a1) => TypedExprKindView::CloneEntity(
                Box::new((*a0).spec_view()),
                TypedComponentInit::views(a1@),
            ),
        }
    }
}

impl View for TypedExprKind {
    type V = TypedExprKindView;

    open spec fn view(&self) -> TypedExprKindView {
        (*self).spec_view()
    }
}

/// Viewing commutes with appending one element.
pub broadcast proof fn lemma_typed_item_views_push(s: Seq<TypedItem>, x: TypedItem)
    ensures
        #[trigger] TypedItem::views(s.push(x)) == TypedItem::views(s).push(x.spec_view()),
{
    assert(TypedItem::views(s.push(x)) =~= TypedItem::views(s).push(x.spec_view()));
}

/// Viewing commutes with appending one element.
pub broadcast proof fn lemma_typed_bound_function_views_push(s: Seq<TypedBoundFunction>, x: TypedBoundFunction)
    ensures
        #[trigger] TypedBoundFunction::views(s.push(x)) == TypedBoundFunction::views(s).push(x.spec_view()),
{
    assert(TypedBoundFunction::views(s.push(x)) =~= TypedBoundFunction::views(s).push(x.spec_view()));
}

/// Viewing commutes with appending one element.
pub broadcast proof fn lemma_typed_field_views_push(s: Seq<TypedField>, x: TypedField)
    ensures
        #[trigger] TypedField::views(s.push(x)) == TypedField::views(s).push(x.spec_view()),
{
    assert(TypedField::views(s.push(x)) =~= TypedField::views(s).push(x.spec_view()));
}

/// Viewing commutes with appending one element.
pub broadcast proof fn lemma_typed_param_views_push(s: Seq<TypedParam>, x: TypedParam)
    ensures
        #[trigger] TypedParam::views(s.push(x)) == TypedParam::views(s).push(x.spec_view()),
{
    assert(TypedParam::views(s.push(x)) =~= TypedParam::views(s).push(x.spec_view()));
}

/// Viewing commutes with appending one element.
pub broadcast proof fn lemma_typed_statement_views_push(s: Seq<TypedStatement>, x: TypedStatement)
    ensures
        #[trigger] TypedStatement::views(s.push(x)) == TypedStatement::views(s).push(x.spec_view()),
{
    assert(TypedStatement::views(s.push(x)) =~= TypedStatement::views(s).push(x.spec_view()));
}

/// Viewing commutes with appending one element.
pub broadcast proof fn lemma_typed_component_init_views_push(s: Seq<TypedComponentInit>, x: TypedComponentInit)
    ensures
        #[trigger] TypedComponentInit::views(s.push(x)) == TypedComponentInit::views(s).push(x.spec_view()),
{
    assert(TypedComponentInit::views(s.push(x)) =~= TypedComponentInit::views(s).push(x.spec_view()));
}

/// Viewing commutes with appending one element.
pub broadcast proof fn lemma_typed_expr_views_push(s: Seq<TypedExpr>, x: TypedExpr)
    ensures
        #[trigger] TypedExpr::views(s.push(x)) == TypedExpr::views(s).push(x.spec_view()),
{
    assert(TypedExpr::views(s.push(x)) =~= TypedExpr::views(s).push(x.spec_view()));
}

/// Viewing commutes with appending one element.
pub broadcast proof fn lemma_typed_expr_named_views_push(s: Seq<(String, TypedExpr)>, x: (String, TypedExpr))
    ensures
        #[trigger] TypedExpr::named_views(s.push(x)) == TypedExpr::named_views(s).push((x.0@, x.1.spec_view())),
{
    assert(TypedExpr::named_views(s.push(x)) =~= TypedExpr::named_views(s).push((x.0@, x.1.spec_view())));
}

pub broadcast group group_typed_views {
    lemma_typed_item_views_push,
    lemma_typed_bound_function_views_push,
    lemma_typed_field_views_push,
    lemma_typed_param_views_push,
    lemma_typed_statement_views_push,
    lemma_typed_component_init_views_push,
    lemma_typed_expr_views_push,
    lemma_typed_expr_named_views_push,
}

} // verus!
