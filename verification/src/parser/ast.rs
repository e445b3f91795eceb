//! The syntax tree that the parser builds, and what each node denotes.
//!
//! Every tree type `T` has a ghost twin `TView` in which text is a
//! `Seq<char>` and a list is a `Seq`; `t@` is the twin of `t`. Contracts
//! speak of the twins, so that two trees with the same text are the same
//! value.

use vstd::prelude::*;
use crate::lexer::Span;
use crate::text::strings_view;

verus! {

/// A parsed source file: its items in source order.
#[derive(Debug)]
pub struct Module {
    pub items: Vec<Item>,
}

/// The value of [`Module`]: text as `Seq<char>`, lists as `Seq`.
pub struct ModuleView {
    pub items: Seq<ItemView>,
}

impl Module {
    /// What this value denotes.
    pub open spec fn spec_view(self) -> ModuleView
    {
        ModuleView { items: Item::views(self.items@) }
    }
}

impl View for Module {
    type V = ModuleView;

    open spec fn view(&self) -> ModuleView {
        (*self).spec_view()
    }
}

/// A top-level item.
#[derive(Debug)]
pub enum Item {
    Component(ComponentDef),
    Rule(RuleDef),
    Function(FunctionDef),
    /// A legacy tracker binding; no surface syntax produces one.
    Tracker(TrackerDef),
    Import(ImportDef),
    ModuleDef(ModuleItemDef),
    /// An entity of the initial state, whichever surface form declared it.
    Entity(EntityDef),
}

/// The value of [`Item`]: text as `Seq<char>`, lists as `Seq`.
pub enum ItemView {
    Component(ComponentDefView),
    Rule(RuleDefView),
    Function(FunctionDefView),
    Tracker(TrackerDefView),
    Import(ImportDefView),
    ModuleDef(ModuleItemDefView),
    Entity(EntityDefView),
}

impl Item {
    /// What this value denotes.
    pub open spec fn spec_view(self) -> ItemView
        decreases self,
    {
        match self {
            Item::Component(a) => ItemView::Component(a.spec_view()),
            Item::Rule(a) => ItemView::Rule(a.spec_view()),
            Item::Function(a) => ItemView::Function(a.spec_view()),
            Item::Tracker(a) => ItemView::Tracker(a.spec_view()),
            Item::Import(a) => ItemView::Import(a.spec_view()),
            Item::ModuleDef(a) => ItemView::ModuleDef(a.spec_view()),
            Item::Entity(a) => ItemView::Entity(a.spec_view()),
        }
    }

    /// The values of a list, element by element.
    pub open spec fn views(s: Seq<Item>) -> Seq<ItemView>
        decreases s,
    {
        Seq::new(s.len(), |i: int| if 0 <= i < s.len() { s[i].spec_view() } else { arbitrary() })
    }
}

impl View for Item {
    type V = ItemView;

    open spec fn view(&self) -> ItemView {
        (*self).spec_view()
    }
}

/// `component Name { field* }`
#[derive(Debug)]
pub struct ComponentDef {
    pub name: String,
    pub fields: Vec<FieldDef>,
    pub span: Span,
}

/// The value of [`ComponentDef`]: text as `Seq<char>`, lists as `Seq`.
pub struct ComponentDefView {
    pub name: Seq<char>,
    pub fields: Seq<FieldDefView>,
    pub span: Span,
}

impl ComponentDef {
    /// What this value denotes.
    pub open spec fn spec_view(self) -> ComponentDefView
    {
        ComponentDefView { name: self.name@, fields: FieldDef::views(self.fields@), span: self.span }
    }
}

impl View for ComponentDef {
    type V = ComponentDefView;

    open spec fn view(&self) -> ComponentDefView {
        (*self).spec_view()
    }
}

/// One field of a component: `name: type` with an optional `?`.
#[derive(Debug)]
pub struct FieldDef {
    pub name: String,
    /// The declared type; `Optional(..)` exactly when `optional` is set.
    pub field_type: TypeExpr,
    pub optional: bool,
    pub span: Span,
}

/// The value of [`FieldDef`]: text as `Seq<char>`, lists as `Seq`.
pub struct FieldDefView {
    pub name: Seq<char>,
    pub field_type: TypeExprView,
    pub optional: bool,
    pub span: Span,
}

impl FieldDef {
    /// What this value denotes.
    pub open spec fn spec_view(self) -> FieldDefView
    {
        FieldDefView {
            name: self.name@,
            field_type: self.field_type.spec_view(),
            optional: self.optional,
            span: self.span,
        }
    }

    /// The values of a list, element by element.
    pub open spec fn views(s: Seq<FieldDef>) -> Seq<FieldDefView>
    {
        Seq::new(s.len(), |i: int| s[i].spec_view())
    }
}

impl View for FieldDef {
    type V = FieldDefView;

    open spec fn view(&self) -> FieldDefView {
        (*self).spec_view()
    }
}

/// A type as written in the source.
#[derive(Debug)]
pub enum TypeExpr {
    String,
    Boolean,
    Integer,
    Float,
    Decimal,
    Id,
    /// A bare identifier names a component type.
    Component(String),
    List(Box<TypeExpr>),
    Optional(Box<TypeExpr>),
    /// `A & B & C`: every member is a component type.
    Composite(Vec<TypeExpr>),
}

/// The value of [`TypeExpr`]: text as `Seq<char>`, lists as `Seq`.
pub enum TypeExprView {
    String,
    Boolean,
    Integer,
    Float,
    Decimal,
    Id,
    Component(Seq<char>),
    List(Box<TypeExprView>),
    Optional(Box<TypeExprView>),
    Composite(Seq<TypeExprView>),
}

impl TypeExpr {
    /// What this value denotes.
    pub open spec fn spec_view(self) -> TypeExprView
        decreases self,
    {
        match self {
            TypeExpr::String => TypeExprView::String,
            TypeExpr::Boolean => TypeExprView::Boolean,
            TypeExpr::Integer => TypeExprView::Integer,
            TypeExpr::Float => TypeExprView::Float,
            TypeExpr::Decimal => TypeExprView::Decimal,
            TypeExpr::Id => TypeExprView::Id,
            TypeExpr::Component(a) => TypeExprView::Component(a@),
            TypeExpr::List(a) => TypeExprView::List(Box::new((*a).spec_view())),
            TypeExpr::Optional(a) => TypeExprView::Optional(Box::new((*a).spec_view())),
            TypeExpr::Composite(a) => TypeExprView::Composite(TypeExpr::views(a@)),
        }
    }

    /// The values of a list, element by element.
    pub open spec fn views(s: Seq<TypeExpr>) -> Seq<TypeExprView>
        decreases s,
    {
        Seq::new(s.len(), |i: int| if 0 <= i < s.len() { s[i].spec_view() } else { arbitrary() })
    }
}

impl View for TypeExpr {
    type V = TypeExprView;

    open spec fn view(&self) -> TypeExprView {
        (*self).spec_view()
    }
}

/// `rule [name] on Event [when expr] [[priority: N]] { .. }`
#[derive(Debug)]
pub struct RuleDef {
    pub name: Option<String>,
    pub trigger_event: String,
    pub condition: Option<Expr>,
    pub priority: Option<i32>,
    pub body: Block,
    pub span: Span,
}

/// The value of [`RuleDef`]: text as `Seq<char>`, lists as `Seq`.
pub struct RuleDefView {
    pub name: Option<Seq<char>>,
    pub trigger_event: Seq<char>,
    pub condition: Option<ExprView>,
    pub priority: Option<i32>,
    pub body: BlockView,
    pub span: Span,
}

impl RuleDef {
    /// What this value denotes.
    pub open spec fn spec_view(self) -> RuleDefView
    {
        RuleDefView {
            name: match self.name { Some(x1) => Some(x1@), None => None },
            trigger_event: self.trigger_event@,
            condition: match self.condition { Some(x2) => Some(x2.spec_view()), None => None },
            priority: match self.priority { Some(x3) => Some(x3), None => None },
            body: self.body.spec_view(),
            span: self.span,
        }
    }
}

impl View for RuleDef {
    type V = RuleDefView;

    open spec fn view(&self) -> RuleDefView {
        (*self).spec_view()
    }
}

/// `fn name(params) [: type] { .. }`
#[derive(Debug)]
pub struct FunctionDef {
    pub name: String,
    pub params: Vec<ParamDef>,
    pub return_type: Option<TypeExpr>,
    pub body: Block,
    pub span: Span,
}

/// The value of [`FunctionDef`]: text as `Seq<char>`, lists as `Seq`.
pub struct FunctionDefView {
    pub name: Seq<char>,
    pub params: Seq<ParamDefView>,
    pub return_type: Option<TypeExprView>,
    pub body: BlockView,
    pub span: Span,
}

impl FunctionDef {
    /// What this value denotes.
    pub open spec fn spec_view(self) -> FunctionDefView
    {
        FunctionDefView {
            name: self.name@,
            params: ParamDef::views(self.params@),
            return_type: match self.return_type { Some(x4) => Some(x4.spec_view()), None => None },
            body: self.body.spec_view(),
            span: self.span,
        }
    }
}

impl View for FunctionDef {
    type V = FunctionDefView;

    open spec fn view(&self) -> FunctionDefView {
        (*self).spec_view()
    }
}

/// One parameter: `name: type`.
#[derive(Debug)]
pub struct ParamDef {
    pub name: String,
    pub param_type: TypeExpr,
    pub span: Span,
}

/// The value of [`ParamDef`]: text as `Seq<char>`, lists as `Seq`.
pub struct ParamDefView {
    pub name: Seq<char>,
    pub param_type: TypeExprView,
    pub span: Span,
}

impl ParamDef {
    /// What this value denotes.
    pub open spec fn spec_view(self) -> ParamDefView
    {
        ParamDefView { name: self.name@, param_type: self.param_type.spec_view(), span: self.span }
    }

    /// The values of a list, element by element.
    pub open spec fn views(s: Seq<ParamDef>) -> Seq<ParamDefView>
    {
        Seq::new(s.len(), |i: int| s[i].spec_view())
    }
}

impl View for ParamDef {
    type V = ParamDefView;

    open spec fn view(&self) -> ParamDefView {
        (*self).spec_view()
    }
}

/// A component bound to the event that tracks it.
#[derive(Debug)]
pub struct TrackerDef {
    pub component: String,
    pub event: String,
    pub span: Span,
}

/// The value of [`TrackerDef`]: text as `Seq<char>`, lists as `Seq`.
pub struct TrackerDefView {
    pub component: Seq<char>,
    pub event: Seq<char>,
    pub span: Span,
}

impl TrackerDef {
    /// What this value denotes.
    pub open spec fn spec_view(self) -> TrackerDefView
    {
        TrackerDefView { component: self.component@, event: self.event@, span: self.span }
    }
}

impl View for TrackerDef {
    type V = TrackerDefView;

    open spec fn view(&self) -> TrackerDefView {
        (*self).spec_view()
    }
}

/// `import a.b.c [{ x, y }]`
#[derive(Debug)]
pub struct ImportDef {
    pub path: Vec<String>,
    pub items: Option<Vec<String>>,
    pub span: Span,
}

/// The value of [`ImportDef`]: text as `Seq<char>`, lists as `Seq`.
pub struct ImportDefView {
    pub path: Seq<Seq<char>>,
    pub items: Option<Seq<Seq<char>>>,
    pub span: Span,
}

impl ImportDef {
    /// What this value denotes.
    pub open spec fn spec_view(self) -> ImportDefView
    {
        ImportDefView {
            path: strings_view(self.path@),
            items: match self.items { Some(x5) => Some(strings_view(x5@)), None => None },
            span: self.span,
        }
    }
}

impl View for ImportDef {
    type V = ImportDefView;

    open spec fn view(&self) -> ImportDefView {
        (*self).spec_view()
    }
}

/// `module name { item* }`
#[derive(Debug)]
pub struct ModuleItemDef {
    pub name: String,
    pub items: Vec<Item>,
    pub span: Span,
}

/// The value of [`ModuleItemDef`]: text as `Seq<char>`, lists as `Seq`.
pub struct ModuleItemDefView {
    pub name: Seq<char>,
    pub items: Seq<ItemView>,
    pub span: Span,
}

impl ModuleItemDef {
    /// What this value denotes.
    pub open spec fn spec_view(self) -> ModuleItemDefView
        decreases self,
    {
        ModuleItemDefView { name: self.name@, items: Item::views(self.items@), span: self.span }
    }
}

impl View for ModuleItemDef {
    type V = ModuleItemDefView;

    open spec fn view(&self) -> ModuleItemDefView {
        (*self).spec_view()
    }
}

/// An entity declaration: an optional binding name, component
/// initialisers, and the choice functions bound to the entity.
#[derive(Debug)]
pub struct EntityDef {
    pub variable: Option<String>,
    pub components: Vec<ComponentInit>,
    pub bound_functions: Vec<BoundFunctionDef>,
    pub span: Span,
}

/// The value of [`EntityDef`]: text as `Seq<char>`, lists as `Seq`.
pub struct EntityDefView {
    pub variable: Option<Seq<char>>,
    pub components: Seq<ComponentInitView>,
    pub bound_functions: Seq<BoundFunctionDefView>,
    pub span: Span,
}

impl EntityDef {
    /// What this value denotes.
    pub open spec fn spec_view(self) -> EntityDefView
    {
        EntityDefView {
            variable: match self.variable { Some(x6) => Some(x6@), None => None },
            components: ComponentInit::views(self.components@),
            bound_functions: BoundFunctionDef::views(self.bound_functions@),
            span: self.span,
        }
    }
}

impl View for EntityDef {
    type V = EntityDefView;

    open spec fn view(&self) -> EntityDefView {
        (*self).spec_view()
    }
}

/// `.name = choice(params) [: type] { .. }` inside an entity.
#[derive(Debug)]
pub struct BoundFunctionDef {
    pub name: String,
    pub params: Vec<ParamDef>,
    pub return_type: Option<TypeExpr>,
    pub body: Block,
    pub span: Span,
}

/// The value of [`BoundFunctionDef`]: text as `Seq<char>`, lists as `Seq`.
pub struct BoundFunctionDefView {
    pub name: Seq<char>,
    pub params: Seq<ParamDefView>,
    pub return_type: Option<TypeExprView>,
    pub body: BlockView,
    pub span: Span,
}

impl BoundFunctionDef {
    /// What this value denotes.
    pub open spec fn spec_view(self) -> BoundFunctionDefView
    {
        BoundFunctionDefView {
            name: self.name@,
            params: ParamDef::views(self.params@),
            return_type: match self.return_type { Some(x7) => Some(x7.spec_view()), None => None },
            body: self.body.spec_view(),
            span: self.span,
        }
    }

    /// The values of a list, element by element.
    pub open spec fn views(s: Seq<BoundFunctionDef>) -> Seq<BoundFunctionDefView>
    {
        Seq::new(s.len(), |i: int| s[i].spec_view())
    }
}

impl View for BoundFunctionDef {
    type V = BoundFunctionDefView;

    open spec fn view(&self) -> BoundFunctionDefView {
        (*self).spec_view()
    }
}

/// `{ statement* }`
#[derive(Debug)]
pub struct Block {
    pub statements: Vec<Statement>,
    pub span: Span,
}

/// The value of [`Block`]: text as `Seq<char>`, lists as `Seq`.
pub struct BlockView {
    pub statements: Seq<StatementView>,
    pub span: Span,
}

impl Block {
    /// What this value denotes.
    pub open spec fn spec_view(self) -> BlockView
        decreases self,
    {
        BlockView { statements: Statement::views(self.statements@), span: self.span }
    }
}

impl View for Block {
    type V = BlockView;

    open spec fn view(&self) -> BlockView {
        (*self).spec_view()
    }
}

/// A statement.
#[derive(Debug)]
pub enum Statement {
    Let(LetStatement),
    Assignment(AssignmentStatement),
    If(IfStatement),
    For(ForStatement),
    While(WhileStatement),
    Return(ReturnStatement),
    Schedule(ScheduleStatement),
    Cancel(CancelStatement),
    Create(CreateStatement),
    Delete(DeleteStatement),
    Expr(Expr),
}

/// The value of [`Statement`]: text as `Seq<char>`, lists as `Seq`.
pub enum StatementView {
    Let(LetStatementView),
    Assignment(AssignmentStatementView),
    If(IfStatementView),
    For(ForStatementView),
    While(WhileStatementView),
    Return(ReturnStatementView),
    Schedule(ScheduleStatementView),
    Cancel(CancelStatementView),
    Create(CreateStatementView),
    Delete(DeleteStatementView),
    Expr(ExprView),
}

impl Statement {
    /// What this value denotes.
    pub open spec fn spec_view(self) -> StatementView
        decreases self,
    {
        match self {
            Statement::Let(a) => StatementView::Let(a.spec_view()),
            Statement::Assignment(a) => StatementView::Assignment(a.spec_view()),
            Statement::If(a) => StatementView::If(a.spec_view()),
            Statement::For(a) => StatementView::For(a.spec_view()),
            Statement::While(a) => StatementView::While(a.spec_view()),
            Statement::Return(a) => StatementView::Return(a.spec_view()),
            Statement::Schedule(a) => StatementView::Schedule(a.spec_view()),
            Statement::Cancel(a) => StatementView::Cancel(a.spec_view()),
            Statement::Create(a) => StatementView::Create(a.spec_view()),
            Statement::Delete(a) => StatementView::Delete(a.spec_view()),
            Statement::Expr(a) => StatementView::Expr(a.spec_view()),
        }
    }

    /// The values of a list, element by element.
    pub open spec fn views(s: Seq<Statement>) -> Seq<StatementView>
        decreases s,
    {
        Seq::new(s.len(), |i: int| if 0 <= i < s.len() { s[i].spec_view() } else { arbitrary() })
    }
}

impl View for Statement {
    type V = StatementView;

    open spec fn view(&self) -> StatementView {
        (*self).spec_view()
    }
}

/// `let name [: type] = value`
#[derive(Debug)]
pub struct LetStatement {
    pub name: String,
    pub type_annotation: Option<TypeExpr>,
    pub value: Expr,
    pub span: Span,
}

/// The value of [`LetStatement`]: text as `Seq<char>`, lists as `Seq`.
pub struct LetStatementView {
    pub name: Seq<char>,
    pub type_annotation: Option<TypeExprView>,
    pub value: ExprView,
    pub span: Span,
}

impl LetStatement {
    /// What this value denotes.
    pub open spec fn spec_view(self) -> LetStatementView
    {
        LetStatementView {
            name: self.name@,
            type_annotation: match self.type_annotation { Some(x8) => Some(x8.spec_view()), None => None },
            value: self.value.spec_view(),
            span: self.span,
        }
    }
}

impl View for LetStatement {
    type V = LetStatementView;

    open spec fn view(&self) -> LetStatementView {
        (*self).spec_view()
    }
}

/// `target op value`
#[derive(Debug)]
pub struct AssignmentStatement {
    pub target: Expr,
    pub op: AssignOp,
    pub value: Expr,
    pub span: Span,
}

/// The value of [`AssignmentStatement`]: text as `Seq<char>`, lists as `Seq`.
pub struct AssignmentStatementView {
    pub target: ExprView,
    pub op: AssignOp,
    pub value: ExprView,
    pub span: Span,
}

impl AssignmentStatement {
    /// What this value denotes.
    pub open spec fn spec_view(self) -> AssignmentStatementView
    {
        AssignmentStatementView {
            target: self.target.spec_view(),
            op: self.op,
            value: self.value.spec_view(),
            span: self.span,
        }
    }
}

impl View for AssignmentStatement {
    type V = AssignmentStatementView;

    open spec fn view(&self) -> AssignmentStatementView {
        (*self).spec_view()
    }
}

/// `if cond { .. } [else ..]`
#[derive(Debug)]
pub struct IfStatement {
    pub condition: Expr,
    pub then_block: Block,
    pub else_block: Option<Box<ElseClause>>,
    pub span: Span,
}

/// The value of [`IfStatement`]: text as `Seq<char>`, lists as `Seq`.
pub struct IfStatementView {
    pub condition: ExprView,
    pub then_block: BlockView,
    pub else_block: Option<Box<ElseClauseView>>,
    pub span: Span,
}

impl IfStatement {
    /// What this value denotes.
    pub open spec fn spec_view(self) -> IfStatementView
        decreases self,
    {
        IfStatementView {
            condition: self.condition.spec_view(),
            then_block: self.then_block.spec_view(),
            else_block: match self.else_block { Some(x9) => Some(Box::new((*x9).spec_view())), None => None },
            span: self.span,
        }
    }
}

impl View for IfStatement {
    type V = IfStatementView;

    open spec fn view(&self) -> IfStatementView {
        (*self).spec_view()
    }
}

/// What follows `else`: another `if`, or a block.
#[derive(Debug)]
pub enum ElseClause {
    ElseIf(IfStatement),
    Else(Block),
}

/// The value of [`ElseClause`]: text as `Seq<char>`, lists as `Seq`.
pub enum ElseClauseView {
    ElseIf(IfStatementView),
    Else(BlockView),
}

impl ElseClause {
    /// What this value denotes.
    pub open spec fn spec_view(self) -> ElseClauseView
        decreases self,
    {
        match self {
            ElseClause::ElseIf(a) => ElseClauseView::ElseIf(a.spec_view()),
            ElseClause::Else(a) => ElseClauseView::Else(a.spec_view()),
        }
    }
}

impl View for ElseClause {
    type V = ElseClauseView;

    open spec fn view(&self) -> ElseClauseView {
        (*self).spec_view()
    }
}

/// `for x in expr { .. }`
#[derive(Debug)]
pub struct ForStatement {
    pub variable: String,
    pub iterable: Expr,
    pub body: Block,
    pub span: Span,
}

/// The value of [`ForStatement`]: text as `Seq<char>`, lists as `Seq`.
pub struct ForStatementView {
    pub variable: Seq<char>,
    pub iterable: ExprView,
    pub body: BlockView,
    pub span: Span,
}

impl ForStatement {
    /// What this value denotes.
    pub open spec fn spec_view(self) -> ForStatementView
        decreases self,
    {
        ForStatementView {
            variable: self.variable@,
            iterable: self.iterable.spec_view(),
            body: self.body.spec_view(),
            span: self.span,
        }
    }
}

impl View for ForStatement {
    type V = ForStatementView;

    open spec fn view(&self) -> ForStatementView {
        (*self).spec_view()
    }
}

/// `while cond { .. }`
#[derive(Debug)]
pub struct WhileStatement {
    pub condition: Expr,
    pub body: Block,
    pub span: Span,
}

/// The value of [`WhileStatement`]: text as `Seq<char>`, lists as `Seq`.
pub struct WhileStatementView {
    pub condition: ExprView,
    pub body: BlockView,
    pub span: Span,
}

impl WhileStatement {
    /// What this value denotes.
    pub open spec fn spec_view(self) -> WhileStatementView
        decreases self,
    {
        WhileStatementView {
            condition: self.condition.spec_view(),
            body: self.body.spec_view(),
            span: self.span,
        }
    }
}

impl View for WhileStatement {
    type V = WhileStatementView;

    open spec fn view(&self) -> WhileStatementView {
        (*self).spec_view()
    }
}

/// `return [expr]`
#[derive(Debug)]
pub struct ReturnStatement {
    pub value: Option<Expr>,
    pub span: Span,
}

/// The value of [`ReturnStatement`]: text as `Seq<char>`, lists as `Seq`.
pub struct ReturnStatementView {
    pub value: Option<ExprView>,
    pub span: Span,
}

impl ReturnStatement {
    /// What this value denotes.
    pub open spec fn spec_view(self) -> ReturnStatementView
    {
        ReturnStatementView {
            value: match self.value { Some(x10) => Some(x10.spec_view()), None => None },
            span: self.span,
        }
    }
}

impl View for ReturnStatement {
    type V = ReturnStatementView;

    open spec fn view(&self) -> ReturnStatementView {
        (*self).spec_view()
    }
}

/// `schedule [recurring] [[delay: e] | [interval: e]] Event { field: e* }`
#[derive(Debug)]
pub struct ScheduleStatement {
    pub recurring: bool,
    pub delay: Option<Expr>,
    pub interval: Option<Expr>,
    pub event_name: String,
    pub fields: Vec<(String, Expr)>,
    pub span: Span,
}

/// The value of [`ScheduleStatement`]: text as `Seq<char>`, lists as `Seq`.
pub struct ScheduleStatementView {
    pub recurring: bool,
    pub delay: Option<ExprView>,
    pub interval: Option<ExprView>,
    pub event_name: Seq<char>,
    pub fields: Seq<(Seq<char>, ExprView)>,
    pub span: Span,
}

impl ScheduleStatement {
    /// What this value denotes.
    pub open spec fn spec_view(self) -> ScheduleStatementView
    {
        ScheduleStatementView {
            recurring: self.recurring,
            delay: match self.delay { Some(x11) => Some(x11.spec_view()), None => None },
            interval: match self.interval { Some(x12) => Some(x12.spec_view()), None => None },
            event_name: self.event_name@,
            fields: Expr::named_views(self.fields@),
            span: self.span,
        }
    }
}

impl View for ScheduleStatement {
    type V = ScheduleStatementView;

    open spec fn view(&self) -> ScheduleStatementView {
        (*self).spec_view()
    }
}

/// `cancel expr`
#[derive(Debug)]
pub struct CancelStatement {
    pub target: Expr,
    pub span: Span,
}

/// The value of [`CancelStatement`]: text as `Seq<char>`, lists as `Seq`.
pub struct CancelStatementView {
    pub target: ExprView,
    pub span: Span,
}

impl CancelStatement {
    /// What this value denotes.
    pub open spec fn spec_view(self) -> CancelStatementView
    {
        CancelStatementView { target: self.target.spec_view(), span: self.span }
    }
}

impl View for CancelStatement {
    type V = CancelStatementView;

    open spec fn view(&self) -> CancelStatementView {
        (*self).spec_view()
    }
}

/// `create entity { componentInit* }`
#[derive(Debug)]
pub struct CreateStatement {
    pub components: Vec<ComponentInit>,
    pub span: Span,
}

/// The value of [`CreateStatement`]: text as `Seq<char>`, lists as `Seq`.
pub struct CreateStatementView {
    pub components: Seq<ComponentInitView>,
    pub span: Span,
}

impl CreateStatement {
    /// What this value denotes.
    pub open spec fn spec_view(self) -> CreateStatementView
    {
        CreateStatementView { components: ComponentInit::views(self.components@), span: self.span }
    }
}

impl View for CreateStatement {
    type V = CreateStatementView;

    open spec fn view(&self) -> CreateStatementView {
        (*self).spec_view()
    }
}

/// `Name { field: expr* }`
#[derive(Debug)]
pub struct ComponentInit {
    pub name: String,
    pub fields: Vec<(String, Expr)>,
    pub span: Span,
}

/// The value of [`ComponentInit`]: text as `Seq<char>`, lists as `Seq`.
pub struct ComponentInitView {
    pub name: Seq<char>,
    pub fields: Seq<(Seq<char>, ExprView)>,
    pub span: Span,
}

impl ComponentInit {
    /// What this value denotes.
    pub open spec fn spec_view(self) -> ComponentInitView
        decreases self,
    {
        ComponentInitView { name: self.name@, fields: Expr::named_views(self.fields@), span: self.span }
    }

    /// The values of a list, element by element.
    pub open spec fn views(s: Seq<ComponentInit>) -> Seq<ComponentInitView>
        decreases s,
    {
        Seq::new(s.len(), |i: int| if 0 <= i < s.len() { s[i].spec_view() } else { arbitrary() })
    }
}

impl View for ComponentInit {
    type V = ComponentInitView;

    open spec fn view(&self) -> ComponentInitView {
        (*self).spec_view()
    }
}

/// `delete expr`
#[derive(Debug)]
pub struct DeleteStatement {
    pub entity: Expr,
    pub span: Span,
}

/// The value of [`DeleteStatement`]: text as `Seq<char>`, lists as `Seq`.
pub struct DeleteStatementView {
    pub entity: ExprView,
    pub span: Span,
}

impl DeleteStatement {
    /// What this value denotes.
    pub open spec fn spec_view(self) -> DeleteStatementView
    {
        DeleteStatementView { entity: self.entity.spec_view(), span: self.span }
    }
}

impl View for DeleteStatement {
    type V = DeleteStatementView;

    open spec fn view(&self) -> DeleteStatementView {
        (*self).spec_view()
    }
}

/// An expression. Every variant ends with the span of its tokens.
#[derive(Debug)]
pub enum Expr {
    Literal(Literal, Span),
    Identifier(String, Span),
    /// `@name`, stored without the `@`.
    EntityRef(String, Span),
    FieldAccess(Box<Expr>, String, Span),
    IndexAccess(Box<Expr>, Box<Expr>, Span),
    Binary(Box<Expr>, BinaryOp, Box<Expr>, Span),
    Unary(UnaryOp, Box<Expr>, Span),
    Call(String, Vec<Expr>, Span),
    MethodCall(Box<Expr>, String, Vec<Expr>, Span),
    HasComponent(Box<Expr>, String, Span),
    Cast(Box<Expr>, TypeExpr, Span),
    List(Vec<Expr>, Span),
    Paren(Box<Expr>, Span),
    /// `entities having Component`
    EntitiesHaving(String, Span),
    /// `clone expr [{ componentInit* }]`
    CloneEntity(Box<Expr>, Vec<ComponentInit>, Span),
}

/// The value of [`Expr`]: text as `Seq<char>`, lists as `Seq`.
pub enum ExprView {
    Literal(LiteralView, Span),
    Identifier(Seq<char>, Span),
    EntityRef(Seq<char>, Span),
    FieldAccess(Box<ExprView>, Seq<char>, Span),
    IndexAccess(Box<ExprView>, Box<ExprView>, Span),
    Binary(Box<ExprView>, BinaryOp, Box<ExprView>, Span),
    Unary(UnaryOp, Box<ExprView>, Span),
    Call(Seq<char>, Seq<ExprView>, Span),
    MethodCall(Box<ExprView>, Seq<char>, Seq<ExprView>, Span),
    HasComponent(Box<ExprView>, Seq<char>, Span),
    Cast(Box<ExprView>, TypeExprView, Span),
    List(Seq<ExprView>, Span),
    Paren(Box<ExprView>, Span),
    EntitiesHaving(Seq<char>, Span),
    CloneEntity(Box<ExprView>, Seq<ComponentInitView>, Span),
}

impl Expr {
    /// What this value denotes.
    pub open spec fn spec_view(self) -> ExprView
        decreases self,
    {
        match self {
            Expr::Literal(a0, a1) => ExprView::Literal(a0.spec_view(), a1),
            Expr::Identifier(a0, a1) => ExprView::Identifier(a0@, a1),
            Expr::EntityRef(a0, a1) => ExprView::EntityRef(a0@, a1),
            Expr::FieldAccess(a0, a1, a2) => ExprView::FieldAccess(Box::new((*a0).spec_view()), a1@, a2),
            Expr::IndexAccess(a0, a1, a2) => ExprView::IndexAccess(
                Box::new((*a0).spec_view()),
                Box::new((*a1).spec_view()),
                a2,
            ),
            Expr::Binary(a0, a1, a2, a3) => ExprView::Binary(
                Box::new((*a0).spec_view()),
                a1,
                Box::new((*a2).spec_view()),
                a3,
            ),
            Expr::Unary(a0, a1, a2) => ExprView::Unary(a0, Box::new((*a1).spec_view()), a2),
            Expr::Call(a0, a1, a2) => ExprView::Call(a0@, Expr::views(a1@), a2),
            Expr::MethodCall(a0, a1, a2, a3) => ExprView::MethodCall(
                Box::new((*a0).spec_view()),
                a1@,
                Expr::views(a2@),
                a3,
            ),
            Expr::HasComponent(a0, a1, a2) => ExprView::HasComponent(Box::new((*a0).spec_view()), a1@, a2),
            Expr::Cast(a0, a1, a2) => ExprView::Cast(Box::new((*a0).spec_view()), a1.spec_view(), a2),
            Expr::List(a0, a1) => ExprView::List(Expr::views(a0@), a1),
            Expr::Paren(a0, a1) => ExprView::Paren(Box::new((*a0).spec_view()), a1),
            Expr::EntitiesHaving(a0, a1) => ExprView::EntitiesHaving(a0@, a1),
            Expr::CloneEntity(a0, a1, a2) => ExprView::CloneEntity(
                Box::new((*a0).spec_view()),
                ComponentInit::views(a1@),
                a2,
            ),
        }
    }

    /// The values of a list, element by element.
    pub open spec fn views(s: Seq<Expr>) -> Seq<ExprView>
        decreases s,
    {
        Seq::new(s.len(), |i: int| if 0 <= i < s.len() { s[i].spec_view() } else { arbitrary() })
    }

    /// The values of a list of named entries, entry by entry.
    pub open spec fn named_views(s: Seq<(String, Expr)>) -> Seq<(Seq<char>, ExprView)>
        decreases s,
    {
        Seq::new(s.len(), |i: int| if 0 <= i < s.len() { (s[i].0@, s[i].1.spec_view()) } else { arbitrary() })
    }
}

impl View for Expr {
    type V = ExprView;

    open spec fn view(&self) -> ExprView {
        (*self).spec_view()
    }
}

/// A literal value.
#[derive(Debug)]
pub enum Literal {
    /// The text between the quotes, escapes untouched.
    String(String),
    Integer(i64),
    /// The digits as written, `123.45`.
    Float(String),
    /// The digits as written, without the trailing `d`.
    Decimal(String),
    Boolean(bool),
    Null,
}

/// The value of [`Literal`]: text as `Seq<char>`, lists as `Seq`.
pub enum LiteralView {
    String(Seq<char>),
    Integer(i64),
    Float(Seq<char>),
    Decimal(Seq<char>),
    Boolean(bool),
    Null,
}

impl Literal {
    /// What this value denotes.
    pub open spec fn spec_view(self) -> LiteralView
    {
        match self {
            Literal::String(a) => LiteralView::String(a@),
            Literal::Integer(a) => LiteralView::Integer(a),
            Literal::Float(a) => LiteralView::Float(a@),
            Literal::Decimal(a) => LiteralView::Decimal(a@),
            Literal::Boolean(a) => LiteralView::Boolean(a),
            Literal::Null => LiteralView::Null,
        }
    }
}

impl View for Literal {
    type V = LiteralView;

    open spec fn view(&self) -> LiteralView {
        (*self).spec_view()
    }
}

/// Assignment operators.
#[derive(Debug, Clone, Copy, PartialEq, Eq, Structural)]
pub enum AssignOp {
    /// `=`
    Assign,
    /// `+=`
    AddAssign,
    /// `-=`
    SubAssign,
    /// `*=`
    MulAssign,
    /// `/=`
    DivAssign,
}

/// Binary operators.
#[derive(Debug, Clone, Copy, PartialEq, Eq, Structural)]
pub enum BinaryOp {
    Add,
    Sub,
    Mul,
    Div,
    Mod,
    Eq,
    NotEq,
    Lt,
    LtEq,
    Gt,
    GtEq,
    And,
    Or,
}

/// Unary operators.
#[derive(Debug, Clone, Copy, PartialEq, Eq, Structural)]
pub enum UnaryOp {
    Neg,
    Not,
}

/// Viewing commutes with appending one element.
pub broadcast proof fn lemma_item_views_push(s: Seq<Item>, x: Item)
    ensures
        #[trigger] Item::views(s.push(x)) == Item::views(s).push(x.spec_view()),
{
    assert(Item::views(s.push(x)) =~= Item::views(s).push(x.spec_view()));
}

/// Viewing commutes with appending one element.
pub broadcast proof fn lemma_field_def_views_push(s: Seq<FieldDef>, x: FieldDef)
    ensures
        #[trigger] FieldDef::views(s.push(x)) == FieldDef::views(s).push(x.spec_view()),
{
    assert(FieldDef::views(s.push(x)) =~= FieldDef::views(s).push(x.spec_view()));
}

/// Viewing commutes with appending one element.
pub broadcast proof fn lemma_type_expr_views_push(s: Seq<TypeExpr>, x: TypeExpr)
    ensures
        #[trigger] TypeExpr::views(s.push(x)) == TypeExpr::views(s).push(x.spec_view()),
{
    assert(TypeExpr::views(s.push(x)) =~= TypeExpr::views(s).push(x.spec_view()));
}

/// Viewing commutes with appending one element.
pub broadcast proof fn lemma_param_def_views_push(s: Seq<ParamDef>, x: ParamDef)
    ensures
        #[trigger] ParamDef::views(s.push(x)) == ParamDef::views(s).push(x.spec_view()),
{
    assert(ParamDef::views(s.push(x)) =~= ParamDef::views(s).push(x.spec_view()));
}

/// Viewing commutes with appending one element.
pub broadcast proof fn lemma_bound_function_def_views_push(s: Seq<BoundFunctionDef>, x: BoundFunctionDef)
    ensures
        #[trigger] BoundFunctionDef::views(s.push(x)) == BoundFunctionDef::views(s).push(x.spec_view()),
{
    assert(BoundFunctionDef::views(s.push(x)) =~= BoundFunctionDef::views(s).push(x.spec_view()));
}

/// Viewing commutes with appending one element.
pub broadcast proof fn lemma_statement_views_push(s: Seq<Statement>, x: Statement)
    ensures
        #[trigger] Statement::views(s.push(x)) == Statement::views(s).push(x.spec_view()),
{
    assert(Statement::views(s.push(x)) =~= Statement::views(s).push(x.spec_view()));
}

/// Viewing commutes with appending one element.
pub broadcast proof fn lemma_component_init_views_push(s: Seq<ComponentInit>, x: ComponentInit)
    ensures
        #[trigger] ComponentInit::views(s.push(x)) == ComponentInit::views(s).push(x.spec_view()),
{
    assert(ComponentInit::views(s.push(x)) =~= ComponentInit::views(s).push(x.spec_view()));
}

/// Viewing commutes with appending one element.
pub broadcast proof fn lemma_expr_views_push(s: Seq<Expr>, x: Expr)
    ensures
        #[trigger] Expr::views(s.push(x)) == Expr::views(s).push(x.spec_view()),
{
    assert(Expr::views(s.push(x)) =~= Expr::views(s).push(x.spec_view()));
}

/// Viewing commutes with appending one element.
pub broadcast proof fn lemma_expr_named_views_push(s: Seq<(String, Expr)>, x: (String, Expr))
    ensures
        #[trigger] Expr::named_views(s.push(x)) == Expr::named_views(s).push((x.0@, x.1.spec_view())),
{
    assert(Expr::named_views(s.push(x)) =~= Expr::named_views(s).push((x.0@, x.1.spec_view())));
}

pub broadcast group group_ast_views {
    lemma_item_views_push,
    lemma_field_def_views_push,
    lemma_type_expr_views_push,
    lemma_param_def_views_push,
    lemma_bound_function_def_views_push,
    lemma_statement_views_push,
    lemma_component_init_views_push,
    lemma_expr_views_push,
    lemma_expr_named_views_push,
}

impl Clone for Literal {
    fn clone(&self) -> (r: Self)
        ensures
            r@ == self@,
    {
        match self {
            Literal::String(s) => Literal::String(s.clone()),
            Literal::Integer(n) => Literal::Integer(*n),
            Literal::Float(s) => Literal::Float(s.clone()),
            Literal::Decimal(s) => Literal::Decimal(s.clone()),
            Literal::Boolean(b) => Literal::Boolean(*b),
            Literal::Null => Literal::Null,
        }
    }
}

} // verus!
