//! The intermediate representation: the output contract of the compiler.

use vstd::prelude::*;
use indexmap::IndexMap;
use crate::ir::maps::{bound_function_entries, component_entries, expression_entries, value_entries};
use crate::text::strings_view;

verus! {

/// The one failure of generation.
#[derive(Debug)]
pub enum IRError {
    GenerationError(String),
}

/// The value of [`IRError`]: text as `Seq<char>`, lists as `Seq`.
pub enum IRErrorView {
    GenerationError(Seq<char>),
}

impl IRError {
    /// What this value denotes.
    pub open spec fn spec_view(self) -> IRErrorView
    {
        match self {
            IRError::GenerationError(a) => IRErrorView::GenerationError(a@),
        }
    }
}

impl View for IRError {
    type V = IRErrorView;

    open spec fn view(&self) -> IRErrorView {
        (*self).spec_view()
    }
}

/// One source file carried along for tooling.
#[derive(Debug)]
pub struct SourceFile {
    /// Path as the caller gave it.
    pub path: String,
    /// The whole text.
    pub content: String,
    /// `brl`, `bcl` or `bdl`.
    pub language: String,
}

/// The value of [`SourceFile`]: text as `Seq<char>`, lists as `Seq`.
pub struct SourceFileView {
    pub path: Seq<char>,
    pub content: Seq<char>,
    pub language: Seq<char>,
}

impl SourceFile {
    /// What this value denotes.
    pub open spec fn spec_view(self) -> SourceFileView
    {
        SourceFileView { path: self.path@, content: self.content@, language: self.language@ }
    }

    /// The values of a list, element by element.
    pub open spec fn views(s: Seq<SourceFile>) -> Seq<SourceFileView>
    {
        Seq::new(s.len(), |i: int| s[i].spec_view())
    }
}

impl View for SourceFile {
    type V = SourceFileView;

    open spec fn view(&self) -> SourceFileView {
        (*self).spec_view()
    }
}

/// The source files of a compilation.
#[derive(Debug)]
pub struct SourceMap {
    pub files: Vec<SourceFile>,
}

/// The value of [`SourceMap`]: text as `Seq<char>`, lists as `Seq`.
pub struct SourceMapView {
    pub files: Seq<SourceFileView>,
}

impl SourceMap {
    /// What this value denotes.
    pub open spec fn spec_view(self) -> SourceMapView
    {
        SourceMapView { files: SourceFile::views(self.files@) }
    }
}

impl View for SourceMap {
    type V = SourceMapView;

    open spec fn view(&self) -> SourceMapView {
        (*self).spec_view()
    }
}

/// The compiler's output.
#[derive(Debug)]
pub struct IRModule {
    /// Format version.
    pub version: String,
    /// Module name.
    pub module: String,
    pub metadata: Option<IRMetadata>,
    pub components: Vec<IRComponent>,
    pub rules: Vec<IRRule>,
    pub functions: Vec<IRFunction>,
    pub trackers: Vec<IRTracker>,
    pub constants: IndexMap<String, IRValue>,
    /// Present when the source declares entities.
    pub initial_state: Option<IRInitialState>,
    /// Present when asked for and there is a file to record.
    pub source_map: Option<SourceMap>,
}

/// The value of [`IRModule`]: text as `Seq<char>`, lists as `Seq`.
pub struct IRModuleView {
    pub version: Seq<char>,
    pub module: Seq<char>,
    pub metadata: Option<IRMetadataView>,
    pub components: Seq<IRComponentView>,
    pub rules: Seq<IRRuleView>,
    pub functions: Seq<IRFunctionView>,
    pub trackers: Seq<IRTrackerView>,
    pub constants: Seq<(Seq<char>, IRValueView)>,
    pub initial_state: Option<IRInitialStateView>,
    pub source_map: Option<SourceMapView>,
}

impl IRModule {
    /// What this value denotes.
    pub open spec fn spec_view(self) -> IRModuleView
    {
        IRModuleView {
            version: self.version@,
            module: self.module@,
            metadata: match self.metadata { Some(x1) => Some(x1.spec_view()), None => None },
            components: IRComponent::views(self.components@),
            rules: IRRule::views(self.rules@),
            functions: IRFunction::views(self.functions@),
            trackers: IRTracker::views(self.trackers@),
            constants: value_entries(self.constants),
            initial_state: match self.initial_state { Some(x2) => Some(x2.spec_view()), None => None },
            source_map: match self.source_map { Some(x3) => Some(x3.spec_view()), None => None },
        }
    }
}

impl View for IRModule {
    type V = IRModuleView;

    open spec fn view(&self) -> IRModuleView {
        (*self).spec_view()
    }
}

/// When and by what the module was compiled.
#[derive(Debug)]
pub struct IRMetadata {
    pub compiled_at: String,
    pub compiler_version: String,
    pub source_hash: Option<String>,
}

/// The value of [`IRMetadata`]: text as `Seq<char>`, lists as `Seq`.
pub struct IRMetadataView {
    pub compiled_at: Seq<char>,
    pub compiler_version: Seq<char>,
    pub source_hash: Option<Seq<char>>,
}

impl IRMetadata {
    /// What this value denotes.
    pub open spec fn spec_view(self) -> IRMetadataView
    {
        IRMetadataView {
            compiled_at: self.compiled_at@,
            compiler_version: self.compiler_version@,
            source_hash: match self.source_hash { Some(x4) => Some(x4@), None => None },
        }
    }
}

impl View for IRMetadata {
    type V = IRMetadataView;

    open spec fn view(&self) -> IRMetadataView {
        (*self).spec_view()
    }
}

/// A component definition.
#[derive(Debug)]
pub struct IRComponent {
    pub id: u32,
    pub name: String,
    pub fields: Vec<IRField>,
}

/// The value of [`IRComponent`]: text as `Seq<char>`, lists as `Seq`.
pub struct IRComponentView {
    pub id: u32,
    pub name: Seq<char>,
    pub fields: Seq<IRFieldView>,
}

impl IRComponent {
    /// What this value denotes.
    pub open spec fn spec_view(self) -> IRComponentView
    {
        IRComponentView { id: self.id, name: self.name@, fields: IRField::views(self.fields@) }
    }

    /// The values of a list, element by element.
    pub open spec fn views(s: Seq<IRComponent>) -> Seq<IRComponentView>
    {
        Seq::new(s.len(), |i: int| s[i].spec_view())
    }
}

impl View for IRComponent {
    type V = IRComponentView;

    open spec fn view(&self) -> IRComponentView {
        (*self).spec_view()
    }
}

/// A field of a component.
#[derive(Debug)]
pub struct IRField {
    pub name: String,
    pub field_type: IRType,
    pub default: Option<IRValue>,
}

/// The value of [`IRField`]: text as `Seq<char>`, lists as `Seq`.
pub struct IRFieldView {
    pub name: Seq<char>,
    pub field_type: IRType,
    pub default: Option<IRValueView>,
}

impl IRField {
    /// What this value denotes.
    pub open spec fn spec_view(self) -> IRFieldView
    {
        IRFieldView {
            name: self.name@,
            field_type: self.field_type,
            default: match self.default { Some(x5) => Some(x5.spec_view()), None => None },
        }
    }

    /// The values of a list, element by element.
    pub open spec fn views(s: Seq<IRField>) -> Seq<IRFieldView>
    {
        Seq::new(s.len(), |i: int| s[i].spec_view())
    }
}

impl View for IRField {
    type V = IRFieldView;

    open spec fn view(&self) -> IRFieldView {
        (*self).spec_view()
    }
}

/// A number of the wire format: an integer, or decimal digits as written.
#[derive(Debug)]
pub enum IRNumber {
    Integer(i64),
    /// `digits.digits`
    Decimal(String),
}

/// The value of [`IRNumber`]: text as `Seq<char>`, lists as `Seq`.
pub enum IRNumberView {
    Integer(i64),
    Decimal(Seq<char>),
}

impl IRNumber {
    /// What this value denotes.
    pub open spec fn spec_view(self) -> IRNumberView
    {
        match self {
            IRNumber::Integer(a) => IRNumberView::Integer(a),
            IRNumber::Decimal(a) => IRNumberView::Decimal(a@),
        }
    }
}

impl View for IRNumber {
    type V = IRNumberView;

    open spec fn view(&self) -> IRNumberView {
        (*self).spec_view()
    }
}

/// A value of the wire format.
#[derive(Debug)]
pub enum IRValue {
    Null,
    Boolean(bool),
    Number(IRNumber),
    String(String),
    List(Vec<IRValue>),
    /// Entries in insertion order.
    Object(Vec<(String, IRValue)>),
}

/// The value of [`IRValue`]: text as `Seq<char>`, lists as `Seq`.
pub enum IRValueView {
    Null,
    Boolean(bool),
    Number(IRNumberView),
    String(Seq<char>),
    List(Seq<IRValueView>),
    Object(Seq<(Seq<char>, IRValueView)>),
}

impl IRValue {
    /// What this value denotes.
    pub open spec fn spec_view(self) -> IRValueView
        decreases self,
    {
        match self {
            IRValue::Null => IRValueView::Null,
            IRValue::Boolean(a) => IRValueView::Boolean(a),
            IRValue::Number(a) => IRValueView::Number(a.spec_view()),
            IRValue::String(a) => IRValueView::String(a@),
            IRValue::List(a) => IRValueView::List(IRValue::views(a@)),
            IRValue::Object(a) => IRValueView::Object(IRValue::named_views(a@)),
        }
    }

    /// The values of a list, element by element.
    pub open spec fn views(s: Seq<IRValue>) -> Seq<IRValueView>
        decreases s,
    {
        Seq::new(s.len(), |i: int| if 0 <= i < s.len() { s[i].spec_view() } else { arbitrary() })
    }

    /// The values of a list of named entries, entry by entry.
    pub open spec fn named_views(s: Seq<(String, IRValue)>) -> Seq<(Seq<char>, IRValueView)>
        decreases s,
    {
        Seq::new(s.len(), |i: int| if 0 <= i < s.len() { (s[i].0@, s[i].1.spec_view()) } else { arbitrary() })
    }
}

impl View for IRValue {
    type V = IRValueView;

    open spec fn view(&self) -> IRValueView {
        (*self).spec_view()
    }
}

/// A rule.
#[derive(Debug)]
pub struct IRRule {
    pub id: u32,
    pub name: Option<String>,
    pub trigger: IRTrigger,
    pub filter: Option<IRFilter>,
    pub condition: Option<IRExpression>,
    pub actions: Vec<IRAction>,
}

/// The value of [`IRRule`]: text as `Seq<char>`, lists as `Seq`.
pub struct IRRuleView {
    pub id: u32,
    pub name: Option<Seq<char>>,
    pub trigger: IRTriggerView,
    pub filter: Option<IRFilterView>,
    pub condition: Option<IRExpressionView>,
    pub actions: Seq<IRActionView>,
}

impl IRRule {
    /// What this value denotes.
    pub open spec fn spec_view(self) -> IRRuleView
    {
        IRRuleView {
            id: self.id,
            name: match self.name { Some(x6) => Some(x6@), None => None },
            trigger: self.trigger.spec_view(),
            filter: match self.filter { Some(x7) => Some(x7.spec_view()), None => None },
            condition: match self.condition { Some(x8) => Some(x8.spec_view()), None => None },
            actions: IRAction::views(self.actions@),
        }
    }

    /// The values of a list, element by element.
    pub open spec fn views(s: Seq<IRRule>) -> Seq<IRRuleView>
    {
        Seq::new(s.len(), |i: int| s[i].spec_view())
    }
}

impl View for IRRule {
    type V = IRRuleView;

    open spec fn view(&self) -> IRRuleView {
        (*self).spec_view()
    }
}

/// What sets a rule off.
#[derive(Debug)]
pub struct IRTrigger {
    pub trigger_type: String,
    pub event: Option<String>,
    /// Variable bindings; the generator leaves them out.
    pub bindings: Option<IndexMap<String, String>>,
}

/// The value of [`IRTrigger`]: text as `Seq<char>`, lists as `Seq`.
pub struct IRTriggerView {
    pub trigger_type: Seq<char>,
    pub event: Option<Seq<char>>,
    pub bindings: bool,
}

impl IRTrigger {
    /// What this value denotes.
    pub open spec fn spec_view(self) -> IRTriggerView
    {
        IRTriggerView {
            trigger_type: self.trigger_type@,
            event: match self.event { Some(x9) => Some(x9@), None => None },
            bindings: self.bindings is Some,
        }
    }
}

impl View for IRTrigger {
    type V = IRTriggerView;

    open spec fn view(&self) -> IRTriggerView {
        (*self).spec_view()
    }
}

/// The components an entity must have for a rule to apply.
#[derive(Debug)]
pub struct IRFilter {
    pub components: Vec<String>,
}

/// The value of [`IRFilter`]: text as `Seq<char>`, lists as `Seq`.
pub struct IRFilterView {
    pub components: Seq<Seq<char>>,
}

impl IRFilter {
    /// What this value denotes.
    pub open spec fn spec_view(self) -> IRFilterView
    {
        IRFilterView { components: strings_view(self.components@) }
    }
}

impl View for IRFilter {
    type V = IRFilterView;

    open spec fn view(&self) -> IRFilterView {
        (*self).spec_view()
    }
}

/// An expression of the wire format.
#[derive(Debug)]
#[allow(inconsistent_fields)]
pub enum IRExpression {
    Literal { value: IRValue },
    Var { name: String },
    Param { name: String },
    Field { entity: String, component: String, field: String },
    Binary { op: String, left: Box<IRExpression>, right: Box<IRExpression> },
    Unary { op: String, expr: Box<IRExpression> },
    Call { function: String, args: Vec<IRExpression> },
    If { condition: Box<IRExpression>, then_expr: Box<IRExpression>, else_expr: Box<IRExpression> },
}

/// The value of [`IRExpression`]: text as `Seq<char>`, lists as `Seq`.
#[allow(inconsistent_fields)]
pub enum IRExpressionView {
    Literal { value: IRValueView },
    Var { name: Seq<char> },
    Param { name: Seq<char> },
    Field { entity: Seq<char>, component: Seq<char>, field: Seq<char> },
    Binary { op: Seq<char>, left: Box<IRExpressionView>, right: Box<IRExpressionView> },
    Unary { op: Seq<char>, expr: Box<IRExpressionView> },
    Call { function: Seq<char>, args: Seq<IRExpressionView> },
    If { condition: Box<IRExpressionView>, then_expr: Box<IRExpressionView>, else_expr: Box<IRExpressionView> },
}

impl IRExpression {
    /// What this value denotes.
    pub open spec fn spec_view(self) -> IRExpressionView
        decreases self,
    {
        match self {
            IRExpression::Literal { value } => IRExpressionView::Literal { value: value.spec_view() },
            IRExpression::Var { name } => IRExpressionView::Var { name: name@ },
            IRExpression::Param { name } => IRExpressionView::Param { name: name@ },
            IRExpression::Field { entity, component, field } => IRExpressionView::Field {
                entity: entity@,
                component: component@,
                field: field@,
            },
            IRExpression::Binary { op, left, right } => IRExpressionView::Binary {
                op: op@,
                left: Box::new((*left).spec_view()),
                right: Box::new((*right).spec_view()),
            },
            IRExpression::Unary { op, expr } => IRExpressionView::Unary {
                op: op@,
                expr: Box::new((*expr).spec_view()),
            },
            IRExpression::Call { function, args } => IRExpressionView::Call {
                function: function@,
                args: IRExpression::views(args@),
            },
            IRExpression::If { condition, then_expr, else_expr } => IRExpressionView::If {
                condition: Box::new((*condition).spec_view()),
                then_expr: Box::new((*then_expr).spec_view()),
                else_expr: Box::new((*else_expr).spec_view()),
            },
        }
    }

    /// The values of a list, element by element.
    pub open spec fn views(s: Seq<IRExpression>) -> Seq<IRExpressionView>
        decreases s,
    {
        Seq::new(s.len(), |i: int| if 0 <= i < s.len() { s[i].spec_view() } else { arbitrary() })
    }
}

impl View for IRExpression {
    type V = IRExpressionView;

    open spec fn view(&self) -> IRExpressionView {
        (*self).spec_view()
    }
}

/// An action of the wire format.
#[derive(Debug)]
#[allow(inconsistent_fields)]
pub enum IRAction {
    Modify { entity: IRExpression, component: String, field: String, op: String, value: IRExpression },
    Schedule { event: String, source: Option<IRExpression>, delay: Option<IRExpression>, fields: Option<IndexMap<String, IRExpression>> },
    Emit { event: String, fields: Option<IndexMap<String, IRExpression>> },
    Spawn { components: Vec<IRComponentInit> },
    Despawn { entity: IRExpression },
    AddComponent { entity: IRExpression, component: IRComponentInit },
    RemoveComponent { entity: IRExpression, component: String },
    Conditional { condition: IRExpression, then_actions: Vec<IRAction>, else_actions: Option<Vec<IRAction>> },
    Loop { variable: String, iterable: IRExpression, body: Vec<IRAction> },
}

/// The value of [`IRAction`]: text as `Seq<char>`, lists as `Seq`.
#[allow(inconsistent_fields)]
pub enum IRActionView {
    Modify { entity: IRExpressionView, component: Seq<char>, field: Seq<char>, op: Seq<char>, value: IRExpressionView },
    Schedule { event: Seq<char>, source: Option<IRExpressionView>, delay: Option<IRExpressionView>, fields: Option<Seq<(Seq<char>, IRExpressionView)>> },
    Emit { event: Seq<char>, fields: Option<Seq<(Seq<char>, IRExpressionView)>> },
    Spawn { components: Seq<IRComponentInitView> },
    Despawn { entity: IRExpressionView },
    AddComponent { entity: IRExpressionView, component: IRComponentInitView },
    RemoveComponent { entity: IRExpressionView, component: Seq<char> },
    Conditional { condition: IRExpressionView, then_actions: Seq<IRActionView>, else_actions: Option<Seq<IRActionView>> },
    Loop { variable: Seq<char>, iterable: IRExpressionView, body: Seq<IRActionView> },
}

impl IRAction {
    /// What this value denotes.
    pub open spec fn spec_view(self) -> IRActionView
        decreases self,
    {
        match self {
            IRAction::Modify { entity, component, field, op, value } => IRActionView::Modify {
                entity: entity.spec_view(),
                component: component@,
                field: field@,
                op: op@,
                value: value.spec_view(),
            },
            IRAction::Schedule { event, source, delay, fields } => IRActionView::Schedule {
                event: event@,
                source: match source { Some(x10) => Some(x10.spec_view()), None => None },
                delay: match delay { Some(x11) => Some(x11.spec_view()), None => None },
                fields: match fields { Some(x12) => Some(expression_entries(x12)), None => None },
            },
            IRAction::Emit { event, fields } => IRActionView::Emit {
                event: event@,
                fields: match fields { Some(x13) => Some(expression_entries(x13)), None => None },
            },
            IRAction::Spawn { components } => IRActionView::Spawn {
                components: IRComponentInit::views(components@),
            },
            IRAction::Despawn { entity } => IRActionView::Despawn { entity: entity.spec_view() },
            IRAction::AddComponent { entity, component } => IRActionView::AddComponent {
                entity: entity.spec_view(),
                component: component.spec_view(),
            },
            IRAction::RemoveComponent { entity, component } => IRActionView::RemoveComponent {
                entity: entity.spec_view(),
                component: component@,
            },
            IRAction::Conditional { condition, then_actions, else_actions } => IRActionView::Conditional {
                condition: condition.spec_view(),
                then_actions: IRAction::views(then_actions@),
                else_actions: match else_actions { Some(x14) => Some(IRAction::views(x14@)), None => None },
            },
            IRAction::Loop { variable, iterable, body } => IRActionView::Loop {
                variable: variable@,
                iterable: iterable.spec_view(),
                body: IRAction::views(body@),
            },
        }
    }

    /// The values of a list, element by element.
    pub open spec fn views(s: Seq<IRAction>) -> Seq<IRActionView>
        decreases s,
    {
        Seq::new(s.len(), |i: int| if 0 <= i < s.len() { s[i].spec_view() } else { arbitrary() })
    }
}

impl View for IRAction {
    type V = IRActionView;

    open spec fn view(&self) -> IRActionView {
        (*self).spec_view()
    }
}

/// A component with its field expressions.
#[derive(Debug)]
pub struct IRComponentInit {
    pub name: String,
    pub fields: IndexMap<String, IRExpression>,
}

/// The value of [`IRComponentInit`]: text as `Seq<char>`, lists as `Seq`.
pub struct IRComponentInitView {
    pub name: Seq<char>,
    pub fields: Seq<(Seq<char>, IRExpressionView)>,
}

impl IRComponentInit {
    /// What this value denotes.
    pub open spec fn spec_view(self) -> IRComponentInitView
    {
        IRComponentInitView { name: self.name@, fields: expression_entries(self.fields) }
    }

    /// The values of a list, element by element.
    pub open spec fn views(s: Seq<IRComponentInit>) -> Seq<IRComponentInitView>
    {
        Seq::new(s.len(), |i: int| s[i].spec_view())
    }
}

impl View for IRComponentInit {
    type V = IRComponentInitView;

    open spec fn view(&self) -> IRComponentInitView {
        (*self).spec_view()
    }
}

/// A function.
#[derive(Debug)]
pub struct IRFunction {
    pub id: u32,
    pub name: String,
    pub params: Vec<IRParam>,
    pub return_type: IRType,
    pub body: IRExpression,
}

/// The value of [`IRFunction`]: text as `Seq<char>`, lists as `Seq`.
pub struct IRFunctionView {
    pub id: u32,
    pub name: Seq<char>,
    pub params: Seq<IRParamView>,
    pub return_type: IRType,
    pub body: IRExpressionView,
}

impl IRFunction {
    /// What this value denotes.
    pub open spec fn spec_view(self) -> IRFunctionView
    {
        IRFunctionView {
            id: self.id,
            name: self.name@,
            params: IRParam::views(self.params@),
            return_type: self.return_type,
            body: self.body.spec_view(),
        }
    }

    /// The values of a list, element by element.
    pub open spec fn views(s: Seq<IRFunction>) -> Seq<IRFunctionView>
    {
        Seq::new(s.len(), |i: int| s[i].spec_view())
    }
}

impl View for IRFunction {
    type V = IRFunctionView;

    open spec fn view(&self) -> IRFunctionView {
        (*self).spec_view()
    }
}

/// A parameter.
#[derive(Debug)]
pub struct IRParam {
    pub name: String,
    pub param_type: IRType,
}

/// The value of [`IRParam`]: text as `Seq<char>`, lists as `Seq`.
pub struct IRParamView {
    pub name: Seq<char>,
    pub param_type: IRType,
}

impl IRParam {
    /// What this value denotes.
    pub open spec fn spec_view(self) -> IRParamView
    {
        IRParamView { name: self.name@, param_type: self.param_type }
    }

    /// The values of a list, element by element.
    pub open spec fn views(s: Seq<IRParam>) -> Seq<IRParamView>
    {
        Seq::new(s.len(), |i: int| s[i].spec_view())
    }
}

impl View for IRParam {
    type V = IRParamView;

    open spec fn view(&self) -> IRParamView {
        (*self).spec_view()
    }
}

/// A tracker.
#[derive(Debug)]
pub struct IRTracker {
    pub id: u32,
    pub component: String,
    pub event: String,
}

/// The value of [`IRTracker`]: text as `Seq<char>`, lists as `Seq`.
pub struct IRTrackerView {
    pub id: u32,
    pub component: Seq<char>,
    pub event: Seq<char>,
}

impl IRTracker {
    /// What this value denotes.
    pub open spec fn spec_view(self) -> IRTrackerView
    {
        IRTrackerView { id: self.id, component: self.component@, event: self.event@ }
    }

    /// The values of a list, element by element.
    pub open spec fn views(s: Seq<IRTracker>) -> Seq<IRTrackerView>
    {
        Seq::new(s.len(), |i: int| s[i].spec_view())
    }
}

impl View for IRTracker {
    type V = IRTrackerView;

    open spec fn view(&self) -> IRTrackerView {
        (*self).spec_view()
    }
}

/// The entities that exist before any rule runs.
#[derive(Debug)]
pub struct IRInitialState {
    pub entities: Vec<IREntity>,
}

/// The value of [`IRInitialState`]: text as `Seq<char>`, lists as `Seq`.
pub struct IRInitialStateView {
    pub entities: Seq<IREntityView>,
}

impl IRInitialState {
    /// What this value denotes.
    pub open spec fn spec_view(self) -> IRInitialStateView
    {
        IRInitialStateView { entities: IREntity::views(self.entities@) }
    }
}

impl View for IRInitialState {
    type V = IRInitialStateView;

    open spec fn view(&self) -> IRInitialStateView {
        (*self).spec_view()
    }
}

/// One entity of the initial state.
#[derive(Debug)]
pub struct IREntity {
    pub id: u32,
    /// The name the entity was bound to, if any.
    pub variable: Option<String>,
    /// Component name to field values.
    pub components: IndexMap<String, IndexMap<String, IRValue>>,
    pub bound_functions: Option<IndexMap<String, IRBoundFunction>>,
}

/// The value of [`IREntity`]: text as `Seq<char>`, lists as `Seq`.
pub struct IREntityView {
    pub id: u32,
    pub variable: Option<Seq<char>>,
    pub components: Seq<(Seq<char>, Seq<(Seq<char>, IRValueView)>)>,
    pub bound_functions: Option<Seq<(Seq<char>, IRBoundFunctionView)>>,
}

impl IREntity {
    /// What this value denotes.
    pub open spec fn spec_view(self) -> IREntityView
    {
        IREntityView {
            id: self.id,
            variable: match self.variable { Some(x15) => Some(x15@), None => None },
            components: component_entries(self.components),
            bound_functions: match self.bound_functions { Some(x16) => Some(bound_function_entries(x16)), None => None },
        }
    }

    /// The values of a list, element by element.
    pub open spec fn views(s: Seq<IREntity>) -> Seq<IREntityView>
    {
        Seq::new(s.len(), |i: int| s[i].spec_view())
    }
}

impl View for IREntity {
    type V = IREntityView;

    open spec fn view(&self) -> IREntityView {
        (*self).spec_view()
    }
}

/// A choice function of an entity.
#[derive(Debug)]
pub struct IRBoundFunction {
    pub params: Vec<IRParam>,
    pub return_type: IRType,
    pub body: IRExpression,
    /// The function's source text; not recorded at present.
    pub source: Option<String>,
}

/// The value of [`IRBoundFunction`]: text as `Seq<char>`, lists as `Seq`.
pub struct IRBoundFunctionView {
    pub params: Seq<IRParamView>,
    pub return_type: IRType,
    pub body: IRExpressionView,
    pub source: Option<Seq<char>>,
}

impl IRBoundFunction {
    /// What this value denotes.
    pub open spec fn spec_view(self) -> IRBoundFunctionView
    {
        IRBoundFunctionView {
            params: IRParam::views(self.params@),
            return_type: self.return_type,
            body: self.body.spec_view(),
            source: match self.source { Some(x17) => Some(x17@), None => None },
        }
    }
}

impl View for IRBoundFunction {
    type V = IRBoundFunctionView;

    open spec fn view(&self) -> IRBoundFunctionView {
        (*self).spec_view()
    }
}

/// A type of the wire format.
#[derive(Debug, PartialEq, Eq)]
#[allow(inconsistent_fields)]
pub enum IRType {
    Number,
    String,
    Boolean,
    Entity,
    List { element: Box<IRType> },
    /// `map<K, V>`
    Mapping { key: Box<IRType>, value: Box<IRType> },
}

/// Viewing commutes with appending one element.
pub broadcast proof fn lemma_source_file_views_push(s: Seq<SourceFile>, x: SourceFile)
    ensures
        #[trigger] SourceFile::views(s.push(x)) == SourceFile::views(s).push(x.spec_view()),
{
    assert(SourceFile::views(s.push(x)) =~= SourceFile::views(s).push(x.spec_view()));
}

/// Viewing commutes with appending one element.
pub broadcast proof fn lemma_ir_component_views_push(s: Seq<IRComponent>, x: IRComponent)
    ensures
        #[trigger] IRComponent::views(s.push(x)) == IRComponent::views(s).push(x.spec_view()),
{
    assert(IRComponent::views(s.push(x)) =~= IRComponent::views(s).push(x.spec_view()));
}

/// Viewing commutes with appending one element.
pub broadcast proof fn lemma_ir_field_views_push(s: Seq<IRField>, x: IRField)
    ensures
        #[trigger] IRField::views(s.push(x)) == IRField::views(s).push(x.spec_view()),
{
    assert(IRField::views(s.push(x)) =~= IRField::views(s).push(x.spec_view()));
}

/// Viewing commutes with appending one element.
pub broadcast proof fn lemma_ir_value_views_push(s: Seq<IRValue>, x: IRValue)
    ensures
        #[trigger] IRValue::views(s.push(x)) == IRValue::views(s).push(x.spec_view()),
{
    assert(IRValue::views(s.push(x)) =~= IRValue::views(s).push(x.spec_view()));
}

/// Viewing commutes with appending one element.
pub broadcast proof fn lemma_ir_value_named_views_push(s: Seq<(String, IRValue)>, x: (String, IRValue))
    ensures
        #[trigger] IRValue::named_views(s.push(x)) == IRValue::named_views(s).push((x.0@, x.1.spec_view())),
{
    assert(IRValue::named_views(s.push(x)) =~= IRValue::named_views(s).push((x.0@, x.1.spec_view())));
}

/// Viewing commutes with appending one element.
pub broadcast proof fn lemma_ir_rule_views_push(s: Seq<IRRule>, x: IRRule)
    ensures
        #[trigger] IRRule::views(s.push(x)) == IRRule::views(s).push(x.spec_view()),
{
    assert(IRRule::views(s.push(x)) =~= IRRule::views(s).push(x.spec_view()));
}

/// Viewing commutes with appending one element.
pub broadcast proof fn lemma_ir_expression_views_push(s: Seq<IRExpression>, x: IRExpression)
    ensures
        #[trigger] IRExpression::views(s.push(x)) == IRExpression::views(s).push(x.spec_view()),
{
    assert(IRExpression::views(s.push(x)) =~= IRExpression::views(s).push(x.spec_view()));
}

/// Viewing commutes with appending one element.
pub broadcast proof fn lemma_ir_action_views_push(s: Seq<IRAction>, x: IRAction)
    ensures
        #[trigger] IRAction::views(s.push(x)) == IRAction::views(s).push(x.spec_view()),
{
    assert(IRAction::views(s.push(x)) =~= IRAction::views(s).push(x.spec_view()));
}

/// Viewing commutes with appending one element.
pub broadcast proof fn lemma_ir_component_init_views_push(s: Seq<IRComponentInit>, x: IRComponentInit)
    ensures
        #[trigger] IRComponentInit::views(s.push(x)) == IRComponentInit::views(s).push(x.spec_view()),
{
    assert(IRComponentInit::views(s.push(x)) =~= IRComponentInit::views(s).push(x.spec_view()));
}

/// Viewing commutes with appending one element.
pub broadcast proof fn lemma_ir_function_views_push(s: Seq<IRFunction>, x: IRFunction)
    ensures
        #[trigger] IRFunction::views(s.push(x)) == IRFunction::views(s).push(x.spec_view()),
{
    assert(IRFunction::views(s.push(x)) =~= IRFunction::views(s).push(x.spec_view()));
}

/// Viewing commutes with appending one element.
pub broadcast proof fn lemma_ir_param_views_push(s: Seq<IRParam>, x: IRParam)
    ensures
        #[trigger] IRParam::views(s.push(x)) == IRParam::views(s).push(x.spec_view()),
{
    assert(IRParam::views(s.push(x)) =~= IRParam::views(s).push(x.spec_view()));
}

/// Viewing commutes with appending one element.
pub broadcast proof fn lemma_ir_tracker_views_push(s: Seq<IRTracker>, x: IRTracker)
    ensures
        #[trigger] IRTracker::views(s.push(x)) == IRTracker::views(s).push(x.spec_view()),
{
    assert(IRTracker::views(s.push(x)) =~= IRTracker::views(s).push(x.spec_view()));
}

/// Viewing commutes with appending one element.
pub broadcast proof fn lemma_ir_entity_views_push(s: Seq<IREntity>, x: IREntity)
    ensures
        #[trigger] IREntity::views(s.push(x)) == IREntity::views(s).push(x.spec_view()),
{
    assert(IREntity::views(s.push(x)) =~= IREntity::views(s).push(x.spec_view()));
}

pub broadcast group group_ir_views {
    lemma_source_file_views_push,
    lemma_ir_component_views_push,
    lemma_ir_field_views_push,
    lemma_ir_value_views_push,
    lemma_ir_value_named_views_push,
    lemma_ir_rule_views_push,
    lemma_ir_expression_views_push,
    lemma_ir_action_views_push,
    lemma_ir_component_init_views_push,
    lemma_ir_function_views_push,
    lemma_ir_param_views_push,
    lemma_ir_tracker_views_push,
    lemma_ir_entity_views_push,
}

impl IRType {
    /// A copy of this type.
    pub fn duplicate(&self) -> (r: Self)
        ensures
            r == *self,
        decreases self,
    {
        match self {
            IRType::Number => IRType::Number,
            IRType::String => IRType::String,
            IRType::Boolean => IRType::Boolean,
            IRType::Entity => IRType::Entity,
            IRType::List { element } => IRType::List { element: Box::new(element.duplicate()) },
            IRType::Mapping { key, value } => IRType::Mapping {
                key: Box::new(key.duplicate()),
                value: Box::new(value.duplicate()),
            },
        }
    }
}

impl Clone for IRType {
    fn clone(&self) -> (r: Self)
        ensures
            r == *self,
    {
        self.duplicate()
    }
}

} // verus!
