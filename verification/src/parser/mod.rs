//! Parser: tokens to syntax tree.

pub mod ast;
pub mod errors;
pub mod cursor;
pub mod grammar;
pub mod grammar_stmts;
pub mod grammar_items;
pub mod exprs;
pub mod stmts;
pub mod items;

pub use crate::parser::ast::{
    AssignOp,
    AssignmentStatement,
    BinaryOp,
    Block,
    BoundFunctionDef,
    CancelStatement,
    ComponentDef,
    ComponentInit,
    CreateStatement,
    DeleteStatement,
    ElseClause,
    EntityDef,
    Expr,
    FieldDef,
    ForStatement,
    FunctionDef,
    IfStatement,
    ImportDef,
    Item,
    LetStatement,
    Literal,
    Module,
    ModuleItemDef,
    ParamDef,
    ReturnStatement,
    RuleDef,
    ScheduleStatement,
    Statement,
    TrackerDef,
    TypeExpr,
    UnaryOp,
    WhileStatement,
};
pub use crate::parser::cursor::Parser;
pub use crate::parser::errors::ParseError;
pub use crate::parser::items::parse;
pub mod laws;
