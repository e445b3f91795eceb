//! Semantic analysis: name resolution and typing.

pub mod types;
pub mod symbols;
pub mod typed;
pub mod errors;
pub mod scope;
pub mod rules;
pub mod check;
pub mod laws;

pub use crate::analyzer::check::{analyze, Analyzer};
pub use crate::analyzer::errors::SemanticError;
pub use crate::analyzer::scope::Scope;
pub use crate::analyzer::symbols::{ComponentInfo, FunctionInfo, SymbolTable, TrackerInfo};
pub use crate::analyzer::typed::{
    TypedBlock,
    TypedBoundFunction,
    TypedComponent,
    TypedComponentInit,
    TypedElseClause,
    TypedEntity,
    TypedExpr,
    TypedExprKind,
    TypedField,
    TypedFunction,
    TypedItem,
    TypedModule,
    TypedParam,
    TypedRule,
    TypedStatement,
    TypedTracker,
};
pub use crate::analyzer::types::Type;
