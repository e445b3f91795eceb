//! Generation of the intermediate representation.

pub mod maps;
pub mod model;
pub mod lowering;
pub mod timestamp;
pub mod generate;
pub mod laws;

pub use crate::ir::generate::{
    data_violations, generate, generate_with_source, generate_with_sources, version, IRGenerator,
};
pub use crate::ir::model::{
    IRAction,
    IRBoundFunction,
    IRComponent,
    IRComponentInit,
    IREntity,
    IRError,
    IRExpression,
    IRField,
    IRFilter,
    IRFunction,
    IRInitialState,
    IRMetadata,
    IRModule,
    IRNumber,
    IRParam,
    IRRule,
    IRTracker,
    IRTrigger,
    IRType,
    IRValue,
    SourceFile,
    SourceMap,
};
pub use crate::ir::timestamp::generate_timestamp;
