//! The whole pipeline: source text to intermediate representation.

use vstd::prelude::*;
use crate::analyzer::check::analyze;
use crate::analyzer::errors::joined_messages;
use crate::analyzer::rules::spec_analyze;
use crate::analyzer::typed::{TypedModule, TypedModuleView};
use crate::ir::generate::{
    generate, generate_with_source, generate_with_sources, ir_error_message, opt_str_view, out_of_ids_message,
    spec_generate, stamp_of, triples_view,
};
use crate::ir::lowering::{extra_files, source_map, Counters};
use crate::ir::model::{IRErrorView, IRModule, SourceMapView};
use crate::ir::timestamp::is_timestamp;
use crate::lexer::rules::spec_tokenize;
use crate::lexer::tokenizer::tokenize;
use crate::options::CompilerOptions;
use crate::parser::grammar_items::spec_parse;
use crate::parser::items::parse;
use crate::text::concat2;

verus! {

/// Why a compilation failed: the stage, and that stage's message.
#[derive(Debug)]
pub enum CompileError {
    LexerError(String),
    ParserError(String),
    SemanticError(String),
    IRError(String),
}

/// What a [`CompileError`] denotes.
pub enum CompileErrorView {
    LexerError(Seq<char>),
    ParserError(Seq<char>),
    SemanticError(Seq<char>),
    IRError(Seq<char>),
}

impl CompileErrorView {
    /// The text shown for this error.
    pub open spec fn message(self) -> Seq<char> {
        match self {
            CompileErrorView::LexerError(text) => "Lexer error: "@ + text,
            CompileErrorView::ParserError(text) => "Parser error: "@ + text,
            CompileErrorView::SemanticError(text) => "Semantic error: "@ + text,
            CompileErrorView::IRError(text) => "IR generation error: "@ + text,
        }
    }
}

impl CompileError {
    pub open spec fn spec_view(self) -> CompileErrorView {
        match self {
            CompileError::LexerError(text) => CompileErrorView::LexerError(text@),
            CompileError::ParserError(text) => CompileErrorView::ParserError(text@),
            CompileError::SemanticError(text) => CompileErrorView::SemanticError(text@),
            CompileError::IRError(text) => CompileErrorView::IRError(text@),
        }
    }

    /// The text shown for this error.
    pub fn message(&self) -> (text: String)
        ensures
            text@ == self@.message(),
    {
        match self {
            CompileError::LexerError(text) => concat2("Lexer error: ", text.as_str()),
            CompileError::ParserError(text) => concat2("Parser error: ", text.as_str()),
            CompileError::SemanticError(text) => concat2("Semantic error: ", text.as_str()),
            CompileError::IRError(text) => concat2("IR generation error: ", text.as_str()),
        }
    }
}

impl View for CompileError {
    type V = CompileErrorView;

    open spec fn view(&self) -> CompileErrorView {
        (*self).spec_view()
    }
}

/// The typed module that a source text denotes, or the error of the first
/// stage that fails: tokenizing, then parsing, then analysis. Analysis
/// fails when it finds any error, and reports them all.
pub open spec fn spec_front_end(source: Seq<char>) -> Result<TypedModuleView, CompileErrorView> {
    match spec_tokenize(source) {
        Err(e) => Err(CompileErrorView::LexerError(e.spec_message())),
        Ok(tokens) => match spec_parse(tokens) {
            Err(e) => Err(CompileErrorView::ParserError(e.message())),
            Ok(module) => {
                let analysis = spec_analyze(module);
                if analysis.1.len() == 0 {
                    Ok(analysis.0)
                } else {
                    Err(CompileErrorView::SemanticError(joined_messages(analysis.1, analysis.1.len())))
                }
            },
        },
    }
}

/// Tokenizes, parses and analyzes a source text.
pub fn compile_to_typed_ast(source: &str) -> (r: Result<TypedModule, CompileError>)
    ensures
        match spec_front_end(source@) {
            Ok(typed) => r is Ok && r->Ok_0@ == typed,
            Err(e) => r is Err && r->Err_0@ == e,
        },
{
    let tokens = match tokenize(source) {
        Ok(tokens) => tokens,
        Err(e) => {
            return Err(CompileError::LexerError(e.message()));
        },
    };
    let module = match parse(tokens) {
        Ok(module) => module,
        Err(e) => {
            return Err(CompileError::ParserError(e.message()));
        },
    };
    match analyze(module) {
        Ok(typed) => Ok(typed),
        Err(text) => Err(CompileError::SemanticError(text)),
    }
}

/// The ids that every compilation starts from.
pub open spec fn first_ids() -> Counters {
    Counters { component: 0, rule: 0, function: 0, tracker: 0, entity: 0 }
}

/// The source map of a compilation, when one is asked for: the source
/// under its path, if a path is given, then the additional files. With
/// neither there is no source map.
pub open spec fn compile_source_map(
    source: Seq<char>,
    options: CompilerOptions,
    path: Option<Seq<char>>,
    extra: Seq<(Seq<char>, Seq<char>, Seq<char>)>,
) -> Option<SourceMapView> {
    source_map(options.include_source_map, Some(source), path, extra)
}

/// Whether `r` is what compiling `source` yields. A failing stage decides
/// the error. Otherwise the module is the lowering of the typed module
/// with ids from 0, but for its stamp, which is that of some moment.
pub open spec fn compiles_to(
    r: Result<IRModule, CompileError>,
    source: Seq<char>,
    options: CompilerOptions,
    path: Option<Seq<char>>,
    extra: Seq<(Seq<char>, Seq<char>, Seq<char>)>,
) -> bool {
    match spec_front_end(source) {
        Err(e) => r is Err && r->Err_0@ == e,
        Ok(typed) => match r {
            Ok(ir) => is_timestamp(stamp_of(ir@)) && Some(ir@) == spec_generate(
                typed,
                first_ids(),
                compile_source_map(source, options, path, extra),
                stamp_of(ir@),
            ),
            Err(e) => spec_generate(
                typed,
                first_ids(),
                compile_source_map(source, options, path, extra),
                Seq::empty(),
            ) is None && e@ == CompileErrorView::IRError(
                ir_error_message(IRErrorView::GenerationError(out_of_ids_message())),
            ),
        },
    }
}

/// Compiles a source text.
pub fn compile(source: &str, options: &CompilerOptions) -> (r: Result<IRModule, CompileError>)
    ensures
        compiles_to(r, source@, *options, None, Seq::empty()),
{
    compile_with_path(source, options, None)
}

/// Compiles a source text; with a path, the source map, when asked for,
/// records the source under it.
pub fn compile_with_path(source: &str, options: &CompilerOptions, source_path: Option<&str>) -> (r: Result<
    IRModule,
    CompileError,
>)
    ensures
        compiles_to(r, source@, *options, opt_str_view(source_path), Seq::empty()),
{
    let typed = match compile_to_typed_ast(source) {
        Ok(typed) => typed,
        Err(e) => {
            return Err(e);
        },
    };
    let generated = match source_path {
        Some(path) => generate_with_source(typed, options, source, path),
        None => {
            assert(extra_files(Seq::empty()) =~= Seq::empty());
            generate(typed, options)
        },
    };
    match generated {
        Ok(ir) => Ok(ir),
        Err(text) => Err(CompileError::IRError(text)),
    }
}

/// Compiles a source text; the source map, when asked for, records the
/// source if a path is given, then the additional files, each a path, a
/// text and a dialect.
pub fn compile_with_sources(
    source: &str,
    options: &CompilerOptions,
    source_path: Option<&str>,
    additional_sources: &[(String, String, String)],
) -> (r: Result<IRModule, CompileError>)
    ensures
        compiles_to(r, source@, *options, opt_str_view(source_path), triples_view(additional_sources@)),
{
    let typed = match compile_to_typed_ast(source) {
        Ok(typed) => typed,
        Err(e) => {
            return Err(e);
        },
    };
    match generate_with_sources(typed, options, source, source_path, additional_sources) {
        Ok(ir) => Ok(ir),
        Err(text) => Err(CompileError::IRError(text)),
    }
}

/// Whether two results agree on everything that the source decides: both
/// fail with the same error, or both succeed with the same components,
/// rules, functions, trackers and initial state.
pub open spec fn same_definitions(a: Result<IRModule, CompileError>, b: Result<IRModule, CompileError>) -> bool {
    match (a, b) {
        (Ok(x), Ok(y)) => {
            &&& x@.components == y@.components
            &&& x@.rules == y@.rules
            &&& x@.functions == y@.functions
            &&& x@.trackers == y@.trackers
            &&& x@.initial_state == y@.initial_state
            &&& x@.constants == y@.constants
            &&& x@.version == y@.version
        },
        (Err(x), Err(y)) => x@ == y@,
        _ => false,
    }
}

/// Determinism: two compilations of one source text agree on everything
/// but the stamp and the source map, whatever the options, paths and
/// additional files they were run with.
pub proof fn lemma_compile_is_deterministic(
    source: Seq<char>,
    first: Result<IRModule, CompileError>,
    first_options: CompilerOptions,
    first_path: Option<Seq<char>>,
    first_extra: Seq<(Seq<char>, Seq<char>, Seq<char>)>,
    second: Result<IRModule, CompileError>,
    second_options: CompilerOptions,
    second_path: Option<Seq<char>>,
    second_extra: Seq<(Seq<char>, Seq<char>, Seq<char>)>,
)
    requires
        compiles_to(first, source, first_options, first_path, first_extra),
        compiles_to(second, source, second_options, second_path, second_extra),
    ensures
        same_definitions(first, second),
{
}

/// With the same options, path and additional files, two compilations of
/// one source text agree on the source map as well.
pub proof fn lemma_compile_repeats(
    source: Seq<char>,
    options: CompilerOptions,
    path: Option<Seq<char>>,
    extra: Seq<(Seq<char>, Seq<char>, Seq<char>)>,
    first: Result<IRModule, CompileError>,
    second: Result<IRModule, CompileError>,
)
    requires
        compiles_to(first, source, options, path, extra),
        compiles_to(second, source, options, path, extra),
    ensures
        same_definitions(first, second),
        first is Ok ==> first->Ok_0@.source_map == second->Ok_0@.source_map,
{
}

} // verus!
