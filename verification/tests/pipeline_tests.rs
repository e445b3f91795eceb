//! The pipeline as a whole: what a source text compiles to, and how each
//! stage fails.

use blink_compiler::ir::{IRAction, IRExpression, IRModule, IRNumber, IRValue};
use blink_compiler::{compile, compile_with_path, compile_with_sources, CompileError, CompilerOptions};

fn compiled(source: &str) -> IRModule {
    match compile(source, &CompilerOptions::default()) {
        Ok(ir) => ir,
        Err(e) => panic!("{}", e.message()),
    }
}

fn failure(source: &str) -> CompileError {
    match compile(source, &CompilerOptions::default()) {
        Ok(_) => panic!("{}: compiled", source),
        Err(e) => e,
    }
}

/// Everything of a module but its stamp.
fn without_stamp(module: &IRModule) -> String {
    format!(
        "{:?} {:?} {:?} {:?} {:?} {:?} {:?} {:?}",
        module.version,
        module.components,
        module.rules,
        module.functions,
        module.trackers,
        module.constants,
        module.initial_state,
        module.source_map
    )
}

#[test]
fn a_component_compiles_to_one_component_with_its_fields() {
    let module = compiled("component Health { current: integer\n maximum: integer }");
    assert_eq!(module.components.len(), 1);
    assert_eq!(module.components[0].name, "Health");
    assert_eq!(module.components[0].fields.len(), 2);
    assert_eq!(module.components[0].fields[0].name, "current");
    assert_eq!(module.components[0].fields[1].name, "maximum");
}

#[test]
fn a_compound_assignment_lowers_to_one_modify() {
    let module = compiled("component Health { current: integer }\nrule on Dmg { entity.Health.current -= 10 }");
    assert_eq!(module.rules[0].id, 0);
    assert_eq!(module.rules[0].actions.len(), 1);
    match &module.rules[0].actions[0] {
        IRAction::Modify { entity, component, field, op, value } => {
            assert!(matches!(entity, IRExpression::Var { name } if name == "entity"));
            assert_eq!(component, "Health");
            assert_eq!(field, "current");
            assert_eq!(op, "subtract");
            assert!(matches!(
                value,
                IRExpression::Literal { value: IRValue::Number(IRNumber::Integer(10)) }
            ));
        }
        other => panic!("{:?}", other),
    }
}

#[test]
fn a_let_lowers_to_nothing() {
    let module = compiled(
        "component Health { current: integer max: integer }\n\
         rule calc_rule on CalcEvent { let damage = 10 entity.Health.current -= damage }",
    );
    assert_eq!(module.rules.len(), 1);
    assert_eq!(module.rules[0].actions.len(), 1);
    assert!(matches!(&module.rules[0].actions[0], IRAction::Modify { .. }));
}

#[test]
fn a_new_entity_is_part_of_the_initial_state() {
    let module = compiled(
        "component Health { current: integer max: integer }\n\
         warrior = new entity { Health { current: 100 max: 100 } }",
    );
    let state = module.initial_state.unwrap();
    assert_eq!(state.entities.len(), 1);
    assert_eq!(state.entities[0].variable, Some("warrior".to_string()));
    assert_eq!(state.entities[0].components.len(), 1);
    let health = &state.entities[0].components["Health"];
    assert_eq!(health.len(), 2);
    assert!(matches!(health["current"], IRValue::Number(IRNumber::Integer(100))));
    assert!(matches!(health["max"], IRValue::Number(IRNumber::Integer(100))));
}

#[test]
fn an_undeclared_component_blocks_generation() {
    let error = failure("rule on E { let all = entities having Character }");
    assert!(matches!(&error, CompileError::SemanticError(text) if text == "Undefined component 'Character'"));
    assert_eq!(error.message(), "Semantic error: Undefined component 'Character'");
}

#[test]
fn a_composite_parameter_compiles_and_a_composite_of_a_number_does_not() {
    let program = |parameter: &str| {
        format!(
            "component Character {{ name: string }} component Skills {{ skill1: string }}\n\
             w = new entity {{ .select = choice(c: {}): string {{ return \"attack\" }} }}",
            parameter
        )
    };
    assert!(compile(&program("Character & Skills"), &CompilerOptions::default()).is_ok());
    let error = failure(&program("Character & 5"));
    assert!(matches!(&error, CompileError::ParserError(text) if text.starts_with("Invalid syntax: ")));
}

#[test]
fn a_rule_may_use_a_component_that_is_declared_after_it() {
    let module = compiled(
        "rule on Dmg { let h = Health entity.Health.current -= Health.current }\n\
         component Health { current: integer }",
    );
    assert_eq!(module.rules.len(), 1);
    assert_eq!(module.components.len(), 1);
}

#[test]
fn compiling_twice_gives_the_same_module_but_for_the_stamp() {
    let source = "component Health { current: integer max: float? }\n\
                  fn half(x: integer): integer { return x / 2 }\n\
                  rule hit on Damage when entity.Health.current > 0 {\n\
                    if event.amount > 10 { entity.Health.current -= half(10) } else { schedule [delay: 1.0] Tick { a: 1 } }\n\
                    for e in entities having Health { create entity { Health { current: 1 } } }\n\
                  }\n\
                  boss = new entity { Health { current: 500 max: 500.0 } .pick = choice(xs: list): id { return xs[0] } }";
    let first = compiled(source);
    let second = compiled(source);
    assert_eq!(without_stamp(&first), without_stamp(&second));
    assert_eq!(first.rules[0].id, second.rules[0].id);
    // options and path change the source map and nothing else
    let options = CompilerOptions { include_source_map: true, pretty_print: true, optimize: true };
    let third = compile_with_path(source, &options, Some("a.brl")).unwrap();
    assert_eq!(format!("{:?}", first.rules), format!("{:?}", third.rules));
    assert_eq!(format!("{:?}", first.initial_state), format!("{:?}", third.initial_state));
    assert!(third.source_map.is_some());
}

#[test]
fn each_stage_fails_with_its_own_error() {
    let error = failure("component # { }");
    assert!(matches!(&error, CompileError::LexerError(text) if text == "Unexpected character at position 10: '#'"));
    assert_eq!(error.message(), "Lexer error: Unexpected character at position 10: '#'");
    let error = failure("component { }");
    assert!(matches!(
        &error,
        CompileError::ParserError(text) if text == "Unexpected token '{' at position 10, expected component name"
    ));
    assert_eq!(
        error.message(),
        "Parser error: Unexpected token '{' at position 10, expected component name"
    );
    let error = failure("component C {");
    assert!(matches!(&error, CompileError::ParserError(text) if text == "Unexpected end of input, expected }"));
    let error = failure("rule on E { a b() }");
    assert!(matches!(
        &error,
        CompileError::SemanticError(text) if text == "Undefined variable 'a'\nUndefined function 'b'"
    ));
    // the first stage that fails decides
    assert!(matches!(failure("rule on E { undefined } #"), CompileError::LexerError(_)));
    assert!(matches!(failure("rule on E { undefined } }"), CompileError::ParserError(_)));
}

#[test]
fn tracker_syntax_is_no_longer_part_of_the_language() {
    let error = failure("component Health { }\ntracker Health on DamageEvent");
    assert!(matches!(
        &error,
        CompileError::ParserError(text)
            if text == "Unexpected token 'tracker' at position 21, expected component, rule, fn, import, module, or entity"
    ));
}

#[test]
fn additional_sources_reach_the_source_map() {
    let options = CompilerOptions { include_source_map: true, pretty_print: false, optimize: false };
    let extra = vec![("ai.bcl".to_string(), "choice".to_string(), "bcl".to_string())];
    let module = compile_with_sources("component A { }", &options, Some("main.bdl"), &extra).unwrap();
    let files = module.source_map.unwrap().files;
    assert_eq!(
        files.iter().map(|f| (f.path.as_str(), f.content.as_str(), f.language.as_str())).collect::<Vec<_>>(),
        vec![("main.bdl", "component A { }", "bdl"), ("ai.bcl", "choice", "bcl")]
    );
    assert_eq!(module.components.len(), 1);
    let module = compile_with_sources("", &options, None, &extra).unwrap();
    assert_eq!(module.source_map.unwrap().files.len(), 1);
    assert!(compile_with_sources("", &options, None, &[]).unwrap().source_map.is_none());
    assert!(compile_with_sources("", &CompilerOptions::default(), Some("p"), &extra).unwrap().source_map.is_none());
    assert!(matches!(
        compile_with_sources("?", &options, Some("p"), &extra),
        Err(CompileError::ParserError(_))
    ));
}

#[test]
fn default_options_ask_for_nothing() {
    let options = CompilerOptions::default();
    assert!(!options.include_source_map);
    assert!(!options.pretty_print);
    assert!(!options.optimize);
}
