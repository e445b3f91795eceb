//! The typing rules on concrete programs.

use blink_compiler::analyzer::{
    analyze, Analyzer, Scope, SemanticError, SymbolTable, Type, TypedExpr, TypedExprKind, TypedItem,
    TypedModule, TypedStatement,
};
use blink_compiler::lexer::{tokenize, Span};
use blink_compiler::parser::{parse, ComponentDef, Item, Module, Statement, TrackerDef, TypeExpr};

fn module(source: &str) -> Module {
    parse(tokenize(source).unwrap()).unwrap()
}

fn check(source: &str) -> Result<TypedModule, Vec<SemanticError>> {
    Analyzer::new().analyze(&module(source))
}

fn errors(source: &str) -> Vec<String> {
    match check(source) {
        Ok(_) => vec![],
        Err(errors) => errors.iter().map(|e| e.message()).collect(),
    }
}

/// The typed statements of the body of the last rule of a source.
fn typed_body(source: &str) -> Vec<TypedStatement> {
    let typed = check(source).unwrap();
    match typed.items.into_iter().last() {
        Some(TypedItem::Rule(rule)) => rule.body.statements,
        _ => panic!("expected a rule"),
    }
}

const PRELUDE: &str = "component Health { current: integer max: float ratio: decimal tags: list<string> other: Health? }\n\
                       fn double(x: integer): integer { return x * 2 }\n\
                       fn log(x: string) { }\n";

/// The type of `<expr>` inside a rule that follows the prelude.
fn type_of(expr: &str) -> Type {
    let source = format!("{}rule on E {{ let h = Health let xs = [1.5, 2] let it = {} }}", PRELUDE, expr);
    let mut body = typed_body(&source);
    match body.pop() {
        Some(TypedStatement::Let { var_type, value, .. }) => {
            assert_eq!(var_type, value.typ);
            var_type
        }
        _ => panic!("expected a let"),
    }
}

fn list(t: Type) -> Type {
    Type::List(Box::new(t))
}

#[test]
fn literals_have_their_types() {
    assert_eq!(type_of("1"), Type::Integer);
    assert_eq!(type_of("1.5"), Type::Float);
    assert_eq!(type_of("1.5d"), Type::Decimal);
    assert_eq!(type_of("\"s\""), Type::String);
    assert_eq!(type_of("true"), Type::Boolean);
    assert_eq!(type_of("null"), Type::Optional(Box::new(Type::Unknown)));
}

#[test]
fn arithmetic_promotes() {
    assert_eq!(type_of("10 + 5"), Type::Integer);
    assert_eq!(type_of("10 + 5.0"), Type::Float);
    assert_eq!(type_of("10.0 - 5"), Type::Float);
    assert_eq!(type_of("10 * 5.0d"), Type::Decimal);
    assert_eq!(type_of("10.0d / 5"), Type::Decimal);
    assert_eq!(type_of("1.0d % 1.0"), Type::Float);
    assert_eq!(type_of("1.0 + 1.0d"), Type::Float);
    assert_eq!(type_of("1 + 2 * 3.0"), Type::Float);
    // what is no number counts as neither float nor decimal
    assert_eq!(type_of("\"a\" + true"), Type::Integer);
    assert_eq!(type_of("\"a\" + 1.5"), Type::Float);
}

#[test]
fn comparisons_and_logic_are_boolean() {
    for expr in ["1 == 2", "1 != 2.0", "1 < 2", "1 <= 2", "1 > 2", "1 >= 2", "true && false", "1 || \"x\""] {
        assert_eq!(type_of(expr), Type::Boolean, "{}", expr);
    }
}

#[test]
fn unary_operators() {
    assert_eq!(type_of("!1"), Type::Boolean);
    assert_eq!(type_of("-1"), Type::Integer);
    assert_eq!(type_of("-1.5"), Type::Float);
    assert_eq!(type_of("-\"s\""), Type::String);
    assert_eq!(type_of("-(1 + 2.0d)"), Type::Decimal);
}

#[test]
fn identifiers_resolve_to_variables_then_components() {
    assert_eq!(type_of("entity"), Type::EntityId);
    assert_eq!(type_of("event"), Type::EntityId);
    assert_eq!(type_of("Health"), Type::Component("Health".to_string()));
    assert_eq!(type_of("h"), Type::Component("Health".to_string()));
    assert_eq!(type_of("@anyone"), Type::EntityId);
}

#[test]
fn field_access_is_typed_through_a_component_only() {
    assert_eq!(type_of("Health.current"), Type::Integer);
    assert_eq!(type_of("h.max"), Type::Float);
    assert_eq!(type_of("h.ratio"), Type::Decimal);
    assert_eq!(type_of("h.tags"), list(Type::String));
    assert_eq!(type_of("h.other"), Type::Optional(Box::new(Type::Component("Health".to_string()))));
    // an unknown field, and a base that is no component, are no error
    assert_eq!(type_of("h.missing"), Type::Unknown);
    assert_eq!(type_of("entity.Health"), Type::Unknown);
    assert_eq!(type_of("entity.Health.current"), Type::Unknown);
    assert_eq!(type_of("h.other.current"), Type::Unknown);
}

#[test]
fn index_access_yields_the_element_type() {
    assert_eq!(type_of("xs[0]"), Type::Float);
    assert_eq!(type_of("h.tags[1]"), Type::String);
    assert_eq!(type_of("h[0]"), Type::Unknown);
    assert_eq!(type_of("[[1]][0]"), list(Type::Integer));
}

#[test]
fn lists_take_the_type_of_their_first_element() {
    assert_eq!(type_of("[1, 2]"), list(Type::Integer));
    assert_eq!(type_of("[1.5, 2, \"x\"]"), list(Type::Float));
    assert_eq!(type_of("[\"x\", 1]"), list(Type::String));
    assert_eq!(type_of("[]"), list(Type::Unknown));
}

#[test]
fn calls_have_the_return_type_of_the_function() {
    assert_eq!(type_of("double(1)"), Type::Integer);
    assert_eq!(type_of("log(\"x\")"), Type::Void);
    assert_eq!(type_of("min(1, 2)"), Type::Float);
    assert_eq!(type_of("max(1, 2)"), Type::Float);
    assert_eq!(type_of("floor(1.5)"), Type::Integer);
    assert_eq!(type_of("ceil(1.5)"), Type::Integer);
    assert_eq!(type_of("round(1.5)"), Type::Integer);
    assert_eq!(type_of("abs(1)"), Type::Float);
    assert_eq!(type_of("random()"), Type::Float);
    assert_eq!(type_of("random_range(1, 2)"), Type::Float);
    assert_eq!(type_of("len(xs)"), Type::Integer);
    // arguments are neither counted nor compared
    assert_eq!(type_of("double()"), Type::Integer);
    assert_eq!(type_of("double(\"x\", 2, 3)"), Type::Integer);
}

#[test]
fn the_rest_of_the_expressions() {
    assert_eq!(type_of("xs.size()"), Type::Unknown);
    assert_eq!(type_of("(1.5)"), Type::Float);
    assert_eq!(type_of("entities having Health"), list(Type::EntityId));
    assert_eq!(type_of("clone entity"), Type::EntityId);
    assert_eq!(type_of("clone entity { Health { current: 1 } }"), Type::EntityId);
}

#[test]
fn parentheses_leave_no_node() {
    let body = typed_body("rule on E { let x = ((1)) }");
    match &body[0] {
        TypedStatement::Let { value, .. } => assert!(matches!(value.kind, TypedExprKind::Literal(_))),
        _ => panic!("expected a let"),
    }
}

#[test]
fn a_let_takes_its_annotation_before_its_value() {
    let body = typed_body("rule on E { let x: float = 1 let y = x + 1 }");
    assert!(matches!(&body[0], TypedStatement::Let { var_type: Type::Float, value, .. } if value.typ == Type::Integer));
    assert!(matches!(&body[1], TypedStatement::Let { var_type: Type::Float, .. }));
}

#[test]
fn a_block_sees_what_is_outside_and_keeps_what_it_defines() {
    assert_eq!(
        errors("rule on E { let a = 1 if a > 0 { let b = a } else { let c = a } let d = a }"),
        Vec::<String>::new()
    );
    assert_eq!(
        errors("rule on E { if true { let b = 1 } let d = b }"),
        vec!["Undefined variable 'b'"]
    );
    assert_eq!(
        errors("rule on E { if true { let b = 1 } else { let c = b } }"),
        vec!["Undefined variable 'b'"]
    );
    assert_eq!(
        errors("rule on E { while true { let b = 1 } for x in [1] { let c = x } let d = x }"),
        vec!["Undefined variable 'x'"]
    );
    // a variable is not in sight in its own initialiser, nor before it
    assert_eq!(errors("rule on E { let a = a }"), vec!["Undefined variable 'a'"]);
    assert_eq!(errors("rule on E { let b = a let a = 1 }"), vec!["Undefined variable 'a'"]);
}

#[test]
fn an_inner_definition_hides_an_outer_one() {
    let body = typed_body("rule on E { let a = 1 if true { let a = \"s\" let b = a } let c = a }");
    match &body[1] {
        TypedStatement::If { then_block, .. } => {
            assert!(matches!(&then_block.statements[1], TypedStatement::Let { var_type: Type::String, .. }));
        }
        _ => panic!("expected an if"),
    }
    assert!(matches!(&body[2], TypedStatement::Let { var_type: Type::Integer, .. }));
    // a variable hides a component of the same name
    let body = typed_body("component C { } rule on E { let C = 1 let d = C }");
    assert!(matches!(&body[1], TypedStatement::Let { var_type: Type::Integer, .. }));
}

#[test]
fn a_for_loop_binds_its_variable_to_the_element_type() {
    let body = typed_body("rule on E { for x in [1.5] { let y = x } for z in 3 { let w = z } }");
    match &body[..] {
        [TypedStatement::For { body: first, .. }, TypedStatement::For { body: second, .. }] => {
            assert!(matches!(&first.statements[0], TypedStatement::Let { var_type: Type::Float, .. }));
            assert!(matches!(&second.statements[0], TypedStatement::Let { var_type: Type::Unknown, .. }));
        }
        _ => panic!("expected two loops"),
    }
}

#[test]
fn functions_see_their_parameters_and_nothing_else() {
    assert_eq!(errors("fn f(a: integer, b: list<float>) { let c = a + b[0] }"), Vec::<String>::new());
    assert_eq!(
        errors("fn f(a: integer) { let c = entity let d = event }"),
        vec!["Undefined variable 'entity'", "Undefined variable 'event'"]
    );
    assert_eq!(
        errors("c = new entity { .f = choice(a: integer): integer { return a + b } }"),
        vec!["Undefined variable 'b'"]
    );
    // field values of an entity see no variables at all
    assert_eq!(
        errors("component C { x: integer } c = new entity { C { x: entity } }"),
        vec!["Undefined variable 'entity'"]
    );
}

#[test]
fn definitions_may_follow_their_use() {
    assert_eq!(
        errors(
            "rule on E { let h = Later let n = later(1) }\n\
             fn early() { let h = Later.x create entity { Later { x: 1 } } }\n\
             first = new entity { Later { x: 1 } }\n\
             component Later { x: integer }\n\
             fn later(n: integer): integer { return n }"
        ),
        Vec::<String>::new()
    );
    let body = typed_body("fn f() { }\nrule on E { let x = Later.x }\ncomponent Later { x: decimal }\nrule on E { let x = Later.x }");
    assert!(matches!(&body[0], TypedStatement::Let { var_type: Type::Decimal, .. }));
}

#[test]
fn every_error_is_reported_in_source_order() {
    assert_eq!(
        errors(
            "rule on E {\n\
               let a = nowhere\n\
               let b = nothing(a, missing)\n\
               create entity { Ghost { x: gone } }\n\
               let c = entities having Phantom\n\
               if nope { let d = clone entity { Spirit { } } } else if never { } else { zip() }\n\
             }\n\
             fn f() { return absent }\n\
             e = new entity { Shade { x: 1 } }"
        ),
        vec![
            "Undefined variable 'nowhere'",
            "Undefined variable 'missing'",
            "Undefined function 'nothing'",
            "Undefined component 'Ghost'",
            "Undefined variable 'gone'",
            "Undefined component 'Phantom'",
            "Undefined variable 'nope'",
            "Undefined component 'Spirit'",
            "Undefined variable 'never'",
            "Undefined function 'zip'",
            "Undefined variable 'absent'",
            "Undefined component 'Shade'",
        ]
    );
}

#[test]
fn three_undefined_references_are_three_errors() {
    let found = check("rule on E { let a = x let b = f(1) let c = entities having C }").unwrap_err();
    assert_eq!(found.len(), 3);
    assert!(matches!(&found[0], SemanticError::UndefinedVariable { name } if name == "x"));
    assert!(matches!(&found[1], SemanticError::UndefinedFunction { name } if name == "f"));
    assert!(matches!(&found[2], SemanticError::UndefinedComponent { name } if name == "C"));
    // the same name twice is two errors
    assert_eq!(errors("rule on E { let a = x + x }").len(), 2);
}

#[test]
fn entities_having_an_undeclared_component_is_one_error() {
    let found = check("rule on E { let all = entities having Character }").unwrap_err();
    assert_eq!(found.len(), 1);
    assert!(matches!(&found[0], SemanticError::UndefinedComponent { name } if name == "Character"));
    assert_eq!(
        analyze(module("rule on E { let all = entities having Character }")).unwrap_err(),
        "Undefined component 'Character'"
    );
}

#[test]
fn the_flattened_error_is_one_message_per_line() {
    assert_eq!(
        analyze(module("rule on E { a(b) } rule on F { c }")).unwrap_err(),
        "Undefined variable 'b'\nUndefined function 'a'\nUndefined variable 'c'"
    );
    assert!(analyze(module("")).is_ok());
}

#[test]
fn semantic_error_messages() {
    let name = || "n".to_string();
    assert_eq!(SemanticError::UndefinedComponent { name: name() }.message(), "Undefined component 'n'");
    assert_eq!(SemanticError::UndefinedVariable { name: name() }.message(), "Undefined variable 'n'");
    assert_eq!(SemanticError::UndefinedFunction { name: name() }.message(), "Undefined function 'n'");
    assert_eq!(SemanticError::UndefinedEvent { name: name() }.message(), "Undefined event 'n'");
    assert_eq!(
        SemanticError::TypeMismatch { expected: "a".to_string(), found: "b".to_string() }.message(),
        "Type mismatch: expected a, found b"
    );
    assert_eq!(SemanticError::DuplicateDefinition { name: name() }.message(), "Duplicate definition of 'n'");
    assert_eq!(SemanticError::InvalidAssignmentTarget.message(), "Invalid assignment target");
    assert_eq!(SemanticError::BCLWriteViolation.message(), "Cannot modify state in BCL (choice function)");
    assert_eq!(
        SemanticError::FieldNotFound { component: "C".to_string(), field: "f".to_string() }.message(),
        "Field 'f' not found in component 'C'"
    );
}

#[test]
fn imports_and_nested_modules_have_no_typed_item() {
    let typed = check("import a.b module m { component Hidden { } rule on E { let x = nothing } } component C { }")
        .unwrap();
    assert_eq!(typed.items.len(), 1);
    assert!(matches!(&typed.items[0], TypedItem::Component(c) if c.name == "C"));
    // what a nested module declares is not registered
    assert!(typed.symbols.get_component("Hidden").is_none());
    assert!(typed.symbols.get_component("C").is_some());
}

#[test]
fn a_composite_parameter_is_a_composite_type() {
    let typed = check(
        "component Character { name: string } component Skills { skill1: string }\n\
         w = new entity { .select = choice(c: Character & Skills): string { return \"attack\" } }",
    )
    .unwrap();
    let Some(TypedItem::Entity(entity)) = typed.items.last() else { panic!("expected an entity") };
    assert_eq!(
        entity.bound_functions[0].params[0].param_type,
        Type::Composite(vec![Type::Component("Character".to_string()), Type::Component("Skills".to_string())])
    );
    assert_eq!(entity.bound_functions[0].return_type, Type::String);
}

#[test]
fn written_types_resolve() {
    assert_eq!(Type::from_type_expr(&TypeExpr::Id), Type::EntityId);
    assert_eq!(Type::from_type_expr(&TypeExpr::String), Type::String);
    assert_eq!(
        Type::from_type_expr(&TypeExpr::Optional(Box::new(TypeExpr::List(Box::new(TypeExpr::Component(
            "C".to_string()
        )))))),
        Type::Optional(Box::new(list(Type::Component("C".to_string()))))
    );
    assert_eq!(
        Type::from_type_expr(&TypeExpr::Composite(vec![TypeExpr::Component("A".to_string()), TypeExpr::Float])),
        Type::Composite(vec![Type::Component("A".to_string()), Type::Float])
    );
}

#[test]
fn the_symbol_table_keeps_the_last_definition_of_a_name() {
    let mut table = SymbolTable::new();
    assert!(table.get_component("C").is_none());
    assert!(table.get_function("f").is_none());
    table.add_component("C".to_string(), vec![("x".to_string(), Type::Integer)]);
    table.add_component("D".to_string(), vec![]);
    table.add_component("C".to_string(), vec![("y".to_string(), Type::Float), ("y".to_string(), Type::String)]);
    let c = table.get_component("C").unwrap();
    assert_eq!(c.name, "C");
    assert_eq!(c.fields.len(), 2);
    assert_eq!(c.fields[0].0, "y");
    assert!(table.get_component("D").unwrap().fields.is_empty());
    table.add_function("f".to_string(), vec![("a".to_string(), Type::Integer)], Type::Boolean);
    table.add_function("f".to_string(), vec![], Type::String);
    let f = table.get_function("f").unwrap();
    assert!(f.params.is_empty());
    assert_eq!(f.return_type, Type::String);
    table.add_tracker("C".to_string(), "E".to_string());
    table.add_tracker("C".to_string(), "E".to_string());
    assert_eq!(table.trackers().len(), 2);
    assert_eq!(table.trackers()[1].event, "E");
    let empty = SymbolTable::default();
    assert!(empty.get_function("min").is_none());
}

#[test]
fn of_two_fields_with_one_name_the_later_counts() {
    let body = typed_body("component C { x: integer x: string } rule on E { let v = C.x }");
    assert!(matches!(&body[0], TypedStatement::Let { var_type: Type::String, .. }));
}

#[test]
fn a_declared_function_replaces_a_builtin_of_its_name() {
    let body = typed_body("fn len(x: string): string { return x } rule on E { let n = len(\"a\") }");
    assert!(matches!(&body[0], TypedStatement::Let { var_type: Type::String, .. }));
}

#[test]
fn scopes() {
    let mut outer = Scope::new();
    assert!(outer.lookup("a").is_none());
    outer.define("a".to_string(), Type::Integer);
    outer.define("b".to_string(), Type::Float);
    outer.define("a".to_string(), Type::String);
    assert_eq!(outer.lookup("a"), Some(&Type::String));
    let mut inner = Scope::with_parent(outer.duplicate());
    assert_eq!(inner.lookup("a"), Some(&Type::String));
    inner.define("a".to_string(), Type::Boolean);
    inner.define("c".to_string(), Type::Void);
    assert_eq!(inner.lookup("a"), Some(&Type::Boolean));
    assert_eq!(inner.lookup("b"), Some(&Type::Float));
    assert_eq!(inner.lookup("c"), Some(&Type::Void));
    assert_eq!(outer.lookup("a"), Some(&Type::String));
    assert!(outer.lookup("c").is_none());
    let copy = inner.duplicate();
    assert_eq!(copy.lookup("b"), Some(&Type::Float));
    assert_eq!(copy.lookup("a"), Some(&Type::Boolean));
}

#[test]
fn analysis_of_one_expression() {
    let mut analyzer = Analyzer::new();
    let m = module("rule on E { a + len(b) }");
    let Item::Rule(rule) = &m.items[0] else { panic!("expected a rule") };
    let Statement::Expr(expr) = &rule.body.statements[0] else { panic!("expected an expression") };
    let mut scope = Scope::new();
    scope.define("a".to_string(), Type::Decimal);
    let typed: TypedExpr = analyzer.analyze_expr(expr, &scope);
    assert_eq!(typed.typ, Type::Decimal);
    assert_eq!(analyzer.errors().len(), 1);
    assert!(analyzer.symbols().get_function("len").is_some());
    // an analyzer that has found an error reports it with those of the module
    match analyzer.analyze(&module("rule on E { c }")) {
        Err(errors) => {
            assert_eq!(errors.len(), 2);
            assert_eq!(errors[0].message(), "Undefined variable 'b'");
            assert_eq!(errors[1].message(), "Undefined variable 'c'");
        }
        Ok(_) => panic!("the errors were lost"),
    }
}

#[test]
fn a_tracker_needs_its_component() {
    let tracker = |component: &str| {
        Item::Tracker(TrackerDef {
            component: component.to_string(),
            event: "Damage".to_string(),
            span: Span::new(0, 0),
        })
    };
    let component = Item::Component(ComponentDef { name: "Health".to_string(), fields: vec![], span: Span::new(0, 0) });
    let typed = Analyzer::new().analyze(&Module { items: vec![tracker("Health"), component] }).unwrap();
    assert_eq!(typed.symbols.trackers().len(), 1);
    assert_eq!(typed.symbols.trackers()[0].component, "Health");
    assert!(matches!(&typed.items[0], TypedItem::Tracker(t) if t.component == "Health" && t.event == "Damage"));
    let found = Analyzer::new().analyze(&Module { items: vec![tracker("Mana")] }).unwrap_err();
    assert_eq!(found.len(), 1);
    assert_eq!(found[0].message(), "Undefined component 'Mana'");
}
