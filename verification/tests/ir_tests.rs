//! Lowering on concrete programs.

use blink_compiler::analyzer::Type;
use blink_compiler::ir::{
    data_violations, generate, generate_with_source, generate_with_sources, IRAction, IRExpression, IRGenerator, IRModule, IRNumber,
    IRType, IRValue,
};
use blink_compiler::lexer::{tokenize, Span};
use blink_compiler::analyzer::{analyze, Analyzer};
use blink_compiler::parser::{
    parse, AssignOp, BinaryOp, ComponentDef, Item, Literal, Module, TrackerDef, UnaryOp,
};
use blink_compiler::{compile, compile_with_path, CompileError, CompilerOptions};

fn ir(source: &str) -> IRModule {
    match compile(source, &CompilerOptions::default()) {
        Ok(ir) => ir,
        Err(e) => panic!("{}: {}", source, e.message()),
    }
}

fn value(v: &IRValue) -> String {
    match v {
        IRValue::Null => "null".to_string(),
        IRValue::Boolean(b) => format!("{}", b),
        IRValue::Number(IRNumber::Integer(n)) => format!("{}", n),
        IRValue::Number(IRNumber::Decimal(s)) => format!("#{}", s),
        IRValue::String(s) => format!("{:?}", s),
        IRValue::List(items) => format!("[{}]", items.iter().map(value).collect::<Vec<_>>().join(",")),
        IRValue::Object(entries) => format!(
            "{{{}}}",
            entries.iter().map(|(k, v)| format!("{}:{}", k, value(v))).collect::<Vec<_>>().join(",")
        ),
    }
}

fn expr(e: &IRExpression) -> String {
    match e {
        IRExpression::Literal { value: v } => value(v),
        IRExpression::Var { name } => format!("${}", name),
        IRExpression::Param { name } => format!("%{}", name),
        IRExpression::Field { entity, component, field } => format!("{}.{}.{}", entity, component, field),
        IRExpression::Binary { op, left, right } => format!("{}({},{})", op, expr(left), expr(right)),
        IRExpression::Unary { op, expr: inner } => format!("{}({})", op, expr(inner)),
        IRExpression::Call { function, args } => {
            format!("{}!({})", function, args.iter().map(expr).collect::<Vec<_>>().join(","))
        }
        IRExpression::If { condition, then_expr, else_expr } => {
            format!("if({},{},{})", expr(condition), expr(then_expr), expr(else_expr))
        }
    }
}

fn actions(all: &[IRAction]) -> String {
    all.iter().map(action).collect::<Vec<_>>().join("; ")
}

fn action(a: &IRAction) -> String {
    match a {
        IRAction::Modify { entity, component, field, op, value } => {
            format!("modify {} {} {} {} {}", expr(entity), component, field, op, expr(value))
        }
        IRAction::Schedule { event, source, delay, fields } => format!(
            "schedule {} source={} delay={} fields={}",
            event,
            source.as_ref().map(expr).unwrap_or("-".to_string()),
            delay.as_ref().map(expr).unwrap_or("-".to_string()),
            fields
                .as_ref()
                .map(|f| f.iter().map(|(k, v)| format!("{}={}", k, expr(v))).collect::<Vec<_>>().join(","))
                .unwrap_or("-".to_string())
        ),
        IRAction::Emit { event, .. } => format!("emit {}", event),
        IRAction::Spawn { components } => format!(
            "spawn {}",
            components
                .iter()
                .map(|c| format!(
                    "{}({})",
                    c.name,
                    c.fields.iter().map(|(k, v)| format!("{}={}", k, expr(v))).collect::<Vec<_>>().join(",")
                ))
                .collect::<Vec<_>>()
                .join(" ")
        ),
        IRAction::Despawn { entity } => format!("despawn {}", expr(entity)),
        IRAction::AddComponent { .. } => "add".to_string(),
        IRAction::RemoveComponent { .. } => "remove".to_string(),
        IRAction::Conditional { condition, then_actions, else_actions } => format!(
            "if {} [{}] else {}",
            expr(condition),
            actions(then_actions),
            else_actions.as_ref().map(|a| format!("[{}]", actions(a))).unwrap_or("-".to_string())
        ),
        IRAction::Loop { variable, iterable, body } => {
            format!("for {} in {} [{}]", variable, expr(iterable), actions(body))
        }
    }
}

/// The lowered actions of `rule on E { <body> }`.
fn lowered(body: &str) -> String {
    actions(&ir(&format!("rule on E {{ {} }}", body)).rules[0].actions)
}

/// The lowered form of an expression, by way of `delete <expr>`.
fn lowered_expr(text: &str) -> String {
    let module = ir(&format!("fn f(a: integer, b: integer, c: integer) {{ return {} }}", text));
    expr(&module.functions[0].body)
}

#[test]
fn an_assignment_to_a_field_is_a_modify() {
    assert_eq!(lowered("entity.Health.current -= 10"), "modify $entity Health current subtract 10");
    assert_eq!(lowered("entity.Health.current = 1"), "modify $entity Health current set 1");
    assert_eq!(lowered("entity.Health.current += 1"), "modify $entity Health current add 1");
    assert_eq!(lowered("entity.Health.current *= 1"), "modify $entity Health current multiply 1");
    assert_eq!(lowered("entity.Health.current /= 1"), "modify $entity Health current divide 1");
    assert_eq!(lowered("@boss.Health.current = 1"), "modify $@boss Health current set 1");
    // a target of one level has no component to name
    assert_eq!(lowered("entity.hp = 1"), "modify $entity Unknown hp set 1");
    // of a deeper chain the entity is what stands before the last two names
    assert_eq!(lowered("event.target.Health.current = 1"), "modify $target Health current set 1");
    assert_eq!(lowered("entity.b.c.Health.current = 1"), "modify entity.b.c Health current set 1");
}

#[test]
fn an_assignment_to_anything_else_is_dropped() {
    assert_eq!(lowered("let x = 1 x = 2 x += 3"), "");
    assert_eq!(lowered("let xs = [1] xs[0] = 2"), "");
}

#[test]
fn statements_without_an_action_leave_no_trace() {
    assert_eq!(
        lowered("let a = 1 entity.H.x = a while a < 3 { entity.H.x = 2 } cancel a max(1, 2) return a delete entity"),
        "modify $entity H x set $a; despawn $entity"
    );
}

#[test]
fn conditionals_nest() {
    assert_eq!(
        lowered("if true { delete entity }"),
        "if true [despawn $entity] else -"
    );
    assert_eq!(
        lowered("if 1 < 2 { } else { delete entity }"),
        "if lt(1,2) [] else [despawn $entity]"
    );
    assert_eq!(
        lowered("if true { } else if false { delete entity } else { let x = 1 }"),
        "if true [] else [if false [despawn $entity] else []]"
    );
    assert_eq!(
        lowered("if true { } else if false { } else if null { }"),
        "if true [] else [if false [] else [if null [] else -]]"
    );
}

#[test]
fn loops() {
    assert_eq!(
        lowered("for x in [1, 2] { delete x let y = x }"),
        "for x in list!(1,2) [despawn $x]"
    );
}

#[test]
fn schedules() {
    assert_eq!(lowered("schedule Tick { }"), "schedule Tick source=- delay=- fields=-");
    assert_eq!(
        lowered("schedule [delay: 1.5] Boom { source: entity.id power: 3 }"),
        "schedule Boom source=- delay=#1.5 fields=source=$id,power=3"
    );
    // the interval and the recurrence have no place in the action
    assert_eq!(
        lowered("schedule recurring [interval: 2] Tick { n: 1 }"),
        "schedule Tick source=- delay=- fields=n=1"
    );
    // of two fields with one name the later value stands where the first stood
    assert_eq!(
        lowered("schedule Tick { a: 1 b: 2 a: 3 }"),
        "schedule Tick source=- delay=- fields=a=3,b=2"
    );
}

#[test]
fn spawn_and_despawn() {
    assert_eq!(
        ir("component A { x: integer } component B { } rule on E { create entity { A { x: 1 + 2 y: entity } B { } } }")
            .rules[0]
            .actions
            .iter()
            .map(action)
            .collect::<Vec<_>>(),
        vec!["spawn A(x=add(1,2),y=$entity) B()"]
    );
    assert_eq!(
        actions(&ir("component A { } rule on E { create entity { A { x: 1 x: 2 } A { } } }").rules[0].actions),
        "spawn A(x=2) A()"
    );
    assert_eq!(lowered("create entity { }"), "spawn ");
    assert_eq!(lowered("delete @old"), "despawn $@old");
}

#[test]
fn expressions() {
    assert_eq!(lowered_expr("1"), "1");
    assert_eq!(lowered_expr("-1"), "negate(1)");
    assert_eq!(lowered_expr("!true"), "not(true)");
    assert_eq!(lowered_expr("a"), "$a");
    assert_eq!(lowered_expr("@goblin"), "$@goblin");
    assert_eq!(lowered_expr("(a)"), "$a");
    assert_eq!(lowered_expr("a + b * c"), "add($a,multiply($b,$c))");
    assert_eq!(lowered_expr("a - b"), "subtract($a,$b)");
    assert_eq!(lowered_expr("a / b % c"), "modulo(divide($a,$b),$c)");
    assert_eq!(lowered_expr("a == b"), "eq($a,$b)");
    assert_eq!(lowered_expr("a != b"), "neq($a,$b)");
    assert_eq!(lowered_expr("a < b"), "lt($a,$b)");
    assert_eq!(lowered_expr("a <= b"), "lte($a,$b)");
    assert_eq!(lowered_expr("a > b"), "gt($a,$b)");
    assert_eq!(lowered_expr("a >= b"), "gte($a,$b)");
    assert_eq!(lowered_expr("a && b || c"), "or(and($a,$b),$c)");
    assert_eq!(lowered_expr("max(a, 2)"), "max!($a,2)");
    assert_eq!(lowered_expr("random()"), "random!()");
    assert_eq!(lowered_expr("[a, 2][0]"), "get!(list!($a,2),0)");
    assert_eq!(lowered_expr("[]"), "list!()");
}

#[test]
fn a_field_reference_is_an_identifier_a_component_and_a_field() {
    assert_eq!(lowered_expr("a.Health.current"), "a.Health.current");
    assert_eq!(lowered("delete entity.Health.current"), "despawn entity.Health.current");
    // anything else falls back to the last name
    assert_eq!(lowered_expr("a.current"), "$current");
    assert_eq!(lowered_expr("@e.Health.current"), "$current");
    assert_eq!(lowered_expr("a.b.c.d"), "$d");
    assert_eq!(lowered_expr("(a).Health.current"), "a.Health.current");
    assert_eq!(lowered_expr("[a][0].Health.current"), "$current");
}

#[test]
fn what_has_no_lowered_form_is_null() {
    assert_eq!(lowered_expr("a.f(1)"), "null");
    assert_eq!(lowered("delete clone entity"), "despawn null");
    assert_eq!(
        expr(&ir("component C { } fn f() { return entities having C }").functions[0].body),
        "null"
    );
}

#[test]
fn literal_values() {
    assert_eq!(lowered_expr("42"), "42");
    assert_eq!(lowered_expr("9223372036854775807"), "9223372036854775807");
    assert_eq!(lowered_expr("3.14"), "#3.14");
    assert_eq!(lowered_expr("10.50d"), "#10.50");
    assert_eq!(lowered_expr("\"hi\""), "\"hi\"");
    assert_eq!(lowered_expr("''"), "\"\"");
    assert_eq!(lowered_expr("true"), "true");
    assert_eq!(lowered_expr("false"), "false");
    assert_eq!(lowered_expr("null"), "null");
}

#[test]
fn a_literal_that_is_no_number_is_null() {
    let generator = IRGenerator::new();
    let text = |s: &str| s.to_string();
    assert_eq!(value(&generator.convert_literal(&Literal::Float(text("1.5")))), "#1.5");
    assert_eq!(value(&generator.convert_literal(&Literal::Decimal(text("0.0")))), "#0.0");
    assert_eq!(value(&generator.convert_literal(&Literal::Integer(-3))), "-3");
    for bad in ["", ".", "1", "1.", ".5", "1.5.2", "1.5d", "-1.5", "1e5", "1 .5", "a.b", "١.٢"] {
        assert_eq!(value(&generator.convert_literal(&Literal::Decimal(text(bad)))), "null", "{:?}", bad);
        assert_eq!(value(&generator.convert_literal(&Literal::Float(text(bad)))), "null", "{:?}", bad);
    }
}

#[test]
fn operator_names() {
    let generator = IRGenerator::new();
    assert_eq!(generator.convert_assign_op(&AssignOp::Assign), "set");
    assert_eq!(generator.convert_assign_op(&AssignOp::AddAssign), "add");
    assert_eq!(generator.convert_assign_op(&AssignOp::SubAssign), "subtract");
    assert_eq!(generator.convert_assign_op(&AssignOp::MulAssign), "multiply");
    assert_eq!(generator.convert_assign_op(&AssignOp::DivAssign), "divide");
    assert_eq!(generator.convert_binary_op(&BinaryOp::Mod), "modulo");
    assert_eq!(generator.convert_binary_op(&BinaryOp::Or), "or");
    assert_eq!(generator.convert_unary_op(&UnaryOp::Neg), "negate");
    assert_eq!(generator.convert_unary_op(&UnaryOp::Not), "not");
}

#[test]
fn wire_types() {
    let generator = IRGenerator::new();
    let list = |t: IRType| IRType::List { element: Box::new(t) };
    assert_eq!(generator.convert_type(&Type::String), IRType::String);
    assert_eq!(generator.convert_type(&Type::Boolean), IRType::Boolean);
    assert_eq!(generator.convert_type(&Type::Integer), IRType::Number);
    assert_eq!(generator.convert_type(&Type::Float), IRType::Number);
    assert_eq!(generator.convert_type(&Type::Decimal), IRType::Number);
    assert_eq!(generator.convert_type(&Type::EntityId), IRType::Entity);
    assert_eq!(generator.convert_type(&Type::Component("C".to_string())), IRType::Entity);
    assert_eq!(generator.convert_type(&Type::Composite(vec![Type::Component("C".to_string())])), IRType::Entity);
    assert_eq!(generator.convert_type(&Type::Void), IRType::Number);
    assert_eq!(generator.convert_type(&Type::Unknown), IRType::Number);
    assert_eq!(
        generator.convert_type(&Type::List(Box::new(Type::List(Box::new(Type::String))))),
        list(list(IRType::String))
    );
    assert_eq!(list(IRType::Entity).clone(), list(IRType::Entity));
}

#[test]
fn an_optional_has_the_wire_type_of_what_it_wraps() {
    let generator = IRGenerator::new();
    for t in [Type::String, Type::Integer, Type::EntityId, Type::List(Box::new(Type::Float)), Type::Unknown] {
        let plain = generator.convert_type(&t);
        assert_eq!(generator.convert_type(&Type::Optional(Box::new(t.clone()))), plain);
        assert_eq!(generator.convert_type(&Type::Optional(Box::new(Type::Optional(Box::new(t))))), plain);
    }
    let module = ir("component C { a: id b: id? c: list<string> d: list<string?>? e: C? f: C }");
    let types: Vec<&IRType> = module.components[0].fields.iter().map(|f| &f.field_type).collect();
    assert_eq!(types[0], types[1]);
    assert_eq!(types[2], types[3]);
    assert_eq!(types[4], types[5]);
    assert!(module.components[0].fields.iter().all(|f| f.default.is_none()));
}

#[test]
fn ids_count_up_from_zero_for_each_kind() {
    let module = ir(
        "component A { } rule on E { } component B { } fn f() { } x = new entity { } rule r on E { }\n\
         import q fn g() { } component C { } entity { } module m { component Hidden { } } rule on E { }",
    );
    assert_eq!(module.components.iter().map(|c| (c.id, c.name.as_str())).collect::<Vec<_>>(), vec![
        (0, "A"),
        (1, "B"),
        (2, "C")
    ]);
    assert_eq!(module.rules.iter().map(|r| (r.id, r.name.as_deref())).collect::<Vec<_>>(), vec![
        (0, None),
        (1, Some("r")),
        (2, None)
    ]);
    assert_eq!(module.functions.iter().map(|f| (f.id, f.name.as_str())).collect::<Vec<_>>(), vec![
        (0, "f"),
        (1, "g")
    ]);
    let entities = &module.initial_state.as_ref().unwrap().entities;
    assert_eq!(entities.iter().map(|e| (e.id, e.variable.as_deref())).collect::<Vec<_>>(), vec![
        (0, Some("x")),
        (1, None)
    ]);
    assert!(module.trackers.is_empty());
}

#[test]
fn a_generator_goes_on_counting() {
    let typed = |source: &str| analyze(parse(tokenize(source).unwrap()).unwrap()).unwrap();
    let options = CompilerOptions::default();
    let mut generator = IRGenerator::new();
    let first = generator.generate(typed("component A { } rule on E { }"), &options, None, None, &[]).unwrap();
    let second = generator.generate(typed("component B { } component C { }"), &options, None, None, &[]).unwrap();
    assert_eq!(first.components[0].id, 0);
    assert_eq!(second.components.iter().map(|c| c.id).collect::<Vec<_>>(), vec![1, 2]);
    assert_eq!(generator.component_id_counter, 3);
    assert_eq!(generator.rule_id_counter, 1);
    assert_eq!(generator.next_rule_id(), 1);
    assert_eq!(generator.next_component_id(), 3);
    assert_eq!(generator.next_function_id(), 0);
    assert_eq!(generator.next_function_id(), 1);
    assert_eq!(generator.next_tracker_id(), 0);
    assert_eq!(generator.next_entity_id(), 0);
    assert_eq!(generator.entity_id_counter, 1);
}

#[test]
fn generation_fails_when_a_kind_has_no_id_left() {
    let typed = |source: &str| analyze(parse(tokenize(source).unwrap()).unwrap()).unwrap();
    let options = CompilerOptions::default();
    let mut generator = IRGenerator::new();
    generator.rule_id_counter = u32::MAX;
    // other kinds are not affected
    assert!(generator.generate(typed("component A { } fn f() { }"), &options, None, None, &[]).is_ok());
    let error = generator.generate(typed("component A { } rule on E { }"), &options, None, None, &[]).unwrap_err();
    assert_eq!(error.message(), "IR generation error: no id left for a definition");
    let mut generator = IRGenerator::new();
    generator.entity_id_counter = u32::MAX - 1;
    assert!(generator.generate(typed("entity { }"), &options, None, None, &[]).is_ok());
    assert!(generator.generate(typed("entity { }"), &options, None, None, &[]).is_err());
    assert_eq!(
        CompileError::IRError("IR generation error: no id left for a definition".to_string()).message(),
        "IR generation error: IR generation error: no id left for a definition"
    );
}

#[test]
fn rules_carry_their_trigger_and_condition() {
    let module = ir("rule named on Damage when entity.Health.current > 0 { } rule on Tick { }");
    let rule = &module.rules[0];
    assert_eq!(rule.name.as_deref(), Some("named"));
    assert_eq!(rule.trigger.trigger_type, "event");
    assert_eq!(rule.trigger.event.as_deref(), Some("Damage"));
    assert!(rule.trigger.bindings.is_none());
    assert!(rule.filter.is_none());
    assert_eq!(expr(rule.condition.as_ref().unwrap()), "gt(entity.Health.current,0)");
    assert!(rule.actions.is_empty());
    assert!(module.rules[1].condition.is_none());
    assert_eq!(module.rules[1].trigger.event.as_deref(), Some("Tick"));
}

#[test]
fn a_function_body_is_its_first_return_with_a_value() {
    let body = |source: &str| expr(&ir(source).functions[0].body);
    assert_eq!(body("fn f(a: integer): integer { return a * 2 }"), "multiply($a,2)");
    assert_eq!(body("fn f() { let x = 1 return x return 2 }"), "$x");
    assert_eq!(body("fn f() { return return 5 }"), "5");
    // without one the body is the number 0; returns inside blocks do not count
    assert_eq!(body("fn f() { }"), "0");
    assert_eq!(body("fn f() { if true { return 1 } }"), "0");
    assert_eq!(body("fn f() { return }"), "0");
    let module = ir("fn f(a: integer, b: list<string>?): string { return \"x\" } fn g() { }");
    assert_eq!(module.functions[0].params.len(), 2);
    assert_eq!(module.functions[0].params[0].name, "a");
    assert_eq!(module.functions[0].params[0].param_type, IRType::Number);
    assert_eq!(module.functions[0].params[1].param_type, IRType::List { element: Box::new(IRType::String) });
    assert_eq!(module.functions[0].return_type, IRType::String);
    assert_eq!(module.functions[1].return_type, IRType::Number);
}

#[test]
fn entities_hold_literal_values() {
    let module = ir(
        "component Health { current: integer max: integer } component Tag { name: string }\n\
         warrior = new entity {\n\
           Health { current: 100 max: 100.5 }\n\
           Tag { name: \"orc\" alive: true nothing: null ratio: 0.25d }\n\
         }",
    );
    let state = module.initial_state.unwrap();
    assert_eq!(state.entities.len(), 1);
    let entity = &state.entities[0];
    assert_eq!(entity.id, 0);
    assert_eq!(entity.variable.as_deref(), Some("warrior"));
    assert!(entity.bound_functions.is_none());
    assert_eq!(entity.components.keys().collect::<Vec<_>>(), vec!["Health", "Tag"]);
    let fields = |name: &str| -> Vec<String> {
        entity.components[name].iter().map(|(k, v)| format!("{}={}", k, value(v))).collect()
    };
    assert_eq!(fields("Health"), vec!["current=100", "max=#100.5"]);
    assert_eq!(fields("Tag"), vec!["name=\"orc\"", "alive=true", "nothing=null", "ratio=#0.25"]);
}

#[test]
fn an_entity_field_that_is_no_literal_is_null() {
    let module = ir(
        "component C { a: integer }\n\
         e = new entity { C { a: 1 + 2 b: -1 c: (3) d: [1] e: C f: 4 } }",
    );
    let entity = &module.initial_state.unwrap().entities[0];
    let fields: Vec<String> = entity.components["C"].iter().map(|(k, v)| format!("{}={}", k, value(v))).collect();
    assert_eq!(fields, vec!["a=null", "b=null", "c=3", "d=null", "e=null", "f=4"]);
}

#[test]
fn entity_fields_that_are_no_literals_are_reported() {
    let typed = |source: &str| analyze(parse(tokenize(source).unwrap()).unwrap()).unwrap();
    let found = data_violations(&typed(
        "component C { a: integer } component D { }\n\
         rule on E { create entity { C { a: 1 + 2 } } }\n\
         e = new entity { C { a: 1 + 2 b: -1 c: (3) d: [1] e: 4 } D { } D { x: C } }\n\
         f = new entity { C { a: 1 } }\n\
         g = new entity { D { y: max(1, 2) } }",
    ));
    let pairs: Vec<(&str, &str)> = found.iter().map(|(c, f)| (c.as_str(), f.as_str())).collect();
    assert_eq!(pairs, vec![("C", "a"), ("C", "b"), ("C", "d"), ("D", "x"), ("D", "y")]);
    assert!(data_violations(&typed("component C { } e = new entity { C { a: 1 b: \"x\" c: null } }")).is_empty());
    assert!(data_violations(&typed("")).is_empty());
}

#[test]
fn a_repeated_name_keeps_its_place_and_takes_the_later_value() {
    let module = ir(
        "component A { } component B { }\n\
         e = new entity { A { x: 1 y: 2 x: 3 } B { } A { z: 9 } .f = choice() { return 1 } .g = choice() { return 2 } .f = choice() { return 3 } }",
    );
    let entity = &module.initial_state.unwrap().entities[0];
    assert_eq!(entity.components.keys().collect::<Vec<_>>(), vec!["A", "B"]);
    assert_eq!(
        entity.components["A"].iter().map(|(k, v)| format!("{}={}", k, value(v))).collect::<Vec<_>>(),
        vec!["z=9"]
    );
    let functions = entity.bound_functions.as_ref().unwrap();
    assert_eq!(functions.keys().collect::<Vec<_>>(), vec!["f", "g"]);
    assert_eq!(expr(&functions["f"].body), "3");
    assert_eq!(expr(&functions["g"].body), "2");
    let module = ir("component A { } e = new entity { A { x: 1 y: 2 x: 3 } }");
    let entity = &module.initial_state.unwrap().entities[0];
    assert_eq!(
        entity.components["A"].iter().map(|(k, v)| format!("{}={}", k, value(v))).collect::<Vec<_>>(),
        vec!["x=3", "y=2"]
    );
}

#[test]
fn bound_functions() {
    let module = ir(
        "component Health { current: integer }\n\
         w = new entity { Health { current: 1 } .select = choice(enemies: list, me: Health & Health): id { return enemies[0] } }",
    );
    let entity = &module.initial_state.unwrap().entities[0];
    let functions = entity.bound_functions.as_ref().unwrap();
    assert_eq!(functions.len(), 1);
    let select = &functions["select"];
    assert_eq!(select.params.len(), 2);
    assert_eq!(select.params[0].name, "enemies");
    assert_eq!(select.params[0].param_type, IRType::List { element: Box::new(IRType::Entity) });
    assert_eq!(select.params[1].param_type, IRType::Entity);
    assert_eq!(select.return_type, IRType::Entity);
    assert_eq!(expr(&select.body), "get!($enemies,0)");
    assert!(select.source.is_none());
}

#[test]
fn the_module_frame() {
    let module = ir("");
    assert_eq!(module.version, "1.0");
    assert_eq!(module.module, "unnamed");
    assert!(module.components.is_empty() && module.rules.is_empty());
    assert!(module.functions.is_empty() && module.trackers.is_empty());
    assert!(module.constants.is_empty());
    assert!(module.initial_state.is_none());
    assert!(module.source_map.is_none());
    let metadata = module.metadata.unwrap();
    assert_eq!(metadata.compiler_version, "0.1.0");
    assert!(metadata.source_hash.is_none());
    let stamp = metadata.compiled_at.as_bytes();
    assert!(stamp.len() >= 20);
    assert_eq!(stamp[stamp.len() - 1], b'Z');
    assert_eq!(stamp[stamp.len() - 10], b'T');
    assert_eq!(stamp[stamp.len() - 13], b'-');
    assert_eq!(stamp[stamp.len() - 16], b'-');
    assert_eq!(stamp[stamp.len() - 4], b':');
    assert_eq!(stamp[stamp.len() - 7], b':');
    let year: u64 = metadata.compiled_at[..stamp.len() - 16].parse().unwrap();
    assert!(year >= 2024);
}

#[test]
fn source_maps() {
    let source = "component A { }";
    let with_map = CompilerOptions { include_source_map: true, pretty_print: false, optimize: false };
    let without = CompilerOptions::default();
    // asked for, and a path given
    let module = compile_with_path(source, &with_map, Some("game/rules.brl")).unwrap();
    let files = module.source_map.unwrap().files;
    assert_eq!(files.len(), 1);
    assert_eq!(files[0].path, "game/rules.brl");
    assert_eq!(files[0].content, source);
    assert_eq!(files[0].language, "brl");
    // not asked for
    assert!(compile_with_path(source, &without, Some("game/rules.brl")).unwrap().source_map.is_none());
    // no file to record
    assert!(compile_with_path(source, &with_map, None).unwrap().source_map.is_none());
    assert!(compile(source, &with_map).unwrap().source_map.is_none());
}

#[test]
fn the_language_of_a_source_file_follows_its_extension() {
    let with_map = CompilerOptions { include_source_map: true, pretty_print: false, optimize: false };
    let typed = || analyze(parse(tokenize("").unwrap()).unwrap()).unwrap();
    for (path, language) in [
        ("a.bcl", "bcl"),
        ("a.bdl", "bdl"),
        ("a.brl", "brl"),
        ("a.txt", "brl"),
        ("a.bcl.bak", "brl"),
        ("bcl", "brl"),
        (".bdl", "bdl"),
        ("", "brl"),
        ("A.BCL", "brl"),
    ] {
        let module = generate_with_source(typed(), &with_map, "text", path).unwrap();
        assert_eq!(module.source_map.unwrap().files[0].language, language, "{}", path);
    }
}

#[test]
fn additional_sources_follow_the_main_file() {
    let with_map = CompilerOptions { include_source_map: true, pretty_print: false, optimize: false };
    let typed = || analyze(parse(tokenize("").unwrap()).unwrap()).unwrap();
    let extra = vec![
        ("ai.bcl".to_string(), "choice".to_string(), "bcl".to_string()),
        ("data.txt".to_string(), "entities".to_string(), "anything".to_string()),
    ];
    let files = generate_with_sources(typed(), &with_map, "main", Some("main.brl"), &extra).unwrap().source_map.unwrap().files;
    assert_eq!(
        files.iter().map(|f| (f.path.as_str(), f.content.as_str(), f.language.as_str())).collect::<Vec<_>>(),
        vec![("main.brl", "main", "brl"), ("ai.bcl", "choice", "bcl"), ("data.txt", "entities", "anything")]
    );
    // without a path the main file is left out
    let files = generate_with_sources(typed(), &with_map, "main", None, &extra).unwrap().source_map.unwrap().files;
    assert_eq!(files.iter().map(|f| f.path.as_str()).collect::<Vec<_>>(), vec!["ai.bcl", "data.txt"]);
    assert!(generate_with_sources(typed(), &with_map, "main", None, &[]).unwrap().source_map.is_none());
    assert!(generate_with_sources(typed(), &CompilerOptions::default(), "main", Some("p"), &extra)
        .unwrap()
        .source_map
        .is_none());
}

#[test]
fn trackers_are_lowered_with_their_own_ids() {
    let tracker = |event: &str| {
        Item::Tracker(TrackerDef { component: "Health".to_string(), event: event.to_string(), span: Span::new(0, 0) })
    };
    let component = Item::Component(ComponentDef { name: "Health".to_string(), fields: vec![], span: Span::new(0, 0) });
    let typed = Analyzer::new().analyze(&Module { items: vec![tracker("Damage"), component, tracker("Heal")] }).unwrap();
    let module = generate(typed, &CompilerOptions::default()).unwrap();
    assert_eq!(
        module.trackers.iter().map(|t| (t.id, t.component.as_str(), t.event.as_str())).collect::<Vec<_>>(),
        vec![(0, "Health", "Damage"), (1, "Health", "Heal")]
    );
}
