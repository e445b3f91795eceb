//! The grammar on concrete token lists.

use blink_compiler::lexer::{tokenize, Span, Token, TokenKind};
use blink_compiler::parser::{
    parse, AssignOp, BinaryOp, ElseClause, Expr, Item, Literal, Module, ParseError, Statement, TypeExpr, UnaryOp,
};

fn parse_source(source: &str) -> Result<Module, ParseError> {
    parse(tokenize(source).unwrap())
}

fn module(source: &str) -> Module {
    match parse_source(source) {
        Ok(m) => m,
        Err(e) => panic!("{}: {}", source, e.message()),
    }
}

/// The statements of the body of the only rule of a source.
fn statements(body: &str) -> Vec<Statement> {
    let m = module(&format!("rule on E {{ {} }}", body));
    match m.items.into_iter().next() {
        Some(Item::Rule(rule)) => rule.body.statements,
        _ => panic!("expected a rule"),
    }
}

/// The expression of `let x = <expr>`, and the offset of its first byte.
fn expression(text: &str) -> Expr {
    let mut all = statements(&format!("let x = {}", text));
    match all.remove(0) {
        Statement::Let(l) => l.value,
        _ => panic!("expected a let"),
    }
}

const EXPR_AT: usize = 20;

fn shape(e: &Expr) -> String {
    match e {
        Expr::Literal(Literal::Integer(n), _) => format!("{}", n),
        Expr::Literal(Literal::Float(s), _) => format!("{}f", s),
        Expr::Literal(Literal::Decimal(s), _) => format!("{}d", s),
        Expr::Literal(Literal::String(s), _) => format!("{:?}", s),
        Expr::Literal(Literal::Boolean(b), _) => format!("{}", b),
        Expr::Literal(Literal::Null, _) => "null".to_string(),
        Expr::Identifier(n, _) => n.clone(),
        Expr::EntityRef(n, _) => format!("@{}", n),
        Expr::FieldAccess(b, f, _) => format!("{}.{}", shape(b), f),
        Expr::IndexAccess(b, i, _) => format!("{}[{}]", shape(b), shape(i)),
        Expr::Binary(l, op, r, _) => format!("({} {:?} {})", shape(l), op, shape(r)),
        Expr::Unary(op, i, _) => format!("({:?} {})", op, shape(i)),
        Expr::Call(n, args, _) => format!("{}({})", n, args.iter().map(shape).collect::<Vec<_>>().join(",")),
        Expr::MethodCall(b, n, args, _) => {
            format!("{}.{}({})", shape(b), n, args.iter().map(shape).collect::<Vec<_>>().join(","))
        }
        Expr::HasComponent(b, c, _) => format!("{} has {}", shape(b), c),
        Expr::Cast(b, _, _) => format!("cast {}", shape(b)),
        Expr::List(es, _) => format!("[{}]", es.iter().map(shape).collect::<Vec<_>>().join(",")),
        Expr::Paren(i, _) => format!("<{}>", shape(i)),
        Expr::EntitiesHaving(c, _) => format!("entities having {}", c),
        Expr::CloneEntity(s, cs, _) => {
            format!("clone {} {{{}}}", shape(s), cs.iter().map(|c| c.name.clone()).collect::<Vec<_>>().join(","))
        }
    }
}

fn span_of(e: &Expr) -> Span {
    match e {
        Expr::Literal(_, s)
        | Expr::Identifier(_, s)
        | Expr::EntityRef(_, s)
        | Expr::FieldAccess(_, _, s)
        | Expr::IndexAccess(_, _, s)
        | Expr::Binary(_, _, _, s)
        | Expr::Unary(_, _, s)
        | Expr::Call(_, _, s)
        | Expr::MethodCall(_, _, _, s)
        | Expr::HasComponent(_, _, s)
        | Expr::Cast(_, _, s)
        | Expr::List(_, s)
        | Expr::Paren(_, s)
        | Expr::EntitiesHaving(_, s)
        | Expr::CloneEntity(_, _, s) => *s,
    }
}

#[test]
fn the_expression_helper_knows_where_the_expression_starts() {
    let source = "rule on E { let x = abc }";
    assert_eq!(&source[EXPR_AT..EXPR_AT + 3], "abc");
    assert_eq!(span_of(&expression("abc")), Span::new(EXPR_AT, EXPR_AT + 3));
}

#[test]
fn precedence_climbs_from_or_to_multiplication() {
    assert_eq!(shape(&expression("a || b && c")), "(a Or (b And c))");
    assert_eq!(shape(&expression("a && b || c")), "((a And b) Or c)");
    assert_eq!(shape(&expression("a == b && c != d")), "((a Eq b) And (c NotEq d))");
    assert_eq!(shape(&expression("a < b == c >= d")), "((a Lt b) Eq (c GtEq d))");
    assert_eq!(shape(&expression("a + b < c - d")), "((a Add b) Lt (c Sub d))");
    assert_eq!(shape(&expression("a + b * c")), "(a Add (b Mul c))");
    assert_eq!(shape(&expression("a * b + c")), "((a Mul b) Add c)");
    assert_eq!(shape(&expression("a / b % c")), "((a Div b) Mod c)");
    assert_eq!(shape(&expression("a > b && c < d || e == 0")), "(((a Gt b) And (c Lt d)) Or (e Eq 0))");
    assert_eq!(shape(&expression("a <= b")), "(a LtEq b)");
    assert_eq!(shape(&expression("a > b")), "(a Gt b)");
}

#[test]
fn binary_operators_group_to_the_left() {
    assert_eq!(shape(&expression("a - b - c")), "((a Sub b) Sub c)");
    assert_eq!(shape(&expression("a || b || c")), "((a Or b) Or c)");
    assert_eq!(shape(&expression("a == b == c")), "((a Eq b) Eq c)");
}

#[test]
fn unary_binds_tighter_than_binary_and_looser_than_postfix() {
    assert_eq!(shape(&expression("-a * b")), "((Neg a) Mul b)");
    assert_eq!(shape(&expression("!a.b")), "(Not a.b)");
    assert_eq!(shape(&expression("--a")), "(Neg (Neg a))");
    assert_eq!(shape(&expression("!-a")), "(Not (Neg a))");
    assert_eq!(shape(&expression("a - -b")), "(a Sub (Neg b))");
}

#[test]
fn parentheses_are_kept_as_nodes() {
    assert_eq!(shape(&expression("(a + b) * c")), "(<(a Add b)> Mul c)");
    assert_eq!(shape(&expression("((a))")), "<<a>>");
}

#[test]
fn postfix_chains() {
    assert_eq!(shape(&expression("a.b.c")), "a.b.c");
    assert_eq!(shape(&expression("a[0][1]")), "a[0][1]");
    assert_eq!(shape(&expression("a.b[i + 1].c")), "a.b[(i Add 1)].c");
    assert_eq!(shape(&expression("a.f()")), "a.f()");
    assert_eq!(shape(&expression("a.f(1, 2).g(x)")), "a.f(1,2).g(x)");
    assert_eq!(shape(&expression("f(1)(2)")), "f(1)");
}

#[test]
fn commas_between_arguments_are_optional() {
    assert_eq!(shape(&expression("f(a b, c)")), "f(a,b,c)");
    assert_eq!(shape(&expression("f(a,)")), "f(a)");
    assert_eq!(shape(&expression("[1 2 3]")), "[1,2,3]");
    assert_eq!(shape(&expression("[]")), "[]");
    assert_eq!(shape(&expression("f()")), "f()");
}

#[test]
fn literals() {
    assert_eq!(shape(&expression("42")), "42");
    assert_eq!(shape(&expression("9223372036854775807")), "9223372036854775807");
    assert_eq!(shape(&expression("3.14")), "3.14f");
    assert_eq!(shape(&expression("10.50d")), "10.50d");
    assert_eq!(shape(&expression("\"hi\"")), "\"hi\"");
    assert_eq!(shape(&expression("'hi'")), "\"hi\"");
    assert_eq!(shape(&expression("\"a\\nb\"")), "\"a\\\\nb\"");
    assert_eq!(shape(&expression("\"\"")), "\"\"");
    assert_eq!(shape(&expression("true")), "true");
    assert_eq!(shape(&expression("false")), "false");
    assert_eq!(shape(&expression("null")), "null");
    assert_eq!(shape(&expression("@goblin")), "@goblin");
}

#[test]
fn entity_and_event_are_names_in_expressions_and_id_is_not() {
    assert_eq!(shape(&expression("entity")), "entity");
    assert_eq!(shape(&expression("event.source")), "event.source");
    assert_eq!(shape(&expression("entity.id")), "entity.id");
    assert_eq!(shape(&expression("a.entity.event")), "a.entity.event");
    assert!(matches!(
        parse_source("rule on E { let x = id }"),
        Err(ParseError::UnexpectedToken { found, expected, position: 20 }) if found == "id" && expected == "expression"
    ));
}

#[test]
fn entities_having_and_clone() {
    assert_eq!(shape(&expression("entities having Health")), "entities having Health");
    assert_eq!(shape(&expression("clone entity")), "clone entity {}");
    assert_eq!(shape(&expression("clone @boss.minion")), "clone @boss.minion {}");
    assert_eq!(shape(&expression("clone e { A { x: 1 } B { } }")), "clone e {A,B}");
    assert!(matches!(
        parse_source("rule on E { let x = entities Health }"),
        Err(ParseError::UnexpectedToken { found, expected, .. }) if found == "Health" && expected == "having"
    ));
}

#[test]
fn spans_run_from_the_first_token_to_the_last() {
    let at = |from: usize, to: usize| Span::new(EXPR_AT + from, EXPR_AT + to);
    assert_eq!(span_of(&expression("42")), at(0, 2));
    assert_eq!(span_of(&expression("\"s\"")), at(0, 3));
    assert_eq!(span_of(&expression("1 + 22")), at(0, 6));
    assert_eq!(span_of(&expression("(1 + 22)")), at(0, 8));
    assert_eq!(span_of(&expression("(1) + 22")), at(0, 8));
    assert_eq!(span_of(&expression("-x")), at(0, 2));
    assert_eq!(span_of(&expression("- (x)")), at(0, 5));
    assert_eq!(span_of(&expression("a.b")), at(0, 3));
    assert_eq!(span_of(&expression("a . b [ 0 ]")), at(0, 11));
    assert_eq!(span_of(&expression("f( 1 )")), at(0, 6));
    assert_eq!(span_of(&expression("a.f( 1 )")), at(0, 8));
    assert_eq!(span_of(&expression("[ 1, 2 ]")), at(0, 8));
    assert_eq!(span_of(&expression("entities having C")), at(0, 17));
    assert_eq!(span_of(&expression("clone e")), at(0, 7));
    assert_eq!(span_of(&expression("clone e { }")), at(0, 11));
    match expression("1 + 2 * 3") {
        Expr::Binary(left, BinaryOp::Add, right, span) => {
            assert_eq!(span, at(0, 9));
            assert_eq!(span_of(&left), at(0, 1));
            assert_eq!(span_of(&right), at(4, 9));
        }
        _ => panic!("expected an addition"),
    }
    match expression("a - b - c") {
        Expr::Binary(left, BinaryOp::Sub, right, span) => {
            assert_eq!(span, at(0, 9));
            assert_eq!(span_of(&left), at(0, 5));
            assert_eq!(span_of(&right), at(8, 9));
        }
        _ => panic!("expected a subtraction"),
    }
    match expression("! a") {
        Expr::Unary(UnaryOp::Not, inner, span) => {
            assert_eq!(span, at(0, 3));
            assert_eq!(span_of(&inner), at(2, 3));
        }
        _ => panic!("expected a negation"),
    }
}

#[test]
fn statement_spans() {
    let source = "rule on E { let x = 1 a.b += 2 return x delete e }";
    let m = module(source);
    let Item::Rule(rule) = &m.items[0] else { panic!("expected a rule") };
    assert_eq!(rule.span, Span::new(0, source.len()));
    assert_eq!(rule.body.span, Span::new(10, source.len()));
    let text = |s: Span| &source[s.start..s.end];
    match &rule.body.statements[..] {
        [Statement::Let(l), Statement::Assignment(a), Statement::Return(r), Statement::Delete(d)] => {
            assert_eq!(text(l.span), "let x = 1");
            assert_eq!(text(a.span), "a.b += 2");
            assert_eq!(a.op, AssignOp::AddAssign);
            assert_eq!(text(r.span), "return x");
            assert_eq!(text(d.span), "delete e");
        }
        _ => panic!("unexpected statements"),
    }
}

#[test]
fn assignment_operators() {
    let all = statements("a = 1 a += 1 a -= 1 a *= 1 a /= 1 a");
    let ops: Vec<Option<AssignOp>> = all
        .iter()
        .map(|s| match s {
            Statement::Assignment(a) => Some(a.op),
            _ => None,
        })
        .collect();
    assert_eq!(
        ops,
        vec![
            Some(AssignOp::Assign),
            Some(AssignOp::AddAssign),
            Some(AssignOp::SubAssign),
            Some(AssignOp::MulAssign),
            Some(AssignOp::DivAssign),
            None
        ]
    );
    assert!(matches!(&all[5], Statement::Expr(Expr::Identifier(n, _)) if n == "a"));
}

#[test]
fn return_takes_a_value_unless_a_statement_or_the_end_follows() {
    let all = statements("return return x return let y = 1 return");
    assert_eq!(all.len(), 5);
    assert!(matches!(&all[0], Statement::Return(r) if r.value.is_none()));
    assert!(matches!(&all[1], Statement::Return(r) if r.value.is_some()));
    assert!(matches!(&all[2], Statement::Return(r) if r.value.is_none()));
    assert!(matches!(&all[3], Statement::Let(_)));
    assert!(matches!(&all[4], Statement::Return(r) if r.value.is_none()));
}

#[test]
fn if_else_chains() {
    let all = statements("if a { x = 1 } else if b { x = 2 } else { x = 3 } if c { }");
    assert_eq!(all.len(), 2);
    let Statement::If(first) = &all[0] else { panic!("expected an if") };
    assert_eq!(first.then_block.statements.len(), 1);
    let Some(clause) = &first.else_block else { panic!("expected an else") };
    let ElseClause::ElseIf(second) = &**clause else { panic!("expected an else if") };
    assert_eq!(shape(&second.condition), "b");
    assert!(matches!(second.else_block.as_deref(), Some(ElseClause::Else(b)) if b.statements.len() == 1));
    assert!(matches!(&all[1], Statement::If(i) if i.else_block.is_none() && i.then_block.statements.is_empty()));
}

#[test]
fn loops_and_let() {
    let all = statements("for x in xs { a = x } while a < 3 { a += 1 } let n: list<integer>? = null");
    assert!(matches!(&all[0], Statement::For(f) if f.variable == "x" && shape(&f.iterable) == "xs"));
    assert!(matches!(&all[1], Statement::While(w) if shape(&w.condition) == "(a Lt 3)"));
    match &all[2] {
        Statement::Let(l) => {
            assert_eq!(l.name, "n");
            match &l.type_annotation {
                Some(TypeExpr::Optional(inner)) => match &**inner {
                    TypeExpr::List(element) => assert!(matches!(**element, TypeExpr::Integer)),
                    _ => panic!("expected a list"),
                },
                _ => panic!("expected an optional"),
            }
        }
        _ => panic!("expected a let"),
    }
}

#[test]
fn schedule_forms() {
    let all = statements(
        "schedule Tick { } schedule recurring [interval: 5] Tick { n: 1 } schedule [delay: 1.5] Boom { source: entity.id entity: e } schedule [other: 1] T { }",
    );
    match &all[..] {
        [Statement::Schedule(a), Statement::Schedule(b), Statement::Schedule(c), Statement::Schedule(d)] => {
            assert!(!a.recurring && a.delay.is_none() && a.interval.is_none() && a.fields.is_empty());
            assert_eq!(a.event_name, "Tick");
            assert!(b.recurring && b.delay.is_none());
            assert_eq!(shape(b.interval.as_ref().unwrap()), "5");
            assert_eq!(b.fields.len(), 1);
            assert!(!c.recurring && c.interval.is_none());
            assert_eq!(shape(c.delay.as_ref().unwrap()), "1.5f");
            assert_eq!(c.fields[0].0, "source");
            assert_eq!(shape(&c.fields[0].1), "entity.id");
            assert_eq!(c.fields[1].0, "entity");
            assert!(d.delay.is_none() && d.interval.is_none());
        }
        _ => panic!("unexpected statements"),
    }
}

#[test]
fn create_cancel_delete() {
    let all = statements("create entity { A { x: 1 y: 2 } B { } } cancel timer delete @old");
    match &all[..] {
        [Statement::Create(c), Statement::Cancel(k), Statement::Delete(d)] => {
            assert_eq!(c.components.len(), 2);
            assert_eq!(c.components[0].name, "A");
            assert_eq!(c.components[0].fields.len(), 2);
            assert_eq!(c.components[1].fields.len(), 0);
            assert_eq!(shape(&k.target), "timer");
            assert_eq!(shape(&d.entity), "@old");
        }
        _ => panic!("unexpected statements"),
    }
}

#[test]
fn keywords_serve_as_names_wherever_a_field_or_parameter_is_named() {
    let m = module(
        "component C { entity: id event: string id: integer }\n\
         fn f(entity: id, event: string, id: integer) { }\n\
         x = new entity { C { entity: 1 event: \"e\" id: 2 } .pick = choice(id: integer): integer { return 1 } }",
    );
    let Item::Component(c) = &m.items[0] else { panic!("expected a component") };
    assert_eq!(c.fields.iter().map(|f| f.name.as_str()).collect::<Vec<_>>(), vec!["entity", "event", "id"]);
    let Item::Function(f) = &m.items[1] else { panic!("expected a function") };
    assert_eq!(f.params.iter().map(|p| p.name.as_str()).collect::<Vec<_>>(), vec!["entity", "event", "id"]);
    let Item::Entity(e) = &m.items[2] else { panic!("expected an entity") };
    assert_eq!(
        e.components[0].fields.iter().map(|f| f.0.as_str()).collect::<Vec<_>>(),
        vec!["entity", "event", "id"]
    );
    assert_eq!(e.bound_functions[0].params[0].name, "id");
}

#[test]
fn other_keywords_are_no_names() {
    assert!(matches!(
        parse_source("component C { rule: integer }"),
        Err(ParseError::UnexpectedToken { found, expected, position: 14 }) if found == "rule" && expected == "field name"
    ));
    assert!(matches!(
        parse_source("fn f(if: integer) { }"),
        Err(ParseError::UnexpectedToken { found, expected, position: 5 }) if found == "if" && expected == "parameter name"
    ));
    assert!(matches!(
        parse_source("rule on E { x = a.has }"),
        Err(ParseError::UnexpectedToken { found, expected, .. }) if found == "has" && expected == "field name"
    ));
}

#[test]
fn types() {
    let source = "component C { a: string b: boolean c: integer d: float e: decimal f: id g: list h: list<string> i: Other j: id? k: list<list<Other?>>? }";
    let m = module(source);
    let Item::Component(c) = &m.items[0] else { panic!("expected a component") };
    let t = |i: usize| &c.fields[i].field_type;
    assert!(matches!(t(0), TypeExpr::String));
    assert!(matches!(t(1), TypeExpr::Boolean));
    assert!(matches!(t(2), TypeExpr::Integer));
    assert!(matches!(t(3), TypeExpr::Float));
    assert!(matches!(t(4), TypeExpr::Decimal));
    assert!(matches!(t(5), TypeExpr::Id));
    assert!(matches!(t(6), TypeExpr::List(e) if matches!(**e, TypeExpr::Id)));
    assert!(matches!(t(7), TypeExpr::List(e) if matches!(**e, TypeExpr::String)));
    assert!(matches!(t(8), TypeExpr::Component(n) if n == "Other"));
    assert!(matches!(t(9), TypeExpr::Optional(e) if matches!(**e, TypeExpr::Id)));
    assert!(matches!(t(10), TypeExpr::Optional(_)));
    for (i, field) in c.fields.iter().enumerate() {
        assert_eq!(field.optional, i >= 9, "{}", field.name);
    }
    let at = source.find("j: id?").unwrap();
    assert_eq!(c.fields[9].span, Span::new(at, at + 6));
}

#[test]
fn composite_types_belong_to_choice_parameters() {
    let m = module("e = new entity { .f = choice(a: A & B & C, b: list): string { return \"x\" } }");
    let Item::Entity(e) = &m.items[0] else { panic!("expected an entity") };
    match &e.bound_functions[0].params[0].param_type {
        TypeExpr::Composite(members) => {
            let names: Vec<&str> = members
                .iter()
                .map(|m| match m {
                    TypeExpr::Component(n) => n.as_str(),
                    _ => panic!("expected a component type"),
                })
                .collect();
            assert_eq!(names, vec!["A", "B", "C"]);
        }
        _ => panic!("expected a composite type"),
    }
    assert!(matches!(&e.bound_functions[0].params[1].param_type, TypeExpr::List(_)));
    assert!(matches!(&e.bound_functions[0].return_type, Some(TypeExpr::String)));
    // an ordinary function has no composite parameters
    assert!(matches!(
        parse_source("fn f(a: A & B) { }"),
        Err(ParseError::UnexpectedToken { found, expected, .. }) if found == "&" && expected == "parameter name"
    ));
}

#[test]
fn a_composite_of_something_else_is_invalid_syntax() {
    for source in [
        "e = new entity { .f = choice(a: A & 5) { } }",
        "e = new entity { .f = choice(a: A & integer) { } }",
        "e = new entity { .f = choice(a: integer & A) { } }",
        "e = new entity { .f = choice(a: A? & B) { } }",
        "e = new entity { .f = choice(a: list<A> & B) { } }",
        "e = new entity { .f = choice(a: A & B & list) { } }",
    ] {
        assert!(matches!(parse_source(source), Err(ParseError::InvalidSyntax { .. })), "{}", source);
    }
    assert!(matches!(
        parse_source("e = new entity { .f = choice(a: A &"),
        Err(ParseError::UnexpectedEof { expected }) if expected == "component type"
    ));
}

#[test]
fn the_three_entity_forms_make_the_same_node() {
    for (source, variable) in [
        ("warrior = new entity { H { x: 1 } }", Some("warrior")),
        ("entity warrior { H { x: 1 } }", Some("warrior")),
        ("entity @warrior { H { x: 1 } }", Some("warrior")),
        ("@warrior { H { x: 1 } }", Some("warrior")),
        ("entity { H { x: 1 } }", None),
    ] {
        let m = module(source);
        let Item::Entity(e) = &m.items[0] else { panic!("expected an entity: {}", source) };
        assert_eq!(e.variable.as_deref(), variable, "{}", source);
        assert_eq!(e.components.len(), 1);
        assert_eq!(e.components[0].name, "H");
        assert_eq!(e.components[0].fields[0].0, "x");
        assert!(e.bound_functions.is_empty());
        assert_eq!(e.span, Span::new(0, source.len()));
    }
}

#[test]
fn an_identifier_begins_an_item_only_before_an_equals_sign() {
    assert!(matches!(
        parse_source("tracker Health on DamageEvent"),
        Err(ParseError::UnexpectedToken { found, expected, position: 0 })
            if found == "tracker" && expected == "component, rule, fn, import, module, or entity"
    ));
    assert!(matches!(
        parse_source("x = entity { }"),
        Err(ParseError::UnexpectedToken { found, expected, position: 4 }) if found == "entity" && expected == "new"
    ));
    assert!(matches!(
        parse_source("x"),
        Err(ParseError::UnexpectedToken { found, position: 0, .. }) if found == "x"
    ));
    assert!(matches!(
        parse_source("42"),
        Err(ParseError::UnexpectedToken { found, position: 0, .. }) if found == "42"
    ));
}

#[test]
fn rules() {
    let m = module("rule on A { } rule r on B when (x > 1) { } rule on C [p: 0] { } rule on D [priority: 7] { }");
    match &m.items[..] {
        [Item::Rule(a), Item::Rule(b), Item::Rule(c), Item::Rule(d)] => {
            assert!(a.name.is_none() && a.condition.is_none() && a.priority.is_none());
            assert_eq!(a.trigger_event, "A");
            assert_eq!(b.name.as_deref(), Some("r"));
            assert_eq!(shape(b.condition.as_ref().unwrap()), "<(x Gt 1)>");
            assert_eq!(b.priority, None);
            assert_eq!(c.priority, Some(0));
            assert_eq!(d.priority, Some(7));
        }
        _ => panic!("unexpected items"),
    }
    let m = module("rule on A [priority: 2147483647] { }");
    assert!(matches!(&m.items[0], Item::Rule(r) if r.priority == Some(i32::MAX)));
}

#[test]
fn functions_imports_and_modules() {
    let m = module(
        "fn f() { } fn g(a: integer b: float,): string { return \"\" }\n\
         import a import a.b.c import a.b { x, y z } import q { }\n\
         module m { component C { } module inner { fn h() { } } }",
    );
    assert_eq!(m.items.len(), 7);
    assert!(matches!(&m.items[0], Item::Function(f) if f.params.is_empty() && f.return_type.is_none()));
    assert!(matches!(&m.items[1], Item::Function(f) if f.params.len() == 2 && f.return_type.is_some()));
    assert!(matches!(&m.items[2], Item::Import(i) if i.path == ["a"] && i.items.is_none()));
    assert!(matches!(&m.items[3], Item::Import(i) if i.path == ["a", "b", "c"] && i.items.is_none()));
    assert!(matches!(&m.items[4], Item::Import(i) if i.path == ["a", "b"]
        && i.items.as_deref() == Some(&["x".to_string(), "y".to_string(), "z".to_string()][..])));
    assert!(matches!(&m.items[5], Item::Import(i) if i.items.as_deref() == Some(&[][..])));
    match &m.items[6] {
        Item::ModuleDef(outer) => {
            assert_eq!(outer.name, "m");
            assert_eq!(outer.items.len(), 2);
            assert!(matches!(&outer.items[1], Item::ModuleDef(inner) if inner.items.len() == 1));
        }
        _ => panic!("expected a module"),
    }
}

#[test]
fn unexpected_token_names_the_token_its_offset_and_what_was_due() {
    match parse_source("component 42 { }") {
        Err(ParseError::UnexpectedToken { found, expected, position }) => {
            assert_eq!(found, "42");
            assert_eq!(expected, "component name");
            assert_eq!(position, 10);
        }
        other => panic!("{:?}", other.map(|_| ())),
    }
    match parse_source("component C {\n  x integer }") {
        Err(ParseError::UnexpectedToken { found, expected, position }) => {
            assert_eq!(found, "integer");
            assert_eq!(expected, ":");
            assert_eq!(position, 18);
        }
        other => panic!("{:?}", other.map(|_| ())),
    }
    assert!(matches!(
        parse_source("rule on E { let = 1 }"),
        Err(ParseError::UnexpectedToken { found, expected, position: 16 }) if found == "=" && expected == "variable name"
    ));
    assert!(matches!(
        parse_source("rule on E { x = ) }"),
        Err(ParseError::UnexpectedToken { found, expected, position: 16 }) if found == ")" && expected == "expression"
    ));
    assert!(matches!(
        parse_source("component C { x: 5 }"),
        Err(ParseError::UnexpectedToken { found, expected, position: 17 }) if found == "5" && expected == "type"
    ));
    assert!(matches!(
        parse_source("rule E { }"),
        Err(ParseError::UnexpectedToken { found, expected, position: 7 }) if found == "{" && expected == "on"
    ));
}

#[test]
fn unexpected_eof_names_what_was_due() {
    for (source, due) in [
        ("component", "component name"),
        ("component C", "{"),
        ("component C {", "}"),
        ("component C { x", ":"),
        ("component C { x:", "type"),
        ("rule", "on"),
        ("rule on", "event name"),
        ("rule on E", "{"),
        ("rule on E {", "}"),
        ("rule on E { let x =", "expression"),
        ("rule on E { f(1", ")"),
        ("rule on E { [1", "]"),
        ("rule on E { a[1", "]"),
        ("rule on E { a.", "field name"),
        ("rule on E { if", "expression"),
        ("rule on E { for", "loop variable"),
        ("rule on E { for x", "in"),
        ("rule on E { schedule", "event name"),
        ("rule on E { schedule [", "delay or interval"),
        ("rule on E { create", "entity"),
        ("rule on E [", "priority"),
        ("rule on E [priority:", "priority value"),
        ("fn", "function name"),
        ("fn f", "("),
        ("fn f(", ")"),
        ("fn f(a", ":"),
        ("import", "module path"),
        ("import a.", "module path segment"),
        ("import a {", "}"),
        ("module", "module name"),
        ("module m {", "}"),
        ("x =", "new"),
        ("x = new", "entity"),
        ("entity", "{"),
        ("entity x {", "}"),
        ("entity x { .", "function name"),
        ("entity x { .f", "="),
        ("entity x { .f =", "choice"),
        ("entity x { .f = choice", "("),
        ("rule on E { entities", "having"),
        ("rule on E { entities having", "component name"),
    ] {
        match parse_source(source) {
            Err(ParseError::UnexpectedEof { expected }) => assert_eq!(expected, due, "{}", source),
            Err(other) => panic!("{}: {}", source, other.message()),
            Ok(_) => panic!("{}: parsed", source),
        }
    }
}

#[test]
fn numbers_out_of_range_are_invalid_syntax() {
    assert!(matches!(
        parse_source("rule on E { x = 9223372036854775808 }"),
        Err(ParseError::InvalidSyntax { message }) if message == "Invalid integer literal: '9223372036854775808'"
    ));
    assert!(matches!(
        parse_source("rule on E [priority: 2147483648] { }"),
        Err(ParseError::InvalidSyntax { message })
            if message == "Invalid priority value: '2147483648' is not a valid integer"
    ));
}

#[test]
fn parse_error_messages() {
    assert_eq!(
        ParseError::UnexpectedToken { found: "}".to_string(), expected: "type".to_string(), position: 31 }.message(),
        "Unexpected token '}' at position 31, expected type"
    );
    assert_eq!(
        ParseError::UnexpectedEof { expected: "}".to_string() }.message(),
        "Unexpected end of input, expected }"
    );
    assert_eq!(
        ParseError::InvalidSyntax { message: "bad".to_string() }.message(),
        "Invalid syntax: bad"
    );
}

#[test]
fn tokens_need_not_come_from_the_tokenizer() {
    let token = |kind: TokenKind, text: &str, at: usize| Token {
        kind,
        text: text.to_string(),
        span: Span::new(at, at + text.len()),
    };
    let tokens = vec![
        token(TokenKind::Rule, "rule", 0),
        token(TokenKind::On, "on", 5),
        token(TokenKind::Identifier, "E", 8),
        token(TokenKind::LBrace, "{", 10),
        token(TokenKind::StringLiteral, "", 12),
        token(TokenKind::EntityRef, "", 13),
        token(TokenKind::DecimalLiteral, "ddd", 14),
        token(TokenKind::RBrace, "}", 18),
    ];
    let m = parse(tokens).unwrap();
    let Item::Rule(rule) = &m.items[0] else { panic!("expected a rule") };
    let shapes: Vec<String> = rule
        .body
        .statements
        .iter()
        .map(|s| match s {
            Statement::Expr(e) => shape(e),
            _ => panic!("expected an expression"),
        })
        .collect();
    assert_eq!(shapes, vec!["\"\"", "@", "d"]);
    // a token that claims to be an integer and is none
    let tokens = vec![
        token(TokenKind::Rule, "rule", 0),
        token(TokenKind::On, "on", 5),
        token(TokenKind::Identifier, "E", 8),
        token(TokenKind::LBrace, "{", 10),
        token(TokenKind::IntegerLiteral, "12x", 12),
        token(TokenKind::RBrace, "}", 16),
    ];
    assert!(matches!(
        parse(tokens),
        Err(ParseError::InvalidSyntax { message }) if message == "Invalid integer literal: '12x'"
    ));
}
