use saturnus::ast::{
    Argument, AssignmentTarget, CallExpression, CallSubExpression, Expression, Function, Identifier, IdentifierOrCall, Let, MacroDecorator, Match, MemberExpression, Number, Script, Statement, StringLiteral, Vector,
};
use saturnus::builder::Builder;
use saturnus::macros::{MacroData, MacroExpander, MacroExpansionError};
use saturnus::pipeline::{compile_program, CompileError};
use saturnus::serialize::serialize_statement;
use saturnus::visitor::LuaEmitter;

fn ident(name: &str) -> Identifier {
    Identifier(name.to_string())
}

fn num(n: i64) -> Expression {
    Expression::Number(Number::Integer(n))
}

fn let_stmt(name: &str, value: Expression) -> Statement {
    Statement::Let(Let {
        target: AssignmentTarget::Identifier(ident(name)),
        value: Some(value),
    })
}

fn simple_call(target: &str, arguments: Vec<Expression>) -> CallExpression {
    CallExpression {
        head: CallSubExpression {
            callee: Some(MemberExpression {
                head: Expression::Identifier(ident(target)),
                tail: vec![],
            }),
            arguments,
        },
        tail: vec![],
    }
}

fn macro_def(name: &str, body: Vec<Statement>) -> Function {
    Function {
        name: ident(name),
        arguments: vec![Argument { name: ident("ast"), decorators: vec![] }],
        decorators: vec![],
        body: Script { statements: body },
        native: None,
    }
}

fn decorated(macros: Vec<IdentifierOrCall>, target: Statement) -> Statement {
    Statement::MacroDecorator(Box::new(MacroDecorator { macros, target }))
}

fn invocation(name: &str) -> IdentifierOrCall {
    IdentifierOrCall { target: ident(name), arguments: vec![] }
}

fn render(s: &Script) -> String {
    LuaEmitter::new()
        .visit_script(Builder::new("  ".to_string()), s)
        .unwrap()
        .collect()
}

#[test]
fn expand_passes_programs_without_decorators_through() {
    // With no macro-decorator statements, expansion gives back an
    // equal program in the same order.
    let make = || Script {
        statements: vec![
            let_stmt("x", num(1)),
            Statement::Expression(Expression::Identifier(ident("x"))),
        ],
    };
    let expander = MacroExpander::new();
    let out = expander.expand_macros(make()).unwrap();
    assert_eq!(out.statements.len(), 2);
    assert_eq!(render(&out), render(&make()));
}

#[test]
fn compile_strips_single_macro_definition_into_table() {
    // A program holding exactly one macro definition compiles to an
    // empty-statement program, and the table has exactly one entry
    // keyed by that function's name.
    let def = macro_def("trace", vec![]);
    let script = Script { statements: vec![Statement::MacroDeclare(def)] };
    let mut expander = MacroExpander::new();
    let out = expander.compile_macros(script).unwrap();
    assert_eq!(out.statements.len(), 0);
    let entry = expander.macros.get(&"trace".to_string()).unwrap();
    assert_eq!(entry.func.name.0, "trace");
    // The stored code is the macro compiled standalone with the fixed
    // two-space indentation.
    let standalone = LuaEmitter::new()
        .visit_fn(Builder::new("  ".to_string()), &macro_def("trace", vec![]))
        .unwrap()
        .collect();
    assert_eq!(entry.runtime_code, standalone);
    assert!(expander.macros.get(&"other".to_string()).is_none());
}

#[test]
fn later_macro_definition_overwrites_earlier() {
    let script = Script {
        statements: vec![
            Statement::MacroDeclare(macro_def("m", vec![])),
            Statement::MacroDeclare(macro_def(
                "m",
                vec![let_stmt("marker", num(9))],
            )),
        ],
    };
    let mut expander = MacroExpander::new();
    expander.compile_macros(script).unwrap();
    let entry = expander.macros.get(&"m".to_string()).unwrap();
    assert!(entry.runtime_code.contains("local marker = 9;"));
}

#[test]
fn expand_rejects_undefined_macro_with_its_name() {
    // A decorator referencing an absent macro name fails with exactly
    // that name, and nothing is emitted for the statement.
    let script = Script {
        statements: vec![decorated(vec![invocation("nope")], let_stmt("x", num(1)))],
    };
    let expander = MacroExpander::new();
    match expander.expand_macros(script) {
        Err(MacroExpansionError::MacroNotDefined(n)) => assert_eq!(n, "nope"),
        other => panic!("unexpected outcome: {:?}", other),
    }
}

#[test]
fn macro_invocation_runs_in_sandbox_and_is_dropped() {
    // A defined macro runs against the serialized statement in the
    // sandboxed interpreter; the decorator statement itself leaves no
    // trace in the expanded program.
    let mut expander = MacroExpander::new();
    let program = Script {
        statements: vec![
            Statement::MacroDeclare(macro_def("noop", vec![])),
            decorated(vec![invocation("noop")], let_stmt("x", num(1))),
            let_stmt("y", num(2)),
        ],
    };
    let reduced = expander.compile_macros(program).unwrap();
    let expanded = expander.expand_macros(reduced).unwrap();
    assert_eq!(expanded.statements.len(), 1);
    assert!(render(&expanded).contains("local y = 2;"));
    assert!(!render(&expanded).contains("local x = 1;"));
}

#[test]
fn failing_macro_evaluation_is_caught_and_reported() {
    // A macro whose body raises at expansion time is caught and
    // reported as an expansion-time error with its cause.
    let raising = macro_def(
        "boom",
        vec![Statement::Expression(Expression::Call(Box::new(simple_call(
            "error",
            vec![Expression::String(StringLiteral::Double("kaput".to_string()))],
        ))))],
    );
    let mut expander = MacroExpander::new();
    let program = Script {
        statements: vec![
            Statement::MacroDeclare(raising),
            decorated(vec![invocation("boom")], let_stmt("x", num(1))),
        ],
    };
    let reduced = expander.compile_macros(program).unwrap();
    match expander.expand_macros(reduced) {
        Err(MacroExpansionError::ExpansionTimeError(Some(msg))) => {
            assert!(msg.contains("kaput"));
        },
        other => panic!("unexpected outcome: {:?}", other),
    }
}

#[test]
fn macro_body_that_cannot_compile_is_invalid_code() {
    // Pattern matching has no code generation rule, so a macro whose
    // body holds one cannot be compiled.
    let bad = macro_def(
        "bad",
        vec![Statement::Match(Match {
            target: Expression::Identifier(ident("x")),
            branches: vec![],
        })],
    );
    match MacroData::compiled(bad) {
        Err(MacroExpansionError::InvalidCode) => {},
        other => panic!("unexpected outcome: {:?}", other.map(|_| ())),
    }
    let mut expander = MacroExpander::new();
    let program = Script {
        statements: vec![Statement::MacroDeclare(macro_def(
            "bad",
            vec![Statement::Match(Match {
                target: Expression::Identifier(ident("x")),
                branches: vec![],
            })],
        ))],
    };
    assert!(matches!(
        expander.compile_macros(program),
        Err(MacroExpansionError::InvalidCode)
    ));
}

#[test]
fn serialized_statement_is_a_table_literal() {
    let stmt = let_stmt("x", num(1));
    assert_eq!(
        serialize_statement(&stmt),
        "{Let = {target = {Identifier = \"x\",},value = {Number = {Integer = 1,},},},}"
    );
}

#[test]
fn serialized_statement_covers_strings_and_vectors() {
    let stmt = Statement::Expression(Expression::Vector(Vector {
        expressions: vec![
            Expression::String(StringLiteral::Double("a\nb".to_string())),
            Expression::Unit,
        ],
    }));
    assert_eq!(
        serialize_statement(&stmt),
        "{Expression = {Vector = {expressions = {{String = {Double = \"a\\nb\",},},\"Unit\",},},},}"
    );
}

#[test]
fn whole_pipeline_compiles_expands_and_renders() {
    let program = Script {
        statements: vec![
            Statement::MacroDeclare(macro_def("noop", vec![])),
            decorated(vec![invocation("noop")], let_stmt("dropped", num(0))),
            let_stmt("kept", num(5)),
        ],
    };
    let out = compile_program(program, "  ".to_string()).unwrap();
    assert_eq!(
        out,
        "-- Generated by the Saturnus compiler 1.0\n-- WARNING! Changes may be discarded at any moment!\nlocal kept = 5;"
    );
}

#[test]
fn pipeline_surfaces_macro_errors() {
    let program = Script {
        statements: vec![decorated(vec![invocation("ghost")], let_stmt("x", num(1)))],
    };
    match compile_program(program, "  ".to_string()) {
        Err(CompileError::Macro(MacroExpansionError::MacroNotDefined(n))) => {
            assert_eq!(n, "ghost")
        },
        other => panic!("unexpected outcome: {:?}", other),
    }
}

#[test]
fn pipeline_surfaces_code_generation_errors() {
    let program = Script {
        statements: vec![Statement::Match(Match {
            target: Expression::Identifier(ident("x")),
            branches: vec![],
        })],
    };
    assert!(matches!(
        compile_program(program, "  ".to_string()),
        Err(CompileError::Visit(_))
    ));
}

#[test]
fn ast_builder_helpers_compose_calls() {
    let call = saturnus::ast_builder::create_simple_call(
        "f".to_string(),
        vec![saturnus::ast_builder::string("v".to_string())],
    );
    let rendered = LuaEmitter::new()
        .visit_call(Builder::new("  ".to_string()), &call)
        .unwrap()
        .collect();
    assert_eq!(rendered, "f(\"v\")");
    let t = saturnus::ast_builder::table(vec![saturnus::ast_builder::key_value(
        "k".to_string(),
        saturnus::ast_builder::string("w".to_string()),
    )]);
    let rendered = LuaEmitter::new()
        .visit_table(Builder::new("  ".to_string()), &t)
        .unwrap()
        .collect();
    assert_eq!(rendered, "{k = \"w\"}");
}
