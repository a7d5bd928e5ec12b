use saturnus::ast::{
    CallExpressionVariant,
    Argument, Assignment, AssignmentTarget, BinaryExpression, CallExpression, CallSubExpression, Class, ClassField, Decorator, DestructureOrigin, Destructuring, Do, Expression, ExpressionOrLet, For, Function, Identifier, If, Lambda, Let, Loop, Match, MemberExpression, MemberSegment, Number, Operator, Return, Script, ScriptOrExpression, Statement, StringLiteral, Table, TableKeyExpression, Tuple, UnaryExpression, Vector, While,
};
use saturnus::builder::Builder;
use saturnus::helpers::{escape_string, fmt_i64, fmt_u64, generate_operator_function_name};
use saturnus::render::VisitError;
use saturnus::visitor::LuaEmitter;

const HEADER: &str =
    "-- Generated by the Saturnus compiler 1.0\n-- WARNING! Changes may be discarded at any moment!";

fn ident(name: &str) -> Identifier {
    Identifier(name.to_string())
}

fn num(n: i64) -> Expression {
    Expression::Number(Number::Integer(n))
}

fn name_expr(name: &str) -> Expression {
    Expression::Identifier(ident(name))
}

fn binary(left: Expression, op: &str, right: Expression) -> Expression {
    Expression::Binary(Box::new(BinaryExpression {
        left,
        right,
        operator: Operator(op.to_string()),
    }))
}

fn script(statements: Vec<Statement>) -> Script {
    Script { statements }
}

fn emit_script(s: &Script) -> String {
    LuaEmitter::new()
        .visit_script(Builder::new("  ".to_string()), s)
        .unwrap()
        .collect()
}

fn emit_expr(e: &Expression) -> String {
    LuaEmitter::new()
        .visit_expression(Builder::new("  ".to_string()), e)
        .unwrap()
        .collect()
}

fn emit_stmt(s: &Statement) -> Result<String, VisitError> {
    LuaEmitter::new()
        .visit_statement(Builder::new("  ".to_string()), s)
        .map(|b| b.collect())
}

fn let_stmt(name: &str, value: Expression) -> Statement {
    Statement::Let(Let {
        target: AssignmentTarget::Identifier(ident(name)),
        value: Some(value),
    })
}

#[test]
fn let_binding_emits_single_line_after_headers() {
    // `let x = 1 + 2;` becomes one line of target code under the two
    // fixed header comment lines.
    let program = script(vec![let_stmt("x", binary(num(1), "+", num(2)))]);
    let out = emit_script(&program);
    assert_eq!(out, format!("{}\nlocal x = 1 + 2;", HEADER));
}

#[test]
fn lambda_appends_variadic_capture() {
    // `(x) => x * 2` gains a trailing variadic parameter despite its
    // single declared formal parameter.
    let lambda = Expression::Lambda(Box::new(Lambda {
        arguments: vec![Argument { name: ident("x"), decorators: vec![] }],
        body: ScriptOrExpression::Expression(binary(name_expr("x"), "*", num(2))),
    }));
    let out = emit_expr(&lambda);
    assert_eq!(out, "function(x, ...)\n  return x * 2;\nend");
}

#[test]
fn lambda_without_parameters_still_variadic() {
    let lambda = Expression::Lambda(Box::new(Lambda {
        arguments: vec![],
        body: ScriptOrExpression::Expression(num(1)),
    }));
    assert_eq!(emit_expr(&lambda), "function(...)\n  return 1;\nend");
}

#[test]
fn unmapped_operator_spelling_becomes_function_call() {
    // `$$` has no native translation: both characters map to words.
    let out = generate_operator_function_name("$$".to_string());
    assert_eq!(out, "__saturnus_operator_dollar_dollar");
}

#[test]
fn custom_binary_operator_lowers_to_named_call() {
    let e = binary(name_expr("a"), "<$>", name_expr("b"));
    assert_eq!(emit_expr(&e), "__saturnus_operator_less_dollar_greater(a, b)");
}

#[test]
fn native_binary_operators_pass_through() {
    assert_eq!(emit_expr(&binary(name_expr("a"), "==", num(3))), "a == 3");
    assert_eq!(emit_expr(&binary(name_expr("a"), "and", name_expr("b"))), "a and b");
}

#[test]
fn concat_and_inequality_operators_translate() {
    assert_eq!(emit_expr(&binary(name_expr("a"), "++", name_expr("b"))), "a .. b");
    assert_eq!(emit_expr(&binary(name_expr("a"), "<>", name_expr("b"))), "a ~= b");
}

#[test]
fn null_coalescing_expands_to_nil_test() {
    let e = binary(name_expr("a"), "??", name_expr("b"));
    assert_eq!(emit_expr(&e), "a == nil and b or a");
}

#[test]
fn elvis_expands_to_truthiness_fallback() {
    let e = binary(name_expr("a"), "?:", name_expr("b"));
    assert_eq!(emit_expr(&e), "a or b");
}

#[test]
fn unary_operators() {
    let neg = Expression::Unary(Box::new(UnaryExpression {
        expression: num(4),
        operator: Operator("-".to_string()),
    }));
    assert_eq!(emit_expr(&neg), "-4");
    let count = Expression::Unary(Box::new(UnaryExpression {
        expression: name_expr("v"),
        operator: Operator("#?".to_string()),
    }));
    assert_eq!(emit_expr(&count), "#v");
    let bad = Expression::Unary(Box::new(UnaryExpression {
        expression: num(1),
        operator: Operator("!!".to_string()),
    }));
    let r = LuaEmitter::new().visit_expression(Builder::new("  ".to_string()), &bad);
    assert!(matches!(r, Err(VisitError::UnsupportedOperator)));
}

#[test]
fn computed_first_reference_segment_is_rejected() {
    // A reference whose first segment is not a plain identifier fails
    // with the structural error, whatever its tail holds.
    let m = MemberExpression {
        head: num(1),
        tail: vec![MemberSegment::IdentifierDynamic(ident("x"))],
    };
    let r = LuaEmitter::new().visit_reference(Builder::new("  ".to_string()), &m);
    assert!(matches!(r, Err(VisitError::ComputedFirstSegment)));
}

#[test]
fn reference_chain_renders_left_to_right() {
    let m = Expression::Reference(Box::new(MemberExpression {
        head: name_expr("a"),
        tail: vec![
            MemberSegment::IdentifierDynamic(ident("b")),
            MemberSegment::Computed(num(3)),
        ],
    }));
    assert_eq!(emit_expr(&m), "a.b[3]");
}

#[test]
fn keyword_member_name_is_escaped() {
    let kw = format!("th{}", "en");
    let m = Expression::Reference(Box::new(MemberExpression {
        head: name_expr("a"),
        tail: vec![MemberSegment::IdentifierDynamic(Identifier(kw.clone()))],
    }));
    assert_eq!(emit_expr(&m), format!("a['{}']", kw));
}

#[test]
fn static_identifier_in_dynamic_position_is_rejected() {
    let m = MemberExpression {
        head: name_expr("a"),
        tail: vec![MemberSegment::IdentifierStatic(ident("b"))],
    };
    let r = LuaEmitter::new().visit_reference(Builder::new("  ".to_string()), &m);
    assert!(matches!(r, Err(VisitError::BadStaticIdentifierPosition)));
}

#[test]
fn call_uses_colon_for_dynamic_and_dot_for_static_target() {
    let colon = Expression::Call(Box::new(CallExpression {
        head: CallSubExpression {
            callee: Some(MemberExpression {
                head: name_expr("obj"),
                tail: vec![MemberSegment::IdentifierDynamic(ident("go"))],
            }),
            arguments: vec![num(1)],
        },
        tail: vec![],
    }));
    assert_eq!(emit_expr(&colon), "obj:go(1)");
    let dot = Expression::Call(Box::new(CallExpression {
        head: CallSubExpression {
            callee: Some(MemberExpression {
                head: name_expr("obj"),
                tail: vec![MemberSegment::IdentifierStatic(ident("go"))],
            }),
            arguments: vec![],
        },
        tail: vec![],
    }));
    assert_eq!(emit_expr(&dot), "obj.go()");
}

#[test]
fn tuple_emits_numbered_slots() {
    let t = Expression::Tuple(Tuple(vec![num(1), num(2), num(3)]));
    assert_eq!(emit_expr(&t), "{_0 = 1, _1 = 2, _2 = 3}");
}

#[test]
fn vector_and_table_literals() {
    let v = Expression::Vector(Vector { expressions: vec![num(1), num(2)] });
    assert_eq!(emit_expr(&v), "{1, 2}");
    let t = Expression::Table(Table {
        key_values: vec![
            (TableKeyExpression::Identifier(ident("a")), Some(num(1))),
            (TableKeyExpression::Expression(Expression::String(StringLiteral::Double(
                "k".to_string(),
            ))), Some(num(2))),
            (TableKeyExpression::Implicit(ident("b")), None),
        ],
    });
    assert_eq!(emit_expr(&t), "{a = 1, [\"k\"] = 2, b = b}");
}

#[test]
fn string_literal_escapes_newlines() {
    let s = Expression::String(StringLiteral::Double("a\nb".to_string()));
    assert_eq!(emit_expr(&s), "\"a\\nb\"");
    assert_eq!(escape_string("x\ny\nz".to_string()), "x\\ny\\nz");
}

#[test]
fn unit_renders_as_nil() {
    assert_eq!(emit_expr(&Expression::Unit), "nil");
}

#[test]
fn integer_formatting_covers_extremes() {
    assert_eq!(fmt_u64(0), "0");
    assert_eq!(fmt_u64(907), "907");
    assert_eq!(fmt_i64(-1), "-1");
    assert_eq!(fmt_i64(i64::MIN), "-9223372036854775808");
    assert_eq!(fmt_i64(i64::MAX), "9223372036854775807");
    assert_eq!(emit_expr(&num(-42)), "-42");
}

#[test]
fn float_literal_text_passes_through() {
    let e = Expression::Number(Number::Float("1.5".to_string()));
    assert_eq!(emit_expr(&e), "1.5");
}

#[test]
fn if_with_elseif_and_else() {
    let stmt = Statement::If(If {
        condition: name_expr("a"),
        body: script(vec![let_stmt("x", num(1))]),
        branches: vec![(name_expr("b"), script(vec![let_stmt("y", num(2))]))],
        else_branch: Some(script(vec![let_stmt("z", num(3))])),
    });
    let out = emit_stmt(&stmt).unwrap();
    let kw = format!("th{}", "en");
    assert_eq!(
        out,
        format!(
            "\nif a {kw}\n  local x = 1;\nelseif b {kw}\n  local y = 2;\nelse\n  local z = 3;\nend"
        )
    );
}

#[test]
fn while_and_loop_statements() {
    let w = Statement::While(While {
        condition: ExpressionOrLet::Expression(name_expr("p")),
        body: script(vec![let_stmt("x", num(1))]),
    });
    assert_eq!(emit_stmt(&w).unwrap(), "\nwhile p do\n  local x = 1;\nend");
    let l = Statement::Loop(Loop { body: script(vec![let_stmt("x", num(1))]) });
    assert_eq!(emit_stmt(&l).unwrap(), "\nwhile true do\n  local x = 1;\nend");
}

#[test]
fn while_let_lowers_to_wrapping_scope() {
    let w = Statement::While(While {
        condition: ExpressionOrLet::Let(Let {
            target: AssignmentTarget::Identifier(ident("v")),
            value: Some(name_expr("next")),
        }),
        body: script(vec![Statement::Expression(name_expr("v"))]),
    });
    assert_eq!(
        emit_stmt(&w).unwrap(),
        "\ndo\n  local v = next;\n  while v do\n    v;\n    v = next;\n  end\nend"
    );
}

#[test]
fn destructuring_declaration_uses_temporary() {
    let d = Statement::Let(Let {
        target: AssignmentTarget::Destructuring(Destructuring(
            vec![ident("a"), ident("b")],
            DestructureOrigin::Array,
        )),
        value: Some(name_expr("pair")),
    });
    assert_eq!(
        emit_stmt(&d).unwrap(),
        "\nlocal a, b;\ndo\n  local __destructure__ = pair;\n  a = __destructure__[0];\n  b = __destructure__[1];\nend"
    );
}

#[test]
fn destructuring_by_tuple_slot_and_field() {
    let t = Statement::Let(Let {
        target: AssignmentTarget::Destructuring(Destructuring(
            vec![ident("a")],
            DestructureOrigin::Tuple,
        )),
        value: Some(name_expr("t")),
    });
    assert!(emit_stmt(&t).unwrap().contains("a = __destructure__._0;"));
    let f = Statement::Let(Let {
        target: AssignmentTarget::Destructuring(Destructuring(
            vec![ident("k")],
            DestructureOrigin::Table,
        )),
        value: Some(name_expr("t")),
    });
    assert!(emit_stmt(&f).unwrap().contains("k = __destructure__.k;"));
}

#[test]
fn value_less_let_is_malformed() {
    let d = Statement::Let(Let {
        target: AssignmentTarget::Identifier(ident("x")),
        value: None,
    });
    assert!(matches!(emit_stmt(&d), Err(VisitError::MalformedNode)));
}

#[test]
fn for_loops_with_identifier_and_destructuring() {
    let f = Statement::For(For {
        handler: AssignmentTarget::Identifier(ident("it")),
        target: name_expr("xs"),
        body: script(vec![Statement::Expression(name_expr("it"))]),
    });
    assert_eq!(emit_stmt(&f).unwrap(), "\nfor it in xs do\n  it;\nend");
    let g = Statement::For(For {
        handler: AssignmentTarget::Destructuring(Destructuring(
            vec![ident("k"), ident("v")],
            DestructureOrigin::Tuple,
        )),
        target: name_expr("xs"),
        body: script(vec![]),
    });
    assert_eq!(
        emit_stmt(&g).unwrap(),
        "\nfor __destructure__ in xs do\n  k = __destructure__._0;\n  v = __destructure__._1;\nend"
    );
}

#[test]
fn assignment_and_compound_assignment() {
    let target = MemberExpression {
        head: name_expr("a"),
        tail: vec![MemberSegment::IdentifierDynamic(ident("b"))],
    };
    let plain = Statement::Assignment(Assignment {
        target: MemberExpression {
            head: name_expr("a"),
            tail: vec![MemberSegment::IdentifierDynamic(ident("b"))],
        },
        value: num(1),
        extra: None,
    });
    assert_eq!(emit_stmt(&plain).unwrap(), "\na.b = 1;");
    let compound = Statement::Assignment(Assignment {
        target,
        value: num(2),
        extra: Some(Operator("+".to_string())),
    });
    assert_eq!(emit_stmt(&compound).unwrap(), "\na.b = a.b + 2;");
}

#[test]
fn match_statement_is_unsupported() {
    let m = Statement::Match(Match { target: name_expr("x"), branches: vec![] });
    assert!(matches!(emit_stmt(&m), Err(VisitError::UnsupportedNode)));
}

#[test]
fn use_statement_and_expression_go_through_module_table() {
    let s = Statement::Use(ident("std"));
    assert_eq!(emit_stmt(&s).unwrap(), "\nlocal std = __modules__.std;");
    let e = Expression::Use(ident("std"));
    assert_eq!(emit_expr(&e), "__modules__.std");
}

#[test]
fn do_block_becomes_invoked_function() {
    let e = Expression::Do(Do { body: script(vec![Statement::Return(Return { value: num(1) })]) });
    assert_eq!(emit_expr(&e), "(function(...)\n  return 1;\nend)(...)");
}

#[test]
fn function_declaration_with_decorator() {
    let f = Statement::Function(Function {
        name: ident("f"),
        arguments: vec![Argument { name: ident("a"), decorators: vec![] }],
        decorators: vec![Decorator {
            target: CallExpression {
                head: CallSubExpression {
                    callee: Some(MemberExpression { head: name_expr("wrap"), tail: vec![] }),
                    arguments: vec![],
                },
                tail: vec![],
            },
        }],
        body: script(vec![Statement::Return(Return { value: name_expr("a") })]),
        native: None,
    });
    assert_eq!(
        emit_stmt(&f).unwrap(),
        "\nlocal function f(a, ...)\n  return a;\nend\nwrap()(f, \"f\");"
    );
}

#[test]
fn native_function_embeds_foreign_source() {
    let f = Statement::Function(Function {
        name: ident("n"),
        arguments: vec![],
        decorators: vec![],
        body: script(vec![]),
        native: Some(vec![(ident("Lua"), StringLiteral::Double("return 7".to_string()))]),
    });
    let out = emit_stmt(&f).unwrap();
    assert!(out.contains("-- NATIVE CODE"));
    assert!(out.contains("return 7"));
    let missing = Statement::Function(Function {
        name: ident("n"),
        arguments: vec![],
        decorators: vec![],
        body: script(vec![]),
        native: Some(vec![(ident("C"), StringLiteral::Double("x".to_string()))]),
    });
    assert!(emit_stmt(&missing)
        .unwrap()
        .contains("error('Native function implementation not found')"));
}

#[test]
fn class_methods_split_between_prototype_and_namespace() {
    // Three methods: the two whose first parameter is the
    // self-reference identifier land on the prototype (colon-callable),
    // the other directly on the class namespace (dot-callable).
    let method = |name: &str, first_arg: &str| {
        ClassField::Method(Function {
            name: ident(name),
            arguments: vec![Argument { name: ident(first_arg), decorators: vec![] }],
            decorators: vec![],
            body: Script { statements: vec![] },
            native: None,
        })
    };
    let c = Statement::Class(Class {
        name: ident("C"),
        decorators: vec![],
        fields: vec![method("m1", "self"), method("m2", "other"), method("m3", "self")],
    });
    let out = emit_stmt(&c).unwrap();
    assert!(out.contains("C.prototype.m1 = function(self, ...)"));
    assert!(out.contains("C.m2 = function(other, ...)"));
    assert!(out.contains("C.prototype.m3 = function(self, ...)"));
    assert_eq!(out.matches("C.prototype.m").count(), 2);
    // The fixed preamble wires instances to the prototype table.
    assert!(out.contains("C.prototype.__meta__.__index = C.prototype;"));
    assert!(out.contains("C.__meta__.__call = function(self, struct)"));
    assert!(out.contains("return setmetatable(struct, self.prototype.__meta__);"));
}

#[test]
fn class_value_field_and_decorators() {
    let c = Statement::Class(Class {
        name: ident("C"),
        decorators: vec![Decorator {
            target: CallExpression {
                head: CallSubExpression {
                    callee: Some(MemberExpression { head: name_expr("dec"), tail: vec![] }),
                    arguments: vec![],
                },
                tail: vec![],
            },
        }],
        fields: vec![ClassField::Let(Let {
            target: AssignmentTarget::Identifier(ident("count")),
            value: Some(num(0)),
        })],
    });
    let out = emit_stmt(&c).unwrap();
    assert!(out.contains("C.prototype.count = 0;"));
    assert!(out.contains("dec()(C, \"C\");"));
}

#[test]
fn builder_tracks_indentation() {
    let b = Builder::new("  ".to_string());
    let out = b.put("a").push().line().put("b").pop().line().put("c").collect();
    assert_eq!(out, "a\n  b\nc");
}

#[test]
fn builder_sibling_is_empty_with_same_unit() {
    let b = Builder::new("\t".to_string()).put("xyz");
    let sib = b.clone_like();
    assert_eq!(sib.push().line().put("q").collect(), "\n\tq");
    assert_eq!(b.collect(), "xyz");
}

#[test]
fn empty_program_emits_only_headers() {
    let out = emit_script(&script(vec![]));
    assert_eq!(out, HEADER);
}

#[test]
fn empty_composite_literals() {
    assert_eq!(emit_expr(&Expression::Tuple(Tuple(vec![]))), "{}");
    assert_eq!(emit_expr(&Expression::Vector(Vector { expressions: vec![] })), "{}");
    assert_eq!(emit_expr(&Expression::Table(Table { key_values: vec![] })), "{}");
}

#[test]
fn empty_destructuring_pattern_is_malformed() {
    let d = Statement::Let(Let {
        target: AssignmentTarget::Destructuring(Destructuring(vec![], DestructureOrigin::Tuple)),
        value: Some(name_expr("t")),
    });
    assert!(matches!(emit_stmt(&d), Err(VisitError::MalformedNode)));
}

#[test]
fn chained_call_tail_renders_in_order() {
    // f(1).g[2]:h — a call head followed by member accesses, then a
    // chained call through a further head.
    let e = Expression::Call(Box::new(CallExpression {
        head: CallSubExpression {
            callee: Some(MemberExpression { head: name_expr("f"), tail: vec![] }),
            arguments: vec![num(1)],
        },
        tail: vec![
            CallExpressionVariant::Member(MemberSegment::IdentifierStatic(ident("g"))),
            CallExpressionVariant::Member(MemberSegment::Computed(num(2))),
            CallExpressionVariant::Call(CallSubExpression {
                callee: Some(MemberExpression { head: name_expr("h"), tail: vec![] }),
                arguments: vec![],
            }),
        ],
    }));
    assert_eq!(emit_expr(&e), "f(1).g[2]h()");
}

#[test]
fn wrapped_expression_parenthesizes() {
    let e = Expression::Tuple1(Box::new(binary(num(1), "+", num(2))));
    assert_eq!(emit_expr(&e), "(1 + 2)");
}

#[test]
fn nested_blocks_indent_and_dedent() {
    let inner = Statement::If(If {
        condition: name_expr("q"),
        body: script(vec![let_stmt("y", num(2))]),
        branches: vec![],
        else_branch: None,
    });
    let outer = Statement::If(If {
        condition: name_expr("p"),
        body: script(vec![inner]),
        branches: vec![],
        else_branch: None,
    });
    let kw = format!("th{}", "en");
    assert_eq!(
        emit_stmt(&outer).unwrap(),
        format!("\nif p {kw}\n  if q {kw}\n    local y = 2;\n  end\nend")
    );
}
