//! Serialization of AST fragments for macro invocations.
//!
//! A macro runs as ordinary target code over a plain serialized form of
//! the statement it decorates.  The serialized form is a table literal
//! of the target language: a struct becomes a table with one field per
//! member in declaration order, an enum a table with the variant name
//! as its single key (a plain string for a variant without payload), a
//! sequence or tuple a positional table, an absent optional value
//! `nil`, and every entry carries a trailing separator.  Each spec
//! function here gives the exact text appended by the corresponding
//! executable serializer.

use vstd::prelude::*;

use crate::ast::{
    Argument, Assignment, AssignmentTarget, BinaryExpression, CallExpression,
    CallExpressionVariant, CallSubExpression, Class, ClassField, Decorator, DestructureOrigin,
    Destructuring, Do, Expression, ExpressionOrLet, For, Function, Identifier, If, IdentifierOrCall,
    Lambda, Let, Loop, MacroDecorator, Match, MemberExpression, MemberSegment, Number, Return,
    Script, ScriptOrExpression, Statement, StringLiteral, Table, TableKeyExpression, Tuple,
    UnaryExpression, Vector, While,
};
use crate::builder::{Builder, BuilderModel};
use crate::helpers::{dec_int, escape_string, escaped, fmt_i64};

verus! {

// ---------------------------------------------------------------------
// The specified serialized text, one spec function per node kind.
// ---------------------------------------------------------------------

pub open spec fn ser_str(s: Seq<char>, b: BuilderModel) -> BuilderModel {
    b.put("\""@).put(escaped(s)).put("\""@)
}

pub open spec fn ser_identifier(i: Identifier, b: BuilderModel) -> BuilderModel
    decreases i,
{
    ser_str(i.0@, b)
}

pub open spec fn ser_operator(o: crate::ast::Operator, b: BuilderModel) -> BuilderModel
    decreases o,
{
    ser_str(o.0@, b)
}

pub open spec fn ser_number(n: Number, b: BuilderModel) -> BuilderModel
    decreases n,
{
    match n {
        Number::Float(t) => b.put("{Float = "@).put(t@).put(",}"@),
        Number::Integer(i) => b.put("{Integer = "@).put(dec_int(i as int)).put(",}"@),
    }
}

pub open spec fn ser_string_lit(s: StringLiteral, b: BuilderModel) -> BuilderModel
    decreases s,
{
    match s {
        StringLiteral::Double(t) => ser_str(t@, b.put("{Double = "@)).put(",}"@),
    }
}

pub open spec fn ser_origin(o: DestructureOrigin, b: BuilderModel) -> BuilderModel
    decreases o,
{
    match o {
        DestructureOrigin::Tuple => b.put("\"Tuple\""@),
        DestructureOrigin::Array => b.put("\"Array\""@),
        DestructureOrigin::Table => b.put("\"Table\""@),
    }
}

pub open spec fn ser_identifiers(s: Seq<Identifier>, b: BuilderModel) -> BuilderModel
    decreases s,
{
    if s.len() == 0 {
        b
    } else {
        ser_identifiers(s.skip(1), ser_identifier(s[0], b).put(","@))
    }
}

pub open spec fn ser_destructuring(d: Destructuring, b: BuilderModel) -> BuilderModel
    decreases d,
{
    ser_origin(d.1, ser_identifiers(d.0@, b.put("{{"@)).put("},"@)).put(",}"@)
}

pub open spec fn ser_target(t: AssignmentTarget, b: BuilderModel) -> BuilderModel
    decreases t,
{
    match t {
        AssignmentTarget::Destructuring(d) => ser_destructuring(d, b.put("{Destructuring = "@)).put(
            ",}"@,
        ),
        AssignmentTarget::Identifier(i) => ser_identifier(i, b.put("{Identifier = "@)).put(",}"@),
    }
}

pub open spec fn ser_exprs(s: Seq<Expression>, b: BuilderModel) -> BuilderModel
    decreases s,
{
    if s.len() == 0 {
        b
    } else {
        ser_exprs(s.skip(1), ser_expr(s[0], b).put(","@))
    }
}

pub open spec fn ser_stmts(s: Seq<Statement>, b: BuilderModel) -> BuilderModel
    decreases s,
{
    if s.len() == 0 {
        b
    } else {
        ser_stmts(s.skip(1), ser_stmt(s[0], b).put(","@))
    }
}

pub open spec fn ser_script(s: Script, b: BuilderModel) -> BuilderModel
    decreases s,
{
    ser_stmts(s.statements@, b.put("{statements = {"@)).put("},}"@)
}

pub open spec fn ser_decorators(s: Seq<Decorator>, b: BuilderModel) -> BuilderModel
    decreases s,
{
    if s.len() == 0 {
        b
    } else {
        ser_decorators(s.skip(1), ser_decorator(s[0], b).put(","@))
    }
}

pub open spec fn ser_decorator(d: Decorator, b: BuilderModel) -> BuilderModel
    decreases d,
{
    ser_call(d.target, b.put("{target = "@)).put(",}"@)
}

pub open spec fn ser_args(s: Seq<Argument>, b: BuilderModel) -> BuilderModel
    decreases s,
{
    if s.len() == 0 {
        b
    } else {
        ser_args(s.skip(1), ser_argument(s[0], b).put(","@))
    }
}

pub open spec fn ser_argument(a: Argument, b: BuilderModel) -> BuilderModel
    decreases a,
{
    ser_decorators(a.decorators@, ser_identifier(a.name, b.put("{name = "@)).put(
        ",decorators = {"@,
    )).put("},}"@)
}

pub open spec fn ser_natives(s: Seq<(Identifier, StringLiteral)>, b: BuilderModel) -> BuilderModel
    decreases s,
{
    if s.len() == 0 {
        b
    } else {
        ser_natives(
            s.skip(1),
            ser_string_lit(s[0].1, ser_identifier(s[0].0, b.put("{"@)).put(","@)).put(",},"@),
        )
    }
}

pub open spec fn ser_function(f: Function, b: BuilderModel) -> BuilderModel
    decreases f,
{
    let b1 = ser_identifier(f.name, b.put("{name = "@)).put(",arguments = {"@);
    let b2 = ser_args(f.arguments@, b1).put("},decorators = {"@);
    let b3 = ser_decorators(f.decorators@, b2).put("},body = "@);
    let b4 = ser_script(f.body, b3).put(",native = "@);
    let b5 = match f.native {
        Some(es) => ser_natives(es@, b4.put("{"@)).put("}"@),
        None => b4.put("nil"@),
    };
    b5.put(",}"@)
}

pub open spec fn ser_lambda(l: Lambda, b: BuilderModel) -> BuilderModel
    decreases l,
{
    let b1 = ser_args(l.arguments@, b.put("{arguments = {"@)).put("},body = "@);
    let b2 = match l.body {
        ScriptOrExpression::Script(s) => ser_script(s, b1.put("{Script = "@)).put(",}"@),
        ScriptOrExpression::Expression(e) => ser_expr(e, b1.put("{Expression = "@)).put(",}"@),
    };
    b2.put(",}"@)
}

pub open spec fn ser_segment(s: MemberSegment, b: BuilderModel) -> BuilderModel
    decreases s,
{
    match s {
        MemberSegment::Computed(e) => ser_expr(e, b.put("{Computed = "@)).put(",}"@),
        MemberSegment::IdentifierDynamic(i) => ser_identifier(
            i,
            b.put("{IdentifierDynamic = "@),
        ).put(",}"@),
        MemberSegment::IdentifierStatic(i) => ser_identifier(i, b.put("{IdentifierStatic = "@)).put(
            ",}"@,
        ),
    }
}

pub open spec fn ser_segments(s: Seq<MemberSegment>, b: BuilderModel) -> BuilderModel
    decreases s,
{
    if s.len() == 0 {
        b
    } else {
        ser_segments(s.skip(1), ser_segment(s[0], b).put(","@))
    }
}

pub open spec fn ser_member(m: MemberExpression, b: BuilderModel) -> BuilderModel
    decreases m,
{
    ser_segments(m.tail@, ser_expr(m.head, b.put("{head = "@)).put(",tail = {"@)).put("},}"@)
}

pub open spec fn ser_call_sub(c: CallSubExpression, b: BuilderModel) -> BuilderModel
    decreases c,
{
    let b1 = match c.callee {
        Some(m) => ser_member(m, b.put("{callee = "@)),
        None => b.put("{callee = nil"@),
    };
    ser_exprs(c.arguments@, b1.put(",arguments = {"@)).put("},}"@)
}

pub open spec fn ser_call_variant(v: CallExpressionVariant, b: BuilderModel) -> BuilderModel
    decreases v,
{
    match v {
        CallExpressionVariant::Call(c) => ser_call_sub(c, b.put("{Call = "@)).put(",}"@),
        CallExpressionVariant::Member(m) => ser_segment(m, b.put("{Member = "@)).put(",}"@),
    }
}

pub open spec fn ser_call_variants(s: Seq<CallExpressionVariant>, b: BuilderModel) -> BuilderModel
    decreases s,
{
    if s.len() == 0 {
        b
    } else {
        ser_call_variants(s.skip(1), ser_call_variant(s[0], b).put(","@))
    }
}

pub open spec fn ser_call(c: CallExpression, b: BuilderModel) -> BuilderModel
    decreases c,
{
    ser_call_variants(c.tail@, ser_call_sub(c.head, b.put("{head = "@)).put(",tail = {"@)).put(
        "},}"@,
    )
}

pub open spec fn ser_kv(
    kv: (TableKeyExpression, Option<Expression>),
    b: BuilderModel,
) -> BuilderModel
    decreases kv,
{
    let b1 = match kv.0 {
        TableKeyExpression::Identifier(i) => ser_identifier(i, b.put("{{Identifier = "@)).put(
            ",}"@,
        ),
        TableKeyExpression::Expression(e) => ser_expr(e, b.put("{{Expression = "@)).put(",}"@),
        TableKeyExpression::Implicit(i) => ser_identifier(i, b.put("{{Implicit = "@)).put(",}"@),
    };
    let b2 = match kv.1 {
        Some(e) => ser_expr(e, b1.put(","@)),
        None => b1.put(",nil"@),
    };
    b2.put(",}"@)
}

pub open spec fn ser_kvs(
    s: Seq<(TableKeyExpression, Option<Expression>)>,
    b: BuilderModel,
) -> BuilderModel
    decreases s,
{
    if s.len() == 0 {
        b
    } else {
        ser_kvs(s.skip(1), ser_kv(s[0], b).put(","@))
    }
}

pub open spec fn ser_table(t: Table, b: BuilderModel) -> BuilderModel
    decreases t,
{
    ser_kvs(t.key_values@, b.put("{key_values = {"@)).put("},}"@)
}

pub open spec fn ser_branch(br: (Expression, Script), b: BuilderModel) -> BuilderModel
    decreases br,
{
    ser_script(br.1, ser_expr(br.0, b.put("{"@)).put(","@)).put(",}"@)
}

pub open spec fn ser_branches(s: Seq<(Expression, Script)>, b: BuilderModel) -> BuilderModel
    decreases s,
{
    if s.len() == 0 {
        b
    } else {
        ser_branches(s.skip(1), ser_branch(s[0], b).put(","@))
    }
}

pub open spec fn ser_match_branch(
    br: (Expression, ScriptOrExpression),
    b: BuilderModel,
) -> BuilderModel
    decreases br,
{
    let b1 = ser_expr(br.0, b.put("{"@)).put(","@);
    let b2 = match br.1 {
        ScriptOrExpression::Script(s) => ser_script(s, b1.put("{Script = "@)).put(",}"@),
        ScriptOrExpression::Expression(e) => ser_expr(e, b1.put("{Expression = "@)).put(",}"@),
    };
    b2.put(",}"@)
}

pub open spec fn ser_match_branches(
    s: Seq<(Expression, ScriptOrExpression)>,
    b: BuilderModel,
) -> BuilderModel
    decreases s,
{
    if s.len() == 0 {
        b
    } else {
        ser_match_branches(s.skip(1), ser_match_branch(s[0], b).put(","@))
    }
}

pub open spec fn ser_class_field(f: ClassField, b: BuilderModel) -> BuilderModel
    decreases f,
{
    match f {
        ClassField::Method(m) => ser_function(m, b.put("{Method = "@)).put(",}"@),
        ClassField::Let(l) => ser_let(l, b.put("{Let = "@)).put(",}"@),
    }
}

pub open spec fn ser_class_fields(s: Seq<ClassField>, b: BuilderModel) -> BuilderModel
    decreases s,
{
    if s.len() == 0 {
        b
    } else {
        ser_class_fields(s.skip(1), ser_class_field(s[0], b).put(","@))
    }
}

pub open spec fn ser_class(c: Class, b: BuilderModel) -> BuilderModel
    decreases c,
{
    let b1 = ser_identifier(c.name, b.put("{name = "@)).put(",decorators = {"@);
    let b2 = ser_decorators(c.decorators@, b1).put("},fields = {"@);
    ser_class_fields(c.fields@, b2).put("},}"@)
}

pub open spec fn ser_let(l: Let, b: BuilderModel) -> BuilderModel
    decreases l,
{
    let b1 = ser_target(l.target, b.put("{target = "@)).put(",value = "@);
    let b2 = match l.value {
        Some(e) => ser_expr(e, b1),
        None => b1.put("nil"@),
    };
    b2.put(",}"@)
}

pub open spec fn ser_assignment(a: Assignment, b: BuilderModel) -> BuilderModel
    decreases a,
{
    let b1 = ser_member(a.target, b.put("{target = "@)).put(",value = "@);
    let b2 = ser_expr(a.value, b1).put(",extra = "@);
    let b3 = match a.extra {
        Some(o) => ser_operator(o, b2),
        None => b2.put("nil"@),
    };
    b3.put(",}"@)
}

pub open spec fn ser_invocation(m: IdentifierOrCall, b: BuilderModel) -> BuilderModel
    decreases m,
{
    ser_exprs(m.arguments@, ser_identifier(m.target, b.put("{target = "@)).put(
        ",arguments = {"@,
    )).put("},}"@)
}

pub open spec fn ser_invocations(s: Seq<IdentifierOrCall>, b: BuilderModel) -> BuilderModel
    decreases s,
{
    if s.len() == 0 {
        b
    } else {
        ser_invocations(s.skip(1), ser_invocation(s[0], b).put(","@))
    }
}

pub open spec fn ser_macro_decorator(d: MacroDecorator, b: BuilderModel) -> BuilderModel
    decreases d,
{
    ser_stmt(d.target, ser_invocations(d.macros@, b.put("{macros = {"@)).put("},target = "@)).put(
        ",}"@,
    )
}

pub open spec fn ser_expr(e: Expression, b: BuilderModel) -> BuilderModel
    decreases e,
{
    match e {
        Expression::Lambda(l) => ser_lambda(*l, b.put("{Lambda = "@)).put(",}"@),
        Expression::Reference(m) => ser_member(*m, b.put("{Reference = "@)).put(",}"@),
        Expression::Identifier(i) => ser_identifier(i, b.put("{Identifier = "@)).put(",}"@),
        Expression::Call(c) => ser_call(*c, b.put("{Call = "@)).put(",}"@),
        Expression::Tuple(t) => ser_exprs(t.0@, b.put("{Tuple = {"@)).put("},}"@),
        Expression::Tuple1(inner) => ser_expr(*inner, b.put("{Tuple1 = "@)).put(",}"@),
        Expression::Table(t) => ser_table(t, b.put("{Table = "@)).put(",}"@),
        Expression::Do(d) => ser_script(d.body, b.put("{Do = {body = "@)).put(",},}"@),
        Expression::Use(i) => ser_identifier(i, b.put("{Use = "@)).put(",}"@),
        Expression::Vector(v) => ser_exprs(v.expressions@, b.put("{Vector = {expressions = {"@)).put(
            "},},}"@,
        ),
        Expression::Number(n) => ser_number(n, b.put("{Number = "@)).put(",}"@),
        Expression::String(s) => ser_string_lit(s, b.put("{String = "@)).put(",}"@),
        Expression::Binary(x) => {
            let b1 = ser_expr(x.left, b.put("{Binary = {left = "@)).put(",right = "@);
            let b2 = ser_expr(x.right, b1).put(",operator = "@);
            ser_operator(x.operator, b2).put(",},}"@)
        },
        Expression::Unary(x) => {
            let b1 = ser_expr(x.expression, b.put("{Unary = {expression = "@)).put(
                ",operator = "@,
            );
            ser_operator(x.operator, b1).put(",},}"@)
        },
        Expression::Unit => b.put("\"Unit\""@),
    }
}

pub open spec fn ser_stmt(s: Statement, b: BuilderModel) -> BuilderModel
    decreases s,
{
    match s {
        Statement::MacroDecorator(d) => ser_macro_decorator(*d, b.put("{MacroDecorator = "@)).put(
            ",}"@,
        ),
        Statement::If(x) => {
            let b1 = ser_expr(x.condition, b.put("{If = {condition = "@)).put(",body = "@);
            let b2 = ser_script(x.body, b1).put(",branches = {"@);
            let b3 = ser_branches(x.branches@, b2).put("},else_branch = "@);
            let b4 = match x.else_branch {
                Some(eb) => ser_script(eb, b3),
                None => b3.put("nil"@),
            };
            b4.put(",},}"@)
        },
        Statement::Match(x) => {
            let b1 = ser_expr(x.target, b.put("{Match = {target = "@)).put(",branches = {"@);
            ser_match_branches(x.branches@, b1).put("},},}"@)
        },
        Statement::For(x) => {
            let b1 = ser_target(x.handler, b.put("{For = {handler = "@)).put(",target = "@);
            let b2 = ser_expr(x.target, b1).put(",body = "@);
            ser_script(x.body, b2).put(",},}"@)
        },
        Statement::Loop(x) => ser_script(x.body, b.put("{Loop = {body = "@)).put(",},}"@),
        Statement::While(x) => {
            let b1 = match x.condition {
                ExpressionOrLet::Expression(e) => ser_expr(
                    e,
                    b.put("{While = {condition = {Expression = "@),
                ).put(",}"@),
                ExpressionOrLet::Let(l) => ser_let(
                    l,
                    b.put("{While = {condition = {Let = "@),
                ).put(",}"@),
            };
            ser_script(x.body, b1.put(",body = "@)).put(",},}"@)
        },
        Statement::Return(x) => ser_expr(x.value, b.put("{Return = {value = "@)).put(",},}"@),
        Statement::Class(x) => ser_class(x, b.put("{Class = "@)).put(",}"@),
        Statement::Function(x) => ser_function(x, b.put("{Function = "@)).put(",}"@),
        Statement::MacroDeclare(x) => ser_function(x, b.put("{MacroDeclare = "@)).put(",}"@),
        Statement::Assignment(x) => ser_assignment(x, b.put("{Assignment = "@)).put(",}"@),
        Statement::Let(x) => ser_let(x, b.put("{Let = "@)).put(",}"@),
        Statement::Expression(x) => ser_expr(x, b.put("{Expression = "@)).put(",}"@),
        Statement::Use(i) => ser_identifier(i, b.put("{Use = "@)).put(",}"@),
    }
}

// ---------------------------------------------------------------------
// The executable serializer.  Each writer returns exactly the text its
// spec function gives.
// ---------------------------------------------------------------------

fn write_str(b: Builder, s: &String) -> (r: Builder)
    requires
        b.wf(),
    ensures
        r.wf(),
        r@ == ser_str(s@, b@),
{
    let esc = escape_string(s.clone());
    b.put("\"").put_string(&esc).put("\"")
}

fn write_identifier(b: Builder, i: &Identifier) -> (r: Builder)
    requires
        b.wf(),
    ensures
        r.wf(),
        r@ == ser_identifier(*i, b@),
{
    write_str(b, &i.0)
}

fn write_operator(b: Builder, o: &crate::ast::Operator) -> (r: Builder)
    requires
        b.wf(),
    ensures
        r.wf(),
        r@ == ser_operator(*o, b@),
{
    write_str(b, &o.0)
}

fn write_number(b: Builder, n: &Number) -> (r: Builder)
    requires
        b.wf(),
    ensures
        r.wf(),
        r@ == ser_number(*n, b@),
{
    match n {
        Number::Float(t) => b.put("{Float = ").put_string(t).put(",}"),
        Number::Integer(i) => {
            let s = fmt_i64(*i);
            b.put("{Integer = ").put_string(&s).put(",}")
        },
    }
}

fn write_string_lit(b: Builder, s: &StringLiteral) -> (r: Builder)
    requires
        b.wf(),
    ensures
        r.wf(),
        r@ == ser_string_lit(*s, b@),
{
    match s {
        StringLiteral::Double(t) => write_str(b.put("{Double = "), t).put(",}"),
    }
}

fn write_origin(b: Builder, o: &DestructureOrigin) -> (r: Builder)
    requires
        b.wf(),
    ensures
        r.wf(),
        r@ == ser_origin(*o, b@),
{
    match o {
        DestructureOrigin::Tuple => b.put("\"Tuple\""),
        DestructureOrigin::Array => b.put("\"Array\""),
        DestructureOrigin::Table => b.put("\"Table\""),
    }
}

#[verifier::loop_isolation(false)]
fn write_identifiers(b: Builder, v: &Vec<Identifier>) -> (r: Builder)
    requires
        b.wf(),
    ensures
        r.wf(),
        r@ == ser_identifiers(v@, b@),
    decreases v@,
{
    let mut acc = b;
    let n = v.len();
    let mut i: usize = 0;
    proof {
        assert(v@.skip(0) =~= v@);
    }
    while i < n
        invariant
            acc.wf(),
            0 <= i <= n,
            ser_identifiers(v@, b@) == ser_identifiers(v@.skip(i as int), acc@),
        decreases n - i,
    {
        proof {
            assert(v@.skip(i as int)[0] == v@[i as int]);
            assert(v@.skip(i as int).skip(1) =~= v@.skip(i as int + 1));
        }
        acc = write_identifier(acc, &v[i]).put(",");
        i = i + 1;
    }
    proof {
        assert(v@.skip(n as int).len() == 0);
    }
    acc
}

fn write_destructuring(b: Builder, d: &Destructuring) -> (r: Builder)
    requires
        b.wf(),
    ensures
        r.wf(),
        r@ == ser_destructuring(*d, b@),
    decreases *d,
{
    write_origin(write_identifiers(b.put("{{"), &d.0).put("},"), &d.1).put(",}")
}

fn write_target(b: Builder, t: &AssignmentTarget) -> (r: Builder)
    requires
        b.wf(),
    ensures
        r.wf(),
        r@ == ser_target(*t, b@),
    decreases *t,
{
    match t {
        AssignmentTarget::Destructuring(d) => write_destructuring(
            b.put("{Destructuring = "),
            d,
        ).put(",}"),
        AssignmentTarget::Identifier(i) => write_identifier(b.put("{Identifier = "), i).put(",}"),
    }
}

#[verifier::loop_isolation(false)]
fn write_exprs(b: Builder, v: &Vec<Expression>) -> (r: Builder)
    requires
        b.wf(),
    ensures
        r.wf(),
        r@ == ser_exprs(v@, b@),
    decreases v@,
{
    let mut acc = b;
    let n = v.len();
    let mut i: usize = 0;
    proof {
        assert(v@.skip(0) =~= v@);
    }
    while i < n
        invariant
            acc.wf(),
            0 <= i <= n,
            ser_exprs(v@, b@) == ser_exprs(v@.skip(i as int), acc@),
        decreases n - i,
    {
        proof {
            assert(v@.skip(i as int)[0] == v@[i as int]);
            assert(v@.skip(i as int).skip(1) =~= v@.skip(i as int + 1));
        }
        acc = write_expr(acc, &v[i]).put(",");
        i = i + 1;
    }
    proof {
        assert(v@.skip(n as int).len() == 0);
    }
    acc
}

#[verifier::loop_isolation(false)]
fn write_stmts(b: Builder, v: &Vec<Statement>) -> (r: Builder)
    requires
        b.wf(),
    ensures
        r.wf(),
        r@ == ser_stmts(v@, b@),
    decreases v@,
{
    let mut acc = b;
    let n = v.len();
    let mut i: usize = 0;
    proof {
        assert(v@.skip(0) =~= v@);
    }
    while i < n
        invariant
            acc.wf(),
            0 <= i <= n,
            ser_stmts(v@, b@) == ser_stmts(v@.skip(i as int), acc@),
        decreases n - i,
    {
        proof {
            assert(v@.skip(i as int)[0] == v@[i as int]);
            assert(v@.skip(i as int).skip(1) =~= v@.skip(i as int + 1));
        }
        acc = write_stmt(acc, &v[i]).put(",");
        i = i + 1;
    }
    proof {
        assert(v@.skip(n as int).len() == 0);
    }
    acc
}

fn write_script(b: Builder, s: &Script) -> (r: Builder)
    requires
        b.wf(),
    ensures
        r.wf(),
        r@ == ser_script(*s, b@),
    decreases *s,
{
    write_stmts(b.put("{statements = {"), &s.statements).put("},}")
}

#[verifier::loop_isolation(false)]
fn write_decorators(b: Builder, v: &Vec<Decorator>) -> (r: Builder)
    requires
        b.wf(),
    ensures
        r.wf(),
        r@ == ser_decorators(v@, b@),
    decreases v@,
{
    let mut acc = b;
    let n = v.len();
    let mut i: usize = 0;
    proof {
        assert(v@.skip(0) =~= v@);
    }
    while i < n
        invariant
            acc.wf(),
            0 <= i <= n,
            ser_decorators(v@, b@) == ser_decorators(v@.skip(i as int), acc@),
        decreases n - i,
    {
        proof {
            assert(v@.skip(i as int)[0] == v@[i as int]);
            assert(v@.skip(i as int).skip(1) =~= v@.skip(i as int + 1));
        }
        acc = write_decorator(acc, &v[i]).put(",");
        i = i + 1;
    }
    proof {
        assert(v@.skip(n as int).len() == 0);
    }
    acc
}

fn write_decorator(b: Builder, d: &Decorator) -> (r: Builder)
    requires
        b.wf(),
    ensures
        r.wf(),
        r@ == ser_decorator(*d, b@),
    decreases *d,
{
    write_call(b.put("{target = "), &d.target).put(",}")
}

#[verifier::loop_isolation(false)]
fn write_args(b: Builder, v: &Vec<Argument>) -> (r: Builder)
    requires
        b.wf(),
    ensures
        r.wf(),
        r@ == ser_args(v@, b@),
    decreases v@,
{
    let mut acc = b;
    let n = v.len();
    let mut i: usize = 0;
    proof {
        assert(v@.skip(0) =~= v@);
    }
    while i < n
        invariant
            acc.wf(),
            0 <= i <= n,
            ser_args(v@, b@) == ser_args(v@.skip(i as int), acc@),
        decreases n - i,
    {
        proof {
            assert(v@.skip(i as int)[0] == v@[i as int]);
            assert(v@.skip(i as int).skip(1) =~= v@.skip(i as int + 1));
        }
        acc = write_argument(acc, &v[i]).put(",");
        i = i + 1;
    }
    proof {
        assert(v@.skip(n as int).len() == 0);
    }
    acc
}

fn write_argument(b: Builder, a: &Argument) -> (r: Builder)
    requires
        b.wf(),
    ensures
        r.wf(),
        r@ == ser_argument(*a, b@),
    decreases *a,
{
    write_decorators(
        write_identifier(b.put("{name = "), &a.name).put(",decorators = {"),
        &a.decorators,
    ).put("},}")
}

#[verifier::loop_isolation(false)]
fn write_natives(b: Builder, v: &Vec<(Identifier, StringLiteral)>) -> (r: Builder)
    requires
        b.wf(),
    ensures
        r.wf(),
        r@ == ser_natives(v@, b@),
    decreases v@,
{
    let mut acc = b;
    let n = v.len();
    let mut i: usize = 0;
    proof {
        assert(v@.skip(0) =~= v@);
    }
    while i < n
        invariant
            acc.wf(),
            0 <= i <= n,
            ser_natives(v@, b@) == ser_natives(v@.skip(i as int), acc@),
        decreases n - i,
    {
        proof {
            assert(v@.skip(i as int)[0] == v@[i as int]);
            assert(v@.skip(i as int).skip(1) =~= v@.skip(i as int + 1));
        }
        acc = write_string_lit(write_identifier(acc.put("{"), &v[i].0).put(","), &v[i].1).put(
            ",},",
        );
        i = i + 1;
    }
    proof {
        assert(v@.skip(n as int).len() == 0);
    }
    acc
}

fn write_function(b: Builder, f: &Function) -> (r: Builder)
    requires
        b.wf(),
    ensures
        r.wf(),
        r@ == ser_function(*f, b@),
    decreases *f,
{
    let b1 = write_identifier(b.put("{name = "), &f.name).put(",arguments = {");
    let b2 = write_args(b1, &f.arguments).put("},decorators = {");
    let b3 = write_decorators(b2, &f.decorators).put("},body = ");
    let b4 = write_script(b3, &f.body).put(",native = ");
    let b5 = match &f.native {
        Some(es) => write_natives(b4.put("{"), es).put("}"),
        None => b4.put("nil"),
    };
    b5.put(",}")
}

fn write_lambda(b: Builder, l: &Lambda) -> (r: Builder)
    requires
        b.wf(),
    ensures
        r.wf(),
        r@ == ser_lambda(*l, b@),
    decreases *l,
{
    let b1 = write_args(b.put("{arguments = {"), &l.arguments).put("},body = ");
    let b2 = match &l.body {
        ScriptOrExpression::Script(s) => write_script(b1.put("{Script = "), s).put(",}"),
        ScriptOrExpression::Expression(e) => write_expr(b1.put("{Expression = "), e).put(",}"),
    };
    b2.put(",}")
}

fn write_segment(b: Builder, s: &MemberSegment) -> (r: Builder)
    requires
        b.wf(),
    ensures
        r.wf(),
        r@ == ser_segment(*s, b@),
    decreases *s,
{
    match s {
        MemberSegment::Computed(e) => write_expr(b.put("{Computed = "), e).put(",}"),
        MemberSegment::IdentifierDynamic(i) => write_identifier(
            b.put("{IdentifierDynamic = "),
            i,
        ).put(",}"),
        MemberSegment::IdentifierStatic(i) => write_identifier(
            b.put("{IdentifierStatic = "),
            i,
        ).put(",}"),
    }
}

#[verifier::loop_isolation(false)]
fn write_segments(b: Builder, v: &Vec<MemberSegment>) -> (r: Builder)
    requires
        b.wf(),
    ensures
        r.wf(),
        r@ == ser_segments(v@, b@),
    decreases v@,
{
    let mut acc = b;
    let n = v.len();
    let mut i: usize = 0;
    proof {
        assert(v@.skip(0) =~= v@);
    }
    while i < n
        invariant
            acc.wf(),
            0 <= i <= n,
            ser_segments(v@, b@) == ser_segments(v@.skip(i as int), acc@),
        decreases n - i,
    {
        proof {
            assert(v@.skip(i as int)[0] == v@[i as int]);
            assert(v@.skip(i as int).skip(1) =~= v@.skip(i as int + 1));
        }
        acc = write_segment(acc, &v[i]).put(",");
        i = i + 1;
    }
    proof {
        assert(v@.skip(n as int).len() == 0);
    }
    acc
}

fn write_member(b: Builder, m: &MemberExpression) -> (r: Builder)
    requires
        b.wf(),
    ensures
        r.wf(),
        r@ == ser_member(*m, b@),
    decreases *m,
{
    write_segments(write_expr(b.put("{head = "), &m.head).put(",tail = {"), &m.tail).put("},}")
}

fn write_call_sub(b: Builder, c: &CallSubExpression) -> (r: Builder)
    requires
        b.wf(),
    ensures
        r.wf(),
        r@ == ser_call_sub(*c, b@),
    decreases *c,
{
    let b1 = match &c.callee {
        Some(m) => write_member(b.put("{callee = "), m),
        None => b.put("{callee = nil"),
    };
    write_exprs(b1.put(",arguments = {"), &c.arguments).put("},}")
}

fn write_call_variant(b: Builder, v: &CallExpressionVariant) -> (r: Builder)
    requires
        b.wf(),
    ensures
        r.wf(),
        r@ == ser_call_variant(*v, b@),
    decreases *v,
{
    match v {
        CallExpressionVariant::Call(c) => write_call_sub(b.put("{Call = "), c).put(",}"),
        CallExpressionVariant::Member(m) => write_segment(b.put("{Member = "), m).put(",}"),
    }
}

#[verifier::loop_isolation(false)]
fn write_call_variants(b: Builder, v: &Vec<CallExpressionVariant>) -> (r: Builder)
    requires
        b.wf(),
    ensures
        r.wf(),
        r@ == ser_call_variants(v@, b@),
    decreases v@,
{
    let mut acc = b;
    let n = v.len();
    let mut i: usize = 0;
    proof {
        assert(v@.skip(0) =~= v@);
    }
    while i < n
        invariant
            acc.wf(),
            0 <= i <= n,
            ser_call_variants(v@, b@) == ser_call_variants(v@.skip(i as int), acc@),
        decreases n - i,
    {
        proof {
            assert(v@.skip(i as int)[0] == v@[i as int]);
            assert(v@.skip(i as int).skip(1) =~= v@.skip(i as int + 1));
        }
        acc = write_call_variant(acc, &v[i]).put(",");
        i = i + 1;
    }
    proof {
        assert(v@.skip(n as int).len() == 0);
    }
    acc
}

fn write_call(b: Builder, c: &CallExpression) -> (r: Builder)
    requires
        b.wf(),
    ensures
        r.wf(),
        r@ == ser_call(*c, b@),
    decreases *c,
{
    write_call_variants(write_call_sub(b.put("{head = "), &c.head).put(",tail = {"), &c.tail).put(
        "},}",
    )
}

fn write_kv(b: Builder, kv: &(TableKeyExpression, Option<Expression>)) -> (r: Builder)
    requires
        b.wf(),
    ensures
        r.wf(),
        r@ == ser_kv(*kv, b@),
    decreases *kv,
{
    let b1 = match &kv.0 {
        TableKeyExpression::Identifier(i) => write_identifier(b.put("{{Identifier = "), i).put(
            ",}",
        ),
        TableKeyExpression::Expression(e) => write_expr(b.put("{{Expression = "), e).put(",}"),
        TableKeyExpression::Implicit(i) => write_identifier(b.put("{{Implicit = "), i).put(",}"),
    };
    let b2 = match &kv.1 {
        Some(e) => write_expr(b1.put(","), e),
        None => b1.put(",nil"),
    };
    b2.put(",}")
}

#[verifier::loop_isolation(false)]
fn write_kvs(b: Builder, v: &Vec<(TableKeyExpression, Option<Expression>)>) -> (r: Builder)
    requires
        b.wf(),
    ensures
        r.wf(),
        r@ == ser_kvs(v@, b@),
    decreases v@,
{
    let mut acc = b;
    let n = v.len();
    let mut i: usize = 0;
    proof {
        assert(v@.skip(0) =~= v@);
    }
    while i < n
        invariant
            acc.wf(),
            0 <= i <= n,
            ser_kvs(v@, b@) == ser_kvs(v@.skip(i as int), acc@),
        decreases n - i,
    {
        proof {
            assert(v@.skip(i as int)[0] == v@[i as int]);
            assert(v@.skip(i as int).skip(1) =~= v@.skip(i as int + 1));
        }
        acc = write_kv(acc, &v[i]).put(",");
        i = i + 1;
    }
    proof {
        assert(v@.skip(n as int).len() == 0);
    }
    acc
}

fn write_table(b: Builder, t: &Table) -> (r: Builder)
    requires
        b.wf(),
    ensures
        r.wf(),
        r@ == ser_table(*t, b@),
    decreases *t,
{
    write_kvs(b.put("{key_values = {"), &t.key_values).put("},}")
}

fn write_branch(b: Builder, br: &(Expression, Script)) -> (r: Builder)
    requires
        b.wf(),
    ensures
        r.wf(),
        r@ == ser_branch(*br, b@),
    decreases *br,
{
    write_script(write_expr(b.put("{"), &br.0).put(","), &br.1).put(",}")
}

#[verifier::loop_isolation(false)]
fn write_branches(b: Builder, v: &Vec<(Expression, Script)>) -> (r: Builder)
    requires
        b.wf(),
    ensures
        r.wf(),
        r@ == ser_branches(v@, b@),
    decreases v@,
{
    let mut acc = b;
    let n = v.len();
    let mut i: usize = 0;
    proof {
        assert(v@.skip(0) =~= v@);
    }
    while i < n
        invariant
            acc.wf(),
            0 <= i <= n,
            ser_branches(v@, b@) == ser_branches(v@.skip(i as int), acc@),
        decreases n - i,
    {
        proof {
            assert(v@.skip(i as int)[0] == v@[i as int]);
            assert(v@.skip(i as int).skip(1) =~= v@.skip(i as int + 1));
        }
        acc = write_branch(acc, &v[i]).put(",");
        i = i + 1;
    }
    proof {
        assert(v@.skip(n as int).len() == 0);
    }
    acc
}

fn write_match_branch(b: Builder, br: &(Expression, ScriptOrExpression)) -> (r: Builder)
    requires
        b.wf(),
    ensures
        r.wf(),
        r@ == ser_match_branch(*br, b@),
    decreases *br,
{
    let b1 = write_expr(b.put("{"), &br.0).put(",");
    let b2 = match &br.1 {
        ScriptOrExpression::Script(s) => write_script(b1.put("{Script = "), s).put(",}"),
        ScriptOrExpression::Expression(e) => write_expr(b1.put("{Expression = "), e).put(",}"),
    };
    b2.put(",}")
}

#[verifier::loop_isolation(false)]
fn write_match_branches(b: Builder, v: &Vec<(Expression, ScriptOrExpression)>) -> (r: Builder)
    requires
        b.wf(),
    ensures
        r.wf(),
        r@ == ser_match_branches(v@, b@),
    decreases v@,
{
    let mut acc = b;
    let n = v.len();
    let mut i: usize = 0;
    proof {
        assert(v@.skip(0) =~= v@);
    }
    while i < n
        invariant
            acc.wf(),
            0 <= i <= n,
            ser_match_branches(v@, b@) == ser_match_branches(v@.skip(i as int), acc@),
        decreases n - i,
    {
        proof {
            assert(v@.skip(i as int)[0] == v@[i as int]);
            assert(v@.skip(i as int).skip(1) =~= v@.skip(i as int + 1));
        }
        acc = write_match_branch(acc, &v[i]).put(",");
        i = i + 1;
    }
    proof {
        assert(v@.skip(n as int).len() == 0);
    }
    acc
}

fn write_class_field(b: Builder, f: &ClassField) -> (r: Builder)
    requires
        b.wf(),
    ensures
        r.wf(),
        r@ == ser_class_field(*f, b@),
    decreases *f,
{
    match f {
        ClassField::Method(m) => write_function(b.put("{Method = "), m).put(",}"),
        ClassField::Let(l) => write_let(b.put("{Let = "), l).put(",}"),
    }
}

#[verifier::loop_isolation(false)]
fn write_class_fields(b: Builder, v: &Vec<ClassField>) -> (r: Builder)
    requires
        b.wf(),
    ensures
        r.wf(),
        r@ == ser_class_fields(v@, b@),
    decreases v@,
{
    let mut acc = b;
    let n = v.len();
    let mut i: usize = 0;
    proof {
        assert(v@.skip(0) =~= v@);
    }
    while i < n
        invariant
            acc.wf(),
            0 <= i <= n,
            ser_class_fields(v@, b@) == ser_class_fields(v@.skip(i as int), acc@),
        decreases n - i,
    {
        proof {
            assert(v@.skip(i as int)[0] == v@[i as int]);
            assert(v@.skip(i as int).skip(1) =~= v@.skip(i as int + 1));
        }
        acc = write_class_field(acc, &v[i]).put(",");
        i = i + 1;
    }
    proof {
        assert(v@.skip(n as int).len() == 0);
    }
    acc
}

fn write_class(b: Builder, c: &Class) -> (r: Builder)
    requires
        b.wf(),
    ensures
        r.wf(),
        r@ == ser_class(*c, b@),
    decreases *c,
{
    let b1 = write_identifier(b.put("{name = "), &c.name).put(",decorators = {");
    let b2 = write_decorators(b1, &c.decorators).put("},fields = {");
    write_class_fields(b2, &c.fields).put("},}")
}

fn write_let(b: Builder, l: &Let) -> (r: Builder)
    requires
        b.wf(),
    ensures
        r.wf(),
        r@ == ser_let(*l, b@),
    decreases *l,
{
    let b1 = write_target(b.put("{target = "), &l.target).put(",value = ");
    let b2 = match &l.value {
        Some(e) => write_expr(b1, e),
        None => b1.put("nil"),
    };
    b2.put(",}")
}

fn write_assignment(b: Builder, a: &Assignment) -> (r: Builder)
    requires
        b.wf(),
    ensures
        r.wf(),
        r@ == ser_assignment(*a, b@),
    decreases *a,
{
    let b1 = write_member(b.put("{target = "), &a.target).put(",value = ");
    let b2 = write_expr(b1, &a.value).put(",extra = ");
    let b3 = match &a.extra {
        Some(o) => write_operator(b2, o),
        None => b2.put("nil"),
    };
    b3.put(",}")
}

fn write_invocation(b: Builder, m: &IdentifierOrCall) -> (r: Builder)
    requires
        b.wf(),
    ensures
        r.wf(),
        r@ == ser_invocation(*m, b@),
    decreases *m,
{
    write_exprs(
        write_identifier(b.put("{target = "), &m.target).put(",arguments = {"),
        &m.arguments,
    ).put("},}")
}

#[verifier::loop_isolation(false)]
fn write_invocations(b: Builder, v: &Vec<IdentifierOrCall>) -> (r: Builder)
    requires
        b.wf(),
    ensures
        r.wf(),
        r@ == ser_invocations(v@, b@),
    decreases v@,
{
    let mut acc = b;
    let n = v.len();
    let mut i: usize = 0;
    proof {
        assert(v@.skip(0) =~= v@);
    }
    while i < n
        invariant
            acc.wf(),
            0 <= i <= n,
            ser_invocations(v@, b@) == ser_invocations(v@.skip(i as int), acc@),
        decreases n - i,
    {
        proof {
            assert(v@.skip(i as int)[0] == v@[i as int]);
            assert(v@.skip(i as int).skip(1) =~= v@.skip(i as int + 1));
        }
        acc = write_invocation(acc, &v[i]).put(",");
        i = i + 1;
    }
    proof {
        assert(v@.skip(n as int).len() == 0);
    }
    acc
}

fn write_macro_decorator(b: Builder, d: &MacroDecorator) -> (r: Builder)
    requires
        b.wf(),
    ensures
        r.wf(),
        r@ == ser_macro_decorator(*d, b@),
    decreases *d,
{
    write_stmt(
        write_invocations(b.put("{macros = {"), &d.macros).put("},target = "),
        &d.target,
    ).put(",}")
}

fn write_expr(b: Builder, e: &Expression) -> (r: Builder)
    requires
        b.wf(),
    ensures
        r.wf(),
        r@ == ser_expr(*e, b@),
    decreases *e,
{
    match e {
        Expression::Lambda(l) => write_lambda(b.put("{Lambda = "), l).put(",}"),
        Expression::Reference(m) => write_member(b.put("{Reference = "), m).put(",}"),
        Expression::Identifier(i) => write_identifier(b.put("{Identifier = "), i).put(",}"),
        Expression::Call(c) => write_call(b.put("{Call = "), c).put(",}"),
        Expression::Tuple(t) => write_exprs(b.put("{Tuple = {"), &t.0).put("},}"),
        Expression::Tuple1(inner) => write_expr(b.put("{Tuple1 = "), inner).put(",}"),
        Expression::Table(t) => write_table(b.put("{Table = "), t).put(",}"),
        Expression::Do(d) => write_script(b.put("{Do = {body = "), &d.body).put(",},}"),
        Expression::Use(i) => write_identifier(b.put("{Use = "), i).put(",}"),
        Expression::Vector(v) => write_exprs(
            b.put("{Vector = {expressions = {"),
            &v.expressions,
        ).put("},},}"),
        Expression::Number(n) => write_number(b.put("{Number = "), n).put(",}"),
        Expression::String(s) => write_string_lit(b.put("{String = "), s).put(",}"),
        Expression::Binary(x) => {
            let b1 = write_expr(b.put("{Binary = {left = "), &x.left).put(",right = ");
            let b2 = write_expr(b1, &x.right).put(",operator = ");
            write_operator(b2, &x.operator).put(",},}")
        },
        Expression::Unary(x) => {
            let b1 = write_expr(b.put("{Unary = {expression = "), &x.expression).put(
                ",operator = ",
            );
            write_operator(b1, &x.operator).put(",},}")
        },
        Expression::Unit => b.put("\"Unit\""),
    }
}

fn write_stmt(b: Builder, s: &Statement) -> (r: Builder)
    requires
        b.wf(),
    ensures
        r.wf(),
        r@ == ser_stmt(*s, b@),
    decreases *s,
{
    match s {
        Statement::MacroDecorator(d) => write_macro_decorator(b.put("{MacroDecorator = "), d).put(
            ",}",
        ),
        Statement::If(x) => {
            let b1 = write_expr(b.put("{If = {condition = "), &x.condition).put(",body = ");
            let b2 = write_script(b1, &x.body).put(",branches = {");
            let b3 = write_branches(b2, &x.branches).put("},else_branch = ");
            let b4 = match &x.else_branch {
                Some(eb) => write_script(b3, eb),
                None => b3.put("nil"),
            };
            b4.put(",},}")
        },
        Statement::Match(x) => {
            let b1 = write_expr(b.put("{Match = {target = "), &x.target).put(",branches = {");
            write_match_branches(b1, &x.branches).put("},},}")
        },
        Statement::For(x) => {
            let b1 = write_target(b.put("{For = {handler = "), &x.handler).put(",target = ");
            let b2 = write_expr(b1, &x.target).put(",body = ");
            write_script(b2, &x.body).put(",},}")
        },
        Statement::Loop(x) => write_script(b.put("{Loop = {body = "), &x.body).put(",},}"),
        Statement::While(x) => {
            let b1 = match &x.condition {
                ExpressionOrLet::Expression(e) => write_expr(
                    b.put("{While = {condition = {Expression = "),
                    e,
                ).put(",}"),
                ExpressionOrLet::Let(l) => write_let(
                    b.put("{While = {condition = {Let = "),
                    l,
                ).put(",}"),
            };
            write_script(b1.put(",body = "), &x.body).put(",},}")
        },
        Statement::Return(x) => write_expr(b.put("{Return = {value = "), &x.value).put(",},}"),
        Statement::Class(x) => write_class(b.put("{Class = "), x).put(",}"),
        Statement::Function(x) => write_function(b.put("{Function = "), x).put(",}"),
        Statement::MacroDeclare(x) => write_function(b.put("{MacroDeclare = "), x).put(",}"),
        Statement::Assignment(x) => write_assignment(b.put("{Assignment = "), x).put(",}"),
        Statement::Let(x) => write_let(b.put("{Let = "), x).put(",}"),
        Statement::Expression(x) => write_expr(b.put("{Expression = "), x).put(",}"),
        Statement::Use(i) => write_identifier(b.put("{Use = "), i).put(",}"),
    }
}

/// The serialized form of one statement, as standalone text: the table
/// literal a macro invocation receives as its sole argument.
pub fn serialize_statement(ast: &Statement) -> (r: String)
    ensures
        r@ == ser_stmt(*ast, BuilderModel { text: Seq::empty(), depth: 0, ind: Seq::empty() }).text,
{
    let b = Builder::new(String::new());
    write_stmt(b, ast).collect()
}

} // verus!
