//! The rendering semantics of the code generation engine.
//!
//! Every visit operation of the emitter is specified here by a spec
//! function over the [`BuilderModel`]: given a node and the accumulator
//! model, it gives the exact accumulator the visit returns, or the exact
//! error it fails with.  The executable emitter in [`crate::visitor`]
//! proves that it returns precisely these values.

use vstd::prelude::*;

use crate::ast::{
    Argument, Assignment, BinaryExpression, CallExpression, CallExpressionVariant,
    CallSubExpression, Class, ClassField, Decorator, DestructureOrigin, Destructuring, Do,
    Expression, ExpressionOrLet, For, Function, Identifier, If, Lambda, Let, Loop,
    MemberExpression, MemberSegment, Number, Return, Script, ScriptOrExpression, Statement,
    StringLiteral, Table, TableKeyExpression, Tuple, UnaryExpression, Vector, While,
    AssignmentTarget,
};
use crate::builder::BuilderModel;
use crate::helpers::{all_symbols_mapped, dec_int, dec_nat, escaped, operator_words};

verus! {

/// How a visit fails.  Every failure is fatal for the current
/// compilation; no partial output is ever handed out.
#[derive(Debug, Clone, Copy, PartialEq, Eq, Structural)]
pub enum VisitError {
    /// A reference whose first segment is computed or indexed: there is
    /// no left operand to index into, so the input is rejected.
    ComputedFirstSegment,
    /// A static member segment in a position where only dynamic access
    /// is possible.
    BadStaticIdentifierPosition,
    /// A node missing a part the translation needs: a value-less
    /// binding, an empty destructuring pattern, a destructured class
    /// field.
    MalformedNode,
    /// An operator spelling with a character outside the naming table.
    UnsupportedOperator,
    /// A node kind with no translation rule: pattern matching, or a
    /// macro form that survived expansion.
    UnsupportedNode,
}

/// Relates what a visit returned to what the rendering semantics say:
/// on success the accumulator is well formed and models the specified
/// value, on failure the error is the specified one.
pub open spec fn mirrors(
    r: Result<crate::builder::Builder, VisitError>,
    m: Result<BuilderModel, VisitError>,
) -> bool {
    match r {
        Ok(b) => b.wf() && m == Ok::<BuilderModel, VisitError>(b@),
        Err(e) => m == Err::<BuilderModel, VisitError>(e),
    }
}

/// Whether a visit left the nesting depth where it found it: every
/// visit operation restores the depth on its success path.
pub open spec fn keeps_depth(
    r: Result<crate::builder::Builder, VisitError>,
    b0: BuilderModel,
) -> bool {
    match r {
        Ok(b) => b@.depth == b0.depth,
        Err(_) => true,
    }
}

/// The keyword of the target language that identifiers must be escaped
/// against when used as member names.
pub open spec fn guarded_member_word() -> Seq<char> {
    "th"@ + "en"@
}

/// The numeral text of a number literal.
pub open spec fn number_text(n: Number) -> Seq<char> {
    match n {
        Number::Float(t) => t@,
        Number::Integer(i) => dec_int(i as int),
    }
}

/// The first native source entry for the Lua target, if any.
pub open spec fn find_native(es: Seq<(Identifier, StringLiteral)>) -> Option<StringLiteral>
    decreases es.len(),
{
    if es.len() == 0 {
        None
    } else if es[0].0.0@ == "Lua"@ {
        Some(es[0].1)
    } else {
        find_native(es.skip(1))
    }
}

/// The binary operator spellings that translate one-to-one to a target
/// operator spelled the same way.
pub open spec fn is_native_binop(op: Seq<char>) -> bool {
    op == "+"@ || op == "-"@ || op == "*"@ || op == "/"@ || op == "%"@ || op == "**"@
        || op == ">"@ || op == ">="@ || op == "<"@ || op == "<="@ || op == "=="@
        || op == "not"@ || op == "and"@ || op == "or"@ || op == "&"@ || op == "|"@
        || op == "<<"@ || op == "<<<"@ || op == ">>"@ || op == ">>>"@
}

// ---------------------------------------------------------------------
// Expressions.
// ---------------------------------------------------------------------

/// Renders one expression.
pub open spec fn render_expr(e: Expression, b: BuilderModel) -> Result<BuilderModel, VisitError>
    decreases e, 0int,
{
    match e {
        Expression::Lambda(l) => render_lambda(*l, b),
        Expression::Reference(m) => render_reference(*m, b),
        Expression::Identifier(i) => Ok(b.put(i.0@)),
        Expression::Call(c) => render_call(*c, b),
        Expression::Tuple(t) => render_tuple(t, b),
        Expression::Tuple1(inner) => render_wrapped(*inner, b),
        Expression::Table(t) => render_table(t, b),
        Expression::Do(d) => render_block_expr(d, b),
        Expression::Use(i) => Ok(b.put("__modules__."@).put(i.0@)),
        Expression::Vector(v) => render_vector(v, b),
        Expression::Number(n) => Ok(b.put(number_text(n))),
        Expression::String(s) => Ok(render_string(s, b)),
        Expression::Binary(x) => render_binary(*x, b),
        Expression::Unary(x) => render_unary(*x, b),
        Expression::Unit => Ok(b.put("nil"@)),
    }
}

/// Renders a string literal, escaping its content.
pub open spec fn render_string(s: StringLiteral, b: BuilderModel) -> BuilderModel {
    match s {
        StringLiteral::Double(t) => b.put("\""@).put(escaped(t@)).put("\""@),
    }
}

/// Renders a parenthesized expression.
pub open spec fn render_wrapped(e: Expression, b: BuilderModel) -> Result<BuilderModel, VisitError>
    decreases e, 1int,
{
    match render_expr(e, b.put("("@)) {
        Ok(b1) => Ok(b1.put(")"@)),
        Err(er) => Err(er),
    }
}

// ---------------------------------------------------------------------
// Parameter lists.  Functions and lambdas unconditionally append a
// trailing variadic parameter.
// ---------------------------------------------------------------------

/// Renders the parameter names after the first, each preceded by a
/// comma.
pub open spec fn render_param_rest(args: Seq<Argument>, b: BuilderModel) -> BuilderModel
    decreases args.len(),
{
    if args.len() == 0 {
        b
    } else {
        render_param_rest(args.skip(1), b.put(", "@).put(args[0].name.0@))
    }
}

/// Renders the declared parameter names, the variadic capture and the
/// closing parenthesis, and enters the body's nesting level.  The caller
/// has already emitted the opening parenthesis.
pub open spec fn render_params_tail(args: Seq<Argument>, b: BuilderModel) -> BuilderModel {
    let b1 = if args.len() == 0 {
        b
    } else {
        render_param_rest(args.skip(1), b.put(args[0].name.0@))
    };
    let b2 = if args.len() > 0 {
        b1.put(", ..."@)
    } else {
        b1.put("..."@)
    };
    b2.put(")"@).push()
}

// ---------------------------------------------------------------------
// Statement sequences.
// ---------------------------------------------------------------------

/// Renders a sequence of statements, each one starting its own line.
pub open spec fn render_stmts(ss: Seq<Statement>, b: BuilderModel) -> Result<
    BuilderModel,
    VisitError,
>
    decreases ss, 1int,
{
    if ss.len() == 0 {
        Ok(b)
    } else {
        match render_stmt(ss[0], b) {
            Ok(b1) => render_stmts(ss.skip(1), b1),
            Err(e) => Err(e),
        }
    }
}

/// Renders a whole block.
pub open spec fn render_block(s: Script, b: BuilderModel) -> Result<BuilderModel, VisitError>
    decreases s, 2int,
{
    render_stmts(s.statements@, b)
}

/// Renders a whole program: the two fixed header comment lines, then
/// the statements.
pub open spec fn render_script(s: Script, b: BuilderModel) -> Result<BuilderModel, VisitError>
    decreases s, 3int,
{
    render_block(
        s,
        b.put("-- Generated by the Saturnus compiler 1.0"@).line().put(
            "-- WARNING! Changes may be discarded at any moment!"@,
        ),
    )
}

/// Renders a function value: parameters, variadic capture, a statement
/// body, and the closing keyword.  Shared by lambdas with block bodies
/// and by class methods.
pub open spec fn render_function_value(
    args: Seq<Argument>,
    body: Seq<Statement>,
    b: BuilderModel,
) -> Result<BuilderModel, VisitError>
    decreases body, 2int,
{
    let b1 = render_params_tail(args, b.put("function("@));
    match render_stmts(body, b1) {
        Ok(b2) => Ok(b2.pop().line().put("end"@)),
        Err(e) => Err(e),
    }
}

/// Renders a lambda.  An expression body becomes a single return
/// statement.
pub open spec fn render_lambda(l: Lambda, b: BuilderModel) -> Result<BuilderModel, VisitError>
    decreases l, 0int,
{
    match l.body {
        ScriptOrExpression::Script(s) => render_function_value(l.arguments@, s.statements@, b),
        ScriptOrExpression::Expression(e) => {
            let b1 = render_params_tail(l.arguments@, b.put("function("@));
            match render_expr(e, b1.line().put("return "@)) {
                Ok(b2) => Ok(b2.put(";"@).pop().line().put("end"@)),
                Err(er) => Err(er),
            }
        },
    }
}

// ---------------------------------------------------------------------
// References.
// ---------------------------------------------------------------------

/// Renders one member segment of a reference chain.
pub open spec fn render_member_segment(seg: MemberSegment, b: BuilderModel) -> Result<
    BuilderModel,
    VisitError,
>
    decreases seg, 1int,
{
    match seg {
        MemberSegment::Computed(e) => match render_expr(e, b.put("["@)) {
            Ok(b1) => Ok(b1.put("]"@)),
            Err(er) => Err(er),
        },
        MemberSegment::IdentifierDynamic(i) => Ok(render_escaped_member(i, b)),
        MemberSegment::IdentifierStatic(_) => Err(VisitError::BadStaticIdentifierPosition),
    }
}

/// Renders a dynamic member access, escaping a member name that
/// collides with a keyword of the target language.
pub open spec fn render_escaped_member(i: Identifier, b: BuilderModel) -> BuilderModel {
    if i.0@ == guarded_member_word() {
        b.put("['"@).put(i.0@).put("']"@)
    } else {
        b.put("."@).put(i.0@)
    }
}

/// Renders the member segments of a reference chain, left to right.
pub open spec fn render_member_segments(segs: Seq<MemberSegment>, b: BuilderModel) -> Result<
    BuilderModel,
    VisitError,
>
    decreases segs, 2int,
{
    if segs.len() == 0 {
        Ok(b)
    } else {
        match render_member_segment(segs[0], b) {
            Ok(b1) => render_member_segments(segs.skip(1), b1),
            Err(e) => Err(e),
        }
    }
}

/// Renders a reference chain.  The first segment must be a plain
/// identifier: a computed or indexed first segment is rejected,
/// whatever follows it, since there is no left operand to index into.
pub open spec fn render_reference(m: MemberExpression, b: BuilderModel) -> Result<
    BuilderModel,
    VisitError,
>
    decreases m, 3int,
{
    match m.head {
        Expression::Identifier(i) => render_member_segments(m.tail@, b.put(i.0@)),
        _ => Err(VisitError::ComputedFirstSegment),
    }
}

// ---------------------------------------------------------------------
// Calls.
// ---------------------------------------------------------------------

/// Renders the argument expressions after the first, each preceded by a
/// comma.
pub open spec fn render_args_rest(args: Seq<Expression>, b: BuilderModel) -> Result<
    BuilderModel,
    VisitError,
>
    decreases args, 1int,
{
    if args.len() == 0 {
        Ok(b)
    } else {
        match render_expr(args[0], b.put(", "@)) {
            Ok(b1) => render_args_rest(args.skip(1), b1),
            Err(e) => Err(e),
        }
    }
}

/// Renders a parenthesized, comma-separated argument list.
pub open spec fn render_args(args: Seq<Expression>, b: BuilderModel) -> Result<
    BuilderModel,
    VisitError,
>
    decreases args, 2int,
{
    if args.len() == 0 {
        Ok(b.put("("@).put(")"@))
    } else {
        match render_expr(args[0], b.put("("@)) {
            Ok(b1) => match render_args_rest(args.skip(1), b1) {
                Ok(b2) => Ok(b2.put(")"@)),
                Err(e) => Err(e),
            },
            Err(e) => Err(e),
        }
    }
}

/// Renders the callee segments standing before the final access, left
/// to right, always with dot or bracket syntax.
pub open spec fn render_callee_mid(segs: Seq<MemberSegment>, b: BuilderModel) -> Result<
    BuilderModel,
    VisitError,
>
    decreases segs, 2int,
{
    if segs.len() == 0 {
        Ok(b)
    } else {
        let step = match segs[0] {
            MemberSegment::Computed(e) => match render_expr(e, b.put("["@)) {
                Ok(b1) => Ok(b1.put("]"@)),
                Err(er) => Err(er),
            },
            MemberSegment::IdentifierDynamic(i) => Ok(b.put("."@).put(i.0@)),
            MemberSegment::IdentifierStatic(_) => Err(VisitError::BadStaticIdentifierPosition),
        };
        match step {
            Ok(b1) => render_callee_mid(segs.skip(1), b1),
            Err(e) => Err(e),
        }
    }
}

/// Renders the final access segment of a callee: an implicit-receiver
/// colon call for a dynamic identifier, a dot call for a static one.
pub open spec fn render_callee_last(seg: MemberSegment, b: BuilderModel) -> Result<
    BuilderModel,
    VisitError,
>
    decreases seg, 1int,
{
    match seg {
        MemberSegment::Computed(e) => match render_expr(e, b.put("["@)) {
            Ok(b1) => Ok(b1.put("]"@)),
            Err(er) => Err(er),
        },
        MemberSegment::IdentifierDynamic(i) => Ok(b.put(":"@).put(i.0@)),
        MemberSegment::IdentifierStatic(i) => Ok(b.put("."@).put(i.0@)),
    }
}

/// Renders a whole callee chain: its head expression, the segments
/// before the final access, and the final access segment.
pub open spec fn render_callee(callee: MemberExpression, b: BuilderModel) -> Result<
    BuilderModel,
    VisitError,
>
    decreases callee, 4int,
{
    match render_expr(callee.head, b) {
        Ok(b1) => {
            let n = callee.tail@.len() as int;
            if n == 0 {
                Ok(b1)
            } else {
                match render_callee_mid(callee.tail@.subrange(0, n - 1), b1) {
                    Ok(b2) => render_callee_last(callee.tail@[n - 1], b2),
                    Err(e) => Err(e),
                }
            }
        },
        Err(e) => Err(e),
    }
}

/// Renders one call head: the callee chain, then the argument list.
pub open spec fn render_call_head(h: CallSubExpression, b: BuilderModel) -> Result<
    BuilderModel,
    VisitError,
>
    decreases h, 5int,
{
    let headed = match h.callee {
        Some(callee) => render_callee(callee, b),
        None => Ok(b),
    };
    match headed {
        Ok(b1) => render_args(h.arguments@, b1),
        Err(e) => Err(e),
    }
}

/// Renders the trailing variants of a call expression, left to right.
pub open spec fn render_call_tail(tail: Seq<CallExpressionVariant>, b: BuilderModel) -> Result<
    BuilderModel,
    VisitError,
>
    decreases tail, 4int,
{
    if tail.len() == 0 {
        Ok(b)
    } else {
        let step = match tail[0] {
            CallExpressionVariant::Call(sub) => render_call_head(sub, b),
            CallExpressionVariant::Member(m) => match m {
                MemberSegment::Computed(e) => match render_expr(e, b.put("["@)) {
                    Ok(b1) => Ok(b1.put("]"@)),
                    Err(er) => Err(er),
                },
                MemberSegment::IdentifierStatic(i) => Ok(b.put("."@).put(i.0@)),
                MemberSegment::IdentifierDynamic(i) => Ok(b.put(":"@).put(i.0@)),
            },
        };
        match step {
            Ok(b1) => render_call_tail(tail.skip(1), b1),
            Err(e) => Err(e),
        }
    }
}

/// Renders a call expression.
pub open spec fn render_call(c: CallExpression, b: BuilderModel) -> Result<BuilderModel, VisitError>
    decreases c, 5int,
{
    match render_call_head(c.head, b) {
        Ok(b1) => render_call_tail(c.tail@, b1),
        Err(e) => Err(e),
    }
}

// ---------------------------------------------------------------------
// Composite literals.
// ---------------------------------------------------------------------

/// Renders the tuple elements after the first, each with its slot name.
pub open spec fn render_tuple_rest(es: Seq<Expression>, k: nat, b: BuilderModel) -> Result<
    BuilderModel,
    VisitError,
>
    decreases es, 1int,
{
    if es.len() == 0 {
        Ok(b)
    } else {
        match render_expr(es[0], b.put(", _"@).put(dec_nat(k)).put(" = "@)) {
            Ok(b1) => render_tuple_rest(es.skip(1), k + 1, b1),
            Err(e) => Err(e),
        }
    }
}

/// Renders a tuple as a table with numbered slots.
pub open spec fn render_tuple(t: Tuple, b: BuilderModel) -> Result<BuilderModel, VisitError>
    decreases t, 2int,
{
    if t.0@.len() == 0 {
        Ok(b.put("{"@).put("}"@))
    } else {
        match render_expr(t.0@[0], b.put("{"@).put("_0 = "@)) {
            Ok(b1) => match render_tuple_rest(t.0@.skip(1), 1, b1) {
                Ok(b2) => Ok(b2.put("}"@)),
                Err(e) => Err(e),
            },
            Err(e) => Err(e),
        }
    }
}

/// Renders one table entry.
pub open spec fn render_table_kv(
    kv: (TableKeyExpression, Option<Expression>),
    b: BuilderModel,
) -> Result<BuilderModel, VisitError>
    decreases kv, 1int,
{
    match kv.0 {
        TableKeyExpression::Identifier(k) => match kv.1 {
            Some(v) => render_expr(v, b.put(k.0@).put(" = "@)),
            None => Err(VisitError::MalformedNode),
        },
        TableKeyExpression::Expression(k) => match kv.1 {
            Some(v) => match render_expr(k, b.put("["@)) {
                Ok(b1) => render_expr(v, b1.put("] = "@)),
                Err(e) => Err(e),
            },
            None => Err(VisitError::MalformedNode),
        },
        TableKeyExpression::Implicit(k) => Ok(b.put(k.0@).put(" = "@).put(k.0@)),
    }
}

/// Renders the table entries after the first, each preceded by a comma.
pub open spec fn render_table_rest(
    kvs: Seq<(TableKeyExpression, Option<Expression>)>,
    b: BuilderModel,
) -> Result<BuilderModel, VisitError>
    decreases kvs, 2int,
{
    if kvs.len() == 0 {
        Ok(b)
    } else {
        match render_table_kv(kvs[0], b.put(", "@)) {
            Ok(b1) => render_table_rest(kvs.skip(1), b1),
            Err(e) => Err(e),
        }
    }
}

/// Renders a table literal.
pub open spec fn render_table(t: Table, b: BuilderModel) -> Result<BuilderModel, VisitError>
    decreases t, 3int,
{
    if t.key_values@.len() == 0 {
        Ok(b.put("{"@).put("}"@))
    } else {
        match render_table_kv(t.key_values@[0], b.put("{"@)) {
            Ok(b1) => match render_table_rest(t.key_values@.skip(1), b1) {
                Ok(b2) => Ok(b2.put("}"@)),
                Err(e) => Err(e),
            },
            Err(e) => Err(e),
        }
    }
}

/// Renders the vector elements after the first, each preceded by a
/// comma.
pub open spec fn render_vector_rest(es: Seq<Expression>, b: BuilderModel) -> Result<
    BuilderModel,
    VisitError,
>
    decreases es, 1int,
{
    if es.len() == 0 {
        Ok(b)
    } else {
        match render_expr(es[0], b.put(", "@)) {
            Ok(b1) => render_vector_rest(es.skip(1), b1),
            Err(e) => Err(e),
        }
    }
}

/// Renders a vector literal.
pub open spec fn render_vector(v: Vector, b: BuilderModel) -> Result<BuilderModel, VisitError>
    decreases v, 2int,
{
    if v.expressions@.len() == 0 {
        Ok(b.put("{"@).put("}"@))
    } else {
        match render_expr(v.expressions@[0], b.put("{"@)) {
            Ok(b1) => match render_vector_rest(v.expressions@.skip(1), b1) {
                Ok(b2) => Ok(b2.put("}"@)),
                Err(e) => Err(e),
            },
            Err(e) => Err(e),
        }
    }
}

/// Renders a block expression: an immediately invoked function value
/// forwarding the variadic environment.
pub open spec fn render_block_expr(d: Do, b: BuilderModel) -> Result<BuilderModel, VisitError>
    decreases d, 1int,
{
    match render_stmts(d.body.statements@, b.put("(function(...)"@).push()) {
        Ok(b1) => Ok(b1.pop().line().put("end)(...)"@)),
        Err(e) => Err(e),
    }
}

// ---------------------------------------------------------------------
// Operators.
// ---------------------------------------------------------------------

/// Renders the synthesized callee name of an overloaded operator, or
/// rejects a spelling with an unmapped character.
pub open spec fn render_operator_name(op: Seq<char>, b: BuilderModel) -> Result<
    BuilderModel,
    VisitError,
> {
    if all_symbols_mapped(op) {
        Ok(b.put("__saturnus_operator_"@).put(operator_words(op)))
    } else {
        Err(VisitError::UnsupportedOperator)
    }
}

/// Renders a binary operator application.  The two synthetic operators
/// expand to their target idioms; native spellings pass through; every
/// other spelling becomes a call of the operator's synthesized function
/// name.
pub open spec fn render_binary(x: BinaryExpression, b: BuilderModel) -> Result<
    BuilderModel,
    VisitError,
>
    decreases x, 1int,
{
    let op = x.operator.0@;
    if op == "??"@ {
        match render_expr(x.left, b) {
            Ok(b1) => match render_expr(x.right, b1.put(" == nil and "@)) {
                Ok(b2) => render_expr(x.left, b2.put(" or "@)),
                Err(e) => Err(e),
            },
            Err(e) => Err(e),
        }
    } else if op == "?:"@ {
        match render_expr(x.left, b) {
            Ok(b1) => render_expr(x.right, b1.put(" or "@)),
            Err(e) => Err(e),
        }
    } else if is_native_binop(op) {
        match render_expr(x.left, b) {
            Ok(b1) => render_expr(x.right, b1.put(" "@).put(op).put(" "@)),
            Err(e) => Err(e),
        }
    } else if op == "++"@ {
        match render_expr(x.left, b) {
            Ok(b1) => render_expr(x.right, b1.put(" "@).put(".."@).put(" "@)),
            Err(e) => Err(e),
        }
    } else if op == "<>"@ {
        match render_expr(x.left, b) {
            Ok(b1) => render_expr(x.right, b1.put(" "@).put("~="@).put(" "@)),
            Err(e) => Err(e),
        }
    } else {
        match render_operator_name(op, b) {
            Ok(b1) => match render_expr(x.left, b1.put("("@)) {
                Ok(b2) => match render_expr(x.right, b2.put(", "@)) {
                    Ok(b3) => Ok(b3.put(")"@)),
                    Err(e) => Err(e),
                },
                Err(e) => Err(e),
            },
            Err(e) => Err(e),
        }
    }
}

/// Renders a unary operator application.
pub open spec fn render_unary(x: UnaryExpression, b: BuilderModel) -> Result<
    BuilderModel,
    VisitError,
>
    decreases x, 1int,
{
    let op = x.operator.0@;
    if op == "-"@ {
        render_expr(x.expression, b.put("-"@))
    } else if op == "not"@ {
        render_expr(x.expression, b.put("not "@))
    } else if op == "#?"@ {
        render_expr(x.expression, b.put("#"@))
    } else {
        Err(VisitError::UnsupportedOperator)
    }
}

// ---------------------------------------------------------------------
// Statements.
// ---------------------------------------------------------------------

/// Renders one statement.
pub open spec fn render_stmt(s: Statement, b: BuilderModel) -> Result<BuilderModel, VisitError>
    decreases s, 0int,
{
    match s {
        Statement::MacroDecorator(_) => Err(VisitError::UnsupportedNode),
        Statement::If(x) => render_if(x, b),
        Statement::Match(_) => Err(VisitError::UnsupportedNode),
        Statement::For(x) => render_for(x, b),
        Statement::Loop(x) => render_loop(x, b),
        Statement::While(x) => render_while(x, b),
        Statement::Return(x) => render_return(x, b),
        Statement::Class(x) => render_class(x, b),
        Statement::Function(x) => render_fn(x, b),
        Statement::MacroDeclare(_) => Err(VisitError::UnsupportedNode),
        Statement::Assignment(x) => render_assignment(x, b),
        Statement::Let(x) => render_declaration(x, b),
        Statement::Expression(x) => match render_expr(x, b.line()) {
            Ok(b1) => Ok(b1.put(";"@)),
            Err(e) => Err(e),
        },
        Statement::Use(i) => Ok(
            b.line().put("local "@).put(i.0@).put(" = __modules__."@).put(i.0@).put(";"@),
        ),
    }
}

/// Renders a return statement.
pub open spec fn render_return(r: Return, b: BuilderModel) -> Result<BuilderModel, VisitError>
    decreases r, 1int,
{
    match render_expr(r.value, b.line().put("return "@)) {
        Ok(b1) => Ok(b1.put(";"@)),
        Err(e) => Err(e),
    }
}

/// Renders an if statement with its else-if chain and else branch.
pub open spec fn render_elseifs(brs: Seq<(Expression, Script)>, b: BuilderModel) -> Result<
    BuilderModel,
    VisitError,
>
    decreases brs, 2int,
{
    if brs.len() == 0 {
        Ok(b)
    } else {
        match render_expr(brs[0].0, b.pop().line().put("elseif "@)) {
            Ok(b1) => match render_stmts(brs[0].1.statements@, b1.put(" th"@).put("en"@).push()) {
                Ok(b2) => render_elseifs(brs.skip(1), b2),
                Err(e) => Err(e),
            },
            Err(e) => Err(e),
        }
    }
}

/// Renders an if statement.
pub open spec fn render_if(x: If, b: BuilderModel) -> Result<BuilderModel, VisitError>
    decreases x, 3int,
{
    match render_expr(x.condition, b.line().put("if "@)) {
        Ok(b1) => match render_stmts(x.body.statements@, b1.put(" th"@).put("en"@).push()) {
            Ok(b2) => match render_elseifs(x.branches@, b2) {
                Ok(b3) => {
                    let b4r = match x.else_branch {
                        Some(eb) => render_stmts(eb.statements@, b3.pop().line().put("else"@).push()),
                        None => Ok(b3),
                    };
                    match b4r {
                        Ok(b4) => Ok(b4.pop().line().put("end"@)),
                        Err(e) => Err(e),
                    }
                },
                Err(e) => Err(e),
            },
            Err(e) => Err(e),
        },
        Err(e) => Err(e),
    }
}

/// Renders the assignments binding each destructured name out of the
/// synthesized temporary, by position or by field name.
pub open spec fn render_destructured_names(
    names: Seq<Identifier>,
    origin: DestructureOrigin,
    k: nat,
    b: BuilderModel,
) -> BuilderModel
    decreases names.len(),
{
    if names.len() == 0 {
        b
    } else {
        let b1 = match origin {
            DestructureOrigin::Tuple => b.line().put(names[0].0@).put(" = __destructure__"@).put(
                "._"@,
            ).put(dec_nat(k)).put(";"@),
            DestructureOrigin::Array => b.line().put(names[0].0@).put(" = __destructure__"@).put(
                "["@,
            ).put(dec_nat(k)).put("]"@).put(";"@),
            DestructureOrigin::Table => b.line().put(names[0].0@).put(" = __destructure__."@).put(
                names[0].0@,
            ).put(";"@),
        };
        render_destructured_names(names.skip(1), origin, k + 1, b1)
    }
}

/// Renders a whole destructured assignment out of the temporary.
pub open spec fn render_destructured(d: Destructuring, b: BuilderModel) -> BuilderModel {
    render_destructured_names(d.0@, d.1, 0, b)
}

/// Renders the names of a destructuring declaration after the first,
/// each preceded by a comma.
pub open spec fn render_name_rest(names: Seq<Identifier>, b: BuilderModel) -> BuilderModel
    decreases names.len(),
{
    if names.len() == 0 {
        b
    } else {
        render_name_rest(names.skip(1), b.put(", "@).put(names[0].0@))
    }
}

/// Renders a let declaration.  A destructuring declaration declares
/// every name, then binds each out of a synthesized temporary inside a
/// fresh scope.
pub open spec fn render_declaration(l: Let, b: BuilderModel) -> Result<BuilderModel, VisitError>
    decreases l, 2int,
{
    match l.target {
        AssignmentTarget::Destructuring(d) => {
            if d.0@.len() == 0 {
                Err(VisitError::MalformedNode)
            } else {
                match l.value {
                    Some(v) => {
                        let b1 = render_name_rest(
                            d.0@.skip(1),
                            b.line().put("local "@).put(d.0@[0].0@),
                        );
                        let b2 = b1.put(";"@).line().put("do"@).push().line().put(
                            "local __destructure__ = "@,
                        );
                        match render_expr(v, b2) {
                            Ok(b3) => Ok(
                                render_destructured(d, b3.put(";"@)).pop().line().put("end"@),
                            ),
                            Err(e) => Err(e),
                        }
                    },
                    None => Err(VisitError::MalformedNode),
                }
            }
        },
        AssignmentTarget::Identifier(i) => match l.value {
            Some(v) => match render_expr(v, b.line().put("local "@).put(i.0@).put(" = "@)) {
                Ok(b1) => Ok(b1.put(";"@)),
                Err(e) => Err(e),
            },
            None => Err(VisitError::MalformedNode),
        },
    }
}

/// Renders an assignment.  The target chain is pre-rendered in an empty
/// sibling accumulator; a compound assignment expands to the operator
/// applied to the target and the value.
pub open spec fn render_assignment(a: Assignment, b: BuilderModel) -> Result<
    BuilderModel,
    VisitError,
>
    decreases a, 4int,
{
    match render_reference(a.target, b.sibling()) {
        Err(e) => Err(e),
        Ok(pre) => {
            let b1 = b.line().put(pre.text).put(" = "@);
            match a.extra {
                None => match render_expr(a.value, b1) {
                    Ok(b2) => Ok(b2.put(";"@)),
                    Err(e) => Err(e),
                },
                Some(extra) => {
                    let op = extra.0@;
                    let appr: Result<BuilderModel, VisitError> = if op == "??"@ {
                        match render_reference(a.target, b1) {
                            Ok(b2) => match render_expr(a.value, b2.put(" == nil and "@)) {
                                Ok(b3) => render_reference(a.target, b3.put(" or "@)),
                                Err(e) => Err(e),
                            },
                            Err(e) => Err(e),
                        }
                    } else if op == "?:"@ {
                        match render_reference(a.target, b1) {
                            Ok(b2) => render_expr(a.value, b2.put(" or "@)),
                            Err(e) => Err(e),
                        }
                    } else if is_native_binop(op) {
                        match render_reference(a.target, b1) {
                            Ok(b2) => render_expr(a.value, b2.put(" "@).put(op).put(" "@)),
                            Err(e) => Err(e),
                        }
                    } else if op == "++"@ {
                        match render_reference(a.target, b1) {
                            Ok(b2) => render_expr(a.value, b2.put(" "@).put(".."@).put(" "@)),
                            Err(e) => Err(e),
                        }
                    } else if op == "<>"@ {
                        match render_reference(a.target, b1) {
                            Ok(b2) => render_expr(a.value, b2.put(" "@).put("~="@).put(" "@)),
                            Err(e) => Err(e),
                        }
                    } else {
                        match render_operator_name(op, b1) {
                            Ok(b2) => match render_reference(a.target, b2.put("("@)) {
                                Ok(b3) => match render_expr(a.value, b3.put(", "@)) {
                                    Ok(b4) => Ok(b4.put(")"@)),
                                    Err(e) => Err(e),
                                },
                                Err(e) => Err(e),
                            },
                            Err(e) => Err(e),
                        }
                    };
                    match appr {
                        Ok(b5) => Ok(b5.put(";"@)),
                        Err(e) => Err(e),
                    }
                },
            }
        },
    }
}

/// Renders a for statement.  A destructuring handler binds through the
/// synthesized temporary at the top of the body.
pub open spec fn render_for(f: For, b: BuilderModel) -> Result<BuilderModel, VisitError>
    decreases f, 1int,
{
    match f.handler {
        AssignmentTarget::Destructuring(d) => {
            match render_expr(f.target, b.line().put("for __destructure__ in "@)) {
                Ok(b1) => {
                    let b2 = render_destructured(d, b1.put(" do"@).push());
                    match render_stmts(f.body.statements@, b2) {
                        Ok(b3) => Ok(b3.pop().line().put("end"@)),
                        Err(e) => Err(e),
                    }
                },
                Err(e) => Err(e),
            }
        },
        AssignmentTarget::Identifier(i) => {
            match render_expr(f.target, b.line().put("for "@).put(i.0@).put(" in "@)) {
                Ok(b1) => match render_stmts(f.body.statements@, b1.put(" do"@).push()) {
                    Ok(b2) => Ok(b2.pop().line().put("end"@)),
                    Err(e) => Err(e),
                },
                Err(e) => Err(e),
            }
        },
    }
}

/// Renders a while statement.  A while-let lowers to a wrapping scope
/// that declares the binding once, loops while it is truthy, and
/// reassigns it at the end of each iteration.
pub open spec fn render_while(w: While, b: BuilderModel) -> Result<BuilderModel, VisitError>
    decreases w, 3int,
{
    match w.condition {
        ExpressionOrLet::Expression(e) => match render_expr(e, b.line().put("while "@)) {
            Ok(b1) => match render_stmts(w.body.statements@, b1.put(" do"@).push()) {
                Ok(b2) => Ok(b2.pop().line().put("end"@)),
                Err(e2) => Err(e2),
            },
            Err(e2) => Err(e2),
        },
        ExpressionOrLet::Let(l) => match l.target {
            AssignmentTarget::Identifier(i) => match render_declaration(
                l,
                b.line().put("do"@).push(),
            ) {
                Ok(b1) => {
                    let b2 = b1.line().put("while "@).put(i.0@).put(" do"@).push();
                    match render_stmts(w.body.statements@, b2) {
                        Ok(b3) => {
                            match l.value {
                                Some(v) => match render_expr(
                                    v,
                                    b3.line().put(i.0@).put(" = "@),
                                ) {
                                    Ok(b4) => Ok(
                                        b4.put(";"@).pop().line().put("end"@).pop().line().put(
                                            "end"@,
                                        ),
                                    ),
                                    Err(e2) => Err(e2),
                                },
                                None => Err(VisitError::MalformedNode),
                            }
                        },
                        Err(e2) => Err(e2),
                    }
                },
                Err(e2) => Err(e2),
            },
            AssignmentTarget::Destructuring(_) => Err(VisitError::UnsupportedNode),
        },
    }
}

/// Renders a loop statement as an unconditional while.
pub open spec fn render_loop(lp: Loop, b: BuilderModel) -> Result<BuilderModel, VisitError>
    decreases lp, 1int,
{
    match render_stmts(lp.body.statements@, b.line().put("while true do"@).push()) {
        Ok(b1) => Ok(b1.pop().line().put("end"@)),
        Err(e) => Err(e),
    }
}

// ---------------------------------------------------------------------
// Functions and classes.
// ---------------------------------------------------------------------

/// Renders one decorator call that follows a function or class
/// declaration: the decorator expression called with the declared
/// value and its name.
pub open spec fn render_decorator_call(name: Seq<char>, dec: Decorator, b: BuilderModel) -> Result<
    BuilderModel,
    VisitError,
>
    decreases dec, 5int,
{
    match render_call(dec.target, b.line()) {
        Ok(b1) => Ok(b1.put("("@).put(name).put(", \""@).put(name).put("\");"@)),
        Err(e) => Err(e),
    }
}

/// Renders the decorator calls that follow a function or class
/// declaration, in listed order.
pub open spec fn render_decorator_calls(
    name: Seq<char>,
    decs: Seq<Decorator>,
    b: BuilderModel,
) -> Result<BuilderModel, VisitError>
    decreases decs, 6int,
{
    if decs.len() == 0 {
        Ok(b)
    } else {
        match render_decorator_call(name, decs[0], b) {
            Ok(b1) => render_decorator_calls(name, decs.skip(1), b1),
            Err(e) => Err(e),
        }
    }
}

/// Renders a function declaration, its native body if one is marked,
/// and its decorator calls.
pub open spec fn render_fn(f: Function, b: BuilderModel) -> Result<BuilderModel, VisitError>
    decreases f, 2int,
{
    let b1 = render_params_tail(
        f.arguments@,
        b.line().put("local function "@).put(f.name.0@).put("("@),
    );
    let bodyr: Result<BuilderModel, VisitError> = match f.native {
        Some(native) => {
            let b2 = b1.line().put("-- NATIVE CODE"@);
            let b3 = match find_native(native@) {
                Some(src) => match src {
                    StringLiteral::Double(text) => b2.put(text@),
                },
                None => b2.put("error('Native function implementation not found')"@),
            };
            Ok(b3.line().put("-- NATIVE CODE"@))
        },
        None => render_stmts(f.body.statements@, b1),
    };
    match bodyr {
        Ok(b4) => render_decorator_calls(f.name.0@, f.decorators@, b4.pop().line().put("end"@)),
        Err(e) => Err(e),
    }
}

/// Renders one decorator call of a class method, with the method
/// reference, its name, the class, and the static marker.
pub open spec fn render_method_decorator(
    cls: Seq<char>,
    mname: Seq<char>,
    is_self: bool,
    dec: Decorator,
    b: BuilderModel,
) -> Result<BuilderModel, VisitError>
    decreases dec, 5int,
{
    match render_call(dec.target, b.line()) {
        Ok(b1) => {
            let b2 = if is_self {
                b1.put("("@).put(cls).put(".prototype."@).put(mname)
            } else {
                b1.put("("@).put(cls).put("."@).put(mname)
            };
            Ok(
                b2.put(", \""@).put(mname).put("\", "@).put(cls).put(", \""@).put(cls).put(
                    "\", { is_static = "@,
                ).put(if is_self {
                    "false"@
                } else {
                    "true"@
                }).put(" });"@),
            )
        },
        Err(e) => Err(e),
    }
}

/// Renders the decorator calls of one class method, in listed order.
pub open spec fn render_method_decorators(
    cls: Seq<char>,
    mname: Seq<char>,
    is_self: bool,
    decs: Seq<Decorator>,
    b: BuilderModel,
) -> Result<BuilderModel, VisitError>
    decreases decs, 6int,
{
    if decs.len() == 0 {
        Ok(b)
    } else {
        match render_method_decorator(cls, mname, is_self, decs[0], b) {
            Ok(b1) => render_method_decorators(cls, mname, is_self, decs.skip(1), b1),
            Err(e) => Err(e),
        }
    }
}

/// Whether a method's first parameter is the self reference, which
/// places it on the prototype rather than the class namespace.
pub open spec fn method_is_instance(f: Function) -> bool {
    f.arguments@.len() > 0 && f.arguments@[0].name.0@ == "self"@
}

/// Renders one class field: a method on the prototype or the class
/// namespace, or a prototype value.
pub open spec fn render_class_field(cls: Seq<char>, f: ClassField, b: BuilderModel) -> Result<
    BuilderModel,
    VisitError,
>
    decreases f, 7int,
{
    let b0 = b.line();
    match f {
        ClassField::Method(m) => {
            let is_self = method_is_instance(m);
            let b1 = b0.put(cls).put(if is_self {
                ".prototype."@
            } else {
                "."@
            }).put(m.name.0@).put(" = "@);
            match render_function_value(m.arguments@, m.body.statements@, b1) {
                Ok(b2) => render_method_decorators(
                    cls,
                    m.name.0@,
                    is_self,
                    m.decorators@,
                    b2.put(";"@),
                ),
                Err(e) => Err(e),
            }
        },
        ClassField::Let(l) => match l.target {
            AssignmentTarget::Destructuring(_) => Err(VisitError::MalformedNode),
            AssignmentTarget::Identifier(i) => {
                let b1 = b0.put(cls).put(".prototype."@).put(i.0@).put(" = "@);
                match l.value {
                    Some(v) => match render_expr(v, b1) {
                        Ok(b2) => Ok(b2.put(";"@)),
                        Err(e) => Err(e),
                    },
                    None => Ok(b1.put("nil"@).put(";"@)),
                }
            },
        },
    }
}

/// Renders the fields of a class, in declaration order.
pub open spec fn render_class_fields(
    cls: Seq<char>,
    fields: Seq<ClassField>,
    b: BuilderModel,
) -> Result<BuilderModel, VisitError>
    decreases fields, 8int,
{
    if fields.len() == 0 {
        Ok(b)
    } else {
        match render_class_field(cls, fields[0], b) {
            Ok(b1) => render_class_fields(cls, fields.skip(1), b1),
            Err(e) => Err(e),
        }
    }
}

/// The fixed preamble of a class: the class table, the metatable making
/// it callable as a constructor, and the prototype table whose
/// metatable indexes instances.
pub open spec fn render_class_header(cls: Seq<char>, b: BuilderModel) -> BuilderModel {
    b.line().put("local "@).put(cls).put(" = {};"@)
        .line().put(cls).put(".__meta__ = {};"@)
        .line().put(cls).put(".__meta__.__call = function(self, struct)"@)
        .push().line().put("return setmetatable(struct, self.prototype.__meta__);"@)
        .pop().line().put("end;"@)
        .line().put(cls).put(".prototype = {};"@)
        .line().put(cls).put(".prototype.__meta__ = {};"@)
        .line().put(cls).put(".prototype.__meta__.__index = "@).put(cls).put(".prototype;"@)
        .line().put("setmetatable("@).put(cls).put(", "@).put(cls).put(".__meta__);"@)
}

/// Renders a class declaration: the preamble, the fields, then the
/// class decorator calls.
pub open spec fn render_class(c: Class, b: BuilderModel) -> Result<BuilderModel, VisitError>
    decreases c, 9int,
{
    match render_class_fields(c.name.0@, c.fields@, render_class_header(c.name.0@, b)) {
        Ok(b1) => render_decorator_calls(c.name.0@, c.decorators@, b1),
        Err(e) => Err(e),
    }
}

} // verus!
