//! The code generation engine: an emitter lowering each node of the
//! AST to Lua-like target text through the [`Builder`].
//!
//! Every visit operation returns exactly what the rendering semantics
//! in [`crate::render`] specify, or fails with exactly the specified
//! error; nothing is ever emitted past a failure.

use vstd::prelude::*;

use crate::ast::{
    Argument, Assignment, BinaryExpression, CallExpression, CallExpressionVariant, CallSubExpression, Class, ClassField, Decorator, DestructureOrigin, Destructuring, Do, Expression, ExpressionOrLet, For, Function, Identifier, If, Lambda, Let, Loop, Match, MemberExpression, MemberSegment, Number, Return, Script, ScriptOrExpression, Statement, StringLiteral, Table, TableKeyExpression, Tuple, UnaryExpression, Vector, While, AssignmentTarget,
};
use crate::builder::{Builder, BuilderModel};
use crate::helpers::{escape_string, fmt_i64, fmt_u64, str_eq, symbol_is_mapped,
    translate_operator_symbol};
use crate::render::{
    find_native, is_native_binop, keeps_depth, mirrors, number_text, render_args_rest, render_binary, render_block, render_block_expr, render_call, render_call_head, render_call_tail, render_callee, render_callee_mid, render_class, render_class_field, render_class_fields, render_class_header, render_declaration, render_decorator_call, render_decorator_calls, render_destructured, render_destructured_names, render_elseifs, render_escaped_member, render_expr, render_fn, render_for, render_function_value, render_if, render_lambda, render_loop, render_member_segment, render_member_segments, render_method_decorator, render_method_decorators, render_name_rest, render_operator_name, render_param_rest, render_params_tail, render_reference, render_return, render_script, render_stmt, render_stmts, render_string, render_table, render_table_kv, render_table_rest, render_tuple, render_tuple_rest, render_unary, render_vector, render_vector_rest, render_while, render_wrapped, VisitError,
};
use vstd::string::StrSliceExecFns;
use vstd::string::StringExecFns;

verus! {

/// The Lua backend of the visitor capability set.
pub struct LuaEmitter();

/// Renders the synthesized callee name of an overloaded operator onto
/// the accumulator, or rejects the spelling at its first unmapped
/// character.
pub fn translate_operator(ctx: Builder, op: &String) -> (r: Result<Builder, VisitError>)
    requires
        ctx.wf(),
    ensures
        mirrors(r, render_operator_name(op@, ctx@)),
        crate::render::keeps_depth(r, ctx@),
{
    let ghost c0 = ctx@;
    let mut acc = ctx.put("__saturnus_operator_");
    let len = op.as_str().unicode_len();
    let mut i: usize = 0;
    proof {
        assert(op@.take(0) =~= Seq::<char>::empty());
        assert(acc@.text + crate::helpers::operator_words(op@.take(0)) =~= acc@.text);
    }
    while i < len
        invariant
            ctx.wf(),
            acc.wf(),
            len == op@.len(),
            0 <= i <= len,
            forall|j: int|
                0 <= j < i ==> crate::helpers::is_mapped_symbol(#[trigger] op@[j]),
            acc@ == c0.put("__saturnus_operator_"@).put(
                crate::helpers::operator_words(op@.take(i as int)),
            ),
        decreases len - i,
    {
        let c = op.as_str().get_char(i);
        if !symbol_is_mapped(c) {
            return Err(VisitError::UnsupportedOperator);
        }
        if i > 0 {
            acc = acc.put("_");
        }
        let word = translate_operator_symbol(&(c as u8));
        proof {
            assert(c as u8 as char == c) by {
                assert(crate::helpers::is_mapped_symbol(c));
            };
            let pre = op@.take(i as int + 1);
            assert(pre.drop_last() =~= op@.take(i as int));
            assert(pre.last() == op@[i as int]);
            if i > 0 {
                reveal_strlit("_");
                assert(crate::helpers::operator_words(pre) =~= crate::helpers::operator_words(
                    op@.take(i as int),
                ) + "_"@ + crate::helpers::symbol_word(c));
            }
        }
        acc = acc.put_string(&word);
        proof {
            if i == 0 {
                assert(crate::helpers::operator_words(op@.take(1)) =~= crate::helpers::symbol_word(
                    op@[0],
                ));
            }
            assert(acc@.text =~= c0.put("__saturnus_operator_"@).put(
                crate::helpers::operator_words(op@.take(i as int + 1)),
            ).text);
        }
        i = i + 1;
    }
    proof {
        assert(op@.take(len as int) =~= op@);
        assert(crate::helpers::all_symbols_mapped(op@));
    }
    Ok(acc)
}

impl LuaEmitter {
    pub fn new() -> LuaEmitter {
        LuaEmitter()
    }

    /// Renders a dynamic member access, escaping a member name that
    /// collides with a keyword of the target language.
    pub fn escape_reference(&self, ctx: Builder, ident: &Identifier) -> (r: Result<
        Builder,
        VisitError,
    >)
        requires
            ctx.wf(),
        ensures
            mirrors(r, Ok(render_escaped_member(*ident, ctx@))),
    {
        let guarded: String = "th".to_owned().concat("en");
        if str_eq(ident.0.as_str(), guarded.as_str()) {
            Ok(ctx.put("['").put_string(&ident.0).put("']"))
        } else {
            Ok(ctx.put(".").put_string(&ident.0))
        }
    }

    /// Renders the declared parameter names, the variadic capture and
    /// the closing parenthesis, and enters the body's nesting level.
    /// The caller has already emitted the opening parenthesis.
    #[verifier::loop_isolation(false)]
    fn visit_params_tail(&self, ctx: Builder, args: &Vec<Argument>) -> (r: Builder)
        requires
            ctx.wf(),
        ensures
            r.wf(),
            r@ == render_params_tail(args@, ctx@),
            r@.depth == ctx@.depth + 1,
    {
        let ghost c0 = ctx@;
        let n = args.len();
        let mut acc = ctx;
        if n > 0 {
            acc = acc.put_string(&args[0].name.0);
            let mut i: usize = 1;
            proof {
                assert(args@.skip(1).skip(0) =~= args@.skip(1));
            }
            while i < n
                invariant
                    acc.wf(),
                    1 <= i <= n,
                    n == args@.len(),
                    acc@.depth == c0.depth,
                    render_param_rest(args@.skip(1), c0.put(args@[0].name.0@))
                        == render_param_rest(
                        args@.skip(i as int),
                        acc@,
                    ),
                decreases n - i,
            {
                proof {
                    assert(args@.skip(i as int)[0] == args@[i as int]);
                    assert(args@.skip(i as int).skip(1) =~= args@.skip(i as int + 1));
                }
                acc = acc.put(", ").put_string(&args[i].name.0);
                i = i + 1;
            }
            proof {
                assert(args@.skip(n as int).len() == 0);
            }
            acc = acc.put(", ...");
        } else {
            acc = acc.put("...");
        }
        acc.put(")").push()
    }

    /// Renders the assignments binding each destructured name out of
    /// the synthesized temporary, by position or by field name.
    #[verifier::loop_isolation(false)]
    pub fn generate_destructured_assignment(&self, ctx: Builder, e: &Destructuring) -> (r: Result<
        Builder,
        VisitError,
    >)
        requires
            ctx.wf(),
        ensures
            mirrors(r, Ok(crate::render::render_destructured(*e, ctx@))),
            crate::render::keeps_depth(r, ctx@),
    {
        let ghost c0 = ctx@;
        let n = e.0.len();
        let mut acc = ctx;
        let mut i: usize = 0;
        proof {
            assert(e.0@.skip(0) =~= e.0@);
        }
        while i < n
            invariant
                acc.wf(),
                0 <= i <= n,
                n == e.0@.len(),
                acc@.depth == c0.depth,
                render_destructured_names(e.0@, e.1, 0, c0)
                    == render_destructured_names(e.0@.skip(i as int), e.1, i as nat, acc@),
            decreases n - i,
        {
            proof {
                assert(e.0@.skip(i as int)[0] == e.0@[i as int]);
                assert(e.0@.skip(i as int).skip(1) =~= e.0@.skip(i as int + 1));
            }
            match e.1 {
                DestructureOrigin::Tuple => {
                    let idx = fmt_u64(i as u64);
                    acc = acc.line().put_string(&e.0[i].0).put(" = __destructure__").put(
                        "._",
                    ).put_string(&idx).put(";");
                },
                DestructureOrigin::Array => {
                    let idx = fmt_u64(i as u64);
                    acc = acc.line().put_string(&e.0[i].0).put(" = __destructure__").put(
                        "[",
                    ).put_string(&idx).put("]").put(";");
                },
                DestructureOrigin::Table => {
                    acc = acc.line().put_string(&e.0[i].0).put(" = __destructure__.").put_string(
                        &e.0[i].0,
                    ).put(";");
                },
            }
            i = i + 1;
        }
        proof {
            assert(e.0@.skip(n as int).len() == 0);
        }
        Ok(acc)
    }

    /// Renders a whole program: the two fixed header comment lines,
    /// then the statements.
    pub fn visit_script(&self, ctx: Builder, script: &Script) -> (r: Result<Builder, VisitError>)
        requires
            ctx.wf(),
        ensures
            mirrors(r, render_script(*script, ctx@)),
            keeps_depth(r, ctx@),
        decreases script.statements@, 3int,
    {
        let ctx = ctx.put("-- Generated by the Saturnus compiler 1.0").line().put(
            "-- WARNING! Changes may be discarded at any moment!",
        );
        self.visit_block(ctx, script)
    }

    /// Renders a block of statements, in order.
    #[verifier::loop_isolation(false)]
    pub fn visit_block(&self, ctx: Builder, script: &Script) -> (r: Result<Builder, VisitError>)
        requires
            ctx.wf(),
        ensures
            mirrors(r, render_block(*script, ctx@)),
            keeps_depth(r, ctx@),
        decreases script.statements@, 1int,
    {
        let ghost c0 = ctx@;
        let n = script.statements.len();
        let mut acc = ctx;
        let mut i: usize = 0;
        proof {
            assert(script.statements@.skip(0) =~= script.statements@);
        }
        while i < n
            invariant
                acc.wf(),
                0 <= i <= n,
                n == script.statements@.len(),
                acc@.depth == c0.depth,
                render_stmts(script.statements@, c0) == render_stmts(
                    script.statements@.skip(i as int),
                    acc@,
                ),
            decreases n - i,
        {
            proof {
                assert(script.statements@.skip(i as int)[0] == script.statements@[i as int]);
                assert(script.statements@.skip(i as int).skip(1) =~= script.statements@.skip(
                    i as int + 1,
                ));
            }
            acc = match self.visit_statement(acc, &script.statements[i]) {
                Ok(b) => b,
                Err(e) => {
                    return Err(e);
                },
            };
            i = i + 1;
        }
        proof {
            assert(script.statements@.skip(n as int).len() == 0);
        }
        Ok(acc)
    }

    /// Renders one statement, dispatching on its kind.
    pub fn visit_statement(&self, ctx: Builder, stmt: &Statement) -> (r: Result<
        Builder,
        VisitError,
    >)
        requires
            ctx.wf(),
        ensures
            mirrors(r, render_stmt(*stmt, ctx@)),
            keeps_depth(r, ctx@),
        decreases *stmt, 0int,
    {
        match stmt {
            Statement::MacroDecorator(_) => Err(VisitError::UnsupportedNode),
            Statement::If(x) => self.visit_if(ctx, x),
            Statement::Match(x) => self.visit_match(ctx, x),
            Statement::For(x) => self.visit_for(ctx, x),
            Statement::Loop(x) => self.visit_loop(ctx, x),
            Statement::While(x) => self.visit_while(ctx, x),
            Statement::Return(x) => self.visit_return(ctx, x),
            Statement::Class(x) => self.visit_class(ctx, x),
            Statement::Function(x) => self.visit_fn(ctx, x),
            Statement::MacroDeclare(_) => Err(VisitError::UnsupportedNode),
            Statement::Assignment(x) => self.visit_assignment(ctx, x),
            Statement::Let(x) => self.visit_declaration(ctx, x),
            Statement::Expression(x) => self.visit_expression_statement(ctx, x),
            Statement::Use(i) => self.visit_use_statement(ctx, i),
        }
    }

    /// Renders one expression, dispatching on its kind.
    pub fn visit_expression(&self, ctx: Builder, expr: &Expression) -> (r: Result<
        Builder,
        VisitError,
    >)
        requires
            ctx.wf(),
        ensures
            mirrors(r, render_expr(*expr, ctx@)),
            keeps_depth(r, ctx@),
        decreases *expr, 0int,
    {
        match expr {
            Expression::Lambda(l) => self.visit_lambda(ctx, l),
            Expression::Reference(m) => self.visit_reference(ctx, m),
            Expression::Identifier(i) => self.visit_identifier(ctx, i),
            Expression::Call(c) => self.visit_call(ctx, c),
            Expression::Tuple(t) => self.visit_tuple(ctx, t),
            Expression::Tuple1(inner) => self.visit_wrapped_expression(ctx, inner),
            Expression::Table(t) => self.visit_table(ctx, t),
            Expression::Do(d) => self.visit_block_expression(ctx, d),
            Expression::Use(i) => self.visit_use_expression(ctx, i),
            Expression::Vector(v) => self.visit_vector(ctx, v),
            Expression::Number(n) => self.visit_number(ctx, n),
            Expression::String(s) => self.visit_string(ctx, s),
            Expression::Binary(x) => self.visit_binary(ctx, x),
            Expression::Unary(x) => self.visit_unary(ctx, x),
            Expression::Unit => self.visit_unit(ctx),
        }
    }

    /// Renders a return statement.
    pub fn visit_return(&self, ctx: Builder, stmt: &Return) -> (r: Result<Builder, VisitError>)
        requires
            ctx.wf(),
        ensures
            mirrors(r, render_return(*stmt, ctx@)),
            keeps_depth(r, ctx@),
        decreases *stmt, 1int,
    {
        let ctx = self.visit_expression(ctx.line().put("return "), &stmt.value)?;
        Ok(ctx.put(";"))
    }

    /// Renders a bare expression statement.
    pub fn visit_expression_statement(&self, ctx: Builder, stmt: &Expression) -> (r: Result<
        Builder,
        VisitError,
    >)
        requires
            ctx.wf(),
        ensures
            mirrors(
                r,
                (match render_expr(*stmt, ctx@.line()) {
                    Ok(b1) => Ok(b1.put(";"@)),
                    Err(e) => Err(e),
                }),
            ),
            keeps_depth(r, ctx@),
        decreases *stmt, 1int,
    {
        let ctx = self.visit_expression(ctx.line(), stmt)?;
        Ok(ctx.put(";"))
    }

    /// Renders a module-use statement binding the module table field to
    /// a local name.
    pub fn visit_use_statement(&self, ctx: Builder, expr: &Identifier) -> (r: Result<
        Builder,
        VisitError,
    >)
        requires
            ctx.wf(),
        ensures
            mirrors(
                r,
                Ok(
                    ctx@.line().put("local "@).put(expr.0@).put(" = __modules__."@).put(
                        expr.0@,
                    ).put(";"@),
                ),
            ),
            keeps_depth(r, ctx@),
    {
        Ok(
            ctx.line().put("local ").put_string(&expr.0).put(" = __modules__.").put_string(
                &expr.0,
            ).put(";"),
        )
    }

    /// Renders a module-use expression.
    pub fn visit_use_expression(&self, ctx: Builder, expr: &Identifier) -> (r: Result<
        Builder,
        VisitError,
    >)
        requires
            ctx.wf(),
        ensures
            mirrors(r, Ok(ctx@.put("__modules__."@).put(expr.0@))),
            keeps_depth(r, ctx@),
    {
        Ok(ctx.put("__modules__.").put_string(&expr.0))
    }

    /// Renders an identifier.
    pub fn visit_identifier(&self, ctx: Builder, expr: &Identifier) -> (r: Result<
        Builder,
        VisitError,
    >)
        requires
            ctx.wf(),
        ensures
            mirrors(r, Ok(ctx@.put(expr.0@))),
            keeps_depth(r, ctx@),
    {
        Ok(ctx.put_string(&expr.0))
    }

    /// Renders a number literal.
    pub fn visit_number(&self, ctx: Builder, expr: &Number) -> (r: Result<Builder, VisitError>)
        requires
            ctx.wf(),
        ensures
            mirrors(r, Ok(ctx@.put(number_text(*expr)))),
            keeps_depth(r, ctx@),
    {
        match expr {
            Number::Float(t) => Ok(ctx.put_string(t)),
            Number::Integer(i) => {
                let s = fmt_i64(*i);
                Ok(ctx.put_string(&s))
            },
        }
    }

    /// Renders a string literal, escaping its content.
    pub fn visit_string(&self, ctx: Builder, expr: &StringLiteral) -> (r: Result<
        Builder,
        VisitError,
    >)
        requires
            ctx.wf(),
        ensures
            mirrors(r, Ok(render_string(*expr, ctx@))),
            keeps_depth(r, ctx@),
    {
        match expr {
            StringLiteral::Double(s) => {
                let esc = escape_string(s.clone());
                Ok(ctx.put("\"").put_string(&esc).put("\""))
            },
        }
    }

    /// Renders the unit value.
    pub fn visit_unit(&self, ctx: Builder) -> (r: Result<Builder, VisitError>)
        requires
            ctx.wf(),
        ensures
            mirrors(r, Ok(ctx@.put("nil"@))),
            keeps_depth(r, ctx@),
    {
        Ok(ctx.put("nil"))
    }

    /// Renders a parenthesized expression.
    pub fn visit_wrapped_expression(&self, ctx: Builder, expr: &Expression) -> (r: Result<
        Builder,
        VisitError,
    >)
        requires
            ctx.wf(),
        ensures
            mirrors(r, render_wrapped(*expr, ctx@)),
            keeps_depth(r, ctx@),
        decreases *expr, 1int,
    {
        let ctx = self.visit_expression(ctx.put("("), expr)?;
        Ok(ctx.put(")"))
    }

    /// Renders a block expression: an immediately invoked function
    /// value forwarding the variadic environment.
    pub fn visit_block_expression(&self, ctx: Builder, expr: &Do) -> (r: Result<
        Builder,
        VisitError,
    >)
        requires
            ctx.wf(),
        ensures
            mirrors(r, render_block_expr(*expr, ctx@)),
            keeps_depth(r, ctx@),
        decreases *expr, 0int,
    {
        let ctx = self.visit_block(ctx.put("(function(...)").push(), &expr.body)?;
        Ok(ctx.pop().line().put("end)(...)"))
    }

    /// Renders a lambda.  An expression body becomes a single return
    /// statement.
    pub fn visit_lambda(&self, ctx: Builder, expr: &Lambda) -> (r: Result<Builder, VisitError>)
        requires
            ctx.wf(),
        ensures
            mirrors(r, render_lambda(*expr, ctx@)),
            keeps_depth(r, ctx@),
        decreases *expr, 0int,
    {
        match &expr.body {
            ScriptOrExpression::Script(s) => self.visit_function_value(ctx, &expr.arguments, s),
            ScriptOrExpression::Expression(e) => {
                let b1 = self.visit_params_tail(ctx.put("function("), &expr.arguments);
                let b2 = self.visit_expression(b1.line().put("return "), e)?;
                Ok(b2.put(";").pop().line().put("end"))
            },
        }
    }

    /// Renders a function value: parameters, variadic capture, a
    /// statement body, and the closing keyword.
    fn visit_function_value(&self, ctx: Builder, args: &Vec<Argument>, body: &Script) -> (r:
        Result<Builder, VisitError>)
        requires
            ctx.wf(),
        ensures
            mirrors(r, render_function_value(args@, body.statements@, ctx@)),
            keeps_depth(r, ctx@),
        decreases body.statements@, 2int,
    {
        let b1 = self.visit_params_tail(ctx.put("function("), args);
        let b2 = self.visit_block(b1, body)?;
        Ok(b2.pop().line().put("end"))
    }

    /// Renders a reference chain.  A chain whose first segment is not a
    /// plain identifier is rejected with the structural error, whatever
    /// follows it.
    #[verifier::loop_isolation(false)]
    pub fn visit_reference(&self, ctx: Builder, expr: &MemberExpression) -> (r: Result<
        Builder,
        VisitError,
    >)
        requires
            ctx.wf(),
        ensures
            mirrors(r, render_reference(*expr, ctx@)),
            keeps_depth(r, ctx@),
        decreases *expr, 3int,
    {
        match &expr.head {
            Expression::Identifier(ident) => {
                let mut acc = ctx.put_string(&ident.0);
                let ghost r0 = acc@;
                let n = expr.tail.len();
                let mut i: usize = 0;
                proof {
                    assert(expr.tail@.skip(0) =~= expr.tail@);
                }
                while i < n
                    invariant
                        acc.wf(),
                        0 <= i <= n,
                        n == expr.tail@.len(),
                        acc@.depth == r0.depth,
                        render_member_segments(expr.tail@, r0) == render_member_segments(
                            expr.tail@.skip(i as int),
                            acc@,
                        ),
                    decreases n - i,
                {
                    proof {
                        assert(expr.tail@.skip(i as int)[0] == expr.tail@[i as int]);
                        assert(expr.tail@.skip(i as int).skip(1) =~= expr.tail@.skip(i as int + 1));
                    }
                    acc = match self.generate_member_segment(acc, &expr.tail[i]) {
                        Ok(b) => b,
                        Err(e) => {
                            return Err(e);
                        },
                    };
                    i = i + 1;
                }
                proof {
                    assert(expr.tail@.skip(n as int).len() == 0);
                }
                Ok(acc)
            },
            _ => Err(VisitError::ComputedFirstSegment),
        }
    }

    /// Renders one member segment of a reference chain.
    pub fn generate_member_segment(&self, ctx: Builder, elem: &MemberSegment) -> (r: Result<
        Builder,
        VisitError,
    >)
        requires
            ctx.wf(),
        ensures
            mirrors(r, render_member_segment(*elem, ctx@)),
            keeps_depth(r, ctx@),
        decreases *elem, 1int,
    {
        match elem {
            MemberSegment::Computed(c) => {
                let ctx = self.visit_expression(ctx.put("["), c)?;
                Ok(ctx.put("]"))
            },
            MemberSegment::IdentifierDynamic(i) => self.escape_reference(ctx, i),
            MemberSegment::IdentifierStatic(_) => Err(VisitError::BadStaticIdentifierPosition),
        }
    }

    /// Renders a whole callee chain: its head expression, the segments
    /// before the final access rendered with dot or bracket syntax,
    /// and the re-rendered final access segment with colon syntax for
    /// an implicit receiver or dot syntax for a static call.
    #[verifier::loop_isolation(false)]
    fn visit_callee(&self, ctx: Builder, callee: &MemberExpression) -> (r: Result<
        Builder,
        VisitError,
    >)
        requires
            ctx.wf(),
        ensures
            mirrors(r, crate::render::render_callee(*callee, ctx@)),
            keeps_depth(r, ctx@),
        decreases *callee, 4int,
    {
        let mut acc = match self.visit_expression(ctx, &callee.head) {
            Ok(b) => b,
            Err(e) => {
                return Err(e);
            },
        };
        let n = callee.tail.len();
        if n > 0 {
            let ghost mid = callee.tail@.subrange(0, n as int - 1);
            let ghost m0 = acc@;
            let mut i: usize = 0;
            proof {
                assert(mid.skip(0) =~= mid);
            }
            while i < n - 1
                invariant
                    acc.wf(),
                    0 <= i <= n - 1,
                    n == callee.tail@.len(),
                    n >= 1,
                    mid == callee.tail@.subrange(0, n as int - 1),
                    acc@.depth == m0.depth,
                    render_callee_mid(mid, m0) == render_callee_mid(mid.skip(i as int), acc@),
                decreases n - 1 - i,
            {
                proof {
                    assert(mid.skip(i as int)[0] == callee.tail@[i as int]);
                    assert(mid.skip(i as int).skip(1) =~= mid.skip(i as int + 1));
                }
                match &callee.tail[i] {
                    MemberSegment::Computed(c) => {
                        let t = match self.visit_expression(acc.put("["), c) {
                            Ok(b) => b,
                            Err(e) => {
                                proof {
                                    assert(render_callee_mid(mid.skip(i as int), acc@)
                                        == Err::<BuilderModel, VisitError>(e));
                                }
                                return Err(e);
                            },
                        };
                        acc = t.put("]");
                    },
                    MemberSegment::IdentifierDynamic(c) => {
                        acc = acc.put(".").put_string(&c.0);
                    },
                    MemberSegment::IdentifierStatic(_) => {
                        proof {
                            assert(render_callee_mid(mid.skip(i as int), acc@)
                                == Err::<BuilderModel, VisitError>(
                                VisitError::BadStaticIdentifierPosition,
                            ));
                        }
                        return Err(VisitError::BadStaticIdentifierPosition);
                    },
                }
                i = i + 1;
            }
            proof {
                assert(mid.skip(n as int - 1).len() == 0);
            }
            match &callee.tail[n - 1] {
                MemberSegment::Computed(c) => {
                    let t = match self.visit_expression(acc.put("["), c) {
                        Ok(b) => b,
                        Err(e) => {
                            return Err(e);
                        },
                    };
                    acc = t.put("]");
                },
                MemberSegment::IdentifierDynamic(c) => {
                    acc = acc.put(":").put_string(&c.0);
                },
                MemberSegment::IdentifierStatic(c) => {
                    acc = acc.put(".").put_string(&c.0);
                },
            }
        }
        Ok(acc)
    }

    /// Renders one call head: the callee chain, then the re-rendered
    /// final access segment with colon or dot syntax, then the
    /// argument list.
    #[verifier::loop_isolation(false)]
    fn visit_call_head(&self, ctx: Builder, h: &CallSubExpression) -> (r: Result<
        Builder,
        VisitError,
    >)
        requires
            ctx.wf(),
        ensures
            mirrors(r, render_call_head(*h, ctx@)),
            keeps_depth(r, ctx@),
        decreases *h, 3int,
    {
        let mut acc = ctx;
        match &h.callee {
            Some(callee) => {
                acc = match self.visit_callee(acc, callee) {
                    Ok(b) => b,
                    Err(e) => {
                        return Err(e);
                    },
                };
            },
            None => {},
        }
        let m = h.arguments.len();
        if m == 0 {
            acc = acc.put("(").put(")");
        } else {
            acc = match self.visit_expression(acc.put("("), &h.arguments[0]) {
                Ok(b) => b,
                Err(e) => {
                    return Err(e);
                },
            };
            let ghost a0 = acc@;
            let mut j: usize = 1;
            proof {
                assert(h.arguments@.skip(1).skip(0) =~= h.arguments@.skip(1));
            }
            while j < m
                invariant
                    acc.wf(),
                    1 <= j <= m,
                    m == h.arguments@.len(),
                    acc@.depth == a0.depth,
                    render_args_rest(h.arguments@.skip(1), a0) == render_args_rest(
                        h.arguments@.skip(j as int),
                        acc@,
                    ),
                decreases m - j,
            {
                proof {
                    assert(h.arguments@.skip(j as int)[0] == h.arguments@[j as int]);
                    assert(h.arguments@.skip(j as int).skip(1) =~= h.arguments@.skip(j as int + 1));
                }
                acc = match self.visit_expression(acc.put(", "), &h.arguments[j]) {
                    Ok(b) => b,
                    Err(e) => {
                        return Err(e);
                    },
                };
                j = j + 1;
            }
            proof {
                assert(h.arguments@.skip(m as int).len() == 0);
            }
            acc = acc.put(")");
        }
        Ok(acc)
    }

    /// Renders a call expression: the head, then each trailing member
    /// access or chained call.
    #[verifier::loop_isolation(false)]
    pub fn visit_call(&self, ctx: Builder, expr: &CallExpression) -> (r: Result<
        Builder,
        VisitError,
    >)
        requires
            ctx.wf(),
        ensures
            mirrors(r, render_call(*expr, ctx@)),
            keeps_depth(r, ctx@),
        decreases *expr, 5int,
    {
        let mut acc = self.visit_call_head(ctx, &expr.head)?;
        let ghost t0 = acc@;
        let n = expr.tail.len();
        let mut i: usize = 0;
        proof {
            assert(expr.tail@.skip(0) =~= expr.tail@);
        }
        while i < n
            invariant
                acc.wf(),
                0 <= i <= n,
                n == expr.tail@.len(),
                acc@.depth == t0.depth,
                render_call_tail(expr.tail@, t0) == render_call_tail(
                    expr.tail@.skip(i as int),
                    acc@,
                ),
            decreases n - i,
        {
            proof {
                assert(expr.tail@.skip(i as int)[0] == expr.tail@[i as int]);
                assert(expr.tail@.skip(i as int).skip(1) =~= expr.tail@.skip(i as int + 1));
            }
            match &expr.tail[i] {
                CallExpressionVariant::Call(sub) => {
                    acc = match self.visit_call_head(acc, sub) {
                        Ok(b) => b,
                        Err(e) => {
                            return Err(e);
                        },
                    };
                },
                CallExpressionVariant::Member(m) => match m {
                    MemberSegment::Computed(c) => {
                        let t = match self.visit_expression(acc.put("["), c) {
                            Ok(b) => b,
                            Err(e) => {
                                return Err(e);
                            },
                        };
                        acc = t.put("]");
                    },
                    MemberSegment::IdentifierStatic(i2) => {
                        acc = acc.put(".").put_string(&i2.0);
                    },
                    MemberSegment::IdentifierDynamic(i2) => {
                        acc = acc.put(":").put_string(&i2.0);
                    },
                },
            }
            i = i + 1;
        }
        proof {
            assert(expr.tail@.skip(n as int).len() == 0);
        }
        Ok(acc)
    }

    /// Renders a tuple as a table with numbered slots.
    #[verifier::loop_isolation(false)]
    pub fn visit_tuple(&self, ctx: Builder, expr: &Tuple) -> (r: Result<Builder, VisitError>)
        requires
            ctx.wf(),
        ensures
            mirrors(r, render_tuple(*expr, ctx@)),
            keeps_depth(r, ctx@),
        decreases *expr, 2int,
    {
        let n = expr.0.len();
        if n == 0 {
            return Ok(ctx.put("{").put("}"));
        }
        let mut acc = self.visit_expression(ctx.put("{").put("_0 = "), &expr.0[0])?;
        let ghost a0 = acc@;
        let mut j: usize = 1;
        proof {
            assert(expr.0@.skip(1).skip(0) =~= expr.0@.skip(1));
        }
        while j < n
            invariant
                acc.wf(),
                1 <= j <= n,
                n == expr.0@.len(),
                acc@.depth == a0.depth,
                render_tuple_rest(expr.0@.skip(1), 1, a0) == render_tuple_rest(
                    expr.0@.skip(j as int),
                    j as nat,
                    acc@,
                ),
            decreases n - j,
        {
            proof {
                assert(expr.0@.skip(j as int)[0] == expr.0@[j as int]);
                assert(expr.0@.skip(j as int).skip(1) =~= expr.0@.skip(j as int + 1));
            }
            let idx = fmt_u64(j as u64);
            acc = match self.visit_expression(
                acc.put(", _").put_string(&idx).put(" = "),
                &expr.0[j],
            ) {
                Ok(b) => b,
                Err(e) => {
                    return Err(e);
                },
            };
            j = j + 1;
        }
        proof {
            assert(expr.0@.skip(n as int).len() == 0);
        }
        Ok(acc.put("}"))
    }

    /// Renders one table entry.
    fn visit_table_kv(&self, ctx: Builder, kv: &(TableKeyExpression, Option<Expression>)) -> (r:
        Result<Builder, VisitError>)
        requires
            ctx.wf(),
        ensures
            mirrors(r, render_table_kv(*kv, ctx@)),
            keeps_depth(r, ctx@),
        decreases *kv, 1int,
    {
        match &kv.0 {
            TableKeyExpression::Identifier(k) => match &kv.1 {
                Some(v) => self.visit_expression(ctx.put_string(&k.0).put(" = "), v),
                None => Err(VisitError::MalformedNode),
            },
            TableKeyExpression::Expression(k) => match &kv.1 {
                Some(v) => {
                    let c = self.visit_expression(ctx.put("["), k)?;
                    self.visit_expression(c.put("] = "), v)
                },
                None => Err(VisitError::MalformedNode),
            },
            TableKeyExpression::Implicit(k) => Ok(
                ctx.put_string(&k.0).put(" = ").put_string(&k.0),
            ),
        }
    }

    /// Renders a table literal.
    #[verifier::loop_isolation(false)]
    pub fn visit_table(&self, ctx: Builder, expr: &Table) -> (r: Result<Builder, VisitError>)
        requires
            ctx.wf(),
        ensures
            mirrors(r, render_table(*expr, ctx@)),
            keeps_depth(r, ctx@),
        decreases *expr, 3int,
    {
        let n = expr.key_values.len();
        if n == 0 {
            return Ok(ctx.put("{").put("}"));
        }
        let mut acc = self.visit_table_kv(ctx.put("{"), &expr.key_values[0])?;
        let ghost a0 = acc@;
        let mut j: usize = 1;
        proof {
            assert(expr.key_values@.skip(1).skip(0) =~= expr.key_values@.skip(1));
        }
        while j < n
            invariant
                acc.wf(),
                1 <= j <= n,
                n == expr.key_values@.len(),
                acc@.depth == a0.depth,
                render_table_rest(expr.key_values@.skip(1), a0) == render_table_rest(
                    expr.key_values@.skip(j as int),
                    acc@,
                ),
            decreases n - j,
        {
            proof {
                assert(expr.key_values@.skip(j as int)[0] == expr.key_values@[j as int]);
                assert(expr.key_values@.skip(j as int).skip(1) =~= expr.key_values@.skip(
                    j as int + 1,
                ));
            }
            acc = match self.visit_table_kv(acc.put(", "), &expr.key_values[j]) {
                Ok(b) => b,
                Err(e) => {
                    return Err(e);
                },
            };
            j = j + 1;
        }
        proof {
            assert(expr.key_values@.skip(n as int).len() == 0);
        }
        Ok(acc.put("}"))
    }

    /// Renders a vector literal.
    #[verifier::loop_isolation(false)]
    pub fn visit_vector(&self, ctx: Builder, expr: &Vector) -> (r: Result<Builder, VisitError>)
        requires
            ctx.wf(),
        ensures
            mirrors(r, render_vector(*expr, ctx@)),
            keeps_depth(r, ctx@),
        decreases *expr, 2int,
    {
        let n = expr.expressions.len();
        if n == 0 {
            return Ok(ctx.put("{").put("}"));
        }
        let mut acc = self.visit_expression(ctx.put("{"), &expr.expressions[0])?;
        let ghost a0 = acc@;
        let mut j: usize = 1;
        proof {
            assert(expr.expressions@.skip(1).skip(0) =~= expr.expressions@.skip(1));
        }
        while j < n
            invariant
                acc.wf(),
                1 <= j <= n,
                n == expr.expressions@.len(),
                acc@.depth == a0.depth,
                render_vector_rest(expr.expressions@.skip(1), a0) == render_vector_rest(
                    expr.expressions@.skip(j as int),
                    acc@,
                ),
            decreases n - j,
        {
            proof {
                assert(expr.expressions@.skip(j as int)[0] == expr.expressions@[j as int]);
                assert(expr.expressions@.skip(j as int).skip(1) =~= expr.expressions@.skip(
                    j as int + 1,
                ));
            }
            acc = match self.visit_expression(acc.put(", "), &expr.expressions[j]) {
                Ok(b) => b,
                Err(e) => {
                    proof {
                        assert(render_vector_rest(expr.expressions@.skip(j as int), acc@)
                            == Err::<BuilderModel, VisitError>(e));
                        assert(render_vector(*expr, ctx@) == Err::<BuilderModel, VisitError>(e));
                    }
                    return Err(e);
                },
            };
            j = j + 1;
        }
        proof {
            assert(expr.expressions@.skip(n as int).len() == 0);
        }
        Ok(acc.put("}"))
    }

    /// Renders a binary operator application.
    pub fn visit_binary(&self, ctx: Builder, expr: &BinaryExpression) -> (r: Result<
        Builder,
        VisitError,
    >)
        requires
            ctx.wf(),
        ensures
            mirrors(r, render_binary(*expr, ctx@)),
            keeps_depth(r, ctx@),
        decreases *expr, 1int,
    {
        let op = &expr.operator.0;
        if str_eq(op.as_str(), "??") {
            let ctx = self.visit_expression(ctx, &expr.left)?;
            let ctx = self.visit_expression(ctx.put(" == nil and "), &expr.right)?;
            self.visit_expression(ctx.put(" or "), &expr.left)
        } else if str_eq(op.as_str(), "?:") {
            let ctx = self.visit_expression(ctx, &expr.left)?;
            self.visit_expression(ctx.put(" or "), &expr.right)
        } else if native_binop(op.as_str()) {
            let ctx = self.visit_expression(ctx, &expr.left)?;
            self.visit_expression(ctx.put(" ").put_string(op).put(" "), &expr.right)
        } else if str_eq(op.as_str(), "++") {
            let ctx = self.visit_expression(ctx, &expr.left)?;
            self.visit_expression(ctx.put(" ").put("..").put(" "), &expr.right)
        } else if str_eq(op.as_str(), "<>") {
            let ctx = self.visit_expression(ctx, &expr.left)?;
            self.visit_expression(ctx.put(" ").put("~=").put(" "), &expr.right)
        } else {
            let ctx = translate_operator(ctx, op)?;
            let ctx = self.visit_expression(ctx.put("("), &expr.left)?;
            let ctx = self.visit_expression(ctx.put(", "), &expr.right)?;
            Ok(ctx.put(")"))
        }
    }

    /// Renders a unary operator application.
    pub fn visit_unary(&self, ctx: Builder, expr: &UnaryExpression) -> (r: Result<
        Builder,
        VisitError,
    >)
        requires
            ctx.wf(),
        ensures
            mirrors(r, render_unary(*expr, ctx@)),
            keeps_depth(r, ctx@),
        decreases *expr, 1int,
    {
        let op = &expr.operator.0;
        if str_eq(op.as_str(), "-") {
            self.visit_expression(ctx.put("-"), &expr.expression)
        } else if str_eq(op.as_str(), "not") {
            self.visit_expression(ctx.put("not "), &expr.expression)
        } else if str_eq(op.as_str(), "#?") {
            self.visit_expression(ctx.put("#"), &expr.expression)
        } else {
            Err(VisitError::UnsupportedOperator)
        }
    }

    /// Renders an if statement with its else-if chain and else branch.
    #[verifier::loop_isolation(false)]
    pub fn visit_if(&self, ctx: Builder, expr: &If) -> (r: Result<Builder, VisitError>)
        requires
            ctx.wf(),
        ensures
            mirrors(r, render_if(*expr, ctx@)),
            keeps_depth(r, ctx@),
        decreases *expr, 0int,
    {
        let ghost c0 = ctx@;
        let c1 = self.visit_expression(ctx.line().put("if "), &expr.condition)?;
        let c2 = self.visit_block(c1.put(" th").put("en").push(), &expr.body)?;
        let ghost e0 = c2@;
        let mut acc = c2;
        let n = expr.branches.len();
        let mut i: usize = 0;
        proof {
            assert(expr.branches@.skip(0) =~= expr.branches@);
        }
        while i < n
            invariant
                acc.wf(),
                0 <= i <= n,
                n == expr.branches@.len(),
                acc@.depth == c0.depth + 1,
                e0.depth == c0.depth + 1,
                render_elseifs(expr.branches@, e0) == render_elseifs(
                    expr.branches@.skip(i as int),
                    acc@,
                ),
            decreases n - i,
        {
            proof {
                assert(expr.branches@.skip(i as int)[0] == expr.branches@[i as int]);
                assert(expr.branches@.skip(i as int).skip(1) =~= expr.branches@.skip(i as int + 1));
            }
            let t1 = match self.visit_expression(acc.pop().line().put("elseif "), &expr.branches[i].0)
                {
                Ok(b) => b,
                Err(e) => {
                    return Err(e);
                },
            };
            acc = match self.visit_block(t1.put(" th").put("en").push(), &expr.branches[i].1) {
                Ok(b) => b,
                Err(e) => {
                    return Err(e);
                },
            };
            i = i + 1;
        }
        proof {
            assert(expr.branches@.skip(n as int).len() == 0);
        }
        let b4 = match &expr.else_branch {
            Some(eb) => match self.visit_block(acc.pop().line().put("else").push(), eb) {
                Ok(b) => b,
                Err(e) => {
                    return Err(e);
                },
            },
            None => acc,
        };
        Ok(b4.pop().line().put("end"))
    }

    /// Renders a for statement.
    pub fn visit_for(&self, ctx: Builder, expr: &For) -> (r: Result<Builder, VisitError>)
        requires
            ctx.wf(),
        ensures
            mirrors(r, render_for(*expr, ctx@)),
            keeps_depth(r, ctx@),
        decreases *expr, 0int,
    {
        match &expr.handler {
            AssignmentTarget::Destructuring(d) => {
                let c1 = self.visit_expression(
                    ctx.line().put("for __destructure__ in "),
                    &expr.target,
                )?;
                let c2 = self.generate_destructured_assignment(c1.put(" do").push(), d)?;
                let c3 = self.visit_block(c2, &expr.body)?;
                Ok(c3.pop().line().put("end"))
            },
            AssignmentTarget::Identifier(id) => {
                let c1 = self.visit_expression(
                    ctx.line().put("for ").put_string(&id.0).put(" in "),
                    &expr.target,
                )?;
                let c2 = self.visit_block(c1.put(" do").push(), &expr.body)?;
                Ok(c2.pop().line().put("end"))
            },
        }
    }

    /// Renders a while statement, lowering a while-let to a wrapping
    /// scope that declares, tests and reassigns the binding.
    pub fn visit_while(&self, ctx: Builder, expr: &While) -> (r: Result<Builder, VisitError>)
        requires
            ctx.wf(),
        ensures
            mirrors(r, render_while(*expr, ctx@)),
            keeps_depth(r, ctx@),
        decreases *expr, 0int,
    {
        match &expr.condition {
            ExpressionOrLet::Expression(e) => {
                let c1 = self.visit_expression(ctx.line().put("while "), e)?;
                let c2 = self.visit_block(c1.put(" do").push(), &expr.body)?;
                Ok(c2.pop().line().put("end"))
            },
            ExpressionOrLet::Let(l) => match &l.target {
                AssignmentTarget::Identifier(id) => {
                    let c1 = self.visit_declaration(ctx.line().put("do").push(), l)?;
                    let c2 = self.visit_block(
                        c1.line().put("while ").put_string(&id.0).put(" do").push(),
                        &expr.body,
                    )?;
                    match &l.value {
                        Some(v) => {
                            let c3 = self.visit_expression(
                                c2.line().put_string(&id.0).put(" = "),
                                v,
                            )?;
                            Ok(c3.put(";").pop().line().put("end").pop().line().put("end"))
                        },
                        None => Err(VisitError::MalformedNode),
                    }
                },
                AssignmentTarget::Destructuring(_) => Err(VisitError::UnsupportedNode),
            },
        }
    }

    /// Renders a loop statement as an unconditional while.
    pub fn visit_loop(&self, ctx: Builder, expr: &Loop) -> (r: Result<Builder, VisitError>)
        requires
            ctx.wf(),
        ensures
            mirrors(r, render_loop(*expr, ctx@)),
            keeps_depth(r, ctx@),
        decreases *expr, 0int,
    {
        let ctx = self.visit_block(ctx.line().put("while true do").push(), &expr.body)?;
        Ok(ctx.pop().line().put("end"))
    }

    /// Pattern matching has no translation rule: any attempt fails,
    /// explicitly and fatally for the current compilation.
    pub fn visit_match(&self, ctx: Builder, _expr: &Match) -> (r: Result<Builder, VisitError>)
        requires
            ctx.wf(),
        ensures
            mirrors(r, Err(VisitError::UnsupportedNode)),
            keeps_depth(r, ctx@),
    {
        Err(VisitError::UnsupportedNode)
    }

    /// Renders a let declaration.
    #[verifier::loop_isolation(false)]
    #[verifier::rlimit(60)]
    pub fn visit_declaration(&self, ctx: Builder, stmt: &Let) -> (r: Result<Builder, VisitError>)
        requires
            ctx.wf(),
        ensures
            mirrors(r, render_declaration(*stmt, ctx@)),
            keeps_depth(r, ctx@),
        decreases *stmt, 2int,
    {
        match &stmt.target {
            AssignmentTarget::Destructuring(d) => {
                if d.0.len() == 0 {
                    return Err(VisitError::MalformedNode);
                }
                match &stmt.value {
                    Some(v) => {
                        let mut acc = ctx.line().put("local ").put_string(&d.0[0].0);
                        let ghost d0 = acc@;
                        let n = d.0.len();
                        let mut j: usize = 1;
                        proof {
                            assert(d.0@.skip(1).skip(0) =~= d.0@.skip(1));
                        }
                        while j < n
                            invariant
                                acc.wf(),
                                1 <= j <= n,
                                n == d.0@.len(),
                                acc@.depth == d0.depth,
                                render_name_rest(d.0@.skip(1), d0) == render_name_rest(
                                    d.0@.skip(j as int),
                                    acc@,
                                ),
                            decreases n - j,
                        {
                            proof {
                                assert(d.0@.skip(j as int)[0] == d.0@[j as int]);
                                assert(d.0@.skip(j as int).skip(1) =~= d.0@.skip(j as int + 1));
                            }
                            acc = acc.put(", ").put_string(&d.0[j].0);
                            j = j + 1;
                        }
                        proof {
                            assert(d.0@.skip(n as int).len() == 0);
                        }
                        let acc = acc.put(";").line().put("do").push().line().put(
                            "local __destructure__ = ",
                        );
                        let acc = self.visit_expression(acc, v)?;
                        let acc = self.generate_destructured_assignment(acc.put(";"), d)?;
                        Ok(acc.pop().line().put("end"))
                    },
                    None => Err(VisitError::MalformedNode),
                }
            },
            AssignmentTarget::Identifier(i) => match &stmt.value {
                Some(v) => {
                    let acc = self.visit_expression(
                        ctx.line().put("local ").put_string(&i.0).put(" = "),
                        v,
                    )?;
                    Ok(acc.put(";"))
                },
                None => Err(VisitError::MalformedNode),
            },
        }
    }

    /// Renders an assignment: the pre-rendered target chain, then the
    /// value, a compound assignment expanding to the operator applied
    /// to the target and the value.
    pub fn visit_assignment(&self, ctx: Builder, stmt: &Assignment) -> (r: Result<
        Builder,
        VisitError,
    >)
        requires
            ctx.wf(),
        ensures
            mirrors(r, crate::render::render_assignment(*stmt, ctx@)),
            keeps_depth(r, ctx@),
        decreases *stmt, 4int,
    {
        let pre = self.visit_reference(ctx.clone_like(), &stmt.target)?;
        let segment = pre.collect();
        let acc = ctx.line().put_string(&segment).put(" = ");
        match &stmt.extra {
            None => {
                let acc = self.visit_expression(acc, &stmt.value)?;
                Ok(acc.put(";"))
            },
            Some(extra) => {
                let op = &extra.0;
                let acc = if str_eq(op.as_str(), "??") {
                    let acc = self.visit_reference(acc, &stmt.target)?;
                    let acc = self.visit_expression(acc.put(" == nil and "), &stmt.value)?;
                    self.visit_reference(acc.put(" or "), &stmt.target)?
                } else if str_eq(op.as_str(), "?:") {
                    let acc = self.visit_reference(acc, &stmt.target)?;
                    self.visit_expression(acc.put(" or "), &stmt.value)?
                } else if native_binop(op.as_str()) {
                    let acc = self.visit_reference(acc, &stmt.target)?;
                    self.visit_expression(acc.put(" ").put_string(op).put(" "), &stmt.value)?
                } else if str_eq(op.as_str(), "++") {
                    let acc = self.visit_reference(acc, &stmt.target)?;
                    self.visit_expression(acc.put(" ").put("..").put(" "), &stmt.value)?
                } else if str_eq(op.as_str(), "<>") {
                    let acc = self.visit_reference(acc, &stmt.target)?;
                    self.visit_expression(acc.put(" ").put("~=").put(" "), &stmt.value)?
                } else {
                    let acc = translate_operator(acc, op)?;
                    let acc = self.visit_reference(acc.put("("), &stmt.target)?;
                    let acc = self.visit_expression(acc.put(", "), &stmt.value)?;
                    acc.put(")")
                };
                Ok(acc.put(";"))
            },
        }
    }

    /// Renders one decorator call that follows a function or class
    /// declaration.
    fn visit_decorator_call(&self, ctx: Builder, name: &Identifier, dec: &Decorator) -> (r: Result<
        Builder,
        VisitError,
    >)
        requires
            ctx.wf(),
        ensures
            mirrors(r, render_decorator_call(name.0@, *dec, ctx@)),
            keeps_depth(r, ctx@),
        decreases *dec, 0int,
    {
        let acc = self.visit_call(ctx.line(), &dec.target)?;
        Ok(acc.put("(").put_string(&name.0).put(", \"").put_string(&name.0).put("\");"))
    }

    /// Renders a function declaration, its native body if one is
    /// marked, and its decorator calls.
    #[verifier::loop_isolation(false)]
    pub fn visit_fn(&self, ctx: Builder, stmt: &Function) -> (r: Result<Builder, VisitError>)
        requires
            ctx.wf(),
        ensures
            mirrors(r, render_fn(*stmt, ctx@)),
            keeps_depth(r, ctx@),
        decreases *stmt, 0int,
    {
        let b1 = self.visit_params_tail(
            ctx.line().put("local function ").put_string(&stmt.name.0).put("("),
            &stmt.arguments,
        );
        let b4 = match &stmt.native {
            Some(native) => {
                let b2 = b1.line().put("-- NATIVE CODE");
                let b3 = match find_native_entry(native) {
                    Some(ix) => match &native[ix].1 {
                        StringLiteral::Double(src) => b2.put_string(src),
                    },
                    None => b2.put("error('Native function implementation not found')"),
                };
                b3.line().put("-- NATIVE CODE")
            },
            None => self.visit_block(b1, &stmt.body)?,
        };
        let b5 = b4.pop().line().put("end");
        let ghost f0 = b5@;
        let mut acc = b5;
        let n = stmt.decorators.len();
        let mut i: usize = 0;
        proof {
            assert(stmt.decorators@.skip(0) =~= stmt.decorators@);
        }
        while i < n
            invariant
                acc.wf(),
                0 <= i <= n,
                n == stmt.decorators@.len(),
                acc@.depth == f0.depth,
                render_decorator_calls(stmt.name.0@, stmt.decorators@, f0)
                    == render_decorator_calls(
                    stmt.name.0@,
                    stmt.decorators@.skip(i as int),
                    acc@,
                ),
            decreases n - i,
        {
            proof {
                assert(stmt.decorators@.skip(i as int)[0] == stmt.decorators@[i as int]);
                assert(stmt.decorators@.skip(i as int).skip(1) =~= stmt.decorators@.skip(
                    i as int + 1,
                ));
            }
            acc = match self.visit_decorator_call(acc, &stmt.name, &stmt.decorators[i]) {
                Ok(b) => b,
                Err(e) => {
                    return Err(e);
                },
            };
            i = i + 1;
        }
        proof {
            assert(stmt.decorators@.skip(n as int).len() == 0);
        }
        Ok(acc)
    }

    /// Renders one decorator call of a class method, with its static
    /// or instance metadata.
    fn visit_method_decorator(
        &self,
        ctx: Builder,
        cls: &Identifier,
        mname: &Identifier,
        is_self: bool,
        dec: &Decorator,
    ) -> (r: Result<Builder, VisitError>)
        requires
            ctx.wf(),
        ensures
            mirrors(r, render_method_decorator(cls.0@, mname.0@, is_self, *dec, ctx@)),
            keeps_depth(r, ctx@),
        decreases *dec, 0int,
    {
        let acc = self.visit_call(ctx.line(), &dec.target)?;
        let acc = if is_self {
            acc.put("(").put_string(&cls.0).put(".prototype.").put_string(&mname.0)
        } else {
            acc.put("(").put_string(&cls.0).put(".").put_string(&mname.0)
        };
        let acc = acc.put(", \"").put_string(&mname.0).put("\", ").put_string(&cls.0).put(
            ", \"",
        ).put_string(&cls.0).put("\", { is_static = ").put(
            if is_self {
                "false"
            } else {
                "true"
            },
        ).put(" });");
        Ok(acc)
    }

    /// Renders one class field.
    #[verifier::loop_isolation(false)]
    fn visit_class_field(&self, ctx: Builder, cls: &Identifier, field: &ClassField) -> (r: Result<
        Builder,
        VisitError,
    >)
        requires
            ctx.wf(),
        ensures
            mirrors(r, render_class_field(cls.0@, *field, ctx@)),
            keeps_depth(r, ctx@),
        decreases *field, 0int,
    {
        let acc = ctx.line();
        match field {
            ClassField::Method(m) => {
                let is_self = m.arguments.len() > 0 && str_eq(
                    m.arguments[0].name.0.as_str(),
                    "self",
                );
                let acc = acc.put_string(&cls.0).put(
                    if is_self {
                        ".prototype."
                    } else {
                        "."
                    },
                ).put_string(&m.name.0).put(" = ");
                let acc = self.visit_function_value(acc, &m.arguments, &m.body)?;
                let ghost md0 = acc@.put(";"@);
                let mut acc = acc.put(";");
                let n = m.decorators.len();
                let mut i: usize = 0;
                proof {
                    assert(m.decorators@.skip(0) =~= m.decorators@);
                }
                while i < n
                    invariant
                        acc.wf(),
                        0 <= i <= n,
                        n == m.decorators@.len(),
                        acc@.depth == md0.depth,
                        render_method_decorators(
                            cls.0@,
                            m.name.0@,
                            m.arguments@.len() > 0 && m.arguments@[0].name.0@ == "self"@,
                            m.decorators@,
                            md0,
                        ) == render_method_decorators(
                            cls.0@,
                            m.name.0@,
                            m.arguments@.len() > 0 && m.arguments@[0].name.0@ == "self"@,
                            m.decorators@.skip(i as int),
                            acc@,
                        ),
                    decreases n - i,
                {
                    proof {
                        assert(m.decorators@.skip(i as int)[0] == m.decorators@[i as int]);
                        assert(m.decorators@.skip(i as int).skip(1) =~= m.decorators@.skip(
                            i as int + 1,
                        ));
                    }
                    acc = match self.visit_method_decorator(
                        acc,
                        cls,
                        &m.name,
                        is_self,
                        &m.decorators[i],
                    ) {
                        Ok(b) => b,
                        Err(e) => {
                            return Err(e);
                        },
                    };
                    i = i + 1;
                }
                proof {
                    assert(m.decorators@.skip(n as int).len() == 0);
                }
                Ok(acc)
            },
            ClassField::Let(l) => match &l.target {
                AssignmentTarget::Destructuring(_) => Err(VisitError::MalformedNode),
                AssignmentTarget::Identifier(i) => {
                    let acc = acc.put_string(&cls.0).put(".prototype.").put_string(&i.0).put(
                        " = ",
                    );
                    match &l.value {
                        Some(v) => {
                            let acc = self.visit_expression(acc, v)?;
                            Ok(acc.put(";"))
                        },
                        None => Ok(acc.put("nil").put(";")),
                    }
                },
            },
        }
    }

    /// Renders a class declaration: the fixed preamble making the class
    /// callable as a constructor, the fields, then the class decorator
    /// calls.
    #[verifier::loop_isolation(false)]
    pub fn visit_class(&self, ctx: Builder, stmt: &Class) -> (r: Result<Builder, VisitError>)
        requires
            ctx.wf(),
        ensures
            mirrors(r, render_class(*stmt, ctx@)),
            keeps_depth(r, ctx@),
        decreases *stmt, 0int,
    {
        let acc = ctx.line().put("local ").put_string(&stmt.name.0).put(" = {};").line()
            .put_string(&stmt.name.0).put(".__meta__ = {};").line().put_string(&stmt.name.0).put(
            ".__meta__.__call = function(self, struct)",
        ).push().line().put("return setmetatable(struct, self.prototype.__meta__);").pop().line()
            .put("end;").line().put_string(&stmt.name.0).put(".prototype = {};").line().put_string(
            &stmt.name.0,
        ).put(".prototype.__meta__ = {};").line().put_string(&stmt.name.0).put(
            ".prototype.__meta__.__index = ",
        ).put_string(&stmt.name.0).put(".prototype;").line().put("setmetatable(").put_string(
            &stmt.name.0,
        ).put(", ").put_string(&stmt.name.0).put(".__meta__);");
        proof {
            assert(acc@ == render_class_header(stmt.name.0@, ctx@));
        }
        let ghost h0 = acc@;
        let mut acc = acc;
        let n = stmt.fields.len();
        let mut i: usize = 0;
        proof {
            assert(stmt.fields@.skip(0) =~= stmt.fields@);
        }
        while i < n
            invariant
                acc.wf(),
                0 <= i <= n,
                n == stmt.fields@.len(),
                acc@.depth == h0.depth,
                render_class_fields(stmt.name.0@, stmt.fields@, h0) == render_class_fields(
                    stmt.name.0@,
                    stmt.fields@.skip(i as int),
                    acc@,
                ),
            decreases n - i,
        {
            proof {
                assert(stmt.fields@.skip(i as int)[0] == stmt.fields@[i as int]);
                assert(stmt.fields@.skip(i as int).skip(1) =~= stmt.fields@.skip(i as int + 1));
            }
            acc = match self.visit_class_field(acc, &stmt.name, &stmt.fields[i]) {
                Ok(b) => b,
                Err(e) => {
                    return Err(e);
                },
            };
            i = i + 1;
        }
        proof {
            assert(stmt.fields@.skip(n as int).len() == 0);
        }
        let ghost d0 = acc@;
        let m = stmt.decorators.len();
        let mut j: usize = 0;
        proof {
            assert(stmt.decorators@.skip(0) =~= stmt.decorators@);
        }
        while j < m
            invariant
                acc.wf(),
                0 <= j <= m,
                m == stmt.decorators@.len(),
                acc@.depth == d0.depth,
                render_decorator_calls(stmt.name.0@, stmt.decorators@, d0)
                    == render_decorator_calls(
                    stmt.name.0@,
                    stmt.decorators@.skip(j as int),
                    acc@,
                ),
            decreases m - j,
        {
            proof {
                assert(stmt.decorators@.skip(j as int)[0] == stmt.decorators@[j as int]);
                assert(stmt.decorators@.skip(j as int).skip(1) =~= stmt.decorators@.skip(
                    j as int + 1,
                ));
            }
            acc = match self.visit_decorator_call(acc, &stmt.name, &stmt.decorators[j]) {
                Ok(b) => b,
                Err(e) => {
                    return Err(e);
                },
            };
            j = j + 1;
        }
        proof {
            assert(stmt.decorators@.skip(m as int).len() == 0);
        }
        Ok(acc)
    }
}

/// Whether the operator spelling translates one-to-one to a native
/// target operator.
fn native_binop(op: &str) -> (r: bool)
    ensures
        r == is_native_binop(op@),
{
    str_eq(op, "+") || str_eq(op, "-") || str_eq(op, "*") || str_eq(op, "/") || str_eq(op, "%")
        || str_eq(op, "**") || str_eq(op, ">") || str_eq(op, ">=") || str_eq(op, "<") || str_eq(
        op,
        "<=",
    ) || str_eq(op, "==") || str_eq(op, "not") || str_eq(op, "and") || str_eq(op, "or") || str_eq(
        op,
        "&",
    ) || str_eq(op, "|") || str_eq(op, "<<") || str_eq(op, "<<<") || str_eq(op, ">>") || str_eq(
        op,
        ">>>",
    )
}

/// Finds the first native source entry for the Lua target.
fn find_native_entry(native: &Vec<(Identifier, StringLiteral)>) -> (r: Option<usize>)
    ensures
        match r {
            Some(ix) => ix < native@.len() && find_native(native@) == Some(native@[ix as int].1),
            None => find_native(native@) is None,
        },
{
    let n = native.len();
    let mut i: usize = 0;
    proof {
        assert(native@.skip(0) =~= native@);
    }
    while i < n
        invariant
            0 <= i <= n,
            n == native@.len(),
            find_native(native@) == find_native(native@.skip(i as int)),
        decreases n - i,
    {
        proof {
            assert(native@.skip(i as int)[0] == native@[i as int]);
            assert(native@.skip(i as int).skip(1) =~= native@.skip(i as int + 1));
        }
        if str_eq(native[i].0.0.as_str(), "Lua") {
            return Some(i);
        }
        i = i + 1;
    }
    None
}

} // verus!
