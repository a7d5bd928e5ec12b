//! Convenience constructors for synthesized AST fragments.

use vstd::prelude::*;

use crate::ast::{
    CallExpression, CallSubExpression, Expression, Identifier, MemberExpression, StringLiteral,
    Table, TableKeyExpression,
};

verus! {

/// An identifier table key.
pub fn table_key(key: String) -> (r: TableKeyExpression)
    ensures
        r == TableKeyExpression::Identifier(Identifier(key)),
{
    TableKeyExpression::Identifier(Identifier(key))
}

/// A table entry binding an identifier key to an expression.
pub fn key_value(key: String, expr: Expression) -> (r: (TableKeyExpression, Option<Expression>))
    ensures
        r.0 == TableKeyExpression::Identifier(Identifier(key)),
        r.1 == Some(expr),
{
    (table_key(key), Some(expr))
}

/// A double-quoted string literal expression.
pub fn string(value: String) -> (r: Expression)
    ensures
        r == Expression::String(StringLiteral::Double(value)),
{
    Expression::String(StringLiteral::Double(value))
}

/// A table literal from its entries.
pub fn table(key_values: Vec<(TableKeyExpression, Option<Expression>)>) -> (r: Table)
    ensures
        r == (Table { key_values }),
{
    Table { key_values }
}

/// A plain call of a named function with the given arguments.
pub fn create_simple_call(target: String, arguments: Vec<Expression>) -> (r: CallExpression)
    ensures
        r.head.arguments == arguments,
        r.head.callee matches Some(m) && m.head == Expression::Identifier(Identifier(target))
            && m.tail@.len() == 0,
        r.tail@.len() == 0,
{
    CallExpression {
        head: CallSubExpression {
            callee: Some(
                MemberExpression {
                    head: Expression::Identifier(Identifier(target)),
                    tail: Vec::new(),
                },
            ),
            arguments,
        },
        tail: Vec::new(),
    }
}

} // verus!
