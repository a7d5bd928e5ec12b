//! The abstract syntax tree of the source language.
//!
//! Values of these types come from the external parser; the code
//! generation and macro expansion engines only ever read them.  Floating
//! point literals are carried as their numeral text, which is all the
//! code generator needs of them.

use vstd::prelude::*;

verus! {

#[derive(Debug, Clone)]
pub struct Identifier(pub String);

#[derive(Debug, Clone)]
pub enum StringLiteral {
    Double(String),
}

#[derive(Debug, Clone)]
pub struct Operator(pub String);

#[derive(Debug, Clone)]
pub enum Number {
    /// A floating point literal, kept as its numeral text.
    Float(String),
    Integer(i64),
}

#[derive(Debug)]
pub struct Decorator {
    pub target: CallExpression,
}

#[derive(Debug)]
pub struct Argument {
    pub name: Identifier,
    pub decorators: Vec<Decorator>,
}

#[derive(Debug)]
pub struct Function {
    pub name: Identifier,
    pub arguments: Vec<Argument>,
    pub decorators: Vec<Decorator>,
    pub body: Script,
    pub native: Option<Vec<(Identifier, StringLiteral)>>,
}

#[derive(Debug)]
pub struct Lambda {
    pub arguments: Vec<Argument>,
    pub body: ScriptOrExpression,
}

#[derive(Debug)]
pub struct Do {
    pub body: Script,
}

#[derive(Debug)]
pub struct Tuple(pub Vec<Expression>);

#[derive(Debug)]
pub enum MemberSegment {
    Computed(Expression),
    IdentifierDynamic(Identifier),
    IdentifierStatic(Identifier),
}

#[derive(Debug)]
pub struct MemberExpression {
    pub head: Expression,
    pub tail: Vec<MemberSegment>,
}

#[derive(Debug, Clone)]
pub enum DestructureOrigin {
    Tuple,
    Array,
    Table,
}

#[derive(Debug, Clone)]
pub struct Destructuring(pub Vec<Identifier>, pub DestructureOrigin);

#[derive(Debug, Clone)]
pub enum AssignmentTarget {
    Destructuring(Destructuring),
    Identifier(Identifier),
}

#[derive(Debug)]
pub struct Let {
    pub target: AssignmentTarget,
    pub value: Option<Expression>,
}

#[derive(Debug)]
pub struct Assignment {
    pub target: MemberExpression,
    pub value: Expression,
    pub extra: Option<Operator>,
}

#[derive(Debug)]
pub struct Class {
    pub name: Identifier,
    pub decorators: Vec<Decorator>,
    pub fields: Vec<ClassField>,
}

#[derive(Debug)]
pub struct CallSubExpression {
    pub callee: Option<MemberExpression>,
    pub arguments: Vec<Expression>,
}

#[derive(Debug)]
pub enum CallExpressionVariant {
    Call(CallSubExpression),
    Member(MemberSegment),
}

#[derive(Debug)]
pub enum MacroCallArguments {
    FunctionLike(Vec<Expression>),
    BlockLike(Script),
}

#[derive(Debug)]
pub struct IdentifierOrCall {
    pub target: Identifier,
    pub arguments: Vec<Expression>,
}

#[derive(Debug)]
pub struct MacroDecorator {
    pub macros: Vec<IdentifierOrCall>,
    pub target: Statement,
}

#[derive(Debug)]
pub struct MacroCallExpression {
    pub target: Identifier,
    pub arguments: MacroCallArguments,
}

#[derive(Debug)]
pub struct CallExpression {
    pub head: CallSubExpression,
    pub tail: Vec<CallExpressionVariant>,
}

#[derive(Debug)]
pub struct Return {
    pub value: Expression,
}

#[derive(Debug)]
pub struct If {
    pub condition: Expression,
    pub body: Script,
    pub branches: Vec<(Expression, Script)>,
    pub else_branch: Option<Script>,
}

#[derive(Debug)]
pub struct For {
    pub handler: AssignmentTarget,
    pub target: Expression,
    pub body: Script,
}

#[derive(Debug)]
pub enum ExpressionOrLet {
    Expression(Expression),
    Let(Let),
}

#[derive(Debug)]
pub struct While {
    pub condition: ExpressionOrLet,
    pub body: Script,
}

#[derive(Debug)]
pub struct Loop {
    pub body: Script,
}

#[derive(Debug)]
pub enum ScriptOrExpression {
    Script(Script),
    Expression(Expression),
}

#[derive(Debug)]
pub struct Match {
    pub target: Expression,
    pub branches: Vec<(Expression, ScriptOrExpression)>,
}

#[derive(Debug)]
pub enum Statement {
    MacroDecorator(Box<MacroDecorator>),
    If(If),
    Match(Match),
    For(For),
    Loop(Loop),
    While(While),
    Return(Return),
    Class(Class),
    Function(Function),
    MacroDeclare(Function),
    Assignment(Assignment),
    Let(Let),
    Expression(Expression),
    Use(Identifier),
}

#[derive(Debug)]
pub enum ClassField {
    Method(Function),
    Let(Let),
}

#[derive(Debug)]
pub struct BinaryExpression {
    pub left: Expression,
    pub right: Expression,
    pub operator: Operator,
}

#[derive(Debug)]
pub struct UnaryExpression {
    pub expression: Expression,
    pub operator: Operator,
}

#[derive(Debug)]
pub struct Vector {
    pub expressions: Vec<Expression>,
}

#[derive(Debug)]
pub struct Table {
    pub key_values: Vec<(TableKeyExpression, Option<Expression>)>,
}

#[derive(Debug)]
pub enum TableKeyExpression {
    Identifier(Identifier),
    Expression(Expression),
    Implicit(Identifier),
}

#[derive(Debug)]
pub enum Expression {
    Lambda(Box<Lambda>),
    Reference(Box<MemberExpression>),
    Identifier(Identifier),
    Call(Box<CallExpression>),
    Tuple(Tuple),
    Tuple1(Box<Expression>),
    Table(Table),
    Do(Do),
    Use(Identifier),
    Vector(Vector),
    Number(Number),
    String(StringLiteral),
    Binary(Box<BinaryExpression>),
    Unary(Box<UnaryExpression>),
    Unit,
}

/// A parsed program: an ordered sequence of statements.
#[derive(Debug)]
pub struct Script {
    pub statements: Vec<Statement>,
}

} // verus!
