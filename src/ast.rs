use vstd::prelude::*;

verus! {

/// An ordered sequence of statements.
#[derive(Debug, PartialEq)]
pub struct Scope {
    pub statements: Vec<Stmt>,
}

#[derive(Debug, PartialEq)]
pub struct Stmt {
    pub kind: StmtKind,
}

/// One `elif` clause of an `if` statement.
#[derive(Debug, PartialEq)]
pub struct ElifBlock {
    pub condition: Expr,
    pub statements: Scope,
}

#[derive(Debug, PartialEq)]
pub struct CatchBlock {
    pub exception_var: Option<String>,
    pub statements: Scope,
}

#[derive(Debug, PartialEq)]
pub enum StmtKind {
    Bring { module_name: String, identifier: Option<String> },
    VariableDef { reassignable: bool, var_name: String, initial_value: Expr, type_: Option<String> },
    ForLoop { iterator: String, iterable: Expr, statements: Scope },
    While { condition: Expr, statements: Scope },
    If {
        condition: Expr,
        statements: Scope,
        elif_statements: Vec<ElifBlock>,
        else_statements: Option<Scope>,
    },
    Expression(Expr),
    Assignment { variable: Reference, value: Expr },
    Return(Option<Expr>),
    Scope(Scope),
    Class(Class),
    Struct { name: String, extends: Vec<String>, members: Vec<String> },
    Enum { name: String, values: Vec<String> },
    TryCatch {
        try_statements: Scope,
        catch_block: Option<CatchBlock>,
        finally_statements: Option<Scope>,
    },
}

#[derive(Debug, PartialEq)]
pub struct Expr {
    pub kind: ExprKind,
}

#[derive(Debug, Clone, Copy, PartialEq)]
pub enum UnaryOperator {
    Minus,
    Not,
}

#[derive(Debug, Clone, Copy, PartialEq)]
pub enum BinaryOperator {
    Add,
    Sub,
    Mul,
    Div,
    Mod,
    Greater,
    GreaterOrEqual,
    Less,
    LessOrEqual,
    Equal,
    NotEqual,
    LogicalAnd,
    LogicalOr,
}

#[derive(Debug, PartialEq)]
pub enum ExprKind {
    New { class: String, obj_id: Option<String>, obj_scope: Option<Box<Expr>>, arg_list: ArgList },
    Literal(Literal),
    Reference(Reference),
    Call { function: Box<Expr>, arg_list: ArgList },
    Unary { op: UnaryOperator, exp: Box<Expr> },
    Binary { op: BinaryOperator, left: Box<Expr>, right: Box<Expr> },
    ArrayLiteral { type_: Option<String>, items: Vec<Expr> },
    /// Field initialisers in the order they were written.
    StructLiteral { type_: String, fields: Vec<(String, Expr)> },
    /// Entries in the order they were written.
    MapLiteral { type_: Option<String>, fields: Vec<(String, Expr)> },
    SetLiteral { type_: Option<String>, items: Vec<Expr> },
    FunctionClosure(FunctionDefinition),
}

#[derive(Debug, PartialEq)]
pub enum InterpolatedStringPart {
    Static(String),
    Expr(Expr),
}

#[derive(Debug, PartialEq)]
pub struct InterpolatedString {
    pub parts: Vec<InterpolatedStringPart>,
}

#[derive(Debug, PartialEq)]
pub enum Literal {
    InterpolatedString(InterpolatedString),
    Boolean(bool),
    Number(i64),
    /// A duration in milliseconds.
    Duration(u64),
    String(String),
}

#[derive(Debug, PartialEq)]
pub enum Reference {
    Identifier(String),
    NestedIdentifier { object: Box<Expr>, property: String },
}

#[derive(Debug, PartialEq)]
pub struct FunctionDefinition {
    pub parameters: Vec<String>,
    pub statements: Scope,
}

#[derive(Debug, PartialEq)]
pub struct Constructor {
    pub parameters: Vec<String>,
    pub statements: Scope,
}

/// A class: its constructor and its methods in declaration order.
#[derive(Debug, PartialEq)]
pub struct Class {
    pub name: String,
    pub parent: Option<String>,
    pub constructor: Constructor,
    pub methods: Vec<(String, FunctionDefinition)>,
}

/// Arguments of a call or an instantiation.
#[derive(Debug, PartialEq)]
pub struct ArgList {
    pub pos_args: Vec<Expr>,
    pub named_args: Vec<(String, Expr)>,
}

} // verus!
