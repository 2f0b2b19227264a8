//! The abstract syntax tree the parser builds, and its ghost mirror that the
//! specifications speak of.

use vstd::prelude::*;

verus! {

/// A binary operator as it is labelled in the source language.
#[derive(Clone, Copy, PartialEq, Eq, Structural, Debug)]
pub enum BinaryOperator {
    Add,
    Sub,
    Mul,
    Div,
    Mod,
    /// Labelled "equal".
    Eq,
    /// Labelled "not equal".
    Ne,
    /// Labelled "greater than".
    Gt,
    /// Labelled "less than".
    Lt,
    /// Labelled "less or equal".
    Le,
    /// Labelled "greater or equal".
    Ge,
    And,
    Or,
    Xor,
}

/// A unary operator.
#[derive(Clone, Copy, PartialEq, Eq, Structural, Debug)]
pub enum UnaryOperator {
    Negative,
    Positive,
    Not,
}

/// An expression tree. Every node owns its children exclusively.
#[allow(inconsistent_fields)]
#[derive(PartialEq, Eq, Debug)]
pub enum Expression {
    /// A variable reference by name.
    Identifier(String),
    /// A 32-bit integer literal.
    Integer(i32),
    /// A binary operation.
    Binary { left: Box<Expression>, operator: BinaryOperator, right: Box<Expression> },
    /// A unary operation.
    Unary { operator: UnaryOperator, expression: Box<Expression> },
}

/// The ghost mirror of an expression: names as character sequences.
#[allow(inconsistent_fields)]
pub enum ExprView {
    Identifier(Seq<char>),
    Integer(i32),
    Binary { left: Box<ExprView>, operator: BinaryOperator, right: Box<ExprView> },
    Unary { operator: UnaryOperator, expression: Box<ExprView> },
}

/// The ghost mirror of an expression tree.
pub open spec fn expr_view(e: Expression) -> ExprView
    decreases e,
{
    match e {
        Expression::Identifier(name) => ExprView::Identifier(name@),
        Expression::Integer(n) => ExprView::Integer(n),
        Expression::Binary { left, operator, right } => ExprView::Binary {
            left: Box::new(expr_view(*left)),
            operator,
            right: Box::new(expr_view(*right)),
        },
        Expression::Unary { operator, expression } => ExprView::Unary {
            operator,
            expression: Box::new(expr_view(*expression)),
        },
    }
}

impl View for Expression {
    type V = ExprView;

    open spec fn view(&self) -> ExprView {
        expr_view(*self)
    }
}

/// One statement of a program.
#[derive(PartialEq, Eq, Debug)]
pub enum Statement {
    /// Bind `identifier` to the value of `expression`; a later binding of the
    /// same name replaces the earlier one.
    ConstAssignment { identifier: String, expression: Expression },
    /// Call the built-in named `identifier` with the argument expressions, in
    /// order.
    MethodInvocation { identifier: String, arguments: Vec<Expression> },
    /// A blank line: no effect.
    Empty,
}

/// The ghost mirror of a statement.
pub enum StmtView {
    ConstAssignment { identifier: Seq<char>, expression: ExprView },
    MethodInvocation { identifier: Seq<char>, arguments: Seq<ExprView> },
    Empty,
}

impl View for Statement {
    type V = StmtView;

    open spec fn view(&self) -> StmtView {
        match self {
            Statement::ConstAssignment { identifier, expression } => StmtView::ConstAssignment {
                identifier: identifier@,
                expression: expression@,
            },
            Statement::MethodInvocation { identifier, arguments } => StmtView::MethodInvocation {
                identifier: identifier@,
                arguments: arguments@.map_values(|e: Expression| e@),
            },
            Statement::Empty => StmtView::Empty,
        }
    }
}

/// A program: its statements in evaluation order.
#[derive(PartialEq, Eq, Debug)]
pub struct Program {
    pub statements: Vec<Statement>,
}

impl View for Program {
    type V = Seq<StmtView>;

    open spec fn view(&self) -> Seq<StmtView> {
        self.statements@.map_values(|s: Statement| s@)
    }
}

} // verus!
