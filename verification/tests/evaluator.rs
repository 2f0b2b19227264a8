//! Evaluator tests on directly built syntax trees, covering the operators the
//! expression grammar itself never produces.

use miniscript::ast::{BinaryOperator, Expression, Program, Statement, UnaryOperator};
use miniscript::executor::Executor;
use miniscript::value::{RuntimeError, RuntimeType, Value};

fn lit(n: i32) -> Expression {
    Expression::Integer(n)
}

fn ident(name: &str) -> Expression {
    Expression::Identifier(name.to_string())
}

fn binary(left: Expression, operator: BinaryOperator, right: Expression) -> Expression {
    Expression::Binary { left: Box::new(left), operator, right: Box::new(right) }
}

fn unary(operator: UnaryOperator, expression: Expression) -> Expression {
    Expression::Unary { operator, expression: Box::new(expression) }
}

fn eval(executor: &mut Executor, expression: Expression) -> Result<Value, RuntimeError> {
    let program = Program {
        statements: vec![Statement::ConstAssignment {
            identifier: "r".to_string(),
            expression,
        }],
    };
    executor.execute(&program)
}

#[test]
fn comparison_labels_keep_the_source_semantics() {
    // The operator labelled "less or equal" computes greater-or-equal, and
    // the one labelled "greater or equal" computes less-or-equal.
    let mut ex = Executor::new();
    assert_eq!(eval(&mut ex, binary(lit(1), BinaryOperator::Le, lit(2))), Ok(Value::Boolean(false)));
    assert_eq!(eval(&mut ex, binary(lit(1), BinaryOperator::Ge, lit(2))), Ok(Value::Boolean(true)));
    assert_eq!(eval(&mut ex, binary(lit(2), BinaryOperator::Le, lit(2))), Ok(Value::Boolean(true)));
    assert_eq!(eval(&mut ex, binary(lit(1), BinaryOperator::Gt, lit(2))), Ok(Value::Boolean(false)));
    assert_eq!(eval(&mut ex, binary(lit(1), BinaryOperator::Lt, lit(2))), Ok(Value::Boolean(true)));
    assert_eq!(eval(&mut ex, binary(lit(2), BinaryOperator::Eq, lit(2))), Ok(Value::Boolean(true)));
    assert_eq!(eval(&mut ex, binary(lit(1), BinaryOperator::Ne, lit(2))), Ok(Value::Boolean(true)));
}

#[test]
fn xor_collapses_to_inclusive_or() {
    // Both operands true: inclusive or gives true where a true exclusive or
    // would give false — the source semantics are preserved.
    let mut ex = Executor::new();
    ex.set_variable("t".to_string(), &Value::Boolean(true));
    ex.set_variable("f".to_string(), &Value::Boolean(false));
    assert_eq!(
        eval(&mut ex, binary(ident("t"), BinaryOperator::Xor, ident("t"))),
        Ok(Value::Boolean(true))
    );
    assert_eq!(
        eval(&mut ex, binary(ident("t"), BinaryOperator::Or, ident("f"))),
        Ok(Value::Boolean(true))
    );
    assert_eq!(
        eval(&mut ex, binary(ident("t"), BinaryOperator::And, ident("f"))),
        Ok(Value::Boolean(false))
    );
}

#[test]
fn boolean_operator_on_integers_mismatches() {
    let mut ex = Executor::new();
    assert_eq!(
        eval(&mut ex, binary(lit(1), BinaryOperator::And, lit(2))),
        Err(RuntimeError::TypeMismatch {
            expected: RuntimeType::Integer,
            actual: RuntimeType::Boolean,
        })
    );
}

#[test]
fn arithmetic_operator_on_booleans_mismatches() {
    let mut ex = Executor::new();
    ex.set_variable("t".to_string(), &Value::Boolean(true));
    assert_eq!(
        eval(&mut ex, binary(ident("t"), BinaryOperator::Add, ident("t"))),
        Err(RuntimeError::TypeMismatch {
            expected: RuntimeType::Boolean,
            actual: RuntimeType::Integer,
        })
    );
}

#[test]
fn mixed_operands_report_both_types() {
    let mut ex = Executor::new();
    ex.set_variable("t".to_string(), &Value::Boolean(true));
    assert_eq!(
        eval(&mut ex, binary(ident("t"), BinaryOperator::Add, lit(1))),
        Err(RuntimeError::TypeMismatch {
            expected: RuntimeType::Boolean,
            actual: RuntimeType::Integer,
        })
    );
    assert_eq!(
        eval(&mut ex, binary(ident("nothing"), BinaryOperator::Add, lit(1))),
        Err(RuntimeError::TypeMismatch {
            expected: RuntimeType::Undefined,
            actual: RuntimeType::Integer,
        })
    );
}

#[test]
fn unary_operators() {
    let mut ex = Executor::new();
    ex.set_variable("t".to_string(), &Value::Boolean(true));
    assert_eq!(eval(&mut ex, unary(UnaryOperator::Negative, lit(5))), Ok(Value::Integer(-5)));
    assert_eq!(eval(&mut ex, unary(UnaryOperator::Positive, lit(5))), Ok(Value::Integer(5)));
    assert_eq!(eval(&mut ex, unary(UnaryOperator::Not, ident("t"))), Ok(Value::Boolean(false)));
    assert_eq!(
        eval(&mut ex, unary(UnaryOperator::Negative, ident("t"))),
        Err(RuntimeError::TypeMismatch {
            expected: RuntimeType::Integer,
            actual: RuntimeType::Integer,
        })
    );
    assert_eq!(
        eval(&mut ex, unary(UnaryOperator::Not, lit(1))),
        Err(RuntimeError::TypeMismatch {
            expected: RuntimeType::Integer,
            actual: RuntimeType::Integer,
        })
    );
}

#[test]
fn negation_wraps_at_the_minimum() {
    let mut ex = Executor::new();
    assert_eq!(
        eval(&mut ex, unary(UnaryOperator::Negative, lit(i32::MIN))),
        Ok(Value::Integer(i32::MIN))
    );
}

#[test]
fn division_overflow_wraps() {
    let mut ex = Executor::new();
    assert_eq!(
        eval(&mut ex, binary(lit(i32::MIN), BinaryOperator::Div, lit(-1))),
        Ok(Value::Integer(i32::MIN))
    );
    assert_eq!(
        eval(&mut ex, binary(lit(i32::MIN), BinaryOperator::Mod, lit(-1))),
        Ok(Value::Integer(0))
    );
}

#[test]
fn remainder_keeps_the_dividend_sign() {
    let mut ex = Executor::new();
    assert_eq!(eval(&mut ex, binary(lit(-7), BinaryOperator::Mod, lit(2))), Ok(Value::Integer(-1)));
    assert_eq!(eval(&mut ex, binary(lit(7), BinaryOperator::Mod, lit(-2))), Ok(Value::Integer(1)));
}

#[test]
fn unknown_method_reports_the_name() {
    let mut ex = Executor::new();
    let program = Program {
        statements: vec![Statement::MethodInvocation {
            identifier: "Println".to_string(),
            arguments: vec![lit(1)],
        }],
    };
    assert_eq!(
        ex.execute(&program),
        Err(RuntimeError::UnknownMethod("Println".to_string()))
    );
    assert!(ex.output().is_empty());
}

#[test]
fn last_statement_wins() {
    let mut ex = Executor::new();
    let program = Program {
        statements: vec![
            Statement::ConstAssignment { identifier: "a".to_string(), expression: lit(1) },
            Statement::Empty,
        ],
    };
    assert_eq!(ex.execute(&program), Ok(Value::Undefined));
    assert_eq!(ex.get_variable("a"), Some(Value::Integer(1)));
}

#[test]
fn set_and_get_variable() {
    let mut ex = Executor::new();
    assert_eq!(ex.get_variable("a"), None);
    ex.set_variable("a".to_string(), &Value::Integer(3));
    ex.set_variable("b".to_string(), &Value::Boolean(true));
    assert_eq!(ex.get_variable("a"), Some(Value::Integer(3)));
    assert_eq!(ex.get_variable("b"), Some(Value::Boolean(true)));
    ex.set_variable("a".to_string(), &Value::Undefined);
    assert_eq!(ex.get_variable("a"), Some(Value::Undefined));
}

#[test]
fn print_negative_number_renders_with_sign() {
    let mut ex = Executor::new();
    let program = Program {
        statements: vec![Statement::MethodInvocation {
            identifier: "Print".to_string(),
            arguments: vec![binary(lit(0), BinaryOperator::Sub, lit(45)), lit(0)],
        }],
    };
    assert_eq!(ex.execute(&program), Ok(Value::Undefined));
    assert_eq!(ex.output(), &vec!["-45".to_string(), "0".to_string()]);
}
