//! Laws of the language, stated over the evaluation and parsing models and
//! proved once for all inputs.

use crate::ast::{BinaryOperator, ExprView, StmtView};
use crate::executor::{eval_args, eval_expr, eval_program, eval_stmt};
use crate::numtext::{int_text, int_text_val, is_i32_text};
use crate::parser::sp_expr;
use crate::token::{TokenKind, TokenView};
use crate::value::{render, RuntimeErrorView, RuntimeType, Value};
use vstd::prelude::*;

verus! {

/// Binding a name to an integer literal yields that integer, binds exactly
/// that name, emits nothing — and evaluating the name afterwards yields the
/// same integer, under every environment.
pub proof fn lemma_bind_then_lookup(env: Map<Seq<char>, Value>, name: Seq<char>, a: i32)
    ensures
        ({
            let t = eval_stmt(
                env,
                StmtView::ConstAssignment { identifier: name, expression: ExprView::Integer(a) },
            );
            &&& t.0 == Ok::<Value, RuntimeErrorView>(Value::Integer(a))
            &&& t.1 == env.insert(name, Value::Integer(a))
            &&& t.2 == Seq::<Seq<char>>::empty()
            &&& eval_expr(t.1, ExprView::Identifier(name)) == Ok::<Value, RuntimeErrorView>(
                Value::Integer(a),
            )
        }),
{
}

/// Evaluating an identifier that the environment does not bind yields the
/// undefined value — never an error.
pub proof fn lemma_unbound_identifier_undefined(env: Map<Seq<char>, Value>, name: Seq<char>)
    requires
        !env.contains_key(name),
    ensures
        eval_expr(env, ExprView::Identifier(name)) == Ok::<Value, RuntimeErrorView>(
            Value::Undefined,
        ),
{
}

/// The integer literals `vals`, as argument expressions.
pub open spec fn int_literals(vals: Seq<i32>) -> Seq<ExprView> {
    vals.map_values(|v: i32| ExprView::Integer(v))
}

proof fn lemma_eval_args_ints(env: Map<Seq<char>, Value>, vals: Seq<i32>)
    ensures
        eval_args(env, int_literals(vals)) == (
            vals.map_values(|v: i32| int_text(v as int)),
            None::<RuntimeErrorView>,
        ),
    decreases vals.len(),
{
    let args = int_literals(vals);
    let lines = vals.map_values(|v: i32| int_text(v as int));
    if vals.len() == 0 {
        assert(args.len() == 0);
        assert(eval_args(env, args).0 =~= lines);
    } else {
        assert(args[0] == ExprView::Integer(vals[0]));
        assert(args.drop_first() =~= int_literals(vals.drop_first()));
        lemma_eval_args_ints(env, vals.drop_first());
        assert(render(Value::Integer(vals[0])) == int_text(vals[0] as int));
        assert(eval_args(env, args).0 =~= lines);
    }
}

/// Calling the print built-in on integer literals succeeds with the
/// undefined value, changes no binding, and emits exactly one line per
/// argument — the literal's decimal text — in argument order.
pub proof fn lemma_print_integer_literals(env: Map<Seq<char>, Value>, vals: Seq<i32>)
    ensures
        ({
            let t = eval_stmt(
                env,
                StmtView::MethodInvocation { identifier: "Print"@, arguments: int_literals(vals) },
            );
            &&& t.0 == Ok::<Value, RuntimeErrorView>(Value::Undefined)
            &&& t.1 == env
            &&& t.2 == vals.map_values(|v: i32| int_text(v as int))
        }),
{
    lemma_eval_args_ints(env, vals);
}

/// A chain `a - b - c` of integer literals parses right-associatively, as
/// `a - (b - c)`, and evaluates to `a - (b - c)` in wrapping 32-bit
/// arithmetic — not to `(a - b) - c`.
pub proof fn lemma_sub_chain_right_assoc(
    env: Map<Seq<char>, Value>,
    ta: Seq<char>,
    tb: Seq<char>,
    tc: Seq<char>,
)
    requires
        is_i32_text(ta),
        is_i32_text(tb),
        is_i32_text(tc),
    ensures
        ({
            let ts = seq![
                (TokenView { kind: TokenKind::Int, text: ta }),
                (TokenView { kind: TokenKind::Minus, text: Seq::empty() }),
                (TokenView { kind: TokenKind::Int, text: tb }),
                (TokenView { kind: TokenKind::Minus, text: Seq::empty() }),
                (TokenView { kind: TokenKind::Int, text: tc }),
            ];
            let a = int_text_val(ta) as i32;
            let b = int_text_val(tb) as i32;
            let c = int_text_val(tc) as i32;
            let tree = ExprView::Binary {
                left: Box::new(ExprView::Integer(a)),
                operator: BinaryOperator::Sub,
                right: Box::new(
                    ExprView::Binary {
                        left: Box::new(ExprView::Integer(b)),
                        operator: BinaryOperator::Sub,
                        right: Box::new(ExprView::Integer(c)),
                    },
                ),
            };
            &&& sp_expr(ts, 0) == Ok::<(ExprView, int), TokenView>((tree, 5))
            &&& eval_expr(env, tree) == Ok::<Value, RuntimeErrorView>(
                Value::Integer(a.wrapping_sub(b.wrapping_sub(c))),
            )
        }),
{
    reveal_with_fuel(sp_expr, 5);
    reveal_with_fuel(crate::parser::sp_primary, 5);
    reveal_with_fuel(eval_expr, 5);
}

/// Binding a name to a division of an integer literal by the literal zero
/// fails with the division fault and binds nothing, under every environment.
pub proof fn lemma_division_by_zero_faults(env: Map<Seq<char>, Value>, name: Seq<char>, a: i32)
    ensures
        ({
            let t = eval_stmt(
                env,
                StmtView::ConstAssignment {
                    identifier: name,
                    expression: ExprView::Binary {
                        left: Box::new(ExprView::Integer(a)),
                        operator: BinaryOperator::Div,
                        right: Box::new(ExprView::Integer(0)),
                    },
                },
            );
            &&& t.0 == Err::<Value, RuntimeErrorView>(RuntimeErrorView::DivisionByZero)
            &&& t.1 == env
            &&& t.2 == Seq::<Seq<char>>::empty()
        }),
{
    reveal_with_fuel(eval_expr, 3);
}

/// Adding an integer literal to a name bound to a boolean fails with a type
/// mismatch reporting expected integer, actual boolean, and binds nothing.
pub proof fn lemma_integer_plus_boolean_mismatch(
    env: Map<Seq<char>, Value>,
    name: Seq<char>,
    a: i32,
    bname: Seq<char>,
    b: bool,
)
    requires
        env.contains_key(bname),
        env[bname] == Value::Boolean(b),
    ensures
        ({
            let t = eval_stmt(
                env,
                StmtView::ConstAssignment {
                    identifier: name,
                    expression: ExprView::Binary {
                        left: Box::new(ExprView::Integer(a)),
                        operator: BinaryOperator::Add,
                        right: Box::new(ExprView::Identifier(bname)),
                    },
                },
            );
            &&& t.0 == Err::<Value, RuntimeErrorView>(
                RuntimeErrorView::TypeMismatch {
                    expected: RuntimeType::Integer,
                    actual: RuntimeType::Boolean,
                },
            )
            &&& t.1 == env
            &&& t.2 == Seq::<Seq<char>>::empty()
        }),
{
    reveal_with_fuel(eval_expr, 3);
}

/// An empty program evaluates to the undefined value, changes nothing, and
/// emits no output, under every environment.
pub proof fn lemma_empty_program(env: Map<Seq<char>, Value>)
    ensures
        eval_program(env, Seq::<StmtView>::empty()) == (
            Ok::<Value, RuntimeErrorView>(Value::Undefined),
            env,
            Seq::<Seq<char>>::empty(),
        ),
{
}

} // verus!
