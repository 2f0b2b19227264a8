//! The tree-walking evaluator: statements in order against a mutable, flat
//! variable environment, collecting the print built-in's output lines.
//!
//! Evaluation is specified first as pure functions over the ghost syntax tree
//! and a `Map` view of the environment (`apply_binary`, `apply_unary`,
//! `eval_expr`, `eval_args`, `eval_stmt`, `eval_program`); the executor's
//! contracts state that it computes exactly what those functions describe.

use crate::ast::{BinaryOperator, Expression, ExprView, Program, Statement, StmtView, UnaryOperator};
use crate::numtext::i32_to_text;
use crate::value::{render, RuntimeError, RuntimeErrorView, RuntimeType, Value};
use vstd::prelude::*;

verus! {

/// The environment an association list denotes; a later entry for the same
/// name takes precedence.
pub open spec fn env_of(entries: Seq<(String, Value)>) -> Map<Seq<char>, Value>
    decreases entries.len(),
{
    if entries.len() == 0 {
        Map::empty()
    } else {
        env_of(entries.drop_last()).insert(entries.last().0@, entries.last().1)
    }
}

/// No two entries bind the same name.
pub open spec fn unique_keys(entries: Seq<(String, Value)>) -> bool {
    forall|i: int, j: int|
        0 <= i < j < entries.len() ==> (#[trigger] entries[i]).0@ != (#[trigger] entries[j]).0@
}

/// A name bound by no entry is absent from the denoted environment.
proof fn lemma_env_absent(entries: Seq<(String, Value)>, k: Seq<char>)
    requires
        forall|j: int| 0 <= j < entries.len() ==> (#[trigger] entries[j]).0@ != k,
    ensures
        !env_of(entries).contains_key(k),
    decreases entries.len(),
{
    if entries.len() > 0 {
        lemma_env_absent(entries.drop_last(), k);
    }
}

/// With unique names, each entry gives its name's value in the denoted
/// environment.
proof fn lemma_env_at(entries: Seq<(String, Value)>, i: int)
    requires
        unique_keys(entries),
        0 <= i < entries.len(),
    ensures
        env_of(entries).contains_key(entries[i].0@),
        env_of(entries)[entries[i].0@] == entries[i].1,
    decreases entries.len(),
{
    if i < entries.len() - 1 {
        lemma_env_at(entries.drop_last(), i);
    }
}

/// With unique names, replacing the entry that binds a name denotes an
/// environment update of that name.
proof fn lemma_env_update(entries: Seq<(String, Value)>, i: int, p: (String, Value))
    requires
        unique_keys(entries),
        0 <= i < entries.len(),
        p.0@ == entries[i].0@,
    ensures
        env_of(entries.update(i, p)) == env_of(entries).insert(p.0@, p.1),
    decreases entries.len(),
{
    let upd = entries.update(i, p);
    if i == entries.len() - 1 {
        assert(upd.drop_last() =~= entries.drop_last());
        assert(env_of(upd) =~= env_of(entries).insert(p.0@, p.1));
    } else {
        assert(upd.drop_last() =~= entries.drop_last().update(i, p));
        assert(upd.last() == entries.last());
        lemma_env_update(entries.drop_last(), i, p);
        assert(env_of(upd) =~= env_of(entries).insert(p.0@, p.1));
    }
}

/// The result of a binary operator on two fully evaluated operands,
/// dispatched on their runtime-type pair.
///
/// The labelled semantics of the source language are preserved deliberately:
/// the operator labelled "less or equal" computes greater-or-equal and the
/// one labelled "greater or equal" computes less-or-equal; the operator
/// labelled "xor" computes inclusive or, as "or" does. Arithmetic wraps in
/// 32 bits, except that division or remainder by zero is an error.
pub open spec fn apply_binary(op: BinaryOperator, l: Value, r: Value) -> Result<
    Value,
    RuntimeErrorView,
> {
    match (l, r) {
        (Value::Integer(a), Value::Integer(b)) => match op {
            BinaryOperator::Add => Ok(Value::Integer(a.wrapping_add(b))),
            BinaryOperator::Sub => Ok(Value::Integer(a.wrapping_sub(b))),
            BinaryOperator::Mul => Ok(Value::Integer(a.wrapping_mul(b))),
            BinaryOperator::Div => if b == 0 {
                Err(RuntimeErrorView::DivisionByZero)
            } else {
                match a.checked_div(b) {
                    Some(q) => Ok(Value::Integer(q)),
                    None => Ok(Value::Integer(i32::MIN)),
                }
            },
            BinaryOperator::Mod => if b == 0 {
                Err(RuntimeErrorView::DivisionByZero)
            } else {
                match a.checked_rem(b) {
                    Some(m) => Ok(Value::Integer(m)),
                    None => Ok(Value::Integer(0)),
                }
            },
            BinaryOperator::Eq => Ok(Value::Boolean(a == b)),
            BinaryOperator::Ne => Ok(Value::Boolean(a != b)),
            BinaryOperator::Gt => Ok(Value::Boolean(a > b)),
            BinaryOperator::Lt => Ok(Value::Boolean(a < b)),
            BinaryOperator::Le => Ok(Value::Boolean(a >= b)),
            BinaryOperator::Ge => Ok(Value::Boolean(a <= b)),
            _ => Err(
                RuntimeErrorView::TypeMismatch {
                    expected: RuntimeType::Integer,
                    actual: RuntimeType::Boolean,
                },
            ),
        },
        (Value::Boolean(a), Value::Boolean(b)) => match op {
            BinaryOperator::And => Ok(Value::Boolean(a && b)),
            BinaryOperator::Or => Ok(Value::Boolean(a || b)),
            BinaryOperator::Xor => Ok(Value::Boolean(a || b)),
            _ => Err(
                RuntimeErrorView::TypeMismatch {
                    expected: RuntimeType::Boolean,
                    actual: RuntimeType::Integer,
                },
            ),
        },
        _ => Err(
            RuntimeErrorView::TypeMismatch {
                expected: l.spec_type_of(),
                actual: r.spec_type_of(),
            },
        ),
    }
}

/// The result of a unary operator on its evaluated operand. Negation and
/// identity require an integer, logical complement a boolean; the mismatch
/// reports are those of the source language.
pub open spec fn apply_unary(op: UnaryOperator, v: Value) -> Result<Value, RuntimeErrorView> {
    match op {
        UnaryOperator::Negative => match v {
            Value::Integer(n) => Ok(Value::Integer((0i32).wrapping_sub(n))),
            _ => Err(
                RuntimeErrorView::TypeMismatch {
                    expected: RuntimeType::Integer,
                    actual: RuntimeType::Integer,
                },
            ),
        },
        UnaryOperator::Positive => match v {
            Value::Integer(n) => Ok(Value::Integer(n)),
            _ => Err(
                RuntimeErrorView::TypeMismatch {
                    expected: RuntimeType::Integer,
                    actual: RuntimeType::Integer,
                },
            ),
        },
        UnaryOperator::Not => match v {
            Value::Boolean(b) => Ok(Value::Boolean(!b)),
            _ => Err(
                RuntimeErrorView::TypeMismatch {
                    expected: RuntimeType::Integer,
                    actual: RuntimeType::Integer,
                },
            ),
        },
    }
}

/// The value of an expression under an environment. An unbound identifier is
/// the undefined value, never an error; operands are evaluated left before
/// right, both fully, before the operator is applied.
pub open spec fn eval_expr(env: Map<Seq<char>, Value>, e: ExprView) -> Result<
    Value,
    RuntimeErrorView,
>
    decreases e,
{
    match e {
        ExprView::Identifier(name) => Ok(
            if env.contains_key(name) {
                env[name]
            } else {
                Value::Undefined
            },
        ),
        ExprView::Integer(n) => Ok(Value::Integer(n)),
        ExprView::Binary { left, operator, right } => match eval_expr(env, *left) {
            Err(e1) => Err(e1),
            Ok(l) => match eval_expr(env, *right) {
                Err(e2) => Err(e2),
                Ok(r) => apply_binary(operator, l, r),
            },
        },
        ExprView::Unary { operator, expression } => match eval_expr(env, *expression) {
            Err(e1) => Err(e1),
            Ok(v) => apply_unary(operator, v),
        },
    }
}

/// The output lines of evaluating and rendering each argument in order, and
/// the error that stopped the evaluation, if one did; lines already rendered
/// stand.
pub open spec fn eval_args(env: Map<Seq<char>, Value>, args: Seq<ExprView>) -> (Seq<Seq<char>>,
    Option<RuntimeErrorView>)
    decreases args.len(),
{
    if args.len() == 0 {
        (Seq::empty(), None)
    } else {
        match eval_expr(env, args[0]) {
            Err(e) => (Seq::empty(), Some(e)),
            Ok(v) => {
                let rest = eval_args(env, args.drop_first());
                (seq![render(v)].add(rest.0), rest.1)
            },
        }
    }
}

/// The result, successor environment, and output of one statement: a binding
/// evaluates its expression and stores the value under its name; a call to
/// the built-in named `Print` renders each argument as one output line and
/// results in the undefined value; a call to any other name is an error; an
/// empty statement does nothing.
pub open spec fn eval_stmt(env: Map<Seq<char>, Value>, s: StmtView) -> (Result<
    Value,
    RuntimeErrorView,
>, Map<Seq<char>, Value>, Seq<Seq<char>>) {
    match s {
        StmtView::ConstAssignment { identifier, expression } => match eval_expr(env, expression) {
            Err(e) => (Err(e), env, Seq::empty()),
            Ok(v) => (Ok(v), env.insert(identifier, v), Seq::empty()),
        },
        StmtView::MethodInvocation { identifier, arguments } => if identifier == "Print"@ {
            let r = eval_args(env, arguments);
            (
                match r.1 {
                    Some(e) => Err(e),
                    None => Ok(Value::Undefined),
                },
                env,
                r.0,
            )
        } else {
            (Err(RuntimeErrorView::UnknownMethod(identifier)), env, Seq::empty())
        },
        StmtView::Empty => (Ok(Value::Undefined), env, Seq::empty()),
    }
}

/// The result, final environment, and output of a statement sequence: the
/// statements run in order, the result is the last statement's (undefined for
/// an empty sequence), and the first error halts evaluation with all earlier
/// effects standing.
pub open spec fn eval_program(env: Map<Seq<char>, Value>, ss: Seq<StmtView>) -> (Result<
    Value,
    RuntimeErrorView,
>, Map<Seq<char>, Value>, Seq<Seq<char>>)
    decreases ss.len(),
{
    if ss.len() == 0 {
        (Ok(Value::Undefined), env, Seq::empty())
    } else {
        let st = eval_stmt(env, ss[0]);
        match st.0 {
            Err(e) => (Err(e), st.1, st.2),
            Ok(v) => if ss.len() == 1 {
                (Ok(v), st.1, st.2)
            } else {
                let rest = eval_program(st.1, ss.drop_first());
                (rest.0, rest.1, st.2.add(rest.2))
            },
        }
    }
}

/// Does the executable result agree with the specified one, up to views?
pub open spec fn runtime_matches(r: Result<Value, RuntimeError>, g: Result<
    Value,
    RuntimeErrorView,
>) -> bool {
    match r {
        Ok(v) => g matches Ok(gv) && v == gv,
        Err(e) => g matches Err(ge) && e@ == ge,
    }
}

/// Applies a binary operator to two evaluated operands.
fn exec_binary(op: BinaryOperator, l: Value, r: Value) -> (res: Result<Value, RuntimeError>)
    ensures
        runtime_matches(res, apply_binary(op, l, r)),
{
    match (l, r) {
        (Value::Integer(a), Value::Integer(b)) => match op {
            BinaryOperator::Add => Ok(Value::Integer(a.wrapping_add(b))),
            BinaryOperator::Sub => Ok(Value::Integer(a.wrapping_sub(b))),
            BinaryOperator::Mul => Ok(Value::Integer(a.wrapping_mul(b))),
            BinaryOperator::Div => if b == 0 {
                Err(RuntimeError::DivisionByZero)
            } else {
                match a.checked_div(b) {
                    Some(q) => Ok(Value::Integer(q)),
                    None => Ok(Value::Integer(i32::MIN)),
                }
            },
            BinaryOperator::Mod => if b == 0 {
                Err(RuntimeError::DivisionByZero)
            } else {
                match a.checked_rem(b) {
                    Some(m) => Ok(Value::Integer(m)),
                    None => Ok(Value::Integer(0)),
                }
            },
            BinaryOperator::Eq => Ok(Value::Boolean(a == b)),
            BinaryOperator::Ne => Ok(Value::Boolean(a != b)),
            BinaryOperator::Gt => Ok(Value::Boolean(a > b)),
            BinaryOperator::Lt => Ok(Value::Boolean(a < b)),
            BinaryOperator::Le => Ok(Value::Boolean(a >= b)),
            BinaryOperator::Ge => Ok(Value::Boolean(a <= b)),
            _ => Err(
                RuntimeError::TypeMismatch {
                    expected: RuntimeType::Integer,
                    actual: RuntimeType::Boolean,
                },
            ),
        },
        (Value::Boolean(a), Value::Boolean(b)) => match op {
            BinaryOperator::And => Ok(Value::Boolean(a && b)),
            BinaryOperator::Or => Ok(Value::Boolean(a || b)),
            BinaryOperator::Xor => Ok(Value::Boolean(a || b)),
            _ => Err(
                RuntimeError::TypeMismatch {
                    expected: RuntimeType::Boolean,
                    actual: RuntimeType::Integer,
                },
            ),
        },
        (lv, rv) => Err(
            RuntimeError::TypeMismatch { expected: lv.type_of(), actual: rv.type_of() },
        ),
    }
}

/// Applies a unary operator to its evaluated operand.
fn exec_unary(op: UnaryOperator, v: Value) -> (res: Result<Value, RuntimeError>)
    ensures
        runtime_matches(res, apply_unary(op, v)),
{
    match op {
        UnaryOperator::Negative => match v {
            Value::Integer(n) => Ok(Value::Integer((0i32).wrapping_sub(n))),
            _ => Err(
                RuntimeError::TypeMismatch {
                    expected: RuntimeType::Integer,
                    actual: RuntimeType::Integer,
                },
            ),
        },
        UnaryOperator::Positive => match v {
            Value::Integer(n) => Ok(Value::Integer(n)),
            _ => Err(
                RuntimeError::TypeMismatch {
                    expected: RuntimeType::Integer,
                    actual: RuntimeType::Integer,
                },
            ),
        },
        UnaryOperator::Not => match v {
            Value::Boolean(b) => Ok(Value::Boolean(!b)),
            _ => Err(
                RuntimeError::TypeMismatch {
                    expected: RuntimeType::Integer,
                    actual: RuntimeType::Integer,
                },
            ),
        },
    }
}

/// Renders a value as the text of one output line.
fn render_value(v: &Value) -> (s: String)
    ensures
        s@ == render(*v),
{
    match v {
        Value::Integer(n) => i32_to_text(*n),
        Value::Boolean(b) => if *b {
            "true".to_owned()
        } else {
            "false".to_owned()
        },
        Value::Undefined => "undefined".to_owned(),
    }
}

/// Is this the name of the print built-in?
fn is_print_name(name: &String) -> (b: bool)
    ensures
        b == (name@ == "Print"@),
{
    let p: String = "Print".to_owned();
    *name == p
}

/// The evaluator: a flat variable environment and the output lines emitted
/// so far.
pub struct Executor {
    variables: Vec<(String, Value)>,
    output: Vec<String>,
}

impl Executor {
    /// The environment as a map from names to values.
    pub closed spec fn env(&self) -> Map<Seq<char>, Value> {
        env_of(self.variables@)
    }

    /// The output emitted so far, one line per element.
    pub closed spec fn lines(&self) -> Seq<Seq<char>> {
        self.output@.map_values(|s: String| s@)
    }

    /// Each name is bound by at most one entry.
    pub closed spec fn wf(&self) -> bool {
        unique_keys(self.variables@)
    }

    /// An executor with an empty environment and no output.
    pub fn new() -> (e: Executor)
        ensures
            e.wf(),
            e.env() == Map::<Seq<char>, Value>::empty(),
            e.lines() == Seq::<Seq<char>>::empty(),
    {
        let e = Executor { variables: Vec::new(), output: Vec::new() };
        proof {
            assert(e.lines() =~= Seq::<Seq<char>>::empty());
        }
        e
    }

    /// The output lines emitted so far.
    pub fn output(&self) -> (out: &Vec<String>)
        ensures
            out@.map_values(|s: String| s@) == self.lines(),
    {
        &self.output
    }

    /// Binds `name` to `value`, replacing any earlier binding of the name.
    pub fn set_variable(&mut self, name: String, value: &Value)
        requires
            old(self).wf(),
        ensures
            final(self).wf(),
            final(self).env() == old(self).env().insert(name@, *value),
            final(self).lines() == old(self).lines(),
    {
        let n = self.variables.len();
        let mut i: usize = 0;
        while i < n
            invariant
                old(self).wf(),
                n == self.variables.len(),
                *self == *old(self),
                0 <= i <= n,
                forall|j: int| 0 <= j < i ==> (#[trigger] self.variables@[j]).0@ != name@,
            decreases n - i,
        {
            if self.variables[i].0 == name {
                proof {
                    lemma_env_update(self.variables@, i as int, (name, *value));
                }
                let ghost before = self.variables@;
                self.variables[i] = (name, *value);
                proof {
                    assert(self.variables@ =~= before.update(i as int, (name, *value)));
                    assert forall|a: int, b: int|
                        0 <= a < b < self.variables@.len() implies (
                    #[trigger] self.variables@[a]).0@ != (#[trigger] self.variables@[b]).0@ by {
                        assert(before[a].0@ != before[b].0@);
                    }
                }
                return ;
            }
            i = i + 1;
        }
        proof {
            lemma_env_absent(self.variables@, name@);
        }
        let ghost before = self.variables@;
        self.variables.push((name, *value));
        proof {
            assert(self.variables@.drop_last() =~= before);
            assert(self.variables@.last() == (name, *value));
            assert forall|a: int, b: int|
                0 <= a < b < self.variables@.len() implies (#[trigger] self.variables@[a]).0@ != (
            #[trigger] self.variables@[b]).0@ by {
                if b < before.len() {
                    assert(before[a].0@ != before[b].0@);
                } else {
                    assert(before[a].0@ != name@);
                }
            }
        }
    }

    /// Looks `name` up; `None` when it is unbound.
    pub fn get_variable(&mut self, name: &str) -> (r: Option<Value>)
        requires
            old(self).wf(),
        ensures
            *final(self) == *old(self),
            old(self).env().contains_key(name@) ==> r == Some(old(self).env()[name@]),
            !old(self).env().contains_key(name@) ==> r is None,
    {
        let key: String = name.to_owned();
        let n = self.variables.len();
        let mut i: usize = 0;
        while i < n
            invariant
                n == self.variables.len(),
                *self == *old(self),
                self.wf(),
                key@ == name@,
                0 <= i <= n,
                forall|j: int| 0 <= j < i ==> (#[trigger] self.variables@[j]).0@ != name@,
            decreases n - i,
        {
            if self.variables[i].0 == key {
                proof {
                    lemma_env_at(self.variables@, i as int);
                }
                return Some(self.variables[i].1);
            }
            i = i + 1;
        }
        proof {
            lemma_env_absent(self.variables@, name@);
        }
        None
    }

    /// Evaluates one expression; the executor itself is unchanged.
    fn execute_expression(&mut self, expression: &Expression) -> (r: Result<Value, RuntimeError>)
        requires
            old(self).wf(),
        ensures
            *final(self) == *old(self),
            runtime_matches(r, eval_expr(old(self).env(), expression@)),
        decreases *expression,
    {
        match expression {
            Expression::Identifier(name) => match self.get_variable(name.as_str()) {
                Some(v) => Ok(v),
                None => Ok(Value::Undefined),
            },
            Expression::Integer(n) => Ok(Value::Integer(*n)),
            Expression::Binary { left, operator, right } => {
                let l = match self.execute_expression(left) {
                    Ok(v) => v,
                    Err(e) => {
                        return Err(e);
                    },
                };
                let r0 = match self.execute_expression(right) {
                    Ok(v) => v,
                    Err(e) => {
                        return Err(e);
                    },
                };
                exec_binary(*operator, l, r0)
            },
            Expression::Unary { operator, expression: operand } => {
                let v = match self.execute_expression(operand) {
                    Ok(v) => v,
                    Err(e) => {
                        return Err(e);
                    },
                };
                exec_unary(*operator, v)
            },
        }
    }

    /// Evaluates a binding's expression and stores the value under the name;
    /// on an error nothing is bound.
    fn execute_const_assignment(&mut self, identifier: String, expression: &Expression) -> (r:
        Result<Value, RuntimeError>)
        requires
            old(self).wf(),
        ensures
            final(self).wf(),
            ({
                let t = eval_stmt(
                    old(self).env(),
                    StmtView::ConstAssignment { identifier: identifier@, expression: expression@ },
                );
                runtime_matches(r, t.0) && final(self).env() == t.1 && final(self).lines() == old(
                    self,
                ).lines().add(t.2)
            }),
    {
        let evaluated = match self.execute_expression(expression) {
            Ok(v) => v,
            Err(e) => {
                proof {
                    assert(old(self).lines().add(Seq::<Seq<char>>::empty()) =~= old(self).lines());
                }
                return Err(e);
            },
        };
        self.set_variable(identifier, &evaluated);
        proof {
            assert(old(self).lines().add(Seq::<Seq<char>>::empty()) =~= old(self).lines());
        }
        Ok(evaluated)
    }

    /// Runs a built-in call: the print built-in renders each argument in
    /// order as one output line; any other name is an error.
    fn execute_method(&mut self, identifier: &String, arguments: &Vec<Expression>) -> (r: Result<
        Value,
        RuntimeError,
    >)
        requires
            old(self).wf(),
        ensures
            final(self).wf(),
            ({
                let t = eval_stmt(
                    old(self).env(),
                    StmtView::MethodInvocation {
                        identifier: identifier@,
                        arguments: arguments@.map_values(|e: Expression| e@),
                    },
                );
                runtime_matches(r, t.0) && final(self).env() == t.1 && final(self).lines() == old(
                    self,
                ).lines().add(t.2)
            }),
    {
        let ghost env0 = self.env();
        let ghost avs = arguments@.map_values(|e: Expression| e@);
        if !is_print_name(identifier) {
            proof {
                assert(old(self).lines().add(Seq::<Seq<char>>::empty()) =~= old(self).lines());
            }
            return Err(RuntimeError::UnknownMethod(identifier.clone()));
        }
        let n = arguments.len();
        let mut i: usize = 0;
        proof {
            assert(avs.skip(0) =~= avs);
            assert(self.lines().skip(old(self).lines().len() as int) =~= Seq::<Seq<char>>::empty());
            assert(Seq::<Seq<char>>::empty().add(eval_args(env0, avs).0) =~= eval_args(
                env0,
                avs,
            ).0);
            assert(old(self).lines() =~= self.lines().take(old(self).lines().len() as int));
        }
        while i < n
            invariant
                old(self).wf(),
                identifier@ == "Print"@,
                n == arguments.len(),
                avs == arguments@.map_values(|e: Expression| e@),
                avs.len() == n,
                0 <= i <= n,
                self.wf(),
                self.variables == old(self).variables,
                self.env() == env0,
                env0 == old(self).env(),
                old(self).lines().len() <= self.lines().len(),
                ({
                    let full = eval_args(env0, avs);
                    let rest = eval_args(env0, avs.skip(i as int));
                    full.0 == self.lines().skip(old(self).lines().len() as int).add(rest.0)
                        && full.1 == rest.1 && old(self).lines() == self.lines().take(
                        old(self).lines().len() as int,
                    )
                }),
            decreases n - i,
        {
            proof {
                assert(avs.skip(i as int)[0] == avs[i as int]);
                assert(avs[i as int] == arguments@[i as int]@);
            }
            let v = match self.execute_expression(&arguments[i]) {
                Ok(v) => v,
                Err(e) => {
                    proof {
                        assert(eval_expr(env0, avs.skip(i as int)[0]) == Err::<
                            Value,
                            RuntimeErrorView,
                        >(e@));
                        assert(eval_args(env0, avs.skip(i as int)) == (
                            Seq::<Seq<char>>::empty(),
                            Some(e@),
                        ));
                        assert(eval_args(env0, avs).0 =~= self.lines().skip(
                            old(self).lines().len() as int,
                        ));
                        assert(self.lines() =~= old(self).lines().add(
                            self.lines().skip(old(self).lines().len() as int),
                        ));
                    }
                    return Err(e);
                },
            };
            let line = render_value(&v);
            let ghost prev_lines = self.lines();
            self.output.push(line);
            proof {
                assert(self.lines() =~= prev_lines.push(line@));
                assert(avs.skip(i as int).drop_first() =~= avs.skip(i as int + 1));
                let full = eval_args(env0, avs);
                let rest_old = eval_args(env0, avs.skip(i as int));
                let rest_new = eval_args(env0, avs.skip(i as int + 1));
                assert(rest_old.0 == seq![render(v)].add(rest_new.0));
                assert(full.0 =~= self.lines().skip(old(self).lines().len() as int).add(
                    rest_new.0,
                ));
                assert(old(self).lines() =~= self.lines().take(old(self).lines().len() as int));
            }
            i = i + 1;
        }
        proof {
            assert(avs.skip(n as int) =~= Seq::<ExprView>::empty());
            let full = eval_args(env0, avs);
            assert(full.1 is None);
            assert(self.lines().skip(old(self).lines().len() as int).add(
                Seq::<Seq<char>>::empty(),
            ) =~= self.lines().skip(old(self).lines().len() as int));
            assert(self.lines() =~= old(self).lines().add(full.0));
        }
        Ok(Value::Undefined)
    }

    /// Runs one statement.
    fn execute_statement(&mut self, statement: &Statement) -> (r: Result<Value, RuntimeError>)
        requires
            old(self).wf(),
        ensures
            final(self).wf(),
            ({
                let t = eval_stmt(old(self).env(), statement@);
                runtime_matches(r, t.0) && final(self).env() == t.1 && final(self).lines() == old(
                    self,
                ).lines().add(t.2)
            }),
    {
        match statement {
            Statement::ConstAssignment { identifier, expression } => self.execute_const_assignment(
                identifier.clone(),
                expression,
            ),
            Statement::MethodInvocation { identifier, arguments } => self.execute_method(
                identifier,
                arguments,
            ),
            Statement::Empty => {
                proof {
                    assert(old(self).lines().add(Seq::<Seq<char>>::empty()) =~= old(self).lines());
                }
                Ok(Value::Undefined)
            },
        }
    }

    /// Runs the statements from index `i` on, in order.
    fn execute_from(&mut self, program: &Program, i: usize) -> (r: Result<Value, RuntimeError>)
        requires
            old(self).wf(),
            i <= program.statements.len(),
        ensures
            final(self).wf(),
            ({
                let t = eval_program(old(self).env(), program@.skip(i as int));
                runtime_matches(r, t.0) && final(self).env() == t.1 && final(self).lines() == old(
                    self,
                ).lines().add(t.2)
            }),
        decreases program.statements.len() - i,
    {
        let ghost svs = program@.skip(i as int);
        if i == program.statements.len() {
            proof {
                assert(svs.len() == 0);
                assert(old(self).lines().add(Seq::<Seq<char>>::empty()) =~= old(self).lines());
            }
            return Ok(Value::Undefined);
        }
        proof {
            assert(svs[0] == program@[i as int]);
            assert(program@[i as int] == program.statements@[i as int]@);
        }
        let v = match self.execute_statement(&program.statements[i]) {
            Ok(v) => v,
            Err(e) => {
                return Err(e);
            },
        };
        if i + 1 == program.statements.len() {
            proof {
                assert(svs.len() == 1);
            }
            Ok(v)
        } else {
            let ghost mid_lines = self.lines();
            let r2 = self.execute_from(program, i + 1);
            proof {
                assert(svs.drop_first() =~= program@.skip(i as int + 1));
                let st = eval_stmt(old(self).env(), svs[0]);
                let rest = eval_program(st.1, svs.drop_first());
                assert(old(self).lines().add(st.2.add(rest.2)) =~= old(self).lines().add(
                    st.2,
                ).add(rest.2));
            }
            r2
        }
    }

    /// Runs a program's statements in order against this executor's
    /// environment. The result is the last statement's value — the undefined
    /// value for an empty program — or the first evaluation error, with all
    /// earlier bindings and output standing.
    pub fn execute(&mut self, program: &Program) -> (r: Result<Value, RuntimeError>)
        requires
            old(self).wf(),
        ensures
            final(self).wf(),
            ({
                let t = eval_program(old(self).env(), program@);
                runtime_matches(r, t.0) && final(self).env() == t.1 && final(self).lines() == old(
                    self,
                ).lines().add(t.2)
            }),
    {
        proof {
            assert(program@.skip(0) =~= program@);
        }
        self.execute_from(program, 0)
    }
}

} // verus!
