use vstd::prelude::*;

use crate::ast::BinaryBoolOp;
use crate::ast::BinaryNumOp;
use crate::ast::CmpBoolOp;
use crate::env::FunctionInfoV;
use crate::env::env_lookup;
use crate::env::env_ok;
use crate::env::env_pop;
use crate::env::env_push;
use crate::error::Error;
use crate::spec_ast::CondCaseV;
use crate::spec_ast::ExprV;
use crate::value::Value;
use crate::value::ValueList;
use crate::value::ValueNode;

verus! {

/// The mathematical form of the variable environment.
pub type EnvV = Map<Seq<char>, Seq<Value>>;

/// The mathematical form of the function table.
pub type FunsV = Map<Seq<char>, FunctionInfoV>;

/// Truncating division, as the host's `/` computes it on machine integers:
/// the quotient of the magnitudes, with the sign of the exact quotient.
/// Meaningful only for `b != 0`.
pub open spec fn trunc_div(a: i32, b: i32) -> int
    recommends
        b != 0,
{
    let x = a as int;
    let d = b as int;
    if x == 0 {
        0
    } else if x > 0 && d > 0 {
        x / d
    } else if x < 0 && d < 0 {
        (x * -1) / (d * -1)
    } else if x < 0 {
        ((x * -1) / d) * -1
    } else {
        (x / (d * -1)) * -1
    }
}

/// Truncating remainder, as the host's `%` computes it: the remainder of
/// the magnitudes, with the sign of the dividend. Meaningful only for
/// `b != 0`.
pub open spec fn trunc_rem(a: i32, b: i32) -> int
    recommends
        b != 0,
{
    let x = a as int;
    let d = b as int;
    if x == 0 {
        0
    } else if x > 0 && d > 0 {
        x % d
    } else if x < 0 && d < 0 {
        ((x * -1) % (d * -1)) * -1
    } else if x < 0 {
        ((x * -1) % d) * -1
    } else {
        x % (d * -1)
    }
}

/// Truncating division and remainder are exactly the machine's: the
/// quotient times the divisor plus the remainder gives the dividend back,
/// the remainder is smaller in magnitude than the divisor, and it carries
/// the dividend's sign.
pub proof fn lemma_trunc_div_rem(a: i32, b: i32)
    requires
        b != 0,
    ensures
        trunc_div(a, b) * b + trunc_rem(a, b) == a,
        b > 0 ==> -b < trunc_rem(a, b) < b,
        b < 0 ==> b < trunc_rem(a, b) < -b,
        a >= 0 ==> trunc_rem(a, b) >= 0,
        a <= 0 ==> trunc_rem(a, b) <= 0,
{
    let x = a as int;
    let d = b as int;
    if x == 0 {
    } else if x > 0 && d > 0 {
        vstd::arithmetic::div_mod::lemma_fundamental_div_mod(x, d);
        vstd::arithmetic::div_mod::lemma_mod_bound(x, d);
        assert(trunc_div(a, b) * b + trunc_rem(a, b) == a) by (nonlinear_arith)
            requires
                x == d * (x / d) + x % d,
                x == a as int,
                d == b as int,
                trunc_div(a, b) == x / d,
                trunc_rem(a, b) == x % d,
        ;
    } else if x < 0 && d < 0 {
        let n = x * -1;
        let m = d * -1;
        vstd::arithmetic::div_mod::lemma_fundamental_div_mod(n, m);
        vstd::arithmetic::div_mod::lemma_mod_bound(n, m);
        assert(trunc_div(a, b) * b + trunc_rem(a, b) == a) by (nonlinear_arith)
            requires
                n == m * (n / m) + n % m,
                x == n * -1,
                d == m * -1,
                x == a as int,
                d == b as int,
                trunc_div(a, b) == n / m,
                trunc_rem(a, b) == (n % m) * -1,
        ;
    } else if x < 0 {
        let n = x * -1;
        vstd::arithmetic::div_mod::lemma_fundamental_div_mod(n, d);
        vstd::arithmetic::div_mod::lemma_mod_bound(n, d);
        assert(trunc_div(a, b) * b + trunc_rem(a, b) == a) by (nonlinear_arith)
            requires
                n == d * (n / d) + n % d,
                x == n * -1,
                x == a as int,
                d == b as int,
                trunc_div(a, b) == (n / d) * -1,
                trunc_rem(a, b) == (n % d) * -1,
        ;
    } else {
        let m = d * -1;
        vstd::arithmetic::div_mod::lemma_fundamental_div_mod(x, m);
        vstd::arithmetic::div_mod::lemma_mod_bound(x, m);
        assert(trunc_div(a, b) * b + trunc_rem(a, b) == a) by (nonlinear_arith)
            requires
                x == m * (x / m) + x % m,
                d == m * -1,
                x == a as int,
                d == b as int,
                trunc_div(a, b) == (x / m) * -1,
                trunc_rem(a, b) == x % m,
        ;
    }
}

/// One binary arithmetic step. Division and modulo by zero fail before
/// computing; otherwise the result is the machine result: exact where it
/// fits in 32 bits, wrapped two's-complement where it does not.
pub open spec fn eval_num_binop(op: BinaryNumOp, a: i32, b: i32) -> Result<Value, Error> {
    match op {
        BinaryNumOp::Add => Ok(Value::NumValue(vstd::wrapping::i32_specs::wrapping_add(a, b))),
        BinaryNumOp::Sub => Ok(Value::NumValue(vstd::wrapping::i32_specs::wrapping_sub(a, b))),
        BinaryNumOp::Mul => Ok(Value::NumValue(vstd::wrapping::i32_specs::wrapping_mul(a, b))),
        BinaryNumOp::Div => if b == 0 {
            Err(Error::DivisionByZero)
        } else {
            Ok(Value::NumValue(vstd::wrapping::i32_specs::signed_crop(trunc_div(a, b))))
        },
        BinaryNumOp::Mod => if b == 0 {
            Err(Error::ModuloByZero)
        } else {
            Ok(Value::NumValue(vstd::wrapping::i32_specs::signed_crop(trunc_rem(a, b))))
        },
    }
}

/// One comparison step over numbers.
pub open spec fn eval_cmp(op: CmpBoolOp, a: i32, b: i32) -> bool {
    match op {
        CmpBoolOp::Lt => a < b,
        CmpBoolOp::Eq => a == b,
        CmpBoolOp::Gt => a > b,
    }
}

/// The environment after binding each evaluated argument to the matching
/// parameter name, in declaration order. Meaningful only when there are at
/// least as many parameters as values.
pub open spec fn push_params(env: EnvV, params: Seq<Seq<char>>, vals: Seq<Value>) -> EnvV
    recommends
        vals.len() <= params.len(),
    decreases vals.len(),
{
    if vals.len() == 0 {
        env
    } else {
        push_params(env_push(env, params[0], vals[0]), params.drop_first(), vals.drop_first())
    }
}

/// The environment after popping one binding for each of the first `n`
/// parameter names, in declaration order.
pub open spec fn pop_params(env: EnvV, params: Seq<Seq<char>>, n: nat) -> EnvV
    recommends
        n <= params.len(),
    decreases n,
{
    if n == 0 {
        env
    } else {
        pop_params(env_pop(env, params[0]), params.drop_first(), (n - 1) as nat)
    }
}

/// Popping a name directly after pushing it restores the environment.
pub proof fn lemma_env_pop_push(env: EnvV, name: Seq<char>, value: Value)
    requires
        env_ok(env),
    ensures
        env_pop(env_push(env, name, value), name) == env,
{
    if env.contains_key(name) {
        let stack = env[name];
        assert(stack.push(value).drop_last() =~= stack);
        assert(env_pop(env_push(env, name, value), name) =~= env);
    } else {
        assert(seq![value].drop_last().len() == 0);
        assert(env_pop(env_push(env, name, value), name) =~= env);
    }
}

/// Pops of two names commute: each acts on its own stack.
pub proof fn lemma_env_pop_comm(env: EnvV, a: Seq<char>, b: Seq<char>)
    ensures
        env_pop(env_pop(env, a), b) == env_pop(env_pop(env, b), a),
{
    if a == b {
    } else {
        assert(env_pop(env_pop(env, a), b) =~= env_pop(env_pop(env, b), a));
    }
}

proof fn lemma_env_pop_pop_params(env: EnvV, params: Seq<Seq<char>>, n: nat, name: Seq<char>)
    requires
        n <= params.len(),
    ensures
        env_pop(pop_params(env, params, n), name) == pop_params(env_pop(env, name), params, n),
    decreases n,
{
    if n > 0 {
        lemma_env_pop_pop_params(env_pop(env, params[0]), params.drop_first(), (n - 1) as nat, name);
        lemma_env_pop_comm(env, params[0], name);
    }
}

/// The call discipline restores the caller's environment: popping one
/// binding per bound parameter, in declaration order, exactly undoes the
/// pushes that bound the arguments.
pub proof fn lemma_pop_params_push_params(env: EnvV, params: Seq<Seq<char>>, vals: Seq<Value>)
    requires
        env_ok(env),
        vals.len() <= params.len(),
    ensures
        pop_params(push_params(env, params, vals), params, vals.len()) == env,
    decreases vals.len(),
{
    if vals.len() > 0 {
        let env1 = env_push(env, params[0], vals[0]);
        assert(env_ok(env1));
        lemma_pop_params_push_params(env1, params.drop_first(), vals.drop_first());
        lemma_env_pop_pop_params(
            push_params(env1, params.drop_first(), vals.drop_first()),
            params.drop_first(),
            (vals.len() - 1) as nat,
            params[0],
        );
        lemma_env_pop_push(env, params[0], vals[0]);
    }
}

/// Big-step evaluation of one expression: eager, strict, structural
/// recursion, with `fuel` bounding the depth of user function calls.
///
/// The environment is threaded as a value: a successful sub-evaluation
/// leaves no trace in it, so each step evaluates against the same
/// environment, and a call evaluates its body against the environment
/// extended by its parameter bindings.
pub open spec fn spec_eval(e: ExprV, env: EnvV, funs: FunsV, fuel: nat) -> Result<Value, Error>
    decreases fuel, e, 0nat,
{
    match e {
        ExprV::NumLit { value } => Ok(Value::NumValue(value)),
        ExprV::BoolLit { value } => Ok(Value::BoolValue(value)),
        ExprV::Var { name } => match env_lookup(env, name) {
            Some(v) => Ok(v),
            None => Err(Error::UndefinedVariable),
        },
        ExprV::BinaryNum { op, left, right } => match spec_eval_num(*left, env, funs, fuel) {
            Ok(a) => match spec_eval_num(*right, env, funs, fuel) {
                Ok(b) => eval_num_binop(op, a, b),
                Err(er) => Err(er),
            },
            Err(er) => Err(er),
        },
        ExprV::BinaryBool { op, left, right } => match op {
            BinaryBoolOp::And => match spec_eval_bool(*left, env, funs, fuel) {
                Ok(false) => Ok(Value::BoolValue(false)),
                Ok(true) => match spec_eval_bool(*right, env, funs, fuel) {
                    Ok(b) => Ok(Value::BoolValue(b)),
                    Err(er) => Err(er),
                },
                Err(er) => Err(er),
            },
            BinaryBoolOp::Or => match spec_eval_bool(*left, env, funs, fuel) {
                Ok(true) => Ok(Value::BoolValue(true)),
                Ok(false) => match spec_eval_bool(*right, env, funs, fuel) {
                    Ok(b) => Ok(Value::BoolValue(b)),
                    Err(er) => Err(er),
                },
                Err(er) => Err(er),
            },
        },
        ExprV::Not { value } => match spec_eval_bool(*value, env, funs, fuel) {
            Ok(b) => Ok(Value::BoolValue(!b)),
            Err(er) => Err(er),
        },
        ExprV::Cmp { op, left, right } => match spec_eval_num(*left, env, funs, fuel) {
            Ok(a) => match spec_eval_num(*right, env, funs, fuel) {
                Ok(b) => Ok(Value::BoolValue(eval_cmp(op, a, b))),
                Err(er) => Err(er),
            },
            Err(er) => Err(er),
        },
        ExprV::Cond { cases } => spec_eval_cond(cases, env, funs, fuel),
        ExprV::Call { name, arguments } => match spec_eval_args(arguments, env, funs, fuel) {
            Ok(vals) => if !funs.contains_key(name) {
                Err(Error::UndefinedFunction)
            } else {
                let info = funs[name];
                if vals.len() > info.parameter_names.len() {
                    Err(Error::UndefinedFunction)
                } else if fuel == 0 {
                    Err(Error::StackExhaustion)
                } else {
                    spec_eval(
                        info.body,
                        push_params(env, info.parameter_names, vals),
                        funs,
                        (fuel - 1) as nat,
                    )
                }
            },
            Err(er) => Err(er),
        },
        ExprV::ListEmpty => Ok(Value::ListValue(ValueList::Empty)),
        ExprV::ListNode { data, next } => match spec_eval(*data, env, funs, fuel) {
            Ok(v) => match spec_eval(*next, env, funs, fuel) {
                Ok(Value::ListValue(l)) => Ok(
                    Value::ListValue(
                        ValueList::Node(ValueNode { data: Box::new(v), next: Box::new(l) }),
                    ),
                ),
                Ok(_) => Err(Error::TypeMismatch),
                Err(er) => Err(er),
            },
            Err(er) => Err(er),
        },
        ExprV::Car { list } => match spec_eval(*list, env, funs, fuel) {
            Ok(Value::ListValue(ValueList::Empty)) => Err(Error::EmptyListError),
            Ok(Value::ListValue(ValueList::Node(n))) => Ok(*n.data),
            Ok(_) => Err(Error::TypeMismatch),
            Err(er) => Err(er),
        },
        ExprV::Cdr { list } => match spec_eval(*list, env, funs, fuel) {
            Ok(Value::ListValue(ValueList::Empty)) => Err(Error::EmptyListError),
            Ok(Value::ListValue(ValueList::Node(n))) => Ok(Value::ListValue(*n.next)),
            Ok(_) => Err(Error::TypeMismatch),
            Err(er) => Err(er),
        },
        ExprV::EmptyHuh { list } => match spec_eval(*list, env, funs, fuel) {
            Ok(Value::ListValue(ValueList::Empty)) => Ok(Value::BoolValue(true)),
            Ok(Value::ListValue(ValueList::Node(_))) => Ok(Value::BoolValue(false)),
            Ok(_) => Err(Error::TypeMismatch),
            Err(er) => Err(er),
        },
        ExprV::ListHuh { expr } => match spec_eval(*expr, env, funs, fuel) {
            Ok(Value::ListValue(_)) => Ok(Value::BoolValue(true)),
            Ok(_) => Ok(Value::BoolValue(false)),
            Err(er) => Err(er),
        },
        ExprV::Define { .. } => Err(Error::MisplacedDefinition),
        ExprV::NumPos { expr } => match spec_eval(*expr, env, funs, fuel) {
            Ok(Value::NumValue(n)) => Ok(Value::NumValue(n)),
            Ok(_) => Err(Error::TypeMismatch),
            Err(er) => Err(er),
        },
        ExprV::BoolPos { expr } => match spec_eval(*expr, env, funs, fuel) {
            Ok(Value::BoolValue(b)) => Ok(Value::BoolValue(b)),
            Ok(_) => Err(Error::TypeMismatch),
            Err(er) => Err(er),
        },
        ExprV::ListPos { expr } => match spec_eval(*expr, env, funs, fuel) {
            Ok(Value::ListValue(l)) => Ok(Value::ListValue(l)),
            Ok(_) => Err(Error::TypeMismatch),
            Err(er) => Err(er),
        },
    }
}

/// A numeric position evaluates its expression and insists on a number.
pub proof fn lemma_num_pos(e: ExprV, env: EnvV, funs: FunsV, fuel: nat)
    ensures
        spec_eval(ExprV::NumPos { expr: Box::new(e) }, env, funs, fuel) == (
        match spec_eval_num(e, env, funs, fuel) {
            Ok(n) => Ok::<Value, Error>(Value::NumValue(n)),
            Err(er) => Err::<Value, Error>(er),
        }),
        spec_eval_num(ExprV::NumPos { expr: Box::new(e) }, env, funs, fuel) == spec_eval_num(
            e,
            env,
            funs,
            fuel,
        ),
{
    reveal_with_fuel(spec_eval, 2);
}

/// A boolean position evaluates its expression and insists on a boolean.
pub proof fn lemma_bool_pos(e: ExprV, env: EnvV, funs: FunsV, fuel: nat)
    ensures
        spec_eval(ExprV::BoolPos { expr: Box::new(e) }, env, funs, fuel) == (
        match spec_eval_bool(e, env, funs, fuel) {
            Ok(b) => Ok::<Value, Error>(Value::BoolValue(b)),
            Err(er) => Err::<Value, Error>(er),
        }),
        spec_eval_bool(ExprV::BoolPos { expr: Box::new(e) }, env, funs, fuel) == spec_eval_bool(
            e,
            env,
            funs,
            fuel,
        ),
{
    reveal_with_fuel(spec_eval, 2);
}

/// A list position evaluates its expression and insists on a list.
pub proof fn lemma_list_pos(e: ExprV, env: EnvV, funs: FunsV, fuel: nat)
    ensures
        spec_eval(ExprV::ListPos { expr: Box::new(e) }, env, funs, fuel) == (
        match spec_eval_list(e, env, funs, fuel) {
            Ok(l) => Ok::<Value, Error>(Value::ListValue(l)),
            Err(er) => Err::<Value, Error>(er),
        }),
        spec_eval_list(ExprV::ListPos { expr: Box::new(e) }, env, funs, fuel) == spec_eval_list(
            e,
            env,
            funs,
            fuel,
        ),
{
    reveal_with_fuel(spec_eval, 2);
}

/// Evaluation in a numeric position: the value must be a number.
pub open spec fn spec_eval_num(e: ExprV, env: EnvV, funs: FunsV, fuel: nat) -> Result<i32, Error>
    decreases fuel, e, 1nat,
{
    match spec_eval(e, env, funs, fuel) {
        Ok(Value::NumValue(n)) => Ok(n),
        Ok(_) => Err(Error::TypeMismatch),
        Err(er) => Err(er),
    }
}

/// Evaluation in a boolean position: the value must be a boolean.
pub open spec fn spec_eval_bool(e: ExprV, env: EnvV, funs: FunsV, fuel: nat) -> Result<bool, Error>
    decreases fuel, e, 1nat,
{
    match spec_eval(e, env, funs, fuel) {
        Ok(Value::BoolValue(b)) => Ok(b),
        Ok(_) => Err(Error::TypeMismatch),
        Err(er) => Err(er),
    }
}

/// Evaluation in a list position: the value must be a list.
pub open spec fn spec_eval_list(e: ExprV, env: EnvV, funs: FunsV, fuel: nat) -> Result<
    ValueList,
    Error,
>
    decreases fuel, e, 1nat,
{
    match spec_eval(e, env, funs, fuel) {
        Ok(Value::ListValue(l)) => Ok(l),
        Ok(_) => Err(Error::TypeMismatch),
        Err(er) => Err(er),
    }
}

/// Linear scan of a `cond`'s cases in source order: the result is the body
/// of the first case whose guard is true; no true guard at all is an
/// error.
pub open spec fn spec_eval_cond(cases: Seq<CondCaseV>, env: EnvV, funs: FunsV, fuel: nat) -> Result<
    Value,
    Error,
>
    decreases fuel, cases, 1nat,
{
    if cases.len() == 0 {
        Err(Error::NoMatchingCase)
    } else {
        match spec_eval_bool(cases[0].condition, env, funs, fuel) {
            Ok(true) => spec_eval(cases[0].result, env, funs, fuel),
            Ok(false) => spec_eval_cond(cases.drop_first(), env, funs, fuel),
            Err(er) => Err(er),
        }
    }
}

/// Call-by-value argument evaluation, left to right, before any parameter
/// binding.
pub open spec fn spec_eval_args(args: Seq<ExprV>, env: EnvV, funs: FunsV, fuel: nat) -> Result<
    Seq<Value>,
    Error,
>
    decreases fuel, args, 1nat,
{
    if args.len() == 0 {
        Ok(Seq::empty())
    } else {
        match spec_eval(args[0], env, funs, fuel) {
            Ok(v) => match spec_eval_args(args.drop_first(), env, funs, fuel) {
                Ok(vs) => Ok(seq![v] + vs),
                Err(er) => Err(er),
            },
            Err(er) => Err(er),
        }
    }
}

} // verus!
