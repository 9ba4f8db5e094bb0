use vstd::prelude::*;

use crate::ast::BinaryBoolOp;
use crate::ast::BinaryNumOp;
use crate::error::Error;
use crate::preprocess::spec_preprocess;
use crate::preprocess::spec_subst_pass;
use crate::program::spec_run_program;
use crate::semantics::EnvV;
use crate::semantics::FunsV;
use crate::semantics::eval_num_binop;
use crate::semantics::lemma_bool_pos;
use crate::semantics::lemma_list_pos;
use crate::semantics::lemma_num_pos;
use crate::semantics::spec_eval;
use crate::semantics::spec_eval_bool;
use crate::semantics::spec_eval_cond;
use crate::semantics::trunc_div;
use crate::semantics::trunc_rem;
use crate::spec_ast::CondCaseV;
use crate::spec_ast::ExprV;
use crate::value::Value;

verus! {

/// The parsed form of `(op a b)` over two numeric literals, as the parser
/// builds it.
pub open spec fn num_binop_node(op: BinaryNumOp, a: i32, b: i32) -> ExprV {
    ExprV::BinaryNum {
        op,
        left: Box::new(ExprV::NumPos { expr: Box::new(ExprV::NumLit { value: a }) }),
        right: Box::new(ExprV::NumPos { expr: Box::new(ExprV::NumLit { value: b }) }),
    }
}

/// Arithmetic over literals follows the machine's integer semantics: the
/// exact sum, difference or product wherever it fits in 32 bits, the
/// truncating quotient and remainder for non-zero divisors, and the
/// division and modulo errors exactly on zero divisors.
pub proof fn lemma_arithmetic_on_literals(
    op: BinaryNumOp,
    a: i32,
    b: i32,
    env: EnvV,
    funs: FunsV,
    fuel: nat,
)
    ensures
        spec_eval(num_binop_node(op, a, b), env, funs, fuel) == eval_num_binop(op, a, b),
        op == BinaryNumOp::Div && b == 0 ==> spec_eval(num_binop_node(op, a, b), env, funs, fuel)
            == Err::<Value, Error>(Error::DivisionByZero),
        op == BinaryNumOp::Mod && b == 0 ==> spec_eval(num_binop_node(op, a, b), env, funs, fuel)
            == Err::<Value, Error>(Error::ModuloByZero),
        op == BinaryNumOp::Add && i32::MIN <= a + b <= i32::MAX ==> spec_eval(
            num_binop_node(op, a, b),
            env,
            funs,
            fuel,
        ) == Ok::<Value, Error>(Value::NumValue((a + b) as i32)),
        op == BinaryNumOp::Sub && i32::MIN <= a - b <= i32::MAX ==> spec_eval(
            num_binop_node(op, a, b),
            env,
            funs,
            fuel,
        ) == Ok::<Value, Error>(Value::NumValue((a - b) as i32)),
        op == BinaryNumOp::Mul && i32::MIN <= a * b <= i32::MAX ==> spec_eval(
            num_binop_node(op, a, b),
            env,
            funs,
            fuel,
        ) == Ok::<Value, Error>(Value::NumValue((a * b) as i32)),
        op == BinaryNumOp::Div && b != 0 && !(a == i32::MIN && b == -1) ==> spec_eval(
            num_binop_node(op, a, b),
            env,
            funs,
            fuel,
        ) == Ok::<Value, Error>(Value::NumValue(trunc_div(a, b) as i32)),
        op == BinaryNumOp::Mod && b != 0 && !(a == i32::MIN && b == -1) ==> spec_eval(
            num_binop_node(op, a, b),
            env,
            funs,
            fuel,
        ) == Ok::<Value, Error>(Value::NumValue(trunc_rem(a, b) as i32)),
{
    lemma_num_pos(ExprV::NumLit { value: a }, env, funs, fuel);
    lemma_num_pos(ExprV::NumLit { value: b }, env, funs, fuel);
    crate::eval::lemma_wrapping_exact(a, b);
    if b != 0 && !(a == i32::MIN && b == -1) {
        crate::eval::lemma_trunc_fits(a, b);
    }
}

/// `and` short-circuits on a false left operand and `or` on a true one:
/// the right operand is never evaluated, whatever error it would raise.
pub proof fn lemma_short_circuit(rhs: ExprV, env: EnvV, funs: FunsV, fuel: nat)
    ensures
        spec_eval(
            ExprV::BinaryBool {
                op: BinaryBoolOp::And,
                left: Box::new(ExprV::BoolPos { expr: Box::new(ExprV::BoolLit { value: false }) }),
                right: Box::new(rhs),
            },
            env,
            funs,
            fuel,
        ) == Ok::<Value, Error>(Value::BoolValue(false)),
        spec_eval(
            ExprV::BinaryBool {
                op: BinaryBoolOp::Or,
                left: Box::new(ExprV::BoolPos { expr: Box::new(ExprV::BoolLit { value: true }) }),
                right: Box::new(rhs),
            },
            env,
            funs,
            fuel,
        ) == Ok::<Value, Error>(Value::BoolValue(true)),
{
    lemma_bool_pos(ExprV::BoolLit { value: false }, env, funs, fuel);
    lemma_bool_pos(ExprV::BoolLit { value: true }, env, funs, fuel);
}

proof fn lemma_cond_scan(cases: Seq<CondCaseV>, i: int, env: EnvV, funs: FunsV, fuel: nat)
    requires
        0 <= i < cases.len(),
        forall|j: int|
            0 <= j < i ==> spec_eval_bool(#[trigger] cases[j].condition, env, funs, fuel) == Ok::<
                bool,
                Error,
            >(false),
        spec_eval_bool(cases[i].condition, env, funs, fuel) == Ok::<bool, Error>(true),
    ensures
        spec_eval_cond(cases, env, funs, fuel) == spec_eval(cases[i].result, env, funs, fuel),
    decreases i,
{
    if i > 0 {
        assert(spec_eval_bool(cases[0].condition, env, funs, fuel) == Ok::<bool, Error>(false));
        let rest = cases.drop_first();
        assert forall|j: int|
            0 <= j < i - 1 implies spec_eval_bool(
            #[trigger] rest[j].condition,
            env,
            funs,
            fuel,
        ) == Ok::<bool, Error>(false) by {
            assert(rest[j] == cases[j + 1]);
        }
        assert(rest[i - 1] == cases[i]);
        lemma_cond_scan(rest, i - 1, env, funs, fuel);
    }
}

/// `cond` takes the first case whose guard holds, in source order: when
/// every earlier guard evaluates to false and case `i`'s guard to true,
/// the whole form evaluates to case `i`'s body, whatever the later guards
/// would do.
pub proof fn lemma_cond_first_match(
    cases: Seq<CondCaseV>,
    i: int,
    env: EnvV,
    funs: FunsV,
    fuel: nat,
)
    requires
        0 <= i < cases.len(),
        forall|j: int|
            0 <= j < i ==> spec_eval_bool(#[trigger] cases[j].condition, env, funs, fuel) == Ok::<
                bool,
                Error,
            >(false),
        spec_eval_bool(cases[i].condition, env, funs, fuel) == Ok::<bool, Error>(true),
    ensures
        spec_eval(ExprV::Cond { cases }, env, funs, fuel) == spec_eval(
            cases[i].result,
            env,
            funs,
            fuel,
        ),
{
    lemma_cond_scan(cases, i, env, funs, fuel);
}

/// A `cond` with no true guard fails with the no-matching-case error.
pub proof fn lemma_cond_no_match(cases: Seq<CondCaseV>, env: EnvV, funs: FunsV, fuel: nat)
    requires
        forall|j: int|
            0 <= j < cases.len() ==> spec_eval_bool(#[trigger] cases[j].condition, env, funs, fuel)
                == Ok::<bool, Error>(false),
    ensures
        spec_eval(ExprV::Cond { cases }, env, funs, fuel) == Err::<Value, Error>(
            Error::NoMatchingCase,
        ),
    decreases cases.len(),
{
    if cases.len() > 0 {
        let rest = cases.drop_first();
        assert forall|j: int|
            0 <= j < rest.len() implies spec_eval_bool(
            #[trigger] rest[j].condition,
            env,
            funs,
            fuel,
        ) == Ok::<bool, Error>(false) by {
            assert(rest[j] == cases[j + 1]);
        }
        lemma_cond_no_match(rest, env, funs, fuel);
        assert(spec_eval_cond(cases, env, funs, fuel) == spec_eval_cond(rest, env, funs, fuel));
    }
}

/// The parsed form of `(cons x xs)` standing in a list position, as `car`
/// and `cdr` arguments are parsed.
pub open spec fn cons_node(x: ExprV, xs: ExprV) -> ExprV {
    ExprV::ListPos {
        expr: Box::new(ExprV::ListNode { data: Box::new(x), next: Box::new(xs) }),
    }
}

/// The list round trip: `(car (cons x xs))` evaluates exactly as `x` does,
/// and, whenever `x` has a value at all, `(cdr (cons x xs))` evaluates
/// exactly as `xs` does — for every expression `x` and every expression
/// `xs` that evaluates to a list.
pub proof fn lemma_car_cdr_cons_round_trip(x: ExprV, xs: ExprV, env: EnvV, funs: FunsV, fuel: nat)
    requires
        spec_eval(xs, env, funs, fuel) matches Ok(v) && v is ListValue,
    ensures
        spec_eval(ExprV::Car { list: Box::new(cons_node(x, xs)) }, env, funs, fuel) == spec_eval(
            x,
            env,
            funs,
            fuel,
        ),
        (spec_eval(x, env, funs, fuel) is Ok ==> spec_eval(
            ExprV::Cdr { list: Box::new(cons_node(x, xs)) },
            env,
            funs,
            fuel,
        ) == spec_eval(xs, env, funs, fuel)),
{
    lemma_list_pos(
        ExprV::ListNode { data: Box::new(x), next: Box::new(xs) },
        env,
        funs,
        fuel,
    );
}

/// The predicates on lists: the empty literal is empty, any expression
/// that evaluates to a list is a list, and numbers and booleans are not.
pub proof fn lemma_list_predicates(e: ExprV, n: i32, b: bool, env: EnvV, funs: FunsV, fuel: nat)
    ensures
        spec_eval(
            ExprV::EmptyHuh { list: Box::new(ExprV::ListPos { expr: Box::new(ExprV::ListEmpty) }) },
            env,
            funs,
            fuel,
        ) == Ok::<Value, Error>(Value::BoolValue(true)),
        (spec_eval(e, env, funs, fuel) matches Ok(v) && v is ListValue ==> spec_eval(
            ExprV::ListHuh { expr: Box::new(e) },
            env,
            funs,
            fuel,
        ) == Ok::<Value, Error>(Value::BoolValue(true))),
        spec_eval(
            ExprV::ListHuh { expr: Box::new(ExprV::NumPos { expr: Box::new(ExprV::NumLit { value: n }) }) },
            env,
            funs,
            fuel,
        ) == Ok::<Value, Error>(Value::BoolValue(false)),
        spec_eval(
            ExprV::ListHuh { expr: Box::new(ExprV::BoolPos { expr: Box::new(ExprV::BoolLit { value: b }) }) },
            env,
            funs,
            fuel,
        ) == Ok::<Value, Error>(Value::BoolValue(false)),
{
    lemma_list_pos(ExprV::ListEmpty, env, funs, fuel);
    lemma_num_pos(ExprV::NumLit { value: n }, env, funs, fuel);
    lemma_bool_pos(ExprV::BoolLit { value: b }, env, funs, fuel);
}

/// The undefined-behavior guards: an unbound variable, a call of an
/// unregistered function, and `car` or `cdr` of the empty list each fail
/// with their own error.
pub proof fn lemma_undefined_guards(
    name: Seq<char>,
    args: Seq<ExprV>,
    env: EnvV,
    funs: FunsV,
    fuel: nat,
)
    ensures
        !env.contains_key(name) ==> spec_eval(ExprV::Var { name }, env, funs, fuel) == Err::<
            Value,
            Error,
        >(Error::UndefinedVariable),
        (!funs.contains_key(name) && crate::semantics::spec_eval_args(args, env, funs, fuel)
            is Ok ==> spec_eval(ExprV::Call { name, arguments: args }, env, funs, fuel) == Err::<
            Value,
            Error,
        >(Error::UndefinedFunction)),
        spec_eval(
            ExprV::Car { list: Box::new(ExprV::ListPos { expr: Box::new(ExprV::ListEmpty) }) },
            env,
            funs,
            fuel,
        ) == Err::<Value, Error>(Error::EmptyListError),
        spec_eval(
            ExprV::Cdr { list: Box::new(ExprV::ListPos { expr: Box::new(ExprV::ListEmpty) }) },
            env,
            funs,
            fuel,
        ) == Err::<Value, Error>(Error::EmptyListError),
{
    lemma_list_pos(ExprV::ListEmpty, env, funs, fuel);
}

/// The include fixed point: a program and its once-substituted text run to
/// the same result, provided
/// the substituted text is already include-free (as every inclusion of
/// the standard library's modules is). In particular, `(include m)`
/// followed by a call into the module behaves exactly as if the module's
/// source had been inlined before parsing.
pub proof fn lemma_include_fixed_point(s: Seq<char>, t: Seq<char>)
    requires
        spec_subst_pass(s) == Ok::<Seq<char>, Error>(t),
        spec_subst_pass(t) == Ok::<Seq<char>, Error>(t),
    ensures
        spec_run_program(s) == spec_run_program(t),
{
    let passes = crate::preprocess::MAX_INCLUDE_PASSES as nat;
    if t == s {
    } else {
        assert(spec_preprocess(s, passes) == spec_preprocess(t, (passes - 1) as nat));
        assert(spec_preprocess(t, (passes - 1) as nat) == Ok::<Seq<char>, Error>(t));
        assert(spec_preprocess(t, passes) == Ok::<Seq<char>, Error>(t));
    }
}

} // verus!
