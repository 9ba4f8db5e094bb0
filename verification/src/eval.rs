use vstd::prelude::*;

use crate::ast::BinaryBoolOp;
use crate::ast::BinaryNumOp;
use crate::ast::BoolExpr;
use crate::ast::CarExpr;
use crate::ast::CdrExpr;
use crate::ast::CmpBoolOp;
use crate::ast::CondCase;
use crate::ast::CondExpr;
use crate::ast::EmptyHuhExpr;
use crate::ast::Expr;
use crate::ast::FunctionCallExpr;
use crate::ast::FunctionExpr;
use crate::ast::ListExpr;
use crate::ast::ListHuhExpr;
use crate::ast::ListLiteralExpr;
use crate::ast::NumExpr;
use crate::ast::UnaryBoolOp;
use crate::ast::VariableExpr;
use crate::ast::lemma_view_cases;
use crate::ast::view_names;
use crate::ast::lemma_view_exprs;
use crate::ast::view_cases;
use crate::ast::view_exprs;
use crate::env::FunctionInfo;
use crate::env::FunctionInfoV;
use crate::env::FunctionMap;
use crate::env::VariableMap;
use crate::env::env_lookup;
use crate::error::Error;
use crate::semantics::eval_cmp;
use crate::semantics::eval_num_binop;
use crate::semantics::lemma_bool_pos;
use crate::semantics::lemma_list_pos;
use crate::semantics::lemma_num_pos;
use crate::semantics::lemma_pop_params_push_params;
use crate::semantics::pop_params;
use crate::semantics::push_params;
use crate::semantics::spec_eval;
use crate::semantics::spec_eval_args;
use crate::semantics::spec_eval_bool;
use crate::semantics::spec_eval_cond;
use crate::semantics::spec_eval_list;
use crate::semantics::spec_eval_num;
use crate::semantics::trunc_div;
use crate::semantics::trunc_rem;
use crate::value::Value;
use crate::value::ValueList;
use crate::value::ValueNode;
use crate::value::clone_value;

verus! {

proof fn lemma_trunc_div_fits(a: i32, b: i32)
    requires
        b != 0,
        !(a == i32::MIN && b == -1),
    ensures
        i32::MIN <= trunc_div(a, b) <= i32::MAX,
        vstd::wrapping::i32_specs::signed_crop(trunc_div(a, b)) == trunc_div(a, b),
{
    let x = a as int;
    let d = b as int;
    if x == 0 {
    } else if x > 0 && d > 0 {
        vstd::arithmetic::div_mod::lemma_div_pos_is_pos(x, d);
        vstd::arithmetic::div_mod::lemma_div_nonincreasing(x, d);
    } else if x < 0 && d < 0 {
        let n = x * -1;
        let m = d * -1;
        vstd::arithmetic::div_mod::lemma_div_pos_is_pos(n, m);
        vstd::arithmetic::div_mod::lemma_div_nonincreasing(n, m);
        if m == 1 {
            assert(n < 0x8000_0000) by {
                assert(a != i32::MIN || b != -1);
            }
            vstd::arithmetic::div_mod::lemma_div_by_self(1);
            assert(n / 1 == n);
        } else {
            vstd::arithmetic::div_mod::lemma_div_is_strictly_smaller(n, m);
        }
    } else if x < 0 {
        let n = x * -1;
        vstd::arithmetic::div_mod::lemma_div_pos_is_pos(n, d);
        vstd::arithmetic::div_mod::lemma_div_nonincreasing(n, d);
    } else {
        let m = d * -1;
        vstd::arithmetic::div_mod::lemma_div_pos_is_pos(x, m);
        vstd::arithmetic::div_mod::lemma_div_nonincreasing(x, m);
    }
    lemma_signed_crop_identity(trunc_div(a, b));
}

proof fn lemma_trunc_rem_fits(a: i32, b: i32)
    requires
        b != 0,
        !(a == i32::MIN && b == -1),
    ensures
        i32::MIN <= trunc_rem(a, b) <= i32::MAX,
        vstd::wrapping::i32_specs::signed_crop(trunc_rem(a, b)) == trunc_rem(a, b),
{
    let x = a as int;
    let d = b as int;
    if x == 0 {
    } else if x > 0 && d > 0 {
        vstd::arithmetic::div_mod::lemma_remainder_upper(x, d);
        vstd::arithmetic::div_mod::lemma_remainder_lower(x, d);
    } else if x < 0 && d < 0 {
        vstd::arithmetic::div_mod::lemma_remainder_upper(x * -1, d * -1);
        vstd::arithmetic::div_mod::lemma_remainder_lower(x * -1, d * -1);
    } else if x < 0 {
        vstd::arithmetic::div_mod::lemma_remainder_upper(x * -1, d);
        vstd::arithmetic::div_mod::lemma_remainder_lower(x * -1, d);
    } else {
        vstd::arithmetic::div_mod::lemma_remainder_upper(x, d * -1);
        vstd::arithmetic::div_mod::lemma_remainder_lower(x, d * -1);
    }
    lemma_signed_crop_identity(trunc_rem(a, b));
}

proof fn lemma_signed_crop_identity(v: int)
    requires
        i32::MIN <= v <= i32::MAX,
    ensures
        vstd::wrapping::i32_specs::signed_crop(v) == v,
{
    if v >= 0 {
        assert(v % 0x1_0000_0000 == v) by {
            vstd::arithmetic::div_mod::lemma_small_mod(v as nat, 0x1_0000_0000);
        }
    } else {
        assert(v % 0x1_0000_0000 == v + 0x1_0000_0000) by {
            vstd::arithmetic::div_mod::lemma_small_mod((v + 0x1_0000_0000) as nat, 0x1_0000_0000);
            vstd::arithmetic::div_mod::lemma_mod_multiples_vanish(1, v, 0x1_0000_0000);
        }
    }
}

/// Where the exact sum, difference or product fits in 32 bits, the
/// wrapping operation computes it exactly.
pub proof fn lemma_wrapping_exact(a: i32, b: i32)
    ensures
        i32::MIN <= a + b <= i32::MAX ==> vstd::wrapping::i32_specs::wrapping_add(a, b) == a + b,
        i32::MIN <= a - b <= i32::MAX ==> vstd::wrapping::i32_specs::wrapping_sub(a, b) == a - b,
        i32::MIN <= a * b <= i32::MAX ==> vstd::wrapping::i32_specs::wrapping_mul(a, b) == a * b,
{
    if i32::MIN <= a * b <= i32::MAX {
        lemma_signed_crop_identity(a * b);
    }
}

/// For a non-zero divisor, short of the one overflowing pair, the
/// truncating quotient and remainder fit in 32 bits and wrap to
/// themselves.
pub proof fn lemma_trunc_fits(a: i32, b: i32)
    requires
        b != 0,
        !(a == i32::MIN && b == -1),
    ensures
        i32::MIN <= trunc_div(a, b) <= i32::MAX,
        vstd::wrapping::i32_specs::signed_crop(trunc_div(a, b)) == trunc_div(a, b),
        i32::MIN <= trunc_rem(a, b) <= i32::MAX,
        vstd::wrapping::i32_specs::signed_crop(trunc_rem(a, b)) == trunc_rem(a, b),
{
    lemma_trunc_div_fits(a, b);
    lemma_trunc_rem_fits(a, b);
}

/// One binary arithmetic step over evaluated operands, exactly as the
/// semantics states it: zero right operands fail for division and modulo,
/// and results wrap two's-complement where they overflow 32 bits.
pub fn exec_num_binop(op: BinaryNumOp, a: i32, b: i32) -> (r: Result<Value, Error>)
    ensures
        r == eval_num_binop(op, a, b),
{
    match op {
        BinaryNumOp::Add => Ok(Value::NumValue(a.wrapping_add(b))),
        BinaryNumOp::Sub => Ok(Value::NumValue(a.wrapping_sub(b))),
        BinaryNumOp::Mul => Ok(Value::NumValue(a.wrapping_mul(b))),
        BinaryNumOp::Div => {
            if b == 0 {
                Err(Error::DivisionByZero)
            } else if a == i32::MIN && b == -1 {
                proof {
                    assert(trunc_div(a, b) == 0x8000_0000int / 1int);
                    vstd::arithmetic::div_mod::lemma_div_by_self(1);
                    vstd::arithmetic::div_mod::lemma_small_mod(0x8000_0000nat, 0x1_0000_0000nat);
                    assert(vstd::wrapping::i32_specs::signed_crop(0x8000_0000int) == i32::MIN);
                }
                Ok(Value::NumValue(i32::MIN))
            } else {
                proof {
                    lemma_trunc_div_fits(a, b);
                }
                match a.checked_div(b) {
                    Some(q) => Ok(Value::NumValue(q)),
                    None => Err(Error::DivisionByZero),
                }
            }
        },
        BinaryNumOp::Mod => {
            if b == 0 {
                Err(Error::ModuloByZero)
            } else if a == i32::MIN && b == -1 {
                proof {
                    assert(trunc_rem(a, b) == (0x8000_0000int % 1int) * -1);
                    vstd::arithmetic::div_mod::lemma_mod_self_0(1);
                }
                Ok(Value::NumValue(0))
            } else {
                proof {
                    lemma_trunc_rem_fits(a, b);
                }
                match a.checked_rem(b) {
                    Some(q) => Ok(Value::NumValue(q)),
                    None => Err(Error::ModuloByZero),
                }
            }
        },
    }
}

/// A variable reference: the top of the name's binding stack, or an error
/// when the name has no live binding.
pub fn eval_var_value(name: &String, vm: &VariableMap) -> (r: Result<Value, Error>)
    requires
        vm.wf(),
    ensures
        r == (match env_lookup(vm@, name@) {
            Some(v) => Ok::<Value, Error>(v),
            None => Err::<Value, Error>(Error::UndefinedVariable),
        }),
{
    match vm.get_top(name) {
        Some(v) => Ok(clone_value(v)),
        None => Err(Error::UndefinedVariable),
    }
}

/// One comparison step over evaluated operands.
pub fn exec_cmp(op: CmpBoolOp, a: i32, b: i32) -> (r: bool)
    ensures
        r == eval_cmp(op, a, b),
{
    match op {
        CmpBoolOp::Lt => a < b,
        CmpBoolOp::Eq => a == b,
        CmpBoolOp::Gt => a > b,
    }
}

/// Evaluate one expression against the variable environment and the
/// function table, with `fuel` bounding the call depth. The result is
/// exactly what the semantics assigns, and a successful evaluation leaves
/// the environment as it found it.
pub fn eval_expr(e: &Expr, vm: &mut VariableMap, fm: &FunctionMap, fuel: u64) -> (r: Result<
    Value,
    Error,
>)
    requires
        old(vm).wf(),
    ensures
        final(vm).wf(),
        r == spec_eval(e@, old(vm)@, fm@, fuel as nat),
        r is Ok ==> final(vm)@ == old(vm)@,
    decreases fuel, *e, 0int,
{
    let ghost env0 = vm@;
    match e {
        Expr::BoolExpr(x) => {
            proof {
                lemma_bool_pos(x.raw_view(), env0, fm@, fuel as nat);
            }
            match eval_bool(x, vm, fm, fuel) {
                Ok(b) => Ok(Value::BoolValue(b)),
                Err(er) => Err(er),
            }
        },
        Expr::NumExpr(x) => {
            proof {
                lemma_num_pos(x.raw_view(), env0, fm@, fuel as nat);
            }
            match eval_num(x, vm, fm, fuel) {
                Ok(n) => Ok(Value::NumValue(n)),
                Err(er) => Err(er),
            }
        },
        Expr::CondExpr(x) => {
            let r = eval_cond(&x.cases, 0, vm, fm, fuel);
            proof {
                assert(view_cases(x.cases@).skip(0) =~= view_cases(x.cases@));
            }
            r
        },
        Expr::FunctionExpr(_) => Err(Error::MisplacedDefinition),
        Expr::VariableExpr(x) => eval_var_value(&x.name, vm),
        Expr::FunctionCallExpr(x) => eval_call(x, vm, fm, fuel),
        Expr::ListExpr(x) => {
            proof {
                lemma_list_pos(x.raw_view(), env0, fm@, fuel as nat);
            }
            match eval_list(x, vm, fm, fuel) {
                Ok(l) => Ok(Value::ListValue(l)),
                Err(er) => Err(er),
            }
        },
        Expr::EmptyExpr(x) => {
            proof {
                lemma_list_pos(x.raw_view(), env0, fm@, fuel as nat);
            }
            match eval_list(x, vm, fm, fuel) {
                Ok(l) => Ok(Value::ListValue(l)),
                Err(er) => Err(er),
            }
        },
        Expr::CarExpr(x) => eval_car(x, vm, fm, fuel),
    }
}

/// Evaluate an expression standing in a boolean position.
pub fn eval_bool(e: &BoolExpr, vm: &mut VariableMap, fm: &FunctionMap, fuel: u64) -> (r: Result<
    bool,
    Error,
>)
    requires
        old(vm).wf(),
    ensures
        final(vm).wf(),
        r == spec_eval_bool(e@, old(vm)@, fm@, fuel as nat),
        r is Ok ==> final(vm)@ == old(vm)@,
    decreases fuel, *e, 0int,
{
    let ghost env0 = vm@;
    proof {
        lemma_bool_pos(e.raw_view(), env0, fm@, fuel as nat);
    }
    match e {
        BoolExpr::LiteralBoolExpr(b) => Ok(*b),
        BoolExpr::VariableExpr(x) => match eval_var_value(&x.name, vm) {
            Ok(Value::BoolValue(b)) => Ok(b),
            Ok(_) => Err(Error::TypeMismatch),
            Err(er) => Err(er),
        },
        BoolExpr::BinaryBoolExpr(x) => match x.op {
            BinaryBoolOp::And => match eval_bool(&x.left, vm, fm, fuel) {
                Ok(false) => Ok(false),
                Ok(true) => eval_bool(&x.right, vm, fm, fuel),
                Err(er) => Err(er),
            },
            BinaryBoolOp::Or => match eval_bool(&x.left, vm, fm, fuel) {
                Ok(true) => Ok(true),
                Ok(false) => eval_bool(&x.right, vm, fm, fuel),
                Err(er) => Err(er),
            },
        },
        BoolExpr::UnaryBoolExpr(x) => match x.op {
            UnaryBoolOp::Not => match eval_bool(&x.value, vm, fm, fuel) {
                Ok(b) => Ok(!b),
                Err(er) => Err(er),
            },
        },
        BoolExpr::CmpExpr(x) => match eval_num(&x.left, vm, fm, fuel) {
            Ok(a) => match eval_num(&x.right, vm, fm, fuel) {
                Ok(b) => Ok(exec_cmp(x.op, a, b)),
                Err(er) => Err(er),
            },
            Err(er) => Err(er),
        },
        BoolExpr::FunctionCallExpr(x) => match eval_call(x, vm, fm, fuel) {
            Ok(Value::BoolValue(b)) => Ok(b),
            Ok(_) => Err(Error::TypeMismatch),
            Err(er) => Err(er),
        },
        BoolExpr::EmptyHuhExpr(x) => {
            proof {
                lemma_list_pos((*x.list).raw_view(), env0, fm@, fuel as nat);
            }
            match eval_list(&x.list, vm, fm, fuel) {
                Ok(ValueList::Empty) => Ok(true),
                Ok(ValueList::Node(_)) => Ok(false),
                Err(er) => Err(er),
            }
        },
        BoolExpr::ListHuhExpr(x) => match eval_expr(&x.expr, vm, fm, fuel) {
            Ok(Value::ListValue(_)) => Ok(true),
            Ok(_) => Ok(false),
            Err(er) => Err(er),
        },
        BoolExpr::CarExpr(x) => match eval_car(x, vm, fm, fuel) {
            Ok(Value::BoolValue(b)) => Ok(b),
            Ok(_) => Err(Error::TypeMismatch),
            Err(er) => Err(er),
        },
    }
}

/// Evaluate an expression standing in a numeric position.
pub fn eval_num(e: &NumExpr, vm: &mut VariableMap, fm: &FunctionMap, fuel: u64) -> (r: Result<
    i32,
    Error,
>)
    requires
        old(vm).wf(),
    ensures
        final(vm).wf(),
        r == spec_eval_num(e@, old(vm)@, fm@, fuel as nat),
        r is Ok ==> final(vm)@ == old(vm)@,
    decreases fuel, *e, 0int,
{
    let ghost env0 = vm@;
    proof {
        lemma_num_pos(e.raw_view(), env0, fm@, fuel as nat);
    }
    match e {
        NumExpr::LiteralNumExpr(n) => Ok(*n),
        NumExpr::VariableExpr(x) => match eval_var_value(&x.name, vm) {
            Ok(Value::NumValue(n)) => Ok(n),
            Ok(_) => Err(Error::TypeMismatch),
            Err(er) => Err(er),
        },
        NumExpr::BinaryNumExpr(x) => match eval_num(&x.left, vm, fm, fuel) {
            Ok(a) => match eval_num(&x.right, vm, fm, fuel) {
                Ok(b) => match exec_num_binop(x.op, a, b) {
                    Ok(Value::NumValue(n)) => Ok(n),
                    Ok(_) => Err(Error::TypeMismatch),
                    Err(er) => Err(er),
                },
                Err(er) => Err(er),
            },
            Err(er) => Err(er),
        },
        NumExpr::FunctionCallExpr(x) => match eval_call(x, vm, fm, fuel) {
            Ok(Value::NumValue(n)) => Ok(n),
            Ok(_) => Err(Error::TypeMismatch),
            Err(er) => Err(er),
        },
        NumExpr::CarExpr(x) => match eval_car(x, vm, fm, fuel) {
            Ok(Value::NumValue(n)) => Ok(n),
            Ok(_) => Err(Error::TypeMismatch),
            Err(er) => Err(er),
        },
    }
}

/// Evaluate an expression standing in a list position.
pub fn eval_list(e: &ListExpr, vm: &mut VariableMap, fm: &FunctionMap, fuel: u64) -> (r: Result<
    ValueList,
    Error,
>)
    requires
        old(vm).wf(),
    ensures
        final(vm).wf(),
        r == spec_eval_list(e@, old(vm)@, fm@, fuel as nat),
        r is Ok ==> final(vm)@ == old(vm)@,
    decreases fuel, *e, 0int,
{
    let ghost env0 = vm@;
    proof {
        lemma_list_pos(e.raw_view(), env0, fm@, fuel as nat);
    }
    match e {
        ListExpr::ListLiteralExpr(x) => eval_list_literal(x, vm, fm, fuel),
        ListExpr::CdrExpr(x) => eval_cdr(x, vm, fm, fuel),
        ListExpr::VariableExpr(x) => match eval_var_value(&x.name, vm) {
            Ok(Value::ListValue(l)) => Ok(l),
            Ok(_) => Err(Error::TypeMismatch),
            Err(er) => Err(er),
        },
        ListExpr::CarExpr(x) => match eval_car(x, vm, fm, fuel) {
            Ok(Value::ListValue(l)) => Ok(l),
            Ok(_) => Err(Error::TypeMismatch),
            Err(er) => Err(er),
        },
        ListExpr::FunctionCallExpr(x) => match eval_call(x, vm, fm, fuel) {
            Ok(Value::ListValue(l)) => Ok(l),
            Ok(_) => Err(Error::TypeMismatch),
            Err(er) => Err(er),
        },
    }
}

/// Evaluate a list literal: the elements, eagerly, left to right.
pub fn eval_list_literal(
    e: &ListLiteralExpr,
    vm: &mut VariableMap,
    fm: &FunctionMap,
    fuel: u64,
) -> (r: Result<ValueList, Error>)
    requires
        old(vm).wf(),
    ensures
        final(vm).wf(),
        r == spec_eval_list(e@, old(vm)@, fm@, fuel as nat),
        r is Ok ==> final(vm)@ == old(vm)@,
    decreases fuel, *e, 0int,
{
    let ghost env0 = vm@;
    match e {
        ListLiteralExpr::Empty => Ok(ValueList::Empty),
        ListLiteralExpr::Node(n) => match eval_expr(&n.data, vm, fm, fuel) {
            Ok(v) => {
                proof {
                    lemma_list_pos((*n.next).raw_view(), vm@, fm@, fuel as nat);
                }
                match eval_list(&n.next, vm, fm, fuel) {
                    Ok(l) => Ok(
                        ValueList::Node(ValueNode { data: Box::new(v), next: Box::new(l) }),
                    ),
                    Err(er) => Err(er),
                }
            },
            Err(er) => Err(er),
        },
    }
}

/// `car`: the held element of a non-empty evaluated list.
pub fn eval_car(e: &CarExpr, vm: &mut VariableMap, fm: &FunctionMap, fuel: u64) -> (r: Result<
    Value,
    Error,
>)
    requires
        old(vm).wf(),
    ensures
        final(vm).wf(),
        r == spec_eval(e@, old(vm)@, fm@, fuel as nat),
        r is Ok ==> final(vm)@ == old(vm)@,
    decreases fuel, *e, 0int,
{
    proof {
        lemma_list_pos((*e.list).raw_view(), vm@, fm@, fuel as nat);
    }
    match eval_list(&e.list, vm, fm, fuel) {
        Ok(ValueList::Empty) => Err(Error::EmptyListError),
        Ok(ValueList::Node(n)) => Ok(*n.data),
        Err(er) => Err(er),
    }
}

/// `cdr`: the tail of a non-empty evaluated list.
pub fn eval_cdr(e: &CdrExpr, vm: &mut VariableMap, fm: &FunctionMap, fuel: u64) -> (r: Result<
    ValueList,
    Error,
>)
    requires
        old(vm).wf(),
    ensures
        final(vm).wf(),
        r == spec_eval_list(e@, old(vm)@, fm@, fuel as nat),
        r is Ok ==> final(vm)@ == old(vm)@,
    decreases fuel, *e, 0int,
{
    proof {
        lemma_list_pos((*e.list).raw_view(), vm@, fm@, fuel as nat);
    }
    match eval_list(&e.list, vm, fm, fuel) {
        Ok(ValueList::Empty) => Err(Error::EmptyListError),
        Ok(ValueList::Node(n)) => Ok(*n.next),
        Err(er) => Err(er),
    }
}

/// Scan a `cond`'s cases from position `i` on: the first true guard in
/// source order decides.
pub fn eval_cond(
    cases: &Vec<CondCase>,
    i: usize,
    vm: &mut VariableMap,
    fm: &FunctionMap,
    fuel: u64,
) -> (r: Result<Value, Error>)
    requires
        old(vm).wf(),
        i <= cases@.len(),
    ensures
        final(vm).wf(),
        r == spec_eval_cond(view_cases(cases@).skip(i as int), old(vm)@, fm@, fuel as nat),
        r is Ok ==> final(vm)@ == old(vm)@,
    decreases fuel, cases@, cases@.len() - i,
{
    proof {
        lemma_view_cases(cases@);
    }
    if i == cases.len() {
        return Err(Error::NoMatchingCase);
    }
    let ghost tail = view_cases(cases@).skip(i as int);
    proof {
        assert(tail[0] == cases@[i as int]@);
        assert(tail.drop_first() =~= view_cases(cases@).skip(i as int + 1));
    }
    match eval_bool(&cases[i].condition, vm, fm, fuel) {
        Ok(true) => eval_expr(&cases[i].result, vm, fm, fuel),
        Ok(false) => eval_cond(cases, i + 1, vm, fm, fuel),
        Err(er) => Err(er),
    }
}

/// Call-by-value evaluation of the argument expressions from position `i`
/// on, left to right.
pub fn eval_args(
    args: &Vec<Expr>,
    i: usize,
    vm: &mut VariableMap,
    fm: &FunctionMap,
    fuel: u64,
) -> (r: Result<Vec<Value>, Error>)
    requires
        old(vm).wf(),
        i <= args@.len(),
    ensures
        final(vm).wf(),
        match spec_eval_args(view_exprs(args@).skip(i as int), old(vm)@, fm@, fuel as nat) {
            Ok(vs) => r matches Ok(rv) && rv@ == vs && final(vm)@ == old(vm)@,
            Err(er) => r == Err::<Vec<Value>, Error>(er),
        },
    decreases fuel, args@, args@.len() - i,
{
    proof {
        lemma_view_exprs(args@);
    }
    if i == args.len() {
        proof {
            assert(view_exprs(args@).skip(i as int).len() == 0);
        }
        return Ok(Vec::new());
    }
    let ghost tail = view_exprs(args@).skip(i as int);
    proof {
        assert(tail[0] == args@[i as int]@);
        assert(tail.drop_first() =~= view_exprs(args@).skip(i as int + 1));
    }
    match eval_expr(&args[i], vm, fm, fuel) {
        Ok(v) => match eval_args(args, i + 1, vm, fm, fuel) {
            Ok(mut rest) => {
                let ghost rest0 = rest@;
                rest.insert(0, v);
                proof {
                    assert(rest@ =~= seq![v] + rest0);
                }
                Ok(rest)
            },
            Err(er) => Err(er),
        },
        Err(er) => Err(er),
    }
}

/// A function call: evaluate every argument, bind each to the matching
/// parameter name in declaration order, evaluate the body one call level
/// deeper, then pop exactly the bindings that were pushed.
pub fn eval_call(c: &FunctionCallExpr, vm: &mut VariableMap, fm: &FunctionMap, fuel: u64) -> (r:
    Result<Value, Error>)
    requires
        old(vm).wf(),
    ensures
        final(vm).wf(),
        r == spec_eval(c@, old(vm)@, fm@, fuel as nat),
        r is Ok ==> final(vm)@ == old(vm)@,
    decreases fuel, *c, 0int,
{
    let ghost env0 = vm@;
    proof {
        vm.lemma_env_ok();
        assert(view_exprs(c.arguments@).skip(0) =~= view_exprs(c.arguments@));
    }
    let vals = match eval_args(&c.arguments, 0, vm, fm, fuel) {
        Ok(vals) => vals,
        Err(er) => {
            return Err(er);
        },
    };
    let ghost valsv = vals@;
    let info = match fm.get(&c.name) {
        Some(info) => info,
        None => {
            return Err(Error::UndefinedFunction);
        },
    };
    let ghost paramsv = info@.parameter_names;
    if vals.len() > info.parameter_names.len() {
        return Err(Error::UndefinedFunction);
    }
    if fuel == 0 {
        return Err(Error::StackExhaustion);
    }
    let n = vals.len();
    proof {
        assert(paramsv.skip(0) =~= paramsv);
        assert(valsv.skip(0) =~= valsv);
    }
    let mut j: usize = 0;
    while j < n
        invariant
            vm.wf(),
            j <= n,
            n == valsv.len() <= paramsv.len(),
            n == vals@.len(),
            vals@ == valsv,
            paramsv == info@.parameter_names,
            n <= info.parameter_names@.len(),
            push_params(env0, paramsv, valsv) == push_params(
                vm@,
                paramsv.skip(j as int),
                valsv.skip(j as int),
            ),
        decreases n - j,
    {
        proof {
            assert(paramsv.skip(j as int)[0] == paramsv[j as int]);
            assert(paramsv[j as int] == info.parameter_names@[j as int]@);
            assert(valsv.skip(j as int)[0] == valsv[j as int]);
            assert(paramsv.skip(j as int).drop_first() =~= paramsv.skip(j as int + 1));
            assert(valsv.skip(j as int).drop_first() =~= valsv.skip(j as int + 1));
        }
        let value = clone_value(&vals[j]);
        vm.push_binding(&info.parameter_names[j], value);
        j = j + 1;
    }
    proof {
        assert(valsv.skip(n as int).len() == 0);
        assert(push_params(env0, paramsv, valsv) == vm@);
    }
    let ghost pushed = vm@;
    let body_result = eval_expr(&info.body, vm, fm, fuel - 1);
    let result_value = match body_result {
        Ok(v) => v,
        Err(er) => {
            return Err(er);
        },
    };
    proof {
        assert(paramsv.skip(0) =~= paramsv);
    }
    let mut j2: usize = 0;
    while j2 < n
        invariant
            vm.wf(),
            j2 <= n,
            n <= paramsv.len(),
            paramsv == info@.parameter_names,
            n <= info.parameter_names@.len(),
            pop_params(pushed, paramsv, n as nat) == pop_params(
                vm@,
                paramsv.skip(j2 as int),
                (n - j2) as nat,
            ),
        decreases n - j2,
    {
        proof {
            assert(paramsv.skip(j2 as int)[0] == paramsv[j2 as int]);
            assert(paramsv[j2 as int] == info.parameter_names@[j2 as int]@);
            assert(paramsv.skip(j2 as int).drop_first() =~= paramsv.skip(j2 as int + 1));
        }
        vm.pop_binding(&info.parameter_names[j2]);
        j2 = j2 + 1;
    }
    proof {
        assert(pop_params(pushed, paramsv, n as nat) == vm@);
        lemma_pop_params_push_params(env0, paramsv, valsv);
    }
    Ok(result_value)
}

/// The call-depth budget used by the interpretation entry points. Deeper
/// user recursion fails with a resource error rather than a host stack
/// overflow.
pub const DEFAULT_FUEL: u64 = 1000;

/// Reduce one expression to a value against the current variable bindings
/// and the frozen function table, under the default call-depth budget.
pub fn interpret(expr: &Expr, variable_map: &mut VariableMap, function_map: &FunctionMap) -> (r:
    Result<Value, Error>)
    requires
        old(variable_map).wf(),
    ensures
        final(variable_map).wf(),
        r == spec_eval(expr@, old(variable_map)@, function_map@, DEFAULT_FUEL as nat),
        r is Ok ==> final(variable_map)@ == old(variable_map)@,
{
    eval_expr(expr, variable_map, function_map, DEFAULT_FUEL)
}

/// Reduce an expression standing in a boolean position.
pub fn interpret_bool_expr(
    expr: &BoolExpr,
    variable_map: &mut VariableMap,
    function_map: &FunctionMap,
) -> (r: Result<bool, Error>)
    requires
        old(variable_map).wf(),
    ensures
        final(variable_map).wf(),
        r == spec_eval_bool(expr@, old(variable_map)@, function_map@, DEFAULT_FUEL as nat),
        r is Ok ==> final(variable_map)@ == old(variable_map)@,
{
    eval_bool(expr, variable_map, function_map, DEFAULT_FUEL)
}

/// Reduce an expression standing in a numeric position.
pub fn interpret_num_expr(
    expr: &NumExpr,
    variable_map: &mut VariableMap,
    function_map: &FunctionMap,
) -> (r: Result<i32, Error>)
    requires
        old(variable_map).wf(),
    ensures
        final(variable_map).wf(),
        r == spec_eval_num(expr@, old(variable_map)@, function_map@, DEFAULT_FUEL as nat),
        r is Ok ==> final(variable_map)@ == old(variable_map)@,
{
    eval_num(expr, variable_map, function_map, DEFAULT_FUEL)
}

/// Reduce an expression standing in a list position.
pub fn interpret_list_expr(
    list: &ListExpr,
    variable_map: &mut VariableMap,
    function_map: &FunctionMap,
) -> (r: Result<ValueList, Error>)
    requires
        old(variable_map).wf(),
    ensures
        final(variable_map).wf(),
        r == spec_eval_list(list@, old(variable_map)@, function_map@, DEFAULT_FUEL as nat),
        r is Ok ==> final(variable_map)@ == old(variable_map)@,
{
    eval_list(list, variable_map, function_map, DEFAULT_FUEL)
}

/// Reduce a list literal to the cons list of its evaluated elements.
pub fn interpret_list_literal_expr(
    list: &ListLiteralExpr,
    variable_map: &mut VariableMap,
    function_map: &FunctionMap,
) -> (r: Result<ValueList, Error>)
    requires
        old(variable_map).wf(),
    ensures
        final(variable_map).wf(),
        r == spec_eval_list(list@, old(variable_map)@, function_map@, DEFAULT_FUEL as nat),
        r is Ok ==> final(variable_map)@ == old(variable_map)@,
{
    eval_list_literal(list, variable_map, function_map, DEFAULT_FUEL)
}

/// `car` of an evaluated list: its held element; empty fails.
pub fn interpret_car_expr(
    list: &CarExpr,
    variable_map: &mut VariableMap,
    function_map: &FunctionMap,
) -> (r: Result<Value, Error>)
    requires
        old(variable_map).wf(),
    ensures
        final(variable_map).wf(),
        r == spec_eval(list@, old(variable_map)@, function_map@, DEFAULT_FUEL as nat),
        r is Ok ==> final(variable_map)@ == old(variable_map)@,
{
    eval_car(list, variable_map, function_map, DEFAULT_FUEL)
}

/// `cdr` of an evaluated list: its tail; empty fails.
pub fn interpret_cdr_expr(
    list: &CdrExpr,
    variable_map: &mut VariableMap,
    function_map: &FunctionMap,
) -> (r: Result<ValueList, Error>)
    requires
        old(variable_map).wf(),
    ensures
        final(variable_map).wf(),
        r == spec_eval_list(list@, old(variable_map)@, function_map@, DEFAULT_FUEL as nat),
        r is Ok ==> final(variable_map)@ == old(variable_map)@,
{
    eval_cdr(list, variable_map, function_map, DEFAULT_FUEL)
}

/// `empty?`: whether the evaluated list is the empty list.
pub fn interpret_empty_huh_expr(
    list: &EmptyHuhExpr,
    variable_map: &mut VariableMap,
    function_map: &FunctionMap,
) -> (r: Result<bool, Error>)
    requires
        old(variable_map).wf(),
    ensures
        final(variable_map).wf(),
        r == spec_eval_bool(list@, old(variable_map)@, function_map@, DEFAULT_FUEL as nat),
        r is Ok ==> final(variable_map)@ == old(variable_map)@,
{
    proof {
        lemma_list_pos((*list.list).raw_view(), old(variable_map)@, function_map@, DEFAULT_FUEL as nat);
    }
    match eval_list(&list.list, variable_map, function_map, DEFAULT_FUEL) {
        Ok(ValueList::Empty) => Ok(true),
        Ok(ValueList::Node(_)) => Ok(false),
        Err(er) => Err(er),
    }
}

/// `list?`: whether the evaluated expression is a list at all.
pub fn interpret_list_huh_expr(
    expr: &ListHuhExpr,
    variable_map: &mut VariableMap,
    function_map: &FunctionMap,
) -> (r: Result<bool, Error>)
    requires
        old(variable_map).wf(),
    ensures
        final(variable_map).wf(),
        r == spec_eval_bool(expr@, old(variable_map)@, function_map@, DEFAULT_FUEL as nat),
        r is Ok ==> final(variable_map)@ == old(variable_map)@,
{
    match eval_expr(&expr.expr, variable_map, function_map, DEFAULT_FUEL) {
        Ok(Value::ListValue(_)) => Ok(true),
        Ok(_) => Ok(false),
        Err(er) => Err(er),
    }
}

/// A variable reference: the currently visible binding of the name.
pub fn interpret_variable_expr(variable: &VariableExpr, variable_map: &VariableMap) -> (r: Result<
    Value,
    Error,
>)
    requires
        variable_map.wf(),
    ensures
        r == (match env_lookup(variable_map@, variable.name@) {
            Some(v) => Ok::<Value, Error>(v),
            None => Err::<Value, Error>(Error::UndefinedVariable),
        }),
{
    eval_var_value(&variable.name, variable_map)
}

/// A variable reference standing in a list position: the visible binding,
/// which must be a list.
pub fn interpret_variable_list_expr(expr: &VariableExpr, variable_map: &VariableMap) -> (r: Result<
    ValueList,
    Error,
>)
    requires
        variable_map.wf(),
    ensures
        r == (match env_lookup(variable_map@, expr.name@) {
            Some(Value::ListValue(l)) => Ok::<ValueList, Error>(l),
            Some(_) => Err::<ValueList, Error>(Error::TypeMismatch),
            None => Err::<ValueList, Error>(Error::UndefinedVariable),
        }),
{
    match eval_var_value(&expr.name, variable_map) {
        Ok(Value::ListValue(l)) => Ok(l),
        Ok(_) => Err(Error::TypeMismatch),
        Err(er) => Err(er),
    }
}

/// A `cond`: the body of the first case whose guard holds, in source
/// order.
pub fn interpret_cond_expr(
    expr: &CondExpr,
    variable_map: &mut VariableMap,
    function_map: &FunctionMap,
) -> (r: Result<Value, Error>)
    requires
        old(variable_map).wf(),
    ensures
        final(variable_map).wf(),
        r == spec_eval(expr@, old(variable_map)@, function_map@, DEFAULT_FUEL as nat),
        r is Ok ==> final(variable_map)@ == old(variable_map)@,
{
    let r = eval_cond(&expr.cases, 0, variable_map, function_map, DEFAULT_FUEL);
    proof {
        assert(view_cases(expr.cases@).skip(0) =~= view_cases(expr.cases@));
    }
    r
}

/// A function call: arguments by value, bindings pushed and popped around
/// the body.
pub fn interpret_function_call(
    function_call: &FunctionCallExpr,
    variable_map: &mut VariableMap,
    function_map: &FunctionMap,
) -> (r: Result<Value, Error>)
    requires
        old(variable_map).wf(),
    ensures
        final(variable_map).wf(),
        r == spec_eval(function_call@, old(variable_map)@, function_map@, DEFAULT_FUEL as nat),
        r is Ok ==> final(variable_map)@ == old(variable_map)@,
{
    eval_call(function_call, variable_map, function_map, DEFAULT_FUEL)
}

/// Register a parsed definition in the function table; a later definition
/// of the same name wins.
pub fn interpret_function_expr(function: FunctionExpr, function_map: &mut FunctionMap)
    ensures
        final(function_map)@ == old(function_map)@.insert(
            function.name@,
            FunctionInfoV {
                parameter_names: view_names(function.parameters@),
                body: (*function.body)@,
            },
        ),
{
    let info = FunctionInfo { parameter_names: function.parameters, body: *function.body };
    function_map.insert(function.name, info);
}

} // verus!
