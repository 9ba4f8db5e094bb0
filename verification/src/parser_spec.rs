use vstd::prelude::*;

use crate::ast::BinaryBoolOp;
use crate::error::Error;
use crate::lexer::TokenKind;
use crate::lexer::TokenV;
use crate::lexer::is_digit_char;
use crate::lexer::spec_binary_bool_op;
use crate::lexer::spec_binary_num_op;
use crate::lexer::spec_cmp_bool_op;
use crate::spec_ast::CondCaseV;
use crate::spec_ast::ExprV;

verus! {

/// Whether every character of a sequence is a decimal digit.
pub open spec fn is_digit_seq(s: Seq<char>) -> bool {
    forall|k: int| 0 <= k < s.len() ==> is_digit_char(#[trigger] s[k])
}

/// The number a sequence of decimal digits denotes.
pub open spec fn digits_val(s: Seq<char>) -> int
    decreases s.len(),
{
    if s.len() == 0 {
        0
    } else {
        digits_val(s.drop_last()) * 10 + (s.last() as int - '0' as int)
    }
}

/// The 32-bit number a numeric token's text denotes: it must be all
/// digits, non-empty, and fit.
pub open spec fn spec_str_to_i32(s: Seq<char>) -> Result<i32, Error> {
    if s.len() > 0 && is_digit_seq(s) && digits_val(s) <= i32::MAX {
        Ok(digits_val(s) as i32)
    } else {
        Err(Error::ParseError)
    }
}

/// A sequence of list elements, desugared into the nested cons nodes the
/// parser builds: the first element becomes the outermost node.
pub open spec fn items_to_list(items: Seq<ExprV>) -> ExprV
    decreases items.len(),
{
    if items.len() == 0 {
        ExprV::ListEmpty
    } else {
        ExprV::ListNode {
            data: Box::new(items[0]),
            next: Box::new(
                ExprV::ListPos { expr: Box::new(items_to_list(items.drop_first())) },
            ),
        }
    }
}

/// A sub-parse position, held back to the end of the sequence: at or past
/// the end every form fails alike, and the token count stays an upper
/// bound for the recursion.
pub open spec fn held(len: nat, p: nat) -> nat {
    if p <= len {
        p
    } else {
        len
    }
}

/// What one grammar form parses to, together with how many tokens it took
/// beyond the first. Every successful parse consumes at least one token,
/// which keeps the recursion well-founded.
pub type ParseStep<X> = Result<(X, nat), Error>;

/// Parse one full expression starting at token `i`, dispatching on the
/// current token and, after an opening parenthesis, on the token behind
/// it: every compound form shares the same prefix.
pub open spec fn spec_parse_expr(toks: Seq<TokenV>, i: nat) -> ParseStep<ExprV>
    decreases toks.len() - i, 3int,
{
    if i >= toks.len() {
        Err(Error::ParseError)
    } else {
        match toks[i as int].kind {
            TokenKind::Identifier => Ok((ExprV::Var { name: toks[i as int].text }, 0)),
            TokenKind::Minus => spec_parse_num_expr(toks, i),
            TokenKind::Number => match spec_str_to_i32(toks[i as int].text) {
                Ok(v) => Ok(
                    (ExprV::NumPos { expr: Box::new(ExprV::NumLit { value: v }) }, 0 as nat),
                ),
                Err(er) => Err(er),
            },
            TokenKind::Boolean => if toks[i as int].text == "true"@ {
                Ok((ExprV::BoolPos { expr: Box::new(ExprV::BoolLit { value: true }) }, 0 as nat))
            } else if toks[i as int].text == "false"@ {
                Ok((ExprV::BoolPos { expr: Box::new(ExprV::BoolLit { value: false }) }, 0 as nat))
            } else {
                Err(Error::ParseError)
            },
            TokenKind::Empty => Ok(
                (ExprV::ListPos { expr: Box::new(ExprV::ListEmpty) }, 0 as nat),
            ),
            TokenKind::OpenParen => if i + 1 >= toks.len() {
                Err(Error::ParseError)
            } else {
                match toks[i as int + 1].kind {
                    TokenKind::Define => spec_parse_function_expr(toks, i),
                    TokenKind::Cond => spec_parse_cond_expr(toks, i),
                    TokenKind::Car => spec_parse_car_expr(toks, i),
                    TokenKind::Identifier => spec_parse_function_call(toks, i),
                    TokenKind::List => spec_parse_list_expr(toks, i),
                    TokenKind::Cons => spec_parse_list_expr(toks, i),
                    TokenKind::Cdr => spec_parse_list_expr(toks, i),
                    TokenKind::Plus => spec_parse_num_expr(toks, i),
                    TokenKind::Minus => spec_parse_num_expr(toks, i),
                    TokenKind::Slash => spec_parse_num_expr(toks, i),
                    TokenKind::Star => spec_parse_num_expr(toks, i),
                    TokenKind::Percent => spec_parse_num_expr(toks, i),
                    TokenKind::Ampersand => spec_parse_bool_expr(toks, i),
                    TokenKind::Pipe => spec_parse_bool_expr(toks, i),
                    TokenKind::Bang => spec_parse_bool_expr(toks, i),
                    TokenKind::LessThan => spec_parse_bool_expr(toks, i),
                    TokenKind::Equal => spec_parse_bool_expr(toks, i),
                    TokenKind::GreaterThan => spec_parse_bool_expr(toks, i),
                    TokenKind::EmptyHuh => spec_parse_bool_expr(toks, i),
                    TokenKind::ListHuh => spec_parse_bool_expr(toks, i),
                    _ => Err(Error::ParseError),
                }
            },
            _ => Err(Error::ParseError),
        }
    }
}

/// Parse an expression in a numeric position: a literal, possibly
/// negated, a variable, or a parenthesized arithmetic form, call or `car`.
pub open spec fn spec_parse_num_expr(toks: Seq<TokenV>, i: nat) -> ParseStep<ExprV>
    decreases toks.len() - i, 2int,
{
    if i >= toks.len() {
        Err(Error::ParseError)
    } else {
        match toks[i as int].kind {
            TokenKind::Number => match spec_str_to_i32(toks[i as int].text) {
                Ok(v) => Ok(
                    (ExprV::NumPos { expr: Box::new(ExprV::NumLit { value: v }) }, 0 as nat),
                ),
                Err(er) => Err(er),
            },
            TokenKind::Identifier => Ok(
                (ExprV::NumPos { expr: Box::new(ExprV::Var { name: toks[i as int].text }) }, 0 as nat),
            ),
            TokenKind::Minus => if i + 1 >= toks.len() {
                Err(Error::ParseError)
            } else {
                match spec_str_to_i32(toks[i as int + 1].text) {
                    Ok(v) => Ok(
                        (
                            ExprV::NumPos {
                                expr: Box::new(ExprV::NumLit { value: (-(v as int)) as i32 }),
                            },
                            1 as nat,
                        ),
                    ),
                    Err(er) => Err(er),
                }
            },
            _ => if i + 1 >= toks.len() {
                Err(Error::ParseError)
            } else {
                match toks[i as int + 1].kind {
                    TokenKind::Identifier => match spec_parse_function_call(toks, i) {
                        Ok((call, extra)) => Ok(
                            (ExprV::NumPos { expr: Box::new(call) }, extra),
                        ),
                        Err(er) => Err(er),
                    },
                    TokenKind::Car => match spec_parse_car_expr(toks, i) {
                        Ok((car, extra)) => Ok((ExprV::NumPos { expr: Box::new(car) }, extra)),
                        Err(er) => Err(er),
                    },
                    TokenKind::Plus | TokenKind::Minus | TokenKind::Star | TokenKind::Slash
                        | TokenKind::Percent => if toks[i as int].kind != TokenKind::OpenParen {
                        Err(Error::ParseError)
                    } else {
                        let op = spec_binary_num_op(toks[i as int + 1].kind);
                        match spec_parse_num_expr(toks, i + 2) {
                            Ok((l, e1)) => match spec_parse_num_expr(toks, held(toks.len(), i + 3 + e1)) {
                                Ok((r, e2)) => {
                                    let p = i + 4 + e1 + e2;
                                    if p < toks.len() && toks[p as int].kind
                                        == TokenKind::CloseParen {
                                        Ok(
                                            (
                                                ExprV::NumPos {
                                                    expr: Box::new(
                                                        ExprV::BinaryNum {
                                                            op,
                                                            left: Box::new(l),
                                                            right: Box::new(r),
                                                        },
                                                    ),
                                                },
                                                (p - i) as nat,
                                            ),
                                        )
                                    } else {
                                        Err(Error::ParseError)
                                    }
                                },
                                Err(er) => Err(er),
                            },
                            Err(er) => Err(er),
                        }
                    },
                    _ => Err(Error::ParseError),
                }
            },
        }
    }
}

/// Parse an expression in a boolean position: a literal, a variable, or a
/// parenthesized connective, negation, comparison, call, predicate or
/// `car`.
pub open spec fn spec_parse_bool_expr(toks: Seq<TokenV>, i: nat) -> ParseStep<ExprV>
    decreases toks.len() - i, 2int,
{
    if i >= toks.len() {
        Err(Error::ParseError)
    } else {
        match toks[i as int].kind {
            TokenKind::Boolean => if toks[i as int].text == "true"@ {
                Ok((ExprV::BoolPos { expr: Box::new(ExprV::BoolLit { value: true }) }, 0 as nat))
            } else if toks[i as int].text == "false"@ {
                Ok((ExprV::BoolPos { expr: Box::new(ExprV::BoolLit { value: false }) }, 0 as nat))
            } else {
                Err(Error::ParseError)
            },
            TokenKind::Identifier => Ok(
                (ExprV::BoolPos { expr: Box::new(ExprV::Var { name: toks[i as int].text }) }, 0 as nat),
            ),
            TokenKind::OpenParen => if i + 1 >= toks.len() {
                Err(Error::ParseError)
            } else {
                match toks[i as int + 1].kind {
                    TokenKind::Ampersand | TokenKind::Pipe => spec_parse_binary_bool(toks, i),
                    TokenKind::Bang => spec_parse_unary_bool(toks, i),
                    TokenKind::LessThan | TokenKind::Equal | TokenKind::GreaterThan =>
                        spec_parse_cmp_bool(toks, i),
                    TokenKind::Identifier => match spec_parse_function_call(toks, i) {
                        Ok((call, extra)) => Ok(
                            (ExprV::BoolPos { expr: Box::new(call) }, extra),
                        ),
                        Err(er) => Err(er),
                    },
                    TokenKind::EmptyHuh => match spec_parse_empty_huh(toks, i) {
                        Ok((e, extra)) => Ok((ExprV::BoolPos { expr: Box::new(e) }, extra)),
                        Err(er) => Err(er),
                    },
                    TokenKind::ListHuh => match spec_parse_list_huh(toks, i) {
                        Ok((e, extra)) => Ok((ExprV::BoolPos { expr: Box::new(e) }, extra)),
                        Err(er) => Err(er),
                    },
                    TokenKind::Car => match spec_parse_car_expr(toks, i) {
                        Ok((car, extra)) => Ok((ExprV::BoolPos { expr: Box::new(car) }, extra)),
                        Err(er) => Err(er),
                    },
                    _ => Err(Error::ParseError),
                }
            },
            _ => Err(Error::ParseError),
        }
    }
}

/// `(& l r)` or `(| l r)`.
pub open spec fn spec_parse_binary_bool(toks: Seq<TokenV>, i: nat) -> ParseStep<ExprV>
    decreases toks.len() - i, 1int,
{
    if i + 1 >= toks.len() || toks[i as int].kind != TokenKind::OpenParen {
        Err(Error::ParseError)
    } else if !(toks[i as int + 1].kind == TokenKind::Ampersand || toks[i as int + 1].kind == TokenKind::Pipe) {
        Err(Error::ParseError)
    } else {
        let op = spec_binary_bool_op(toks[i as int + 1].kind);
        match spec_parse_bool_expr(toks, i + 2) {
            Ok((l, e1)) => match spec_parse_bool_expr(toks, held(toks.len(), i + 3 + e1)) {
                Ok((r, e2)) => {
                    let p = i + 4 + e1 + e2;
                    if p < toks.len() && toks[p as int].kind == TokenKind::CloseParen {
                        Ok(
                            (
                                ExprV::BoolPos {
                                    expr: Box::new(
                                        ExprV::BinaryBool {
                                            op,
                                            left: Box::new(l),
                                            right: Box::new(r),
                                        },
                                    ),
                                },
                                (p - i) as nat,
                            ),
                        )
                    } else {
                        Err(Error::ParseError)
                    }
                },
                Err(er) => Err(er),
            },
            Err(er) => Err(er),
        }
    }
}

/// `(! v)`.
pub open spec fn spec_parse_unary_bool(toks: Seq<TokenV>, i: nat) -> ParseStep<ExprV>
    decreases toks.len() - i, 1int,
{
    if i + 1 >= toks.len() || toks[i as int].kind != TokenKind::OpenParen {
        Err(Error::ParseError)
    } else if toks[i as int + 1].kind != TokenKind::Bang {
        Err(Error::ParseError)
    } else {
        match spec_parse_bool_expr(toks, i + 2) {
            Ok((v, e1)) => {
                let p = i + 3 + e1;
                if p < toks.len() && toks[p as int].kind == TokenKind::CloseParen {
                    Ok(
                        (
                            ExprV::BoolPos {
                                expr: Box::new(ExprV::Not { value: Box::new(v) }),
                            },
                            (p - i) as nat,
                        ),
                    )
                } else {
                    Err(Error::ParseError)
                }
            },
            Err(er) => Err(er),
        }
    }
}

/// `(< l r)`, `(= l r)` or `(> l r)`.
pub open spec fn spec_parse_cmp_bool(toks: Seq<TokenV>, i: nat) -> ParseStep<ExprV>
    decreases toks.len() - i, 1int,
{
    if i + 1 >= toks.len() || toks[i as int].kind != TokenKind::OpenParen {
        Err(Error::ParseError)
    } else if !(toks[i as int + 1].kind == TokenKind::LessThan || toks[i as int + 1].kind == TokenKind::Equal
        || toks[i as int + 1].kind == TokenKind::GreaterThan) {
        Err(Error::ParseError)
    } else {
        let op = spec_cmp_bool_op(toks[i as int + 1].kind);
        match spec_parse_num_expr(toks, i + 2) {
            Ok((l, e1)) => match spec_parse_num_expr(toks, held(toks.len(), i + 3 + e1)) {
                Ok((r, e2)) => {
                    let p = i + 4 + e1 + e2;
                    if p < toks.len() && toks[p as int].kind == TokenKind::CloseParen {
                        Ok(
                            (
                                ExprV::BoolPos {
                                    expr: Box::new(
                                        ExprV::Cmp { op, left: Box::new(l), right: Box::new(r) },
                                    ),
                                },
                                (p - i) as nat,
                            ),
                        )
                    } else {
                        Err(Error::ParseError)
                    }
                },
                Err(er) => Err(er),
            },
            Err(er) => Err(er),
        }
    }
}

/// Parse an expression in a list position: a variable, the empty list, or
/// a parenthesized call, literal, `cons`, `car` or `cdr`.
pub open spec fn spec_parse_list_expr(toks: Seq<TokenV>, i: nat) -> ParseStep<ExprV>
    decreases toks.len() - i, 2int,
{
    if i >= toks.len() {
        Err(Error::ParseError)
    } else {
        match toks[i as int].kind {
            TokenKind::Identifier => Ok(
                (ExprV::ListPos { expr: Box::new(ExprV::Var { name: toks[i as int].text }) }, 0 as nat),
            ),
            TokenKind::Empty => Ok(
                (ExprV::ListPos { expr: Box::new(ExprV::ListEmpty) }, 0 as nat),
            ),
            TokenKind::OpenParen => if i + 1 >= toks.len() {
                Err(Error::ParseError)
            } else {
                match toks[i as int + 1].kind {
                    TokenKind::Identifier => match spec_parse_function_call(toks, i) {
                        Ok((call, extra)) => Ok(
                            (ExprV::ListPos { expr: Box::new(call) }, extra),
                        ),
                        Err(er) => Err(er),
                    },
                    TokenKind::List => match spec_parse_list_literal(toks, i) {
                        Ok((l, extra)) => Ok((ExprV::ListPos { expr: Box::new(l) }, extra)),
                        Err(er) => Err(er),
                    },
                    TokenKind::Cons => match spec_parse_cons(toks, i) {
                        Ok((l, extra)) => Ok((ExprV::ListPos { expr: Box::new(l) }, extra)),
                        Err(er) => Err(er),
                    },
                    TokenKind::Car => match spec_parse_car_expr(toks, i) {
                        Ok((car, extra)) => Ok((ExprV::ListPos { expr: Box::new(car) }, extra)),
                        Err(er) => Err(er),
                    },
                    TokenKind::Cdr => match spec_parse_cdr_expr(toks, i) {
                        Ok((cdr, extra)) => Ok((ExprV::ListPos { expr: Box::new(cdr) }, extra)),
                        Err(er) => Err(er),
                    },
                    _ => Err(Error::ParseError),
                }
            },
            _ => Err(Error::ParseError),
        }
    }
}

/// `(car e)`: the argument must parse to a list-shaped form or a variable.
pub open spec fn spec_parse_car_expr(toks: Seq<TokenV>, i: nat) -> ParseStep<ExprV>
    decreases toks.len() - i, 1int,
{
    if i + 1 >= toks.len() || toks[i as int].kind != TokenKind::OpenParen {
        Err(Error::ParseError)
    } else if toks[i as int + 1].kind != TokenKind::Car {
        Err(Error::ParseError)
    } else {
        match spec_parse_expr(toks, i + 2) {
            Ok((e, e1)) => {
                let p = i + 3 + e1;
                if p < toks.len() && toks[p as int].kind == TokenKind::CloseParen {
                    match e {
                        ExprV::ListPos { .. } => Ok(
                            (ExprV::Car { list: Box::new(e) }, (p - i) as nat),
                        ),
                        ExprV::Var { name } => Ok(
                            (
                                ExprV::Car {
                                    list: Box::new(
                                        ExprV::ListPos {
                                            expr: Box::new(ExprV::Var { name }),
                                        },
                                    ),
                                },
                                (p - i) as nat,
                            ),
                        ),
                        _ => Err(Error::ParseError),
                    }
                } else {
                    Err(Error::ParseError)
                }
            },
            Err(er) => Err(er),
        }
    }
}

/// `(cdr l)`: the argument parses as a list expression.
pub open spec fn spec_parse_cdr_expr(toks: Seq<TokenV>, i: nat) -> ParseStep<ExprV>
    decreases toks.len() - i, 1int,
{
    if i + 1 >= toks.len() || toks[i as int].kind != TokenKind::OpenParen {
        Err(Error::ParseError)
    } else if toks[i as int + 1].kind != TokenKind::Cdr {
        Err(Error::ParseError)
    } else {
        match spec_parse_list_expr(toks, i + 2) {
            Ok((l, e1)) => {
                let p = i + 3 + e1;
                if p < toks.len() && toks[p as int].kind == TokenKind::CloseParen {
                    Ok((ExprV::Cdr { list: Box::new(l) }, (p - i) as nat))
                } else {
                    Err(Error::ParseError)
                }
            },
            Err(er) => Err(er),
        }
    }
}

/// `(empty? e)`: the argument must parse to a list-shaped form or a
/// variable.
pub open spec fn spec_parse_empty_huh(toks: Seq<TokenV>, i: nat) -> ParseStep<ExprV>
    decreases toks.len() - i, 1int,
{
    if i + 1 >= toks.len() || toks[i as int].kind != TokenKind::OpenParen {
        Err(Error::ParseError)
    } else if toks[i as int + 1].kind != TokenKind::EmptyHuh {
        Err(Error::ParseError)
    } else {
        match spec_parse_expr(toks, i + 2) {
            Ok((e, e1)) => {
                let p = i + 3 + e1;
                if p < toks.len() && toks[p as int].kind == TokenKind::CloseParen {
                    match e {
                        ExprV::ListPos { .. } => Ok(
                            (ExprV::EmptyHuh { list: Box::new(e) }, (p - i) as nat),
                        ),
                        ExprV::Var { name } => Ok(
                            (
                                ExprV::EmptyHuh {
                                    list: Box::new(
                                        ExprV::ListPos {
                                            expr: Box::new(ExprV::Var { name }),
                                        },
                                    ),
                                },
                                (p - i) as nat,
                            ),
                        ),
                        _ => Err(Error::ParseError),
                    }
                } else {
                    Err(Error::ParseError)
                }
            },
            Err(er) => Err(er),
        }
    }
}

/// `(list? e)` over an arbitrary sub-expression.
pub open spec fn spec_parse_list_huh(toks: Seq<TokenV>, i: nat) -> ParseStep<ExprV>
    decreases toks.len() - i, 1int,
{
    if i + 1 >= toks.len() || toks[i as int].kind != TokenKind::OpenParen {
        Err(Error::ParseError)
    } else if toks[i as int + 1].kind != TokenKind::ListHuh {
        Err(Error::ParseError)
    } else {
        match spec_parse_expr(toks, i + 2) {
            Ok((e, e1)) => {
                let p = i + 3 + e1;
                if p < toks.len() && toks[p as int].kind == TokenKind::CloseParen {
                    Ok((ExprV::ListHuh { expr: Box::new(e) }, (p - i) as nat))
                } else {
                    Err(Error::ParseError)
                }
            },
            Err(er) => Err(er),
        }
    }
}

/// `(cond (guard result) ...)`: at least one case, parsed in source order.
pub open spec fn spec_parse_cond_expr(toks: Seq<TokenV>, i: nat) -> ParseStep<ExprV>
    decreases toks.len() - i, 1int,
{
    if i + 2 >= toks.len() || toks[i as int].kind != TokenKind::OpenParen {
        Err(Error::ParseError)
    } else if toks[i as int + 2].kind == TokenKind::CloseParen {
        Err(Error::ParseError)
    } else {
        match spec_parse_cond_cases(toks, i + 2) {
            Ok((cases, cnt)) => {
                let p = i + 2 + cnt;
                if p < toks.len() && toks[p as int].kind == TokenKind::CloseParen {
                    Ok((ExprV::Cond { cases }, (p - i) as nat))
                } else {
                    Err(Error::ParseError)
                }
            },
            Err(er) => Err(er),
        }
    }
}

/// The cases of a `cond`, scanned until the closing parenthesis.
pub open spec fn spec_parse_cond_cases(toks: Seq<TokenV>, i: nat) -> Result<
    (Seq<CondCaseV>, nat),
    Error,
>
    decreases toks.len() - i, 4int,
{
    if i >= toks.len() {
        Err(Error::ParseError)
    } else if toks[i as int].kind == TokenKind::CloseParen {
        Ok((Seq::empty(), 0))
    } else {
        match spec_parse_cond_case(toks, i) {
            Ok((c, extra)) => match spec_parse_cond_cases(toks, held(toks.len(), i + 1 + extra)) {
                Ok((rest, cnt)) => Ok((seq![c] + rest, 1 + extra + cnt)),
                Err(er) => Err(er),
            },
            Err(er) => Err(er),
        }
    }
}

/// One `(guard result)` case.
pub open spec fn spec_parse_cond_case(toks: Seq<TokenV>, i: nat) -> ParseStep<CondCaseV>
    decreases toks.len() - i, 1int,
{
    if i >= toks.len() || toks[i as int].kind != TokenKind::OpenParen {
        Err(Error::ParseError)
    } else {
        match spec_parse_bool_expr(toks, i + 1) {
            Ok((g, e1)) => match spec_parse_expr(toks, held(toks.len(), i + 2 + e1)) {
                Ok((r, e2)) => {
                    let p = i + 3 + e1 + e2;
                    if p < toks.len() && toks[p as int].kind == TokenKind::CloseParen {
                        Ok((CondCaseV { condition: g, result: r }, (p - i) as nat))
                    } else {
                        Err(Error::ParseError)
                    }
                },
                Err(er) => Err(er),
            },
            Err(er) => Err(er),
        }
    }
}

/// `(define (name param ...) body)`.
pub open spec fn spec_parse_function_expr(toks: Seq<TokenV>, i: nat) -> ParseStep<ExprV>
    decreases toks.len() - i, 1int,
{
    if i + 3 >= toks.len() || toks[i as int].kind != TokenKind::OpenParen {
        Err(Error::ParseError)
    } else if toks[i as int + 2].kind != TokenKind::OpenParen {
        Err(Error::ParseError)
    } else {
        let name = toks[i as int + 3].text;
        match spec_parse_params(toks, i + 4) {
            Ok((params, cnt)) => {
                let q = i + 4 + cnt;
                if q < toks.len() && toks[q as int].kind == TokenKind::CloseParen {
                    match spec_parse_expr(toks, q + 1) {
                        Ok((body, e1)) => {
                            let p = q + 2 + e1;
                            if p < toks.len() && toks[p as int].kind == TokenKind::CloseParen {
                                Ok(
                                    (
                                        ExprV::Define {
                                            name,
                                            parameters: params,
                                            body: Box::new(body),
                                        },
                                        (p - i) as nat,
                                    ),
                                )
                            } else {
                                Err(Error::ParseError)
                            }
                        },
                        Err(er) => Err(er),
                    }
                } else {
                    Err(Error::ParseError)
                }
            },
            Err(er) => Err(er),
        }
    }
}

/// The parameter names of a definition: identifiers as far as they run.
pub open spec fn spec_parse_params(toks: Seq<TokenV>, i: nat) -> Result<(Seq<Seq<char>>, nat), Error>
    decreases toks.len() - i, 4int,
{
    if i >= toks.len() {
        Err(Error::ParseError)
    } else if toks[i as int].kind == TokenKind::Identifier {
        match spec_parse_params(toks, i + 1) {
            Ok((rest, cnt)) => Ok((seq![toks[i as int].text] + rest, 1 + cnt)),
            Err(er) => Err(er),
        }
    } else {
        Ok((Seq::empty(), 0))
    }
}

/// `(name arg ...)`: a call of the named function.
pub open spec fn spec_parse_function_call(toks: Seq<TokenV>, i: nat) -> ParseStep<ExprV>
    decreases toks.len() - i, 1int,
{
    if i + 1 >= toks.len() || toks[i as int].kind != TokenKind::OpenParen {
        Err(Error::ParseError)
    } else {
        let name = toks[i as int + 1].text;
        match spec_parse_exprs_to_close(toks, i + 2) {
            Ok((args, cnt)) => {
                let p = i + 2 + cnt;
                if p < toks.len() && toks[p as int].kind == TokenKind::CloseParen {
                    Ok((ExprV::Call { name, arguments: args }, (p - i) as nat))
                } else {
                    Err(Error::ParseError)
                }
            },
            Err(er) => Err(er),
        }
    }
}

/// Expressions up to the closing parenthesis: call arguments and list
/// literal elements share this shape.
pub open spec fn spec_parse_exprs_to_close(toks: Seq<TokenV>, i: nat) -> Result<
    (Seq<ExprV>, nat),
    Error,
>
    decreases toks.len() - i, 4int,
{
    if i >= toks.len() {
        Err(Error::ParseError)
    } else if toks[i as int].kind == TokenKind::CloseParen {
        Ok((Seq::empty(), 0))
    } else {
        match spec_parse_expr(toks, i) {
            Ok((e, extra)) => match spec_parse_exprs_to_close(toks, held(toks.len(), i + 1 + extra)) {
                Ok((rest, cnt)) => Ok((seq![e] + rest, 1 + extra + cnt)),
                Err(er) => Err(er),
            },
            Err(er) => Err(er),
        }
    }
}

/// `(list e ...)`: the elements, desugared into nested cons nodes.
pub open spec fn spec_parse_list_literal(toks: Seq<TokenV>, i: nat) -> ParseStep<ExprV>
    decreases toks.len() - i, 1int,
{
    if i + 1 >= toks.len() || toks[i as int].kind != TokenKind::OpenParen {
        Err(Error::ParseError)
    } else if toks[i as int + 1].kind != TokenKind::List {
        Err(Error::ParseError)
    } else {
        match spec_parse_exprs_to_close(toks, i + 2) {
            Ok((items, cnt)) => {
                let p = i + 2 + cnt;
                if p < toks.len() && toks[p as int].kind == TokenKind::CloseParen {
                    Ok((items_to_list(items), (p - i) as nat))
                } else {
                    Err(Error::ParseError)
                }
            },
            Err(er) => Err(er),
        }
    }
}

/// `(cons a b)`: one node whose head parses as a full expression and whose
/// tail parses as a list expression.
pub open spec fn spec_parse_cons(toks: Seq<TokenV>, i: nat) -> ParseStep<ExprV>
    decreases toks.len() - i, 1int,
{
    if i + 1 >= toks.len() {
        Err(Error::ParseError)
    } else if toks[i as int + 1].kind != TokenKind::Cons {
        Err(Error::ParseError)
    } else {
        match spec_parse_expr(toks, i + 2) {
            Ok((d, e1)) => match spec_parse_list_expr(toks, held(toks.len(), i + 3 + e1)) {
                Ok((x, e2)) => {
                    let p = i + 4 + e1 + e2;
                    if p < toks.len() && toks[p as int].kind == TokenKind::CloseParen {
                        Ok(
                            (
                                ExprV::ListNode { data: Box::new(d), next: Box::new(x) },
                                (p - i) as nat,
                            ),
                        )
                    } else {
                        Err(Error::ParseError)
                    }
                },
                Err(er) => Err(er),
            },
            Err(er) => Err(er),
        }
    }
}

/// A whole program position: one expression, then nothing left over.
pub open spec fn spec_parse_program(toks: Seq<TokenV>) -> Result<ExprV, Error> {
    match spec_parse_expr(toks, 0) {
        Ok((e, extra)) => if 1 + extra == toks.len() {
            Ok(e)
        } else {
            Err(Error::ParseError)
        },
        Err(er) => Err(er),
    }
}

} // verus!
