use vstd::prelude::*;

use crate::ast::BinaryBoolExpr;
use crate::ast::BinaryNumExpr;
use crate::ast::BoolExpr;
use crate::ast::CarExpr;
use crate::ast::CdrExpr;
use crate::ast::CondCase;
use crate::ast::CondExpr;
use crate::ast::EmptyHuhExpr;
use crate::ast::Expr;
use crate::ast::FunctionCallExpr;
use crate::ast::FunctionExpr;
use crate::ast::ListExpr;
use crate::ast::ListHuhExpr;
use crate::ast::ListLiteralExpr;
use crate::ast::Node;
use crate::ast::NumExpr;
use crate::ast::UnaryBoolExpr;
use crate::ast::VariableExpr;
use crate::ast::lemma_view_cases;
use crate::ast::lemma_view_exprs;
use crate::ast::view_cases;
use crate::ast::view_exprs;
use crate::ast::view_names;
use crate::error::Error;
use crate::lexer::TokenIter;
use crate::lexer::TokenKind;
use crate::lexer::TokenV;
use crate::lexer::spec_tokens;
use crate::lexer::string_to_tokens;
use crate::lexer::token_kind_to_binary_bool_op;
use crate::lexer::token_kind_to_binary_num_op;
use crate::lexer::token_kind_to_cmp_bool_op;
use crate::lexer::token_kind_to_unary_bool_op;
use crate::lexer::view_tokens;
use crate::parser_spec::digits_val;
use crate::parser_spec::held;
use crate::parser_spec::is_digit_seq;
use crate::parser_spec::items_to_list;
use crate::parser_spec::spec_parse_binary_bool;
use crate::parser_spec::spec_parse_bool_expr;
use crate::parser_spec::spec_parse_car_expr;
use crate::parser_spec::spec_parse_cdr_expr;
use crate::parser_spec::spec_parse_cmp_bool;
use crate::parser_spec::spec_parse_cond_case;
use crate::parser_spec::spec_parse_cond_cases;
use crate::parser_spec::spec_parse_cond_expr;
use crate::parser_spec::spec_parse_cons;
use crate::parser_spec::spec_parse_empty_huh;
use crate::parser_spec::spec_parse_expr;
use crate::parser_spec::spec_parse_exprs_to_close;
use crate::parser_spec::spec_parse_function_call;
use crate::parser_spec::spec_parse_function_expr;
use crate::parser_spec::spec_parse_list_expr;
use crate::parser_spec::spec_parse_list_huh;
use crate::parser_spec::spec_parse_list_literal;
use crate::parser_spec::spec_parse_num_expr;
use crate::parser_spec::spec_parse_params;
use crate::parser_spec::spec_parse_program;
use crate::parser_spec::spec_parse_unary_bool;
use crate::parser_spec::spec_str_to_i32;
use crate::spec_ast::ExprV;

verus! {

broadcast use crate::lexer::lemma_view_tokens, crate::ast::lemma_view_cases_len, crate::ast::lemma_view_cases_index, crate::ast::lemma_view_exprs_len, crate::ast::lemma_view_exprs_index;

/// The program text's expression, as both tokenizing and parsing assign
/// it.
pub open spec fn spec_parse(s: Seq<char>) -> Result<ExprV, Error> {
    match spec_tokens(s) {
        Ok(ts) => spec_parse_program(ts),
        Err(er) => Err(er),
    }
}

proof fn lemma_digits_val_nonneg(s: Seq<char>)
    requires
        is_digit_seq(s),
    ensures
        digits_val(s) >= 0,
    decreases s.len(),
{
    if s.len() > 0 {
        assert(is_digit_seq(s.drop_last())) by {
            assert(forall|k: int|
                0 <= k < s.len() - 1 ==> s.drop_last()[k] == #[trigger] s[k]);
        }
        lemma_digits_val_nonneg(s.drop_last());
    }
}

proof fn lemma_digits_val_prefix(s: Seq<char>, m: int)
    requires
        is_digit_seq(s),
        0 <= m <= s.len(),
    ensures
        digits_val(s) >= digits_val(s.take(m)),
    decreases s.len() - m,
{
    if m < s.len() {
        lemma_digits_val_prefix(s, m + 1);
        assert(s.take(m + 1).drop_last() =~= s.take(m));
        assert(s.take(m + 1).last() == s[m]);
        assert(is_digit_seq(s.take(m + 1))) by {
            assert(forall|k: int|
                0 <= k < m + 1 ==> s.take(m + 1)[k] == #[trigger] s[k]);
        }
        lemma_digits_val_nonneg(s.take(m));
    } else {
        assert(s.take(m) =~= s);
    }
}

/// The 32-bit number a token's text denotes: all digits and in range, or a
/// parse error.
fn str_to_i32(text: &String) -> (r: Result<i32, Error>)
    ensures
        r == spec_str_to_i32(text@),
        r matches Ok(v) ==> v >= 0,
{
    let t = text.as_str();
    let n = t.unicode_len();
    if n == 0 {
        return Err(Error::ParseError);
    }
    let mut acc: u64 = 0;
    let mut j: usize = 0;
    while j < n
        invariant
            n == t@.len(),
            t@ == text@,
            j <= n,
            forall|k: int| 0 <= k < j ==> crate::lexer::is_digit_char(#[trigger] t@[k]),
            acc == digits_val(t@.take(j as int)),
            acc <= i32::MAX as u64,
        decreases n - j,
    {
        let c = t.get_char(j);
        if !('0' <= c && c <= '9') {
            return Err(Error::ParseError);
        }
        let d = (c as u32) - ('0' as u32);
        proof {
            assert(t@.take(j + 1).drop_last() =~= t@.take(j as int));
            assert(t@.take(j + 1).last() == t@[j as int]);
        }
        acc = acc * 10 + (d as u64);
        if acc > i32::MAX as u64 {
            proof {
                assert(is_digit_seq(t@.take(j + 1))) by {
                    assert(forall|k: int|
                        0 <= k < j + 1 ==> t@.take(j + 1)[k] == #[trigger] t@[k]);
                }
                if t@.len() > 0 && is_digit_seq(t@) {
                    lemma_digits_val_prefix(t@, j + 1);
                    assert(t@.take(t@.len() as int) =~= t@);
                }
            }
            return Err(Error::ParseError);
        }
        j = j + 1;
    }
    proof {
        assert(t@.take(n as int) =~= t@);
    }
    Ok(acc as i32)
}

/// Where the cursor stands in its token sequence, as the parsing
/// specification counts it.
pub open spec fn cursor_at(tokens: TokenIter<'_>) -> nat {
    tokens.pos()
}

/// The views of the cursor's tokens.
pub open spec fn cursor_toks(tokens: TokenIter<'_>) -> Seq<TokenV> {
    view_tokens(tokens.toks())
}

/// Consume one token, which must be an opening parenthesis.
fn consume_open_paren(tokens: &mut TokenIter<'_>) -> (r: Result<(), Error>)
    ensures
        final(tokens).toks() == old(tokens).toks(),
        r is Ok ==> old(tokens).pos() < old(tokens).toks().len() && old(tokens).toks()[old(tokens).pos() as int].kind == TokenKind::OpenParen && final(tokens).pos() == old(tokens).pos() + 1,
        r is Err ==> r == Err::<(), Error>(Error::ParseError) && (old(tokens).pos() >= old(
            tokens,
        ).toks().len() || old(tokens).toks()[old(tokens).pos() as int].kind != TokenKind::OpenParen),
{
    match tokens.next() {
        Some(t) => {
            if t.kind == TokenKind::OpenParen {
                Ok(())
            } else {
                Err(Error::ParseError)
            }
        },
        None => Err(Error::ParseError),
    }
}

/// Consume one token, which must be a closing parenthesis.
fn consume_close_paren(tokens: &mut TokenIter<'_>) -> (r: Result<(), Error>)
    ensures
        final(tokens).toks() == old(tokens).toks(),
        r is Ok ==> old(tokens).pos() < old(tokens).toks().len() && old(tokens).toks()[old(tokens).pos() as int].kind == TokenKind::CloseParen && final(tokens).pos() == old(tokens).pos() + 1,
        r is Err ==> r == Err::<(), Error>(Error::ParseError) && (old(tokens).pos() >= old(
            tokens,
        ).toks().len() || old(tokens).toks()[old(tokens).pos() as int].kind != TokenKind::CloseParen),
{
    match tokens.next() {
        Some(t) => {
            if t.kind == TokenKind::CloseParen {
                Ok(())
            } else {
                Err(Error::ParseError)
            }
        },
        None => Err(Error::ParseError),
    }
}

/// Consume one token as a variable reference by name.
fn parse_variable_expr(tokens: &mut TokenIter<'_>) -> (r: Result<VariableExpr, Error>)
    ensures
        final(tokens).toks() == old(tokens).toks(),
        match r {
            Ok(v) => old(tokens).pos() < old(tokens).toks().len() && v.name@ == old(tokens).toks()[
                old(tokens).pos() as int]@.text && final(tokens).pos() == old(tokens).pos() + 1,
            Err(er) => er == Error::ParseError && old(tokens).pos() >= old(tokens).toks().len(),
        },
{
    match tokens.next() {
        Some(t) => Ok(VariableExpr { name: t.text.clone() }),
        None => Err(Error::ParseError),
    }
}

/// Parse one full expression at the cursor, exactly as the grammar
/// specification reads it: the result's mathematical form and the tokens
/// consumed both match the specification.
#[verifier::rlimit(100)]
pub fn parse_expr<'a>(tokens: &mut TokenIter<'a>) -> (r: Result<Expr, Error>)
    ensures
        final(tokens).toks() == old(tokens).toks(),
        match spec_parse_expr(cursor_toks(*old(tokens)), cursor_at(*old(tokens))) {
            Ok(pr) => r matches Ok(e) && e@ == pr.0 && final(tokens).pos() == old(tokens).pos() + 1
                + pr.1 && final(tokens).pos() <= old(tokens).toks().len(),
            Err(er) => r == Err::<Expr, Error>(er),
        },
    decreases tokens.toks().len() - tokens.pos(), 3int,
{
    let kind0 = match tokens.peek() {
        Some(t) => t.kind,
        None => {
            return Err(Error::ParseError);
        },
    };
    match kind0 {
        TokenKind::Identifier => match parse_variable_expr(tokens) {
            Ok(v) => {
                return Ok(Expr::VariableExpr(v));
            },
            Err(er) => {
                return Err(er);
            },
        },
        TokenKind::Minus => match parse_num_expr(tokens) {
            Ok(x) => {
                return Ok(Expr::NumExpr(x));
            },
            Err(er) => {
                return Err(er);
            },
        },
        TokenKind::Number => {
            let t = match tokens.next() {
                Some(t) => t,
                None => {
                    return Err(Error::ParseError);
                },
            };
            match str_to_i32(&t.text) {
                Ok(v) => {
                    let e = NumExpr::LiteralNumExpr(v);
                    proof {
                        assert(e.raw_view() == ExprV::NumLit { value: v });
                        assert(e@ == ExprV::NumPos { expr: Box::new(ExprV::NumLit { value: v }) });
                    }
                    return Ok(Expr::NumExpr(e));
                },
                Err(er) => {
                    return Err(er);
                },
            }
        },
        TokenKind::Boolean => {
            let t = match tokens.next() {
                Some(t) => t,
                None => {
                    return Err(Error::ParseError);
                },
            };
            if t.text == "true".to_owned() {
                let e = BoolExpr::LiteralBoolExpr(true);
                proof {
                    assert(e.raw_view() == ExprV::BoolLit { value: true });
                    assert(e@ == ExprV::BoolPos {
                        expr: Box::new(ExprV::BoolLit { value: true }),
                    });
                }
                return Ok(Expr::BoolExpr(e));
            } else if t.text == "false".to_owned() {
                let e = BoolExpr::LiteralBoolExpr(false);
                proof {
                    assert(e.raw_view() == ExprV::BoolLit { value: false });
                    assert(e@ == ExprV::BoolPos {
                        expr: Box::new(ExprV::BoolLit { value: false }),
                    });
                }
                return Ok(Expr::BoolExpr(e));
            } else {
                return Err(Error::ParseError);
            }
        },
        TokenKind::Empty => {
            let _ = tokens.next();
            let x = ListExpr::ListLiteralExpr(ListLiteralExpr::Empty);
            proof {
                assert(x.raw_view() == ExprV::ListEmpty);
                assert(x@ == ExprV::ListPos { expr: Box::new(ExprV::ListEmpty) });
            }
            return Ok(Expr::EmptyExpr(x));
        },
        TokenKind::OpenParen => {
            let kind1 = match tokens.peek_nth(1) {
                Some(t) => t.kind,
                None => {
                    return Err(Error::ParseError);
                },
            };
            match kind1 {
                TokenKind::Define => match parse_function_expr(tokens) {
                    Ok(f) => {
                        return Ok(Expr::FunctionExpr(f));
                    },
                    Err(er) => {
                        return Err(er);
                    },
                },
                TokenKind::Cond => match parse_cond_expr(tokens) {
                    Ok(c) => {
                        return Ok(Expr::CondExpr(c));
                    },
                    Err(er) => {
                        return Err(er);
                    },
                },
                TokenKind::Car => match parse_car_expr(tokens) {
                    Ok(c) => {
                        return Ok(Expr::CarExpr(c));
                    },
                    Err(er) => {
                        return Err(er);
                    },
                },
                TokenKind::Identifier => match parse_function_call(tokens) {
                    Ok(c) => {
                        return Ok(Expr::FunctionCallExpr(c));
                    },
                    Err(er) => {
                        return Err(er);
                    },
                },
                TokenKind::List | TokenKind::Cons | TokenKind::Cdr => match parse_list_expr(
                    tokens,
                ) {
                    Ok(l) => {
                        return Ok(Expr::ListExpr(l));
                    },
                    Err(er) => {
                        return Err(er);
                    },
                },
                TokenKind::Plus | TokenKind::Minus | TokenKind::Slash | TokenKind::Star
                    | TokenKind::Percent => match parse_num_expr(tokens) {
                    Ok(x) => {
                        return Ok(Expr::NumExpr(x));
                    },
                    Err(er) => {
                        return Err(er);
                    },
                },
                TokenKind::Ampersand | TokenKind::Pipe | TokenKind::Bang | TokenKind::LessThan
                    | TokenKind::Equal | TokenKind::GreaterThan | TokenKind::EmptyHuh
                    | TokenKind::ListHuh => match parse_bool_expr(tokens) {
                    Ok(b) => {
                        return Ok(Expr::BoolExpr(b));
                    },
                    Err(er) => {
                        return Err(er);
                    },
                },
                _ => {
                    return Err(Error::ParseError);
                },
            }
        },
        _ => {
            return Err(Error::ParseError);
        },
    }
}

/// Parse an expression in a numeric position.
#[verifier::rlimit(60)]
pub fn parse_num_expr<'a>(tokens: &mut TokenIter<'a>) -> (r: Result<NumExpr, Error>)
    ensures
        final(tokens).toks() == old(tokens).toks(),
        match spec_parse_num_expr(cursor_toks(*old(tokens)), cursor_at(*old(tokens))) {
            Ok(pr) => r matches Ok(e) && e@ == pr.0 && final(tokens).pos() == old(tokens).pos() + 1
                + pr.1 && final(tokens).pos() <= old(tokens).toks().len(),
            Err(er) => r == Err::<NumExpr, Error>(er),
        },
    decreases tokens.toks().len() - tokens.pos(), 2int,
{
    let kind0 = match tokens.peek() {
        Some(t) => t.kind,
        None => {
            return Err(Error::ParseError);
        },
    };
    match kind0 {
        TokenKind::Number => {
            let t = match tokens.next() {
                Some(t) => t,
                None => {
                    return Err(Error::ParseError);
                },
            };
            match str_to_i32(&t.text) {
                Ok(v) => Ok(NumExpr::LiteralNumExpr(v)),
                Err(er) => Err(er),
            }
        },
        TokenKind::Identifier => {
            let t = match tokens.next() {
                Some(t) => t,
                None => {
                    return Err(Error::ParseError);
                },
            };
            Ok(NumExpr::VariableExpr(VariableExpr { name: t.text.clone() }))
        },
        TokenKind::Minus => {
            let _ = tokens.next();
            let t = match tokens.next() {
                Some(t) => t,
                None => {
                    return Err(Error::ParseError);
                },
            };
            match str_to_i32(&t.text) {
                Ok(v) => Ok(NumExpr::LiteralNumExpr(0 - v)),
                Err(er) => Err(er),
            }
        },
        _ => {
            let kind1 = match tokens.peek_nth(1) {
                Some(t) => t.kind,
                None => {
                    return Err(Error::ParseError);
                },
            };
            match kind1 {
                TokenKind::Identifier => match parse_function_call(tokens) {
                    Ok(c) => Ok(NumExpr::FunctionCallExpr(c)),
                    Err(er) => Err(er),
                },
                TokenKind::Car => match parse_car_expr(tokens) {
                    Ok(c) => Ok(NumExpr::CarExpr(c)),
                    Err(er) => Err(er),
                },
                TokenKind::Plus | TokenKind::Minus | TokenKind::Star | TokenKind::Slash
                    | TokenKind::Percent => {
                    if consume_open_paren(tokens).is_err() {
                        return Err(Error::ParseError);
                    }
                    let op_token_kind = match tokens.next() {
                        Some(t) => t.kind,
                        None => {
                            return Err(Error::ParseError);
                        },
                    };
                    let op = token_kind_to_binary_num_op(&op_token_kind);
                    let left = match parse_num_expr(tokens) {
                        Ok(l) => l,
                        Err(er) => {
                            return Err(er);
                        },
                    };
                    let right = match parse_num_expr(tokens) {
                        Ok(x) => x,
                        Err(er) => {
                            return Err(er);
                        },
                    };
                    if consume_close_paren(tokens).is_err() {
                        return Err(Error::ParseError);
                    }
                    Ok(NumExpr::BinaryNumExpr(Box::new(BinaryNumExpr { op, left, right })))
                },
                _ => Err(Error::ParseError),
            }
        },
    }
}

/// Parse an expression in a boolean position.
#[verifier::rlimit(60)]
fn parse_bool_expr<'a>(tokens: &mut TokenIter<'a>) -> (r: Result<BoolExpr, Error>)
    ensures
        final(tokens).toks() == old(tokens).toks(),
        match spec_parse_bool_expr(cursor_toks(*old(tokens)), cursor_at(*old(tokens))) {
            Ok(pr) => r matches Ok(e) && e@ == pr.0 && final(tokens).pos() == old(tokens).pos() + 1
                + pr.1 && final(tokens).pos() <= old(tokens).toks().len(),
            Err(er) => r == Err::<BoolExpr, Error>(er),
        },
    decreases tokens.toks().len() - tokens.pos(), 2int,
{
    let kind0 = match tokens.peek() {
        Some(t) => t.kind,
        None => {
            return Err(Error::ParseError);
        },
    };
    match kind0 {
        TokenKind::Boolean => {
            let t = match tokens.next() {
                Some(t) => t,
                None => {
                    return Err(Error::ParseError);
                },
            };
            if t.text == "true".to_owned() {
                Ok(BoolExpr::LiteralBoolExpr(true))
            } else if t.text == "false".to_owned() {
                Ok(BoolExpr::LiteralBoolExpr(false))
            } else {
                Err(Error::ParseError)
            }
        },
        TokenKind::Identifier => {
            let t = match tokens.next() {
                Some(t) => t,
                None => {
                    return Err(Error::ParseError);
                },
            };
            Ok(BoolExpr::VariableExpr(VariableExpr { name: t.text.clone() }))
        },
        TokenKind::OpenParen => {
            let kind1 = match tokens.peek_nth(1) {
                Some(t) => t.kind,
                None => {
                    return Err(Error::ParseError);
                },
            };
            match kind1 {
                TokenKind::Ampersand | TokenKind::Pipe => parse_binary_bool_expr(tokens),
                TokenKind::Bang => parse_unary_bool_expr(tokens),
                TokenKind::LessThan | TokenKind::Equal | TokenKind::GreaterThan =>
                    parse_cmp_bool_expr(tokens),
                TokenKind::Identifier => match parse_function_call(tokens) {
                    Ok(c) => Ok(BoolExpr::FunctionCallExpr(c)),
                    Err(er) => Err(er),
                },
                TokenKind::EmptyHuh => match parse_empty_huh_expr(tokens) {
                    Ok(e) => Ok(BoolExpr::EmptyHuhExpr(e)),
                    Err(er) => Err(er),
                },
                TokenKind::ListHuh => match parse_list_huh_expr(tokens) {
                    Ok(e) => Ok(BoolExpr::ListHuhExpr(e)),
                    Err(er) => Err(er),
                },
                TokenKind::Car => match parse_car_expr(tokens) {
                    Ok(c) => Ok(BoolExpr::CarExpr(c)),
                    Err(er) => Err(er),
                },
                _ => Err(Error::ParseError),
            }
        },
        _ => Err(Error::ParseError),
    }
}

/// `(& l r)` or `(| l r)`.
#[verifier::rlimit(60)]
fn parse_binary_bool_expr<'a>(tokens: &mut TokenIter<'a>) -> (r: Result<BoolExpr, Error>)
    ensures
        final(tokens).toks() == old(tokens).toks(),
        match spec_parse_binary_bool(cursor_toks(*old(tokens)), cursor_at(*old(tokens))) {
            Ok(pr) => r matches Ok(e) && e@ == pr.0 && final(tokens).pos() == old(tokens).pos() + 1
                + pr.1 && final(tokens).pos() <= old(tokens).toks().len(),
            Err(er) => r == Err::<BoolExpr, Error>(er),
        },
    decreases tokens.toks().len() - tokens.pos(), 1int,
{
    if consume_open_paren(tokens).is_err() {
        return Err(Error::ParseError);
    }
    let op_kind = match tokens.next() {
        Some(t) => t.kind,
        None => {
            return Err(Error::ParseError);
        },
    };
    if !(op_kind == TokenKind::Ampersand || op_kind == TokenKind::Pipe) {
        return Err(Error::ParseError);
    }
    let op = token_kind_to_binary_bool_op(&op_kind);
    let left = match parse_bool_expr(tokens) {
        Ok(l) => l,
        Err(er) => {
            return Err(er);
        },
    };
    let right = match parse_bool_expr(tokens) {
        Ok(x) => x,
        Err(er) => {
            return Err(er);
        },
    };
    if consume_close_paren(tokens).is_err() {
        return Err(Error::ParseError);
    }
    Ok(BoolExpr::BinaryBoolExpr(Box::new(BinaryBoolExpr { op, left, right })))
}

/// `(! v)`.
fn parse_unary_bool_expr<'a>(tokens: &mut TokenIter<'a>) -> (r: Result<BoolExpr, Error>)
    ensures
        final(tokens).toks() == old(tokens).toks(),
        match spec_parse_unary_bool(cursor_toks(*old(tokens)), cursor_at(*old(tokens))) {
            Ok(pr) => r matches Ok(e) && e@ == pr.0 && final(tokens).pos() == old(tokens).pos() + 1
                + pr.1 && final(tokens).pos() <= old(tokens).toks().len(),
            Err(er) => r == Err::<BoolExpr, Error>(er),
        },
    decreases tokens.toks().len() - tokens.pos(), 1int,
{
    if consume_open_paren(tokens).is_err() {
        return Err(Error::ParseError);
    }
    let op_kind = match tokens.next() {
        Some(t) => t.kind,
        None => {
            return Err(Error::ParseError);
        },
    };
    if op_kind != TokenKind::Bang {
        return Err(Error::ParseError);
    }
    let op = token_kind_to_unary_bool_op(&op_kind);
    let value = match parse_bool_expr(tokens) {
        Ok(v) => v,
        Err(er) => {
            return Err(er);
        },
    };
    if consume_close_paren(tokens).is_err() {
        return Err(Error::ParseError);
    }
    Ok(BoolExpr::UnaryBoolExpr(Box::new(UnaryBoolExpr { op, value })))
}

/// `(< l r)`, `(= l r)` or `(> l r)`.
#[verifier::rlimit(100)]
fn parse_cmp_bool_expr<'a>(tokens: &mut TokenIter<'a>) -> (r: Result<BoolExpr, Error>)
    ensures
        final(tokens).toks() == old(tokens).toks(),
        match spec_parse_cmp_bool(cursor_toks(*old(tokens)), cursor_at(*old(tokens))) {
            Ok(pr) => r matches Ok(e) && e@ == pr.0 && final(tokens).pos() == old(tokens).pos() + 1
                + pr.1 && final(tokens).pos() <= old(tokens).toks().len(),
            Err(er) => r == Err::<BoolExpr, Error>(er),
        },
    decreases tokens.toks().len() - tokens.pos(), 1int,
{
    if consume_open_paren(tokens).is_err() {
        return Err(Error::ParseError);
    }
    let op_kind = match tokens.next() {
        Some(t) => t.kind,
        None => {
            return Err(Error::ParseError);
        },
    };
    if !(op_kind == TokenKind::LessThan || op_kind == TokenKind::Equal || op_kind
        == TokenKind::GreaterThan) {
        return Err(Error::ParseError);
    }
    let op = token_kind_to_cmp_bool_op(&op_kind);
    let left = match parse_num_expr(tokens) {
        Ok(l) => l,
        Err(er) => {
            return Err(er);
        },
    };
    let right = match parse_num_expr(tokens) {
        Ok(x) => x,
        Err(er) => {
            return Err(er);
        },
    };
    if consume_close_paren(tokens).is_err() {
        return Err(Error::ParseError);
    }
    Ok(BoolExpr::CmpExpr(Box::new(crate::ast::CmpBoolExpr { op, left, right })))
}

/// Parse an expression in a list position.
#[verifier::rlimit(60)]
fn parse_list_expr<'a>(tokens: &mut TokenIter<'a>) -> (r: Result<ListExpr, Error>)
    ensures
        final(tokens).toks() == old(tokens).toks(),
        match spec_parse_list_expr(cursor_toks(*old(tokens)), cursor_at(*old(tokens))) {
            Ok(pr) => r matches Ok(e) && e@ == pr.0 && final(tokens).pos() == old(tokens).pos() + 1
                + pr.1 && final(tokens).pos() <= old(tokens).toks().len(),
            Err(er) => r == Err::<ListExpr, Error>(er),
        },
    decreases tokens.toks().len() - tokens.pos(), 2int,
{
    let kind0 = match tokens.peek() {
        Some(t) => t.kind,
        None => {
            return Err(Error::ParseError);
        },
    };
    match kind0 {
        TokenKind::Identifier => {
            let t = match tokens.next() {
                Some(t) => t,
                None => {
                    return Err(Error::ParseError);
                },
            };
            Ok(ListExpr::VariableExpr(VariableExpr { name: t.text.clone() }))
        },
        TokenKind::Empty => {
            let _ = tokens.next();
            Ok(ListExpr::ListLiteralExpr(ListLiteralExpr::Empty))
        },
        TokenKind::OpenParen => {
            let kind1 = match tokens.peek_nth(1) {
                Some(t) => t.kind,
                None => {
                    return Err(Error::ParseError);
                },
            };
            match kind1 {
                TokenKind::Identifier => match parse_function_call(tokens) {
                    Ok(c) => Ok(ListExpr::FunctionCallExpr(c)),
                    Err(er) => Err(er),
                },
                TokenKind::List => match parse_list_literal_expr(tokens) {
                    Ok(l) => Ok(ListExpr::ListLiteralExpr(l)),
                    Err(er) => Err(er),
                },
                TokenKind::Cons => match parse_cons_expr(tokens) {
                    Ok(l) => Ok(ListExpr::ListLiteralExpr(l)),
                    Err(er) => Err(er),
                },
                TokenKind::Car => match parse_car_expr(tokens) {
                    Ok(c) => Ok(ListExpr::CarExpr(c)),
                    Err(er) => Err(er),
                },
                TokenKind::Cdr => match parse_cdr_expr(tokens) {
                    Ok(c) => Ok(ListExpr::CdrExpr(c)),
                    Err(er) => Err(er),
                },
                _ => Err(Error::ParseError),
            }
        },
        _ => Err(Error::ParseError),
    }
}

/// `(car e)`: the argument must be list-shaped or a variable.
fn parse_car_expr<'a>(tokens: &mut TokenIter<'a>) -> (r: Result<CarExpr, Error>)
    ensures
        final(tokens).toks() == old(tokens).toks(),
        match spec_parse_car_expr(cursor_toks(*old(tokens)), cursor_at(*old(tokens))) {
            Ok(pr) => r matches Ok(e) && e@ == pr.0 && final(tokens).pos() == old(tokens).pos() + 1
                + pr.1 && final(tokens).pos() <= old(tokens).toks().len(),
            Err(er) => r == Err::<CarExpr, Error>(er),
        },
    decreases tokens.toks().len() - tokens.pos(), 1int,
{
    if consume_open_paren(tokens).is_err() {
        return Err(Error::ParseError);
    }
    let kw = match tokens.next() {
        Some(t) => t.kind,
        None => {
            return Err(Error::ParseError);
        },
    };
    if kw != TokenKind::Car {
        return Err(Error::ParseError);
    }
    let list = match parse_expr(tokens) {
        Ok(e) => e,
        Err(er) => {
            return Err(er);
        },
    };
    if consume_close_paren(tokens).is_err() {
        return Err(Error::ParseError);
    }
    match list {
        Expr::ListExpr(x) => Ok(CarExpr { list: Box::new(x) }),
        Expr::EmptyExpr(x) => Ok(CarExpr { list: Box::new(x) }),
        Expr::VariableExpr(x) => Ok(CarExpr { list: Box::new(ListExpr::VariableExpr(x)) }),
        _ => Err(Error::ParseError),
    }
}

/// `(cdr l)`.
fn parse_cdr_expr<'a>(tokens: &mut TokenIter<'a>) -> (r: Result<CdrExpr, Error>)
    ensures
        final(tokens).toks() == old(tokens).toks(),
        match spec_parse_cdr_expr(cursor_toks(*old(tokens)), cursor_at(*old(tokens))) {
            Ok(pr) => r matches Ok(e) && e@ == pr.0 && final(tokens).pos() == old(tokens).pos() + 1
                + pr.1 && final(tokens).pos() <= old(tokens).toks().len(),
            Err(er) => r == Err::<CdrExpr, Error>(er),
        },
    decreases tokens.toks().len() - tokens.pos(), 1int,
{
    if consume_open_paren(tokens).is_err() {
        return Err(Error::ParseError);
    }
    let kw = match tokens.next() {
        Some(t) => t.kind,
        None => {
            return Err(Error::ParseError);
        },
    };
    if kw != TokenKind::Cdr {
        return Err(Error::ParseError);
    }
    let list = match parse_list_expr(tokens) {
        Ok(l) => l,
        Err(er) => {
            return Err(er);
        },
    };
    if consume_close_paren(tokens).is_err() {
        return Err(Error::ParseError);
    }
    Ok(CdrExpr { list: Box::new(list) })
}

/// `(empty? e)`: the argument must be list-shaped or a variable.
fn parse_empty_huh_expr<'a>(tokens: &mut TokenIter<'a>) -> (r: Result<EmptyHuhExpr, Error>)
    ensures
        final(tokens).toks() == old(tokens).toks(),
        match spec_parse_empty_huh(cursor_toks(*old(tokens)), cursor_at(*old(tokens))) {
            Ok(pr) => r matches Ok(e) && e@ == pr.0 && final(tokens).pos() == old(tokens).pos() + 1
                + pr.1 && final(tokens).pos() <= old(tokens).toks().len(),
            Err(er) => r == Err::<EmptyHuhExpr, Error>(er),
        },
    decreases tokens.toks().len() - tokens.pos(), 1int,
{
    if consume_open_paren(tokens).is_err() {
        return Err(Error::ParseError);
    }
    let kw = match tokens.next() {
        Some(t) => t.kind,
        None => {
            return Err(Error::ParseError);
        },
    };
    if kw != TokenKind::EmptyHuh {
        return Err(Error::ParseError);
    }
    let list = match parse_expr(tokens) {
        Ok(e) => e,
        Err(er) => {
            return Err(er);
        },
    };
    if consume_close_paren(tokens).is_err() {
        return Err(Error::ParseError);
    }
    match list {
        Expr::ListExpr(x) => Ok(EmptyHuhExpr { list: Box::new(x) }),
        Expr::EmptyExpr(x) => Ok(EmptyHuhExpr { list: Box::new(x) }),
        Expr::VariableExpr(x) => Ok(EmptyHuhExpr { list: Box::new(ListExpr::VariableExpr(x)) }),
        _ => Err(Error::ParseError),
    }
}

/// `(list? e)` over an arbitrary sub-expression.
fn parse_list_huh_expr<'a>(tokens: &mut TokenIter<'a>) -> (r: Result<ListHuhExpr, Error>)
    ensures
        final(tokens).toks() == old(tokens).toks(),
        match spec_parse_list_huh(cursor_toks(*old(tokens)), cursor_at(*old(tokens))) {
            Ok(pr) => r matches Ok(e) && e@ == pr.0 && final(tokens).pos() == old(tokens).pos() + 1
                + pr.1 && final(tokens).pos() <= old(tokens).toks().len(),
            Err(er) => r == Err::<ListHuhExpr, Error>(er),
        },
    decreases tokens.toks().len() - tokens.pos(), 1int,
{
    if consume_open_paren(tokens).is_err() {
        return Err(Error::ParseError);
    }
    let kw = match tokens.next() {
        Some(t) => t.kind,
        None => {
            return Err(Error::ParseError);
        },
    };
    if kw != TokenKind::ListHuh {
        return Err(Error::ParseError);
    }
    let expr = match parse_expr(tokens) {
        Ok(e) => e,
        Err(er) => {
            return Err(er);
        },
    };
    if consume_close_paren(tokens).is_err() {
        return Err(Error::ParseError);
    }
    Ok(ListHuhExpr { expr: Box::new(expr) })
}

/// `(cond (guard result) ...)`: at least one case, in source order.
fn parse_cond_expr<'a>(tokens: &mut TokenIter<'a>) -> (r: Result<CondExpr, Error>)
    ensures
        final(tokens).toks() == old(tokens).toks(),
        match spec_parse_cond_expr(cursor_toks(*old(tokens)), cursor_at(*old(tokens))) {
            Ok(pr) => r matches Ok(e) && e@ == pr.0 && final(tokens).pos() == old(tokens).pos() + 1
                + pr.1 && final(tokens).pos() <= old(tokens).toks().len(),
            Err(er) => r == Err::<CondExpr, Error>(er),
        },
    decreases tokens.toks().len() - tokens.pos(), 1int,
{
    if consume_open_paren(tokens).is_err() {
        return Err(Error::ParseError);
    }
    match tokens.next() {
        Some(_) => {},
        None => {
            return Err(Error::ParseError);
        },
    }
    let first_kind = match tokens.peek() {
        Some(t) => t.kind,
        None => {
            return Err(Error::ParseError);
        },
    };
    if first_kind == TokenKind::CloseParen {
        return Err(Error::ParseError);
    }
    let cases = match parse_cond_cases(tokens) {
        Ok(cs) => cs,
        Err(er) => {
            return Err(er);
        },
    };
    if consume_close_paren(tokens).is_err() {
        return Err(Error::ParseError);
    }
    Ok(CondExpr { cases })
}

/// The cases of a `cond`, scanned until the closing parenthesis, which is
/// left unconsumed.
#[verifier::rlimit(60)]
fn parse_cond_cases<'a>(tokens: &mut TokenIter<'a>) -> (r: Result<Vec<CondCase>, Error>)
    ensures
        final(tokens).toks() == old(tokens).toks(),
        match spec_parse_cond_cases(cursor_toks(*old(tokens)), cursor_at(*old(tokens))) {
            Ok(pr) => r matches Ok(cs) && view_cases(cs@) == pr.0 && final(tokens).pos() == old(
                tokens,
            ).pos() + pr.1 && old(tokens).pos() + pr.1 < old(tokens).toks().len() && old(
                tokens,
            ).toks()[old(tokens).pos() + pr.1 as int].kind == TokenKind::CloseParen,
            Err(er) => r == Err::<Vec<CondCase>, Error>(er),
        },
    decreases tokens.toks().len() - tokens.pos(), 4int,
{
    let ghost toksv = cursor_toks(*tokens);
    let ghost i = cursor_at(*tokens);
    let stop = match tokens.peek() {
        Some(t) => t.kind == TokenKind::CloseParen,
        None => {
            return Err(Error::ParseError);
        },
    };
    if stop {
        let r: Vec<CondCase> = Vec::new();
        proof {
            lemma_view_cases(r@);
            assert(view_cases(r@) =~= Seq::<crate::spec_ast::CondCaseV>::empty());
        }
        return Ok(r);
    }
    let case = match parse_cond_case(tokens) {
        Ok(c) => c,
        Err(er) => {
            return Err(er);
        },
    };
    proof {
        let stepr = spec_parse_cond_case(toksv, i);
        assert(held(toksv.len(), i + 1 + stepr->Ok_0.1) == cursor_at(*tokens));
    }
    let mut rest = match parse_cond_cases(tokens) {
        Ok(cs) => cs,
        Err(er) => {
            return Err(er);
        },
    };
    let ghost rest0 = rest@;
    rest.insert(0, case);
    proof {
        lemma_view_cases(rest0);
        lemma_view_cases(rest@);
        assert(rest@ =~= seq![case] + rest0);
        assert(view_cases(rest@) =~= seq![case@] + view_cases(rest0));
    }
    Ok(rest)
}

/// One `(guard result)` case of a `cond`.
fn parse_cond_case<'a>(tokens: &mut TokenIter<'a>) -> (r: Result<CondCase, Error>)
    ensures
        final(tokens).toks() == old(tokens).toks(),
        match spec_parse_cond_case(cursor_toks(*old(tokens)), cursor_at(*old(tokens))) {
            Ok(pr) => r matches Ok(e) && e@ == pr.0 && final(tokens).pos() == old(tokens).pos() + 1
                + pr.1 && final(tokens).pos() <= old(tokens).toks().len(),
            Err(er) => r == Err::<CondCase, Error>(er),
        },
    decreases tokens.toks().len() - tokens.pos(), 1int,
{
    let ghost toksv = cursor_toks(*tokens);
    let ghost i = cursor_at(*tokens);
    if consume_open_paren(tokens).is_err() {
        return Err(Error::ParseError);
    }
    let condition = match parse_bool_expr(tokens) {
        Ok(g) => g,
        Err(er) => {
            return Err(er);
        },
    };
    proof {
        let g1 = spec_parse_bool_expr(toksv, i + 1);
        assert(held(toksv.len(), i + 2 + g1->Ok_0.1) == cursor_at(*tokens));
    }
    let result = match parse_expr(tokens) {
        Ok(e) => e,
        Err(er) => {
            return Err(er);
        },
    };
    if consume_close_paren(tokens).is_err() {
        return Err(Error::ParseError);
    }
    Ok(CondCase { condition, result })
}

/// `(define (name param ...) body)`.
#[verifier::rlimit(60)]
fn parse_function_expr<'a>(tokens: &mut TokenIter<'a>) -> (r: Result<FunctionExpr, Error>)
    ensures
        final(tokens).toks() == old(tokens).toks(),
        match spec_parse_function_expr(cursor_toks(*old(tokens)), cursor_at(*old(tokens))) {
            Ok(pr) => r matches Ok(e) && e@ == pr.0 && final(tokens).pos() == old(tokens).pos() + 1
                + pr.1 && final(tokens).pos() <= old(tokens).toks().len(),
            Err(er) => r == Err::<FunctionExpr, Error>(er),
        },
    decreases tokens.toks().len() - tokens.pos(), 1int,
{
    let ghost toksv = cursor_toks(*tokens);
    let ghost i = cursor_at(*tokens);
    if consume_open_paren(tokens).is_err() {
        return Err(Error::ParseError);
    }
    match tokens.next() {
        Some(_) => {},
        None => {
            return Err(Error::ParseError);
        },
    }
    if consume_open_paren(tokens).is_err() {
        return Err(Error::ParseError);
    }
    let function_name = match tokens.next() {
        Some(t) => t.text.clone(),
        None => {
            return Err(Error::ParseError);
        },
    };
    let function_parameters = match parse_params(tokens) {
        Ok(ps) => ps,
        Err(er) => {
            return Err(er);
        },
    };
    if consume_close_paren(tokens).is_err() {
        return Err(Error::ParseError);
    }
    let function_body = match parse_expr(tokens) {
        Ok(e) => e,
        Err(er) => {
            return Err(er);
        },
    };
    if consume_close_paren(tokens).is_err() {
        return Err(Error::ParseError);
    }
    Ok(
        FunctionExpr {
            name: function_name,
            parameters: function_parameters,
            body: Box::new(function_body),
        },
    )
}

/// The parameter names of a definition: identifiers as far as they run.
fn parse_params<'a>(tokens: &mut TokenIter<'a>) -> (r: Result<Vec<String>, Error>)
    ensures
        final(tokens).toks() == old(tokens).toks(),
        match spec_parse_params(cursor_toks(*old(tokens)), cursor_at(*old(tokens))) {
            Ok(pr) => r matches Ok(ps) && view_names(ps@) == pr.0 && final(tokens).pos() == old(
                tokens,
            ).pos() + pr.1 && old(tokens).pos() + pr.1 < old(tokens).toks().len(),
            Err(er) => r == Err::<Vec<String>, Error>(er),
        },
    decreases tokens.toks().len() - tokens.pos(), 4int,
{
    let more = match tokens.peek() {
        Some(t) => t.kind == TokenKind::Identifier,
        None => {
            return Err(Error::ParseError);
        },
    };
    if !more {
        let r: Vec<String> = Vec::new();
        proof {
            assert(view_names(r@) =~= Seq::<Seq<char>>::empty());
        }
        return Ok(r);
    }
    let t = match tokens.next() {
        Some(t) => t,
        None => {
            return Err(Error::ParseError);
        },
    };
    let mut rest = match parse_params(tokens) {
        Ok(ps) => ps,
        Err(er) => {
            return Err(er);
        },
    };
    let ghost rest0 = rest@;
    rest.insert(0, t.text.clone());
    proof {
        assert(rest@ =~= seq![t.text] + rest0);
        assert(view_names(rest@) =~= seq![t.text@] + view_names(rest0));
    }
    Ok(rest)
}

/// `(name arg ...)`: a call of the named function.
fn parse_function_call<'a>(tokens: &mut TokenIter<'a>) -> (r: Result<FunctionCallExpr, Error>)
    ensures
        final(tokens).toks() == old(tokens).toks(),
        match spec_parse_function_call(cursor_toks(*old(tokens)), cursor_at(*old(tokens))) {
            Ok(pr) => r matches Ok(e) && e@ == pr.0 && final(tokens).pos() == old(tokens).pos() + 1
                + pr.1 && final(tokens).pos() <= old(tokens).toks().len(),
            Err(er) => r == Err::<FunctionCallExpr, Error>(er),
        },
    decreases tokens.toks().len() - tokens.pos(), 1int,
{
    if consume_open_paren(tokens).is_err() {
        return Err(Error::ParseError);
    }
    let name = match tokens.next() {
        Some(t) => t.text.clone(),
        None => {
            return Err(Error::ParseError);
        },
    };
    let arguments = match parse_exprs_to_close(tokens) {
        Ok(a) => a,
        Err(er) => {
            return Err(er);
        },
    };
    let _ = tokens.next();
    Ok(FunctionCallExpr { name, arguments })
}

/// Expressions up to (but not through) the closing parenthesis: call
/// arguments and list literal elements share this shape.
#[verifier::rlimit(60)]
fn parse_exprs_to_close<'a>(tokens: &mut TokenIter<'a>) -> (r: Result<Vec<Expr>, Error>)
    ensures
        final(tokens).toks() == old(tokens).toks(),
        match spec_parse_exprs_to_close(cursor_toks(*old(tokens)), cursor_at(*old(tokens))) {
            Ok(pr) => r matches Ok(es) && view_exprs(es@) == pr.0 && final(tokens).pos() == old(
                tokens,
            ).pos() + pr.1 && old(tokens).pos() + pr.1 < old(tokens).toks().len() && old(
                tokens,
            ).toks()[old(tokens).pos() + pr.1 as int].kind == TokenKind::CloseParen,
            Err(er) => r == Err::<Vec<Expr>, Error>(er),
        },
    decreases tokens.toks().len() - tokens.pos(), 4int,
{
    let ghost toksv = cursor_toks(*tokens);
    let ghost i = cursor_at(*tokens);
    let stop = match tokens.peek() {
        Some(t) => t.kind == TokenKind::CloseParen,
        None => {
            return Err(Error::ParseError);
        },
    };
    if stop {
        let r: Vec<Expr> = Vec::new();
        proof {
            lemma_view_exprs(r@);
            assert(view_exprs(r@) =~= Seq::<ExprV>::empty());
        }
        return Ok(r);
    }
    let item = match parse_expr(tokens) {
        Ok(e) => e,
        Err(er) => {
            return Err(er);
        },
    };
    proof {
        let stepr = spec_parse_expr(toksv, i);
        assert(held(toksv.len(), i + 1 + stepr->Ok_0.1) == cursor_at(*tokens));
    }
    let mut rest = match parse_exprs_to_close(tokens) {
        Ok(es) => es,
        Err(er) => {
            return Err(er);
        },
    };
    let ghost rest0 = rest@;
    rest.insert(0, item);
    proof {
        lemma_view_exprs(rest0);
        lemma_view_exprs(rest@);
        assert(rest@ =~= seq![item] + rest0);
        assert(view_exprs(rest@) =~= seq![item@] + view_exprs(rest0));
    }
    Ok(rest)
}

/// The nested cons nodes of listed elements, the first element outermost.
fn build_list_literal(items: Vec<Expr>) -> (r: ListLiteralExpr)
    ensures
        r@ == items_to_list(view_exprs(items@)),
    decreases items@.len(),
{
    let ghost items0 = items@;
    let mut rest = items;
    if rest.len() == 0 {
        proof {
            lemma_view_exprs(items0);
            assert(view_exprs(items0) =~= Seq::<ExprV>::empty());
        }
        return ListLiteralExpr::Empty;
    }
    let first = rest.remove(0);
    let tail = build_list_literal(rest);
    proof {
        lemma_view_exprs(items0);
        lemma_view_exprs(items0.remove(0));
        assert(view_exprs(items0.remove(0)) =~= view_exprs(items0).drop_first());
        assert(view_exprs(items0)[0] == first@);
    }
    ListLiteralExpr::Node(
        Node { data: Box::new(first), next: Box::new(ListExpr::ListLiteralExpr(tail)) },
    )
}

/// `(list e ...)`: the listed elements desugared into nested cons nodes,
/// the first element outermost.
fn parse_list_literal_expr<'a>(tokens: &mut TokenIter<'a>) -> (r: Result<ListLiteralExpr, Error>)
    ensures
        final(tokens).toks() == old(tokens).toks(),
        match spec_parse_list_literal(cursor_toks(*old(tokens)), cursor_at(*old(tokens))) {
            Ok(pr) => r matches Ok(e) && e@ == pr.0 && final(tokens).pos() == old(tokens).pos() + 1
                + pr.1 && final(tokens).pos() <= old(tokens).toks().len(),
            Err(er) => r == Err::<ListLiteralExpr, Error>(er),
        },
    decreases tokens.toks().len() - tokens.pos(), 1int,
{
    if consume_open_paren(tokens).is_err() {
        return Err(Error::ParseError);
    }
    let kw = match tokens.next() {
        Some(t) => t.kind,
        None => {
            return Err(Error::ParseError);
        },
    };
    if kw != TokenKind::List {
        return Err(Error::ParseError);
    }
    let list_items = match parse_exprs_to_close(tokens) {
        Ok(items) => items,
        Err(er) => {
            return Err(er);
        },
    };
    if consume_close_paren(tokens).is_err() {
        return Err(Error::ParseError);
    }
    Ok(build_list_literal(list_items))
}

/// `(cons a b)`: one node from a head expression and a tail list.
fn parse_cons_expr<'a>(tokens: &mut TokenIter<'a>) -> (r: Result<ListLiteralExpr, Error>)
    ensures
        final(tokens).toks() == old(tokens).toks(),
        match spec_parse_cons(cursor_toks(*old(tokens)), cursor_at(*old(tokens))) {
            Ok(pr) => r matches Ok(e) && e@ == pr.0 && final(tokens).pos() == old(tokens).pos() + 1
                + pr.1 && final(tokens).pos() <= old(tokens).toks().len(),
            Err(er) => r == Err::<ListLiteralExpr, Error>(er),
        },
    decreases tokens.toks().len() - tokens.pos(), 1int,
{
    let ghost toksv = cursor_toks(*tokens);
    let ghost i = cursor_at(*tokens);
    match tokens.next() {
        Some(_) => {},
        None => {
            return Err(Error::ParseError);
        },
    }
    let kw = match tokens.next() {
        Some(t) => t.kind,
        None => {
            return Err(Error::ParseError);
        },
    };
    if kw != TokenKind::Cons {
        return Err(Error::ParseError);
    }
    let first = match parse_expr(tokens) {
        Ok(e) => e,
        Err(er) => {
            return Err(er);
        },
    };
    proof {
        let stepr = spec_parse_expr(toksv, i + 2);
        assert(held(toksv.len(), i + 3 + stepr->Ok_0.1) == cursor_at(*tokens));
    }
    let rest = match parse_list_expr(tokens) {
        Ok(l) => l,
        Err(er) => {
            return Err(er);
        },
    };
    if consume_close_paren(tokens).is_err() {
        return Err(Error::ParseError);
    }
    Ok(ListLiteralExpr::Node(Node { data: Box::new(first), next: Box::new(rest) }))
}

/// Parse a whole program text as one expression; tokens left over after a
/// complete parse are an error.
pub fn parse(program: String) -> (r: Result<Expr, Error>)
    ensures
        match spec_parse(program@) {
            Ok(ev) => r matches Ok(e) && e@ == ev,
            Err(er) => r == Err::<Expr, Error>(er),
        },
{
    let tokens = match string_to_tokens(program) {
        Ok(ts) => ts,
        Err(er) => {
            return Err(er);
        },
    };
    let mut token_iterator = TokenIter::new(&tokens);
    let parsed = match parse_expr(&mut token_iterator) {
        Ok(e) => e,
        Err(er) => {
            return Err(er);
        },
    };
    if token_iterator.peek().is_some() {
        return Err(Error::ParseError);
    }
    Ok(parsed)
}

} // verus!
