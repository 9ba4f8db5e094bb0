use vstd::prelude::*;

use crate::ast::Expr;
use crate::ast::FunctionCallExpr;
use crate::env::FunctionInfoV;
use crate::env::FunctionMap;
use crate::env::VariableMap;
use crate::error::Error;
use crate::eval::DEFAULT_FUEL;
use crate::eval::eval_call;
use crate::eval::interpret;
use crate::eval::interpret_function_expr;
use crate::lexer::TokenIter;
use crate::lexer::TokenV;
use crate::lexer::spec_tokens;
use crate::lexer::string_to_tokens;
use crate::parser::cursor_at;
use crate::parser::cursor_toks;
use crate::parser::parse;
use crate::parser::parse_expr;
use crate::parser::spec_parse;
use crate::parser_spec::held;
use crate::parser_spec::spec_parse_expr;
use crate::preprocess::MAX_INCLUDE_PASSES;
use crate::preprocess::preprocess_includes;
use crate::preprocess::spec_preprocess;
use crate::semantics::FunsV;
use crate::semantics::spec_eval;
use crate::spec_ast::ExprV;
use crate::value::Value;

verus! {

broadcast use crate::lexer::lemma_view_tokens, crate::ast::lemma_expr_view_define;

/// The function table a token sequence registers from position `i` on,
/// starting from the registrations in `m`: one definition after another
/// until the tokens run out, a later definition of a name winning. A
/// top-level form that is not a definition fails.
pub open spec fn spec_register_functions(toks: Seq<TokenV>, i: nat, m: FunsV) -> Result<
    FunsV,
    Error,
>
    decreases toks.len() - i,
{
    if i >= toks.len() {
        Ok(m)
    } else {
        match spec_parse_expr(toks, i) {
            Ok((e, extra)) => match e {
                ExprV::Define { name, parameters, body } => spec_register_functions(
                    toks,
                    held(toks.len(), i + 1 + extra),
                    m.insert(name, FunctionInfoV { parameter_names: parameters, body: *body }),
                ),
                _ => Err(Error::ParseError),
            },
            Err(er) => Err(er),
        }
    }
}

/// The function table a whole program text registers.
pub open spec fn spec_program_functions(s: Seq<char>) -> Result<FunsV, Error> {
    match spec_tokens(s) {
        Ok(ts) => spec_register_functions(ts, 0, Map::empty()),
        Err(er) => Err(er),
    }
}

/// What running a whole program comes to: substitute the includes to a
/// fixed point, register every top-level definition, then evaluate a call
/// of the zero-argument entry function against an empty environment.
pub open spec fn spec_run_program(s: Seq<char>) -> Result<Value, Error> {
    match spec_preprocess(s, MAX_INCLUDE_PASSES as nat) {
        Ok(t) => match spec_program_functions(t) {
            Ok(funs) => spec_eval(
                ExprV::Call { name: "main"@, arguments: Seq::empty() },
                Map::empty(),
                funs,
                DEFAULT_FUEL as nat,
            ),
            Err(er) => Err(er),
        },
        Err(er) => Err(er),
    }
}

/// What evaluating a free-standing expression comes to: parse it as one
/// whole program and evaluate it with no bindings and no functions.
pub open spec fn spec_run_snippet(s: Seq<char>) -> Result<Value, Error> {
    match spec_parse(s) {
        Ok(e) => spec_eval(e, Map::empty(), Map::empty(), DEFAULT_FUEL as nat),
        Err(er) => Err(er),
    }
}

/// Parse a whole program as a series of top-level function definitions and
/// register each into a fresh function table.
#[verifier::loop_isolation(false)]
pub fn parse_functions(program: String) -> (r: Result<FunctionMap, Error>)
    ensures
        match spec_program_functions(program@) {
            Ok(m) => r matches Ok(fm) && fm@ == m,
            Err(er) => r == Err::<FunctionMap, Error>(er),
        },
{
    let tokens = match string_to_tokens(program) {
        Ok(ts) => ts,
        Err(er) => {
            return Err(er);
        },
    };
    let mut token_iterator = TokenIter::new(&tokens);
    let ghost toksv = cursor_toks(token_iterator);
    let mut function_map = FunctionMap::new();
    loop
        invariant
            token_iterator.toks() == tokens@,
            cursor_toks(token_iterator) == toksv,
            cursor_at(token_iterator) <= toksv.len(),
            match spec_register_functions(toksv, cursor_at(token_iterator), function_map@) {
                Ok(m) => spec_register_functions(toksv, 0, Map::empty()) == Ok::<FunsV, Error>(m),
                Err(er) => spec_register_functions(toksv, 0, Map::empty()) == Err::<
                    FunsV,
                    Error,
                >(er),
            },
        decreases toksv.len() - cursor_at(token_iterator),
    {
        if token_iterator.peek().is_none() {
            break ;
        }
        let ghost cur = cursor_at(token_iterator);
        let parsed = match parse_expr(&mut token_iterator) {
            Ok(e) => e,
            Err(er) => {
                return Err(er);
            },
        };
        proof {
            let stepr = spec_parse_expr(toksv, cur);
            assert(held(toksv.len(), cur + 1 + stepr->Ok_0.1) == cursor_at(token_iterator));
        }
        match parsed {
            Expr::FunctionExpr(function) => {
                interpret_function_expr(function, &mut function_map);
            },
            _ => {
                return Err(Error::ParseError);
            },
        }
    }
    Ok(function_map)
}

/// Run a whole program: substitute its includes, register its definitions,
/// and evaluate a call of the zero-argument entry function `main` against
/// an empty variable environment.
pub fn interpret_program(program: String) -> (r: Result<Value, Error>)
    ensures
        r == spec_run_program(program@),
{
    let processed = match preprocess_includes(program) {
        Ok(t) => t,
        Err(er) => {
            return Err(er);
        },
    };
    let function_map = match parse_functions(processed) {
        Ok(fm) => fm,
        Err(er) => {
            return Err(er);
        },
    };
    let mut variable_map = VariableMap::new();
    let main_call = FunctionCallExpr { name: "main".to_owned(), arguments: Vec::new() };
    proof {
        assert(crate::ast::view_exprs(main_call.arguments@) =~= Seq::<ExprV>::empty());
    }
    eval_call(&main_call, &mut variable_map, &function_map, DEFAULT_FUEL)
}

/// Evaluate one free-standing expression that references no user
/// functions, against an empty environment.
pub fn interpret_program_snippet(program: String) -> (r: Result<Value, Error>)
    ensures
        r == spec_run_snippet(program@),
{
    let parsed = match parse(program) {
        Ok(e) => e,
        Err(er) => {
            return Err(er);
        },
    };
    let mut variable_map = VariableMap::new();
    let function_map = FunctionMap::new();
    interpret(&parsed, &mut variable_map, &function_map)
}

} // verus!
