use vstd::prelude::*;

use vstd::string::StrSliceExecFns;
use vstd::string::StringExecFns;

use crate::error::Error;
use crate::parser_spec::held;

verus! {

/// The source text of the list module of the standard library.
pub open spec fn stdlib_list_source() -> Seq<char> {
    "(define (list::length l) (cond ((empty? l) 0) (true (+ 1 (list::length (cdr l))))))\n(define (list::append a b) (cond ((empty? a) b) (true (cons (car a) (list::append (cdr a) b)))))\n(define (list::reverse l) (cond ((empty? l) empty) (true (list::append (list::reverse (cdr l)) (cons (car l) empty)))))\n(define (list::contains l v) (cond ((empty? l) false) ((= (car l) v) true) (true (list::contains (cdr l) v))))\n(define (list::take l n) (cond ((= n 0) empty) (true (cons (car l) (list::take (cdr l) (- n 1))))))\n(define (list::drop l n) (cond ((= n 0) l) (true (list::drop (cdr l) (- n 1)))))\n(define (list::min l) (cond ((empty? (cdr l)) (car l)) ((< (car l) (list::min (cdr l))) (car l)) (true (list::min (cdr l)))))\n(define (list::max l) (cond ((empty? (cdr l)) (car l)) ((> (car l) (list::max (cdr l))) (car l)) (true (list::max (cdr l)))))\n(define (list::insert v l) (cond ((empty? l) (cons v empty)) ((< v (car l)) (cons v l)) (true (cons (car l) (list::insert v (cdr l))))))\n(define (list::sort l) (cond ((empty? l) empty) (true (list::insert (car l) (list::sort (cdr l))))))\n"@
}

/// The source text of the numeric module of the standard library.
pub open spec fn stdlib_num_source() -> Seq<char> {
    "(define (num::abs n) (cond ((< n 0) (- 0 n)) (true n)))\n(define (num::min a b) (cond ((< a b) a) (true b)))\n(define (num::max a b) (cond ((> a b) a) (true b)))\n"@
}

/// The fixed allow-list of module names and their source texts.
pub open spec fn module_content(name: Seq<char>) -> Option<Seq<char>> {
    if name == "stdlib::list"@ {
        Some(stdlib_list_source())
    } else if name == "stdlib::num"@ {
        Some(stdlib_num_source())
    } else {
        None
    }
}

/// The source text of a named module; a name outside the fixed allow-list
/// is an error.
pub fn get_module_content(module_name: &str) -> (r: Result<String, Error>)
    ensures
        match module_content(module_name@) {
            Some(c) => r matches Ok(body) && body@ == c,
            None => r == Err::<String, Error>(Error::UnknownModule),
        },
{
    let name = module_name.to_owned();
    if name == "stdlib::list".to_owned() {
        Ok(
            "(define (list::length l) (cond ((empty? l) 0) (true (+ 1 (list::length (cdr l))))))\n(define (list::append a b) (cond ((empty? a) b) (true (cons (car a) (list::append (cdr a) b)))))\n(define (list::reverse l) (cond ((empty? l) empty) (true (list::append (list::reverse (cdr l)) (cons (car l) empty)))))\n(define (list::contains l v) (cond ((empty? l) false) ((= (car l) v) true) (true (list::contains (cdr l) v))))\n(define (list::take l n) (cond ((= n 0) empty) (true (cons (car l) (list::take (cdr l) (- n 1))))))\n(define (list::drop l n) (cond ((= n 0) l) (true (list::drop (cdr l) (- n 1)))))\n(define (list::min l) (cond ((empty? (cdr l)) (car l)) ((< (car l) (list::min (cdr l))) (car l)) (true (list::min (cdr l)))))\n(define (list::max l) (cond ((empty? (cdr l)) (car l)) ((> (car l) (list::max (cdr l))) (car l)) (true (list::max (cdr l)))))\n(define (list::insert v l) (cond ((empty? l) (cons v empty)) ((< v (car l)) (cons v l)) (true (cons (car l) (list::insert v (cdr l))))))\n(define (list::sort l) (cond ((empty? l) empty) (true (list::insert (car l) (list::sort (cdr l))))))\n".to_owned(),
        )
    } else if name == "stdlib::num".to_owned() {
        Ok(
            "(define (num::abs n) (cond ((< n 0) (- 0 n)) (true n)))\n(define (num::min a b) (cond ((< a b) a) (true b)))\n(define (num::max a b) (cond ((> a b) a) (true b)))\n".to_owned(),
        )
    } else {
        Err(Error::UnknownModule)
    }
}

/// Whether an include form opens at position `i`: the literal text
/// `(include ` stands there.
pub open spec fn is_include_at(s: Seq<char>, i: nat) -> bool {
    i + 9 <= s.len() && s.subrange(i as int, i as int + 9) == "(include "@
}

/// The position of the first closing parenthesis at or after `i`.
pub open spec fn close_from(s: Seq<char>, i: nat) -> Option<nat>
    decreases s.len() - i,
{
    if i >= s.len() {
        None
    } else if s[i as int] == ')' {
        Some(i)
    } else {
        close_from(s, i + 1)
    }
}

/// One substitution pass from position `i` on: every include form is
/// replaced by its module's source, left to right, and the replaced text is
/// not rescanned within the pass. An include of an unknown module fails.
pub open spec fn spec_subst_from(s: Seq<char>, i: nat) -> Result<Seq<char>, Error>
    decreases s.len() - i,
{
    if i >= s.len() {
        Ok(Seq::empty())
    } else if is_include_at(s, i) && close_from(s, i + 9) is Some && close_from(s, i + 9)->Some_0
        > i + 9 {
        let j = close_from(s, i + 9)->Some_0;
        let name = s.subrange(i as int + 9, j as int);
        match module_content(name) {
            Some(body) => match spec_subst_from(s, held(s.len(), j + 1)) {
                Ok(rest) => Ok(body + rest),
                Err(er) => Err(er),
            },
            None => Err(Error::UnknownModule),
        }
    } else {
        match spec_subst_from(s, i + 1) {
            Ok(rest) => Ok(seq![s[i as int]] + rest),
            Err(er) => Err(er),
        }
    }
}

/// One whole substitution pass over a text.
pub open spec fn spec_subst_pass(s: Seq<char>) -> Result<Seq<char>, Error> {
    spec_subst_from(s, 0)
}

/// Substitution repeated to a fixed point, with a bound on the passes: a
/// pass that changes nothing ends the repetition, and running out of
/// passes is a resource failure.
pub open spec fn spec_preprocess(s: Seq<char>, passes: nat) -> Result<Seq<char>, Error>
    decreases passes,
{
    if passes == 0 {
        Err(Error::StackExhaustion)
    } else {
        match spec_subst_pass(s) {
            Ok(t) => if t == s {
                Ok(s)
            } else {
                spec_preprocess(t, (passes - 1) as nat)
            },
            Err(er) => Err(er),
        }
    }
}

/// The bound on substitution passes. The fixed allow-list's sources hold
/// no include forms, so a third pass never has work; the bound guards the
/// repetition against pathological splices.
pub const MAX_INCLUDE_PASSES: u64 = 64;

/// One substitution pass over the program text.
fn substitute_includes_once(text: &str) -> (r: Result<String, Error>)
    ensures
        match spec_subst_pass(text@) {
            Ok(t) => r matches Ok(out) && out@ == t,
            Err(er) => r == Err::<String, Error>(er),
        },
{
    let n = text.unicode_len();
    let mut out = String::new();
    let mut i: usize = 0;
    while i < n
        invariant
            n == text@.len(),
            i <= n,
            match spec_subst_from(text@, i as nat) {
                Ok(rest) => spec_subst_pass(text@) matches Ok(whole) && whole == out@ + rest,
                Err(er) => spec_subst_pass(text@) == Err::<Seq<char>, Error>(er),
            },
        decreases n - i,
    {
        let mut matched = false;
        if n - i >= 9 {
            let opener = text.substring_char(i, i + 9);
            if opener.to_owned() == "(include ".to_owned() {
                matched = true;
            }
        }
        proof {
            assert(matched == is_include_at(text@, i as nat));
        }
        if matched {
            let mut j: usize = i + 9;
            while j < n
                invariant
                    n == text@.len(),
                    i + 9 <= j <= n,
                    close_from(text@, (i + 9) as nat) == close_from(text@, j as nat),
                ensures
                    i + 9 <= j <= n,
                    close_from(text@, (i + 9) as nat) == close_from(text@, j as nat),
                    j < n ==> close_from(text@, j as nat) == Some(j as nat),
                    j >= n ==> close_from(text@, j as nat) is None,
                decreases n - j,
            {
                let cj = text.get_char(j);
                if cj == ')' {
                    break ;
                }
                proof {
                    assert(close_from(text@, j as nat) == close_from(text@, (j + 1) as nat));
                }
                j = j + 1;
            }
            if j < n && j > i + 9 {
                let name = text.substring_char(i + 9, j);
                let body = match get_module_content(name) {
                    Ok(b) => b,
                    Err(er) => {
                        return Err(er);
                    },
                };
                out.append(body.as_str());
                proof {
                    assert(held(text@.len(), (j + 1) as nat) == (j + 1) as nat);
                }
                i = j + 1;
                continue ;
            }
        }
        let piece = text.substring_char(i, i + 1);
        out.append(piece);
        proof {
            assert(piece@ =~= seq![text@[i as int]]);
        }
        i = i + 1;
    }
    proof {
        assert(spec_subst_from(text@, i as nat) == Ok::<Seq<char>, Error>(Seq::empty()));
        assert(out@ + Seq::<char>::empty() =~= out@);
    }
    Ok(out)
}

/// Replace every `(include <module>)` form with the named module's source
/// text, repeating until one full pass changes nothing, then hand the
/// result on. A module outside the fixed allow-list fails.
pub fn preprocess_includes(program: String) -> (r: Result<String, Error>)
    ensures
        match spec_preprocess(program@, MAX_INCLUDE_PASSES as nat) {
            Ok(t) => r matches Ok(out) && out@ == t,
            Err(er) => r == Err::<String, Error>(er),
        },
{
    let mut processed = program;
    let mut passes: u64 = 0;
    while passes < MAX_INCLUDE_PASSES
        invariant
            passes <= MAX_INCLUDE_PASSES,
            spec_preprocess(processed@, (MAX_INCLUDE_PASSES - passes) as nat) == spec_preprocess(
                program@,
                MAX_INCLUDE_PASSES as nat,
            ),
        decreases MAX_INCLUDE_PASSES - passes,
    {
        let next = match substitute_includes_once(processed.as_str()) {
            Ok(t) => t,
            Err(er) => {
                return Err(er);
            },
        };
        if next == processed {
            return Ok(processed);
        }
        processed = next;
        passes = passes + 1;
    }
    Err(Error::StackExhaustion)
}

} // verus!
