use minilisp::error::Error;
use minilisp::program::interpret_program;
use minilisp::program::interpret_program_snippet;
use minilisp::value::Value;

#[test]
fn arithmetic_truncates_toward_zero() {
    assert_eq!(interpret_program_snippet("(/ 7 2)".to_string()), Ok(Value::NumValue(3)));
    assert_eq!(
        interpret_program_snippet("(/ (- 0 7) 2)".to_string()),
        Ok(Value::NumValue(-3))
    );
    assert_eq!(
        interpret_program_snippet("(% (- 0 7) 2)".to_string()),
        Ok(Value::NumValue(-1))
    );
    assert_eq!(interpret_program_snippet("(% 7 2)".to_string()), Ok(Value::NumValue(1)));
    assert_eq!(
        interpret_program_snippet("(* (- 0 6) 7)".to_string()),
        Ok(Value::NumValue(-42))
    );
}

#[test]
fn division_by_zero_fails() {
    assert_eq!(
        interpret_program_snippet("(/ 1 0)".to_string()),
        Err(Error::DivisionByZero)
    );
    assert_eq!(
        interpret_program_snippet("(/ 0 0)".to_string()),
        Err(Error::DivisionByZero)
    );
    assert_eq!(
        interpret_program_snippet("(% 1 0)".to_string()),
        Err(Error::ModuloByZero)
    );
}

#[test]
fn and_short_circuits_before_failing_operand() {
    assert_eq!(
        interpret_program_snippet("(& false (< (/ 1 0) 1))".to_string()),
        Ok(Value::BoolValue(false))
    );
    assert_eq!(
        interpret_program_snippet("(& false (empty? (cdr empty)))".to_string()),
        Ok(Value::BoolValue(false))
    );
}

#[test]
fn or_short_circuits_before_failing_operand() {
    assert_eq!(
        interpret_program_snippet("(| true (< (/ 1 0) 1))".to_string()),
        Ok(Value::BoolValue(true))
    );
    assert_eq!(
        interpret_program_snippet("(| true (empty? (cdr empty)))".to_string()),
        Ok(Value::BoolValue(true))
    );
}

#[test]
fn cond_takes_first_true_guard() {
    let program = "
    (cond
      ((= 1 1) 10)
      ((= 2 2) 20)
      ((= 3 3) 30))
    ";
    assert_eq!(interpret_program_snippet(program.to_string()), Ok(Value::NumValue(10)));

    let later = "
    (cond
      ((= 1 2) 10)
      ((= 2 2) 20)
      ((= 3 3) 30))
    ";
    assert_eq!(interpret_program_snippet(later.to_string()), Ok(Value::NumValue(20)));
}

#[test]
fn car_cons_round_trip() {
    assert_eq!(
        interpret_program_snippet("(car (cons 5 (list 1 2)))".to_string()),
        interpret_program_snippet("5".to_string())
    );
    assert_eq!(
        interpret_program_snippet("(cdr (cons 5 (list 1 2)))".to_string()),
        interpret_program_snippet("(list 1 2)".to_string())
    );
    assert_eq!(
        interpret_program_snippet("(car (cons true empty))".to_string()),
        interpret_program_snippet("true".to_string())
    );
    assert_eq!(
        interpret_program_snippet("(cdr (cons true empty))".to_string()),
        interpret_program_snippet("empty".to_string())
    );
}

#[test]
fn undefined_variable_fails() {
    assert_eq!(
        interpret_program_snippet("someunboundname".to_string()),
        Err(Error::UndefinedVariable)
    );
    assert_eq!(
        interpret_program_snippet("(+ 1 someunboundname)".to_string()),
        Err(Error::UndefinedVariable)
    );
}

#[test]
fn undefined_function_fails() {
    assert_eq!(
        interpret_program_snippet("(nosuchfunction 1 2)".to_string()),
        Err(Error::UndefinedFunction)
    );
    let program = "
    (define (main) (helper 1))
    ";
    assert_eq!(interpret_program(program.to_string()), Err(Error::UndefinedFunction));
}

#[test]
fn car_and_cdr_of_empty_fail() {
    assert_eq!(
        interpret_program_snippet("(car empty)".to_string()),
        Err(Error::EmptyListError)
    );
    assert_eq!(
        interpret_program_snippet("(cdr empty)".to_string()),
        Err(Error::EmptyListError)
    );
}

#[test]
fn cond_without_true_guard_fails() {
    assert_eq!(
        interpret_program_snippet("(cond ((= 1 2) 1))".to_string()),
        Err(Error::NoMatchingCase)
    );
}

#[test]
fn type_mismatch_fails() {
    assert_eq!(
        interpret_program_snippet("(& true (car (list 1)))".to_string()),
        Err(Error::TypeMismatch)
    );
    assert_eq!(
        interpret_program_snippet("(+ 1 (car (list true)))".to_string()),
        Err(Error::TypeMismatch)
    );
}

#[test]
fn lex_and_parse_errors() {
    assert_eq!(interpret_program_snippet("#".to_string()), Err(Error::LexError));
    assert_eq!(interpret_program_snippet("(+ 1".to_string()), Err(Error::ParseError));
    assert_eq!(interpret_program_snippet("1 2".to_string()), Err(Error::ParseError));
    assert_eq!(interpret_program_snippet("(cond)".to_string()), Err(Error::ParseError));
    assert_eq!(
        interpret_program_snippet("(car 5)".to_string()),
        Err(Error::ParseError)
    );
    assert_eq!(
        interpret_program_snippet("2147483648".to_string()),
        Err(Error::ParseError)
    );
    assert_eq!(
        interpret_program_snippet("2147483647".to_string()),
        Ok(Value::NumValue(2147483647))
    );
}

#[test]
fn unknown_module_fails() {
    let program = "
    (include stdlib::missing)
    (define (main) 0)
    ";
    assert_eq!(interpret_program(program.to_string()), Err(Error::UnknownModule));
}

#[test]
fn misplaced_definition_fails() {
    let program = "
    (define (f x) x)
    (define (main) (f (define (g) 1)))
    ";
    assert_eq!(
        interpret_program(program.to_string()),
        Err(Error::MisplacedDefinition)
    );
}

#[test]
fn runaway_recursion_exhausts_the_budget() {
    let program = "
    (define (spin n) (spin (+ n 1)))
    (define (main) (spin 0))
    ";
    assert_eq!(interpret_program(program.to_string()), Err(Error::StackExhaustion));
}

#[test]
fn include_behaves_like_inlined_source() {
    let with_include = "
    (include stdlib::num)
    (define (main) (num::max (num::abs (- 0 9)) 4))
    ";
    let inlined = "
    (define (num::abs n) (cond ((< n 0) (- 0 n)) (true n)))
    (define (num::min a b) (cond ((< a b) a) (true b)))
    (define (num::max a b) (cond ((> a b) a) (true b)))
    (define (main) (num::max (num::abs (- 0 9)) 4))
    ";
    assert_eq!(
        interpret_program(with_include.to_string()),
        interpret_program(inlined.to_string())
    );
    assert_eq!(
        interpret_program(with_include.to_string()),
        Ok(Value::NumValue(9))
    );
}

#[test]
fn redefinition_keeps_the_later_definition() {
    let program = "
    (define (pick) 1)
    (define (pick) 2)
    (define (main) (pick))
    ";
    assert_eq!(interpret_program(program.to_string()), Ok(Value::NumValue(2)));
}

#[test]
fn nested_calls_shadow_and_restore_bindings() {
    let program = "
    (define (inner x) (+ x 1))
    (define (outer x) (+ (inner (* x 2)) x))
    (define (main) (outer 10))
    ";
    assert_eq!(interpret_program(program.to_string()), Ok(Value::NumValue(31)));
}

#[test]
fn recursion_concrete_results() {
    let factorial = "
    (define (factorial n) (cond ((= n 0) 1) (true (* n (factorial (- n 1))))))
    (define (main) (factorial 10))
    ";
    assert_eq!(interpret_program(factorial.to_string()), Ok(Value::NumValue(3628800)));

    let fibonacci = "
    (define (fibonacci n) (cond ((= n 0) 0) ((= n 1) 1) (true (+ (fibonacci (- n 1)) (fibonacci (- n 2))))))
    (define (main) (fibonacci 10))
    ";
    assert_eq!(interpret_program(fibonacci.to_string()), Ok(Value::NumValue(55)));

    let length = "
    (include stdlib::list)
    (define (main) (list::length (list 1 2 3 4 5)))
    ";
    assert_eq!(interpret_program(length.to_string()), Ok(Value::NumValue(5)));
}

#[test]
fn arithmetic_wraps_around_the_integer_range() {
    assert_eq!(
        interpret_program_snippet("(+ 2147483647 1)".to_string()),
        Ok(Value::NumValue(i32::MIN))
    );
    assert_eq!(
        interpret_program_snippet("(- (- 0 2147483647) 2)".to_string()),
        Ok(Value::NumValue(i32::MAX))
    );
}

#[test]
fn too_many_arguments_fail_missing_ones_may_pass() {
    let too_many = "
    (define (f a) a)
    (define (main) (f 1 2))
    ";
    assert_eq!(interpret_program(too_many.to_string()), Err(Error::UndefinedFunction));

    let unused_missing = "
    (define (f a b) a)
    (define (main) (f 1))
    ";
    assert_eq!(interpret_program(unused_missing.to_string()), Ok(Value::NumValue(1)));
}

#[test]
fn values_render_to_their_textual_form() {
    let five = interpret_program_snippet("5".to_string()).unwrap();
    assert_eq!(five.render(), "5");
    let negative = interpret_program_snippet("-205".to_string()).unwrap();
    assert_eq!(negative.render(), "-205");
    let truth = interpret_program_snippet("true".to_string()).unwrap();
    assert_eq!(truth.render(), "true");
    let nothing = interpret_program_snippet("empty".to_string()).unwrap();
    assert_eq!(nothing.render(), "empty");
    let pair = interpret_program_snippet("(list 1 2)".to_string()).unwrap();
    assert_eq!(pair.render(), "(1 -> (2 -> empty))");
    let lowest = interpret_program_snippet("(- (- 0 2147483647) 1)".to_string()).unwrap();
    assert_eq!(lowest.render(), "-2147483648");
}
