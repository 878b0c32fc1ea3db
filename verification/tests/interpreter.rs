use zuko::ast::{expr_eq, display_string, Atom, Expression, List, Symbol};
use zuko::eval::{eval, EvalError, Evaluator};
use zuko::read::read;

fn run(source: &str) -> Result<Expression, EvalError> {
    let expr = read(source).expect("program should parse");
    eval(expr)
}

fn value(source: &str) -> Expression {
    run(source).expect("program should evaluate")
}

fn num(n: i64) -> Expression {
    Expression::Atom(Atom::Number(n))
}

fn string(s: &str) -> Expression {
    Expression::Atom(Atom::Str(s.to_string()))
}

fn sym(s: &str) -> Expression {
    Expression::Atom(Atom::Symbol(Symbol::new(s)))
}

fn nil() -> Expression {
    Expression::List(List::Nil)
}

fn truth() -> Expression {
    sym("true")
}

fn list(items: Vec<Expression>) -> Expression {
    let mut l = List::Nil;
    for item in items.into_iter().rev() {
        l = List::cons(item, l);
    }
    Expression::List(l)
}

#[test]
fn adds_two_numbers() {
    assert!(expr_eq(&value("(+ 1 2)"), &num(3)));
}

#[test]
fn arithmetic_operators() {
    assert!(expr_eq(&value("(- 10 4)"), &num(6)));
    assert!(expr_eq(&value("(* 6 7)"), &num(42)));
    assert!(expr_eq(&value("(/ 17 5)"), &num(3)));
    assert!(expr_eq(&value("(% 17 5)"), &num(2)));
}

#[test]
fn comparison_operators() {
    assert!(expr_eq(&value("(< 1 2)"), &truth()));
    assert!(expr_eq(&value("(< 2 1)"), &nil()));
    assert!(expr_eq(&value("(> 2 1)"), &truth()));
    assert!(expr_eq(&value("(> 1 2)"), &nil()));
    assert!(expr_eq(&value("(= 3 3)"), &truth()));
    assert!(expr_eq(&value("(= 3 4)"), &nil()));
}

#[test]
fn division_by_zero_fails() {
    assert!(matches!(run("(/ 1 0)"), Err(EvalError::DivisionByZero)));
    assert!(matches!(run("(% 1 0)"), Err(EvalError::DivisionByZero)));
}

#[test]
fn defines_and_calls_function() {
    let source = "(do (define x 10) (define add (fn (a b) (+ a b))) (add x 5))";
    assert!(expr_eq(&value(source), &num(15)));
}

#[test]
fn closure_captures_environment() {
    let source = "(do (define make-adder (fn (n) (fn (x) (+ x n)))) \
                      (define inc (make-adder 1)) \
                      (inc 41))";
    assert!(expr_eq(&value(source), &num(42)));
}

#[test]
fn fibonacci() {
    let source = "(do (define fib (fn (n) (if (< n 2) n (+ (fib (- n 1)) (fib (- n 2)))))) \
                      (fib 20))";
    assert!(expr_eq(&value(source), &num(6765)));
}

#[test]
fn fizz_buzz() {
    let source = "(do (define fizzbuzz (fn (n) \
                        (if (= (% n 15) 0) \"FizzBuzz\" \
                        (if (= (% n 3) 0) \"Fizz\" \
                        (if (= (% n 5) 0) \"Buzz\" n))))) \
                      (fizzbuzz 15))";
    assert!(expr_eq(&value(source), &string("FizzBuzz")));
}

#[test]
fn quoted_lists_compare_structurally() {
    let source = "(if (= (quote (1 2 3)) (quote (1 2 3))) \"yes\" \"no\")";
    assert!(expr_eq(&value(source), &string("yes")));
}

#[test]
fn head_and_tail_of_cons() {
    assert!(expr_eq(&value("(head (cons 1 (cons 2 ())))"), &num(1)));
    assert!(expr_eq(
        &value("(tail (cons 1 (cons 2 ())))"),
        &list(vec![num(2)]),
    ));
}

#[test]
fn car_and_cdr_are_head_and_tail() {
    assert!(expr_eq(&value("(car (cons 7 ()))"), &num(7)));
    assert!(expr_eq(&value("(cdr (cons 7 ()))"), &nil()));
}

#[test]
fn empty_list_evaluates_to_itself() {
    assert!(expr_eq(&value("()"), &nil()));
}

#[test]
fn atoms_evaluate_to_themselves() {
    assert!(expr_eq(&value("5"), &num(5)));
    assert!(expr_eq(&value("\"hello\""), &string("hello")));
}

#[test]
fn quote_returns_operand_unevaluated() {
    assert!(expr_eq(&value("(quote foo)"), &sym("foo")));
    assert!(expr_eq(
        &value("(quote (1 2 3))"),
        &list(vec![num(1), num(2), num(3)]),
    ));
}

#[test]
fn quote_shorthand() {
    assert!(expr_eq(&value("'foo"), &sym("foo")));
    assert!(expr_eq(&value("(head '(9 8))"), &num(9)));
}

#[test]
fn head_of_empty_list_fails() {
    assert!(matches!(run("(head ())"), Err(EvalError::InvalidType)));
    assert!(matches!(run("(tail ())"), Err(EvalError::InvalidType)));
}

#[test]
fn calling_with_wrong_arity_fails() {
    assert!(matches!(run("((fn (x) x))"), Err(EvalError::WrongArity)));
    assert!(matches!(run("((fn (x) x) 1 2)"), Err(EvalError::WrongArity)));
}

#[test]
fn undefined_symbol_fails() {
    match run("foo") {
        Err(EvalError::UndefinedSymbol(s)) => assert_eq!(s.as_str(), "foo"),
        _ => panic!("expected an undefined-symbol error"),
    }
}

#[test]
fn number_is_not_callable() {
    assert!(matches!(run("(1 2 3)"), Err(EvalError::NotCallable)));
}

#[test]
fn macro_expands_in_caller_frame() {
    let source = "(do (define x 41) \
                      (define m (macro args (head args))) \
                      (m (+ x 1)))";
    assert!(expr_eq(&value(source), &num(42)));
}

#[test]
fn macro_parameter_may_be_parenthesised() {
    let source = "(do (define x 41) \
                      (define m (macro (args) (head args))) \
                      (m (+ x 1)))";
    assert!(expr_eq(&value(source), &num(42)));
}

#[test]
fn macro_parameter_must_be_one_symbol() {
    assert!(matches!(run("(macro (a b) a)"), Err(EvalError::InvalidType)));
    assert!(matches!(run("(macro 5 a)"), Err(EvalError::InvalidType)));
    assert!(matches!(run("(macro ((a)) a)"), Err(EvalError::InvalidType)));
    assert!(matches!(run("(macro)"), Err(EvalError::WrongArity)));
    assert!(matches!(run("(macro (a))"), Err(EvalError::WrongArity)));
}

#[test]
fn if_ignores_untaken_branch() {
    assert!(expr_eq(&value("(if true 1 undefined-thing)"), &num(1)));
    assert!(expr_eq(&value("(if () undefined-thing 2)"), &num(2)));
}

#[test]
fn everything_but_nil_is_truthy() {
    assert!(expr_eq(&value("(if 0 1 2)"), &num(1)));
    assert!(expr_eq(&value("(if \"\" 1 2)"), &num(1)));
    assert!(expr_eq(&value("(if () 1 2)"), &num(2)));
}

#[test]
fn evaluation_is_deterministic() {
    let source = "(do (define f (fn (n) (* n n))) (f 12))";
    let first = value(source);
    let second = value(source);
    assert!(expr_eq(&first, &second));
    assert!(expr_eq(&first, &num(144)));
}

#[test]
fn quoted_symbols_are_interned_equal() {
    assert!(expr_eq(&value("(= 'foo 'foo)"), &truth()));
    assert!(expr_eq(&value("(= 'foo 'bar)"), &nil()));
}

#[test]
fn define_returns_the_value() {
    assert!(expr_eq(&value("(define x 9)"), &num(9)));
}

#[test]
fn define_requires_a_symbol() {
    assert!(matches!(run("(define 5 9)"), Err(EvalError::InvalidType)));
    assert!(matches!(run("(define x)"), Err(EvalError::WrongArity)));
}

#[test]
fn failed_define_leaves_frame_unchanged() {
    let mut evaluator = Evaluator::new();
    let first = read("(define x 1)").unwrap();
    evaluator.eval(&first).unwrap();
    let second = read("(define x missing-name)").unwrap();
    assert!(matches!(
        evaluator.eval(&second),
        Err(EvalError::UndefinedSymbol(_))
    ));
    let third = read("x").unwrap();
    let x = evaluator.eval(&third).unwrap();
    assert!(expr_eq(&x, &num(1)));
}

#[test]
fn evaluator_keeps_definitions_across_calls() {
    let mut evaluator = Evaluator::new();
    let define = read("(define double (fn (n) (* n 2)))").unwrap();
    evaluator.eval(&define).unwrap();
    let call = read("(double 21)").unwrap();
    let r = evaluator.eval(&call).unwrap();
    assert!(expr_eq(&r, &num(42)));
}

#[test]
fn frame_restored_after_failed_call() {
    let mut evaluator = Evaluator::new();
    let setup = read("(do (define x 7) (define f (fn (y) missing-name)))").unwrap();
    evaluator.eval(&setup).unwrap();
    let bad_call = read("(f 1)").unwrap();
    assert!(matches!(
        evaluator.eval(&bad_call),
        Err(EvalError::UndefinedSymbol(_))
    ));
    let check = read("x").unwrap();
    let x = evaluator.eval(&check).unwrap();
    assert!(expr_eq(&x, &num(7)));
}

#[test]
fn type_predicates() {
    assert!(expr_eq(&value("(number? 1)"), &truth()));
    assert!(expr_eq(&value("(number? \"s\")"), &nil()));
    assert!(expr_eq(&value("(string? \"s\")"), &truth()));
    assert!(expr_eq(&value("(symbol? 'foo)"), &truth()));
    assert!(expr_eq(&value("(symbol? 4)"), &nil()));
    assert!(expr_eq(&value("(function? (fn (x) x))"), &truth()));
    assert!(expr_eq(&value("(function? 4)"), &nil()));
    assert!(expr_eq(&value("(special? 'quote)"), &truth()));
    assert!(expr_eq(&value("(special? 'foo)"), &nil()));
    assert!(expr_eq(&value("(native? head)"), &truth()));
}

#[test]
fn predicates_require_one_argument() {
    assert!(matches!(run("(number? 1 2)"), Err(EvalError::WrongArity)));
    assert!(matches!(run("(cons 1)"), Err(EvalError::WrongArity)));
}

#[test]
fn cons_requires_a_list_tail() {
    assert!(matches!(run("(cons 1 2)"), Err(EvalError::InvalidType)));
}

#[test]
fn print_returns_value_and_records_line() {
    let mut evaluator = Evaluator::new();
    let expr = read("(print (cons 1 (cons 2 ())))").unwrap();
    let r = evaluator.eval(&expr).unwrap();
    assert!(expr_eq(&r, &list(vec![num(1), num(2)])));
    assert_eq!(evaluator.output_len(), 1);
    assert_eq!(evaluator.output_line(0).unwrap().as_str(), "(1 2)");
}

#[test]
fn display_forms() {
    assert_eq!(display_string(&num(-17)), "-17");
    assert_eq!(display_string(&num(0)), "0");
    assert_eq!(display_string(&string("hey")), "hey");
    assert_eq!(display_string(&sym("foo")), "foo");
    assert_eq!(
        display_string(&list(vec![num(1), num(2), num(3)])),
        "(1 2 3)"
    );
    assert_eq!(display_string(&nil()), "()");
    assert_eq!(display_string(&value("(fn (x) x)")), "Function");
}

#[test]
fn deep_recursion_hits_the_fuel_limit() {
    let mut evaluator = Evaluator::new();
    let setup = read("(define spin (fn () (spin)))").unwrap();
    evaluator.eval(&setup).unwrap();
    let call = read("(spin)").unwrap();
    assert!(matches!(
        evaluator.expression(&call, 200),
        Err(EvalError::RecursionLimit)
    ));
}

#[test]
fn do_needs_at_least_one_form() {
    assert!(matches!(run("(do)"), Err(EvalError::WrongArity)));
}

#[test]
fn comments_are_skipped() {
    let source = "; a comment line\n(+ 1 ; mid comment\n 2)";
    assert!(expr_eq(&value(source), &num(3)));
}

#[test]
fn file_reduces_to_last_form() {
    assert!(expr_eq(&value("(define x 3) (define y 4) (+ x y)"), &num(7)));
}

#[test]
fn true_is_bound_to_itself() {
    assert!(expr_eq(&value("true"), &truth()));
}

#[test]
fn arithmetic_on_non_numbers_fails() {
    assert!(matches!(run("(+ 1 \"two\")"), Err(EvalError::InvalidType)));
    assert!(matches!(run("(< 'a 'b)"), Err(EvalError::InvalidType)));
}
