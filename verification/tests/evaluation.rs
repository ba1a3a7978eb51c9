use std::sync::Arc;

use apocalisp::{Cons, Empty, Environment, EvalError, Expr, Identifier, Lambda, Number};

#[test]
fn empty() {
    let e = Empty::empty();
    assert!(e.is_list());
}

#[test]
fn list() {
    let a = Cons::cons(Number::new(1), Cons::cons(Number::new(2), Empty::empty()));
    assert!(a.is_list());
    assert!(!a.is_tuple());
    let b = Cons::cons(Number::new(1), Cons::cons(Number::new(2), Number::new(3)));
    assert!(!b.is_list());
    assert!(b.is_tuple());
}

#[test]
fn number_is_self_evaluating() {
    let env = Environment::empty(None);
    let r = Number::new(7).eval(&env).unwrap();
    assert_eq!(r.display(), "7");
    assert!(!r.is_empty());
    assert!(!r.is_list());
    assert!(!r.is_tuple());
}

#[test]
fn number_displays_decimal_text() {
    assert_eq!(Number::new(0).display(), "0");
    assert_eq!(Number::new(7).display(), "7");
    assert_eq!(Number::new(-42).display(), "-42");
    assert_eq!(Number::new(1234567890).display(), "1234567890");
    assert_eq!(Number::new(i64::MAX).display(), "9223372036854775807");
    assert_eq!(Number::new(i64::MIN).display(), "-9223372036854775808");
}

#[test]
fn empty_is_self_evaluating() {
    let env = Environment::empty(None);
    let r = Empty::empty().eval(&env).unwrap();
    assert!(r.is_empty());
    assert!(r.is_list());
    assert!(!r.is_tuple());
    assert_eq!(r.display(), "()");
}

#[test]
fn pair_with_number_tail_is_tuple() {
    let a = Cons::cons(Identifier::new(String::from("a")), Number::new(3));
    assert!(a.is_tuple());
    assert!(!a.is_list());
    assert_eq!(a.display(), "a, 3");
}

#[test]
fn unbound_identifier_reports_its_name() {
    let env = Environment::empty(None);
    let r = Identifier::new(String::from("z")).eval(&env);
    match r {
        Err(EvalError::UnboundIdentifier(name)) => assert_eq!(name, "z"),
        _ => panic!("expected an unbound-identifier condition"),
    }
}

#[test]
fn bound_identifier_resolves_to_its_value() {
    let root = Arc::new(Environment::empty(None));
    let env = root.bind(String::from("x"), Number::new(1));
    let r = Identifier::new(String::from("x")).eval(&env).unwrap();
    assert_eq!(r.display(), "1");
}

#[test]
fn list_displays_with_trailing_delimiter_only() {
    let b = Cons::cons(Number::new(1), Cons::cons(Number::new(2), Empty::empty()));
    assert!(b.is_list());
    assert_eq!(b.display(), "1, 2)");
}

#[test]
fn pair_is_self_evaluating() {
    let env = Environment::empty(None);
    let b = Cons::cons(Number::new(1), Cons::cons(Number::new(2), Empty::empty()));
    let r = b.eval(&env).unwrap();
    assert_eq!(r.display(), "1, 2)");
    assert!(r.is_list());
}

#[test]
fn lambda_displays_parameter_and_body() {
    let body = Cons::cons(
        Identifier::new(String::from("+")),
        Cons::cons(Identifier::new(String::from("x")), Cons::cons(Number::new(1), Empty::empty())),
    );
    let l = Lambda::lambda(Identifier::new(String::from("x")), body);
    assert_eq!(l.display(), "λ x -> +, x, 1)");
}

#[test]
fn lambda_is_self_evaluating() {
    let env = Environment::empty(None);
    let body = Cons::cons(Identifier::new(String::from("x")), Empty::empty());
    let l = Lambda::lambda(Identifier::new(String::from("x")), body);
    let r = l.eval(&env).unwrap();
    assert_eq!(r.display(), "λ x -> x)");
}

#[test]
fn lookup_after_bind_renders_the_bound_value() {
    let root = Arc::new(Environment::empty(None));
    let env = root.bind(String::from("x"), Number::new(1));
    let t = env.lookup("x").unwrap();
    assert_eq!(t.display(), "1");
}

#[test]
fn lookup_walks_the_chain_to_ancestors() {
    let root = Arc::new(Environment::empty(None));
    let outer = root.bind(String::from("x"), Number::new(1));
    let inner = outer.bind(String::from("y"), Number::new(2));
    assert_eq!(inner.lookup("x").unwrap().display(), "1");
    assert_eq!(inner.lookup("y").unwrap().display(), "2");
    assert!(inner.lookup("z").is_none());
}

#[test]
fn shadowing_hides_but_does_not_remove() {
    let root = Arc::new(Environment::empty(None));
    let outer = root.bind(String::from("x"), Number::new(1));
    let inner = Arc::clone(&outer).bind(String::from("x"), Number::new(2));
    assert_eq!(inner.lookup("x").unwrap().display(), "2");
    assert_eq!(outer.lookup("x").unwrap().display(), "1");
}

#[test]
fn binding_leaves_other_names_as_they_were() {
    let root = Arc::new(Environment::empty(None));
    let outer = root.bind(String::from("x"), Number::new(1));
    let extended = Arc::clone(&outer).bind(String::from("y"), Number::new(9));
    assert_eq!(extended.lookup("x").unwrap().display(), "1");
    assert_eq!(outer.lookup("x").unwrap().display(), "1");
    assert!(outer.lookup("y").is_none());
}

#[test]
fn apply_binds_the_parameter_and_evaluates_the_body() {
    let root = Arc::new(Environment::empty(None));
    let l = Lambda::lambda(
        Identifier::new(String::from("x")),
        Identifier::new(String::from("x")),
    );
    let r = l.apply(Number::new(2), root).unwrap();
    assert_eq!(r.display(), "2");
}

#[test]
fn apply_extends_the_callers_environment() {
    let root = Arc::new(Environment::empty(None));
    let env = root.bind(String::from("y"), Number::new(5));
    let l = Lambda::lambda(
        Identifier::new(String::from("x")),
        Identifier::new(String::from("y")),
    );
    let r = l.apply(Number::new(2), env).unwrap();
    assert_eq!(r.display(), "5");
}

#[test]
fn apply_over_a_pair_body_returns_the_pair() {
    let root = Arc::new(Environment::empty(None));
    let body = Cons::cons(
        Identifier::new(String::from("+")),
        Cons::cons(Identifier::new(String::from("x")), Cons::cons(Number::new(1), Empty::empty())),
    );
    let l = Lambda::lambda(Identifier::new(String::from("x")), body);
    let env = root.bind(String::from("x"), Number::new(1));
    let r = l.apply(Number::new(2), env).unwrap();
    assert_eq!(r.display(), "+, x, 1)");
}

#[test]
fn identifier_displays_its_name_verbatim() {
    assert_eq!(Identifier::new(String::from("some-name")).display(), "some-name");
}

#[test]
fn nested_lambda_displays_recursively() {
    let inner = Lambda::lambda(
        Identifier::new(String::from("y")),
        Identifier::new(String::from("y")),
    );
    let outer = Lambda::lambda(Identifier::new(String::from("x")), inner);
    assert_eq!(outer.display(), "λ x -> λ y -> y");
}
