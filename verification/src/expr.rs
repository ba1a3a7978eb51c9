//! The closed set of expression kinds and the capability contract they all
//! implement: evaluation under an environment, textual rendering, and
//! structural classification. Nodes are immutable once constructed; every
//! operation returns a newly constructed node or an existing shared node.

use std::sync::Arc;
use vstd::prelude::*;
use vstd::string::StringExecFns;
use crate::environment::Environment;
use crate::model::{ExprModel, display_spec, eval_spec, is_empty_spec, is_list_spec, is_tuple_spec};
use crate::numeral::decimal_i64;

verus! {

/// The empty list, textually `()`. Self-evaluating, and the trivial list.
#[derive(Debug)]
pub struct Empty {}

/// A 64-bit integer literal. Self-evaluating.
#[derive(Debug)]
pub struct Number {
    inner: i64,
}

/// A reference to a bound value, resolved through the environment chain at
/// evaluation time.
#[derive(Debug)]
pub struct Identifier {
    inner: String,
}

/// An ordered pair. Chains of `Cons` terminated by `Empty` form proper
/// lists; chains terminated by anything else are tuples.
#[derive(Debug)]
pub struct Cons {
    car: Arc<Expression>,
    cdr: Arc<Expression>,
}

/// A single-parameter closure value.
#[derive(Debug)]
pub struct Lambda {
    params: Identifier,
    body: Arc<Expression>,
}

/// An expression node: exactly one of the five kinds.
#[derive(Debug)]
pub enum Expression {
    Empty(Empty),
    Number(Number),
    Identifier(Identifier),
    Cons(Cons),
    Lambda(Lambda),
}

/// The single error condition of evaluation: a name was resolved through the
/// whole environment chain without a match. Carries the unresolved name.
#[derive(Debug)]
pub enum EvalError {
    UnboundIdentifier(String),
}

/// The abstract value of an expression node.
pub closed spec fn expr_model(e: Expression) -> ExprModel
    decreases e,
{
    match e {
        Expression::Empty(_) => ExprModel::Empty,
        Expression::Number(n) => ExprModel::Number(n.inner as int),
        Expression::Identifier(i) => ExprModel::Identifier(i.inner@),
        Expression::Cons(c) => ExprModel::Cons(
            Box::new(expr_model(*c.car)),
            Box::new(expr_model(*c.cdr)),
        ),
        Expression::Lambda(l) => ExprModel::Lambda(
            l.params.inner@,
            Box::new(expr_model(*l.body)),
        ),
    }
}

/// How an executable evaluation result relates to the specification: success
/// carries an expression with the specified value, failure carries the
/// specified unresolved name.
pub open spec fn eval_matches(
    e: ExprModel,
    env: Map<Seq<char>, ExprModel>,
    r: Result<Expression, EvalError>,
) -> bool {
    match (r, eval_spec(e, env)) {
        (Ok(v), Ok(m)) => expr_model(v) == m,
        (Err(EvalError::UnboundIdentifier(s)), Err(name)) => s@ == name,
        _ => false,
    }
}

/// The capability contract every expression kind implements.
pub trait Expr: Sized {
    /// The abstract value of this node.
    spec fn model(&self) -> ExprModel;

    /// Produces the node's value under `env`; never mutates the node or the
    /// environment. Fails exactly when the node is an identifier whose name
    /// is unbound through the whole chain.
    fn eval(&self, env: &Environment) -> (r: Result<Expression, EvalError>)
        ensures
            eval_matches(self.model(), env@, r),
    ;

    /// A human-readable rendering of the node.
    fn display(&self) -> (r: String)
        ensures
            r@ == display_spec(self.model()),
    ;

    /// The node as an `Expression` with the same abstract value.
    fn to_expression(&self) -> (r: Expression)
        ensures
            expr_model(r) == self.model(),
    ;

    /// Whether the node is the empty list.
    fn is_empty(&self) -> (r: bool)
        ensures
            r == is_empty_spec(self.model()),
    ;

    /// Whether the node is a proper list.
    fn is_list(&self) -> (r: bool)
        ensures
            r == is_list_spec(self.model()),
    ;

    /// Whether the node is a tuple.
    fn is_tuple(&self) -> (r: bool)
        ensures
            r == is_tuple_spec(self.model()),
    ;
}

/// Relies on std's `Arc::clone`: the returned handle shares the same
/// allocation as the original, so both hold the same value.
#[verifier::external_body]
fn clone_arc(e: &Arc<Expression>) -> (r: Arc<Expression>)
    ensures
        r == *e,
{
    e.clone()
}

/// A newly constructed node equal to `e`; shares `e`'s children rather than
/// copying them.
fn duplicate(e: &Expression) -> (r: Expression)
    ensures
        r == *e,
{
    match e {
        Expression::Empty(_) => Expression::Empty(Empty {}),
        Expression::Number(x) => Expression::Number(Number { inner: x.inner }),
        Expression::Identifier(x) => Expression::Identifier(
            Identifier { inner: x.inner.clone() },
        ),
        Expression::Cons(c) => Expression::Cons(
            Cons { car: clone_arc(&c.car), cdr: clone_arc(&c.cdr) },
        ),
        Expression::Lambda(l) => Expression::Lambda(
            Lambda { params: Identifier { inner: l.params.inner.clone() }, body: clone_arc(&l.body) },
        ),
    }
}

/// Evaluates `e` under `env` by dispatching on its kind.
fn eval_of(e: &Expression, env: &Environment) -> (r: Result<Expression, EvalError>)
    ensures
        eval_matches(expr_model(*e), env@, r),
{
    match e {
        Expression::Empty(x) => x.eval(env),
        Expression::Number(x) => x.eval(env),
        Expression::Identifier(x) => x.eval(env),
        Expression::Cons(x) => x.eval(env),
        Expression::Lambda(x) => x.eval(env),
    }
}

/// Renders `e` by dispatching on its kind.
fn display_of(e: &Expression) -> (r: String)
    ensures
        r@ == display_spec(expr_model(*e)),
    decreases *e,
{
    match e {
        Expression::Empty(_) => String::from_str("()"),
        Expression::Number(n) => decimal_i64(n.inner),
        Expression::Identifier(i) => i.inner.clone(),
        Expression::Cons(c) => display_cons(c),
        Expression::Lambda(l) => display_lambda(l),
    }
}

/// Renders a pair: `car, cdr` while the chain continues, and a single
/// trailing `)` on the last element before an `Empty` terminator. No opening
/// delimiter is ever emitted; the asymmetry is part of the observed output
/// contract and is kept verbatim.
fn display_cons(c: &Cons) -> (r: String)
    ensures
        r@ == display_spec(
            ExprModel::Cons(Box::new(expr_model(*c.car)), Box::new(expr_model(*c.cdr))),
        ),
    decreases *c,
{
    let mut out = display_of(&*c.car);
    let cdr_ref: &Expression = &*c.cdr;
    if !cdr_ref.is_empty() {
        out.append(", ");
        let cdr_text = display_of(cdr_ref);
        out.append(cdr_text.as_str());
    } else {
        out.append(")");
    }
    out
}

/// Renders a lambda as `λ parameter -> body`.
fn display_lambda(l: &Lambda) -> (r: String)
    ensures
        r@ == display_spec(
            ExprModel::Lambda(l.params.inner@, Box::new(expr_model(*l.body))),
        ),
    decreases *l,
{
    let mut out = String::from_str("λ ");
    out.append(l.params.inner.as_str());
    out.append(" -> ");
    let body_text = display_of(&*l.body);
    out.append(body_text.as_str());
    out
}

/// Whether `e` is a proper list: its `Cons` chain is terminated by `Empty`.
fn is_list_of(e: &Expression) -> (r: bool)
    ensures
        r == is_list_spec(expr_model(*e)),
    decreases *e,
{
    match e {
        Expression::Empty(_) => true,
        Expression::Cons(c) => is_list_of(&*c.cdr),
        _ => false,
    }
}

impl Empty {
    /// The empty list.
    pub fn empty() -> (r: Empty)
        ensures
            r.model() == ExprModel::Empty,
    {
        Empty {}
    }
}

impl Expr for Empty {
    closed spec fn model(&self) -> ExprModel {
        ExprModel::Empty
    }

    fn eval(&self, env: &Environment) -> Result<Expression, EvalError> {
        Ok(Expression::Empty(Empty {}))
    }

    fn display(&self) -> String {
        String::from_str("()")
    }

    fn to_expression(&self) -> Expression {
        Expression::Empty(Empty {})
    }

    fn is_empty(&self) -> bool {
        true
    }

    fn is_list(&self) -> bool {
        true
    }

    fn is_tuple(&self) -> bool {
        false
    }
}

impl Number {
    /// A number literal with value `n`.
    pub fn new(n: i64) -> (r: Number)
        ensures
            r.model() == ExprModel::Number(n as int),
    {
        Number { inner: n }
    }
}

impl Expr for Number {
    closed spec fn model(&self) -> ExprModel {
        ExprModel::Number(self.inner as int)
    }

    fn eval(&self, env: &Environment) -> Result<Expression, EvalError> {
        Ok(Expression::Number(Number { inner: self.inner }))
    }

    fn display(&self) -> String {
        decimal_i64(self.inner)
    }

    fn to_expression(&self) -> Expression {
        Expression::Number(Number { inner: self.inner })
    }

    fn is_empty(&self) -> bool {
        false
    }

    fn is_list(&self) -> bool {
        false
    }

    fn is_tuple(&self) -> bool {
        false
    }
}

impl Identifier {
    /// An identifier named `s`.
    pub fn new(s: String) -> (r: Identifier)
        ensures
            r.model() == ExprModel::Identifier(s@),
    {
        Identifier { inner: s }
    }

    /// The identifier's name.
    pub closed spec fn name_spec(&self) -> Seq<char> {
        self.inner@
    }
}

impl Expr for Identifier {
    closed spec fn model(&self) -> ExprModel {
        ExprModel::Identifier(self.inner@)
    }

    fn eval(&self, env: &Environment) -> Result<Expression, EvalError> {
        match env.lookup(self.inner.as_str()) {
            Some(v) => Ok(duplicate(v)),
            None => Err(EvalError::UnboundIdentifier(self.inner.clone())),
        }
    }

    fn display(&self) -> String {
        self.inner.clone()
    }

    fn to_expression(&self) -> Expression {
        Expression::Identifier(Identifier { inner: self.inner.clone() })
    }

    fn is_empty(&self) -> bool {
        false
    }

    fn is_list(&self) -> bool {
        false
    }

    fn is_tuple(&self) -> bool {
        false
    }
}

impl Cons {
    /// A pair of `a` and `b`.
    pub fn cons<A: Expr, B: Expr>(a: A, b: B) -> (r: Cons)
        ensures
            r.model() == ExprModel::Cons(Box::new(a.model()), Box::new(b.model())),
    {
        Cons { car: Arc::new(a.to_expression()), cdr: Arc::new(b.to_expression()) }
    }
}

impl Expr for Cons {
    closed spec fn model(&self) -> ExprModel {
        ExprModel::Cons(Box::new(expr_model(*self.car)), Box::new(expr_model(*self.cdr)))
    }

    fn eval(&self, env: &Environment) -> Result<Expression, EvalError> {
        Ok(Expression::Cons(Cons { car: clone_arc(&self.car), cdr: clone_arc(&self.cdr) }))
    }

    fn display(&self) -> String {
        display_cons(self)
    }

    fn to_expression(&self) -> Expression {
        Expression::Cons(Cons { car: clone_arc(&self.car), cdr: clone_arc(&self.cdr) })
    }

    fn is_empty(&self) -> bool {
        false
    }

    fn is_list(&self) -> bool {
        is_list_of(&*self.cdr)
    }

    fn is_tuple(&self) -> bool {
        !is_list_of(&*self.cdr)
    }
}

impl Lambda {
    /// A lambda with parameter `a` and body `b`.
    pub fn lambda<B: Expr>(a: Identifier, b: B) -> (r: Lambda)
        ensures
            r.model() == ExprModel::Lambda(a.name_spec(), Box::new(b.model())),
    {
        Lambda { params: a, body: Arc::new(b.to_expression()) }
    }

    /// The parameter's name.
    pub closed spec fn param_spec(&self) -> Seq<char> {
        self.params.inner@
    }

    /// The body's abstract value.
    pub closed spec fn body_spec(&self) -> ExprModel {
        expr_model(*self.body)
    }

    /// Applies the lambda to `value`: extends the caller-supplied `env` with
    /// one binding, the parameter's name to `value`, and evaluates the body
    /// under the resulting frame. The environment extended is the caller's,
    /// not one captured when the lambda was built, which yields dynamic
    /// rather than lexical scoping; that contract is kept as stated.
    pub fn apply<V: Expr>(&self, value: V, env: Arc<Environment>) -> (r: Result<
        Expression,
        EvalError,
    >)
        ensures
            eval_matches(self.body_spec(), env@.insert(self.param_spec(), value.model()), r),
    {
        let frame = env.bind(self.params.inner.clone(), value);
        eval_of(&*self.body, &*frame)
    }
}

impl Expr for Lambda {
    closed spec fn model(&self) -> ExprModel {
        ExprModel::Lambda(self.params.inner@, Box::new(expr_model(*self.body)))
    }

    fn eval(&self, env: &Environment) -> Result<Expression, EvalError> {
        Ok(Expression::Lambda(
            Lambda {
                params: Identifier { inner: self.params.inner.clone() },
                body: clone_arc(&self.body),
            },
        ))
    }

    fn display(&self) -> String {
        display_lambda(self)
    }

    fn to_expression(&self) -> Expression {
        Expression::Lambda(
            Lambda {
                params: Identifier { inner: self.params.inner.clone() },
                body: clone_arc(&self.body),
            },
        )
    }

    fn is_empty(&self) -> bool {
        false
    }

    fn is_list(&self) -> bool {
        false
    }

    fn is_tuple(&self) -> bool {
        false
    }
}

impl Expr for Expression {
    closed spec fn model(&self) -> ExprModel {
        expr_model(*self)
    }

    fn eval(&self, env: &Environment) -> Result<Expression, EvalError> {
        eval_of(self, env)
    }

    fn display(&self) -> String {
        display_of(self)
    }

    fn to_expression(&self) -> Expression {
        duplicate(self)
    }

    fn is_empty(&self) -> bool {
        match self {
            Expression::Empty(_) => true,
            _ => false,
        }
    }

    fn is_list(&self) -> bool {
        is_list_of(self)
    }

    fn is_tuple(&self) -> bool {
        match self {
            Expression::Cons(c) => !is_list_of(&*c.cdr),
            _ => false,
        }
    }
}

} // verus!
