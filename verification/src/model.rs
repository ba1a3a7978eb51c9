//! The mathematical model of expression trees: a ghost datatype mirroring the
//! five expression kinds, and the specification functions for classification,
//! rendering and evaluation that every executable contract refers to.

use vstd::prelude::*;
use crate::numeral::decimal_int;

verus! {

/// The abstract value of an expression tree.
///
/// `Cons` chains terminated by `Empty` are proper lists; chains terminated by
/// anything else are tuples. A `Lambda` carries its parameter's name and its
/// body.
pub enum ExprModel {
    Empty,
    Number(int),
    Identifier(Seq<char>),
    Cons(Box<ExprModel>, Box<ExprModel>),
    Lambda(Seq<char>, Box<ExprModel>),
}

/// Whether `e` is the empty list.
pub open spec fn is_empty_spec(e: ExprModel) -> bool {
    e is Empty
}

/// Whether `e` is a proper list: `Empty` is the trivial list, and a `Cons`
/// chain is a list exactly when its terminal `cdr` is `Empty`.
pub open spec fn is_list_spec(e: ExprModel) -> bool
    decreases e,
{
    match e {
        ExprModel::Empty => true,
        ExprModel::Cons(_, cdr) => is_list_spec(*cdr),
        _ => false,
    }
}

/// Whether `e` is a tuple: a `Cons` chain whose terminal `cdr` is not
/// `Empty`. Mutually exclusive with `is_list_spec` by construction.
pub open spec fn is_tuple_spec(e: ExprModel) -> bool {
    e is Cons && !is_list_spec(e)
}

/// The rendered text of `e`.
///
/// A pair renders as `car, cdr` while the chain continues and closes with a
/// single trailing `)` on the last element before an `Empty` terminator; no
/// opening delimiter is ever emitted. That asymmetry is part of the observed
/// output contract and is kept verbatim.
pub open spec fn display_spec(e: ExprModel) -> Seq<char>
    decreases e,
{
    match e {
        ExprModel::Empty => "()"@,
        ExprModel::Number(n) => decimal_int(n),
        ExprModel::Identifier(name) => name,
        ExprModel::Cons(car, cdr) => if !(*cdr is Empty) {
            display_spec(*car) + ", "@ + display_spec(*cdr)
        } else {
            display_spec(*car) + ")"@
        },
        ExprModel::Lambda(param, body) => "λ "@ + param + " -> "@ + display_spec(*body),
    }
}

/// The value of `e` under the bindings `env`.
///
/// Every kind is self-evaluating except an identifier, which resolves to the
/// nearest binding of its name; an unbound name is the single error
/// condition, reported with the name that failed to resolve. Pairs evaluate
/// to themselves: recognizing a pair as a function call is the business of a
/// dispatch layer above this core, which invokes `apply` explicitly.
pub open spec fn eval_spec(e: ExprModel, env: Map<Seq<char>, ExprModel>) -> Result<
    ExprModel,
    Seq<char>,
> {
    match e {
        ExprModel::Identifier(name) => if env.contains_key(name) {
            Ok(env[name])
        } else {
            Err(name)
        },
        _ => Ok(e),
    }
}

} // verus!
