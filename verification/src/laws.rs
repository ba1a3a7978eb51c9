//! The library's general laws, each stated over the specification functions
//! and views that the executable contracts use, and proved once for all
//! inputs.

use vstd::prelude::*;
use crate::model::{ExprModel, display_spec, eval_spec, is_empty_spec, is_list_spec, is_tuple_spec};
use crate::numeral::decimal_int;

verus! {

/// A number literal is self-evaluating under every environment, and renders
/// as the decimal text of its value.
pub proof fn lemma_number_is_self_evaluating(n: i64, env: Map<Seq<char>, ExprModel>)
    ensures
        eval_spec(ExprModel::Number(n as int), env) == Result::<ExprModel, Seq<char>>::Ok(
            ExprModel::Number(n as int),
        ),
        display_spec(ExprModel::Number(n as int)) == decimal_int(n as int),
{
}

/// The empty list is self-evaluating under every environment, is empty, and
/// is the trivial list.
pub proof fn lemma_empty_is_trivial_list(env: Map<Seq<char>, ExprModel>)
    ensures
        eval_spec(ExprModel::Empty, env) == Result::<ExprModel, Seq<char>>::Ok(ExprModel::Empty),
        is_empty_spec(ExprModel::Empty),
        is_list_spec(ExprModel::Empty),
{
}

/// A two-element chain closed by `Empty` is a proper list and not a tuple,
/// whatever its elements are.
pub proof fn lemma_chain_closed_by_empty_is_list(a: ExprModel, b: ExprModel)
    ensures
        is_list_spec(
            ExprModel::Cons(
                Box::new(a),
                Box::new(ExprModel::Cons(Box::new(b), Box::new(ExprModel::Empty))),
            ),
        ),
        !is_tuple_spec(
            ExprModel::Cons(
                Box::new(a),
                Box::new(ExprModel::Cons(Box::new(b), Box::new(ExprModel::Empty))),
            ),
        ),
{
    reveal_with_fuel(is_list_spec, 4);
}

/// A pair whose tail is a number literal is a tuple and not a list,
/// whatever its head is.
pub proof fn lemma_number_tailed_pair_is_tuple(a: ExprModel, n: int)
    ensures
        is_tuple_spec(ExprModel::Cons(Box::new(a), Box::new(ExprModel::Number(n)))),
        !is_list_spec(ExprModel::Cons(Box::new(a), Box::new(ExprModel::Number(n)))),
{
    reveal_with_fuel(is_list_spec, 2);
}

/// Looking a name up right after binding it yields the bound value: the
/// bindings seen through `bind(env, x, v)` hold `x`, and hold it at `v`.
pub proof fn lemma_lookup_after_bind(env: Map<Seq<char>, ExprModel>, x: Seq<char>, v: ExprModel)
    ensures
        env.insert(x, v).contains_key(x),
        env.insert(x, v)[x] == v,
{
}

/// Binding one name leaves every other name exactly as it was: under the
/// new frame a distinct name resolves as it did under the old environment,
/// bound or unbound alike. The old environment itself is unaffected by the
/// call: `bind` never mutates a frame, it only layers a new one on top.
pub proof fn lemma_bind_preserves_other_names(
    env: Map<Seq<char>, ExprModel>,
    x: Seq<char>,
    y: Seq<char>,
    v: ExprModel,
)
    requires
        x != y,
    ensures
        env.insert(x, v).contains_key(y) == env.contains_key(y),
        env.contains_key(y) ==> env.insert(x, v)[y] == env[y],
{
}

/// The two classifications are mutually exclusive: no expression is both a
/// proper list and a tuple, and a pair is a tuple exactly when it is not a
/// list.
pub proof fn lemma_list_and_tuple_are_exclusive(e: ExprModel)
    ensures
        !(is_list_spec(e) && is_tuple_spec(e)),
        e is Cons ==> is_tuple_spec(e) == !is_list_spec(e),
{
}

/// An identifier that is unbound through the whole chain evaluates to the
/// unbound-identifier condition carrying that very name; a bound one
/// evaluates to the nearest binding.
pub proof fn lemma_identifier_resolution(name: Seq<char>, env: Map<Seq<char>, ExprModel>)
    ensures
        !env.contains_key(name) ==> eval_spec(ExprModel::Identifier(name), env)
            == Result::<ExprModel, Seq<char>>::Err(name),
        env.contains_key(name) ==> eval_spec(ExprModel::Identifier(name), env)
            == Result::<ExprModel, Seq<char>>::Ok(env[name]),
{
}

} // verus!
