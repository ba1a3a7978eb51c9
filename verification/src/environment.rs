//! Persistent, chained environments mapping identifier names to expression
//! values. A frame is never mutated after construction: `bind` layers a new
//! frame over the receiver, so every extension of a frame, and the frame
//! itself, remain valid and usable independently. Ownership of a frame is
//! shared, through reference counting, among every frame built on top of it
//! and every caller holding it.

use std::sync::Arc;
use vstd::prelude::*;
use crate::expr::{Expr, Expression, expr_model};
use crate::model::ExprModel;

verus! {

/// One frame of the environment chain: at most one binding of its own, and
/// an optional reference to a parent frame. Root frames have no parent. The
/// two constructors keep that shape: `empty` makes a frame with no binding,
/// and `bind` makes a frame holding exactly one.
pub struct Environment {
    parent: Option<Arc<Environment>>,
    binding: Option<(String, Expression)>,
}

impl Environment {
    /// The bindings visible through this frame and its ancestors, the
    /// nearest frame winning on a shadowed name.
    pub closed spec fn bindings(self) -> Map<Seq<char>, ExprModel>
        decreases self,
    {
        let base = match self.parent {
            Option::Some(p) => (*p).bindings(),
            Option::None => Map::empty(),
        };
        match self.binding {
            Option::Some(b) => base.insert(b.0@, expr_model(b.1)),
            Option::None => base,
        }
    }

    /// A frame with no bindings of its own, chained onto `parent`; a root
    /// frame when `parent` is `None`.
    pub fn empty(parent: Option<Arc<Environment>>) -> (r: Environment)
        ensures
            r@ == (match parent {
                Option::Some(p) => p@,
                Option::None => Map::<Seq<char>, ExprModel>::empty(),
            }),
    {
        Environment { parent, binding: None }
    }

    /// The value bound to `id`, walking the chain innermost-first and
    /// returning the nearest binding; `None` exactly when the whole chain
    /// holds no binding for `id`.
    pub fn lookup(&self, id: &str) -> (r: Option<&Expression>)
        ensures
            (match r {
                Option::Some(v) => self@.contains_key(id@) && expr_model(*v) == self@[id@],
                Option::None => !self@.contains_key(id@),
            }),
        decreases self,
    {
        match &self.binding {
            Option::Some(b) => {
                if b.0 == id.to_owned() {
                    Option::Some(&b.1)
                } else {
                    match &self.parent {
                        Option::Some(p) => (&**p).lookup(id),
                        Option::None => Option::None,
                    }
                }
            },
            Option::None => {
                match &self.parent {
                    Option::Some(p) => (&**p).lookup(id),
                    Option::None => Option::None,
                }
            },
        }
    }

    /// Layers one new binding over this frame: returns a new frame holding
    /// exactly `var -> value` and a reference to the receiver, which is left
    /// unchanged and remains valid and usable independently. Binding a name
    /// already bound in an ancestor hides, but does not remove, the
    /// ancestor's binding: a holder of the unshadowed ancestor still
    /// resolves the original value.
    pub fn bind<V: Expr>(self: Arc<Self>, var: String, value: V) -> (r: Arc<Environment>)
        ensures
            r@ == self@.insert(var@, value.model()),
    {
        Arc::new(
            Environment { parent: Some(self), binding: Some((var, value.to_expression())) },
        )
    }
}

impl View for Environment {
    type V = Map<Seq<char>, ExprModel>;

    closed spec fn view(&self) -> Map<Seq<char>, ExprModel> {
        self.bindings()
    }
}

} // verus!
