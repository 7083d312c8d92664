//! The handle itself: construction and dereference.

use crate::extract::{Extract, Partial, Total};
use std::ops::Deref;
use std::rc::Rc;
use vstd::prelude::*;

verus! {

/// A handle that owns one share of an `Rc<T>` and dereferences to a component
/// of type `U` inside the shared owner.
///
/// The share keeps the owner alive for as long as the handle lives. The handle
/// is read-only and never changes after construction; its model is the pair of
/// `owner()` and `target()`.
#[verifier::reject_recursive_types(T)]
#[verifier::reject_recursive_types(U)]
pub struct RcRef<T, U> {
    keep_alive: Rc<T>,
    extract: Box<dyn Extract<T, U>>,
}

impl<T, U> RcRef<T, U> {
    /// The extractor is defined on the owner that this handle keeps alive.
    #[verifier::type_invariant]
    spec fn well_formed(self) -> bool {
        self.extract.defined(*self.keep_alive)
    }

    /// The owner that this handle keeps alive.
    pub closed spec fn owner(&self) -> T {
        *self.keep_alive
    }

    /// The component of the owner that this handle dereferences to.
    pub closed spec fn target(&self) -> U {
        self.extract.target(*self.keep_alive)
    }

    /// Make a handle for the component that `f` reaches in the owner behind
    /// `rc`. The share moves into the handle.
    ///
    /// The extractor must accept the owner and be deterministic on it. The
    /// handle keeps the extractor and applies it again at each dereference.
    pub fn new<F>(rc: Rc<T>, f: F) -> (view: RcRef<T, U>) where F: Fn(&T) -> &U + 'static
        requires
            f.requires((&*rc,)),
            forall|a: &U, b: &U| f.ensures((&*rc,), a) && f.ensures((&*rc,), b) ==> *a == *b,
        ensures
            view.owner() == *rc,
            f.ensures((&*rc,), &view.target()),
    {
        // Applied here as well, so that an extractor that cannot reach its
        // component stops the construction, and no dereference later on.
        f(&*rc);
        RcRef { keep_alive: rc, extract: Box::new(Total { f }) }
    }

    /// Make a handle for a component that may or may not be in the owner
    /// behind `rc`.
    ///
    /// The share is consumed either way. The result is `None` exactly when the
    /// extractor, which must be deterministic on the owner, finds no component
    /// there.
    pub fn new_opt<G>(rc: Rc<T>, g: G) -> (result: Option<RcRef<T, U>>) where
        G: Fn(&T) -> Option<&U> + 'static,

        requires
            g.requires((&*rc,)),
            forall|a: Option<&U>, b: Option<&U>|
                g.ensures((&*rc,), a) && g.ensures((&*rc,), b) ==> a == b,
        ensures
            result.is_none() <==> g.ensures((&*rc,), None),
            result.is_some() <==> exists|target: U| g.ensures((&*rc,), Some(&target)),
            result matches Some(view) ==> view.owner() == *rc && g.ensures(
                (&*rc,),
                Some(&view.target()),
            ),
    {
        let found = g(&*rc);
        let present = found.is_some();
        proof {
            if let Some(target) = found {
                assert(g.ensures((&*rc,), Some(target)));
            }
        }
        if present {
            Some(RcRef { keep_alive: rc, extract: Box::new(Partial { g }) })
        } else {
            None
        }
    }
}

impl<T, U> Deref for RcRef<T, U> {
    type Target = U;

    /// Reach the component. This always succeeds, and gives the same
    /// component at every call.
    fn deref(&self) -> (found: &U)
        ensures
            *found == self.target(),
    {
        proof {
            use_type_invariant(self);
        }
        self.extract.extract(&*self.keep_alive)
    }
}

} // verus!
