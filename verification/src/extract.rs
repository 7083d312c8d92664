//! The two ways in which a component is reached from an owner.

use vstd::prelude::*;

verus! {

/// A rule that reaches a component of type `U` inside an owner of type `T`.
pub(crate) trait Extract<T, U> {
    /// The rule may be applied to `owner`, and always reaches the same
    /// component there.
    spec fn defined(&self, owner: T) -> bool;

    /// The component that the rule reaches in `owner`.
    spec fn target(&self, owner: T) -> U;

    fn extract<'a>(&self, owner: &'a T) -> (found: &'a U)
        requires
            self.defined(*owner),
        ensures
            *found == self.target(*owner),
    ;
}

/// An extractor that reaches its component in every owner it accepts.
pub(crate) struct Total<F> {
    pub(crate) f: F,
}

impl<T, U, F: Fn(&T) -> &U> Extract<T, U> for Total<F> {
    open spec fn defined(&self, owner: T) -> bool {
        &&& self.f.requires((&owner,))
        &&& forall|a: &U, b: &U|
            self.f.ensures((&owner,), a) && self.f.ensures((&owner,), b) ==> *a == *b
    }

    open spec fn target(&self, owner: T) -> U {
        choose|target: U| self.f.ensures((&owner,), &target)
    }

    fn extract<'a>(&self, owner: &'a T) -> (found: &'a U) {
        (self.f)(owner)
    }
}

/// An extractor that may find no component, used on an owner in which it
/// finds one.
pub(crate) struct Partial<G> {
    pub(crate) g: G,
}

impl<T, U, G: Fn(&T) -> Option<&U>> Extract<T, U> for Partial<G> {
    open spec fn defined(&self, owner: T) -> bool {
        &&& self.g.requires((&owner,))
        &&& forall|a: Option<&U>| self.g.ensures((&owner,), a) ==> a.is_some()
        &&& forall|a: Option<&U>, b: Option<&U>|
            self.g.ensures((&owner,), a) && self.g.ensures((&owner,), b) ==> a == b
    }

    open spec fn target(&self, owner: T) -> U {
        choose|target: U| self.g.ensures((&owner,), Some(&target))
    }

    fn extract<'a>(&self, owner: &'a T) -> (found: &'a U) {
        match (self.g)(owner) {
            Some(found) => found,
            None => vstd::pervasive::unreached(),
        }
    }
}

} // verus!
