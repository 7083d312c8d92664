//! What holds of every handle, stated over the contracts of its operations.

use crate::rc_ref::RcRef;
use std::ops::Deref;
use std::rc::Rc;
use vstd::prelude::*;

verus! {

/// Transparency: dereferencing a handle made by `new` gives what the
/// extractor gives when it is applied to the owner directly.
pub proof fn deref_of_new_is_extractor_output<T, U, F>(
    rc: Rc<T>,
    f: F,
    view: RcRef<T, U>,
    found: &U,
    direct: &U,
) where F: Fn(&T) -> &U + 'static
    requires
        forall|a: &U, b: &U| f.ensures((&*rc,), a) && f.ensures((&*rc,), b) ==> *a == *b,
        call_ensures(RcRef::<T, U>::new::<F>, (rc, f), view),
        call_ensures(<RcRef<T, U> as Deref>::deref, (&view,), found),
        f.ensures((&*rc,), direct),
    ensures
        *found == *direct,
        view.owner() == *rc,
{
}

/// Dereferencing is permitted on every handle: it asks nothing of the other
/// shares of the owner, nor of anything but the handle itself.
pub proof fn deref_is_always_permitted<T, U>(view: RcRef<T, U>)
    ensures
        call_requires(<RcRef<T, U> as Deref>::deref, (&view,)),
{
}

/// Presence: where the extractor finds a component in the owner, `new_opt`
/// gives a handle, and dereferencing it gives that component.
pub proof fn new_opt_present<T, U, G>(
    rc: Rc<T>,
    g: G,
    result: Option<RcRef<T, U>>,
    direct: &U,
) where G: Fn(&T) -> Option<&U> + 'static
    requires
        forall|a: Option<&U>, b: Option<&U>|
            g.ensures((&*rc,), a) && g.ensures((&*rc,), b) ==> a == b,
        call_ensures(RcRef::<T, U>::new_opt::<G>, (rc, g), result),
        g.ensures((&*rc,), Some(direct)),
    ensures
        result matches Some(view) && view.owner() == *rc && forall|found: &U|
            call_ensures(<RcRef<T, U> as Deref>::deref, (&view,), found) ==> *found == *direct,
{
}

/// Absence: where the extractor finds no component in the owner, `new_opt`
/// gives no handle.
pub proof fn new_opt_absent<T, U, G>(rc: Rc<T>, g: G, result: Option<RcRef<T, U>>) where
    G: Fn(&T) -> Option<&U> + 'static,

    requires
        call_ensures(RcRef::<T, U>::new_opt::<G>, (rc, g), result),
        g.ensures((&*rc,), None),
    ensures
        result.is_none(),
{
}

/// Consistency: two dereferences of one handle give the same component.
pub proof fn deref_is_stable<T, U>(view: RcRef<T, U>, first: &U, second: &U)
    requires
        call_ensures(<RcRef<T, U> as Deref>::deref, (&view,), first),
        call_ensures(<RcRef<T, U> as Deref>::deref, (&view,), second),
    ensures
        *first == *second,
{
}

} // verus!
