//! Native objects whose callbacks the host implements.
//!
//! A [`Wrapped`] object places the vtable struct that the engine sees next to the
//! callback object that its slots forward to. The two are allocated together, share
//! one reference count, and are freed together when the count reaches zero; the
//! callback object's own destructor runs then, exactly once. A trampoline, called
//! with the vtable's address, finds the callback object again with
//! [`Wrapped::recover`].
use crate::refcount::{lemma_value_stable, store_trace, Handle, ObjectStore, StoreOp};
use vstd::prelude::*;

verus! {

/// A vtable struct and the callback object behind it, allocated as one.
pub struct Wrapped<V, W> {
    pub vtable: V,
    pub wrappable: W,
}

impl<V, W> Wrapped<V, W> {
    /// Allocates `vtable` with `wrappable` behind it, holding one reference, and
    /// returns the handle that owns that reference.
    pub fn wrap(store: &mut ObjectStore<Wrapped<V, W>>, vtable: V, wrappable: W) -> (h: Handle<
        Wrapped<V, W>,
    >)
        requires
            old(store).wf(),
            old(store).next_ptr() < usize::MAX,
        ensures
            final(store).wf(),
            ObjectStore::allocated(
                *old(store),
                *final(store),
                h.ptr(),
                (Wrapped { vtable, wrappable }),
            ),
    {
        let ptr = store.allocate(Wrapped { vtable, wrappable });
        Handle::from_owned(ptr)
    }

    /// The callback object behind the vtable at `this`, while the object is live.
    pub fn recover(store: &ObjectStore<Wrapped<V, W>>, this: usize) -> (r: Option<&W>)
        ensures
            r is Some <==> store.is_live(this),
            r is Some ==> *r->0 == store.value(this).wrappable,
    {
        match store.get(this) {
            Some(object) => Some(&object.wrappable),
            None => None,
        }
    }

    /// The vtable at `this`, while the object is live.
    pub fn vtable_at(store: &ObjectStore<Wrapped<V, W>>, this: usize) -> (r: Option<&V>)
        ensures
            r is Some <==> store.is_live(this),
            r is Some ==> *r->0 == store.value(this).vtable,
    {
        match store.get(this) {
            Some(object) => Some(&object.vtable),
            None => None,
        }
    }
}

/// The vtable slot of `method`: its trampoline when the implementation overrides
/// the method, else empty.
pub open spec fn slot_of<M>(overridden: bool, method: M) -> Option<M> {
    if overridden {
        Some(method)
    } else {
        None
    }
}

/// Fills the vtable slot of `method`.
pub fn slot<M>(overridden: bool, method: M) -> (r: Option<M>)
    ensures
        r == slot_of(overridden, method),
{
    if overridden {
        Some(method)
    } else {
        None
    }
}

/// Law: after `wrappable` is wrapped at `p`, recovering from `p` gives back that same
/// callback object (and the vtable beside it) for as long as the object's count has
/// not reached zero, whatever else happens in the store.
pub proof fn lemma_recover_after_wrap<V, W>(
    before: ObjectStore<Wrapped<V, W>>,
    stores: Seq<ObjectStore<Wrapped<V, W>>>,
    ops: Seq<StoreOp<Wrapped<V, W>>>,
    p: usize,
    vtable: V,
    wrappable: W,
)
    requires
        ObjectStore::allocated(before, stores[0], p, (Wrapped { vtable, wrappable })),
        store_trace(stores, ops),
    ensures
        forall|i: int|
            0 <= i < stores.len() && #[trigger] stores[i].is_live(p) ==> stores[i].value(p).wrappable
                == wrappable && stores[i].value(p).vtable == vtable,
{
    assert(stores[0].objects().contains_key(p));
    lemma_value_stable(stores, ops, p);
}

} // verus!
