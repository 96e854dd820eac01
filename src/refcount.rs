//! Reference-counted native objects and the handles that own their counts.
//!
//! An [`ObjectStore`] stands for the memory in which the engine keeps objects of one
//! native struct type. Every object starts with a reference-count header; a pointer
//! to an object is a nonzero `usize`, and `0` is the null pointer. Pointers are
//! handed out in increasing order and never reused, so a pointer whose object was
//! freed can never name another object.
//!
//! A [`Handle`] owns exactly one counted reference. The count changes only through
//! the handle's construction ([`Handle::from_existing`]), duplication
//! ([`Handle::clone_in`]) and release ([`Handle::release`]).
use std::marker::PhantomData;
use vstd::prelude::*;

verus! {

/// A native object: its reference-count header and the struct behind it.
struct RefCounted<T> {
    count: u64,
    value: T,
}

/// The objects of one native struct type, addressed by pointer.
pub struct ObjectStore<T> {
    objects: Vec<Option<RefCounted<T>>>,
}

impl<T> ObjectStore<T> {
    /// Every live object holds at least one reference, and pointers stay below
    /// `usize::MAX`.
    pub closed spec fn wf(&self) -> bool {
        &&& self.objects.len() < usize::MAX
        &&& forall|i: int|
            0 <= i < self.objects.len() && #[trigger] self.objects[i] is Some
                ==> self.objects[i]->0.count >= 1
    }

    /// The live objects: each pointer maps to its reference count and its value.
    pub closed spec fn objects(&self) -> Map<usize, (nat, T)> {
        Map::new(
            |p: usize| 1 <= p <= self.objects.len() && self.objects[p - 1] is Some,
            |p: usize| (self.objects[p - 1]->0.count as nat, self.objects[p - 1]->0.value),
        )
    }

    /// The pointer that the next allocation hands out; every pointer below it was
    /// handed out already.
    pub closed spec fn next_ptr(&self) -> nat {
        (self.objects.len() + 1) as nat
    }

    /// Whether `p` points to an object that has not been freed.
    pub open spec fn is_live(&self, p: usize) -> bool {
        self.objects().contains_key(p)
    }

    /// The reference count of the live object at `p`.
    pub open spec fn count(&self, p: usize) -> nat {
        self.objects()[p].0
    }

    /// The struct of the live object at `p`.
    pub open spec fn value(&self, p: usize) -> T {
        self.objects()[p].1
    }

    /// `after` is `before` with one reference added to the live object at `p`.
    pub open spec fn added_ref(before: Self, after: Self, p: usize) -> bool {
        &&& before.is_live(p)
        &&& after.objects() == before.objects().insert(p, (before.count(p) + 1, before.value(p)))
        &&& after.next_ptr() == before.next_ptr()
    }

    /// `after` is `before` with one reference to the live object at `p` released;
    /// `freed` tells whether that was the last reference, which frees the object.
    pub open spec fn released_ref(before: Self, after: Self, p: usize, freed: bool) -> bool {
        &&& before.is_live(p)
        &&& freed == (before.count(p) == 1)
        &&& after.objects() == if freed {
            before.objects().remove(p)
        } else {
            before.objects().insert(p, ((before.count(p) - 1) as nat, before.value(p)))
        }
        &&& after.next_ptr() == before.next_ptr()
    }

    /// `after` is `before` with a new object `value` at the fresh pointer `p`,
    /// holding one reference.
    pub open spec fn allocated(before: Self, after: Self, p: usize, value: T) -> bool {
        &&& p == before.next_ptr()
        &&& after.objects() == before.objects().insert(p, (1, value))
        &&& after.next_ptr() == before.next_ptr() + 1
    }

    /// An empty store.
    pub fn new() -> (s: Self)
        ensures
            s.objects() == Map::<usize, (nat, T)>::empty(),
            s.next_ptr() == 1,
            s.wf(),
    {
        let s = ObjectStore { objects: Vec::new() };
        assert(s.objects() =~= Map::<usize, (nat, T)>::empty());
        s
    }

    /// Allocates a new object holding one reference, as a native factory does, and
    /// returns its pointer.
    pub fn allocate(&mut self, value: T) -> (p: usize)
        requires
            old(self).wf(),
            old(self).next_ptr() < usize::MAX,
        ensures
            p != 0,
            final(self).wf(),
            Self::allocated(*old(self), *final(self), p, value),
    {
        let ghost before = *self;
        self.objects.push(Some(RefCounted { count: 1, value }));
        let p = self.objects.len();
        assert(self.objects() =~= before.objects().insert(p, (1, value)));
        p
    }

    /// Whether `p` points to a live object.
    pub fn contains(&self, p: usize) -> (r: bool)
        ensures
            r == self.is_live(p),
    {
        p != 0 && p <= self.objects.len() && self.objects[p - 1].is_some()
    }

    /// The object at `p`, while it is live.
    pub fn get(&self, p: usize) -> (r: Option<&T>)
        ensures
            r is Some <==> self.is_live(p),
            r is Some ==> *r->0 == self.value(p),
    {
        if p != 0 && p <= self.objects.len() {
            match &self.objects[p - 1] {
                Some(object) => Some(&object.value),
                None => None,
            }
        } else {
            None
        }
    }

    /// The reference count of the live object at `p`.
    pub fn ref_count(&self, p: usize) -> (r: u64)
        requires
            self.wf(),
            self.is_live(p),
        ensures
            r == self.count(p),
    {
        assert(self.objects[p - 1] is Some);
        match &self.objects[p - 1] {
            Some(object) => object.count,
            None => 0,
        }
    }

    /// Whether the live object at `p` holds exactly one reference.
    pub fn has_one_ref(&self, p: usize) -> (r: bool)
        requires
            self.wf(),
            self.is_live(p),
        ensures
            r == (self.count(p) == 1),
    {
        self.ref_count(p) == 1
    }

    /// Adds a reference to the live object at `p`.
    fn add_ref(&mut self, p: usize)
        requires
            old(self).wf(),
            old(self).is_live(p),
            old(self).count(p) < u64::MAX,
        ensures
            Self::added_ref(*old(self), *final(self), p),
            final(self).wf(),
    {
        assert(self.objects[p - 1] is Some);
        let ghost before = *self;
        let slot = &mut self.objects[p - 1];
        match slot {
            Some(object) => {
                object.count = object.count + 1;
            },
            None => {},
        }
        assert(self.objects() =~= before.objects().insert(
            p,
            (before.count(p) + 1, before.value(p)),
        ));
    }

    /// Releases a reference to the live object at `p`; the last one frees the
    /// object. Returns whether it was freed.
    fn release(&mut self, p: usize) -> (freed: bool)
        requires
            old(self).wf(),
            old(self).is_live(p),
        ensures
            Self::released_ref(*old(self), *final(self), p, freed),
            final(self).wf(),
    {
        assert(self.objects[p - 1] is Some);
        let ghost before = *self;
        let count = self.ref_count(p);
        if count == 1 {
            self.objects.set(p - 1, None);
            assert(self.objects() =~= before.objects().remove(p));
            true
        } else {
            let slot = &mut self.objects[p - 1];
            match slot {
                Some(object) => {
                    object.count = object.count - 1;
                },
                None => {},
            }
            assert(self.objects() =~= before.objects().insert(
                p,
                ((before.count(p) - 1) as nat, before.value(p)),
            ));
            false
        }
    }
}

/// Owns one counted reference to a native object of type `T`. A handle is given up
/// with [`Handle::release`], or handed on with [`Handle::into_raw`]; one that is
/// merely dropped keeps its reference counted, and the object alive.
pub struct Handle<T> {
    ptr: usize,
    marker: PhantomData<T>,
}

impl<T> Handle<T> {
    #[verifier::type_invariant]
    spec fn not_null(&self) -> bool {
        self.ptr != 0
    }

    /// The pointer to the object that this handle references.
    pub closed spec fn ptr(&self) -> usize {
        self.ptr
    }

    /// Takes over the reference that a native call handed out with `ptr`, without
    /// adding one. A null pointer gives no handle.
    pub fn wrap_new(ptr: usize) -> (r: Option<Self>)
        ensures
            r is Some <==> ptr != 0,
            r is Some ==> r->0.ptr() == ptr,
    {
        if ptr == 0 {
            None
        } else {
            Some(Handle { ptr, marker: PhantomData })
        }
    }

    /// Takes over the reference that a native call handed over with `ptr`, without
    /// adding one, when `ptr` points to a live object of `store`; null or dangling
    /// pointers give no handle.
    pub fn take_over(store: &ObjectStore<T>, ptr: usize) -> (r: Option<Self>)
        ensures
            r is Some <==> store.is_live(ptr),
            r is Some ==> r->0.ptr() == ptr,
    {
        if store.contains(ptr) {
            Some(Handle { ptr, marker: PhantomData })
        } else {
            None
        }
    }

    /// Takes a reference of its own to the object at `ptr`, which the caller does
    /// not own. A pointer to no live object gives no handle and changes nothing.
    pub fn from_existing(store: &mut ObjectStore<T>, ptr: usize) -> (r: Option<Self>)
        requires
            old(store).wf(),
            old(store).is_live(ptr) ==> old(store).count(ptr) < u64::MAX,
        ensures
            final(store).wf(),
            r is Some <==> old(store).is_live(ptr),
            r is Some ==> r->0.ptr() == ptr && ObjectStore::added_ref(
                *old(store),
                *final(store),
                ptr,
            ),
            r is None ==> *final(store) == *old(store),
    {
        if store.contains(ptr) {
            store.add_ref(ptr);
            Some(Handle { ptr, marker: PhantomData })
        } else {
            None
        }
    }

    /// Takes over the reference of a pointer that is known not to be null.
    pub(crate) fn from_owned(ptr: usize) -> (r: Self)
        requires
            ptr != 0,
        ensures
            r.ptr() == ptr,
    {
        Handle { ptr, marker: PhantomData }
    }

    /// A second handle to the same object, holding a reference of its own.
    pub fn clone_in(&self, store: &mut ObjectStore<T>) -> (r: Self)
        requires
            old(store).wf(),
            old(store).is_live(self.ptr()),
            old(store).count(self.ptr()) < u64::MAX,
        ensures
            final(store).wf(),
            r.ptr() == self.ptr(),
            ObjectStore::added_ref(*old(store), *final(store), self.ptr()),
    {
        store.add_ref(self.ptr);
        Handle { ptr: self.ptr, marker: PhantomData }
    }

    /// Gives up this handle's reference. Returns whether it was the last one, in
    /// which case the object is freed.
    pub fn release(self, store: &mut ObjectStore<T>) -> (freed: bool)
        requires
            old(store).wf(),
            old(store).is_live(self.ptr()),
        ensures
            final(store).wf(),
            ObjectStore::released_ref(*old(store), *final(store), self.ptr(), freed),
    {
        store.release(self.ptr)
    }

    /// The pointer, for passing to a native call that borrows the object.
    pub fn as_ptr(&self) -> (p: usize)
        ensures
            p == self.ptr(),
            p != 0,
    {
        proof {
            use_type_invariant(self);
        }
        self.ptr
    }

    /// Hands this handle's reference to the caller as a pointer; the reference is
    /// not released.
    pub fn into_raw(self) -> (p: usize)
        ensures
            p == self.ptr(),
            p != 0,
    {
        proof {
            use_type_invariant(&self);
        }
        self.ptr
    }
}

/// One thing done to the handles of an object: duplicating a handle, or releasing one.
#[derive(PartialEq, Eq, Structural, Clone, Copy, Debug)]
pub enum HandleOp {
    Duplicate,
    Release,
}

/// The number of handles of an object that are alive after `ops`, counting from the
/// one handle that holds the reference the object was created with.
pub open spec fn live_handles(ops: Seq<HandleOp>) -> int
    decreases ops.len(),
{
    if ops.len() == 0 {
        1
    } else {
        live_handles(ops.drop_last()) + match ops.last() {
            HandleOp::Duplicate => 1int,
            HandleOp::Release => -1int,
        }
    }
}

/// `after` follows from `before` by `op` on a handle of the object at `p`, as
/// [`Handle::clone_in`] and [`Handle::release`] state it; `freed` is what the
/// release returned, and `false` for a duplication.
pub open spec fn handle_step<T>(
    before: ObjectStore<T>,
    after: ObjectStore<T>,
    op: HandleOp,
    p: usize,
    freed: bool,
) -> bool {
    match op {
        HandleOp::Duplicate => !freed && ObjectStore::added_ref(before, after, p),
        HandleOp::Release => ObjectStore::released_ref(before, after, p, freed),
    }
}

/// The requirements of [`lemma_count_matches_handles`]: `stores[i + 1]` follows from
/// `stores[i]` by `ops[i]`, and every operation acts on a handle that is alive.
pub open spec fn handle_trace<T>(
    stores: Seq<ObjectStore<T>>,
    ops: Seq<HandleOp>,
    freed: Seq<bool>,
    p: usize,
) -> bool {
    &&& stores.len() == ops.len() + 1
    &&& freed.len() == ops.len()
    &&& stores[0].is_live(p)
    &&& stores[0].count(p) == 1
    &&& forall|i: int| 0 <= i < ops.len() ==> live_handles(#[trigger] ops.take(i)) > 0
    &&& forall|i: int|
        0 <= i < ops.len() ==> handle_step(stores[i], stores[i + 1], #[trigger] ops[i], p, freed[i])
}

proof fn lemma_handles_prefix<T>(
    stores: Seq<ObjectStore<T>>,
    ops: Seq<HandleOp>,
    freed: Seq<bool>,
    p: usize,
    k: int,
)
    requires
        handle_trace(stores, ops, freed, p),
        0 <= k <= ops.len(),
    ensures
        live_handles(ops.take(k)) >= 0,
        live_handles(ops.take(k)) > 0 ==> stores[k].is_live(p) && stores[k].count(p)
            == live_handles(ops.take(k)),
        live_handles(ops.take(k)) == 0 ==> !stores[k].is_live(p),
        k > 0 ==> (freed[k - 1] <==> live_handles(ops.take(k)) == 0),
    decreases k,
{
    if k == 0 {
        assert(ops.take(0) =~= Seq::<HandleOp>::empty());
    } else {
        lemma_handles_prefix(stores, ops, freed, p, k - 1);
        assert(ops.take(k).drop_last() =~= ops.take(k - 1));
        assert(ops.take(k).last() == ops[k - 1]);
        assert(live_handles(ops.take(k - 1)) > 0);
        assert(handle_step(stores[k - 1], stores[k], ops[k - 1], p, freed[k - 1]));
    }
}

/// Law: along any sequence of duplications and releases of the handles of one
/// object, the object's reference count equals the number of live handles, and
/// exactly one release frees it: the release of its last handle.
pub proof fn lemma_count_matches_handles<T>(
    stores: Seq<ObjectStore<T>>,
    ops: Seq<HandleOp>,
    freed: Seq<bool>,
    p: usize,
)
    requires
        handle_trace(stores, ops, freed, p),
    ensures
        forall|i: int|
            0 <= i <= ops.len() && live_handles(#[trigger] ops.take(i)) > 0 ==> stores[i].is_live(p)
                && stores[i].count(p) == live_handles(ops.take(i)),
        live_handles(ops) == 0 ==> !stores.last().is_live(p),
        forall|i: int|
            0 <= i < ops.len() ==> (#[trigger] freed[i] <==> (i == ops.len() - 1 && live_handles(ops)
                == 0)),
{
    assert forall|i: int|
        0 <= i <= ops.len() && live_handles(#[trigger] ops.take(i)) > 0 implies stores[i].is_live(p)
        && stores[i].count(p) == live_handles(ops.take(i)) by {
        lemma_handles_prefix(stores, ops, freed, p, i);
    }
    lemma_handles_prefix(stores, ops, freed, p, ops.len() as int);
    assert(ops.take(ops.len() as int) =~= ops);
    assert forall|i: int| 0 <= i < ops.len() implies (#[trigger] freed[i] <==> (i == ops.len() - 1
        && live_handles(ops) == 0)) by {
        lemma_handles_prefix(stores, ops, freed, p, i + 1);
        if i + 1 < ops.len() {
            assert(live_handles(ops.take(i + 1)) > 0);
        }
    }
}

/// One change to a store: a reference added to the object at a pointer, a reference
/// released (and whether that freed the object), or a new object allocated.
pub enum StoreOp<T> {
    AddRef(usize),
    Release(usize, bool),
    Allocate(usize, T),
}

/// `after` follows from `before` by `op`, as the operations of [`ObjectStore`] and
/// [`Handle`] state it.
pub open spec fn store_step<T>(before: ObjectStore<T>, after: ObjectStore<T>, op: StoreOp<T>) -> bool {
    match op {
        StoreOp::AddRef(q) => ObjectStore::added_ref(before, after, q),
        StoreOp::Release(q, freed) => ObjectStore::released_ref(before, after, q, freed),
        StoreOp::Allocate(q, value) => ObjectStore::allocated(before, after, q, value),
    }
}

/// `stores[i + 1]` follows from `stores[i]` by `ops[i]`, for every `i`.
pub open spec fn store_trace<T>(stores: Seq<ObjectStore<T>>, ops: Seq<StoreOp<T>>) -> bool {
    &&& stores.len() == ops.len() + 1
    &&& forall|i: int| 0 <= i < ops.len() ==> store_step(stores[i], stores[i + 1], #[trigger] ops[i])
}

proof fn lemma_value_stable_prefix<T>(stores: Seq<ObjectStore<T>>, ops: Seq<StoreOp<T>>, p: usize, k: int)
    requires
        store_trace(stores, ops),
        stores[0].is_live(p),
        0 <= k <= ops.len(),
    ensures
        p < stores[k].next_ptr(),
        stores[k].is_live(p) ==> stores[k].value(p) == stores[0].value(p),
    decreases k,
{
    if k > 0 {
        lemma_value_stable_prefix(stores, ops, p, k - 1);
        assert(store_step(stores[k - 1], stores[k], ops[k - 1]));
        if stores[k].is_live(p) {
            match ops[k - 1] {
                StoreOp::Allocate(q, value) => {
                    assert(q != p);
                },
                StoreOp::Release(q, freed) => {
                    assert(stores[k - 1].is_live(p));
                },
                StoreOp::AddRef(q) => {},
            }
        }
    }
}

/// Law: the object at a pointer stays the same for as long as it is live, whatever
/// else happens in the store; once freed, the pointer never names an object again,
/// since allocation only hands out fresh pointers.
pub proof fn lemma_value_stable<T>(stores: Seq<ObjectStore<T>>, ops: Seq<StoreOp<T>>, p: usize)
    requires
        store_trace(stores, ops),
        stores[0].is_live(p),
    ensures
        forall|i: int|
            0 <= i < stores.len() && #[trigger] stores[i].is_live(p) ==> stores[i].value(p)
                == stores[0].value(p),
{
    assert forall|i: int| 0 <= i < stores.len() && #[trigger] stores[i].is_live(p) implies stores[i].value(
        p,
    ) == stores[0].value(p) by {
        lemma_value_stable_prefix(stores, ops, p, i);
    }
}

} // verus!
