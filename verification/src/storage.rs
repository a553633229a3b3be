use std::marker::PhantomData;
use vstd::prelude::*;

verus! {

/// A typed index into a [`Storage<T>`]; the only way to obtain one is
/// [`Storage::create`].
pub struct Handle<T> {
    id: usize,
    marker: PhantomData<T>,
}

impl<T> View for Handle<T> {
    type V = usize;

    closed spec fn view(&self) -> usize {
        self.id
    }
}

/// `v` is a value that `T::default()` may return.
pub open spec fn is_default_value<T: Default>(v: T) -> bool {
    call_ensures(T::default, (), v)
}

/// A growable store of values of type `T`, addressed by [`Handle`]s.
/// Each slot carries a generation counter that is kept at zero.
pub struct Storage<T> {
    counter: Vec<u16>,
    vec: Vec<T>,
}

impl<T> View for Storage<T> {
    type V = Seq<T>;

    /// The values held, in the order in which their slots were created.
    closed spec fn view(&self) -> Seq<T> {
        self.vec@
    }
}

impl<T> Storage<T> {
    /// Every slot has a generation counter, and every counter is zero.
    pub closed spec fn wf(&self) -> bool {
        &&& self.counter@.len() == self.vec@.len()
        &&& forall|i: int| 0 <= i < self.counter@.len() ==> self.counter@[i] == 0
    }
}

impl<T: Clone + Default> Storage<T> {
    /// An empty store.
    pub fn new() -> (s: Storage<T>)
        ensures
            s.wf(),
            s@ == Seq::<T>::empty(),
    {
        Storage { counter: Vec::new(), vec: Vec::new() }
    }

    /// A clone of the value stored under `h`.
    pub fn get(&self, h: &Handle<T>) -> (t: T)
        requires
            h@ < self@.len(),
        ensures
            cloned(self@[h@ as int], t),
    {
        let index = h.id;
        self.vec[index].clone()
    }

    /// Replaces the value stored under `h` by `t`.
    pub fn set(&mut self, h: &Handle<T>, t: T)
        requires
            old(self).wf(),
            h@ < old(self)@.len(),
        ensures
            final(self).wf(),
            final(self)@ == old(self)@.update(h@ as int, t),
    {
        let index = h.id;
        self.vec.set(index, t);
    }

    /// Appends a slot holding `T::default()` and returns its handle.
    pub fn create(&mut self) -> (h: Handle<T>)
        requires
            old(self).wf(),
        ensures
            final(self).wf(),
            h@ == old(self)@.len(),
            final(self)@.len() == old(self)@.len() + 1,
            final(self)@.subrange(0, old(self)@.len() as int) == old(self)@,
            is_default_value(final(self)@[h@ as int]),
    {
        let t: T = T::default();
        assert(is_default_value(t));
        self.vec.push(t);
        self.counter.push(0);
        Handle { id: self.vec.len() - 1, marker: PhantomData }
    }
}

impl<T> Handle<T> {
    /// The index of the slot this handle addresses.
    pub fn id(&self) -> (id: usize)
        ensures
            id == self@,
    {
        self.id
    }
}

/// Read after write: once `set` has stored `t` under `h`, the value under `h`
/// is `t`, so `get` through `h` returns a clone of `t`; the values under every
/// other handle, and the number of slots, stay as they were.
pub proof fn lemma_set_then_get<T: Clone + Default>(
    before: Storage<T>,
    after: Storage<T>,
    h: Handle<T>,
    t: T,
    g: Handle<T>,
)
    requires
        h@ < before@.len(),
        g@ < before@.len(),
        after@ == before@.update(h@ as int, t),
    ensures
        after@.len() == before@.len(),
        after@[h@ as int] == t,
        g@ != h@ ==> after@[g@ as int] == before@[g@ as int],
{
}

/// Handles stay valid and fresh: after `create`, every handle that addressed a
/// slot before still addresses one, reads the same value, and differs from
/// the new handle, which addresses a slot too.
pub proof fn lemma_create_keeps_handles<T: Clone + Default>(
    before: Storage<T>,
    after: Storage<T>,
    h: Handle<T>,
    g: Handle<T>,
)
    requires
        h@ == before@.len(),
        after@.len() == before@.len() + 1,
        after@.subrange(0, before@.len() as int) == before@,
        g@ < before@.len(),
    ensures
        h@ < after@.len(),
        g@ < after@.len(),
        g@ != h@,
        after@[g@ as int] == before@[g@ as int],
{
    assert(after@.subrange(0, before@.len() as int)[g@ as int] == after@[g@ as int]);
}

} // verus!
