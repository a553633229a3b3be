use vstd::prelude::*;

verus! {

/// A table of actors kept as parallel arrays: the actor with id `i` has
/// position `positions[i]`, angle `angles[i]` and sprite `sprites[i]`.
/// The table is generic over what a position, an angle and a sprite are.
pub struct Actor<P, A, S> {
    pub positions: Vec<P>,
    pub angles: Vec<A>,
    pub sprites: Vec<S>,
}

impl<P, A, S> Actor<P, A, S> {
    /// The three arrays have one entry per actor.
    pub open spec fn wf(&self) -> bool {
        &&& self.positions@.len() == self.sprites@.len()
        &&& self.angles@.len() == self.sprites@.len()
    }

    /// The number of actors, counted by their sprites.
    pub open spec fn count(&self) -> nat {
        self.sprites@.len()
    }

    /// The position, angle and sprite of actor `id`.
    pub open spec fn entry(&self, id: int) -> (P, A, S) {
        (self.positions@[id], self.angles@[id], self.sprites@[id])
    }

    /// An empty table.
    pub fn new() -> (a: Actor<P, A, S>)
        ensures
            a.wf(),
            a.positions@ == Seq::<P>::empty(),
            a.angles@ == Seq::<A>::empty(),
            a.sprites@ == Seq::<S>::empty(),
    {
        Actor { positions: Vec::new(), angles: Vec::new(), sprites: Vec::new() }
    }

    /// Appends an actor and returns its id, the index of its sprite.
    pub fn create_actor(&mut self, pos: P, rad: A, sprite: S) -> (id: usize)
        ensures
            final(self).positions@ == old(self).positions@.push(pos),
            final(self).angles@ == old(self).angles@.push(rad),
            final(self).sprites@ == old(self).sprites@.push(sprite),
            id == old(self).count(),
            final(self).count() == old(self).count() + 1,
            old(self).wf() ==> final(self).wf(),
            old(self).wf() ==> final(self).entry(id as int) == (pos, rad, sprite),
            forall|i: int|
                0 <= i < old(self).count() && old(self).wf() ==> #[trigger] final(self).entry(i)
                    == old(self).entry(i),
    {
        self.positions.push(pos);
        self.angles.push(rad);
        self.sprites.push(sprite);
        self.sprites.len() - 1
    }
}

} // verus!
