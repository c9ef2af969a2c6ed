use vstd::prelude::*;

verus! {

/// A reference to an actor: a plain handle carrying the actor's identity.
///
/// An identity is the position the actor's behavior occupies in the
/// scheduler's registry. Two references denote the same actor exactly when
/// their identities coincide; the behavior an actor was created with plays
/// no part in the comparison.
#[derive(Clone, Copy, PartialEq, Eq, Structural, Debug)]
pub struct Actor {
    pub id: usize,
}

impl Actor {
    /// A reference to the actor with identity `id`.
    pub fn new(id: usize) -> (a: Actor)
        ensures
            a.id == id,
    {
        Actor { id }
    }
}

/// Equality of actor references is equality of identities: a reference
/// always equals itself, and references with distinct identities are
/// distinct actors, whatever behaviors stand behind them.
pub proof fn lemma_actor_identity(a: Actor, b: Actor)
    ensures
        a == a,
        (a == b) <==> (a.id == b.id),
{
}

} // verus!
