//! The pool of shots in flight. It never holds more than
//! `MAX_PROJECTILES` shots: a launch into a full pool is refused and the shot
//! is not fired.
use vstd::prelude::*;

verus! {

pub const MAX_PROJECTILES: usize = 32;

/// Who fired a shot.
#[derive(Clone, Copy, Debug, PartialEq, Eq, Structural)]
pub enum Owner {
    Player,
    Bot,
}

/// Shots in flight, oldest first.
pub struct Projectiles<P> {
    pub list: Vec<P>,
}

impl<P> Projectiles<P> {
    /// An empty pool with room for every shot it may hold.
    pub fn new() -> (r: Self)
        ensures
            r.list@.len() == 0,
    {
        Projectiles { list: Vec::with_capacity(MAX_PROJECTILES) }
    }

    /// Whether one more shot may be launched.
    pub fn available(&self) -> (r: bool)
        ensures
            r == (self.list@.len() < MAX_PROJECTILES),
    {
        self.list.len() < MAX_PROJECTILES
    }

    /// Adds `shot` behind the others when the pool has room; returns whether
    /// it did. A refused shot leaves the pool as it was.
    pub fn enqueue(&mut self, shot: P) -> (r: bool)
        ensures
            r == (old(self).list@.len() < MAX_PROJECTILES),
            r ==> final(self).list@ == old(self).list@.push(shot),
            !r ==> final(self).list@ == old(self).list@,
    {
        if !self.available() {
            return false;
        }
        self.list.push(shot);
        true
    }
}

impl<P> Default for Projectiles<P> {
    fn default() -> (r: Self)
        ensures
            r.list@.len() == 0,
    {
        Self::new()
    }
}

/// However many shots are launched, a pool that starts within its bound
/// stays within it.
pub proof fn lemma_pool_stays_bounded<P>(before: Seq<P>, after: Seq<P>, shot: P, accepted: bool)
    requires
        before.len() <= MAX_PROJECTILES,
        accepted == (before.len() < MAX_PROJECTILES),
        accepted ==> after == before.push(shot),
        !accepted ==> after == before,
    ensures
        after.len() <= MAX_PROJECTILES,
{
}

} // verus!
